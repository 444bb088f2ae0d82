pub mod connection;
pub mod enums;
pub mod error;
