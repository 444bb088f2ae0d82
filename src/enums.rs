//! Plain enumerations that the engine numbers.
use crate::error::{Context, Error};
use vstd::prelude::*;

verus! {

/// The role of a connection, fixed when it is created.
#[derive(Debug, Clone, Copy, PartialEq, Eq, Structural)]
pub enum Mode {
    Server,
    Client,
}

/// The engine's number for each role.
pub const MODE_SERVER: u32 = 0;
pub const MODE_CLIENT: u32 = 1;

impl Mode {
    pub open spec fn raw_spec(self) -> u32 {
        match self {
            Mode::Server => MODE_SERVER,
            Mode::Client => MODE_CLIENT,
        }
    }

    /// The engine's number for this role.
    pub fn raw(&self) -> (r: u32)
        ensures
            r == self.raw_spec(),
    {
        match self {
            Mode::Server => MODE_SERVER,
            Mode::Client => MODE_CLIENT,
        }
    }
}

/// A protocol version that a handshake can negotiate.
#[allow(non_camel_case_types)]
#[derive(Debug, Clone, Copy, PartialEq, Eq, Structural)]
pub enum Version {
    SSLV2,
    SSLV3,
    TLS10,
    TLS11,
    TLS12,
    TLS13,
}

/// The engine's number for each protocol version.
pub const VERSION_SSLV2: i32 = 20;
pub const VERSION_SSLV3: i32 = 30;
pub const VERSION_TLS10: i32 = 31;
pub const VERSION_TLS11: i32 = 32;
pub const VERSION_TLS12: i32 = 33;
pub const VERSION_TLS13: i32 = 34;

/// The version that the engine's number `v` stands for, if any.
pub open spec fn version_of_raw(v: i32) -> Option<Version> {
    if v == VERSION_SSLV2 {
        Some(Version::SSLV2)
    } else if v == VERSION_SSLV3 {
        Some(Version::SSLV3)
    } else if v == VERSION_TLS10 {
        Some(Version::TLS10)
    } else if v == VERSION_TLS11 {
        Some(Version::TLS11)
    } else if v == VERSION_TLS12 {
        Some(Version::TLS12)
    } else if v == VERSION_TLS13 {
        Some(Version::TLS13)
    } else {
        None
    }
}

/// The result of reading the engine's number for a protocol version: a
/// number that names no version is invalid input.
pub open spec fn version_result(v: i32) -> Result<Version, Error> {
    match version_of_raw(v) {
        Some(x) => Ok(x),
        None => Err(Error(Context::InvalidInput)),
    }
}

impl TryFrom<i32> for Version {
    type Error = Error;

    fn try_from(v: i32) -> (r: Result<Version, Error>) {
        if v == VERSION_SSLV2 {
            Ok(Version::SSLV2)
        } else if v == VERSION_SSLV3 {
            Ok(Version::SSLV3)
        } else if v == VERSION_TLS10 {
            Ok(Version::TLS10)
        } else if v == VERSION_TLS11 {
            Ok(Version::TLS11)
        } else if v == VERSION_TLS12 {
            Ok(Version::TLS12)
        } else if v == VERSION_TLS13 {
            Ok(Version::TLS13)
        } else {
            Err(Error::invalid_input())
        }
    }
}

impl vstd::std_specs::convert::TryFromSpecImpl<i32> for Version {
    open spec fn obeys_try_from_spec() -> bool {
        true
    }

    open spec fn try_from_spec(v: i32) -> Result<Version, Error> {
        version_result(v)
    }
}

/// Whether the engine sleeps through its blinding delay itself, or leaves the
/// wait to the application.
#[derive(Debug, Clone, Copy, PartialEq, Eq, Structural)]
pub enum Blinding {
    BuiltIn,
    SelfService,
}

impl Blinding {
    pub fn raw(&self) -> (r: u32)
        ensures
            r == (match self {
                Blinding::BuiltIn => 0u32,
                Blinding::SelfService => 1u32,
            }),
    {
        match self {
            Blinding::BuiltIn => 0,
            Blinding::SelfService => 1,
        }
    }
}

/// Whether a peer certificate is asked for and required.
#[derive(Debug, Clone, Copy, PartialEq, Eq, Structural)]
pub enum ClientAuthType {
    Required,
    Optional,
    /// No peer certificate is asked for.
    Disabled,
}

impl ClientAuthType {
    pub fn raw(&self) -> (r: u32)
        ensures
            r == (match self {
                ClientAuthType::Disabled => 0u32,
                ClientAuthType::Required => 1u32,
                ClientAuthType::Optional => 2u32,
            }),
    {
        match self {
            ClientAuthType::Disabled => 0,
            ClientAuthType::Required => 1,
            ClientAuthType::Optional => 2,
        }
    }
}

/// Whether a key update also asks the peer to update its sending key.
#[derive(Debug, Clone, Copy, PartialEq, Eq, Structural)]
pub enum PeerKeyUpdate {
    KeyUpdateNotRequested,
    KeyUpdateRequested,
}

impl PeerKeyUpdate {
    pub fn raw(&self) -> (r: u32)
        ensures
            r == (match self {
                PeerKeyUpdate::KeyUpdateNotRequested => 0u32,
                PeerKeyUpdate::KeyUpdateRequested => 1u32,
            }),
    {
        match self {
            PeerKeyUpdate::KeyUpdateNotRequested => 0,
            PeerKeyUpdate::KeyUpdateRequested => 1,
        }
    }
}

/// The engine's numbers for signature algorithms.
pub const SIGNATURE_ANONYMOUS: u32 = 0;
pub const SIGNATURE_RSA: u32 = 1;
pub const SIGNATURE_ECDSA: u32 = 3;
pub const SIGNATURE_MLDSA: u32 = 9;
pub const SIGNATURE_RSA_PSS_RSAE: u32 = 224;
pub const SIGNATURE_RSA_PSS_PSS: u32 = 225;

/// A signature algorithm that a handshake selected.
#[allow(non_camel_case_types)]
#[derive(Debug, Clone, Copy, PartialEq, Eq, Structural)]
pub enum SignatureAlgorithm {
    RSA_PKCS1,
    RSA_PSS_RSAE,
    RSA_PSS_PSS,
    ECDSA,
    MLDSA,
}

/// The signature algorithm that the engine's number `v` stands for; any other
/// number, the anonymous one included, is invalid input.
pub open spec fn signature_algorithm_result(v: u32) -> Result<SignatureAlgorithm, Error> {
    if v == SIGNATURE_RSA {
        Ok(SignatureAlgorithm::RSA_PKCS1)
    } else if v == SIGNATURE_RSA_PSS_RSAE {
        Ok(SignatureAlgorithm::RSA_PSS_RSAE)
    } else if v == SIGNATURE_RSA_PSS_PSS {
        Ok(SignatureAlgorithm::RSA_PSS_PSS)
    } else if v == SIGNATURE_ECDSA {
        Ok(SignatureAlgorithm::ECDSA)
    } else if v == SIGNATURE_MLDSA {
        Ok(SignatureAlgorithm::MLDSA)
    } else {
        Err(Error(Context::InvalidInput))
    }
}

impl TryFrom<u32> for SignatureAlgorithm {
    type Error = Error;

    fn try_from(v: u32) -> (r: Result<SignatureAlgorithm, Error>) {
        if v == SIGNATURE_RSA {
            Ok(SignatureAlgorithm::RSA_PKCS1)
        } else if v == SIGNATURE_RSA_PSS_RSAE {
            Ok(SignatureAlgorithm::RSA_PSS_RSAE)
        } else if v == SIGNATURE_RSA_PSS_PSS {
            Ok(SignatureAlgorithm::RSA_PSS_PSS)
        } else if v == SIGNATURE_ECDSA {
            Ok(SignatureAlgorithm::ECDSA)
        } else if v == SIGNATURE_MLDSA {
            Ok(SignatureAlgorithm::MLDSA)
        } else {
            Err(Error::invalid_input())
        }
    }
}

impl vstd::std_specs::convert::TryFromSpecImpl<u32> for SignatureAlgorithm {
    open spec fn obeys_try_from_spec() -> bool {
        true
    }

    open spec fn try_from_spec(v: u32) -> Result<SignatureAlgorithm, Error> {
        signature_algorithm_result(v)
    }
}

/// The engine's numbers for hash algorithms.
pub const HASH_NONE: u32 = 0;
pub const HASH_MD5: u32 = 1;
pub const HASH_SHA1: u32 = 2;
pub const HASH_SHA224: u32 = 3;
pub const HASH_SHA256: u32 = 4;
pub const HASH_SHA384: u32 = 5;
pub const HASH_SHA512: u32 = 6;

/// A hash algorithm that a handshake selected.
#[derive(Debug, Clone, Copy, PartialEq, Eq, Structural)]
pub enum HashAlgorithm {
    MD5,
    SHA1,
    SHA224,
    SHA256,
    SHA384,
    SHA512,
}

/// The hash algorithm that the engine's number `v` stands for; any other
/// number, "none" included, is invalid input.
pub open spec fn hash_algorithm_result(v: u32) -> Result<HashAlgorithm, Error> {
    if v == HASH_MD5 {
        Ok(HashAlgorithm::MD5)
    } else if v == HASH_SHA1 {
        Ok(HashAlgorithm::SHA1)
    } else if v == HASH_SHA224 {
        Ok(HashAlgorithm::SHA224)
    } else if v == HASH_SHA256 {
        Ok(HashAlgorithm::SHA256)
    } else if v == HASH_SHA384 {
        Ok(HashAlgorithm::SHA384)
    } else if v == HASH_SHA512 {
        Ok(HashAlgorithm::SHA512)
    } else {
        Err(Error(Context::InvalidInput))
    }
}

impl TryFrom<u32> for HashAlgorithm {
    type Error = Error;

    fn try_from(v: u32) -> (r: Result<HashAlgorithm, Error>) {
        if v == HASH_MD5 {
            Ok(HashAlgorithm::MD5)
        } else if v == HASH_SHA1 {
            Ok(HashAlgorithm::SHA1)
        } else if v == HASH_SHA224 {
            Ok(HashAlgorithm::SHA224)
        } else if v == HASH_SHA256 {
            Ok(HashAlgorithm::SHA256)
        } else if v == HASH_SHA384 {
            Ok(HashAlgorithm::SHA384)
        } else if v == HASH_SHA512 {
            Ok(HashAlgorithm::SHA512)
        } else {
            Err(Error::invalid_input())
        }
    }
}

impl vstd::std_specs::convert::TryFromSpecImpl<u32> for HashAlgorithm {
    open spec fn obeys_try_from_spec() -> bool {
        true
    }

    open spec fn try_from_spec(v: u32) -> Result<HashAlgorithm, Error> {
        hash_algorithm_result(v)
    }
}

/// The number of times the sending and the receiving keys have been updated.
/// The engine counts up to `u8::MAX`: a count at that value may stand for
/// more updates.
#[non_exhaustive]
#[derive(Debug, Clone, Copy, PartialEq, Eq, Structural)]
pub struct KeyUpdateCount {
    pub send_key_updates: u8,
    pub recv_key_updates: u8,
}

} // verus!
