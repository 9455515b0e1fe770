//! Protocol-level value types: versions, request/response codes,
//! negotiated algorithm selectors with their wire sizes, capability
//! flags, and the fixed-size byte-carrying structs.

use vstd::prelude::*;

verus! {

/// Number of certificate slots a device may present.
pub const SPDM_MAX_SLOT_NUMBER: usize = 8;
/// Size in bytes of the random nonce carried by key-exchange messages.
pub const SPDM_RANDOM_SIZE: usize = 32;
/// Upper bound on a digest produced by any supported hash algorithm.
pub const SPDM_MAX_HASH_SIZE: usize = 64;
/// Upper bound on an asymmetric signature.
pub const SPDM_MAX_ASYM_KEY_SIZE: usize = 512;
/// Upper bound on a key-agreement exchange value.
pub const SPDM_MAX_DHE_KEY_SIZE: usize = 512;
/// Upper bound on the shared secret of a key agreement.
pub const SPDM_MAX_DHE_FINAL_KEY_SIZE: usize = 64;
/// Upper bound on an opaque-data block.
pub const MAX_SPDM_OPAQUE_SIZE: usize = 1024;
/// Upper bound on one whole SPDM message.
pub const MAX_SPDM_MSG_SIZE: usize = 4096;
/// Upper bound on a raw certificate chain provisioned in a slot.
pub const MAX_SPDM_CERT_CHAIN_DATA_SIZE: usize = 4096;
/// Number of concurrently tracked sessions.
pub const MAX_SPDM_SESSION_COUNT: usize = 4;
/// Number of version entries a VERSION response can carry.
pub const MAX_SPDM_VERSION_COUNT: usize = 3;
/// Capacity of the connection-level negotiation transcript.
pub const MAX_MANAGED_BUFFER_A_SIZE: usize = 2048;
/// Capacity of the session-scoped key-exchange transcript.
pub const MAX_MANAGED_BUFFER_K_SIZE: usize = 16384;
/// Capacity of the session-scoped mutual-authentication transcript.
pub const MAX_MANAGED_BUFFER_MUT_B_SIZE: usize = 16384;
/// A session id whose halves are both zero marks a free session slot.
pub const INVALID_SESSION_ID: u32 = 0;
/// First requester half-session id handed out; later ones count down.
pub const INITIAL_SESSION_ID: u16 = 0xFFFD;

/// Negotiated protocol version.
#[derive(Clone, Copy, Debug, PartialEq, Eq, Structural)]
pub enum SpdmVersion {
    SpdmVersion10,
    SpdmVersion11,
    SpdmVersion12,
}

impl SpdmVersion {
    /// Wire encoding of the version.
    pub open spec fn spec_u8(self) -> u8 {
        match self {
            SpdmVersion::SpdmVersion10 => 0x10,
            SpdmVersion::SpdmVersion11 => 0x11,
            SpdmVersion::SpdmVersion12 => 0x12,
        }
    }

    pub fn get_u8(&self) -> (r: u8)
        ensures
            r == self.spec_u8(),
    {
        match self {
            SpdmVersion::SpdmVersion10 => 0x10,
            SpdmVersion::SpdmVersion11 => 0x11,
            SpdmVersion::SpdmVersion12 => 0x12,
        }
    }

    /// Which byte values decode to a version.
    pub open spec fn spec_from_u8(v: u8) -> Option<SpdmVersion> {
        if v == 0x10 {
            Some(SpdmVersion::SpdmVersion10)
        } else if v == 0x11 {
            Some(SpdmVersion::SpdmVersion11)
        } else if v == 0x12 {
            Some(SpdmVersion::SpdmVersion12)
        } else {
            None
        }
    }

    pub fn from_u8(v: u8) -> (r: Option<SpdmVersion>)
        ensures
            r == Self::spec_from_u8(v),
    {
        if v == 0x10 {
            Some(SpdmVersion::SpdmVersion10)
        } else if v == 0x11 {
            Some(SpdmVersion::SpdmVersion11)
        } else if v == 0x12 {
            Some(SpdmVersion::SpdmVersion12)
        } else {
            None
        }
    }
}

/// Request/response code of a message header.
#[derive(Clone, Copy, Debug, PartialEq, Eq, Structural)]
pub enum SpdmRequestResponseCode {
    SpdmRequestGetVersion,
    SpdmRequestGetDigests,
    SpdmRequestKeyExchange,
    SpdmResponseVersion,
    SpdmResponseDigests,
    SpdmResponseKeyExchangeRsp,
    SpdmResponseError,
}

impl SpdmRequestResponseCode {
    pub open spec fn spec_u8(self) -> u8 {
        match self {
            SpdmRequestResponseCode::SpdmRequestGetVersion => 0x84,
            SpdmRequestResponseCode::SpdmRequestGetDigests => 0x81,
            SpdmRequestResponseCode::SpdmRequestKeyExchange => 0xE4,
            SpdmRequestResponseCode::SpdmResponseVersion => 0x04,
            SpdmRequestResponseCode::SpdmResponseDigests => 0x01,
            SpdmRequestResponseCode::SpdmResponseKeyExchangeRsp => 0x64,
            SpdmRequestResponseCode::SpdmResponseError => 0x7F,
        }
    }

    pub fn get_u8(&self) -> (r: u8)
        ensures
            r == self.spec_u8(),
    {
        match self {
            SpdmRequestResponseCode::SpdmRequestGetVersion => 0x84,
            SpdmRequestResponseCode::SpdmRequestGetDigests => 0x81,
            SpdmRequestResponseCode::SpdmRequestKeyExchange => 0xE4,
            SpdmRequestResponseCode::SpdmResponseVersion => 0x04,
            SpdmRequestResponseCode::SpdmResponseDigests => 0x01,
            SpdmRequestResponseCode::SpdmResponseKeyExchangeRsp => 0x64,
            SpdmRequestResponseCode::SpdmResponseError => 0x7F,
        }
    }

    pub open spec fn spec_from_u8(v: u8) -> Option<SpdmRequestResponseCode> {
        if v == 0x84 {
            Some(SpdmRequestResponseCode::SpdmRequestGetVersion)
        } else if v == 0x81 {
            Some(SpdmRequestResponseCode::SpdmRequestGetDigests)
        } else if v == 0xE4 {
            Some(SpdmRequestResponseCode::SpdmRequestKeyExchange)
        } else if v == 0x04 {
            Some(SpdmRequestResponseCode::SpdmResponseVersion)
        } else if v == 0x01 {
            Some(SpdmRequestResponseCode::SpdmResponseDigests)
        } else if v == 0x64 {
            Some(SpdmRequestResponseCode::SpdmResponseKeyExchangeRsp)
        } else if v == 0x7F {
            Some(SpdmRequestResponseCode::SpdmResponseError)
        } else {
            None
        }
    }

    pub fn from_u8(v: u8) -> (r: Option<SpdmRequestResponseCode>)
        ensures
            r == Self::spec_from_u8(v),
    {
        if v == 0x84 {
            Some(SpdmRequestResponseCode::SpdmRequestGetVersion)
        } else if v == 0x81 {
            Some(SpdmRequestResponseCode::SpdmRequestGetDigests)
        } else if v == 0xE4 {
            Some(SpdmRequestResponseCode::SpdmRequestKeyExchange)
        } else if v == 0x04 {
            Some(SpdmRequestResponseCode::SpdmResponseVersion)
        } else if v == 0x01 {
            Some(SpdmRequestResponseCode::SpdmResponseDigests)
        } else if v == 0x64 {
            Some(SpdmRequestResponseCode::SpdmResponseKeyExchangeRsp)
        } else if v == 0x7F {
            Some(SpdmRequestResponseCode::SpdmResponseError)
        } else {
            None
        }
    }
}

/// Negotiated hash algorithm.
#[derive(Clone, Copy, Debug, PartialEq, Eq, Structural)]
pub enum SpdmBaseHashAlgo {
    NoHash,
    TpmAlgSha256,
    TpmAlgSha384,
    TpmAlgSha512,
}

impl SpdmBaseHashAlgo {
    /// Digest size in bytes.
    pub open spec fn spec_size(self) -> u16 {
        match self {
            SpdmBaseHashAlgo::NoHash => 0,
            SpdmBaseHashAlgo::TpmAlgSha256 => 32,
            SpdmBaseHashAlgo::TpmAlgSha384 => 48,
            SpdmBaseHashAlgo::TpmAlgSha512 => 64,
        }
    }

    pub fn get_size(&self) -> (r: u16)
        ensures
            r == self.spec_size(),
    {
        match self {
            SpdmBaseHashAlgo::NoHash => 0,
            SpdmBaseHashAlgo::TpmAlgSha256 => 32,
            SpdmBaseHashAlgo::TpmAlgSha384 => 48,
            SpdmBaseHashAlgo::TpmAlgSha512 => 64,
        }
    }
}

/// Negotiated asymmetric signature algorithm.
#[derive(Clone, Copy, Debug, PartialEq, Eq, Structural)]
pub enum SpdmBaseAsymAlgo {
    NoAsym,
    TpmAlgEcdsaEccNistP256,
    TpmAlgEcdsaEccNistP384,
    TpmAlgRsassa2048,
    TpmAlgRsassa3072,
}

impl SpdmBaseAsymAlgo {
    /// Signature size in bytes.
    pub open spec fn spec_size(self) -> u16 {
        match self {
            SpdmBaseAsymAlgo::NoAsym => 0,
            SpdmBaseAsymAlgo::TpmAlgEcdsaEccNistP256 => 64,
            SpdmBaseAsymAlgo::TpmAlgEcdsaEccNistP384 => 96,
            SpdmBaseAsymAlgo::TpmAlgRsassa2048 => 256,
            SpdmBaseAsymAlgo::TpmAlgRsassa3072 => 384,
        }
    }

    pub fn get_size(&self) -> (r: u16)
        ensures
            r == self.spec_size(),
    {
        match self {
            SpdmBaseAsymAlgo::NoAsym => 0,
            SpdmBaseAsymAlgo::TpmAlgEcdsaEccNistP256 => 64,
            SpdmBaseAsymAlgo::TpmAlgEcdsaEccNistP384 => 96,
            SpdmBaseAsymAlgo::TpmAlgRsassa2048 => 256,
            SpdmBaseAsymAlgo::TpmAlgRsassa3072 => 384,
        }
    }
}

/// Negotiated key-agreement algorithm.
#[derive(Clone, Copy, Debug, PartialEq, Eq, Structural)]
pub enum SpdmDheAlgo {
    NoDhe,
    Secp256R1,
    Secp384R1,
}

impl SpdmDheAlgo {
    /// Size in bytes of the public exchange value.
    pub open spec fn spec_size(self) -> u16 {
        match self {
            SpdmDheAlgo::NoDhe => 0,
            SpdmDheAlgo::Secp256R1 => 64,
            SpdmDheAlgo::Secp384R1 => 96,
        }
    }

    pub fn get_size(&self) -> (r: u16)
        ensures
            r == self.spec_size(),
    {
        match self {
            SpdmDheAlgo::NoDhe => 0,
            SpdmDheAlgo::Secp256R1 => 64,
            SpdmDheAlgo::Secp384R1 => 96,
        }
    }
}

/// Negotiated AEAD algorithm.
#[derive(Clone, Copy, Debug, PartialEq, Eq, Structural)]
pub enum SpdmAeadAlgo {
    NoAead,
    Aes128Gcm,
    Aes256Gcm,
}

/// Negotiated key-schedule algorithm.
#[derive(Clone, Copy, Debug, PartialEq, Eq, Structural)]
pub enum SpdmKeyScheduleAlgo {
    NoKeySchedule,
    SpdmKeySchedule,
}

/// Negotiated opaque-data format support.
#[derive(Clone, Copy, Debug, PartialEq, Eq, Structural)]
pub enum SpdmOpaqueSupport {
    NoOpaqueFormat,
    OpaqueDataFmt1,
}

/// Requester capability flags, one bit per capability.
#[derive(Clone, Copy, Debug, PartialEq, Eq, Structural)]
pub struct SpdmRequestCapabilityFlags {
    pub bits: u32,
}

/// Bit for certificate support on the requester side.
pub const REQ_CAP_CERT: u32 = 0x0001;
/// Bit for handshake-in-the-clear support on the requester side.
pub const REQ_CAP_HANDSHAKE_IN_THE_CLEAR: u32 = 0x0002;
/// Bit for mutual-authentication support on the requester side.
pub const REQ_CAP_MUT_AUTH: u32 = 0x0004;
/// Bit for encapsulated-request support on the requester side.
pub const REQ_CAP_ENCAP: u32 = 0x0008;

impl SpdmRequestCapabilityFlags {
    pub open spec fn spec_contains(self, mask: u32) -> bool {
        self.bits & mask == mask
    }

    /// True when every bit of `mask` is set.
    pub fn contains(&self, mask: u32) -> (r: bool)
        ensures
            r == self.spec_contains(mask),
    {
        self.bits & mask == mask
    }
}

/// Responder capability flags, one bit per capability.
#[derive(Clone, Copy, Debug, PartialEq, Eq, Structural)]
pub struct SpdmResponseCapabilityFlags {
    pub bits: u32,
}

/// Bit for certificate support on the responder side.
pub const RSP_CAP_CERT: u32 = 0x0001;
/// Bit for handshake-in-the-clear support on the responder side.
pub const RSP_CAP_HANDSHAKE_IN_THE_CLEAR: u32 = 0x0002;
/// Bit for mutual-authentication support on the responder side.
pub const RSP_CAP_MUT_AUTH: u32 = 0x0004;
/// Bit for encapsulated-request support on the responder side.
pub const RSP_CAP_ENCAP: u32 = 0x0008;

impl SpdmResponseCapabilityFlags {
    pub open spec fn spec_contains(self, mask: u32) -> bool {
        self.bits & mask == mask
    }

    /// True when every bit of `mask` is set.
    pub fn contains(&self, mask: u32) -> (r: bool)
        ensures
            r == self.spec_contains(mask),
    {
        self.bits & mask == mask
    }
}

/// Which measurement summary the key-exchange request asks for.
#[derive(Clone, Copy, Debug, PartialEq, Eq, Structural)]
pub enum SpdmMeasurementSummaryHashType {
    SpdmMeasurementSummaryHashTypeNone,
    SpdmMeasurementSummaryHashTypeTcb,
    SpdmMeasurementSummaryHashTypeAll,
}

impl SpdmMeasurementSummaryHashType {
    pub open spec fn spec_u8(self) -> u8 {
        match self {
            SpdmMeasurementSummaryHashType::SpdmMeasurementSummaryHashTypeNone => 0,
            SpdmMeasurementSummaryHashType::SpdmMeasurementSummaryHashTypeTcb => 1,
            SpdmMeasurementSummaryHashType::SpdmMeasurementSummaryHashTypeAll => 0xFF,
        }
    }

    pub fn get_u8(&self) -> (r: u8)
        ensures
            r == self.spec_u8(),
    {
        match self {
            SpdmMeasurementSummaryHashType::SpdmMeasurementSummaryHashTypeNone => 0,
            SpdmMeasurementSummaryHashType::SpdmMeasurementSummaryHashTypeTcb => 1,
            SpdmMeasurementSummaryHashType::SpdmMeasurementSummaryHashTypeAll => 0xFF,
        }
    }

    /// Whether the responder is expected to include a measurement
    /// summary hash in its key-exchange response.
    pub open spec fn spec_needs_summary(self) -> bool {
        self != SpdmMeasurementSummaryHashType::SpdmMeasurementSummaryHashTypeNone
    }

    pub open spec fn spec_from_u8(v: u8) -> Option<SpdmMeasurementSummaryHashType> {
        if v == 0 {
            Some(SpdmMeasurementSummaryHashType::SpdmMeasurementSummaryHashTypeNone)
        } else if v == 1 {
            Some(SpdmMeasurementSummaryHashType::SpdmMeasurementSummaryHashTypeTcb)
        } else if v == 0xFF {
            Some(SpdmMeasurementSummaryHashType::SpdmMeasurementSummaryHashTypeAll)
        } else {
            None
        }
    }

    pub fn from_u8(v: u8) -> (r: Option<SpdmMeasurementSummaryHashType>)
        ensures
            r == Self::spec_from_u8(v),
    {
        if v == 0 {
            Some(SpdmMeasurementSummaryHashType::SpdmMeasurementSummaryHashTypeNone)
        } else if v == 1 {
            Some(SpdmMeasurementSummaryHashType::SpdmMeasurementSummaryHashTypeTcb)
        } else if v == 0xFF {
            Some(SpdmMeasurementSummaryHashType::SpdmMeasurementSummaryHashTypeAll)
        } else {
            None
        }
    }
}

/// A digest together with its length; `data.len()` is the size.
#[derive(Clone, Debug)]
pub struct SpdmDigestStruct {
    pub data: Vec<u8>,
}

impl SpdmDigestStruct {
    pub open spec fn wf(self) -> bool {
        self.data@.len() <= SPDM_MAX_HASH_SIZE
    }
}

/// An asymmetric signature.
#[derive(Clone, Debug)]
pub struct SpdmSignatureStruct {
    pub data: Vec<u8>,
}

impl SpdmSignatureStruct {
    pub open spec fn wf(self) -> bool {
        self.data@.len() <= SPDM_MAX_ASYM_KEY_SIZE
    }
}

/// The fixed-size random nonce of a key-exchange message.
#[derive(Clone, Debug)]
pub struct SpdmRandomStruct {
    pub data: Vec<u8>,
}

impl SpdmRandomStruct {
    pub open spec fn wf(self) -> bool {
        self.data@.len() == SPDM_RANDOM_SIZE
    }
}

/// A public key-agreement exchange value.
#[derive(Clone, Debug)]
pub struct SpdmDheExchangeStruct {
    pub data: Vec<u8>,
}

impl SpdmDheExchangeStruct {
    pub open spec fn wf(self) -> bool {
        self.data@.len() <= SPDM_MAX_DHE_KEY_SIZE
    }
}

/// The shared secret a key agreement yields.
#[derive(Clone, Debug)]
pub struct SpdmDheFinalKeyStruct {
    pub data: Vec<u8>,
}

impl SpdmDheFinalKeyStruct {
    pub open spec fn wf(self) -> bool {
        self.data@.len() <= SPDM_MAX_DHE_FINAL_KEY_SIZE
    }
}

/// A length-prefixed opaque-data block.
#[derive(Clone, Debug)]
pub struct SpdmOpaqueStruct {
    pub data: Vec<u8>,
}

impl SpdmOpaqueStruct {
    pub open spec fn wf(self) -> bool {
        self.data@.len() <= MAX_SPDM_OPAQUE_SIZE
    }
}

/// A materialized certificate chain: 4-byte little-endian total length,
/// the root certificate's hash, then the raw chain bytes.
#[derive(Clone, Debug)]
pub struct SpdmCertChainBuffer {
    pub data: Vec<u8>,
}

impl SpdmCertChainBuffer {
    pub open spec fn wf(self) -> bool {
        self.data@.len() <= 4 + SPDM_MAX_HASH_SIZE + MAX_SPDM_CERT_CHAIN_DATA_SIZE
    }
}

/// A raw certificate chain as provisioned, not yet materialized.
#[derive(Clone, Debug)]
pub struct SpdmCertChainData {
    pub data: Vec<u8>,
}

impl SpdmCertChainData {
    pub open spec fn wf(self) -> bool {
        self.data@.len() <= MAX_SPDM_CERT_CHAIN_DATA_SIZE
    }
}

} // verus!
