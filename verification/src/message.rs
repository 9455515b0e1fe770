//! Message headers and the small shared payload types. Every message
//! begins with a two-byte header: protocol version, then the
//! request/response code.

use vstd::prelude::*;

use crate::codec::Reader;
use crate::codec::Writer;
use crate::protocol::SpdmRequestResponseCode;
use crate::protocol::SpdmVersion;

verus! {

/// The two-byte header every message starts with.
#[derive(Clone, Copy, Debug, PartialEq, Eq, Structural)]
pub struct SpdmMessageHeader {
    pub version: SpdmVersion,
    pub request_response_code: SpdmRequestResponseCode,
}

impl SpdmMessageHeader {
    /// The header's two wire bytes.
    pub open spec fn spec_encode(self) -> Seq<u8> {
        seq![self.version.spec_u8(), self.request_response_code.spec_u8()]
    }

    /// Header recovered from `b` at `start`: two bytes, both of which
    /// must decode.
    pub open spec fn spec_read_at(b: Seq<u8>, start: int) -> Option<SpdmMessageHeader> {
        if start + 2 <= b.len() {
            match (SpdmVersion::spec_from_u8(b[start]), SpdmRequestResponseCode::spec_from_u8(
                b[start + 1],
            )) {
                (Some(version), Some(code)) => Some(
                    SpdmMessageHeader { version, request_response_code: code },
                ),
                _ => None,
            }
        } else {
            None
        }
    }

    pub fn encode(&self, bytes: &mut Writer) -> (r: bool)
        requires
            old(bytes).wf(),
        ensures
            final(bytes).wf(),
            final(bytes).capacity_spec() == old(bytes).capacity_spec(),
            if old(bytes).data_spec().len() + 2 <= old(bytes).capacity_spec() {
                r && final(bytes).data_spec() == old(bytes).data_spec() + self.spec_encode()
            } else {
                !r && final(bytes).data_spec() == old(bytes).data_spec()
            },
    {
        if bytes.capacity() - bytes.used() < 2 {
            return false;
        }
        let ghost before = bytes.data_spec();
        bytes.write_u8(self.version.get_u8());
        bytes.write_u8(self.request_response_code.get_u8());
        assert(bytes.data_spec() =~= before + self.spec_encode());
        true
    }

    /// Reads the header, failing on a short buffer or bytes that
    /// decode to no known version or code.
    pub fn read(r: &mut Reader) -> (res: Option<SpdmMessageHeader>)
        requires
            old(r).wf(),
        ensures
            final(r).wf(),
            final(r).data_spec() == old(r).data_spec(),
            match Self::spec_read_at(old(r).data_spec(), old(r).used_spec()) {
                Some(h) => res == Some(h) && final(r).used_spec() == old(r).used_spec() + 2,
                None => res == None::<SpdmMessageHeader>,
            },
    {
        let v = match r.read_u8() {
            Some(v) => v,
            None => { return None; },
        };
        let c = match r.read_u8() {
            Some(c) => c,
            None => { return None; },
        };
        let version = match SpdmVersion::from_u8(v) {
            Some(version) => version,
            None => { return None; },
        };
        let code = match SpdmRequestResponseCode::from_u8(c) {
            Some(code) => code,
            None => { return None; },
        };
        Some(SpdmMessageHeader { version, request_response_code: code })
    }
}

/// Error code of an ERROR response message.
#[derive(Clone, Copy, Debug, PartialEq, Eq, Structural)]
pub enum SpdmErrorCode {
    SpdmErrorInvalidRequest,
    SpdmErrorUnsupportedRequest,
    SpdmErrorVersionMismatch,
    SpdmErrorUnspecified,
}

impl SpdmErrorCode {
    pub open spec fn spec_u8(self) -> u8 {
        match self {
            SpdmErrorCode::SpdmErrorInvalidRequest => 0x01,
            SpdmErrorCode::SpdmErrorUnsupportedRequest => 0x07,
            SpdmErrorCode::SpdmErrorVersionMismatch => 0x41,
            SpdmErrorCode::SpdmErrorUnspecified => 0x05,
        }
    }

    pub fn get_u8(&self) -> (r: u8)
        ensures
            r == self.spec_u8(),
    {
        match self {
            SpdmErrorCode::SpdmErrorInvalidRequest => 0x01,
            SpdmErrorCode::SpdmErrorUnsupportedRequest => 0x07,
            SpdmErrorCode::SpdmErrorVersionMismatch => 0x41,
            SpdmErrorCode::SpdmErrorUnspecified => 0x05,
        }
    }
}

/// What a full ERROR response looks like on the wire: header, error
/// code, then one byte of error data.
pub open spec fn spec_encode_error_response(
    version: SpdmVersion,
    error_code: SpdmErrorCode,
    error_data: u8,
) -> Seq<u8> {
    seq![
        version.spec_u8(),
        SpdmRequestResponseCode::SpdmResponseError.spec_u8(),
        error_code.spec_u8(),
        error_data,
    ]
}

/// Mutual-authentication request attributes carried by a key-exchange
/// response.
#[derive(Clone, Copy, Debug, PartialEq, Eq, Structural)]
pub enum SpdmKeyExchangeMutAuthAttributes {
    /// The responder did not ask for mutual authentication.
    NotRequested,
    /// Mutual authentication is satisfied by the key-exchange
    /// signature alone.
    MutAuthReq,
    /// The responder will drive an encapsulated request flow.
    MutAuthReqWithEncapRequest,
    /// The responder will drive the optimized GET_DIGESTS flow.
    MutAuthReqWithGetDigests,
}

impl SpdmKeyExchangeMutAuthAttributes {
    pub open spec fn spec_u8(self) -> u8 {
        match self {
            SpdmKeyExchangeMutAuthAttributes::NotRequested => 0,
            SpdmKeyExchangeMutAuthAttributes::MutAuthReq => 1,
            SpdmKeyExchangeMutAuthAttributes::MutAuthReqWithEncapRequest => 2,
            SpdmKeyExchangeMutAuthAttributes::MutAuthReqWithGetDigests => 4,
        }
    }

    pub fn get_u8(&self) -> (r: u8)
        ensures
            r == self.spec_u8(),
    {
        match self {
            SpdmKeyExchangeMutAuthAttributes::NotRequested => 0,
            SpdmKeyExchangeMutAuthAttributes::MutAuthReq => 1,
            SpdmKeyExchangeMutAuthAttributes::MutAuthReqWithEncapRequest => 2,
            SpdmKeyExchangeMutAuthAttributes::MutAuthReqWithGetDigests => 4,
        }
    }

    pub open spec fn spec_from_u8(v: u8) -> Option<SpdmKeyExchangeMutAuthAttributes> {
        if v == 0 {
            Some(SpdmKeyExchangeMutAuthAttributes::NotRequested)
        } else if v == 1 {
            Some(SpdmKeyExchangeMutAuthAttributes::MutAuthReq)
        } else if v == 2 {
            Some(SpdmKeyExchangeMutAuthAttributes::MutAuthReqWithEncapRequest)
        } else if v == 4 {
            Some(SpdmKeyExchangeMutAuthAttributes::MutAuthReqWithGetDigests)
        } else {
            None
        }
    }

    pub fn from_u8(v: u8) -> (r: Option<SpdmKeyExchangeMutAuthAttributes>)
        ensures
            r == Self::spec_from_u8(v),
    {
        if v == 0 {
            Some(SpdmKeyExchangeMutAuthAttributes::NotRequested)
        } else if v == 1 {
            Some(SpdmKeyExchangeMutAuthAttributes::MutAuthReq)
        } else if v == 2 {
            Some(SpdmKeyExchangeMutAuthAttributes::MutAuthReqWithEncapRequest)
        } else if v == 4 {
            Some(SpdmKeyExchangeMutAuthAttributes::MutAuthReqWithGetDigests)
        } else {
            None
        }
    }

    /// Whether any form of mutual authentication was asked for.
    pub open spec fn spec_is_requested(self) -> bool {
        self != SpdmKeyExchangeMutAuthAttributes::NotRequested
    }

    pub fn is_requested(&self) -> (r: bool)
        ensures
            r == self.spec_is_requested(),
    {
        match self {
            SpdmKeyExchangeMutAuthAttributes::NotRequested => false,
            _ => true,
        }
    }
}

} // verus!
