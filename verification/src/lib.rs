//! Requester-side SPDM session establishment: key-exchange message
//! lifecycle, transcript accumulation, signature and HMAC verification
//! gates, mutual-authentication dispatch, and the encapsulated digest
//! responder. Cryptographic primitives are consumed through pluggable
//! provider traits; transport I/O stays outside this crate.

pub mod codec;
pub mod common;
pub mod crypto;
pub mod digest;
pub mod encap_digest;
pub mod error;
pub mod key_exchange;
pub mod key_exchange_req;
pub mod message;
pub mod mutual_authenticate;
pub mod opaque;
pub mod protocol;
pub mod requester;
pub mod version;

pub use error::SpdmStatus;
