//! Pluggable cryptographic provider interface. Each primitive class is
//! a trait the embedding program implements and injects at context
//! setup; the engine promises nothing about what the provider computes
//! and validates every returned length at run time, so these traits
//! carry no contracts of their own.

use vstd::prelude::*;

use crate::protocol::SpdmBaseAsymAlgo;
use crate::protocol::SpdmBaseHashAlgo;
use crate::protocol::SpdmDheAlgo;
use crate::protocol::SpdmDheExchangeStruct;
use crate::protocol::SpdmDheFinalKeyStruct;
use crate::protocol::SpdmDigestStruct;
use crate::protocol::SpdmSignatureStruct;

verus! {

/// One-shot hashing.
pub trait SpdmHash {
    /// Digest of `data` under the selected algorithm, or `None` when
    /// the algorithm is unsupported.
    fn hash_all(&self, base_hash_algo: SpdmBaseHashAlgo, data: &[u8]) -> Option<SpdmDigestStruct>;
}

/// Keyed message authentication.
pub trait SpdmHmac {
    /// HMAC of `data` under `key`, or `None` when unsupported.
    fn hmac(&self, base_hash_algo: SpdmBaseHashAlgo, key: &[u8], data: &[u8]) -> Option<
        SpdmDigestStruct,
    >;

    /// Constant-time comparison of `hmac` against the HMAC of `data`
    /// under `key`; `false` on any mismatch or unsupported algorithm.
    fn hmac_verify(
        &self,
        base_hash_algo: SpdmBaseHashAlgo,
        key: &[u8],
        data: &[u8],
        hmac: &SpdmDigestStruct,
    ) -> bool;
}

/// Authenticated encryption with associated data.
pub trait SpdmAead {
    /// Encrypts `plain_text`, returning cipher text and tag, or `None`
    /// on failure.
    fn encrypt(
        &self,
        key: &[u8],
        iv: &[u8],
        aad: &[u8],
        plain_text: &[u8],
    ) -> Option<(Vec<u8>, Vec<u8>)>;

    /// Decrypts `cipher_text` checking `tag`, returning the plain
    /// text, or `None` on failure.
    fn decrypt(
        &self,
        key: &[u8],
        iv: &[u8],
        aad: &[u8],
        cipher_text: &[u8],
        tag: &[u8],
    ) -> Option<Vec<u8>>;
}

/// Asymmetric signing with the local private key.
pub trait SpdmAsymSign {
    /// Signature over `data`, or `None` on failure.
    fn sign(
        &self,
        base_hash_algo: SpdmBaseHashAlgo,
        base_asym_algo: SpdmBaseAsymAlgo,
        data: &[u8],
    ) -> Option<SpdmSignatureStruct>;
}

/// Asymmetric signature verification against a peer certificate.
pub trait SpdmAsymVerify {
    /// `true` exactly when `signature` verifies over `data` under the
    /// public key of `public_cert_der`.
    fn verify(
        &self,
        base_hash_algo: SpdmBaseHashAlgo,
        base_asym_algo: SpdmBaseAsymAlgo,
        public_cert_der: &[u8],
        data: &[u8],
        signature: &SpdmSignatureStruct,
    ) -> bool;
}

/// HKDF-style key derivation.
pub trait SpdmHkdf {
    /// Expands `pk` with `info` to `out_size` bytes, or `None` when
    /// unsupported.
    fn hkdf_expand(
        &self,
        hash_algo: SpdmBaseHashAlgo,
        pk: &[u8],
        info: &[u8],
        out_size: u16,
    ) -> Option<SpdmDigestStruct>;
}

/// Certificate-chain inspection.
pub trait SpdmCertOperation {
    /// Byte range `[begin, end)` of the certificate at `index` within
    /// a raw chain, or `None` when the chain cannot be walked.
    fn get_cert_from_cert_chain(&self, cert_chain: &[u8], index: usize) -> Option<(usize, usize)>;

    /// Whether the chain links correctly; the engine does not call
    /// this, it is part of the provider surface for embedders.
    fn verify_cert_chain(&self, cert_chain: &[u8]) -> bool;
}

/// An ephemeral key-agreement context. The only permitted operation
/// consumes it, so the ephemeral private key can never be used twice.
pub trait SpdmDheKeyExchange: Sized {
    /// Consumes the ephemeral private key and the peer's public value,
    /// yielding the shared secret, or `None` on failure.
    fn compute_final_key(self, peer_pub_key: &SpdmDheExchangeStruct) -> Option<
        SpdmDheFinalKeyStruct,
    >;
}

/// Ephemeral key-agreement pair generation.
pub trait SpdmDhe {
    /// The exclusively-owned context holding the ephemeral private key.
    type Context: SpdmDheKeyExchange;

    /// A fresh public exchange value and its private context, or
    /// `None` when the algorithm is unsupported.
    fn generate_key_pair(&self, dhe_algo: SpdmDheAlgo) -> Option<
        (SpdmDheExchangeStruct, Self::Context),
    >;
}

/// Random-byte generation.
pub trait SpdmCryptoRandom {
    /// `len` fresh random bytes, or `None` on failure.
    fn get_random(&self, len: usize) -> Option<Vec<u8>>;
}

/// The full provider bundle a requester context is injected with.
pub trait SpdmCryptoProvider: SpdmHash + SpdmHmac + SpdmAsymVerify + SpdmHkdf
    + SpdmCertOperation + SpdmDhe + SpdmCryptoRandom {

}

} // verus!
