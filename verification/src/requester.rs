//! The requester-side engine: the context owning connection state and
//! the injected crypto provider, with the helpers shared by key
//! exchange, mutual authentication, and the encapsulated responder.

use vstd::prelude::*;

use crate::common::SpdmConfigInfo;
use crate::common::SpdmContext;
use crate::common::SpdmProvisionInfo;
use crate::common::SpdmSession;
use crate::common::SpdmSigningStrategy;
use crate::crypto::SpdmCryptoProvider;
use crate::crypto::SpdmHash;
use crate::crypto::SpdmHkdf;
use crate::error::SpdmResult;
use crate::error::SpdmStatus;
use crate::protocol::SPDM_MAX_SLOT_NUMBER;
use crate::protocol::SpdmDigestStruct;
use crate::protocol::SpdmVersion;

verus! {

/// The 64-byte version prefix a 1.2 signing context starts with: the
/// 16-byte version marker repeated four times.
pub open spec fn spec_signing_prefix_unit() -> Seq<u8> {
    seq![
        0x64u8, 0x6Du8, 0x74u8, 0x66u8, 0x2Du8, 0x73u8, 0x70u8, 0x64u8, 0x6Du8, 0x2Du8, 0x76u8,
        0x31u8, 0x2Eu8, 0x32u8, 0x2Eu8, 0x2Au8,
    ]
}

/// The whole version prefix.
pub open spec fn spec_signing_prefix() -> Seq<u8> {
    spec_signing_prefix_unit() + spec_signing_prefix_unit() + spec_signing_prefix_unit()
        + spec_signing_prefix_unit()
}

/// The two zero bytes padding the prefix section to its fixed width.
pub open spec fn spec_signing_pad() -> Seq<u8> {
    seq![0u8, 0u8]
}

/// The per-message-type context label of a key-exchange response
/// signature.
pub open spec fn spec_kx_rsp_sign_label() -> Seq<u8> {
    seq![
        0x72u8, 0x65u8, 0x73u8, 0x70u8, 0x6Fu8, 0x6Eu8, 0x64u8, 0x65u8, 0x72u8, 0x2Du8, 0x6Bu8,
        0x65u8, 0x79u8, 0x5Fu8, 0x65u8, 0x78u8, 0x63u8, 0x68u8, 0x61u8, 0x6Eu8, 0x67u8, 0x65u8,
        0x5Fu8, 0x72u8, 0x73u8, 0x70u8, 0x20u8, 0x73u8, 0x69u8, 0x67u8, 0x6Eu8, 0x69u8, 0x6Eu8,
        0x67u8,
    ]
}

/// What a key-exchange response signature is computed over, given the
/// negotiated version, the signing strategy, the raw transcript bytes
/// and their hash. Versions from 1.2 on sign the prefixed transcript
/// hash; earlier versions sign the raw transcript, which the
/// hashed-transcript strategy cannot serve.
pub open spec fn spec_signing_context(
    version: SpdmVersion,
    strategy: SpdmSigningStrategy,
    transcript_data: Seq<u8>,
    transcript_hash: Seq<u8>,
) -> Option<Seq<u8>> {
    if version.spec_u8() >= 0x12 {
        Some(
            spec_signing_prefix() + spec_signing_pad() + spec_kx_rsp_sign_label()
                + transcript_hash,
        )
    } else if strategy == SpdmSigningStrategy::RawTranscript {
        Some(transcript_data)
    } else {
        None
    }
}

fn push_signing_prefix_unit(v: &mut Vec<u8>)
    ensures
        final(v)@ == old(v)@ + spec_signing_prefix_unit(),
{
    let ghost before = v@;
    v.push(0x64);
    v.push(0x6D);
    v.push(0x74);
    v.push(0x66);
    v.push(0x2D);
    v.push(0x73);
    v.push(0x70);
    v.push(0x64);
    v.push(0x6D);
    v.push(0x2D);
    v.push(0x76);
    v.push(0x31);
    v.push(0x2E);
    v.push(0x32);
    v.push(0x2E);
    v.push(0x2A);
    assert(v@ =~= before + spec_signing_prefix_unit());
}

fn push_kx_rsp_sign_label(v: &mut Vec<u8>)
    ensures
        final(v)@ == old(v)@ + spec_kx_rsp_sign_label(),
{
    let ghost before = v@;
    v.push(0x72);
    v.push(0x65);
    v.push(0x73);
    v.push(0x70);
    v.push(0x6F);
    v.push(0x6E);
    v.push(0x64);
    v.push(0x65);
    v.push(0x72);
    v.push(0x2D);
    v.push(0x6B);
    v.push(0x65);
    v.push(0x79);
    v.push(0x5F);
    v.push(0x65);
    v.push(0x78);
    v.push(0x63);
    v.push(0x68);
    v.push(0x61);
    v.push(0x6E);
    v.push(0x67);
    v.push(0x65);
    v.push(0x5F);
    v.push(0x72);
    v.push(0x73);
    v.push(0x70);
    v.push(0x20);
    v.push(0x73);
    v.push(0x69);
    v.push(0x67);
    v.push(0x6E);
    v.push(0x69);
    v.push(0x6E);
    v.push(0x67);
    assert(v@ =~= before + spec_kx_rsp_sign_label());
}

/// Builds the byte sequence a key-exchange response signature covers,
/// or reports that the configured strategy cannot serve the
/// negotiated version.
pub fn compute_signing_context(
    version: SpdmVersion,
    strategy: SpdmSigningStrategy,
    transcript_data: &[u8],
    transcript_hash: &[u8],
) -> (r: SpdmResult<Vec<u8>>)
    ensures
        match spec_signing_context(version, strategy, transcript_data@, transcript_hash@) {
            Some(ctx) => r matches Ok(v) && v@ == ctx,
            None => r == Err::<Vec<u8>, SpdmStatus>(SpdmStatus::InvalidStateLocal),
        },
{
    if version.get_u8() >= 0x12 {
        let mut v: Vec<u8> = Vec::new();
        push_signing_prefix_unit(&mut v);
        push_signing_prefix_unit(&mut v);
        push_signing_prefix_unit(&mut v);
        push_signing_prefix_unit(&mut v);
        v.push(0);
        v.push(0);
        push_kx_rsp_sign_label(&mut v);
        v.extend_from_slice(transcript_hash);
        assert(v@ =~= spec_signing_prefix() + spec_signing_pad() + spec_kx_rsp_sign_label()
            + transcript_hash@);
        Ok(v)
    } else if matches!(strategy, SpdmSigningStrategy::RawTranscript) {
        let mut v: Vec<u8> = Vec::new();
        v.extend_from_slice(transcript_data);
        Ok(v)
    } else {
        Err(SpdmStatus::InvalidStateLocal)
    }
}

impl SpdmSession {
    /// Derives the handshake secret and both finished keys from the
    /// shared secret and the transcript hash `th1`; on any provider
    /// failure the record is unchanged and `CryptoError` is returned.
    pub fn generate_handshake_secret<H: SpdmHkdf>(
        &mut self,
        provider: &H,
        th1: &SpdmDigestStruct,
    ) -> (r: SpdmResult<()>)
        requires
            old(self).wf(),
            old(self).dhe_secret is Some,
        ensures
            final(self).wf(),
            match r {
                Ok(()) => {
                    &&& *final(self) == (SpdmSession {
                        handshake_secret: final(self).handshake_secret,
                        request_finished_key: final(self).request_finished_key,
                        response_finished_key: final(self).response_finished_key,
                        ..*old(self)
                    })
                    &&& final(self).handshake_secret matches Some(hs) && hs.data@.len()
                        == old(self).base_hash_algo.spec_size()
                    &&& final(self).request_finished_key matches Some(k) && k.data@.len()
                        == old(self).base_hash_algo.spec_size()
                    &&& final(self).response_finished_key matches Some(k) && k.data@.len()
                        == old(self).base_hash_algo.spec_size()
                },
                Err(e) => e == SpdmStatus::CryptoError && *final(self) == *old(self),
            },
    {
        let hash_size = self.base_hash_algo.get_size();
        let dhe = match &self.dhe_secret {
            Some(d) => d,
            None => { return Err(SpdmStatus::CryptoError); },
        };
        // Expansion info: a fixed label, then the transcript hash, so
        // the derived secret binds every byte exchanged so far.
        let mut info: Vec<u8> = Vec::new();
        info.push(0x68);  // "hs"
        info.push(0x73);
        info.extend_from_slice(th1.data.as_slice());
        let hs = match self.hkdf_sized(provider, dhe.data.as_slice(), info.as_slice(), hash_size) {
            Some(d) => d,
            None => { return Err(SpdmStatus::CryptoError); },
        };
        let mut info_req: Vec<u8> = Vec::new();
        info_req.push(0x72);  // "rq"
        info_req.push(0x71);
        let req_fk = match self.hkdf_sized(
            provider,
            hs.data.as_slice(),
            info_req.as_slice(),
            hash_size,
        ) {
            Some(d) => d,
            None => { return Err(SpdmStatus::CryptoError); },
        };
        let mut info_rsp: Vec<u8> = Vec::new();
        info_rsp.push(0x72);  // "rs"
        info_rsp.push(0x73);
        let rsp_fk = match self.hkdf_sized(
            provider,
            hs.data.as_slice(),
            info_rsp.as_slice(),
            hash_size,
        ) {
            Some(d) => d,
            None => { return Err(SpdmStatus::CryptoError); },
        };
        self.handshake_secret = Some(hs);
        self.request_finished_key = Some(req_fk);
        self.response_finished_key = Some(rsp_fk);
        Ok(())
    }

    /// One provider expansion whose result is accepted only at the
    /// exact size asked for.
    fn hkdf_sized<H: SpdmHkdf>(&self, provider: &H, pk: &[u8], info: &[u8], out_size: u16) -> (r:
        Option<SpdmDigestStruct>)
        ensures
            r matches Some(d) ==> d.data@.len() == out_size,
    {
        match provider.hkdf_expand(self.base_hash_algo, pk, info, out_size) {
            Some(d) => {
                if d.data.len() == out_size as usize {
                    Some(d)
                } else {
                    None
                }
            },
            None => None,
        }
    }
}

/// A requester: the connection-level state plus the injected crypto
/// provider.
pub struct RequesterContext<C: SpdmCryptoProvider> {
    pub common: SpdmContext,
    pub provider: C,
}

impl<C: SpdmCryptoProvider> RequesterContext<C> {
    pub fn new(provider: C, config_info: SpdmConfigInfo, provision_info: SpdmProvisionInfo) -> (r:
        RequesterContext<C>)
        requires
            provision_info.wf(),
        ensures
            r.common.wf(),
            r.common.spec_initial(config_info, provision_info),
    {
        RequesterContext { common: SpdmContext::new(config_info, provision_info), provider }
    }

    /// Digest of the peer certificate chain in `slot_id`, through the
    /// provider; `None` when no chain is stored there or the provider
    /// fails or mis-sizes the digest.
    pub fn get_certchain_hash_peer(&self, slot_id: u8) -> (r: Option<SpdmDigestStruct>)
        requires
            self.common.wf(),
            slot_id < SPDM_MAX_SLOT_NUMBER,
        ensures
            self.common.peer_info.peer_cert_chain@[slot_id as int] is None ==> r is None,
            r matches Some(d) ==> self.common.peer_info.peer_cert_chain@[slot_id as int] is Some
                && d.data@.len() == self.common.negotiate_info.base_hash_sel.spec_size(),
    {
        let hash_size = self.common.negotiate_info.base_hash_sel.get_size() as usize;
        match &self.common.peer_info.peer_cert_chain[slot_id as usize] {
            Some(chain) => match self.provider.hash_all(
                self.common.negotiate_info.base_hash_sel,
                chain.data.as_slice(),
            ) {
                Some(d) => {
                    if d.data.len() == hash_size {
                        Some(d)
                    } else {
                        None
                    }
                },
                None => None,
            },
            None => None,
        }
    }

    /// The raw transcript a key-exchange signature and HMAC cover: the
    /// inherited negotiation transcript, the digest of the peer
    /// certificate chain, then the session transcript.
    pub fn calc_req_transcript_data(&self, session: &SpdmSession) -> (r: SpdmResult<Vec<u8>>)
        ensures
            match session.rsp_cert_hash {
                Some(h) => r matches Ok(v) && v@ == session.message_a@ + h.data@
                    + session.message_k@,
                None => r == Err::<Vec<u8>, SpdmStatus>(SpdmStatus::InvalidStateLocal),
            },
    {
        let cert_hash = match &session.rsp_cert_hash {
            Some(h) => h,
            None => { return Err(SpdmStatus::InvalidStateLocal); },
        };
        let mut v: Vec<u8> = Vec::new();
        v.extend_from_slice(session.message_a.as_slice());
        v.extend_from_slice(cert_hash.data.as_slice());
        v.extend_from_slice(session.message_k.as_slice());
        assert(v@ =~= session.message_a@ + cert_hash.data@ + session.message_k@);
        Ok(v)
    }

    /// Hash of the raw transcript, through the provider; the digest is
    /// accepted only at the negotiated hash size.
    pub fn calc_req_transcript_hash(&self, session: &SpdmSession) -> (r: SpdmResult<
        SpdmDigestStruct,
    >)
        ensures
            session.rsp_cert_hash is None ==> r == Err::<SpdmDigestStruct, SpdmStatus>(
                SpdmStatus::InvalidStateLocal,
            ),
            r matches Ok(d) ==> session.rsp_cert_hash is Some && d.data@.len()
                == self.common.negotiate_info.base_hash_sel.spec_size(),
            r matches Err(e) ==> (e == SpdmStatus::InvalidStateLocal || e
                == SpdmStatus::CryptoError),
    {
        let data = match self.calc_req_transcript_data(session) {
            Ok(v) => v,
            Err(e) => { return Err(e); },
        };
        let hash_size = self.common.negotiate_info.base_hash_sel.get_size() as usize;
        match self.provider.hash_all(self.common.negotiate_info.base_hash_sel, data.as_slice()) {
            Some(d) => {
                if d.data.len() == hash_size {
                    Ok(d)
                } else {
                    Err(SpdmStatus::CryptoError)
                }
            },
            None => Err(SpdmStatus::CryptoError),
        }
    }
}

} // verus!
