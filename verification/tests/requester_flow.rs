use std::cell::RefCell;
use std::rc::Rc;

use spdmlib::codec::Reader;
use spdmlib::codec::Writer;
use spdmlib::common::SpdmConfigInfo;
use spdmlib::common::SpdmProvisionInfo;
use spdmlib::common::SpdmSession;
use spdmlib::common::SpdmSessionState;
use spdmlib::common::SpdmSigningStrategy;
use spdmlib::crypto::SpdmAsymVerify;
use spdmlib::crypto::SpdmCertOperation;
use spdmlib::crypto::SpdmCryptoProvider;
use spdmlib::crypto::SpdmCryptoRandom;
use spdmlib::crypto::SpdmDhe;
use spdmlib::crypto::SpdmDheKeyExchange;
use spdmlib::crypto::SpdmHash;
use spdmlib::crypto::SpdmHkdf;
use spdmlib::crypto::SpdmHmac;
use spdmlib::error::SpdmStatus;
use spdmlib::key_exchange::SpdmKeyExchangeRequestPayload;
use spdmlib::message::SpdmKeyExchangeMutAuthAttributes;
use spdmlib::message::SpdmMessageHeader;
use spdmlib::mutual_authenticate::SpdmMutAuthOutcome;
use spdmlib::protocol::SpdmAeadAlgo;
use spdmlib::protocol::SpdmBaseAsymAlgo;
use spdmlib::protocol::SpdmBaseHashAlgo;
use spdmlib::protocol::SpdmCertChainBuffer;
use spdmlib::protocol::SpdmCertChainData;
use spdmlib::protocol::SpdmDheAlgo;
use spdmlib::protocol::SpdmDheExchangeStruct;
use spdmlib::protocol::SpdmDheFinalKeyStruct;
use spdmlib::protocol::SpdmDigestStruct;
use spdmlib::protocol::SpdmKeyScheduleAlgo;
use spdmlib::protocol::SpdmMeasurementSummaryHashType;
use spdmlib::protocol::SpdmOpaqueSupport;
use spdmlib::protocol::SpdmRequestCapabilityFlags;
use spdmlib::protocol::SpdmResponseCapabilityFlags;
use spdmlib::protocol::SpdmSignatureStruct;
use spdmlib::protocol::SpdmVersion;
use spdmlib::protocol::REQ_CAP_CERT;
use spdmlib::protocol::REQ_CAP_HANDSHAKE_IN_THE_CLEAR;
use spdmlib::protocol::REQ_CAP_MUT_AUTH;
use spdmlib::protocol::RSP_CAP_HANDSHAKE_IN_THE_CLEAR;
use spdmlib::protocol::RSP_CAP_MUT_AUTH;
use spdmlib::requester::RequesterContext;

fn hash_len(alg: SpdmBaseHashAlgo) -> Option<usize> {
    match alg {
        SpdmBaseHashAlgo::TpmAlgSha256 => Some(32),
        SpdmBaseHashAlgo::TpmAlgSha384 => Some(48),
        SpdmBaseHashAlgo::TpmAlgSha512 => Some(64),
        SpdmBaseHashAlgo::NoHash => None,
    }
}

fn toy_hash(alg: SpdmBaseHashAlgo, data: &[u8]) -> Option<Vec<u8>> {
    let n = hash_len(alg)?;
    let mut out = vec![0u8; n];
    let mut acc: u64 = 0x9E37_79B9_7F4A_7C15;
    for (i, &b) in data.iter().enumerate() {
        acc = acc
            .wrapping_mul(0x100_0000_01B3)
            .wrapping_add(b as u64)
            .rotate_left((i % 23) as u32);
        out[i % n] ^= (acc >> 17) as u8;
    }
    for (i, o) in out.iter_mut().enumerate() {
        acc = acc
            .wrapping_mul(0x100_0000_01B3)
            .wrapping_add(i as u64 + data.len() as u64);
        *o ^= acc as u8;
    }
    Some(out)
}

fn asym_len(alg: SpdmBaseAsymAlgo) -> Option<usize> {
    match alg {
        SpdmBaseAsymAlgo::TpmAlgEcdsaEccNistP256 => Some(64),
        SpdmBaseAsymAlgo::TpmAlgEcdsaEccNistP384 => Some(96),
        SpdmBaseAsymAlgo::TpmAlgRsassa2048 => Some(256),
        SpdmBaseAsymAlgo::TpmAlgRsassa3072 => Some(384),
        SpdmBaseAsymAlgo::NoAsym => None,
    }
}

fn toy_sig(
    hash_alg: SpdmBaseHashAlgo,
    asym_alg: SpdmBaseAsymAlgo,
    cert: &[u8],
    data: &[u8],
) -> Option<Vec<u8>> {
    let size = asym_len(asym_alg)?;
    let mut input = data.to_vec();
    input.extend_from_slice(cert);
    let base = toy_hash(hash_alg, &input)?;
    Some((0..size).map(|i| base[i % base.len()] ^ (i as u8)).collect())
}

fn toy_hkdf(alg: SpdmBaseHashAlgo, pk: &[u8], info: &[u8]) -> Vec<u8> {
    let mut v = pk.to_vec();
    v.extend_from_slice(info);
    toy_hash(alg, &v).unwrap()
}

fn dhe_len(alg: SpdmDheAlgo) -> Option<usize> {
    match alg {
        SpdmDheAlgo::Secp256R1 => Some(64),
        SpdmDheAlgo::Secp384R1 => Some(96),
        SpdmDheAlgo::NoDhe => None,
    }
}

fn toy_dhe_secret(n: usize) -> Vec<u8> {
    (0..n).map(|i| (i as u8).wrapping_mul(7).wrapping_add(13)).collect()
}

fn toy_final_key(a: &[u8], b: &[u8]) -> Vec<u8> {
    (0..48).map(|i| a[i] ^ b[i]).collect()
}

struct TestDheContext {
    secret: Vec<u8>,
}

impl SpdmDheKeyExchange for TestDheContext {
    fn compute_final_key(self, peer_pub_key: &SpdmDheExchangeStruct) -> Option<SpdmDheFinalKeyStruct> {
        if peer_pub_key.data.len() != self.secret.len() || self.secret.len() < 48 {
            return None;
        }
        Some(SpdmDheFinalKeyStruct {
            data: toy_final_key(&self.secret, &peer_pub_key.data),
        })
    }
}

struct TestCryptoProvider {
    ops: Rc<RefCell<Vec<&'static str>>>,
}

impl SpdmHash for TestCryptoProvider {
    fn hash_all(&self, base_hash_algo: SpdmBaseHashAlgo, data: &[u8]) -> Option<SpdmDigestStruct> {
        toy_hash(base_hash_algo, data).map(|v| SpdmDigestStruct { data: v })
    }
}

impl SpdmHmac for TestCryptoProvider {
    fn hmac(
        &self,
        base_hash_algo: SpdmBaseHashAlgo,
        key: &[u8],
        data: &[u8],
    ) -> Option<SpdmDigestStruct> {
        let mut keyed = key.to_vec();
        keyed.extend_from_slice(data);
        toy_hash(base_hash_algo, &keyed).map(|v| SpdmDigestStruct { data: v })
    }

    fn hmac_verify(
        &self,
        base_hash_algo: SpdmBaseHashAlgo,
        key: &[u8],
        data: &[u8],
        hmac: &SpdmDigestStruct,
    ) -> bool {
        self.ops.borrow_mut().push("hmac_verify");
        match self.hmac(base_hash_algo, key, data) {
            Some(expect) => expect.data == hmac.data,
            None => false,
        }
    }
}

impl SpdmAsymVerify for TestCryptoProvider {
    fn verify(
        &self,
        base_hash_algo: SpdmBaseHashAlgo,
        base_asym_algo: SpdmBaseAsymAlgo,
        public_cert_der: &[u8],
        data: &[u8],
        signature: &SpdmSignatureStruct,
    ) -> bool {
        self.ops.borrow_mut().push("asym_verify");
        match toy_sig(base_hash_algo, base_asym_algo, public_cert_der, data) {
            Some(expect) => expect == signature.data,
            None => false,
        }
    }
}

impl SpdmHkdf for TestCryptoProvider {
    fn hkdf_expand(
        &self,
        hash_algo: SpdmBaseHashAlgo,
        pk: &[u8],
        info: &[u8],
        out_size: u16,
    ) -> Option<SpdmDigestStruct> {
        let base = toy_hkdf(hash_algo, pk, info);
        if base.len() != out_size as usize {
            return None;
        }
        Some(SpdmDigestStruct { data: base })
    }
}

impl SpdmCertOperation for TestCryptoProvider {
    fn get_cert_from_cert_chain(&self, cert_chain: &[u8], _index: usize) -> Option<(usize, usize)> {
        Some((0, cert_chain.len()))
    }

    fn verify_cert_chain(&self, _cert_chain: &[u8]) -> bool {
        true
    }
}

impl SpdmDhe for TestCryptoProvider {
    type Context = TestDheContext;

    fn generate_key_pair(
        &self,
        dhe_algo: SpdmDheAlgo,
    ) -> Option<(SpdmDheExchangeStruct, TestDheContext)> {
        let n = dhe_len(dhe_algo)?;
        let secret = toy_dhe_secret(n);
        Some((
            SpdmDheExchangeStruct { data: secret.clone() },
            TestDheContext { secret },
        ))
    }
}

impl SpdmCryptoRandom for TestCryptoProvider {
    fn get_random(&self, len: usize) -> Option<Vec<u8>> {
        Some((0..len).map(|i| (i as u8).wrapping_mul(31).wrapping_add(7)).collect())
    }
}

impl SpdmCryptoProvider for TestCryptoProvider {}

fn default_config() -> SpdmConfigInfo {
    SpdmConfigInfo {
        session_policy: 1,
        sequence_number_count: 2,
        max_random_count: 16,
        signing_strategy: SpdmSigningStrategy::HashedTranscript,
    }
}

fn default_provision() -> SpdmProvisionInfo {
    SpdmProvisionInfo {
        my_cert_chain: (0..8).map(|_| None).collect(),
        my_cert_chain_data: (0..8).map(|_| None).collect(),
    }
}

fn test_chain() -> Vec<u8> {
    (0..160u32).map(|i| (i as u8).wrapping_mul(3).wrapping_add(1)).collect()
}

fn setup_requester() -> (RequesterContext<TestCryptoProvider>, Rc<RefCell<Vec<&'static str>>>) {
    let ops: Rc<RefCell<Vec<&'static str>>> = Rc::new(RefCell::new(Vec::new()));
    let provider = TestCryptoProvider { ops: ops.clone() };
    let mut ctx = RequesterContext::new(provider, default_config(), default_provision());
    ctx.common.negotiate_info.spdm_version_sel = SpdmVersion::SpdmVersion12;
    ctx.common.negotiate_info.base_hash_sel = SpdmBaseHashAlgo::TpmAlgSha384;
    ctx.common.negotiate_info.base_asym_sel = SpdmBaseAsymAlgo::TpmAlgEcdsaEccNistP384;
    ctx.common.negotiate_info.dhe_sel = SpdmDheAlgo::Secp384R1;
    ctx.common.negotiate_info.aead_sel = SpdmAeadAlgo::Aes256Gcm;
    ctx.common.negotiate_info.key_schedule_sel = SpdmKeyScheduleAlgo::SpdmKeySchedule;
    ctx.common.negotiate_info.opaque_data_support = SpdmOpaqueSupport::OpaqueDataFmt1;
    ctx.common.peer_info.peer_cert_chain[0] = Some(SpdmCertChainBuffer { data: test_chain() });
    (ctx, ops)
}

const MST_NONE: SpdmMeasurementSummaryHashType =
    SpdmMeasurementSummaryHashType::SpdmMeasurementSummaryHashTypeNone;

struct ResponseParams {
    rsp_session_id: u16,
    heartbeat: u8,
    mut_auth_req: u8,
    req_slot_id: u8,
    opaque: Vec<u8>,
    in_clear: bool,
}

impl ResponseParams {
    fn plain(rsp_session_id: u16) -> ResponseParams {
        ResponseParams {
            rsp_session_id,
            heartbeat: 5,
            mut_auth_req: 0,
            req_slot_id: 0,
            opaque: Vec::new(),
            in_clear: false,
        }
    }
}

/// Plays a conforming responder: computes the signature and, unless in
/// the clear, the HMAC exactly as the negotiated SHA-384 / P-384
/// algorithm set demands of the transcript.
fn build_response(req_bytes: &[u8], p: &ResponseParams) -> Vec<u8> {
    let dhe = 96usize;
    let hash = 48usize;
    let alg = SpdmBaseHashAlgo::TpmAlgSha384;
    let chain = test_chain();
    let req_exchange = &req_bytes[40..40 + dhe];
    let rsp_secret = toy_dhe_secret(dhe);
    let rsp_exchange = rsp_secret.clone();
    let final_key = toy_final_key(&rsp_secret, req_exchange);

    let mut head: Vec<u8> = Vec::new();
    head.push(0x12);
    head.push(0x64);
    head.push(p.heartbeat);
    head.push(0);
    head.push((p.rsp_session_id & 0xff) as u8);
    head.push((p.rsp_session_id >> 8) as u8);
    head.push(p.mut_auth_req);
    head.push(p.req_slot_id);
    head.extend((0..32u32).map(|i| i as u8));
    head.extend_from_slice(&rsp_exchange);
    head.push((p.opaque.len() & 0xff) as u8);
    head.push(((p.opaque.len() >> 8) & 0xff) as u8);
    head.extend_from_slice(&p.opaque);

    let cert_hash = toy_hash(alg, &chain).unwrap();
    let mut trans: Vec<u8> = Vec::new();
    trans.extend_from_slice(&cert_hash);
    trans.extend_from_slice(req_bytes);
    trans.extend_from_slice(&head);
    let th = toy_hash(alg, &trans).unwrap();

    let mut sigctx: Vec<u8> = Vec::new();
    for _ in 0..4 {
        sigctx.extend_from_slice(b"dmtf-spdm-v1.2.*");
    }
    sigctx.push(0);
    sigctx.push(0);
    sigctx.extend_from_slice(b"responder-key_exchange_rsp signing");
    sigctx.extend_from_slice(&th);
    let leaf = &chain[4 + hash..];
    let sig = toy_sig(
        alg,
        SpdmBaseAsymAlgo::TpmAlgEcdsaEccNistP384,
        leaf,
        &sigctx,
    )
    .unwrap();

    let mut out = head.clone();
    out.extend_from_slice(&sig);
    if !p.in_clear {
        let mut trans2 = trans.clone();
        trans2.extend_from_slice(&sig);
        let th1 = toy_hash(alg, &trans2).unwrap();
        let mut info = vec![0x68u8, 0x73u8];
        info.extend_from_slice(&th1);
        let hs = toy_hkdf(alg, &final_key, &info);
        let rsp_fk = toy_hkdf(alg, &hs, &[0x72, 0x73]);
        let mut keyed = rsp_fk.clone();
        keyed.extend_from_slice(&th1);
        let vd = toy_hash(alg, &keyed).unwrap();
        out.extend_from_slice(&vd);
    }
    out
}

fn run_key_exchange(
    ctx: &mut RequesterContext<TestCryptoProvider>,
    p: &ResponseParams,
    tamper: Option<usize>,
) -> (Result<u32, SpdmStatus>, u16) {
    let req_half = ctx.common.get_next_half_session_id(true).unwrap();
    let (dhe_ctx, req_bytes) = ctx.encode_spdm_key_exchange(req_half, 0, MST_NONE).unwrap();
    let mut rsp = build_response(&req_bytes, p);
    if let Some(i) = tamper {
        rsp[i] ^= 0x55;
    }
    let r = ctx.handle_spdm_key_exhcange_response(req_half, 0, &req_bytes, &rsp, MST_NONE, dhe_ctx);
    (r, req_half)
}

#[test]
fn key_exchange_with_conforming_peer_reaches_handshaking() {
    let (mut ctx, _) = setup_requester();
    let (r, req_half) = run_key_exchange(&mut ctx, &ResponseParams::plain(0xAAAA), None);
    let sid = r.unwrap();
    assert_eq!(sid, (0xAAAAu32 << 16) | req_half as u32);
    assert_eq!(
        ctx.common.session_state_of(sid),
        Some(SpdmSessionState::SpdmSessionHandshaking)
    );
    let s = ctx.common.session.iter().find(|s| s.session_id == sid).unwrap();
    assert_eq!(s.heartbeat_period, 5);
    assert!(!s.use_psk);
    assert!(s.dhe_secret.is_some());
    assert!(s.response_finished_key.is_some());
    assert_eq!(s.base_hash_algo, SpdmBaseHashAlgo::TpmAlgSha384);
    assert_eq!(s.dhe_algo, SpdmDheAlgo::Secp384R1);
    assert_eq!(s.aead_algo, SpdmAeadAlgo::Aes256Gcm);
    assert_eq!(s.key_schedule_algo, SpdmKeyScheduleAlgo::SpdmKeySchedule);
    assert_eq!(s.sequence_number_count, 2);
    assert_eq!(s.max_random_count, 16);
    assert!(s.rsp_cert_hash.is_some());
    // Not in the clear: this session is not recorded as last-in-clear.
    assert_eq!(ctx.common.runtime_info.last_session_id, None);
}

#[test]
fn key_exchange_in_clear_skips_hmac_and_records_last_session() {
    let (mut ctx, ops) = setup_requester();
    ctx.common.negotiate_info.req_capabilities_sel =
        SpdmRequestCapabilityFlags { bits: REQ_CAP_HANDSHAKE_IN_THE_CLEAR };
    ctx.common.negotiate_info.rsp_capabilities_sel =
        SpdmResponseCapabilityFlags { bits: RSP_CAP_HANDSHAKE_IN_THE_CLEAR };
    let mut p = ResponseParams::plain(0x1234);
    p.in_clear = true;
    let (r, req_half) = run_key_exchange(&mut ctx, &p, None);
    let sid = r.unwrap();
    assert_eq!(sid, (0x1234u32 << 16) | req_half as u32);
    assert_eq!(ctx.common.runtime_info.last_session_id, Some(sid));
    assert!(!ops.borrow().contains(&"hmac_verify"));
}

#[test]
fn tampered_signature_fails_and_leaves_no_session() {
    let (mut ctx, _) = setup_requester();
    // Signature begins right after the fixed head plus empty opaque:
    // 2 + 6 + 32 + 96 + 2 = 138.
    let (r, req_half) = run_key_exchange(&mut ctx, &ResponseParams::plain(0xBBBB), Some(138));
    assert_eq!(r, Err(SpdmStatus::VerifFail));
    let sid = (0xBBBBu32 << 16) | req_half as u32;
    assert!(!ctx.common.has_session(sid));
    assert!(ctx.common.session.iter().all(|s| s.session_id == 0));
}

#[test]
fn tampered_hmac_fails_after_signature_verified() {
    let (mut ctx, ops) = setup_requester();
    // The HMAC is the trailing 48 bytes: 138 + 96 = 234 is its first.
    let (r, req_half) = run_key_exchange(&mut ctx, &ResponseParams::plain(0xCCCC), Some(234));
    assert_eq!(r, Err(SpdmStatus::VerifFail));
    let sid = (0xCCCCu32 << 16) | req_half as u32;
    assert!(!ctx.common.has_session(sid));
    // The signature gate ran, and passed, before the HMAC gate ran.
    let log = ops.borrow();
    let sig_pos = log.iter().position(|o| *o == "asym_verify").unwrap();
    let hmac_pos = log.iter().position(|o| *o == "hmac_verify").unwrap();
    assert!(sig_pos < hmac_pos);
}

#[test]
fn key_exchange_request_round_trips_through_response_side_codec() {
    let (mut ctx, _) = setup_requester();
    let (_, req_bytes) = ctx.encode_spdm_key_exchange(0xFFF0, 3, MST_NONE).unwrap();
    let mut reader = Reader::init(&req_bytes);
    let header = SpdmMessageHeader::read(&mut reader).unwrap();
    assert_eq!(header.version, SpdmVersion::SpdmVersion12);
    let payload = SpdmKeyExchangeRequestPayload::spdm_read(&ctx.common, &mut reader).unwrap();
    assert_eq!(payload.slot_id, 3);
    assert_eq!(payload.req_session_id, 0xFFF0);
    assert_eq!(payload.session_policy, 1);
    assert_eq!(payload.measurement_summary_hash_type, MST_NONE);
    // The nonce is what the provider drew; the opaque block is the
    // format-1 version list.
    let expected_random: Vec<u8> =
        (0..32).map(|i| (i as u8).wrapping_mul(31).wrapping_add(7)).collect();
    assert_eq!(payload.random.data, expected_random);
    assert_eq!(
        payload.opaque.data,
        vec![0x46, 0x54, 0x4D, 0x44, 0x01, 0x00, 0x02, 0x00, 0x10, 0x00, 0x11]
    );
    assert_eq!(reader.left(), 0);
}

#[test]
fn encode_rejects_out_of_range_slot() {
    let (mut ctx, _) = setup_requester();
    let r = ctx.encode_spdm_key_exchange(0xFFF0, 8, MST_NONE);
    assert!(matches!(r, Err(SpdmStatus::InvalidParameter)));
}

#[test]
fn encode_rejects_unsupported_opaque_format() {
    let (mut ctx, _) = setup_requester();
    ctx.common.negotiate_info.opaque_data_support = SpdmOpaqueSupport::NoOpaqueFormat;
    let r = ctx.encode_spdm_key_exchange(0xFFF0, 0, MST_NONE);
    assert!(matches!(r, Err(SpdmStatus::UnsupportedCapability)));
}

#[test]
fn encode_fails_without_key_agreement_algorithm() {
    let (mut ctx, _) = setup_requester();
    ctx.common.negotiate_info.dhe_sel = SpdmDheAlgo::NoDhe;
    let r = ctx.encode_spdm_key_exchange(0xFFF0, 0, MST_NONE);
    assert!(matches!(r, Err(SpdmStatus::CryptoError)));
}

#[test]
fn encode_uses_legacy_opaque_before_version_12() {
    let (mut ctx, _) = setup_requester();
    ctx.common.negotiate_info.spdm_version_sel = SpdmVersion::SpdmVersion11;
    ctx.common.negotiate_info.opaque_data_support = SpdmOpaqueSupport::NoOpaqueFormat;
    let (_, req_bytes) = ctx.encode_spdm_key_exchange(0xFFF0, 0, MST_NONE).unwrap();
    let mut reader = Reader::init(&req_bytes);
    SpdmMessageHeader::read(&mut reader).unwrap();
    let payload = SpdmKeyExchangeRequestPayload::spdm_read(&ctx.common, &mut reader).unwrap();
    assert_eq!(
        payload.opaque.data,
        vec![0x01, 0x00, 0x02, 0x00, 0x10, 0x00, 0x11, 0x00]
    );
}

#[test]
fn handle_rejects_unparseable_header() {
    let (mut ctx, _) = setup_requester();
    let req_half = ctx.common.get_next_half_session_id(true).unwrap();
    let (dhe_ctx, req) = ctx.encode_spdm_key_exchange(req_half, 0, MST_NONE).unwrap();
    let r = ctx.handle_spdm_key_exhcange_response(req_half, 0, &req, &[0x12], MST_NONE, dhe_ctx);
    assert_eq!(r, Err(SpdmStatus::InvalidMsgField));
}

#[test]
fn handle_rejects_version_mismatch() {
    let (mut ctx, _) = setup_requester();
    let req_half = ctx.common.get_next_half_session_id(true).unwrap();
    let (dhe_ctx, req) = ctx.encode_spdm_key_exchange(req_half, 0, MST_NONE).unwrap();
    let rsp = [0x11u8, 0x64, 0, 0];
    let r = ctx.handle_spdm_key_exhcange_response(req_half, 0, &req, &rsp, MST_NONE, dhe_ctx);
    assert_eq!(r, Err(SpdmStatus::InvalidMsgField));
}

#[test]
fn handle_surfaces_peer_error_response() {
    let (mut ctx, _) = setup_requester();
    let req_half = ctx.common.get_next_half_session_id(true).unwrap();
    let (dhe_ctx, req) = ctx.encode_spdm_key_exchange(req_half, 0, MST_NONE).unwrap();
    let rsp = [0x12u8, 0x7F, 0x01, 0x00];
    let r = ctx.handle_spdm_key_exhcange_response(req_half, 0, &req, &rsp, MST_NONE, dhe_ctx);
    assert_eq!(r, Err(SpdmStatus::ErrorPeer));
}

#[test]
fn handle_rejects_unexpected_response_code() {
    let (mut ctx, _) = setup_requester();
    let req_half = ctx.common.get_next_half_session_id(true).unwrap();
    let (dhe_ctx, req) = ctx.encode_spdm_key_exchange(req_half, 0, MST_NONE).unwrap();
    let rsp = [0x12u8, 0x04, 0, 0];
    let r = ctx.handle_spdm_key_exhcange_response(req_half, 0, &req, &rsp, MST_NONE, dhe_ctx);
    assert_eq!(r, Err(SpdmStatus::ErrorPeer));
}

#[test]
fn handle_requires_peer_certificate_chain() {
    let (mut ctx, _) = setup_requester();
    ctx.common.peer_info.peer_cert_chain[0] = None;
    let (r, _) = run_key_exchange(&mut ctx, &ResponseParams::plain(0xDDDD), None);
    assert_eq!(r, Err(SpdmStatus::InvalidMsgField));
}

#[test]
fn handle_rejects_zero_responder_session_half() {
    let (mut ctx, _) = setup_requester();
    let (r, _) = run_key_exchange(&mut ctx, &ResponseParams::plain(0), None);
    assert_eq!(r, Err(SpdmStatus::InvalidMsgField));
    assert!(ctx.common.session.iter().all(|s| s.session_id == 0));
}

#[test]
fn handle_rejects_zero_requester_session_half() {
    let (mut ctx, _) = setup_requester();
    let (dhe_ctx, req) = ctx.encode_spdm_key_exchange(0, 0, MST_NONE).unwrap();
    let rsp = build_response(&req, &ResponseParams::plain(0x5151));
    let r = ctx.handle_spdm_key_exhcange_response(0, 0, &req, &rsp, MST_NONE, dhe_ctx);
    assert_eq!(r, Err(SpdmStatus::InvalidParameter));
}

#[test]
fn handle_fails_when_no_session_slot_is_free() {
    let (mut ctx, _) = setup_requester();
    for i in 0..4 {
        ctx.common.session[i].setup(0x0101_0000u32 + i as u32).unwrap();
    }
    let req_half = ctx.common.get_next_half_session_id(true);
    assert_eq!(req_half, Err(SpdmStatus::SessionNumberExceeded));
    let (dhe_ctx, req) = ctx.encode_spdm_key_exchange(0x7777, 0, MST_NONE).unwrap();
    let rsp = build_response(&req, &ResponseParams::plain(0xEEEE));
    let r = ctx.handle_spdm_key_exhcange_response(0x7777, 0, &req, &rsp, MST_NONE, dhe_ctx);
    assert_eq!(r, Err(SpdmStatus::SessionNumberExceeded));
}

#[test]
fn handle_reports_transcript_overflow() {
    let (mut ctx, _) = setup_requester();
    let req_half = ctx.common.get_next_half_session_id(true).unwrap();
    let (dhe_ctx, req) = ctx.encode_spdm_key_exchange(req_half, 0, MST_NONE).unwrap();
    let rsp = build_response(&req, &ResponseParams::plain(0x2222));
    let huge = vec![0u8; 20000];
    let r = ctx.handle_spdm_key_exhcange_response(req_half, 0, &huge, &rsp, MST_NONE, dhe_ctx);
    assert_eq!(r, Err(SpdmStatus::BufferFull));
    assert!(ctx.common.session.iter().all(|s| s.session_id == 0));
}

#[test]
fn mut_auth_request_without_capabilities_is_rejected() {
    let (mut ctx, _) = setup_requester();
    let mut p = ResponseParams::plain(0x3333);
    p.mut_auth_req = 1;
    let (r, _) = run_key_exchange(&mut ctx, &p, None);
    assert_eq!(r, Err(SpdmStatus::InvalidMsgField));
}

#[test]
fn mut_auth_request_with_bad_slot_is_rejected() {
    let (mut ctx, _) = setup_requester();
    ctx.common.negotiate_info.req_capabilities_sel =
        SpdmRequestCapabilityFlags { bits: REQ_CAP_MUT_AUTH };
    ctx.common.negotiate_info.rsp_capabilities_sel =
        SpdmResponseCapabilityFlags { bits: RSP_CAP_MUT_AUTH };
    let mut p = ResponseParams::plain(0x3434);
    p.mut_auth_req = 2;
    p.req_slot_id = 9;
    let (r, _) = run_key_exchange(&mut ctx, &p, None);
    assert_eq!(r, Err(SpdmStatus::InvalidMsgField));
}

#[test]
fn mut_auth_request_is_recorded_on_the_session() {
    let (mut ctx, _) = setup_requester();
    ctx.common.negotiate_info.req_capabilities_sel =
        SpdmRequestCapabilityFlags { bits: REQ_CAP_MUT_AUTH };
    ctx.common.negotiate_info.rsp_capabilities_sel =
        SpdmResponseCapabilityFlags { bits: RSP_CAP_MUT_AUTH };
    let mut p = ResponseParams::plain(0x3535);
    p.mut_auth_req = 2;
    p.req_slot_id = 1;
    let (r, _) = run_key_exchange(&mut ctx, &p, None);
    let sid = r.unwrap();
    let s = ctx.common.session.iter().find(|s| s.session_id == sid).unwrap();
    assert_eq!(
        s.mut_auth_requested,
        SpdmKeyExchangeMutAuthAttributes::MutAuthReqWithEncapRequest
    );
    assert_eq!(ctx.common.runtime_info.local_used_cert_chain_slot_id, 1);
}

#[test]
fn secure_version_selection_is_taken_from_opaque() {
    let (mut ctx, _) = setup_requester();
    let mut p = ResponseParams::plain(0x3636);
    p.opaque = vec![0x46, 0x54, 0x4D, 0x44, 0x01, 0x01, 0x00, 0x11];
    let (r, _) = run_key_exchange(&mut ctx, &p, None);
    let sid = r.unwrap();
    let s = ctx.common.session.iter().find(|s| s.session_id == sid).unwrap();
    assert_eq!(s.secure_spdm_version_sel, 0x11);
}

#[test]
fn half_session_ids_are_fresh_and_nonzero() {
    let (ctx, _) = setup_requester();
    assert_eq!(ctx.common.get_next_half_session_id(true), Ok(0xFFFD));
    let (mut ctx2, _) = setup_requester();
    ctx2.common.session[0].setup(0x0001_FFFD).unwrap();
    let h = ctx2.common.get_next_half_session_id(true).unwrap();
    assert_ne!(h, 0xFFFD);
    assert_ne!(h, 0);
}

#[test]
fn hashed_transcript_strategy_rejects_pre_12_signing() {
    let (mut ctx, _) = setup_requester();
    ctx.common.negotiate_info.spdm_version_sel = SpdmVersion::SpdmVersion11;
    let mut session = SpdmSession::new();
    session.rsp_cert_hash = Some(SpdmDigestStruct { data: vec![0; 48] });
    let sig = SpdmSignatureStruct { data: vec![0; 96] };
    let r = ctx.verify_key_exchange_rsp_signature(0, &session, &sig);
    assert_eq!(r, Err(SpdmStatus::InvalidStateLocal));
}

#[test]
fn raw_transcript_strategy_signs_raw_bytes_before_12() {
    let (mut ctx, _) = setup_requester();
    ctx.common.negotiate_info.spdm_version_sel = SpdmVersion::SpdmVersion11;
    ctx.common.config_info.signing_strategy = SpdmSigningStrategy::RawTranscript;
    let chain = test_chain();
    let alg = SpdmBaseHashAlgo::TpmAlgSha384;
    let cert_hash = toy_hash(alg, &chain).unwrap();
    let mut session = SpdmSession::new();
    session.rsp_cert_hash = Some(SpdmDigestStruct { data: cert_hash.clone() });
    session.message_k = vec![1, 2, 3, 4];
    // The raw transcript the signature must cover.
    let mut trans = Vec::new();
    trans.extend_from_slice(&cert_hash);
    trans.extend_from_slice(&[1, 2, 3, 4]);
    let leaf = &chain[4 + 48..];
    let sig_bytes =
        toy_sig(alg, SpdmBaseAsymAlgo::TpmAlgEcdsaEccNistP384, leaf, &trans).unwrap();
    let r = ctx.verify_key_exchange_rsp_signature(
        0,
        &session,
        &SpdmSignatureStruct { data: sig_bytes },
    );
    assert_eq!(r, Ok(()));
}

fn setup_session(ctx: &mut RequesterContext<TestCryptoProvider>, attrs: SpdmKeyExchangeMutAuthAttributes) {
    ctx.common.session[0] = SpdmSession::new();
    ctx.common.session[0].setup(4294836221).unwrap();
    ctx.common.session[0].set_session_state(SpdmSessionState::SpdmSessionHandshaking);
    ctx.common.session[0].set_crypto_param(
        SpdmBaseHashAlgo::TpmAlgSha384,
        SpdmDheAlgo::Secp384R1,
        SpdmAeadAlgo::Aes256Gcm,
        SpdmKeyScheduleAlgo::SpdmKeySchedule,
    );
    ctx.common.session[0].set_mut_auth_requested(attrs);
}

#[test]
fn mutual_authenticate_requires_a_live_session() {
    let (mut ctx, _) = setup_requester();
    let r = ctx.session_based_mutual_authenticate(4294836221);
    assert_eq!(r, Err(SpdmStatus::InvalidStateLocal));
}

#[test]
fn mutual_authenticate_without_request_is_an_error() {
    let (mut ctx, _) = setup_requester();
    setup_session(&mut ctx, SpdmKeyExchangeMutAuthAttributes::NotRequested);
    let r = ctx.session_based_mutual_authenticate(4294836221);
    assert_eq!(r, Err(SpdmStatus::InvalidMsgField));
}

#[test]
fn mutual_authenticate_satisfied_by_signature_alone() {
    let (mut ctx, _) = setup_requester();
    setup_session(&mut ctx, SpdmKeyExchangeMutAuthAttributes::MutAuthReq);
    let r = ctx.session_based_mutual_authenticate(4294836221);
    assert_eq!(r, Ok(SpdmMutAuthOutcome::Satisfied));
}

#[test]
fn mutual_authenticate_demands_encap_request_flow() {
    let (mut ctx, _) = setup_requester();
    setup_session(
        &mut ctx,
        SpdmKeyExchangeMutAuthAttributes::MutAuthReqWithEncapRequest,
    );
    let r = ctx.session_based_mutual_authenticate(4294836221);
    assert_eq!(r, Ok(SpdmMutAuthOutcome::EncapRequestFlow));
}

#[test]
fn mutual_authenticate_demands_get_digests_flow() {
    let (mut ctx, _) = setup_requester();
    setup_session(
        &mut ctx,
        SpdmKeyExchangeMutAuthAttributes::MutAuthReqWithGetDigests,
    );
    let r = ctx.session_based_mutual_authenticate(4294836221);
    assert_eq!(r, Ok(SpdmMutAuthOutcome::GetDigestsFlow));
}

#[test]
fn teardown_frees_the_session_and_discards_secrets() {
    let (mut ctx, _) = setup_requester();
    let (r, _) = run_key_exchange(&mut ctx, &ResponseParams::plain(0x4242), None);
    let sid = r.unwrap();
    assert!(ctx.common.has_session(sid));
    let idx = ctx.common.find_session_index(sid).unwrap();
    ctx.common.session[idx].teardown();
    assert!(!ctx.common.has_session(sid));
    assert!(ctx.common.session[idx].dhe_secret.is_none());
    assert!(ctx.common.session[idx].response_finished_key.is_none());
    assert!(ctx.common.session[idx].message_k.is_empty());
}

#[test]
fn encap_get_digests_with_no_slots_yields_zero_mask() {
    let (mut ctx, _) = setup_requester();
    ctx.common.negotiate_info.req_capabilities_sel =
        SpdmRequestCapabilityFlags { bits: REQ_CAP_CERT };
    let request = [0x12u8, 0x81, 0, 0];
    let mut response = Writer::init(4096);
    ctx.encap_handle_get_digest(&request, &mut response);
    assert_eq!(response.used_slice(), &[0x12, 0x01, 0x00, 0x00]);
}

#[test]
fn encap_get_digests_hashes_materialized_chain_in_slot_0() {
    let (mut ctx, _) = setup_requester();
    ctx.common.negotiate_info.req_capabilities_sel =
        SpdmRequestCapabilityFlags { bits: REQ_CAP_CERT };
    let raw: Vec<u8> = (0..100u32).map(|i| (i as u8).wrapping_mul(5).wrapping_add(2)).collect();
    ctx.common.provision_info.my_cert_chain_data[0] =
        Some(SpdmCertChainData { data: raw.clone() });
    let request = [0x12u8, 0x81, 0, 0];
    let mut response = Writer::init(4096);
    ctx.encap_handle_get_digest(&request, &mut response);
    let out = response.used_slice();
    assert_eq!(&out[..4], &[0x12, 0x01, 0x00, 0x01]);
    assert_eq!(out.len(), 4 + 48);
    // The materialized chain: 4-byte little-endian length, the root
    // hash (the whole raw chain is the root certificate for this
    // provider), then the raw bytes.
    let alg = SpdmBaseHashAlgo::TpmAlgSha384;
    let root_hash = toy_hash(alg, &raw).unwrap();
    let total = 4 + 48 + raw.len();
    let mut materialized = vec![
        (total & 0xff) as u8,
        ((total >> 8) & 0xff) as u8,
        0,
        0,
    ];
    materialized.extend_from_slice(&root_hash);
    materialized.extend_from_slice(&raw);
    let chain = ctx.common.provision_info.my_cert_chain[0].as_ref().unwrap();
    assert_eq!(chain.data, materialized);
    assert_eq!(&out[4..], toy_hash(alg, &materialized).unwrap().as_slice());
    // Both messages land in the mutual-authentication transcript.
    let mut expected_b = request.to_vec();
    expected_b.extend_from_slice(out);
    assert_eq!(ctx.common.runtime_info.message_mut_b, expected_b);
}

#[test]
fn encap_without_cert_capability_is_unsupported() {
    let (mut ctx, _) = setup_requester();
    let request = [0x12u8, 0x81, 0, 0];
    let mut response = Writer::init(4096);
    ctx.encap_handle_get_digest(&request, &mut response);
    assert_eq!(response.used_slice(), &[0x12, 0x7F, 0x07, 0x00]);
}

#[test]
fn encap_version_mismatch_is_reported() {
    let (mut ctx, _) = setup_requester();
    ctx.common.negotiate_info.req_capabilities_sel =
        SpdmRequestCapabilityFlags { bits: REQ_CAP_CERT };
    let request = [0x11u8, 0x81, 0, 0];
    let mut response = Writer::init(4096);
    ctx.encap_handle_get_digest(&request, &mut response);
    assert_eq!(response.used_slice(), &[0x12, 0x7F, 0x41, 0x00]);
}

#[test]
fn encap_error_leaves_certificate_cache_untouched() {
    let (mut ctx, _) = setup_requester();
    ctx.common.negotiate_info.req_capabilities_sel =
        SpdmRequestCapabilityFlags { bits: REQ_CAP_CERT };
    let raw: Vec<u8> = (0..40u32).map(|i| i as u8).collect();
    ctx.common.provision_info.my_cert_chain_data[0] = Some(SpdmCertChainData { data: raw });
    // A version-mismatched request errors out before any slot is
    // materialized.
    let request = [0x11u8, 0x81, 0, 0];
    let mut response = Writer::init(4096);
    ctx.encap_handle_get_digest(&request, &mut response);
    assert_eq!(response.used_slice(), &[0x12, 0x7F, 0x41, 0x00]);
    assert!(ctx.common.provision_info.my_cert_chain[0].is_none());
}

#[test]
fn encap_truncated_request_is_invalid() {
    let (mut ctx, _) = setup_requester();
    ctx.common.negotiate_info.req_capabilities_sel =
        SpdmRequestCapabilityFlags { bits: REQ_CAP_CERT };
    let request = [0x12u8, 0x81, 0];
    let mut response = Writer::init(4096);
    ctx.encap_handle_get_digest(&request, &mut response);
    assert_eq!(response.used_slice(), &[0x12, 0x7F, 0x01, 0x00]);
}
