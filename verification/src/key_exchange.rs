//! KEY_EXCHANGE request and response payloads: views, byte-exact
//! encodings, and parsers that never slice without a bounds check.
//! Field sizes depend on the negotiated algorithms, so parsing is
//! specified against the sizes the context negotiated.

use vstd::prelude::*;

use crate::codec::Reader;
use crate::codec::Writer;
use crate::codec::spec_u16_from_bytes;
use crate::codec::spec_u16_to_bytes;
use crate::common::SpdmContext;
use crate::message::SpdmKeyExchangeMutAuthAttributes;
use crate::protocol::MAX_SPDM_OPAQUE_SIZE;
use crate::protocol::SPDM_RANDOM_SIZE;
use crate::protocol::SpdmDheExchangeStruct;
use crate::protocol::SpdmDigestStruct;
use crate::protocol::SpdmMeasurementSummaryHashType;
use crate::protocol::SpdmOpaqueStruct;
use crate::protocol::SpdmRandomStruct;
use crate::protocol::SpdmSignatureStruct;

verus! {

/// Abstract value of a KEY_EXCHANGE request payload.
pub struct SpdmKeyExchangeRequestPayloadView {
    pub measurement_summary_hash_type: SpdmMeasurementSummaryHashType,
    pub slot_id: u8,
    pub req_session_id: u16,
    pub session_policy: u8,
    pub random: Seq<u8>,
    pub exchange: Seq<u8>,
    pub opaque: Seq<u8>,
}

/// KEY_EXCHANGE request payload: measurement-summary type, slot id,
/// requester session half, session policy, a reserved byte, the
/// nonce, the public exchange value, and a length-prefixed opaque
/// block.
#[derive(Clone, Debug)]
pub struct SpdmKeyExchangeRequestPayload {
    pub measurement_summary_hash_type: SpdmMeasurementSummaryHashType,
    pub slot_id: u8,
    pub req_session_id: u16,
    pub session_policy: u8,
    pub random: SpdmRandomStruct,
    pub exchange: SpdmDheExchangeStruct,
    pub opaque: SpdmOpaqueStruct,
}

impl View for SpdmKeyExchangeRequestPayload {
    type V = SpdmKeyExchangeRequestPayloadView;

    open spec fn view(&self) -> SpdmKeyExchangeRequestPayloadView {
        SpdmKeyExchangeRequestPayloadView {
            measurement_summary_hash_type: self.measurement_summary_hash_type,
            slot_id: self.slot_id,
            req_session_id: self.req_session_id,
            session_policy: self.session_policy,
            random: self.random.data@,
            exchange: self.exchange.data@,
            opaque: self.opaque.data@,
        }
    }
}

impl SpdmKeyExchangeRequestPayloadView {
    /// Sizes every valid request payload respects.
    pub open spec fn wf(self, dhe: int) -> bool {
        &&& self.random.len() == SPDM_RANDOM_SIZE
        &&& self.exchange.len() == dhe
        &&& self.opaque.len() <= MAX_SPDM_OPAQUE_SIZE
    }

    /// The payload's wire bytes.
    pub open spec fn spec_encode(self) -> Seq<u8> {
        seq![self.measurement_summary_hash_type.spec_u8(), self.slot_id] + spec_u16_to_bytes(
            self.req_session_id,
        ) + seq![self.session_policy, 0u8] + self.random + self.exchange + spec_u16_to_bytes(
            self.opaque.len() as u16,
        ) + self.opaque
    }

    /// Payload recovered from `b` at `start`, with the exchange value
    /// sized by the negotiated key-agreement algorithm; yields the
    /// view and the bytes consumed.
    pub open spec fn spec_read_at(b: Seq<u8>, start: int, dhe: int) -> Option<
        (SpdmKeyExchangeRequestPayloadView, int),
    > {
        if start + 6 + SPDM_RANDOM_SIZE + dhe + 2 <= b.len() {
            match SpdmMeasurementSummaryHashType::spec_from_u8(b[start]) {
                Some(mst) => {
                    let ol_pos = start + 6 + SPDM_RANDOM_SIZE + dhe;
                    let olen = spec_u16_from_bytes(b[ol_pos], b[ol_pos + 1]) as int;
                    if olen <= MAX_SPDM_OPAQUE_SIZE && ol_pos + 2 + olen <= b.len() {
                        Some(
                            (
                                SpdmKeyExchangeRequestPayloadView {
                                    measurement_summary_hash_type: mst,
                                    slot_id: b[start + 1],
                                    req_session_id: spec_u16_from_bytes(
                                        b[start + 2],
                                        b[start + 3],
                                    ),
                                    session_policy: b[start + 4],
                                    random: b.subrange(start + 6, start + 6 + SPDM_RANDOM_SIZE),
                                    exchange: b.subrange(
                                        start + 6 + SPDM_RANDOM_SIZE,
                                        start + 6 + SPDM_RANDOM_SIZE + dhe,
                                    ),
                                    opaque: b.subrange(ol_pos + 2, ol_pos + 2 + olen),
                                },
                                ol_pos + 2 + olen - start,
                            ),
                        )
                    } else {
                        None
                    }
                },
                None => None,
            }
        } else {
            None
        }
    }
}

impl SpdmKeyExchangeRequestPayload {
    /// Serializes the payload whole; fails, changing nothing, when the
    /// writer lacks room.
    pub fn spdm_encode(&self, _context: &SpdmContext, bytes: &mut Writer) -> (r: bool)
        requires
            old(bytes).wf(),
            self.random.wf(),
            self.exchange.wf(),
            self.opaque.wf(),
        ensures
            final(bytes).wf(),
            final(bytes).capacity_spec() == old(bytes).capacity_spec(),
            if old(bytes).data_spec().len() + self@.spec_encode().len() <= old(
                bytes,
            ).capacity_spec() {
                r && final(bytes).data_spec() == old(bytes).data_spec() + self@.spec_encode()
            } else {
                !r && final(bytes).data_spec() == old(bytes).data_spec()
            },
    {
        let need: usize = 6 + self.random.data.len() + self.exchange.data.len() + 2
            + self.opaque.data.len();
        assert(self@.spec_encode().len() == need) by {
            assert(spec_u16_to_bytes(self.req_session_id).len() == 2);
            assert(spec_u16_to_bytes(self.opaque.data@.len() as u16).len() == 2);
        }
        if bytes.capacity() - bytes.used() < need {
            return false;
        }
        let ghost before = bytes.data_spec();
        bytes.write_u8(self.measurement_summary_hash_type.get_u8());
        bytes.write_u8(self.slot_id);
        bytes.write_u16(self.req_session_id);
        bytes.write_u8(self.session_policy);
        bytes.write_u8(0);
        bytes.append(self.random.data.as_slice());
        bytes.append(self.exchange.data.as_slice());
        bytes.write_u16(self.opaque.data.len() as u16);
        bytes.append(self.opaque.data.as_slice());
        assert(bytes.data_spec() =~= before + self@.spec_encode());
        true
    }

    /// Parses a request payload against the context's negotiated
    /// sizes.
    pub fn spdm_read(context: &SpdmContext, r: &mut Reader) -> (res: Option<
        SpdmKeyExchangeRequestPayload,
    >)
        requires
            old(r).wf(),
        ensures
            final(r).wf(),
            final(r).data_spec() == old(r).data_spec(),
            match SpdmKeyExchangeRequestPayloadView::spec_read_at(
                old(r).data_spec(),
                old(r).used_spec(),
                context.negotiate_info.dhe_sel.spec_size() as int,
            ) {
                Some((v, consumed)) => res matches Some(p) && p@ == v && final(r).used_spec()
                    == old(r).used_spec() + consumed,
                None => res == None::<SpdmKeyExchangeRequestPayload>,
            },
    {
        let dhe_size = context.negotiate_info.dhe_sel.get_size() as usize;
        let mst_b = match r.read_u8() {
            Some(b) => b,
            None => { return None; },
        };
        let slot_id = match r.read_u8() {
            Some(b) => b,
            None => { return None; },
        };
        let req_session_id = match r.read_u16() {
            Some(v) => v,
            None => { return None; },
        };
        let session_policy = match r.read_u8() {
            Some(b) => b,
            None => { return None; },
        };
        if r.read_u8().is_none() {
            return None;
        }
        let random = match r.read_bytes(SPDM_RANDOM_SIZE) {
            Some(v) => v,
            None => { return None; },
        };
        let exchange = match r.read_bytes(dhe_size) {
            Some(v) => v,
            None => { return None; },
        };
        let olen = match r.read_u16() {
            Some(v) => v,
            None => { return None; },
        };
        if olen as usize > MAX_SPDM_OPAQUE_SIZE {
            return None;
        }
        let opaque = match r.read_bytes(olen as usize) {
            Some(v) => v,
            None => { return None; },
        };
        let mst = match SpdmMeasurementSummaryHashType::from_u8(mst_b) {
            Some(m) => m,
            None => { return None; },
        };
        Some(
            SpdmKeyExchangeRequestPayload {
                measurement_summary_hash_type: mst,
                slot_id,
                req_session_id,
                session_policy,
                random: SpdmRandomStruct { data: random },
                exchange: SpdmDheExchangeStruct { data: exchange },
                opaque: SpdmOpaqueStruct { data: opaque },
            },
        )
    }
}

/// Every well-formed request payload survives the encode/parse round
/// trip: the response-side parser recovers the slot id, the nonce, the
/// session half, the policy, and the opaque payload exactly.
pub proof fn lemma_kx_req_round_trip(v: SpdmKeyExchangeRequestPayloadView, dhe: int)
    requires
        0 <= dhe,
        v.wf(dhe),
    ensures
        SpdmKeyExchangeRequestPayloadView::spec_read_at(v.spec_encode(), 0, dhe) == Some(
            (v, v.spec_encode().len() as int),
        ),
{
    let b = v.spec_encode();
    let head = seq![v.measurement_summary_hash_type.spec_u8(), v.slot_id] + spec_u16_to_bytes(
        v.req_session_id,
    ) + seq![v.session_policy, 0u8];
    assert(head.len() == 6);
    assert(b =~= head + v.random + v.exchange + spec_u16_to_bytes(v.opaque.len() as u16)
        + v.opaque);
    assert(b.len() == 6 + SPDM_RANDOM_SIZE + dhe + 2 + v.opaque.len());
    assert(SpdmMeasurementSummaryHashType::spec_from_u8(b[0]) == Some(
        v.measurement_summary_hash_type,
    ));
    let ol_pos = 6 + SPDM_RANDOM_SIZE + dhe;
    assert(b[ol_pos] == spec_u16_to_bytes(v.opaque.len() as u16)[0]);
    assert(b[ol_pos + 1] == spec_u16_to_bytes(v.opaque.len() as u16)[1]);
    assert(spec_u16_from_bytes(b[ol_pos], b[ol_pos + 1]) == v.opaque.len() as u16);
    assert(b.subrange(6, 6 + SPDM_RANDOM_SIZE as int) =~= v.random);
    assert(b.subrange(6 + SPDM_RANDOM_SIZE as int, 6 + SPDM_RANDOM_SIZE + dhe) =~= v.exchange);
    assert(b.subrange(ol_pos + 2, ol_pos + 2 + v.opaque.len()) =~= v.opaque);
    assert(spec_u16_from_bytes(b[2], b[3]) == v.req_session_id);
    let parsed = SpdmKeyExchangeRequestPayloadView::spec_read_at(b, 0, dhe);
    assert(parsed matches Some((p, c)) && p == v && c == b.len());
}

/// Abstract value of a KEY_EXCHANGE response payload.
pub struct SpdmKeyExchangeResponsePayloadView {
    pub heartbeat_period: u8,
    pub rsp_session_id: u16,
    pub mut_auth_req: SpdmKeyExchangeMutAuthAttributes,
    pub req_slot_id: u8,
    pub random: Seq<u8>,
    pub exchange: Seq<u8>,
    pub measurement_summary_hash: Seq<u8>,
    pub opaque: Seq<u8>,
    pub signature: Seq<u8>,
    pub verify_data: Seq<u8>,
}

/// KEY_EXCHANGE response payload. The trailing signature and — unless
/// the handshake is in the clear — HMAC are part of the payload, in
/// that exact order.
#[derive(Clone, Debug)]
pub struct SpdmKeyExchangeResponsePayload {
    pub heartbeat_period: u8,
    pub rsp_session_id: u16,
    pub mut_auth_req: SpdmKeyExchangeMutAuthAttributes,
    pub req_slot_id: u8,
    pub random: SpdmRandomStruct,
    pub exchange: SpdmDheExchangeStruct,
    pub measurement_summary_hash: SpdmDigestStruct,
    pub opaque: SpdmOpaqueStruct,
    pub signature: SpdmSignatureStruct,
    pub verify_data: SpdmDigestStruct,
}

impl View for SpdmKeyExchangeResponsePayload {
    type V = SpdmKeyExchangeResponsePayloadView;

    open spec fn view(&self) -> SpdmKeyExchangeResponsePayloadView {
        SpdmKeyExchangeResponsePayloadView {
            heartbeat_period: self.heartbeat_period,
            rsp_session_id: self.rsp_session_id,
            mut_auth_req: self.mut_auth_req,
            req_slot_id: self.req_slot_id,
            random: self.random.data@,
            exchange: self.exchange.data@,
            measurement_summary_hash: self.measurement_summary_hash.data@,
            opaque: self.opaque.data@,
            signature: self.signature.data@,
            verify_data: self.verify_data.data@,
        }
    }
}

impl SpdmKeyExchangeResponsePayloadView {
    /// Sizes a valid response payload respects under the negotiated
    /// algorithms and modes.
    pub open spec fn wf(self, dhe: int, hash: int, asym: int, need_meas: bool, in_clear: bool)
        -> bool {
        &&& self.random.len() == SPDM_RANDOM_SIZE
        &&& self.exchange.len() == dhe
        &&& self.measurement_summary_hash.len() == if need_meas {
            hash
        } else {
            0
        }
        &&& self.opaque.len() <= MAX_SPDM_OPAQUE_SIZE
        &&& self.signature.len() == asym
        &&& self.verify_data.len() == if in_clear {
            0
        } else {
            hash
        }
    }

    /// The payload's wire bytes.
    pub open spec fn spec_encode(self) -> Seq<u8> {
        seq![self.heartbeat_period, 0u8] + spec_u16_to_bytes(self.rsp_session_id) + seq![
            self.mut_auth_req.spec_u8(),
            self.req_slot_id,
        ] + self.random + self.exchange + self.measurement_summary_hash + spec_u16_to_bytes(
            self.opaque.len() as u16,
        ) + self.opaque + self.signature + self.verify_data
    }

    /// Payload recovered from `b` at `start` under the negotiated
    /// sizes; yields the view and the bytes consumed. Trailing bytes
    /// beyond the payload are not part of the parse.
    pub open spec fn spec_read_at(
        b: Seq<u8>,
        start: int,
        dhe: int,
        hash: int,
        asym: int,
        need_meas: bool,
        in_clear: bool,
    ) -> Option<(SpdmKeyExchangeResponsePayloadView, int)> {
        let meas = if need_meas {
            hash
        } else {
            0
        };
        let tail = if in_clear {
            asym
        } else {
            asym + hash
        };
        if start + 6 + SPDM_RANDOM_SIZE + dhe + meas + 2 <= b.len() {
            match SpdmKeyExchangeMutAuthAttributes::spec_from_u8(b[start + 4]) {
                Some(ma) => {
                    let ol_pos = start + 6 + SPDM_RANDOM_SIZE + dhe + meas;
                    let olen = spec_u16_from_bytes(b[ol_pos], b[ol_pos + 1]) as int;
                    if olen <= MAX_SPDM_OPAQUE_SIZE && ol_pos + 2 + olen + tail <= b.len() {
                        let sig_pos = ol_pos + 2 + olen;
                        Some(
                            (
                                SpdmKeyExchangeResponsePayloadView {
                                    heartbeat_period: b[start],
                                    rsp_session_id: spec_u16_from_bytes(
                                        b[start + 2],
                                        b[start + 3],
                                    ),
                                    mut_auth_req: ma,
                                    req_slot_id: b[start + 5],
                                    random: b.subrange(start + 6, start + 6 + SPDM_RANDOM_SIZE),
                                    exchange: b.subrange(
                                        start + 6 + SPDM_RANDOM_SIZE,
                                        start + 6 + SPDM_RANDOM_SIZE + dhe,
                                    ),
                                    measurement_summary_hash: b.subrange(
                                        start + 6 + SPDM_RANDOM_SIZE + dhe,
                                        ol_pos,
                                    ),
                                    opaque: b.subrange(ol_pos + 2, sig_pos),
                                    signature: b.subrange(sig_pos, sig_pos + asym),
                                    verify_data: b.subrange(sig_pos + asym, sig_pos + tail),
                                },
                                sig_pos + tail - start,
                            ),
                        )
                    } else {
                        None
                    }
                },
                None => None,
            }
        } else {
            None
        }
    }
}

impl SpdmKeyExchangeResponsePayload {
    /// Serializes the payload whole; fails, changing nothing, when the
    /// writer lacks room.
    pub fn spdm_encode(&self, _context: &SpdmContext, bytes: &mut Writer) -> (r: bool)
        requires
            old(bytes).wf(),
            self.random.wf(),
            self.exchange.wf(),
            self.measurement_summary_hash.wf(),
            self.opaque.wf(),
            self.signature.wf(),
            self.verify_data.wf(),
        ensures
            final(bytes).wf(),
            final(bytes).capacity_spec() == old(bytes).capacity_spec(),
            if old(bytes).data_spec().len() + self@.spec_encode().len() <= old(
                bytes,
            ).capacity_spec() {
                r && final(bytes).data_spec() == old(bytes).data_spec() + self@.spec_encode()
            } else {
                !r && final(bytes).data_spec() == old(bytes).data_spec()
            },
    {
        let need: usize = 6 + self.random.data.len() + self.exchange.data.len()
            + self.measurement_summary_hash.data.len() + 2 + self.opaque.data.len()
            + self.signature.data.len() + self.verify_data.data.len();
        assert(self@.spec_encode().len() == need) by {
            assert(spec_u16_to_bytes(self.rsp_session_id).len() == 2);
            assert(spec_u16_to_bytes(self.opaque.data@.len() as u16).len() == 2);
        }
        if bytes.capacity() - bytes.used() < need {
            return false;
        }
        let ghost before = bytes.data_spec();
        bytes.write_u8(self.heartbeat_period);
        bytes.write_u8(0);
        bytes.write_u16(self.rsp_session_id);
        bytes.write_u8(self.mut_auth_req.get_u8());
        bytes.write_u8(self.req_slot_id);
        bytes.append(self.random.data.as_slice());
        bytes.append(self.exchange.data.as_slice());
        bytes.append(self.measurement_summary_hash.data.as_slice());
        bytes.write_u16(self.opaque.data.len() as u16);
        bytes.append(self.opaque.data.as_slice());
        bytes.append(self.signature.data.as_slice());
        bytes.append(self.verify_data.data.as_slice());
        assert(bytes.data_spec() =~= before + self@.spec_encode());
        true
    }

    /// Parses a response payload against the context's negotiated
    /// sizes, the pending measurement-summary expectation, and the
    /// in-the-clear mode.
    pub fn spdm_read(context: &SpdmContext, r: &mut Reader) -> (res: Option<
        SpdmKeyExchangeResponsePayload,
    >)
        requires
            old(r).wf(),
        ensures
            final(r).wf(),
            final(r).data_spec() == old(r).data_spec(),
            match SpdmKeyExchangeResponsePayloadView::spec_read_at(
                old(r).data_spec(),
                old(r).used_spec(),
                context.negotiate_info.dhe_sel.spec_size() as int,
                context.negotiate_info.base_hash_sel.spec_size() as int,
                context.negotiate_info.base_asym_sel.spec_size() as int,
                context.runtime_info.need_measurement_summary_hash,
                context.negotiate_info.spec_in_clear_text(),
            ) {
                Some((v, consumed)) => res matches Some(p) && p@ == v && final(r).used_spec()
                    == old(r).used_spec() + consumed,
                None => res == None::<SpdmKeyExchangeResponsePayload>,
            },
    {
        let dhe_size = context.negotiate_info.dhe_sel.get_size() as usize;
        let hash_size = context.negotiate_info.base_hash_sel.get_size() as usize;
        let asym_size = context.negotiate_info.base_asym_sel.get_size() as usize;
        let meas_size: usize = if context.runtime_info.need_measurement_summary_hash {
            hash_size
        } else {
            0
        };
        let in_clear = context.negotiate_info.in_clear_text();
        let heartbeat_period = match r.read_u8() {
            Some(b) => b,
            None => { return None; },
        };
        if r.read_u8().is_none() {
            return None;
        }
        let rsp_session_id = match r.read_u16() {
            Some(v) => v,
            None => { return None; },
        };
        let ma_b = match r.read_u8() {
            Some(b) => b,
            None => { return None; },
        };
        let req_slot_id = match r.read_u8() {
            Some(b) => b,
            None => { return None; },
        };
        let random = match r.read_bytes(SPDM_RANDOM_SIZE) {
            Some(v) => v,
            None => { return None; },
        };
        let exchange = match r.read_bytes(dhe_size) {
            Some(v) => v,
            None => { return None; },
        };
        let meas = match r.read_bytes(meas_size) {
            Some(v) => v,
            None => { return None; },
        };
        let olen = match r.read_u16() {
            Some(v) => v,
            None => { return None; },
        };
        if olen as usize > MAX_SPDM_OPAQUE_SIZE {
            return None;
        }
        let opaque = match r.read_bytes(olen as usize) {
            Some(v) => v,
            None => { return None; },
        };
        let signature = match r.read_bytes(asym_size) {
            Some(v) => v,
            None => { return None; },
        };
        let vd_size: usize = if in_clear {
            0
        } else {
            hash_size
        };
        let verify_data = match r.read_bytes(vd_size) {
            Some(v) => v,
            None => { return None; },
        };
        let mut_auth_req = match SpdmKeyExchangeMutAuthAttributes::from_u8(ma_b) {
            Some(m) => m,
            None => { return None; },
        };
        Some(
            SpdmKeyExchangeResponsePayload {
                heartbeat_period,
                rsp_session_id,
                mut_auth_req,
                req_slot_id,
                random: SpdmRandomStruct { data: random },
                exchange: SpdmDheExchangeStruct { data: exchange },
                measurement_summary_hash: SpdmDigestStruct { data: meas },
                opaque: SpdmOpaqueStruct { data: opaque },
                signature: SpdmSignatureStruct { data: signature },
                verify_data: SpdmDigestStruct { data: verify_data },
            },
        )
    }
}

/// Every well-formed response payload survives the encode/parse round
/// trip under the same negotiated sizes and modes.
#[verifier::rlimit(100)]
pub proof fn lemma_kx_rsp_round_trip(
    v: SpdmKeyExchangeResponsePayloadView,
    dhe: int,
    hash: int,
    asym: int,
    need_meas: bool,
    in_clear: bool,
)
    requires
        0 <= dhe,
        0 <= hash,
        0 <= asym,
        v.wf(dhe, hash, asym, need_meas, in_clear),
    ensures
        SpdmKeyExchangeResponsePayloadView::spec_read_at(
            v.spec_encode(),
            0,
            dhe,
            hash,
            asym,
            need_meas,
            in_clear,
        ) == Some((v, v.spec_encode().len() as int)),
{
    let b = v.spec_encode();
    let meas = if need_meas {
        hash
    } else {
        0
    };
    let tail = if in_clear {
        asym
    } else {
        asym + hash
    };
    let head = seq![v.heartbeat_period, 0u8] + spec_u16_to_bytes(v.rsp_session_id) + seq![
        v.mut_auth_req.spec_u8(),
        v.req_slot_id,
    ];
    assert(head.len() == 6);
    assert(b =~= head + v.random + v.exchange + v.measurement_summary_hash + spec_u16_to_bytes(
        v.opaque.len() as u16,
    ) + v.opaque + v.signature + v.verify_data);
    assert(b.len() == 6 + SPDM_RANDOM_SIZE + dhe + meas + 2 + v.opaque.len() + tail);
    assert(SpdmKeyExchangeMutAuthAttributes::spec_from_u8(b[4]) == Some(v.mut_auth_req));
    let ol_pos = 6 + SPDM_RANDOM_SIZE + dhe + meas;
    assert(b[ol_pos] == spec_u16_to_bytes(v.opaque.len() as u16)[0]);
    assert(b[ol_pos + 1] == spec_u16_to_bytes(v.opaque.len() as u16)[1]);
    assert(spec_u16_from_bytes(b[ol_pos], b[ol_pos + 1]) == v.opaque.len() as u16);
    let sig_pos = ol_pos + 2 + v.opaque.len();
    assert(b.subrange(6, 6 + SPDM_RANDOM_SIZE as int) =~= v.random);
    assert(b.subrange(6 + SPDM_RANDOM_SIZE as int, 6 + SPDM_RANDOM_SIZE + dhe) =~= v.exchange);
    assert(b.subrange(6 + SPDM_RANDOM_SIZE + dhe, ol_pos) =~= v.measurement_summary_hash);
    assert(b.subrange(ol_pos + 2, sig_pos) =~= v.opaque);
    assert(b.subrange(sig_pos, sig_pos + asym) =~= v.signature);
    assert(b.subrange(sig_pos + asym, sig_pos + tail) =~= v.verify_data);
    assert(spec_u16_from_bytes(b[2], b[3]) == v.rsp_session_id);
    let parsed = SpdmKeyExchangeResponsePayloadView::spec_read_at(
        b,
        0,
        dhe,
        hash,
        asym,
        need_meas,
        in_clear,
    );
    assert(parsed matches Some((p, c)) && p == v && c == b.len());
}

} // verus!
