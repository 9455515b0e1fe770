//! The encapsulated digest responder: inside a mutual-authentication
//! turn the peer asks this endpoint, via an encapsulated GET_DIGESTS,
//! to prove which certificate chains it holds. The responder
//! materializes provisioned chains on first use, answers with a
//! slot-presence bitmask and one digest per populated slot, and binds
//! both messages into the mutual-authentication transcript.

use vstd::prelude::*;

use crate::codec::Reader;
use crate::codec::Writer;
use crate::crypto::SpdmCryptoProvider;
use crate::digest::SpdmGetDigestsRequestPayload;
use crate::digest::lemma_count_present_bound;
use crate::digest::lemma_digest_area_len;
use crate::digest::slot_bit;
use crate::digest::spec_digest_area;
use crate::digest::spec_slot_mask_upto;
use crate::message::SpdmErrorCode;
use crate::message::SpdmMessageHeader;
use crate::message::spec_encode_error_response;
use crate::protocol::MAX_MANAGED_BUFFER_MUT_B_SIZE;
use crate::protocol::REQ_CAP_CERT;
use crate::protocol::SPDM_MAX_HASH_SIZE;
use crate::protocol::SPDM_MAX_SLOT_NUMBER;
use crate::protocol::SpdmCertChainBuffer;
use crate::protocol::SpdmRequestResponseCode;
use crate::requester::RequesterContext;

verus! {

/// A materialized chain as lazily built from raw slot data: a 4-byte
/// little-endian total length (the high half always zero at the sizes
/// a slot can hold), some root-certificate digest of the negotiated
/// hash size, then the raw chain bytes.
pub open spec fn spec_materialized_from(c: SpdmCertChainBuffer, d: Seq<u8>, hash: int) -> bool {
    let n = 4 + hash + d.len();
    &&& c.data@.len() == n
    &&& c.data@[0] == (n % 0x100) as u8
    &&& c.data@[1] == ((n / 0x100) % 0x100) as u8
    &&& c.data@[2] == 0u8
    &&& c.data@[3] == 0u8
    &&& c.data@.subrange(4 + hash, n as int) == d
}

impl<C: SpdmCryptoProvider> RequesterContext<C> {
    /// Emits a well-formed encapsulated ERROR response.
    fn encode_encap_error_response(
        &self,
        error_code: SpdmErrorCode,
        error_data: u8,
        encap_response: &mut Writer,
    )
        requires
            old(encap_response).wf(),
            old(encap_response).capacity_spec() - old(encap_response).data_spec().len() >= 4,
        ensures
            final(encap_response).wf(),
            final(encap_response).capacity_spec() == old(encap_response).capacity_spec(),
            final(encap_response).data_spec() == old(encap_response).data_spec()
                + spec_encode_error_response(
                self.common.negotiate_info.spdm_version_sel,
                error_code,
                error_data,
            ),
    {
        let ghost before = encap_response.data_spec();
        encap_response.write_u8(self.common.negotiate_info.spdm_version_sel.get_u8());
        encap_response.write_u8(SpdmRequestResponseCode::SpdmResponseError.get_u8());
        encap_response.write_u8(error_code.get_u8());
        encap_response.write_u8(error_data);
        assert(encap_response.data_spec() =~= before + spec_encode_error_response(
            self.common.negotiate_info.spdm_version_sel,
            error_code,
            error_data,
        ));
    }

    /// Handles an inbound encapsulated GET_DIGESTS request, writing
    /// either a DIGESTS response or a well-formed error response into
    /// `encap_response`. Every provider call — root-certificate
    /// lookup, root hash, chain digests — runs before the certificate
    /// cache is touched, so on every error outcome the cache is
    /// exactly as it was; on the DIGESTS outcome every slot holding
    /// raw chain data is materialized and reported in the mask. On
    /// the success path both the raw request and the produced
    /// response are appended to the mutual-authentication transcript,
    /// silently dropped only when that bounded buffer lacks room.
    #[verifier::rlimit(100)]
    pub fn encap_handle_get_digest(&mut self, encap_request: &[u8], encap_response: &mut Writer)
        requires
            old(self).common.wf(),
            old(encap_response).wf(),
            old(encap_response).capacity_spec() - old(encap_response).data_spec().len() >= 4
                + SPDM_MAX_SLOT_NUMBER * SPDM_MAX_HASH_SIZE,
        ensures
            final(self).common.wf(),
            final(encap_response).wf(),
            final(encap_response).capacity_spec() == old(encap_response).capacity_spec(),
            final(self).common.negotiate_info == old(self).common.negotiate_info,
            final(self).common.config_info == old(self).common.config_info,
            final(self).common.peer_info == old(self).common.peer_info,
            final(self).common.session@ == old(self).common.session@,
            final(self).common.runtime_info.message_a == old(self).common.runtime_info.message_a,
            final(self).common.runtime_info.need_measurement_summary_hash == old(self).common.runtime_info.need_measurement_summary_hash,
            final(self).common.runtime_info.last_session_id == old(self).common.runtime_info.last_session_id,
            final(self).common.runtime_info.local_used_cert_chain_slot_id == old(self).common.runtime_info.local_used_cert_chain_slot_id,
            final(self).common.provision_info.my_cert_chain_data == old(self).common.provision_info.my_cert_chain_data,
            final(self).common.provision_info.my_cert_chain@.len() == SPDM_MAX_SLOT_NUMBER,
            forall|i: int|
                0 <= i < SPDM_MAX_SLOT_NUMBER ==> (old(self).common.provision_info.my_cert_chain@[i] is Some ==> final(self).common.provision_info.my_cert_chain@[i] == old(self).common.provision_info.my_cert_chain@[i]),
            forall|i: int|
                0 <= i < SPDM_MAX_SLOT_NUMBER ==> ((#[trigger] final(self).common.provision_info.my_cert_chain@[i]) != old(self).common.provision_info.my_cert_chain@[i] ==> old(self).common.provision_info.my_cert_chain@[i] is None && (old(self).common.provision_info.my_cert_chain_data@[i] matches Some(d) && (final(self).common.provision_info.my_cert_chain@[i] matches Some(c)
                    && spec_materialized_from(
                    c,
                    d.data@,
                    old(self).common.negotiate_info.base_hash_sel.spec_size() as int,
                )))),
            ({
                let ver = old(self).common.negotiate_info.spdm_version_sel;
                let hash = old(self).common.negotiate_info.base_hash_sel.spec_size() as int;
                let chains = final(self).common.provision_info.my_cert_chain@;
                let base = old(encap_response).data_spec();
                let out = final(encap_response).data_spec();
                let mut_b_old = old(self).common.runtime_info.message_mut_b@;
                let mut_b_new = final(self).common.runtime_info.message_mut_b@;
                let cache_same = final(self).common.provision_info.my_cert_chain@ == old(self).common.provision_info.my_cert_chain@;
                if !old(self).common.negotiate_info.req_capabilities_sel.spec_contains(
                    REQ_CAP_CERT,
                ) {
                    out == base + spec_encode_error_response(
                        ver,
                        SpdmErrorCode::SpdmErrorUnsupportedRequest,
                        0,
                    ) && mut_b_new == mut_b_old && cache_same
                } else {
                    match SpdmMessageHeader::spec_read_at(encap_request@, 0) {
                        None => out == base + spec_encode_error_response(
                            ver,
                            SpdmErrorCode::SpdmErrorInvalidRequest,
                            0,
                        ) && mut_b_new == mut_b_old && cache_same,
                        Some(h) => if h.version != ver {
                            out == base + spec_encode_error_response(
                                ver,
                                SpdmErrorCode::SpdmErrorVersionMismatch,
                                0,
                            ) && mut_b_new == mut_b_old && cache_same
                        } else {
                            match SpdmGetDigestsRequestPayload::spec_read_at(encap_request@, 2) {
                                None => out == base + spec_encode_error_response(
                                    ver,
                                    SpdmErrorCode::SpdmErrorInvalidRequest,
                                    0,
                                ) && mut_b_new == mut_b_old && cache_same,
                                Some(_) => (out == base + spec_encode_error_response(
                                    ver,
                                    SpdmErrorCode::SpdmErrorUnspecified,
                                    0,
                                ) && mut_b_new == mut_b_old && cache_same) || ((forall|i: int|
                                    0 <= i < SPDM_MAX_SLOT_NUMBER ==> ((#[trigger] old(self).common.provision_info.my_cert_chain_data@[i]) is Some
                                        ==> chains[i] is Some)) && exists|ds: Seq<Seq<u8>>|
                                    {
                                        &&& ds.len() == SPDM_MAX_SLOT_NUMBER
                                        &&& (forall|i: int|
                                            0 <= i < SPDM_MAX_SLOT_NUMBER && chains[i] is Some
                                                ==> (#[trigger] ds[i]).len() == hash)
                                        &&& {
                                            let resp = seq![
                                                ver.spec_u8(),
                                                SpdmRequestResponseCode::SpdmResponseDigests.spec_u8(),
                                                0u8,
                                                spec_slot_mask_upto(
                                                    chains,
                                                    SPDM_MAX_SLOT_NUMBER as int,
                                                ),
                                            ] + spec_digest_area(
                                                chains,
                                                ds,
                                                SPDM_MAX_SLOT_NUMBER as int,
                                            );
                                            &&& out == base + resp
                                            &&& mut_b_new == if mut_b_old.len()
                                                + encap_request@.len() + resp.len()
                                                <= MAX_MANAGED_BUFFER_MUT_B_SIZE {
                                                mut_b_old + encap_request@ + resp
                                            } else {
                                                mut_b_old
                                            }
                                        }
                                    }),
                            }
                        },
                    }
                }
            }),
            // With nothing provisioned anywhere, the response is
            // exactly the empty-mask DIGESTS message: no digest bytes
            // follow and no slot is touched.
            (old(self).common.negotiate_info.req_capabilities_sel.spec_contains(REQ_CAP_CERT)
                && (SpdmMessageHeader::spec_read_at(encap_request@, 0) matches Some(h)
                && h.version == old(self).common.negotiate_info.spdm_version_sel)
                && SpdmGetDigestsRequestPayload::spec_read_at(encap_request@, 2) is Some && (
            forall|i: int|
                0 <= i < SPDM_MAX_SLOT_NUMBER ==> old(self).common.provision_info.my_cert_chain@[i] is None && old(self).common.provision_info.my_cert_chain_data@[i] is None)) ==> final(encap_response).data_spec() == old(encap_response).data_spec() + seq![
                old(self).common.negotiate_info.spdm_version_sel.spec_u8(),
                SpdmRequestResponseCode::SpdmResponseDigests.spec_u8(),
                0u8,
                0u8,
            ] && final(self).common.provision_info.my_cert_chain@ == old(self).common.provision_info.my_cert_chain@,
    {
        let resp_start: usize = encap_response.used();
        if !self.common.negotiate_info.req_capabilities_sel.contains(REQ_CAP_CERT) {
            self.encode_encap_error_response(
                SpdmErrorCode::SpdmErrorUnsupportedRequest,
                0,
                encap_response,
            );
            return ;
        }
        let mut reader = Reader::init(encap_request);
        match SpdmMessageHeader::read(&mut reader) {
            Some(message_header) => {
                if message_header.version != self.common.negotiate_info.spdm_version_sel {
                    self.encode_encap_error_response(
                        SpdmErrorCode::SpdmErrorVersionMismatch,
                        0,
                        encap_response,
                    );
                    return ;
                }
            },
            None => {
                self.encode_encap_error_response(
                    SpdmErrorCode::SpdmErrorInvalidRequest,
                    0,
                    encap_response,
                );
                return ;
            },
        }
        if SpdmGetDigestsRequestPayload::spdm_read(&self.common, &mut reader).is_none() {
            self.encode_encap_error_response(
                SpdmErrorCode::SpdmErrorInvalidRequest,
                0,
                encap_response,
            );
            return ;
        }
        let hash_size = self.common.negotiate_info.base_hash_sel.get_size() as usize;
        // First pass, touching nothing: build the materialized buffer
        // of every slot that has raw chain data but no chain yet, and
        // the digest of every slot that will be present. All provider
        // calls happen here, so a failure leaves the certificate
        // cache exactly as it was.
        let mut pending: Vec<Option<SpdmCertChainBuffer>> = Vec::new();
        let mut digests: Vec<Vec<u8>> = Vec::new();
        let mut slot_id: usize = 0;
        while slot_id < SPDM_MAX_SLOT_NUMBER
            invariant
                slot_id <= SPDM_MAX_SLOT_NUMBER,
                *self == *old(self),
                self.common.wf(),
                old(self).common.negotiate_info.req_capabilities_sel.spec_contains(REQ_CAP_CERT),
                (SpdmMessageHeader::spec_read_at(encap_request@, 0) matches Some(h) && h.version
                    == old(self).common.negotiate_info.spdm_version_sel),
                SpdmGetDigestsRequestPayload::spec_read_at(encap_request@, 2) is Some,
                hash_size == old(self).common.negotiate_info.base_hash_sel.spec_size(),
                pending@.len() == slot_id,
                digests@.len() == slot_id,
                forall|i: int|
                    0 <= i < slot_id ==> ((#[trigger] pending@[i]) is Some <==> (old(self).common.provision_info.my_cert_chain@[i] is None && old(self).common.provision_info.my_cert_chain_data@[i] is Some)),
                forall|i: int|
                    0 <= i < slot_id ==> ((#[trigger] pending@[i]) matches Some(c) ==> (old(self).common.provision_info.my_cert_chain_data@[i] matches Some(d) && c.wf()
                        && spec_materialized_from(c, d.data@, hash_size as int))),
                forall|i: int|
                    0 <= i < slot_id && (old(self).common.provision_info.my_cert_chain@[i] is Some
                        || pending@[i] is Some) ==> (#[trigger] digests@[i])@.len() == hash_size,
                encap_response.wf(),
                encap_response.capacity_spec() == old(encap_response).capacity_spec(),
                encap_response.data_spec() == old(encap_response).data_spec(),
                old(encap_response).capacity_spec() - old(encap_response).data_spec().len() >= 4
                    + SPDM_MAX_SLOT_NUMBER * SPDM_MAX_HASH_SIZE,
            decreases SPDM_MAX_SLOT_NUMBER - slot_id,
        {
            let entry_pending: Option<SpdmCertChainBuffer>;
            let entry_digest: Vec<u8>;
            if self.common.provision_info.my_cert_chain[slot_id].is_some() {
                let digest = match &self.common.provision_info.my_cert_chain[slot_id] {
                    Some(chain) => match self.provider.hash_all(
                        self.common.negotiate_info.base_hash_sel,
                        chain.data.as_slice(),
                    ) {
                        Some(h) => h.data,
                        None => {
                            self.encode_encap_error_response(
                                SpdmErrorCode::SpdmErrorUnspecified,
                                0,
                                encap_response,
                            );
                            return ;
                        },
                    },
                    None => Vec::new(),
                };
                if digest.len() != hash_size {
                    self.encode_encap_error_response(
                        SpdmErrorCode::SpdmErrorUnspecified,
                        0,
                        encap_response,
                    );
                    return ;
                }
                entry_pending = None;
                entry_digest = digest;
            } else if self.common.provision_info.my_cert_chain_data[slot_id].is_some() {
                let raw: Vec<u8> = match &self.common.provision_info.my_cert_chain_data[slot_id] {
                    Some(d) => vstd::slice::slice_to_vec(d.data.as_slice()),
                    None => Vec::new(),
                };
                let (root_begin, root_end) = match self.provider.get_cert_from_cert_chain(
                    raw.as_slice(),
                    0,
                ) {
                    Some(p) => p,
                    None => {
                        self.encode_encap_error_response(
                            SpdmErrorCode::SpdmErrorUnspecified,
                            0,
                            encap_response,
                        );
                        return ;
                    },
                };
                if !(root_begin <= root_end && root_end <= raw.len()) {
                    self.encode_encap_error_response(
                        SpdmErrorCode::SpdmErrorUnspecified,
                        0,
                        encap_response,
                    );
                    return ;
                }
                let root_cert = vstd::slice::slice_subrange(raw.as_slice(), root_begin, root_end);
                let root_hash = match self.provider.hash_all(
                    self.common.negotiate_info.base_hash_sel,
                    root_cert,
                ) {
                    Some(h) => h,
                    None => {
                        self.encode_encap_error_response(
                            SpdmErrorCode::SpdmErrorUnspecified,
                            0,
                            encap_response,
                        );
                        return ;
                    },
                };
                if root_hash.data.len() != hash_size {
                    self.encode_encap_error_response(
                        SpdmErrorCode::SpdmErrorUnspecified,
                        0,
                        encap_response,
                    );
                    return ;
                }
                let data_size: usize = 4 + hash_size + raw.len();
                let mut materialized: Vec<u8> = Vec::new();
                materialized.push((data_size % 0x100) as u8);
                materialized.push(((data_size / 0x100) % 0x100) as u8);
                materialized.push(0);
                materialized.push(0);
                materialized.extend_from_slice(root_hash.data.as_slice());
                materialized.extend_from_slice(raw.as_slice());
                assert(materialized@.subrange(4 + hash_size as int, data_size as int) =~= raw@);
                let digest = match self.provider.hash_all(
                    self.common.negotiate_info.base_hash_sel,
                    materialized.as_slice(),
                ) {
                    Some(h) => h.data,
                    None => {
                        self.encode_encap_error_response(
                            SpdmErrorCode::SpdmErrorUnspecified,
                            0,
                            encap_response,
                        );
                        return ;
                    },
                };
                if digest.len() != hash_size {
                    self.encode_encap_error_response(
                        SpdmErrorCode::SpdmErrorUnspecified,
                        0,
                        encap_response,
                    );
                    return ;
                }
                entry_pending = Some(SpdmCertChainBuffer { data: materialized });
                entry_digest = digest;
            } else {
                entry_pending = None;
                entry_digest = Vec::new();
            }
            pending.push(entry_pending);
            digests.push(entry_digest);
            slot_id = slot_id + 1;
        }
        // Commit phase, infallible: install every materialized chain;
        // once installed a chain is immutable.
        let ghost planned = pending@;
        let mut slot_down: usize = SPDM_MAX_SLOT_NUMBER;
        while slot_down > 0
            invariant
                slot_down <= SPDM_MAX_SLOT_NUMBER,
                planned.len() == SPDM_MAX_SLOT_NUMBER,
                pending@ == planned.subrange(0, slot_down as int),
                self.common.wf(),
                old(self).common.negotiate_info.req_capabilities_sel.spec_contains(REQ_CAP_CERT),
                (SpdmMessageHeader::spec_read_at(encap_request@, 0) matches Some(h) && h.version
                    == old(self).common.negotiate_info.spdm_version_sel),
                SpdmGetDigestsRequestPayload::spec_read_at(encap_request@, 2) is Some,
                hash_size == old(self).common.negotiate_info.base_hash_sel.spec_size(),
                self.common.negotiate_info == old(self).common.negotiate_info,
                self.common.config_info == old(self).common.config_info,
                self.common.peer_info == old(self).common.peer_info,
                self.common.session@ == old(self).common.session@,
                self.common.runtime_info == old(self).common.runtime_info,
                self.common.provision_info.my_cert_chain_data == old(self).common.provision_info.my_cert_chain_data,
                self.common.provision_info.my_cert_chain@.len() == SPDM_MAX_SLOT_NUMBER,
                forall|i: int|
                    0 <= i < SPDM_MAX_SLOT_NUMBER ==> ((#[trigger] planned[i]) is Some <==> (old(self).common.provision_info.my_cert_chain@[i] is None && old(self).common.provision_info.my_cert_chain_data@[i] is Some)),
                forall|i: int|
                    0 <= i < SPDM_MAX_SLOT_NUMBER ==> ((#[trigger] planned[i]) matches Some(c)
                        ==> (old(self).common.provision_info.my_cert_chain_data@[i] matches Some(
                        d,
                    ) && c.wf() && spec_materialized_from(c, d.data@, hash_size as int))),
                forall|i: int|
                    0 <= i < slot_down ==> #[trigger] self.common.provision_info.my_cert_chain@[i]
                        == old(self).common.provision_info.my_cert_chain@[i],
                forall|i: int|
                    slot_down <= i < SPDM_MAX_SLOT_NUMBER ==> #[trigger] self
                        .common
                        .provision_info
                        .my_cert_chain@[i] == (if planned[i] is Some {
                        planned[i]
                    } else {
                        old(self).common.provision_info.my_cert_chain@[i]
                    }),
                digests@.len() == SPDM_MAX_SLOT_NUMBER,
                forall|i: int|
                    0 <= i < SPDM_MAX_SLOT_NUMBER && (old(self).common.provision_info.my_cert_chain@[i] is Some || planned[i] is Some) ==> (
                    #[trigger] digests@[i])@.len() == hash_size,
                encap_response.wf(),
                encap_response.capacity_spec() == old(encap_response).capacity_spec(),
                encap_response.data_spec() == old(encap_response).data_spec(),
                old(encap_response).capacity_spec() - old(encap_response).data_spec().len() >= 4
                    + SPDM_MAX_SLOT_NUMBER * SPDM_MAX_HASH_SIZE,
            decreases slot_down,
        {
            slot_down = slot_down - 1;
            let entry = match pending.pop() {
                Some(e) => e,
                None => None,
            };
            assert(pending@ =~= planned.subrange(0, slot_down as int));
            match entry {
                Some(c) => {
                    self.common.provision_info.my_cert_chain[slot_down] = Some(c);
                },
                None => {},
            }
        }
        assert(forall|j: int|
            0 <= j < SPDM_MAX_SLOT_NUMBER && (#[trigger] self
                .common
                .provision_info
                .my_cert_chain@[j]) is Some ==> digests@[j]@.len() == hash_size);
        // Slot-presence bitmask over the committed cache.
        let mut slot_mask: u8 = 0;
        let mut m: usize = 0;
        while m < SPDM_MAX_SLOT_NUMBER
            invariant
                m <= SPDM_MAX_SLOT_NUMBER,
                self.common.provision_info.my_cert_chain@.len() == SPDM_MAX_SLOT_NUMBER,
                slot_mask == spec_slot_mask_upto(
                    self.common.provision_info.my_cert_chain@,
                    m as int,
                ),
            decreases SPDM_MAX_SLOT_NUMBER - m,
        {
            if self.common.provision_info.my_cert_chain[m].is_some() {
                slot_mask = slot_mask | slot_bit(m);
            } else {
                assert(slot_mask | 0u8 == slot_mask) by (bit_vector);
            }
            m = m + 1;
        }
        // Serialize: header, reserved byte, bitmask, then one digest
        // per populated slot in ascending slot order.
        let ghost base = encap_response.data_spec();
        let ghost ds = digests@.map_values(|v: Vec<u8>| v@);
        proof {
            lemma_count_present_bound(
                self.common.provision_info.my_cert_chain@,
                SPDM_MAX_SLOT_NUMBER as int,
            );
        }
        encap_response.write_u8(self.common.negotiate_info.spdm_version_sel.get_u8());
        encap_response.write_u8(SpdmRequestResponseCode::SpdmResponseDigests.get_u8());
        encap_response.write_u8(0);
        encap_response.write_u8(slot_mask);
        let mut w: usize = 0;
        while w < SPDM_MAX_SLOT_NUMBER
            invariant
                w <= SPDM_MAX_SLOT_NUMBER,
                self.common.wf(),
                hash_size == self.common.negotiate_info.base_hash_sel.spec_size(),
                hash_size <= SPDM_MAX_HASH_SIZE,
                self.common.provision_info.my_cert_chain@.len() == SPDM_MAX_SLOT_NUMBER,
                digests@.len() == SPDM_MAX_SLOT_NUMBER,
                ds == digests@.map_values(|v: Vec<u8>| v@),
                forall|j: int|
                    0 <= j < SPDM_MAX_SLOT_NUMBER && self.common.provision_info.my_cert_chain@[j]
                        is Some ==> (#[trigger] digests@[j])@.len() == hash_size,
                encap_response.wf(),
                encap_response.capacity_spec() == old(encap_response).capacity_spec(),
                encap_response.data_spec() == base + seq![
                    self.common.negotiate_info.spdm_version_sel.spec_u8(),
                    SpdmRequestResponseCode::SpdmResponseDigests.spec_u8(),
                    0u8,
                    slot_mask,
                ] + spec_digest_area(self.common.provision_info.my_cert_chain@, ds, w as int),
                base.len() + 4 + SPDM_MAX_SLOT_NUMBER * SPDM_MAX_HASH_SIZE
                    <= encap_response.capacity_spec(),
            decreases SPDM_MAX_SLOT_NUMBER - w,
        {
            proof {
                lemma_digest_area_len(
                    self.common.provision_info.my_cert_chain@,
                    ds,
                    w as int,
                    hash_size as int,
                );
                lemma_count_present_bound(self.common.provision_info.my_cert_chain@, w as int);
            }
            if self.common.provision_info.my_cert_chain[w].is_some() {
                encap_response.append(digests[w].as_slice());
            }
            assert(encap_response.data_spec() =~= base + seq![
                self.common.negotiate_info.spdm_version_sel.spec_u8(),
                SpdmRequestResponseCode::SpdmResponseDigests.spec_u8(),
                0u8,
                slot_mask,
            ] + spec_digest_area(self.common.provision_info.my_cert_chain@, ds, w + 1));
            w = w + 1;
        }
        // Bind the encapsulated turn into the mutual-authentication
        // transcript; a full buffer drops the binding rather than the
        // response.
        let used_now = encap_response.used();
        let resp_len = used_now - resp_start;
        let ghost resp_suffix = encap_response.data_spec().subrange(
            resp_start as int,
            used_now as int,
        );
        let avail = MAX_MANAGED_BUFFER_MUT_B_SIZE - self.common.runtime_info.message_mut_b.len();
        if encap_request.len() <= avail && resp_len <= avail - encap_request.len() {
            self.common.runtime_info.message_mut_b.extend_from_slice(encap_request);
            let tail = vstd::slice::slice_subrange(
                encap_response.used_slice(),
                resp_start,
                used_now,
            );
            self.common.runtime_info.message_mut_b.extend_from_slice(tail);
            assert(self.common.runtime_info.message_mut_b@ =~= old(self).common.runtime_info.message_mut_b@ + encap_request@ + resp_suffix);
        }
        proof {
            let chains = self.common.provision_info.my_cert_chain@;
            let ver = old(self).common.negotiate_info.spdm_version_sel;
            let mask = spec_slot_mask_upto(chains, SPDM_MAX_SLOT_NUMBER as int);
            let resp = seq![
                ver.spec_u8(),
                SpdmRequestResponseCode::SpdmResponseDigests.spec_u8(),
                0u8,
                mask,
            ] + spec_digest_area(chains, ds, SPDM_MAX_SLOT_NUMBER as int);
            assert(slot_mask == mask);
            assert(encap_response.data_spec() =~= old(encap_response).data_spec() + resp);
            assert(resp =~= resp_suffix);
            assert(ds.len() == SPDM_MAX_SLOT_NUMBER);
            assert(forall|i: int|
                0 <= i < SPDM_MAX_SLOT_NUMBER && chains[i] is Some ==> (#[trigger] ds[i]).len()
                    == old(self).common.negotiate_info.base_hash_sel.spec_size());
            assert(self.common.runtime_info.message_mut_b@ == if old(self).common.runtime_info.message_mut_b@.len() + encap_request@.len() + resp.len()
                <= MAX_MANAGED_BUFFER_MUT_B_SIZE {
                old(self).common.runtime_info.message_mut_b@ + encap_request@ + resp
            } else {
                old(self).common.runtime_info.message_mut_b@
            });
            if forall|i: int|
                0 <= i < SPDM_MAX_SLOT_NUMBER ==> (#[trigger] self
                    .common
                    .provision_info
                    .my_cert_chain@[i]) is None {
                crate::digest::lemma_all_absent(
                    self.common.provision_info.my_cert_chain@,
                    ds,
                    SPDM_MAX_SLOT_NUMBER as int,
                );
            }
        }
    }
}

} // verus!
