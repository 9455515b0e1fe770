//! The key-exchange engine: encoding the KEY_EXCHANGE request,
//! validating and committing the response, and the signature gate.

use vstd::prelude::*;

use crate::codec::Reader;
use crate::codec::Writer;
use crate::common::SpdmSession;
use crate::common::SpdmSigningStrategy;
use crate::crypto::SpdmCryptoProvider;
use crate::crypto::SpdmDhe;
use crate::crypto::SpdmDheKeyExchange;
use crate::error::SpdmResult;
use crate::error::SpdmStatus;
use crate::key_exchange::SpdmKeyExchangeRequestPayload;
use crate::key_exchange::SpdmKeyExchangeRequestPayloadView;
use crate::key_exchange::SpdmKeyExchangeResponsePayload;
use crate::key_exchange::SpdmKeyExchangeResponsePayloadView;
use crate::message::SpdmKeyExchangeMutAuthAttributes;
use crate::message::SpdmMessageHeader;
use crate::opaque::req_opaque_version_list_fmt1;
use crate::opaque::req_opaque_version_list_legacy;
use crate::opaque::spec_opaque_version_list_fmt1;
use crate::opaque::spec_opaque_version_list_legacy;
use crate::protocol::MAX_SPDM_MSG_SIZE;
use crate::protocol::SPDM_MAX_SLOT_NUMBER;
use crate::protocol::SPDM_RANDOM_SIZE;
use crate::protocol::SpdmMeasurementSummaryHashType;
use crate::protocol::SpdmOpaqueStruct;
use crate::protocol::SpdmOpaqueSupport;
use crate::protocol::SpdmRandomStruct;
use crate::protocol::SpdmRequestResponseCode;
use crate::protocol::SpdmSignatureStruct;
use crate::protocol::SpdmVersion;
use crate::requester::RequesterContext;
use crate::requester::compute_signing_context;

verus! {

/// The opaque blob a request advertises, by negotiated version and
/// opaque-format support; `None` when no supported format remains.
pub open spec fn spec_req_opaque_choice(version: SpdmVersion, support: SpdmOpaqueSupport)
    -> Option<Seq<u8>> {
    if version.spec_u8() < 0x12 {
        Some(spec_opaque_version_list_legacy())
    } else if support == SpdmOpaqueSupport::OpaqueDataFmt1 {
        Some(spec_opaque_version_list_fmt1())
    } else {
        None
    }
}

impl<C: SpdmCryptoProvider> RequesterContext<C> {
    /// Encodes a KEY_EXCHANGE request: validates the slot, draws a
    /// fresh nonce and an ephemeral key-agreement pair through the
    /// provider, picks the opaque blob the negotiated version allows,
    /// and serializes the whole message, returning it together with
    /// the still-exclusively-owned ephemeral context.
    pub fn encode_spdm_key_exchange(
        &mut self,
        req_session_id: u16,
        slot_id: u8,
        measurement_summary_hash_type: SpdmMeasurementSummaryHashType,
    ) -> (r: SpdmResult<(<C as SpdmDhe>::Context, Vec<u8>)>)
        requires
            old(self).common.wf(),
        ensures
            *final(self) == *old(self),
            slot_id >= SPDM_MAX_SLOT_NUMBER <==> r == Err::<
                (<C as SpdmDhe>::Context, Vec<u8>),
                SpdmStatus,
            >(SpdmStatus::InvalidParameter),
            r matches Err(e) ==> (e == SpdmStatus::InvalidParameter || e == SpdmStatus::CryptoError
                || e == SpdmStatus::UnsupportedCapability),
            r matches Err(e) && e == SpdmStatus::UnsupportedCapability ==> spec_req_opaque_choice(
                old(self).common.negotiate_info.spdm_version_sel,
                old(self).common.negotiate_info.opaque_data_support,
            ) is None,
            slot_id < SPDM_MAX_SLOT_NUMBER && spec_req_opaque_choice(
                old(self).common.negotiate_info.spdm_version_sel,
                old(self).common.negotiate_info.opaque_data_support,
            ) is None ==> r is Err,
            r matches Ok((ctx, bytes)) ==> spec_req_opaque_choice(
                old(self).common.negotiate_info.spdm_version_sel,
                old(self).common.negotiate_info.opaque_data_support,
            ) matches Some(blob) && exists|v: SpdmKeyExchangeRequestPayloadView|
                {
                    &&& #[trigger] v.spec_encode() == bytes@.subrange(2, bytes@.len() as int)
                    &&& bytes@.subrange(0, 2) == (SpdmMessageHeader {
                        version: old(self).common.negotiate_info.spdm_version_sel,
                        request_response_code:
                            SpdmRequestResponseCode::SpdmRequestKeyExchange,
                    }).spec_encode()
                    &&& v.wf(old(self).common.negotiate_info.dhe_sel.spec_size() as int)
                    &&& v.measurement_summary_hash_type == measurement_summary_hash_type
                    &&& v.slot_id == slot_id
                    &&& v.req_session_id == req_session_id
                    &&& v.session_policy == old(self).common.config_info.session_policy
                    &&& v.opaque == blob
                },
    {
        if slot_id >= SPDM_MAX_SLOT_NUMBER as u8 {
            return Err(SpdmStatus::InvalidParameter);
        }
        let dhe_size = self.common.negotiate_info.dhe_sel.get_size() as usize;
        let random = match self.provider.get_random(SPDM_RANDOM_SIZE) {
            Some(v) => v,
            None => { return Err(SpdmStatus::CryptoError); },
        };
        if random.len() != SPDM_RANDOM_SIZE {
            return Err(SpdmStatus::CryptoError);
        }
        let (exchange, key_exchange_context) = match self.provider.generate_key_pair(
            self.common.negotiate_info.dhe_sel,
        ) {
            Some(p) => p,
            None => { return Err(SpdmStatus::CryptoError); },
        };
        if exchange.data.len() != dhe_size {
            return Err(SpdmStatus::CryptoError);
        }
        let opaque_data: Vec<u8> = if self.common.negotiate_info.spdm_version_sel.get_u8()
            < 0x12 {
            req_opaque_version_list_legacy()
        } else if matches!(
            self.common.negotiate_info.opaque_data_support,
            SpdmOpaqueSupport::OpaqueDataFmt1
        ) {
            req_opaque_version_list_fmt1()
        } else {
            return Err(SpdmStatus::UnsupportedCapability);
        };
        let request = SpdmKeyExchangeRequestPayload {
            measurement_summary_hash_type,
            slot_id,
            req_session_id,
            session_policy: self.common.config_info.session_policy,
            random: SpdmRandomStruct { data: random },
            exchange,
            opaque: SpdmOpaqueStruct { data: opaque_data },
        };
        let mut writer = Writer::init(MAX_SPDM_MSG_SIZE);
        let header = SpdmMessageHeader {
            version: self.common.negotiate_info.spdm_version_sel,
            request_response_code: SpdmRequestResponseCode::SpdmRequestKeyExchange,
        };
        header.encode(&mut writer);
        assert(request@.spec_encode().len() == 6 + SPDM_RANDOM_SIZE + dhe_size + 2
            + request.opaque.data@.len());
        request.spdm_encode(&self.common, &mut writer);
        let bytes = writer.into_vec();
        assert(bytes@.subrange(0, 2) =~= header.spec_encode());
        assert(bytes@.subrange(2, bytes@.len() as int) =~= request@.spec_encode());
        Ok((key_exchange_context, bytes))
    }

    /// Validates a KEY_EXCHANGE response and commits a session. The
    /// sequence is strictly ordered: parse and validate, compute the
    /// shared secret, bind request and response bytes into the
    /// session transcript, verify the signature, derive the handshake
    /// secret, verify the HMAC unless the handshake is in the clear,
    /// then — and only then — commit the session record. Every
    /// failure leaves the session table exactly as it was: no secret
    /// material outlives a failed exchange.
    #[verifier::rlimit(100)]
    pub fn handle_spdm_key_exhcange_response(
        &mut self,
        req_session_id: u16,
        slot_id: u8,
        send_buffer: &[u8],
        receive_buffer: &[u8],
        measurement_summary_hash_type: SpdmMeasurementSummaryHashType,
        key_exchange_context: <C as SpdmDhe>::Context,
    ) -> (r: SpdmResult<u32>)
        requires
            old(self).common.wf(),
            slot_id < SPDM_MAX_SLOT_NUMBER,
        ensures
            final(self).common.wf(),
            final(self).common.negotiate_info == old(self).common.negotiate_info,
            final(self).common.config_info == old(self).common.config_info,
            final(self).common.peer_info == old(self).common.peer_info,
            final(self).common.provision_info == old(self).common.provision_info,
            final(self).common.runtime_info.message_a == old(self).common.runtime_info.message_a,
            final(self).common.runtime_info.message_mut_b == old(self).common.runtime_info.message_mut_b,
            final(self).common.runtime_info.need_measurement_summary_hash
                == measurement_summary_hash_type.spec_needs_summary(),
            r is Err ==> final(self).common.session@ == old(self).common.session@ && final(self).common.runtime_info.last_session_id == old(self).common.runtime_info.last_session_id,
            r matches Err(e) ==> (e == SpdmStatus::InvalidMsgField || e == SpdmStatus::ErrorPeer
                || e == SpdmStatus::CryptoError || e == SpdmStatus::SessionNumberExceeded || e
                == SpdmStatus::VerifFail || e == SpdmStatus::BufferFull || e
                == SpdmStatus::InvalidParameter),
            r == Err::<u32, SpdmStatus>(SpdmStatus::SessionNumberExceeded) ==> forall|j: int|
                0 <= j < old(self).common.session@.len() ==> old(self).common.session@[j].spec_is_active(),
            r == Err::<u32, SpdmStatus>(SpdmStatus::InvalidParameter) ==> req_session_id == 0,
            match SpdmMessageHeader::spec_read_at(receive_buffer@, 0) {
                None => r == Err::<u32, SpdmStatus>(SpdmStatus::InvalidMsgField),
                Some(h) => if h.version != old(self).common.negotiate_info.spdm_version_sel {
                    r == Err::<u32, SpdmStatus>(SpdmStatus::InvalidMsgField)
                } else if h.request_response_code
                    == SpdmRequestResponseCode::SpdmResponseError {
                    r == Err::<u32, SpdmStatus>(
                        if receive_buffer@.len() >= 4 {
                            SpdmStatus::ErrorPeer
                        } else {
                            SpdmStatus::InvalidMsgField
                        },
                    )
                } else if h.request_response_code
                    != SpdmRequestResponseCode::SpdmResponseKeyExchangeRsp {
                    r == Err::<u32, SpdmStatus>(SpdmStatus::ErrorPeer)
                } else {
                    match SpdmKeyExchangeResponsePayloadView::spec_read_at(
                        receive_buffer@,
                        2,
                        old(self).common.negotiate_info.dhe_sel.spec_size() as int,
                        old(self).common.negotiate_info.base_hash_sel.spec_size() as int,
                        old(self).common.negotiate_info.base_asym_sel.spec_size() as int,
                        measurement_summary_hash_type.spec_needs_summary(),
                        old(self).common.negotiate_info.spec_in_clear_text(),
                    ) {
                        None => r == Err::<u32, SpdmStatus>(SpdmStatus::InvalidMsgField),
                        Some((v, consumed)) => {
                            &&& (r matches Ok(sid) ==> sid == v.rsp_session_id as u32 * 0x10000
                                + req_session_id as u32 && v.rsp_session_id != 0
                                && req_session_id != 0)
                            &&& (v.rsp_session_id == 0 ==> r == Err::<u32, SpdmStatus>(
                                SpdmStatus::InvalidMsgField,
                            ))
                            &&& (v.rsp_session_id != 0 && req_session_id == 0 ==> r == Err::<
                                u32,
                                SpdmStatus,
                            >(SpdmStatus::InvalidParameter))
                            &&& (v.rsp_session_id != 0 && req_session_id != 0
                                && v.mut_auth_req.spec_is_requested() && !(old(
                                self,
                            ).common.negotiate_info.req_capabilities_sel.spec_contains(
                                crate::protocol::REQ_CAP_MUT_AUTH,
                            ) && old(self).common.negotiate_info.rsp_capabilities_sel.spec_contains(
                                crate::protocol::RSP_CAP_MUT_AUTH,
                            )) ==> (r == Err::<u32, SpdmStatus>(SpdmStatus::InvalidMsgField) || r
                                == Err::<u32, SpdmStatus>(SpdmStatus::CryptoError)))
                            &&& (v.rsp_session_id != 0 && req_session_id != 0 && v.mut_auth_req
                                == SpdmKeyExchangeMutAuthAttributes::MutAuthReqWithEncapRequest
                                && v.req_slot_id >= SPDM_MAX_SLOT_NUMBER ==> (r == Err::<
                                u32,
                                SpdmStatus,
                            >(SpdmStatus::InvalidMsgField) || r == Err::<u32, SpdmStatus>(
                                SpdmStatus::CryptoError,
                            )))
                            &&& (r is Ok && v.mut_auth_req.spec_is_requested() ==> old(self).common.negotiate_info.req_capabilities_sel.spec_contains(
                                crate::protocol::REQ_CAP_MUT_AUTH,
                            ) && old(self).common.negotiate_info.rsp_capabilities_sel.spec_contains(
                                crate::protocol::RSP_CAP_MUT_AUTH,
                            ) && (v.mut_auth_req
                                == SpdmKeyExchangeMutAuthAttributes::MutAuthReqWithEncapRequest
                                ==> v.req_slot_id < SPDM_MAX_SLOT_NUMBER) && final(self).common.runtime_info.local_used_cert_chain_slot_id == (
                            v.req_slot_id & 0xF))
                            &&& (r is Ok && !v.mut_auth_req.spec_is_requested() ==> final(self).common.runtime_info.local_used_cert_chain_slot_id == old(self).common.runtime_info.local_used_cert_chain_slot_id)
                            &&& (r is Ok ==> old(self).common.peer_info.peer_cert_chain@[
                                slot_id as int
                            ] is Some)
                            &&& (r matches Ok(sid) ==> {
                                let in_clear = old(self).common.negotiate_info.spec_in_clear_text();
                                let trunc = 2 + consumed - (old(self).common.negotiate_info.base_asym_sel.spec_size() as int) - (
                                if in_clear {
                                    0int
                                } else {
                                    old(self).common.negotiate_info.base_hash_sel.spec_size() as int
                                });
                                &&& (exists|i: int|
                                    {
                                        &&& 0 <= i < old(self).common.session@.len()
                                        &&& !(#[trigger] old(self).common.session@[i]).spec_is_active()
                                        &&& final(self).common.session@ == old(self).common.session@.update(
                                            i,
                                            final(self).common.session@[i],
                                        )
                                        &&& final(self).common.session@[i].session_id == sid
                                        &&& final(self).common.session@[i].session_state
                                            == crate::common::SpdmSessionState::SpdmSessionHandshaking
                                        &&& final(self).common.session@[i].mut_auth_requested
                                            == v.mut_auth_req
                                        &&& final(self).common.session@[i].heartbeat_period
                                            == v.heartbeat_period
                                        &&& final(self).common.session@[i].secure_spdm_version_sel
                                            == crate::opaque::spec_secure_version_from_opaque(
                                            v.opaque,
                                        )
                                        &&& !final(self).common.session@[i].use_psk
                                        &&& final(self).common.session@[i].base_hash_algo == old(
                                            self,
                                        ).common.negotiate_info.base_hash_sel
                                        &&& final(self).common.session@[i].dhe_algo == old(
                                            self,
                                        ).common.negotiate_info.dhe_sel
                                        &&& final(self).common.session@[i].aead_algo == old(
                                            self,
                                        ).common.negotiate_info.aead_sel
                                        &&& final(self).common.session@[i].key_schedule_algo
                                            == old(self).common.negotiate_info.key_schedule_sel
                                        &&& final(self).common.session@[i].sequence_number_count
                                            == old(self).common.config_info.sequence_number_count
                                        &&& final(self).common.session@[i].max_random_count
                                            == old(self).common.config_info.max_random_count
                                        &&& (final(self).common.session@[i].rsp_cert_hash
                                            matches Some(ch) && ch.data@.len() == old(
                                            self,
                                        ).common.negotiate_info.base_hash_sel.spec_size())
                                        &&& final(self).common.session@[i].req_cert_hash is None
                                        &&& final(self).common.session@[i].dhe_secret is Some
                                        &&& final(self).common.session@[i].response_finished_key is Some
                                        &&& final(self).common.session@[i].message_a@ == old(self).common.runtime_info.message_a@
                                        &&& final(self).common.session@[i].message_k@
                                            == send_buffer@ + receive_buffer@.subrange(0, trunc)
                                            + v.signature + (if in_clear {
                                            Seq::<u8>::empty()
                                        } else {
                                            v.verify_data
                                        })
                                    })
                                &&& (in_clear ==> final(self).common.runtime_info.last_session_id == Some(sid))
                                &&& (!in_clear ==> final(self).common.runtime_info.last_session_id == old(self).common.runtime_info.last_session_id)
                            })
                        },
                    }
                },
            },
    {
        self.common.runtime_info.need_measurement_summary_hash = match
            measurement_summary_hash_type {
            SpdmMeasurementSummaryHashType::SpdmMeasurementSummaryHashTypeTcb => true,
            SpdmMeasurementSummaryHashType::SpdmMeasurementSummaryHashTypeAll => true,
            SpdmMeasurementSummaryHashType::SpdmMeasurementSummaryHashTypeNone => false,
        };
        let in_clear_text = self.common.negotiate_info.in_clear_text();
        let mut reader = Reader::init(receive_buffer);
        let message_header = match SpdmMessageHeader::read(&mut reader) {
            Some(h) => h,
            None => { return Err(SpdmStatus::InvalidMsgField); },
        };
        if message_header.version != self.common.negotiate_info.spdm_version_sel {
            return Err(SpdmStatus::InvalidMsgField);
        }
        match message_header.request_response_code {
            SpdmRequestResponseCode::SpdmResponseKeyExchangeRsp => {},
            SpdmRequestResponseCode::SpdmResponseError => {
                // Delegate to the generic error-response handling: a
                // well-formed ERROR response surfaces as a
                // peer-signaled error, a truncated one as a parse
                // failure.
                if reader.read_u8().is_none() {
                    return Err(SpdmStatus::InvalidMsgField);
                }
                if reader.read_u8().is_none() {
                    return Err(SpdmStatus::InvalidMsgField);
                }
                return Err(SpdmStatus::ErrorPeer);
            },
            _ => { return Err(SpdmStatus::ErrorPeer); },
        }
        let key_exchange_rsp = match SpdmKeyExchangeResponsePayload::spdm_read(
            &self.common,
            &mut reader,
        ) {
            Some(p) => p,
            None => { return Err(SpdmStatus::InvalidMsgField); },
        };
        let receive_used = reader.used();
        // Both session halves must be non-zero: a zero responder half
        // is a bad message field, a zero requester half a bad
        // argument.
        if key_exchange_rsp.rsp_session_id == 0 {
            return Err(SpdmStatus::InvalidMsgField);
        }
        if req_session_id == 0 {
            return Err(SpdmStatus::InvalidParameter);
        }
        let final_key = match key_exchange_context.compute_final_key(&key_exchange_rsp.exchange) {
            Some(k) => k,
            None => { return Err(SpdmStatus::CryptoError); },
        };
        let secure_spdm_version_sel = crate::opaque::secure_version_from_opaque(
            key_exchange_rsp.opaque.data.as_slice(),
        );
        let session_id: u32 = (key_exchange_rsp.rsp_session_id as u32) * 0x10000
            + req_session_id as u32;
        let cert_chain_hash = match self.get_certchain_hash_peer(slot_id) {
            Some(h) => h,
            None => { return Err(SpdmStatus::InvalidMsgField); },
        };
        if key_exchange_rsp.mut_auth_req.is_requested() {
            if !self.common.negotiate_info.req_capabilities_sel.contains(
                crate::protocol::REQ_CAP_MUT_AUTH,
            ) || !self.common.negotiate_info.rsp_capabilities_sel.contains(
                crate::protocol::RSP_CAP_MUT_AUTH,
            ) {
                return Err(SpdmStatus::InvalidMsgField);
            }
            if matches!(
                key_exchange_rsp.mut_auth_req,
                SpdmKeyExchangeMutAuthAttributes::MutAuthReqWithEncapRequest
            ) && key_exchange_rsp.req_slot_id >= SPDM_MAX_SLOT_NUMBER as u8 {
                return Err(SpdmStatus::InvalidMsgField);
            }
            self.common.runtime_info.local_used_cert_chain_slot_id = key_exchange_rsp.req_slot_id
                & 0xF;
        }
        let free_idx = match self.common.find_free_session_index() {
            Some(i) => i,
            None => { return Err(SpdmStatus::SessionNumberExceeded); },
        };
        let mut session = SpdmSession::new();
        match session.setup(session_id) {
            Ok(()) => {},
            Err(e) => { return Err(e); },
        }
        session.set_use_psk(false);
        session.set_mut_auth_requested(key_exchange_rsp.mut_auth_req);
        session.set_crypto_param(
            self.common.negotiate_info.base_hash_sel,
            self.common.negotiate_info.dhe_sel,
            self.common.negotiate_info.aead_sel,
            self.common.negotiate_info.key_schedule_sel,
        );
        session.set_transport_param(
            self.common.config_info.sequence_number_count,
            self.common.config_info.max_random_count,
        );
        session.set_dhe_secret(final_key);
        let mut message_a: Vec<u8> = Vec::new();
        message_a.extend_from_slice(self.common.runtime_info.message_a.as_slice());
        session.message_a = message_a;
        session.rsp_cert_hash = Some(cert_chain_hash);
        session.req_cert_hash = None;
        // Truncate the received bytes to exclude the trailing
        // signature and, unless in the clear, the trailing HMAC: the
        // transcript the signature covers must not contain them.
        let base_asym_size = self.common.negotiate_info.base_asym_sel.get_size() as usize;
        let base_hash_size = self.common.negotiate_info.base_hash_sel.get_size() as usize;
        let tail_size: usize = if in_clear_text {
            base_asym_size
        } else {
            base_asym_size + base_hash_size
        };
        assert(receive_used >= tail_size + 2);
        let temp_receive_used = receive_used - tail_size;
        let truncated = vstd::slice::slice_subrange(receive_buffer, 0, temp_receive_used);
        match session.append_message_k(send_buffer) {
            Ok(()) => {},
            Err(_) => { return Err(SpdmStatus::BufferFull); },
        }
        match session.append_message_k(truncated) {
            Ok(()) => {},
            Err(_) => { return Err(SpdmStatus::BufferFull); },
        }
        // Verify the response signature before anything is derived
        // from the shared secret.
        match self.verify_key_exchange_rsp_signature(
            slot_id,
            &session,
            &key_exchange_rsp.signature,
        ) {
            Ok(()) => {},
            Err(_) => { return Err(SpdmStatus::VerifFail); },
        }
        match session.append_message_k(key_exchange_rsp.signature.data.as_slice()) {
            Ok(()) => {},
            Err(_) => { return Err(SpdmStatus::BufferFull); },
        }
        // Derive the handshake secret, finished keys included, from
        // the transcript that now ends with the verified signature.
        let th1 = match self.calc_req_transcript_hash(&session) {
            Ok(d) => d,
            Err(_) => { return Err(SpdmStatus::CryptoError); },
        };
        match session.generate_handshake_secret(&self.provider, &th1) {
            Ok(()) => {},
            Err(_) => { return Err(SpdmStatus::CryptoError); },
        }
        if !in_clear_text {
            // Signature first, then HMAC: the HMAC is checked against
            // the finished key that the verified transcript produced.
            let transcript_hash = match self.calc_req_transcript_hash(&session) {
                Ok(d) => d,
                Err(_) => { return Err(SpdmStatus::CryptoError); },
            };
            let hmac_ok = match &session.response_finished_key {
                Some(k) => self.provider.hmac_verify(
                    self.common.negotiate_info.base_hash_sel,
                    k.data.as_slice(),
                    transcript_hash.data.as_slice(),
                    &key_exchange_rsp.verify_data,
                ),
                None => false,
            };
            if !hmac_ok {
                return Err(SpdmStatus::VerifFail);
            }
            match session.append_message_k(key_exchange_rsp.verify_data.data.as_slice()) {
                Ok(()) => {},
                Err(_) => { return Err(SpdmStatus::BufferFull); },
            }
        }
        session.secure_spdm_version_sel = secure_spdm_version_sel;
        session.heartbeat_period = key_exchange_rsp.heartbeat_period;
        session.set_session_state(crate::common::SpdmSessionState::SpdmSessionHandshaking);
        self.common.session[free_idx] = session;
        if in_clear_text {
            self.common.runtime_info.last_session_id = Some(session_id);
        }
        Ok(session_id)
    }

    /// Verifies the key-exchange response signature: builds the
    /// signing context from the transcript under the configured
    /// strategy and delegates to the provider with the peer leaf
    /// certificate region of the stored chain.
    pub fn verify_key_exchange_rsp_signature(
        &self,
        slot_id: u8,
        session: &SpdmSession,
        signature: &SpdmSignatureStruct,
    ) -> (r: SpdmResult<()>)
        requires
            self.common.wf(),
            slot_id < SPDM_MAX_SLOT_NUMBER,
        ensures
            session.rsp_cert_hash is None ==> r == Err::<(), SpdmStatus>(
                SpdmStatus::InvalidStateLocal,
            ),
            session.rsp_cert_hash is Some && self.common.peer_info.peer_cert_chain@[
                slot_id as int
            ] is None ==> r == Err::<(), SpdmStatus>(SpdmStatus::InvalidParameter),
            session.rsp_cert_hash is Some && (self.common.peer_info.peer_cert_chain@[
                slot_id as int
            ] matches Some(c) && c.data@.len() < 4
                + self.common.negotiate_info.base_hash_sel.spec_size()) ==> r == Err::<
                (),
                SpdmStatus,
            >(SpdmStatus::InvalidParameter),
            r is Ok ==> session.rsp_cert_hash is Some && (
            self.common.peer_info.peer_cert_chain@[slot_id as int] matches Some(c)
                && c.data@.len() >= 4 + self.common.negotiate_info.base_hash_sel.spec_size())
                && (self.common.negotiate_info.spdm_version_sel.spec_u8() >= 0x12
                || self.common.config_info.signing_strategy
                == SpdmSigningStrategy::RawTranscript),
            session.rsp_cert_hash is Some && (self.common.peer_info.peer_cert_chain@[
                slot_id as int
            ] matches Some(c) && c.data@.len() >= 4
                + self.common.negotiate_info.base_hash_sel.spec_size())
                && self.common.negotiate_info.spdm_version_sel.spec_u8() < 0x12
                && self.common.config_info.signing_strategy
                == SpdmSigningStrategy::HashedTranscript ==> r == Err::<(), SpdmStatus>(
                SpdmStatus::InvalidStateLocal,
            ),
            r matches Err(e) ==> (e == SpdmStatus::InvalidStateLocal || e
                == SpdmStatus::InvalidParameter || e == SpdmStatus::CryptoError || e
                == SpdmStatus::VerifFail),
    {
        if session.rsp_cert_hash.is_none() {
            return Err(SpdmStatus::InvalidStateLocal);
        }
        let hash_size = self.common.negotiate_info.base_hash_sel.get_size() as usize;
        let chain = match &self.common.peer_info.peer_cert_chain[slot_id as usize] {
            Some(c) => c,
            None => { return Err(SpdmStatus::InvalidParameter); },
        };
        if chain.data.len() < 4 + hash_size {
            return Err(SpdmStatus::InvalidParameter);
        }
        if self.common.negotiate_info.spdm_version_sel.get_u8() < 0x12 && matches!(
            self.common.config_info.signing_strategy,
            SpdmSigningStrategy::HashedTranscript
        ) {
            return Err(SpdmStatus::InvalidStateLocal);
        }
        let transcript_data = match self.calc_req_transcript_data(session) {
            Ok(v) => v,
            Err(e) => { return Err(e); },
        };
        let transcript_hash = match self.calc_req_transcript_hash(session) {
            Ok(d) => d,
            Err(e) => { return Err(e); },
        };
        let message_sign = match compute_signing_context(
            self.common.negotiate_info.spdm_version_sel,
            self.common.config_info.signing_strategy,
            transcript_data.as_slice(),
            transcript_hash.data.as_slice(),
        ) {
            Ok(v) => v,
            Err(e) => { return Err(e); },
        };
        let cert_chain_data = vstd::slice::slice_subrange(
            chain.data.as_slice(),
            4 + hash_size,
            chain.data.len(),
        );
        if self.provider.verify(
            self.common.negotiate_info.base_hash_sel,
            self.common.negotiate_info.base_asym_sel,
            cert_chain_data,
            message_sign.as_slice(),
            signature,
        ) {
            Ok(())
        } else {
            Err(SpdmStatus::VerifFail)
        }
    }
}

} // verus!
