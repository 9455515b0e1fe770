//! Connection-level state: negotiated parameters, transcripts,
//! provisioned and peer certificate chains, and the session records.

use vstd::prelude::*;

use crate::error::SpdmResult;
use crate::error::SpdmStatus;
use crate::message::SpdmKeyExchangeMutAuthAttributes;
use crate::protocol::INITIAL_SESSION_ID;
use crate::protocol::INVALID_SESSION_ID;
use crate::protocol::MAX_MANAGED_BUFFER_A_SIZE;
use crate::protocol::MAX_MANAGED_BUFFER_K_SIZE;
use crate::protocol::MAX_MANAGED_BUFFER_MUT_B_SIZE;
use crate::protocol::MAX_SPDM_SESSION_COUNT;
use crate::protocol::SPDM_MAX_SLOT_NUMBER;
use crate::protocol::SpdmAeadAlgo;
use crate::protocol::SpdmBaseAsymAlgo;
use crate::protocol::SpdmBaseHashAlgo;
use crate::protocol::SpdmCertChainBuffer;
use crate::protocol::SpdmCertChainData;
use crate::protocol::SpdmDheAlgo;
use crate::protocol::SpdmDheFinalKeyStruct;
use crate::protocol::SpdmDigestStruct;
use crate::protocol::SpdmKeyScheduleAlgo;
use crate::protocol::SpdmOpaqueSupport;
use crate::protocol::SpdmRequestCapabilityFlags;
use crate::protocol::SpdmResponseCapabilityFlags;
use crate::protocol::SpdmVersion;

verus! {

/// How the key-exchange signature binds the transcript: over its hash,
/// or over the raw transcript bytes (the pre-1.2 signing form).
#[derive(Clone, Copy, Debug, PartialEq, Eq, Structural)]
pub enum SpdmSigningStrategy {
    /// Sign over the transcript hash; versions before 1.2 are not
    /// servable in this mode.
    HashedTranscript,
    /// Sign over the raw transcript bytes when the version is before
    /// 1.2, over the hash otherwise.
    RawTranscript,
}

/// Parameters both sides agreed on during negotiation; set once,
/// immutable afterwards.
#[derive(Clone, Copy, Debug, PartialEq, Eq, Structural)]
pub struct SpdmNegotiateInfo {
    pub spdm_version_sel: SpdmVersion,
    pub base_hash_sel: SpdmBaseHashAlgo,
    pub base_asym_sel: SpdmBaseAsymAlgo,
    pub dhe_sel: SpdmDheAlgo,
    pub aead_sel: SpdmAeadAlgo,
    pub key_schedule_sel: SpdmKeyScheduleAlgo,
    pub opaque_data_support: SpdmOpaqueSupport,
    pub req_capabilities_sel: SpdmRequestCapabilityFlags,
    pub rsp_capabilities_sel: SpdmResponseCapabilityFlags,
}

impl SpdmNegotiateInfo {
    /// Everything unselected, as before negotiation.
    pub open spec fn spec_unselected(self) -> bool {
        &&& self.spdm_version_sel == SpdmVersion::SpdmVersion10
        &&& self.base_hash_sel == SpdmBaseHashAlgo::NoHash
        &&& self.base_asym_sel == SpdmBaseAsymAlgo::NoAsym
        &&& self.dhe_sel == SpdmDheAlgo::NoDhe
        &&& self.aead_sel == SpdmAeadAlgo::NoAead
        &&& self.key_schedule_sel == SpdmKeyScheduleAlgo::NoKeySchedule
        &&& self.opaque_data_support == SpdmOpaqueSupport::NoOpaqueFormat
        &&& self.req_capabilities_sel.bits == 0
        &&& self.rsp_capabilities_sel.bits == 0
    }

    /// A handshake runs in the clear only when both sides negotiated
    /// the capability.
    pub open spec fn spec_in_clear_text(self) -> bool {
        self.req_capabilities_sel.spec_contains(crate::protocol::REQ_CAP_HANDSHAKE_IN_THE_CLEAR)
            && self.rsp_capabilities_sel.spec_contains(
            crate::protocol::RSP_CAP_HANDSHAKE_IN_THE_CLEAR,
        )
    }

    pub fn in_clear_text(&self) -> (r: bool)
        ensures
            r == self.spec_in_clear_text(),
    {
        self.req_capabilities_sel.contains(crate::protocol::REQ_CAP_HANDSHAKE_IN_THE_CLEAR)
            && self.rsp_capabilities_sel.contains(
            crate::protocol::RSP_CAP_HANDSHAKE_IN_THE_CLEAR,
        )
    }

    /// Everything unselected, as before negotiation.
    pub fn new() -> (r: SpdmNegotiateInfo)
        ensures
            r.spec_unselected(),
    {
        SpdmNegotiateInfo {
            spdm_version_sel: SpdmVersion::SpdmVersion10,
            base_hash_sel: SpdmBaseHashAlgo::NoHash,
            base_asym_sel: SpdmBaseAsymAlgo::NoAsym,
            dhe_sel: SpdmDheAlgo::NoDhe,
            aead_sel: SpdmAeadAlgo::NoAead,
            key_schedule_sel: SpdmKeyScheduleAlgo::NoKeySchedule,
            opaque_data_support: SpdmOpaqueSupport::NoOpaqueFormat,
            req_capabilities_sel: SpdmRequestCapabilityFlags { bits: 0 },
            rsp_capabilities_sel: SpdmResponseCapabilityFlags { bits: 0 },
        }
    }
}

/// Local configuration handed in at context setup.
#[derive(Clone, Copy, Debug, PartialEq, Eq, Structural)]
pub struct SpdmConfigInfo {
    /// Session policy byte carried in the key-exchange request.
    pub session_policy: u8,
    /// Transport parameter copied onto new sessions.
    pub sequence_number_count: u8,
    /// Transport parameter copied onto new sessions.
    pub max_random_count: u16,
    /// Which signing-context strategy this endpoint runs.
    pub signing_strategy: SpdmSigningStrategy,
}

/// Mutable per-connection bookkeeping.
pub struct SpdmRuntimeInfo {
    /// Connection-level negotiation transcript, inherited by sessions.
    pub message_a: Vec<u8>,
    /// Transcript of encapsulated mutual-authentication traffic.
    pub message_mut_b: Vec<u8>,
    /// Whether the next key-exchange response carries a measurement
    /// summary hash.
    pub need_measurement_summary_hash: bool,
    /// The session most recently established in the clear, if any.
    pub last_session_id: Option<u32>,
    /// Local certificate slot the peer chose for mutual
    /// authentication.
    pub local_used_cert_chain_slot_id: u8,
}

impl SpdmRuntimeInfo {
    pub open spec fn wf(self) -> bool {
        &&& self.message_a@.len() <= MAX_MANAGED_BUFFER_A_SIZE
        &&& self.message_mut_b@.len() <= MAX_MANAGED_BUFFER_MUT_B_SIZE
    }
}

/// Certificate material provisioned on this endpoint, one entry per
/// slot. A slot's chain is lazily materialized from its raw data the
/// first time an encapsulated digest response needs it.
pub struct SpdmProvisionInfo {
    pub my_cert_chain: Vec<Option<SpdmCertChainBuffer>>,
    pub my_cert_chain_data: Vec<Option<SpdmCertChainData>>,
}

impl SpdmProvisionInfo {
    pub open spec fn wf(self) -> bool {
        &&& self.my_cert_chain@.len() == SPDM_MAX_SLOT_NUMBER
        &&& self.my_cert_chain_data@.len() == SPDM_MAX_SLOT_NUMBER
        &&& forall|i: int|
            0 <= i < SPDM_MAX_SLOT_NUMBER ==> ((#[trigger] self.my_cert_chain@[i]) matches Some(c)
                ==> c.wf())
        &&& forall|i: int|
            0 <= i < SPDM_MAX_SLOT_NUMBER ==> ((#[trigger] self.my_cert_chain_data@[i])
                matches Some(c) ==> c.wf())
    }
}

/// What is known about the peer's certificates, one entry per slot.
pub struct SpdmPeerInfo {
    pub peer_cert_chain: Vec<Option<SpdmCertChainBuffer>>,
}

impl SpdmPeerInfo {
    pub open spec fn wf(self) -> bool {
        &&& self.peer_cert_chain@.len() == SPDM_MAX_SLOT_NUMBER
        &&& forall|i: int|
            0 <= i < SPDM_MAX_SLOT_NUMBER ==> ((#[trigger] self.peer_cert_chain@[i])
                matches Some(c) ==> c.wf())
    }
}

/// Lifecycle of a session record. Forward transitions only; a failed
/// verification tears the record down to its fresh state instead.
#[derive(Clone, Copy, Debug, PartialEq, Eq, Structural)]
pub enum SpdmSessionState {
    SpdmSessionNotStarted,
    SpdmSessionHandshaking,
    SpdmSessionEstablished,
}

/// One session record. A record with the invalid session id is a free
/// slot.
pub struct SpdmSession {
    pub session_id: u32,
    pub session_state: SpdmSessionState,
    pub use_psk: bool,
    pub mut_auth_requested: SpdmKeyExchangeMutAuthAttributes,
    pub base_hash_algo: SpdmBaseHashAlgo,
    pub dhe_algo: SpdmDheAlgo,
    pub aead_algo: SpdmAeadAlgo,
    pub key_schedule_algo: SpdmKeyScheduleAlgo,
    pub sequence_number_count: u8,
    pub max_random_count: u16,
    /// Shared secret of the key agreement; zeroed on teardown.
    pub dhe_secret: Option<SpdmDheFinalKeyStruct>,
    /// Derived handshake secret; zeroed on teardown.
    pub handshake_secret: Option<SpdmDigestStruct>,
    /// Finished key authenticating the requester's transcript view.
    pub request_finished_key: Option<SpdmDigestStruct>,
    /// Finished key authenticating the responder's transcript view.
    pub response_finished_key: Option<SpdmDigestStruct>,
    /// Read-only snapshot of the connection negotiation transcript.
    pub message_a: Vec<u8>,
    /// Session-scoped transcript of the key-exchange phase.
    pub message_k: Vec<u8>,
    /// Digest of the peer certificate chain bound into signing.
    pub rsp_cert_hash: Option<SpdmDigestStruct>,
    /// Digest of the local certificate chain bound into signing.
    pub req_cert_hash: Option<SpdmDigestStruct>,
    pub secure_spdm_version_sel: u8,
    pub heartbeat_period: u8,
}

impl SpdmSession {
    pub open spec fn wf(self) -> bool {
        &&& self.message_a@.len() <= MAX_MANAGED_BUFFER_A_SIZE
        &&& self.message_k@.len() <= MAX_MANAGED_BUFFER_K_SIZE
    }

    /// A free, secret-less record.
    pub open spec fn spec_fresh(self) -> bool {
        &&& self.session_id == INVALID_SESSION_ID
        &&& self.session_state == SpdmSessionState::SpdmSessionNotStarted
        &&& !self.use_psk
        &&& self.mut_auth_requested == SpdmKeyExchangeMutAuthAttributes::NotRequested
        &&& self.dhe_secret is None
        &&& self.handshake_secret is None
        &&& self.request_finished_key is None
        &&& self.response_finished_key is None
        &&& self.message_a@ == Seq::<u8>::empty()
        &&& self.message_k@ == Seq::<u8>::empty()
        &&& self.rsp_cert_hash is None
        &&& self.req_cert_hash is None
        &&& self.secure_spdm_version_sel == 0
        &&& self.heartbeat_period == 0
    }

    /// Whether this record tracks a live session.
    pub open spec fn spec_is_active(self) -> bool {
        self.session_id != INVALID_SESSION_ID
    }

    pub fn new() -> (r: SpdmSession)
        ensures
            r.spec_fresh(),
            r.wf(),
            r.base_hash_algo == SpdmBaseHashAlgo::NoHash,
            r.dhe_algo == SpdmDheAlgo::NoDhe,
            r.aead_algo == SpdmAeadAlgo::NoAead,
            r.key_schedule_algo == SpdmKeyScheduleAlgo::NoKeySchedule,
            r.sequence_number_count == 0,
            r.max_random_count == 0,
    {
        SpdmSession {
            session_id: INVALID_SESSION_ID,
            session_state: SpdmSessionState::SpdmSessionNotStarted,
            use_psk: false,
            mut_auth_requested: SpdmKeyExchangeMutAuthAttributes::NotRequested,
            base_hash_algo: SpdmBaseHashAlgo::NoHash,
            dhe_algo: SpdmDheAlgo::NoDhe,
            aead_algo: SpdmAeadAlgo::NoAead,
            key_schedule_algo: SpdmKeyScheduleAlgo::NoKeySchedule,
            sequence_number_count: 0,
            max_random_count: 0,
            dhe_secret: None,
            handshake_secret: None,
            request_finished_key: None,
            response_finished_key: None,
            message_a: Vec::new(),
            message_k: Vec::new(),
            rsp_cert_hash: None,
            req_cert_hash: None,
            secure_spdm_version_sel: 0,
            heartbeat_period: 0,
        }
    }

    /// Marks the record live under `session_id`; the id must not be
    /// the invalid marker.
    pub fn setup(&mut self, session_id: u32) -> (r: SpdmResult<()>)
        requires
            old(self).wf(),
        ensures
            final(self).wf(),
            if session_id != INVALID_SESSION_ID {
                r == Ok::<(), SpdmStatus>(()) && *final(self) == (SpdmSession {
                    session_id,
                    session_state: SpdmSessionState::SpdmSessionNotStarted,
                    ..*old(self)
                })
            } else {
                r == Err::<(), SpdmStatus>(SpdmStatus::InvalidParameter) && *final(self) == *old(
                    self,
                )
            },
    {
        if session_id != INVALID_SESSION_ID {
            self.session_id = session_id;
            self.session_state = SpdmSessionState::SpdmSessionNotStarted;
            Ok(())
        } else {
            Err(SpdmStatus::InvalidParameter)
        }
    }

    /// Discards every secret and returns the record to a free slot;
    /// called on verification failure and on explicit teardown.
    pub fn teardown(&mut self)
        ensures
            final(self).spec_fresh(),
            final(self).wf(),
    {
        *self = SpdmSession::new();
    }

    pub fn set_use_psk(&mut self, use_psk: bool)
        ensures
            *final(self) == (SpdmSession { use_psk, ..*old(self) }),
    {
        self.use_psk = use_psk;
    }

    pub fn set_mut_auth_requested(&mut self, attrs: SpdmKeyExchangeMutAuthAttributes)
        ensures
            *final(self) == (SpdmSession { mut_auth_requested: attrs, ..*old(self) }),
    {
        self.mut_auth_requested = attrs;
    }

    pub fn get_mut_auth_requested(&self) -> (r: SpdmKeyExchangeMutAuthAttributes)
        ensures
            r == self.mut_auth_requested,
    {
        self.mut_auth_requested
    }

    pub fn set_session_state(&mut self, state: SpdmSessionState)
        ensures
            *final(self) == (SpdmSession { session_state: state, ..*old(self) }),
    {
        self.session_state = state;
    }

    pub fn get_session_state(&self) -> (r: SpdmSessionState)
        ensures
            r == self.session_state,
    {
        self.session_state
    }

    pub fn set_crypto_param(
        &mut self,
        base_hash_algo: SpdmBaseHashAlgo,
        dhe_algo: SpdmDheAlgo,
        aead_algo: SpdmAeadAlgo,
        key_schedule_algo: SpdmKeyScheduleAlgo,
    )
        ensures
            *final(self) == (SpdmSession {
                base_hash_algo,
                dhe_algo,
                aead_algo,
                key_schedule_algo,
                ..*old(self)
            }),
    {
        self.base_hash_algo = base_hash_algo;
        self.dhe_algo = dhe_algo;
        self.aead_algo = aead_algo;
        self.key_schedule_algo = key_schedule_algo;
    }

    pub fn set_transport_param(&mut self, sequence_number_count: u8, max_random_count: u16)
        ensures
            *final(self) == (SpdmSession {
                sequence_number_count,
                max_random_count,
                ..*old(self)
            }),
    {
        self.sequence_number_count = sequence_number_count;
        self.max_random_count = max_random_count;
    }

    pub fn set_dhe_secret(&mut self, dhe_secret: SpdmDheFinalKeyStruct)
        ensures
            *final(self) == (SpdmSession { dhe_secret: Some(dhe_secret), ..*old(self) }),
    {
        self.dhe_secret = Some(dhe_secret);
    }

    /// Appends to the session transcript; fails, changing nothing,
    /// when the bounded buffer has no room.
    pub fn append_message_k(&mut self, bytes: &[u8]) -> (r: SpdmResult<()>)
        requires
            old(self).wf(),
        ensures
            final(self).wf(),
            if old(self).message_k@.len() + bytes@.len() <= MAX_MANAGED_BUFFER_K_SIZE {
                r == Ok::<(), SpdmStatus>(()) && *final(self) == (SpdmSession {
                    message_k: final(self).message_k,
                    ..*old(self)
                }) && final(self).message_k@ == old(self).message_k@ + bytes@
            } else {
                r == Err::<(), SpdmStatus>(SpdmStatus::BufferFull) && *final(self) == *old(self)
            },
    {
        if bytes.len() <= MAX_MANAGED_BUFFER_K_SIZE - self.message_k.len() {
            self.message_k.extend_from_slice(bytes);
            Ok(())
        } else {
            Err(SpdmStatus::BufferFull)
        }
    }
}

/// All connection-level state a requester operates on.
pub struct SpdmContext {
    pub negotiate_info: SpdmNegotiateInfo,
    pub config_info: SpdmConfigInfo,
    pub runtime_info: SpdmRuntimeInfo,
    pub provision_info: SpdmProvisionInfo,
    pub peer_info: SpdmPeerInfo,
    pub session: Vec<SpdmSession>,
}

impl SpdmContext {
    pub open spec fn wf(self) -> bool {
        &&& self.runtime_info.wf()
        &&& self.provision_info.wf()
        &&& self.peer_info.wf()
        &&& self.session@.len() == MAX_SPDM_SESSION_COUNT
        &&& forall|i: int| 0 <= i < MAX_SPDM_SESSION_COUNT ==> self.session@[i].wf()
    }

    /// Whether some session record carries `session_id`.
    pub open spec fn spec_has_session(self, session_id: u32) -> bool {
        exists|i: int|
            0 <= i < self.session@.len() && self.session@[i].session_id == session_id
                && self.session@[i].spec_is_active()
    }

    /// The set of live session ids.
    pub open spec fn spec_active_ids(self) -> Set<u32> {
        Set::new(|id: u32| self.spec_has_session(id))
    }

    /// A context as `new` hands it out: nothing negotiated, empty
    /// transcripts, all session records fresh, no peer certificates.
    pub open spec fn spec_initial(self, config_info: SpdmConfigInfo,
        provision_info: SpdmProvisionInfo) -> bool {
        &&& self.config_info == config_info
        &&& self.provision_info == provision_info
        &&& self.negotiate_info.spec_unselected()
        &&& self.runtime_info.message_a@ == Seq::<u8>::empty()
        &&& self.runtime_info.message_mut_b@ == Seq::<u8>::empty()
        &&& self.runtime_info.last_session_id is None
        &&& !self.runtime_info.need_measurement_summary_hash
        &&& self.runtime_info.local_used_cert_chain_slot_id == 0
        &&& forall|i: int| 0 <= i < MAX_SPDM_SESSION_COUNT ==> self.session@[i].spec_fresh()
        &&& self.peer_info.peer_cert_chain@.len() == SPDM_MAX_SLOT_NUMBER
        &&& forall|i: int|
            0 <= i < SPDM_MAX_SLOT_NUMBER ==> self.peer_info.peer_cert_chain@[i] is None
    }

    pub fn new(config_info: SpdmConfigInfo, provision_info: SpdmProvisionInfo) -> (r: SpdmContext)
        requires
            provision_info.wf(),
        ensures
            r.wf(),
            r.spec_initial(config_info, provision_info),
    {
        let mut session: Vec<SpdmSession> = Vec::new();
        let mut i: usize = 0;
        while i < MAX_SPDM_SESSION_COUNT
            invariant
                i <= MAX_SPDM_SESSION_COUNT,
                session@.len() == i,
                forall|j: int| 0 <= j < i ==> session@[j].spec_fresh(),
                forall|j: int| 0 <= j < i ==> session@[j].wf(),
            decreases MAX_SPDM_SESSION_COUNT - i,
        {
            session.push(SpdmSession::new());
            i = i + 1;
        }
        let mut peer_cert_chain: Vec<Option<SpdmCertChainBuffer>> = Vec::new();
        let mut j: usize = 0;
        while j < SPDM_MAX_SLOT_NUMBER
            invariant
                j <= SPDM_MAX_SLOT_NUMBER,
                peer_cert_chain@.len() == j,
                forall|k: int| 0 <= k < j ==> peer_cert_chain@[k] is None,
            decreases SPDM_MAX_SLOT_NUMBER - j,
        {
            peer_cert_chain.push(None);
            j = j + 1;
        }
        SpdmContext {
            negotiate_info: SpdmNegotiateInfo::new(),
            config_info,
            runtime_info: SpdmRuntimeInfo {
                message_a: Vec::new(),
                message_mut_b: Vec::new(),
                need_measurement_summary_hash: false,
                last_session_id: None,
                local_used_cert_chain_slot_id: 0,
            },
            provision_info,
            peer_info: SpdmPeerInfo { peer_cert_chain },
            session,
        }
    }

    /// Index of the record carrying `session_id`, if any is live
    /// under it.
    pub fn find_session_index(&self, session_id: u32) -> (r: Option<usize>)
        requires
            self.wf(),
        ensures
            match r {
                Some(i) => i < self.session@.len() && self.session@[i as int].session_id
                    == session_id && self.session@[i as int].spec_is_active()
                    && self.spec_has_session(session_id),
                None => !self.spec_has_session(session_id),
            },
    {
        let mut i: usize = 0;
        while i < self.session.len()
            invariant
                self.wf(),
                i <= self.session@.len(),
                forall|j: int|
                    0 <= j < i ==> !(self.session@[j].session_id == session_id
                        && self.session@[j].spec_is_active()),
            decreases self.session@.len() - i,
        {
            if self.session[i].session_id == session_id && self.session[i].session_id
                != INVALID_SESSION_ID {
                return Some(i);
            }
            i = i + 1;
        }
        None
    }

    /// Whether a live session carries `session_id`.
    pub fn has_session(&self, session_id: u32) -> (r: bool)
        requires
            self.wf(),
        ensures
            r == self.spec_has_session(session_id),
    {
        self.find_session_index(session_id).is_some()
    }

    /// Lifecycle state of the session carrying `session_id`, if one
    /// does.
    pub fn session_state_of(&self, session_id: u32) -> (r: Option<SpdmSessionState>)
        requires
            self.wf(),
        ensures
            match r {
                Some(st) => exists|i: int|
                    0 <= i < self.session@.len() && self.session@[i].session_id == session_id
                        && self.session@[i].spec_is_active() && self.session@[i].session_state
                        == st,
                None => !self.spec_has_session(session_id),
            },
    {
        match self.find_session_index(session_id) {
            Some(i) => Some(self.session[i].session_state),
            None => None,
        }
    }

    /// Index of the first free session record, if any.
    pub fn find_free_session_index(&self) -> (r: Option<usize>)
        requires
            self.wf(),
        ensures
            match r {
                Some(i) => i < self.session@.len() && !self.session@[i as int].spec_is_active(),
                None => forall|j: int|
                    0 <= j < self.session@.len() ==> self.session@[j].spec_is_active(),
            },
    {
        let mut i: usize = 0;
        while i < self.session.len()
            invariant
                self.wf(),
                i <= self.session@.len(),
                forall|j: int| 0 <= j < i ==> self.session@[j].spec_is_active(),
            decreases self.session@.len() - i,
        {
            if self.session[i].session_id == INVALID_SESSION_ID {
                return Some(i);
            }
            i = i + 1;
        }
        None
    }

    /// Whether some live session's requester half equals `half`.
    pub open spec fn spec_req_half_in_use(self, half: u16) -> bool {
        exists|i: int|
            0 <= i < self.session@.len() && self.session@[i].spec_is_active() && (
            self.session@[i].session_id & 0xFFFF) as u16 == half
    }

    fn req_half_in_use(&self, half: u16) -> (r: bool)
        requires
            self.wf(),
        ensures
            r == self.spec_req_half_in_use(half),
    {
        let mut i: usize = 0;
        while i < self.session.len()
            invariant
                self.wf(),
                i <= self.session@.len(),
                forall|j: int|
                    0 <= j < i ==> !(self.session@[j].spec_is_active() && (
                    self.session@[j].session_id & 0xFFFF) as u16 == half),
            decreases self.session@.len() - i,
        {
            if self.session[i].session_id != INVALID_SESSION_ID && (self.session[i].session_id
                & 0xFFFF) as u16 == half {
                return true;
            }
            i = i + 1;
        }
        false
    }

    /// A fresh requester half-session id: non-zero, not colliding with
    /// any live session; fails with `SessionNumberExceeded` when no
    /// session slot is free.
    pub fn get_next_half_session_id(&self, is_requester: bool) -> (r: SpdmResult<u16>)
        requires
            self.wf(),
            is_requester,
        ensures
            match r {
                Ok(half) => half != 0 && !self.spec_req_half_in_use(half) && !(forall|j: int|
                    0 <= j < self.session@.len() ==> self.session@[j].spec_is_active()),
                Err(e) => e == SpdmStatus::SessionNumberExceeded && (forall|j: int|
                    0 <= j < self.session@.len() ==> self.session@[j].spec_is_active()),
            },
    {
        let free_idx: usize = match self.find_free_session_index() {
            Some(i) => i,
            None => { return Err(SpdmStatus::SessionNumberExceeded); },
        };
        assert(!self.session@[free_idx as int].spec_is_active());
        // At most MAX_SPDM_SESSION_COUNT halves are in use, so among
        // MAX_SPDM_SESSION_COUNT + 1 candidates one is always free.
        let mut off: usize = 0;
        while off <= MAX_SPDM_SESSION_COUNT
            invariant
                self.wf(),
                off <= MAX_SPDM_SESSION_COUNT + 1,
                free_idx < self.session@.len(),
                !self.session@[free_idx as int].spec_is_active(),
                forall|o: int|
                    0 <= o < off ==> #[trigger] self.spec_req_half_in_use(
                        (INITIAL_SESSION_ID - o) as u16,
                    ),
            decreases MAX_SPDM_SESSION_COUNT + 1 - off,
        {
            let cand: u16 = INITIAL_SESSION_ID - (off as u16);
            if !self.req_half_in_use(cand) {
                assert(free_idx < self.session@.len() && !self.session@[
                    free_idx as int
                ].spec_is_active());
                return Ok(cand);
            }
            off = off + 1;
        }
        // Unreachable: five distinct candidates cannot all collide
        // with at most four live sessions.
        proof {
            lemma_candidate_free(*self);
        }
        Err(SpdmStatus::SessionNumberExceeded)
    }
}

/// With at most `MAX_SPDM_SESSION_COUNT` live sessions, at least one
/// of the candidate halves `INITIAL_SESSION_ID - 0 ..=
/// INITIAL_SESSION_ID - MAX_SPDM_SESSION_COUNT` is free.
proof fn lemma_candidate_free(ctx: SpdmContext)
    requires
        ctx.wf(),
    ensures
        exists|off: int|
            0 <= off <= MAX_SPDM_SESSION_COUNT && !(#[trigger] ctx.spec_req_half_in_use(
                (INITIAL_SESSION_ID - off) as u16,
            )),
{
    if forall|off: int|
        0 <= off <= MAX_SPDM_SESSION_COUNT ==> #[trigger] ctx.spec_req_half_in_use(
            (INITIAL_SESSION_ID - off) as u16,
        ) {
        let f = |off: int|
            choose|i: int|
                0 <= i < ctx.session@.len() && ctx.session@[i].spec_is_active() && (
                ctx.session@[i].session_id & 0xFFFF) as u16 == (INITIAL_SESSION_ID - off) as u16;
        assert forall|off: int| 0 <= off <= MAX_SPDM_SESSION_COUNT implies 0 <= #[trigger] f(off)
            < MAX_SPDM_SESSION_COUNT && (ctx.session@[f(off)].session_id & 0xFFFF) as u16 == (
        INITIAL_SESSION_ID - off) as u16 by {
            assert(ctx.spec_req_half_in_use((INITIAL_SESSION_ID - off) as u16));
            let i = choose|i: int|
                0 <= i < ctx.session@.len() && ctx.session@[i].spec_is_active() && (
                ctx.session@[i].session_id & 0xFFFF) as u16 == (INITIAL_SESSION_ID - off) as u16;
            assert(f(off) == i);
        }
        // Five offsets map to five distinct indices among only four
        // session records: each record has a single requester half,
        // and the five candidate halves are pairwise distinct.
        let i0 = f(0);
        let i1 = f(1);
        let i2 = f(2);
        let i3 = f(3);
        let i4 = f(4);
        assert(false);
    }
}

} // verus!
