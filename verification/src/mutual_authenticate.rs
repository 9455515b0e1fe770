//! Mutual-authentication dispatch: decides, from the session's
//! recorded attributes, whether the key-exchange signature already
//! satisfied mutual authentication or an encapsulated exchange must
//! be driven before it is complete. The encapsulated turns themselves
//! run over the transport, outside this crate; the caller performs
//! exactly one such exchange when told to.

use vstd::prelude::*;

use crate::crypto::SpdmCryptoProvider;
use crate::error::SpdmResult;
use crate::error::SpdmStatus;
use crate::message::SpdmKeyExchangeMutAuthAttributes;
use crate::requester::RequesterContext;

verus! {

/// What a mutual-authentication request resolves to.
#[derive(Clone, Copy, Debug, PartialEq, Eq, Structural)]
pub enum SpdmMutAuthOutcome {
    /// Already satisfied by the key-exchange signature; no
    /// encapsulated traffic is owed.
    Satisfied,
    /// One encapsulated exchange must be driven, in the basic
    /// encapsulated-request flow.
    EncapRequestFlow,
    /// One encapsulated exchange must be driven, in the optimized
    /// GET_DIGESTS flow.
    GetDigestsFlow,
}

impl<C: SpdmCryptoProvider> RequesterContext<C> {
    /// Resolves mutual authentication for the session: fails with
    /// `InvalidStateLocal` when no such session is live, succeeds at
    /// once when the peer asked for signature-only mutual
    /// authentication, names the encapsulated flow to drive when the
    /// peer asked for one, and fails with `InvalidMsgField` when the
    /// peer never asked for mutual authentication at all.
    pub fn session_based_mutual_authenticate(&mut self, session_id: u32) -> (r: SpdmResult<
        SpdmMutAuthOutcome,
    >)
        requires
            old(self).common.wf(),
        ensures
            *final(self) == *old(self),
            match r {
                Ok(outcome) => exists|i: int|
                    0 <= i < old(self).common.session@.len()
                        && #[trigger] old(self).common.session@[i].spec_is_active() && old(
                        self,
                    ).common.session@[i].session_id == session_id && match outcome {
                        SpdmMutAuthOutcome::Satisfied => old(self).common.session@[i]
                            .mut_auth_requested
                            == SpdmKeyExchangeMutAuthAttributes::MutAuthReq,
                        SpdmMutAuthOutcome::EncapRequestFlow => old(self).common.session@[i]
                            .mut_auth_requested
                            == SpdmKeyExchangeMutAuthAttributes::MutAuthReqWithEncapRequest,
                        SpdmMutAuthOutcome::GetDigestsFlow => old(self).common.session@[i]
                            .mut_auth_requested
                            == SpdmKeyExchangeMutAuthAttributes::MutAuthReqWithGetDigests,
                    },
                Err(e) => if e == SpdmStatus::InvalidStateLocal {
                    !old(self).common.spec_has_session(session_id)
                } else {
                    e == SpdmStatus::InvalidMsgField && exists|i: int|
                        0 <= i < old(self).common.session@.len()
                            && #[trigger] old(self).common.session@[i].spec_is_active() && old(
                            self,
                        ).common.session@[i].session_id == session_id && old(
                            self,
                        ).common.session@[i].mut_auth_requested
                            == SpdmKeyExchangeMutAuthAttributes::NotRequested
                },
            },
    {
        let idx = match self.common.find_session_index(session_id) {
            Some(i) => i,
            None => { return Err(SpdmStatus::InvalidStateLocal); },
        };
        let mut_auth_requested = self.common.session[idx].get_mut_auth_requested();
        match mut_auth_requested {
            SpdmKeyExchangeMutAuthAttributes::MutAuthReq => Ok(SpdmMutAuthOutcome::Satisfied),
            SpdmKeyExchangeMutAuthAttributes::MutAuthReqWithEncapRequest => Ok(
                SpdmMutAuthOutcome::EncapRequestFlow,
            ),
            SpdmKeyExchangeMutAuthAttributes::MutAuthReqWithGetDigests => Ok(
                SpdmMutAuthOutcome::GetDigestsFlow,
            ),
            SpdmKeyExchangeMutAuthAttributes::NotRequested => Err(SpdmStatus::InvalidMsgField),
        }
    }
}

} // verus!
