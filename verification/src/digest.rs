//! GET_DIGESTS request payload and the layout of the DIGESTS
//! response an encapsulated digest responder serializes.

use vstd::prelude::*;

use crate::codec::Reader;
use crate::common::SpdmContext;
use crate::protocol::SPDM_MAX_SLOT_NUMBER;
use crate::protocol::SpdmCertChainBuffer;

verus! {

/// GET_DIGESTS carries two reserved parameter bytes and nothing else.
#[derive(Clone, Copy, Debug, PartialEq, Eq, Structural)]
pub struct SpdmGetDigestsRequestPayload {}

impl SpdmGetDigestsRequestPayload {
    /// Payload recovered from `b` at `start`.
    pub open spec fn spec_read_at(b: Seq<u8>, start: int) -> Option<SpdmGetDigestsRequestPayload> {
        if start + 2 <= b.len() {
            Some(SpdmGetDigestsRequestPayload {})
        } else {
            None
        }
    }

    pub fn spdm_read(_context: &SpdmContext, r: &mut Reader) -> (res: Option<
        SpdmGetDigestsRequestPayload,
    >)
        requires
            old(r).wf(),
        ensures
            final(r).wf(),
            final(r).data_spec() == old(r).data_spec(),
            match Self::spec_read_at(old(r).data_spec(), old(r).used_spec()) {
                Some(p) => res == Some(p) && final(r).used_spec() == old(r).used_spec() + 2,
                None => res == None::<SpdmGetDigestsRequestPayload>,
            },
    {
        if r.read_u8().is_none() {
            return None;
        }
        if r.read_u8().is_none() {
            return None;
        }
        Some(SpdmGetDigestsRequestPayload {})
    }
}

/// The wire bit of a certificate slot in the DIGESTS slot mask.
pub open spec fn spec_slot_bit(i: int) -> u8 {
    if i == 0 {
        0x01
    } else if i == 1 {
        0x02
    } else if i == 2 {
        0x04
    } else if i == 3 {
        0x08
    } else if i == 4 {
        0x10
    } else if i == 5 {
        0x20
    } else if i == 6 {
        0x40
    } else {
        0x80
    }
}

pub fn slot_bit(i: usize) -> (r: u8)
    requires
        i < SPDM_MAX_SLOT_NUMBER,
    ensures
        r == spec_slot_bit(i as int),
{
    if i == 0 {
        0x01
    } else if i == 1 {
        0x02
    } else if i == 2 {
        0x04
    } else if i == 3 {
        0x08
    } else if i == 4 {
        0x10
    } else if i == 5 {
        0x20
    } else if i == 6 {
        0x40
    } else {
        0x80
    }
}

/// Slot-presence mask over the first `n` slots: bit `i` is set exactly
/// when slot `i` holds a materialized chain.
pub open spec fn spec_slot_mask_upto(chains: Seq<Option<SpdmCertChainBuffer>>, n: int) -> u8
    decreases n,
{
    if n <= 0 {
        0
    } else {
        spec_slot_mask_upto(chains, n - 1) | (if chains[n - 1] is Some {
            spec_slot_bit(n - 1)
        } else {
            0
        })
    }
}

/// How many of the first `n` slots hold a materialized chain.
pub open spec fn spec_count_present(chains: Seq<Option<SpdmCertChainBuffer>>, n: int) -> int
    decreases n,
{
    if n <= 0 {
        0
    } else {
        spec_count_present(chains, n - 1) + (if chains[n - 1] is Some {
            1int
        } else {
            0int
        })
    }
}

/// Each slot adds at most one to the count.
pub proof fn lemma_count_present_bound(chains: Seq<Option<SpdmCertChainBuffer>>, n: int)
    requires
        0 <= n,
    ensures
        0 <= spec_count_present(chains, n) <= n,
    decreases n,
{
    if n > 0 {
        lemma_count_present_bound(chains, n - 1);
    }
}

/// Digest area of a DIGESTS response over the first `n` slots: one
/// entry of `ds[i]` for every present slot, in ascending slot order.
pub open spec fn spec_digest_area(
    chains: Seq<Option<SpdmCertChainBuffer>>,
    ds: Seq<Seq<u8>>,
    n: int,
) -> Seq<u8>
    decreases n,
{
    if n <= 0 {
        Seq::<u8>::empty()
    } else {
        spec_digest_area(chains, ds, n - 1) + (if chains[n - 1] is Some {
            ds[n - 1]
        } else {
            Seq::<u8>::empty()
        })
    }
}

/// With no chain present in the first `n` slots, the mask, the count
/// and the digest area over them are all empty.
pub proof fn lemma_all_absent(chains: Seq<Option<SpdmCertChainBuffer>>, ds: Seq<Seq<u8>>, n: int)
    requires
        0 <= n,
        forall|i: int| 0 <= i < n ==> (#[trigger] chains[i]) is None,
    ensures
        spec_slot_mask_upto(chains, n) == 0,
        spec_count_present(chains, n) == 0,
        spec_digest_area(chains, ds, n) == Seq::<u8>::empty(),
    decreases n,
{
    if n > 0 {
        lemma_all_absent(chains, ds, n - 1);
        assert(0u8 | 0u8 == 0u8) by (bit_vector);
        assert(spec_digest_area(chains, ds, n) =~= Seq::<u8>::empty());
    }
}

/// When every digest of a present slot is `hash` bytes, the digest
/// area over `n` slots is `hash * count` bytes.
pub proof fn lemma_digest_area_len(
    chains: Seq<Option<SpdmCertChainBuffer>>,
    ds: Seq<Seq<u8>>,
    n: int,
    hash: int,
)
    requires
        0 <= n,
        forall|i: int| 0 <= i < n && chains[i] is Some ==> #[trigger] ds[i].len() == hash,
    ensures
        spec_digest_area(chains, ds, n).len() == hash * spec_count_present(chains, n),
    decreases n,
{
    if n > 0 {
        lemma_digest_area_len(chains, ds, n - 1, hash);
        let c1 = spec_count_present(chains, n - 1);
        let d: int = if chains[n - 1] is Some {
            1
        } else {
            0
        };
        assert(spec_count_present(chains, n) == c1 + d);
        assert(hash * (c1 + d) == hash * c1 + hash * d) by (nonlinear_arith);
    }
}

} // verus!
