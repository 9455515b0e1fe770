//! GET_VERSION request and VERSION response payloads. These messages
//! run before any session exists; their bytes land in the connection
//! transcript that key exchange later binds.

use vstd::prelude::*;

use crate::codec::Reader;
use crate::codec::Writer;
use crate::common::SpdmContext;
use crate::protocol::MAX_SPDM_VERSION_COUNT;
use crate::protocol::SpdmVersion;

verus! {

/// GET_VERSION carries two reserved parameter bytes and nothing else.
#[derive(Clone, Copy, Debug, PartialEq, Eq, Structural)]
pub struct SpdmGetVersionRequestPayload {}

impl SpdmGetVersionRequestPayload {
    /// The payload's wire bytes.
    pub open spec fn spec_encode(self) -> Seq<u8> {
        seq![0u8, 0u8]
    }

    /// Payload recovered from `b` at `start`.
    pub open spec fn spec_read_at(b: Seq<u8>, start: int) -> Option<
        SpdmGetVersionRequestPayload,
    > {
        if start + 2 <= b.len() {
            Some(SpdmGetVersionRequestPayload {})
        } else {
            None
        }
    }

    pub fn spdm_encode(&self, _context: &SpdmContext, bytes: &mut Writer) -> (r: bool)
        requires
            old(bytes).wf(),
        ensures
            final(bytes).wf(),
            final(bytes).capacity_spec() == old(bytes).capacity_spec(),
            if old(bytes).data_spec().len() + 2 <= old(bytes).capacity_spec() {
                r && final(bytes).data_spec() == old(bytes).data_spec() + self.spec_encode()
            } else {
                !r && final(bytes).data_spec() == old(bytes).data_spec()
            },
    {
        if bytes.capacity() - bytes.used() < 2 {
            return false;
        }
        let ghost before = bytes.data_spec();
        bytes.write_u8(0);
        bytes.write_u8(0);
        assert(bytes.data_spec() =~= before + self.spec_encode());
        true
    }

    pub fn spdm_read(_context: &SpdmContext, r: &mut Reader) -> (res: Option<
        SpdmGetVersionRequestPayload,
    >)
        requires
            old(r).wf(),
        ensures
            final(r).wf(),
            final(r).data_spec() == old(r).data_spec(),
            match Self::spec_read_at(old(r).data_spec(), old(r).used_spec()) {
                Some(p) => res == Some(p) && final(r).used_spec() == old(r).used_spec() + 2,
                None => res == None::<SpdmGetVersionRequestPayload>,
            },
    {
        if r.read_u8().is_none() {
            return None;
        }
        if r.read_u8().is_none() {
            return None;
        }
        Some(SpdmGetVersionRequestPayload {})
    }
}

/// One VERSION response entry: an update field and a version.
#[derive(Clone, Copy, Debug, PartialEq, Eq, Structural)]
pub struct SpdmVersionStruct {
    pub update: u8,
    pub version: SpdmVersion,
}

impl SpdmVersionStruct {
    /// The entry's two wire bytes.
    pub open spec fn spec_encode(self) -> Seq<u8> {
        seq![self.update, self.version.spec_u8()]
    }

    /// Entry recovered from `b` at `start`; the version byte must
    /// decode.
    pub open spec fn spec_read_at(b: Seq<u8>, start: int) -> Option<SpdmVersionStruct> {
        if start + 2 <= b.len() {
            match SpdmVersion::spec_from_u8(b[start + 1]) {
                Some(version) => Some(SpdmVersionStruct { update: b[start], version }),
                None => None,
            }
        } else {
            None
        }
    }

    pub fn encode(&self, bytes: &mut Writer) -> (r: bool)
        requires
            old(bytes).wf(),
        ensures
            final(bytes).wf(),
            final(bytes).capacity_spec() == old(bytes).capacity_spec(),
            if old(bytes).data_spec().len() + 2 <= old(bytes).capacity_spec() {
                r && final(bytes).data_spec() == old(bytes).data_spec() + self.spec_encode()
            } else {
                !r && final(bytes).data_spec() == old(bytes).data_spec()
            },
    {
        if bytes.capacity() - bytes.used() < 2 {
            return false;
        }
        let ghost before = bytes.data_spec();
        bytes.write_u8(self.update);
        bytes.write_u8(self.version.get_u8());
        assert(bytes.data_spec() =~= before + self.spec_encode());
        true
    }

    pub fn read(r: &mut Reader) -> (res: Option<SpdmVersionStruct>)
        requires
            old(r).wf(),
        ensures
            final(r).wf(),
            final(r).data_spec() == old(r).data_spec(),
            match Self::spec_read_at(old(r).data_spec(), old(r).used_spec()) {
                Some(p) => res == Some(p) && final(r).used_spec() == old(r).used_spec() + 2,
                None => res == None::<SpdmVersionStruct>,
            },
    {
        let update = match r.read_u8() {
            Some(u) => u,
            None => { return None; },
        };
        let vb = match r.read_u8() {
            Some(v) => v,
            None => { return None; },
        };
        match SpdmVersion::from_u8(vb) {
            Some(version) => Some(SpdmVersionStruct { update, version }),
            None => None,
        }
    }
}

/// Entries `vs[0] .. vs[n-1]` laid out back to back.
pub open spec fn spec_encode_version_entries(vs: Seq<SpdmVersionStruct>, n: int) -> Seq<u8>
    decreases n,
{
    if n <= 0 {
        Seq::<u8>::empty()
    } else {
        spec_encode_version_entries(vs, n - 1) + vs[n - 1].spec_encode()
    }
}

/// `n` entries parsed back to back from `b` at `start`.
pub open spec fn spec_read_version_entries(b: Seq<u8>, start: int, n: int) -> Option<
    Seq<SpdmVersionStruct>,
>
    decreases n,
{
    if n <= 0 {
        Some(Seq::<SpdmVersionStruct>::empty())
    } else {
        match spec_read_version_entries(b, start, n - 1) {
            Some(prefix) => match SpdmVersionStruct::spec_read_at(b, start + 2 * (n - 1)) {
                Some(e) => Some(prefix.push(e)),
                None => None,
            },
            None => None,
        }
    }
}

/// VERSION response payload: two parameter bytes, a reserved byte, an
/// entry count, then the entries. The count byte may exceed the table
/// the payload can carry; only the first `MAX_SPDM_VERSION_COUNT`
/// entries are serialized or parsed, as many as the count names.
#[derive(Clone, Debug)]
pub struct SpdmVersionResponsePayload {
    pub version_number_entry_count: u8,
    pub versions: Vec<SpdmVersionStruct>,
}

impl SpdmVersionResponsePayload {
    pub open spec fn wf(self) -> bool {
        self.versions@.len() == MAX_SPDM_VERSION_COUNT
    }

    /// How many entries travel for a given count byte.
    pub open spec fn spec_entry_limit(count: u8) -> int {
        if count as int <= MAX_SPDM_VERSION_COUNT {
            count as int
        } else {
            MAX_SPDM_VERSION_COUNT as int
        }
    }

    /// The payload's wire bytes.
    pub open spec fn spec_encode(self) -> Seq<u8> {
        seq![0u8, 0u8, 0u8, self.version_number_entry_count] + spec_encode_version_entries(
            self.versions@,
            Self::spec_entry_limit(self.version_number_entry_count),
        )
    }

    /// Count byte and entries recovered from `b` at `start`; entries
    /// beyond the count keep their starting value.
    pub open spec fn spec_read_at(b: Seq<u8>, start: int) -> Option<(u8, Seq<SpdmVersionStruct>)> {
        if start + 4 <= b.len() {
            let count = b[start + 3];
            match spec_read_version_entries(b, start + 4, Self::spec_entry_limit(count)) {
                Some(entries) => Some((count, entries)),
                None => None,
            }
        } else {
            None
        }
    }

    pub fn spdm_encode(&self, _context: &SpdmContext, bytes: &mut Writer) -> (r: bool)
        requires
            old(bytes).wf(),
            self.wf(),
        ensures
            final(bytes).wf(),
            final(bytes).capacity_spec() == old(bytes).capacity_spec(),
            if old(bytes).data_spec().len() + self.spec_encode().len() <= old(
                bytes,
            ).capacity_spec() {
                r && final(bytes).data_spec() == old(bytes).data_spec() + self.spec_encode()
            } else {
                !r && final(bytes).data_spec() == old(bytes).data_spec()
            },
    {
        let limit: usize = if (self.version_number_entry_count as usize)
            <= MAX_SPDM_VERSION_COUNT {
            self.version_number_entry_count as usize
        } else {
            MAX_SPDM_VERSION_COUNT
        };
        proof {
            lemma_version_entries_len(self.versions@, limit as int);
        }
        if bytes.capacity() - bytes.used() < 4 + 2 * limit {
            return false;
        }
        let ghost before = bytes.data_spec();
        bytes.write_u8(0);
        bytes.write_u8(0);
        bytes.write_u8(0);
        bytes.write_u8(self.version_number_entry_count);
        let mut i: usize = 0;
        while i < limit
            invariant
                i <= limit,
                limit <= self.versions@.len(),
                self.versions@.len() == MAX_SPDM_VERSION_COUNT,
                bytes.wf(),
                bytes.capacity_spec() == old(bytes).capacity_spec(),
                before.len() + 4 + 2 * limit <= bytes.capacity_spec(),
                bytes.data_spec() == before + seq![
                    0u8,
                    0u8,
                    0u8,
                    self.version_number_entry_count,
                ] + spec_encode_version_entries(self.versions@, i as int),
            decreases limit - i,
        {
            proof {
                lemma_version_entries_len(self.versions@, i as int);
            }
            self.versions[i].encode(bytes);
            assert(bytes.data_spec() =~= before + seq![
                0u8,
                0u8,
                0u8,
                self.version_number_entry_count,
            ] + spec_encode_version_entries(self.versions@, i + 1));
            i = i + 1;
        }
        assert(bytes.data_spec() =~= before + self.spec_encode());
        true
    }

    pub fn spdm_read(_context: &SpdmContext, r: &mut Reader) -> (res: Option<
        SpdmVersionResponsePayload,
    >)
        requires
            old(r).wf(),
        ensures
            final(r).wf(),
            final(r).data_spec() == old(r).data_spec(),
            match Self::spec_read_at(old(r).data_spec(), old(r).used_spec()) {
                Some((count, entries)) => res matches Some(p) && p.wf()
                    && p.version_number_entry_count == count && p.versions@.subrange(
                    0,
                    Self::spec_entry_limit(count),
                ) == entries && (forall|i: int|
                    Self::spec_entry_limit(count) <= i < MAX_SPDM_VERSION_COUNT
                        ==> p.versions@[i] == (SpdmVersionStruct {
                        update: 0,
                        version: SpdmVersion::SpdmVersion10,
                    })) && final(r).used_spec() == old(r).used_spec() + 4 + 2
                    * Self::spec_entry_limit(count),
                None => res == None::<SpdmVersionResponsePayload>,
            },
    {
        if r.read_u8().is_none() {
            return None;
        }
        if r.read_u8().is_none() {
            return None;
        }
        if r.read_u8().is_none() {
            return None;
        }
        let count = match r.read_u8() {
            Some(c) => c,
            None => { return None; },
        };
        let limit: usize = if (count as usize) <= MAX_SPDM_VERSION_COUNT {
            count as usize
        } else {
            MAX_SPDM_VERSION_COUNT
        };
        let mut versions: Vec<SpdmVersionStruct> = Vec::new();
        let mut i: usize = 0;
        while i < limit
            invariant
                i <= limit,
                limit == Self::spec_entry_limit(count),
                old(r).used_spec() + 4 <= old(r).data_spec().len(),
                count == old(r).data_spec()[old(r).used_spec() + 3],
                r.wf(),
                r.data_spec() == old(r).data_spec(),
                r.used_spec() == old(r).used_spec() + 4 + 2 * i,
                versions@.len() == i,
                spec_read_version_entries(
                    old(r).data_spec(),
                    old(r).used_spec() + 4,
                    i as int,
                ) == Some(versions@),
            decreases limit - i,
        {
            let e = match SpdmVersionStruct::read(r) {
                Some(e) => e,
                None => {
                    proof {
                        lemma_version_entries_read_fails(
                            old(r).data_spec(),
                            old(r).used_spec() + 4,
                            i as int,
                            limit as int,
                        );
                    }
                    return None;
                },
            };
            versions.push(e);
            i = i + 1;
        }
        while i < MAX_SPDM_VERSION_COUNT
            invariant
                limit <= i <= MAX_SPDM_VERSION_COUNT,
                limit == Self::spec_entry_limit(count),
                old(r).used_spec() + 4 <= old(r).data_spec().len(),
                count == old(r).data_spec()[old(r).used_spec() + 3],
                versions@.len() == i,
                r.wf(),
                r.data_spec() == old(r).data_spec(),
                r.used_spec() == old(r).used_spec() + 4 + 2 * limit,
                spec_read_version_entries(
                    old(r).data_spec(),
                    old(r).used_spec() + 4,
                    limit as int,
                ) == Some(versions@.subrange(0, limit as int)),
                forall|j: int|
                    limit <= j < i ==> versions@[j] == (SpdmVersionStruct {
                        update: 0,
                        version: SpdmVersion::SpdmVersion10,
                    }),
            decreases MAX_SPDM_VERSION_COUNT - i,
        {
            versions.push(SpdmVersionStruct { update: 0, version: SpdmVersion::SpdmVersion10 });
            assert(versions@.subrange(0, limit as int) =~= versions@.drop_last().subrange(
                0,
                limit as int,
            ));
            i = i + 1;
        }
        Some(SpdmVersionResponsePayload { version_number_entry_count: count, versions })
    }
}

/// `n` entries occupy exactly `2 * n` bytes.
proof fn lemma_version_entries_len(vs: Seq<SpdmVersionStruct>, n: int)
    requires
        0 <= n,
    ensures
        spec_encode_version_entries(vs, n).len() == 2 * n,
    decreases n,
{
    if n > 0 {
        lemma_version_entries_len(vs, n - 1);
    }
}

/// If entry `i` cannot be parsed, neither can any longer prefix.
proof fn lemma_version_entries_read_fails(b: Seq<u8>, start: int, i: int, n: int)
    requires
        0 <= i < n,
        spec_read_version_entries(b, start, i) is Some,
        SpdmVersionStruct::spec_read_at(b, start + 2 * i) is None,
    ensures
        spec_read_version_entries(b, start, n) is None,
    decreases n,
{
    if n - 1 > i {
        lemma_version_entries_read_fails(b, start, i, n - 1);
    }
}

} // verus!
