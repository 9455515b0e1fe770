//! Byte-level reader and writer for the wire format. The writer is a
//! bounded, append-only buffer with an explicit capacity; the reader
//! consumes a byte sequence front to back and never slices without a
//! bounds check.

use vstd::prelude::*;

verus! {

/// The value of two little-endian bytes.
pub open spec fn spec_u16_from_bytes(lo: u8, hi: u8) -> u16 {
    (lo + hi * 0x100) as u16
}

/// The two little-endian bytes of a value.
pub open spec fn spec_u16_to_bytes(v: u16) -> Seq<u8> {
    seq![(v % 0x100) as u8, (v / 0x100) as u8]
}

/// A cursor over received bytes.
pub struct Reader {
    data: Vec<u8>,
    offset: usize,
}

impl Reader {
    /// The whole byte sequence being read.
    pub closed spec fn data_spec(self) -> Seq<u8> {
        self.data@
    }

    /// How many bytes have been consumed.
    pub closed spec fn used_spec(self) -> int {
        self.offset as int
    }

    pub open spec fn wf(self) -> bool {
        self.used_spec() <= self.data_spec().len()
    }

    pub fn init(bytes: &[u8]) -> (r: Reader)
        ensures
            r.data_spec() == bytes@,
            r.used_spec() == 0,
            r.wf(),
    {
        let mut data: Vec<u8> = Vec::new();
        data.extend_from_slice(bytes);
        Reader { data, offset: 0 }
    }

    /// Bytes consumed so far.
    pub fn used(&self) -> (r: usize)
        ensures
            r == self.used_spec(),
    {
        self.offset
    }

    /// Bytes still unread.
    pub fn left(&self) -> (r: usize)
        requires
            self.wf(),
        ensures
            r == self.data_spec().len() - self.used_spec(),
    {
        self.data.len() - self.offset
    }

    /// Reads one byte, or leaves the reader unchanged when none is left.
    pub fn read_u8(&mut self) -> (r: Option<u8>)
        requires
            old(self).wf(),
        ensures
            final(self).wf(),
            final(self).data_spec() == old(self).data_spec(),
            if old(self).used_spec() + 1 <= old(self).data_spec().len() {
                r == Some(old(self).data_spec()[old(self).used_spec()])
                    && final(self).used_spec() == old(self).used_spec() + 1
            } else {
                r == None::<u8> && final(self).used_spec() == old(self).used_spec()
            },
    {
        if self.offset < self.data.len() {
            let b = self.data[self.offset];
            self.offset = self.offset + 1;
            Some(b)
        } else {
            None
        }
    }

    /// Reads a little-endian 16-bit value, or leaves the reader
    /// unchanged when fewer than two bytes are left.
    pub fn read_u16(&mut self) -> (r: Option<u16>)
        requires
            old(self).wf(),
        ensures
            final(self).wf(),
            final(self).data_spec() == old(self).data_spec(),
            if old(self).used_spec() + 2 <= old(self).data_spec().len() {
                r == Some(
                    spec_u16_from_bytes(
                        old(self).data_spec()[old(self).used_spec()],
                        old(self).data_spec()[old(self).used_spec() + 1],
                    ),
                ) && final(self).used_spec() == old(self).used_spec() + 2
            } else {
                r == None::<u16> && final(self).used_spec() == old(self).used_spec()
            },
    {
        if self.data.len() - self.offset >= 2 {
            let lo = self.data[self.offset];
            let hi = self.data[self.offset + 1];
            self.offset = self.offset + 2;
            Some((lo as u16) + (hi as u16) * 0x100)
        } else {
            None
        }
    }

    /// Reads exactly `n` bytes, or leaves the reader unchanged when
    /// fewer are left.
    pub fn read_bytes(&mut self, n: usize) -> (r: Option<Vec<u8>>)
        requires
            old(self).wf(),
        ensures
            final(self).wf(),
            final(self).data_spec() == old(self).data_spec(),
            if old(self).used_spec() + n <= old(self).data_spec().len() {
                r matches Some(v) && v@ == old(self).data_spec().subrange(
                    old(self).used_spec(),
                    old(self).used_spec() + n,
                ) && final(self).used_spec() == old(self).used_spec() + n
            } else {
                r == None::<Vec<u8>> && final(self).used_spec() == old(self).used_spec()
            },
    {
        if n <= self.data.len() - self.offset {
            let mut v: Vec<u8> = Vec::new();
            let mut i: usize = 0;
            while i < n
                invariant
                    i <= n,
                    self.offset + n <= self.data.len(),
                    v@ == self.data@.subrange(self.offset as int, self.offset + i),
                decreases n - i,
            {
                v.push(self.data[self.offset + i]);
                assert(v@ == self.data@.subrange(self.offset as int, self.offset + i + 1));
                i = i + 1;
            }
            self.offset = self.offset + n;
            Some(v)
        } else {
            None
        }
    }
}

/// A bounded, append-only output buffer.
pub struct Writer {
    data: Vec<u8>,
    capacity: usize,
}

impl Writer {
    /// The bytes written so far.
    pub closed spec fn data_spec(self) -> Seq<u8> {
        self.data@
    }

    /// The fixed capacity set at initialization.
    pub closed spec fn capacity_spec(self) -> int {
        self.capacity as int
    }

    pub open spec fn wf(self) -> bool {
        self.data_spec().len() <= self.capacity_spec()
    }

    pub fn init(capacity: usize) -> (r: Writer)
        ensures
            r.data_spec() == Seq::<u8>::empty(),
            r.capacity_spec() == capacity,
            r.wf(),
    {
        Writer { data: Vec::new(), capacity }
    }

    /// Bytes written so far.
    pub fn used(&self) -> (r: usize)
        ensures
            r == self.data_spec().len(),
    {
        self.data.len()
    }

    /// The fixed capacity.
    pub fn capacity(&self) -> (r: usize)
        ensures
            r == self.capacity_spec(),
    {
        self.capacity
    }

    /// Consumes the writer, yielding everything written.
    pub fn into_vec(self) -> (r: Vec<u8>)
        ensures
            r@ == self.data_spec(),
    {
        self.data
    }

    /// A view of everything written so far.
    pub fn used_slice(&self) -> (r: &[u8])
        ensures
            r@ == self.data_spec(),
    {
        self.data.as_slice()
    }

    /// Appends one byte; fails, changing nothing, when the buffer is full.
    pub fn write_u8(&mut self, v: u8) -> (r: bool)
        requires
            old(self).wf(),
        ensures
            final(self).wf(),
            final(self).capacity_spec() == old(self).capacity_spec(),
            if old(self).data_spec().len() + 1 <= old(self).capacity_spec() {
                r && final(self).data_spec() == old(self).data_spec().push(v)
            } else {
                !r && final(self).data_spec() == old(self).data_spec()
            },
    {
        if self.data.len() < self.capacity {
            self.data.push(v);
            true
        } else {
            false
        }
    }

    /// Appends a little-endian 16-bit value; fails, changing nothing,
    /// when both bytes would not fit.
    pub fn write_u16(&mut self, v: u16) -> (r: bool)
        requires
            old(self).wf(),
        ensures
            final(self).wf(),
            final(self).capacity_spec() == old(self).capacity_spec(),
            if old(self).data_spec().len() + 2 <= old(self).capacity_spec() {
                r && final(self).data_spec() == old(self).data_spec() + spec_u16_to_bytes(v)
            } else {
                !r && final(self).data_spec() == old(self).data_spec()
            },
    {
        if 2 <= self.capacity - self.data.len() {
            self.data.push((v % 0x100) as u8);
            self.data.push((v / 0x100) as u8);
            assert(self.data@ == old(self).data@ + spec_u16_to_bytes(v));
            true
        } else {
            false
        }
    }

    /// Appends a byte slice whole; fails, changing nothing, when it
    /// would not fit.
    pub fn append(&mut self, bytes: &[u8]) -> (r: bool)
        requires
            old(self).wf(),
        ensures
            final(self).wf(),
            final(self).capacity_spec() == old(self).capacity_spec(),
            if old(self).data_spec().len() + bytes@.len() <= old(self).capacity_spec() {
                r && final(self).data_spec() == old(self).data_spec() + bytes@
            } else {
                !r && final(self).data_spec() == old(self).data_spec()
            },
    {
        if bytes.len() <= self.capacity - self.data.len() {
            self.data.extend_from_slice(bytes);
            true
        } else {
            false
        }
    }

}

} // verus!
