//! An appending byte writer for building wire payloads: little/big-endian
//! primitive writes into a growing buffer.
use vstd::prelude::*;

verus! {

/// The two's-complement byte of a signed value.
pub open spec fn i8_to_byte(v: i8) -> u8 {
    if v >= 0 {
        v as u8
    } else {
        (v as int + 256) as u8
    }
}

/// A 16-bit value as two little-endian bytes.
pub open spec fn le16_bytes(v: u16) -> Seq<u8> {
    seq![(v % 256) as u8, (v / 256) as u8]
}

/// A 16-bit value as two big-endian bytes.
pub open spec fn be16_bytes(v: u16) -> Seq<u8> {
    seq![(v / 256) as u8, (v % 256) as u8]
}

/// A 32-bit value as four little-endian bytes.
pub open spec fn le32_bytes(v: u32) -> Seq<u8> {
    seq![
        (v % 256) as u8,
        ((v / 256) % 256) as u8,
        ((v / 65536) % 256) as u8,
        (v / 16777216) as u8,
    ]
}

/// The writes this writer makes cannot fail; the type stands where
/// fallible writers once reported their errors.
#[derive(Debug, Clone, Copy, PartialEq, Eq, Structural)]
pub enum SliceWriterError {
    BufferFull,
}

/// Byte writer appending to an owned buffer.
pub struct SliceWriter {
    pub out: Vec<u8>,
}

impl SliceWriter {
    pub fn new() -> (r: SliceWriter)
        ensures
            r.out@ == Seq::<u8>::empty(),
    {
        SliceWriter { out: Vec::new() }
    }

    /// How many bytes were written so far.
    pub fn len(&self) -> (r: usize)
        ensures
            r == self.out@.len(),
    {
        self.out.len()
    }

    /// The bytes written so far.
    pub fn into_bytes(self) -> (r: Vec<u8>)
        ensures
            r == self.out,
    {
        self.out
    }

    /// Appends one byte.
    pub fn write_u8(&mut self, value: u8)
        ensures
            final(self).out@ == old(self).out@.push(value),
    {
        self.out.push(value);
    }

    /// Appends a signed byte in two's complement.
    pub fn write_i8(&mut self, value: i8)
        ensures
            final(self).out@ == old(self).out@.push(i8_to_byte(value)),
    {
        let b: u8 = if value >= 0 {
            value as u8
        } else {
            ((value as i16) + 256) as u8
        };
        self.out.push(b);
    }

    /// Appends a 16-bit value, little-endian.
    pub fn write_u16_le(&mut self, value: u16)
        ensures
            final(self).out@ == old(self).out@ + le16_bytes(value),
    {
        self.out.push((value % 256) as u8);
        self.out.push((value / 256) as u8);
        proof {
            assert(self.out@ =~= old(self).out@ + le16_bytes(value));
        }
    }

    /// Appends a 16-bit value, big-endian.
    pub fn write_u16_be(&mut self, value: u16)
        ensures
            final(self).out@ == old(self).out@ + be16_bytes(value),
    {
        self.out.push((value / 256) as u8);
        self.out.push((value % 256) as u8);
        proof {
            assert(self.out@ =~= old(self).out@ + be16_bytes(value));
        }
    }

    /// Appends a 32-bit value, little-endian.
    pub fn write_u32_le(&mut self, value: u32)
        ensures
            final(self).out@ == old(self).out@ + le32_bytes(value),
    {
        self.out.push((value % 256) as u8);
        self.out.push(((value / 256) % 256) as u8);
        self.out.push(((value / 65536) % 256) as u8);
        self.out.push((value / 16777216) as u8);
        proof {
            assert(self.out@ =~= old(self).out@ + le32_bytes(value));
        }
    }

    /// Appends a run of bytes as they are.
    pub fn write_u8_array(&mut self, value: &[u8])
        ensures
            final(self).out@ == old(self).out@ + value@,
    {
        let mut i: usize = 0;
        while i < value.len()
            invariant
                i <= value@.len(),
                self.out@ =~= old(self).out@ + value@.subrange(0, i as int),
            decreases value@.len() - i,
        {
            self.out.push(value[i]);
            i = i + 1;
            proof {
                assert(value@.subrange(0, i as int) =~= value@.subrange(0, i - 1).push(
                    value@[i - 1],
                ));
            }
        }
        proof {
            assert(value@.subrange(0, value@.len() as int) =~= value@);
        }
    }

    /// Appends a run of 16-bit values, each little-endian.
    pub fn write_u16_array(&mut self, value: &[u16])
        ensures
            final(self).out@.len() == old(self).out@.len() + 2 * value@.len(),
            forall|j: int|
                0 <= j < value@.len() ==> final(self).out@.subrange(
                    old(self).out@.len() + 2 * j,
                    old(self).out@.len() + 2 * j + 2,
                ) == le16_bytes(value@[j]),
            final(self).out@.subrange(0, old(self).out@.len() as int) == old(self).out@,
    {
        let ghost base = self.out@;
        let mut i: usize = 0;
        while i < value.len()
            invariant
                i <= value@.len(),
                self.out@.len() == base.len() + 2 * i,
                self.out@.subrange(0, base.len() as int) =~= base,
                forall|j: int|
                    0 <= j < i ==> self.out@.subrange(base.len() + 2 * j, base.len() + 2 * j + 2)
                        =~= le16_bytes(value@[j]),
            decreases value@.len() - i,
        {
            let ghost before = self.out@;
            self.write_u16_le(value[i]);
            i = i + 1;
            proof {
                assert(self.out@.subrange(0, base.len() as int) =~= before.subrange(
                    0,
                    base.len() as int,
                ));
                assert forall|j: int| 0 <= j < i implies self.out@.subrange(
                    base.len() + 2 * j,
                    base.len() + 2 * j + 2,
                ) =~= le16_bytes(value@[j]) by {
                    if j < i - 1 {
                        assert(self.out@.subrange(base.len() + 2 * j, base.len() + 2 * j + 2)
                            =~= before.subrange(base.len() + 2 * j, base.len() + 2 * j + 2));
                    } else {
                        assert(self.out@.subrange(base.len() + 2 * j, base.len() + 2 * j + 2)
                            =~= le16_bytes(value@[j]));
                    }
                }
            }
        }
    }
}

} // verus!
