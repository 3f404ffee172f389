//! A cursor over a borrowed byte slice: little/big-endian primitive
//! reads and bounded sub-slicing, failing cleanly on short input.
use vstd::prelude::*;

verus! {

/// Reading past the end of the input.
#[derive(Debug, Clone, Copy, PartialEq, Eq, Structural)]
pub enum SliceReaderError {
    UnexpectedEof,
}

/// The signed value a two's-complement byte denotes.
pub open spec fn byte_to_i8(b: u8) -> i8 {
    if b < 128 {
        b as i8
    } else {
        (b as int - 256) as i8
    }
}

/// A little-endian 16-bit read at position `pos` of `data`.
pub open spec fn le16_at(data: Seq<u8>, pos: int) -> int
    recommends
        0 <= pos,
        pos + 2 <= data.len(),
{
    data[pos] as int + 256 * (data[pos + 1] as int)
}

/// A big-endian 16-bit read at position `pos` of `data`.
pub open spec fn be16_at(data: Seq<u8>, pos: int) -> int
    recommends
        0 <= pos,
        pos + 2 <= data.len(),
{
    256 * (data[pos] as int) + data[pos + 1] as int
}

/// A little-endian 32-bit read at position `pos` of `data`.
pub open spec fn le32_at(data: Seq<u8>, pos: int) -> int
    recommends
        0 <= pos,
        pos + 4 <= data.len(),
{
    data[pos] as int + 256 * (data[pos + 1] as int) + 65536 * (data[pos + 2] as int) + 16777216 * (
    data[pos + 3] as int)
}

/// Cursor over a borrowed slice; `pos` is how many bytes were consumed.
pub struct SliceReader<'a> {
    pub data: &'a [u8],
    pub pos: usize,
}

impl<'a> SliceReader<'a> {
    pub open spec fn wf(self) -> bool {
        self.pos <= self.data@.len()
    }

    /// How many bytes are left to read.
    pub open spec fn spec_remaining(self) -> int {
        self.data@.len() - self.pos
    }

    pub fn new(data: &'a [u8]) -> (r: SliceReader<'a>)
        ensures
            r.wf(),
            r.data@ == data@,
            r.pos == 0,
    {
        SliceReader { data, pos: 0 }
    }

    /// Reads one byte and advances; fails without moving when the input
    /// is exhausted.
    pub fn read_u8(&mut self) -> (r: Result<u8, SliceReaderError>)
        requires
            old(self).wf(),
        ensures
            final(self).wf(),
            final(self).data@ == old(self).data@,
            r is Ok <==> old(self).spec_remaining() >= 1,
            r matches Ok(v) ==> v == old(self).data@[old(self).pos as int] && final(self).pos
                == old(self).pos + 1,
            r is Err ==> *final(self) == *old(self),
    {
        if self.pos < self.data.len() {
            let v = self.data[self.pos];
            self.pos = self.pos + 1;
            Ok(v)
        } else {
            Err(SliceReaderError::UnexpectedEof)
        }
    }

    /// Reads one byte as a two's-complement signed value.
    pub fn read_i8(&mut self) -> (r: Result<i8, SliceReaderError>)
        requires
            old(self).wf(),
        ensures
            final(self).wf(),
            final(self).data@ == old(self).data@,
            r is Ok <==> old(self).spec_remaining() >= 1,
            r matches Ok(v) ==> v == byte_to_i8(old(self).data@[old(self).pos as int]) && final(self).pos == old(self).pos + 1,
            r is Err ==> *final(self) == *old(self),
    {
        if self.pos < self.data.len() {
            let b = self.data[self.pos];
            self.pos = self.pos + 1;
            let v: i8 = if b < 128 {
                b as i8
            } else {
                ((b as i16) - 256) as i8
            };
            Ok(v)
        } else {
            Err(SliceReaderError::UnexpectedEof)
        }
    }

    /// Reads a little-endian 16-bit value.
    pub fn read_u16_le(&mut self) -> (r: Result<u16, SliceReaderError>)
        requires
            old(self).wf(),
        ensures
            final(self).wf(),
            final(self).data@ == old(self).data@,
            r is Ok <==> old(self).spec_remaining() >= 2,
            r matches Ok(v) ==> v == le16_at(old(self).data@, old(self).pos as int) && final(self).pos == old(self).pos + 2,
            r is Err ==> *final(self) == *old(self),
    {
        if self.data.len() - self.pos >= 2 {
            let lo = self.data[self.pos];
            let hi = self.data[self.pos + 1];
            self.pos = self.pos + 2;
            Ok(lo as u16 + 256 * (hi as u16))
        } else {
            Err(SliceReaderError::UnexpectedEof)
        }
    }

    /// Reads a big-endian 16-bit value.
    pub fn read_u16_be(&mut self) -> (r: Result<u16, SliceReaderError>)
        requires
            old(self).wf(),
        ensures
            final(self).wf(),
            final(self).data@ == old(self).data@,
            r is Ok <==> old(self).spec_remaining() >= 2,
            r matches Ok(v) ==> v == be16_at(old(self).data@, old(self).pos as int) && final(self).pos == old(self).pos + 2,
            r is Err ==> *final(self) == *old(self),
    {
        if self.data.len() - self.pos >= 2 {
            let hi = self.data[self.pos];
            let lo = self.data[self.pos + 1];
            self.pos = self.pos + 2;
            Ok(256 * (hi as u16) + lo as u16)
        } else {
            Err(SliceReaderError::UnexpectedEof)
        }
    }

    /// Reads a little-endian 32-bit value.
    pub fn read_u32_le(&mut self) -> (r: Result<u32, SliceReaderError>)
        requires
            old(self).wf(),
        ensures
            final(self).wf(),
            final(self).data@ == old(self).data@,
            r is Ok <==> old(self).spec_remaining() >= 4,
            r matches Ok(v) ==> v == le32_at(old(self).data@, old(self).pos as int) && final(self).pos == old(self).pos + 4,
            r is Err ==> *final(self) == *old(self),
    {
        if self.data.len() - self.pos >= 4 {
            let b0 = self.data[self.pos];
            let b1 = self.data[self.pos + 1];
            let b2 = self.data[self.pos + 2];
            let b3 = self.data[self.pos + 3];
            self.pos = self.pos + 4;
            Ok(b0 as u32 + 256 * (b1 as u32) + 65536 * (b2 as u32) + 16777216 * (b3 as u32))
        } else {
            Err(SliceReaderError::UnexpectedEof)
        }
    }

    /// Reads `len` bytes into an owned buffer.
    pub fn read_u8_array(&mut self, len: usize) -> (r: Result<Vec<u8>, SliceReaderError>)
        requires
            old(self).wf(),
        ensures
            final(self).wf(),
            final(self).data@ == old(self).data@,
            r is Ok <==> old(self).spec_remaining() >= len,
            r matches Ok(v) ==> v@ == old(self).data@.subrange(
                old(self).pos as int,
                old(self).pos + len,
            ) && final(self).pos == old(self).pos + len,
            r is Err ==> *final(self) == *old(self),
    {
        match self.subslice_exact(len) {
            Ok(s) => Ok(vstd::slice::slice_to_vec(s)),
            Err(e) => Err(e),
        }
    }

    /// Reads `len` bytes and reverses them: a little-endian fixed-width
    /// field read into big-endian order.
    pub fn read_array_le(&mut self, len: usize) -> (r: Result<Vec<u8>, SliceReaderError>)
        requires
            old(self).wf(),
        ensures
            final(self).wf(),
            final(self).data@ == old(self).data@,
            r is Ok <==> old(self).spec_remaining() >= len,
            r matches Ok(v) ==> v@ == old(self).data@.subrange(
                old(self).pos as int,
                old(self).pos + len,
            ).reverse() && final(self).pos == old(self).pos + len,
            r is Err ==> *final(self) == *old(self),
    {
        let ghost orig = *self;
        match self.subslice_exact(len) {
            Ok(s) => {
                let mut v: Vec<u8> = Vec::new();
                let mut i: usize = 0;
                while i < len
                    invariant
                        i <= len,
                        len == s@.len(),
                        v@.len() == i,
                        forall|j: int| 0 <= j < i ==> v@[j] == s@[len - 1 - j],
                    decreases len - i,
                {
                    v.push(s[len - 1 - i]);
                    i = i + 1;
                }
                proof {
                    assert(v@ =~= orig.data@.subrange(orig.pos as int, orig.pos + len).reverse());
                }
                Ok(v)
            },
            Err(e) => Err(e),
        }
    }

    /// Reads `len` little-endian 16-bit values.
    pub fn read_u16_array(&mut self, len: usize) -> (r: Result<Vec<u16>, SliceReaderError>)
        requires
            old(self).wf(),
            len <= usize::MAX / 2,
        ensures
            final(self).wf(),
            final(self).data@ == old(self).data@,
            r is Ok <==> old(self).spec_remaining() >= 2 * len,
            r matches Ok(v) ==> v@.len() == len && final(self).pos == old(self).pos + 2 * len
                && forall|j: int|
                0 <= j < len ==> v@[j] == le16_at(old(self).data@, old(self).pos + 2 * j),
            r is Err ==> *final(self) == *old(self),
    {
        if self.data.len() - self.pos < 2 * len {
            return Err(SliceReaderError::UnexpectedEof);
        }
        let ghost orig = *self;
        let mut v: Vec<u16> = Vec::new();
        let mut i: usize = 0;
        while i < len
            invariant
                i <= len,
                self.data@ == orig.data@,
                self.pos == orig.pos + 2 * i,
                orig.pos + 2 * len <= orig.data@.len(),
                v@.len() == i,
                forall|j: int| 0 <= j < i ==> v@[j] == le16_at(orig.data@, orig.pos + 2 * j),
            decreases len - i,
        {
            let x = match self.read_u16_le() {
                Ok(x) => x,
                Err(_) => 0,
            };
            v.push(x);
            i = i + 1;
        }
        Ok(v)
    }

    /// Replaces the contents of `output` with as many bytes, read from
    /// the cursor.
    pub fn read_exact(&mut self, output: &mut Vec<u8>) -> (r: Result<(), SliceReaderError>)
        requires
            old(self).wf(),
        ensures
            final(self).wf(),
            final(self).data@ == old(self).data@,
            r is Ok <==> old(self).spec_remaining() >= old(output)@.len(),
            r is Ok ==> final(output)@ == old(self).data@.subrange(
                old(self).pos as int,
                old(self).pos + old(output)@.len(),
            ) && final(self).pos == old(self).pos + old(output)@.len(),
            r is Err ==> *final(self) == *old(self) && final(output)@ == old(output)@,
    {
        let len = output.len();
        match self.read_u8_array(len) {
            Ok(v) => {
                *output = v;
                Ok(())
            },
            Err(e) => Err(e),
        }
    }

    /// Hands out the next `len` bytes as a borrowed sub-slice.
    pub fn subslice_exact(&mut self, len: usize) -> (r: Result<&'a [u8], SliceReaderError>)
        requires
            old(self).wf(),
        ensures
            final(self).wf(),
            final(self).data@ == old(self).data@,
            r is Ok <==> old(self).spec_remaining() >= len,
            r matches Ok(s) ==> s@ == old(self).data@.subrange(
                old(self).pos as int,
                old(self).pos + len,
            ) && final(self).pos == old(self).pos + len,
            r is Err ==> *final(self) == *old(self),
    {
        if self.data.len() - self.pos >= len {
            let s = vstd::slice::slice_subrange(self.data, self.pos, self.pos + len);
            self.pos = self.pos + len;
            Ok(s)
        } else {
            Err(SliceReaderError::UnexpectedEof)
        }
    }
}

} // verus!
