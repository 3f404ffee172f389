//! Typed command parameters: the primitive field kinds a Monitor-and-Test
//! schema can ask for, their byte encodings, and reads of them from a
//! byte cursor.
use crate::slice_reader::{byte_to_i8, le16_at, le32_at, SliceReader};
use crate::slice_writer::{i8_to_byte, le16_bytes, le32_bytes, SliceWriter};
use vstd::prelude::*;

verus! {

/// A field kind in a request or response schema. A `ListU16` carries its
/// element count where the schema fixes one; a `Buffer` takes whatever
/// bytes remain in the frame.
#[derive(Debug, Clone, Copy, PartialEq, Eq, Structural)]
pub enum ParameterType {
    U8,
    U16,
    U32,
    I8,
    IeeeAddress,
    ListU16(Option<usize>),
    Buffer,
}

/// A decoded field value. Multi-byte integers travel little-endian; an
/// IEEE address is eight bytes in wire order. Lists and buffers keep
/// their elements in fixed backing storage beside a live count.
#[derive(Debug, Clone, Copy, PartialEq)]
pub enum ParameterValue {
    U8(u8),
    U16(u16),
    U32(u32),
    I8(i8),
    IeeAddress([u8; 8]),
    ListU16([u16; 255], usize),
    Buffer([u8; 255], usize),
}

/// The mathematical image of a parameter value: lists and buffers as
/// their live elements only.
pub enum ParameterValueView {
    U8(u8),
    U16(u16),
    U32(u32),
    I8(i8),
    IeeAddress(Seq<u8>),
    ListU16(Seq<u16>),
    Buffer(Seq<u8>),
}

impl View for ParameterValue {
    type V = ParameterValueView;

    open spec fn view(&self) -> ParameterValueView {
        match *self {
            ParameterValue::U8(v) => ParameterValueView::U8(v),
            ParameterValue::U16(v) => ParameterValueView::U16(v),
            ParameterValue::U32(v) => ParameterValueView::U32(v),
            ParameterValue::I8(v) => ParameterValueView::I8(v),
            ParameterValue::IeeAddress(a) => ParameterValueView::IeeAddress(a@),
            ParameterValue::ListU16(l, n) => ParameterValueView::ListU16(l@.subrange(0, n as int)),
            ParameterValue::Buffer(b, n) => ParameterValueView::Buffer(b@.subrange(0, n as int)),
        }
    }
}

/// What can go wrong while encoding or decoding parameters.
#[derive(Debug, Clone, Copy, PartialEq, Eq, Structural)]
pub enum ParameterError {
    InvalidParameter,
    Io,
    NoCommandWithName,
    Unreachable,
    MissingListLength,
    ResponseMismatch,
}

/// A run of 16-bit values, each as two little-endian bytes.
pub open spec fn u16s_le_bytes(s: Seq<u16>) -> Seq<u8>
    decreases s.len(),
{
    if s.len() == 0 {
        Seq::empty()
    } else {
        u16s_le_bytes(s.drop_last()) + le16_bytes(s.last())
    }
}

pub proof fn lemma_u16s_le_bytes_len(s: Seq<u16>)
    ensures
        u16s_le_bytes(s).len() == 2 * s.len(),
    decreases s.len(),
{
    if s.len() > 0 {
        lemma_u16s_le_bytes_len(s.drop_last());
    }
}

impl ParameterValueView {
    /// Does this value fit the given schema kind?
    pub open spec fn spec_matches_type(self, t: ParameterType) -> bool {
        match (self, t) {
            (ParameterValueView::U8(_), ParameterType::U8) => true,
            (ParameterValueView::U16(_), ParameterType::U16) => true,
            (ParameterValueView::U32(_), ParameterType::U32) => true,
            (ParameterValueView::I8(_), ParameterType::I8) => true,
            (ParameterValueView::IeeAddress(_), ParameterType::IeeeAddress) => true,
            (ParameterValueView::ListU16(_), ParameterType::ListU16(_)) => true,
            (ParameterValueView::Buffer(_), ParameterType::Buffer) => true,
            _ => false,
        }
    }

    /// The wire bytes of this value. A list is its element count in one
    /// byte, then the elements; a buffer is its bytes as they are.
    pub open spec fn spec_bytes(self) -> Seq<u8> {
        match self {
            ParameterValueView::U8(v) => seq![v],
            ParameterValueView::U16(v) => le16_bytes(v),
            ParameterValueView::U32(v) => le32_bytes(v),
            ParameterValueView::I8(v) => seq![i8_to_byte(v)],
            ParameterValueView::IeeAddress(a) => a,
            ParameterValueView::ListU16(l) => seq![l.len() as u8] + u16s_le_bytes(l),
            ParameterValueView::Buffer(b) => b,
        }
    }
}

impl ParameterValue {
    /// A value is well formed when a list's or buffer's count fits its
    /// backing storage.
    pub open spec fn wf(self) -> bool {
        &&& self matches ParameterValue::ListU16(_, n) ==> n <= 255
        &&& self matches ParameterValue::Buffer(_, n) ==> n <= 255
    }

    /// Does this value fit the given schema kind?
    pub fn matches_type(&self, other: &ParameterType) -> (r: bool)
        ensures
            r == self@.spec_matches_type(*other),
    {
        match (self, other) {
            (ParameterValue::U8(_), ParameterType::U8) => true,
            (ParameterValue::U16(_), ParameterType::U16) => true,
            (ParameterValue::U32(_), ParameterType::U32) => true,
            (ParameterValue::I8(_), ParameterType::I8) => true,
            (ParameterValue::IeeAddress(_), ParameterType::IeeeAddress) => true,
            (ParameterValue::ListU16(_, _), ParameterType::ListU16(_)) => true,
            (ParameterValue::Buffer(_, _), ParameterType::Buffer) => true,
            _ => false,
        }
    }

    /// The value as a `u8`, when it is one.
    pub fn try_into_u8(&self) -> (r: Result<u8, ParameterError>)
        ensures
            r matches Ok(v) ==> self@ == ParameterValueView::U8(v),
            r is Err <==> !(self is U8),
            r is Err ==> r == Err::<u8, ParameterError>(ParameterError::InvalidParameter),
    {
        match self {
            ParameterValue::U8(v) => Ok(*v),
            _ => Err(ParameterError::InvalidParameter),
        }
    }

    /// The value as a `u16`, when it is one.
    pub fn try_into_u16(&self) -> (r: Result<u16, ParameterError>)
        ensures
            r matches Ok(v) ==> self@ == ParameterValueView::U16(v),
            r is Err <==> !(self is U16),
            r is Err ==> r == Err::<u16, ParameterError>(ParameterError::InvalidParameter),
    {
        match self {
            ParameterValue::U16(v) => Ok(*v),
            _ => Err(ParameterError::InvalidParameter),
        }
    }

    /// The value as a `u32`, when it is one.
    pub fn try_into_u32(&self) -> (r: Result<u32, ParameterError>)
        ensures
            r matches Ok(v) ==> self@ == ParameterValueView::U32(v),
            r is Err <==> !(self is U32),
            r is Err ==> r == Err::<u32, ParameterError>(ParameterError::InvalidParameter),
    {
        match self {
            ParameterValue::U32(v) => Ok(*v),
            _ => Err(ParameterError::InvalidParameter),
        }
    }

    /// The value as an `i8`, when it is one.
    pub fn try_into_i8(&self) -> (r: Result<i8, ParameterError>)
        ensures
            r matches Ok(v) ==> self@ == ParameterValueView::I8(v),
            r is Err <==> !(self is I8),
            r is Err ==> r == Err::<i8, ParameterError>(ParameterError::InvalidParameter),
    {
        match self {
            ParameterValue::I8(v) => Ok(*v),
            _ => Err(ParameterError::InvalidParameter),
        }
    }

    /// The value as an eight-byte IEEE address, when it is one.
    pub fn try_into_ieee_addr(&self) -> (r: Result<[u8; 8], ParameterError>)
        ensures
            r matches Ok(v) ==> self@ == ParameterValueView::IeeAddress(v@),
            r is Err <==> !(self is IeeAddress),
            r is Err ==> r == Err::<[u8; 8], ParameterError>(ParameterError::InvalidParameter),
    {
        match self {
            ParameterValue::IeeAddress(v) => Ok(*v),
            _ => Err(ParameterError::InvalidParameter),
        }
    }

    /// The live elements of a list value.
    pub fn try_into_list_u16(&self) -> (r: Result<Vec<u16>, ParameterError>)
        requires
            self.wf(),
        ensures
            r matches Ok(v) ==> self@ == ParameterValueView::ListU16(v@),
            r is Err <==> !(self is ListU16),
            r is Err ==> r == Err::<Vec<u16>, ParameterError>(ParameterError::InvalidParameter),
    {
        match self {
            ParameterValue::ListU16(l, n) => {
                let s = vstd::slice::slice_subrange(l.as_slice(), 0, *n);
                Ok(vstd::slice::slice_to_vec(s))
            },
            _ => Err(ParameterError::InvalidParameter),
        }
    }

    /// Appends this value's wire bytes to `output` when it fits the
    /// schema kind; a mismatch writes nothing.
    pub fn match_and_write(&self, parameter_type: &ParameterType, output: &mut SliceWriter) -> (r:
        Result<usize, ParameterError>)
        requires
            self.wf(),
        ensures
            r is Ok <==> self@.spec_matches_type(*parameter_type),
            r matches Ok(n) ==> final(output).out@ == old(output).out@ + self@.spec_bytes() && n
                == self@.spec_bytes().len(),
            r is Err ==> *final(output) == *old(output) && r == Err::<usize, ParameterError>(
                ParameterError::InvalidParameter,
            ),
    {
        if !self.matches_type(parameter_type) {
            return Err(ParameterError::InvalidParameter);
        }
        let before = output.len();
        match self {
            ParameterValue::U8(v) => {
                output.write_u8(*v);
                proof {
                    assert(final(output).out@ =~= old(output).out@ + self@.spec_bytes());
                }
            },
            ParameterValue::U16(v) => {
                output.write_u16_le(*v);
            },
            ParameterValue::U32(v) => {
                output.write_u32_le(*v);
            },
            ParameterValue::I8(v) => {
                output.write_i8(*v);
                proof {
                    assert(final(output).out@ =~= old(output).out@ + self@.spec_bytes());
                }
            },
            ParameterValue::IeeAddress(a) => {
                output.write_u8_array(a.as_slice());
            },
            ParameterValue::ListU16(l, n) => {
                output.write_u8(*n as u8);
                let ghost mid = output.out@;
                let mut i: usize = 0;
                while i < *n
                    invariant
                        i <= *n <= 255,
                        l@.len() == 255,
                        output.out@ =~= mid + u16s_le_bytes(l@.subrange(0, i as int)),
                    decreases *n - i,
                {
                    let x = l[i];
                    output.write_u16_le(x);
                    i = i + 1;
                    proof {
                        let pre = l@.subrange(0, i as int);
                        assert(pre.drop_last() =~= l@.subrange(0, i - 1));
                        assert(pre.last() == l@[i - 1]);
                    }
                }
                proof {
                    assert(output.out@ =~= old(output).out@ + self@.spec_bytes());
                }
            },
            ParameterValue::Buffer(b, n) => {
                let s = vstd::slice::slice_subrange(b.as_slice(), 0, *n);
                output.write_u8_array(s);
            },
        }
        let after = output.len();
        proof {
            match self@ {
                ParameterValueView::ListU16(l) => lemma_u16s_le_bytes_len(l),
                _ => (),
            }
        }
        Ok(after - before)
    }
}

/// What reading one field of kind `t` at `pos` yields: the value's image
/// and the position after it, or why the read fails.
pub open spec fn spec_read_param(t: ParameterType, data: Seq<u8>, pos: int) -> Result<
    (ParameterValueView, int),
    ParameterError,
> {
    let rem = data.len() - pos;
    match t {
        ParameterType::U8 => if rem >= 1 {
            Ok((ParameterValueView::U8(data[pos]), pos + 1))
        } else {
            Err(ParameterError::Io)
        },
        ParameterType::U16 => if rem >= 2 {
            Ok((ParameterValueView::U16(le16_at(data, pos) as u16), pos + 2))
        } else {
            Err(ParameterError::Io)
        },
        ParameterType::U32 => if rem >= 4 {
            Ok((ParameterValueView::U32(le32_at(data, pos) as u32), pos + 4))
        } else {
            Err(ParameterError::Io)
        },
        ParameterType::I8 => if rem >= 1 {
            Ok((ParameterValueView::I8(byte_to_i8(data[pos])), pos + 1))
        } else {
            Err(ParameterError::Io)
        },
        ParameterType::IeeeAddress => if rem >= 8 {
            Ok((ParameterValueView::IeeAddress(data.subrange(pos, pos + 8)), pos + 8))
        } else {
            Err(ParameterError::Io)
        },
        ParameterType::ListU16(lenopt) => match lenopt {
            None => Err(ParameterError::MissingListLength),
            Some(n) => if n <= 255 && rem >= 2 * n {
                Ok(
                    (
                        ParameterValueView::ListU16(
                            Seq::new(n as nat, |j: int| le16_at(data, pos + 2 * j) as u16),
                        ),
                        pos + 2 * n,
                    ),
                )
            } else {
                Err(ParameterError::Io)
            },
        },
        ParameterType::Buffer => if rem <= 255 {
            Ok(
                (
                    ParameterValueView::Buffer(data.subrange(pos, data.len() as int)),
                    data.len() as int,
                ),
            )
        } else {
            Err(ParameterError::Io)
        },
    }
}

impl ParameterType {
    /// Reads one value of this kind from the cursor, exactly as
    /// `spec_read_param` says.
    pub fn from_slice_reader(&self, reader: &mut SliceReader) -> (r: Result<
        ParameterValue,
        ParameterError,
    >)
        requires
            old(reader).wf(),
        ensures
            final(reader).wf(),
            final(reader).data@ == old(reader).data@,
            r is Err ==> *final(reader) == *old(reader),
            r matches Err(e) ==> spec_read_param(*self, old(reader).data@, old(reader).pos as int)
                == Err::<(ParameterValueView, int), ParameterError>(e),
            r matches Ok(v) ==> v.wf() && spec_read_param(
                *self,
                old(reader).data@,
                old(reader).pos as int,
            ) == Ok::<(ParameterValueView, int), ParameterError>((v@, final(reader).pos as int)),
    {
        match self {
            ParameterType::U8 => {
                match reader.read_u8() {
                    Ok(v) => Ok(ParameterValue::U8(v)),
                    Err(_) => Err(ParameterError::Io),
                }
            },
            ParameterType::U16 => {
                match reader.read_u16_le() {
                    Ok(v) => Ok(ParameterValue::U16(v)),
                    Err(_) => Err(ParameterError::Io),
                }
            },
            ParameterType::U32 => {
                match reader.read_u32_le() {
                    Ok(v) => Ok(ParameterValue::U32(v)),
                    Err(_) => Err(ParameterError::Io),
                }
            },
            ParameterType::I8 => {
                match reader.read_i8() {
                    Ok(v) => Ok(ParameterValue::I8(v)),
                    Err(_) => Err(ParameterError::Io),
                }
            },
            ParameterType::IeeeAddress => {
                match reader.read_u8_array(8) {
                    Ok(v) => {
                        let a: [u8; 8] = [v[0], v[1], v[2], v[3], v[4], v[5], v[6], v[7]];
                        proof {
                            assert(a@ =~= old(reader).data@.subrange(
                                old(reader).pos as int,
                                old(reader).pos + 8,
                            ));
                        }
                        Ok(ParameterValue::IeeAddress(a))
                    },
                    Err(_) => Err(ParameterError::Io),
                }
            },
            ParameterType::ListU16(len) => {
                match len {
                    Some(n) => {
                        if *n > 255 {
                            return Err(ParameterError::Io);
                        }
                        match reader.read_u16_array(*n) {
                            Ok(v) => {
                                let arr = list_from_vec(&v);
                                let value = ParameterValue::ListU16(arr, *n);
                                proof {
                                    assert(arr@.subrange(0, *n as int) =~= Seq::new(
                                        *n as nat,
                                        |j: int|
                                            le16_at(old(reader).data@, old(reader).pos + 2 * j)
                                                as u16,
                                    ));
                                }
                                Ok(value)
                            },
                            Err(_) => Err(ParameterError::Io),
                        }
                    },
                    None => Err(ParameterError::MissingListLength),
                }
            },
            ParameterType::Buffer => {
                let rem = remaining_len(reader);
                if rem > 255 {
                    return Err(ParameterError::Io);
                }
                match reader.read_u8_array(rem) {
                    Ok(v) => {
                        let b = buffer_from_vec(&v);
                        let value = ParameterValue::Buffer(b, rem);
                        proof {
                            assert(b@.subrange(0, rem as int) =~= old(reader).data@.subrange(
                                old(reader).pos as int,
                                old(reader).data@.len() as int,
                            ));
                        }
                        Ok(value)
                    },
                    Err(_) => Err(ParameterError::Io),
                }
            },
        }
    }
}

/// How many bytes the cursor still holds.
fn remaining_len(reader: &SliceReader) -> (r: usize)
    requires
        reader.wf(),
    ensures
        r == reader.spec_remaining(),
{
    reader.data.len() - reader.pos
}

/// Copies a vector's bytes into a fixed buffer, zero behind them.
fn buffer_from_vec(v: &Vec<u8>) -> (r: [u8; 255])
    requires
        v@.len() <= 255,
    ensures
        r@.subrange(0, v@.len() as int) == v@,
        r@.len() == 255,
{
    let mut arr: [u8; 255] = [0; 255];
    let mut i: usize = 0;
    while i < v.len()
        invariant
            i <= v@.len() <= 255,
            arr@.len() == 255,
            forall|j: int| 0 <= j < i ==> arr@[j] == v@[j],
        decreases v@.len() - i,
    {
        arr[i] = v[i];
        i = i + 1;
    }
    proof {
        assert(arr@.subrange(0, v@.len() as int) =~= v@);
    }
    arr
}

/// Copies a vector's elements into a fixed list buffer, zero behind
/// them.
fn list_from_vec(v: &Vec<u16>) -> (r: [u16; 255])
    requires
        v@.len() <= 255,
    ensures
        r@.subrange(0, v@.len() as int) == v@,
        r@.len() == 255,
{
    let mut arr: [u16; 255] = [0; 255];
    let mut i: usize = 0;
    while i < v.len()
        invariant
            i <= v@.len() <= 255,
            arr@.len() == 255,
            forall|j: int| 0 <= j < i ==> arr@[j] == v@[j],
        decreases v@.len() - i,
    {
        arr[i] = v[i];
        i = i + 1;
    }
    proof {
        assert(arr@.subrange(0, v@.len() as int) =~= v@);
    }
    arr
}

} // verus!
