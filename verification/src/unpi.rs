//! The UNPI packet codec: byte-exact framing, the XOR frame check
//! sequence, and encode/decode between bytes and `UnpiPacket` values.
//!
//! Wire layout of one frame:
//! `SOF(1) + Length(1 or 2, little-endian) + Type/Sub(1) + Cmd(1) + Payload(N) + FCS(1)`.
//! The checksum covers everything between the start-of-frame byte and the
//! FCS byte itself.
use vstd::prelude::*;

verus! {

pub const START_OF_FRAME: u8 = 0xFE;

pub const MAX_FRAME_SIZE: usize = 400;

pub const MAX_PAYLOAD_SIZE: usize = 255;

/// The 3-bit message-type field: synchronous request (SREQ), its paired
/// response (SRESP), asynchronous indication (AREQ), polled request, and
/// four reserved codes.
#[derive(Debug, Clone, Copy, PartialEq, Eq, Structural)]
pub enum MessageType {
    POLL,
    SREQ,
    AREQ,
    SRESP,
    RES0,
    RES1,
    RES2,
    RES3,
}

/// The 5-bit subsystem field: the Monitor-and-Test functional namespaces.
#[derive(Debug, Clone, Copy, PartialEq, Eq, Structural)]
pub enum Subsystem {
    Res0,
    Sys,
    Mac,
    Nwk,
    Af,
    Zdo,
    Sapi,
    Util,
    Dbg,
    App,
    Rcaf,
    Rcn,
    RcnClient,
    Boot,
    Ziptest,
    Debug,
    Peripherals,
    Nfc,
    PbNwkMgr,
    PbGw,
    PbOtaMgr,
    BleSpnp,
    BleHci,
    Resv01,
    Resv02,
    Resv03,
    Resv04,
    Resv05,
    Resv06,
    Resv07,
    Resv08,
    SrvCtr,
}

impl MessageType {
    pub open spec fn spec_to_u8(self) -> u8 {
        match self {
            MessageType::POLL => 0,
            MessageType::SREQ => 1,
            MessageType::AREQ => 2,
            MessageType::SRESP => 3,
            MessageType::RES0 => 4,
            MessageType::RES1 => 5,
            MessageType::RES2 => 6,
            MessageType::RES3 => 7,
        }
    }

    pub open spec fn spec_from_u8(value: u8) -> Option<MessageType> {
        if value == 0 {
            Some(MessageType::POLL)
        } else if value == 1 {
            Some(MessageType::SREQ)
        } else if value == 2 {
            Some(MessageType::AREQ)
        } else if value == 3 {
            Some(MessageType::SRESP)
        } else if value == 4 {
            Some(MessageType::RES0)
        } else if value == 5 {
            Some(MessageType::RES1)
        } else if value == 6 {
            Some(MessageType::RES2)
        } else if value == 7 {
            Some(MessageType::RES3)
        } else {
            None
        }
    }

    /// The 3-bit wire code of this message type.
    pub fn to_u8(self) -> (r: u8)
        ensures
            r == self.spec_to_u8(),
    {
        match self {
            MessageType::POLL => 0,
            MessageType::SREQ => 1,
            MessageType::AREQ => 2,
            MessageType::SRESP => 3,
            MessageType::RES0 => 4,
            MessageType::RES1 => 5,
            MessageType::RES2 => 6,
            MessageType::RES3 => 7,
        }
    }

    /// Decode a 3-bit code; every value up to 7 names a message type.
    pub fn from_u8(value: u8) -> (r: Result<MessageType, UnpiPacketError>)
        ensures
            r matches Ok(m) ==> MessageType::spec_from_u8(value) == Some(m),
            r is Err <==> value > 7,
            r is Err ==> r == Err::<MessageType, UnpiPacketError>(UnpiPacketError::InvalidMessageType),
    {
        match value {
            0 => Ok(MessageType::POLL),
            1 => Ok(MessageType::SREQ),
            2 => Ok(MessageType::AREQ),
            3 => Ok(MessageType::SRESP),
            4 => Ok(MessageType::RES0),
            5 => Ok(MessageType::RES1),
            6 => Ok(MessageType::RES2),
            7 => Ok(MessageType::RES3),
            _ => Err(UnpiPacketError::InvalidMessageType),
        }
    }
}

pub open spec fn message_type_round_trip_holds(m: MessageType) -> bool {
    MessageType::spec_from_u8(m.spec_to_u8()) == Some(m)
}

/// Every message type decodes back from its own wire code.
pub proof fn lemma_message_type_round_trip(m: MessageType)
    ensures
        message_type_round_trip_holds(m),
{
}

/// Errors the codec can report while decoding a frame.
#[derive(Debug, Clone, Copy, PartialEq, Eq)]
pub enum UnpiPacketError {
    /// The first byte was not `0xFE`; carries the byte seen.
    InvalidStartOfFrame(u8),
    /// Checksum mismatch; carries `(fcs on the wire, fcs recomputed)`.
    InvalidFcs((u8, u8)),
    InvalidTypeSubsystem(u8),
    Parse,
    InvalidCommand,
    /// The input ended before a whole frame was read.
    IoError,
    InvalidMessageType,
}

impl Subsystem {
    pub open spec fn spec_to_u8(self) -> u8 {
        match self {
            Subsystem::Res0 => 0,
            Subsystem::Sys => 1,
            Subsystem::Mac => 2,
            Subsystem::Nwk => 3,
            Subsystem::Af => 4,
            Subsystem::Zdo => 5,
            Subsystem::Sapi => 6,
            Subsystem::Util => 7,
            Subsystem::Dbg => 8,
            Subsystem::App => 9,
            Subsystem::Rcaf => 10,
            Subsystem::Rcn => 11,
            Subsystem::RcnClient => 12,
            Subsystem::Boot => 13,
            Subsystem::Ziptest => 14,
            Subsystem::Debug => 15,
            Subsystem::Peripherals => 16,
            Subsystem::Nfc => 17,
            Subsystem::PbNwkMgr => 18,
            Subsystem::PbGw => 19,
            Subsystem::PbOtaMgr => 20,
            Subsystem::BleSpnp => 21,
            Subsystem::BleHci => 22,
            Subsystem::Resv01 => 23,
            Subsystem::Resv02 => 24,
            Subsystem::Resv03 => 25,
            Subsystem::Resv04 => 26,
            Subsystem::Resv05 => 27,
            Subsystem::Resv06 => 28,
            Subsystem::Resv07 => 29,
            Subsystem::Resv08 => 30,
            Subsystem::SrvCtr => 31,
        }
    }

    pub open spec fn spec_from_u8(value: u8) -> Option<Subsystem> {
        if value == 0 {
            Some(Subsystem::Res0)
        } else if value == 1 {
            Some(Subsystem::Sys)
        } else if value == 2 {
            Some(Subsystem::Mac)
        } else if value == 3 {
            Some(Subsystem::Nwk)
        } else if value == 4 {
            Some(Subsystem::Af)
        } else if value == 5 {
            Some(Subsystem::Zdo)
        } else if value == 6 {
            Some(Subsystem::Sapi)
        } else if value == 7 {
            Some(Subsystem::Util)
        } else if value == 8 {
            Some(Subsystem::Dbg)
        } else if value == 9 {
            Some(Subsystem::App)
        } else if value == 10 {
            Some(Subsystem::Rcaf)
        } else if value == 11 {
            Some(Subsystem::Rcn)
        } else if value == 12 {
            Some(Subsystem::RcnClient)
        } else if value == 13 {
            Some(Subsystem::Boot)
        } else if value == 14 {
            Some(Subsystem::Ziptest)
        } else if value == 15 {
            Some(Subsystem::Debug)
        } else if value == 16 {
            Some(Subsystem::Peripherals)
        } else if value == 17 {
            Some(Subsystem::Nfc)
        } else if value == 18 {
            Some(Subsystem::PbNwkMgr)
        } else if value == 19 {
            Some(Subsystem::PbGw)
        } else if value == 20 {
            Some(Subsystem::PbOtaMgr)
        } else if value == 21 {
            Some(Subsystem::BleSpnp)
        } else if value == 22 {
            Some(Subsystem::BleHci)
        } else if value == 23 {
            Some(Subsystem::Resv01)
        } else if value == 24 {
            Some(Subsystem::Resv02)
        } else if value == 25 {
            Some(Subsystem::Resv03)
        } else if value == 26 {
            Some(Subsystem::Resv04)
        } else if value == 27 {
            Some(Subsystem::Resv05)
        } else if value == 28 {
            Some(Subsystem::Resv06)
        } else if value == 29 {
            Some(Subsystem::Resv07)
        } else if value == 30 {
            Some(Subsystem::Resv08)
        } else if value == 31 {
            Some(Subsystem::SrvCtr)
        } else {
            None
        }
    }

    /// The 5-bit wire code of this subsystem.
    pub fn to_u8(self) -> (r: u8)
        ensures
            r == self.spec_to_u8(),
    {
        match self {
            Subsystem::Res0 => 0,
            Subsystem::Sys => 1,
            Subsystem::Mac => 2,
            Subsystem::Nwk => 3,
            Subsystem::Af => 4,
            Subsystem::Zdo => 5,
            Subsystem::Sapi => 6,
            Subsystem::Util => 7,
            Subsystem::Dbg => 8,
            Subsystem::App => 9,
            Subsystem::Rcaf => 10,
            Subsystem::Rcn => 11,
            Subsystem::RcnClient => 12,
            Subsystem::Boot => 13,
            Subsystem::Ziptest => 14,
            Subsystem::Debug => 15,
            Subsystem::Peripherals => 16,
            Subsystem::Nfc => 17,
            Subsystem::PbNwkMgr => 18,
            Subsystem::PbGw => 19,
            Subsystem::PbOtaMgr => 20,
            Subsystem::BleSpnp => 21,
            Subsystem::BleHci => 22,
            Subsystem::Resv01 => 23,
            Subsystem::Resv02 => 24,
            Subsystem::Resv03 => 25,
            Subsystem::Resv04 => 26,
            Subsystem::Resv05 => 27,
            Subsystem::Resv06 => 28,
            Subsystem::Resv07 => 29,
            Subsystem::Resv08 => 30,
            Subsystem::SrvCtr => 31,
        }
    }

    /// Decode a 5-bit code; every value up to 31 names a subsystem.
    pub fn from_u8(value: u8) -> (r: Result<Subsystem, ()>)
        ensures
            r matches Ok(s) ==> Subsystem::spec_from_u8(value) == Some(s),
            r is Err <==> value > 31,
    {
        match value {
            0 => Ok(Subsystem::Res0),
            1 => Ok(Subsystem::Sys),
            2 => Ok(Subsystem::Mac),
            3 => Ok(Subsystem::Nwk),
            4 => Ok(Subsystem::Af),
            5 => Ok(Subsystem::Zdo),
            6 => Ok(Subsystem::Sapi),
            7 => Ok(Subsystem::Util),
            8 => Ok(Subsystem::Dbg),
            9 => Ok(Subsystem::App),
            10 => Ok(Subsystem::Rcaf),
            11 => Ok(Subsystem::Rcn),
            12 => Ok(Subsystem::RcnClient),
            13 => Ok(Subsystem::Boot),
            14 => Ok(Subsystem::Ziptest),
            15 => Ok(Subsystem::Debug),
            16 => Ok(Subsystem::Peripherals),
            17 => Ok(Subsystem::Nfc),
            18 => Ok(Subsystem::PbNwkMgr),
            19 => Ok(Subsystem::PbGw),
            20 => Ok(Subsystem::PbOtaMgr),
            21 => Ok(Subsystem::BleSpnp),
            22 => Ok(Subsystem::BleHci),
            23 => Ok(Subsystem::Resv01),
            24 => Ok(Subsystem::Resv02),
            25 => Ok(Subsystem::Resv03),
            26 => Ok(Subsystem::Resv04),
            27 => Ok(Subsystem::Resv05),
            28 => Ok(Subsystem::Resv06),
            29 => Ok(Subsystem::Resv07),
            30 => Ok(Subsystem::Resv08),
            31 => Ok(Subsystem::SrvCtr),
            _ => Err(()),
        }
    }
}

pub open spec fn subsystem_round_trip_holds(s: Subsystem) -> bool {
    Subsystem::spec_from_u8(s.spec_to_u8()) == Some(s)
}

/// Every subsystem decodes back from its own wire code.
pub proof fn lemma_subsystem_round_trip(s: Subsystem)
    ensures
        subsystem_round_trip_holds(s),
{
}

} // verus!

verus! {

/// A frame length as it travels on the wire: the CC253x family uses a
/// single length byte; other network processors use two, little-endian.
/// The variant is fixed by the transport, not chosen per packet.
#[derive(Debug, Clone, Copy, PartialEq, Eq, Structural)]
pub enum LenType {
    OneByte(u8),
    TwoByte(u16),
}

/// Which length variant a transport uses, without a value.
#[derive(Debug, Clone, Copy, PartialEq, Eq, Structural)]
pub enum LenTypeInfo {
    OneByte,
    TwoByte,
}

/// Older name for `LenTypeInfo`, kept for callers of the first codec
/// generation.
#[derive(Debug, Clone, Copy, PartialEq, Eq, Structural)]
pub enum LenTypes {
    OneByte,
    TwoByte,
}

impl LenType {
    /// The payload length this value denotes.
    pub open spec fn spec_size(self) -> int {
        match self {
            LenType::OneByte(v) => v as int,
            LenType::TwoByte(v) => v as int,
        }
    }

    /// The bytes of the length field as they appear on the wire.
    pub open spec fn spec_le_bytes(self) -> Seq<u8> {
        match self {
            LenType::OneByte(v) => seq![v],
            LenType::TwoByte(v) => seq![(v % 256) as u8, (v / 256) as u8],
        }
    }

    pub open spec fn spec_byte_size(self) -> int {
        match self {
            LenType::OneByte(_) => 1,
            LenType::TwoByte(_) => 2,
        }
    }

    /// Does this length value use the given transport-wide variant?
    pub open spec fn matches_info(self, info: LenTypeInfo) -> bool {
        match (self, info) {
            (LenType::OneByte(_), LenTypeInfo::OneByte) => true,
            (LenType::TwoByte(_), LenTypeInfo::TwoByte) => true,
            _ => false,
        }
    }

    /// The length field as two little-endian bytes; a one-byte length
    /// leaves the second byte zero.
    pub fn to_le_bytes(&self) -> (r: [u8; 2])
        ensures
            r@[0] == self.spec_le_bytes()[0],
            self is TwoByte ==> r@[1] == self.spec_le_bytes()[1],
            self is OneByte ==> r@[1] == 0,
    {
        match self {
            LenType::OneByte(v) => [*v, 0],
            LenType::TwoByte(v) => [(*v % 256) as u8, (*v / 256) as u8],
        }
    }

    /// How many bytes the length field takes on the wire.
    pub fn byte_size(&self) -> (r: usize)
        ensures
            r == self.spec_byte_size(),
    {
        match self {
            LenType::OneByte(_) => 1,
            LenType::TwoByte(_) => 2,
        }
    }

    /// The payload length this value denotes.
    pub fn size(&self) -> (r: usize)
        ensures
            r == self.spec_size(),
    {
        match self {
            LenType::OneByte(v) => *v as usize,
            LenType::TwoByte(v) => *v as usize,
        }
    }
}

impl LenTypeInfo {
    pub open spec fn spec_byte_size(self) -> int {
        match self {
            LenTypeInfo::OneByte => 1,
            LenTypeInfo::TwoByte => 2,
        }
    }

    /// How many bytes the length field takes under this variant.
    pub fn byte_size(&self) -> (r: usize)
        ensures
            r == self.spec_byte_size(),
    {
        match self {
            LenTypeInfo::OneByte => 1,
            LenTypeInfo::TwoByte => 2,
        }
    }
}

impl LenTypes {
    /// How many bytes the length field takes under this variant.
    pub fn byte_size(&self) -> (r: usize)
        ensures
            self is OneByte ==> r == 1,
            self is TwoByte ==> r == 2,
    {
        match self {
            LenTypes::OneByte => 1,
            LenTypes::TwoByte => 2,
        }
    }
}

/// XOR of all bytes of a sequence; the frame check sequence is this,
/// taken over everything between the SOF byte and the FCS byte.
pub open spec fn xor_seq(s: Seq<u8>) -> u8
    decreases s.len(),
{
    if s.len() == 0 {
        0u8
    } else {
        xor_seq(s.drop_last()) ^ s.last()
    }
}

pub proof fn lemma_xor_seq_push(s: Seq<u8>, b: u8)
    ensures
        xor_seq(s.push(b)) == xor_seq(s) ^ b,
{
    assert(s.push(b).drop_last() =~= s);
    assert(s.push(b).last() == b);
}

pub proof fn lemma_xor_seq_concat(a: Seq<u8>, b: Seq<u8>)
    ensures
        xor_seq(a + b) == xor_seq(a) ^ xor_seq(b),
    decreases b.len(),
{
    if b.len() == 0 {
        assert(a + b =~= a);
        assert(forall|x: u8| x ^ 0 == x) by (bit_vector);
    } else {
        lemma_xor_seq_concat(a, b.drop_last());
        assert((a + b).drop_last() =~= a + b.drop_last());
        assert((a + b).last() == b.last());
        assert(forall|x: u8, y: u8, z: u8| (x ^ y) ^ z == x ^ (y ^ z)) by (bit_vector);
    }
}

/// One decoded UNPI frame. The payload buffer is owned; `fcs` is the
/// frame check sequence as carried on the wire.
#[derive(Debug, PartialEq)]
pub struct UnpiPacket {
    pub len: LenType,
    pub type_subsystem: (MessageType, Subsystem),
    pub command: u8,
    pub payload: Vec<u8>,
    pub fcs: u8,
}

/// The mathematical image of a packet: the same fields with the payload
/// as a byte sequence.
pub struct UnpiPacketView {
    pub len: LenType,
    pub type_subsystem: (MessageType, Subsystem),
    pub command: u8,
    pub payload: Seq<u8>,
    pub fcs: u8,
}

impl View for UnpiPacket {
    type V = UnpiPacketView;

    open spec fn view(&self) -> UnpiPacketView {
        UnpiPacketView {
            len: self.len,
            type_subsystem: self.type_subsystem,
            command: self.command,
            payload: self.payload@,
            fcs: self.fcs,
        }
    }
}

impl Clone for UnpiPacket {
    /// A clone denotes the same frame.
    fn clone(&self) -> (r: Self)
        ensures
            r@ == self@,
    {
        UnpiPacket {
            len: self.len,
            type_subsystem: (self.type_subsystem.0, self.type_subsystem.1),
            command: self.command,
            payload: vstd::slice::slice_to_vec(self.payload.as_slice()),
            fcs: self.fcs,
        }
    }
}

/// The combined type/subsystem byte: message type in the top three bits,
/// subsystem in the bottom five.
pub open spec fn spec_ts_byte(ts: (MessageType, Subsystem)) -> u8 {
    (ts.0.spec_to_u8() * 32 + ts.1.spec_to_u8()) as u8
}

impl UnpiPacketView {
    /// The bytes between SOF and FCS: length field, type/subsystem byte,
    /// command id, payload. The checksum is taken over exactly these.
    pub open spec fn checksum_region(self) -> Seq<u8> {
        self.len.spec_le_bytes() + seq![spec_ts_byte(self.type_subsystem), self.command]
            + self.payload
    }

    /// The whole frame as it appears on the wire.
    pub open spec fn frame(self) -> Seq<u8> {
        seq![START_OF_FRAME] + self.checksum_region() + seq![self.fcs]
    }

    /// A well-formed packet: the payload is as long as the length field
    /// says, and the stored FCS is the checksum of the frame.
    pub open spec fn wf(self) -> bool {
        &&& self.payload.len() == self.len.spec_size()
        &&& self.fcs == xor_seq(self.checksum_region())
    }
}

/// Reads the payload length out of a raw frame (bytes after the SOF).
pub open spec fn spec_payload_len(data: Seq<u8>, info: LenTypeInfo) -> int
    recommends
        data.len() >= 1 + info.spec_byte_size(),
{
    match info {
        LenTypeInfo::OneByte => data[1] as int,
        LenTypeInfo::TwoByte => data[1] as int + 256 * (data[2] as int),
    }
}

/// Total frame length implied by the length field of a raw frame.
pub open spec fn spec_frame_len(data: Seq<u8>, info: LenTypeInfo) -> int
    recommends
        data.len() >= 1 + info.spec_byte_size(),
{
    1 + info.spec_byte_size() + 2 + spec_payload_len(data, info) + 1
}

/// The packet a (long enough) raw frame denotes, before the checksum is
/// judged.
pub open spec fn spec_packet_of(data: Seq<u8>, info: LenTypeInfo) -> UnpiPacketView
    recommends
        data.len() >= spec_frame_len(data, info),
        data.len() >= 1 + info.spec_byte_size(),
{
    let lsz = info.spec_byte_size();
    let ts = data[1 + lsz];
    UnpiPacketView {
        len: match info {
            LenTypeInfo::OneByte => LenType::OneByte(data[1]),
            LenTypeInfo::TwoByte => LenType::TwoByte(
                (data[1] as int + 256 * (data[2] as int)) as u16,
            ),
        },
        type_subsystem: (
            MessageType::spec_from_u8(ts / 32).unwrap(),
            Subsystem::spec_from_u8(ts % 32).unwrap(),
        ),
        command: data[2 + lsz],
        payload: data.subrange(3 + lsz, 3 + lsz + spec_payload_len(data, info)),
        fcs: data[spec_frame_len(data, info) - 1],
    }
}

/// What decoding a byte sequence yields, stated directly over the bytes:
/// too short is `IoError`; a wrong first byte is `InvalidStartOfFrame`;
/// a checksum mismatch is `InvalidFcs((wire, computed))`; otherwise the
/// packet read off the bytes. Trailing bytes after the frame are ignored.
pub open spec fn spec_decode(data: Seq<u8>, info: LenTypeInfo) -> Result<
    UnpiPacketView,
    UnpiPacketError,
> {
    if data.len() < 1 {
        Err(UnpiPacketError::IoError)
    } else if data[0] != START_OF_FRAME {
        Err(UnpiPacketError::InvalidStartOfFrame(data[0]))
    } else if data.len() < 1 + info.spec_byte_size() {
        Err(UnpiPacketError::IoError)
    } else if data.len() < spec_frame_len(data, info) {
        Err(UnpiPacketError::IoError)
    } else {
        let p = spec_packet_of(data, info);
        let computed = xor_seq(data.subrange(1, spec_frame_len(data, info) - 1));
        if p.fcs == computed {
            Ok(p)
        } else {
            Err(UnpiPacketError::InvalidFcs((p.fcs, computed)))
        }
    }
}

} // verus!

verus! {

/// Packs a message type and a subsystem into the type/subsystem byte.
pub fn ts_byte_encode(ts: (MessageType, Subsystem)) -> (r: u8)
    ensures
        r == spec_ts_byte(ts),
{
    ts.0.to_u8() * 32 + ts.1.to_u8()
}

/// Splits a type/subsystem byte; every byte names a valid pair.
pub fn ts_byte_decode(b: u8) -> (r: (MessageType, Subsystem))
    ensures
        MessageType::spec_from_u8(b / 32) == Some(r.0),
        Subsystem::spec_from_u8(b % 32) == Some(r.1),
{
    let mt = match MessageType::from_u8(b / 32) {
        Ok(m) => m,
        Err(_) => MessageType::POLL,
    };
    let ss = match Subsystem::from_u8(b % 32) {
        Ok(s) => s,
        Err(_) => Subsystem::Res0,
    };
    (mt, ss)
}

/// Packing a pair into the type/subsystem byte and splitting it again
/// gives the pair back.
pub proof fn lemma_ts_byte_round_trip(ts: (MessageType, Subsystem))
    ensures
        MessageType::spec_from_u8(spec_ts_byte(ts) / 32) == Some(ts.0),
        Subsystem::spec_from_u8(spec_ts_byte(ts) % 32) == Some(ts.1),
{
    let mv = ts.0.spec_to_u8();
    let sv = ts.1.spec_to_u8();
    assert(mv <= 7 && sv <= 31);
    assert((mv * 32 + sv) / 32 == mv && (mv * 32 + sv) % 32 == sv) by (nonlinear_arith)
        requires
            mv <= 7,
            sv <= 31,
    ;
}

impl UnpiPacket {
    /// XOR of a whole buffer; on the slice between SOF and FCS this is
    /// the frame check sequence.
    pub fn checksum_buffer(buf: &[u8]) -> (r: u8)
        ensures
            r == xor_seq(buf@),
    {
        let mut fcs: u8 = 0x00;
        let mut i: usize = 0;
        while i < buf.len()
            invariant
                i <= buf@.len(),
                fcs == xor_seq(buf@.subrange(0, i as int)),
            decreases buf@.len() - i,
        {
            proof {
                assert(buf@.subrange(0, i + 1) =~= buf@.subrange(0, i as int).push(buf@[i as int]));
                lemma_xor_seq_push(buf@.subrange(0, i as int), buf@[i as int]);
            }
            fcs = fcs ^ buf[i];
            i = i + 1;
        }
        proof {
            assert(buf@.subrange(0, buf@.len() as int) =~= buf@);
        }
        fcs
    }

    /// The checksum of this packet's frame: XOR over length bytes,
    /// type/subsystem byte, command and payload.
    pub fn checksum(&self) -> (r: u8)
        ensures
            r == xor_seq(self@.checksum_region()),
    {
        let mut region: Vec<u8> = Vec::new();
        match self.len {
            LenType::OneByte(v) => {
                region.push(v);
            },
            LenType::TwoByte(v) => {
                region.push((v % 256) as u8);
                region.push((v / 256) as u8);
            },
        }
        region.push(ts_byte_encode((self.type_subsystem.0, self.type_subsystem.1)));
        region.push(self.command);
        let ghost head = self@.len.spec_le_bytes() + seq![
            spec_ts_byte(self@.type_subsystem),
            self@.command,
        ];
        proof {
            assert(region@ =~= head + self@.payload.subrange(0, 0));
        }
        let mut i: usize = 0;
        while i < self.payload.len()
            invariant
                i <= self.payload@.len(),
                region@ =~= head + self@.payload.subrange(0, i as int),
            decreases self.payload@.len() - i,
        {
            region.push(self.payload[i]);
            i = i + 1;
            proof {
                assert(self@.payload.subrange(0, i as int) =~= self@.payload.subrange(
                    0,
                    i - 1,
                ).push(self@.payload[i - 1]));
            }
        }
        proof {
            assert(self@.payload.subrange(0, self@.payload.len() as int) =~= self@.payload);
            assert(region@ =~= self@.checksum_region());
        }
        Self::checksum_buffer(region.as_slice())
    }

    /// Builds a packet around a payload: the length field counts the
    /// payload under the requested variant, and the FCS is computed.
    pub fn from_payload(
        payload: &[u8],
        len_type_info: LenTypeInfo,
        type_subsystem: (MessageType, Subsystem),
        command: u8,
    ) -> (r: UnpiPacket)
        requires
            len_type_info is OneByte ==> payload@.len() <= 255,
            len_type_info is TwoByte ==> payload@.len() <= 65535,
        ensures
            r@.wf(),
            r@.len.matches_info(len_type_info),
            r@.payload == payload@,
            r@.type_subsystem == type_subsystem,
            r@.command == command,
    {
        let len = match len_type_info {
            LenTypeInfo::OneByte => LenType::OneByte(payload.len() as u8),
            LenTypeInfo::TwoByte => LenType::TwoByte(payload.len() as u16),
        };
        let mut p = UnpiPacket {
            len,
            type_subsystem,
            command,
            payload: vstd::slice::slice_to_vec(payload),
            fcs: 0,
        };
        let fcs = p.checksum();
        p.fcs = fcs;
        proof {
            assert(p@.checksum_region() =~= UnpiPacketView { fcs: 0, ..p@ }.checksum_region());
        }
        p
    }

    /// Encodes the packet into wire bytes: SOF, length field,
    /// type/subsystem byte, command, payload, FCS.
    pub fn to_bytes(&self) -> (r: Vec<u8>)
        requires
            self@.payload.len() == self@.len.spec_size(),
        ensures
            r@ == self@.frame(),
    {
        let mut out: Vec<u8> = Vec::new();
        out.push(START_OF_FRAME);
        match self.len {
            LenType::OneByte(v) => {
                out.push(v);
            },
            LenType::TwoByte(v) => {
                out.push((v % 256) as u8);
                out.push((v / 256) as u8);
            },
        }
        out.push(ts_byte_encode((self.type_subsystem.0, self.type_subsystem.1)));
        out.push(self.command);
        let ghost head = seq![START_OF_FRAME] + self@.len.spec_le_bytes() + seq![
            spec_ts_byte(self@.type_subsystem),
            self@.command,
        ];
        proof {
            assert(out@ =~= head + self@.payload.subrange(0, 0));
        }
        let mut i: usize = 0;
        while i < self.payload.len()
            invariant
                i <= self.payload@.len(),
                out@ =~= head + self@.payload.subrange(0, i as int),
            decreases self.payload@.len() - i,
        {
            out.push(self.payload[i]);
            i = i + 1;
            proof {
                assert(self@.payload.subrange(0, i as int) =~= self@.payload.subrange(
                    0,
                    i - 1,
                ).push(self@.payload[i - 1]));
            }
        }
        out.push(self.fcs);
        proof {
            assert(self@.payload.subrange(0, self@.payload.len() as int) =~= self@.payload);
            assert(out@ =~= self@.frame());
        }
        out
    }

    /// Decodes one frame from the front of `data`; bytes after the frame
    /// are ignored. The result is exactly what `spec_decode` says of the
    /// input.
    pub fn from_bytes(data: &[u8], len_type_info: LenTypeInfo) -> (r: Result<
        UnpiPacket,
        UnpiPacketError,
    >)
        ensures
            r matches Ok(p) ==> spec_decode(data@, len_type_info) == Ok::<
                UnpiPacketView,
                UnpiPacketError,
            >(p@) && p@.wf() && p@.len.matches_info(len_type_info),
            r matches Err(e) ==> spec_decode(data@, len_type_info) == Err::<
                UnpiPacketView,
                UnpiPacketError,
            >(e),
    {
        if data.len() < 1 {
            return Err(UnpiPacketError::IoError);
        }
        let sof = data[0];
        if sof != START_OF_FRAME {
            return Err(UnpiPacketError::InvalidStartOfFrame(sof));
        }
        let lsz = len_type_info.byte_size();
        if data.len() < 1 + lsz {
            return Err(UnpiPacketError::IoError);
        }
        let (len, payload_len): (LenType, usize) = match len_type_info {
            LenTypeInfo::OneByte => (LenType::OneByte(data[1]), data[1] as usize),
            LenTypeInfo::TwoByte => {
                let v: u16 = data[1] as u16 + 256 * (data[2] as u16);
                (LenType::TwoByte(v), v as usize)
            },
        };
        let frame_len = 1 + lsz + 2 + payload_len + 1;
        if data.len() < frame_len {
            return Err(UnpiPacketError::IoError);
        }
        let (mt, ss) = ts_byte_decode(data[1 + lsz]);
        let command = data[2 + lsz];
        let payload = vstd::slice::slice_to_vec(
            vstd::slice::slice_subrange(data, 3 + lsz, 3 + lsz + payload_len),
        );
        let wire_fcs = data[frame_len - 1];
        let computed = Self::checksum_buffer(vstd::slice::slice_subrange(data, 1, frame_len - 1));
        let p = UnpiPacket { len, type_subsystem: (mt, ss), command, payload, fcs: wire_fcs };
        proof {
            assert(payload_len == spec_payload_len(data@, len_type_info));
            assert(frame_len == spec_frame_len(data@, len_type_info));
            assert(p@ == spec_packet_of(data@, len_type_info));
        }
        if wire_fcs == computed {
            proof {
                let region = data@.subrange(1, frame_len - 1);
                assert(p@.checksum_region() =~= region);
            }
            Ok(p)
        } else {
            Err(UnpiPacketError::InvalidFcs((wire_fcs, computed)))
        }
    }
}

} // verus!

verus! {

/// Changing exactly one byte of a sequence changes its XOR.
pub proof fn lemma_xor_seq_single_change(s1: Seq<u8>, s2: Seq<u8>, k: int)
    requires
        s1.len() == s2.len(),
        0 <= k < s1.len(),
        s1[k] != s2[k],
        forall|j: int| 0 <= j < s1.len() && j != k ==> s1[j] == s2[j],
    ensures
        xor_seq(s1) != xor_seq(s2),
{
    let pre = s1.subrange(0, k);
    let suf = s1.subrange(k + 1, s1.len() as int);
    assert(s2.subrange(0, k) =~= pre);
    assert(s2.subrange(k + 1, s2.len() as int) =~= suf);
    assert(s1 =~= (pre + seq![s1[k]]) + suf);
    assert(s2 =~= (pre + seq![s2[k]]) + suf);
    lemma_xor_seq_concat(pre + seq![s1[k]], suf);
    lemma_xor_seq_concat(pre + seq![s2[k]], suf);
    lemma_xor_seq_concat(pre, seq![s1[k]]);
    lemma_xor_seq_concat(pre, seq![s2[k]]);
    assert(seq![s1[k]].drop_last() =~= Seq::<u8>::empty());
    assert(seq![s2[k]].drop_last() =~= Seq::<u8>::empty());
    let a = xor_seq(pre);
    let b = xor_seq(suf);
    let x = s1[k];
    let y = s2[k];
    assert(xor_seq(Seq::<u8>::empty()) == 0);
    assert(xor_seq(seq![x]) == 0u8 ^ x);
    assert(xor_seq(seq![y]) == 0u8 ^ y);
    assert(xor_seq(s1) == (a ^ (0u8 ^ x)) ^ b);
    assert(xor_seq(s2) == (a ^ (0u8 ^ y)) ^ b);
    assert(x != y ==> (a ^ (0u8 ^ x)) ^ b != (a ^ (0u8 ^ y)) ^ b) by (bit_vector);
}

/// Codec round trip: decoding the encoded frame of a well-formed packet
/// gives the packet back, under the same length variant.
pub proof fn lemma_codec_round_trip(p: UnpiPacketView, info: LenTypeInfo)
    requires
        p.wf(),
        p.len.matches_info(info),
    ensures
        spec_decode(p.frame(), info) == Ok::<UnpiPacketView, UnpiPacketError>(p),
{
    let data = p.frame();
    let lsz = info.spec_byte_size();
    assert(data.len() == 1 + lsz + 2 + p.payload.len() + 1);
    assert(data[0] == START_OF_FRAME);
    match p.len {
        LenType::OneByte(v) => {
            assert(data[1] == v);
            assert(spec_payload_len(data, info) == v as int);
        },
        LenType::TwoByte(v) => {
            assert(data[1] == (v % 256) as u8);
            assert(data[2] == (v / 256) as u8);
            assert(spec_payload_len(data, info) == v as int);
        },
    }
    assert(spec_frame_len(data, info) == data.len());
    let q = spec_packet_of(data, info);
    lemma_ts_byte_round_trip(p.type_subsystem);
    assert(data[1 + lsz] == spec_ts_byte(p.type_subsystem));
    assert(q.type_subsystem == p.type_subsystem);
    assert(q.command == p.command);
    assert(q.payload =~= p.payload);
    assert(q.fcs == p.fcs);
    assert(q.len == p.len);
    let region = data.subrange(1, spec_frame_len(data, info) - 1);
    assert(region =~= p.checksum_region());
}

/// The checksum catches any single corrupted byte in the type/subsystem
/// byte, the command, the payload, or the FCS itself: decoding then
/// fails with `InvalidFcs`. (A corrupted length byte changes where the
/// frame ends and can fail differently.)
pub proof fn lemma_fcs_detects_corruption(
    data: Seq<u8>,
    corrupted: Seq<u8>,
    info: LenTypeInfo,
    i: int,
)
    requires
        spec_decode(data, info) is Ok,
        1 + info.spec_byte_size() <= i < spec_frame_len(data, info),
        corrupted.len() == data.len(),
        corrupted[i] != data[i],
        forall|j: int| 0 <= j < data.len() && j != i ==> corrupted[j] == data[j],
    ensures
        spec_decode(corrupted, info) matches Err(e) && e is InvalidFcs,
{
    let lsz = info.spec_byte_size();
    let flen = spec_frame_len(data, info);
    assert(corrupted[0] == data[0]);
    assert(corrupted[1] == data[1]);
    if lsz == 2 {
        assert(corrupted[2] == data[2]);
    }
    assert(spec_payload_len(corrupted, info) == spec_payload_len(data, info));
    assert(spec_frame_len(corrupted, info) == flen);
    let region = data.subrange(1, flen - 1);
    let region2 = corrupted.subrange(1, flen - 1);
    let wire = data[flen - 1];
    let wire2 = corrupted[flen - 1];
    assert(spec_packet_of(data, info).fcs == wire);
    assert(spec_packet_of(corrupted, info).fcs == wire2);
    assert(wire == xor_seq(region));
    if i == flen - 1 {
        // the FCS byte itself was corrupted; the recomputed checksum is
        // unchanged and no longer matches
        assert(region2 =~= region);
        assert(wire2 != wire);
    } else {
        // a covered byte was corrupted; the recomputed checksum moves
        // away from the unchanged FCS byte
        assert(wire2 == wire);
        assert(region2.len() == region.len());
        assert(region2[i - 1] != region[i - 1]);
        assert(forall|j: int| 0 <= j < region.len() && j != i - 1 ==> region2[j] == region[j]);
        lemma_xor_seq_single_change(region, region2, i - 1);
    }
}

} // verus!
