//! Host-side driver logic for a CC253x Zigbee coordinator radio: the UNPI
//! framing codec, the Monitor-and-Test command catalog, a predicate-keyed
//! subscription registry, and the request/reply and NV-memory protocols
//! built on top of them. Serial I/O itself lives outside this crate; the
//! library works on plain bytes and packets.
use vstd::prelude::*;

pub mod cc253x;
pub mod commands;
pub mod constants;
pub mod coordinator;
pub mod engine;
pub mod map;
pub mod nib;
pub mod nv;
pub mod parameters;
pub mod slice_reader;
pub mod slice_writer;
pub mod subscription;
pub mod unpi;

verus! {

/// Message-type codes as used by the low-level RPC framing; the same
/// 3-bit field as `unpi::MessageType`, under the historical names.
pub enum CommandType {
    Poll,
    SREQ,
    AREQ,
    SRSP,
    RES0,
    RES1,
    RES2,
    RES3,
}

impl CommandType {
    pub open spec fn spec_to_u8(self) -> u8 {
        match self {
            CommandType::Poll => 0,
            CommandType::SREQ => 1,
            CommandType::AREQ => 2,
            CommandType::SRSP => 3,
            CommandType::RES0 => 4,
            CommandType::RES1 => 5,
            CommandType::RES2 => 6,
            CommandType::RES3 => 7,
        }
    }

    /// The 3-bit wire code of this message type.
    pub fn to_u8(self) -> (r: u8)
        ensures
            r == self.spec_to_u8(),
    {
        match self {
            CommandType::Poll => 0,
            CommandType::SREQ => 1,
            CommandType::AREQ => 2,
            CommandType::SRSP => 3,
            CommandType::RES0 => 4,
            CommandType::RES1 => 5,
            CommandType::RES2 => 6,
            CommandType::RES3 => 7,
        }
    }

    /// Decode a 3-bit wire code; values above 7 are rejected.
    pub fn from_u8(value: u8) -> (r: Result<CommandType, ()>)
        ensures
            value <= 7 <==> r is Ok,
            r matches Ok(c) ==> c.spec_to_u8() == value,
    {
        match value {
            0 => Ok(CommandType::Poll),
            1 => Ok(CommandType::SREQ),
            2 => Ok(CommandType::AREQ),
            3 => Ok(CommandType::SRSP),
            4 => Ok(CommandType::RES0),
            5 => Ok(CommandType::RES1),
            6 => Ok(CommandType::RES2),
            7 => Ok(CommandType::RES3),
            _ => Err(()),
        }
    }
}

} // verus!

verus! {

/// Subsystem codes under their RPC-layer names; the same 5-bit field as
/// `unpi::Subsystem`.
pub enum Subsystem {
    RpcSysRes0,
    RpcSysSys,
    RpcSysMac,
    RpcSysNwk,
    RpcSysAf,
    RpcSysZdo,
    RpcSysSapi,
    RpcSysUtil,
    RpcSysDbg,
    RpcSysApp,
    RpcSysRcaf,
    RpcSysRcn,
    RpcSysRcnClient,
    RpcSysBoot,
    RpcSysZiptest,
    RpcSysDebug,
    RpcSysPeripherals,
    RpcSysNfc,
    RpcSysPbNwkMgr,
    RpcSysPbGw,
    RpcSysPbOtaMgr,
    RpcSysBleSpnp,
    RpcSysBleHci,
    RpcSysResv01,
    RpcSysResv02,
    RpcSysResv03,
    RpcSysResv04,
    RpcSysResv05,
    RpcSysResv06,
    RpcSysResv07,
    RpcSysResv08,
    RpcSysSrvCtr,
}

impl Subsystem {
    /// Decodes a 5-bit subsystem code; values above 31 name none.
    pub fn from_u8(value: u8) -> (r: Result<Subsystem, ()>)
        ensures
            value <= 31 <==> r is Ok,
    {
        match value {
            0 => Ok(Subsystem::RpcSysRes0),
            1 => Ok(Subsystem::RpcSysSys),
            2 => Ok(Subsystem::RpcSysMac),
            3 => Ok(Subsystem::RpcSysNwk),
            4 => Ok(Subsystem::RpcSysAf),
            5 => Ok(Subsystem::RpcSysZdo),
            6 => Ok(Subsystem::RpcSysSapi),
            7 => Ok(Subsystem::RpcSysUtil),
            8 => Ok(Subsystem::RpcSysDbg),
            9 => Ok(Subsystem::RpcSysApp),
            10 => Ok(Subsystem::RpcSysRcaf),
            11 => Ok(Subsystem::RpcSysRcn),
            12 => Ok(Subsystem::RpcSysRcnClient),
            13 => Ok(Subsystem::RpcSysBoot),
            14 => Ok(Subsystem::RpcSysZiptest),
            15 => Ok(Subsystem::RpcSysDebug),
            16 => Ok(Subsystem::RpcSysPeripherals),
            17 => Ok(Subsystem::RpcSysNfc),
            18 => Ok(Subsystem::RpcSysPbNwkMgr),
            19 => Ok(Subsystem::RpcSysPbGw),
            20 => Ok(Subsystem::RpcSysPbOtaMgr),
            21 => Ok(Subsystem::RpcSysBleSpnp),
            22 => Ok(Subsystem::RpcSysBleHci),
            23 => Ok(Subsystem::RpcSysResv01),
            24 => Ok(Subsystem::RpcSysResv02),
            25 => Ok(Subsystem::RpcSysResv03),
            26 => Ok(Subsystem::RpcSysResv04),
            27 => Ok(Subsystem::RpcSysResv05),
            28 => Ok(Subsystem::RpcSysResv06),
            29 => Ok(Subsystem::RpcSysResv07),
            30 => Ok(Subsystem::RpcSysResv08),
            31 => Ok(Subsystem::RpcSysSrvCtr),
            _ => Err(()),
        }
    }
}

/// Handle of the first codec generation; the framing state lives
/// entirely in the packets, so it carries nothing.
#[derive(Debug)]
pub struct Unpi {}

impl Unpi {
    pub fn new() -> Unpi {
        Unpi {  }
    }
}

/// Decode failures as the first codec generation named them.
#[derive(Debug, Clone, Copy, PartialEq, Eq, Structural)]
pub enum UnpiHeaderError {
    InvalidStartOfFrame,
    InvalidFcs,
    InvalidTypeSubsystem,
    Parse,
    InvalidCommand,
    IoError,
}

} // verus!
