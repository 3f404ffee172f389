//! Coordinator-level types: device information, the Zigbee event
//! taxonomy, the small option enumerations of the typed operations, and
//! the one flat error every fallible operation reports.
use crate::commands::{lemma_map_get_wf, map_values_wf, ParametersValueMap};
use crate::constants::CommandStatus;
use crate::parameters::{ParameterError, ParameterValueView};
use crate::unpi::UnpiPacketError;
use vstd::prelude::*;

verus! {

/// What `get_device_info` reports about the radio and its associated
/// devices.
#[derive(Debug, PartialEq)]
pub struct DeviceInfo {
    pub status: u8,
    pub ieee_addr: [u8; 8],
    pub short_addr: u16,
    pub device_type: u8,
    pub device_state: u8,
    pub num_assoc_devices: u8,
    pub assoc_devices_list: Vec<u16>,
}

/// One of two shapes a value can take.
#[derive(Debug, Clone, Copy)]
pub enum Either<A, B> {
    Left(A),
    Right(B),
}

/// The network events the built-in bridges report to the installed
/// callback.
#[derive(Debug, Clone, Copy)]
pub enum ZigbeeEvent {
    DeviceJoined { network_address: u16, ieee_address: [u8; 8] },
    DeviceAnnounce { network_address: u16, ieee_address: [u8; 8] },
    NetworkAddress { network_address: u16, ieee_address: [u8; 8] },
    DeviceLeave(Either<(Option<u16>, [u8; 8]), (u16, Option<[u8; 8]>)>),
}

/// ZDO addressing modes.
#[derive(Debug, Clone, Copy, PartialEq, Eq, Structural)]
pub enum AddressMode {
    AddrNotPresent,
    AddrGroup,
    Addr16bit,
    Addr64bit,
    AddrBroadcast,
}

impl AddressMode {
    /// The wire code of this addressing mode.
    pub open spec fn spec_to_u16(self) -> u16 {
        match self {
            AddressMode::AddrNotPresent => 0,
            AddressMode::AddrGroup => 1,
            AddressMode::Addr16bit => 2,
            AddressMode::Addr64bit => 3,
            AddressMode::AddrBroadcast => 15,
        }
    }

    /// The wire code of this addressing mode.
    pub fn to_u16(self) -> (r: u16)
        ensures
            r == self.spec_to_u16(),
    {
        match self {
            AddressMode::AddrNotPresent => 0,
            AddressMode::AddrGroup => 1,
            AddressMode::Addr16bit => 2,
            AddressMode::Addr64bit => 3,
            AddressMode::AddrBroadcast => 15,
        }
    }
}

/// What `set_led` asks of the radio's LED.
#[derive(Debug, Clone, Copy, PartialEq, Eq, Structural)]
pub enum LedStatus {
    Disable,
    On,
    Off,
}

/// The two reset flavours of `reset_req`.
#[derive(Debug, Clone, Copy, PartialEq, Eq, Structural)]
pub enum ResetType {
    Soft,
    Hard,
}

impl ResetType {
    /// The wire byte of this reset type: soft is 1, hard is 0.
    pub fn to_u8(self) -> (r: u8)
        ensures
            self is Soft ==> r == 1,
            self is Hard ==> r == 0,
    {
        match self {
            ResetType::Soft => 1,
            ResetType::Hard => 0,
        }
    }

    /// Decodes a reset-type byte; bytes above 1 name no reset type.
    pub fn from_u8(value: u8) -> (r: Result<ResetType, UnpiPacketError>)
        ensures
            value == 0 ==> r == Ok::<ResetType, UnpiPacketError>(ResetType::Hard),
            value == 1 ==> r == Ok::<ResetType, UnpiPacketError>(ResetType::Soft),
            value > 1 ==> r == Err::<ResetType, UnpiPacketError>(UnpiPacketError::Parse),
    {
        match value {
            0 => Ok(ResetType::Hard),
            1 => Ok(ResetType::Soft),
            _ => Err(UnpiPacketError::Parse),
        }
    }
}

/// Errors of the transport workers, reported through the coordinator.
#[derive(Debug, Clone, PartialEq)]
pub enum SerialThreadError {
    SerialOpen,
    SerialRead(String),
    SerialWrite(String),
    MalformedPacket,
    SubscriptionWrite,
    PacketParse,
    SerialChannelMissing,
    SerialChannel,
}

/// The one flat error taxonomy of the coordinator's operations.
#[derive(Debug, Clone, PartialEq)]
pub enum CoordinatorError {
    /// Transport construction failed; carries the backend's message.
    SerialOpen(String),
    Serial(SerialThreadError),
    SerialWrite,
    SerialRead,
    /// No catalog entry under the given name.
    NoCommandWithName,
    Io,
    InvalidChannel,
    /// The received packet does not fit the expected response schema.
    ResponseMismatch,
    MapFull(crate::map::MapError),
    NoRequest,
    /// The request timed out without a reply.
    NoResponse,
    SerialChannelMissing,
    /// The completion slot was dropped before fulfillment.
    SubscriptionError,
    /// The operation is not available in inter-PAN mode.
    InterpanMode,
    /// A permit-join duration above 255 seconds cannot be encoded.
    DurationTooLong,
    /// The startup handshake exhausted its retries.
    CoordinatorOpen,
    MissingKey,
    ParameterNotFound,
    InvalidCommandStatus,
    InvalidResponse,
    InvalidMessageType,
    /// A decode failure at the packet codec.
    Packet(UnpiPacketError),
    /// A parameter encode or decode failure.
    Parameter(ParameterError),
    /// The radio answered an SREQ with a non-success status.
    CommandStatusFailure(CommandStatus),
}


/// The outcome the seven device-info fields dictate, checked in the
/// order the conversion reads them: the first absent field gives
/// `MissingKey`, the first field of the wrong kind gives
/// `InvalidResponse`, and with all seven in place nothing fails.
pub open spec fn spec_device_info_error(m: ParametersValueMap) -> Option<CoordinatorError> {
    if m.spec_get("status"@) is None {
        Some(CoordinatorError::MissingKey)
    } else if !(m.spec_get("status"@)->Some_0@ is U8) {
        Some(CoordinatorError::InvalidResponse)
    } else if m.spec_get("ieee_addr"@) is None {
        Some(CoordinatorError::MissingKey)
    } else if !(m.spec_get("ieee_addr"@)->Some_0@ is IeeAddress) {
        Some(CoordinatorError::InvalidResponse)
    } else if m.spec_get("short_addr"@) is None {
        Some(CoordinatorError::MissingKey)
    } else if !(m.spec_get("short_addr"@)->Some_0@ is U16) {
        Some(CoordinatorError::InvalidResponse)
    } else if m.spec_get("device_type"@) is None {
        Some(CoordinatorError::MissingKey)
    } else if !(m.spec_get("device_type"@)->Some_0@ is U8) {
        Some(CoordinatorError::InvalidResponse)
    } else if m.spec_get("device_state"@) is None {
        Some(CoordinatorError::MissingKey)
    } else if !(m.spec_get("device_state"@)->Some_0@ is U8) {
        Some(CoordinatorError::InvalidResponse)
    } else if m.spec_get("num_assoc_devices"@) is None {
        Some(CoordinatorError::MissingKey)
    } else if !(m.spec_get("num_assoc_devices"@)->Some_0@ is U8) {
        Some(CoordinatorError::InvalidResponse)
    } else if m.spec_get("assoc_devices_list"@) is None {
        Some(CoordinatorError::MissingKey)
    } else if !(m.spec_get("assoc_devices_list"@)->Some_0@ is ListU16) {
        Some(CoordinatorError::InvalidResponse)
    } else {
        None
    }
}

impl DeviceInfo {
    /// Reads the typed device information out of a decoded
    /// `get_device_info` parameter map.
    pub fn from_parameters(map: &ParametersValueMap) -> (r: Result<DeviceInfo, CoordinatorError>)
        requires
            map.wf(),
            map_values_wf(*map),
        ensures
            r is Ok <==> spec_device_info_error(*map) is None,
            r matches Err(e) ==> spec_device_info_error(*map) == Some(e),
            r matches Ok(d) ==> {
                &&& map.spec_get("status"@) matches Some(v) && v@ == ParameterValueView::U8(
                    d.status,
                )
                &&& map.spec_get("ieee_addr"@) matches Some(v) && v@
                    == ParameterValueView::IeeAddress(d.ieee_addr@)
                &&& map.spec_get("short_addr"@) matches Some(v) && v@ == ParameterValueView::U16(
                    d.short_addr,
                )
                &&& map.spec_get("device_type"@) matches Some(v) && v@ == ParameterValueView::U8(
                    d.device_type,
                )
                &&& map.spec_get("device_state"@) matches Some(v) && v@ == ParameterValueView::U8(
                    d.device_state,
                )
                &&& map.spec_get("num_assoc_devices"@) matches Some(v) && v@
                    == ParameterValueView::U8(d.num_assoc_devices)
                &&& map.spec_get("assoc_devices_list"@) matches Some(v) && v@
                    == ParameterValueView::ListU16(d.assoc_devices_list@)
            },
    {
        let status = match map.get("status") {
            Some(v) => match v.try_into_u8() {
                Ok(x) => x,
                Err(_) => {
                    return Err(CoordinatorError::InvalidResponse);
                },
            },
            None => {
                return Err(CoordinatorError::MissingKey);
            },
        };
        let ieee_addr = match map.get("ieee_addr") {
            Some(v) => match v.try_into_ieee_addr() {
                Ok(x) => x,
                Err(_) => {
                    return Err(CoordinatorError::InvalidResponse);
                },
            },
            None => {
                return Err(CoordinatorError::MissingKey);
            },
        };
        let short_addr = match map.get("short_addr") {
            Some(v) => match v.try_into_u16() {
                Ok(x) => x,
                Err(_) => {
                    return Err(CoordinatorError::InvalidResponse);
                },
            },
            None => {
                return Err(CoordinatorError::MissingKey);
            },
        };
        let device_type = match map.get("device_type") {
            Some(v) => match v.try_into_u8() {
                Ok(x) => x,
                Err(_) => {
                    return Err(CoordinatorError::InvalidResponse);
                },
            },
            None => {
                return Err(CoordinatorError::MissingKey);
            },
        };
        let device_state = match map.get("device_state") {
            Some(v) => match v.try_into_u8() {
                Ok(x) => x,
                Err(_) => {
                    return Err(CoordinatorError::InvalidResponse);
                },
            },
            None => {
                return Err(CoordinatorError::MissingKey);
            },
        };
        let num_assoc_devices = match map.get("num_assoc_devices") {
            Some(v) => match v.try_into_u8() {
                Ok(x) => x,
                Err(_) => {
                    return Err(CoordinatorError::InvalidResponse);
                },
            },
            None => {
                return Err(CoordinatorError::MissingKey);
            },
        };
        let assoc_devices_list = match map.get("assoc_devices_list") {
            Some(v) => {
                proof {
                    lemma_map_get_wf(*map, "assoc_devices_list"@);
                }
                match v.try_into_list_u16() {
                    Ok(x) => x,
                    Err(_) => {
                        return Err(CoordinatorError::InvalidResponse);
                    },
                }
            },
            None => {
                return Err(CoordinatorError::MissingKey);
            },
        };
        Ok(
            DeviceInfo {
                status,
                ieee_addr,
                short_addr,
                device_type,
                device_state,
                num_assoc_devices,
                assoc_devices_list,
            },
        )
    }
}

} // verus!
