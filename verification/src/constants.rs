//! Protocol constants: the Z-Stack command-status table and the small
//! option enumerations the application framing layer uses.
use vstd::prelude::*;

verus! {

pub const BEACON_MAX_DEPTH: u8 = 0x0f;

pub const DEF_NWK_RADIUS: u8 = 2 * BEACON_MAX_DEPTH;

/// Default route-discovery radius handed to ZDO requests.
pub const DEFAULT_RADIUS: u8 = DEF_NWK_RADIUS;

/// Inter-PAN control sub-commands of the application framing layer.
#[derive(Debug, Clone, Copy, PartialEq, Eq, Structural)]
pub enum InterpanCtl {
    CTL,
    SET,
    REG,
    CHK,
}

impl InterpanCtl {
    /// The wire code of this sub-command.
    pub fn to_u8(self) -> (r: u8)
        ensures
            self is CTL ==> r == 0,
            self is SET ==> r == 1,
            self is REG ==> r == 2,
            self is CHK ==> r == 3,
    {
        match self {
            InterpanCtl::CTL => 0,
            InterpanCtl::SET => 1,
            InterpanCtl::REG => 2,
            InterpanCtl::CHK => 3,
        }
    }
}

/// Network-latency requirements of an endpoint registration.
#[derive(Debug, Clone, Copy, PartialEq, Eq, Structural)]
pub enum NetworkLatencyReq {
    NoLatencyReqs,
    FastBeacons,
    SlowBeacons,
}

impl NetworkLatencyReq {
    /// The wire code of this requirement.
    pub fn to_u8(self) -> (r: u8)
        ensures
            self is NoLatencyReqs ==> r == 0,
            self is FastBeacons ==> r == 1,
            self is SlowBeacons ==> r == 2,
    {
        match self {
            NetworkLatencyReq::NoLatencyReqs => 0,
            NetworkLatencyReq::FastBeacons => 1,
            NetworkLatencyReq::SlowBeacons => 2,
        }
    }
}

/// Transmit-option flags of an application-layer data request; each is
/// one bit of the options byte.
#[derive(Debug, Clone, Copy, PartialEq, Eq, Structural)]
pub enum Otions {
    Preprocess,
    LimitConcentrator,
    AckRequest,
    DiscvRoute,
    EnSecurity,
    SkipRouting,
}

impl Otions {
    /// The bit this flag occupies in the options byte.
    pub fn to_u8(self) -> (r: u8)
        ensures
            self is Preprocess ==> r == 4,
            self is LimitConcentrator ==> r == 8,
            self is AckRequest ==> r == 16,
            self is DiscvRoute ==> r == 32,
            self is EnSecurity ==> r == 64,
            self is SkipRouting ==> r == 128,
    {
        match self {
            Otions::Preprocess => 4,
            Otions::LimitConcentrator => 8,
            Otions::AckRequest => 16,
            Otions::DiscvRoute => 32,
            Otions::EnSecurity => 64,
            Otions::SkipRouting => 128,
        }
    }
}

/// A status byte of an SREQ response, covering the Z-Stack status table;
/// a code outside the table decodes to `Unknown` rather than failing.
#[derive(Debug, Clone, PartialEq)]
pub enum CommandStatus {
    Success,
    Failure,
    InvalidParam,
    NvItemInitialized,
    NvOperFailed,
    NvBadItemLen,
    MemError,
    BufferFull,
    UnsupportedMode,
    MacMemError,
    MacUnsupportedNotSpoort,
    MacBadState,
    MacNoResources,
    MacAckPending,
    MacNoTime,
    MacTxAborted,
    SapiInProgress,
    SapiTimeout,
    SapiInit,
    NotAuthorized,
    MalformedCmd,
    UnsupClusterCmd,
    OtaAbort,
    OtaImageInvalid,
    OtaWaitForData,
    OtaNoImageAvailable,
    OtaRequireMoreImage,
    ApsFail,
    ApsTableFull,
    ApsIllegalRequest,
    ApsInvalidBinding,
    ApsUnsupportedAttrib,
    ApsNotSupported,
    ApsNoAck,
    ApsDuplicateEntry,
    ApsNoBoundDevice,
    ApsNotAllowed,
    ApsNotAuthenticated,
    SecNoKey,
    SecOldFrmCount,
    SecMaxFrmCount,
    SecCcmFail,
    NwkInvalidParam,
    NwkInvalidRequest,
    NwkNotPermitted,
    NwkStartupFailure,
    NwkAlreadyPresent,
    NwkSyncFailure,
    NwkTableFull,
    NwkUnknownDevice,
    NwkUnsupportedAttribute,
    NwkNoNetworks,
    NwkLeaveUnconfirmed,
    NwkNoAck,
    NwkNoRoute,
    MacBeaconLoss,
    MacChannelAccessFailure,
    MacDenied,
    MacDisableTrxFailure,
    MacFailedSecurityCheck,
    MacFrameTooLong,
    MacInvalidGts,
    MacInvalidHandle,
    MacInvalidParameter,
    MacNoAck,
    MacNoBeacon,
    MacNoData,
    MacNoShortAddr,
    MacOutOfCap,
    MacPanidConflict,
    MacRealignment,
    MacTransactionExpired,
    MacTransactionOverflow,
    MacTxActive,
    MacUnavailableKey,
    MacUnsupportedAttribute,
    MacUnsupported,
    MacOnTimeTooLing,
    MacPastTime,
    MacTrackingOff,
    MacScanInProgress,
    MacSrcMatchInvalidIndex,
    Unknown(u8),
}

impl CommandStatus {
    /// The status byte this value stands for.
    pub open spec fn spec_to_u8(self) -> u8 {
        match self {
            CommandStatus::Success => 0x00,
            CommandStatus::Failure => 0x01,
            CommandStatus::InvalidParam => 0x02,
            CommandStatus::NvItemInitialized => 0x09,
            CommandStatus::NvOperFailed => 0x0a,
            CommandStatus::NvBadItemLen => 0x0c,
            CommandStatus::MemError => 0x10,
            CommandStatus::BufferFull => 0x11,
            CommandStatus::UnsupportedMode => 0x12,
            CommandStatus::MacMemError => 0x13,
            CommandStatus::MacUnsupportedNotSpoort => 0x18,
            CommandStatus::MacBadState => 0x19,
            CommandStatus::MacNoResources => 0x1a,
            CommandStatus::MacAckPending => 0x1b,
            CommandStatus::MacNoTime => 0x1c,
            CommandStatus::MacTxAborted => 0x1d,
            CommandStatus::SapiInProgress => 0x20,
            CommandStatus::SapiTimeout => 0x21,
            CommandStatus::SapiInit => 0x22,
            CommandStatus::NotAuthorized => 0x7e,
            CommandStatus::MalformedCmd => 0x80,
            CommandStatus::UnsupClusterCmd => 0x81,
            CommandStatus::OtaAbort => 0x95,
            CommandStatus::OtaImageInvalid => 0x96,
            CommandStatus::OtaWaitForData => 0x97,
            CommandStatus::OtaNoImageAvailable => 0x98,
            CommandStatus::OtaRequireMoreImage => 0x99,
            CommandStatus::ApsFail => 0xb1,
            CommandStatus::ApsTableFull => 0xb2,
            CommandStatus::ApsIllegalRequest => 0xb3,
            CommandStatus::ApsInvalidBinding => 0xb4,
            CommandStatus::ApsUnsupportedAttrib => 0xb5,
            CommandStatus::ApsNotSupported => 0xb6,
            CommandStatus::ApsNoAck => 0xb7,
            CommandStatus::ApsDuplicateEntry => 0xb8,
            CommandStatus::ApsNoBoundDevice => 0xb9,
            CommandStatus::ApsNotAllowed => 0xba,
            CommandStatus::ApsNotAuthenticated => 0xbb,
            CommandStatus::SecNoKey => 0xa1,
            CommandStatus::SecOldFrmCount => 0xa2,
            CommandStatus::SecMaxFrmCount => 0xa3,
            CommandStatus::SecCcmFail => 0xa4,
            CommandStatus::NwkInvalidParam => 0xc1,
            CommandStatus::NwkInvalidRequest => 0xc2,
            CommandStatus::NwkNotPermitted => 0xc3,
            CommandStatus::NwkStartupFailure => 0xc4,
            CommandStatus::NwkAlreadyPresent => 0xc5,
            CommandStatus::NwkSyncFailure => 0xc6,
            CommandStatus::NwkTableFull => 0xc7,
            CommandStatus::NwkUnknownDevice => 0xc8,
            CommandStatus::NwkUnsupportedAttribute => 0xc9,
            CommandStatus::NwkNoNetworks => 0xca,
            CommandStatus::NwkLeaveUnconfirmed => 0xcb,
            CommandStatus::NwkNoAck => 0xcc,
            CommandStatus::NwkNoRoute => 0xcd,
            CommandStatus::MacBeaconLoss => 0xe0,
            CommandStatus::MacChannelAccessFailure => 0xe1,
            CommandStatus::MacDenied => 0xe2,
            CommandStatus::MacDisableTrxFailure => 0xe3,
            CommandStatus::MacFailedSecurityCheck => 0xe4,
            CommandStatus::MacFrameTooLong => 0xe5,
            CommandStatus::MacInvalidGts => 0xe6,
            CommandStatus::MacInvalidHandle => 0xe7,
            CommandStatus::MacInvalidParameter => 0xe8,
            CommandStatus::MacNoAck => 0xe9,
            CommandStatus::MacNoBeacon => 0xea,
            CommandStatus::MacNoData => 0xeb,
            CommandStatus::MacNoShortAddr => 0xec,
            CommandStatus::MacOutOfCap => 0xed,
            CommandStatus::MacPanidConflict => 0xee,
            CommandStatus::MacRealignment => 0xef,
            CommandStatus::MacTransactionExpired => 0xf0,
            CommandStatus::MacTransactionOverflow => 0xf1,
            CommandStatus::MacTxActive => 0xf2,
            CommandStatus::MacUnavailableKey => 0xf3,
            CommandStatus::MacUnsupportedAttribute => 0xf4,
            CommandStatus::MacUnsupported => 0xf5,
            CommandStatus::MacOnTimeTooLing => 0xf6,
            CommandStatus::MacPastTime => 0xf7,
            CommandStatus::MacTrackingOff => 0xf8,
            CommandStatus::MacScanInProgress => 0xfc,
            CommandStatus::MacSrcMatchInvalidIndex => 0xff,
            CommandStatus::Unknown(v) => v,
        }
    }

    /// The status a byte names; bytes outside the table give `Unknown`.
    pub open spec fn spec_from_u8(value: u8) -> CommandStatus {
        if value == 0x00 {
            CommandStatus::Success
        } else if value == 0x01 {
            CommandStatus::Failure
        } else if value == 0x02 {
            CommandStatus::InvalidParam
        } else if value == 0x09 {
            CommandStatus::NvItemInitialized
        } else if value == 0x0a {
            CommandStatus::NvOperFailed
        } else if value == 0x0c {
            CommandStatus::NvBadItemLen
        } else if value == 0x10 {
            CommandStatus::MemError
        } else if value == 0x11 {
            CommandStatus::BufferFull
        } else if value == 0x12 {
            CommandStatus::UnsupportedMode
        } else if value == 0x13 {
            CommandStatus::MacMemError
        } else if value == 0x18 {
            CommandStatus::MacUnsupportedNotSpoort
        } else if value == 0x19 {
            CommandStatus::MacBadState
        } else if value == 0x1a {
            CommandStatus::MacNoResources
        } else if value == 0x1b {
            CommandStatus::MacAckPending
        } else if value == 0x1c {
            CommandStatus::MacNoTime
        } else if value == 0x1d {
            CommandStatus::MacTxAborted
        } else if value == 0x20 {
            CommandStatus::SapiInProgress
        } else if value == 0x21 {
            CommandStatus::SapiTimeout
        } else if value == 0x22 {
            CommandStatus::SapiInit
        } else if value == 0x7e {
            CommandStatus::NotAuthorized
        } else if value == 0x80 {
            CommandStatus::MalformedCmd
        } else if value == 0x81 {
            CommandStatus::UnsupClusterCmd
        } else if value == 0x95 {
            CommandStatus::OtaAbort
        } else if value == 0x96 {
            CommandStatus::OtaImageInvalid
        } else if value == 0x97 {
            CommandStatus::OtaWaitForData
        } else if value == 0x98 {
            CommandStatus::OtaNoImageAvailable
        } else if value == 0x99 {
            CommandStatus::OtaRequireMoreImage
        } else if value == 0xb1 {
            CommandStatus::ApsFail
        } else if value == 0xb2 {
            CommandStatus::ApsTableFull
        } else if value == 0xb3 {
            CommandStatus::ApsIllegalRequest
        } else if value == 0xb4 {
            CommandStatus::ApsInvalidBinding
        } else if value == 0xb5 {
            CommandStatus::ApsUnsupportedAttrib
        } else if value == 0xb6 {
            CommandStatus::ApsNotSupported
        } else if value == 0xb7 {
            CommandStatus::ApsNoAck
        } else if value == 0xb8 {
            CommandStatus::ApsDuplicateEntry
        } else if value == 0xb9 {
            CommandStatus::ApsNoBoundDevice
        } else if value == 0xba {
            CommandStatus::ApsNotAllowed
        } else if value == 0xbb {
            CommandStatus::ApsNotAuthenticated
        } else if value == 0xa1 {
            CommandStatus::SecNoKey
        } else if value == 0xa2 {
            CommandStatus::SecOldFrmCount
        } else if value == 0xa3 {
            CommandStatus::SecMaxFrmCount
        } else if value == 0xa4 {
            CommandStatus::SecCcmFail
        } else if value == 0xc1 {
            CommandStatus::NwkInvalidParam
        } else if value == 0xc2 {
            CommandStatus::NwkInvalidRequest
        } else if value == 0xc3 {
            CommandStatus::NwkNotPermitted
        } else if value == 0xc4 {
            CommandStatus::NwkStartupFailure
        } else if value == 0xc5 {
            CommandStatus::NwkAlreadyPresent
        } else if value == 0xc6 {
            CommandStatus::NwkSyncFailure
        } else if value == 0xc7 {
            CommandStatus::NwkTableFull
        } else if value == 0xc8 {
            CommandStatus::NwkUnknownDevice
        } else if value == 0xc9 {
            CommandStatus::NwkUnsupportedAttribute
        } else if value == 0xca {
            CommandStatus::NwkNoNetworks
        } else if value == 0xcb {
            CommandStatus::NwkLeaveUnconfirmed
        } else if value == 0xcc {
            CommandStatus::NwkNoAck
        } else if value == 0xcd {
            CommandStatus::NwkNoRoute
        } else if value == 0xe0 {
            CommandStatus::MacBeaconLoss
        } else if value == 0xe1 {
            CommandStatus::MacChannelAccessFailure
        } else if value == 0xe2 {
            CommandStatus::MacDenied
        } else if value == 0xe3 {
            CommandStatus::MacDisableTrxFailure
        } else if value == 0xe4 {
            CommandStatus::MacFailedSecurityCheck
        } else if value == 0xe5 {
            CommandStatus::MacFrameTooLong
        } else if value == 0xe6 {
            CommandStatus::MacInvalidGts
        } else if value == 0xe7 {
            CommandStatus::MacInvalidHandle
        } else if value == 0xe8 {
            CommandStatus::MacInvalidParameter
        } else if value == 0xe9 {
            CommandStatus::MacNoAck
        } else if value == 0xea {
            CommandStatus::MacNoBeacon
        } else if value == 0xeb {
            CommandStatus::MacNoData
        } else if value == 0xec {
            CommandStatus::MacNoShortAddr
        } else if value == 0xed {
            CommandStatus::MacOutOfCap
        } else if value == 0xee {
            CommandStatus::MacPanidConflict
        } else if value == 0xef {
            CommandStatus::MacRealignment
        } else if value == 0xf0 {
            CommandStatus::MacTransactionExpired
        } else if value == 0xf1 {
            CommandStatus::MacTransactionOverflow
        } else if value == 0xf2 {
            CommandStatus::MacTxActive
        } else if value == 0xf3 {
            CommandStatus::MacUnavailableKey
        } else if value == 0xf4 {
            CommandStatus::MacUnsupportedAttribute
        } else if value == 0xf5 {
            CommandStatus::MacUnsupported
        } else if value == 0xf6 {
            CommandStatus::MacOnTimeTooLing
        } else if value == 0xf7 {
            CommandStatus::MacPastTime
        } else if value == 0xf8 {
            CommandStatus::MacTrackingOff
        } else if value == 0xfc {
            CommandStatus::MacScanInProgress
        } else if value == 0xff {
            CommandStatus::MacSrcMatchInvalidIndex
        } else {
            CommandStatus::Unknown(value)
        }
    }

    /// Decodes a status byte; never fails.
    pub fn from_u8(value: u8) -> (r: CommandStatus)
        ensures
            r == CommandStatus::spec_from_u8(value),
    {
        match value {
            0x00 => CommandStatus::Success,
            0x01 => CommandStatus::Failure,
            0x02 => CommandStatus::InvalidParam,
            0x09 => CommandStatus::NvItemInitialized,
            0x0a => CommandStatus::NvOperFailed,
            0x0c => CommandStatus::NvBadItemLen,
            0x10 => CommandStatus::MemError,
            0x11 => CommandStatus::BufferFull,
            0x12 => CommandStatus::UnsupportedMode,
            0x13 => CommandStatus::MacMemError,
            0x18 => CommandStatus::MacUnsupportedNotSpoort,
            0x19 => CommandStatus::MacBadState,
            0x1a => CommandStatus::MacNoResources,
            0x1b => CommandStatus::MacAckPending,
            0x1c => CommandStatus::MacNoTime,
            0x1d => CommandStatus::MacTxAborted,
            0x20 => CommandStatus::SapiInProgress,
            0x21 => CommandStatus::SapiTimeout,
            0x22 => CommandStatus::SapiInit,
            0x7e => CommandStatus::NotAuthorized,
            0x80 => CommandStatus::MalformedCmd,
            0x81 => CommandStatus::UnsupClusterCmd,
            0x95 => CommandStatus::OtaAbort,
            0x96 => CommandStatus::OtaImageInvalid,
            0x97 => CommandStatus::OtaWaitForData,
            0x98 => CommandStatus::OtaNoImageAvailable,
            0x99 => CommandStatus::OtaRequireMoreImage,
            0xb1 => CommandStatus::ApsFail,
            0xb2 => CommandStatus::ApsTableFull,
            0xb3 => CommandStatus::ApsIllegalRequest,
            0xb4 => CommandStatus::ApsInvalidBinding,
            0xb5 => CommandStatus::ApsUnsupportedAttrib,
            0xb6 => CommandStatus::ApsNotSupported,
            0xb7 => CommandStatus::ApsNoAck,
            0xb8 => CommandStatus::ApsDuplicateEntry,
            0xb9 => CommandStatus::ApsNoBoundDevice,
            0xba => CommandStatus::ApsNotAllowed,
            0xbb => CommandStatus::ApsNotAuthenticated,
            0xa1 => CommandStatus::SecNoKey,
            0xa2 => CommandStatus::SecOldFrmCount,
            0xa3 => CommandStatus::SecMaxFrmCount,
            0xa4 => CommandStatus::SecCcmFail,
            0xc1 => CommandStatus::NwkInvalidParam,
            0xc2 => CommandStatus::NwkInvalidRequest,
            0xc3 => CommandStatus::NwkNotPermitted,
            0xc4 => CommandStatus::NwkStartupFailure,
            0xc5 => CommandStatus::NwkAlreadyPresent,
            0xc6 => CommandStatus::NwkSyncFailure,
            0xc7 => CommandStatus::NwkTableFull,
            0xc8 => CommandStatus::NwkUnknownDevice,
            0xc9 => CommandStatus::NwkUnsupportedAttribute,
            0xca => CommandStatus::NwkNoNetworks,
            0xcb => CommandStatus::NwkLeaveUnconfirmed,
            0xcc => CommandStatus::NwkNoAck,
            0xcd => CommandStatus::NwkNoRoute,
            0xe0 => CommandStatus::MacBeaconLoss,
            0xe1 => CommandStatus::MacChannelAccessFailure,
            0xe2 => CommandStatus::MacDenied,
            0xe3 => CommandStatus::MacDisableTrxFailure,
            0xe4 => CommandStatus::MacFailedSecurityCheck,
            0xe5 => CommandStatus::MacFrameTooLong,
            0xe6 => CommandStatus::MacInvalidGts,
            0xe7 => CommandStatus::MacInvalidHandle,
            0xe8 => CommandStatus::MacInvalidParameter,
            0xe9 => CommandStatus::MacNoAck,
            0xea => CommandStatus::MacNoBeacon,
            0xeb => CommandStatus::MacNoData,
            0xec => CommandStatus::MacNoShortAddr,
            0xed => CommandStatus::MacOutOfCap,
            0xee => CommandStatus::MacPanidConflict,
            0xef => CommandStatus::MacRealignment,
            0xf0 => CommandStatus::MacTransactionExpired,
            0xf1 => CommandStatus::MacTransactionOverflow,
            0xf2 => CommandStatus::MacTxActive,
            0xf3 => CommandStatus::MacUnavailableKey,
            0xf4 => CommandStatus::MacUnsupportedAttribute,
            0xf5 => CommandStatus::MacUnsupported,
            0xf6 => CommandStatus::MacOnTimeTooLing,
            0xf7 => CommandStatus::MacPastTime,
            0xf8 => CommandStatus::MacTrackingOff,
            0xfc => CommandStatus::MacScanInProgress,
            0xff => CommandStatus::MacSrcMatchInvalidIndex,
            _ => CommandStatus::Unknown(value),
        }
    }

    /// The status byte this value stands for.
    pub fn to_u8(&self) -> (r: u8)
        ensures
            r == self.spec_to_u8(),
    {
        match self {
            CommandStatus::Success => 0x00,
            CommandStatus::Failure => 0x01,
            CommandStatus::InvalidParam => 0x02,
            CommandStatus::NvItemInitialized => 0x09,
            CommandStatus::NvOperFailed => 0x0a,
            CommandStatus::NvBadItemLen => 0x0c,
            CommandStatus::MemError => 0x10,
            CommandStatus::BufferFull => 0x11,
            CommandStatus::UnsupportedMode => 0x12,
            CommandStatus::MacMemError => 0x13,
            CommandStatus::MacUnsupportedNotSpoort => 0x18,
            CommandStatus::MacBadState => 0x19,
            CommandStatus::MacNoResources => 0x1a,
            CommandStatus::MacAckPending => 0x1b,
            CommandStatus::MacNoTime => 0x1c,
            CommandStatus::MacTxAborted => 0x1d,
            CommandStatus::SapiInProgress => 0x20,
            CommandStatus::SapiTimeout => 0x21,
            CommandStatus::SapiInit => 0x22,
            CommandStatus::NotAuthorized => 0x7e,
            CommandStatus::MalformedCmd => 0x80,
            CommandStatus::UnsupClusterCmd => 0x81,
            CommandStatus::OtaAbort => 0x95,
            CommandStatus::OtaImageInvalid => 0x96,
            CommandStatus::OtaWaitForData => 0x97,
            CommandStatus::OtaNoImageAvailable => 0x98,
            CommandStatus::OtaRequireMoreImage => 0x99,
            CommandStatus::ApsFail => 0xb1,
            CommandStatus::ApsTableFull => 0xb2,
            CommandStatus::ApsIllegalRequest => 0xb3,
            CommandStatus::ApsInvalidBinding => 0xb4,
            CommandStatus::ApsUnsupportedAttrib => 0xb5,
            CommandStatus::ApsNotSupported => 0xb6,
            CommandStatus::ApsNoAck => 0xb7,
            CommandStatus::ApsDuplicateEntry => 0xb8,
            CommandStatus::ApsNoBoundDevice => 0xb9,
            CommandStatus::ApsNotAllowed => 0xba,
            CommandStatus::ApsNotAuthenticated => 0xbb,
            CommandStatus::SecNoKey => 0xa1,
            CommandStatus::SecOldFrmCount => 0xa2,
            CommandStatus::SecMaxFrmCount => 0xa3,
            CommandStatus::SecCcmFail => 0xa4,
            CommandStatus::NwkInvalidParam => 0xc1,
            CommandStatus::NwkInvalidRequest => 0xc2,
            CommandStatus::NwkNotPermitted => 0xc3,
            CommandStatus::NwkStartupFailure => 0xc4,
            CommandStatus::NwkAlreadyPresent => 0xc5,
            CommandStatus::NwkSyncFailure => 0xc6,
            CommandStatus::NwkTableFull => 0xc7,
            CommandStatus::NwkUnknownDevice => 0xc8,
            CommandStatus::NwkUnsupportedAttribute => 0xc9,
            CommandStatus::NwkNoNetworks => 0xca,
            CommandStatus::NwkLeaveUnconfirmed => 0xcb,
            CommandStatus::NwkNoAck => 0xcc,
            CommandStatus::NwkNoRoute => 0xcd,
            CommandStatus::MacBeaconLoss => 0xe0,
            CommandStatus::MacChannelAccessFailure => 0xe1,
            CommandStatus::MacDenied => 0xe2,
            CommandStatus::MacDisableTrxFailure => 0xe3,
            CommandStatus::MacFailedSecurityCheck => 0xe4,
            CommandStatus::MacFrameTooLong => 0xe5,
            CommandStatus::MacInvalidGts => 0xe6,
            CommandStatus::MacInvalidHandle => 0xe7,
            CommandStatus::MacInvalidParameter => 0xe8,
            CommandStatus::MacNoAck => 0xe9,
            CommandStatus::MacNoBeacon => 0xea,
            CommandStatus::MacNoData => 0xeb,
            CommandStatus::MacNoShortAddr => 0xec,
            CommandStatus::MacOutOfCap => 0xed,
            CommandStatus::MacPanidConflict => 0xee,
            CommandStatus::MacRealignment => 0xef,
            CommandStatus::MacTransactionExpired => 0xf0,
            CommandStatus::MacTransactionOverflow => 0xf1,
            CommandStatus::MacTxActive => 0xf2,
            CommandStatus::MacUnavailableKey => 0xf3,
            CommandStatus::MacUnsupportedAttribute => 0xf4,
            CommandStatus::MacUnsupported => 0xf5,
            CommandStatus::MacOnTimeTooLing => 0xf6,
            CommandStatus::MacPastTime => 0xf7,
            CommandStatus::MacTrackingOff => 0xf8,
            CommandStatus::MacScanInProgress => 0xfc,
            CommandStatus::MacSrcMatchInvalidIndex => 0xff,
            CommandStatus::Unknown(v) => *v,
        }
    }
}

pub open spec fn command_status_round_trip_holds(s: CommandStatus) -> bool {
    CommandStatus::spec_from_u8(s.spec_to_u8()) == s
}

/// Every named status decodes back from its own byte.
pub proof fn lemma_command_status_round_trip(s: CommandStatus)
    requires
        !(s is Unknown),
    ensures
        command_status_round_trip_holds(s),
{
}

} // verus!
