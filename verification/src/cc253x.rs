//! The CC253x coordinator façade: typed operations over the request
//! engine, the startup handshake, and the run-state machine. Every
//! operation here only decides and encodes; the surrounding program
//! moves the queued frames over the serial link and feeds replies and
//! timeouts back.
use crate::commands::{
    get_command_by_name, map_matches_fields, spec_command_by_name, spec_read_device_info,
    spec_read_fields, ParametersValueMap,
};
use crate::constants::{CommandStatus, DEFAULT_RADIUS};
use crate::coordinator::{AddressMode, CoordinatorError, DeviceInfo, LedStatus, ResetType};
use crate::engine::{spec_request_payload, CoordinatorCore, UnpiCommandError};
use crate::parameters::ParameterValue;
use crate::subscription::{Action, Predicate, Subscription};
use crate::unpi::{MessageType, Subsystem, UnpiPacket};
use vstd::prelude::*;

verus! {

/// Where the coordinator stands in its life cycle; `Stopped` is
/// terminal.
#[derive(Debug, Clone, Copy, PartialEq, Eq, Structural)]
pub enum RunState {
    Created,
    Started,
    Stopped,
}

/// Where the startup handshake stands.
#[derive(Debug, Clone, Copy, PartialEq, Eq, Structural)]
pub enum HandshakePhase {
    /// A ping is out; its reply slot is armed.
    PingSent,
    /// The ping came back; a version request is out.
    VersionSent,
    /// The version reply carried a readable major release: the radio is
    /// up.
    Done,
}

/// One startup attempt in flight: its phase, how many pings were tried,
/// and the completion slot of the outstanding request.
#[derive(Debug, Clone, Copy, PartialEq, Eq, Structural)]
pub struct Handshake {
    pub phase: HandshakePhase,
    pub attempts: u8,
    pub slot: u64,
}

/// How many pings `start` tries before giving up.
pub const START_ATTEMPTS: u8 = 3;

/// The coordinator: the pure driver core plus the façade's own state.
#[derive(Debug)]
pub struct CC253X {
    pub core: CoordinatorCore,
    pub state: RunState,
    pub supports_led: Option<bool>,
    pub inter_pan_mode: bool,
}

/// Converts an engine-level failure into the flat coordinator error.
pub fn coordinator_error_of(e: UnpiCommandError) -> (r: CoordinatorError)
    ensures
        e is NoCommandWithName ==> r is NoCommandWithName,
        e is InvalidMessageType ==> r is InvalidMessageType,
        e matches UnpiCommandError::Parameter(pe) ==> r == CoordinatorError::Parameter(pe),
{
    match e {
        UnpiCommandError::NoCommandWithName => CoordinatorError::NoCommandWithName,
        UnpiCommandError::InvalidMessageType => CoordinatorError::InvalidMessageType,
        UnpiCommandError::SubscriptionError => CoordinatorError::SubscriptionError,
        UnpiCommandError::Serial(se) => CoordinatorError::Serial(se),
        UnpiCommandError::Io => CoordinatorError::Io,
        UnpiCommandError::InvalidResponse => CoordinatorError::InvalidResponse,
        UnpiCommandError::Parameter(pe) => CoordinatorError::Parameter(pe),
        UnpiCommandError::PayloadTooLong => CoordinatorError::InvalidResponse,
    }
}

impl CC253X {
    /// A coordinator in its `Created` state, with the event bridges of a
    /// fresh core installed.
    pub fn new() -> (r: CC253X)
        ensures
            r.state is Created,
            r.inter_pan_mode == false,
            r.core.outbound@.len() == 0,
    {
        CC253X {
            core: CoordinatorCore::new(),
            state: RunState::Created,
            supports_led: None,
            inter_pan_mode: false,
        }
    }

    /// Whether the radio is in inter-PAN mode; this driver never enters
    /// it.
    pub fn is_inter_pan_mode(&self) -> (r: bool)
        ensures
            r == self.inter_pan_mode,
    {
        self.inter_pan_mode
    }

    /// Fails with `InterpanMode` exactly when the radio is in inter-PAN
    /// mode.
    pub fn error_if_interpan_mode(&self) -> (r: Result<(), CoordinatorError>)
        ensures
            self.inter_pan_mode <==> r == Err::<(), CoordinatorError>(
                CoordinatorError::InterpanMode,
            ),
            !self.inter_pan_mode <==> r is Ok,
    {
        if self.is_inter_pan_mode() {
            Err(CoordinatorError::InterpanMode)
        } else {
            Ok(())
        }
    }

    /// Queues a fire-and-forget named request.
    pub fn request(
        &mut self,
        name: &str,
        subsystem: Subsystem,
        parameters: &[(&'static str, ParameterValue)],
    ) -> (r: Result<(), CoordinatorError>)
        requires
            forall|i: int| 0 <= i < parameters@.len() ==> (#[trigger] parameters@[i]).1.wf(),
        ensures
            final(self).state == old(self).state,
            final(self).core.registry == old(self).core.registry,
            final(self).core.delivered == old(self).core.delivered,
            final(self).core.next_slot == old(self).core.next_slot,
            spec_command_by_name(subsystem, name@) matches Some(c) ==> c.wf(),
            r is Ok <==> (spec_command_by_name(subsystem, name@) matches Some(c)
                && (spec_request_payload(c, parameters@) matches Ok(bytes) && bytes.len() <= 255)),
            r is Ok ==> ({
                let c = spec_command_by_name(subsystem, name@)->Some_0;
                let bytes = spec_request_payload(c, parameters@)->Ok_0;
                let p = final(self).core.outbound@.last()@;
                &&& final(self).core.outbound@.len() == old(self).core.outbound@.len() + 1
                &&& final(self).core.outbound@.drop_last() == old(self).core.outbound@
                &&& p.wf()
                &&& p.len.matches_info(crate::unpi::LenTypeInfo::OneByte)
                &&& p.payload == bytes
                &&& p.type_subsystem == (c.command_type, subsystem)
                &&& p.command == c.id
            }),
            r is Err ==> final(self).core.outbound == old(self).core.outbound,
    {
        match self.core.request(name, subsystem, parameters) {
            Ok(()) => Ok(()),
            Err(e) => Err(coordinator_error_of(e)),
        }
    }

    /// Installs the reply listener, then queues a named synchronous
    /// request; hands back the slot to await.
    pub fn request_with_reply(
        &mut self,
        name: &str,
        subsystem: Subsystem,
        parameters: &[(&'static str, ParameterValue)],
    ) -> (r: Result<u64, CoordinatorError>)
        requires
            old(self).core.next_slot < u64::MAX,
            forall|i: int| 0 <= i < parameters@.len() ==> (#[trigger] parameters@[i]).1.wf(),
        ensures
            final(self).state == old(self).state,
            spec_command_by_name(subsystem, name@) matches Some(c) ==> c.wf(),
            r is Ok <==> (spec_command_by_name(subsystem, name@) matches Some(c)
                && c.command_type == MessageType::SREQ && (spec_request_payload(c, parameters@)
                matches Ok(bytes) && bytes.len() <= 255)),
            r matches Ok(slot) ==> {
                let c = spec_command_by_name(subsystem, name@)->Some_0;
                &&& slot == old(self).core.next_slot
                &&& final(self).core.registry.subs() == seq![
                    Subscription::SingleShot(
                        Predicate {
                            message_type: MessageType::SRESP,
                            subsystem,
                            command_id: c.id,
                        },
                        Action { slot },
                    ),
                ] + old(self).core.registry.subs()
                &&& final(self).core.next_slot == old(self).core.next_slot + 1
                &&& final(self).core.delivered == old(self).core.delivered
                &&& final(self).core.outbound@.len() == old(self).core.outbound@.len() + 1
                &&& final(self).core.outbound@.drop_last() == old(self).core.outbound@
                &&& ({
                    let p = final(self).core.outbound@.last()@;
                    &&& p.wf()
                    &&& p.len.matches_info(crate::unpi::LenTypeInfo::OneByte)
                    &&& p.payload == spec_request_payload(c, parameters@)->Ok_0
                    &&& p.type_subsystem == (MessageType::SREQ, subsystem)
                    &&& p.command == c.id
                })
            },
            r is Err ==> final(self).core == old(self).core,
    {
        match self.core.request_with_reply(name, subsystem, parameters) {
            Ok(slot) => Ok(slot),
            Err(e) => Err(coordinator_error_of(e)),
        }
    }

    /// Installs a one-shot listener for an arbitrary header and hands
    /// back its slot; for asynchronous indications with no paired SRESP.
    pub fn wait_for(
        &mut self,
        message_type: MessageType,
        subsystem: Subsystem,
        command_id: u8,
    ) -> (slot: u64)
        requires
            old(self).core.next_slot < u64::MAX,
        ensures
            slot == old(self).core.next_slot,
            final(self).state == old(self).state,
            final(self).core.next_slot == old(self).core.next_slot + 1,
            final(self).core.delivered == old(self).core.delivered,
            final(self).core.registry.subs() == seq![
                Subscription::SingleShot(
                    Predicate { message_type, subsystem, command_id },
                    Action { slot },
                ),
            ] + old(self).core.registry.subs(),
            final(self).core.outbound == old(self).core.outbound,
    {
        self.core.wait_for(message_type, subsystem, command_id)
    }

    /// Queues a reset request of the given flavour.
    pub fn reset(&mut self, reset_type: ResetType) -> (r: Result<(), CoordinatorError>)
        ensures
            final(self).state == old(self).state,
            r is Ok,
            final(self).core.outbound@.len() == old(self).core.outbound@.len() + 1,
            ({
                let p = final(self).core.outbound@.last()@;
                &&& p.wf()
                &&& p.type_subsystem == (MessageType::AREQ, Subsystem::Sys)
                &&& p.command == 0
                &&& p.payload == seq![if reset_type is Soft { 1u8 } else { 0u8 }]
            }),
    {
        let code: u8 = reset_type.to_u8();
        let mut parameters: Vec<(&'static str, ParameterValue)> = Vec::new();
        parameters.push(("type", ParameterValue::U8(code)));
        let r = self.request("reset_req", Subsystem::Sys, parameters.as_slice());
        proof {
            crate::commands::lemma_cmd_reset_req_facts();
            let ps = parameters@;
            let sch = crate::commands::spec_cmd_reset_req().request->Some_0;
            crate::map::lemma_assoc_at(sch, 0);
            assert(ps.drop_first() =~= Seq::<(&'static str, ParameterValue)>::empty());
            crate::commands::lemma_spec_fill_cons(ps, sch);
            crate::commands::lemma_spec_fill_nil(sch);
            assert(seq![code] + Seq::<u8>::empty() =~= seq![code]);
        }
        match r {
            Ok(()) => Ok(()),
            Err(_) => {
                proof {
                    assert(false);
                }
                Err(CoordinatorError::NoCommandWithName)
            },
        }
    }
}

} // verus!

verus! {

use crate::commands::{
    lemma_map_matches_fields_values_wf, lemma_spec_fill_cons, lemma_spec_fill_nil, spec_fill,
};
use crate::slice_writer::{i8_to_byte, le16_bytes, le32_bytes};

impl CC253X {
    /// Moves the coordinator to its terminal `Stopped` state.
    pub fn stop(&mut self) -> (r: Result<(), CoordinatorError>)
        ensures
            r is Ok,
            final(self).state is Stopped,
            final(self).core == old(self).core,
    {
        self.state = RunState::Stopped;
        Ok(())
    }

    /// Queues the LED request for the asked-for status: `On` and `Off`
    /// drive LED 3; `Disable` asks the firmware to take the LED back.
    pub fn set_led(&mut self, led_status: LedStatus) -> (r: Result<(), CoordinatorError>)
        ensures
            r is Ok,
            final(self).state == old(self).state,
            final(self).core.outbound@.len() == old(self).core.outbound@.len() + 1,
            final(self).core.outbound@.drop_last() == old(self).core.outbound@,
            ({
                let p = final(self).core.outbound@.last()@;
                &&& p.wf()
                &&& p.type_subsystem == (MessageType::SREQ, Subsystem::Util)
                &&& p.command == 10
                &&& p.payload == (match led_status {
                    LedStatus::Disable => seq![0xffu8, 0u8],
                    LedStatus::On => seq![3u8, 1u8],
                    LedStatus::Off => seq![3u8, 0u8],
                })
            }),
    {
        let (led_id, mode): (u8, u8) = match led_status {
            LedStatus::Disable => (0xff, 0),
            LedStatus::On => (3, 1),
            LedStatus::Off => (3, 0),
        };
        let mut parameters: Vec<(&'static str, ParameterValue)> = Vec::new();
        parameters.push(("led_id", ParameterValue::U8(led_id)));
        parameters.push(("mode", ParameterValue::U8(mode)));
        let r = self.request("led_control", Subsystem::Util, parameters.as_slice());
        proof {
            crate::commands::lemma_cmd_led_control_facts();
            let ps = parameters@;
            let sch = crate::commands::spec_cmd_led_control().request->Some_0;
            crate::map::lemma_assoc_at(sch, 0);
            crate::map::lemma_assoc_at(sch, 1);
            assert(ps.drop_first().drop_first() =~= Seq::<(&'static str, ParameterValue)>::empty());
            assert(ps.drop_first()[0] == ps[1]);
            lemma_spec_fill_cons(ps, sch);
            lemma_spec_fill_cons(ps.drop_first(), sch);
            lemma_spec_fill_nil(sch);
            assert(seq![led_id] + (seq![mode] + Seq::<u8>::empty()) =~= seq![led_id, mode]);
        }
        match r {
            Ok(()) => Ok(()),
            Err(_) => {
                proof {
                    assert(false);
                }
                Err(CoordinatorError::NoCommandWithName)
            },
        }
    }

    /// Queues a network-update request that moves the network to the
    /// given channel: a broadcast with a single-channel mask and the
    /// channel-change scan duration.
    pub fn change_channel(&mut self, channel: u8) -> (r: Result<(), CoordinatorError>)
        ensures
            final(self).state == old(self).state,
            channel >= 32 ==> r == Err::<(), CoordinatorError>(CoordinatorError::InvalidChannel)
                && final(self).core == old(self).core,
            channel < 32 ==> r is Ok && final(self).core.outbound@.len() == old(self).core.outbound@.len() + 1 && final(self).core.outbound@.drop_last() == old(self).core.outbound@ && ({
                let p = final(self).core.outbound@.last()@;
                &&& p.wf()
                &&& p.type_subsystem == (MessageType::SREQ, Subsystem::Zdo)
                &&& p.command == 55
                &&& p.payload == le16_bytes(0xffff) + le16_bytes(15) + le32_bytes(
                    1u32 << channel,
                ) + seq![0xfeu8, 0u8] + le16_bytes(0)
            }),
    {
        if channel >= 32 {
            return Err(CoordinatorError::InvalidChannel);
        }
        let mask: u32 = 1u32 << channel;
        let mut parameters: Vec<(&'static str, ParameterValue)> = Vec::new();
        parameters.push(("destination_address", ParameterValue::U16(0xffff)));
        parameters.push(("destination_address_mode", ParameterValue::U16(AddressMode::AddrBroadcast.to_u16())));
        parameters.push(("channel_mask", ParameterValue::U32(mask)));
        parameters.push(("scan_duration", ParameterValue::U8(0xfe)));
        parameters.push(("scan_count", ParameterValue::U8(0)));
        parameters.push(("network_manager_address", ParameterValue::U16(0)));
        let r = self.request(
            "management_network_update_request",
            Subsystem::Zdo,
            parameters.as_slice(),
        );
        proof {
            crate::commands::lemma_cmd_management_network_update_request_facts();
            let ps = parameters@;
            let sch = crate::commands::spec_cmd_management_network_update_request().request->Some_0;
            crate::map::lemma_assoc_at(sch, 0);
            crate::map::lemma_assoc_at(sch, 1);
            crate::map::lemma_assoc_at(sch, 2);
            crate::map::lemma_assoc_at(sch, 3);
            crate::map::lemma_assoc_at(sch, 4);
            crate::map::lemma_assoc_at(sch, 5);
            let ps1 = ps.drop_first();
            let ps2 = ps1.drop_first();
            let ps3 = ps2.drop_first();
            let ps4 = ps3.drop_first();
            let ps5 = ps4.drop_first();
            assert(ps1[0] == ps[1] && ps2[0] == ps[2] && ps3[0] == ps[3] && ps4[0] == ps[4]
                && ps5[0] == ps[5]);
            assert(ps5.drop_first() =~= Seq::<(&'static str, ParameterValue)>::empty());
            lemma_spec_fill_cons(ps, sch);
            lemma_spec_fill_cons(ps1, sch);
            lemma_spec_fill_cons(ps2, sch);
            lemma_spec_fill_cons(ps3, sch);
            lemma_spec_fill_cons(ps4, sch);
            lemma_spec_fill_cons(ps5, sch);
            lemma_spec_fill_nil(sch);
            assert(le16_bytes(0xffff) + (le16_bytes(15) + (le32_bytes(mask) + (seq![0xfeu8] + (
            seq![0u8] + (le16_bytes(0) + Seq::<u8>::empty()))))) =~= le16_bytes(0xffff)
                + le16_bytes(15) + le32_bytes(mask) + seq![0xfeu8, 0u8] + le16_bytes(0));
        }
        match r {
            Ok(()) => Ok(()),
            Err(_) => {
                proof {
                    assert(false);
                }
                Err(CoordinatorError::NoCommandWithName)
            },
        }
    }

    /// Queues a stack-tune request setting the transmit power.
    pub fn set_transmit_power(&mut self, power: i8) -> (r: Result<(), CoordinatorError>)
        ensures
            r is Ok,
            final(self).state == old(self).state,
            final(self).core.outbound@.len() == old(self).core.outbound@.len() + 1,
            final(self).core.outbound@.drop_last() == old(self).core.outbound@,
            ({
                let p = final(self).core.outbound@.last()@;
                &&& p.wf()
                &&& p.type_subsystem == (MessageType::SREQ, Subsystem::Sys)
                &&& p.command == 15
                &&& p.payload == seq![0u8, i8_to_byte(power)]
            }),
    {
        let mut parameters: Vec<(&'static str, ParameterValue)> = Vec::new();
        parameters.push(("operation", ParameterValue::U8(0)));
        parameters.push(("value", ParameterValue::I8(power)));
        let r = self.request("stack_tune", Subsystem::Sys, parameters.as_slice());
        proof {
            crate::commands::lemma_cmd_stack_tune_facts();
            let ps = parameters@;
            let sch = crate::commands::spec_cmd_stack_tune().request->Some_0;
            crate::map::lemma_assoc_at(sch, 0);
            crate::map::lemma_assoc_at(sch, 1);
            assert(ps.drop_first()[0] == ps[1]);
            assert(ps.drop_first().drop_first() =~= Seq::<(&'static str, ParameterValue)>::empty());
            lemma_spec_fill_cons(ps, sch);
            lemma_spec_fill_cons(ps.drop_first(), sch);
            lemma_spec_fill_nil(sch);
            assert(seq![0u8] + (seq![i8_to_byte(power)] + Seq::<u8>::empty()) =~= seq![
                0u8,
                i8_to_byte(power),
            ]);
        }
        match r {
            Ok(()) => Ok(()),
            Err(_) => {
                proof {
                    assert(false);
                }
                Err(CoordinatorError::NoCommandWithName)
            },
        }
    }

    /// Queues a permit-join request: 16-bit addressing to a given
    /// address, else a broadcast to the routers-and-coordinator group.
    /// Fails in inter-PAN mode, and on durations that cannot travel in
    /// one byte.
    pub fn permit_join(&mut self, seconds: u64, network_address: Option<u16>) -> (r: Result<
        (),
        CoordinatorError,
    >)
        ensures
            final(self).state == old(self).state,
            old(self).inter_pan_mode ==> r == Err::<(), CoordinatorError>(
                CoordinatorError::InterpanMode,
            ) && final(self).core == old(self).core,
            !old(self).inter_pan_mode && seconds > 255 ==> r == Err::<(), CoordinatorError>(
                CoordinatorError::DurationTooLong,
            ) && final(self).core == old(self).core,
            !old(self).inter_pan_mode && seconds <= 255 ==> r is Ok && final(self).core.outbound@.len() == old(self).core.outbound@.len() + 1 && final(self).core.outbound@.drop_last() == old(self).core.outbound@ && ({
                let p = final(self).core.outbound@.last()@;
                let mode: u16 = if network_address is Some {
                    2
                } else {
                    15
                };
                let destination: u16 = match network_address {
                    Some(a) => a,
                    None => 0xfffc,
                };
                &&& p.wf()
                &&& p.type_subsystem == (MessageType::SREQ, Subsystem::Zdo)
                &&& p.command == 54
                &&& p.payload == le16_bytes(mode) + le16_bytes(destination) + seq![
                    seconds as u8,
                    0u8,
                ]
            }),
    {
        match self.error_if_interpan_mode() {
            Ok(()) => {},
            Err(e) => {
                return Err(e);
            },
        }
        if seconds > 255 {
            return Err(CoordinatorError::DurationTooLong);
        }
        let duration: u8 = seconds as u8;
        let address_mode: AddressMode = match network_address {
            Some(_) => AddressMode::Addr16bit,
            None => AddressMode::AddrBroadcast,
        };
        let destination_address: u16 = match network_address {
            Some(a) => a,
            None => 0xfffc,
        };
        let mut parameters: Vec<(&'static str, ParameterValue)> = Vec::new();
        parameters.push(("address_mode", ParameterValue::U16(address_mode.to_u16())));
        parameters.push(("destination_address", ParameterValue::U16(destination_address)));
        parameters.push(("duration", ParameterValue::U8(duration)));
        parameters.push(("tc_significance", ParameterValue::U8(0)));
        let r = self.request(
            "management_permit_join_request",
            Subsystem::Zdo,
            parameters.as_slice(),
        );
        proof {
            crate::commands::lemma_cmd_management_permit_join_request_facts();
            let ps = parameters@;
            let sch = crate::commands::spec_cmd_management_permit_join_request().request->Some_0;
            crate::map::lemma_assoc_at(sch, 0);
            crate::map::lemma_assoc_at(sch, 1);
            crate::map::lemma_assoc_at(sch, 2);
            crate::map::lemma_assoc_at(sch, 3);
            let ps1 = ps.drop_first();
            let ps2 = ps1.drop_first();
            let ps3 = ps2.drop_first();
            assert(ps1[0] == ps[1] && ps2[0] == ps[2] && ps3[0] == ps[3]);
            assert(ps3.drop_first() =~= Seq::<(&'static str, ParameterValue)>::empty());
            lemma_spec_fill_cons(ps, sch);
            lemma_spec_fill_cons(ps1, sch);
            lemma_spec_fill_cons(ps2, sch);
            lemma_spec_fill_cons(ps3, sch);
            lemma_spec_fill_nil(sch);
            assert(le16_bytes(address_mode.spec_to_u16()) + (le16_bytes(destination_address) + (
            seq![duration] + (seq![0u8] + Seq::<u8>::empty()))) =~= le16_bytes(
                address_mode.spec_to_u16(),
            ) + le16_bytes(destination_address) + seq![duration, 0u8]);
        }
        match r {
            Ok(()) => Ok(()),
            Err(_) => {
                proof {
                    assert(false);
                }
                Err(CoordinatorError::NoCommandWithName)
            },
        }
    }

    /// Queues a route-discovery request towards the given address, or
    /// towards the coordinator itself.
    pub fn discover_route(&mut self, address: Option<u16>, wait: Option<bool>) -> (r: Result<
        (),
        CoordinatorError,
    >)
        ensures
            r is Ok,
            final(self).state == old(self).state,
            final(self).core.outbound@.len() == old(self).core.outbound@.len() + 1,
            final(self).core.outbound@.drop_last() == old(self).core.outbound@,
            ({
                let p = final(self).core.outbound@.last()@;
                let destination: u16 = match address {
                    Some(a) => a,
                    None => 0,
                };
                &&& p.wf()
                &&& p.type_subsystem == (MessageType::SREQ, Subsystem::Zdo)
                &&& p.command == 69
                &&& p.payload == le16_bytes(destination) + seq![0u8, DEFAULT_RADIUS]
            }),
    {
        let destination_address: u16 = match address {
            Some(a) => a,
            None => 0,
        };
        let mut parameters: Vec<(&'static str, ParameterValue)> = Vec::new();
        parameters.push(("destination_address", ParameterValue::U16(destination_address)));
        parameters.push(("options", ParameterValue::U8(0)));
        parameters.push(("radius", ParameterValue::U8(DEFAULT_RADIUS)));
        let r = self.request("exit_route_disc", Subsystem::Zdo, parameters.as_slice());
        proof {
            crate::commands::lemma_cmd_exit_route_disc_facts();
            let ps = parameters@;
            let sch = crate::commands::spec_cmd_exit_route_disc().request->Some_0;
            crate::map::lemma_assoc_at(sch, 0);
            crate::map::lemma_assoc_at(sch, 1);
            crate::map::lemma_assoc_at(sch, 2);
            let ps1 = ps.drop_first();
            let ps2 = ps1.drop_first();
            assert(ps1[0] == ps[1] && ps2[0] == ps[2]);
            assert(ps2.drop_first() =~= Seq::<(&'static str, ParameterValue)>::empty());
            lemma_spec_fill_cons(ps, sch);
            lemma_spec_fill_cons(ps1, sch);
            lemma_spec_fill_cons(ps2, sch);
            lemma_spec_fill_nil(sch);
            assert(le16_bytes(destination_address) + (seq![0u8] + (seq![DEFAULT_RADIUS] + Seq::<
                u8,
            >::empty())) =~= le16_bytes(destination_address) + seq![0u8, DEFAULT_RADIUS]);
        }
        match r {
            Ok(()) => Ok(()),
            Err(_) => {
                proof {
                    assert(false);
                }
                Err(CoordinatorError::NoCommandWithName)
            },
        }
    }
}

} // verus!

verus! {

use crate::commands::{
    lemma_cmd_get_device_info_facts, lemma_cmd_ping_facts, lemma_cmd_startup_from_app_facts,
    lemma_cmd_version_facts, lemma_device_info_fields_distinct, lemma_map_get_field,
};
use crate::parameters::ParameterValueView;

/// The one-shot listener a ping installs for its reply.
pub open spec fn ping_listener(slot: u64) -> Subscription {
    Subscription::SingleShot(
        Predicate { message_type: MessageType::SRESP, subsystem: Subsystem::Sys, command_id: 1 },
        Action { slot },
    )
}

/// How a decode failure surfaces through the coordinator.
pub open spec fn spec_reply_error(e: crate::parameters::ParameterError) -> CoordinatorError {
    if e is ResponseMismatch {
        CoordinatorError::ResponseMismatch
    } else {
        CoordinatorError::Parameter(e)
    }
}

impl CC253X {
    /// Decodes a reply packet's payload against the named command's
    /// response schema.
    pub fn read_reply(name: &str, subsystem: Subsystem, packet: &UnpiPacket) -> (r: Result<
        ParametersValueMap,
        CoordinatorError,
    >)
        ensures
            spec_command_by_name(subsystem, name@) is None ==> r == Err::<
                ParametersValueMap,
                CoordinatorError,
            >(CoordinatorError::NoCommandWithName),
            spec_command_by_name(subsystem, name@) matches Some(c) ==> (c.response matches Some(
                sch,
            ) ==> (if c.name == "get_device_info"@ {
                match spec_read_device_info(packet@.payload) {
                    Ok(fields) => r matches Ok(m) && map_matches_fields(m, fields),
                    Err(e) => r == Err::<ParametersValueMap, CoordinatorError>(
                        spec_reply_error(e),
                    ),
                }
            } else {
                match spec_read_fields(sch, packet@.payload, 0) {
                    Ok((fields, _)) => r matches Ok(m) && map_matches_fields(m, fields),
                    Err(e) => r == Err::<ParametersValueMap, CoordinatorError>(
                        spec_reply_error(e),
                    ),
                }
            })),
            spec_command_by_name(subsystem, name@) matches Some(c) ==> (c.response is None ==> r
                == Err::<ParametersValueMap, CoordinatorError>(CoordinatorError::ResponseMismatch)),
    {
        let command = match get_command_by_name(&subsystem, name) {
            Some(c) => c,
            None => {
                return Err(CoordinatorError::NoCommandWithName);
            },
        };
        match command.read_and_fill(packet.payload.as_slice()) {
            Ok(m) => Ok(m),
            Err(crate::parameters::ParameterError::ResponseMismatch) => Err(
                CoordinatorError::ResponseMismatch,
            ),
            Err(e) => Err(CoordinatorError::Parameter(e)),
        }
    }

    /// Sends a version request; the reply arrives on the returned slot.
    pub fn version(&mut self) -> (r: Result<u64, CoordinatorError>)
        requires
            old(self).core.next_slot < u64::MAX,
        ensures
            final(self).state == old(self).state,
            r matches Ok(slot) && slot == old(self).core.next_slot,
            final(self).core.registry.subs() == seq![
                Subscription::SingleShot(
                    Predicate {
                        message_type: MessageType::SRESP,
                        subsystem: Subsystem::Sys,
                        command_id: 2,
                    },
                    Action { slot: old(self).core.next_slot },
                ),
            ] + old(self).core.registry.subs(),
            final(self).core.outbound@.len() == old(self).core.outbound@.len() + 1,
            final(self).core.outbound@.drop_last() == old(self).core.outbound@,
            ({
                let p = final(self).core.outbound@.last()@;
                &&& p.wf()
                &&& p.type_subsystem == (MessageType::SREQ, Subsystem::Sys)
                &&& p.command == 2
                &&& p.payload == Seq::<u8>::empty()
            }),
    {
        let parameters: Vec<(&'static str, ParameterValue)> = Vec::new();
        let r = self.request_with_reply("version", Subsystem::Sys, parameters.as_slice());
        proof {
            lemma_cmd_version_facts();
        }
        match r {
            Ok(slot) => Ok(slot),
            Err(_) => {
                proof {
                    assert(false);
                }
                Err(CoordinatorError::NoCommandWithName)
            },
        }
    }

    /// Sends a device-information request; the reply arrives on the
    /// returned slot.
    pub fn device_info(&mut self) -> (r: Result<u64, CoordinatorError>)
        requires
            old(self).core.next_slot < u64::MAX,
        ensures
            final(self).state == old(self).state,
            r matches Ok(slot) && slot == old(self).core.next_slot,
            final(self).core.registry.subs() == seq![
                Subscription::SingleShot(
                    Predicate {
                        message_type: MessageType::SRESP,
                        subsystem: Subsystem::Util,
                        command_id: 0,
                    },
                    Action { slot: old(self).core.next_slot },
                ),
            ] + old(self).core.registry.subs(),
            final(self).core.outbound@.len() == old(self).core.outbound@.len() + 1,
            ({
                let p = final(self).core.outbound@.last()@;
                &&& p.wf()
                &&& p.type_subsystem == (MessageType::SREQ, Subsystem::Util)
                &&& p.command == 0
                &&& p.payload == Seq::<u8>::empty()
            }),
    {
        let parameters: Vec<(&'static str, ParameterValue)> = Vec::new();
        let r = self.request_with_reply("get_device_info", Subsystem::Util, parameters.as_slice());
        proof {
            lemma_cmd_get_device_info_facts();
        }
        match r {
            Ok(slot) => Ok(slot),
            Err(_) => {
                proof {
                    assert(false);
                }
                Err(CoordinatorError::NoCommandWithName)
            },
        }
    }

    /// Decodes a device-information reply into its typed form.
    pub fn device_info_from_reply(packet: &UnpiPacket) -> (r: Result<DeviceInfo, CoordinatorError>)
        ensures
            spec_read_device_info(packet@.payload) is Ok ==> r is Ok,
            spec_read_device_info(packet@.payload) matches Err(e) ==> r == Err::<
                DeviceInfo,
                CoordinatorError,
            >(spec_reply_error(e)),
            r matches Ok(d) ==> (spec_read_device_info(packet@.payload) matches Ok(fields) && {
                &&& fields[0].1 == ParameterValueView::U8(d.status)
                &&& fields[1].1 == ParameterValueView::IeeAddress(d.ieee_addr@)
                &&& fields[2].1 == ParameterValueView::U16(d.short_addr)
                &&& fields[3].1 == ParameterValueView::U8(d.device_type)
                &&& fields[4].1 == ParameterValueView::U8(d.device_state)
                &&& fields[5].1 == ParameterValueView::U8(d.num_assoc_devices)
                &&& fields[6].1 == ParameterValueView::ListU16(d.assoc_devices_list@)
            }),
    {
        proof {
            lemma_cmd_get_device_info_facts();
        }
        let map = match Self::read_reply("get_device_info", Subsystem::Util, packet) {
            Ok(m) => m,
            Err(e) => {
                return Err(e);
            },
        };
        proof {
            lemma_device_info_fields_distinct(packet@.payload);
            crate::commands::lemma_map_matches_fields_values_wf(
                map,
                spec_read_device_info(packet@.payload)->Ok_0,
            );
            let fields = spec_read_device_info(packet@.payload)->Ok_0;
            lemma_map_get_field(map, fields, 0);
            lemma_map_get_field(map, fields, 1);
            lemma_map_get_field(map, fields, 2);
            lemma_map_get_field(map, fields, 3);
            lemma_map_get_field(map, fields, 4);
            lemma_map_get_field(map, fields, 5);
            lemma_map_get_field(map, fields, 6);
        }
        DeviceInfo::from_parameters(&map)
    }

    /// Begins the startup handshake: the first ping goes out and its
    /// reply slot is armed.
    pub fn start(&mut self) -> (r: Result<Handshake, CoordinatorError>)
        requires
            old(self).core.next_slot < u64::MAX,
        ensures
            final(self).state == old(self).state,
            r matches Ok(hs) && hs.phase is PingSent && hs.attempts == 1 && hs.slot == old(self).core.next_slot,
            final(self).core.next_slot == old(self).core.next_slot + 1,
            final(self).core.delivered == old(self).core.delivered,
            final(self).core.registry.subs() == seq![ping_listener(old(self).core.next_slot)]
                + old(self).core.registry.subs(),
            final(self).core.outbound@.len() == old(self).core.outbound@.len() + 1,
            final(self).core.outbound@.drop_last() == old(self).core.outbound@,
            ({
                let p = final(self).core.outbound@.last()@;
                &&& p.wf()
                &&& p.type_subsystem == (MessageType::SREQ, Subsystem::Sys)
                &&& p.command == 1
                &&& p.payload == Seq::<u8>::empty()
            }),
    {
        let parameters: Vec<(&'static str, ParameterValue)> = Vec::new();
        let r = self.request_with_reply("ping", Subsystem::Sys, parameters.as_slice());
        proof {
            lemma_cmd_ping_facts();
        }
        match r {
            Ok(slot) => Ok(Handshake { phase: HandshakePhase::PingSent, attempts: 1, slot }),
            Err(_) => {
                proof {
                    assert(false);
                }
                Err(CoordinatorError::NoCommandWithName)
            },
        }
    }

    /// Advances the handshake when its outstanding reply has arrived:
    /// a decodable ping reply sends the version request; a version reply
    /// carrying a readable major release completes the handshake and
    /// moves the coordinator to `Started`.
    pub fn start_advance(&mut self, hs: Handshake) -> (r: Result<Handshake, CoordinatorError>)
        requires
            old(self).core.next_slot < u64::MAX,
        ensures
            r matches Ok(h2) ==> h2.attempts == hs.attempts,
            hs.phase is Done ==> r == Ok::<Handshake, CoordinatorError>(hs) && *final(self)
                == *old(self),
            !(hs.phase is Done) && crate::engine::first_mailbox_idx(
                old(self).core.delivered@,
                hs.slot,
            ) < 0 ==> r == Ok::<Handshake, CoordinatorError>(hs) && *final(self) == *old(self),
            ({
                let idx = crate::engine::first_mailbox_idx(old(self).core.delivered@, hs.slot);
                let pkt = old(self).core.delivered@[idx].1;
                let deliv2 = old(self).core.delivered@.remove(idx);
                &&& (hs.phase is PingSent && idx >= 0 ==> (match spec_read_fields(
                    crate::commands::spec_cmd_ping().response->Some_0,
                    pkt@.payload,
                    0,
                ) {
                    Err(e) => r == Err::<Handshake, CoordinatorError>(spec_reply_error(e)) && final(self).core.delivered@ == deliv2 && final(self).core.registry == old(self).core.registry && final(self).core.outbound == old(self).core.outbound
                        && final(self).core.next_slot == old(self).core.next_slot && final(self).state == old(self).state,
                    Ok(_) => {
                        // the decoded ping reply always carries its one
                        // `capabilities` field: the version request goes out
                        &&& r == Ok::<Handshake, CoordinatorError>(
                            Handshake {
                                phase: HandshakePhase::VersionSent,
                                attempts: hs.attempts,
                                slot: old(self).core.next_slot,
                            },
                        )
                        &&& final(self).core.delivered@ == deliv2
                        &&& final(self).core.next_slot == old(self).core.next_slot + 1
                        &&& final(self).core.registry.subs() == seq![
                            Subscription::SingleShot(
                                Predicate {
                                    message_type: MessageType::SRESP,
                                    subsystem: Subsystem::Sys,
                                    command_id: 2,
                                },
                                Action { slot: old(self).core.next_slot },
                            ),
                        ] + old(self).core.registry.subs()
                        &&& final(self).core.outbound@.len() == old(self).core.outbound@.len() + 1
                        &&& final(self).core.outbound@.drop_last() == old(self).core.outbound@
                        &&& ({
                            let p = final(self).core.outbound@.last()@;
                            &&& p.wf()
                            &&& p.type_subsystem == (MessageType::SREQ, Subsystem::Sys)
                            &&& p.command == 2
                            &&& p.payload == Seq::<u8>::empty()
                        })
                        &&& final(self).state == old(self).state
                    },
                }))
                &&& (hs.phase is VersionSent && idx >= 0 ==> (match spec_read_fields(
                    crate::commands::spec_cmd_version().response->Some_0,
                    pkt@.payload,
                    0,
                ) {
                    Err(e) => r == Err::<Handshake, CoordinatorError>(spec_reply_error(e)) && final(self).core.delivered@ == deliv2 && final(self).core.registry == old(self).core.registry && final(self).core.outbound == old(self).core.outbound
                        && final(self).core.next_slot == old(self).core.next_slot && final(self).state == old(self).state,
                    Ok(_) => {
                        // the decoded version reply always carries a readable
                        // `majorrel`: the radio is up
                        &&& r == Ok::<Handshake, CoordinatorError>(
                            Handshake {
                                phase: HandshakePhase::Done,
                                attempts: hs.attempts,
                                slot: hs.slot,
                            },
                        )
                        &&& final(self).core.delivered@ == deliv2
                        &&& final(self).core.registry == old(self).core.registry
                        &&& final(self).core.outbound == old(self).core.outbound
                        &&& final(self).core.next_slot == old(self).core.next_slot
                        &&& final(self).state is Started
                    },
                }))
            }),
    {
        match hs.phase {
            HandshakePhase::Done => {
                return Ok(hs);
            },
            _ => {},
        }
        let packet = match self.core.take_reply(hs.slot) {
            Some(p) => p,
            None => {
                return Ok(hs);
            },
        };
        match hs.phase {
            HandshakePhase::PingSent => {
                proof {
                    lemma_cmd_ping_facts();
                    reveal_strlit("ping");
                    reveal_strlit("get_device_info");
                    assert("ping"@.len() == 4);
                    assert("get_device_info"@.len() == 15);
                }
                let reply = match Self::read_reply("ping", Subsystem::Sys, &packet) {
                    Ok(m) => m,
                    Err(e) => {
                        return Err(e);
                    },
                };
                proof {
                    let sch = crate::commands::spec_cmd_ping().response->Some_0;
                    crate::commands::lemma_read_fields_names(sch, packet@.payload, 0);
                    let fields = spec_read_fields(sch, packet@.payload, 0)->Ok_0.0;
                    crate::commands::lemma_map_get_field(reply, fields, 0);
                }
                if !reply.contains_key("capabilities") {
                    proof {
                        assert(false);
                    }
                    return Err(CoordinatorError::InvalidResponse);
                }
                let parameters: Vec<(&'static str, ParameterValue)> = Vec::new();
                let version_request = self.request_with_reply(
                    "version",
                    Subsystem::Sys,
                    parameters.as_slice(),
                );
                proof {
                    lemma_cmd_version_facts();
                }
                let slot = match version_request {
                    Ok(s) => s,
                    Err(_) => {
                        proof {
                            assert(false);
                        }
                        return Err(CoordinatorError::NoCommandWithName);
                    },
                };
                Ok(Handshake { phase: HandshakePhase::VersionSent, attempts: hs.attempts, slot })
            },
            HandshakePhase::VersionSent => {
                proof {
                    lemma_cmd_version_facts();
                    reveal_strlit("version");
                    reveal_strlit("get_device_info");
                    assert("version"@.len() == 7);
                    assert("get_device_info"@.len() == 15);
                }
                let reply = match Self::read_reply("version", Subsystem::Sys, &packet) {
                    Ok(m) => m,
                    Err(e) => {
                        return Err(e);
                    },
                };
                proof {
                    let sch = crate::commands::spec_cmd_version().response->Some_0;
                    crate::commands::lemma_read_fields_names(sch, packet@.payload, 0);
                    let fields = spec_read_fields(sch, packet@.payload, 0)->Ok_0.0;
                    assert forall|a: int, b: int|
                        0 <= a < b < fields.len() implies fields[a].0@ != fields[b].0@ by {
                        assert(fields[a].0 == sch[a].0);
                        assert(fields[b].0 == sch[b].0);
                    }
                    crate::commands::lemma_map_get_field(reply, fields, 2);
                }
                if !reply.contains_key("majorrel") {
                    proof {
                        assert(false);
                    }
                    return Err(CoordinatorError::CoordinatorOpen);
                }
                self.state = RunState::Started;
                Ok(Handshake { phase: HandshakePhase::Done, attempts: hs.attempts, slot: hs.slot })
            },
            HandshakePhase::Done => Ok(hs),
        }
    }

    /// Handles a handshake timeout: the stale listener is removed and,
    /// while pings remain, the next ping goes out; the third timeout
    /// fails the startup with `CoordinatorOpen`.
    pub fn start_timeout(&mut self, hs: Handshake) -> (r: Result<Handshake, CoordinatorError>)
        requires
            old(self).core.next_slot < u64::MAX,
        ensures
            hs.attempts >= START_ATTEMPTS ==> r == Err::<Handshake, CoordinatorError>(
                CoordinatorError::CoordinatorOpen,
            ),
            hs.attempts < START_ATTEMPTS ==> (r matches Ok(h2) && h2.phase is PingSent
                && h2.attempts == hs.attempts + 1 && h2.slot == old(self).core.next_slot),
            ({
                // the stale listener of hs.slot, if one is still there,
                // leaves the registry first
                let idx = crate::engine::first_sub_slot_idx(
                    old(self).core.registry.subs(),
                    hs.slot,
                );
                let after_cancel = if idx < 0 {
                    old(self).core.registry.subs()
                } else {
                    old(self).core.registry.subs().remove(idx)
                };
                hs.attempts < START_ATTEMPTS ==> final(self).core.registry.subs() == seq![
                    ping_listener(old(self).core.next_slot),
                ] + after_cancel && final(self).core.next_slot == old(self).core.next_slot + 1
                    && final(self).core.outbound@.len() == old(self).core.outbound@.len() + 1
                    && final(self).core.outbound@.drop_last() == old(self).core.outbound@ && ({
                    let p = final(self).core.outbound@.last()@;
                    &&& p.wf()
                    &&& p.type_subsystem == (MessageType::SREQ, Subsystem::Sys)
                    &&& p.command == 1
                    &&& p.payload == Seq::<u8>::empty()
                })
            }),
    {
        let _ = self.core.cancel_request(hs.slot);
        if hs.attempts >= START_ATTEMPTS {
            return Err(CoordinatorError::CoordinatorOpen);
        }
        let parameters: Vec<(&'static str, ParameterValue)> = Vec::new();
        let r = self.request_with_reply("ping", Subsystem::Sys, parameters.as_slice());
        proof {
            lemma_cmd_ping_facts();
        }
        match r {
            Ok(slot) => Ok(
                Handshake { phase: HandshakePhase::PingSent, attempts: hs.attempts + 1, slot },
            ),
            Err(_) => {
                proof {
                    assert(false);
                }
                Err(CoordinatorError::NoCommandWithName)
            },
        }
    }

    /// Sends `startup_from_app` after arming a listener for the
    /// asynchronous state-change indication; the indication arrives on
    /// the returned slot.
    pub fn begin_startup(&mut self) -> (r: Result<u64, CoordinatorError>)
        requires
            old(self).core.next_slot < u64::MAX - 1,
        ensures
            final(self).state == old(self).state,
            r matches Ok(slot) && slot == old(self).core.next_slot,
            final(self).core.next_slot == old(self).core.next_slot + 1,
            final(self).core.delivered == old(self).core.delivered,
            // the indication's listener is armed before the request is
            // queued
            final(self).core.registry.subs() == seq![
                Subscription::SingleShot(
                    Predicate {
                        message_type: MessageType::AREQ,
                        subsystem: Subsystem::Zdo,
                        command_id: 192,
                    },
                    Action { slot: old(self).core.next_slot },
                ),
            ] + old(self).core.registry.subs(),
            final(self).core.outbound@.len() == old(self).core.outbound@.len() + 1,
            final(self).core.outbound@.drop_last() == old(self).core.outbound@,
            ({
                let p = final(self).core.outbound@.last()@;
                &&& p.wf()
                &&& p.type_subsystem == (MessageType::SREQ, Subsystem::Zdo)
                &&& p.command == 64
                &&& p.payload == le16_bytes(100) + seq![0u8]
            }),
    {
        let slot = self.wait_for(MessageType::AREQ, Subsystem::Zdo, 192);
        let mut parameters: Vec<(&'static str, ParameterValue)> = Vec::new();
        parameters.push(("start_delay", ParameterValue::U16(100)));
        parameters.push(("status", ParameterValue::U8(0)));
        let r = self.request("startup_from_app", Subsystem::Zdo, parameters.as_slice());
        proof {
            lemma_cmd_startup_from_app_facts();
            let ps = parameters@;
            let sch = crate::commands::spec_cmd_startup_from_app().request->Some_0;
            crate::map::lemma_assoc_at(sch, 0);
            crate::map::lemma_assoc_at(sch, 1);
            assert(ps.drop_first()[0] == ps[1]);
            assert(ps.drop_first().drop_first() =~= Seq::<(&'static str, ParameterValue)>::empty());
            lemma_spec_fill_cons(ps, sch);
            lemma_spec_fill_cons(ps.drop_first(), sch);
            lemma_spec_fill_nil(sch);
            assert(le16_bytes(100) + (seq![0u8] + Seq::<u8>::empty()) =~= le16_bytes(100) + seq![
                0u8,
            ]);
        }
        match r {
            Ok(()) => Ok(slot),
            Err(_) => {
                proof {
                    assert(false);
                }
                Err(CoordinatorError::NoCommandWithName)
            },
        }
    }

    /// Reads the terminal state out of a `state_changed_ind` indication.
    pub fn startup_status_from_reply(packet: &UnpiPacket) -> (r: Result<
        CommandStatus,
        CoordinatorError,
    >)
        ensures
            packet@.payload.len() == 0 ==> r == Err::<CommandStatus, CoordinatorError>(
                CoordinatorError::InvalidCommandStatus,
            ),
            packet@.payload.len() > 0 ==> r == Ok::<CommandStatus, CoordinatorError>(
                CommandStatus::spec_from_u8(packet@.payload[0]),
            ),
    {
        if packet.payload.len() == 0 {
            return Err(CoordinatorError::InvalidCommandStatus);
        }
        Ok(CommandStatus::from_u8(packet.payload[0]))
    }
}

} // verus!
