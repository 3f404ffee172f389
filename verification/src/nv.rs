//! The NV-memory adapter: reading and writing the radio's non-volatile
//! items over `osal_nv_length`, `osal_nv_read[_ext]` and `osal_nv_write`.
//! A read asks for the item's length, then pulls chunks until that many
//! bytes have accumulated; each step is a pure transition fed by the
//! reply packets the engine delivers.
use crate::cc253x::CC253X;
use crate::coordinator::CoordinatorError;
use crate::engine::{CoordinatorCore, UnpiCommandError};
use crate::parameters::ParameterValue;
use crate::slice_reader::le16_at;
use crate::slice_writer::le16_bytes;
use crate::subscription::{Action, Predicate, Subscription};
use crate::unpi::{MessageType, Subsystem, UnpiPacket};
use vstd::prelude::*;

verus! {

/// Failures of the NV adapter.
#[derive(Debug, Clone, PartialEq)]
pub enum NvMemoryAdapterError {
    IoError,
    InvalidData,
    UnpiCommand(UnpiCommandError),
    Io,
    MissingResponse,
}

/// Where an NV read stands.
#[derive(Debug, Clone, Copy, PartialEq, Eq, Structural)]
pub enum NvReadPhase {
    /// The item's length was asked for.
    LengthRequested,
    /// A chunk was asked for; bytes are accumulating.
    ChunkRequested,
    /// The item is absent: its length is zero.
    Absent,
    /// All `expected` bytes are collected.
    Complete,
}

/// One NV read in flight.
#[derive(Debug)]
pub struct NvRead {
    pub id: u16,
    pub phase: NvReadPhase,
    pub slot: u64,
    pub expected: u16,
    pub collected: Vec<u8>,
}

/// What an `osal_nv_length` reply says: the item's length.
pub open spec fn spec_nv_length_reply(payload: Seq<u8>) -> Option<u16> {
    if payload.len() >= 2 {
        Some(le16_at(payload, 0) as u16)
    } else {
        None
    }
}

/// What an `osal_nv_read` reply says: the status byte and the chunk the
/// length byte announces.
pub open spec fn spec_nv_read_reply(payload: Seq<u8>) -> Option<(u8, Seq<u8>)> {
    if payload.len() >= 2 && payload.len() - 2 >= payload[1] {
        Some((payload[0], payload.subrange(2, 2 + payload[1] as int)))
    } else {
        None
    }
}

/// Adapter over the coordinator's transport for NV items. NV replies do
/// not echo the item id, so a caller must keep at most one NV operation
/// in flight at a time.
#[derive(Debug)]
pub struct NvMemoryAdapter {}

impl NvMemoryAdapter {
    pub fn new() -> (r: Result<NvMemoryAdapter, NvMemoryAdapterError>)
        ensures
            r is Ok,
    {
        Ok(NvMemoryAdapter {})
    }

    /// Starts reading item `id`: the length request goes out and its
    /// reply slot is armed.
    pub fn begin_read(&self, core: &mut CoordinatorCore, id: u16) -> (r: Result<
        NvRead,
        NvMemoryAdapterError,
    >)
        requires
            old(core).next_slot < u64::MAX,
        ensures
            r matches Ok(rd) && rd.id == id && rd.phase is LengthRequested && rd.collected@
                == Seq::<u8>::empty() && rd.slot == old(core).next_slot,
            final(core).next_slot == old(core).next_slot + 1,
            final(core).delivered == old(core).delivered,
            final(core).outbound@.len() == old(core).outbound@.len() + 1,
            final(core).outbound@.drop_last() == old(core).outbound@,
            ({
                let p = final(core).outbound@.last()@;
                &&& p.wf()
                &&& p.type_subsystem == (MessageType::SREQ, Subsystem::Sys)
                &&& p.command == 19
                &&& p.payload == le16_bytes(id)
            }),
            final(core).registry.subs() == seq![
                Subscription::SingleShot(
                    Predicate {
                        message_type: MessageType::SRESP,
                        subsystem: Subsystem::Sys,
                        command_id: 19,
                    },
                    Action { slot: old(core).next_slot },
                ),
            ] + old(core).registry.subs(),
    {
        let mut parameters: Vec<(&'static str, ParameterValue)> = Vec::new();
        parameters.push(("id", ParameterValue::U16(id)));
        let r = core.request_with_reply("osal_nv_length", Subsystem::Sys, parameters.as_slice());
        proof {
            crate::commands::lemma_cmd_osal_nv_length_facts();
            let ps = parameters@;
            let sch = crate::commands::spec_cmd_osal_nv_length().request->Some_0;
            crate::map::lemma_assoc_at(sch, 0);
            assert(ps.drop_first() =~= Seq::<(&'static str, ParameterValue)>::empty());
            crate::commands::lemma_spec_fill_cons(ps, sch);
            crate::commands::lemma_spec_fill_nil(sch);
            assert(le16_bytes(id) + Seq::<u8>::empty() =~= le16_bytes(id));
        }
        match r {
            Ok(slot) => Ok(
                NvRead {
                    id,
                    phase: NvReadPhase::LengthRequested,
                    slot,
                    expected: 0,
                    collected: Vec::new(),
                },
            ),
            Err(_) => {
                proof {
                    assert(false);
                }
                Err(NvMemoryAdapterError::MissingResponse)
            },
        }
    }

    /// Queues the request for the next chunk of `id` at `offset`; items
    /// longer than one length byte go through `osal_nv_read_ext`.
    fn request_chunk(core: &mut CoordinatorCore, id: u16, offset: u16, long_item: bool) -> (r:
        Result<u64, NvMemoryAdapterError>)
        requires
            old(core).next_slot < u64::MAX,
        ensures
            r matches Ok(slot) && slot == old(core).next_slot,
            final(core).next_slot == old(core).next_slot + 1,
            final(core).delivered == old(core).delivered,
            final(core).registry.subs() == seq![
                Subscription::SingleShot(
                    Predicate {
                        message_type: MessageType::SRESP,
                        subsystem: Subsystem::Sys,
                        command_id: if long_item {
                            28u8
                        } else {
                            8u8
                        },
                    },
                    Action { slot: old(core).next_slot },
                ),
            ] + old(core).registry.subs(),
            final(core).outbound@.len() == old(core).outbound@.len() + 1,
            final(core).outbound@.drop_last() == old(core).outbound@,
            ({
                let p = final(core).outbound@.last()@;
                &&& p.wf()
                &&& p.type_subsystem == (MessageType::SREQ, Subsystem::Sys)
                &&& p.command == (if long_item {
                    28u8
                } else {
                    8u8
                })
                &&& p.payload == le16_bytes(id) + le16_bytes(offset)
            }),
    {
        let mut parameters: Vec<(&'static str, ParameterValue)> = Vec::new();
        parameters.push(("id", ParameterValue::U16(id)));
        parameters.push(("offset", ParameterValue::U16(offset)));
        let name: &str = if long_item {
            "osal_nv_read_ext"
        } else {
            "osal_nv_read"
        };
        let r = core.request_with_reply(name, Subsystem::Sys, parameters.as_slice());
        proof {
            crate::commands::lemma_cmd_osal_nv_read_facts();
            crate::commands::lemma_cmd_osal_nv_read_ext_facts();
            let ps = parameters@;
            let sch = if long_item {
                crate::commands::spec_cmd_osal_nv_read_ext().request->Some_0
            } else {
                crate::commands::spec_cmd_osal_nv_read().request->Some_0
            };
            crate::map::lemma_assoc_at(sch, 0);
            crate::map::lemma_assoc_at(sch, 1);
            assert(ps.drop_first()[0] == ps[1]);
            assert(ps.drop_first().drop_first() =~= Seq::<(&'static str, ParameterValue)>::empty());
            crate::commands::lemma_spec_fill_cons(ps, sch);
            crate::commands::lemma_spec_fill_cons(ps.drop_first(), sch);
            crate::commands::lemma_spec_fill_nil(sch);
            assert(le16_bytes(id) + (le16_bytes(offset) + Seq::<u8>::empty()) =~= le16_bytes(id)
                + le16_bytes(offset));
        }
        match r {
            Ok(slot) => Ok(slot),
            Err(_) => {
                proof {
                    assert(false);
                }
                Err(NvMemoryAdapterError::MissingResponse)
            },
        }
    }

    /// Advances a read that asked for the item's length: zero means the
    /// item is absent, anything else starts pulling chunks.
    pub fn on_length_reply(&self, core: &mut CoordinatorCore, rd: NvRead, packet: &UnpiPacket) -> (
        r: Result<NvRead, NvMemoryAdapterError>)
        requires
            old(core).next_slot < u64::MAX,
            rd.phase is LengthRequested,
        ensures
            spec_nv_length_reply(packet@.payload) is None ==> r == Err::<
                NvRead,
                NvMemoryAdapterError,
            >(NvMemoryAdapterError::MissingResponse) && *final(core) == *old(core),
            spec_nv_length_reply(packet@.payload) == Some(0u16) ==> (r matches Ok(rd2)
                && rd2.phase is Absent && rd2.id == rd.id) && *final(core) == *old(core),
            spec_nv_length_reply(packet@.payload) matches Some(n) ==> (n != 0 ==> (r matches Ok(rd2) && rd2.phase is ChunkRequested && rd2.id == rd.id && rd2.expected == n
                && rd2.collected@ == Seq::<u8>::empty() && rd2.slot == old(core).next_slot
                && final(core).next_slot == old(core).next_slot + 1 && final(core).delivered
                == old(core).delivered && final(core).registry.subs() == seq![
                Subscription::SingleShot(
                    Predicate {
                        message_type: MessageType::SRESP,
                        subsystem: Subsystem::Sys,
                        command_id: if n > 255 {
                            28u8
                        } else {
                            8u8
                        },
                    },
                    Action { slot: old(core).next_slot },
                ),
            ] + old(core).registry.subs() && final(core).outbound@.len() == old(core).outbound@.len() + 1 && final(core).outbound@.drop_last() == old(core).outbound@ && ({
                let p = final(core).outbound@.last()@;
                &&& p.payload == le16_bytes(rd.id) + le16_bytes(0)
                &&& p.command == (if n > 255 {
                    28u8
                } else {
                    8u8
                })
            }))),
    {
        if packet.payload.len() < 2 {
            return Err(NvMemoryAdapterError::MissingResponse);
        }
        let lo = packet.payload[0];
        let hi = packet.payload[1];
        let length: u16 = lo as u16 + 256 * (hi as u16);
        if length == 0 {
            return Ok(
                NvRead {
                    id: rd.id,
                    phase: NvReadPhase::Absent,
                    slot: rd.slot,
                    expected: 0,
                    collected: rd.collected,
                },
            );
        }
        let slot = match Self::request_chunk(core, rd.id, 0, length > 255) {
            Ok(s) => s,
            Err(e) => {
                return Err(e);
            },
        };
        Ok(
            NvRead {
                id: rd.id,
                phase: NvReadPhase::ChunkRequested,
                slot,
                expected: length,
                collected: Vec::new(),
            },
        )
    }

    /// Advances a read that asked for a chunk: a successful reply's bytes
    /// join the collected item; when `expected` bytes are there the read
    /// completes, else the next chunk is asked for at the new offset.
    pub fn on_chunk_reply(&self, core: &mut CoordinatorCore, rd: NvRead, packet: &UnpiPacket) -> (
        r: Result<NvRead, NvMemoryAdapterError>)
        requires
            old(core).next_slot < u64::MAX,
            rd.phase is ChunkRequested,
            rd.collected@.len() < rd.expected,
        ensures
            spec_nv_read_reply(packet@.payload) is None ==> r == Err::<
                NvRead,
                NvMemoryAdapterError,
            >(NvMemoryAdapterError::InvalidData) && *final(core) == *old(core),
            spec_nv_read_reply(packet@.payload) matches Some((status, chunk)) ==> (if status != 0 {
                r == Err::<NvRead, NvMemoryAdapterError>(NvMemoryAdapterError::InvalidData)
                    && *final(core) == *old(core)
            } else {
                r matches Ok(rd2) && rd2.id == rd.id && rd2.expected == rd.expected
                    && rd2.collected@ == rd.collected@ + chunk && (if rd.collected@.len()
                    + chunk.len() >= rd.expected {
                    rd2.phase is Complete && *final(core) == *old(core)
                } else {
                    rd2.phase is ChunkRequested && rd2.slot == old(core).next_slot && final(core).next_slot == old(core).next_slot + 1 && final(core).delivered == old(core).delivered && final(core).registry.subs() == seq![
                        Subscription::SingleShot(
                            Predicate {
                                message_type: MessageType::SRESP,
                                subsystem: Subsystem::Sys,
                                command_id: if rd.expected > 255 {
                                    28u8
                                } else {
                                    8u8
                                },
                            },
                            Action { slot: old(core).next_slot },
                        ),
                    ] + old(core).registry.subs() && final(core).outbound@.len() == old(core).outbound@.len() + 1 && final(core).outbound@.drop_last() == old(core).outbound@ && final(core).outbound@.last()@.payload == le16_bytes(
                        rd.id,
                    ) + le16_bytes((rd.collected@.len() + chunk.len()) as u16)
                })
            }),
    {
        if packet.payload.len() < 2 {
            return Err(NvMemoryAdapterError::InvalidData);
        }
        let status = packet.payload[0];
        let len = packet.payload[1];
        if packet.payload.len() - 2 < len as usize {
            return Err(NvMemoryAdapterError::InvalidData);
        }
        if status != 0 {
            return Err(NvMemoryAdapterError::InvalidData);
        }
        let chunk = vstd::slice::slice_subrange(
            packet.payload.as_slice(),
            2,
            2 + len as usize,
        );
        let mut collected = rd.collected;
        let ghost before = collected@;
        let mut i: usize = 0;
        while i < chunk.len()
            invariant
                i <= chunk@.len(),
                collected@ =~= before + chunk@.subrange(0, i as int),
            decreases chunk@.len() - i,
        {
            collected.push(chunk[i]);
            i = i + 1;
            proof {
                assert(chunk@.subrange(0, i as int) =~= chunk@.subrange(0, i - 1).push(
                    chunk@[i - 1],
                ));
            }
        }
        proof {
            assert(chunk@.subrange(0, chunk@.len() as int) =~= chunk@);
        }
        if collected.len() >= rd.expected as usize {
            return Ok(
                NvRead {
                    id: rd.id,
                    phase: NvReadPhase::Complete,
                    slot: rd.slot,
                    expected: rd.expected,
                    collected,
                },
            );
        }
        let offset: u16 = collected.len() as u16;
        let slot = match Self::request_chunk(core, rd.id, offset, rd.expected > 255) {
            Ok(s) => s,
            Err(e) => {
                return Err(e);
            },
        };
        Ok(
            NvRead {
                id: rd.id,
                phase: NvReadPhase::ChunkRequested,
                slot,
                expected: rd.expected,
                collected,
            },
        )
    }

    /// Queues a write of `value` into item `id` at `offset`; the status
    /// reply arrives on the returned slot. One write frame carries at
    /// most 249 value bytes beside its six-byte head; longer items go
    /// out in several writes at increasing offsets.
    pub fn begin_write(
        &self,
        core: &mut CoordinatorCore,
        id: u16,
        offset: u16,
        value: &[u8],
    ) -> (r: Result<u64, NvMemoryAdapterError>)
        requires
            old(core).next_slot < u64::MAX,
            value@.len() <= 249,
        ensures
            r matches Ok(slot) && slot == old(core).next_slot,
            final(core).next_slot == old(core).next_slot + 1,
            final(core).delivered == old(core).delivered,
            final(core).outbound@.len() == old(core).outbound@.len() + 1,
            final(core).outbound@.drop_last() == old(core).outbound@,
            ({
                let p = final(core).outbound@.last()@;
                &&& p.wf()
                &&& p.type_subsystem == (MessageType::SREQ, Subsystem::Sys)
                &&& p.command == 29
                &&& p.payload == le16_bytes(id) + le16_bytes(offset) + le16_bytes(
                    value@.len() as u16,
                ) + value@
            }),
            final(core).registry.subs() == seq![
                Subscription::SingleShot(
                    Predicate {
                        message_type: MessageType::SRESP,
                        subsystem: Subsystem::Sys,
                        command_id: 29,
                    },
                    Action { slot: old(core).next_slot },
                ),
            ] + old(core).registry.subs(),
    {
        let buffer = buffer_value(value);
        let len: u16 = value.len() as u16;
        let mut parameters: Vec<(&'static str, ParameterValue)> = Vec::new();
        parameters.push(("id", ParameterValue::U16(id)));
        parameters.push(("offset", ParameterValue::U16(offset)));
        parameters.push(("len", ParameterValue::U16(len)));
        parameters.push(("value", buffer));
        let r = core.request_with_reply("osal_nv_write", Subsystem::Sys, parameters.as_slice());
        proof {
            crate::commands::lemma_cmd_osal_nv_write_facts();
            let ps = parameters@;
            let sch = crate::commands::spec_cmd_osal_nv_write().request->Some_0;
            crate::map::lemma_assoc_at(sch, 0);
            crate::map::lemma_assoc_at(sch, 1);
            crate::map::lemma_assoc_at(sch, 2);
            crate::map::lemma_assoc_at(sch, 3);
            let ps1 = ps.drop_first();
            let ps2 = ps1.drop_first();
            let ps3 = ps2.drop_first();
            assert(ps1[0] == ps[1] && ps2[0] == ps[2] && ps3[0] == ps[3]);
            assert(ps3.drop_first() =~= Seq::<(&'static str, ParameterValue)>::empty());
            crate::commands::lemma_spec_fill_cons(ps, sch);
            crate::commands::lemma_spec_fill_cons(ps1, sch);
            crate::commands::lemma_spec_fill_cons(ps2, sch);
            crate::commands::lemma_spec_fill_cons(ps3, sch);
            crate::commands::lemma_spec_fill_nil(sch);
            assert(le16_bytes(id) + (le16_bytes(offset) + (le16_bytes(len) + (value@ + Seq::<
                u8,
            >::empty()))) =~= le16_bytes(id) + le16_bytes(offset) + le16_bytes(len) + value@);
        }
        match r {
            Ok(slot) => Ok(slot),
            Err(_) => {
                proof {
                    assert(false);
                }
                Err(NvMemoryAdapterError::MissingResponse)
            },
        }
    }

    /// Reads the status out of a write reply: zero is success.
    pub fn write_result(&self, packet: &UnpiPacket) -> (r: Result<(), NvMemoryAdapterError>)
        ensures
            packet@.payload.len() == 0 ==> r == Err::<(), NvMemoryAdapterError>(
                NvMemoryAdapterError::MissingResponse,
            ),
            packet@.payload.len() > 0 && packet@.payload[0] == 0 ==> r is Ok,
            packet@.payload.len() > 0 && packet@.payload[0] != 0 ==> r == Err::<
                (),
                NvMemoryAdapterError,
            >(NvMemoryAdapterError::InvalidData),
    {
        if packet.payload.len() == 0 {
            return Err(NvMemoryAdapterError::MissingResponse);
        }
        if packet.payload[0] == 0 {
            Ok(())
        } else {
            Err(NvMemoryAdapterError::InvalidData)
        }
    }
}

/// Packs raw bytes into a buffer parameter.
fn buffer_value(value: &[u8]) -> (r: ParameterValue)
    requires
        value@.len() <= 255,
    ensures
        r.wf(),
        r@ == crate::parameters::ParameterValueView::Buffer(value@),
{
    let n = value.len();
    let mut arr: [u8; 255] = [0; 255];
    let mut i: usize = 0;
    while i < n
        invariant
            i <= n <= 255,
            n == value@.len(),
            arr@.len() == 255,
            forall|j: int| 0 <= j < i ==> arr@[j] == value@[j],
        decreases n - i,
    {
        arr[i] = value[i];
        i = i + 1;
    }
    let v = ParameterValue::Buffer(arr, n);
    proof {
        assert(arr@.subrange(0, n as int) =~= value@);
    }
    v
}

} // verus!
