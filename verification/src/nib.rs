//! The Network Information Block: the principal NV item describing the
//! Zigbee network state, decoded field by field from its wire bytes.
use crate::nv::NvMemoryAdapterError;
use crate::slice_reader::{le16_at, le32_at};
use vstd::prelude::*;

verus! {

/// One network key slot of the NIB.
#[derive(Debug, Clone, PartialEq)]
pub struct NwkKeyDescriptor {
    pub key_seq_num: u8,
    pub key: [u8; 16],
}

/// The Network Information Block as the Z-Stack firmware stores it:
/// every multi-byte counter little-endian, addresses in wire order.
#[derive(Debug, Clone, PartialEq)]
pub struct Nib {
    pub sequence_num: u8,
    pub passive_ack_timeout: u8,
    pub max_broadcast_retries: u8,
    pub max_children: u8,
    pub max_depth: u8,
    pub max_routers: u8,
    pub dummy_neighbor_table: u8,
    pub broadcast_delivery_time: u8,
    pub report_constant_cost: u8,
    pub route_disc_retries: u8,
    pub dummy_routing_table: u8,
    pub secure_all_frames: u8,
    pub security_level: u8,
    pub sym_link: u8,
    pub capability_flags: u8,
    pub transaction_persistence_time: u16,
    pub nwk_protocol_version: u8,
    pub route_discovery_time: u8,
    pub route_expiry_time: u8,
    pub nwk_dev_address: u16,
    pub nwk_logical_channel: u8,
    pub nwk_coord_address: u16,
    pub nwk_coord_ext_address: [u8; 8],
    pub nwk_pan_id: u16,
    pub nwk_state: u8,
    pub channel_list: u32,
    pub beacon_order: u8,
    pub super_frame_order: u8,
    pub scan_duration: u8,
    pub batt_life_ext: u8,
    pub allocated_router_addresses: u32,
    pub allocated_end_device_addresses: u32,
    pub node_depth: u8,
    pub extended_panid: [u8; 8],
    pub nwk_key_loaded: u8,
    pub spare1: NwkKeyDescriptor,
    pub spare2: NwkKeyDescriptor,
    pub spare3: u8,
    pub spare4: u8,
    pub nwk_link_status_period: u8,
    pub nwk_router_age_limit: u8,
    pub nwk_use_multi_cast: u8,
    pub nwk_is_concentrator: u8,
    pub nwk_concentrator_discovery_time: u8,
    pub nwk_concentrator_radius: u8,
    pub nwk_all_fresh: u8,
    pub nwk_manager_addr: u16,
    pub nwk_total_transmissions: u16,
    pub nwk_update_id: u8,
}

/// How many bytes the NIB occupies in NV memory.
pub const NIB_SIZE: usize = 110;

impl Nib {
    /// Decodes a NIB from its NV bytes; trailing bytes are ignored.
    pub fn from_bytes(data: &[u8]) -> (r: Result<Nib, NvMemoryAdapterError>)
        ensures
            r is Ok <==> data@.len() >= 110,
            r matches Ok(nib) ==> nib.sequence_num == data@[0],
            r matches Ok(nib) ==> nib.passive_ack_timeout == data@[1],
            r matches Ok(nib) ==> nib.max_broadcast_retries == data@[2],
            r matches Ok(nib) ==> nib.max_children == data@[3],
            r matches Ok(nib) ==> nib.max_depth == data@[4],
            r matches Ok(nib) ==> nib.max_routers == data@[5],
            r matches Ok(nib) ==> nib.dummy_neighbor_table == data@[6],
            r matches Ok(nib) ==> nib.broadcast_delivery_time == data@[7],
            r matches Ok(nib) ==> nib.report_constant_cost == data@[8],
            r matches Ok(nib) ==> nib.route_disc_retries == data@[9],
            r matches Ok(nib) ==> nib.dummy_routing_table == data@[10],
            r matches Ok(nib) ==> nib.secure_all_frames == data@[11],
            r matches Ok(nib) ==> nib.security_level == data@[12],
            r matches Ok(nib) ==> nib.sym_link == data@[13],
            r matches Ok(nib) ==> nib.capability_flags == data@[14],
            r matches Ok(nib) ==> nib.transaction_persistence_time == le16_at(data@, 15),
            r matches Ok(nib) ==> nib.nwk_protocol_version == data@[17],
            r matches Ok(nib) ==> nib.route_discovery_time == data@[18],
            r matches Ok(nib) ==> nib.route_expiry_time == data@[19],
            r matches Ok(nib) ==> nib.nwk_dev_address == le16_at(data@, 20),
            r matches Ok(nib) ==> nib.nwk_logical_channel == data@[22],
            r matches Ok(nib) ==> nib.nwk_coord_address == le16_at(data@, 23),
            r matches Ok(nib) ==> nib.nwk_coord_ext_address@ == data@.subrange(25, 33),
            r matches Ok(nib) ==> nib.nwk_pan_id == le16_at(data@, 33),
            r matches Ok(nib) ==> nib.nwk_state == data@[35],
            r matches Ok(nib) ==> nib.channel_list == le32_at(data@, 36),
            r matches Ok(nib) ==> nib.beacon_order == data@[40],
            r matches Ok(nib) ==> nib.super_frame_order == data@[41],
            r matches Ok(nib) ==> nib.scan_duration == data@[42],
            r matches Ok(nib) ==> nib.batt_life_ext == data@[43],
            r matches Ok(nib) ==> nib.allocated_router_addresses == le32_at(data@, 44),
            r matches Ok(nib) ==> nib.allocated_end_device_addresses == le32_at(data@, 48),
            r matches Ok(nib) ==> nib.node_depth == data@[52],
            r matches Ok(nib) ==> nib.extended_panid@ == data@.subrange(53, 61),
            r matches Ok(nib) ==> nib.nwk_key_loaded == data@[61],
            r matches Ok(nib) ==> nib.spare1.key_seq_num == data@[62],
            r matches Ok(nib) ==> nib.spare1.key@ == data@.subrange(63, 79),
            r matches Ok(nib) ==> nib.spare2.key_seq_num == data@[79],
            r matches Ok(nib) ==> nib.spare2.key@ == data@.subrange(80, 96),
            r matches Ok(nib) ==> nib.spare3 == data@[96],
            r matches Ok(nib) ==> nib.spare4 == data@[97],
            r matches Ok(nib) ==> nib.nwk_link_status_period == data@[98],
            r matches Ok(nib) ==> nib.nwk_router_age_limit == data@[99],
            r matches Ok(nib) ==> nib.nwk_use_multi_cast == data@[100],
            r matches Ok(nib) ==> nib.nwk_is_concentrator == data@[101],
            r matches Ok(nib) ==> nib.nwk_concentrator_discovery_time == data@[102],
            r matches Ok(nib) ==> nib.nwk_concentrator_radius == data@[103],
            r matches Ok(nib) ==> nib.nwk_all_fresh == data@[104],
            r matches Ok(nib) ==> nib.nwk_manager_addr == le16_at(data@, 105),
            r matches Ok(nib) ==> nib.nwk_total_transmissions == le16_at(data@, 107),
            r matches Ok(nib) ==> nib.nwk_update_id == data@[109],
            r is Err ==> r == Err::<Nib, NvMemoryAdapterError>(NvMemoryAdapterError::InvalidData),
    {
        if data.len() < NIB_SIZE {
            return Err(NvMemoryAdapterError::InvalidData);
        }
        let sequence_num = data[0];
        let passive_ack_timeout = data[1];
        let max_broadcast_retries = data[2];
        let max_children = data[3];
        let max_depth = data[4];
        let max_routers = data[5];
        let dummy_neighbor_table = data[6];
        let broadcast_delivery_time = data[7];
        let report_constant_cost = data[8];
        let route_disc_retries = data[9];
        let dummy_routing_table = data[10];
        let secure_all_frames = data[11];
        let security_level = data[12];
        let sym_link = data[13];
        let capability_flags = data[14];
        let transaction_persistence_time: u16 = data[15] as u16 + 256 * (data[16] as u16);
        let nwk_protocol_version = data[17];
        let route_discovery_time = data[18];
        let route_expiry_time = data[19];
        let nwk_dev_address: u16 = data[20] as u16 + 256 * (data[21] as u16);
        let nwk_logical_channel = data[22];
        let nwk_coord_address: u16 = data[23] as u16 + 256 * (data[24] as u16);
        let nwk_coord_ext_address: [u8; 8] = [data[25], data[26], data[27], data[28], data[29], data[30], data[31], data[32]];
        proof { assert(nwk_coord_ext_address@ =~= data@.subrange(25, 33)); }
        let nwk_pan_id: u16 = data[33] as u16 + 256 * (data[34] as u16);
        let nwk_state = data[35];
        let channel_list: u32 = data[36] as u32 + 256 * (data[37] as u32) + 65536 * (data[38] as u32) + 16777216 * (data[39] as u32);
        let beacon_order = data[40];
        let super_frame_order = data[41];
        let scan_duration = data[42];
        let batt_life_ext = data[43];
        let allocated_router_addresses: u32 = data[44] as u32 + 256 * (data[45] as u32) + 65536 * (data[46] as u32) + 16777216 * (data[47] as u32);
        let allocated_end_device_addresses: u32 = data[48] as u32 + 256 * (data[49] as u32) + 65536 * (data[50] as u32) + 16777216 * (data[51] as u32);
        let node_depth = data[52];
        let extended_panid: [u8; 8] = [data[53], data[54], data[55], data[56], data[57], data[58], data[59], data[60]];
        proof { assert(extended_panid@ =~= data@.subrange(53, 61)); }
        let nwk_key_loaded = data[61];
        let spare1_key: [u8; 16] = [data[63], data[64], data[65], data[66], data[67], data[68], data[69], data[70], data[71], data[72], data[73], data[74], data[75], data[76], data[77], data[78]];
        proof { assert(spare1_key@ =~= data@.subrange(63, 79)); }
        let spare1 = NwkKeyDescriptor { key_seq_num: data[62], key: spare1_key };
        let spare2_key: [u8; 16] = [data[80], data[81], data[82], data[83], data[84], data[85], data[86], data[87], data[88], data[89], data[90], data[91], data[92], data[93], data[94], data[95]];
        proof { assert(spare2_key@ =~= data@.subrange(80, 96)); }
        let spare2 = NwkKeyDescriptor { key_seq_num: data[79], key: spare2_key };
        let spare3 = data[96];
        let spare4 = data[97];
        let nwk_link_status_period = data[98];
        let nwk_router_age_limit = data[99];
        let nwk_use_multi_cast = data[100];
        let nwk_is_concentrator = data[101];
        let nwk_concentrator_discovery_time = data[102];
        let nwk_concentrator_radius = data[103];
        let nwk_all_fresh = data[104];
        let nwk_manager_addr: u16 = data[105] as u16 + 256 * (data[106] as u16);
        let nwk_total_transmissions: u16 = data[107] as u16 + 256 * (data[108] as u16);
        let nwk_update_id = data[109];
        Ok(Nib {
            sequence_num,
            passive_ack_timeout,
            max_broadcast_retries,
            max_children,
            max_depth,
            max_routers,
            dummy_neighbor_table,
            broadcast_delivery_time,
            report_constant_cost,
            route_disc_retries,
            dummy_routing_table,
            secure_all_frames,
            security_level,
            sym_link,
            capability_flags,
            transaction_persistence_time,
            nwk_protocol_version,
            route_discovery_time,
            route_expiry_time,
            nwk_dev_address,
            nwk_logical_channel,
            nwk_coord_address,
            nwk_coord_ext_address,
            nwk_pan_id,
            nwk_state,
            channel_list,
            beacon_order,
            super_frame_order,
            scan_duration,
            batt_life_ext,
            allocated_router_addresses,
            allocated_end_device_addresses,
            node_depth,
            extended_panid,
            nwk_key_loaded,
            spare1,
            spare2,
            spare3,
            spare4,
            nwk_link_status_period,
            nwk_router_age_limit,
            nwk_use_multi_cast,
            nwk_is_concentrator,
            nwk_concentrator_discovery_time,
            nwk_concentrator_radius,
            nwk_all_fresh,
            nwk_manager_addr,
            nwk_total_transmissions,
            nwk_update_id,
        })
    }
}

/// The NV item id under which the firmware stores the NIB.
pub const NIB_ITEM_ID: u16 = 0x0021;

/// A typed NV item, decoded from the bytes a read collected.
#[derive(Debug, Clone, PartialEq)]
pub enum NvItem {
    Nib(Nib),
}

impl NvItem {
    /// Decodes the item stored under `id`; only the NIB is understood.
    pub fn from_bytes(id: u16, data: &[u8]) -> (r: Result<NvItem, NvMemoryAdapterError>)
        ensures
            id != NIB_ITEM_ID ==> r == Err::<NvItem, NvMemoryAdapterError>(
                NvMemoryAdapterError::InvalidData,
            ),
            id == NIB_ITEM_ID && data@.len() >= NIB_SIZE ==> (r matches Ok(v) && v is Nib),
    {
        if id != NIB_ITEM_ID {
            return Err(NvMemoryAdapterError::InvalidData);
        }
        match Nib::from_bytes(data) {
            Ok(nib) => Ok(NvItem::Nib(nib)),
            Err(e) => Err(e),
        }
    }
}

} // verus!
