//! Runtime scenarios: subscription routing, the request/reply engine
//! against a simulated radio, startup, and the NV adapter.
use zigbee_unpi::cc253x::{HandshakePhase, RunState, CC253X};
use zigbee_unpi::coordinator::{CoordinatorError, ZigbeeEvent};
use zigbee_unpi::engine::{CoordinatorCore, FrameBuffer, Inbound};
use zigbee_unpi::nv::{NvMemoryAdapter, NvReadPhase};
use zigbee_unpi::parameters::ParameterValue;
use zigbee_unpi::subscription::{
    Action, Event, NotifyOutcome, Predicate, Subscription, SubscriptionService,
};
use zigbee_unpi::unpi::{LenTypeInfo, MessageType, Subsystem, UnpiPacket};

fn reply_packet(
    message_type: MessageType,
    subsystem: Subsystem,
    command: u8,
    payload: &[u8],
) -> UnpiPacket {
    UnpiPacket::from_payload(payload, LenTypeInfo::OneByte, (message_type, subsystem), command)
}

fn pred(message_type: MessageType, subsystem: Subsystem, command_id: u8) -> Predicate {
    Predicate { message_type, subsystem, command_id }
}

#[test]
fn newest_subscription_wins() {
    let mut registry = SubscriptionService::new();
    let p = pred(MessageType::SRESP, Subsystem::Sys, 1);
    registry.subscribe(Subscription::SingleShot(p, Action { slot: 1 }));
    registry.subscribe(Subscription::SingleShot(p, Action { slot: 2 }));
    let packet = reply_packet(MessageType::SRESP, Subsystem::Sys, 1, &[]);
    // the subscription installed last is served
    assert_eq!(registry.notify(&packet), NotifyOutcome::Delivered(Action { slot: 2 }));
    // the older one is still installed and served next
    assert_eq!(registry.notify(&packet), NotifyOutcome::Delivered(Action { slot: 1 }));
}

#[test]
fn single_shot_is_consumed() {
    let mut registry = SubscriptionService::new();
    let p = pred(MessageType::SRESP, Subsystem::Sys, 1);
    registry.subscribe(Subscription::SingleShot(p, Action { slot: 7 }));
    let packet = reply_packet(MessageType::SRESP, Subsystem::Sys, 1, &[]);
    assert_eq!(registry.notify(&packet), NotifyOutcome::Delivered(Action { slot: 7 }));
    // a second notify with the same packet finds nothing
    assert_eq!(registry.notify(&packet), NotifyOutcome::NoMatch);
}

#[test]
fn persistent_subscription_survives() {
    let mut registry = SubscriptionService::new();
    let p = pred(MessageType::AREQ, Subsystem::Zdo, 202);
    registry.subscribe(Subscription::Event(p, Event { handler: 9 }));
    let packet = reply_packet(MessageType::AREQ, Subsystem::Zdo, 202, &[0u8; 12]);
    for _ in 0..5 {
        assert_eq!(registry.notify(&packet), NotifyOutcome::Handled(Event { handler: 9 }));
    }
    assert_eq!(registry.subscriptions.len(), 1);
}

#[test]
fn reply_before_write_still_wakes_the_requester() {
    let mut coordinator = CC253X::new();
    let slot = coordinator.version().unwrap();
    // the reply arrives before the writer even drained the request
    let reply = reply_packet(
        MessageType::SRESP,
        Subsystem::Sys,
        2,
        &[2, 0, 2, 6, 3, 0xd9, 0x14, 0x34, 0x01],
    );
    match coordinator.core.on_packet(reply) {
        Inbound::Reply(s) => assert_eq!(s, slot),
        other => panic!("{:?}", other),
    }
    assert!(coordinator.core.take_reply(slot).is_some());
    // the request frame is still queued for the wire
    assert!(coordinator.core.take_outbound().is_some());
}

#[test]
fn late_reply_after_timeout_is_dropped() {
    let mut coordinator = CC253X::new();
    let slot = coordinator.version().unwrap();
    // the requester gives up and removes its listener, as the timeout
    // path does before reporting NoResponse
    assert!(coordinator.core.cancel_request(slot));
    // the reply that arrives later finds nothing and nothing fails
    let reply = reply_packet(MessageType::SRESP, Subsystem::Sys, 2, &[2, 0, 2, 6, 3, 0, 0, 0, 0]);
    match coordinator.core.on_packet(reply) {
        Inbound::Unmatched => {}
        other => panic!("{:?}", other),
    }
    assert!(coordinator.core.take_reply(slot).is_none());
}

#[test]
fn version_round_trip_with_simulated_radio() {
    let mut coordinator = CC253X::new();
    let slot = coordinator.version().unwrap();
    // the host writes the version SREQ
    let request = coordinator.core.take_outbound().unwrap();
    assert_eq!(&request.to_bytes()[..], &[0xFE, 0x00, 0x21, 0x02, 0x23]);
    // the simulated radio answers with a captured SRESP frame
    let wire = [
        0xFEu8, 0x0E, 0x61, 0x02, 0x02, 0x00, 0x02, 0x06, 0x03, 0xD9, 0x14, 0x34, 0x01, 0x02,
        0x00, 0x00, 0x00, 0x00, 0x92,
    ];
    let mut buffer = FrameBuffer::new();
    buffer.feed(&wire);
    let reply = buffer.next_frame(LenTypeInfo::OneByte).unwrap();
    match coordinator.core.on_packet(reply) {
        Inbound::Reply(s) => assert_eq!(s, slot),
        other => panic!("{:?}", other),
    }
    let packet = coordinator.core.take_reply(slot).unwrap();
    let map = CC253X::read_reply("version", Subsystem::Sys, &packet).unwrap();
    assert_eq!(map.get("transportrev"), Some(&ParameterValue::U8(2)));
    assert_eq!(map.get("product"), Some(&ParameterValue::U8(0)));
    assert_eq!(map.get("majorrel"), Some(&ParameterValue::U8(2)));
    assert_eq!(map.get("minorrel"), Some(&ParameterValue::U8(6)));
    assert_eq!(map.get("maintrel"), Some(&ParameterValue::U8(3)));
    assert_eq!(map.get("revision"), Some(&ParameterValue::U32(0x013414D9)));
}

#[test]
fn frames_survive_chunked_reads() {
    let wire = [0xFEu8, 0x02, 0x25, 0x37, 0x55, 0xdd, 0x98];
    let mut buffer = FrameBuffer::new();
    // junk, then the frame in two chunks
    buffer.feed(&[0x00, 0x42]);
    buffer.feed(&wire[..4]);
    assert!(buffer.next_frame(LenTypeInfo::OneByte).is_none());
    buffer.feed(&wire[4..]);
    let packet = buffer.next_frame(LenTypeInfo::OneByte).unwrap();
    assert_eq!(packet.command, 0x37);
    assert_eq!(packet.payload, [0x55, 0xdd]);
    assert!(buffer.next_frame(LenTypeInfo::OneByte).is_none());
}

#[test]
fn bad_frame_resynchronizes_to_the_next_frame() {
    let mut buffer = FrameBuffer::new();
    // a frame with a broken checksum, then a good one
    buffer.feed(&[0xFE, 0x00, 0x25, 0x37, 0x01]);
    buffer.feed(&[0xFE, 0x00, 0x25, 0x37, 0x12]);
    let packet = buffer.next_frame(LenTypeInfo::OneByte).unwrap();
    assert_eq!(packet.fcs, 0x12);
}

#[test]
fn startup_handshake_reaches_started() {
    let mut coordinator = CC253X::new();
    let hs = coordinator.start().unwrap();
    assert_eq!(hs.phase, HandshakePhase::PingSent);
    assert_eq!(hs.attempts, 1);
    // the radio answers the ping
    let ping_reply = reply_packet(MessageType::SRESP, Subsystem::Sys, 1, &[0x79, 0x07]);
    coordinator.core.on_packet(ping_reply);
    let hs = coordinator.start_advance(hs).unwrap();
    assert_eq!(hs.phase, HandshakePhase::VersionSent);
    // and the version request
    let version_reply = reply_packet(
        MessageType::SRESP,
        Subsystem::Sys,
        2,
        &[2, 0, 2, 6, 3, 0xd9, 0x14, 0x34, 0x01],
    );
    coordinator.core.on_packet(version_reply);
    let hs = coordinator.start_advance(hs).unwrap();
    assert_eq!(hs.phase, HandshakePhase::Done);
    assert_eq!(coordinator.state, RunState::Started);
}

#[test]
fn startup_gives_up_after_three_silent_pings() {
    let mut coordinator = CC253X::new();
    let hs = coordinator.start().unwrap();
    let hs = coordinator.start_timeout(hs).unwrap();
    assert_eq!(hs.attempts, 2);
    let hs = coordinator.start_timeout(hs).unwrap();
    assert_eq!(hs.attempts, 3);
    assert_eq!(
        coordinator.start_timeout(hs),
        Err(CoordinatorError::CoordinatorOpen)
    );
}

#[test]
fn begin_startup_awaits_the_state_change() {
    let mut coordinator = CC253X::new();
    let slot = coordinator.begin_startup().unwrap();
    let request = coordinator.core.take_outbound().unwrap();
    assert_eq!(request.type_subsystem, (MessageType::SREQ, Subsystem::Zdo));
    assert_eq!(request.command, 64);
    assert_eq!(request.payload, [100, 0, 0]);
    // the asynchronous indication carries the terminal state
    let indication = reply_packet(MessageType::AREQ, Subsystem::Zdo, 192, &[9]);
    match coordinator.core.on_packet(indication) {
        Inbound::Reply(s) => assert_eq!(s, slot),
        other => panic!("{:?}", other),
    }
    let packet = coordinator.core.take_reply(slot).unwrap();
    let status = CC253X::startup_status_from_reply(&packet).unwrap();
    assert_eq!(status, zigbee_unpi::constants::CommandStatus::from_u8(9));
}

#[test]
fn tc_device_index_becomes_device_announce() {
    let mut core = CoordinatorCore::new();
    let payload = [0x34u8, 0x12, 1, 2, 3, 4, 5, 6, 7, 8, 0xcd, 0xab];
    let indication = reply_packet(MessageType::AREQ, Subsystem::Zdo, 202, &payload);
    match core.on_packet(indication) {
        Inbound::Event(ZigbeeEvent::DeviceAnnounce { network_address, ieee_address }) => {
            assert_eq!(network_address, 0x1234);
            assert_eq!(ieee_address, [1, 2, 3, 4, 5, 6, 7, 8]);
        }
        other => panic!("{:?}", other),
    }
}

#[test]
fn set_led_encodes_the_three_modes() {
    let mut coordinator = CC253X::new();
    coordinator.set_led(zigbee_unpi::coordinator::LedStatus::Disable).unwrap();
    coordinator.set_led(zigbee_unpi::coordinator::LedStatus::On).unwrap();
    coordinator.set_led(zigbee_unpi::coordinator::LedStatus::Off).unwrap();
    assert_eq!(coordinator.core.take_outbound().unwrap().payload, [0xff, 0]);
    assert_eq!(coordinator.core.take_outbound().unwrap().payload, [3, 1]);
    assert_eq!(coordinator.core.take_outbound().unwrap().payload, [3, 0]);
}

#[test]
fn change_channel_builds_the_broadcast_update() {
    let mut coordinator = CC253X::new();
    coordinator.change_channel(15).unwrap();
    let packet = coordinator.core.take_outbound().unwrap();
    assert_eq!(packet.type_subsystem, (MessageType::SREQ, Subsystem::Zdo));
    assert_eq!(packet.command, 55);
    assert_eq!(
        packet.payload,
        [0xff, 0xff, 15, 0, 0x00, 0x80, 0x00, 0x00, 0xfe, 0, 0, 0]
    );
    assert_eq!(
        coordinator.change_channel(32),
        Err(CoordinatorError::InvalidChannel)
    );
}

#[test]
fn permit_join_guards_and_encodes() {
    let mut coordinator = CC253X::new();
    assert_eq!(
        coordinator.permit_join(300, None),
        Err(CoordinatorError::DurationTooLong)
    );
    coordinator.permit_join(120, None).unwrap();
    let packet = coordinator.core.take_outbound().unwrap();
    assert_eq!(packet.payload, [15, 0, 0xfc, 0xff, 120, 0]);
    coordinator.permit_join(60, Some(0x1234)).unwrap();
    let packet = coordinator.core.take_outbound().unwrap();
    assert_eq!(packet.payload, [2, 0, 0x34, 0x12, 60, 0]);
    coordinator.inter_pan_mode = true;
    assert_eq!(
        coordinator.permit_join(10, None),
        Err(CoordinatorError::InterpanMode)
    );
}

#[test]
fn reset_and_power_and_route_requests_encode() {
    let mut coordinator = CC253X::new();
    coordinator.reset(zigbee_unpi::coordinator::ResetType::Soft).unwrap();
    assert_eq!(coordinator.core.take_outbound().unwrap().payload, [1]);
    coordinator.reset(zigbee_unpi::coordinator::ResetType::Hard).unwrap();
    assert_eq!(coordinator.core.take_outbound().unwrap().payload, [0]);
    coordinator.set_transmit_power(-4).unwrap();
    assert_eq!(coordinator.core.take_outbound().unwrap().payload, [0, 0xfc]);
    coordinator.discover_route(Some(0x0102), None).unwrap();
    assert_eq!(coordinator.core.take_outbound().unwrap().payload, [0x02, 0x01, 0, 30]);
}

#[test]
fn device_info_reply_decodes_variable_list() {
    let payload = [0u8, 175, 60, 67, 1, 0, 75, 18, 0, 0, 0, 7, 9, 2, 0x11, 0x22, 0x33, 0x44];
    let packet = reply_packet(MessageType::SRESP, Subsystem::Util, 0, &payload);
    let info = CC253X::device_info_from_reply(&packet).unwrap();
    assert_eq!(info.status, 0);
    assert_eq!(info.ieee_addr, [175, 60, 67, 1, 0, 75, 18, 0]);
    assert_eq!(info.short_addr, 0);
    assert_eq!(info.device_type, 7);
    assert_eq!(info.device_state, 9);
    assert_eq!(info.num_assoc_devices, 2);
    assert_eq!(info.assoc_devices_list, [0x2211, 0x4433]);
}

#[test]
fn nv_write_then_read_yields_the_bytes() {
    // the simulated radio's NV store
    let mut stored: Vec<u8> = Vec::new();
    let adapter = NvMemoryAdapter::new().unwrap();
    let mut coordinator = CC253X::new();
    let item = [0xdeu8, 0xad, 0xbe, 0xef, 0x42];

    // write the item
    let write_slot = adapter
        .begin_write(&mut coordinator.core, 0x0201, 0, &item)
        .unwrap();
    let request = coordinator.core.take_outbound().unwrap();
    assert_eq!(request.command, 29);
    // the radio stores the bytes the frame carries and answers success
    stored.extend_from_slice(&request.payload[6..]);
    assert_eq!(&stored[..], &item[..]);
    let reply = reply_packet(MessageType::SRESP, Subsystem::Sys, 29, &[0]);
    coordinator.core.on_packet(reply);
    let packet = coordinator.core.take_reply(write_slot).unwrap();
    adapter.write_result(&packet).unwrap();

    // read it back: length first, then chunks of at most three bytes
    let mut read = adapter.begin_read(&mut coordinator.core, 0x0201).unwrap();
    let request = coordinator.core.take_outbound().unwrap();
    assert_eq!(request.command, 19);
    let len_reply = reply_packet(
        MessageType::SRESP,
        Subsystem::Sys,
        19,
        &[stored.len() as u8, 0],
    );
    coordinator.core.on_packet(len_reply);
    let packet = coordinator.core.take_reply(read.slot).unwrap();
    read = adapter
        .on_length_reply(&mut coordinator.core, read, &packet)
        .unwrap();
    while read.phase == NvReadPhase::ChunkRequested {
        let request = coordinator.core.take_outbound().unwrap();
        assert_eq!(request.command, 8);
        let offset = (request.payload[2] as usize) + 256 * (request.payload[3] as usize);
        let end = (offset + 3).min(stored.len());
        let chunk = &stored[offset..end];
        let mut reply_payload = vec![0u8, chunk.len() as u8];
        reply_payload.extend_from_slice(chunk);
        let reply = reply_packet(MessageType::SRESP, Subsystem::Sys, 8, &reply_payload);
        coordinator.core.on_packet(reply);
        let packet = coordinator.core.take_reply(read.slot).unwrap();
        read = adapter
            .on_chunk_reply(&mut coordinator.core, read, &packet)
            .unwrap();
    }
    assert_eq!(read.phase, NvReadPhase::Complete);
    assert_eq!(read.collected, item);
}

#[test]
fn absent_nv_item_reports_absent() {
    let adapter = NvMemoryAdapter::new().unwrap();
    let mut core = CoordinatorCore::new();
    let read = adapter.begin_read(&mut core, 0x0042).unwrap();
    let reply = reply_packet(MessageType::SRESP, Subsystem::Sys, 19, &[0, 0]);
    core.on_packet(reply);
    let packet = core.take_reply(read.slot).unwrap();
    let read = adapter.on_length_reply(&mut core, read, &packet).unwrap();
    assert_eq!(read.phase, NvReadPhase::Absent);
}

#[test]
fn nib_decodes_its_key_fields() {
    let mut data = vec![0u8; 110];
    data[0] = 0x41;
    data[20] = 0x00;
    data[21] = 0x00;
    data[22] = 11;
    data[33] = 0x62;
    data[34] = 0x1a;
    data[36] = 0x00;
    data[37] = 0x08;
    data[53..61].copy_from_slice(&[0xdd, 0xdd, 0xdd, 0xdd, 0xdd, 0xdd, 0xdd, 0xdd]);
    data[109] = 7;
    let nib = zigbee_unpi::nib::Nib::from_bytes(&data).unwrap();
    assert_eq!(nib.sequence_num, 0x41);
    assert_eq!(nib.nwk_dev_address, 0x0000);
    assert_eq!(nib.nwk_logical_channel, 11);
    assert_eq!(nib.nwk_pan_id, 0x1a62);
    assert_eq!(nib.channel_list, 0x0800);
    assert_eq!(nib.extended_panid, [0xdd; 8]);
    assert_eq!(nib.nwk_update_id, 7);
    assert!(zigbee_unpi::nib::Nib::from_bytes(&data[..100]).is_err());
}

#[test]
fn on_bytes_routes_several_frames_at_once() {
    let mut coordinator = CC253X::new();
    let slot = coordinator.version().unwrap();
    let mut buffer = FrameBuffer::new();
    // one reply and one indication arrive in the same read
    let mut wire = reply_packet(
        MessageType::SRESP,
        Subsystem::Sys,
        2,
        &[2, 0, 2, 6, 3, 0, 0, 0, 0],
    )
    .to_bytes();
    wire.extend_from_slice(
        &reply_packet(MessageType::AREQ, Subsystem::Zdo, 202, &[1, 0, 9, 9, 9, 9, 9, 9, 9, 9, 0, 0])
            .to_bytes(),
    );
    let outcomes = coordinator
        .core
        .on_bytes(&mut buffer, &wire, LenTypeInfo::OneByte);
    assert_eq!(outcomes.len(), 2);
    assert!(matches!(outcomes[0], Inbound::Reply(s) if s == slot));
    assert!(matches!(outcomes[1], Inbound::Event(ZigbeeEvent::DeviceAnnounce { .. })));
}

#[test]
fn device_info_list_longer_than_sixteen_decodes() {
    // 20 associated devices: the variable-length list follows the count
    let mut payload = vec![0u8, 1, 2, 3, 4, 5, 6, 7, 8, 0x34, 0x12, 7, 9, 20];
    for k in 0..20u16 {
        payload.push((k % 256) as u8);
        payload.push((k / 256) as u8);
    }
    let packet = reply_packet(MessageType::SRESP, Subsystem::Util, 0, &payload);
    let info = CC253X::device_info_from_reply(&packet).unwrap();
    assert_eq!(info.num_assoc_devices, 20);
    assert_eq!(info.assoc_devices_list.len(), 20);
    assert_eq!(info.assoc_devices_list[0], 0);
    assert_eq!(info.assoc_devices_list[19], 19);
}
