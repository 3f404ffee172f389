//! Catalog, parameter and small-map checks.
use zigbee_unpi::commands::{get_command_by_id, get_command_by_name, Command};
use zigbee_unpi::constants::CommandStatus;
use zigbee_unpi::map::{SliceMap, StaticMap};
use zigbee_unpi::parameters::{ParameterError, ParameterType, ParameterValue};
use zigbee_unpi::slice_reader::SliceReader;
use zigbee_unpi::slice_writer::SliceWriter;
use zigbee_unpi::unpi::Subsystem;

#[test]
fn parameters_read_u8() {
    let data = [0x01u8];
    let mut reader = SliceReader::new(&data);
    let value = reader.read_u8().unwrap();
    assert_eq!(value, 0x01);
}

#[test]
fn parameters_read_ieee_address() {
    let data = [0x01u8, 0x02, 0x03, 0x04, 0x05, 0x06];
    let mut reader = SliceReader::new(&data);
    let value = reader.read_u8_array(6).unwrap();
    assert_eq!(value, [0x01, 0x02, 0x03, 0x04, 0x05, 0x06]);
}

#[test]
fn read_u8() {
    let data = [0x01u8];
    let mut reader = SliceReader::new(&data);
    let value = reader.read_u8().unwrap();
    assert_eq!(value, 0x01);
}

#[test]
fn read_ieee_address() {
    let data = [0x01u8, 0x02, 0x03, 0x04, 0x05, 0x06];
    let mut reader = SliceReader::new(&data);
    let value = reader.read_u8_array(6).unwrap();
    assert_eq!(value, [0x01, 0x02, 0x03, 0x04, 0x05, 0x06]);
}

#[test]
fn test_get_command_by_name() {
    assert!(matches!(
        get_command_by_name(&Subsystem::Util, "led_control"),
        Some(Command {
            name: "led_control",
            ..
        })
    ));
    assert!(matches!(
        get_command_by_name(&Subsystem::Util, "not_found"),
        None
    ));
}

#[test]
fn test_get_command_by_id() {
    assert!(matches!(
        get_command_by_id(&Subsystem::Util, 10),
        Some(Command {
            name: "led_control",
            id: 10,
            ..
        })
    ));
    assert!(matches!(get_command_by_id(&Subsystem::Util, 11), None));
}

#[test]
fn test_command() {
    let command = get_command_by_name(&Subsystem::Util, "led_control").unwrap();
    let mut writer = SliceWriter::new();
    let len = command
        .fill_and_write(
            &[
                ("led_id", ParameterValue::U8(1)),
                ("mode", ParameterValue::U8(1)),
            ],
            &mut writer,
        )
        .unwrap();
    let buffer = writer.into_bytes();
    assert_eq!(len, 2);
    assert_eq!(&buffer[0..len], [1, 1]);
}

#[test]
fn fill_rejects_unknown_parameter_name() {
    let command = get_command_by_name(&Subsystem::Util, "led_control").unwrap();
    let mut writer = SliceWriter::new();
    let r = command.fill_and_write(&[("brightness", ParameterValue::U8(1))], &mut writer);
    assert_eq!(r, Err(ParameterError::NoCommandWithName));
}

#[test]
fn fill_rejects_mismatched_parameter_kind() {
    let command = get_command_by_name(&Subsystem::Util, "led_control").unwrap();
    let mut writer = SliceWriter::new();
    let r = command.fill_and_write(&[("led_id", ParameterValue::U16(1))], &mut writer);
    assert_eq!(r, Err(ParameterError::InvalidParameter));
}

#[test]
fn read_and_fill_decodes_version_reply() {
    let command = get_command_by_name(&Subsystem::Sys, "version").unwrap();
    let payload = [2u8, 0, 2, 6, 3, 0xd9, 0x14, 0x34, 0x01, 2, 0, 0, 0, 0];
    let map = command.read_and_fill(&payload).unwrap();
    assert_eq!(map.get("transportrev"), Some(&ParameterValue::U8(2)));
    assert_eq!(map.get("product"), Some(&ParameterValue::U8(0)));
    assert_eq!(map.get("majorrel"), Some(&ParameterValue::U8(2)));
    assert_eq!(map.get("minorrel"), Some(&ParameterValue::U8(6)));
    assert_eq!(map.get("maintrel"), Some(&ParameterValue::U8(3)));
    assert_eq!(map.get("revision"), Some(&ParameterValue::U32(0x013414D9)));
}

#[test]
fn read_and_fill_reports_short_payload() {
    let command = get_command_by_name(&Subsystem::Sys, "version").unwrap();
    let payload = [2u8, 0];
    assert_eq!(command.read_and_fill(&payload), Err(ParameterError::Io));
}

#[test]
fn read_and_fill_without_response_schema_is_a_mismatch() {
    let command = get_command_by_name(&Subsystem::Sys, "reset_req").unwrap();
    assert_eq!(
        command.read_and_fill(&[0u8]),
        Err(ParameterError::ResponseMismatch)
    );
}

#[test]
fn try_into_accessors_check_the_kind() {
    let v = ParameterValue::U16(0x1234);
    assert_eq!(v.try_into_u16(), Ok(0x1234));
    assert_eq!(v.try_into_u8(), Err(ParameterError::InvalidParameter));
    assert_eq!(v.try_into_u32(), Err(ParameterError::InvalidParameter));
    assert_eq!(v.try_into_i8(), Err(ParameterError::InvalidParameter));
    let a = ParameterValue::IeeAddress([1, 2, 3, 4, 5, 6, 7, 8]);
    assert_eq!(a.try_into_ieee_addr(), Ok([1, 2, 3, 4, 5, 6, 7, 8]));
    assert_eq!(a.try_into_list_u16(), Err(ParameterError::InvalidParameter));
}

#[test]
fn parameter_from_reader_round_trips_i8() {
    let data = [0xffu8, 0x7f];
    let mut reader = SliceReader::new(&data);
    let v = ParameterType::I8.from_slice_reader(&mut reader).unwrap();
    assert_eq!(v.try_into_i8(), Ok(-1));
    let v2 = ParameterType::I8.from_slice_reader(&mut reader).unwrap();
    assert_eq!(v2.try_into_i8(), Ok(127));
}

#[test]
fn parameter_list_needs_a_length() {
    let data = [0x01u8, 0x00];
    let mut reader = SliceReader::new(&data);
    let r = ParameterType::ListU16(None).from_slice_reader(&mut reader);
    assert_eq!(r, Err(ParameterError::MissingListLength));
}

#[test]
fn utils_test_map_get() {
    let map = SliceMap::new(&[("key1", 1), ("key2", 2), ("key3", 3)]);

    assert_eq!(map.get(&"key1"), Some(&1));
    assert_eq!(map.get(&"key2"), Some(&2));
    assert_eq!(map.get(&"key3"), Some(&3));
    assert_eq!(map.get(&"key4"), None);
}

#[test]
fn utils_test_map_contains_key() {
    let map = SliceMap::new(&[("key1", 1), ("key2", 2), ("key3", 3)]);

    assert!(map.contains_key(&"key1"));
    assert!(map.contains_key(&"key2"));
    assert!(map.contains_key(&"key3"));
    assert!(!map.contains_key(&"key4"));
}

#[test]
fn utils_test_map_contains_value() {
    let map = SliceMap::new(&[("key1", 1), ("key2", 2), ("key3", 3)]);

    assert!(map.contains_value(&1));
    assert!(map.contains_value(&2));
    assert!(map.contains_value(&3));
    assert!(!map.contains_value(&4));
}

#[test]
fn map_test_map_get() {
    let map: StaticMap<3, i32> = StaticMap::new(&[("key1", 1), ("key2", 2), ("key3", 3)]);

    assert_eq!(map.get(&"key1"), Some(&1));
    assert_eq!(map.get(&"key2"), Some(&2));
    assert_eq!(map.get(&"key3"), Some(&3));
    assert_eq!(map.get(&"key4"), None);
}

#[test]
fn map_test_map_contains_key() {
    let map: StaticMap<3, i32> = StaticMap::new(&[("key1", 1), ("key2", 2), ("key3", 3)]);

    assert!(map.contains_key(&"key1"));
    assert!(map.contains_key(&"key2"));
    assert!(map.contains_key(&"key3"));
    assert!(!map.contains_key(&"key4"));
}

#[test]
fn map_test_map_contains_value() {
    let map: StaticMap<3, i32> = StaticMap::new(&[("key1", 1), ("key2", 2), ("key3", 3)]);

    assert!(map.contains_value(&1));
    assert!(map.contains_value(&2));
    assert!(map.contains_value(&3));
    assert!(!map.contains_value(&4));
}

#[test]
fn test_map_insert_value() {
    let mut map: StaticMap<4, i32> = StaticMap::new(&[("key1", 1), ("key2", 2), ("key3", 3)]);

    assert!(map.contains_value(&1));
    assert!(map.contains_value(&2));
    assert!(map.contains_value(&3));
    assert!(!map.contains_value(&4));

    map.insert("4", 4).unwrap();

    assert!(map.contains_value(&1));
    assert!(map.contains_value(&2));
    assert!(map.contains_value(&3));
    assert!(map.contains_value(&4));
}

#[test]
fn insert_into_full_map_fails() {
    let mut map: StaticMap<2, i32> = StaticMap::new(&[("key1", 1), ("key2", 2)]);
    assert_eq!(map.insert("key3", 3), Err(zigbee_unpi::map::MapError::Full));
    assert_eq!(map.insert("key1", 9), Ok(Some(1)));
    assert_eq!(map.get(&"key1"), Some(&9));
}

#[test]
fn test_read_u8() {
    let data = [0x01, 0x02, 0x03];
    let mut reader = SliceReader::new(&data);
    assert_eq!(reader.read_u8().unwrap(), 0x01);
    assert_eq!(reader.read_u8().unwrap(), 0x02);
    assert_eq!(reader.read_u8().unwrap(), 0x03);
}

#[test]
fn test_read_u16_le() {
    let data = [0x01, 0x02, 0x03, 0x04];
    let mut reader = SliceReader::new(&data);
    assert_eq!(reader.read_u16_le().unwrap(), 0x0201);
    assert_eq!(reader.read_u16_le().unwrap(), 0x0403);
}

#[test]
fn test_read_u32_le() {
    let data = [0x01, 0x02, 0x03, 0x04, 0x05, 0x06, 0x07, 0x08];
    let mut reader = SliceReader::new(&data);
    assert_eq!(reader.read_u32_le().unwrap(), 0x04030201);
    assert_eq!(reader.read_u32_le().unwrap(), 0x08070605);
}

#[test]
fn test_read_array() {
    let data = [0x01, 0x02, 0x03, 0x04];
    let mut reader = SliceReader::new(&data);
    assert_eq!(reader.read_u8_array(4).unwrap(), [0x01, 0x02, 0x03, 0x04]);
}

#[test]
fn test_read_array_le() {
    let data = [0x01, 0x02, 0x03, 0x04];
    let mut reader = SliceReader::new(&data);
    assert_eq!(reader.read_array_le(4).unwrap(), [0x04, 0x03, 0x02, 0x01]);
}

#[test]
fn writer_encodes_primitives_little_endian() {
    let mut w = SliceWriter::new();
    w.write_u8(0x11);
    w.write_i8(-2);
    w.write_u16_le(0x2233);
    w.write_u16_be(0x2233);
    w.write_u32_le(0x44556677);
    w.write_u8_array(&[0xaa, 0xbb]);
    w.write_u16_array(&[0x0102, 0x0304]);
    assert_eq!(
        w.into_bytes(),
        [0x11, 0xfe, 0x33, 0x22, 0x22, 0x33, 0x77, 0x66, 0x55, 0x44, 0xaa, 0xbb, 0x02, 0x01, 0x04, 0x03]
    );
}

#[test]
fn command_status_covers_the_table() {
    assert_eq!(CommandStatus::from_u8(0x00), CommandStatus::Success);
    assert_eq!(CommandStatus::from_u8(0x01), CommandStatus::Failure);
    assert_eq!(CommandStatus::from_u8(0x02), CommandStatus::InvalidParam);
    assert_eq!(CommandStatus::from_u8(0xcd), CommandStatus::NwkNoRoute);
    assert_eq!(CommandStatus::from_u8(0xff), CommandStatus::MacSrcMatchInvalidIndex);
    assert_eq!(CommandStatus::from_u8(0x50), CommandStatus::Unknown(0x50));
    assert_eq!(CommandStatus::from_u8(0x09).to_u8(), 0x09);
}

#[test]
fn test_get_device_info() {
    let data = [0, 175, 60, 67, 1, 0, 75, 18, 0, 0, 0, 7, 9, 0];
    let command = get_command_by_name(&Subsystem::Util, "get_device_info").unwrap();
    let g = command.read_and_fill(&data).unwrap();
    println!("{:?}", g);
}

#[test]
fn from_command_owned_frames_a_request() {
    let command = get_command_by_name(&Subsystem::Util, "led_control").unwrap();
    let packet = zigbee_unpi::unpi::UnpiPacket::from_command_owned(
        zigbee_unpi::unpi::LenTypeInfo::OneByte,
        (zigbee_unpi::unpi::MessageType::SREQ, Subsystem::Util),
        &[
            ("led_id", ParameterValue::U8(3)),
            ("mode", ParameterValue::U8(1)),
        ],
        &command,
    )
    .unwrap();
    assert_eq!(&packet.to_bytes()[..], &[0xFE, 0x02, 0x27, 0x0A, 0x03, 0x01, 0x2D]);
}
