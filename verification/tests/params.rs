//! Parameter registry and reassembly tests: the fixed table, the
//! typed value decoder, and multi-fragment collection.

use robstride_driver::can::CanFrame;
use robstride_driver::driver::{ParamDumpCollector, SingleParamCollector};
use robstride_driver::parameters::{
    get_parameter_table, lookup_parameter, ParameterAccess, ParameterType, ParameterValue,
};
use robstride_driver::protocol::{ObtainIdResponse, ReadAllParamsResponse};

fn fragment(param_idx: u16, marker: u8, len: u8, data: [u8; 6]) -> CanFrame {
    ReadAllParamsResponse {
        host_id: 0xFD,
        actuator_can_id: 0x15,
        byte_marker: marker,
        len,
        param_idx,
        can_data: data,
    }
    .encode()
}

#[test]
fn single_parameter_fragments_concatenate_in_arrival_order() {
    // Fragments for limit_torque (0x2007) arrive as six bytes then two
    // bytes; the collected value is their concatenation, whose first
    // four bytes decode as the little-endian float near 0.1.
    let mut collector = SingleParamCollector::new(0x2007);
    let first = fragment(0x2007, 0x06, 8, [0x3D, 0xCC, 0xCC, 0x3D, 0x00, 0x00]);
    let second = fragment(0x2007, 0x07, 4, [0x00, 0x00, 0, 0, 0, 0]);
    assert!(!collector.step(&first));
    assert!(!collector.step(&second));
    let value = collector.finish().expect("target was seen");
    assert_eq!(value, vec![0x3D, 0xCC, 0xCC, 0x3D, 0x00, 0x00, 0x00, 0x00]);
    // limit_torque is declared Float; its leading four bytes are the
    // value's bit pattern
    let decoded = ParameterValue::from_bytes(&value, ParameterType::Float);
    assert_eq!(decoded, Some(ParameterValue::Float(0x3DCCCC3D)));
    let as_float = f32::from_bits(0x3DCCCC3D);
    assert!((as_float - 0.1).abs() < 1e-5);
}

#[test]
fn single_parameter_collection_ends_when_another_code_follows() {
    let mut collector = SingleParamCollector::new(0x2007);
    assert!(!collector.step(&fragment(0x2006, 0, 8, [9; 6])));
    assert!(!collector.step(&fragment(0x2007, 0, 8, [1, 2, 3, 4, 5, 6])));
    // a fragment for another parameter after the target was seen ends
    // the collection
    assert!(collector.step(&fragment(0x2008, 0, 8, [7; 6])));
    assert_eq!(collector.finish(), Some(vec![1, 2, 3, 4, 5, 6]));
}

#[test]
fn single_parameter_timeout_without_sighting_is_none() {
    let collector = SingleParamCollector::new(0x2007);
    assert_eq!(collector.finish(), None);
}

#[test]
fn non_fragment_frames_are_skipped_during_collection() {
    let mut collector = SingleParamCollector::new(0x2007);
    let stray = ObtainIdResponse { actuator_can_id: 5, mcu_uid: 0 }.encode();
    assert!(!collector.step(&stray));
    let mut unknown = [0u8; 16];
    unknown[3] = 0x9F;
    assert!(!collector.step(&CanFrame::from_bytes(unknown)));
    assert_eq!(collector.finish(), None);
}

#[test]
fn dump_accumulates_per_code_in_first_seen_order() {
    let mut dump = ParamDumpCollector::new();
    assert!(dump.absorb_frame(&fragment(0x0000, 0, 8, *b"Robstr")));
    assert!(dump.absorb_frame(&fragment(0x2007, 0, 8, [0x3D, 0xCC, 0xCC, 0x3D, 0, 0])));
    assert!(dump.absorb_frame(&fragment(0x0000, 1, 8, *b"ide-01")));
    assert!(dump.absorb_frame(&fragment(0x2007, 1, 4, [0, 0, 0, 0, 0, 0])));
    assert!(!dump.absorb_frame(&ObtainIdResponse { actuator_can_id: 5, mcu_uid: 0 }.encode()));
    assert_eq!(dump.count(), 2);
    let entries = dump.into_entries();
    assert_eq!(entries.len(), 2);
    assert_eq!(entries[0].0, 0x0000);
    assert_eq!(entries[0].1, b"Robstride-01".to_vec());
    assert_eq!(entries[1].0, 0x2007);
    assert_eq!(entries[1].1, vec![0x3D, 0xCC, 0xCC, 0x3D, 0, 0, 0, 0]);
}

#[test]
fn lookup_known_codes() {
    let info = lookup_parameter(0x2007).expect("limit_torque is in the table");
    assert_eq!(info.code, 0x2007);
    assert_eq!(info.name, "limit_torque");
    assert_eq!(info.param_type, ParameterType::Float);
    assert_eq!(info.access, ParameterAccess::ReadWrite);
    let info = lookup_parameter(0x0000).expect("Name is in the table");
    assert_eq!(info.name, "Name");
    assert_eq!(info.param_type, ParameterType::String);
    let info = lookup_parameter(0x200A).expect("CAN_ID is in the table");
    assert_eq!(info.name, "CAN_ID");
    assert_eq!(info.param_type, ParameterType::Uint8);
    assert_eq!(info.access, ParameterAccess::Settings);
    let info = lookup_parameter(0x7005).expect("run_mode is in the table");
    assert_eq!(info.name, "run_mode");
    assert_eq!(info.access, ParameterAccess::ReadWrite);
}

#[test]
fn lookup_unknown_code_is_none() {
    assert_eq!(lookup_parameter(0x1FFF), None);
    assert_eq!(lookup_parameter(0xFFFF), None);
    assert_eq!(lookup_parameter(0x7004), None);
}

#[test]
fn table_matches_lookup() {
    let table = get_parameter_table();
    assert_eq!(table.len(), 136);
    let info = table.get(&0x2007).expect("limit_torque is in the table");
    assert_eq!(info.name, "limit_torque");
    assert_eq!(info.param_type, ParameterType::Float);
    assert!(table.get(&0x1FFF).is_none());
    for (code, info) in table.iter() {
        assert_eq!(*code, info.code);
        let looked_up = lookup_parameter(*code).expect("every table code looks up");
        assert_eq!(looked_up, *info);
    }
}

#[test]
fn decode_numeric_types_little_endian() {
    let bytes = [0x07, 0x20, 0xAA, 0xBB];
    assert_eq!(
        ParameterValue::from_bytes(&bytes, ParameterType::Uint8),
        Some(ParameterValue::Uint8(0x07))
    );
    assert_eq!(
        ParameterValue::from_bytes(&bytes, ParameterType::Uint16),
        Some(ParameterValue::Uint16(0x2007))
    );
    assert_eq!(
        ParameterValue::from_bytes(&bytes, ParameterType::Uint32),
        Some(ParameterValue::Uint32(0xBBAA_2007))
    );
    assert_eq!(
        ParameterValue::from_bytes(&[0xFF, 0xFF], ParameterType::Int16),
        Some(ParameterValue::Int16(-1))
    );
    assert_eq!(
        ParameterValue::from_bytes(&[0xFE, 0xFF, 0xFF, 0xFF], ParameterType::Int32),
        Some(ParameterValue::Int32(-2))
    );
    assert_eq!(
        ParameterValue::from_bytes(&[0x3D, 0xCC, 0xCC, 0x3D], ParameterType::Float),
        Some(ParameterValue::Float(0x3DCCCC3D))
    );
}

#[test]
fn decode_fails_on_short_spans() {
    assert_eq!(ParameterValue::from_bytes(&[], ParameterType::Uint8), None);
    assert_eq!(ParameterValue::from_bytes(&[1], ParameterType::Uint16), None);
    assert_eq!(
        ParameterValue::from_bytes(&[1, 2, 3], ParameterType::Uint32),
        None
    );
    assert_eq!(ParameterValue::from_bytes(&[1], ParameterType::Int16), None);
    assert_eq!(
        ParameterValue::from_bytes(&[1, 2, 3], ParameterType::Int32),
        None
    );
    assert_eq!(
        ParameterValue::from_bytes(&[1, 2, 3], ParameterType::Float),
        None
    );
}

#[test]
fn decode_string_truncates_at_first_nul_and_never_fails() {
    assert_eq!(
        ParameterValue::from_bytes(b"Robstride\0junk", ParameterType::String),
        Some(ParameterValue::String("Robstride".to_string()))
    );
    assert_eq!(
        ParameterValue::from_bytes(b"full-span", ParameterType::String),
        Some(ParameterValue::String("full-span".to_string()))
    );
    assert_eq!(
        ParameterValue::from_bytes(b"", ParameterType::String),
        Some(ParameterValue::String(String::new()))
    );
    // invalid UTF-8 decodes lossily instead of failing
    match ParameterValue::from_bytes(&[0x61, 0xFF, 0x62], ParameterType::String) {
        Some(ParameterValue::String(s)) => {
            assert_eq!(s.chars().next(), Some('a'));
            assert_eq!(s.chars().last(), Some('b'));
            assert_eq!(s.chars().count(), 3);
        }
        other => panic!("decoded {:?}", other),
    }
}
