use bluetooth_eir::eir::parse_eir;
use bluetooth_eir::eir::reads_in_bounds;
use bluetooth_eir::eir::try_parse_eir;
use bluetooth_eir::eir::EIRError;
use bluetooth_eir::eir::EIRFlags;
use bluetooth_eir::eir::EIRName;
use bluetooth_eir::eir::EIR;
use bluetooth_eir::format::EIRDataTypes;
use bytes::Bytes;

fn decode(input: &[u8]) -> Result<Vec<EIR>, EIRError> {
    assert!(reads_in_bounds(input));
    parse_eir(Bytes::copy_from_slice(input))
}

fn name_of(record: &EIR) -> (String, bool) {
    match record {
        EIR::Name(name, complete) => (name.clone(), *complete),
        other => panic!("not a name: {:?}", other),
    }
}

fn ids_of(record: &EIR) -> Vec<u16> {
    match record {
        EIR::Uuid16(ids) => ids.clone(),
        other => panic!("not a list of 16-bit service ids: {:?}", other),
    }
}

fn flag_bits_of(record: &EIR) -> u8 {
    match record {
        EIR::Flags(flags) => flags.bits(),
        other => panic!("not flags: {:?}", other),
    }
}

#[test]
pub fn eir_name_test() {
    let input = Bytes::copy_from_slice(b"\x04\x09ABC");
    let eir = parse_eir(input);
    assert!(eir.is_ok());
    let eir = eir.unwrap();
    assert_eq!(eir.len(), 1);
    if let EIR::Name(name, complete) = &eir[0] {
        assert_eq!(name, "ABC");
        assert!(*complete);
    } else {
        assert!(false);
    }
}

#[test]
fn short_name_block_is_not_complete() {
    let eir = decode(b"\x04\x08ABC").unwrap();
    assert_eq!(eir.len(), 1);
    assert_eq!(name_of(&eir[0]), ("ABC".to_string(), false));
}

#[test]
fn name_block_cut_short_by_the_buffer_keeps_what_is_there() {
    let eir = decode(b"\x04\x09Hi").unwrap();
    assert_eq!(eir.len(), 1);
    assert_eq!(name_of(&eir[0]), ("Hi".to_string(), true));
}

#[test]
fn name_block_without_data_is_an_empty_name() {
    let eir = decode(&[0x01, 0x09]).unwrap();
    assert_eq!(eir.len(), 1);
    assert_eq!(name_of(&eir[0]), (String::new(), true));
}

#[test]
fn name_with_invalid_utf8_has_replacement_characters() {
    let eir = decode(&[0x04, 0x09, b'A', 0xFF, b'B']).unwrap();
    assert_eq!(eir.len(), 1);
    assert_eq!(name_of(&eir[0]), ("A\u{FFFD}B".to_string(), true));
}

#[test]
fn name_with_multibyte_utf8_is_decoded() {
    let eir = decode(&[0x04, 0x08, 0xC3, 0xA9, b'!']).unwrap();
    assert_eq!(eir.len(), 1);
    assert_eq!(name_of(&eir[0]), ("\u{e9}!".to_string(), false));
}

#[test]
fn name_does_not_reach_into_the_next_block() {
    let eir = decode(b"\x03\x09Hi\x02\x01\x06").unwrap();
    assert_eq!(eir.len(), 2);
    assert_eq!(name_of(&eir[0]), ("Hi".to_string(), true));
    assert_eq!(flag_bits_of(&eir[1]), 0x06);
}

#[test]
fn two_name_blocks_are_rejected() {
    assert_eq!(decode(b"\x03\x09Hi\x03\x09Ho").unwrap_err(), EIRError::RepeatedName);
    assert_eq!(decode(b"\x03\x08Hi\x03\x09Ho").unwrap_err(), EIRError::RepeatedName);
    assert_eq!(decode(b"\x03\x09Hi\x03\x08Ho").unwrap_err(), EIRError::RepeatedName);
    assert_eq!(decode(b"\x03\x08Hi\x01\x08").unwrap_err(), EIRError::RepeatedName);
}

#[test]
fn flags_block_gives_its_flags() {
    let eir = decode(&[0x02, 0x01, 0x06]).unwrap();
    assert_eq!(eir.len(), 1);
    match &eir[0] {
        EIR::Flags(flags) => {
            assert_eq!(flags.bits(), 0x06);
            assert!(flags.contains(EIRFlags::LEGeneralDiscoverableMode));
            assert!(flags.contains(EIRFlags::BREDRNotSupported));
            assert!(!flags.contains(EIRFlags::LELimitedDiscoverableMode));
            assert!(!flags.contains(EIRFlags::ControllerSimultaneousLEBREDR));
            assert!(!flags.contains(EIRFlags::HostSimultaneousLEBREDR));
        }
        other => panic!("not flags: {:?}", other),
    }
}

#[test]
fn flags_block_drops_unknown_bits() {
    let eir = decode(&[0x02, 0x01, 0xFF]).unwrap();
    assert_eq!(eir.len(), 1);
    assert_eq!(flag_bits_of(&eir[0]), 0x1F);
    let eir = decode(&[0x02, 0x01, 0xE0]).unwrap();
    assert_eq!(eir.len(), 1);
    assert_eq!(flag_bits_of(&eir[0]), 0x00);
}

#[test]
fn flags_block_reads_one_octet_and_passes_over_the_rest() {
    let eir = decode(&[0x04, 0x01, 0x01, 0x1F, 0x1F, 0x03, 0x03, 0x34, 0x12]).unwrap();
    assert_eq!(eir.len(), 2);
    assert_eq!(flag_bits_of(&eir[0]), 0x01);
    assert_eq!(ids_of(&eir[1]), vec![0x1234]);
}

#[test]
fn two_flags_blocks_are_rejected() {
    assert_eq!(decode(&[0x02, 0x01, 0x06, 0x02, 0x01, 0x06]).unwrap_err(), EIRError::RepeatedFlag);
    assert_eq!(decode(&[0x02, 0x01, 0x00, 0x02, 0x01, 0xFF]).unwrap_err(), EIRError::RepeatedFlag);
    assert_eq!(
        decode(&[0x02, 0x01, 0x1F, 0x03, 0x01, 0x01, 0x02, 0x03, 0x09, b'H', b'i']).unwrap_err(),
        EIRError::RepeatedFlag
    );
}

#[test]
fn second_flags_block_is_rejected_before_its_data_is_read() {
    assert_eq!(decode(&[0x02, 0x01, 0x06, 0x01, 0x01]).unwrap_err(), EIRError::RepeatedFlag);
    assert_eq!(decode(&[0x02, 0x01, 0x06, 0x05, 0x01]).unwrap_err(), EIRError::RepeatedFlag);
}

#[test]
fn flags_blocks_apart_are_rejected() {
    assert_eq!(
        decode(&[0x02, 0x01, 0x06, 0x03, 0x09, b'H', b'i', 0x02, 0x01, 0x06]).unwrap_err(),
        EIRError::RepeatedFlag
    );
}

#[test]
fn service_ids_are_little_endian() {
    let eir = decode(&[0x03, 0x03, 0xAB, 0xAC]).unwrap();
    assert_eq!(eir.len(), 1);
    assert_eq!(ids_of(&eir[0]), vec![0xACAB]);
    let eir = decode(&[0x05, 0x02, 0x01, 0x00, 0x00, 0x01]).unwrap();
    assert_eq!(eir.len(), 1);
    assert_eq!(ids_of(&eir[0]), vec![0x0001, 0x0100]);
}

#[test]
fn service_id_block_without_data_gives_an_empty_list() {
    let eir = decode(&[0x01, 0x02]).unwrap();
    assert_eq!(eir.len(), 1);
    assert_eq!(ids_of(&eir[0]), Vec::<u16>::new());
}

#[test]
fn odd_service_id_data_is_rejected() {
    assert_eq!(
        decode(&[0x04, 0x03, 0x01, 0x02, 0x03]).unwrap_err(),
        EIRError::UnexpectedDataLength { len: 3 }
    );
    assert_eq!(
        decode(&[0x04, 0x02, 0x01, 0x02, 0x03]).unwrap_err(),
        EIRError::UnexpectedDataLength { len: 3 }
    );
    assert_eq!(decode(&[0x02, 0x03, 0x01]).unwrap_err(), EIRError::UnexpectedDataLength { len: 1 });
}

#[test]
fn service_id_data_cut_short_by_the_buffer_counts_as_it_is() {
    assert_eq!(
        decode(&[0x05, 0x03, 0x01, 0x02, 0x03]).unwrap_err(),
        EIRError::UnexpectedDataLength { len: 3 }
    );
    let eir = decode(&[0x09, 0x03, 0x01, 0x02]).unwrap();
    assert_eq!(eir.len(), 1);
    assert_eq!(ids_of(&eir[0]), vec![0x0201]);
}

#[test]
fn odd_service_id_data_is_rejected_after_other_records() {
    assert_eq!(
        decode(&[0x02, 0x01, 0x06, 0x03, 0x03, 0xAB, 0xAC, 0x04, 0x02, 0x01, 0x02, 0x03])
            .unwrap_err(),
        EIRError::UnexpectedDataLength { len: 3 }
    );
}

#[test]
fn service_id_blocks_fill_one_record() {
    let eir = decode(&[0x03, 0x03, 0xAB, 0xAC, 0x03, 0x03, 0x34, 0x12]).unwrap();
    assert_eq!(eir.len(), 1);
    assert_eq!(ids_of(&eir[0]), vec![0xACAB, 0x1234]);
}

#[test]
fn service_id_record_keeps_the_place_of_its_first_block() {
    let input = [
        0x02, 0x01, 0x06, // flags
        0x03, 0x02, 0xAB, 0xAC, // incomplete list
        0x03, 0x09, b'H', b'i', // name
        0x05, 0x03, 0x34, 0x12, 0xAB, 0xAC, // complete list, with a repeated id
        0x01, 0x03, // complete list, empty
    ];
    let eir = decode(&input).unwrap();
    assert_eq!(eir.len(), 3);
    assert_eq!(flag_bits_of(&eir[0]), 0x06);
    assert_eq!(ids_of(&eir[1]), vec![0xACAB, 0x1234, 0xACAB]);
    assert_eq!(name_of(&eir[2]), ("Hi".to_string(), true));
}

#[test]
fn records_come_in_the_order_of_their_blocks() {
    let eir = decode(b"\x02\x01\x06\x03\x03\xAB\xAC\x03\x08Hi").unwrap();
    assert_eq!(eir.len(), 3);
    assert_eq!(flag_bits_of(&eir[0]), 0x06);
    assert_eq!(ids_of(&eir[1]), vec![0xACAB]);
    assert_eq!(name_of(&eir[2]), ("Hi".to_string(), false));
}

#[test]
fn empty_buffer_gives_no_record() {
    let eir = decode(&[]).unwrap();
    assert!(eir.is_empty());
}

#[test]
fn zero_length_ends_the_buffer() {
    let eir = decode(&[0x00]).unwrap();
    assert!(eir.is_empty());
    let eir = decode(&[0x00, 0x02, 0x01, 0x06]).unwrap();
    assert!(eir.is_empty());
    let eir = decode(&[0x00, 0xFF]).unwrap();
    assert!(eir.is_empty());
}

#[test]
fn what_follows_a_zero_length_is_not_read() {
    let eir = decode(b"\x03\x09Hi\x00\x02\x01\x06\x03\x09Ho\x04\x03\x01\x02\x03\x07").unwrap();
    assert_eq!(eir.len(), 1);
    assert_eq!(name_of(&eir[0]), ("Hi".to_string(), true));
    let eir = decode(&[0x02, 0x01, 0x06, 0x00, 0x00, 0x00, 0x01]).unwrap();
    assert_eq!(eir.len(), 1);
    assert_eq!(flag_bits_of(&eir[0]), 0x06);
}

#[test]
fn blocks_of_reserved_types_give_no_record() {
    for code in [0x04u8, 0x05, 0x06, 0x07, 0x0A, 0x24, 0xFF] {
        let eir = decode(&[0x04, code, 0x01, 0x02, 0x03, 0x03, 0x09, b'H', b'i']).unwrap();
        assert_eq!(eir.len(), 1);
        assert_eq!(name_of(&eir[0]), ("Hi".to_string(), true));
    }
}

#[test]
fn blocks_of_unknown_types_give_no_record() {
    for code in [0x00u8, 0x0B, 0x10, 0x23, 0x25, 0x80, 0xFE] {
        let eir = decode(&[0x04, code, 0x01, 0x02, 0x03, 0x02, 0x01, 0x04]).unwrap();
        assert_eq!(eir.len(), 1);
        assert_eq!(flag_bits_of(&eir[0]), 0x04);
        let eir = decode(&[0x01, code]).unwrap();
        assert!(eir.is_empty());
        let eir = decode(&[0x09, code, 0x01]).unwrap();
        assert!(eir.is_empty());
    }
}

#[test]
fn longest_block_is_read_whole() {
    let mut input = vec![0xFF, 0x09];
    input.extend(std::iter::repeat(b'x').take(254));
    input.extend([0x02, 0x01, 0x01]);
    let eir = decode(&input).unwrap();
    assert_eq!(eir.len(), 2);
    assert_eq!(name_of(&eir[0]), ("x".repeat(254), true));
    assert_eq!(flag_bits_of(&eir[1]), 0x01);
}

#[test]
fn reads_in_bounds_tells_the_buffers_that_can_be_read() {
    assert!(reads_in_bounds(&[]));
    assert!(reads_in_bounds(&[0x00]));
    assert!(reads_in_bounds(&[0x00, 0x05]));
    assert!(reads_in_bounds(&[0x02, 0x01, 0x06]));
    assert!(reads_in_bounds(&[0x01, 0x09]));
    assert!(reads_in_bounds(&[0x09, 0x09]));
    assert!(reads_in_bounds(&[0x02, 0x01, 0x06, 0x01, 0x01]));
    assert!(reads_in_bounds(&[0x02, 0x03, 0x01, 0x05]));
    assert!(reads_in_bounds(&[0x01, 0x08, 0x01, 0x08, 0x05]));
    assert!(!reads_in_bounds(&[0x05]));
    assert!(!reads_in_bounds(&[0x01]));
    assert!(!reads_in_bounds(&[0x01, 0x01]));
    assert!(!reads_in_bounds(&[0x05, 0x01]));
    assert!(!reads_in_bounds(&[0x02, 0x01, 0x06, 0x05]));
    assert!(!reads_in_bounds(&[0x03, 0x09, b'H', b'i', 0x01, 0x01]));
    assert!(reads_in_bounds(&[0x01, 0x08, 0x02, 0x03, 0x01, 0x05, 0x01]));
    assert!(!reads_in_bounds(&[0x01, 0x08, 0x03, 0x03, 0x01, 0x02, 0x05, 0x01]));
}

#[test]
fn try_parse_eir_gives_none_where_the_buffer_cannot_be_read() {
    assert!(try_parse_eir(Bytes::copy_from_slice(&[0x05])).is_none());
    assert!(try_parse_eir(Bytes::copy_from_slice(&[0x01, 0x01])).is_none());
    assert!(try_parse_eir(Bytes::copy_from_slice(&[0x03, 0x09, b'H', b'i', 0x07])).is_none());
}

#[test]
fn try_parse_eir_gives_what_parse_eir_gives() {
    let eir = try_parse_eir(Bytes::copy_from_slice(b"\x04\x09ABC")).unwrap().unwrap();
    assert_eq!(eir.len(), 1);
    assert_eq!(name_of(&eir[0]), ("ABC".to_string(), true));
    let err = try_parse_eir(Bytes::copy_from_slice(&[0x02, 0x01, 0x06, 0x01, 0x01]))
        .unwrap()
        .unwrap_err();
    assert_eq!(err, EIRError::RepeatedFlag);
    let err = try_parse_eir(Bytes::copy_from_slice(&[0x02, 0x02, 0x06, 0x05])).unwrap().unwrap_err();
    assert_eq!(err, EIRError::UnexpectedDataLength { len: 1 });
    let eir = try_parse_eir(Bytes::new()).unwrap().unwrap();
    assert!(eir.is_empty());
}

#[test]
fn parse_eir_reads_from_where_the_cursor_stands() {
    let whole = Bytes::copy_from_slice(b"\x03\x09Hi\x02\x01\x06");
    let later = whole.slice(4..);
    let eir = parse_eir(later).unwrap();
    assert_eq!(eir.len(), 1);
    assert_eq!(flag_bits_of(&eir[0]), 0x06);
}

#[test]
fn data_types_have_their_codes() {
    assert_eq!(EIRDataTypes::from_u8(0x01), Some(EIRDataTypes::Flags));
    assert_eq!(EIRDataTypes::from_u8(0x02), Some(EIRDataTypes::UUID16Incomplete));
    assert_eq!(EIRDataTypes::from_u8(0x03), Some(EIRDataTypes::UUID16Complete));
    assert_eq!(EIRDataTypes::from_u8(0x04), Some(EIRDataTypes::UUID32Incomplete));
    assert_eq!(EIRDataTypes::from_u8(0x05), Some(EIRDataTypes::UUID32Complete));
    assert_eq!(EIRDataTypes::from_u8(0x06), Some(EIRDataTypes::UUID128Incomplete));
    assert_eq!(EIRDataTypes::from_u8(0x07), Some(EIRDataTypes::UUID128Complete));
    assert_eq!(EIRDataTypes::from_u8(0x08), Some(EIRDataTypes::NameShort));
    assert_eq!(EIRDataTypes::from_u8(0x09), Some(EIRDataTypes::NameComplete));
    assert_eq!(EIRDataTypes::from_u8(0x0A), Some(EIRDataTypes::TxPowerLevel));
    assert_eq!(EIRDataTypes::from_u8(0x24), Some(EIRDataTypes::URI));
    assert_eq!(EIRDataTypes::from_u8(0xFF), Some(EIRDataTypes::ManufacturerSpecificData));
    assert_eq!(EIRDataTypes::from_u8(0x00), None);
    assert_eq!(EIRDataTypes::from_u8(0x0B), None);
    assert_eq!(EIRDataTypes::from_u8(0x23), None);
    assert_eq!(EIRDataTypes::from_u8(0xFE), None);
}

#[test]
fn names_are_short_or_complete() {
    let short = EIRName::short_name("Hi".to_string());
    assert_eq!(short.name(), "Hi");
    assert!(!short.complete());
    let complete = EIRName::complete_name("Hi there".to_string());
    assert_eq!(complete.name(), "Hi there");
    assert!(complete.complete());
}
