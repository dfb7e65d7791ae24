use bluetooth_eir::flags::EIRFlags;
use bluetooth_eir::flags::FlagSet;
use bluetooth_eir::flags::ALL_FLAG_BITS;

const ALL: [EIRFlags; 5] = [
    EIRFlags::LELimitedDiscoverableMode,
    EIRFlags::LEGeneralDiscoverableMode,
    EIRFlags::BREDRNotSupported,
    EIRFlags::ControllerSimultaneousLEBREDR,
    EIRFlags::HostSimultaneousLEBREDR,
];

#[test]
fn flags_are_powers_of_two_from_the_lowest_bit() {
    assert_eq!(EIRFlags::LELimitedDiscoverableMode.bits(), 1 << 0);
    assert_eq!(EIRFlags::LEGeneralDiscoverableMode.bits(), 1 << 1);
    assert_eq!(EIRFlags::BREDRNotSupported.bits(), 1 << 2);
    assert_eq!(EIRFlags::ControllerSimultaneousLEBREDR.bits(), 1 << 3);
    assert_eq!(EIRFlags::HostSimultaneousLEBREDR.bits(), 1 << 4);
    assert_eq!(ALL.iter().fold(0u8, |bits, flag| bits | flag.bits()), ALL_FLAG_BITS);
}

#[test]
fn from_bits_truncate_keeps_the_five_flag_bits() {
    assert_eq!(FlagSet::from_bits_truncate(0x00).bits(), 0x00);
    assert_eq!(FlagSet::from_bits_truncate(0x06).bits(), 0x06);
    assert_eq!(FlagSet::from_bits_truncate(0x1F).bits(), 0x1F);
    assert_eq!(FlagSet::from_bits_truncate(0xFF).bits(), 0x1F);
    assert_eq!(FlagSet::from_bits_truncate(0xE0).bits(), 0x00);
    assert_eq!(FlagSet::from_bits_truncate(0xA5).bits(), 0x05);
}

#[test]
fn from_bits_truncate_holds_the_flags_whose_bit_is_set() {
    for bits in 0..=255u8 {
        let set = FlagSet::from_bits_truncate(bits);
        assert_eq!(set.bits(), bits & 0x1F);
        for flag in ALL {
            assert_eq!(set.contains(flag), bits & flag.bits() != 0);
        }
    }
}

#[test]
fn sets_with_the_same_flags_are_equal() {
    assert_eq!(FlagSet::from_bits_truncate(0x06), FlagSet::from_bits_truncate(0xE6));
    assert_ne!(FlagSet::from_bits_truncate(0x06), FlagSet::from_bits_truncate(0x07));
}
