//! The capability flags that a device advertises, and sets of them.

use vstd::prelude::*;

verus! {

/// One capability flag of the Flags block.
#[derive(Debug, Copy, Clone, Eq, PartialEq, Structural)]
pub enum EIRFlags {
    LELimitedDiscoverableMode,
    LEGeneralDiscoverableMode,
    BREDRNotSupported,
    ControllerSimultaneousLEBREDR,
    HostSimultaneousLEBREDR,
}

/// The union of the bits of all five flags.
pub const ALL_FLAG_BITS: u8 = 0x1f;

impl EIRFlags {
    /// The bit that stands for this flag in the octet of a Flags block.
    pub open spec fn mask(self) -> u8 {
        match self {
            EIRFlags::LELimitedDiscoverableMode => 0x01,
            EIRFlags::LEGeneralDiscoverableMode => 0x02,
            EIRFlags::BREDRNotSupported => 0x04,
            EIRFlags::ControllerSimultaneousLEBREDR => 0x08,
            EIRFlags::HostSimultaneousLEBREDR => 0x10,
        }
    }

    /// The bit that stands for this flag.
    pub fn bits(self) -> (b: u8)
        ensures
            b == self.mask(),
    {
        match self {
            EIRFlags::LELimitedDiscoverableMode => 0x01,
            EIRFlags::LEGeneralDiscoverableMode => 0x02,
            EIRFlags::BREDRNotSupported => 0x04,
            EIRFlags::ControllerSimultaneousLEBREDR => 0x08,
            EIRFlags::HostSimultaneousLEBREDR => 0x10,
        }
    }
}

/// The flags whose bit is set in `octet`. Bits that stand for no flag count
/// for nothing.
pub open spec fn flags_of(octet: u8) -> Set<EIRFlags> {
    Set::new(|flag: EIRFlags| octet & flag.mask() != 0)
}

/// A set of capability flags, held as one octet with a bit per flag.
#[derive(Debug, Copy, Clone, Eq, PartialEq)]
pub struct FlagSet {
    bits: u8,
}

impl View for FlagSet {
    type V = Set<EIRFlags>;

    closed spec fn view(&self) -> Set<EIRFlags> {
        flags_of(self.bits)
    }
}

impl FlagSet {
    /// No bit outside the five flags is ever set.
    #[verifier::type_invariant]
    spec fn wf(self) -> bool {
        self.bits & !ALL_FLAG_BITS == 0
    }

    /// The octet that holds this set.
    pub closed spec fn spec_bits(self) -> u8 {
        self.bits
    }

    /// The set of the flags whose bit is set in `bits`; every other bit is
    /// dropped.
    pub fn from_bits_truncate(bits: u8) -> (set: FlagSet)
        ensures
            set@ == flags_of(bits),
            set.spec_bits() == bits & ALL_FLAG_BITS,
    {
        let kept: u8 = bits & ALL_FLAG_BITS;
        proof {
            assert(kept & !0x1fu8 == 0) by (bit_vector)
                requires
                    kept == bits & 0x1fu8,
            ;
            assert forall|flag: EIRFlags| (kept & flag.mask() != 0) == (bits & flag.mask()
                != 0) by {
                let m = flag.mask();
                assert((kept & m != 0) == (bits & m != 0)) by (bit_vector)
                    requires
                        kept == bits & 0x1fu8,
                        m == 0x01u8 || m == 0x02u8 || m == 0x04u8 || m == 0x08u8 || m == 0x10u8,
                ;
            }
        }
        FlagSet { bits: kept }
    }

    /// The octet that holds this set: the union of the bits of its flags.
    pub fn bits(self) -> (b: u8)
        ensures
            b == self.spec_bits(),
            b & !ALL_FLAG_BITS == 0,
            flags_of(b) == self@,
    {
        proof {
            use_type_invariant(self);
        }
        self.bits
    }

    /// Whether `flag` is in the set.
    pub fn contains(self, flag: EIRFlags) -> (found: bool)
        ensures
            found == self@.contains(flag),
    {
        self.bits & flag.bits() != 0
    }
}

} // verus!
