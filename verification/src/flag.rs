use vstd::prelude::*;

verus! {

/// Options of the reordering and shaping functions. Each of the first eight is one bit;
/// `Default` and `Arabic` are the two usual sets.
#[derive(PartialEq, Eq, Structural, PartialOrd, Debug, Clone, Copy, Hash)]
pub enum FriBidiFlag {
    /// Replace mirrored characters in right-to-left runs.
    ShapeMirroring,
    /// Put non-spacing marks after their base character in right-to-left runs.
    ReorderNsm,
    /// Shape Arabic with presentation forms.
    ShapeArabPres,
    /// Form the Arabic ligatures.
    ShapeArabLiga,
    /// Shape Arabic for consoles.
    ShapeArabConsole,
    /// Remove the bidirectional marks.
    RemoveBidirectional,
    /// Remove the joining marks.
    RemoveJoining,
    /// Remove the special marks.
    RemoveSpecials,
    /// `ShapeMirroring`, `ReorderNsm` and `RemoveSpecials`.
    Default,
    /// `ShapeArabPres` and `ShapeArabLiga`.
    Arabic,
}

impl FriBidiFlag {
    /// The bits of the options that the flag stands for.
    pub open spec fn spec_bits(self) -> u32 {
        match self {
            FriBidiFlag::ShapeMirroring => 0x0000_0001,
            FriBidiFlag::ReorderNsm => 0x0000_0002,
            FriBidiFlag::ShapeArabPres => 0x0000_0100,
            FriBidiFlag::ShapeArabLiga => 0x0000_0200,
            FriBidiFlag::ShapeArabConsole => 0x0000_0400,
            FriBidiFlag::RemoveBidirectional => 0x0001_0000,
            FriBidiFlag::RemoveJoining => 0x0002_0000,
            FriBidiFlag::RemoveSpecials => 0x0004_0000,
            FriBidiFlag::Default => 0x0004_0003,
            FriBidiFlag::Arabic => 0x0000_0300,
        }
    }

    /// The bits of the options that the flag stands for.
    #[verifier::when_used_as_spec(spec_bits)]
    pub fn bits(self) -> (b: u32)
        ensures
            b == self.spec_bits(),
    {
        match self {
            FriBidiFlag::ShapeMirroring => 0x0000_0001,
            FriBidiFlag::ReorderNsm => 0x0000_0002,
            FriBidiFlag::ShapeArabPres => 0x0000_0100,
            FriBidiFlag::ShapeArabLiga => 0x0000_0200,
            FriBidiFlag::ShapeArabConsole => 0x0000_0400,
            FriBidiFlag::RemoveBidirectional => 0x0001_0000,
            FriBidiFlag::RemoveJoining => 0x0002_0000,
            FriBidiFlag::RemoveSpecials => 0x0004_0000,
            FriBidiFlag::Default => 0x0004_0003,
            FriBidiFlag::Arabic => 0x0000_0300,
        }
    }

    /// The flag asks for non-spacing marks to follow their base character.
    pub open spec fn spec_reorders_nsm(self) -> bool {
        self == FriBidiFlag::ReorderNsm || self == FriBidiFlag::Default
    }

    /// Whether the flag holds the option `ReorderNsm`.
    #[verifier::when_used_as_spec(spec_reorders_nsm)]
    pub fn reorders_nsm(self) -> (r: bool)
        ensures
            r == self.spec_reorders_nsm(),
            r == (self.spec_bits() & 0x0000_0002u32 != 0),
    {
        proof {
            assert(0x0000_0001u32 & 0x0000_0002u32 == 0) by (bit_vector);
            assert(0x0000_0002u32 & 0x0000_0002u32 != 0) by (bit_vector);
            assert(0x0000_0100u32 & 0x0000_0002u32 == 0) by (bit_vector);
            assert(0x0000_0200u32 & 0x0000_0002u32 == 0) by (bit_vector);
            assert(0x0000_0400u32 & 0x0000_0002u32 == 0) by (bit_vector);
            assert(0x0001_0000u32 & 0x0000_0002u32 == 0) by (bit_vector);
            assert(0x0002_0000u32 & 0x0000_0002u32 == 0) by (bit_vector);
            assert(0x0004_0000u32 & 0x0000_0002u32 == 0) by (bit_vector);
            assert(0x0004_0003u32 & 0x0000_0002u32 != 0) by (bit_vector);
            assert(0x0000_0300u32 & 0x0000_0002u32 == 0) by (bit_vector);
        }
        matches!(self, FriBidiFlag::ReorderNsm | FriBidiFlag::Default)
    }
}

} // verus!
