use vstd::prelude::*;
use crate::level::LevelType;
use crate::unicode::bidi_class;
use crate::unicode::lookup_bidi_class;

verus! {

/// A 32-bit number: a code point or, where a function says so, the number of a
/// category.
pub type Char = u32;

/// The bidirectional category of a character.
#[derive(PartialEq, Eq, Structural, PartialOrd, Debug, Clone, Copy, Hash)]
pub enum CharType {
    /// Strong left-to-right character (L).
    LeftToRight,
    /// Strong right-to-left character (R).
    RightToLeft,
    /// Strong right-to-left Arabic letter (AL).
    ArabicLetter,
    /// European digit (EN).
    EuropeanNumeral,
    /// Arabic-Indic digit (AN).
    ArabicNumeral,
    /// Separator inside European numbers (ES).
    EuropeanNumberSeparator,
    /// Terminator next to European numbers (ET).
    EuropeanNumberTerminator,
    /// Separator common to both kinds of numbers (CS).
    CommonSeparator,
    /// Non-spacing mark (NSM).
    NonSpacingMark,
    /// Boundary neutral (BN).
    BoundaryNeutral,
    /// Paragraph separator (B).
    BlockSeparator,
    /// Segment separator (S).
    SegmentSeparator,
    /// White space (WS).
    WhiteSpace,
    /// Any other neutral (ON).
    OtherNeutral,
    /// Start of a left-to-right embedding (LRE).
    LeftToRightEmbedding,
    /// Start of a right-to-left embedding (RLE).
    RightToLeftEmbedding,
    /// Start of a left-to-right override (LRO).
    LeftToRightOverride,
    /// Start of a right-to-left override (RLO).
    RightToLeftOverride,
    /// End of the last embedding or override (PDF).
    PopDirectionalFlag,
    /// Start of a left-to-right isolate (LRI).
    LeftToRightIsolate,
    /// Start of a right-to-left isolate (RLI).
    RightToLeftIsolate,
    /// Start of an isolate that takes the direction of its first strong character (FSI).
    FirstStongIsolate,
    /// End of the last isolate (PDI).
    PopDirectionalIsolate,
}

impl CharType {
    /// Right to left: R, AL, RLE, RLO and RLI.
    pub open spec fn spec_is_rtl(self) -> bool {
        matches!(
            self,
            CharType::RightToLeft | CharType::ArabicLetter | CharType::RightToLeftEmbedding |
            CharType::RightToLeftOverride | CharType::RightToLeftIsolate
        )
    }

    /// Right to left: R, AL, RLE, RLO and RLI.
    #[verifier::when_used_as_spec(spec_is_rtl)]
    pub fn is_rtl(self) -> (r: bool)
        ensures
            r == self.spec_is_rtl(),
    {
        matches!(
            self,
            CharType::RightToLeft | CharType::ArabicLetter | CharType::RightToLeftEmbedding |
            CharType::RightToLeftOverride | CharType::RightToLeftIsolate
        )
    }

    /// Arabic: AL and AN.
    pub open spec fn spec_is_arabic(self) -> bool {
        matches!(self, CharType::ArabicLetter | CharType::ArabicNumeral)
    }

    /// Arabic: AL and AN.
    #[verifier::when_used_as_spec(spec_is_arabic)]
    pub fn is_arabic(self) -> (r: bool)
        ensures
            r == self.spec_is_arabic(),
    {
        matches!(self, CharType::ArabicLetter | CharType::ArabicNumeral)
    }

    /// Strong: L, R and AL.
    pub open spec fn spec_is_strong(self) -> bool {
        matches!(
            self,
            CharType::LeftToRight | CharType::RightToLeft | CharType::ArabicLetter
        )
    }

    /// Strong: L, R and AL.
    #[verifier::when_used_as_spec(spec_is_strong)]
    pub fn is_strong(self) -> (r: bool)
        ensures
            r == self.spec_is_strong(),
    {
        matches!(
            self,
            CharType::LeftToRight | CharType::RightToLeft | CharType::ArabicLetter
        )
    }

    /// Weak: the numbers EN and AN, their separators and terminators ES, ET and CS, NSM
    /// and BN.
    pub open spec fn spec_is_weak(self) -> bool {
        matches!(
            self,
            CharType::EuropeanNumeral | CharType::ArabicNumeral |
            CharType::EuropeanNumberSeparator | CharType::EuropeanNumberTerminator |
            CharType::CommonSeparator | CharType::NonSpacingMark | CharType::BoundaryNeutral
        )
    }

    /// Weak: the numbers EN and AN, their separators and terminators ES, ET and CS, NSM
    /// and BN.
    #[verifier::when_used_as_spec(spec_is_weak)]
    pub fn is_weak(self) -> (r: bool)
        ensures
            r == self.spec_is_weak(),
    {
        matches!(
            self,
            CharType::EuropeanNumeral | CharType::ArabicNumeral |
            CharType::EuropeanNumberSeparator | CharType::EuropeanNumberTerminator |
            CharType::CommonSeparator | CharType::NonSpacingMark | CharType::BoundaryNeutral
        )
    }

    /// Neutral: B, S, WS and ON.
    pub open spec fn spec_is_netural(self) -> bool {
        matches!(
            self,
            CharType::BlockSeparator | CharType::SegmentSeparator | CharType::WhiteSpace |
            CharType::OtherNeutral
        )
    }

    /// Neutral: B, S, WS and ON.
    #[verifier::when_used_as_spec(spec_is_netural)]
    pub fn is_netural(self) -> (r: bool)
        ensures
            r == self.spec_is_netural(),
    {
        matches!(
            self,
            CharType::BlockSeparator | CharType::SegmentSeparator | CharType::WhiteSpace |
            CharType::OtherNeutral
        )
    }

    /// Neutral or isolate control: B, S, WS, ON, LRI, RLI, FSI and PDI. These are the
    /// characters that take their direction from the text around them.
    pub open spec fn spec_is_neutral_or_isolate(self) -> bool {
        self.spec_is_netural() || self.spec_is_isolate()
    }

    /// Neutral or isolate control: B, S, WS, ON, LRI, RLI, FSI and PDI. These are the
    /// characters that take their direction from the text around them.
    #[verifier::when_used_as_spec(spec_is_neutral_or_isolate)]
    pub fn is_neutral_or_isolate(self) -> (r: bool)
        ensures
            r == self.spec_is_neutral_or_isolate(),
    {
        self.is_netural() || self.is_isolate()
    }

    /// Marks the ends of a run list; no character category does.
    pub open spec fn spec_is_sentinel(self) -> bool {
        false
    }

    /// Marks the ends of a run list; no character category does.
    #[verifier::when_used_as_spec(spec_is_sentinel)]
    pub fn is_sentinel(self) -> (r: bool)
        ensures
            r == self.spec_is_sentinel(),
    {
        false
    }

    /// Letter: L, R and AL.
    pub open spec fn spec_is_letter(self) -> bool {
        matches!(self, CharType::LeftToRight | CharType::RightToLeft | CharType::ArabicLetter)
    }

    /// Letter: L, R and AL.
    #[verifier::when_used_as_spec(spec_is_letter)]
    pub fn is_letter(self) -> (r: bool)
        ensures
            r == self.spec_is_letter(),
    {
        matches!(self, CharType::LeftToRight | CharType::RightToLeft | CharType::ArabicLetter)
    }

    /// Number: EN and AN.
    pub open spec fn spec_is_number(self) -> bool {
        matches!(self, CharType::EuropeanNumeral | CharType::ArabicNumeral)
    }

    /// Number: EN and AN.
    #[verifier::when_used_as_spec(spec_is_number)]
    pub fn is_number(self) -> (r: bool)
        ensures
            r == self.spec_is_number(),
    {
        matches!(self, CharType::EuropeanNumeral | CharType::ArabicNumeral)
    }

    /// Number separator or terminator: ES, ET and CS.
    pub open spec fn spec_is_number_separator_or_terminator(self) -> bool {
        matches!(
            self,
            CharType::EuropeanNumberSeparator | CharType::EuropeanNumberTerminator |
            CharType::CommonSeparator
        )
    }

    /// Number separator or terminator: ES, ET and CS.
    #[verifier::when_used_as_spec(spec_is_number_separator_or_terminator)]
    pub fn is_number_separator_or_terminator(self) -> (r: bool)
        ensures
            r == self.spec_is_number_separator_or_terminator(),
    {
        matches!(
            self,
            CharType::EuropeanNumberSeparator | CharType::EuropeanNumberTerminator |
            CharType::CommonSeparator
        )
    }

    /// Space: BN, B, S and WS.
    pub open spec fn spec_is_space(self) -> bool {
        matches!(
            self,
            CharType::BoundaryNeutral | CharType::BlockSeparator | CharType::SegmentSeparator
            | CharType::WhiteSpace
        )
    }

    /// Space: BN, B, S and WS.
    #[verifier::when_used_as_spec(spec_is_space)]
    pub fn is_space(self) -> (r: bool)
        ensures
            r == self.spec_is_space(),
    {
        matches!(
            self,
            CharType::BoundaryNeutral | CharType::BlockSeparator | CharType::SegmentSeparator
            | CharType::WhiteSpace
        )
    }

    /// Explicit mark: LRE, RLE, LRO, RLO and PDF.
    pub open spec fn spec_is_explicit(self) -> bool {
        matches!(
            self,
            CharType::LeftToRightEmbedding | CharType::RightToLeftEmbedding |
            CharType::LeftToRightOverride | CharType::RightToLeftOverride |
            CharType::PopDirectionalFlag
        )
    }

    /// Explicit mark: LRE, RLE, LRO, RLO and PDF.
    #[verifier::when_used_as_spec(spec_is_explicit)]
    pub fn is_explicit(self) -> (r: bool)
        ensures
            r == self.spec_is_explicit(),
    {
        matches!(
            self,
            CharType::LeftToRightEmbedding | CharType::RightToLeftEmbedding |
            CharType::LeftToRightOverride | CharType::RightToLeftOverride |
            CharType::PopDirectionalFlag
        )
    }

    /// Isolate control: LRI, RLI, FSI and PDI.
    pub open spec fn spec_is_isolate(self) -> bool {
        matches!(
            self,
            CharType::LeftToRightIsolate | CharType::RightToLeftIsolate |
            CharType::FirstStongIsolate | CharType::PopDirectionalIsolate
        )
    }

    /// Isolate control: LRI, RLI, FSI and PDI.
    #[verifier::when_used_as_spec(spec_is_isolate)]
    pub fn is_isolate(self) -> (r: bool)
        ensures
            r == self.spec_is_isolate(),
    {
        matches!(
            self,
            CharType::LeftToRightIsolate | CharType::RightToLeftIsolate |
            CharType::FirstStongIsolate | CharType::PopDirectionalIsolate
        )
    }

    /// Text separator: B and S.
    pub open spec fn spec_is_separator(self) -> bool {
        matches!(self, CharType::BlockSeparator | CharType::SegmentSeparator)
    }

    /// Text separator: B and S.
    #[verifier::when_used_as_spec(spec_is_separator)]
    pub fn is_separator(self) -> (r: bool)
        ensures
            r == self.spec_is_separator(),
    {
        matches!(self, CharType::BlockSeparator | CharType::SegmentSeparator)
    }

    /// Explicit override: LRO and RLO.
    pub open spec fn spec_is_override(self) -> bool {
        matches!(self, CharType::LeftToRightOverride | CharType::RightToLeftOverride)
    }

    /// Explicit override: LRO and RLO.
    #[verifier::when_used_as_spec(spec_is_override)]
    pub fn is_override(self) -> (r: bool)
        ensures
            r == self.spec_is_override(),
    {
        matches!(self, CharType::LeftToRightOverride | CharType::RightToLeftOverride)
    }

    /// Left-to-right letter: L.
    pub open spec fn spec_is_left_to_right_letter(self) -> bool {
        matches!(self, CharType::LeftToRight)
    }

    /// Left-to-right letter: L.
    #[verifier::when_used_as_spec(spec_is_left_to_right_letter)]
    pub fn is_left_to_right_letter(self) -> (r: bool)
        ensures
            r == self.spec_is_left_to_right_letter(),
    {
        matches!(self, CharType::LeftToRight)
    }

    /// Right-to-left letter: R and AL.
    pub open spec fn spec_is_right_to_left_letter(self) -> bool {
        matches!(self, CharType::RightToLeft | CharType::ArabicLetter)
    }

    /// Right-to-left letter: R and AL.
    #[verifier::when_used_as_spec(spec_is_right_to_left_letter)]
    pub fn is_right_to_left_letter(self) -> (r: bool)
        ensures
            r == self.spec_is_right_to_left_letter(),
    {
        matches!(self, CharType::RightToLeft | CharType::ArabicLetter)
    }

    /// ES or CS.
    pub open spec fn spec_is_es_or_cs(self) -> bool {
        matches!(self, CharType::EuropeanNumberSeparator | CharType::CommonSeparator)
    }

    /// ES or CS.
    #[verifier::when_used_as_spec(spec_is_es_or_cs)]
    pub fn is_es_or_cs(self) -> (r: bool)
        ensures
            r == self.spec_is_es_or_cs(),
    {
        matches!(self, CharType::EuropeanNumberSeparator | CharType::CommonSeparator)
    }

    /// Explicit mark or BN.
    pub open spec fn spec_is_explicit_or_bn(self) -> bool {
        matches!(
            self,
            CharType::LeftToRightEmbedding | CharType::RightToLeftEmbedding |
            CharType::LeftToRightOverride | CharType::RightToLeftOverride |
            CharType::PopDirectionalFlag | CharType::BoundaryNeutral
        )
    }

    /// Explicit mark or BN.
    #[verifier::when_used_as_spec(spec_is_explicit_or_bn)]
    pub fn is_explicit_or_bn(self) -> (r: bool)
        ensures
            r == self.spec_is_explicit_or_bn(),
    {
        matches!(
            self,
            CharType::LeftToRightEmbedding | CharType::RightToLeftEmbedding |
            CharType::LeftToRightOverride | CharType::RightToLeftOverride |
            CharType::PopDirectionalFlag | CharType::BoundaryNeutral
        )
    }

    /// Explicit mark, BN or NSM.
    pub open spec fn spec_is_explicit_or_bn_or_nsm(self) -> bool {
        matches!(
            self,
            CharType::LeftToRightEmbedding | CharType::RightToLeftEmbedding |
            CharType::LeftToRightOverride | CharType::RightToLeftOverride |
            CharType::PopDirectionalFlag | CharType::BoundaryNeutral |
            CharType::NonSpacingMark
        )
    }

    /// Explicit mark, BN or NSM.
    #[verifier::when_used_as_spec(spec_is_explicit_or_bn_or_nsm)]
    pub fn is_explicit_or_bn_or_nsm(self) -> (r: bool)
        ensures
            r == self.spec_is_explicit_or_bn_or_nsm(),
    {
        matches!(
            self,
            CharType::LeftToRightEmbedding | CharType::RightToLeftEmbedding |
            CharType::LeftToRightOverride | CharType::RightToLeftOverride |
            CharType::PopDirectionalFlag | CharType::BoundaryNeutral |
            CharType::NonSpacingMark
        )
    }

    /// Explicit mark, isolate control, BN or NSM.
    pub open spec fn spec_is_explicit_or_isolate_or_bn_or_nsm(self) -> bool {
        matches!(
            self,
            CharType::LeftToRightEmbedding | CharType::RightToLeftEmbedding |
            CharType::LeftToRightOverride | CharType::RightToLeftOverride |
            CharType::PopDirectionalFlag | CharType::LeftToRightIsolate |
            CharType::RightToLeftIsolate | CharType::FirstStongIsolate |
            CharType::PopDirectionalIsolate | CharType::BoundaryNeutral |
            CharType::NonSpacingMark
        )
    }

    /// Explicit mark, isolate control, BN or NSM.
    #[verifier::when_used_as_spec(spec_is_explicit_or_isolate_or_bn_or_nsm)]
    pub fn is_explicit_or_isolate_or_bn_or_nsm(self) -> (r: bool)
        ensures
            r == self.spec_is_explicit_or_isolate_or_bn_or_nsm(),
    {
        matches!(
            self,
            CharType::LeftToRightEmbedding | CharType::RightToLeftEmbedding |
            CharType::LeftToRightOverride | CharType::RightToLeftOverride |
            CharType::PopDirectionalFlag | CharType::LeftToRightIsolate |
            CharType::RightToLeftIsolate | CharType::FirstStongIsolate |
            CharType::PopDirectionalIsolate | CharType::BoundaryNeutral |
            CharType::NonSpacingMark
        )
    }

    /// Explicit mark, BN or WS.
    pub open spec fn spec_is_explicit_or_bn_or_ws(self) -> bool {
        matches!(
            self,
            CharType::LeftToRightEmbedding | CharType::RightToLeftEmbedding |
            CharType::LeftToRightOverride | CharType::RightToLeftOverride |
            CharType::PopDirectionalFlag | CharType::BoundaryNeutral | CharType::WhiteSpace
        )
    }

    /// Explicit mark, BN or WS.
    #[verifier::when_used_as_spec(spec_is_explicit_or_bn_or_ws)]
    pub fn is_explicit_or_bn_or_ws(self) -> (r: bool)
        ensures
            r == self.spec_is_explicit_or_bn_or_ws(),
    {
        matches!(
            self,
            CharType::LeftToRightEmbedding | CharType::RightToLeftEmbedding |
            CharType::LeftToRightOverride | CharType::RightToLeftOverride |
            CharType::PopDirectionalFlag | CharType::BoundaryNeutral | CharType::WhiteSpace
        )
    }

    /// Explicit mark, separator, BN or WS.
    pub open spec fn spec_is_explicit_or_separator_or_bn_or_ws(self) -> bool {
        matches!(
            self,
            CharType::LeftToRightEmbedding | CharType::RightToLeftEmbedding |
            CharType::LeftToRightOverride | CharType::RightToLeftOverride |
            CharType::PopDirectionalFlag | CharType::BlockSeparator |
            CharType::SegmentSeparator | CharType::BoundaryNeutral | CharType::WhiteSpace
        )
    }

    /// Explicit mark, separator, BN or WS.
    #[verifier::when_used_as_spec(spec_is_explicit_or_separator_or_bn_or_ws)]
    pub fn is_explicit_or_separator_or_bn_or_ws(self) -> (r: bool)
        ensures
            r == self.spec_is_explicit_or_separator_or_bn_or_ws(),
    {
        matches!(
            self,
            CharType::LeftToRightEmbedding | CharType::RightToLeftEmbedding |
            CharType::LeftToRightOverride | CharType::RightToLeftOverride |
            CharType::PopDirectionalFlag | CharType::BlockSeparator |
            CharType::SegmentSeparator | CharType::BoundaryNeutral | CharType::WhiteSpace
        )
    }

    /// Reserved for private use by applications; no character category is.
    pub open spec fn spec_is_private(self) -> bool {
        false
    }

    /// Reserved for private use by applications; no character category is.
    #[verifier::when_used_as_spec(spec_is_private)]
    pub fn is_private(self) -> (r: bool)
        ensures
            r == self.spec_is_private(),
    {
        false
    }

}

impl CharType {
    /// The category of a code point.
    pub fn into_chartype(chartype: Char) -> (t: CharType)
        ensures
            t == bidi_class(chartype),
    {
        lookup_bidi_class(chartype)
    }

    /// The categories of a text, code point by code point.
    pub fn into_chartypes(chartypes: &Vec<Char>) -> (types: Vec<CharType>)
        ensures
            types@ == classes_of(chartypes@),
    {
        let mut types: Vec<CharType> = Vec::new();
        let mut i: usize = 0;
        while i < chartypes.len()
            invariant
                i <= chartypes.len(),
                types@ == classes_of(chartypes@.take(i as int)),
            decreases chartypes.len() - i,
        {
            types.push(lookup_bidi_class(chartypes[i]));
            i += 1;
            assert(chartypes@.take(i as int).drop_last() == chartypes@.take(i as int - 1));
        }
        assert(chartypes@.take(i as int) == chartypes@);
        types
    }

    /// The name of the category, which is the name of its variant.
    pub open spec fn spec_name(self) -> Seq<char> {
        match self {
            CharType::LeftToRight => "LeftToRight"@,
            CharType::RightToLeft => "RightToLeft"@,
            CharType::ArabicLetter => "ArabicLetter"@,
            CharType::EuropeanNumeral => "EuropeanNumeral"@,
            CharType::ArabicNumeral => "ArabicNumeral"@,
            CharType::EuropeanNumberSeparator => "EuropeanNumberSeparator"@,
            CharType::EuropeanNumberTerminator => "EuropeanNumberTerminator"@,
            CharType::CommonSeparator => "CommonSeparator"@,
            CharType::NonSpacingMark => "NonSpacingMark"@,
            CharType::BoundaryNeutral => "BoundaryNeutral"@,
            CharType::BlockSeparator => "BlockSeparator"@,
            CharType::SegmentSeparator => "SegmentSeparator"@,
            CharType::WhiteSpace => "WhiteSpace"@,
            CharType::OtherNeutral => "OtherNeutral"@,
            CharType::LeftToRightEmbedding => "LeftToRightEmbedding"@,
            CharType::RightToLeftEmbedding => "RightToLeftEmbedding"@,
            CharType::LeftToRightOverride => "LeftToRightOverride"@,
            CharType::RightToLeftOverride => "RightToLeftOverride"@,
            CharType::PopDirectionalFlag => "PopDirectionalFlag"@,
            CharType::LeftToRightIsolate => "LeftToRightIsolate"@,
            CharType::RightToLeftIsolate => "RightToLeftIsolate"@,
            CharType::FirstStongIsolate => "FirstStongIsolate"@,
            CharType::PopDirectionalIsolate => "PopDirectionalIsolate"@,
        }
    }

    /// The name of the category, which is the name of its variant.
    pub fn name(char_type: CharType) -> (s: String)
        ensures
            s@ == char_type.spec_name(),
    {
        let text = match char_type {
            CharType::LeftToRight => "LeftToRight",
            CharType::RightToLeft => "RightToLeft",
            CharType::ArabicLetter => "ArabicLetter",
            CharType::EuropeanNumeral => "EuropeanNumeral",
            CharType::ArabicNumeral => "ArabicNumeral",
            CharType::EuropeanNumberSeparator => "EuropeanNumberSeparator",
            CharType::EuropeanNumberTerminator => "EuropeanNumberTerminator",
            CharType::CommonSeparator => "CommonSeparator",
            CharType::NonSpacingMark => "NonSpacingMark",
            CharType::BoundaryNeutral => "BoundaryNeutral",
            CharType::BlockSeparator => "BlockSeparator",
            CharType::SegmentSeparator => "SegmentSeparator",
            CharType::WhiteSpace => "WhiteSpace",
            CharType::OtherNeutral => "OtherNeutral",
            CharType::LeftToRightEmbedding => "LeftToRightEmbedding",
            CharType::RightToLeftEmbedding => "RightToLeftEmbedding",
            CharType::LeftToRightOverride => "LeftToRightOverride",
            CharType::RightToLeftOverride => "RightToLeftOverride",
            CharType::PopDirectionalFlag => "PopDirectionalFlag",
            CharType::LeftToRightIsolate => "LeftToRightIsolate",
            CharType::RightToLeftIsolate => "RightToLeftIsolate",
            CharType::FirstStongIsolate => "FirstStongIsolate",
            CharType::PopDirectionalIsolate => "PopDirectionalIsolate",
        };
        text.to_owned()
    }

    /// The number of the category, for where a category is passed as a number. The
    /// lowest bit of the number is set for the categories that run right to left.
    pub open spec fn spec_number(self) -> u32 {
        match self {
            CharType::LeftToRight => 0x0000_0110,
            CharType::RightToLeft => 0x0000_0111,
            CharType::ArabicLetter => 0x0000_0113,
            CharType::EuropeanNumeral => 0x0000_0220,
            CharType::ArabicNumeral => 0x0000_0222,
            CharType::EuropeanNumberSeparator => 0x0001_0420,
            CharType::EuropeanNumberTerminator => 0x0002_0420,
            CharType::CommonSeparator => 0x0004_0420,
            CharType::NonSpacingMark => 0x0008_0020,
            CharType::BoundaryNeutral => 0x0010_0820,
            CharType::BlockSeparator => 0x0020_2840,
            CharType::SegmentSeparator => 0x0040_2840,
            CharType::WhiteSpace => 0x0080_0840,
            CharType::OtherNeutral => 0x0000_0040,
            CharType::LeftToRightEmbedding => 0x0000_1010,
            CharType::RightToLeftEmbedding => 0x0000_1011,
            CharType::LeftToRightOverride => 0x0000_5010,
            CharType::RightToLeftOverride => 0x0000_5011,
            CharType::PopDirectionalFlag => 0x0000_1020,
            CharType::LeftToRightIsolate => 0x0000_8040,
            CharType::RightToLeftIsolate => 0x0000_8041,
            CharType::FirstStongIsolate => 0x0200_8040,
            CharType::PopDirectionalIsolate => 0x0000_8060,
        }
    }

    /// The number of the category, for where a category is passed as a number. The
    /// lowest bit of the number is set for the categories that run right to left.
    #[verifier::when_used_as_spec(spec_number)]
    pub fn number(self) -> (n: u32)
        ensures
            n == self.spec_number(),
    {
        match self {
            CharType::LeftToRight => 0x0000_0110,
            CharType::RightToLeft => 0x0000_0111,
            CharType::ArabicLetter => 0x0000_0113,
            CharType::EuropeanNumeral => 0x0000_0220,
            CharType::ArabicNumeral => 0x0000_0222,
            CharType::EuropeanNumberSeparator => 0x0001_0420,
            CharType::EuropeanNumberTerminator => 0x0002_0420,
            CharType::CommonSeparator => 0x0004_0420,
            CharType::NonSpacingMark => 0x0008_0020,
            CharType::BoundaryNeutral => 0x0010_0820,
            CharType::BlockSeparator => 0x0020_2840,
            CharType::SegmentSeparator => 0x0040_2840,
            CharType::WhiteSpace => 0x0080_0840,
            CharType::OtherNeutral => 0x0000_0040,
            CharType::LeftToRightEmbedding => 0x0000_1010,
            CharType::RightToLeftEmbedding => 0x0000_1011,
            CharType::LeftToRightOverride => 0x0000_5010,
            CharType::RightToLeftOverride => 0x0000_5011,
            CharType::PopDirectionalFlag => 0x0000_1020,
            CharType::LeftToRightIsolate => 0x0000_8040,
            CharType::RightToLeftIsolate => 0x0000_8041,
            CharType::FirstStongIsolate => 0x0200_8040,
            CharType::PopDirectionalIsolate => 0x0000_8060,
        }
    }

    /// An isolate initiator: LRI, RLI and FSI.
    pub open spec fn spec_is_isolate_initiator(self) -> bool {
        matches!(
            self,
            CharType::LeftToRightIsolate | CharType::RightToLeftIsolate | CharType::FirstStongIsolate
        )
    }

    /// An isolate initiator: LRI, RLI and FSI.
    #[verifier::when_used_as_spec(spec_is_isolate_initiator)]
    pub fn is_isolate_initiator(self) -> (r: bool)
        ensures
            r == self.spec_is_isolate_initiator(),
    {
        matches!(
            self,
            CharType::LeftToRightIsolate | CharType::RightToLeftIsolate | CharType::FirstStongIsolate
        )
    }

    /// The category with the numbers turned into right-to-left letters.
    pub open spec fn spec_into_right_to_left(self) -> CharType {
        if self.spec_is_number() {
            CharType::RightToLeft
        } else {
            self
        }
    }

    /// Turns the numbers, EN and AN, into R and leaves every other category as it is.
    #[verifier::when_used_as_spec(spec_into_right_to_left)]
    pub fn into_right_to_left(self) -> (t: CharType)
        ensures
            t == self.spec_into_right_to_left(),
    {
        if self.is_number() {
            CharType::RightToLeft
        } else {
            self
        }
    }

    /// The direction that an explicit mark forces on the characters after it.
    pub open spec fn spec_explicit_to_override_dir(self) -> CharType {
        match self {
            CharType::LeftToRightOverride => CharType::LeftToRight,
            CharType::RightToLeftOverride => CharType::RightToLeft,
            _ => CharType::OtherNeutral,
        }
    }

    /// The direction that an explicit mark forces on the characters after it: L after
    /// LRO, R after RLO, and none, written ON, after anything else.
    #[verifier::when_used_as_spec(spec_explicit_to_override_dir)]
    pub fn explicit_to_override_dir(self) -> (t: CharType)
        ensures
            t == self.spec_explicit_to_override_dir(),
            t == (if self.spec_is_override() {
                LevelType::spec_from_chartype(self).spec_to_chartype()
            } else {
                CharType::OtherNeutral
            }),
    {
        match self {
            CharType::LeftToRightOverride => CharType::LeftToRight,
            CharType::RightToLeftOverride => CharType::RightToLeft,
            _ => CharType::OtherNeutral,
        }
    }
}

/// The categories of the code points of a text, in the order of the text.
pub open spec fn classes_of(text: Seq<u32>) -> Seq<CharType>
    decreases text.len(),
{
    if text.len() == 0 {
        Seq::empty()
    } else {
        classes_of(text.drop_last()).push(bidi_class(text.last()))
    }
}

/// `classes_of` keeps the length of the text and classifies each position by itself.
pub proof fn lemma_classes_of(text: Seq<u32>)
    ensures
        classes_of(text).len() == text.len(),
        forall|i: int| 0 <= i < text.len() ==> #[trigger] classes_of(text)[i] == bidi_class(text[i]),
    decreases text.len(),
{
    if text.len() > 0 {
        lemma_classes_of(text.drop_last());
    }
}

impl From<Char> for CharType {
    fn from(raw: Char) -> (t: CharType) {
        lookup_bidi_class(raw)
    }
}

impl vstd::std_specs::convert::FromSpecImpl<Char> for CharType {
    open spec fn obeys_from_spec() -> bool {
        true
    }

    open spec fn from_spec(raw: Char) -> CharType {
        bidi_class(raw)
    }
}

impl From<char> for CharType {
    fn from(raw: char) -> (t: CharType) {
        lookup_bidi_class(raw as u32)
    }
}

impl vstd::std_specs::convert::FromSpecImpl<char> for CharType {
    open spec fn obeys_from_spec() -> bool {
        true
    }

    open spec fn from_spec(raw: char) -> CharType {
        bidi_class(raw as u32)
    }
}

} // verus!
