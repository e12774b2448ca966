use vstd::prelude::*;
use crate::char::Char;
use crate::char::CharType;

verus! {

/// The highest level that an embedding, an override or an isolate can open.
pub const MAX_EXPLICIT_LEVEL: i8 = 125;

/// The highest level that a character can end with: one above the highest explicit
/// level, which a number at that level reaches.
pub const MAX_RESOLVED_LEVEL: i8 = 126;

/// An embedding level. Even levels run left to right, odd levels right to left.
#[derive(Debug, Clone, Copy, PartialEq, Eq, Structural, PartialOrd, Hash)]
pub struct LevelType(pub i8);

impl From<i8> for LevelType {
    fn from(value: i8) -> (level: LevelType) {
        LevelType(value)
    }
}

impl vstd::std_specs::convert::FromSpecImpl<i8> for LevelType {
    open spec fn obeys_from_spec() -> bool {
        true
    }

    open spec fn from_spec(value: i8) -> LevelType {
        LevelType(value)
    }
}

impl LevelType {
    /// A level that the algorithm can give to a character.
    pub open spec fn wf(self) -> bool {
        0 <= self.0 <= MAX_RESOLVED_LEVEL
    }

    /// A level that an embedding, an override or an isolate can open.
    pub open spec fn is_explicit(self) -> bool {
        0 <= self.0 <= MAX_EXPLICIT_LEVEL
    }

    /// The level is odd.
    pub open spec fn spec_is_right_to_left(&self) -> bool {
        self.0 % 2 != 0
    }

    /// Whether text at this level runs right to left: whether the level is odd.
    #[verifier::when_used_as_spec(spec_is_right_to_left)]
    pub fn is_right_to_left(&self) -> (r: bool)
        ensures
            r == self.spec_is_right_to_left(),
    {
        self.0 % 2 != 0
    }

    /// The level if it is one that embeddings can open, from 0 to 125.
    pub fn new(value: i8) -> (level: Option<LevelType>)
        ensures
            level == (if LevelType(value).is_explicit() {
                Some(LevelType(value))
            } else {
                None
            }),
    {
        if 0 <= value && value <= MAX_EXPLICIT_LEVEL {
            Some(LevelType(value))
        } else {
            None
        }
    }

    /// The strong category of the level's direction.
    pub open spec fn spec_to_chartype(&self) -> CharType {
        if self.spec_is_right_to_left() {
            CharType::RightToLeft
        } else {
            CharType::LeftToRight
        }
    }

    /// The strong category of the level's direction: L for an even level, R for an odd one.
    #[verifier::when_used_as_spec(spec_to_chartype)]
    pub fn to_chartype(&self) -> (t: CharType)
        ensures
            t == self.spec_to_chartype(),
    {
        if self.is_right_to_left() {
            CharType::RightToLeft
        } else {
            CharType::LeftToRight
        }
    }

    /// The lowest level of the direction of a category.
    pub open spec fn spec_from_chartype(chartype: CharType) -> LevelType {
        if chartype.spec_is_rtl() {
            LevelType(1)
        } else {
            LevelType(0)
        }
    }

    /// The lowest level of the direction of a category: 1 for a right-to-left category,
    /// 0 for any other.
    #[verifier::when_used_as_spec(spec_from_chartype)]
    pub fn from_chartype(chartype: CharType) -> (level: LevelType)
        ensures
            level == Self::spec_from_chartype(chartype),
    {
        if chartype.is_rtl() {
            LevelType(1)
        } else {
            LevelType(0)
        }
    }

    /// The lowest level of the direction of the category with the number `chartype`.
    pub open spec fn spec_from_char(chartype: Char) -> LevelType {
        LevelType(
            if chartype % 2 == 1 {
                1
            } else {
                0
            },
        )
    }

    /// The lowest level of the direction of a category that is given by its number: 1
    /// if the lowest bit of the number is set, which marks the categories that run
    /// right to left, and 0 if not.
    #[verifier::when_used_as_spec(spec_from_char)]
    pub fn from_char(chartype: Char) -> (level: LevelType)
        ensures
            level == Self::spec_from_char(chartype),
            level == LevelType(
                if chartype % 2 == 1 {
                    1
                } else {
                    0
                },
            ),
    {
        if chartype % 2 == 1 {
            LevelType(1)
        } else {
            LevelType(0)
        }
    }
}

/// The level of a category is the same whether the category is given by itself or by
/// its number.
pub proof fn lemma_level_of_number(chartype: CharType)
    ensures
        LevelType::spec_from_char(chartype.spec_number()) == LevelType::spec_from_chartype(
            chartype,
        ),
{
}

} // verus!
