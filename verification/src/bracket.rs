use vstd::prelude::*;
use widestring::U32String;
use crate::char::CharType;
use crate::error::Error;
use crate::text::code_points;
use crate::text::text_of;
use crate::unicode::first_at_least;
use crate::unicode::position;

verus! {

/// A bracket as a number: the pairing id, and the highest bit set for an opening bracket.
pub type Bracket = u32;

/// The bit that marks an opening bracket.
pub const BRACKET_OPEN_MASK: u32 = 0x8000_0000;

/// The bits that hold the pairing id.
pub const BRACKET_ID_MASK: u32 = 0x7FFF_FFFF;

/// What stands for a character that is no bracket.
pub const NO_BRACKET: u32 = 0;

/// The paired brackets of the Unicode Character Database (14.0), in ascending order.
pub const BRACKET_CODES: [u32; 128] = [
    0x0028, 0x0029, 0x005B, 0x005D, 0x007B, 0x007D, 0x0F3A, 0x0F3B,
    0x0F3C, 0x0F3D, 0x169B, 0x169C, 0x2045, 0x2046, 0x207D, 0x207E,
    0x208D, 0x208E, 0x2308, 0x2309, 0x230A, 0x230B, 0x2329, 0x232A,
    0x2768, 0x2769, 0x276A, 0x276B, 0x276C, 0x276D, 0x276E, 0x276F,
    0x2770, 0x2771, 0x2772, 0x2773, 0x2774, 0x2775, 0x27C5, 0x27C6,
    0x27E6, 0x27E7, 0x27E8, 0x27E9, 0x27EA, 0x27EB, 0x27EC, 0x27ED,
    0x27EE, 0x27EF, 0x2983, 0x2984, 0x2985, 0x2986, 0x2987, 0x2988,
    0x2989, 0x298A, 0x298B, 0x298C, 0x298D, 0x298E, 0x298F, 0x2990,
    0x2991, 0x2992, 0x2993, 0x2994, 0x2995, 0x2996, 0x2997, 0x2998,
    0x29D8, 0x29D9, 0x29DA, 0x29DB, 0x29FC, 0x29FD, 0x2E22, 0x2E23,
    0x2E24, 0x2E25, 0x2E26, 0x2E27, 0x2E28, 0x2E29, 0x2E55, 0x2E56,
    0x2E57, 0x2E58, 0x2E59, 0x2E5A, 0x2E5B, 0x2E5C, 0x3008, 0x3009,
    0x300A, 0x300B, 0x300C, 0x300D, 0x300E, 0x300F, 0x3010, 0x3011,
    0x3014, 0x3015, 0x3016, 0x3017, 0x3018, 0x3019, 0x301A, 0x301B,
    0xFE59, 0xFE5A, 0xFE5B, 0xFE5C, 0xFE5D, 0xFE5E, 0xFF08, 0xFF09,
    0xFF3B, 0xFF3D, 0xFF5B, 0xFF5D, 0xFF5F, 0xFF60, 0xFF62, 0xFF63,
];

/// For each paired bracket its pairing id, with the highest bit set for an opening
/// bracket. The id is the code point of the opening bracket of the pair; the two angle
/// brackets U+2329 and U+232A have the id of U+3008, to which they are canonically
/// equivalent.
pub const BRACKET_KINDS: [u32; 128] = [
    0x80000028, 0x00000028, 0x8000005B, 0x0000005B, 0x8000007B, 0x0000007B,
    0x80000F3A, 0x00000F3A, 0x80000F3C, 0x00000F3C, 0x8000169B, 0x0000169B,
    0x80002045, 0x00002045, 0x8000207D, 0x0000207D, 0x8000208D, 0x0000208D,
    0x80002308, 0x00002308, 0x8000230A, 0x0000230A, 0x80003008, 0x00003008,
    0x80002768, 0x00002768, 0x8000276A, 0x0000276A, 0x8000276C, 0x0000276C,
    0x8000276E, 0x0000276E, 0x80002770, 0x00002770, 0x80002772, 0x00002772,
    0x80002774, 0x00002774, 0x800027C5, 0x000027C5, 0x800027E6, 0x000027E6,
    0x800027E8, 0x000027E8, 0x800027EA, 0x000027EA, 0x800027EC, 0x000027EC,
    0x800027EE, 0x000027EE, 0x80002983, 0x00002983, 0x80002985, 0x00002985,
    0x80002987, 0x00002987, 0x80002989, 0x00002989, 0x8000298B, 0x0000298B,
    0x8000298D, 0x0000298F, 0x8000298F, 0x0000298D, 0x80002991, 0x00002991,
    0x80002993, 0x00002993, 0x80002995, 0x00002995, 0x80002997, 0x00002997,
    0x800029D8, 0x000029D8, 0x800029DA, 0x000029DA, 0x800029FC, 0x000029FC,
    0x80002E22, 0x00002E22, 0x80002E24, 0x00002E24, 0x80002E26, 0x00002E26,
    0x80002E28, 0x00002E28, 0x80002E55, 0x00002E55, 0x80002E57, 0x00002E57,
    0x80002E59, 0x00002E59, 0x80002E5B, 0x00002E5B, 0x80003008, 0x00003008,
    0x8000300A, 0x0000300A, 0x8000300C, 0x0000300C, 0x8000300E, 0x0000300E,
    0x80003010, 0x00003010, 0x80003014, 0x00003014, 0x80003016, 0x00003016,
    0x80003018, 0x00003018, 0x8000301A, 0x0000301A, 0x8000FE59, 0x0000FE59,
    0x8000FE5B, 0x0000FE5B, 0x8000FE5D, 0x0000FE5D, 0x8000FF08, 0x0000FF08,
    0x8000FF3B, 0x0000FF3B, 0x8000FF5B, 0x0000FF5B, 0x8000FF5F, 0x0000FF5F,
    0x8000FF62, 0x0000FF62,
];

/// Whether a character is one of a pair of brackets, and which: the id that it shares
/// with the other bracket of its pair, and whether it opens or closes the pair.
#[derive(Debug, Clone, Copy, PartialEq, Eq, Structural, PartialOrd, Ord, Hash)]
pub struct BracketType(pub Bracket);

/// What the table of paired brackets holds for a code point, and `NO_BRACKET` for a
/// code point that it does not list.
pub open spec fn bracket_of(cp: u32) -> BracketType {
    let i = first_at_least(BRACKET_CODES@, cp, 0);
    if i < 128 && BRACKET_CODES[i] == cp {
        BracketType(BRACKET_KINDS[i])
    } else {
        BracketType(NO_BRACKET)
    }
}

/// The brackets of a text whose characters have the categories `types`: a character of
/// another category than `OtherNeutral` is no bracket, whatever the table holds for it.
pub open spec fn brackets_of(text: Seq<u32>, types: Seq<CharType>) -> Seq<BracketType> {
    Seq::new(
        text.len(),
        |i: int|
            if types[i] == CharType::OtherNeutral {
                bracket_of(text[i])
            } else {
                BracketType(NO_BRACKET)
            },
    )
}

impl From<char> for BracketType {
    fn from(raw: char) -> (b: BracketType) {
        BracketType::from_bracket(raw as u32)
    }
}

impl vstd::std_specs::convert::FromSpecImpl<char> for BracketType {
    open spec fn obeys_from_spec() -> bool {
        true
    }

    open spec fn from_spec(raw: char) -> BracketType {
        bracket_of(raw as u32)
    }
}

impl BracketType {
    /// The character is one of a pair of brackets.
    pub open spec fn spec_is_bracket(&self) -> bool {
        self.0 != NO_BRACKET
    }

    /// Whether the character is one of a pair of brackets.
    #[verifier::when_used_as_spec(spec_is_bracket)]
    pub fn is_bracket(&self) -> (r: bool)
        ensures
            r == self.spec_is_bracket(),
    {
        self.0 != NO_BRACKET
    }

    /// The bracket opens its pair.
    pub open spec fn spec_is_open(&self) -> bool {
        self.0 >= BRACKET_OPEN_MASK
    }

    /// Whether the bracket opens its pair.
    #[verifier::when_used_as_spec(spec_is_open)]
    pub fn is_open(&self) -> (r: bool)
        ensures
            r == self.spec_is_open(),
            r == (self.0 & BRACKET_OPEN_MASK > 0),
    {
        let raw = self.0;
        assert((raw >= 0x8000_0000u32) == (raw & 0x8000_0000u32 > 0)) by (bit_vector);
        raw >= BRACKET_OPEN_MASK
    }

    /// The id that the two brackets of a pair share.
    pub open spec fn spec_get_id(&self) -> u32 {
        if self.0 >= BRACKET_OPEN_MASK {
            (self.0 - BRACKET_OPEN_MASK) as u32
        } else {
            self.0
        }
    }

    /// The id that the two brackets of a pair share, and 0 for a character that is no
    /// bracket.
    #[verifier::when_used_as_spec(spec_get_id)]
    pub fn get_id(&self) -> (id: u32)
        ensures
            id == self.spec_get_id(),
            id == self.0 & BRACKET_ID_MASK,
    {
        let raw = self.0;
        assert(raw & 0x7FFF_FFFFu32 == (if raw >= 0x8000_0000u32 {
            (raw - 0x8000_0000u32) as u32
        } else {
            raw
        })) by (bit_vector);
        if raw >= BRACKET_OPEN_MASK {
            raw - BRACKET_OPEN_MASK
        } else {
            raw
        }
    }

    /// The bracket that a character is, by the table of paired brackets alone.
    pub fn from_char(ch: char) -> (b: BracketType)
        ensures
            b == bracket_of(ch as u32),
    {
        Self::from_bracket(ch as u32)
    }

    /// The bracket that a code point is, by the table of paired brackets alone.
    pub fn from_bracket(raw: Bracket) -> (b: BracketType)
        ensures
            b == bracket_of(raw),
    {
        let i = position(&BRACKET_CODES, raw);
        if i < 128 && BRACKET_CODES[i] == raw {
            BracketType(BRACKET_KINDS[i])
        } else {
            BracketType(NO_BRACKET)
        }
    }

    /// The brackets of the code points `text`, which have the categories `char_types`.
    pub fn of_classified(text: &Vec<u32>, char_types: &Vec<CharType>) -> (out: Vec<BracketType>)
        requires
            text.len() == char_types.len(),
        ensures
            out@ == brackets_of(text@, char_types@),
    {
        let n = text.len();
        let mut out: Vec<BracketType> = Vec::new();
        let mut i: usize = 0;
        while i < n
            invariant
                n == text.len(),
                n == char_types.len(),
                i <= n,
                out.len() == i,
                forall|k: int| 0 <= k < i ==> #[trigger] out[k] == brackets_of(text@, char_types@)[k],
            decreases n - i,
        {
            if char_types[i] == CharType::OtherNeutral {
                out.push(Self::from_bracket(text[i]));
            } else {
                out.push(BracketType(NO_BRACKET));
            }
            i += 1;
        }
        assert(out@ =~= brackets_of(text@, char_types@));
        out
    }

    /// The brackets of the code points `text` with the categories `char_types`.
    ///
    /// Fails with `LengthMismatch` if the two differ in length.
    pub fn of_code_points(text: &Vec<u32>, char_types: &Vec<CharType>) -> (r: Result<
        Vec<BracketType>,
        Error,
    >)
        ensures
            text.len() != char_types.len() ==> r == Err::<Vec<BracketType>, Error>(
                Error::LengthMismatch,
            ),
            text.len() == char_types.len() ==> r.is_ok() && r.unwrap()@ == brackets_of(
                text@,
                char_types@,
            ),
    {
        if text.len() != char_types.len() {
            Err(Error::LengthMismatch)
        } else {
            Ok(Self::of_classified(text, char_types))
        }
    }

    /// The brackets of a text with the categories `char_types`: for each character of
    /// the category `OtherNeutral` what the table of paired brackets holds for it, and
    /// `NO_BRACKET` for every other character.
    ///
    /// Fails with `LengthMismatch` if the text and the categories differ in length.
    pub fn parse(input_str: &U32String, char_types: &Vec<CharType>) -> (r: Result<
        Vec<BracketType>,
        Error,
    >)
        ensures
            text_of(input_str).len() != char_types.len() ==> r == Err::<Vec<BracketType>, Error>(
                Error::LengthMismatch,
            ),
            text_of(input_str).len() == char_types.len() ==> r.is_ok() && r.unwrap()@
                == brackets_of(text_of(input_str), char_types@),
    {
        let text = code_points(input_str);
        Self::of_code_points(&text, char_types)
    }
}

} // verus!
