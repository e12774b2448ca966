//! The bidirectional class of every code point, as the Unicode Character Database (14.0)
//! assigns it. A code point that the database does not list is `OtherNeutral`.
//!
//! The code points are cut into ranges of one class each. A table of `ENDS_` holds the
//! last code point of each range in ascending order, the table of `KINDS_` beside it the
//! class of each range. What a table gives is hidden behind a function of its own, so
//! that a proof about one code point looks into one table only: it reveals the
//! function of that table, and `first_at_least` as far as the table is long.

use vstd::prelude::*;
use crate::char::CharType;
use crate::char::CharType::LeftToRight as L;
use crate::char::CharType::RightToLeft as R;
use crate::char::CharType::ArabicLetter as AL;
use crate::char::CharType::EuropeanNumeral as EN;
use crate::char::CharType::ArabicNumeral as AN;
use crate::char::CharType::EuropeanNumberSeparator as ES;
use crate::char::CharType::EuropeanNumberTerminator as ET;
use crate::char::CharType::CommonSeparator as CS;
use crate::char::CharType::NonSpacingMark as NSM;
use crate::char::CharType::BoundaryNeutral as BN;
use crate::char::CharType::BlockSeparator as B;
use crate::char::CharType::SegmentSeparator as S;
use crate::char::CharType::WhiteSpace as WS;
use crate::char::CharType::OtherNeutral as ON;
use crate::char::CharType::LeftToRightEmbedding as LRE;
use crate::char::CharType::RightToLeftEmbedding as RLE;
use crate::char::CharType::LeftToRightOverride as LRO;
use crate::char::CharType::RightToLeftOverride as RLO;
use crate::char::CharType::PopDirectionalFlag as PDF;
use crate::char::CharType::LeftToRightIsolate as LRI;
use crate::char::CharType::RightToLeftIsolate as RLI;
use crate::char::CharType::FirstStongIsolate as FSI;
use crate::char::CharType::PopDirectionalIsolate as PDI;

verus! {

/// The first index from `from` on at which `ends` holds `cp` or more; the length of `ends`
/// if there is none.
pub open spec fn first_at_least(ends: Seq<u32>, cp: u32, from: int) -> int
    decreases ends.len() - from,
{
    if from < 0 || from >= ends.len() {
        ends.len() as int
    } else if cp <= ends[from] {
        from
    } else {
        first_at_least(ends, cp, from + 1)
    }
}

/// The class that a table gives to `cp`: that of the first range that ends at `cp` or
/// later, and `OtherNeutral` beyond the last range.
pub open spec fn class_in(ends: Seq<u32>, kinds: Seq<CharType>, cp: u32) -> CharType {
    let i = first_at_least(ends, cp, 0);
    if i < kinds.len() {
        kinds[i]
    } else {
        ON
    }
}

/// The first index at which `ends` holds `cp` or more; `N` if there is none.
pub fn position<const N: usize>(ends: &[u32; N], cp: u32) -> (i: usize)
    ensures
        i == first_at_least(ends@, cp, 0),
{
    let mut i: usize = 0;
    while i < N && cp > ends[i]
        invariant
            i <= N,
            ends@.len() == N,
            first_at_least(ends@, cp, 0) == first_at_least(ends@, cp, i as int),
        decreases N - i,
    {
        i += 1;
    }
    i
}

/// Looks up the class that a table gives to `cp`.
pub fn lookup_in<const N: usize>(ends: &[u32; N], kinds: &[CharType; N], cp: u32) -> (t: CharType)
    ensures
        t == class_in(ends@, kinds@, cp),
{
    let i = position(ends, cp);
    if i < N {
        kinds[i]
    } else {
        ON
    }
}

/// The last code points of the ranges from U+0000 to U+037E.
pub const ENDS_0000: [u32; 64] = [
    0x0008, 0x0009, 0x000A, 0x000B, 0x000C, 0x000D, 0x001B, 0x001E,
    0x001F, 0x0020, 0x0022, 0x0025, 0x002A, 0x002B, 0x002C, 0x002D,
    0x002F, 0x0039, 0x003A, 0x0040, 0x005A, 0x0060, 0x007A, 0x007E,
    0x0084, 0x0085, 0x009F, 0x00A0, 0x00A1, 0x00A5, 0x00A9, 0x00AA,
    0x00AC, 0x00AD, 0x00AF, 0x00B1, 0x00B3, 0x00B4, 0x00B5, 0x00B8,
    0x00B9, 0x00BA, 0x00BF, 0x00D6, 0x00D7, 0x00F6, 0x00F7, 0x02B8,
    0x02BA, 0x02C1, 0x02CF, 0x02D1, 0x02DF, 0x02E4, 0x02ED, 0x02EE,
    0x02FF, 0x036F, 0x0373, 0x0375, 0x0377, 0x0379, 0x037D, 0x037E,
];

/// The classes of the ranges from U+0000 to U+037E.
pub const KINDS_0000: [CharType; 64] = [
    BN, S, B, S, WS, B, BN, B, S, WS, ON, ET, ON, ES, CS, ES,
    CS, EN, CS, ON, L, ON, L, ON, BN, B, BN, CS, ON, ET, ON, L,
    ON, BN, ON, ET, EN, ON, L, ON, EN, L, ON, L, ON, L, ON, L,
    ON, L, ON, L, ON, L, ON, L, ON, NSM, L, ON, L, ON, L, ON,
];

/// The last code points of the ranges from U+037F to U+070D.
pub const ENDS_037F: [u32; 64] = [
    0x037F, 0x0385, 0x0386, 0x0387, 0x038A, 0x038B, 0x038C, 0x038D,
    0x03A1, 0x03A2, 0x03F5, 0x03F6, 0x0482, 0x0489, 0x052F, 0x0530,
    0x0556, 0x0558, 0x0589, 0x058E, 0x058F, 0x0590, 0x05BD, 0x05BE,
    0x05BF, 0x05C0, 0x05C2, 0x05C3, 0x05C5, 0x05C6, 0x05C7, 0x05CF,
    0x05EA, 0x05EE, 0x05F4, 0x05FF, 0x0605, 0x0607, 0x0608, 0x060A,
    0x060B, 0x060C, 0x060D, 0x060F, 0x061A, 0x064A, 0x065F, 0x0669,
    0x066A, 0x066C, 0x066F, 0x0670, 0x06D5, 0x06DC, 0x06DD, 0x06DE,
    0x06E4, 0x06E6, 0x06E8, 0x06E9, 0x06ED, 0x06EF, 0x06F9, 0x070D,
];

/// The classes of the ranges from U+037F to U+070D.
pub const KINDS_037F: [CharType; 64] = [
    L, ON, L, ON, L, ON, L, ON, L, ON, L, ON, L, NSM, L, ON,
    L, ON, L, ON, ET, ON, NSM, R, NSM, R, NSM, R, NSM, R, NSM, ON,
    R, ON, R, ON, AN, ON, AL, ET, AL, CS, AL, ON, NSM, AL, NSM, AN,
    ET, AN, AL, NSM, AL, NSM, AN, ON, NSM, AL, NSM, ON, NSM, AL, EN, AL,
];

/// The last code points of the ranges from U+070E to U+0992.
pub const ENDS_070E: [u32; 64] = [
    0x070E, 0x0710, 0x0711, 0x072F, 0x074A, 0x074C, 0x07A5, 0x07B0,
    0x07B1, 0x07BF, 0x07EA, 0x07F3, 0x07F5, 0x07F9, 0x07FA, 0x07FC,
    0x07FD, 0x0815, 0x0819, 0x081A, 0x0823, 0x0824, 0x0827, 0x0828,
    0x082D, 0x082F, 0x083E, 0x083F, 0x0858, 0x085B, 0x085D, 0x085E,
    0x085F, 0x086A, 0x086F, 0x088E, 0x088F, 0x0891, 0x0897, 0x089F,
    0x08C9, 0x08E1, 0x08E2, 0x0902, 0x0939, 0x093A, 0x093B, 0x093C,
    0x0940, 0x0948, 0x094C, 0x094D, 0x0950, 0x0957, 0x0961, 0x0963,
    0x0980, 0x0981, 0x0983, 0x0984, 0x098C, 0x098E, 0x0990, 0x0992,
];

/// The classes of the ranges from U+070E to U+0992.
pub const KINDS_070E: [CharType; 64] = [
    ON, AL, NSM, AL, NSM, ON, AL, NSM, AL, ON, R, NSM, R, ON, R, ON,
    NSM, R, NSM, R, NSM, R, NSM, R, NSM, ON, R, ON, R, NSM, ON, R,
    ON, AL, ON, AL, ON, AN, ON, NSM, AL, NSM, AN, NSM, L, NSM, L, NSM,
    L, NSM, L, NSM, L, NSM, L, NSM, L, NSM, L, ON, L, ON, L, ON,
];

/// The last code points of the ranges from U+0993 to U+0A65.
pub const ENDS_0993: [u32; 64] = [
    0x09A8, 0x09A9, 0x09B0, 0x09B1, 0x09B2, 0x09B5, 0x09B9, 0x09BB,
    0x09BC, 0x09C0, 0x09C4, 0x09C6, 0x09C8, 0x09CA, 0x09CC, 0x09CD,
    0x09CE, 0x09D6, 0x09D7, 0x09DB, 0x09DD, 0x09DE, 0x09E1, 0x09E3,
    0x09E5, 0x09F1, 0x09F3, 0x09FA, 0x09FB, 0x09FD, 0x09FE, 0x0A00,
    0x0A02, 0x0A03, 0x0A04, 0x0A0A, 0x0A0E, 0x0A10, 0x0A12, 0x0A28,
    0x0A29, 0x0A30, 0x0A31, 0x0A33, 0x0A34, 0x0A36, 0x0A37, 0x0A39,
    0x0A3B, 0x0A3C, 0x0A3D, 0x0A40, 0x0A42, 0x0A46, 0x0A48, 0x0A4A,
    0x0A4D, 0x0A50, 0x0A51, 0x0A58, 0x0A5C, 0x0A5D, 0x0A5E, 0x0A65,
];

/// The classes of the ranges from U+0993 to U+0A65.
pub const KINDS_0993: [CharType; 64] = [
    L, ON, L, ON, L, ON, L, ON, NSM, L, NSM, ON, L, ON, L, NSM,
    L, ON, L, ON, L, ON, L, NSM, ON, L, ET, L, ET, L, NSM, ON,
    NSM, L, ON, L, ON, L, ON, L, ON, L, ON, L, ON, L, ON, L,
    ON, NSM, ON, L, NSM, ON, NSM, ON, NSM, ON, NSM, ON, L, ON, L, ON,
];

/// The last code points of the ranges from U+0A66 to U+0B48.
pub const ENDS_0A66: [u32; 64] = [
    0x0A6F, 0x0A71, 0x0A74, 0x0A75, 0x0A76, 0x0A80, 0x0A82, 0x0A83,
    0x0A84, 0x0A8D, 0x0A8E, 0x0A91, 0x0A92, 0x0AA8, 0x0AA9, 0x0AB0,
    0x0AB1, 0x0AB3, 0x0AB4, 0x0AB9, 0x0ABB, 0x0ABC, 0x0AC0, 0x0AC5,
    0x0AC6, 0x0AC8, 0x0AC9, 0x0ACA, 0x0ACC, 0x0ACD, 0x0ACF, 0x0AD0,
    0x0ADF, 0x0AE1, 0x0AE3, 0x0AE5, 0x0AF0, 0x0AF1, 0x0AF8, 0x0AF9,
    0x0AFF, 0x0B00, 0x0B01, 0x0B03, 0x0B04, 0x0B0C, 0x0B0E, 0x0B10,
    0x0B12, 0x0B28, 0x0B29, 0x0B30, 0x0B31, 0x0B33, 0x0B34, 0x0B39,
    0x0B3B, 0x0B3C, 0x0B3E, 0x0B3F, 0x0B40, 0x0B44, 0x0B46, 0x0B48,
];

/// The classes of the ranges from U+0A66 to U+0B48.
pub const KINDS_0A66: [CharType; 64] = [
    L, NSM, L, NSM, L, ON, NSM, L, ON, L, ON, L, ON, L, ON, L,
    ON, L, ON, L, ON, NSM, L, NSM, ON, NSM, L, ON, L, NSM, ON, L,
    ON, L, NSM, ON, L, ET, ON, L, NSM, ON, NSM, L, ON, L, ON, L,
    ON, L, ON, L, ON, L, ON, L, ON, NSM, L, NSM, L, NSM, ON, L,
];

/// The last code points of the ranges from U+0B49 to U+0C3C.
pub const ENDS_0B49: [u32; 64] = [
    0x0B4A, 0x0B4C, 0x0B4D, 0x0B54, 0x0B56, 0x0B57, 0x0B5B, 0x0B5D,
    0x0B5E, 0x0B61, 0x0B63, 0x0B65, 0x0B77, 0x0B81, 0x0B82, 0x0B83,
    0x0B84, 0x0B8A, 0x0B8D, 0x0B90, 0x0B91, 0x0B95, 0x0B98, 0x0B9A,
    0x0B9B, 0x0B9C, 0x0B9D, 0x0B9F, 0x0BA2, 0x0BA4, 0x0BA7, 0x0BAA,
    0x0BAD, 0x0BB9, 0x0BBD, 0x0BBF, 0x0BC0, 0x0BC2, 0x0BC5, 0x0BC8,
    0x0BC9, 0x0BCC, 0x0BCD, 0x0BCF, 0x0BD0, 0x0BD6, 0x0BD7, 0x0BE5,
    0x0BF2, 0x0BF8, 0x0BF9, 0x0BFF, 0x0C00, 0x0C03, 0x0C04, 0x0C0C,
    0x0C0D, 0x0C10, 0x0C11, 0x0C28, 0x0C29, 0x0C39, 0x0C3B, 0x0C3C,
];

/// The classes of the ranges from U+0B49 to U+0C3C.
pub const KINDS_0B49: [CharType; 64] = [
    ON, L, NSM, ON, NSM, L, ON, L, ON, L, NSM, ON, L, ON, NSM, L,
    ON, L, ON, L, ON, L, ON, L, ON, L, ON, L, ON, L, ON, L,
    ON, L, ON, L, NSM, L, ON, L, ON, L, NSM, ON, L, ON, L, ON,
    L, ON, ET, ON, NSM, L, NSM, L, ON, L, ON, L, ON, L, ON, NSM,
];

/// The last code points of the ranges from U+0C3D to U+0D49.
pub const ENDS_0C3D: [u32; 64] = [
    0x0C3D, 0x0C40, 0x0C44, 0x0C45, 0x0C48, 0x0C49, 0x0C4D, 0x0C54,
    0x0C56, 0x0C57, 0x0C5A, 0x0C5C, 0x0C5D, 0x0C5F, 0x0C61, 0x0C63,
    0x0C65, 0x0C6F, 0x0C76, 0x0C77, 0x0C7E, 0x0C80, 0x0C81, 0x0C8C,
    0x0C8D, 0x0C90, 0x0C91, 0x0CA8, 0x0CA9, 0x0CB3, 0x0CB4, 0x0CB9,
    0x0CBB, 0x0CBC, 0x0CC4, 0x0CC5, 0x0CC8, 0x0CC9, 0x0CCB, 0x0CCD,
    0x0CD4, 0x0CD6, 0x0CDC, 0x0CDE, 0x0CDF, 0x0CE1, 0x0CE3, 0x0CE5,
    0x0CEF, 0x0CF0, 0x0CF2, 0x0CFF, 0x0D01, 0x0D0C, 0x0D0D, 0x0D10,
    0x0D11, 0x0D3A, 0x0D3C, 0x0D40, 0x0D44, 0x0D45, 0x0D48, 0x0D49,
];

/// The classes of the ranges from U+0C3D to U+0D49.
pub const KINDS_0C3D: [CharType; 64] = [
    L, NSM, L, ON, NSM, ON, NSM, ON, NSM, ON, L, ON, L, ON, L, NSM,
    ON, L, ON, L, ON, L, NSM, L, ON, L, ON, L, ON, L, ON, L,
    ON, NSM, L, ON, L, ON, L, NSM, ON, L, ON, L, ON, L, NSM, ON,
    L, ON, L, ON, NSM, L, ON, L, ON, L, NSM, L, NSM, ON, L, ON,
];

/// The last code points of the ranges from U+0D4A to U+0EC6.
pub const ENDS_0D4A: [u32; 64] = [
    0x0D4C, 0x0D4D, 0x0D4F, 0x0D53, 0x0D61, 0x0D63, 0x0D65, 0x0D7F,
    0x0D80, 0x0D81, 0x0D83, 0x0D84, 0x0D96, 0x0D99, 0x0DB1, 0x0DB2,
    0x0DBB, 0x0DBC, 0x0DBD, 0x0DBF, 0x0DC6, 0x0DC9, 0x0DCA, 0x0DCE,
    0x0DD1, 0x0DD4, 0x0DD5, 0x0DD6, 0x0DD7, 0x0DDF, 0x0DE5, 0x0DEF,
    0x0DF1, 0x0DF4, 0x0E00, 0x0E30, 0x0E31, 0x0E33, 0x0E3A, 0x0E3E,
    0x0E3F, 0x0E46, 0x0E4E, 0x0E5B, 0x0E80, 0x0E82, 0x0E83, 0x0E84,
    0x0E85, 0x0E8A, 0x0E8B, 0x0EA3, 0x0EA4, 0x0EA5, 0x0EA6, 0x0EB0,
    0x0EB1, 0x0EB3, 0x0EBC, 0x0EBD, 0x0EBF, 0x0EC4, 0x0EC5, 0x0EC6,
];

/// The classes of the ranges from U+0D4A to U+0EC6.
pub const KINDS_0D4A: [CharType; 64] = [
    L, NSM, L, ON, L, NSM, ON, L, ON, NSM, L, ON, L, ON, L, ON,
    L, ON, L, ON, L, ON, NSM, ON, L, NSM, ON, NSM, ON, L, ON, L,
    ON, L, ON, L, NSM, L, NSM, ON, ET, L, NSM, L, ON, L, ON, L,
    ON, L, ON, L, ON, L, ON, L, NSM, L, NSM, L, ON, L, ON, L,
];

/// The last code points of the ranges from U+0EC7 to U+10CF.
pub const ENDS_0EC7: [u32; 64] = [
    0x0EC7, 0x0ECD, 0x0ECF, 0x0ED9, 0x0EDB, 0x0EDF, 0x0EFF, 0x0F17,
    0x0F19, 0x0F34, 0x0F35, 0x0F36, 0x0F37, 0x0F38, 0x0F39, 0x0F3D,
    0x0F47, 0x0F48, 0x0F6C, 0x0F70, 0x0F7E, 0x0F7F, 0x0F84, 0x0F85,
    0x0F87, 0x0F8C, 0x0F97, 0x0F98, 0x0FBC, 0x0FBD, 0x0FC5, 0x0FC6,
    0x0FCC, 0x0FCD, 0x0FDA, 0x0FFF, 0x102C, 0x1030, 0x1031, 0x1037,
    0x1038, 0x103A, 0x103C, 0x103E, 0x1057, 0x1059, 0x105D, 0x1060,
    0x1070, 0x1074, 0x1081, 0x1082, 0x1084, 0x1086, 0x108C, 0x108D,
    0x109C, 0x109D, 0x10C5, 0x10C6, 0x10C7, 0x10CC, 0x10CD, 0x10CF,
];

/// The classes of the ranges from U+0EC7 to U+10CF.
pub const KINDS_0EC7: [CharType; 64] = [
    ON, NSM, ON, L, ON, L, ON, L, NSM, L, NSM, L, NSM, L, NSM, ON,
    L, ON, L, ON, NSM, L, NSM, L, NSM, L, NSM, ON, NSM, ON, L, NSM,
    L, ON, L, ON, L, NSM, L, NSM, L, NSM, L, NSM, L, NSM, L, NSM,
    L, NSM, L, NSM, L, NSM, L, NSM, L, NSM, L, ON, L, ON, L, ON,
];

/// The last code points of the ranges from U+10D0 to U+177F.
pub const ENDS_10D0: [u32; 64] = [
    0x1248, 0x1249, 0x124D, 0x124F, 0x1256, 0x1257, 0x1258, 0x1259,
    0x125D, 0x125F, 0x1288, 0x1289, 0x128D, 0x128F, 0x12B0, 0x12B1,
    0x12B5, 0x12B7, 0x12BE, 0x12BF, 0x12C0, 0x12C1, 0x12C5, 0x12C7,
    0x12D6, 0x12D7, 0x1310, 0x1311, 0x1315, 0x1317, 0x135A, 0x135C,
    0x135F, 0x137C, 0x137F, 0x138F, 0x139F, 0x13F5, 0x13F7, 0x13FD,
    0x1400, 0x167F, 0x1680, 0x169A, 0x169F, 0x16F8, 0x16FF, 0x1711,
    0x1714, 0x1715, 0x171E, 0x1731, 0x1733, 0x1736, 0x173F, 0x1751,
    0x1753, 0x175F, 0x176C, 0x176D, 0x1770, 0x1771, 0x1773, 0x177F,
];

/// The classes of the ranges from U+10D0 to U+177F.
pub const KINDS_10D0: [CharType; 64] = [
    L, ON, L, ON, L, ON, L, ON, L, ON, L, ON, L, ON, L, ON,
    L, ON, L, ON, L, ON, L, ON, L, ON, L, ON, L, ON, L, ON,
    NSM, L, ON, L, ON, L, ON, L, ON, L, WS, L, ON, L, ON, L,
    NSM, L, ON, L, NSM, L, ON, L, NSM, ON, L, ON, L, ON, NSM, ON,
];

/// The last code points of the ranges from U+1780 to U+1A61.
pub const ENDS_1780: [u32; 64] = [
    0x17B3, 0x17B5, 0x17B6, 0x17BD, 0x17C5, 0x17C6, 0x17C8, 0x17D3,
    0x17DA, 0x17DB, 0x17DC, 0x17DD, 0x17DF, 0x17E9, 0x180A, 0x180D,
    0x180E, 0x180F, 0x1819, 0x181F, 0x1878, 0x187F, 0x1884, 0x1886,
    0x18A8, 0x18A9, 0x18AA, 0x18AF, 0x18F5, 0x18FF, 0x191E, 0x191F,
    0x1922, 0x1926, 0x1928, 0x192B, 0x192F, 0x1931, 0x1932, 0x1938,
    0x193B, 0x1945, 0x196D, 0x196F, 0x1974, 0x197F, 0x19AB, 0x19AF,
    0x19C9, 0x19CF, 0x19DA, 0x19FF, 0x1A16, 0x1A18, 0x1A1A, 0x1A1B,
    0x1A1D, 0x1A55, 0x1A56, 0x1A57, 0x1A5E, 0x1A5F, 0x1A60, 0x1A61,
];

/// The classes of the ranges from U+1780 to U+1A61.
pub const KINDS_1780: [CharType; 64] = [
    L, NSM, L, NSM, L, NSM, L, NSM, L, ET, L, NSM, ON, L, ON, NSM,
    BN, NSM, L, ON, L, ON, L, NSM, L, NSM, L, ON, L, ON, L, ON,
    NSM, L, NSM, L, ON, L, NSM, L, NSM, ON, L, ON, L, ON, L, ON,
    L, ON, L, ON, L, NSM, L, NSM, ON, L, NSM, L, NSM, ON, NSM, L,
];

/// The last code points of the ranges from U+1A62 to U+1CE1.
pub const ENDS_1A62: [u32; 64] = [
    0x1A62, 0x1A64, 0x1A6C, 0x1A72, 0x1A7C, 0x1A7E, 0x1A7F, 0x1A89,
    0x1A8F, 0x1A99, 0x1A9F, 0x1AAD, 0x1AAF, 0x1ACE, 0x1AFF, 0x1B03,
    0x1B33, 0x1B34, 0x1B35, 0x1B3A, 0x1B3B, 0x1B3C, 0x1B41, 0x1B42,
    0x1B4C, 0x1B4F, 0x1B6A, 0x1B73, 0x1B7E, 0x1B7F, 0x1B81, 0x1BA1,
    0x1BA5, 0x1BA7, 0x1BA9, 0x1BAA, 0x1BAD, 0x1BE5, 0x1BE6, 0x1BE7,
    0x1BE9, 0x1BEC, 0x1BED, 0x1BEE, 0x1BF1, 0x1BF3, 0x1BFB, 0x1C2B,
    0x1C33, 0x1C35, 0x1C37, 0x1C3A, 0x1C49, 0x1C4C, 0x1C88, 0x1C8F,
    0x1CBA, 0x1CBC, 0x1CC7, 0x1CCF, 0x1CD2, 0x1CD3, 0x1CE0, 0x1CE1,
];

/// The classes of the ranges from U+1A62 to U+1CE1.
pub const KINDS_1A62: [CharType; 64] = [
    NSM, L, NSM, L, NSM, ON, NSM, L, ON, L, ON, L, ON, NSM, ON, NSM,
    L, NSM, L, NSM, L, NSM, L, NSM, L, ON, L, NSM, L, ON, NSM, L,
    NSM, L, NSM, L, NSM, L, NSM, L, NSM, L, NSM, L, NSM, L, ON, L,
    NSM, L, NSM, ON, L, ON, L, ON, L, ON, L, ON, NSM, L, NSM, L,
];

/// The last code points of the ranges from U+1CE2 to U+2043.
pub const ENDS_1CE2: [u32; 64] = [
    0x1CE8, 0x1CEC, 0x1CED, 0x1CF3, 0x1CF4, 0x1CF7, 0x1CF9, 0x1CFA,
    0x1CFF, 0x1DBF, 0x1DFF, 0x1F15, 0x1F17, 0x1F1D, 0x1F1F, 0x1F45,
    0x1F47, 0x1F4D, 0x1F4F, 0x1F57, 0x1F58, 0x1F59, 0x1F5A, 0x1F5B,
    0x1F5C, 0x1F5D, 0x1F5E, 0x1F7D, 0x1F7F, 0x1FB4, 0x1FB5, 0x1FBC,
    0x1FBD, 0x1FBE, 0x1FC1, 0x1FC4, 0x1FC5, 0x1FCC, 0x1FCF, 0x1FD3,
    0x1FD5, 0x1FDB, 0x1FDF, 0x1FEC, 0x1FF1, 0x1FF4, 0x1FF5, 0x1FFC,
    0x1FFF, 0x200A, 0x200D, 0x200E, 0x200F, 0x2027, 0x2028, 0x2029,
    0x202A, 0x202B, 0x202C, 0x202D, 0x202E, 0x202F, 0x2034, 0x2043,
];

/// The classes of the ranges from U+1CE2 to U+2043.
pub const KINDS_1CE2: [CharType; 64] = [
    NSM, L, NSM, L, NSM, L, NSM, L, ON, L, NSM, L, ON, L, ON, L,
    ON, L, ON, L, ON, L, ON, L, ON, L, ON, L, ON, L, ON, L,
    ON, L, ON, L, ON, L, ON, L, ON, L, ON, L, ON, L, ON, L,
    ON, WS, BN, L, R, ON, WS, B, LRE, RLE, PDF, LRO, RLO, CS, ET, ON,
];

/// The last code points of the ranges from U+2044 to U+26AB.
pub const ENDS_2044: [u32; 64] = [
    0x2044, 0x205E, 0x205F, 0x2064, 0x2065, 0x2066, 0x2067, 0x2068,
    0x2069, 0x206F, 0x2070, 0x2071, 0x2073, 0x2079, 0x207B, 0x207E,
    0x207F, 0x2089, 0x208B, 0x208F, 0x209C, 0x209F, 0x20C0, 0x20CF,
    0x20F0, 0x2101, 0x2102, 0x2106, 0x2107, 0x2109, 0x2113, 0x2114,
    0x2115, 0x2118, 0x211D, 0x2123, 0x2124, 0x2125, 0x2126, 0x2127,
    0x2128, 0x2129, 0x212D, 0x212E, 0x2139, 0x213B, 0x213F, 0x2144,
    0x2149, 0x214D, 0x214F, 0x215F, 0x2188, 0x2211, 0x2212, 0x2213,
    0x2335, 0x237A, 0x2394, 0x2395, 0x2487, 0x249B, 0x24E9, 0x26AB,
];

/// The classes of the ranges from U+2044 to U+26AB.
pub const KINDS_2044: [CharType; 64] = [
    CS, ON, WS, BN, ON, LRI, RLI, FSI, PDI, BN, EN, L, ON, EN, ES, ON,
    L, EN, ES, ON, L, ON, ET, ON, NSM, ON, L, ON, L, ON, L, ON,
    L, ON, L, ON, L, ON, L, ON, L, ON, L, ET, L, ON, L, ON,
    L, ON, L, ON, L, ON, ES, ET, ON, L, ON, L, ON, EN, L, ON,
];

/// The last code points of the ranges from U+26AC to U+312F.
pub const ENDS_26AC: [u32; 64] = [
    0x26AC, 0x27FF, 0x28FF, 0x2BFF, 0x2CE4, 0x2CEA, 0x2CEE, 0x2CF1,
    0x2CF3, 0x2CFF, 0x2D25, 0x2D26, 0x2D27, 0x2D2C, 0x2D2D, 0x2D2F,
    0x2D67, 0x2D6E, 0x2D70, 0x2D7E, 0x2D7F, 0x2D96, 0x2D9F, 0x2DA6,
    0x2DA7, 0x2DAE, 0x2DAF, 0x2DB6, 0x2DB7, 0x2DBE, 0x2DBF, 0x2DC6,
    0x2DC7, 0x2DCE, 0x2DCF, 0x2DD6, 0x2DD7, 0x2DDE, 0x2DDF, 0x2DFF,
    0x2FFF, 0x3000, 0x3004, 0x3007, 0x3020, 0x3029, 0x302D, 0x302F,
    0x3030, 0x3035, 0x3037, 0x303C, 0x3040, 0x3096, 0x3098, 0x309A,
    0x309C, 0x309F, 0x30A0, 0x30FA, 0x30FB, 0x30FF, 0x3104, 0x312F,
];

/// The classes of the ranges from U+26AC to U+312F.
pub const KINDS_26AC: [CharType; 64] = [
    L, ON, L, ON, L, ON, L, NSM, L, ON, L, ON, L, ON, L, ON,
    L, ON, L, ON, NSM, L, ON, L, ON, L, ON, L, ON, L, ON, L,
    ON, L, ON, L, ON, L, ON, NSM, ON, WS, ON, L, ON, L, NSM, L,
    ON, L, ON, L, ON, L, ON, NSM, ON, L, ON, L, ON, L, ON, L,
];

/// The last code points of the ranges from U+3130 to U+A839.
pub const ENDS_3130: [u32; 64] = [
    0x3130, 0x318E, 0x318F, 0x31BF, 0x31EF, 0x321C, 0x321F, 0x324F,
    0x325F, 0x327B, 0x327E, 0x32B0, 0x32BF, 0x32CB, 0x32CF, 0x3376,
    0x337A, 0x33DD, 0x33DF, 0x33FE, 0x33FF, 0x4DBF, 0x4DFF, 0xA48C,
    0xA4CF, 0xA60C, 0xA60F, 0xA62B, 0xA63F, 0xA66E, 0xA672, 0xA673,
    0xA67D, 0xA67F, 0xA69D, 0xA69F, 0xA6EF, 0xA6F1, 0xA6F7, 0xA721,
    0xA787, 0xA788, 0xA7CA, 0xA7CF, 0xA7D1, 0xA7D2, 0xA7D3, 0xA7D4,
    0xA7D9, 0xA7F1, 0xA801, 0xA802, 0xA805, 0xA806, 0xA80A, 0xA80B,
    0xA824, 0xA826, 0xA827, 0xA82B, 0xA82C, 0xA82F, 0xA837, 0xA839,
];

/// The classes of the ranges from U+3130 to U+A839.
pub const KINDS_3130: [CharType; 64] = [
    ON, L, ON, L, ON, L, ON, L, ON, L, ON, L, ON, L, ON, L,
    ON, L, ON, L, ON, L, ON, L, ON, L, ON, L, ON, L, NSM, ON,
    NSM, ON, L, NSM, L, NSM, L, ON, L, ON, L, ON, L, ON, L, ON,
    L, ON, L, NSM, L, NSM, L, NSM, L, NSM, L, ON, NSM, ON, L, ET,
];

/// The last code points of the ranges from U+A83A to U+AAEB.
pub const ENDS_A83A: [u32; 64] = [
    0xA83F, 0xA873, 0xA87F, 0xA8C3, 0xA8C5, 0xA8CD, 0xA8D9, 0xA8DF,
    0xA8F1, 0xA8FE, 0xA8FF, 0xA925, 0xA92D, 0xA946, 0xA951, 0xA953,
    0xA95E, 0xA97C, 0xA97F, 0xA982, 0xA9B2, 0xA9B3, 0xA9B5, 0xA9B9,
    0xA9BB, 0xA9BD, 0xA9CD, 0xA9CE, 0xA9D9, 0xA9DD, 0xA9E4, 0xA9E5,
    0xA9FE, 0xA9FF, 0xAA28, 0xAA2E, 0xAA30, 0xAA32, 0xAA34, 0xAA36,
    0xAA3F, 0xAA42, 0xAA43, 0xAA4B, 0xAA4C, 0xAA4D, 0xAA4F, 0xAA59,
    0xAA5B, 0xAA7B, 0xAA7C, 0xAAAF, 0xAAB0, 0xAAB1, 0xAAB4, 0xAAB6,
    0xAAB8, 0xAABD, 0xAABF, 0xAAC0, 0xAAC1, 0xAAC2, 0xAADA, 0xAAEB,
];

/// The classes of the ranges from U+A83A to U+AAEB.
pub const KINDS_A83A: [CharType; 64] = [
    ON, L, ON, L, NSM, ON, L, ON, NSM, L, NSM, L, NSM, L, NSM, L,
    ON, L, ON, NSM, L, NSM, L, NSM, L, NSM, L, ON, L, ON, L, NSM,
    L, ON, L, NSM, L, NSM, L, NSM, ON, L, NSM, L, NSM, L, ON, L,
    ON, L, NSM, L, NSM, L, NSM, L, NSM, L, NSM, L, NSM, L, ON, L,
];

/// The last code points of the ranges from U+AAEC to U+FDFF.
pub const ENDS_AAEC: [u32; 64] = [
    0xAAED, 0xAAF5, 0xAAF6, 0xAB00, 0xAB06, 0xAB08, 0xAB0E, 0xAB10,
    0xAB16, 0xAB1F, 0xAB26, 0xAB27, 0xAB2E, 0xAB2F, 0xAB69, 0xAB6F,
    0xABE4, 0xABE5, 0xABE7, 0xABE8, 0xABEC, 0xABED, 0xABEF, 0xABF9,
    0xABFF, 0xD7A3, 0xD7AF, 0xD7C6, 0xD7CA, 0xD7FB, 0xD7FF, 0xFA6D,
    0xFA6F, 0xFAD9, 0xFAFF, 0xFB06, 0xFB12, 0xFB17, 0xFB1C, 0xFB1D,
    0xFB1E, 0xFB28, 0xFB29, 0xFB36, 0xFB37, 0xFB3C, 0xFB3D, 0xFB3E,
    0xFB3F, 0xFB41, 0xFB42, 0xFB44, 0xFB45, 0xFB4F, 0xFBC2, 0xFBD2,
    0xFD3D, 0xFD4F, 0xFD8F, 0xFD91, 0xFDC7, 0xFDEF, 0xFDFC, 0xFDFF,
];

/// The classes of the ranges from U+AAEC to U+FDFF.
pub const KINDS_AAEC: [CharType; 64] = [
    NSM, L, NSM, ON, L, ON, L, ON, L, ON, L, ON, L, ON, L, ON,
    L, NSM, L, NSM, L, NSM, ON, L, ON, L, ON, L, ON, L, ON, L,
    ON, L, ON, L, ON, L, ON, R, NSM, R, ES, R, ON, R, ON, R,
    ON, R, ON, R, ON, R, AL, ON, AL, ON, AL, ON, AL, ON, AL, ON,
];

/// The last code points of the ranges from U+FE00 to U+10100.
pub const ENDS_FE00: [u32; 64] = [
    0xFE0F, 0xFE1F, 0xFE2F, 0xFE4F, 0xFE50, 0xFE51, 0xFE52, 0xFE54,
    0xFE55, 0xFE5E, 0xFE5F, 0xFE61, 0xFE63, 0xFE68, 0xFE6A, 0xFE6F,
    0xFE74, 0xFE75, 0xFEFC, 0xFEFE, 0xFEFF, 0xFF02, 0xFF05, 0xFF0A,
    0xFF0B, 0xFF0C, 0xFF0D, 0xFF0F, 0xFF19, 0xFF1A, 0xFF20, 0xFF3A,
    0xFF40, 0xFF5A, 0xFF65, 0xFFBE, 0xFFC1, 0xFFC7, 0xFFC9, 0xFFCF,
    0xFFD1, 0xFFD7, 0xFFD9, 0xFFDC, 0xFFDF, 0xFFE1, 0xFFE4, 0xFFE6,
    0xFFFF, 0x1000B, 0x1000C, 0x10026, 0x10027, 0x1003A, 0x1003B, 0x1003D,
    0x1003E, 0x1004D, 0x1004F, 0x1005D, 0x1007F, 0x100FA, 0x100FF, 0x10100,
];

/// The classes of the ranges from U+FE00 to U+10100.
pub const KINDS_FE00: [CharType; 64] = [
    NSM, ON, NSM, ON, CS, ON, CS, ON, CS, ON, ET, ON, ES, ON, ET, ON,
    AL, ON, AL, ON, BN, ON, ET, ON, ES, CS, ES, CS, EN, CS, ON, L,
    ON, L, ON, L, ON, L, ON, L, ON, L, ON, L, ON, ET, ON, ET,
    ON, L, ON, L, ON, L, ON, L, ON, L, ON, L, ON, L, ON, L,
];

/// The last code points of the ranges from U+10101 to U+1075F.
pub const ENDS_10101: [u32; 64] = [
    0x10101, 0x10102, 0x10106, 0x10133, 0x10136, 0x1013F, 0x1018C, 0x1018E,
    0x101CF, 0x101FC, 0x101FD, 0x1027F, 0x1029C, 0x1029F, 0x102D0, 0x102DF,
    0x102E0, 0x102FB, 0x102FF, 0x10323, 0x1032C, 0x1034A, 0x1034F, 0x10375,
    0x1037A, 0x1037F, 0x1039D, 0x1039E, 0x103C3, 0x103C7, 0x103D5, 0x103FF,
    0x1049D, 0x1049F, 0x104A9, 0x104AF, 0x104D3, 0x104D7, 0x104FB, 0x104FF,
    0x10527, 0x1052F, 0x10563, 0x1056E, 0x1057A, 0x1057B, 0x1058A, 0x1058B,
    0x10592, 0x10593, 0x10595, 0x10596, 0x105A1, 0x105A2, 0x105B1, 0x105B2,
    0x105B9, 0x105BA, 0x105BC, 0x105FF, 0x10736, 0x1073F, 0x10755, 0x1075F,
];

/// The classes of the ranges from U+10101 to U+1075F.
pub const KINDS_10101: [CharType; 64] = [
    ON, L, ON, L, ON, L, ON, L, ON, L, NSM, ON, L, ON, L, ON,
    NSM, EN, ON, L, ON, L, ON, L, NSM, ON, L, ON, L, ON, L, ON,
    L, ON, L, ON, L, ON, L, ON, L, ON, L, ON, L, ON, L, ON,
    L, ON, L, ON, L, ON, L, ON, L, ON, L, ON, L, ON, L, ON,
];

/// The last code points of the ranges from U+10760 to U+10AFF.
pub const ENDS_10760: [u32; 64] = [
    0x10767, 0x1077F, 0x10785, 0x10786, 0x107B0, 0x107B1, 0x107BA, 0x107FF,
    0x10805, 0x10807, 0x10808, 0x10809, 0x10835, 0x10836, 0x10838, 0x1083B,
    0x1083C, 0x1083E, 0x10855, 0x10856, 0x1089E, 0x108A6, 0x108AF, 0x108DF,
    0x108F2, 0x108F3, 0x108F5, 0x108FA, 0x1091B, 0x1091F, 0x10939, 0x1093E,
    0x1093F, 0x1097F, 0x109B7, 0x109BB, 0x109CF, 0x109D1, 0x10A00, 0x10A03,
    0x10A04, 0x10A06, 0x10A0B, 0x10A0F, 0x10A13, 0x10A14, 0x10A17, 0x10A18,
    0x10A35, 0x10A37, 0x10A3A, 0x10A3E, 0x10A3F, 0x10A48, 0x10A4F, 0x10A58,
    0x10A5F, 0x10A9F, 0x10ABF, 0x10AE4, 0x10AE6, 0x10AEA, 0x10AF6, 0x10AFF,
];

/// The classes of the ranges from U+10760 to U+10AFF.
pub const KINDS_10760: [CharType; 64] = [
    L, ON, L, ON, L, ON, L, ON, R, ON, R, ON, R, ON, R, ON,
    R, ON, R, ON, R, ON, R, ON, R, ON, R, ON, R, ON, R, ON,
    R, ON, R, ON, R, ON, R, NSM, ON, NSM, ON, NSM, R, ON, R, ON,
    R, ON, NSM, ON, NSM, R, ON, R, ON, R, ON, R, NSM, ON, R, ON,
];

/// The last code points of the ranges from U+10B00 to U+110BA.
pub const ENDS_10B00: [u32; 64] = [
    0x10B35, 0x10B3F, 0x10B55, 0x10B57, 0x10B72, 0x10B77, 0x10B91, 0x10B98,
    0x10B9C, 0x10BA8, 0x10BAF, 0x10BFF, 0x10C48, 0x10C7F, 0x10CB2, 0x10CBF,
    0x10CF2, 0x10CF9, 0x10CFF, 0x10D23, 0x10D27, 0x10D2F, 0x10D39, 0x10E5F,
    0x10E7E, 0x10E7F, 0x10EA9, 0x10EAA, 0x10EAC, 0x10EAD, 0x10EAF, 0x10EB1,
    0x10EFF, 0x10F27, 0x10F2F, 0x10F45, 0x10F50, 0x10F59, 0x10F6F, 0x10F81,
    0x10F85, 0x10F89, 0x10FAF, 0x10FCB, 0x10FDF, 0x10FF6, 0x10FFF, 0x11000,
    0x11001, 0x11037, 0x11046, 0x1104D, 0x11065, 0x1106F, 0x11070, 0x11072,
    0x11074, 0x11075, 0x1107E, 0x11081, 0x110B2, 0x110B6, 0x110B8, 0x110BA,
];

/// The classes of the ranges from U+10B00 to U+110BA.
pub const KINDS_10B00: [CharType; 64] = [
    R, ON, R, ON, R, ON, R, ON, R, ON, R, ON, R, ON, R, ON,
    R, ON, R, AL, NSM, ON, AN, ON, AN, ON, R, ON, NSM, R, ON, R,
    ON, R, ON, AL, NSM, AL, ON, R, NSM, R, ON, R, ON, R, ON, L,
    NSM, L, NSM, L, ON, L, NSM, L, NSM, L, ON, NSM, L, NSM, L, NSM,
];

/// The last code points of the ranges from U+110BB to U+1130C.
pub const ENDS_110BB: [u32; 64] = [
    0x110C1, 0x110C2, 0x110CC, 0x110CD, 0x110CF, 0x110E8, 0x110EF, 0x110F9,
    0x110FF, 0x11102, 0x11126, 0x1112B, 0x1112C, 0x11134, 0x11135, 0x11147,
    0x1114F, 0x11172, 0x11173, 0x11176, 0x1117F, 0x11181, 0x111B5, 0x111BE,
    0x111C8, 0x111CC, 0x111CE, 0x111CF, 0x111DF, 0x111E0, 0x111F4, 0x111FF,
    0x11211, 0x11212, 0x1122E, 0x11231, 0x11233, 0x11234, 0x11235, 0x11237,
    0x1123D, 0x1123E, 0x1127F, 0x11286, 0x11287, 0x11288, 0x11289, 0x1128D,
    0x1128E, 0x1129D, 0x1129E, 0x112A9, 0x112AF, 0x112DE, 0x112DF, 0x112E2,
    0x112EA, 0x112EF, 0x112F9, 0x112FF, 0x11301, 0x11303, 0x11304, 0x1130C,
];

/// The classes of the ranges from U+110BB to U+1130C.
pub const KINDS_110BB: [CharType; 64] = [
    L, NSM, ON, L, ON, L, ON, L, ON, NSM, L, NSM, L, NSM, ON, L,
    ON, L, NSM, L, ON, NSM, L, NSM, L, NSM, L, NSM, L, ON, L, ON,
    L, ON, L, NSM, L, NSM, L, NSM, L, NSM, ON, L, ON, L, ON, L,
    ON, L, ON, L, ON, L, NSM, L, NSM, ON, L, ON, NSM, L, ON, L,
];

/// The last code points of the ranges from U+1130D to U+115FF.
pub const ENDS_1130D: [u32; 64] = [
    0x1130E, 0x11310, 0x11312, 0x11328, 0x11329, 0x11330, 0x11331, 0x11333,
    0x11334, 0x11339, 0x1133A, 0x1133C, 0x1133F, 0x11340, 0x11344, 0x11346,
    0x11348, 0x1134A, 0x1134D, 0x1134F, 0x11350, 0x11356, 0x11357, 0x1135C,
    0x11363, 0x11365, 0x1136C, 0x1136F, 0x11374, 0x113FF, 0x11437, 0x1143F,
    0x11441, 0x11444, 0x11445, 0x11446, 0x1145B, 0x1145C, 0x1145D, 0x1145E,
    0x11461, 0x1147F, 0x114B2, 0x114B8, 0x114B9, 0x114BA, 0x114BE, 0x114C0,
    0x114C1, 0x114C3, 0x114C7, 0x114CF, 0x114D9, 0x1157F, 0x115B1, 0x115B5,
    0x115B7, 0x115BB, 0x115BD, 0x115BE, 0x115C0, 0x115DB, 0x115DD, 0x115FF,
];

/// The classes of the ranges from U+1130D to U+115FF.
pub const KINDS_1130D: [CharType; 64] = [
    ON, L, ON, L, ON, L, ON, L, ON, L, ON, NSM, L, NSM, L, ON,
    L, ON, L, ON, L, ON, L, ON, L, ON, NSM, ON, NSM, ON, L, NSM,
    L, NSM, L, NSM, L, ON, L, NSM, L, ON, L, NSM, L, NSM, L, NSM,
    L, NSM, L, ON, L, ON, L, NSM, ON, L, NSM, L, NSM, L, NSM, ON,
];

/// The last code points of the ranges from U+11600 to U+119D3.
pub const ENDS_11600: [u32; 64] = [
    0x11632, 0x1163A, 0x1163C, 0x1163D, 0x1163E, 0x11640, 0x11644, 0x1164F,
    0x11659, 0x1167F, 0x116AA, 0x116AB, 0x116AC, 0x116AD, 0x116AF, 0x116B5,
    0x116B6, 0x116B7, 0x116B9, 0x116BF, 0x116C9, 0x116FF, 0x1171A, 0x1171C,
    0x1171F, 0x11721, 0x11725, 0x11726, 0x1172B, 0x1172F, 0x11746, 0x117FF,
    0x1182E, 0x11837, 0x11838, 0x1183A, 0x1183B, 0x1189F, 0x118F2, 0x118FE,
    0x11906, 0x11908, 0x11909, 0x1190B, 0x11913, 0x11914, 0x11916, 0x11917,
    0x11935, 0x11936, 0x11938, 0x1193A, 0x1193C, 0x1193D, 0x1193E, 0x11942,
    0x11943, 0x11946, 0x1194F, 0x11959, 0x1199F, 0x119A7, 0x119A9, 0x119D3,
];

/// The classes of the ranges from U+11600 to U+119D3.
pub const KINDS_11600: [CharType; 64] = [
    L, NSM, L, NSM, L, NSM, L, ON, L, ON, L, NSM, L, NSM, L, NSM,
    L, NSM, L, ON, L, ON, L, ON, NSM, L, NSM, L, NSM, ON, L, ON,
    L, NSM, L, NSM, L, ON, L, ON, L, ON, L, ON, L, ON, L, ON,
    L, ON, L, ON, NSM, L, NSM, L, NSM, L, ON, L, ON, L, ON, L,
];

/// The last code points of the ranges from U+119D4 to U+11D46.
pub const ENDS_119D4: [u32; 64] = [
    0x119D7, 0x119D9, 0x119DB, 0x119DF, 0x119E0, 0x119E4, 0x119FF, 0x11A00,
    0x11A06, 0x11A08, 0x11A0A, 0x11A32, 0x11A38, 0x11A3A, 0x11A3E, 0x11A46,
    0x11A47, 0x11A4F, 0x11A50, 0x11A56, 0x11A58, 0x11A5B, 0x11A89, 0x11A96,
    0x11A97, 0x11A99, 0x11AA2, 0x11AAF, 0x11AF8, 0x11BFF, 0x11C08, 0x11C09,
    0x11C2F, 0x11C36, 0x11C37, 0x11C3D, 0x11C45, 0x11C4F, 0x11C6C, 0x11C6F,
    0x11C8F, 0x11C91, 0x11CA7, 0x11CA8, 0x11CA9, 0x11CB0, 0x11CB1, 0x11CB3,
    0x11CB4, 0x11CB6, 0x11CFF, 0x11D06, 0x11D07, 0x11D09, 0x11D0A, 0x11D30,
    0x11D36, 0x11D39, 0x11D3A, 0x11D3B, 0x11D3D, 0x11D3E, 0x11D45, 0x11D46,
];

/// The classes of the ranges from U+119D4 to U+11D46.
pub const KINDS_119D4: [CharType; 64] = [
    NSM, ON, NSM, L, NSM, L, ON, L, NSM, L, NSM, L, NSM, L, NSM, L,
    NSM, ON, L, NSM, L, NSM, L, NSM, L, NSM, L, ON, L, ON, L, ON,
    L, NSM, ON, NSM, L, ON, L, ON, L, ON, NSM, ON, L, NSM, L, NSM,
    L, NSM, ON, L, ON, L, ON, L, NSM, ON, NSM, ON, NSM, ON, NSM, L,
];

/// The last code points of the ranges from U+11D47 to U+16B45.
pub const ENDS_11D47: [u32; 64] = [
    0x11D47, 0x11D4F, 0x11D59, 0x11D5F, 0x11D65, 0x11D66, 0x11D68, 0x11D69,
    0x11D8E, 0x11D8F, 0x11D91, 0x11D92, 0x11D94, 0x11D95, 0x11D96, 0x11D97,
    0x11D98, 0x11D9F, 0x11DA9, 0x11EDF, 0x11EF2, 0x11EF4, 0x11EF8, 0x11FAF,
    0x11FB0, 0x11FBF, 0x11FD4, 0x11FDC, 0x11FE0, 0x11FFE, 0x12399, 0x123FF,
    0x1246E, 0x1246F, 0x12474, 0x1247F, 0x12543, 0x12F8F, 0x12FF2, 0x12FFF,
    0x1342E, 0x1342F, 0x13438, 0x143FF, 0x14646, 0x167FF, 0x16A38, 0x16A3F,
    0x16A5E, 0x16A5F, 0x16A69, 0x16A6D, 0x16ABE, 0x16ABF, 0x16AC9, 0x16ACF,
    0x16AED, 0x16AEF, 0x16AF4, 0x16AF5, 0x16AFF, 0x16B2F, 0x16B36, 0x16B45,
];

/// The classes of the ranges from U+11D47 to U+16B45.
pub const KINDS_11D47: [CharType; 64] = [
    NSM, ON, L, ON, L, ON, L, ON, L, ON, NSM, ON, L, NSM, L, NSM,
    L, ON, L, ON, L, NSM, L, ON, L, ON, L, ON, ET, ON, L, ON,
    L, ON, L, ON, L, ON, L, ON, L, ON, L, ON, L, ON, L, ON,
    L, ON, L, ON, L, ON, L, ON, L, ON, NSM, L, ON, L, NSM, L,
];

/// The last code points of the ranges from U+16B46 to U+1CFC3.
pub const ENDS_16B46: [u32; 64] = [
    0x16B4F, 0x16B59, 0x16B5A, 0x16B61, 0x16B62, 0x16B77, 0x16B7C, 0x16B8F,
    0x16E3F, 0x16E9A, 0x16EFF, 0x16F4A, 0x16F4E, 0x16F4F, 0x16F87, 0x16F8E,
    0x16F92, 0x16F9F, 0x16FDF, 0x16FE1, 0x16FE2, 0x16FE3, 0x16FE4, 0x16FEF,
    0x16FF1, 0x16FFF, 0x187F7, 0x187FF, 0x18CD5, 0x18CFF, 0x18D08, 0x1AFEF,
    0x1AFF3, 0x1AFF4, 0x1AFFB, 0x1AFFC, 0x1AFFE, 0x1AFFF, 0x1B122, 0x1B14F,
    0x1B152, 0x1B163, 0x1B167, 0x1B16F, 0x1B2FB, 0x1BBFF, 0x1BC6A, 0x1BC6F,
    0x1BC7C, 0x1BC7F, 0x1BC88, 0x1BC8F, 0x1BC99, 0x1BC9B, 0x1BC9C, 0x1BC9E,
    0x1BC9F, 0x1BCA3, 0x1CEFF, 0x1CF2D, 0x1CF2F, 0x1CF46, 0x1CF4F, 0x1CFC3,
];

/// The classes of the ranges from U+16B46 to U+1CFC3.
pub const KINDS_16B46: [CharType; 64] = [
    ON, L, ON, L, ON, L, ON, L, ON, L, ON, L, ON, NSM, L, ON,
    NSM, L, ON, L, ON, L, NSM, ON, L, ON, L, ON, L, ON, L, ON,
    L, ON, L, ON, L, ON, L, ON, L, ON, L, ON, L, ON, L, ON,
    L, ON, L, ON, L, ON, L, NSM, L, BN, ON, NSM, ON, NSM, ON, L,
];

/// The last code points of the ranges from U+1CFC4 to U+1D715.
pub const ENDS_1CFC4: [u32; 64] = [
    0x1CFFF, 0x1D0F5, 0x1D0FF, 0x1D126, 0x1D128, 0x1D166, 0x1D169, 0x1D172,
    0x1D17A, 0x1D182, 0x1D184, 0x1D18B, 0x1D1A9, 0x1D1AD, 0x1D1E8, 0x1D241,
    0x1D244, 0x1D2DF, 0x1D2F3, 0x1D35F, 0x1D378, 0x1D3FF, 0x1D454, 0x1D455,
    0x1D49C, 0x1D49D, 0x1D49F, 0x1D4A1, 0x1D4A2, 0x1D4A4, 0x1D4A6, 0x1D4A8,
    0x1D4AC, 0x1D4AD, 0x1D4B9, 0x1D4BA, 0x1D4BB, 0x1D4BC, 0x1D4C3, 0x1D4C4,
    0x1D505, 0x1D506, 0x1D50A, 0x1D50C, 0x1D514, 0x1D515, 0x1D51C, 0x1D51D,
    0x1D539, 0x1D53A, 0x1D53E, 0x1D53F, 0x1D544, 0x1D545, 0x1D546, 0x1D549,
    0x1D550, 0x1D551, 0x1D6A5, 0x1D6A7, 0x1D6DA, 0x1D6DB, 0x1D714, 0x1D715,
];

/// The classes of the ranges from U+1CFC4 to U+1D715.
pub const KINDS_1CFC4: [CharType; 64] = [
    ON, L, ON, L, ON, L, NSM, L, BN, NSM, L, NSM, L, NSM, L, ON,
    NSM, ON, L, ON, L, ON, L, ON, L, ON, L, ON, L, ON, L, ON,
    L, ON, L, ON, L, ON, L, ON, L, ON, L, ON, L, ON, L, ON,
    L, ON, L, ON, L, ON, L, ON, L, ON, L, ON, L, ON, L, ON,
];

/// The last code points of the ranges from U+1D716 to U+1E8CF.
pub const ENDS_1D716: [u32; 64] = [
    0x1D74E, 0x1D74F, 0x1D788, 0x1D789, 0x1D7C2, 0x1D7C3, 0x1D7CB, 0x1D7CD,
    0x1D7FF, 0x1D9FF, 0x1DA36, 0x1DA3A, 0x1DA6C, 0x1DA74, 0x1DA75, 0x1DA83,
    0x1DA84, 0x1DA8B, 0x1DA9A, 0x1DA9F, 0x1DAA0, 0x1DAAF, 0x1DEFF, 0x1DF1E,
    0x1DFFF, 0x1E006, 0x1E007, 0x1E018, 0x1E01A, 0x1E021, 0x1E022, 0x1E024,
    0x1E025, 0x1E02A, 0x1E0FF, 0x1E12C, 0x1E12F, 0x1E136, 0x1E13D, 0x1E13F,
    0x1E149, 0x1E14D, 0x1E14F, 0x1E28F, 0x1E2AD, 0x1E2AE, 0x1E2BF, 0x1E2EB,
    0x1E2EF, 0x1E2F9, 0x1E2FE, 0x1E2FF, 0x1E7DF, 0x1E7E6, 0x1E7E7, 0x1E7EB,
    0x1E7EC, 0x1E7EE, 0x1E7EF, 0x1E7FE, 0x1E7FF, 0x1E8C4, 0x1E8C6, 0x1E8CF,
];

/// The classes of the ranges from U+1D716 to U+1E8CF.
pub const KINDS_1D716: [CharType; 64] = [
    L, ON, L, ON, L, ON, L, ON, EN, L, NSM, L, NSM, L, NSM, L,
    NSM, L, ON, NSM, ON, NSM, ON, L, ON, NSM, ON, NSM, ON, NSM, ON, NSM,
    ON, NSM, ON, L, ON, NSM, L, ON, L, ON, L, ON, L, NSM, ON, L,
    NSM, L, ON, ET, ON, L, ON, L, ON, L, ON, L, ON, R, ON, R,
];

/// The last code points of the ranges from U+1E8D0 to U+1EE73.
pub const ENDS_1E8D0: [u32; 64] = [
    0x1E8D6, 0x1E8FF, 0x1E943, 0x1E94A, 0x1E94B, 0x1E94F, 0x1E959, 0x1E95D,
    0x1E95F, 0x1EC70, 0x1ECB4, 0x1ED00, 0x1ED3D, 0x1EDFF, 0x1EE03, 0x1EE04,
    0x1EE1F, 0x1EE20, 0x1EE22, 0x1EE23, 0x1EE24, 0x1EE26, 0x1EE27, 0x1EE28,
    0x1EE32, 0x1EE33, 0x1EE37, 0x1EE38, 0x1EE39, 0x1EE3A, 0x1EE3B, 0x1EE41,
    0x1EE42, 0x1EE46, 0x1EE47, 0x1EE48, 0x1EE49, 0x1EE4A, 0x1EE4B, 0x1EE4C,
    0x1EE4F, 0x1EE50, 0x1EE52, 0x1EE53, 0x1EE54, 0x1EE56, 0x1EE57, 0x1EE58,
    0x1EE59, 0x1EE5A, 0x1EE5B, 0x1EE5C, 0x1EE5D, 0x1EE5E, 0x1EE5F, 0x1EE60,
    0x1EE62, 0x1EE63, 0x1EE64, 0x1EE66, 0x1EE6A, 0x1EE6B, 0x1EE72, 0x1EE73,
];

/// The classes of the ranges from U+1E8D0 to U+1EE73.
pub const KINDS_1E8D0: [CharType; 64] = [
    NSM, ON, R, NSM, R, ON, R, ON, R, ON, AL, ON, AL, ON, AL, ON,
    AL, ON, AL, ON, AL, ON, AL, ON, AL, ON, AL, ON, AL, ON, AL, ON,
    AL, ON, AL, ON, AL, ON, AL, ON, AL, ON, AL, ON, AL, ON, AL, ON,
    AL, ON, AL, ON, AL, ON, AL, ON, AL, ON, AL, ON, AL, ON, AL, ON,
];

/// The last code points of the ranges from U+1EE74 to U+10FFFF.
pub const ENDS_1EE74: [u32; 58] = [
    0x1EE77, 0x1EE78, 0x1EE7C, 0x1EE7D, 0x1EE7E, 0x1EE7F, 0x1EE89, 0x1EE8A,
    0x1EE9B, 0x1EEA0, 0x1EEA3, 0x1EEA4, 0x1EEA9, 0x1EEAA, 0x1EEBB, 0x1F0FF,
    0x1F10A, 0x1F10F, 0x1F12E, 0x1F12F, 0x1F169, 0x1F16F, 0x1F1AC, 0x1F1E5,
    0x1F202, 0x1F20F, 0x1F23B, 0x1F23F, 0x1F248, 0x1F24F, 0x1F251, 0x1FBEF,
    0x1FBF9, 0x1FFFF, 0x2A6DF, 0x2A6FF, 0x2B738, 0x2B73F, 0x2B81D, 0x2B81F,
    0x2CEA1, 0x2CEAF, 0x2EBE0, 0x2F7FF, 0x2FA1D, 0x2FFFF, 0x3134A, 0xE0000,
    0xE0001, 0xE001F, 0xE007F, 0xE00FF, 0xE01EF, 0xEFFFF, 0xFFFFD, 0xFFFFF,
    0x10FFFD, 0x10FFFF,
];

/// The classes of the ranges from U+1EE74 to U+10FFFF.
pub const KINDS_1EE74: [CharType; 58] = [
    AL, ON, AL, ON, AL, ON, AL, ON, AL, ON, AL, ON, AL, ON, AL, ON,
    EN, ON, L, ON, L, ON, L, ON, L, ON, L, ON, L, ON, L, ON,
    EN, ON, L, ON, L, ON, L, ON, L, ON, L, ON, L, ON, L, ON,
    BN, ON, BN, ON, NSM, ON, L, ON, L, ON,
];

/// The class of a code point by the table of the ranges from U+0000 to U+037E.
#[verifier::opaque]
pub open spec fn class_from_0000(cp: u32) -> CharType {
    class_in(ENDS_0000@, KINDS_0000@, cp)
}

/// The class of a code point by the table of the ranges from U+037F to U+070D.
#[verifier::opaque]
pub open spec fn class_from_037F(cp: u32) -> CharType {
    class_in(ENDS_037F@, KINDS_037F@, cp)
}

/// The class of a code point by the table of the ranges from U+070E to U+0992.
#[verifier::opaque]
pub open spec fn class_from_070E(cp: u32) -> CharType {
    class_in(ENDS_070E@, KINDS_070E@, cp)
}

/// The class of a code point by the table of the ranges from U+0993 to U+0A65.
#[verifier::opaque]
pub open spec fn class_from_0993(cp: u32) -> CharType {
    class_in(ENDS_0993@, KINDS_0993@, cp)
}

/// The class of a code point by the table of the ranges from U+0A66 to U+0B48.
#[verifier::opaque]
pub open spec fn class_from_0A66(cp: u32) -> CharType {
    class_in(ENDS_0A66@, KINDS_0A66@, cp)
}

/// The class of a code point by the table of the ranges from U+0B49 to U+0C3C.
#[verifier::opaque]
pub open spec fn class_from_0B49(cp: u32) -> CharType {
    class_in(ENDS_0B49@, KINDS_0B49@, cp)
}

/// The class of a code point by the table of the ranges from U+0C3D to U+0D49.
#[verifier::opaque]
pub open spec fn class_from_0C3D(cp: u32) -> CharType {
    class_in(ENDS_0C3D@, KINDS_0C3D@, cp)
}

/// The class of a code point by the table of the ranges from U+0D4A to U+0EC6.
#[verifier::opaque]
pub open spec fn class_from_0D4A(cp: u32) -> CharType {
    class_in(ENDS_0D4A@, KINDS_0D4A@, cp)
}

/// The class of a code point by the table of the ranges from U+0EC7 to U+10CF.
#[verifier::opaque]
pub open spec fn class_from_0EC7(cp: u32) -> CharType {
    class_in(ENDS_0EC7@, KINDS_0EC7@, cp)
}

/// The class of a code point by the table of the ranges from U+10D0 to U+177F.
#[verifier::opaque]
pub open spec fn class_from_10D0(cp: u32) -> CharType {
    class_in(ENDS_10D0@, KINDS_10D0@, cp)
}

/// The class of a code point by the table of the ranges from U+1780 to U+1A61.
#[verifier::opaque]
pub open spec fn class_from_1780(cp: u32) -> CharType {
    class_in(ENDS_1780@, KINDS_1780@, cp)
}

/// The class of a code point by the table of the ranges from U+1A62 to U+1CE1.
#[verifier::opaque]
pub open spec fn class_from_1A62(cp: u32) -> CharType {
    class_in(ENDS_1A62@, KINDS_1A62@, cp)
}

/// The class of a code point by the table of the ranges from U+1CE2 to U+2043.
#[verifier::opaque]
pub open spec fn class_from_1CE2(cp: u32) -> CharType {
    class_in(ENDS_1CE2@, KINDS_1CE2@, cp)
}

/// The class of a code point by the table of the ranges from U+2044 to U+26AB.
#[verifier::opaque]
pub open spec fn class_from_2044(cp: u32) -> CharType {
    class_in(ENDS_2044@, KINDS_2044@, cp)
}

/// The class of a code point by the table of the ranges from U+26AC to U+312F.
#[verifier::opaque]
pub open spec fn class_from_26AC(cp: u32) -> CharType {
    class_in(ENDS_26AC@, KINDS_26AC@, cp)
}

/// The class of a code point by the table of the ranges from U+3130 to U+A839.
#[verifier::opaque]
pub open spec fn class_from_3130(cp: u32) -> CharType {
    class_in(ENDS_3130@, KINDS_3130@, cp)
}

/// The class of a code point by the table of the ranges from U+A83A to U+AAEB.
#[verifier::opaque]
pub open spec fn class_from_A83A(cp: u32) -> CharType {
    class_in(ENDS_A83A@, KINDS_A83A@, cp)
}

/// The class of a code point by the table of the ranges from U+AAEC to U+FDFF.
#[verifier::opaque]
pub open spec fn class_from_AAEC(cp: u32) -> CharType {
    class_in(ENDS_AAEC@, KINDS_AAEC@, cp)
}

/// The class of a code point by the table of the ranges from U+FE00 to U+10100.
#[verifier::opaque]
pub open spec fn class_from_FE00(cp: u32) -> CharType {
    class_in(ENDS_FE00@, KINDS_FE00@, cp)
}

/// The class of a code point by the table of the ranges from U+10101 to U+1075F.
#[verifier::opaque]
pub open spec fn class_from_10101(cp: u32) -> CharType {
    class_in(ENDS_10101@, KINDS_10101@, cp)
}

/// The class of a code point by the table of the ranges from U+10760 to U+10AFF.
#[verifier::opaque]
pub open spec fn class_from_10760(cp: u32) -> CharType {
    class_in(ENDS_10760@, KINDS_10760@, cp)
}

/// The class of a code point by the table of the ranges from U+10B00 to U+110BA.
#[verifier::opaque]
pub open spec fn class_from_10B00(cp: u32) -> CharType {
    class_in(ENDS_10B00@, KINDS_10B00@, cp)
}

/// The class of a code point by the table of the ranges from U+110BB to U+1130C.
#[verifier::opaque]
pub open spec fn class_from_110BB(cp: u32) -> CharType {
    class_in(ENDS_110BB@, KINDS_110BB@, cp)
}

/// The class of a code point by the table of the ranges from U+1130D to U+115FF.
#[verifier::opaque]
pub open spec fn class_from_1130D(cp: u32) -> CharType {
    class_in(ENDS_1130D@, KINDS_1130D@, cp)
}

/// The class of a code point by the table of the ranges from U+11600 to U+119D3.
#[verifier::opaque]
pub open spec fn class_from_11600(cp: u32) -> CharType {
    class_in(ENDS_11600@, KINDS_11600@, cp)
}

/// The class of a code point by the table of the ranges from U+119D4 to U+11D46.
#[verifier::opaque]
pub open spec fn class_from_119D4(cp: u32) -> CharType {
    class_in(ENDS_119D4@, KINDS_119D4@, cp)
}

/// The class of a code point by the table of the ranges from U+11D47 to U+16B45.
#[verifier::opaque]
pub open spec fn class_from_11D47(cp: u32) -> CharType {
    class_in(ENDS_11D47@, KINDS_11D47@, cp)
}

/// The class of a code point by the table of the ranges from U+16B46 to U+1CFC3.
#[verifier::opaque]
pub open spec fn class_from_16B46(cp: u32) -> CharType {
    class_in(ENDS_16B46@, KINDS_16B46@, cp)
}

/// The class of a code point by the table of the ranges from U+1CFC4 to U+1D715.
#[verifier::opaque]
pub open spec fn class_from_1CFC4(cp: u32) -> CharType {
    class_in(ENDS_1CFC4@, KINDS_1CFC4@, cp)
}

/// The class of a code point by the table of the ranges from U+1D716 to U+1E8CF.
#[verifier::opaque]
pub open spec fn class_from_1D716(cp: u32) -> CharType {
    class_in(ENDS_1D716@, KINDS_1D716@, cp)
}

/// The class of a code point by the table of the ranges from U+1E8D0 to U+1EE73.
#[verifier::opaque]
pub open spec fn class_from_1E8D0(cp: u32) -> CharType {
    class_in(ENDS_1E8D0@, KINDS_1E8D0@, cp)
}

/// The class of a code point by the table of the ranges from U+1EE74 to U+10FFFF.
#[verifier::opaque]
pub open spec fn class_from_1EE74(cp: u32) -> CharType {
    class_in(ENDS_1EE74@, KINDS_1EE74@, cp)
}

/// The bidirectional class of a code point: what the table that holds its range gives
/// it, and `OtherNeutral` beyond the last code point.
pub open spec fn bidi_class(cp: u32) -> CharType {
    if cp <= 0x037E {
        class_from_0000(cp)
    } else if cp <= 0x070D {
        class_from_037F(cp)
    } else if cp <= 0x0992 {
        class_from_070E(cp)
    } else if cp <= 0x0A65 {
        class_from_0993(cp)
    } else if cp <= 0x0B48 {
        class_from_0A66(cp)
    } else if cp <= 0x0C3C {
        class_from_0B49(cp)
    } else if cp <= 0x0D49 {
        class_from_0C3D(cp)
    } else if cp <= 0x0EC6 {
        class_from_0D4A(cp)
    } else if cp <= 0x10CF {
        class_from_0EC7(cp)
    } else if cp <= 0x177F {
        class_from_10D0(cp)
    } else if cp <= 0x1A61 {
        class_from_1780(cp)
    } else if cp <= 0x1CE1 {
        class_from_1A62(cp)
    } else if cp <= 0x2043 {
        class_from_1CE2(cp)
    } else if cp <= 0x26AB {
        class_from_2044(cp)
    } else if cp <= 0x312F {
        class_from_26AC(cp)
    } else if cp <= 0xA839 {
        class_from_3130(cp)
    } else if cp <= 0xAAEB {
        class_from_A83A(cp)
    } else if cp <= 0xFDFF {
        class_from_AAEC(cp)
    } else if cp <= 0x10100 {
        class_from_FE00(cp)
    } else if cp <= 0x1075F {
        class_from_10101(cp)
    } else if cp <= 0x10AFF {
        class_from_10760(cp)
    } else if cp <= 0x110BA {
        class_from_10B00(cp)
    } else if cp <= 0x1130C {
        class_from_110BB(cp)
    } else if cp <= 0x115FF {
        class_from_1130D(cp)
    } else if cp <= 0x119D3 {
        class_from_11600(cp)
    } else if cp <= 0x11D46 {
        class_from_119D4(cp)
    } else if cp <= 0x16B45 {
        class_from_11D47(cp)
    } else if cp <= 0x1CFC3 {
        class_from_16B46(cp)
    } else if cp <= 0x1D715 {
        class_from_1CFC4(cp)
    } else if cp <= 0x1E8CF {
        class_from_1D716(cp)
    } else if cp <= 0x1EE73 {
        class_from_1E8D0(cp)
    } else if cp <= 0x10FFFF {
        class_from_1EE74(cp)
    } else {
        ON
    }
}

/// Looks up the bidirectional class of a code point.
pub fn lookup_bidi_class(cp: u32) -> (t: CharType)
    ensures
        t == bidi_class(cp),
{
    if cp > 0x10FFFF {
        ON
    } else {
        if cp <= 0xA839 {
            if cp <= 0x0EC6 {
                if cp <= 0x0A65 {
                    if cp <= 0x070D {
                        if cp <= 0x037E {
                            proof {
                                reveal(class_from_0000);
                            }
                            lookup_in(&ENDS_0000, &KINDS_0000, cp)
                        } else {
                            proof {
                                reveal(class_from_037F);
                            }
                            lookup_in(&ENDS_037F, &KINDS_037F, cp)
                        }
                    } else {
                        if cp <= 0x0992 {
                            proof {
                                reveal(class_from_070E);
                            }
                            lookup_in(&ENDS_070E, &KINDS_070E, cp)
                        } else {
                            proof {
                                reveal(class_from_0993);
                            }
                            lookup_in(&ENDS_0993, &KINDS_0993, cp)
                        }
                    }
                } else {
                    if cp <= 0x0C3C {
                        if cp <= 0x0B48 {
                            proof {
                                reveal(class_from_0A66);
                            }
                            lookup_in(&ENDS_0A66, &KINDS_0A66, cp)
                        } else {
                            proof {
                                reveal(class_from_0B49);
                            }
                            lookup_in(&ENDS_0B49, &KINDS_0B49, cp)
                        }
                    } else {
                        if cp <= 0x0D49 {
                            proof {
                                reveal(class_from_0C3D);
                            }
                            lookup_in(&ENDS_0C3D, &KINDS_0C3D, cp)
                        } else {
                            proof {
                                reveal(class_from_0D4A);
                            }
                            lookup_in(&ENDS_0D4A, &KINDS_0D4A, cp)
                        }
                    }
                }
            } else {
                if cp <= 0x1CE1 {
                    if cp <= 0x177F {
                        if cp <= 0x10CF {
                            proof {
                                reveal(class_from_0EC7);
                            }
                            lookup_in(&ENDS_0EC7, &KINDS_0EC7, cp)
                        } else {
                            proof {
                                reveal(class_from_10D0);
                            }
                            lookup_in(&ENDS_10D0, &KINDS_10D0, cp)
                        }
                    } else {
                        if cp <= 0x1A61 {
                            proof {
                                reveal(class_from_1780);
                            }
                            lookup_in(&ENDS_1780, &KINDS_1780, cp)
                        } else {
                            proof {
                                reveal(class_from_1A62);
                            }
                            lookup_in(&ENDS_1A62, &KINDS_1A62, cp)
                        }
                    }
                } else {
                    if cp <= 0x26AB {
                        if cp <= 0x2043 {
                            proof {
                                reveal(class_from_1CE2);
                            }
                            lookup_in(&ENDS_1CE2, &KINDS_1CE2, cp)
                        } else {
                            proof {
                                reveal(class_from_2044);
                            }
                            lookup_in(&ENDS_2044, &KINDS_2044, cp)
                        }
                    } else {
                        if cp <= 0x312F {
                            proof {
                                reveal(class_from_26AC);
                            }
                            lookup_in(&ENDS_26AC, &KINDS_26AC, cp)
                        } else {
                            proof {
                                reveal(class_from_3130);
                            }
                            lookup_in(&ENDS_3130, &KINDS_3130, cp)
                        }
                    }
                }
            }
        } else {
            if cp <= 0x115FF {
                if cp <= 0x1075F {
                    if cp <= 0xFDFF {
                        if cp <= 0xAAEB {
                            proof {
                                reveal(class_from_A83A);
                            }
                            lookup_in(&ENDS_A83A, &KINDS_A83A, cp)
                        } else {
                            proof {
                                reveal(class_from_AAEC);
                            }
                            lookup_in(&ENDS_AAEC, &KINDS_AAEC, cp)
                        }
                    } else {
                        if cp <= 0x10100 {
                            proof {
                                reveal(class_from_FE00);
                            }
                            lookup_in(&ENDS_FE00, &KINDS_FE00, cp)
                        } else {
                            proof {
                                reveal(class_from_10101);
                            }
                            lookup_in(&ENDS_10101, &KINDS_10101, cp)
                        }
                    }
                } else {
                    if cp <= 0x110BA {
                        if cp <= 0x10AFF {
                            proof {
                                reveal(class_from_10760);
                            }
                            lookup_in(&ENDS_10760, &KINDS_10760, cp)
                        } else {
                            proof {
                                reveal(class_from_10B00);
                            }
                            lookup_in(&ENDS_10B00, &KINDS_10B00, cp)
                        }
                    } else {
                        if cp <= 0x1130C {
                            proof {
                                reveal(class_from_110BB);
                            }
                            lookup_in(&ENDS_110BB, &KINDS_110BB, cp)
                        } else {
                            proof {
                                reveal(class_from_1130D);
                            }
                            lookup_in(&ENDS_1130D, &KINDS_1130D, cp)
                        }
                    }
                }
            } else {
                if cp <= 0x1CFC3 {
                    if cp <= 0x11D46 {
                        if cp <= 0x119D3 {
                            proof {
                                reveal(class_from_11600);
                            }
                            lookup_in(&ENDS_11600, &KINDS_11600, cp)
                        } else {
                            proof {
                                reveal(class_from_119D4);
                            }
                            lookup_in(&ENDS_119D4, &KINDS_119D4, cp)
                        }
                    } else {
                        if cp <= 0x16B45 {
                            proof {
                                reveal(class_from_11D47);
                            }
                            lookup_in(&ENDS_11D47, &KINDS_11D47, cp)
                        } else {
                            proof {
                                reveal(class_from_16B46);
                            }
                            lookup_in(&ENDS_16B46, &KINDS_16B46, cp)
                        }
                    }
                } else {
                    if cp <= 0x1E8CF {
                        if cp <= 0x1D715 {
                            proof {
                                reveal(class_from_1CFC4);
                            }
                            lookup_in(&ENDS_1CFC4, &KINDS_1CFC4, cp)
                        } else {
                            proof {
                                reveal(class_from_1D716);
                            }
                            lookup_in(&ENDS_1D716, &KINDS_1D716, cp)
                        }
                    } else {
                        if cp <= 0x1EE73 {
                            proof {
                                reveal(class_from_1E8D0);
                            }
                            lookup_in(&ENDS_1E8D0, &KINDS_1E8D0, cp)
                        } else {
                            proof {
                                reveal(class_from_1EE74);
                            }
                            lookup_in(&ENDS_1EE74, &KINDS_1EE74, cp)
                        }
                    }
                }
            }
        }
    }
}

} // verus!
