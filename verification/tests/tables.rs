use fribidi::bracket::BracketType;
use fribidi::char::CharType;
use fribidi::level::LevelType;
use fribidi::Fribidi;

// The category of code points at the ends of ranges of the character database, and of
// some that are often met.
#[test]
fn categories_of_code_points() {
    let expected: &[(u32, CharType)] = &[
        (0x0000, CharType::BoundaryNeutral),
        (0x0008, CharType::BoundaryNeutral),
        (0x0009, CharType::SegmentSeparator),
        (0x000A, CharType::BlockSeparator),
        (0x0020, CharType::WhiteSpace),
        (0x0030, CharType::EuropeanNumeral),
        (0x003A, CharType::CommonSeparator),
        (0x0041, CharType::LeftToRight),
        (0x00A0, CharType::CommonSeparator),
        (0x00AD, CharType::BoundaryNeutral),
        (0x00B2, CharType::EuropeanNumeral),
        (0x00B3, CharType::EuropeanNumeral),
        (0x00D8, CharType::LeftToRight),
        (0x00F6, CharType::LeftToRight),
        (0x02E5, CharType::OtherNeutral),
        (0x02ED, CharType::OtherNeutral),
        (0x0300, CharType::NonSpacingMark),
        (0x0378, CharType::OtherNeutral),
        (0x037E, CharType::OtherNeutral),
        (0x038E, CharType::LeftToRight),
        (0x03A1, CharType::LeftToRight),
        (0x0411, CharType::LeftToRight),
        (0x0557, CharType::OtherNeutral),
        (0x0558, CharType::OtherNeutral),
        (0x05C1, CharType::NonSpacingMark),
        (0x05C2, CharType::NonSpacingMark),
        (0x05D0, CharType::RightToLeft),
        (0x05F5, CharType::OtherNeutral),
        (0x05FF, CharType::OtherNeutral),
        (0x0610, CharType::NonSpacingMark),
        (0x061A, CharType::NonSpacingMark),
        (0x0627, CharType::ArabicLetter),
        (0x0660, CharType::ArabicNumeral),
        (0x06D6, CharType::NonSpacingMark),
        (0x06DC, CharType::NonSpacingMark),
        (0x06F0, CharType::EuropeanNumeral),
        (0x06F9, CharType::EuropeanNumeral),
        (0x07A6, CharType::NonSpacingMark),
        (0x07B0, CharType::NonSpacingMark),
        (0x07FD, CharType::NonSpacingMark),
        (0x082E, CharType::OtherNeutral),
        (0x082F, CharType::OtherNeutral),
        (0x086B, CharType::OtherNeutral),
        (0x086F, CharType::OtherNeutral),
        (0x08E3, CharType::NonSpacingMark),
        (0x0902, CharType::NonSpacingMark),
        (0x094E, CharType::LeftToRight),
        (0x0950, CharType::LeftToRight),
        (0x098D, CharType::OtherNeutral),
        (0x098E, CharType::OtherNeutral),
        (0x09B6, CharType::LeftToRight),
        (0x09B9, CharType::LeftToRight),
        (0x09CD, CharType::NonSpacingMark),
        (0x09E4, CharType::OtherNeutral),
        (0x09E5, CharType::OtherNeutral),
        (0x0A03, CharType::LeftToRight),
        (0x0A31, CharType::OtherNeutral),
        (0x0A3E, CharType::LeftToRight),
        (0x0A40, CharType::LeftToRight),
        (0x0A59, CharType::LeftToRight),
        (0x0A5C, CharType::LeftToRight),
        (0x0A77, CharType::OtherNeutral),
        (0x0A80, CharType::OtherNeutral),
        (0x0AA9, CharType::OtherNeutral),
        (0x0AC1, CharType::NonSpacingMark),
        (0x0AC5, CharType::NonSpacingMark),
        (0x0AD1, CharType::OtherNeutral),
        (0x0ADF, CharType::OtherNeutral),
        (0x0B00, CharType::OtherNeutral),
        (0x0B29, CharType::OtherNeutral),
        (0x0B3F, CharType::NonSpacingMark),
        (0x0B55, CharType::NonSpacingMark),
        (0x0B56, CharType::NonSpacingMark),
        (0x0B78, CharType::OtherNeutral),
        (0x0B81, CharType::OtherNeutral),
        (0x0B96, CharType::OtherNeutral),
        (0x0B98, CharType::OtherNeutral),
        (0x0BA8, CharType::LeftToRight),
        (0x0BAA, CharType::LeftToRight),
        (0x0BC9, CharType::OtherNeutral),
        (0x0BF3, CharType::OtherNeutral),
        (0x0BF8, CharType::OtherNeutral),
        (0x0C11, CharType::OtherNeutral),
        (0x0C45, CharType::OtherNeutral),
        (0x0C5D, CharType::LeftToRight),
        (0x0C7F, CharType::LeftToRight),
        (0x0C80, CharType::LeftToRight),
        (0x0CB4, CharType::OtherNeutral),
        (0x0CCC, CharType::NonSpacingMark),
        (0x0CCD, CharType::NonSpacingMark),
        (0x0CE6, CharType::LeftToRight),
        (0x0CEF, CharType::LeftToRight),
        (0x0D12, CharType::LeftToRight),
        (0x0D3A, CharType::LeftToRight),
        (0x0D4E, CharType::LeftToRight),
        (0x0D4F, CharType::LeftToRight),
        (0x0D84, CharType::OtherNeutral),
        (0x0DC0, CharType::LeftToRight),
        (0x0DC6, CharType::LeftToRight),
        (0x0DD8, CharType::LeftToRight),
        (0x0DDF, CharType::LeftToRight),
        (0x0E34, CharType::NonSpacingMark),
        (0x0E3A, CharType::NonSpacingMark),
        (0x0E84, CharType::LeftToRight),
        (0x0EB1, CharType::NonSpacingMark),
        (0x0EC8, CharType::NonSpacingMark),
        (0x0ECD, CharType::NonSpacingMark),
        (0x0F35, CharType::NonSpacingMark),
        (0x0F6D, CharType::OtherNeutral),
        (0x0F70, CharType::OtherNeutral),
        (0x0F99, CharType::NonSpacingMark),
        (0x0FBC, CharType::NonSpacingMark),
        (0x102D, CharType::NonSpacingMark),
        (0x1030, CharType::NonSpacingMark),
        (0x105A, CharType::LeftToRight),
        (0x105D, CharType::LeftToRight),
        (0x108D, CharType::NonSpacingMark),
        (0x10D0, CharType::LeftToRight),
        (0x1248, CharType::LeftToRight),
        (0x125E, CharType::OtherNeutral),
        (0x125F, CharType::OtherNeutral),
        (0x12B8, CharType::LeftToRight),
        (0x12BE, CharType::LeftToRight),
        (0x1311, CharType::OtherNeutral),
        (0x1390, CharType::OtherNeutral),
        (0x139F, CharType::OtherNeutral),
        (0x16A0, CharType::LeftToRight),
        (0x16F8, CharType::LeftToRight),
        (0x1737, CharType::OtherNeutral),
        (0x173F, CharType::OtherNeutral),
        (0x1774, CharType::OtherNeutral),
        (0x177F, CharType::OtherNeutral),
        (0x17D4, CharType::LeftToRight),
        (0x17DA, CharType::LeftToRight),
        (0x180F, CharType::NonSpacingMark),
        (0x18AA, CharType::LeftToRight),
        (0x1929, CharType::LeftToRight),
        (0x192B, CharType::LeftToRight),
        (0x1970, CharType::LeftToRight),
        (0x1974, CharType::LeftToRight),
        (0x1A17, CharType::NonSpacingMark),
        (0x1A18, CharType::NonSpacingMark),
        (0x1A60, CharType::NonSpacingMark),
        (0x1A80, CharType::LeftToRight),
        (0x1A89, CharType::LeftToRight),
        (0x1B04, CharType::LeftToRight),
        (0x1B33, CharType::LeftToRight),
        (0x1B4D, CharType::OtherNeutral),
        (0x1B4F, CharType::OtherNeutral),
        (0x1BA8, CharType::NonSpacingMark),
        (0x1BA9, CharType::NonSpacingMark),
        (0x1BEE, CharType::LeftToRight),
        (0x1C3B, CharType::LeftToRight),
        (0x1C49, CharType::LeftToRight),
        (0x1CD3, CharType::LeftToRight),
        (0x1CF8, CharType::NonSpacingMark),
        (0x1CF9, CharType::NonSpacingMark),
        (0x1F20, CharType::LeftToRight),
        (0x1F45, CharType::LeftToRight),
        (0x1F5C, CharType::OtherNeutral),
        (0x1FBE, CharType::LeftToRight),
        (0x1FDC, CharType::OtherNeutral),
        (0x1FDF, CharType::OtherNeutral),
        (0x200E, CharType::LeftToRight),
        (0x200F, CharType::RightToLeft),
        (0x2029, CharType::BlockSeparator),
        (0x202A, CharType::LeftToRightEmbedding),
        (0x202B, CharType::RightToLeftEmbedding),
        (0x202C, CharType::PopDirectionalFlag),
        (0x202D, CharType::LeftToRightOverride),
        (0x202E, CharType::RightToLeftOverride),
        (0x2066, CharType::LeftToRightIsolate),
        (0x2067, CharType::RightToLeftIsolate),
        (0x2068, CharType::FirstStongIsolate),
        (0x2069, CharType::PopDirectionalIsolate),
        (0x207A, CharType::EuropeanNumberSeparator),
        (0x207B, CharType::EuropeanNumberSeparator),
        (0x20C1, CharType::OtherNeutral),
        (0x20CF, CharType::OtherNeutral),
        (0x2115, CharType::LeftToRight),
        (0x2129, CharType::OtherNeutral),
        (0x214E, CharType::LeftToRight),
        (0x214F, CharType::LeftToRight),
        (0x2395, CharType::LeftToRight),
        (0x2C00, CharType::LeftToRight),
        (0x2CE4, CharType::LeftToRight),
        (0x2D28, CharType::OtherNeutral),
        (0x2D2C, CharType::OtherNeutral),
        (0x2D97, CharType::OtherNeutral),
        (0x2D9F, CharType::OtherNeutral),
        (0x2DC0, CharType::LeftToRight),
        (0x2DC6, CharType::LeftToRight),
        (0x2E00, CharType::OtherNeutral),
        (0x2E55, CharType::OtherNeutral),
        (0x2FFF, CharType::OtherNeutral),
        (0x3031, CharType::LeftToRight),
        (0x3035, CharType::LeftToRight),
        (0x30A0, CharType::OtherNeutral),
        (0x3190, CharType::LeftToRight),
        (0x31BF, CharType::LeftToRight),
        (0x32B1, CharType::OtherNeutral),
        (0x32BF, CharType::OtherNeutral),
        (0x3400, CharType::LeftToRight),
        (0x4DBF, CharType::LeftToRight),
        (0x897F, CharType::LeftToRight),
        (0xA66F, CharType::NonSpacingMark),
        (0xA672, CharType::NonSpacingMark),
        (0xA6F8, CharType::OtherNeutral),
        (0xA721, CharType::OtherNeutral),
        (0xA7D5, CharType::LeftToRight),
        (0xA7D9, CharType::LeftToRight),
        (0xA825, CharType::NonSpacingMark),
        (0xA826, CharType::NonSpacingMark),
        (0xA874, CharType::OtherNeutral),
        (0xA87F, CharType::OtherNeutral),
        (0xA900, CharType::LeftToRight),
        (0xA925, CharType::LeftToRight),
        (0xA983, CharType::LeftToRight),
        (0xA9B2, CharType::LeftToRight),
        (0xA9DA, CharType::OtherNeutral),
        (0xA9DD, CharType::OtherNeutral),
        (0xAA33, CharType::LeftToRight),
        (0xAA34, CharType::LeftToRight),
        (0xAA50, CharType::LeftToRight),
        (0xAA59, CharType::LeftToRight),
        (0xAAB7, CharType::NonSpacingMark),
        (0xAAB8, CharType::NonSpacingMark),
        (0xAAEE, CharType::LeftToRight),
        (0xAAF5, CharType::LeftToRight),
        (0xAB20, CharType::LeftToRight),
        (0xAB26, CharType::LeftToRight),
        (0xABE8, CharType::NonSpacingMark),
        (0xD7C7, CharType::OtherNeutral),
        (0xD7CA, CharType::OtherNeutral),
        (0xD800, CharType::LeftToRight),
        (0xE000, CharType::LeftToRight),
        (0xFB13, CharType::LeftToRight),
        (0xFB17, CharType::LeftToRight),
        (0xFB1D, CharType::RightToLeft),
        (0xFB3D, CharType::OtherNeutral),
        (0xFBC3, CharType::OtherNeutral),
        (0xFBD2, CharType::OtherNeutral),
        (0xFE00, CharType::NonSpacingMark),
        (0xFE0F, CharType::NonSpacingMark),
        (0xFE56, CharType::OtherNeutral),
        (0xFE5E, CharType::OtherNeutral),
        (0xFE70, CharType::ArabicLetter),
        (0xFE76, CharType::ArabicLetter),
        (0xFEFC, CharType::ArabicLetter),
        (0xFF0E, CharType::CommonSeparator),
        (0xFF0F, CharType::CommonSeparator),
        (0xFFBF, CharType::OtherNeutral),
        (0xFFC1, CharType::OtherNeutral),
        (0xFFE0, CharType::EuropeanNumberTerminator),
        (0xFFE1, CharType::EuropeanNumberTerminator),
        (0x1003B, CharType::OtherNeutral),
        (0x10100, CharType::LeftToRight),
        (0x1018F, CharType::OtherNeutral),
        (0x101CF, CharType::OtherNeutral),
        (0x102E1, CharType::EuropeanNumeral),
        (0x102FB, CharType::EuropeanNumeral),
        (0x10380, CharType::LeftToRight),
        (0x1039D, CharType::LeftToRight),
        (0x104AA, CharType::OtherNeutral),
        (0x104AF, CharType::OtherNeutral),
        (0x1056F, CharType::LeftToRight),
        (0x1057A, CharType::LeftToRight),
        (0x105A2, CharType::OtherNeutral),
        (0x10740, CharType::LeftToRight),
        (0x10755, CharType::LeftToRight),
        (0x107BB, CharType::OtherNeutral),
        (0x107FF, CharType::OtherNeutral),
        (0x10800, CharType::RightToLeft),
        (0x1083C, CharType::RightToLeft),
        (0x108F3, CharType::OtherNeutral),
        (0x10980, CharType::RightToLeft),
        (0x109B7, CharType::RightToLeft),
        (0x10A0C, CharType::NonSpacingMark),
        (0x10A0F, CharType::NonSpacingMark),
        (0x10A3F, CharType::NonSpacingMark),
        (0x10AE7, CharType::OtherNeutral),
        (0x10AEA, CharType::OtherNeutral),
        (0x10B78, CharType::RightToLeft),
        (0x10B91, CharType::RightToLeft),
        (0x10CB3, CharType::OtherNeutral),
        (0x10CBF, CharType::OtherNeutral),
        (0x10E60, CharType::ArabicNumeral),
        (0x10E7E, CharType::ArabicNumeral),
        (0x10F00, CharType::RightToLeft),
        (0x10F27, CharType::RightToLeft),
        (0x10F8A, CharType::OtherNeutral),
        (0x10FAF, CharType::OtherNeutral),
        (0x11047, CharType::LeftToRight),
        (0x1104D, CharType::LeftToRight),
        (0x11082, CharType::LeftToRight),
        (0x110B2, CharType::LeftToRight),
        (0x110D0, CharType::LeftToRight),
        (0x110E8, CharType::LeftToRight),
        (0x11135, CharType::OtherNeutral),
        (0x111B6, CharType::NonSpacingMark),
        (0x111BE, CharType::NonSpacingMark),
        (0x11200, CharType::LeftToRight),
        (0x11211, CharType::LeftToRight),
        (0x1123E, CharType::NonSpacingMark),
        (0x1129E, CharType::OtherNeutral),
        (0x112FA, CharType::OtherNeutral),
        (0x112FF, CharType::OtherNeutral),
        (0x11329, CharType::OtherNeutral),
        (0x11340, CharType::NonSpacingMark),
        (0x11357, CharType::LeftToRight),
        (0x11438, CharType::NonSpacingMark),
        (0x1143F, CharType::NonSpacingMark),
        (0x1145F, CharType::LeftToRight),
        (0x11461, CharType::LeftToRight),
        (0x114C2, CharType::NonSpacingMark),
        (0x114C3, CharType::NonSpacingMark),
        (0x115BC, CharType::NonSpacingMark),
        (0x115BD, CharType::NonSpacingMark),
        (0x1163D, CharType::NonSpacingMark),
        (0x116AC, CharType::LeftToRight),
        (0x116CA, CharType::OtherNeutral),
        (0x116FF, CharType::OtherNeutral),
        (0x11730, CharType::LeftToRight),
        (0x11746, CharType::LeftToRight),
        (0x118F3, CharType::OtherNeutral),
        (0x118FE, CharType::OtherNeutral),
        (0x11918, CharType::LeftToRight),
        (0x11935, CharType::LeftToRight),
        (0x11944, CharType::LeftToRight),
        (0x11946, CharType::LeftToRight),
        (0x119DA, CharType::NonSpacingMark),
        (0x119DB, CharType::NonSpacingMark),
        (0x11A0B, CharType::LeftToRight),
        (0x11A32, CharType::LeftToRight),
        (0x11A57, CharType::LeftToRight),
        (0x11A58, CharType::LeftToRight),
        (0x11AF9, CharType::OtherNeutral),
        (0x11BFF, CharType::OtherNeutral),
        (0x11C50, CharType::LeftToRight),
        (0x11C6C, CharType::LeftToRight),
        (0x11CB2, CharType::NonSpacingMark),
        (0x11CB3, CharType::NonSpacingMark),
        (0x11D31, CharType::NonSpacingMark),
        (0x11D36, CharType::NonSpacingMark),
        (0x11D48, CharType::OtherNeutral),
        (0x11D4F, CharType::OtherNeutral),
        (0x11D90, CharType::NonSpacingMark),
        (0x11D91, CharType::NonSpacingMark),
        (0x11DAA, CharType::OtherNeutral),
        (0x11EDF, CharType::OtherNeutral),
        (0x11FDD, CharType::EuropeanNumberTerminator),
        (0x11FE0, CharType::EuropeanNumberTerminator),
        (0x12544, CharType::OtherNeutral),
        (0x12F8F, CharType::OtherNeutral),
        (0x16800, CharType::LeftToRight),
        (0x16A38, CharType::LeftToRight),
        (0x16ACA, CharType::OtherNeutral),
        (0x16ACF, CharType::OtherNeutral),
        (0x16B46, CharType::OtherNeutral),
        (0x16B4F, CharType::OtherNeutral),
        (0x16E40, CharType::LeftToRight),
        (0x16E9A, CharType::LeftToRight),
        (0x16FA0, CharType::OtherNeutral),
        (0x16FDF, CharType::OtherNeutral),
        (0x187F8, CharType::OtherNeutral),
        (0x187FF, CharType::OtherNeutral),
        (0x1AFFD, CharType::LeftToRight),
        (0x1AFFE, CharType::LeftToRight),
        (0x1B2FC, CharType::OtherNeutral),
        (0x1BBFF, CharType::OtherNeutral),
        (0x1BC9C, CharType::LeftToRight),
        (0x1CF50, CharType::LeftToRight),
        (0x1CFC3, CharType::LeftToRight),
        (0x1D173, CharType::BoundaryNeutral),
        (0x1D17A, CharType::BoundaryNeutral),
        (0x1D245, CharType::OtherNeutral),
        (0x1D2DF, CharType::OtherNeutral),
        (0x1D49E, CharType::LeftToRight),
        (0x1D49F, CharType::LeftToRight),
        (0x1D4BA, CharType::OtherNeutral),
        (0x1D50D, CharType::LeftToRight),
        (0x1D514, CharType::LeftToRight),
        (0x1D545, CharType::OtherNeutral),
        (0x1D6DC, CharType::LeftToRight),
        (0x1D714, CharType::LeftToRight),
        (0x1D7CC, CharType::OtherNeutral),
        (0x1D7CD, CharType::OtherNeutral),
        (0x1DA84, CharType::NonSpacingMark),
        (0x1E000, CharType::NonSpacingMark),
        (0x1E006, CharType::NonSpacingMark),
        (0x1E02B, CharType::OtherNeutral),
        (0x1E0FF, CharType::OtherNeutral),
        (0x1E150, CharType::OtherNeutral),
        (0x1E28F, CharType::OtherNeutral),
        (0x1E300, CharType::OtherNeutral),
        (0x1E7DF, CharType::OtherNeutral),
        (0x1E800, CharType::RightToLeft),
        (0x1E8C4, CharType::RightToLeft),
        (0x1E900, CharType::RightToLeft),
        (0x1E950, CharType::RightToLeft),
        (0x1E959, CharType::RightToLeft),
        (0x1EE04, CharType::OtherNeutral),
        (0x1EE29, CharType::ArabicLetter),
        (0x1EE32, CharType::ArabicLetter),
        (0x1EE43, CharType::OtherNeutral),
        (0x1EE46, CharType::OtherNeutral),
        (0x1EE51, CharType::ArabicLetter),
        (0x1EE52, CharType::ArabicLetter),
        (0x1EE5C, CharType::OtherNeutral),
        (0x1EE67, CharType::ArabicLetter),
        (0x1EE6A, CharType::ArabicLetter),
        (0x1EE7F, CharType::OtherNeutral),
        (0x1EEAB, CharType::ArabicLetter),
        (0x1EEBB, CharType::ArabicLetter),
        (0x1F1AD, CharType::OtherNeutral),
        (0x1F1E5, CharType::OtherNeutral),
        (0x1F600, CharType::OtherNeutral),
        (0x1FBF0, CharType::EuropeanNumeral),
        (0x1FBF9, CharType::EuropeanNumeral),
        (0x2CEA2, CharType::OtherNeutral),
        (0x2CEAF, CharType::OtherNeutral),
        (0xE0020, CharType::BoundaryNeutral),
        (0xE007F, CharType::BoundaryNeutral),
        (0x10FFFD, CharType::LeftToRight),
        (0x10FFFF, CharType::OtherNeutral),
    ];
    for &(code, kind) in expected {
        assert_eq!(CharType::into_chartype(code), kind, "U+{:04X}", code);
    }
}

#[test]
fn category_of_a_latin_digit() {
    assert_eq!(CharType::into_chartype('1' as u32), CharType::EuropeanNumeral);
    assert_eq!(Fribidi::get_bidi_type('1'), CharType::EuropeanNumeral);
    assert_eq!(CharType::from('1'), CharType::EuropeanNumeral);
}

#[test]
fn category_of_an_arabic_digit() {
    assert_eq!(CharType::into_chartype('٤' as u32), CharType::ArabicNumeral);
    assert_eq!(Fribidi::get_bidi_type('٤'), CharType::ArabicNumeral);
    assert_eq!(CharType::from(0x0664u32), CharType::ArabicNumeral);
}

#[test]
fn category_of_what_the_database_does_not_list() {
    assert_eq!(CharType::into_chartype(0x0378), CharType::OtherNeutral);
    assert_eq!(CharType::into_chartype(0x10FFFF), CharType::OtherNeutral);
    assert_eq!(CharType::into_chartype(0x110000), CharType::OtherNeutral);
    assert_eq!(CharType::into_chartype(u32::MAX), CharType::OtherNeutral);
}

#[test]
fn categories_keep_the_order_of_the_text() {
    let text: Vec<u32> = vec![0x202E, 0x31, 0x5D0, 0x20, 0x61];
    assert_eq!(
        CharType::into_chartypes(&text),
        vec![
            CharType::RightToLeftOverride,
            CharType::EuropeanNumeral,
            CharType::RightToLeft,
            CharType::WhiteSpace,
            CharType::LeftToRight,
        ]
    );
    assert_eq!(CharType::into_chartypes(&Vec::new()), Vec::new());
}

// Each predicate, with the categories that it holds of.
#[test]
fn predicates_of_categories() {
    let all = [
        CharType::LeftToRight,
        CharType::RightToLeft,
        CharType::ArabicLetter,
        CharType::EuropeanNumeral,
        CharType::ArabicNumeral,
        CharType::EuropeanNumberSeparator,
        CharType::EuropeanNumberTerminator,
        CharType::CommonSeparator,
        CharType::NonSpacingMark,
        CharType::BoundaryNeutral,
        CharType::BlockSeparator,
        CharType::SegmentSeparator,
        CharType::WhiteSpace,
        CharType::OtherNeutral,
        CharType::LeftToRightEmbedding,
        CharType::RightToLeftEmbedding,
        CharType::LeftToRightOverride,
        CharType::RightToLeftOverride,
        CharType::PopDirectionalFlag,
        CharType::LeftToRightIsolate,
        CharType::RightToLeftIsolate,
        CharType::FirstStongIsolate,
        CharType::PopDirectionalIsolate,
    ];
    let holds_of = |predicate: fn(CharType) -> bool| -> Vec<CharType> {
        all.iter().copied().filter(|&kind| predicate(kind)).collect()
    };
    assert_eq!(holds_of(CharType::is_rtl), vec![CharType::RightToLeft, CharType::ArabicLetter, CharType::RightToLeftEmbedding, CharType::RightToLeftOverride, CharType::RightToLeftIsolate]);
    assert_eq!(holds_of(CharType::is_arabic), vec![CharType::ArabicLetter, CharType::ArabicNumeral]);
    assert_eq!(holds_of(CharType::is_strong), vec![CharType::LeftToRight, CharType::RightToLeft, CharType::ArabicLetter]);
    assert_eq!(holds_of(CharType::is_weak), vec![CharType::EuropeanNumeral, CharType::ArabicNumeral, CharType::EuropeanNumberSeparator, CharType::EuropeanNumberTerminator, CharType::CommonSeparator, CharType::NonSpacingMark, CharType::BoundaryNeutral]);
    assert_eq!(holds_of(CharType::is_netural), vec![CharType::BlockSeparator, CharType::SegmentSeparator, CharType::WhiteSpace, CharType::OtherNeutral]);
    assert_eq!(holds_of(CharType::is_sentinel), vec![]);
    assert_eq!(holds_of(CharType::is_letter), vec![CharType::LeftToRight, CharType::RightToLeft, CharType::ArabicLetter]);
    assert_eq!(holds_of(CharType::is_number), vec![CharType::EuropeanNumeral, CharType::ArabicNumeral]);
    assert_eq!(holds_of(CharType::is_number_separator_or_terminator), vec![CharType::EuropeanNumberSeparator, CharType::EuropeanNumberTerminator, CharType::CommonSeparator]);
    assert_eq!(holds_of(CharType::is_space), vec![CharType::BoundaryNeutral, CharType::BlockSeparator, CharType::SegmentSeparator, CharType::WhiteSpace]);
    assert_eq!(holds_of(CharType::is_explicit), vec![CharType::LeftToRightEmbedding, CharType::RightToLeftEmbedding, CharType::LeftToRightOverride, CharType::RightToLeftOverride, CharType::PopDirectionalFlag]);
    assert_eq!(holds_of(CharType::is_isolate), vec![CharType::LeftToRightIsolate, CharType::RightToLeftIsolate, CharType::FirstStongIsolate, CharType::PopDirectionalIsolate]);
    assert_eq!(holds_of(CharType::is_separator), vec![CharType::BlockSeparator, CharType::SegmentSeparator]);
    assert_eq!(holds_of(CharType::is_override), vec![CharType::LeftToRightOverride, CharType::RightToLeftOverride]);
    assert_eq!(holds_of(CharType::is_es_or_cs), vec![CharType::EuropeanNumberSeparator, CharType::CommonSeparator]);
    assert_eq!(holds_of(CharType::is_explicit_or_bn), vec![CharType::BoundaryNeutral, CharType::LeftToRightEmbedding, CharType::RightToLeftEmbedding, CharType::LeftToRightOverride, CharType::RightToLeftOverride, CharType::PopDirectionalFlag]);
    assert_eq!(holds_of(CharType::is_explicit_or_bn_or_nsm), vec![CharType::NonSpacingMark, CharType::BoundaryNeutral, CharType::LeftToRightEmbedding, CharType::RightToLeftEmbedding, CharType::LeftToRightOverride, CharType::RightToLeftOverride, CharType::PopDirectionalFlag]);
    assert_eq!(holds_of(CharType::is_explicit_or_isolate_or_bn_or_nsm), vec![CharType::NonSpacingMark, CharType::BoundaryNeutral, CharType::LeftToRightEmbedding, CharType::RightToLeftEmbedding, CharType::LeftToRightOverride, CharType::RightToLeftOverride, CharType::PopDirectionalFlag, CharType::LeftToRightIsolate, CharType::RightToLeftIsolate, CharType::FirstStongIsolate, CharType::PopDirectionalIsolate]);
    assert_eq!(holds_of(CharType::is_explicit_or_bn_or_ws), vec![CharType::BoundaryNeutral, CharType::WhiteSpace, CharType::LeftToRightEmbedding, CharType::RightToLeftEmbedding, CharType::LeftToRightOverride, CharType::RightToLeftOverride, CharType::PopDirectionalFlag]);
    assert_eq!(holds_of(CharType::is_explicit_or_separator_or_bn_or_ws), vec![CharType::BoundaryNeutral, CharType::BlockSeparator, CharType::SegmentSeparator, CharType::WhiteSpace, CharType::LeftToRightEmbedding, CharType::RightToLeftEmbedding, CharType::LeftToRightOverride, CharType::RightToLeftOverride, CharType::PopDirectionalFlag]);
    assert_eq!(holds_of(CharType::is_private), vec![]);
    assert_eq!(holds_of(CharType::is_left_to_right_letter), vec![CharType::LeftToRight]);
    assert_eq!(holds_of(CharType::is_right_to_left_letter), vec![CharType::RightToLeft, CharType::ArabicLetter]);
    assert_eq!(holds_of(CharType::is_neutral_or_isolate), vec![CharType::BlockSeparator, CharType::SegmentSeparator, CharType::WhiteSpace, CharType::OtherNeutral, CharType::LeftToRightIsolate, CharType::RightToLeftIsolate, CharType::FirstStongIsolate, CharType::PopDirectionalIsolate]);
    assert_eq!(
        holds_of(CharType::is_isolate_initiator),
        vec![CharType::LeftToRightIsolate, CharType::RightToLeftIsolate, CharType::FirstStongIsolate]
    );
}

// The number of each category, and the level that the number gives.
#[test]
fn numbers_of_categories() {
    let expected: &[(CharType, u32)] = &[
        (CharType::LeftToRight, 0x00000110),
        (CharType::RightToLeft, 0x00000111),
        (CharType::ArabicLetter, 0x00000113),
        (CharType::EuropeanNumeral, 0x00000220),
        (CharType::ArabicNumeral, 0x00000222),
        (CharType::EuropeanNumberSeparator, 0x00010420),
        (CharType::EuropeanNumberTerminator, 0x00020420),
        (CharType::CommonSeparator, 0x00040420),
        (CharType::NonSpacingMark, 0x00080020),
        (CharType::BoundaryNeutral, 0x00100820),
        (CharType::BlockSeparator, 0x00202840),
        (CharType::SegmentSeparator, 0x00402840),
        (CharType::WhiteSpace, 0x00800840),
        (CharType::OtherNeutral, 0x00000040),
        (CharType::LeftToRightEmbedding, 0x00001010),
        (CharType::RightToLeftEmbedding, 0x00001011),
        (CharType::LeftToRightOverride, 0x00005010),
        (CharType::RightToLeftOverride, 0x00005011),
        (CharType::PopDirectionalFlag, 0x00001020),
        (CharType::LeftToRightIsolate, 0x00008040),
        (CharType::RightToLeftIsolate, 0x00008041),
        (CharType::FirstStongIsolate, 0x02008040),
        (CharType::PopDirectionalIsolate, 0x00008060),
    ];
    for &(kind, number) in expected {
        assert_eq!(kind.number(), number, "{:?}", kind);
        assert_eq!(LevelType::from_char(number), LevelType::from_chartype(kind), "{:?}", kind);
        assert_eq!(LevelType::from_char(number).0, (number & 1) as i8, "{:?}", kind);
    }
}

#[test]
fn names_of_categories() {
    assert_eq!(CharType::name(CharType::LeftToRight), "LeftToRight");
    assert_eq!(CharType::name(CharType::FirstStongIsolate), "FirstStongIsolate");
    assert_eq!(CharType::name(CharType::PopDirectionalIsolate), "PopDirectionalIsolate");
    assert_eq!(CharType::name(CharType::BoundaryNeutral), "BoundaryNeutral");
}

#[test]
fn numbers_turn_right_to_left() {
    assert_eq!(CharType::into_right_to_left(CharType::EuropeanNumeral), CharType::RightToLeft);
    assert_eq!(CharType::into_right_to_left(CharType::ArabicNumeral), CharType::RightToLeft);
    assert_eq!(CharType::into_right_to_left(CharType::LeftToRight), CharType::LeftToRight);
    assert_eq!(CharType::into_right_to_left(CharType::WhiteSpace), CharType::WhiteSpace);
}

#[test]
fn overrides_force_their_direction() {
    assert_eq!(
        CharType::explicit_to_override_dir(CharType::LeftToRightOverride),
        CharType::LeftToRight
    );
    assert_eq!(
        CharType::explicit_to_override_dir(CharType::RightToLeftOverride),
        CharType::RightToLeft
    );
    assert_eq!(
        CharType::explicit_to_override_dir(CharType::RightToLeftEmbedding),
        CharType::OtherNeutral
    );
    assert_eq!(
        CharType::explicit_to_override_dir(CharType::ArabicLetter),
        CharType::OtherNeutral
    );
}

// Every bracket of the table of paired brackets.
#[test]
fn brackets_of_the_table() {
    let expected: &[(u32, u32)] = &[
        (0x0028, 0x80000028),
        (0x0029, 0x00000028),
        (0x005B, 0x8000005B),
        (0x005D, 0x0000005B),
        (0x007B, 0x8000007B),
        (0x007D, 0x0000007B),
        (0x0F3A, 0x80000F3A),
        (0x0F3B, 0x00000F3A),
        (0x0F3C, 0x80000F3C),
        (0x0F3D, 0x00000F3C),
        (0x169B, 0x8000169B),
        (0x169C, 0x0000169B),
        (0x2045, 0x80002045),
        (0x2046, 0x00002045),
        (0x207D, 0x8000207D),
        (0x207E, 0x0000207D),
        (0x208D, 0x8000208D),
        (0x208E, 0x0000208D),
        (0x2308, 0x80002308),
        (0x2309, 0x00002308),
        (0x230A, 0x8000230A),
        (0x230B, 0x0000230A),
        (0x2329, 0x80003008),
        (0x232A, 0x00003008),
        (0x2768, 0x80002768),
        (0x2769, 0x00002768),
        (0x276A, 0x8000276A),
        (0x276B, 0x0000276A),
        (0x276C, 0x8000276C),
        (0x276D, 0x0000276C),
        (0x276E, 0x8000276E),
        (0x276F, 0x0000276E),
        (0x2770, 0x80002770),
        (0x2771, 0x00002770),
        (0x2772, 0x80002772),
        (0x2773, 0x00002772),
        (0x2774, 0x80002774),
        (0x2775, 0x00002774),
        (0x27C5, 0x800027C5),
        (0x27C6, 0x000027C5),
        (0x27E6, 0x800027E6),
        (0x27E7, 0x000027E6),
        (0x27E8, 0x800027E8),
        (0x27E9, 0x000027E8),
        (0x27EA, 0x800027EA),
        (0x27EB, 0x000027EA),
        (0x27EC, 0x800027EC),
        (0x27ED, 0x000027EC),
        (0x27EE, 0x800027EE),
        (0x27EF, 0x000027EE),
        (0x2983, 0x80002983),
        (0x2984, 0x00002983),
        (0x2985, 0x80002985),
        (0x2986, 0x00002985),
        (0x2987, 0x80002987),
        (0x2988, 0x00002987),
        (0x2989, 0x80002989),
        (0x298A, 0x00002989),
        (0x298B, 0x8000298B),
        (0x298C, 0x0000298B),
        (0x298D, 0x8000298D),
        (0x298E, 0x0000298F),
        (0x298F, 0x8000298F),
        (0x2990, 0x0000298D),
        (0x2991, 0x80002991),
        (0x2992, 0x00002991),
        (0x2993, 0x80002993),
        (0x2994, 0x00002993),
        (0x2995, 0x80002995),
        (0x2996, 0x00002995),
        (0x2997, 0x80002997),
        (0x2998, 0x00002997),
        (0x29D8, 0x800029D8),
        (0x29D9, 0x000029D8),
        (0x29DA, 0x800029DA),
        (0x29DB, 0x000029DA),
        (0x29FC, 0x800029FC),
        (0x29FD, 0x000029FC),
        (0x2E22, 0x80002E22),
        (0x2E23, 0x00002E22),
        (0x2E24, 0x80002E24),
        (0x2E25, 0x00002E24),
        (0x2E26, 0x80002E26),
        (0x2E27, 0x00002E26),
        (0x2E28, 0x80002E28),
        (0x2E29, 0x00002E28),
        (0x2E55, 0x80002E55),
        (0x2E56, 0x00002E55),
        (0x2E57, 0x80002E57),
        (0x2E58, 0x00002E57),
        (0x2E59, 0x80002E59),
        (0x2E5A, 0x00002E59),
        (0x2E5B, 0x80002E5B),
        (0x2E5C, 0x00002E5B),
        (0x3008, 0x80003008),
        (0x3009, 0x00003008),
        (0x300A, 0x8000300A),
        (0x300B, 0x0000300A),
        (0x300C, 0x8000300C),
        (0x300D, 0x0000300C),
        (0x300E, 0x8000300E),
        (0x300F, 0x0000300E),
        (0x3010, 0x80003010),
        (0x3011, 0x00003010),
        (0x3014, 0x80003014),
        (0x3015, 0x00003014),
        (0x3016, 0x80003016),
        (0x3017, 0x00003016),
        (0x3018, 0x80003018),
        (0x3019, 0x00003018),
        (0x301A, 0x8000301A),
        (0x301B, 0x0000301A),
        (0xFE59, 0x8000FE59),
        (0xFE5A, 0x0000FE59),
        (0xFE5B, 0x8000FE5B),
        (0xFE5C, 0x0000FE5B),
        (0xFE5D, 0x8000FE5D),
        (0xFE5E, 0x0000FE5D),
        (0xFF08, 0x8000FF08),
        (0xFF09, 0x0000FF08),
        (0xFF3B, 0x8000FF3B),
        (0xFF3D, 0x0000FF3B),
        (0xFF5B, 0x8000FF5B),
        (0xFF5D, 0x0000FF5B),
        (0xFF5F, 0x8000FF5F),
        (0xFF60, 0x0000FF5F),
        (0xFF62, 0x8000FF62),
        (0xFF63, 0x0000FF62),
    ];
    for &(code, kind) in expected {
        let bracket = BracketType::from_bracket(code);
        assert_eq!(bracket, BracketType(kind), "U+{:04X}", code);
        assert!(bracket.is_bracket());
        assert_eq!(bracket.is_open(), kind & 0x8000_0000 != 0);
        assert_eq!(bracket.get_id(), kind & 0x7FFF_FFFF);
    }
}

#[test]
fn square_brackets_are_a_pair() {
    let open = BracketType::from_char('[');
    let close = BracketType::from_char(']');
    assert_eq!(open.get_id(), close.get_id());
    assert!(open.is_open());
    assert!(!close.is_open());
    assert_ne!(open.get_id(), BracketType::from_char('(').get_id());
}

#[test]
fn equivalent_angle_brackets_share_their_id() {
    assert_eq!(
        BracketType::from_bracket(0x2329).get_id(),
        BracketType::from_bracket(0x3008).get_id()
    );
    assert_eq!(
        BracketType::from_bracket(0x232A).get_id(),
        BracketType::from_bracket(0x3009).get_id()
    );
    assert_eq!(BracketType::from_bracket(0x232A).get_id(), 0x3008);
}

#[test]
fn other_characters_are_no_brackets() {
    for code in [0x0u32, 0x27, 0x2A, 0x3C, 0x3E, 0x61, 0xAB, 0x2039, 0x10FFFF, u32::MAX] {
        let bracket = BracketType::from_bracket(code);
        assert_eq!(bracket, BracketType(0), "U+{:04X}", code);
        assert!(!bracket.is_bracket());
        assert!(!bracket.is_open());
        assert_eq!(bracket.get_id(), 0);
    }
    assert_eq!(BracketType::from_char('a'), BracketType(0));
}
