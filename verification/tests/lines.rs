use fribidi::char::CharType;
use fribidi::flag::FriBidiFlag;
use fribidi::level::LevelType;
use fribidi::paragraph::ParagraphType;
use fribidi::Fribidi;
use widestring::U32String;

// One letter for each category, in the order of the variants of `CharType`.
const LETTERS: &str = "LRAENSTCMBPGWOlreopifxd";

const KINDS: [CharType; 23] = [
    CharType::LeftToRight,
    CharType::RightToLeft,
    CharType::ArabicLetter,
    CharType::EuropeanNumeral,
    CharType::ArabicNumeral,
    CharType::EuropeanNumberSeparator,
    CharType::EuropeanNumberTerminator,
    CharType::CommonSeparator,
    CharType::NonSpacingMark,
    CharType::BoundaryNeutral,
    CharType::BlockSeparator,
    CharType::SegmentSeparator,
    CharType::WhiteSpace,
    CharType::OtherNeutral,
    CharType::LeftToRightEmbedding,
    CharType::RightToLeftEmbedding,
    CharType::LeftToRightOverride,
    CharType::RightToLeftOverride,
    CharType::PopDirectionalFlag,
    CharType::LeftToRightIsolate,
    CharType::RightToLeftIsolate,
    CharType::FirstStongIsolate,
    CharType::PopDirectionalIsolate,
];

fn kinds(letters: &str) -> Vec<CharType> {
    letters
        .chars()
        .map(|c| KINDS[LETTERS.find(c).unwrap()])
        .collect()
}

// A line: the categories, whether the paragraph runs right to left, whether the marks
// are reordered, the levels, the levels once the end of the line is reset, one more
// than the highest level, and the map from the screen to the line.
struct Line {
    kinds: &'static str,
    rtl: bool,
    marks: bool,
    levels: &'static [i8],
    reset: &'static [i8],
    depth: i8,
    map: &'static [u32],
}

fn check(lines: &[Line]) {
    for line in lines {
        let types = kinds(line.kinds);
        let mut levels: Vec<LevelType> = line.levels.iter().map(|&l| LevelType(l)).collect();
        let letters: Vec<u32> = (0..types.len() as u32).map(|i| 0x4E00 + i).collect();
        let mut text = U32String::from_vec(letters.clone());
        let dir = if line.rtl { ParagraphType::RightToLeft } else { ParagraphType::LeftToRight };
        let flags = if line.marks { FriBidiFlag::Default } else { FriBidiFlag::ShapeMirroring };
        let (depth, map) =
            Fribidi::reorder_line(flags, &types, dir, Some(&mut levels), &mut text).unwrap();
        let reset: Vec<i8> = levels.iter().map(|level| level.0).collect();
        assert_eq!(reset, line.reset, "levels of {:?}", line.kinds);
        assert_eq!(depth, LevelType(line.depth), "depth of {:?}", line.kinds);
        assert_eq!(map, line.map, "map of {:?}", line.kinds);
        let shown: Vec<u32> = map.iter().map(|&at| letters[at as usize]).collect();
        assert_eq!(text.as_vec(), &shown, "text of {:?}", line.kinds);
    }
}

// Runs of levels, reversed from the highest level down.
#[test]
fn lines_by_levels() {
    check(&[
        Line {
            kinds: "ERRRLEOA",
            rtl: true,
            marks: false,
            levels: &[4, 4, 4, 4, 3, 1, 1, 1],
            reset: &[4, 4, 4, 4, 3, 1, 1, 1],
            depth: 5,
            map: &[7, 6, 5, 4, 0, 1, 2, 3],
        },
        Line {
            kinds: "LLAEAORRRL",
            rtl: false,
            marks: false,
            levels: &[0, 0, 0, 0, 0, 1, 1, 1, 3, 3],
            reset: &[0, 0, 0, 0, 0, 1, 1, 1, 3, 3],
            depth: 4,
            map: &[0, 1, 2, 3, 4, 9, 8, 7, 6, 5],
        },
        Line {
            kinds: "EOA",
            rtl: false,
            marks: false,
            levels: &[0, 0, 0],
            reset: &[0, 0, 0],
            depth: 1,
            map: &[0, 1, 2],
        },
        Line {
            kinds: "AAARRAOOROLL",
            rtl: false,
            marks: false,
            levels: &[0, 2, 2, 2, 4, 4, 4, 3, 3, 3, 4, 3],
            reset: &[0, 2, 2, 2, 4, 4, 4, 3, 3, 3, 4, 3],
            depth: 5,
            map: &[0, 1, 2, 3, 11, 10, 9, 8, 7, 4, 5, 6],
        },
        Line {
            kinds: "ALLORLLRLOLOO",
            rtl: false,
            marks: false,
            levels: &[0, 2, 0, 1, 1, 1, 1, 1, 1, 1, 1, 1, 1],
            reset: &[0, 2, 0, 1, 1, 1, 1, 1, 1, 1, 1, 1, 1],
            depth: 3,
            map: &[0, 1, 2, 12, 11, 10, 9, 8, 7, 6, 5, 4, 3],
        },
        Line {
            kinds: "AOEAEEORLAOLLLR",
            rtl: false,
            marks: false,
            levels: &[0, 0, 0, 0, 3, 3, 3, 3, 3, 3, 3, 3, 0, 0, 1],
            reset: &[0, 0, 0, 0, 3, 3, 3, 3, 3, 3, 3, 3, 0, 0, 1],
            depth: 4,
            map: &[0, 1, 2, 3, 11, 10, 9, 8, 7, 6, 5, 4, 12, 13, 14],
        },
        Line {
            kinds: "OAOAAOEOAEL",
            rtl: true,
            marks: false,
            levels: &[2, 2, 2, 2, 4, 4, 4, 4, 4, 4, 4],
            reset: &[2, 2, 2, 2, 4, 4, 4, 4, 4, 4, 4],
            depth: 5,
            map: &[0, 1, 2, 3, 4, 5, 6, 7, 8, 9, 10],
        },
        Line {
            kinds: "EREL",
            rtl: true,
            marks: false,
            levels: &[4, 4, 4, 4],
            reset: &[4, 4, 4, 4],
            depth: 5,
            map: &[0, 1, 2, 3],
        },
        Line {
            kinds: "OALLOROOALO",
            rtl: false,
            marks: false,
            levels: &[3, 3, 2, 2, 2, 2, 2, 2, 2, 4, 4],
            reset: &[3, 3, 2, 2, 2, 2, 2, 2, 2, 4, 4],
            depth: 5,
            map: &[1, 0, 2, 3, 4, 5, 6, 7, 8, 9, 10],
        },
        Line {
            kinds: "LRORAAEEORROAOAO",
            rtl: true,
            marks: false,
            levels: &[4, 4, 4, 4, 4, 4, 3, 4, 4, 4, 1, 1, 1, 1, 1, 1],
            reset: &[4, 4, 4, 4, 4, 4, 3, 4, 4, 4, 1, 1, 1, 1, 1, 1],
            depth: 5,
            map: &[15, 14, 13, 12, 11, 10, 7, 8, 9, 6, 0, 1, 2, 3, 4, 5],
        },
        Line {
            kinds: "LOALEER",
            rtl: true,
            marks: false,
            levels: &[0, 0, 0, 0, 0, 0, 0],
            reset: &[0, 0, 0, 0, 0, 0, 0],
            depth: 1,
            map: &[0, 1, 2, 3, 4, 5, 6],
        },
        Line {
            kinds: "AEOOOROOAOAELA",
            rtl: true,
            marks: false,
            levels: &[2, 2, 2, 2, 0, 0, 0, 0, 0, 0, 3, 3, 0, 0],
            reset: &[2, 2, 2, 2, 0, 0, 0, 0, 0, 0, 3, 3, 0, 0],
            depth: 4,
            map: &[0, 1, 2, 3, 4, 5, 6, 7, 8, 9, 11, 10, 12, 13],
        },
        Line {
            kinds: "LERREOLOALA",
            rtl: false,
            marks: false,
            levels: &[4, 3, 3, 3, 0, 0, 0, 4, 1, 1, 1],
            reset: &[4, 3, 3, 3, 0, 0, 0, 4, 1, 1, 1],
            depth: 5,
            map: &[3, 2, 1, 0, 4, 5, 6, 10, 9, 8, 7],
        },
        Line {
            kinds: "A",
            rtl: false,
            marks: false,
            levels: &[4],
            reset: &[4],
            depth: 5,
            map: &[0],
        },
        Line {
            kinds: "EELAALAR",
            rtl: true,
            marks: false,
            levels: &[2, 2, 2, 4, 4, 4, 4, 4],
            reset: &[2, 2, 2, 4, 4, 4, 4, 4],
            depth: 5,
            map: &[0, 1, 2, 3, 4, 5, 6, 7],
        },
        Line {
            kinds: "LOREA",
            rtl: true,
            marks: false,
            levels: &[2, 3, 3, 0, 4],
            reset: &[2, 3, 3, 0, 4],
            depth: 5,
            map: &[0, 2, 1, 3, 4],
        },
        Line {
            kinds: "",
            rtl: false,
            marks: false,
            levels: &[],
            reset: &[],
            depth: 1,
            map: &[],
        },
        Line {
            kinds: "ORAORE",
            rtl: true,
            marks: false,
            levels: &[0, 0, 0, 0, 3, 3],
            reset: &[0, 0, 0, 0, 3, 3],
            depth: 4,
            map: &[0, 1, 2, 3, 5, 4],
        },
        Line {
            kinds: "LLLRL",
            rtl: true,
            marks: false,
            levels: &[2, 2, 2, 2, 2],
            reset: &[2, 2, 2, 2, 2],
            depth: 3,
            map: &[0, 1, 2, 3, 4],
        },
        Line {
            kinds: "AOL",
            rtl: true,
            marks: false,
            levels: &[1, 1, 1],
            reset: &[1, 1, 1],
            depth: 2,
            map: &[2, 1, 0],
        },
        Line {
            kinds: "AEELE",
            rtl: false,
            marks: false,
            levels: &[1, 3, 2, 2, 0],
            reset: &[1, 3, 2, 2, 0],
            depth: 4,
            map: &[1, 2, 3, 0, 4],
        },
        Line {
            kinds: "RLLOORORLELEERA",
            rtl: false,
            marks: false,
            levels: &[3, 3, 3, 0, 4, 2, 2, 2, 2, 4, 3, 3, 3, 3, 3],
            reset: &[3, 3, 3, 0, 4, 2, 2, 2, 2, 4, 3, 3, 3, 3, 3],
            depth: 5,
            map: &[2, 1, 0, 3, 4, 5, 6, 7, 8, 14, 13, 12, 11, 10, 9],
        },
        Line {
            kinds: "OOOLRRLAROOLL",
            rtl: true,
            marks: false,
            levels: &[4, 4, 4, 4, 4, 4, 2, 2, 0, 0, 3, 3, 3],
            reset: &[4, 4, 4, 4, 4, 4, 2, 2, 0, 0, 3, 3, 3],
            depth: 5,
            map: &[0, 1, 2, 3, 4, 5, 6, 7, 8, 9, 12, 11, 10],
        },
        Line {
            kinds: "RAROLOOOO",
            rtl: true,
            marks: false,
            levels: &[2, 2, 2, 2, 2, 4, 4, 4, 4],
            reset: &[2, 2, 2, 2, 2, 4, 4, 4, 4],
            depth: 5,
            map: &[0, 1, 2, 3, 4, 5, 6, 7, 8],
        },
        Line {
            kinds: "ROELLEOEEELEE",
            rtl: false,
            marks: false,
            levels: &[1, 1, 1, 4, 4, 4, 3, 3, 3, 4, 4, 4, 4],
            reset: &[1, 1, 1, 4, 4, 4, 3, 3, 3, 4, 4, 4, 4],
            depth: 5,
            map: &[9, 10, 11, 12, 8, 7, 6, 3, 4, 5, 2, 1, 0],
        },
        Line {
            kinds: "LOOLOOE",
            rtl: true,
            marks: false,
            levels: &[4, 0, 0, 0, 0, 0, 0],
            reset: &[4, 0, 0, 0, 0, 0, 0],
            depth: 5,
            map: &[0, 1, 2, 3, 4, 5, 6],
        },
        Line {
            kinds: "OAEOAALOAOO",
            rtl: false,
            marks: false,
            levels: &[0, 0, 3, 2, 1, 1, 1, 1, 1, 1, 1],
            reset: &[0, 0, 3, 2, 1, 1, 1, 1, 1, 1, 1],
            depth: 4,
            map: &[0, 1, 10, 9, 8, 7, 6, 5, 4, 2, 3],
        },
        Line {
            kinds: "OROOO",
            rtl: false,
            marks: false,
            levels: &[4, 4, 4, 4, 4],
            reset: &[4, 4, 4, 4, 4],
            depth: 5,
            map: &[0, 1, 2, 3, 4],
        },
        Line {
            kinds: "RAAR",
            rtl: false,
            marks: false,
            levels: &[1, 1, 1, 1],
            reset: &[1, 1, 1, 1],
            depth: 2,
            map: &[3, 2, 1, 0],
        },
        Line {
            kinds: "ROLLAO",
            rtl: false,
            marks: false,
            levels: &[3, 3, 4, 3, 0, 4],
            reset: &[3, 3, 4, 3, 0, 4],
            depth: 5,
            map: &[3, 2, 1, 0, 4, 5],
        },
        Line {
            kinds: "LEELOLAARRLLOEA",
            rtl: false,
            marks: false,
            levels: &[3, 3, 0, 0, 0, 0, 0, 0, 0, 0, 3, 3, 3, 1, 3],
            reset: &[3, 3, 0, 0, 0, 0, 0, 0, 0, 0, 3, 3, 3, 1, 3],
            depth: 4,
            map: &[1, 0, 2, 3, 4, 5, 6, 7, 8, 9, 14, 13, 12, 11, 10],
        },
        Line {
            kinds: "LALARRRRAO",
            rtl: false,
            marks: false,
            levels: &[4, 4, 4, 4, 2, 2, 3, 2, 2, 4],
            reset: &[4, 4, 4, 4, 2, 2, 3, 2, 2, 4],
            depth: 5,
            map: &[0, 1, 2, 3, 4, 5, 6, 7, 8, 9],
        },
        Line {
            kinds: "LEORELE",
            rtl: true,
            marks: false,
            levels: &[2, 4, 4, 1, 1, 1, 3],
            reset: &[2, 4, 4, 1, 1, 1, 3],
            depth: 5,
            map: &[6, 5, 4, 3, 0, 1, 2],
        },
        Line {
            kinds: "ERLEOLEOARLO",
            rtl: false,
            marks: false,
            levels: &[3, 3, 3, 3, 3, 3, 3, 3, 3, 3, 3, 3],
            reset: &[3, 3, 3, 3, 3, 3, 3, 3, 3, 3, 3, 3],
            depth: 4,
            map: &[11, 10, 9, 8, 7, 6, 5, 4, 3, 2, 1, 0],
        },
        Line {
            kinds: "AAAROOAERAOERE",
            rtl: false,
            marks: false,
            levels: &[4, 4, 4, 4, 2, 2, 1, 1, 1, 1, 1, 1, 2, 3],
            reset: &[4, 4, 4, 4, 2, 2, 1, 1, 1, 1, 1, 1, 2, 3],
            depth: 5,
            map: &[12, 13, 11, 10, 9, 8, 7, 6, 0, 1, 2, 3, 4, 5],
        },
        Line {
            kinds: "OERAEAROOOLAE",
            rtl: false,
            marks: false,
            levels: &[0, 0, 0, 0, 0, 0, 0, 0, 3, 3, 3, 3, 3],
            reset: &[0, 0, 0, 0, 0, 0, 0, 0, 3, 3, 3, 3, 3],
            depth: 4,
            map: &[0, 1, 2, 3, 4, 5, 6, 7, 12, 11, 10, 9, 8],
        },
        Line {
            kinds: "OLRRLEORLOALOLRA",
            rtl: true,
            marks: false,
            levels: &[2, 2, 2, 2, 2, 2, 2, 2, 2, 0, 0, 0, 0, 3, 2, 2],
            reset: &[2, 2, 2, 2, 2, 2, 2, 2, 2, 0, 0, 0, 0, 3, 2, 2],
            depth: 4,
            map: &[0, 1, 2, 3, 4, 5, 6, 7, 8, 9, 10, 11, 12, 13, 14, 15],
        },
        Line {
            kinds: "LELRLALRLOOAAEOO",
            rtl: true,
            marks: false,
            levels: &[3, 1, 2, 0, 4, 4, 4, 4, 4, 4, 4, 4, 2, 2, 2, 2],
            reset: &[3, 1, 2, 0, 4, 4, 4, 4, 4, 4, 4, 4, 2, 2, 2, 2],
            depth: 5,
            map: &[2, 1, 0, 3, 4, 5, 6, 7, 8, 9, 10, 11, 12, 13, 14, 15],
        },
        Line {
            kinds: "LLRAORRRL",
            rtl: false,
            marks: false,
            levels: &[1, 1, 1, 3, 1, 1, 1, 1, 1],
            reset: &[1, 1, 1, 3, 1, 1, 1, 1, 1],
            depth: 4,
            map: &[8, 7, 6, 5, 4, 3, 2, 1, 0],
        },
        Line {
            kinds: "RRLARRRALERORAEE",
            rtl: false,
            marks: false,
            levels: &[0, 0, 0, 0, 0, 3, 3, 3, 2, 2, 2, 2, 2, 2, 4, 4],
            reset: &[0, 0, 0, 0, 0, 3, 3, 3, 2, 2, 2, 2, 2, 2, 4, 4],
            depth: 5,
            map: &[0, 1, 2, 3, 4, 7, 6, 5, 8, 9, 10, 11, 12, 13, 14, 15],
        },
    ]);
}

// White space and marks at the end of the line.
#[test]
fn lines_with_trailing_space() {
    check(&[
        Line {
            kinds: "LELLRWELWBELWLp",
            rtl: true,
            marks: true,
            levels: &[3, 3, 3, 0, 1, 1, 2, 2, 2, 2, 2, 2, 1, 1, 2],
            reset: &[3, 3, 3, 0, 1, 1, 2, 2, 2, 2, 2, 2, 1, 1, 1],
            depth: 4,
            map: &[2, 1, 0, 3, 14, 13, 12, 6, 7, 8, 9, 10, 11, 5, 4],
        },
        Line {
            kinds: "LRLRWRBOppr",
            rtl: false,
            marks: true,
            levels: &[3, 3, 3, 2, 2, 1, 1, 1, 1, 2, 2],
            reset: &[3, 3, 3, 2, 2, 1, 1, 1, 0, 0, 0],
            depth: 4,
            map: &[7, 6, 5, 2, 1, 0, 3, 4, 8, 9, 10],
        },
        Line {
            kinds: "OWERrWEOrL",
            rtl: true,
            marks: true,
            levels: &[3, 3, 3, 3, 0, 2, 2, 2, 2, 2],
            reset: &[3, 3, 3, 3, 0, 2, 2, 2, 2, 2],
            depth: 4,
            map: &[3, 2, 1, 0, 4, 5, 6, 7, 8, 9],
        },
        Line {
            kinds: "RrW",
            rtl: false,
            marks: true,
            levels: &[0, 0, 3],
            reset: &[0, 0, 0],
            depth: 1,
            map: &[0, 1, 2],
        },
        Line {
            kinds: "prOr",
            rtl: true,
            marks: true,
            levels: &[0, 0, 0, 2],
            reset: &[0, 0, 0, 1],
            depth: 2,
            map: &[0, 1, 2, 3],
        },
        Line {
            kinds: "pLEBWREW",
            rtl: false,
            marks: true,
            levels: &[3, 3, 3, 2, 3, 3, 3, 3],
            reset: &[3, 3, 3, 2, 3, 3, 3, 0],
            depth: 4,
            map: &[2, 1, 0, 3, 6, 5, 4, 7],
        },
        Line {
            kinds: "pEOLWppWBOW",
            rtl: false,
            marks: true,
            levels: &[3, 3, 0, 2, 2, 2, 2, 2, 3, 3, 3],
            reset: &[3, 3, 0, 2, 2, 2, 2, 2, 3, 3, 0],
            depth: 4,
            map: &[1, 0, 2, 3, 4, 5, 6, 7, 9, 8, 10],
        },
        Line {
            kinds: "LrppEWL",
            rtl: false,
            marks: true,
            levels: &[1, 2, 0, 1, 1, 1, 1],
            reset: &[1, 2, 0, 1, 1, 1, 1],
            depth: 3,
            map: &[1, 0, 2, 6, 5, 4, 3],
        },
        Line {
            kinds: "",
            rtl: true,
            marks: true,
            levels: &[],
            reset: &[],
            depth: 1,
            map: &[],
        },
        Line {
            kinds: "RBOrR",
            rtl: true,
            marks: true,
            levels: &[2, 2, 2, 2, 2],
            reset: &[2, 2, 2, 2, 2],
            depth: 3,
            map: &[0, 1, 2, 3, 4],
        },
        Line {
            kinds: "ROOr",
            rtl: true,
            marks: true,
            levels: &[0, 0, 0, 0],
            reset: &[0, 0, 0, 1],
            depth: 2,
            map: &[0, 1, 2, 3],
        },
        Line {
            kinds: "BEOrW",
            rtl: true,
            marks: true,
            levels: &[0, 3, 3, 1, 1],
            reset: &[0, 3, 3, 1, 1],
            depth: 4,
            map: &[0, 4, 3, 2, 1],
        },
        Line {
            kinds: "OWppp",
            rtl: true,
            marks: true,
            levels: &[3, 0, 0, 0, 0],
            reset: &[3, 1, 1, 1, 1],
            depth: 4,
            map: &[4, 3, 2, 1, 0],
        },
        Line {
            kinds: "LWErrR",
            rtl: false,
            marks: true,
            levels: &[0, 0, 0, 0, 1, 0],
            reset: &[0, 0, 0, 0, 1, 0],
            depth: 2,
            map: &[0, 1, 2, 3, 4, 5],
        },
        Line {
            kinds: "W",
            rtl: true,
            marks: true,
            levels: &[1],
            reset: &[1],
            depth: 2,
            map: &[0],
        },
        Line {
            kinds: "WEWpRrWE",
            rtl: true,
            marks: true,
            levels: &[2, 2, 2, 3, 3, 3, 3, 3],
            reset: &[2, 2, 2, 3, 3, 3, 3, 3],
            depth: 4,
            map: &[0, 1, 2, 7, 6, 5, 4, 3],
        },
        Line {
            kinds: "rBLrRpRLrL",
            rtl: false,
            marks: true,
            levels: &[0, 0, 0, 0, 0, 0, 3, 3, 3, 3],
            reset: &[0, 0, 0, 0, 0, 0, 3, 3, 3, 3],
            depth: 4,
            map: &[0, 1, 2, 3, 4, 5, 9, 8, 7, 6],
        },
        Line {
            kinds: "R",
            rtl: true,
            marks: true,
            levels: &[3],
            reset: &[3],
            depth: 4,
            map: &[0],
        },
        Line {
            kinds: "RWW",
            rtl: true,
            marks: true,
            levels: &[0, 0, 0],
            reset: &[0, 1, 1],
            depth: 2,
            map: &[0, 2, 1],
        },
        Line {
            kinds: "pOWBWr",
            rtl: false,
            marks: true,
            levels: &[0, 0, 0, 0, 0, 0],
            reset: &[0, 0, 0, 0, 0, 0],
            depth: 1,
            map: &[0, 1, 2, 3, 4, 5],
        },
        Line {
            kinds: "WEpOELBLBWR",
            rtl: true,
            marks: true,
            levels: &[3, 3, 2, 2, 2, 2, 2, 2, 2, 2, 3],
            reset: &[3, 3, 2, 2, 2, 2, 2, 2, 2, 2, 3],
            depth: 4,
            map: &[1, 0, 2, 3, 4, 5, 6, 7, 8, 9, 10],
        },
        Line {
            kinds: "ORRWWRLprOELppB",
            rtl: true,
            marks: true,
            levels: &[1, 1, 3, 3, 3, 3, 2, 0, 0, 0, 0, 0, 0, 3, 3],
            reset: &[1, 1, 3, 3, 3, 3, 2, 0, 0, 0, 0, 0, 1, 1, 1],
            depth: 4,
            map: &[5, 4, 3, 2, 6, 1, 0, 7, 8, 9, 10, 11, 14, 13, 12],
        },
        Line {
            kinds: "pBBpW",
            rtl: false,
            marks: true,
            levels: &[1, 1, 3, 3, 2],
            reset: &[0, 0, 0, 0, 0],
            depth: 1,
            map: &[0, 1, 2, 3, 4],
        },
        Line {
            kinds: "r",
            rtl: true,
            marks: true,
            levels: &[1],
            reset: &[1],
            depth: 2,
            map: &[0],
        },
        Line {
            kinds: "EWWEpWE",
            rtl: false,
            marks: true,
            levels: &[2, 2, 2, 2, 2, 3, 3],
            reset: &[2, 2, 2, 2, 2, 3, 3],
            depth: 4,
            map: &[0, 1, 2, 3, 4, 6, 5],
        },
        Line {
            kinds: "BBWLLpErWEr",
            rtl: true,
            marks: true,
            levels: &[2, 1, 0, 2, 2, 2, 2, 2, 2, 3, 3],
            reset: &[2, 1, 0, 2, 2, 2, 2, 2, 2, 3, 1],
            depth: 4,
            map: &[1, 0, 2, 10, 3, 4, 5, 6, 7, 8, 9],
        },
        Line {
            kinds: "WRBLOOEpO",
            rtl: true,
            marks: true,
            levels: &[2, 2, 2, 2, 2, 2, 2, 2, 2],
            reset: &[2, 2, 2, 2, 2, 2, 2, 2, 2],
            depth: 3,
            map: &[0, 1, 2, 3, 4, 5, 6, 7, 8],
        },
        Line {
            kinds: "rBWLrBrpLBp",
            rtl: false,
            marks: true,
            levels: &[2, 2, 1, 1, 0, 0, 3, 3, 0, 1, 1],
            reset: &[2, 2, 1, 1, 0, 0, 3, 3, 0, 0, 0],
            depth: 4,
            map: &[3, 2, 0, 1, 4, 5, 7, 6, 8, 9, 10],
        },
        Line {
            kinds: "LEO",
            rtl: true,
            marks: true,
            levels: &[2, 0, 0],
            reset: &[2, 0, 0],
            depth: 3,
            map: &[0, 1, 2],
        },
        Line {
            kinds: "OBprOrr",
            rtl: false,
            marks: true,
            levels: &[2, 0, 0, 0, 2, 2, 2],
            reset: &[2, 0, 0, 0, 2, 0, 0],
            depth: 3,
            map: &[0, 1, 2, 3, 4, 5, 6],
        },
        Line {
            kinds: "BBWEBpWRLWWEOOr",
            rtl: true,
            marks: true,
            levels: &[1, 1, 1, 1, 1, 1, 1, 1, 1, 3, 2, 2, 2, 2, 2],
            reset: &[1, 1, 1, 1, 1, 1, 1, 1, 1, 3, 2, 2, 2, 2, 1],
            depth: 4,
            map: &[14, 9, 10, 11, 12, 13, 8, 7, 6, 5, 4, 3, 2, 1, 0],
        },
        Line {
            kinds: "rOpBLEORE",
            rtl: true,
            marks: true,
            levels: &[1, 1, 1, 2, 1, 3, 3, 3, 3],
            reset: &[1, 1, 1, 2, 1, 3, 3, 3, 3],
            depth: 4,
            map: &[8, 7, 6, 5, 4, 3, 2, 1, 0],
        },
        Line {
            kinds: "rREW",
            rtl: true,
            marks: true,
            levels: &[3, 2, 2, 2],
            reset: &[3, 2, 2, 1],
            depth: 4,
            map: &[3, 0, 1, 2],
        },
        Line {
            kinds: "pEBppOOEB",
            rtl: false,
            marks: true,
            levels: &[0, 0, 0, 0, 0, 2, 2, 2, 3],
            reset: &[0, 0, 0, 0, 0, 2, 2, 2, 0],
            depth: 3,
            map: &[0, 1, 2, 3, 4, 5, 6, 7, 8],
        },
        Line {
            kinds: "OpLWLE",
            rtl: false,
            marks: true,
            levels: &[1, 1, 1, 0, 2, 2],
            reset: &[1, 1, 1, 0, 2, 2],
            depth: 3,
            map: &[2, 1, 0, 3, 4, 5],
        },
        Line {
            kinds: "BpR",
            rtl: false,
            marks: true,
            levels: &[1, 0, 0],
            reset: &[1, 0, 0],
            depth: 2,
            map: &[0, 1, 2],
        },
        Line {
            kinds: "",
            rtl: true,
            marks: true,
            levels: &[],
            reset: &[],
            depth: 1,
            map: &[],
        },
        Line {
            kinds: "pWEBL",
            rtl: false,
            marks: true,
            levels: &[2, 2, 1, 1, 1],
            reset: &[2, 2, 1, 1, 1],
            depth: 3,
            map: &[4, 3, 2, 0, 1],
        },
        Line {
            kinds: "pEOLRpOrOpLOrr",
            rtl: false,
            marks: true,
            levels: &[3, 3, 3, 2, 1, 0, 0, 0, 0, 0, 0, 0, 0, 3],
            reset: &[3, 3, 3, 2, 1, 0, 0, 0, 0, 0, 0, 0, 0, 0],
            depth: 4,
            map: &[4, 2, 1, 0, 3, 5, 6, 7, 8, 9, 10, 11, 12, 13],
        },
        Line {
            kinds: "EpLLLBRBWEO",
            rtl: true,
            marks: true,
            levels: &[0, 0, 0, 0, 0, 0, 3, 3, 3, 3, 2],
            reset: &[0, 0, 0, 0, 0, 0, 3, 3, 3, 3, 2],
            depth: 4,
            map: &[0, 1, 2, 3, 4, 5, 9, 8, 7, 6, 10],
        },
    ]);
}

// Non-spacing marks in right-to-left runs, reordered or not.
#[test]
fn lines_with_marks() {
    check(&[
        Line {
            kinds: "MMBMM",
            rtl: true,
            marks: true,
            levels: &[1, 1, 1, 1, 1],
            reset: &[1, 1, 1, 1, 1],
            depth: 2,
            map: &[0, 1, 2, 3, 4],
        },
        Line {
            kinds: "WA",
            rtl: false,
            marks: true,
            levels: &[0, 1],
            reset: &[0, 1],
            depth: 2,
            map: &[0, 1],
        },
        Line {
            kinds: "MRMAMRM",
            rtl: true,
            marks: true,
            levels: &[0, 2, 0, 0, 0, 3, 3],
            reset: &[0, 2, 0, 0, 0, 3, 3],
            depth: 4,
            map: &[0, 1, 2, 3, 4, 5, 6],
        },
        Line {
            kinds: "MRBLWLWWBAARRL",
            rtl: true,
            marks: true,
            levels: &[0, 0, 0, 0, 3, 3, 3, 2, 0, 2, 2, 2, 2, 2],
            reset: &[0, 0, 0, 0, 3, 3, 3, 2, 0, 2, 2, 2, 2, 2],
            depth: 4,
            map: &[0, 1, 2, 3, 6, 5, 4, 7, 8, 9, 10, 11, 12, 13],
        },
        Line {
            kinds: "LM",
            rtl: true,
            marks: false,
            levels: &[1, 1],
            reset: &[1, 1],
            depth: 2,
            map: &[1, 0],
        },
        Line {
            kinds: "B",
            rtl: true,
            marks: true,
            levels: &[3],
            reset: &[1],
            depth: 2,
            map: &[0],
        },
        Line {
            kinds: "BMLWRWAL",
            rtl: false,
            marks: true,
            levels: &[2, 2, 3, 3, 3, 3, 0, 0],
            reset: &[2, 2, 3, 3, 3, 3, 0, 0],
            depth: 4,
            map: &[0, 1, 5, 4, 3, 2, 6, 7],
        },
        Line {
            kinds: "BMBRLBR",
            rtl: false,
            marks: true,
            levels: &[2, 3, 0, 0, 0, 0, 0],
            reset: &[2, 3, 0, 0, 0, 0, 0],
            depth: 4,
            map: &[0, 1, 2, 3, 4, 5, 6],
        },
        Line {
            kinds: "MWRBRMLMMBWBAMMB",
            rtl: true,
            marks: true,
            levels: &[3, 3, 2, 2, 2, 2, 1, 1, 1, 1, 3, 2, 2, 2, 2, 2],
            reset: &[3, 3, 2, 2, 2, 2, 1, 1, 1, 1, 3, 2, 2, 2, 2, 1],
            depth: 4,
            map: &[15, 10, 11, 12, 13, 14, 9, 6, 7, 8, 1, 0, 2, 3, 4, 5],
        },
        Line {
            kinds: "BMLAMBMMBBRLBMWA",
            rtl: false,
            marks: true,
            levels: &[0, 0, 0, 0, 0, 0, 0, 0, 0, 0, 0, 0, 0, 0, 3, 3],
            reset: &[0, 0, 0, 0, 0, 0, 0, 0, 0, 0, 0, 0, 0, 0, 3, 3],
            depth: 4,
            map: &[0, 1, 2, 3, 4, 5, 6, 7, 8, 9, 10, 11, 12, 13, 15, 14],
        },
        Line {
            kinds: "WLMARAWMLWAM",
            rtl: false,
            marks: false,
            levels: &[1, 0, 2, 3, 1, 1, 1, 1, 1, 1, 2, 3],
            reset: &[1, 0, 2, 3, 1, 1, 1, 1, 1, 1, 2, 3],
            depth: 4,
            map: &[0, 1, 10, 11, 9, 8, 7, 6, 5, 4, 2, 3],
        },
        Line {
            kinds: "MM",
            rtl: true,
            marks: true,
            levels: &[0, 3],
            reset: &[0, 3],
            depth: 4,
            map: &[0, 1],
        },
        Line {
            kinds: "AMBWLMBMLBM",
            rtl: true,
            marks: true,
            levels: &[1, 1, 2, 0, 1, 1, 1, 1, 1, 1, 1],
            reset: &[1, 1, 2, 0, 1, 1, 1, 1, 1, 1, 1],
            depth: 3,
            map: &[2, 0, 1, 3, 8, 9, 10, 4, 5, 6, 7],
        },
        Line {
            kinds: "LBWLMMWABMAMAMLM",
            rtl: false,
            marks: true,
            levels: &[3, 1, 1, 1, 1, 1, 1, 1, 1, 1, 1, 1, 1, 0, 0, 0],
            reset: &[3, 1, 1, 1, 1, 1, 1, 1, 1, 1, 1, 1, 1, 0, 0, 0],
            depth: 4,
            map: &[12, 10, 11, 7, 8, 9, 6, 3, 4, 5, 2, 1, 0, 13, 14, 15],
        },
        Line {
            kinds: "ARLRMLLL",
            rtl: true,
            marks: true,
            levels: &[2, 2, 0, 0, 3, 3, 3, 3],
            reset: &[2, 2, 0, 0, 3, 3, 3, 3],
            depth: 4,
            map: &[0, 1, 2, 3, 7, 6, 5, 4],
        },
        Line {
            kinds: "BMRRRLB",
            rtl: false,
            marks: true,
            levels: &[3, 3, 3, 3, 1, 1, 1],
            reset: &[3, 3, 3, 3, 1, 1, 0],
            depth: 4,
            map: &[5, 4, 3, 2, 0, 1, 6],
        },
        Line {
            kinds: "RAMBMLWRLMMARMA",
            rtl: false,
            marks: true,
            levels: &[1, 1, 2, 2, 2, 2, 2, 2, 2, 2, 3, 3, 3, 3, 3],
            reset: &[1, 1, 2, 2, 2, 2, 2, 2, 2, 2, 3, 3, 3, 3, 3],
            depth: 4,
            map: &[2, 3, 4, 5, 6, 7, 8, 9, 14, 12, 13, 11, 10, 1, 0],
        },
        Line {
            kinds: "AMAB",
            rtl: false,
            marks: true,
            levels: &[1, 1, 2, 3],
            reset: &[1, 1, 2, 0],
            depth: 3,
            map: &[2, 0, 1, 3],
        },
        Line {
            kinds: "LMB",
            rtl: true,
            marks: true,
            levels: &[0, 0, 0],
            reset: &[0, 0, 1],
            depth: 2,
            map: &[0, 1, 2],
        },
        Line {
            kinds: "BAMRLLMMWRWBABA",
            rtl: true,
            marks: true,
            levels: &[0, 0, 0, 1, 1, 3, 3, 3, 3, 3, 2, 2, 3, 3, 3],
            reset: &[0, 0, 0, 1, 1, 3, 3, 3, 3, 3, 2, 2, 3, 3, 3],
            depth: 4,
            map: &[0, 1, 2, 9, 8, 5, 6, 7, 10, 11, 14, 13, 12, 4, 3],
        },
        Line {
            kinds: "BAAAWMLBAWLRLAW",
            rtl: false,
            marks: true,
            levels: &[3, 2, 2, 0, 0, 0, 0, 0, 0, 0, 1, 1, 1, 1, 3],
            reset: &[3, 2, 2, 0, 0, 0, 0, 0, 0, 0, 1, 1, 1, 1, 0],
            depth: 4,
            map: &[0, 1, 2, 3, 4, 5, 6, 7, 8, 9, 13, 12, 11, 10, 14],
        },
        Line {
            kinds: "LMWWRALMRM",
            rtl: true,
            marks: true,
            levels: &[2, 0, 0, 3, 0, 0, 3, 2, 2, 2],
            reset: &[2, 0, 0, 3, 0, 0, 3, 2, 2, 2],
            depth: 4,
            map: &[0, 1, 2, 3, 4, 5, 6, 7, 8, 9],
        },
        Line {
            kinds: "ARMAWLARMAAMRABR",
            rtl: false,
            marks: false,
            levels: &[0, 3, 3, 3, 3, 3, 2, 2, 2, 0, 0, 0, 3, 3, 3, 3],
            reset: &[0, 3, 3, 3, 3, 3, 2, 2, 2, 0, 0, 0, 3, 3, 3, 3],
            depth: 4,
            map: &[0, 5, 4, 3, 2, 1, 6, 7, 8, 9, 10, 11, 15, 14, 13, 12],
        },
        Line {
            kinds: "WMMWBLLWBWWRBWR",
            rtl: true,
            marks: false,
            levels: &[1, 1, 1, 1, 1, 1, 1, 1, 1, 1, 0, 0, 0, 0, 0],
            reset: &[1, 1, 1, 1, 1, 1, 1, 1, 1, 1, 0, 0, 0, 0, 0],
            depth: 2,
            map: &[9, 8, 7, 6, 5, 4, 3, 2, 1, 0, 10, 11, 12, 13, 14],
        },
        Line {
            kinds: "BM",
            rtl: false,
            marks: true,
            levels: &[2, 2],
            reset: &[2, 2],
            depth: 3,
            map: &[0, 1],
        },
        Line {
            kinds: "RWAMA",
            rtl: true,
            marks: true,
            levels: &[2, 3, 3, 3, 3],
            reset: &[2, 3, 3, 3, 3],
            depth: 4,
            map: &[0, 4, 2, 3, 1],
        },
        Line {
            kinds: "MALARMMBBBBMLL",
            rtl: true,
            marks: true,
            levels: &[1, 1, 1, 2, 2, 2, 2, 2, 2, 2, 2, 1, 2, 2],
            reset: &[1, 1, 1, 2, 2, 2, 2, 2, 2, 2, 2, 1, 2, 2],
            depth: 3,
            map: &[12, 13, 11, 3, 4, 5, 6, 7, 8, 9, 10, 2, 1, 0],
        },
        Line {
            kinds: "MWLRMMLBBM",
            rtl: true,
            marks: true,
            levels: &[2, 2, 2, 2, 2, 0, 2, 2, 2, 2],
            reset: &[2, 2, 2, 2, 2, 0, 2, 2, 2, 2],
            depth: 3,
            map: &[0, 1, 2, 3, 4, 5, 6, 7, 8, 9],
        },
        Line {
            kinds: "B",
            rtl: true,
            marks: true,
            levels: &[2],
            reset: &[1],
            depth: 2,
            map: &[0],
        },
        Line {
            kinds: "LLMMBA",
            rtl: true,
            marks: true,
            levels: &[3, 3, 3, 3, 3, 3],
            reset: &[3, 3, 3, 3, 3, 3],
            depth: 4,
            map: &[5, 4, 1, 2, 3, 0],
        },
        Line {
            kinds: "LRAMWBMRMAMBA",
            rtl: true,
            marks: true,
            levels: &[0, 0, 1, 3, 3, 3, 3, 3, 0, 3, 3, 3, 3],
            reset: &[0, 0, 1, 3, 3, 3, 3, 3, 0, 3, 3, 3, 3],
            depth: 4,
            map: &[0, 1, 7, 4, 5, 6, 3, 2, 8, 12, 11, 9, 10],
        },
        Line {
            kinds: "LWBWRMRM",
            rtl: true,
            marks: true,
            levels: &[2, 2, 2, 2, 2, 3, 3, 3],
            reset: &[2, 2, 2, 2, 2, 3, 3, 3],
            depth: 4,
            map: &[0, 1, 2, 3, 4, 6, 7, 5],
        },
        Line {
            kinds: "MMLRLWRMA",
            rtl: false,
            marks: true,
            levels: &[3, 3, 3, 3, 3, 3, 3, 3, 1],
            reset: &[3, 3, 3, 3, 3, 3, 3, 3, 1],
            depth: 4,
            map: &[8, 6, 7, 5, 4, 3, 2, 0, 1],
        },
        Line {
            kinds: "WB",
            rtl: false,
            marks: true,
            levels: &[2, 1],
            reset: &[0, 0],
            depth: 1,
            map: &[0, 1],
        },
        Line {
            kinds: "ABRMWALMRRMMWLWL",
            rtl: false,
            marks: true,
            levels: &[3, 3, 3, 1, 3, 3, 3, 3, 3, 3, 3, 3, 3, 3, 2, 3],
            reset: &[3, 3, 3, 1, 3, 3, 3, 3, 3, 3, 3, 3, 3, 3, 2, 3],
            depth: 4,
            map: &[13, 12, 9, 10, 11, 8, 6, 7, 5, 4, 14, 15, 3, 2, 1, 0],
        },
        Line {
            kinds: "MRAMABRMRWAMWR",
            rtl: false,
            marks: false,
            levels: &[3, 3, 3, 1, 1, 1, 1, 0, 0, 0, 0, 0, 0, 2],
            reset: &[3, 3, 3, 1, 1, 1, 1, 0, 0, 0, 0, 0, 0, 2],
            depth: 4,
            map: &[6, 5, 4, 3, 2, 1, 0, 7, 8, 9, 10, 11, 12, 13],
        },
        Line {
            kinds: "WAM",
            rtl: false,
            marks: true,
            levels: &[2, 1, 2],
            reset: &[2, 1, 2],
            depth: 3,
            map: &[2, 1, 0],
        },
        Line {
            kinds: "AWLRMLRLBMRRM",
            rtl: false,
            marks: true,
            levels: &[3, 3, 3, 3, 3, 3, 1, 1, 1, 1, 1, 2, 2],
            reset: &[3, 3, 3, 3, 3, 3, 1, 1, 1, 1, 1, 2, 2],
            depth: 4,
            map: &[11, 12, 10, 7, 8, 9, 6, 5, 3, 4, 2, 1, 0],
        },
        Line {
            kinds: "",
            rtl: false,
            marks: false,
            levels: &[],
            reset: &[],
            depth: 1,
            map: &[],
        },
        Line {
            kinds: "MMWLMRBAA",
            rtl: false,
            marks: true,
            levels: &[3, 3, 3, 3, 3, 1, 1, 1, 1],
            reset: &[3, 3, 3, 3, 3, 1, 1, 1, 1],
            depth: 4,
            map: &[8, 7, 6, 5, 3, 4, 2, 0, 1],
        },
        Line {
            kinds: "",
            rtl: false,
            marks: true,
            levels: &[],
            reset: &[],
            depth: 1,
            map: &[],
        },
        Line {
            kinds: "WRAAWLMWLMLBB",
            rtl: false,
            marks: true,
            levels: &[0, 0, 3, 2, 0, 0, 0, 0, 0, 0, 0, 0, 1],
            reset: &[0, 0, 3, 2, 0, 0, 0, 0, 0, 0, 0, 0, 0],
            depth: 4,
            map: &[0, 1, 2, 3, 4, 5, 6, 7, 8, 9, 10, 11, 12],
        },
        Line {
            kinds: "MWRR",
            rtl: false,
            marks: true,
            levels: &[1, 1, 1, 1],
            reset: &[1, 1, 1, 1],
            depth: 2,
            map: &[3, 2, 1, 0],
        },
        Line {
            kinds: "WMRWMBABMMMLRW",
            rtl: false,
            marks: false,
            levels: &[2, 2, 2, 2, 2, 2, 2, 2, 2, 2, 2, 1, 2, 2],
            reset: &[2, 2, 2, 2, 2, 2, 2, 2, 2, 2, 2, 1, 2, 0],
            depth: 3,
            map: &[12, 11, 0, 1, 2, 3, 4, 5, 6, 7, 8, 9, 10, 13],
        },
        Line {
            kinds: "RLLBWA",
            rtl: false,
            marks: true,
            levels: &[1, 1, 1, 1, 1, 1],
            reset: &[1, 1, 1, 1, 1, 1],
            depth: 2,
            map: &[5, 4, 3, 2, 1, 0],
        },
        Line {
            kinds: "A",
            rtl: false,
            marks: true,
            levels: &[1],
            reset: &[1],
            depth: 2,
            map: &[0],
        },
        Line {
            kinds: "MMRBRBAWMLLMRWB",
            rtl: false,
            marks: true,
            levels: &[2, 2, 2, 2, 2, 2, 2, 2, 2, 1, 1, 1, 1, 1, 1],
            reset: &[2, 2, 2, 2, 2, 2, 2, 2, 2, 1, 1, 1, 1, 0, 0],
            depth: 3,
            map: &[12, 10, 11, 9, 0, 1, 2, 3, 4, 5, 6, 7, 8, 13, 14],
        },
        Line {
            kinds: "MMARMRRMLBWMMBRM",
            rtl: true,
            marks: true,
            levels: &[2, 3, 3, 3, 3, 3, 3, 0, 0, 0, 0, 2, 1, 2, 3, 3],
            reset: &[2, 3, 3, 3, 3, 3, 3, 0, 0, 0, 0, 2, 1, 2, 3, 3],
            depth: 4,
            map: &[0, 6, 5, 3, 4, 2, 1, 7, 8, 9, 10, 13, 14, 15, 12, 11],
        },
        Line {
            kinds: "MWLMMRMM",
            rtl: false,
            marks: true,
            levels: &[2, 0, 0, 0, 0, 2, 2, 2],
            reset: &[2, 0, 0, 0, 0, 2, 2, 2],
            depth: 3,
            map: &[0, 1, 2, 3, 4, 5, 6, 7],
        },
        Line {
            kinds: "RBBML",
            rtl: true,
            marks: true,
            levels: &[3, 1, 3, 3, 3],
            reset: &[3, 1, 3, 3, 3],
            depth: 4,
            map: &[4, 2, 3, 1, 0],
        },
        Line {
            kinds: "ALMARBRAWMBMB",
            rtl: false,
            marks: false,
            levels: &[0, 0, 0, 0, 2, 2, 1, 1, 1, 3, 3, 3, 3],
            reset: &[0, 0, 0, 0, 2, 2, 1, 1, 1, 3, 3, 3, 0],
            depth: 4,
            map: &[0, 1, 2, 3, 11, 10, 9, 8, 7, 6, 4, 5, 12],
        },
        Line {
            kinds: "MMMBMBAWWBA",
            rtl: false,
            marks: true,
            levels: &[1, 2, 2, 2, 2, 3, 3, 3, 1, 3, 0],
            reset: &[1, 2, 2, 2, 2, 3, 3, 3, 1, 3, 0],
            depth: 4,
            map: &[9, 8, 1, 2, 3, 4, 7, 6, 5, 0, 10],
        },
        Line {
            kinds: "BBALLRRALMMML",
            rtl: false,
            marks: true,
            levels: &[1, 1, 1, 0, 0, 0, 1, 1, 1, 1, 0, 3, 3],
            reset: &[1, 1, 1, 0, 0, 0, 1, 1, 1, 1, 0, 3, 3],
            depth: 4,
            map: &[2, 1, 0, 3, 4, 5, 8, 9, 7, 6, 10, 12, 11],
        },
        Line {
            kinds: "MRMRMLRLMLALW",
            rtl: false,
            marks: true,
            levels: &[2, 2, 2, 0, 0, 0, 0, 0, 0, 2, 1, 1, 3],
            reset: &[2, 2, 2, 0, 0, 0, 0, 0, 0, 2, 1, 1, 0],
            depth: 3,
            map: &[0, 1, 2, 3, 4, 5, 6, 7, 8, 11, 10, 9, 12],
        },
        Line {
            kinds: "BWRMBB",
            rtl: true,
            marks: true,
            levels: &[3, 3, 2, 2, 0, 0],
            reset: &[3, 3, 2, 2, 1, 1],
            depth: 4,
            map: &[5, 4, 1, 0, 2, 3],
        },
        Line {
            kinds: "MWBWMMLMBBAWRL",
            rtl: false,
            marks: true,
            levels: &[1, 2, 2, 2, 2, 2, 2, 2, 2, 2, 1, 0, 3, 3],
            reset: &[1, 2, 2, 2, 2, 2, 2, 2, 2, 2, 1, 0, 3, 3],
            depth: 4,
            map: &[10, 1, 2, 3, 4, 5, 6, 7, 8, 9, 0, 11, 13, 12],
        },
        Line {
            kinds: "WMAWMMMLMRAMWWMW",
            rtl: false,
            marks: true,
            levels: &[1, 0, 3, 3, 3, 3, 2, 3, 3, 3, 3, 2, 2, 1, 1, 1],
            reset: &[1, 0, 3, 3, 3, 3, 2, 3, 3, 3, 3, 2, 2, 1, 1, 0],
            depth: 4,
            map: &[0, 1, 13, 14, 3, 4, 5, 2, 6, 10, 9, 7, 8, 11, 12, 15],
        },
        Line {
            kinds: "MM",
            rtl: false,
            marks: true,
            levels: &[1, 1],
            reset: &[1, 1],
            depth: 2,
            map: &[0, 1],
        },
        Line {
            kinds: "",
            rtl: true,
            marks: false,
            levels: &[],
            reset: &[],
            depth: 1,
            map: &[],
        },
        Line {
            kinds: "MAB",
            rtl: false,
            marks: true,
            levels: &[2, 2, 2],
            reset: &[2, 2, 0],
            depth: 3,
            map: &[0, 1, 2],
        },
    ]);
}
