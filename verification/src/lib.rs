//! The Unicode Bidirectional Algorithm: the embedding levels of a paragraph, its
//! direction, the order of its characters on the screen, and the removal of the marks
//! that only steer the algorithm.
//!
//! A text is a paragraph in logical order, the order in which it is read and typed. Its
//! characters are classified (`CharType`) and its brackets looked up (`BracketType`);
//! from these the levels of the paragraph are resolved (`LevelType`), and the levels
//! give the order of each of its lines on the screen.
//!
//! ```rust,no_run
//! use fribidi::bracket::BracketType;
//! use fribidi::char::CharType;
//! use fribidi::flag::FriBidiFlag;
//! use fribidi::paragraph::ParagraphType;
//! use fribidi::Fribidi;
//! use widestring::U32String;
//!
//! let mut text = U32String::from("abc \u{5D0}\u{5D1}\u{5D2}");
//! let types = CharType::into_chartypes(text.as_vec());
//! let brackets = BracketType::parse(&text, &types).unwrap();
//! let (mut levels, _, direction) = Fribidi::get_paragraph_embedding_levels_ex(
//!     &types,
//!     Some(&brackets),
//!     ParagraphType::OtherNeutral, // let the paragraph decide
//! )
//! .unwrap();
//! let (_, map) =
//!     Fribidi::reorder_line(FriBidiFlag::Default, &types, direction, Some(&mut levels), &mut text)
//!         .unwrap();
//!
//! assert_eq!(text, U32String::from("abc \u{5D2}\u{5D1}\u{5D0}"));
//! assert_eq!(map, vec![0, 1, 2, 3, 6, 5, 4]);
//! ```
//!
//! Or in one step, for a paragraph of one line:
//!
//! ```rust,no_run
//! use fribidi::paragraph::ParagraphType;
//! use fribidi::Fribidi;
//! use widestring::U32String;
//!
//! let text = U32String::from("abc \u{5D0}\u{5D1}\u{5D2}");
//! let mut to_screen = vec![0; text.len()];
//! let (line, depth) =
//!     Fribidi::logic_to_visual(&text, ParagraphType::OtherNeutral, Some(&mut to_screen), None, None)
//!         .unwrap();
//!
//! assert_eq!((line, depth), (U32String::from("abc \u{5D2}\u{5D1}\u{5D0}"), 2));
//! assert_eq!(to_screen, vec![0, 1, 2, 3, 6, 5, 4]);
//! ```

use vstd::prelude::*;
use widestring::U32Str;
use widestring::U32String;
use crate::bracket::BracketType;
use crate::char::CharType;
use crate::char::classes_of;
use crate::error::Error;
use crate::flag::FriBidiFlag;
use crate::level::LevelType;
use crate::marks::Stripped;
use crate::marks::given_list;
use crate::marks::strip;
use crate::marks::strip_error;
use crate::marks::strip_marks;
use crate::paragraph::ParagraphType;
use crate::reorder::arranges;
use crate::reorder::highest_level;
use crate::reorder::hits;
use crate::reorder::identity;
use crate::reorder::line_levels;
use crate::reorder::reorder;
use crate::reorder::stays_in_order;
use crate::reorder::visual;
use crate::reorder::visual_order;
use crate::resolve::base_level_of;
use crate::resolve::brackets_given;
use crate::resolve::lemma_left_to_right_levels;
use crate::resolve::is_left_to_right;
use crate::resolve::paragraph_depth;
use crate::resolve::paragraph_levels;
use crate::resolve::resolve_levels;
use crate::resolve::resolved_direction;
use crate::text::code_points;
use crate::text::from_code_points;
use crate::text::set_code_points;
use crate::text::set_slice_code_points;
use crate::text::slice_code_points;
use crate::text::slice_of;
use crate::text::text_of;
use crate::unicode::bidi_class;
use crate::visual::as_level_types;
use crate::visual::line_of;
use crate::visual::to_level_types;
use crate::visual::visual_line;

pub mod bracket;
pub mod char;
pub mod error;
pub mod explicit;
pub mod flag;
pub mod implicit;
pub mod level;
pub mod marks;
pub mod neutral;
pub mod pairs;
pub mod paragraph;
pub mod reorder;
pub mod resolve;
pub mod runs;
pub mod text;
pub mod unicode;
pub mod visual;
pub mod weak;

verus! {

/// The functions of the algorithm that work on a whole paragraph or line.
pub struct Fribidi;

/// The levels that a caller gives to `reorder_line`; none are as good as an empty list.
pub open spec fn levels_given(levels: Option<&mut Vec<LevelType>>) -> Seq<LevelType> {
    match levels {
        Some(v) => v@,
        None => Seq::empty(),
    }
}

/// What `reorder_line` fails with, if it fails: `LengthMismatch` unless there are as many
/// categories as levels and as characters, and `AllocationFailure` for a line longer
/// than its map can number.
pub open spec fn reorder_error(types: nat, levels: nat, text: nat) -> Option<Error> {
    if types != levels || types != text {
        Some(Error::LengthMismatch)
    } else if types > u32::MAX {
        Some(Error::AllocationFailure)
    } else {
        None
    }
}

/// Whether a list that may be given has `n` entries.
pub open spec fn fits<T>(list: Option<&mut Vec<T>>, n: nat) -> bool {
    match list {
        Some(v) => v.len() == n,
        None => true,
    }
}

/// What `logic_to_visual` fails with, if it fails: `LengthMismatch` if a list that is
/// given has not one entry for each character, and `AllocationFailure` for a paragraph
/// longer than a map can number.
pub open spec fn visual_error(fit: bool, text: nat) -> Option<Error> {
    if !fit {
        Some(Error::LengthMismatch)
    } else if text > i32::MAX {
        Some(Error::AllocationFailure)
    } else {
        None
    }
}

/// The numbers of the levels `levels`.
pub open spec fn level_numbers(levels: Seq<LevelType>) -> Seq<i8> {
    Seq::new(levels.len(), |i: int| levels[i].0)
}

/// Whether a list that may be given has `n` entries.
fn has_length<T>(list: &Option<&mut Vec<T>>, n: usize) -> (r: bool)
    ensures
        r == fits(*list, n as nat),
{
    match list {
        Some(v) => v.len() == n,
        None => true,
    }
}

/// The numbers of the levels `levels`.
fn numbers_of(levels: &Vec<LevelType>) -> (numbers: Vec<i8>)
    ensures
        numbers@ == level_numbers(levels@),
{
    let mut numbers: Vec<i8> = Vec::new();
    let mut i: usize = 0;
    while i < levels.len()
        invariant
            i <= levels.len(),
            numbers.len() == i,
            forall|k: int| 0 <= k < i ==> #[trigger] numbers[k] == levels[k].0,
        decreases levels.len() - i,
    {
        numbers.push(levels[i].0);
        i += 1;
    }
    assert(numbers@ =~= level_numbers(levels@));
    numbers
}

impl Fribidi {
    /// Removes the marks that only steer the algorithm from a text in logical order:
    /// the embeddings, overrides and PDFs, the boundary neutrals, and the two marks LRM
    /// and RLM.
    ///
    /// Each list that is given is kept in step with the text. `positions_to_this` holds
    /// for each position in another text the position in this one: a removed character
    /// leaves -1 there, and the positions after it move down. `position_from_this_list`
    /// holds for each position in this text the position in the other one, and
    /// `embedding_levels` the level of each character: both lose the entries of the
    /// removed characters. The text has to be in logical order; what happens to a text
    /// in the order of the screen is not defined.
    ///
    /// Fails with `LengthMismatch` if a list has not one entry for each character, and
    /// with `AllocationFailure` if a map is given and the text is longer than a map can
    /// number. Nothing is changed then.
    pub fn remove_bidirectional_marks<'a>(
        input_str: &'a mut U32String,
        positions_to_this: Option<&mut Vec<i32>>,
        position_from_this_list: Option<&mut Vec<i32>>,
        embedding_levels: Option<&mut Vec<LevelType>>,
    ) -> (r: Result<&'a U32String, Error>)
        ensures
            ({
                let given = Stripped {
                    text: text_of(old(input_str)),
                    to_this: given_list(positions_to_this),
                    from_this: given_list(position_from_this_list),
                    levels: given_list(embedding_levels),
                };
                let left = if r.is_ok() {
                    strip(given)
                } else {
                    given
                };
                &&& r.is_ok() <==> strip_error(given).is_none()
                &&& r matches Err(e) ==> Some(e) == strip_error(given)
                &&& r matches Ok(s) ==> text_of(s) == left.text
                &&& text_of(final(input_str)) == left.text
                &&& match positions_to_this {
                    Some(v) => Some(final(v)@) == left.to_this,
                    None => true,
                }
                &&& match position_from_this_list {
                    Some(v) => Some(final(v)@) == left.from_this,
                    None => true,
                }
                &&& match embedding_levels {
                    Some(v) => Some(final(v)@) == left.levels,
                    None => true,
                }
            }),
    {
        let mut text = code_points(input_str);
        match strip_marks(&mut text, positions_to_this, position_from_this_list, embedding_levels) {
            Ok(()) => {
                set_code_points(input_str, &text);
                Ok(input_str)
            },
            Err(e) => Err(e),
        }
    }

    /// As `remove_bidirectional_marks`, with the levels given as numbers.
    pub fn remove_bidi_marks<'a>(
        input_str: &'a mut U32String,
        positions_to_this: Option<&mut Vec<i32>>,
        position_from_this_list: Option<&mut Vec<i32>>,
        embedding_levels: Option<&mut Vec<i8>>,
    ) -> (r: Result<&'a U32String, Error>)
        ensures
            ({
                let given = Stripped {
                    text: text_of(old(input_str)),
                    to_this: given_list(positions_to_this),
                    from_this: given_list(position_from_this_list),
                    levels: given_list(embedding_levels),
                };
                let left = if r.is_ok() {
                    strip(given)
                } else {
                    given
                };
                &&& r.is_ok() <==> strip_error(given).is_none()
                &&& r matches Err(e) ==> Some(e) == strip_error(given)
                &&& r matches Ok(s) ==> text_of(s) == left.text
                &&& text_of(final(input_str)) == left.text
                &&& match positions_to_this {
                    Some(v) => Some(final(v)@) == left.to_this,
                    None => true,
                }
                &&& match position_from_this_list {
                    Some(v) => Some(final(v)@) == left.from_this,
                    None => true,
                }
                &&& match embedding_levels {
                    Some(v) => Some(final(v)@) == left.levels,
                    None => true,
                }
            }),
    {
        let mut text = code_points(input_str);
        match strip_marks(&mut text, positions_to_this, position_from_this_list, embedding_levels) {
            Ok(()) => {
                set_code_points(input_str, &text);
                Ok(input_str)
            },
            Err(e) => Err(e),
        }
    }

    /// Brings a paragraph of one line from its logical order into the order of the
    /// screen.
    ///
    /// Returns the characters in the order of the screen and one more than the highest
    /// level of the paragraph. Each list that is given is filled: the two maps between
    /// the positions in the paragraph and the places on the screen, and the levels.
    /// The characters themselves stay as they are: none is replaced by a mirrored or a
    /// shaped form. Give `OtherNeutral` as the direction to have the paragraph decide.
    ///
    /// Fails with `LengthMismatch` if a list that is given has not one entry for each
    /// character, and with `AllocationFailure` for a paragraph longer than a map can
    /// number. Nothing is changed then.
    pub fn logic_to_visual(
        input_str: &U32String,
        paragraph_direction: ParagraphType,
        positions_logic_to_visual: Option<&mut Vec<i32>>,
        positions_visual_to_logic: Option<&mut Vec<i32>>,
        embedding_levels: Option<&mut Vec<LevelType>>,
    ) -> (r: Result<(U32String, i8), Error>)
        ensures
            ({
                let text = text_of(input_str);
                let line = line_of(text, paragraph_direction);
                let fit = fits(positions_logic_to_visual, text.len()) && fits(
                    positions_visual_to_logic,
                    text.len(),
                ) && fits(embedding_levels, text.len());
                &&& r.is_ok() <==> visual_error(fit, text.len()).is_none()
                &&& r matches Err(e) ==> Some(e) == visual_error(fit, text.len())
                &&& r matches Ok((shown, depth)) ==> text_of(&shown) == line.text && depth
                    == line.depth
                &&& match positions_logic_to_visual {
                    Some(v) => final(v)@ == (if r.is_ok() {
                        line.logical_to_visual
                    } else {
                        v@
                    }),
                    None => true,
                }
                &&& match positions_visual_to_logic {
                    Some(v) => final(v)@ == (if r.is_ok() {
                        line.visual_to_logical
                    } else {
                        v@
                    }),
                    None => true,
                }
                &&& match embedding_levels {
                    Some(v) => final(v)@ == (if r.is_ok() {
                        line.levels
                    } else {
                        v@
                    }),
                    None => true,
                }
            }),
    {
        let text = code_points(input_str);
        let n = text.len();
        if !has_length(&positions_logic_to_visual, n) || !has_length(&positions_visual_to_logic, n)
            || !has_length(&embedding_levels, n) {
            return Err(Error::LengthMismatch);
        }
        if n > 0x7FFF_FFFF {
            return Err(Error::AllocationFailure);
        }
        let line = visual_line(&text, paragraph_direction);
        match positions_logic_to_visual {
            Some(v) => {
                *v = line.logical_to_visual;
            },
            None => {},
        }
        match positions_visual_to_logic {
            Some(v) => {
                *v = line.visual_to_logical;
            },
            None => {},
        }
        match embedding_levels {
            Some(v) => {
                *v = line.levels;
            },
            None => {},
        }
        Ok((from_code_points(line.text), line.depth))
    }

    /// As `logic_to_visual`, with the levels filled in as numbers.
    pub fn log2vis(
        input_str: &U32String,
        pbase_dir: ParagraphType,
        positions_l_to_v: Option<&mut Vec<i32>>,
        positions_v_to_l: Option<&mut Vec<i32>>,
        embedding_levels: Option<&mut Vec<i8>>,
    ) -> (r: Result<(U32String, i8), Error>)
        ensures
            ({
                let text = text_of(input_str);
                let line = line_of(text, pbase_dir);
                let fit = fits(positions_l_to_v, text.len()) && fits(
                    positions_v_to_l,
                    text.len(),
                ) && fits(embedding_levels, text.len());
                &&& r.is_ok() <==> visual_error(fit, text.len()).is_none()
                &&& r matches Err(e) ==> Some(e) == visual_error(fit, text.len())
                &&& r matches Ok((shown, depth)) ==> text_of(&shown) == line.text && depth
                    == line.depth
                &&& match positions_l_to_v {
                    Some(v) => final(v)@ == (if r.is_ok() {
                        line.logical_to_visual
                    } else {
                        v@
                    }),
                    None => true,
                }
                &&& match positions_v_to_l {
                    Some(v) => final(v)@ == (if r.is_ok() {
                        line.visual_to_logical
                    } else {
                        v@
                    }),
                    None => true,
                }
                &&& match embedding_levels {
                    Some(v) => final(v)@ == (if r.is_ok() {
                        level_numbers(line.levels)
                    } else {
                        v@
                    }),
                    None => true,
                }
            }),
    {
        let text = code_points(input_str);
        let n = text.len();
        if !has_length(&positions_l_to_v, n) || !has_length(&positions_v_to_l, n) || !has_length(
            &embedding_levels,
            n,
        ) {
            return Err(Error::LengthMismatch);
        }
        if n > 0x7FFF_FFFF {
            return Err(Error::AllocationFailure);
        }
        let line = visual_line(&text, pbase_dir);
        match positions_l_to_v {
            Some(v) => {
                *v = line.logical_to_visual;
            },
            None => {},
        }
        match positions_v_to_l {
            Some(v) => {
                *v = line.visual_to_logical;
            },
            None => {},
        }
        match embedding_levels {
            Some(v) => {
                *v = numbers_of(&line.levels);
            },
            None => {},
        }
        Ok((from_code_points(line.text), line.depth))
    }

    /// The category of a character.
    pub fn get_bidi_type(input_char: char) -> (t: CharType)
        ensures
            t == bidi_class(input_char as u32),
    {
        CharType::into_chartype(input_char as u32)
    }

    /// The categories of the characters of a text.
    pub fn get_bidi_types(input_str: &U32String) -> (types: Vec<CharType>)
        ensures
            types@ == classes_of(text_of(input_str)),
    {
        let text = code_points(input_str);
        CharType::into_chartypes(&text)
    }

    /// The embedding levels of a paragraph.
    ///
    /// Takes the categories of the characters of the paragraph, their brackets if the
    /// rule for paired brackets is to be applied, and the direction that the caller asks
    /// for. Returns the level of each character, one more than the highest level, and
    /// the direction that the paragraph has been resolved to, which is never a hint.
    /// Marks that are nested too deep or that close nothing are no error: they have no
    /// effect. A paragraph of L that is not asked to run right to left has the level 0
    /// throughout.
    ///
    /// Fails with `LengthMismatch` if the brackets are given and are not as many as the
    /// categories.
    pub fn get_paragraph_embedding_levels_ex(
        char_types: &Vec<CharType>,
        bracket_types: Option<&Vec<BracketType>>,
        paragraph_direction: ParagraphType,
    ) -> (r: Result<(Vec<LevelType>, LevelType, ParagraphType), Error>)
        ensures
            r.is_err() <==> (bracket_types matches Some(b) && b.len() != char_types.len()),
            r matches Err(e) ==> e == Error::LengthMismatch,
            r matches Ok((levels, depth, direction)) ==> {
                &&& levels@ == as_level_types(
                    paragraph_levels(
                        char_types@,
                        brackets_given(bracket_types),
                        paragraph_direction,
                    ),
                )
                &&& levels.len() == char_types.len()
                &&& forall|i: int|
                    0 <= i < levels.len() ==> (#[trigger] levels[i]).wf() && base_level_of(
                        char_types@,
                        paragraph_direction,
                    ) <= levels[i].0 < depth.0
                &&& depth.0 == paragraph_depth(
                    char_types@,
                    brackets_given(bracket_types),
                    paragraph_direction,
                )
                &&& direction == resolved_direction(char_types@, paragraph_direction)
                &&& direction.is_resolved()
                &&& is_left_to_right(char_types@, paragraph_direction) ==> depth == LevelType(1)
                    && forall|i: int| 0 <= i < levels.len() ==> #[trigger] levels[i] == LevelType(0)
            },
    {
        match bracket_types {
            Some(b) => {
                if b.len() != char_types.len() {
                    return Err(Error::LengthMismatch);
                }
            },
            None => {},
        }
        let (raw, depth, direction) = resolve_levels(char_types, bracket_types, paragraph_direction);
        let levels = to_level_types(&raw);
        proof {
            if is_left_to_right(char_types@, paragraph_direction) {
                lemma_left_to_right_levels(
                    char_types@,
                    brackets_given(bracket_types),
                    paragraph_direction,
                );
            }
        }
        Ok((levels, LevelType(depth as i8), direction))
    }

    /// Brings the characters of a line from their logical order into the order of the
    /// screen.
    ///
    /// First the levels of the white space at the end of the line are reset to the base
    /// level of the paragraph. Then, from the highest level down to 1, each run of
    /// characters at that level or above is reversed. With the option `ReorderNsm`,
    /// the non-spacing marks of right-to-left text come to stand after their base
    /// character.
    ///
    /// Returns one more than the highest level of the line and, for each place on the
    /// screen, the position in the line of the character that now stands there: the map
    /// holds each position of the line once, so that the line can be had back from the
    /// screen. The categories and the levels are not reordered. A line whose levels are
    /// all 0, in a paragraph that does not run right to left, stays as it is.
    ///
    /// Fails with `LengthMismatch` unless there are as many categories as levels and as
    /// characters, and with `AllocationFailure` for a line longer than its map can
    /// number. Nothing is changed then.
    pub fn reorder_line(
        flags: FriBidiFlag,
        chartypes: &Vec<CharType>,
        base_dir: ParagraphType,
        embedding_levels: Option<&mut Vec<LevelType>>,
        visual_str: &mut U32Str,
    ) -> (r: Result<(LevelType, Vec<u32>), Error>)
        requires
            forall|i: int|
                0 <= i < levels_given(embedding_levels).len() ==> (#[trigger] levels_given(
                    embedding_levels,
                )[i]).wf(),
        ensures
            ({
                let given = levels_given(embedding_levels);
                let text = slice_of(old(visual_str));
                let error = reorder_error(chartypes@.len(), given.len(), text.len());
                let levels = if error.is_none() {
                    line_levels(chartypes@, given, base_dir)
                } else {
                    given
                };
                &&& r.is_ok() <==> error.is_none()
                &&& r matches Err(e) ==> Some(e) == error && slice_of(final(visual_str)) == text
                &&& match embedding_levels {
                    Some(v) => final(v)@ == levels,
                    None => true,
                }
                &&& r matches Ok((depth, map)) ==> {
                    &&& map@ == visual_order(flags, chartypes@, levels)
                    &&& slice_of(final(visual_str)) == visual(flags, chartypes@, levels, text)
                    &&& arranges(map@, slice_of(final(visual_str)), text)
                    &&& depth.0 == highest_level(levels, levels.len() as int) + 1
                    &&& map@.len() == text.len()
                    &&& forall|j: int|
                        0 <= j < text.len() ==> #[trigger] hits(map@, text.len() as int, j)
                    &&& stays_in_order(given, base_dir) ==> {
                        &&& levels == given
                        &&& slice_of(final(visual_str)) == text
                        &&& map@ == identity(text.len())
                        &&& depth == LevelType(1)
                    }
                }
            }),
    {
        let mut text = slice_code_points(visual_str);
        let n = chartypes.len();
        match embedding_levels {
            Some(levels) => {
                if n != levels.len() || n != text.len() {
                    return Err(Error::LengthMismatch);
                }
                if n > 0xFFFF_FFFF {
                    return Err(Error::AllocationFailure);
                }
                let out = reorder(flags, chartypes, base_dir, levels, &mut text);
                set_slice_code_points(visual_str, &text);
                Ok(out)
            },
            None => {
                if n != 0 || text.len() != 0 {
                    return Err(Error::LengthMismatch);
                }
                let mut levels: Vec<LevelType> = Vec::new();
                let out = reorder(flags, chartypes, base_dir, &mut levels, &mut text);
                set_slice_code_points(visual_str, &text);
                Ok(out)
            },
        }
    }
}

} // verus!
