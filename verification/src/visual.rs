//! From a paragraph in logical order to its line on the screen, in one step.

use vstd::prelude::*;
use crate::bracket::BracketType;
use crate::bracket::brackets_of;
use crate::char::CharType;
use crate::char::classes_of;
use crate::char::lemma_classes_of;
use crate::flag::FriBidiFlag;
use crate::level::LevelType;
use crate::marks::inverse_of;
use crate::marks::invert_map;
use crate::marks::lemma_inverse_len;
use crate::paragraph::ParagraphType;
use crate::reorder::line_levels;
use crate::reorder::reorder;
use crate::reorder::visual;
use crate::reorder::visual_order;
use crate::resolve::paragraph_depth;
use crate::resolve::paragraph_levels;
use crate::resolve::resolve_levels;
use crate::resolve::resolved_direction;

verus! {

/// A paragraph of one line as it stands on the screen.
pub ghost struct Line {
    /// The characters in the order of the screen.
    pub text: Seq<u32>,
    /// One more than the highest level of the paragraph.
    pub depth: int,
    /// For each position in the paragraph the place on the screen.
    pub logical_to_visual: Seq<i32>,
    /// For each place on the screen the position in the paragraph.
    pub visual_to_logical: Seq<i32>,
    /// The level of each character of the paragraph.
    pub levels: Seq<LevelType>,
}

/// The levels `levels` as values of `LevelType`.
pub open spec fn as_level_types(levels: Seq<u8>) -> Seq<LevelType> {
    Seq::new(levels.len(), |i: int| LevelType(levels[i] as i8))
}

/// The positions `order` as entries of a map.
pub open spec fn as_positions(order: Seq<u32>) -> Seq<i32> {
    Seq::new(order.len(), |i: int| order[i] as i32)
}

/// The line of the paragraph `text`, for which the caller asks the direction `dir`.
///
/// The characters are classified and their brackets looked up; the levels are
/// resolved; the line, which is the whole paragraph, is put into the order of the
/// screen, non-spacing marks after their base characters. The characters themselves
/// stay as they are: none is replaced by a mirrored or a shaped form.
pub open spec fn line_of(text: Seq<u32>, dir: ParagraphType) -> Line {
    let types = classes_of(text);
    let brackets = Some(brackets_of(text, types));
    let levels = line_levels(
        types,
        as_level_types(paragraph_levels(types, brackets, dir)),
        resolved_direction(types, dir),
    );
    let order = as_positions(visual_order(FriBidiFlag::Default, types, levels));
    Line {
        text: visual(FriBidiFlag::Default, types, levels, text),
        depth: paragraph_depth(types, brackets, dir),
        logical_to_visual: inverse_of(order, text.len()),
        visual_to_logical: order,
        levels,
    }
}

/// The two maps of a line undo each other, and the map from the paragraph to the
/// screen leads from each character of the paragraph to the same character on the
/// screen: the order of the paragraph can be had back from the line.
pub proof fn lemma_line_round_trip(text: Seq<u32>, dir: ParagraphType)
    requires
        text.len() <= i32::MAX,
    ensures
        ({
            let line = line_of(text, dir);
            &&& line.text.len() == text.len()
            &&& line.logical_to_visual.len() == text.len()
            &&& line.visual_to_logical.len() == text.len()
            &&& forall|j: int|
                0 <= j < text.len() ==> 0 <= #[trigger] line.logical_to_visual[j] < text.len()
            &&& forall|j: int|
                0 <= j < text.len() ==> line.visual_to_logical[#[trigger] line.logical_to_visual[j] as int]
                    == j
            &&& forall|j: int|
                0 <= j < text.len() ==> line.text[#[trigger] line.logical_to_visual[j] as int]
                    == text[j]
        }),
{
    let types = classes_of(text);
    lemma_classes_of(text);
    let brackets = Some(brackets_of(text, types));
    let levels = line_levels(
        types,
        as_level_types(paragraph_levels(types, brackets, dir)),
        resolved_direction(types, dir),
    );
    crate::reorder::lemma_visual_arranges(FriBidiFlag::Default, types, levels, text);
    let order = visual_order(FriBidiFlag::Default, types, levels);
    crate::reorder::lemma_inverse_of_permutation(order);
    let line = line_of(text, dir);
    assert forall|j: int| 0 <= j < text.len() implies line.text[#[trigger] line.logical_to_visual[j] as int]
        == text[j] by {
        let i = line.logical_to_visual[j] as int;
        assert(order[i] == j);
    }
}

/// A paragraph of L that is not asked to run right to left stays as it is: all its
/// levels are 0, and its line holds its characters in their own order.
pub proof fn lemma_left_to_right_line(
    flags: FriBidiFlag,
    types: Seq<CharType>,
    brackets: Option<Seq<BracketType>>,
    dir: ParagraphType,
    text: Seq<u32>,
)
    requires
        forall|i: int| 0 <= i < types.len() ==> #[trigger] types[i] == CharType::LeftToRight,
        dir != ParagraphType::RightToLeft,
    ensures
        ({
            let levels = line_levels(
                types,
                as_level_types(paragraph_levels(types, brackets, dir)),
                resolved_direction(types, dir),
            );
            &&& levels == Seq::new(types.len(), |i: int| LevelType(0))
            &&& visual_order(flags, types, levels) == crate::reorder::identity(types.len())
            &&& visual(flags, types, levels, text) == text
        }),
{
    crate::resolve::lemma_left_to_right_levels(types, brackets, dir);
    let resolved = as_level_types(paragraph_levels(types, brackets, dir));
    let levels = line_levels(types, resolved, resolved_direction(types, dir));
    assert(levels =~= Seq::new(types.len(), |i: int| LevelType(0)));
    crate::reorder::lemma_level_zero_stays(flags, types, levels, text);
}

/// What `logical_to_visual` returns.
pub struct VisualLine {
    /// The characters in the order of the screen.
    pub text: Vec<u32>,
    /// One more than the highest level of the paragraph.
    pub depth: i8,
    /// For each position in the paragraph the place on the screen.
    pub logical_to_visual: Vec<i32>,
    /// For each place on the screen the position in the paragraph.
    pub visual_to_logical: Vec<i32>,
    /// The level of each character of the paragraph.
    pub levels: Vec<LevelType>,
}

impl View for VisualLine {
    type V = Line;

    open spec fn view(&self) -> Line {
        Line {
            text: self.text@,
            depth: self.depth as int,
            logical_to_visual: self.logical_to_visual@,
            visual_to_logical: self.visual_to_logical@,
            levels: self.levels@,
        }
    }
}

/// Turns levels into values of `LevelType`.
pub fn to_level_types(raw: &Vec<u8>) -> (levels: Vec<LevelType>)
    requires
        forall|k: int| 0 <= k < raw.len() ==> #[trigger] raw[k] <= 126,
    ensures
        levels@ == as_level_types(raw@),
        forall|i: int|
            0 <= i < levels.len() ==> (#[trigger] levels[i]).wf() && levels[i].0 == raw[i],
{
    let n = raw.len();
    let mut levels: Vec<LevelType> = Vec::new();
    let mut i: usize = 0;
    while i < n
        invariant
            n == raw.len(),
            i <= n,
            levels.len() == i,
            forall|k: int| 0 <= k < n ==> #[trigger] raw[k] <= 126,
            forall|k: int| 0 <= k < i ==> #[trigger] levels[k] == LevelType(raw[k] as i8),
        decreases n - i,
    {
        levels.push(LevelType(raw[i] as i8));
        i += 1;
    }
    assert(levels@ =~= as_level_types(raw@));
    levels
}

/// Brings a paragraph of one line from its logical order into the order of the screen.
///
/// `types` and `brackets` are the categories and the brackets of the characters of
/// `text`.
pub fn logical_to_visual(
    text: &Vec<u32>,
    types: &Vec<CharType>,
    brackets: &Vec<BracketType>,
    dir: ParagraphType,
) -> (line: VisualLine)
    requires
        text.len() <= i32::MAX,
        types@ == classes_of(text@),
        brackets@ == brackets_of(text@, types@),
    ensures
        line@ == line_of(text@, dir),
{
    proof {
        lemma_classes_of(text@);
    }
    let (raw, depth, resolved) = resolve_levels(types, Some(brackets), dir);
    let mut levels = to_level_types(&raw);
    let n = text.len();
    let mut visual_text: Vec<u32> = Vec::new();
    let mut i: usize = 0;
    while i < n
        invariant
            n == text.len(),
            i <= n,
            visual_text.len() == i,
            forall|k: int| 0 <= k < i ==> #[trigger] visual_text[k] == text[k],
        decreases n - i,
    {
        visual_text.push(text[i]);
        i += 1;
    }
    assert(visual_text@ =~= text@);
    let (_, order) = reorder(FriBidiFlag::Default, types, resolved, &mut levels, &mut visual_text);
    let mut visual_to_logical: Vec<i32> = Vec::new();
    let mut i: usize = 0;
    while i < n
        invariant
            n == order.len(),
            n <= i32::MAX,
            i <= n,
            visual_to_logical.len() == i,
            forall|k: int| 0 <= k < n ==> #[trigger] order[k] < n,
            forall|k: int| 0 <= k < i ==> #[trigger] visual_to_logical[k] == order[k] as i32,
        decreases n - i,
    {
        visual_to_logical.push(order[i] as i32);
        i += 1;
    }
    assert(visual_to_logical@ =~= as_positions(order@));
    let logical_to_visual = invert_map(&visual_to_logical, n);
    VisualLine { text: visual_text, depth: depth as i8, logical_to_visual, visual_to_logical, levels }
}

/// Brings the paragraph `text` of one line from its logical order into the order of
/// the screen. The characters are classified and their brackets looked up first.
pub fn visual_line(text: &Vec<u32>, dir: ParagraphType) -> (line: VisualLine)
    requires
        text.len() <= i32::MAX,
    ensures
        line@ == line_of(text@, dir),
        line.text.len() == text.len(),
        line.logical_to_visual.len() == text.len(),
        line.visual_to_logical.len() == text.len(),
        line.levels.len() == text.len(),
{
    proof {
        lemma_classes_of(text@);
    }
    let types = CharType::into_chartypes(text);
    let brackets = BracketType::of_classified(text, &types);
    proof {
        let levels = line_of(text@, dir).levels;
        lemma_inverse_len(
            as_positions(visual_order(FriBidiFlag::Default, types@, levels)),
            text@.len(),
            text@.len() as int,
        );
        crate::reorder::lemma_visual_arranges(FriBidiFlag::Default, types@, levels, text@);
    }
    logical_to_visual(text, &types, &brackets, dir)
}

} // verus!
