//! Explicit levels and directions: the embeddings, overrides and isolates that the
//! formatting characters of a paragraph open and close.
//!
//! The characters are read from left to right against a stack of frames. An embedding,
//! an override or an isolate pushes a frame with the next level of its direction, unless
//! that level is above 125: then it is counted and has no effect, and so has what closes
//! it. A paragraph separator closes whatever is open.

use vstd::prelude::*;
use crate::char::CharType;
use crate::paragraph::ParagraphType;
use crate::paragraph::find_first_strong;
use crate::paragraph::first_strong;

verus! {

/// The highest level that a frame can have.
pub const MAX_DEPTH: u8 = 125;

/// One entry of the stack of directional status.
#[derive(Clone, Copy, Debug, PartialEq, Eq, Structural)]
pub struct Frame {
    /// The embedding level.
    pub level: u8,
    /// The direction forced on the characters: `LeftToRight`, `RightToLeft`, or
    /// `OtherNeutral` for none.
    pub forced: CharType,
    /// Whether an isolate opened the frame.
    pub isolate: bool,
    /// The position of the character that opened the frame.
    pub opener: usize,
}

/// The state of the scan between two characters.
pub ghost struct Embedding {
    /// The frames, the paragraph's own at the bottom.
    pub stack: Seq<Frame>,
    /// The isolates that are open and were not given a frame.
    pub overflow_isolates: nat,
    /// The embeddings and overrides that are open and were not given a frame.
    pub overflow_embeddings: nat,
    /// The isolates that are open and have a frame.
    pub valid_isolates: nat,
}

/// The least level above `level` that is odd, if `rtl`, or even, if not.
pub open spec fn next_level(level: u8, rtl: bool) -> int {
    if rtl == (level % 2 == 1) {
        level + 2
    } else {
        level + 1
    }
}

/// Whether the isolate that opens at `i` runs right to left: an RLI does, an LRI does
/// not, and an FSI does if the first letter up to its PDI is R or AL.
pub open spec fn isolate_runs_rtl(types: Seq<CharType>, i: int) -> bool {
    if types[i] == CharType::FirstStongIsolate {
        first_strong(types, i + 1, 0, true) == ParagraphType::RightToLeft
    } else {
        types[i] == CharType::RightToLeftIsolate
    }
}

/// The stack once a PDI has closed the last isolate: without the frames above the last
/// isolate frame and without that frame. The paragraph's frame stays.
pub open spec fn close_isolate(stack: Seq<Frame>) -> Seq<Frame>
    decreases stack.len(),
{
    if stack.len() <= 1 {
        stack
    } else if stack.last().isolate {
        stack.drop_last()
    } else {
        close_isolate(stack.drop_last())
    }
}

/// The last isolate frame of the stack, which a PDI closes.
pub open spec fn last_isolate(stack: Seq<Frame>) -> Option<Frame>
    decreases stack.len(),
{
    if stack.len() <= 1 {
        None
    } else if stack.last().isolate {
        Some(stack.last())
    } else {
        last_isolate(stack.drop_last())
    }
}

/// The state at the start of a paragraph with the base level `base`.
pub open spec fn initial(base: u8) -> Embedding {
    Embedding {
        stack: seq![
            Frame { level: base, forced: CharType::OtherNeutral, isolate: false, opener: 0 },
        ],
        overflow_isolates: 0,
        overflow_embeddings: 0,
        valid_isolates: 0,
    }
}

/// Whether a frame of the level `level` can be pushed in the state `e`.
pub open spec fn can_push(e: Embedding, level: int) -> bool {
    level <= MAX_DEPTH && e.overflow_isolates == 0 && e.overflow_embeddings == 0
}

/// The state after the character at `i`, from the state `e` before it.
pub open spec fn step(e: Embedding, types: Seq<CharType>, base: u8, i: int) -> Embedding {
    let t = types[i];
    let top = e.stack.last();
    if t == CharType::BlockSeparator {
        initial(base)
    } else if t.spec_is_explicit() && t != CharType::PopDirectionalFlag {
        let level = next_level(top.level, t.spec_is_rtl());
        if can_push(e, level) {
            Embedding {
                stack: e.stack.push(
                    Frame {
                        level: level as u8,
                        forced: t.spec_explicit_to_override_dir(),
                        isolate: false,
                        opener: i as usize,
                    },
                ),
                ..e
            }
        } else if e.overflow_isolates == 0 {
            Embedding { overflow_embeddings: e.overflow_embeddings + 1, ..e }
        } else {
            e
        }
    } else if t.spec_is_isolate_initiator() {
        let level = next_level(top.level, isolate_runs_rtl(types, i));
        if can_push(e, level) {
            Embedding {
                stack: e.stack.push(
                    Frame {
                        level: level as u8,
                        forced: CharType::OtherNeutral,
                        isolate: true,
                        opener: i as usize,
                    },
                ),
                valid_isolates: e.valid_isolates + 1,
                ..e
            }
        } else {
            Embedding { overflow_isolates: e.overflow_isolates + 1, ..e }
        }
    } else if t == CharType::PopDirectionalIsolate {
        if e.overflow_isolates > 0 {
            Embedding { overflow_isolates: (e.overflow_isolates - 1) as nat, ..e }
        } else if e.valid_isolates > 0 {
            Embedding {
                stack: close_isolate(e.stack),
                overflow_embeddings: 0,
                valid_isolates: (e.valid_isolates - 1) as nat,
                ..e
            }
        } else {
            e
        }
    } else if t == CharType::PopDirectionalFlag {
        if e.overflow_isolates > 0 {
            e
        } else if e.overflow_embeddings > 0 {
            Embedding { overflow_embeddings: (e.overflow_embeddings - 1) as nat, ..e }
        } else if !top.isolate && e.stack.len() >= 2 {
            Embedding { stack: e.stack.drop_last(), ..e }
        } else {
            e
        }
    } else {
        e
    }
}

/// The state before the character at `i`.
pub open spec fn state_at(types: Seq<CharType>, base: u8, i: int) -> Embedding
    decreases i,
{
    if i <= 0 {
        initial(base)
    } else {
        step(state_at(types, base, i - 1), types, base, i - 1)
    }
}

/// The frame that decides the level and the direction of the character at `i`: for a
/// PDI and for a paragraph separator the top of the stack after it, for any other
/// character the top before it.
pub open spec fn frame_of(types: Seq<CharType>, base: u8, i: int) -> Frame {
    if types[i] == CharType::PopDirectionalIsolate || types[i] == CharType::BlockSeparator {
        state_at(types, base, i + 1).stack.last()
    } else {
        state_at(types, base, i).stack.last()
    }
}

/// The embedding level of the character at `i`.
pub open spec fn explicit_level(types: Seq<CharType>, base: u8, i: int) -> u8 {
    frame_of(types, base, i).level
}

/// The category of the character at `i` once the overrides have been applied. A mark
/// that the later rules pass over (an embedding, an override, a PDF or a BN) keeps its
/// category.
pub open spec fn explicit_kind(types: Seq<CharType>, base: u8, i: int) -> CharType {
    let forced = frame_of(types, base, i).forced;
    if types[i].spec_is_explicit_or_bn() || forced == CharType::OtherNeutral {
        types[i]
    } else {
        forced
    }
}

/// For a PDI that closes an isolate, the position of the initiator of that isolate.
pub open spec fn opener_of(types: Seq<CharType>, base: u8, i: int) -> Option<usize> {
    let e = state_at(types, base, i);
    if types[i] == CharType::PopDirectionalIsolate && e.overflow_isolates == 0
        && e.valid_isolates > 0 {
        match last_isolate(e.stack) {
            Some(frame) => Some(frame.opener),
            None => None,
        }
    } else {
        None
    }
}

/// A category that leaves the stack as it is: no embedding, override or PDF, no isolate
/// control and no paragraph separator.
pub open spec fn is_plain(t: CharType) -> bool {
    !t.spec_is_explicit() && !t.spec_is_isolate() && t != CharType::BlockSeparator
}

/// Before a character that only plain characters precede, the state is the one that
/// the paragraph starts with.
pub proof fn lemma_plain_state(types: Seq<CharType>, base: u8, i: int)
    requires
        0 <= i <= types.len(),
        forall|k: int| 0 <= k < i ==> is_plain(#[trigger] types[k]),
    ensures
        state_at(types, base, i) == initial(base),
    decreases i,
{
    if i > 0 {
        lemma_plain_state(types, base, i - 1);
        assert(is_plain(types[i - 1]));
    }
}

/// The stack never holds more than 126 frames: the level of each frame is at least its
/// height in the stack, and no level is above 125.
pub proof fn lemma_stack_is_bounded(types: Seq<CharType>, base: u8, i: int)
    requires
        0 <= i <= types.len(),
        base <= 1,
    ensures
        1 <= state_at(types, base, i).stack.len() <= MAX_DEPTH + 1,
        climbs(state_at(types, base, i).stack),
    decreases i,
{
    if i > 0 {
        lemma_stack_is_bounded(types, base, i - 1);
        lemma_step_climbs(state_at(types, base, i - 1), types, base, i - 1);
    }
    let stack = state_at(types, base, i).stack;
    assert(stack[stack.len() - 1].level >= stack.len() - 1);
}

/// A step of the scan leaves a stack whose levels climb.
pub proof fn lemma_step_climbs(e: Embedding, types: Seq<CharType>, base: u8, i: int)
    requires
        climbs(e.stack),
        base <= 1,
    ensures
        climbs(step(e, types, base, i).stack),
{
    let t = types[i];
    let top = e.stack.last();
    let after = step(e, types, base, i).stack;
    if t == CharType::BlockSeparator {
        assert(after.len() == 1);
        assert(after[0].level == base);
    } else if t.spec_is_explicit() && t != CharType::PopDirectionalFlag {
        let level = next_level(top.level, t.spec_is_rtl());
        if can_push(e, level) {
            lemma_push_climbs(e.stack, after.last());
        }
    } else if t.spec_is_isolate_initiator() {
        let level = next_level(top.level, isolate_runs_rtl(types, i));
        if can_push(e, level) {
            lemma_push_climbs(e.stack, after.last());
        }
    } else if t == CharType::PopDirectionalIsolate {
        if e.overflow_isolates == 0 && e.valid_isolates > 0 {
            lemma_close_isolate_climbs(e.stack);
        }
    } else if t == CharType::PopDirectionalFlag {
        if e.overflow_isolates == 0 && e.overflow_embeddings == 0 && !top.isolate
            && e.stack.len() >= 2 {
            lemma_drop_climbs(e.stack);
        }
    }
}

/// A frame of a level above the top and not above 125 can be pushed.
pub proof fn lemma_push_climbs(stack: Seq<Frame>, frame: Frame)
    requires
        climbs(stack),
        stack.last().level < frame.level <= MAX_DEPTH,
    ensures
        climbs(stack.push(frame)),
{
    let after = stack.push(frame);
    assert forall|k: int| 0 <= k < after.len() implies k <= (#[trigger] after[k]).level
        <= MAX_DEPTH by {
        if k < stack.len() {
            assert(after[k] == stack[k]);
        } else {
            assert(stack[stack.len() - 1].level >= stack.len() - 1);
        }
    }
}

/// The top frame can be dropped from a stack of two frames or more.
pub proof fn lemma_drop_climbs(stack: Seq<Frame>)
    requires
        climbs(stack),
        stack.len() >= 2,
    ensures
        climbs(stack.drop_last()),
{
    let after = stack.drop_last();
    assert forall|k: int| 0 <= k < after.len() implies k <= (#[trigger] after[k]).level
        <= MAX_DEPTH by {
        assert(after[k] == stack[k]);
    }
}

/// The stack holds the paragraph's frame, and the level of each frame is at least its
/// height in the stack and at most 125.
pub open spec fn climbs(stack: Seq<Frame>) -> bool {
    &&& stack.len() >= 1
    &&& forall|k: int| 0 <= k < stack.len() ==> k <= (#[trigger] stack[k]).level <= MAX_DEPTH
}

/// Closing an isolate leaves a stack of the same kind.
pub proof fn lemma_close_isolate_climbs(stack: Seq<Frame>)
    requires
        climbs(stack),
    ensures
        climbs(close_isolate(stack)),
    decreases stack.len(),
{
    if stack.len() > 1 {
        lemma_drop_climbs(stack);
        if !stack.last().isolate {
            lemma_close_isolate_climbs(stack.drop_last());
        }
    }
}

/// No frame of the stack is below the level `base`.
pub open spec fn stands_on(stack: Seq<Frame>, base: u8) -> bool {
    forall|k: int| 0 <= k < stack.len() ==> (#[trigger] stack[k]).level >= base
}

/// Closing an isolate leaves frames that were there before.
pub proof fn lemma_close_isolate_stands(stack: Seq<Frame>, base: u8)
    requires
        stands_on(stack, base),
    ensures
        stands_on(close_isolate(stack), base),
    decreases stack.len(),
{
    if stack.len() > 1 {
        let rest = stack.drop_last();
        assert forall|k: int| 0 <= k < rest.len() implies (#[trigger] rest[k]).level >= base by {
            assert(rest[k] == stack[k]);
        }
        if !stack.last().isolate {
            lemma_close_isolate_stands(rest, base);
        }
    }
}

/// No embedding level is below the base level of the paragraph: every frame of the
/// stack is at the base level or above it.
pub proof fn lemma_stack_stands_on_base(types: Seq<CharType>, base: u8, i: int)
    requires
        0 <= i <= types.len(),
        base <= 1,
    ensures
        stands_on(state_at(types, base, i).stack, base),
        state_at(types, base, i).stack.len() >= 1,
    decreases i,
{
    lemma_stack_is_bounded(types, base, i);
    if i > 0 {
        lemma_stack_stands_on_base(types, base, i - 1);
        lemma_stack_is_bounded(types, base, i - 1);
        let e = state_at(types, base, i - 1);
        let t = types[i - 1];
        let after = state_at(types, base, i).stack;
        assert(after == step(e, types, base, i - 1).stack);
        if t == CharType::BlockSeparator {
        } else if t == CharType::PopDirectionalIsolate {
            lemma_close_isolate_stands(e.stack, base);
        } else if t == CharType::PopDirectionalFlag {
            assert forall|k: int| 0 <= k < after.len() implies (#[trigger] after[k]).level
                >= base by {
                assert(after[k] == e.stack[k]);
            }
        } else {
            assert forall|k: int| 0 <= k < after.len() implies (#[trigger] after[k]).level
                >= base by {
                if k < e.stack.len() {
                    assert(after[k] == e.stack[k]);
                } else {
                    assert(e.stack[e.stack.len() - 1].level >= base);
                }
            }
        }
    }
}

/// The embedding level of a character is at the base level or above it, and at 125 at
/// most.
pub proof fn lemma_explicit_level(types: Seq<CharType>, base: u8, i: int)
    requires
        0 <= i < types.len(),
        base <= 1,
    ensures
        base <= explicit_level(types, base, i) <= MAX_DEPTH,
{
    lemma_stack_stands_on_base(types, base, i);
    lemma_stack_stands_on_base(types, base, i + 1);
    lemma_stack_is_bounded(types, base, i);
    lemma_stack_is_bounded(types, base, i + 1);
    let before = state_at(types, base, i).stack;
    let after = state_at(types, base, i + 1).stack;
    assert(before[before.len() - 1].level >= base);
    assert(after[after.len() - 1].level >= base);
}

/// Each isolate frame of the stack was opened by an isolate initiator before `i`.
pub open spec fn opened_by_initiators(stack: Seq<Frame>, types: Seq<CharType>, i: int) -> bool {
    forall|k: int|
        1 <= k < stack.len() && (#[trigger] stack[k]).isolate ==> 0 <= stack[k].opener < i
            && types[stack[k].opener as int].spec_is_isolate_initiator()
}

/// The last isolate frame of a stack is one of its frames above the paragraph's.
pub proof fn lemma_last_isolate(stack: Seq<Frame>)
    ensures
        last_isolate(stack) matches Some(frame) ==> frame.isolate && exists|k: int|
            1 <= k < stack.len() && #[trigger] stack[k] == frame,
    decreases stack.len(),
{
    if stack.len() > 1 {
        if stack.last().isolate {
            assert(stack[stack.len() - 1] == stack.last());
        } else {
            lemma_last_isolate(stack.drop_last());
            match last_isolate(stack.drop_last()) {
                Some(frame) => {
                    let k = choose|k: int|
                        1 <= k < stack.drop_last().len() && #[trigger] stack.drop_last()[k]
                            == frame;
                    assert(stack[k] == frame);
                },
                None => {},
            }
        }
    }
}

/// Closing an isolate leaves isolate frames that initiators opened.
pub proof fn lemma_close_isolate_opened(stack: Seq<Frame>, types: Seq<CharType>, i: int)
    requires
        opened_by_initiators(stack, types, i),
    ensures
        opened_by_initiators(close_isolate(stack), types, i),
    decreases stack.len(),
{
    if stack.len() > 1 {
        let rest = stack.drop_last();
        assert forall|k: int| 1 <= k < rest.len() && (#[trigger] rest[k]).isolate implies 0
            <= rest[k].opener < i && types[rest[k].opener as int].spec_is_isolate_initiator() by {
            assert(rest[k] == stack[k]);
        }
        if !stack.last().isolate {
            lemma_close_isolate_opened(rest, types, i);
        }
    }
}

/// Before the character at `i`, each isolate frame of the stack was opened by an
/// isolate initiator before `i`.
pub proof fn lemma_stack_opened(types: Seq<CharType>, base: u8, i: int)
    requires
        0 <= i <= types.len() <= usize::MAX,
    ensures
        opened_by_initiators(state_at(types, base, i).stack, types, i),
    decreases i,
{
    if i > 0 {
        lemma_stack_opened(types, base, i - 1);
        let e = state_at(types, base, i - 1);
        let t = types[i - 1];
        let after = state_at(types, base, i).stack;
        assert(after == step(e, types, base, i - 1).stack);
        assert(opened_by_initiators(e.stack, types, i)) by {
            assert forall|k: int| 1 <= k < e.stack.len() && (#[trigger] e.stack[k]).isolate implies 0
                <= e.stack[k].opener < i && types[e.stack[k].opener as int].spec_is_isolate_initiator() by {
            }
        }
        if t == CharType::BlockSeparator {
        } else if t == CharType::PopDirectionalIsolate {
            lemma_close_isolate_opened(e.stack, types, i);
        } else if t == CharType::PopDirectionalFlag {
            assert forall|k: int| 1 <= k < after.len() && (#[trigger] after[k]).isolate implies 0
                <= after[k].opener < i && types[after[k].opener as int].spec_is_isolate_initiator() by {
                assert(after[k] == e.stack[k]);
            }
        } else {
            assert forall|k: int| 1 <= k < after.len() && (#[trigger] after[k]).isolate implies 0
                <= after[k].opener < i && types[after[k].opener as int].spec_is_isolate_initiator() by {
                if k < e.stack.len() {
                    assert(after[k] == e.stack[k]);
                }
            }
        }
    }
}

/// The isolate that a PDI closes was opened by an isolate initiator before the PDI.
pub proof fn lemma_opener_is_initiator(types: Seq<CharType>, base: u8, i: int)
    requires
        0 <= i < types.len() <= usize::MAX,
    ensures
        opener_of(types, base, i) matches Some(m) ==> m < i && types[m as int].spec_is_isolate_initiator(),
{
    lemma_stack_opened(types, base, i);
    lemma_last_isolate(state_at(types, base, i).stack);
}

/// Each frame of the stack forces L or R on the characters, or nothing.
pub open spec fn forces_directions(stack: Seq<Frame>) -> bool {
    forall|k: int|
        0 <= k < stack.len() ==> (#[trigger] stack[k]).forced == CharType::LeftToRight
            || stack[k].forced == CharType::RightToLeft || stack[k].forced
            == CharType::OtherNeutral
}

/// Closing an isolate leaves frames that force directions.
pub proof fn lemma_close_isolate_forces(stack: Seq<Frame>)
    requires
        forces_directions(stack),
    ensures
        forces_directions(close_isolate(stack)),
    decreases stack.len(),
{
    if stack.len() > 1 {
        let rest = stack.drop_last();
        assert forall|k: int| 0 <= k < rest.len() implies (#[trigger] rest[k]).forced
            == CharType::LeftToRight || rest[k].forced == CharType::RightToLeft || rest[k].forced
            == CharType::OtherNeutral by {
            assert(rest[k] == stack[k]);
        }
        if !stack.last().isolate {
            lemma_close_isolate_forces(rest);
        }
    }
}

/// What a frame of the stack forces on the characters is L, R or nothing.
pub proof fn lemma_stack_forces(types: Seq<CharType>, base: u8, i: int)
    requires
        0 <= i <= types.len(),
    ensures
        forces_directions(state_at(types, base, i).stack),
    decreases i,
{
    if i > 0 {
        lemma_stack_forces(types, base, i - 1);
        let e = state_at(types, base, i - 1);
        let t = types[i - 1];
        let after = state_at(types, base, i).stack;
        assert(after == step(e, types, base, i - 1).stack);
        if t == CharType::BlockSeparator {
        } else if t == CharType::PopDirectionalIsolate {
            lemma_close_isolate_forces(e.stack);
        } else {
            assert forall|k: int| 0 <= k < after.len() implies (#[trigger] after[k]).forced
                == CharType::LeftToRight || after[k].forced == CharType::RightToLeft
                || after[k].forced == CharType::OtherNeutral by {
                if k < e.stack.len() {
                    assert(after[k] == e.stack[k]);
                }
            }
        }
    }
}

/// Under an override a character that the rules read is an L or an R; elsewhere it
/// keeps its category.
pub proof fn lemma_explicit_kind(types: Seq<CharType>, base: u8, i: int)
    requires
        0 <= i < types.len(),
        base <= 1,
    ensures
        explicit_kind(types, base, i) == types[i] || explicit_kind(types, base, i)
            == CharType::LeftToRight || explicit_kind(types, base, i) == CharType::RightToLeft,
{
    lemma_stack_forces(types, base, i);
    lemma_stack_forces(types, base, i + 1);
    lemma_stack_is_bounded(types, base, i);
    lemma_stack_is_bounded(types, base, i + 1);
    let before = state_at(types, base, i).stack;
    let after = state_at(types, base, i + 1).stack;
    assert(before[before.len() - 1] == before.last());
    assert(after[after.len() - 1] == after.last());
}

/// What the explicit marks of a paragraph give to each of its characters.
pub struct Explicit {
    /// The embedding level of each character.
    pub levels: Vec<u8>,
    /// The category of each character, overrides applied.
    pub kinds: Vec<CharType>,
    /// For each PDI that closes an isolate, the position of the initiator.
    pub openers: Vec<Option<usize>>,
}

impl Explicit {
    /// The three lists are those of the paragraph `types` with the base level `base`.
    pub open spec fn is_for(&self, types: Seq<CharType>, base: u8) -> bool {
        &&& self.levels@ == Seq::new(types.len(), |i: int| explicit_level(types, base, i))
        &&& self.kinds@ == Seq::new(types.len(), |i: int| explicit_kind(types, base, i))
        &&& self.openers@ == Seq::new(types.len(), |i: int| opener_of(types, base, i))
    }
}

/// The least level above `level` that is odd, if `rtl`, or even, if not.
fn level_above(level: u8, rtl: bool) -> (next: u8)
    requires
        level <= MAX_DEPTH,
    ensures
        next == next_level(level, rtl),
{
    if rtl == (level % 2 == 1) {
        level + 2
    } else {
        level + 1
    }
}

/// Applies the explicit marks of a paragraph: gives each character its embedding level
/// and, under an override, the forced direction, and finds for each PDI the isolate
/// that it closes.
pub fn resolve_explicit(types: &Vec<CharType>, base: u8) -> (out: Explicit)
    requires
        base <= 1,
    ensures
        out.is_for(types@, base),
        forall|i: int| 0 <= i < types.len() ==> #[trigger] out.levels[i] <= MAX_DEPTH,
        forall|i: int|
            0 <= i < types.len() ==> (#[trigger] out.openers[i] matches Some(m) ==> m < i),
{
    let n = types.len();
    let mut levels: Vec<u8> = Vec::new();
    let mut kinds: Vec<CharType> = Vec::new();
    let mut openers: Vec<Option<usize>> = Vec::new();
    let mut stack: Vec<Frame> = Vec::new();
    stack.push(Frame { level: base, forced: CharType::OtherNeutral, isolate: false, opener: 0 });
    let mut overflow_isolates: usize = 0;
    let mut overflow_embeddings: usize = 0;
    let mut valid_isolates: usize = 0;
    let mut i: usize = 0;
    while i < n
        invariant
            n == types.len(),
            i <= n,
            levels.len() == i,
            kinds.len() == i,
            openers.len() == i,
            base <= 1,
            climbs(stack@),
            forall|k: int| 1 <= k < stack.len() ==> (#[trigger] stack[k]).opener < i,
            overflow_isolates <= i,
            overflow_embeddings <= i,
            valid_isolates <= i,
            state_at(types@, base, i as int) == (Embedding {
                stack: stack@,
                overflow_isolates: overflow_isolates as nat,
                overflow_embeddings: overflow_embeddings as nat,
                valid_isolates: valid_isolates as nat,
            }),
            forall|j: int| 0 <= j < i ==> #[trigger] levels[j] == explicit_level(types@, base, j),
            forall|j: int| 0 <= j < i ==> #[trigger] kinds[j] == explicit_kind(types@, base, j),
            forall|j: int| 0 <= j < i ==> #[trigger] openers[j] == opener_of(types@, base, j),
            forall|j: int| 0 <= j < i ==> #[trigger] levels[j] <= MAX_DEPTH,
            forall|j: int| 0 <= j < i ==> (#[trigger] openers[j] matches Some(m) ==> m < j),
        decreases n - i,
    {
        let t = types[i];
        let ghost before = state_at(types@, base, i as int);
        let top = stack[stack.len() - 1];
        let mut opener: Option<usize> = None;
        if t == CharType::BlockSeparator {
            stack.clear();
            stack.push(
                Frame { level: base, forced: CharType::OtherNeutral, isolate: false, opener: 0 },
            );
            overflow_isolates = 0;
            overflow_embeddings = 0;
            valid_isolates = 0;
        } else if t.is_explicit() && t != CharType::PopDirectionalFlag {
            let level = level_above(top.level, t.is_rtl());
            if level <= MAX_DEPTH && overflow_isolates == 0 && overflow_embeddings == 0 {
                stack.push(
                    Frame {
                        level,
                        forced: t.explicit_to_override_dir(),
                        isolate: false,
                        opener: i,
                    },
                );
            } else if overflow_isolates == 0 {
                overflow_embeddings += 1;
            }
        } else if t.is_isolate_initiator() {
            let rtl = if t == CharType::FirstStongIsolate {
                find_first_strong(types, i + 1, true) == ParagraphType::RightToLeft
            } else {
                t == CharType::RightToLeftIsolate
            };
            let level = level_above(top.level, rtl);
            if level <= MAX_DEPTH && overflow_isolates == 0 && overflow_embeddings == 0 {
                stack.push(
                    Frame { level, forced: CharType::OtherNeutral, isolate: true, opener: i },
                );
                valid_isolates += 1;
            } else {
                overflow_isolates += 1;
            }
        } else if t == CharType::PopDirectionalIsolate {
            if overflow_isolates > 0 {
                overflow_isolates -= 1;
            } else if valid_isolates > 0 {
                while stack.len() > 1 && !stack[stack.len() - 1].isolate
                    invariant
                        climbs(stack@),
                        forall|k: int| 1 <= k < stack.len() ==> (#[trigger] stack[k]).opener < i,
                        close_isolate(stack@) == close_isolate(before.stack),
                        last_isolate(stack@) == last_isolate(before.stack),
                    decreases stack.len(),
                {
                    stack.pop();
                }
                if stack.len() > 1 {
                    opener = Some(stack[stack.len() - 1].opener);
                    stack.pop();
                }
                overflow_embeddings = 0;
                valid_isolates -= 1;
            }
        } else if t == CharType::PopDirectionalFlag {
            if overflow_isolates > 0 {
            } else if overflow_embeddings > 0 {
                overflow_embeddings -= 1;
            } else if !top.isolate && stack.len() >= 2 {
                stack.pop();
            }
        }
        proof {
            assert(state_at(types@, base, i as int + 1) == step(before, types@, base, i as int));
            assert(state_at(types@, base, i as int + 1).stack == stack@);
        }
        let frame = if t == CharType::PopDirectionalIsolate || t == CharType::BlockSeparator {
            stack[stack.len() - 1]
        } else {
            top
        };
        levels.push(frame.level);
        if t.is_explicit_or_bn() || frame.forced == CharType::OtherNeutral {
            kinds.push(t);
        } else {
            kinds.push(frame.forced);
        }
        openers.push(opener);
        i += 1;
    }
    let out = Explicit { levels, kinds, openers };
    assert(out.levels@ =~= Seq::new(types@.len(), |i: int| explicit_level(types@, base, i)));
    assert(out.kinds@ =~= Seq::new(types@.len(), |i: int| explicit_kind(types@, base, i)));
    assert(out.openers@ =~= Seq::new(types@.len(), |i: int| opener_of(types@, base, i)));
    out
}

} // verus!
