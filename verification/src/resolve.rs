//! The resolution of the embedding levels of a paragraph, rule by rule.

use vstd::prelude::*;
use crate::bracket::BracketType;
use crate::char::CharType;
use crate::explicit::MAX_DEPTH;
use crate::explicit::explicit_kind;
use crate::explicit::explicit_level;
use crate::explicit::opener_of;
use crate::explicit::resolve_explicit;
use crate::implicit::final_levels;
use crate::implicit::is_reset;
use crate::implicit::highest_before;
use crate::implicit::resolve_implicit;
use crate::neutral::neutral_types;
use crate::neutral::resolve_neutral;
use crate::pairs::bracket_types;
use crate::pairs::resolve_brackets;
use crate::paragraph::ParagraphType;
use crate::paragraph::find_first_strong;
use crate::paragraph::first_strong;
use crate::runs::Sequences;
use crate::runs::is_direction;
use crate::runs::kept;
use crate::runs::link;
use crate::runs::sequences_of;
use crate::weak::is_settled;
use crate::weak::readable;
use crate::weak::resolve_weak;
use crate::weak::weak_types;

verus! {

/// The direction that a paragraph is resolved to: the direction `dir` that the caller
/// asks for if it is `LeftToRight` or `RightToLeft`; else that of the first letter of
/// the paragraph outside every isolate; and for a paragraph without such a letter the
/// direction that `dir` hints at, or `OtherNeutral` if it hints at none.
pub open spec fn resolved_direction(types: Seq<CharType>, dir: ParagraphType) -> ParagraphType {
    if dir.spec_is_strong() {
        dir
    } else {
        match first_strong(types, 0, 0, false) {
            ParagraphType::RightToLeft => ParagraphType::RightToLeft,
            ParagraphType::LeftToRight => ParagraphType::LeftToRight,
            _ => match dir {
                ParagraphType::WeakRightToLeft => ParagraphType::RightToLeft,
                ParagraphType::WeakLeftToRight => ParagraphType::LeftToRight,
                _ => ParagraphType::OtherNeutral,
            },
        }
    }
}

/// The base level of a paragraph: 1 if it is resolved to run right to left, else 0.
pub open spec fn base_level_of(types: Seq<CharType>, dir: ParagraphType) -> u8 {
    if resolved_direction(types, dir) == ParagraphType::RightToLeft {
        1
    } else {
        0
    }
}

/// The isolating run sequences of a paragraph with the base level `base`.
pub open spec fn paragraph_sequences(types: Seq<CharType>, base: u8) -> Sequences {
    sequences_of(
        types,
        Seq::new(types.len(), |i: int| explicit_level(types, base, i)),
        Seq::new(types.len(), |i: int| opener_of(types, base, i)),
        base,
    )
}

/// The category that each character of a paragraph is resolved to: L, R, EN or AN for
/// a character that the rules read. The rule for paired brackets is applied if the
/// brackets of the paragraph are given.
pub open spec fn resolved_types(
    types: Seq<CharType>,
    brackets: Option<Seq<BracketType>>,
    base: u8,
) -> Seq<CharType> {
    let s = paragraph_sequences(types, base);
    let explicit = Seq::new(types.len(), |i: int| explicit_kind(types, base, i));
    let weak = weak_types(s, explicit);
    let paired = match brackets {
        Some(b) => bracket_types(s, weak, b),
        None => weak,
    };
    neutral_types(s, paired)
}

/// The levels that the characters of a paragraph are resolved to.
pub open spec fn paragraph_levels(
    types: Seq<CharType>,
    brackets: Option<Seq<BracketType>>,
    dir: ParagraphType,
) -> Seq<u8> {
    let base = base_level_of(types, dir);
    final_levels(paragraph_sequences(types, base), resolved_types(types, brackets, base), base)
}

/// One more than the highest level of a paragraph: the highest of its base level and of
/// the levels that its characters have before the trailing ones are reset. It is 1 for
/// a paragraph without characters.
pub open spec fn paragraph_depth(
    types: Seq<CharType>,
    brackets: Option<Seq<BracketType>>,
    dir: ParagraphType,
) -> int {
    let base = base_level_of(types, dir);
    if types.len() == 0 {
        1
    } else {
        highest_before(
            paragraph_sequences(types, base),
            resolved_types(types, brackets, base),
            base,
            types.len() as int,
        ) + 1
    }
}

/// The brackets that a caller gives, as a sequence.
pub open spec fn brackets_given(brackets: Option<&Vec<BracketType>>) -> Option<Seq<BracketType>> {
    match brackets {
        Some(b) => Some(b@),
        None => None,
    }
}

/// Each character of a paragraph that the rules read is resolved to an L, an R or a
/// number; and unless its level is reset, its level goes with its direction: it is odd
/// for an R, and even for an L and for a number.
pub proof fn lemma_levels_follow_directions(
    types: Seq<CharType>,
    brackets: Option<Seq<BracketType>>,
    dir: ParagraphType,
    i: int,
)
    requires
        0 <= i < types.len() <= usize::MAX,
        kept(types, i),
    ensures
        ({
            let base = base_level_of(types, dir);
            let t = resolved_types(types, brackets, base)[i];
            let level = paragraph_levels(types, brackets, dir)[i];
            &&& is_direction(t) || t.spec_is_number()
            &&& !is_reset(types, i) ==> (level % 2 == 1 <==> t == CharType::RightToLeft)
        }),
{
    let base = base_level_of(types, dir);
    let s = paragraph_sequences(types, base);
    let explicit = Seq::new(types.len(), |k: int| explicit_kind(types, base, k));
    let levels = Seq::new(types.len(), |k: int| explicit_level(types, base, k));
    let openers = Seq::new(types.len(), |k: int| opener_of(types, base, k));
    assert forall|k: int| 0 <= k < types.len() implies (#[trigger] openers[k] matches Some(m)
        ==> m < k && types[m as int].spec_is_isolate_initiator()) by {
        crate::explicit::lemma_opener_is_initiator(types, base, k);
    }
    crate::runs::lemma_sequences_linked(types, levels, openers, base);
    assert forall|k: int| 0 <= k < explicit.len() && kept(s.orig, k) implies !(
    #[trigger] explicit[k]).spec_is_explicit_or_bn() by {
        crate::explicit::lemma_explicit_kind(types, base, k);
    }
    crate::weak::lemma_weak_settles(s, explicit);
    let weak = weak_types(s, explicit);
    let paired = match brackets {
        Some(b) => bracket_types(s, weak, b),
        None => weak,
    };
    match brackets {
        Some(b) => {
            crate::pairs::lemma_brackets_directed(
                s,
                crate::pairs::pairs_upto(s, weak, b, s.len() as int),
                weak,
                s.len() as int,
            );
        },
        None => {},
    }
    assert(paired[i] == weak[i] || is_direction(paired[i]));
    assert(is_settled(paired[i]));
    crate::neutral::lemma_neutral_resolves(s, paired, i);
    let t = resolved_types(types, brackets, base)[i];
    assert(t == neutral_types(s, paired)[i]);
    assert(is_direction(t) || t.spec_is_number());
    crate::explicit::lemma_explicit_level(types, base, i);
    assert(s.levels[i] == explicit_level(types, base, i));
    crate::implicit::lemma_implicit_level(s.levels[i], t);
    if !is_reset(types, i) {
        let all = resolved_types(types, brackets, base);
        assert(crate::implicit::final_level(s, all, base, i) == crate::implicit::implicit_level(
            s.levels[i],
            t,
        ));
        assert(paragraph_levels(types, brackets, dir)[i] == crate::implicit::final_level(
            s,
            all,
            base,
            i,
        ) as u8);
    }
}

/// The level of each character of a paragraph is at the base level or above it, at 126
/// at most, and below what is returned as one more than the highest level.
pub proof fn lemma_levels_in_range(
    types: Seq<CharType>,
    brackets: Option<Seq<BracketType>>,
    dir: ParagraphType,
    i: int,
)
    requires
        0 <= i < types.len(),
    ensures
        paragraph_levels(types, brackets, dir).len() == types.len(),
        base_level_of(types, dir) <= paragraph_levels(types, brackets, dir)[i] <= MAX_DEPTH + 1,
        paragraph_levels(types, brackets, dir)[i] < paragraph_depth(types, brackets, dir),
{
    let base = base_level_of(types, dir);
    let s = paragraph_sequences(types, base);
    let t = resolved_types(types, brackets, base);
    assert forall|k: int| 0 <= k < s.len() implies base <= #[trigger] s.levels[k]
        <= MAX_DEPTH by {
        crate::explicit::lemma_explicit_level(types, base, k);
    }
    crate::implicit::lemma_level_floor(s, t, base, i);
    crate::implicit::lemma_level_ceiling(s, t, base, i);
    crate::implicit::lemma_highest(s, t, base, types.len() as int, i);
}

/// Whether a paragraph holds nothing but L and is not asked to run right to left.
pub open spec fn is_left_to_right(types: Seq<CharType>, dir: ParagraphType) -> bool {
    &&& dir != ParagraphType::RightToLeft
    &&& forall|i: int| 0 <= i < types.len() ==> #[trigger] types[i] == CharType::LeftToRight
}

/// A paragraph of L that is not asked to run right to left has the level 0 throughout,
/// with or without brackets, and one more than its highest level is 1.
pub proof fn lemma_left_to_right_levels(
    types: Seq<CharType>,
    brackets: Option<Seq<BracketType>>,
    dir: ParagraphType,
)
    requires
        forall|i: int| 0 <= i < types.len() ==> #[trigger] types[i] == CharType::LeftToRight,
        dir != ParagraphType::RightToLeft,
    ensures
        paragraph_levels(types, brackets, dir) == Seq::new(types.len(), |i: int| 0u8),
        paragraph_depth(types, brackets, dir) == 1,
        types.len() > 0 ==> resolved_direction(types, dir) == ParagraphType::LeftToRight,
{
    if types.len() == 0 {
        let base = base_level_of(types, dir);
        let s = paragraph_sequences(types, base);
        assert(final_levels(s, resolved_types(types, brackets, base), base) =~= Seq::new(
            types.len(),
            |i: int| 0u8,
        ));
    } else {
        assert(types[0] == CharType::LeftToRight);
        assert(first_strong(types, 0, 0, false) == ParagraphType::LeftToRight);
        let s = paragraph_sequences(types, 0);
        let explicit = Seq::new(types.len(), |i: int| explicit_kind(types, 0, i));
        assert forall|i: int| 0 <= i < types.len() implies #[trigger] explicit[i]
            == CharType::LeftToRight && s.levels[i] == 0 by {
            assert(types[i] == CharType::LeftToRight);
            crate::explicit::lemma_plain_state(types, 0, i);
            crate::explicit::lemma_plain_state(types, 0, i + 1);
        }
        assert(explicit =~= types);
        crate::weak::lemma_weak_keeps_letters(s, types);
        match brackets {
            Some(b) => {
                crate::pairs::lemma_brackets_keep_others(s, types, b);
            },
            None => {},
        }
        crate::neutral::lemma_neutral_keeps_others(s, types);
        assert(resolved_types(types, brackets, 0) == types);
        crate::implicit::lemma_letters_stay(s, types);
    }
}

/// Resolves the direction of a paragraph from the direction that the caller asks for
/// and from its characters.
pub fn resolve_direction(types: &Vec<CharType>, dir: ParagraphType) -> (d: ParagraphType)
    ensures
        d == resolved_direction(types@, dir),
        d.is_resolved(),
{
    if dir.is_strong() {
        dir
    } else {
        match find_first_strong(types, 0, false) {
            ParagraphType::RightToLeft => ParagraphType::RightToLeft,
            ParagraphType::LeftToRight => ParagraphType::LeftToRight,
            _ => match dir {
                ParagraphType::WeakRightToLeft => ParagraphType::RightToLeft,
                ParagraphType::WeakLeftToRight => ParagraphType::LeftToRight,
                _ => ParagraphType::OtherNeutral,
            },
        }
    }
}

/// Resolves the levels of a paragraph: the explicit levels, the rules for weak
/// characters, for paired brackets and for neutrals, the implicit levels, and the reset
/// of separators and of what trails before them. Returns the levels, one more than the
/// highest level, and the direction that the paragraph is resolved to.
pub fn resolve_levels(
    types: &Vec<CharType>,
    brackets: Option<&Vec<BracketType>>,
    dir: ParagraphType,
) -> (out: (Vec<u8>, u8, ParagraphType))
    requires
        brackets matches Some(b) ==> b.len() == types.len(),
    ensures
        out.0@ == paragraph_levels(types@, brackets_given(brackets), dir),
        out.0.len() == types.len(),
        out.1 == paragraph_depth(types@, brackets_given(brackets), dir),
        out.2 == resolved_direction(types@, dir),
        forall|i: int|
            0 <= i < out.0.len() ==> base_level_of(types@, dir) <= #[trigger] out.0[i]
                <= MAX_DEPTH + 1 && out.0[i] < out.1,
        1 <= out.1 <= MAX_DEPTH + 2,
{
    let resolved = resolve_direction(types, dir);
    let base: u8 = if resolved == ParagraphType::RightToLeft {
        1
    } else {
        0
    };
    let explicit = resolve_explicit(types, base);
    let ghost s = paragraph_sequences(types@, base);
    assert(explicit.levels@ == s.levels);
    let (runs, kinds) = link(types, explicit, base);
    assert(runs@ == s);
    let weak = resolve_weak(&runs, &kinds);
    let paired = match brackets {
        Some(b) => resolve_brackets(&runs, weak, b),
        None => weak,
    };
    let neutral = resolve_neutral(&runs, &paired);
    assert(neutral@ == resolved_types(types@, brackets_given(brackets), base));
    let (levels, highest) = resolve_implicit(&runs, &neutral, base);
    let depth: u8 = if types.len() == 0 {
        1
    } else {
        highest + 1
    };
    proof {
        assert forall|i: int| 0 <= i < levels.len() implies base <= #[trigger] levels[i]
            && levels[i] < depth by {
            lemma_levels_in_range(types@, brackets_given(brackets), dir, i);
        }
    }
    (levels, depth, resolved)
}

} // verus!
