//! The last steps of the resolution of levels: the implicit levels, which the category
//! of a character adds to its embedding level, and the levels that are reset to the
//! base level of the paragraph.

use vstd::prelude::*;
use crate::char::CharType;
use crate::explicit::MAX_DEPTH;
use crate::runs::Runs;
use crate::runs::Sequences;
use crate::runs::kept;

verus! {

/// The level of a character of the category `t` at the embedding level `level`: at an
/// even level an R goes up by one and a number by two, at an odd level an L or a number
/// goes up by one.
pub open spec fn implicit_level(level: u8, t: CharType) -> int {
    if level % 2 == 0 {
        if t.spec_is_number() {
            level + 2
        } else if t.spec_is_right_to_left_letter() {
            level + 1
        } else {
            level as int
        }
    } else {
        if t.spec_is_number() || t == CharType::LeftToRight {
            level + 1
        } else {
            level as int
        }
    }
}

/// The level of the character at `i` before any level is reset. An embedding, an
/// override, a PDF or a BN has the level of the character before it, and the base level
/// at the start of the paragraph.
pub open spec fn level_at(s: Sequences, t: Seq<CharType>, base: u8, i: int) -> int
    decreases i + 1,
{
    if i < 0 {
        base as int
    } else if kept(s.orig, i) {
        implicit_level(s.levels[i], t[i])
    } else {
        level_at(s, t, base, i - 1)
    }
}

/// The highest of the base level and the levels of the characters before `i` that are
/// no embedding, override, PDF or BN.
pub open spec fn highest_before(s: Sequences, t: Seq<CharType>, base: u8, i: int) -> int
    decreases i,
{
    if i <= 0 {
        base as int
    } else {
        let before = highest_before(s, t, base, i - 1);
        if kept(s.orig, i - 1) && implicit_level(s.levels[i - 1], t[i - 1]) > before {
            implicit_level(s.levels[i - 1], t[i - 1])
        } else {
            before
        }
    }
}

/// A category whose level is reset where it stands before a separator or at the end of
/// the paragraph: white space, the isolate controls, and what the rules pass over.
pub open spec fn trails(t: CharType) -> bool {
    t.spec_is_explicit_or_bn_or_ws() || t.spec_is_isolate()
}

/// Whether the level of the character at `i` is reset to the base level: it is a
/// separator, or it stands in a run of trailing characters that ends before a separator
/// or at the end of the paragraph.
pub open spec fn is_reset(orig: Seq<CharType>, i: int) -> bool
    decreases orig.len() - i,
{
    if i < 0 || i >= orig.len() {
        true
    } else {
        orig[i].spec_is_separator() || (trails(orig[i]) && is_reset(orig, i + 1))
    }
}

/// The level that the character at `i` ends with.
pub open spec fn final_level(s: Sequences, t: Seq<CharType>, base: u8, i: int) -> int {
    if is_reset(s.orig, i) {
        base as int
    } else {
        level_at(s, t, base, i)
    }
}

/// The levels that the characters of a paragraph end with.
pub open spec fn final_levels(s: Sequences, t: Seq<CharType>, base: u8) -> Seq<u8> {
    Seq::new(s.len(), |i: int| final_level(s, t, base, i) as u8)
}

/// The level of a character goes with its direction: it is even for an L and for a
/// number, and odd for an R. It is the embedding level or above it, by two at most.
pub proof fn lemma_implicit_level(level: u8, t: CharType)
    ensures
        level <= implicit_level(level, t) <= level + 2,
        t == CharType::LeftToRight ==> implicit_level(level, t) % 2 == 0,
        t.spec_is_right_to_left_letter() ==> implicit_level(level, t) % 2 == 1,
        t.spec_is_number() ==> implicit_level(level, t) % 2 == 0 && implicit_level(level, t)
            > level,
{
}

/// Where no embedding level is below the base level, no level is.
pub proof fn lemma_level_floor(s: Sequences, t: Seq<CharType>, base: u8, i: int)
    requires
        i < s.len(),
        forall|k: int| 0 <= k < s.len() ==> #[trigger] s.levels[k] >= base,
    ensures
        level_at(s, t, base, i) >= base,
        final_level(s, t, base, i) >= base,
    decreases i + 1,
{
    if i >= 0 {
        if kept(s.orig, i) {
            assert(s.levels[i] >= base);
        } else {
            lemma_level_floor(s, t, base, i - 1);
        }
    }
}

/// The highest level is the base level or above it, and no level of a character before
/// `n` is above it.
pub proof fn lemma_highest(s: Sequences, t: Seq<CharType>, base: u8, n: int, i: int)
    requires
        i < n,
    ensures
        base <= highest_before(s, t, base, n),
        level_at(s, t, base, i) <= highest_before(s, t, base, n),
        final_level(s, t, base, i) <= highest_before(s, t, base, n),
    decreases n, i + 1,
{
    if n > 0 {
        if i < n - 1 {
            lemma_highest(s, t, base, n - 1, i);
        } else {
            lemma_highest(s, t, base, n - 1, -1);
        }
    }
    if i >= 0 && !kept(s.orig, i) {
        lemma_highest(s, t, base, n, i - 1);
    }
}

/// Where no embedding level is above 125, no level is above 126.
pub proof fn lemma_level_ceiling(s: Sequences, t: Seq<CharType>, base: u8, i: int)
    requires
        base <= 1,
        i < s.len(),
        forall|k: int| 0 <= k < s.len() ==> #[trigger] s.levels[k] <= MAX_DEPTH,
    ensures
        0 <= level_at(s, t, base, i) <= MAX_DEPTH + 1,
        0 <= final_level(s, t, base, i) <= MAX_DEPTH + 1,
    decreases i + 1,
{
    if i >= 0 {
        if kept(s.orig, i) {
            assert(s.levels[i] <= MAX_DEPTH);
        } else {
            lemma_level_ceiling(s, t, base, i - 1);
        }
    }
}

/// In a paragraph with the base level 0, a text of L at the level 0 stays at the level
/// 0.
pub proof fn lemma_letters_stay(s: Sequences, t: Seq<CharType>)
    requires
        s.levels.len() == s.len(),
        t.len() == s.len(),
        forall|i: int| 0 <= i < s.len() ==> #[trigger] s.orig[i] == CharType::LeftToRight,
        forall|i: int| 0 <= i < s.len() ==> #[trigger] t[i] == CharType::LeftToRight,
        forall|i: int| 0 <= i < s.len() ==> #[trigger] s.levels[i] == 0,
    ensures
        final_levels(s, t, 0) == Seq::new(s.len(), |i: int| 0u8),
        highest_before(s, t, 0, s.len() as int) == 0,
{
    assert forall|i: int| 0 <= i < s.len() implies final_level(s, t, 0, i) == 0 by {
        assert(s.orig[i] == CharType::LeftToRight);
        assert(t[i] == CharType::LeftToRight);
        assert(s.levels[i] == 0);
    }
    assert(final_levels(s, t, 0) =~= Seq::new(s.len(), |i: int| 0u8));
    lemma_highest_of_letters(s, t, s.len() as int);
}

/// The levels of a text of L at the level 0 are not above 0.
pub proof fn lemma_highest_of_letters(s: Sequences, t: Seq<CharType>, n: int)
    requires
        n <= s.len(),
        s.levels.len() == s.len(),
        t.len() == s.len(),
        forall|i: int| 0 <= i < s.len() ==> #[trigger] t[i] == CharType::LeftToRight,
        forall|i: int| 0 <= i < s.len() ==> #[trigger] s.levels[i] == 0,
    ensures
        highest_before(s, t, 0, n) == 0,
    decreases n,
{
    if n > 0 {
        lemma_highest_of_letters(s, t, n - 1);
        assert(t[n - 1] == CharType::LeftToRight);
        assert(s.levels[n - 1] == 0);
    }
}

/// The level of a character of the category `t` at the embedding level `level`.
fn level_with(level: u8, t: CharType) -> (l: u8)
    requires
        level <= MAX_DEPTH,
    ensures
        l == implicit_level(level, t),
        l <= MAX_DEPTH + 1,
{
    if level % 2 == 0 {
        if t.is_number() {
            level + 2
        } else if t.is_right_to_left_letter() {
            level + 1
        } else {
            level
        }
    } else {
        if t.is_number() || t == CharType::LeftToRight {
            level + 1
        } else {
            level
        }
    }
}

/// Gives each character of a paragraph its final level, from its embedding level and
/// its resolved category `t`. Returns the levels, and the highest level that a character
/// had before the trailing ones were reset.
pub fn resolve_implicit(runs: &Runs, t: &Vec<CharType>, base: u8) -> (out: (Vec<u8>, u8))
    requires
        runs@.wf(),
        t.len() == runs@.len(),
        base <= 1,
    ensures
        out.0@ == final_levels(runs@, t@, base),
        out.1 == highest_before(runs@, t@, base, runs@.len() as int),
        out.1 <= MAX_DEPTH + 1,
        forall|i: int| 0 <= i < out.0.len() ==> #[trigger] out.0[i] <= MAX_DEPTH + 1,
{
    let n = t.len();
    let mut levels: Vec<u8> = Vec::new();
    let mut highest: u8 = base;
    let mut last: u8 = base;
    let mut i: usize = 0;
    while i < n
        invariant
            runs@.wf(),
            n == t.len(),
            n == runs@.len(),
            base <= 1,
            i <= n,
            levels.len() == i,
            last == level_at(runs@, t@, base, i as int - 1),
            last <= MAX_DEPTH + 1,
            highest == highest_before(runs@, t@, base, i as int),
            highest <= MAX_DEPTH + 1,
            forall|k: int| 0 <= k < i ==> #[trigger] levels[k] == level_at(runs@, t@, base, k),
            forall|k: int| 0 <= k < i ==> #[trigger] levels[k] <= MAX_DEPTH + 1,
        decreases n - i,
    {
        if !runs.orig[i].is_explicit_or_bn() {
            last = level_with(runs.levels[i], t[i]);
            if last > highest {
                highest = last;
            }
        }
        levels.push(last);
        i += 1;
    }
    let mut reset = true;
    let mut i: usize = n;
    while i > 0
        invariant
            runs@.wf(),
            n == t.len(),
            n == runs@.len(),
            base <= 1,
            levels.len() == n,
            i <= n,
            reset == is_reset(runs@.orig, i as int),
            forall|k: int| 0 <= k < i ==> #[trigger] levels[k] == level_at(runs@, t@, base, k),
            forall|k: int| i <= k < n ==> #[trigger] levels[k] == final_level(runs@, t@, base, k),
            forall|k: int| 0 <= k < n ==> #[trigger] levels[k] <= MAX_DEPTH + 1,
        decreases i,
    {
        i -= 1;
        let kind = runs.orig[i];
        reset = kind.is_separator() || ((kind.is_explicit_or_bn_or_ws() || kind.is_isolate())
            && reset);
        if reset {
            levels.set(i, base);
        }
    }
    assert(levels@ =~= final_levels(runs@, t@, base));
    (levels, highest)
}

} // verus!
