//! The rules for neutral characters and isolate controls: each takes the direction of
//! the strong text around it if that is one direction, and the direction of its
//! embedding level if not.

use vstd::prelude::*;
use crate::char::CharType;
use crate::runs::Runs;
use crate::runs::Sequences;
use crate::runs::direction_of;
use crate::runs::is_direction;
use crate::runs::level_direction;

verus! {

/// The direction that a character shows to the neutrals around it: L for L, R for R,
/// AL and the numbers, none for any other character.
pub open spec fn strong_direction(t: CharType) -> Option<CharType> {
    if t == CharType::LeftToRight {
        Some(CharType::LeftToRight)
    } else if t.spec_is_right_to_left_letter() || t.spec_is_number() {
        Some(CharType::RightToLeft)
    } else {
        None
    }
}

/// The direction of the last character before `i` that shows one, or the direction
/// before the sequence if there is none.
pub open spec fn direction_before(s: Sequences, t: Seq<CharType>, i: int) -> CharType
    decreases i,
{
    match s.prev[i] {
        Some(p) => if p < i {
            match strong_direction(t[p as int]) {
                Some(d) => d,
                None => direction_before(s, t, p as int),
            }
        } else {
            s.sos[i]
        },
        None => s.sos[i],
    }
}

/// The direction of the first character after `i` that shows one, or the direction
/// after the sequence if there is none.
pub open spec fn direction_after(s: Sequences, t: Seq<CharType>, i: int) -> CharType
    decreases t.len() - i,
{
    match s.next[i] {
        Some(q) => if i < q < t.len() {
            match strong_direction(t[q as int]) {
                Some(d) => d,
                None => direction_after(s, t, q as int),
            }
        } else {
            s.eos[i]
        },
        None => s.eos[i],
    }
}

/// A neutral or an isolate control between two texts of one direction takes that
/// direction; any other takes the direction of its embedding level.
pub open spec fn n12(s: Sequences, t: Seq<CharType>, i: int) -> CharType {
    if t[i].spec_is_neutral_or_isolate() {
        if direction_before(s, t, i) == direction_after(s, t, i) {
            direction_before(s, t, i)
        } else {
            direction_of(s.levels[i])
        }
    } else {
        t[i]
    }
}

/// The categories after the rules for neutral characters.
pub open spec fn neutral_types(s: Sequences, t: Seq<CharType>) -> Seq<CharType> {
    Seq::new(t.len(), |i: int| n12(s, t, i))
}

/// What a neutral finds before it is a direction.
pub proof fn lemma_direction_before(s: Sequences, t: Seq<CharType>, i: int)
    requires
        s.linked(),
        s.prev.len() == s.len(),
        0 <= i < s.len(),
    ensures
        is_direction(direction_before(s, t, i)),
    decreases i,
{
    assert(is_direction(s.sos[i]));
    match s.prev[i] {
        Some(p) => {
            if p < i && strong_direction(t[p as int]).is_none() {
                lemma_direction_before(s, t, p as int);
            }
        },
        None => {},
    }
}

/// What a neutral finds after it is a direction.
pub proof fn lemma_direction_after(s: Sequences, t: Seq<CharType>, i: int)
    requires
        s.linked(),
        s.next.len() == s.len(),
        t.len() == s.len(),
        0 <= i < s.len(),
    ensures
        is_direction(direction_after(s, t, i)),
    decreases t.len() - i,
{
    assert(is_direction(s.eos[i]));
    match s.next[i] {
        Some(q) => {
            if i < q < t.len() && strong_direction(t[q as int]).is_none() {
                lemma_direction_after(s, t, q as int);
            }
        },
        None => {},
    }
}

/// The rules for neutral characters leave no neutral and no isolate control: each
/// becomes an L or an R, and every other character stays what it is.
pub proof fn lemma_neutral_resolves(s: Sequences, t: Seq<CharType>, i: int)
    requires
        s.linked(),
        s.prev.len() == s.len(),
        0 <= i < s.len(),
        t.len() == s.len(),
    ensures
        neutral_types(s, t)[i] == (if t[i].spec_is_neutral_or_isolate() {
            neutral_types(s, t)[i]
        } else {
            t[i]
        }),
        t[i].spec_is_neutral_or_isolate() ==> is_direction(neutral_types(s, t)[i]),
{
    lemma_direction_before(s, t, i);
}

/// The rules for neutral characters leave a text without neutrals and isolate controls
/// alone.
pub proof fn lemma_neutral_keeps_others(s: Sequences, t: Seq<CharType>)
    requires
        forall|i: int| 0 <= i < t.len() ==> !(#[trigger] t[i]).spec_is_neutral_or_isolate(),
    ensures
        neutral_types(s, t) == t,
{
    assert(neutral_types(s, t) =~= t);
}

/// The direction that a character shows to the neutrals around it.
pub fn direction_shown(t: CharType) -> (d: Option<CharType>)
    ensures
        d == strong_direction(t),
{
    if t == CharType::LeftToRight {
        Some(CharType::LeftToRight)
    } else if t.is_right_to_left_letter() || t.is_number() {
        Some(CharType::RightToLeft)
    } else {
        None
    }
}

/// Applies the rules for neutral characters to the categories `t` of a paragraph.
pub fn resolve_neutral(runs: &Runs, t: &Vec<CharType>) -> (out: Vec<CharType>)
    requires
        runs@.wf(),
        t.len() == runs@.len(),
    ensures
        out@ == neutral_types(runs@, t@),
        out.len() == t.len(),
{
    let n = t.len();
    let mut after: Vec<CharType> = Vec::new();
    let mut k: usize = 0;
    while k < n
        invariant
            k <= n,
            after.len() == k,
        decreases n - k,
    {
        after.push(CharType::LeftToRight);
        k += 1;
    }
    let mut i: usize = n;
    while i > 0
        invariant
            runs@.wf(),
            n == t.len(),
            n == runs@.len(),
            after.len() == n,
            i <= n,
            forall|k: int| i <= k < n ==> #[trigger] after[k] == direction_after(runs@, t@, k),
        decreases i,
    {
        i -= 1;
        let d = match runs.next[i] {
            Some(q) => match direction_shown(t[q]) {
                Some(d) => d,
                None => after[q],
            },
            None => runs.eos[i],
        };
        after.set(i, d);
    }
    let mut before: Vec<CharType> = Vec::new();
    let mut out: Vec<CharType> = Vec::new();
    let mut i: usize = 0;
    while i < n
        invariant
            runs@.wf(),
            n == t.len(),
            n == runs@.len(),
            after.len() == n,
            i <= n,
            out.len() == i,
            before.len() == i,
            forall|k: int| 0 <= k < n ==> #[trigger] after[k] == direction_after(runs@, t@, k),
            forall|k: int| 0 <= k < i ==> #[trigger] before[k] == direction_before(runs@, t@, k),
            forall|k: int| 0 <= k < i ==> #[trigger] out[k] == n12(runs@, t@, k),
        decreases n - i,
    {
        let d = match runs.prev[i] {
            Some(p) => match direction_shown(t[p]) {
                Some(d) => d,
                None => before[p],
            },
            None => runs.sos[i],
        };
        before.push(d);
        let kind = if t[i].is_neutral_or_isolate() {
            if d == after[i] {
                d
            } else {
                level_direction(runs.levels[i])
            }
        } else {
            t[i]
        };
        out.push(kind);
        i += 1;
    }
    assert(out@ =~= neutral_types(runs@, t@));
    out
}

} // verus!
