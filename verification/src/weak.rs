//! The rules for weak characters: non-spacing marks, numbers, and the separators and
//! terminators of numbers.
//!
//! Each rule reads the categories that the rule before it left and is applied to the
//! whole paragraph before the next one. "Before" and "after" a character mean before and
//! after it in its isolating run sequence.

use vstd::prelude::*;
use crate::char::CharType;
use crate::runs::Runs;
use crate::runs::Sequences;
use crate::runs::is_direction;
use crate::runs::kept;

verus! {

/// A non-spacing mark takes the category of the character before it, or the direction
/// before the sequence where it is the first. After an isolate initiator or a PDI it
/// becomes a neutral.
pub open spec fn w1(s: Sequences, t: Seq<CharType>, i: int) -> CharType
    decreases i,
{
    if t[i] == CharType::NonSpacingMark {
        match s.prev[i] {
            Some(p) => if p < i {
                let before = w1(s, t, p as int);
                if before.spec_is_isolate() {
                    CharType::OtherNeutral
                } else {
                    before
                }
            } else {
                s.sos[i]
            },
            None => s.sos[i],
        }
    } else {
        t[i]
    }
}

/// The last letter (L, R or AL) before `i`, or the direction before the sequence if
/// there is none.
pub open spec fn strong_before(s: Sequences, t: Seq<CharType>, i: int) -> CharType
    decreases i,
{
    match s.prev[i] {
        Some(p) => if p < i {
            if t[p as int].spec_is_letter() {
                t[p as int]
            } else {
                strong_before(s, t, p as int)
            }
        } else {
            s.sos[i]
        },
        None => s.sos[i],
    }
}

/// A European number after an Arabic letter becomes an Arabic number; then every Arabic
/// letter becomes R.
pub open spec fn w23(s: Sequences, t: Seq<CharType>, i: int) -> CharType {
    if t[i] == CharType::EuropeanNumeral && strong_before(s, t, i) == CharType::ArabicLetter {
        CharType::ArabicNumeral
    } else if t[i] == CharType::ArabicLetter {
        CharType::RightToLeft
    } else {
        t[i]
    }
}

/// A single European separator between two European numbers becomes a European number;
/// a single common separator between two numbers of one kind becomes a number of that
/// kind.
pub open spec fn w4(s: Sequences, t: Seq<CharType>, i: int) -> CharType {
    match (s.prev[i], s.next[i]) {
        (Some(p), Some(q)) => {
            let before = t[p as int];
            let after = t[q as int];
            if t[i] == CharType::EuropeanNumberSeparator && before == CharType::EuropeanNumeral
                && after == CharType::EuropeanNumeral {
                CharType::EuropeanNumeral
            } else if t[i] == CharType::CommonSeparator && before == after
                && before.spec_is_number() {
                before
            } else {
                t[i]
            }
        },
        _ => t[i],
    }
}

/// `i` is a terminator, and after it and the terminators that follow it comes a
/// European number.
pub open spec fn number_follows(s: Sequences, t: Seq<CharType>, i: int) -> bool
    decreases t.len() - i,
{
    t[i] == CharType::EuropeanNumberTerminator && match s.next[i] {
        Some(q) => i < q < t.len() && (t[q as int] == CharType::EuropeanNumeral
            || number_follows(s, t, q as int)),
        None => false,
    }
}

/// `i` is a terminator, and before it and the terminators that precede it comes a
/// European number.
pub open spec fn number_precedes(s: Sequences, t: Seq<CharType>, i: int) -> bool
    decreases i,
{
    t[i] == CharType::EuropeanNumberTerminator && match s.prev[i] {
        Some(p) => p < i && (t[p as int] == CharType::EuropeanNumeral || number_precedes(
            s,
            t,
            p as int,
        )),
        None => false,
    }
}

/// A run of terminators next to a European number becomes European numbers; the
/// separators and terminators that are left become neutrals.
pub open spec fn w56(s: Sequences, t: Seq<CharType>, i: int) -> CharType {
    if number_follows(s, t, i) || number_precedes(s, t, i) {
        CharType::EuropeanNumeral
    } else if t[i].spec_is_number_separator_or_terminator() {
        CharType::OtherNeutral
    } else {
        t[i]
    }
}

/// A European number after an L becomes L.
pub open spec fn w7(s: Sequences, t: Seq<CharType>, i: int) -> CharType {
    if t[i] == CharType::EuropeanNumeral && strong_before(s, t, i) == CharType::LeftToRight {
        CharType::LeftToRight
    } else {
        t[i]
    }
}

/// The categories after the rule for non-spacing marks.
pub open spec fn w1_all(s: Sequences, t: Seq<CharType>) -> Seq<CharType> {
    Seq::new(t.len(), |i: int| w1(s, t, i))
}

/// The categories after the rules for numbers after Arabic letters.
pub open spec fn w23_all(s: Sequences, t: Seq<CharType>) -> Seq<CharType> {
    Seq::new(t.len(), |i: int| w23(s, t, i))
}

/// The categories after the rule for single separators.
pub open spec fn w4_all(s: Sequences, t: Seq<CharType>) -> Seq<CharType> {
    Seq::new(t.len(), |i: int| w4(s, t, i))
}

/// The categories after the rules for terminators and for what is left of the
/// separators.
pub open spec fn w56_all(s: Sequences, t: Seq<CharType>) -> Seq<CharType> {
    Seq::new(t.len(), |i: int| w56(s, t, i))
}

/// The categories after the rule for European numbers after L.
pub open spec fn w7_all(s: Sequences, t: Seq<CharType>) -> Seq<CharType> {
    Seq::new(t.len(), |i: int| w7(s, t, i))
}

/// The categories after all the rules for weak characters.
pub open spec fn weak_types(s: Sequences, t: Seq<CharType>) -> Seq<CharType> {
    w7_all(s, w56_all(s, w4_all(s, w23_all(s, w1_all(s, t)))))
}

/// A category that the rules for weak characters leave: L, R, a number, a neutral or an
/// isolate control.
pub open spec fn is_settled(t: CharType) -> bool {
    is_direction(t) || t.spec_is_number() || t.spec_is_neutral_or_isolate()
}

/// Whether no character that the rules read has the category of one that they pass
/// over.
pub open spec fn readable(s: Sequences, t: Seq<CharType>) -> bool {
    forall|i: int| 0 <= i < t.len() && kept(s.orig, i) ==> !(#[trigger] t[i]).spec_is_explicit_or_bn()
}

/// After the first rule no character that the rules read is a non-spacing mark.
pub proof fn lemma_marks_resolve(s: Sequences, t: Seq<CharType>, i: int)
    requires
        s.linked(),
        t.len() == s.len(),
        s.prev.len() == s.len(),
        readable(s, t),
        0 <= i < t.len(),
        kept(s.orig, i),
    ensures
        w1(s, t, i) != CharType::NonSpacingMark,
        !w1(s, t, i).spec_is_explicit_or_bn(),
    decreases i,
{
    assert(!t[i].spec_is_explicit_or_bn());
    assert(is_direction(s.sos[i]));
    if t[i] == CharType::NonSpacingMark {
        match s.prev[i] {
            Some(p) => {
                lemma_marks_resolve(s, t, p as int);
            },
            None => {},
        }
    }
}

/// The rules for weak characters leave each character that they read as an L, an R, a
/// number, a neutral or an isolate control.
pub proof fn lemma_weak_settles(s: Sequences, t: Seq<CharType>)
    requires
        s.linked(),
        t.len() == s.len(),
        s.prev.len() == s.len(),
        readable(s, t),
    ensures
        weak_types(s, t).len() == t.len(),
        forall|i: int|
            0 <= i < t.len() && kept(s.orig, i) ==> is_settled(#[trigger] weak_types(s, t)[i]),
{
    let t1 = w1_all(s, t);
    let t3 = w23_all(s, t1);
    let t4 = w4_all(s, t3);
    let t6 = w56_all(s, t4);
    let t7 = w7_all(s, t6);
    assert forall|i: int| 0 <= i < t.len() && kept(s.orig, i) implies is_settled(
        #[trigger] t7[i],
    ) by {
        lemma_marks_resolve(s, t, i);
        let a = t1[i];
        assert(a == w1(s, t, i));
        let b = t3[i];
        assert(b == w23(s, t1, i));
        assert(b != CharType::NonSpacingMark && b != CharType::ArabicLetter
            && !b.spec_is_explicit_or_bn());
        let c = t4[i];
        assert(c == w4(s, t3, i));
        assert(c != CharType::NonSpacingMark && c != CharType::ArabicLetter
            && !c.spec_is_explicit_or_bn());
        let d = t6[i];
        assert(d == w56(s, t4, i));
        assert(d != CharType::NonSpacingMark && d != CharType::ArabicLetter
            && !d.spec_is_explicit_or_bn() && !d.spec_is_number_separator_or_terminator());
        assert(t7[i] == w7(s, t6, i));
    }
}

/// The rules for weak characters leave a text of L alone.
pub proof fn lemma_weak_keeps_letters(s: Sequences, t: Seq<CharType>)
    requires
        forall|i: int| 0 <= i < t.len() ==> #[trigger] t[i] == CharType::LeftToRight,
    ensures
        weak_types(s, t) == t,
{
    assert(w1_all(s, t) =~= t);
    assert(w23_all(s, t) =~= t);
    assert(w4_all(s, t) =~= t);
    assert(w56_all(s, t) =~= t);
    assert(w7_all(s, t) =~= t);
}

/// Applies the rule for non-spacing marks.
fn resolve_marks(runs: &Runs, t: &Vec<CharType>) -> (out: Vec<CharType>)
    requires
        runs@.wf(),
        t.len() == runs@.len(),
    ensures
        out@ == w1_all(runs@, t@),
{
    let n = t.len();
    let mut out: Vec<CharType> = Vec::new();
    let mut i: usize = 0;
    while i < n
        invariant
            runs@.wf(),
            n == t.len(),
            n == runs@.len(),
            i <= n,
            out.len() == i,
            forall|k: int| 0 <= k < i ==> #[trigger] out[k] == w1(runs@, t@, k),
        decreases n - i,
    {
        let kind = if t[i] == CharType::NonSpacingMark {
            match runs.prev[i] {
                Some(p) => {
                    let before = out[p];
                    if before.is_isolate() {
                        CharType::OtherNeutral
                    } else {
                        before
                    }
                },
                None => runs.sos[i],
            }
        } else {
            t[i]
        };
        out.push(kind);
        i += 1;
    }
    assert(out@ =~= w1_all(runs@, t@));
    out
}

/// For each character the last letter before it, or the direction before its sequence.
fn strong_before_each(runs: &Runs, t: &Vec<CharType>) -> (out: Vec<CharType>)
    requires
        runs@.wf(),
        t.len() == runs@.len(),
    ensures
        out.len() == t.len(),
        forall|k: int| 0 <= k < t.len() ==> #[trigger] out[k] == strong_before(runs@, t@, k),
{
    let n = t.len();
    let mut out: Vec<CharType> = Vec::new();
    let mut i: usize = 0;
    while i < n
        invariant
            runs@.wf(),
            n == t.len(),
            n == runs@.len(),
            i <= n,
            out.len() == i,
            forall|k: int| 0 <= k < i ==> #[trigger] out[k] == strong_before(runs@, t@, k),
        decreases n - i,
    {
        let kind = match runs.prev[i] {
            Some(p) => {
                if t[p].is_letter() {
                    t[p]
                } else {
                    out[p]
                }
            },
            None => runs.sos[i],
        };
        out.push(kind);
        i += 1;
    }
    out
}

/// Applies the rules for European numbers after Arabic letters and for Arabic letters.
fn resolve_arabic(runs: &Runs, t: &Vec<CharType>) -> (out: Vec<CharType>)
    requires
        runs@.wf(),
        t.len() == runs@.len(),
    ensures
        out@ == w23_all(runs@, t@),
{
    let n = t.len();
    let strong = strong_before_each(runs, t);
    let mut out: Vec<CharType> = Vec::new();
    let mut i: usize = 0;
    while i < n
        invariant
            n == t.len(),
            strong.len() == n,
            i <= n,
            out.len() == i,
            forall|k: int| 0 <= k < n ==> #[trigger] strong[k] == strong_before(runs@, t@, k),
            forall|k: int| 0 <= k < i ==> #[trigger] out[k] == w23(runs@, t@, k),
        decreases n - i,
    {
        let kind = if t[i] == CharType::EuropeanNumeral && strong[i] == CharType::ArabicLetter {
            CharType::ArabicNumeral
        } else if t[i] == CharType::ArabicLetter {
            CharType::RightToLeft
        } else {
            t[i]
        };
        out.push(kind);
        i += 1;
    }
    assert(out@ =~= w23_all(runs@, t@));
    out
}

/// Applies the rule for single separators between numbers.
fn resolve_separators(runs: &Runs, t: &Vec<CharType>) -> (out: Vec<CharType>)
    requires
        runs@.wf(),
        t.len() == runs@.len(),
    ensures
        out@ == w4_all(runs@, t@),
{
    let n = t.len();
    let mut out: Vec<CharType> = Vec::new();
    let mut i: usize = 0;
    while i < n
        invariant
            runs@.wf(),
            n == t.len(),
            n == runs@.len(),
            i <= n,
            out.len() == i,
            forall|k: int| 0 <= k < i ==> #[trigger] out[k] == w4(runs@, t@, k),
        decreases n - i,
    {
        let kind = match (runs.prev[i], runs.next[i]) {
            (Some(p), Some(q)) => {
                let before = t[p];
                let after = t[q];
                if t[i] == CharType::EuropeanNumberSeparator && before
                    == CharType::EuropeanNumeral && after == CharType::EuropeanNumeral {
                    CharType::EuropeanNumeral
                } else if t[i] == CharType::CommonSeparator && before == after
                    && before.is_number() {
                    before
                } else {
                    t[i]
                }
            },
            _ => t[i],
        };
        out.push(kind);
        i += 1;
    }
    assert(out@ =~= w4_all(runs@, t@));
    out
}

/// Applies the rules for terminators next to European numbers and for the separators
/// and terminators that are left.
fn resolve_terminators(runs: &Runs, t: &Vec<CharType>) -> (out: Vec<CharType>)
    requires
        runs@.wf(),
        t.len() == runs@.len(),
    ensures
        out@ == w56_all(runs@, t@),
{
    let n = t.len();
    let mut follows: Vec<bool> = Vec::new();
    let mut k: usize = 0;
    while k < n
        invariant
            k <= n,
            follows.len() == k,
        decreases n - k,
    {
        follows.push(false);
        k += 1;
    }
    let mut i: usize = n;
    while i > 0
        invariant
            runs@.wf(),
            n == t.len(),
            n == runs@.len(),
            follows.len() == n,
            i <= n,
            forall|k: int| i <= k < n ==> #[trigger] follows[k] == number_follows(runs@, t@, k),
        decreases i,
    {
        i -= 1;
        let found = t[i] == CharType::EuropeanNumberTerminator && match runs.next[i] {
            Some(q) => t[q] == CharType::EuropeanNumeral || follows[q],
            None => false,
        };
        follows.set(i, found);
    }
    let mut precedes: Vec<bool> = Vec::new();
    let mut out: Vec<CharType> = Vec::new();
    let mut i: usize = 0;
    while i < n
        invariant
            runs@.wf(),
            n == t.len(),
            n == runs@.len(),
            follows.len() == n,
            i <= n,
            out.len() == i,
            precedes.len() == i,
            forall|k: int| 0 <= k < n ==> #[trigger] follows[k] == number_follows(runs@, t@, k),
            forall|k: int| 0 <= k < i ==> #[trigger] precedes[k] == number_precedes(runs@, t@, k),
            forall|k: int| 0 <= k < i ==> #[trigger] out[k] == w56(runs@, t@, k),
        decreases n - i,
    {
        let found = t[i] == CharType::EuropeanNumberTerminator && match runs.prev[i] {
            Some(p) => t[p] == CharType::EuropeanNumeral || precedes[p],
            None => false,
        };
        precedes.push(found);
        let kind = if follows[i] || found {
            CharType::EuropeanNumeral
        } else if t[i].is_number_separator_or_terminator() {
            CharType::OtherNeutral
        } else {
            t[i]
        };
        out.push(kind);
        i += 1;
    }
    assert(out@ =~= w56_all(runs@, t@));
    out
}

/// Applies the rule for European numbers after L.
fn resolve_european(runs: &Runs, t: &Vec<CharType>) -> (out: Vec<CharType>)
    requires
        runs@.wf(),
        t.len() == runs@.len(),
    ensures
        out@ == w7_all(runs@, t@),
{
    let n = t.len();
    let strong = strong_before_each(runs, t);
    let mut out: Vec<CharType> = Vec::new();
    let mut i: usize = 0;
    while i < n
        invariant
            n == t.len(),
            strong.len() == n,
            i <= n,
            out.len() == i,
            forall|k: int| 0 <= k < n ==> #[trigger] strong[k] == strong_before(runs@, t@, k),
            forall|k: int| 0 <= k < i ==> #[trigger] out[k] == w7(runs@, t@, k),
        decreases n - i,
    {
        let kind = if t[i] == CharType::EuropeanNumeral && strong[i] == CharType::LeftToRight {
            CharType::LeftToRight
        } else {
            t[i]
        };
        out.push(kind);
        i += 1;
    }
    assert(out@ =~= w7_all(runs@, t@));
    out
}

/// Applies the rules for weak characters to the categories `t` of a paragraph.
pub fn resolve_weak(runs: &Runs, t: &Vec<CharType>) -> (out: Vec<CharType>)
    requires
        runs@.wf(),
        t.len() == runs@.len(),
    ensures
        out@ == weak_types(runs@, t@),
        out.len() == t.len(),
{
    let t1 = resolve_marks(runs, t);
    let t3 = resolve_arabic(runs, &t1);
    let t4 = resolve_separators(runs, &t3);
    let t6 = resolve_terminators(runs, &t4);
    resolve_european(runs, &t6)
}

} // verus!
