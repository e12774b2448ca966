//! The rule for paired brackets: the two brackets of a pair take one direction, so that
//! they stay a pair on the screen.
//!
//! The pairs are found sequence by sequence with a stack of the opening brackets that
//! are still open. Then the pairs of a sequence are given their direction in the order
//! of their opening brackets.

use vstd::prelude::*;
use crate::bracket::BracketType;
use crate::char::CharType;
use crate::neutral::direction_shown;
use crate::neutral::strong_direction;
use crate::runs::Runs;
use crate::runs::Sequences;
use crate::runs::direction_of;
use crate::runs::is_direction;
use crate::runs::kept;
use crate::runs::level_direction;

verus! {

/// The most opening brackets that can be open at once. A sequence that opens one more
/// keeps the pairs that were found up to there and gets no others.
pub const MAX_OPEN_BRACKETS: usize = 63;

/// The character after `j` in its sequence.
pub open spec fn advance(s: Sequences, j: int) -> Option<usize> {
    match s.next[j] {
        Some(q) => if j < q < s.len() {
            Some(q)
        } else {
            None
        },
        None => None,
    }
}

/// Whether a sequence starts at `i`.
pub open spec fn starts_sequence(s: Sequences, i: int) -> bool {
    kept(s.orig, i) && s.prev[i].is_none()
}

/// Whether the character at `i` counts as a bracket: it is one by the table, and it is
/// still a neutral.
pub open spec fn counts_as_bracket(t: Seq<CharType>, b: Seq<BracketType>, i: int) -> bool {
    b[i].spec_is_bracket() && t[i] == CharType::OtherNeutral
}

/// The highest index below `k` at which the stack holds an opening bracket with the
/// pairing id `id`.
pub open spec fn find_open(stack: Seq<usize>, b: Seq<BracketType>, id: u32, k: int) -> Option<int>
    decreases k,
{
    if k <= 0 {
        None
    } else if b[stack[k - 1] as int].spec_get_id() == id {
        Some(k - 1)
    } else {
        find_open(stack, b, id, k - 1)
    }
}

/// The pairs of the rest of a sequence, from `j` on. `stack` holds the opening brackets
/// that are open at `j`, `closes` the pairs found so far: for an opening bracket the
/// position of the bracket that closes it.
pub open spec fn pair_walk(
    s: Sequences,
    t: Seq<CharType>,
    b: Seq<BracketType>,
    j: Option<usize>,
    stack: Seq<usize>,
    closes: Seq<Option<usize>>,
) -> Seq<Option<usize>>
    decreases
            match j {
                Some(j) => s.len() - j,
                None => 0,
            },
{
    match j {
        Some(j) => if j >= s.len() {
            closes
        } else if counts_as_bracket(t, b, j as int) {
            if b[j as int].spec_is_open() {
                if stack.len() >= MAX_OPEN_BRACKETS {
                    closes
                } else {
                    pair_walk(s, t, b, advance(s, j as int), stack.push(j), closes)
                }
            } else {
                match find_open(stack, b, b[j as int].spec_get_id(), stack.len() as int) {
                    Some(k) => pair_walk(
                        s,
                        t,
                        b,
                        advance(s, j as int),
                        stack.subrange(0, k),
                        closes.update(stack[k] as int, Some(j)),
                    ),
                    None => pair_walk(s, t, b, advance(s, j as int), stack, closes),
                }
            }
        } else {
            pair_walk(s, t, b, advance(s, j as int), stack, closes)
        },
        None => closes,
    }
}

/// The pairs of the sequences that start before `i`.
pub open spec fn pairs_upto(s: Sequences, t: Seq<CharType>, b: Seq<BracketType>, i: int) -> Seq<
    Option<usize>,
>
    decreases i,
{
    if i <= 0 {
        Seq::new(s.len(), |k: int| None)
    } else {
        let closes = pairs_upto(s, t, b, i - 1);
        if starts_sequence(s, i - 1) {
            pair_walk(s, t, b, Some((i - 1) as usize), Seq::empty(), closes)
        } else {
            closes
        }
    }
}

/// Whether a character from `j` on and before `c` shows the direction `want`.
pub open spec fn shown_inside(s: Sequences, t: Seq<CharType>, j: Option<usize>, c: int, want: CharType)
    -> bool
    decreases
            match j {
                Some(j) => s.len() - j,
                None => 0,
            },
{
    match j {
        Some(j) => j < c && j < s.len() && (strong_direction(t[j as int]) == Some(want)
            || shown_inside(s, t, advance(s, j as int), c, want)),
        None => false,
    }
}

/// The other direction.
pub open spec fn opposite(d: CharType) -> CharType {
    if d == CharType::LeftToRight {
        CharType::RightToLeft
    } else {
        CharType::LeftToRight
    }
}

/// The direction that the pair of the brackets at `o` and `c` takes, if it takes one:
/// the direction of the embedding level if a character inside the pair shows it; if
/// none does and one shows the other direction, the direction `context` of the text
/// before the pair.
pub open spec fn pair_direction(s: Sequences, t: Seq<CharType>, o: int, c: int, context: CharType)
    -> Option<CharType> {
    let e = direction_of(s.levels[o]);
    if shown_inside(s, t, advance(s, o), c, e) {
        Some(e)
    } else if shown_inside(s, t, advance(s, o), c, opposite(e)) {
        Some(context)
    } else {
        None
    }
}

/// The categories once the marks from `j` on have taken the direction `d`: the
/// characters that were non-spacing marks, up to the first that was none.
pub open spec fn mark_followers(s: Sequences, t: Seq<CharType>, j: Option<usize>, d: CharType)
    -> Seq<CharType>
    decreases
            match j {
                Some(j) => s.len() - j,
                None => 0,
            },
{
    match j {
        Some(j) => if j < s.len() && j < t.len() && s.orig[j as int] == CharType::NonSpacingMark {
            mark_followers(s, t.update(j as int, d), advance(s, j as int), d)
        } else {
            t
        },
        None => t,
    }
}

/// The categories once the pair of the brackets at `o` and `c` has its direction: the
/// two brackets take it, and so do the non-spacing marks that follow each of them.
pub open spec fn resolve_pair(s: Sequences, t: Seq<CharType>, o: int, c: int, context: CharType)
    -> Seq<CharType> {
    match pair_direction(s, t, o, c, context) {
        Some(d) => {
            let brackets = t.update(o, d).update(c, d);
            let opened = mark_followers(s, brackets, advance(s, o), d);
            mark_followers(s, opened, advance(s, c), d)
        },
        None => t,
    }
}

/// The categories once the pairs of the rest of a sequence, from `j` on, have their
/// directions. `context` is the direction that the text before `j` shows.
pub open spec fn resolve_walk(
    s: Sequences,
    closes: Seq<Option<usize>>,
    j: Option<usize>,
    context: CharType,
    t: Seq<CharType>,
) -> Seq<CharType>
    decreases
            match j {
                Some(j) => s.len() - j,
                None => 0,
            },
{
    match j {
        Some(j) => if j >= s.len() {
            t
        } else {
            let resolved = match closes[j as int] {
                Some(c) => if j < c < s.len() {
                    resolve_pair(s, t, j as int, c as int, context)
                } else {
                    t
                },
                None => t,
            };
            let shown = match strong_direction(resolved[j as int]) {
                Some(d) => d,
                None => context,
            };
            resolve_walk(s, closes, advance(s, j as int), shown, resolved)
        },
        None => t,
    }
}

/// The categories once the pairs of the sequences that start before `i` have their
/// directions.
pub open spec fn resolved_upto(s: Sequences, closes: Seq<Option<usize>>, t: Seq<CharType>, i: int)
    -> Seq<CharType>
    decreases i,
{
    if i <= 0 {
        t
    } else {
        let before = resolved_upto(s, closes, t, i - 1);
        if starts_sequence(s, i - 1) {
            resolve_walk(s, closes, Some((i - 1) as usize), s.sos[i - 1], before)
        } else {
            before
        }
    }
}

/// The categories after the rule for paired brackets.
pub open spec fn bracket_types(s: Sequences, t: Seq<CharType>, b: Seq<BracketType>) -> Seq<
    CharType,
> {
    resolved_upto(s, pairs_upto(s, t, b, s.len() as int), t, s.len() as int)
}

/// `mark_followers` keeps the number of categories.
pub proof fn lemma_mark_followers_len(s: Sequences, t: Seq<CharType>, j: Option<usize>, d: CharType)
    ensures
        mark_followers(s, t, j, d).len() == t.len(),
    decreases
            match j {
                Some(j) => s.len() - j,
                None => 0,
            },
{
    match j {
        Some(j) => {
            if j < s.len() && j < t.len() && s.orig[j as int] == CharType::NonSpacingMark {
                lemma_mark_followers_len(s, t.update(j as int, d), advance(s, j as int), d);
            }
        },
        None => {},
    }
}

/// Whether each pair of `closes` is a pair of brackets: an opening bracket and, after
/// it, a closing bracket with the same pairing id.
pub open spec fn are_pairs(t: Seq<CharType>, b: Seq<BracketType>, closes: Seq<Option<usize>>)
    -> bool {
    forall|o: int|
        0 <= o < closes.len() ==> (#[trigger] closes[o] matches Some(c) ==> {
            &&& o < c < closes.len()
            &&& counts_as_bracket(t, b, o)
            &&& counts_as_bracket(t, b, c as int)
            &&& b[o].spec_is_open()
            &&& !b[c as int].spec_is_open()
            &&& b[o].spec_get_id() == b[c as int].spec_get_id()
        })
}

/// Whether the stack holds opening brackets that stand before `j`.
pub open spec fn holds_open_brackets(
    t: Seq<CharType>,
    b: Seq<BracketType>,
    stack: Seq<usize>,
    j: int,
) -> bool {
    forall|k: int|
        0 <= k < stack.len() ==> {
            &&& 0 <= #[trigger] stack[k] < j
            &&& counts_as_bracket(t, b, stack[k] as int)
            &&& b[stack[k] as int].spec_is_open()
        }
}

/// What `find_open` finds is an entry of the stack with the id that is looked for.
pub proof fn lemma_find_open(stack: Seq<usize>, b: Seq<BracketType>, id: u32, k: int)
    requires
        k <= stack.len(),
    ensures
        find_open(stack, b, id, k) matches Some(m) ==> 0 <= m < k && b[stack[m] as int].spec_get_id()
            == id,
    decreases k,
{
    if k > 0 && b[stack[k - 1] as int].spec_get_id() != id {
        lemma_find_open(stack, b, id, k - 1);
    }
}

/// The pairs that are found in a sequence are pairs of brackets.
pub proof fn lemma_walk_finds_pairs(
    s: Sequences,
    t: Seq<CharType>,
    b: Seq<BracketType>,
    j: Option<usize>,
    stack: Seq<usize>,
    closes: Seq<Option<usize>>,
)
    requires
        closes.len() == s.len(),
        are_pairs(t, b, closes),
        j matches Some(at) ==> holds_open_brackets(t, b, stack, at as int),
    ensures
        pair_walk(s, t, b, j, stack, closes).len() == s.len(),
        are_pairs(t, b, pair_walk(s, t, b, j, stack, closes)),
    decreases
            match j {
                Some(j) => s.len() - j,
                None => 0,
            },
{
    match j {
        Some(j) => {
            if j < s.len() {
                let following = advance(s, j as int);
                if counts_as_bracket(t, b, j as int) {
                    if b[j as int].spec_is_open() {
                        if stack.len() < MAX_OPEN_BRACKETS {
                            let pushed = stack.push(j);
                            match following {
                                Some(q) => {
                                    assert forall|k: int| 0 <= k < pushed.len() implies {
                                        &&& 0 <= #[trigger] pushed[k] < q
                                        &&& counts_as_bracket(t, b, pushed[k] as int)
                                        &&& b[pushed[k] as int].spec_is_open()
                                    } by {
                                        if k < stack.len() {
                                            assert(pushed[k] == stack[k]);
                                        }
                                    }
                                },
                                None => {},
                            }
                            lemma_walk_finds_pairs(s, t, b, following, pushed, closes);
                        }
                    } else {
                        let id = b[j as int].spec_get_id();
                        lemma_find_open(stack, b, id, stack.len() as int);
                        match find_open(stack, b, id, stack.len() as int) {
                            Some(k) => {
                                let rest = stack.subrange(0, k);
                                let paired = closes.update(stack[k] as int, Some(j));
                                assert(0 <= stack[k] < j);
                                assert forall|o: int| 0 <= o < paired.len() implies (
                                #[trigger] paired[o] matches Some(c) ==> {
                                    &&& o < c < paired.len()
                                    &&& counts_as_bracket(t, b, o)
                                    &&& counts_as_bracket(t, b, c as int)
                                    &&& b[o].spec_is_open()
                                    &&& !b[c as int].spec_is_open()
                                    &&& b[o].spec_get_id() == b[c as int].spec_get_id()
                                }) by {
                                    if o != stack[k] {
                                        assert(paired[o] == closes[o]);
                                    }
                                }
                                match following {
                                    Some(q) => {
                                        assert forall|m: int| 0 <= m < rest.len() implies {
                                            &&& 0 <= #[trigger] rest[m] < q
                                            &&& counts_as_bracket(t, b, rest[m] as int)
                                            &&& b[rest[m] as int].spec_is_open()
                                        } by {
                                            assert(rest[m] == stack[m]);
                                        }
                                    },
                                    None => {},
                                }
                                lemma_walk_finds_pairs(s, t, b, following, rest, paired);
                            },
                            None => {
                                match following {
                                    Some(q) => {
                                        assert(holds_open_brackets(t, b, stack, q as int));
                                    },
                                    None => {},
                                }
                                lemma_walk_finds_pairs(s, t, b, following, stack, closes);
                            },
                        }
                    }
                } else {
                    match following {
                        Some(q) => {
                            assert(holds_open_brackets(t, b, stack, q as int));
                        },
                        None => {},
                    }
                    lemma_walk_finds_pairs(s, t, b, following, stack, closes);
                }
            }
        },
        None => {},
    }
}

/// The pairs that are found in a paragraph are pairs of brackets: an opening bracket
/// and, after it, a closing bracket with the same pairing id, both still neutrals.
pub proof fn lemma_finds_pairs(s: Sequences, t: Seq<CharType>, b: Seq<BracketType>, i: int)
    ensures
        pairs_upto(s, t, b, i).len() == s.len(),
        are_pairs(t, b, pairs_upto(s, t, b, i)),
    decreases i,
{
    if i > 0 {
        lemma_finds_pairs(s, t, b, i - 1);
        if starts_sequence(s, i - 1) {
            lemma_walk_finds_pairs(
                s,
                t,
                b,
                Some((i - 1) as usize),
                Seq::empty(),
                pairs_upto(s, t, b, i - 1),
            );
        }
    }
}

/// Whether `u` is `t` with some categories replaced by a direction.
pub open spec fn directed(t: Seq<CharType>, u: Seq<CharType>) -> bool {
    &&& u.len() == t.len()
    &&& forall|i: int| 0 <= i < t.len() ==> #[trigger] u[i] == t[i] || is_direction(u[i])
}

/// The marks that follow a bracket are given a direction, and nothing else is changed.
pub proof fn lemma_followers_directed(s: Sequences, t: Seq<CharType>, j: Option<usize>, d: CharType)
    requires
        is_direction(d),
    ensures
        directed(t, mark_followers(s, t, j, d)),
    decreases
            match j {
                Some(j) => s.len() - j,
                None => 0,
            },
{
    match j {
        Some(j) => {
            if j < s.len() && j < t.len() && s.orig[j as int] == CharType::NonSpacingMark {
                let marked = t.update(j as int, d);
                lemma_followers_directed(s, marked, advance(s, j as int), d);
                let after = mark_followers(s, marked, advance(s, j as int), d);
                assert forall|i: int| 0 <= i < t.len() implies #[trigger] after[i] == t[i]
                    || is_direction(after[i]) by {
                    assert(after[i] == marked[i] || is_direction(after[i]));
                }
            }
        },
        None => {},
    }
}

/// A pair is given a direction, and nothing else is changed.
pub proof fn lemma_pair_directed(s: Sequences, t: Seq<CharType>, o: int, c: int, context: CharType)
    requires
        is_direction(context),
        0 <= o < t.len(),
        0 <= c < t.len(),
    ensures
        directed(t, resolve_pair(s, t, o, c, context)),
{
    match pair_direction(s, t, o, c, context) {
        Some(d) => {
            let brackets = t.update(o, d).update(c, d);
            let opened = mark_followers(s, brackets, advance(s, o), d);
            let closed = mark_followers(s, opened, advance(s, c), d);
            lemma_followers_directed(s, brackets, advance(s, o), d);
            lemma_followers_directed(s, opened, advance(s, c), d);
            assert forall|i: int| 0 <= i < t.len() implies #[trigger] closed[i] == t[i]
                || is_direction(closed[i]) by {
                assert(closed[i] == opened[i] || is_direction(closed[i]));
                assert(opened[i] == brackets[i] || is_direction(opened[i]));
            }
        },
        None => {},
    }
}

/// The pairs of a sequence are given directions, and nothing else is changed.
pub proof fn lemma_walk_directed(
    s: Sequences,
    closes: Seq<Option<usize>>,
    j: Option<usize>,
    context: CharType,
    t: Seq<CharType>,
)
    requires
        is_direction(context),
        t.len() == s.len(),
    ensures
        directed(t, resolve_walk(s, closes, j, context, t)),
    decreases
            match j {
                Some(j) => s.len() - j,
                None => 0,
            },
{
    match j {
        Some(j) => {
            if j < s.len() {
                let resolved = match closes[j as int] {
                    Some(c) => if j < c < s.len() {
                        resolve_pair(s, t, j as int, c as int, context)
                    } else {
                        t
                    },
                    None => t,
                };
                match closes[j as int] {
                    Some(c) => {
                        if j < c < s.len() {
                            lemma_pair_directed(s, t, j as int, c as int, context);
                        }
                    },
                    None => {},
                }
                let shown = match strong_direction(resolved[j as int]) {
                    Some(d) => d,
                    None => context,
                };
                lemma_walk_directed(s, closes, advance(s, j as int), shown, resolved);
                let after = resolve_walk(s, closes, advance(s, j as int), shown, resolved);
                assert forall|i: int| 0 <= i < t.len() implies #[trigger] after[i] == t[i]
                    || is_direction(after[i]) by {
                    assert(after[i] == resolved[i] || is_direction(after[i]));
                }
            }
        },
        None => {},
    }
}

/// The rule for paired brackets gives directions to characters and changes nothing
/// else.
pub proof fn lemma_brackets_directed(
    s: Sequences,
    closes: Seq<Option<usize>>,
    t: Seq<CharType>,
    i: int,
)
    requires
        s.linked(),
        t.len() == s.len(),
        i <= s.len(),
    ensures
        directed(t, resolved_upto(s, closes, t, i)),
    decreases i,
{
    if i > 0 {
        lemma_brackets_directed(s, closes, t, i - 1);
        let before = resolved_upto(s, closes, t, i - 1);
        if starts_sequence(s, i - 1) {
            assert(is_direction(s.sos[i - 1]));
            lemma_walk_directed(s, closes, Some((i - 1) as usize), s.sos[i - 1], before);
            let after = resolve_walk(s, closes, Some((i - 1) as usize), s.sos[i - 1], before);
            assert forall|k: int| 0 <= k < t.len() implies #[trigger] after[k] == t[k]
                || is_direction(after[k]) by {
                assert(after[k] == before[k] || is_direction(after[k]));
            }
        }
    }
}

/// A sequence without brackets has no pairs.
pub proof fn lemma_no_brackets_no_pairs(
    s: Sequences,
    t: Seq<CharType>,
    b: Seq<BracketType>,
    j: Option<usize>,
    stack: Seq<usize>,
    closes: Seq<Option<usize>>,
)
    requires
        forall|i: int| 0 <= i < s.len() ==> !counts_as_bracket(t, b, i),
    ensures
        pair_walk(s, t, b, j, stack, closes) == closes,
    decreases
            match j {
                Some(j) => s.len() - j,
                None => 0,
            },
{
    match j {
        Some(j) => {
            if j < s.len() {
                assert(!counts_as_bracket(t, b, j as int));
                lemma_no_brackets_no_pairs(s, t, b, advance(s, j as int), stack, closes);
            }
        },
        None => {},
    }
}

/// A paragraph without brackets has no pairs.
pub proof fn lemma_no_pairs(s: Sequences, t: Seq<CharType>, b: Seq<BracketType>, i: int)
    requires
        forall|i: int| 0 <= i < s.len() ==> !counts_as_bracket(t, b, i),
    ensures
        pairs_upto(s, t, b, i) == Seq::new(s.len(), |k: int| None::<usize>),
    decreases i,
{
    if i > 0 {
        lemma_no_pairs(s, t, b, i - 1);
        lemma_no_brackets_no_pairs(
            s,
            t,
            b,
            Some((i - 1) as usize),
            Seq::empty(),
            pairs_upto(s, t, b, i - 1),
        );
    }
}

/// Without pairs the rule changes nothing in a sequence.
pub proof fn lemma_no_pairs_no_change(
    s: Sequences,
    closes: Seq<Option<usize>>,
    j: Option<usize>,
    context: CharType,
    t: Seq<CharType>,
)
    requires
        closes.len() == s.len(),
        forall|k: int| 0 <= k < s.len() ==> (#[trigger] closes[k]).is_none(),
    ensures
        resolve_walk(s, closes, j, context, t) == t,
    decreases
            match j {
                Some(j) => s.len() - j,
                None => 0,
            },
{
    match j {
        Some(j) => {
            if j < s.len() {
                assert(closes[j as int].is_none());
                let shown = match strong_direction(t[j as int]) {
                    Some(d) => d,
                    None => context,
                };
                lemma_no_pairs_no_change(s, closes, advance(s, j as int), shown, t);
            }
        },
        None => {},
    }
}

/// Without pairs the rule changes nothing in a paragraph.
pub proof fn lemma_no_change(s: Sequences, closes: Seq<Option<usize>>, t: Seq<CharType>, i: int)
    requires
        closes.len() == s.len(),
        forall|k: int| 0 <= k < s.len() ==> (#[trigger] closes[k]).is_none(),
    ensures
        resolved_upto(s, closes, t, i) == t,
    decreases i,
{
    if i > 0 {
        lemma_no_change(s, closes, t, i - 1);
        lemma_no_pairs_no_change(s, closes, Some((i - 1) as usize), s.sos[i - 1], t);
    }
}

/// The rule for paired brackets leaves a text alone in which no bracket is a neutral.
pub proof fn lemma_brackets_keep_others(s: Sequences, t: Seq<CharType>, b: Seq<BracketType>)
    requires
        forall|i: int| 0 <= i < s.len() ==> !counts_as_bracket(t, b, i),
    ensures
        bracket_types(s, t, b) == t,
{
    lemma_no_pairs(s, t, b, s.len() as int);
    lemma_no_change(s, pairs_upto(s, t, b, s.len() as int), t, s.len() as int);
}

/// The character after `j` in its sequence.
fn next_of(runs: &Runs, j: usize) -> (q: Option<usize>)
    requires
        runs@.wf(),
        j < runs@.len(),
    ensures
        q == advance(runs@, j as int),
        q matches Some(k) ==> j < k < runs@.len(),
{
    runs.next[j]
}

/// Finds the pairs of the sequence that starts at `start` and adds them to `closes`.
fn find_pairs_from(
    runs: &Runs,
    t: &Vec<CharType>,
    b: &Vec<BracketType>,
    start: usize,
    closes: &mut Vec<Option<usize>>,
)
    requires
        runs@.wf(),
        t.len() == runs@.len(),
        b.len() == runs@.len(),
        old(closes).len() == runs@.len(),
        start < runs@.len(),
    ensures
        final(closes)@ == pair_walk(runs@, t@, b@, Some(start), Seq::empty(), old(closes)@),
        final(closes).len() == runs@.len(),
{
    let n = t.len();
    let ghost goal = pair_walk(runs@, t@, b@, Some(start), Seq::empty(), closes@);
    let mut stack: Vec<usize> = Vec::new();
    let mut at: Option<usize> = Some(start);
    while at.is_some()
        invariant
            runs@.wf(),
            n == t.len(),
            n == runs@.len(),
            n == b.len(),
            closes.len() == n,
            at matches Some(j) ==> j < n,
            stack.len() <= MAX_OPEN_BRACKETS,
            forall|k: int| 0 <= k < stack.len() ==> #[trigger] stack[k] < n,
            goal == pair_walk(runs@, t@, b@, at, stack@, closes@),
        decreases
                match at {
                    Some(j) => n - j,
                    None => 0,
                },
    {
        let j = at.unwrap();
        let following = next_of(runs, j);
        if b[j].is_bracket() && t[j] == CharType::OtherNeutral {
            if b[j].is_open() {
                if stack.len() >= MAX_OPEN_BRACKETS {
                    at = None;
                } else {
                    stack.push(j);
                    at = following;
                }
            } else {
                let id = b[j].get_id();
                let mut k: usize = stack.len();
                let mut found: Option<usize> = None;
                while k > 0 && found.is_none()
                    invariant
                        n == b.len(),
                        k <= stack.len(),
                        forall|m: int| 0 <= m < stack.len() ==> #[trigger] stack[m] < n,
                        found matches Some(m) ==> m < stack.len(),
                        match found {
                            Some(m) => find_open(stack@, b@, id, stack.len() as int) == Some(
                                m as int,
                            ),
                            None => find_open(stack@, b@, id, stack.len() as int) == find_open(
                                stack@,
                                b@,
                                id,
                                k as int,
                            ),
                        },
                    decreases k + (if found.is_none() { 1int } else { 0int }),
                {
                    if b[stack[k - 1]].get_id() == id {
                        found = Some(k - 1);
                    } else {
                        k -= 1;
                    }
                }
                match found {
                    Some(m) => {
                        closes.set(stack[m], Some(j));
                        stack.truncate(m);
                    },
                    None => {},
                }
                at = following;
            }
        } else {
            at = following;
        }
    }
}

/// Finds the pairs of brackets of each sequence of a paragraph. For each opening
/// bracket of a pair, the list that is returned holds the position of the bracket that
/// closes it.
pub fn find_pairs(runs: &Runs, t: &Vec<CharType>, b: &Vec<BracketType>) -> (closes: Vec<
    Option<usize>,
>)
    requires
        runs@.wf(),
        t.len() == runs@.len(),
        b.len() == runs@.len(),
    ensures
        closes@ == pairs_upto(runs@, t@, b@, runs@.len() as int),
        closes.len() == runs@.len(),
{
    let n = t.len();
    let mut closes: Vec<Option<usize>> = Vec::new();
    let mut k: usize = 0;
    while k < n
        invariant
            k <= n,
            closes.len() == k,
            forall|m: int| 0 <= m < k ==> (#[trigger] closes[m]).is_none(),
        decreases n - k,
    {
        closes.push(None);
        k += 1;
    }
    assert(closes@ =~= pairs_upto(runs@, t@, b@, 0));
    let mut i: usize = 0;
    while i < n
        invariant
            runs@.wf(),
            n == t.len(),
            n == runs@.len(),
            n == b.len(),
            closes.len() == n,
            i <= n,
            closes@ == pairs_upto(runs@, t@, b@, i as int),
        decreases n - i,
    {
        if !runs.orig[i].is_explicit_or_bn() && runs.prev[i].is_none() {
            find_pairs_from(runs, t, b, i, &mut closes);
        }
        i += 1;
    }
    closes
}

/// Whether a character between the brackets at `o` and `c` shows the direction `e`, and
/// whether one shows the other direction.
fn look_inside(runs: &Runs, t: &Vec<CharType>, o: usize, c: usize, e: CharType) -> (found: (
    bool,
    bool,
))
    requires
        runs@.wf(),
        t.len() == runs@.len(),
        o < c < runs@.len(),
        e == CharType::LeftToRight || e == CharType::RightToLeft,
    ensures
        found.0 == shown_inside(runs@, t@, advance(runs@, o as int), c as int, e),
        found.1 == shown_inside(runs@, t@, advance(runs@, o as int), c as int, opposite(e)),
{
    let n = t.len();
    let mut same = false;
    let mut other = false;
    let mut at: Option<usize> = next_of(runs, o);
    let ghost first = at;
    while at.is_some() && at.unwrap() < c
        invariant
            runs@.wf(),
            n == t.len(),
            n == runs@.len(),
            c < n,
            e == CharType::LeftToRight || e == CharType::RightToLeft,
            at matches Some(j) ==> j < n,
            shown_inside(runs@, t@, first, c as int, e) == (same || shown_inside(
                runs@,
                t@,
                at,
                c as int,
                e,
            )),
            shown_inside(runs@, t@, first, c as int, opposite(e)) == (other || shown_inside(
                runs@,
                t@,
                at,
                c as int,
                opposite(e),
            )),
        decreases
                match at {
                    Some(j) => n - j,
                    None => 0,
                },
    {
        let j = at.unwrap();
        match direction_shown(t[j]) {
            Some(d) => {
                if d == e {
                    same = true;
                } else {
                    other = true;
                }
            },
            None => {},
        }
        at = next_of(runs, j);
    }
    (same, other)
}

/// Gives the direction `d` to the non-spacing marks that follow the bracket at `from`.
fn set_followers(runs: &Runs, t: &mut Vec<CharType>, from: usize, d: CharType)
    requires
        runs@.wf(),
        old(t).len() == runs@.len(),
        from < runs@.len(),
    ensures
        final(t)@ == mark_followers(runs@, old(t)@, advance(runs@, from as int), d),
        final(t).len() == old(t).len(),
{
    let n = t.len();
    let mut at: Option<usize> = next_of(runs, from);
    let ghost goal = mark_followers(runs@, t@, at, d);
    proof {
        lemma_mark_followers_len(runs@, t@, at, d);
    }
    while at.is_some() && runs.orig[at.unwrap()] == CharType::NonSpacingMark
        invariant
            runs@.wf(),
            n == t.len(),
            n == runs@.len(),
            at matches Some(j) ==> j < n,
            goal == mark_followers(runs@, t@, at, d),
        decreases
                match at {
                    Some(j) => n - j,
                    None => 0,
                },
    {
        let j = at.unwrap();
        t.set(j, d);
        at = next_of(runs, j);
    }
}

/// Gives the pairs of the sequence that starts at `start` their directions.
fn resolve_pairs_from(
    runs: &Runs,
    closes: &Vec<Option<usize>>,
    start: usize,
    t: &mut Vec<CharType>,
)
    requires
        runs@.wf(),
        old(t).len() == runs@.len(),
        closes.len() == runs@.len(),
        start < runs@.len(),
    ensures
        final(t)@ == resolve_walk(runs@, closes@, Some(start), runs@.sos[start as int], old(t)@),
        final(t).len() == old(t).len(),
{
    let n = t.len();
    let ghost goal = resolve_walk(runs@, closes@, Some(start), runs@.sos[start as int], t@);
    let mut context = runs.sos[start];
    let mut at: Option<usize> = Some(start);
    while at.is_some()
        invariant
            runs@.wf(),
            n == t.len(),
            n == runs@.len(),
            n == closes.len(),
            at matches Some(j) ==> j < n,
            goal == resolve_walk(runs@, closes@, at, context, t@),
        decreases
                match at {
                    Some(j) => n - j,
                    None => 0,
                },
    {
        let j = at.unwrap();
        match closes[j] {
            Some(c) => {
                if j < c && c < n {
                    let e = level_direction(runs.levels[j]);
                    let (same, other) = look_inside(runs, t, j, c, e);
                    let chosen = if same {
                        Some(e)
                    } else if other {
                        Some(context)
                    } else {
                        None
                    };
                    match chosen {
                        Some(d) => {
                            t.set(j, d);
                            t.set(c, d);
                            set_followers(runs, t, j, d);
                            set_followers(runs, t, c, d);
                        },
                        None => {},
                    }
                }
            },
            None => {},
        }
        match direction_shown(t[j]) {
            Some(d) => {
                context = d;
            },
            None => {},
        }
        at = next_of(runs, j);
    }
}

/// Applies the rule for paired brackets to the categories `t` of a paragraph whose
/// characters are the brackets `b`.
pub fn resolve_brackets(runs: &Runs, t: Vec<CharType>, b: &Vec<BracketType>) -> (out: Vec<
    CharType,
>)
    requires
        runs@.wf(),
        t.len() == runs@.len(),
        b.len() == runs@.len(),
    ensures
        out@ == bracket_types(runs@, t@, b@),
        out.len() == t.len(),
{
    let n = t.len();
    let closes = find_pairs(runs, &t, b);
    let mut out = t;
    let mut i: usize = 0;
    while i < n
        invariant
            runs@.wf(),
            n == out.len(),
            n == runs@.len(),
            n == closes.len(),
            i <= n,
            out@ == resolved_upto(runs@, closes@, t@, i as int),
        decreases n - i,
    {
        if !runs.orig[i].is_explicit_or_bn() && runs.prev[i].is_none() {
            resolve_pairs_from(runs, &closes, i, &mut out);
        }
        i += 1;
    }
    out
}

} // verus!
