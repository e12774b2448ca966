//! Isolating run sequences: the chains of characters that the rules for weak and
//! neutral characters read as one text.
//!
//! A sequence is a run of characters of one level. It goes on from an isolate initiator
//! to the PDI that closes the isolate, over what the isolate holds. The embeddings,
//! overrides, PDFs and BNs belong to no sequence: the rules pass over them.

use vstd::prelude::*;
use crate::char::CharType;
use crate::explicit::Explicit;
use crate::explicit::MAX_DEPTH;

verus! {

/// The sequences of a paragraph, as links from each character to the one before it and
/// the one after it in its sequence.
pub ghost struct Sequences {
    /// The categories of the characters as the paragraph gives them.
    pub orig: Seq<CharType>,
    /// The embedding level of each character.
    pub levels: Seq<u8>,
    /// The character before each character in its sequence.
    pub prev: Seq<Option<usize>>,
    /// The character after each character in its sequence.
    pub next: Seq<Option<usize>>,
    /// The direction of the text before the sequence, read at its first character.
    pub sos: Seq<CharType>,
    /// The direction of the text after the sequence, read at its last character.
    pub eos: Seq<CharType>,
}

impl Sequences {
    /// The number of characters.
    pub open spec fn len(self) -> nat {
        self.orig.len()
    }

    /// The lists have one entry for each character, a link back points to an earlier
    /// character and a link forward to a later one.
    pub open spec fn wf(self) -> bool {
        &&& self.levels.len() == self.len()
        &&& self.prev.len() == self.len()
        &&& self.next.len() == self.len()
        &&& self.sos.len() == self.len()
        &&& self.eos.len() == self.len()
        &&& forall|i: int|
            0 <= i < self.len() ==> (#[trigger] self.prev[i] matches Some(p) ==> p < i)
        &&& forall|i: int|
            0 <= i < self.len() ==> (#[trigger] self.next[i] matches Some(q) ==> i < q
                < self.len())
        &&& forall|i: int| 0 <= i < self.len() ==> #[trigger] self.levels[i] <= MAX_DEPTH
    }

    /// The links lead from characters that the rules read to characters that the rules
    /// read, and the text before and after a sequence has a direction.
    pub open spec fn linked(self) -> bool {
        &&& forall|i: int|
            0 <= i < self.len() ==> (#[trigger] self.prev[i] matches Some(p) ==> p < i && kept(
                self.orig,
                p as int,
            ) && kept(self.orig, i))
        &&& forall|i: int| 0 <= i < self.len() ==> is_direction(#[trigger] self.sos[i])
        &&& forall|i: int| 0 <= i < self.len() ==> is_direction(#[trigger] self.eos[i])
    }
}

/// One of the two directions as a category: L or R.
pub open spec fn is_direction(t: CharType) -> bool {
    t == CharType::LeftToRight || t == CharType::RightToLeft
}

/// Whether the rules read the character at `i`: whether it is no embedding, override,
/// PDF or BN.
pub open spec fn kept(orig: Seq<CharType>, i: int) -> bool {
    !orig[i].spec_is_explicit_or_bn()
}

/// The last character before `i` that the rules read.
pub open spec fn kept_before(orig: Seq<CharType>, i: int) -> Option<usize>
    decreases i,
{
    if i <= 0 {
        None
    } else if kept(orig, i - 1) {
        Some((i - 1) as usize)
    } else {
        kept_before(orig, i - 1)
    }
}

/// The first character after `i` that the rules read.
pub open spec fn kept_after(orig: Seq<CharType>, i: int) -> Option<usize>
    decreases orig.len() - i,
{
    if i < -1 || i + 1 >= orig.len() {
        None
    } else if kept(orig, i + 1) {
        Some((i + 1) as usize)
    } else {
        kept_after(orig, i + 1)
    }
}

/// The strong category of the direction of a level: R for an odd level, L for an even
/// one.
pub open spec fn direction_of(level: u8) -> CharType {
    if level % 2 == 1 {
        CharType::RightToLeft
    } else {
        CharType::LeftToRight
    }
}

/// The higher of two levels.
pub open spec fn higher(a: u8, b: u8) -> u8 {
    if a >= b {
        a
    } else {
        b
    }
}

/// The character before `i` in its sequence: for a PDI that closes an isolate, the
/// initiator of the isolate; for any other character, the last character before it that
/// the rules read, if that has the same level.
pub open spec fn prev_of(
    orig: Seq<CharType>,
    levels: Seq<u8>,
    openers: Seq<Option<usize>>,
    i: int,
) -> Option<usize> {
    if !kept(orig, i) {
        None
    } else if orig[i] == CharType::PopDirectionalIsolate && openers[i].is_some() {
        openers[i]
    } else {
        match kept_before(orig, i) {
            Some(j) => if levels[j as int] == levels[i] {
                Some(j)
            } else {
                None
            },
            None => None,
        }
    }
}

/// The first position below `hi` whose link back points to `p`.
pub open spec fn first_pointing(prev: Seq<Option<usize>>, p: int, hi: int) -> Option<usize>
    decreases hi,
{
    if hi <= 0 || hi <= p + 1 {
        None
    } else {
        match first_pointing(prev, p, hi - 1) {
            Some(j) => Some(j),
            None => if prev[hi - 1] == Some(p as usize) {
                Some((hi - 1) as usize)
            } else {
                None
            },
        }
    }
}

/// The direction of the text before a sequence that starts at `i`: that of the higher
/// of the level of `i` and the level of the character before it, or the base level
/// where the paragraph starts.
pub open spec fn sos_of(orig: Seq<CharType>, levels: Seq<u8>, base: u8, i: int) -> CharType {
    match kept_before(orig, i) {
        Some(j) => direction_of(higher(levels[i], levels[j as int])),
        None => direction_of(higher(levels[i], base)),
    }
}

/// The direction of the text after a sequence that ends at `i`: that of the higher of
/// the level of `i` and the level of the character after it, or the base level where
/// the paragraph ends or `i` opens an isolate.
pub open spec fn eos_of(orig: Seq<CharType>, levels: Seq<u8>, base: u8, i: int) -> CharType {
    if orig[i].spec_is_isolate_initiator() {
        direction_of(higher(levels[i], base))
    } else {
        match kept_after(orig, i) {
            Some(k) => direction_of(higher(levels[i], levels[k as int])),
            None => direction_of(higher(levels[i], base)),
        }
    }
}

/// The links back of a paragraph.
pub open spec fn prevs_of(orig: Seq<CharType>, levels: Seq<u8>, openers: Seq<Option<usize>>)
    -> Seq<Option<usize>> {
    Seq::new(orig.len(), |i: int| prev_of(orig, levels, openers, i))
}

/// The sequences of a paragraph with the levels `levels`, the closed isolates `openers`
/// and the base level `base`.
pub open spec fn sequences_of(
    orig: Seq<CharType>,
    levels: Seq<u8>,
    openers: Seq<Option<usize>>,
    base: u8,
) -> Sequences {
    let prev = prevs_of(orig, levels, openers);
    Sequences {
        orig,
        levels,
        prev,
        next: Seq::new(orig.len(), |i: int| first_pointing(prev, i, orig.len() as int)),
        sos: Seq::new(orig.len(), |i: int| sos_of(orig, levels, base, i)),
        eos: Seq::new(orig.len(), |i: int| eos_of(orig, levels, base, i)),
    }
}

/// A link forward leads to a character whose link back leads back: what
/// `first_pointing` finds for `p` is a position after `p` and below `hi` whose link back
/// points to `p`, and no position before it does.
pub proof fn lemma_first_pointing(prev: Seq<Option<usize>>, p: int, hi: int)
    requires
        0 <= p <= usize::MAX,
        hi <= prev.len() <= usize::MAX,
    ensures
        first_pointing(prev, p, hi) matches Some(j) ==> p < j < hi && prev[j as int] == Some(
            p as usize,
        ),
        forall|k: int|
            p < k < hi && (first_pointing(prev, p, hi) matches Some(j) ==> k < j)
                ==> #[trigger] prev[k] != Some(p as usize),
    decreases hi,
{
    if hi > 0 && hi > p + 1 {
        lemma_first_pointing(prev, p, hi - 1);
    }
}

/// The last character before `i` that the rules read is a character before `i` that
/// the rules read.
pub proof fn lemma_kept_before(orig: Seq<CharType>, i: int)
    requires
        i <= usize::MAX,
    ensures
        kept_before(orig, i) matches Some(j) ==> j < i && kept(orig, j as int),
    decreases i,
{
    if i > 0 && !kept(orig, i - 1) {
        lemma_kept_before(orig, i - 1);
    }
}

/// The sequences of a paragraph are linked, if each isolate that a PDI closes was
/// opened by an isolate initiator before the PDI.
pub proof fn lemma_sequences_linked(
    orig: Seq<CharType>,
    levels: Seq<u8>,
    openers: Seq<Option<usize>>,
    base: u8,
)
    requires
        openers.len() == orig.len(),
        orig.len() <= usize::MAX,
        forall|i: int|
            0 <= i < orig.len() ==> (#[trigger] openers[i] matches Some(m) ==> m < i
                && orig[m as int].spec_is_isolate_initiator()),
    ensures
        sequences_of(orig, levels, openers, base).linked(),
{
    let s = sequences_of(orig, levels, openers, base);
    assert forall|i: int| 0 <= i < s.len() implies (#[trigger] s.prev[i] matches Some(p) ==> p < i
        && kept(s.orig, p as int) && kept(s.orig, i)) by {
        lemma_kept_before(orig, i);
        assert(s.prev[i] == prev_of(orig, levels, openers, i));
        match openers[i] {
            Some(m) => {
                assert(orig[m as int].spec_is_isolate_initiator());
            },
            None => {},
        }
    }
}

/// The sequences of a paragraph, held in vectors.
pub struct Runs {
    /// The categories of the characters as the paragraph gives them.
    pub orig: Vec<CharType>,
    /// The embedding level of each character.
    pub levels: Vec<u8>,
    /// The character before each character in its sequence.
    pub prev: Vec<Option<usize>>,
    /// The character after each character in its sequence.
    pub next: Vec<Option<usize>>,
    /// The direction of the text before the sequence, read at its first character.
    pub sos: Vec<CharType>,
    /// The direction of the text after the sequence, read at its last character.
    pub eos: Vec<CharType>,
}

impl View for Runs {
    type V = Sequences;

    open spec fn view(&self) -> Sequences {
        Sequences {
            orig: self.orig@,
            levels: self.levels@,
            prev: self.prev@,
            next: self.next@,
            sos: self.sos@,
            eos: self.eos@,
        }
    }
}

/// The strong category of the direction of a level.
pub fn level_direction(level: u8) -> (t: CharType)
    ensures
        t == direction_of(level),
{
    if level % 2 == 1 {
        CharType::RightToLeft
    } else {
        CharType::LeftToRight
    }
}

/// The higher of two levels.
fn max_level(a: u8, b: u8) -> (m: u8)
    ensures
        m == higher(a, b),
{
    if a >= b {
        a
    } else {
        b
    }
}

/// A link forward for each link back: `next[p]` is the first position whose link back
/// points to `p`.
pub fn invert_links(prev: &Vec<Option<usize>>) -> (next: Vec<Option<usize>>)
    requires
        forall|i: int| 0 <= i < prev.len() ==> (#[trigger] prev[i] matches Some(p) ==> p < i),
    ensures
        next@ == Seq::new(prev@.len(), |p: int| first_pointing(prev@, p, prev@.len() as int)),
        forall|i: int|
            0 <= i < prev.len() ==> (#[trigger] next[i] matches Some(q) ==> i < q < prev.len()),
{
    let n = prev.len();
    let mut next: Vec<Option<usize>> = Vec::new();
    let mut k: usize = 0;
    while k < n
        invariant
            k <= n,
            next.len() == k,
            forall|p: int| 0 <= p < k ==> #[trigger] next[p] == first_pointing(prev@, p, 0),
        decreases n - k,
    {
        next.push(None);
        k += 1;
    }
    let mut j: usize = 0;
    while j < n
        invariant
            n == prev.len(),
            j <= n,
            next.len() == n,
            forall|i: int| 0 <= i < n ==> (#[trigger] prev[i] matches Some(p) ==> p < i),
            forall|p: int| 0 <= p < n ==> #[trigger] next[p] == first_pointing(prev@, p, j as int),
            forall|p: int| 0 <= p < n ==> (#[trigger] next[p] matches Some(q) ==> p < q < j),
        decreases n - j,
    {
        match prev[j] {
            Some(p) => {
                if next[p].is_none() {
                    next.set(p, Some(j));
                }
            },
            None => {},
        }
        j += 1;
    }
    assert(next@ =~= Seq::new(prev@.len(), |p: int| first_pointing(prev@, p, prev@.len() as int)));
    next
}

/// Links the characters of a paragraph into its isolating run sequences.
pub fn link(types: &Vec<CharType>, explicit: Explicit, base: u8) -> (out: (Runs, Vec<CharType>))
    requires
        base <= 1,
        explicit.levels.len() == types.len(),
        explicit.kinds.len() == types.len(),
        explicit.openers.len() == types.len(),
        forall|i: int| 0 <= i < types.len() ==> #[trigger] explicit.levels[i] <= MAX_DEPTH,
        forall|i: int|
            0 <= i < types.len() ==> (#[trigger] explicit.openers[i] matches Some(m) ==> m < i),
    ensures
        out.0@ == sequences_of(types@, explicit.levels@, explicit.openers@, base),
        out.0@.wf(),
        out.1@ == explicit.kinds@,
{
    let n = types.len();
    let Explicit { levels, kinds, openers } = explicit;
    let mut orig: Vec<CharType> = Vec::new();
    let mut prev: Vec<Option<usize>> = Vec::new();
    let mut sos: Vec<CharType> = Vec::new();
    let mut last: Option<usize> = None;
    let mut i: usize = 0;
    while i < n
        invariant
            n == types.len(),
            levels.len() == n,
            openers.len() == n,
            i <= n,
            orig.len() == i,
            prev.len() == i,
            sos.len() == i,
            last == kept_before(types@, i as int),
            last matches Some(j) ==> j < i,
            forall|k: int| 0 <= k < n ==> (#[trigger] openers[k] matches Some(m) ==> m < k),
            forall|k: int| 0 <= k < i ==> #[trigger] orig[k] == types[k],
            forall|k: int|
                0 <= k < i ==> #[trigger] prev[k] == prev_of(types@, levels@, openers@, k),
            forall|k: int| 0 <= k < i ==> (#[trigger] prev[k] matches Some(p) ==> p < k),
            forall|k: int| 0 <= k < i ==> #[trigger] sos[k] == sos_of(types@, levels@, base, k),
        decreases n - i,
    {
        let t = types[i];
        let level = levels[i];
        orig.push(t);
        let before = match last {
            Some(j) => levels[j],
            None => base,
        };
        sos.push(level_direction(max_level(level, before)));
        if t.is_explicit_or_bn() {
            prev.push(None);
        } else {
            if t == CharType::PopDirectionalIsolate && openers[i].is_some() {
                prev.push(openers[i]);
            } else {
                match last {
                    Some(j) => {
                        if levels[j] == level {
                            prev.push(Some(j));
                        } else {
                            prev.push(None);
                        }
                    },
                    None => {
                        prev.push(None);
                    },
                }
            }
            last = Some(i);
        }
        i += 1;
    }
    let mut eos: Vec<CharType> = Vec::new();
    let mut k: usize = 0;
    while k < n
        invariant
            k <= n,
            eos.len() == k,
        decreases n - k,
    {
        eos.push(CharType::LeftToRight);
        k += 1;
    }
    let mut following: Option<usize> = None;
    let mut i: usize = n;
    while i > 0
        invariant
            n == types.len(),
            levels.len() == n,
            eos.len() == n,
            i <= n,
            following == kept_after(types@, i as int - 1),
            following matches Some(k) ==> i <= k < n,
            forall|k: int| i <= k < n ==> #[trigger] eos[k] == eos_of(types@, levels@, base, k),
        decreases i,
    {
        i -= 1;
        let t = types[i];
        let level = levels[i];
        let after = if t.is_isolate_initiator() {
            base
        } else {
            match following {
                Some(k) => levels[k],
                None => base,
            }
        };
        eos.set(i, level_direction(max_level(level, after)));
        if !t.is_explicit_or_bn() {
            following = Some(i);
        }
    }
    let next = invert_links(&prev);
    let runs = Runs { orig, levels, prev, next, sos, eos };
    proof {
        let s = sequences_of(types@, explicit.levels@, explicit.openers@, base);
        assert(runs.orig@ =~= s.orig);
        assert(runs.prev@ =~= s.prev);
        assert(runs.next@ =~= s.next);
        assert(runs.sos@ =~= s.sos);
        assert(runs.eos@ =~= s.eos);
    }
    (runs, kinds)
}

} // verus!
