use vstd::prelude::*;
use crate::char::CharType;

verus! {

/// The direction of a paragraph.
///
/// The two weak directions are hints: a caller gives one to say which way a paragraph
/// without a strong character runs. No function returns one as the direction it found.
#[derive(PartialEq, Eq, Structural, PartialOrd, Debug, Clone, Copy, Hash)]
pub enum ParagraphType {
    /// Left to right.
    LeftToRight,
    /// Right to left.
    RightToLeft,
    /// Not known: the text decides.
    OtherNeutral,
    /// The text decides, and a text that does not runs left to right.
    WeakLeftToRight,
    /// The text decides, and a text that does not runs right to left.
    WeakRightToLeft,
}

/// The direction of the first letter (L, R or AL) from `from` on that stands outside
/// every isolate, and `OtherNeutral` if there is none.
///
/// `depth` is the number of isolates that are open at `from`. A PDI closes the last open
/// isolate; one that finds none open is passed over, unless the search is `bounded`: then
/// it ends the search.
pub open spec fn first_strong(types: Seq<CharType>, from: int, depth: nat, bounded: bool)
    -> ParagraphType
    decreases types.len() - from,
{
    if from < 0 || from >= types.len() {
        ParagraphType::OtherNeutral
    } else if types[from] == CharType::PopDirectionalIsolate {
        if depth > 0 {
            first_strong(types, from + 1, (depth - 1) as nat, bounded)
        } else if bounded {
            ParagraphType::OtherNeutral
        } else {
            first_strong(types, from + 1, 0, bounded)
        }
    } else if types[from].spec_is_isolate_initiator() {
        first_strong(types, from + 1, depth + 1, bounded)
    } else if depth == 0 && types[from].spec_is_letter() {
        if types[from].spec_is_rtl() {
            ParagraphType::RightToLeft
        } else {
            ParagraphType::LeftToRight
        }
    } else {
        first_strong(types, from + 1, depth, bounded)
    }
}

/// `first_strong` finds one of the three directions that are no hints.
pub proof fn lemma_first_strong_is_resolved(
    types: Seq<CharType>,
    from: int,
    depth: nat,
    bounded: bool,
)
    ensures
        first_strong(types, from, depth, bounded).is_resolved(),
    decreases types.len() - from,
{
    if 0 <= from < types.len() {
        lemma_first_strong_is_resolved(types, from + 1, depth, bounded);
        lemma_first_strong_is_resolved(types, from + 1, depth + 1, bounded);
        if depth > 0 {
            lemma_first_strong_is_resolved(types, from + 1, (depth - 1) as nat, bounded);
        }
    }
}

/// Whether the characters from `from` up to `to` close every isolate that they open and
/// no other: each PDI among them finds an isolate open that one of them opened, and at
/// `to` none of these is open any more. `depth` is the number of them that are open at
/// `from`.
pub open spec fn balanced(types: Seq<CharType>, from: int, to: int, depth: nat) -> bool
    decreases to - from,
{
    if from >= to {
        depth == 0
    } else if types[from] == CharType::PopDirectionalIsolate {
        depth > 0 && balanced(types, from + 1, to, (depth - 1) as nat)
    } else if types[from].spec_is_isolate_initiator() {
        balanced(types, from + 1, to, depth + 1)
    } else {
        balanced(types, from + 1, to, depth)
    }
}

/// Inside an isolate the search finds nothing: from a position inside, it goes on to
/// the end of what the isolate holds.
pub proof fn lemma_inside_is_passed(
    types: Seq<CharType>,
    from: int,
    to: int,
    inner: nat,
    depth: nat,
    bounded: bool,
)
    requires
        0 <= from <= to <= types.len(),
        depth >= 1,
        balanced(types, from, to, inner),
    ensures
        first_strong(types, from, depth + inner, bounded) == first_strong(
            types,
            to,
            depth,
            bounded,
        ),
    decreases to - from,
{
    if from < to {
        if types[from] == CharType::PopDirectionalIsolate {
            lemma_inside_is_passed(types, from + 1, to, (inner - 1) as nat, depth, bounded);
        } else if types[from].spec_is_isolate_initiator() {
            lemma_inside_is_passed(types, from + 1, to, inner + 1, depth, bounded);
        } else {
            lemma_inside_is_passed(types, from + 1, to, inner, depth, bounded);
        }
    }
}

/// The search passes over an isolate, whatever the isolate holds: started at the
/// initiator at `i`, whose PDI stands at `m`, it finds what it finds after `m`.
pub proof fn lemma_isolate_is_passed(
    types: Seq<CharType>,
    i: int,
    m: int,
    depth: nat,
    bounded: bool,
)
    requires
        0 <= i < m < types.len(),
        types[i].spec_is_isolate_initiator(),
        types[m] == CharType::PopDirectionalIsolate,
        balanced(types, i + 1, m, 0),
    ensures
        first_strong(types, i, depth, bounded) == first_strong(types, m + 1, depth, bounded),
{
    lemma_inside_is_passed(types, i + 1, m, 0, depth + 1, bounded);
}

/// The search finds in the end of a text what it finds in the end taken by itself.
pub proof fn lemma_first_strong_of_rest(
    types: Seq<CharType>,
    from: int,
    at: int,
    depth: nat,
    bounded: bool,
)
    requires
        0 <= from <= types.len(),
        0 <= at,
    ensures
        first_strong(types, from + at, depth, bounded) == first_strong(
            types.subrange(from, types.len() as int),
            at,
            depth,
            bounded,
        ),
    decreases types.len() - from - at,
{
    let rest = types.subrange(from, types.len() as int);
    if from + at < types.len() {
        assert(rest[at] == types[from + at]);
        lemma_first_strong_of_rest(types, from, at + 1, depth, bounded);
        lemma_first_strong_of_rest(types, from, at + 1, depth + 1, bounded);
        if depth > 0 {
            lemma_first_strong_of_rest(types, from, at + 1, (depth - 1) as nat, bounded);
        }
    }
}

/// The direction of a paragraph does not depend on what its isolates hold: a paragraph
/// that starts with an isolate has the direction of what follows the isolate.
pub proof fn lemma_direction_ignores_isolate(
    initiator: CharType,
    inside: Seq<CharType>,
    after: Seq<CharType>,
)
    requires
        initiator.spec_is_isolate_initiator(),
        balanced(inside, 0, inside.len() as int, 0),
    ensures
        ParagraphType::spec_direction(
            seq![initiator] + inside + seq![CharType::PopDirectionalIsolate] + after,
        ) == ParagraphType::spec_direction(after),
{
    let types = seq![initiator] + inside + seq![CharType::PopDirectionalIsolate] + after;
    let m = inside.len() as int + 1;
    assert(types[0] == initiator);
    assert(types[m] == CharType::PopDirectionalIsolate);
    assert(types.subrange(1, m) == inside);
    lemma_balanced_of_part(types, 1, 0, inside.len() as int, 0);
    lemma_isolate_is_passed(types, 0, m, 0, false);
    assert(types.subrange(m + 1, types.len() as int) == after);
    lemma_first_strong_of_rest(types, m + 1, 0, 0, false);
}

/// A part of a text is balanced in the text if it is balanced taken by itself.
pub proof fn lemma_balanced_of_part(types: Seq<CharType>, start: int, from: int, to: int, depth: nat)
    requires
        0 <= start,
        0 <= from <= to,
        start + to <= types.len(),
        balanced(types.subrange(start, start + to), from, to, depth),
    ensures
        balanced(types, start + from, start + to, depth),
    decreases to - from,
{
    let part = types.subrange(start, start + to);
    if from < to {
        assert(part[from] == types[start + from]);
        if part[from] == CharType::PopDirectionalIsolate {
            lemma_balanced_of_part(types, start, from + 1, to, (depth - 1) as nat);
        } else if part[from].spec_is_isolate_initiator() {
            lemma_balanced_of_part(types, start, from + 1, to, depth + 1);
        } else {
            lemma_balanced_of_part(types, start, from + 1, to, depth);
        }
    }
}

/// Searches `types` from `from` on for the first letter outside every isolate.
pub fn find_first_strong(types: &Vec<CharType>, from: usize, bounded: bool) -> (d: ParagraphType)
    ensures
        d == first_strong(types@, from as int, 0, bounded),
        d.is_resolved(),
{
    proof {
        lemma_first_strong_is_resolved(types@, from as int, 0, bounded);
    }
    let mut i: usize = from;
    let mut depth: usize = 0;
    while i < types.len()
        invariant
            from <= i,
            depth <= i - from,
            first_strong(types@, from as int, 0, bounded) == first_strong(
                types@,
                i as int,
                depth as nat,
                bounded,
            ),
        decreases types.len() - i,
    {
        let t = types[i];
        if t == CharType::PopDirectionalIsolate {
            if depth > 0 {
                depth -= 1;
            } else if bounded {
                return ParagraphType::OtherNeutral;
            }
        } else if t.is_isolate_initiator() {
            depth += 1;
        } else if depth == 0 && t.is_letter() {
            if t.is_rtl() {
                return ParagraphType::RightToLeft;
            } else {
                return ParagraphType::LeftToRight;
            }
        }
        i += 1;
    }
    ParagraphType::OtherNeutral
}

impl ParagraphType {
    /// One of the three directions that are no hints.
    pub open spec fn is_resolved(self) -> bool {
        matches!(
            self,
            ParagraphType::LeftToRight | ParagraphType::RightToLeft | ParagraphType::OtherNeutral
        )
    }

    /// The direction runs right to left, by itself or as a hint.
    pub open spec fn spec_is_rtl(self) -> bool {
        matches!(self, ParagraphType::RightToLeft | ParagraphType::WeakRightToLeft)
    }

    /// Whether the direction runs right to left, by itself or as a hint.
    #[verifier::when_used_as_spec(spec_is_rtl)]
    pub fn is_rtl(self) -> (r: bool)
        ensures
            r == self.spec_is_rtl(),
    {
        matches!(self, ParagraphType::RightToLeft | ParagraphType::WeakRightToLeft)
    }

    /// The direction is one that leaves nothing to the text.
    pub open spec fn spec_is_strong(self) -> bool {
        matches!(self, ParagraphType::LeftToRight | ParagraphType::RightToLeft)
    }

    /// Whether the direction is `LeftToRight` or `RightToLeft`.
    #[verifier::when_used_as_spec(spec_is_strong)]
    pub fn is_strong(self) -> (r: bool)
        ensures
            r == self.spec_is_strong(),
    {
        matches!(self, ParagraphType::LeftToRight | ParagraphType::RightToLeft)
    }

    /// The base direction of a paragraph: that of its first letter outside every isolate.
    pub open spec fn spec_direction(types: Seq<CharType>) -> ParagraphType {
        first_strong(types, 0, 0, false)
    }

    /// The base direction of a paragraph: the direction of its first letter (L, R or AL)
    /// that stands outside every isolate, whatever the isolates hold. A paragraph
    /// without such a letter is `OtherNeutral`, and the caller may fall back on the
    /// direction of the paragraph before it or on a hint.
    pub fn direction(char_types: &Vec<CharType>) -> (d: ParagraphType)
        ensures
            d == Self::spec_direction(char_types@),
            d.is_resolved(),
    {
        find_first_strong(char_types, 0, false)
    }

    /// The hint of the same direction.
    pub open spec fn spec_weak(self) -> ParagraphType {
        if self.spec_is_rtl() {
            ParagraphType::WeakRightToLeft
        } else {
            ParagraphType::WeakLeftToRight
        }
    }

    /// Weakens a direction into the hint of the same direction, for use as a fallback:
    /// `WeakRightToLeft` for a right-to-left direction, `WeakLeftToRight` for any other.
    #[verifier::when_used_as_spec(spec_weak)]
    pub fn weak(self) -> (w: ParagraphType)
        ensures
            w == self.spec_weak(),
    {
        if self.is_rtl() {
            ParagraphType::WeakRightToLeft
        } else {
            ParagraphType::WeakLeftToRight
        }
    }
}

} // verus!
