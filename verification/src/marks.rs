//! The removal of the marks that only steer the algorithm: the embeddings, overrides
//! and PDFs, the boundary neutrals, and the two marks LRM and RLM.
//!
//! The text has to be in its logical order. Lists that go with the text are kept in
//! step: the levels, and the maps between the positions in this text and the positions
//! in another one.

use vstd::prelude::*;
use crate::error::Error;
use crate::unicode::bidi_class;
use crate::unicode::lookup_bidi_class;

verus! {

/// LEFT-TO-RIGHT MARK.
pub const CHAR_LRM: u32 = 0x200E;

/// RIGHT-TO-LEFT MARK.
pub const CHAR_RLM: u32 = 0x200F;

/// What stands in a map for a character that is gone.
pub const REMOVED: i32 = -1;

/// Whether a code point is one of the marks that are removed.
pub open spec fn is_mark(cp: u32) -> bool {
    bidi_class(cp).spec_is_explicit_or_bn() || cp == CHAR_LRM || cp == CHAR_RLM
}

/// The positions below `i` of the characters of `text` that stay, in ascending order.
pub open spec fn survivors(text: Seq<u32>, i: int) -> Seq<usize>
    decreases i,
{
    if i <= 0 {
        Seq::empty()
    } else if is_mark(text[i - 1]) {
        survivors(text, i - 1)
    } else {
        survivors(text, i - 1).push((i - 1) as usize)
    }
}

/// The entries of `list` at the positions `at`, in the order of `at`.
pub open spec fn pick<T>(list: Seq<T>, at: Seq<usize>) -> Seq<T> {
    Seq::new(at.len(), |j: int| list[at[j] as int])
}

/// The text without its marks.
pub open spec fn stripped(text: Seq<u32>) -> Seq<u32> {
    pick(text, survivors(text, text.len() as int))
}

/// The position that the character at `k` has once the marks are gone: the number of
/// characters before it that stay. It is `REMOVED` if the character is a mark, or if
/// `k` is no position of the text.
pub open spec fn new_position(text: Seq<u32>, k: int) -> i32 {
    if 0 <= k < text.len() && !is_mark(text[k]) {
        survivors(text, k).len() as i32
    } else {
        REMOVED
    }
}

/// A map into the text, with each position replaced by the new one.
pub open spec fn renumbered(text: Seq<u32>, to: Seq<i32>) -> Seq<i32> {
    Seq::new(to.len(), |k: int| new_position(text, to[k] as int))
}

/// The map back of the first `j` entries of the map `from`: at each position that one
/// of them names, the place of the last one that names it, and `REMOVED` at every other
/// position below `len`.
pub open spec fn inverse_upto(from: Seq<i32>, len: nat, j: int) -> Seq<i32>
    decreases j,
{
    if j <= 0 {
        Seq::new(len, |k: int| REMOVED)
    } else {
        let before = inverse_upto(from, len, j - 1);
        if 0 <= from[j - 1] < len {
            before.update(from[j - 1] as int, (j - 1) as i32)
        } else {
            before
        }
    }
}

/// The map back of the map `from`, over the positions below `len`.
pub open spec fn inverse_of(from: Seq<i32>, len: nat) -> Seq<i32> {
    inverse_upto(from, len, from.len() as int)
}

/// The survivors of a text are positions of the text, in ascending order, none of them
/// holds a mark, and they are no more than the characters read.
pub proof fn lemma_survivors(text: Seq<u32>, i: int)
    requires
        i <= text.len() <= usize::MAX,
    ensures
        survivors(text, i).len() <= (if i < 0 {
            0
        } else {
            i
        }),
        forall|j: int|
            0 <= j < survivors(text, i).len() ==> 0 <= #[trigger] survivors(text, i)[j] < i,
        forall|j: int|
            0 <= j < survivors(text, i).len() ==> !is_mark(
                text[#[trigger] survivors(text, i)[j] as int],
            ),
        forall|j: int, k: int|
            0 <= j < k < survivors(text, i).len() ==> survivors(text, i)[j] < survivors(
                text,
                i,
            )[k],
    decreases i,
{
    if i > 0 {
        lemma_survivors(text, i - 1);
        let before = survivors(text, i - 1);
        let all = survivors(text, i);
        if !is_mark(text[i - 1]) {
            assert(all == before.push((i - 1) as usize));
            assert forall|j: int| 0 <= j < all.len() implies !is_mark(
                text[#[trigger] all[j] as int],
            ) by {
                if j < before.len() {
                    assert(all[j] == before[j]);
                }
            }
            assert forall|j: int, k: int| 0 <= j < k < all.len() implies all[j] < all[k] by {
                assert(all[j] == before[j]);
                if k < before.len() {
                    assert(all[k] == before[k]);
                }
            }
        }
    }
}

/// The survivors among the first characters of a text come first among the survivors
/// of the whole text.
pub proof fn lemma_survivors_grow(text: Seq<u32>, i: int, n: int)
    requires
        0 <= i <= n <= text.len(),
    ensures
        survivors(text, i).len() <= survivors(text, n).len(),
        forall|j: int|
            0 <= j < survivors(text, i).len() ==> #[trigger] survivors(text, n)[j] == survivors(
                text,
                i,
            )[j],
    decreases n - i,
{
    if i < n {
        lemma_survivors_grow(text, i, n - 1);
    }
}

/// A character that is no mark stands at its new position in the text without marks.
pub proof fn lemma_new_position(text: Seq<u32>, k: int)
    requires
        0 <= k < text.len() <= i32::MAX,
        !is_mark(text[k]),
    ensures
        0 <= new_position(text, k) < stripped(text).len(),
        stripped(text)[new_position(text, k) as int] == text[k],
{
    let n = text.len() as int;
    lemma_survivors(text, k);
    lemma_survivors_grow(text, k + 1, n);
    let upto = survivors(text, k + 1);
    assert(upto == survivors(text, k).push(k as usize));
    assert(upto[survivors(text, k).len() as int] == k as usize);
}

/// In a text with one mark, the characters before the mark keep their positions, and
/// the characters after it move down by one.
pub proof fn lemma_one_mark(text: Seq<u32>, m: int, k: int)
    requires
        0 <= m < text.len() <= i32::MAX,
        0 <= k < text.len(),
        forall|i: int| 0 <= i < text.len() ==> (is_mark(#[trigger] text[i]) <==> i == m),
    ensures
        new_position(text, k) == (if k < m {
            k
        } else if k == m {
            REMOVED as int
        } else {
            k - 1
        }),
{
    lemma_survivors_count(text, m, k);
}

/// In a text whose only mark stands at `m`, all the characters before `m` stay, and all
/// but one of the characters up to a position after `m`.
pub proof fn lemma_survivors_count(text: Seq<u32>, m: int, i: int)
    requires
        0 <= m < text.len(),
        0 <= i <= text.len(),
        forall|k: int| 0 <= k < text.len() ==> (is_mark(#[trigger] text[k]) <==> k == m),
    ensures
        survivors(text, i).len() == (if i <= m {
            i
        } else {
            i - 1
        }),
    decreases i,
{
    if i > 0 {
        lemma_survivors_count(text, m, i - 1);
        assert(is_mark(text[i - 1]) <==> i - 1 == m);
    }
}

/// `inverse_upto` has one entry for each position below `len`.
pub proof fn lemma_inverse_len(from: Seq<i32>, len: nat, j: int)
    ensures
        inverse_upto(from, len, j).len() == len,
    decreases j,
{
    if j > 0 {
        lemma_inverse_len(from, len, j - 1);
    }
}

/// The map back of a map holds, at each position that the map names, a place that
/// names it; and where the map names no position twice, the place that names it.
pub proof fn lemma_inverse_finds(from: Seq<i32>, len: nat, j: int, i: int)
    requires
        0 <= i < j <= from.len() <= i32::MAX,
        0 <= from[i] < len,
    ensures
        0 <= inverse_upto(from, len, j)[from[i] as int] < j,
        from[inverse_upto(from, len, j)[from[i] as int] as int] == from[i],
        (forall|a: int, b: int| 0 <= a < b < from.len() ==> from[a] != from[b])
            ==> inverse_upto(from, len, j)[from[i] as int] == i,
    decreases j,
{
    lemma_inverse_len(from, len, j - 1);
    if i < j - 1 {
        lemma_inverse_finds(from, len, j - 1, i);
    }
}

/// Whether a code point is one of the marks that are removed.
pub fn is_bidi_mark(cp: u32) -> (r: bool)
    ensures
        r == is_mark(cp),
{
    lookup_bidi_class(cp).is_explicit_or_bn() || cp == CHAR_LRM || cp == CHAR_RLM
}

/// The positions of the characters of a text that stay, in ascending order.
pub fn find_survivors(text: &Vec<u32>) -> (at: Vec<usize>)
    ensures
        at@ == survivors(text@, text.len() as int),
        at.len() <= text.len(),
        forall|j: int| 0 <= j < at.len() ==> #[trigger] at[j] < text.len(),
{
    let n = text.len();
    let mut at: Vec<usize> = Vec::new();
    let mut i: usize = 0;
    while i < n
        invariant
            n == text.len(),
            i <= n,
            at@ == survivors(text@, i as int),
        decreases n - i,
    {
        if !is_bidi_mark(text[i]) {
            at.push(i);
        }
        i += 1;
    }
    proof {
        lemma_survivors(text@, n as int);
    }
    at
}

/// The entries of `list` at the positions `at`.
pub fn pick_from<T: Copy>(list: &Vec<T>, at: &Vec<usize>) -> (out: Vec<T>)
    requires
        forall|j: int| 0 <= j < at.len() ==> #[trigger] at[j] < list.len(),
    ensures
        out@ == pick(list@, at@),
{
    let mut out: Vec<T> = Vec::new();
    let mut j: usize = 0;
    while j < at.len()
        invariant
            j <= at.len(),
            out.len() == j,
            forall|k: int| 0 <= k < at.len() ==> #[trigger] at[k] < list.len(),
            forall|k: int| 0 <= k < j ==> #[trigger] out[k] == list[at[k] as int],
        decreases at.len() - j,
    {
        out.push(list[at[j]]);
        j += 1;
    }
    assert(out@ =~= pick(list@, at@));
    out
}

/// The map back of the map `from`, over the positions below `len`.
pub fn invert_map(from: &Vec<i32>, len: usize) -> (to: Vec<i32>)
    requires
        from.len() <= i32::MAX,
    ensures
        to@ == inverse_of(from@, len as nat),
        to.len() == len,
{
    let mut to: Vec<i32> = Vec::new();
    let mut k: usize = 0;
    while k < len
        invariant
            k <= len,
            to.len() == k,
            forall|m: int| 0 <= m < k ==> #[trigger] to[m] == REMOVED,
        decreases len - k,
    {
        to.push(REMOVED);
        k += 1;
    }
    assert(to@ =~= inverse_upto(from@, len as nat, 0));
    let mut j: usize = 0;
    while j < from.len()
        invariant
            from.len() <= i32::MAX,
            j <= from.len(),
            to.len() == len,
            to@ == inverse_upto(from@, len as nat, j as int),
        decreases from.len() - j,
    {
        let k = from[j];
        if 0 <= k && (k as usize) < len {
            to.set(k as usize, j as i32);
        }
        j += 1;
    }
    to
}

/// A map into a text, with each position replaced by the one that its character has
/// once the marks are gone.
pub fn renumber(text: &Vec<u32>, to: &Vec<i32>) -> (out: Vec<i32>)
    requires
        text.len() <= i32::MAX,
    ensures
        out@ == renumbered(text@, to@),
{
    let n = text.len();
    let mut ranks: Vec<i32> = Vec::new();
    let mut count: i32 = 0;
    let mut i: usize = 0;
    while i < n
        invariant
            n == text.len(),
            n <= i32::MAX,
            i <= n,
            ranks.len() == i,
            count == survivors(text@, i as int).len(),
            count <= i,
            forall|k: int| 0 <= k < i ==> #[trigger] ranks[k] == new_position(text@, k),
        decreases n - i,
    {
        if is_bidi_mark(text[i]) {
            ranks.push(REMOVED);
        } else {
            ranks.push(count);
            count += 1;
        }
        i += 1;
    }
    let mut out: Vec<i32> = Vec::new();
    let mut k: usize = 0;
    while k < to.len()
        invariant
            n == text.len(),
            ranks.len() == n,
            k <= to.len(),
            out.len() == k,
            forall|m: int| 0 <= m < n ==> #[trigger] ranks[m] == new_position(text@, m),
            forall|m: int| 0 <= m < k ==> #[trigger] out[m] == new_position(text@, to[m] as int),
        decreases to.len() - k,
    {
        let p = to[k];
        if 0 <= p && (p as usize) < n {
            out.push(ranks[p as usize]);
        } else {
            out.push(REMOVED);
        }
        k += 1;
    }
    assert(out@ =~= renumbered(text@, to@));
    out
}

/// The lists that go with a text once the marks of the text are gone.
pub ghost struct Stripped<L> {
    /// The text.
    pub text: Seq<u32>,
    /// For each position in the other text, the position in this one.
    pub to_this: Option<Seq<i32>>,
    /// For each position in this text, the position in the other one.
    pub from_this: Option<Seq<i32>>,
    /// The level of each character.
    pub levels: Option<Seq<L>>,
}

/// What is left of a text and of the lists that go with it once the marks are gone.
///
/// The text, the levels and the map from this text keep the entries of the characters
/// that stay. The map to this text is the map back of the new map from this text, if
/// that is given; else each of its positions is replaced by the new one.
pub open spec fn strip<L>(given: Stripped<L>) -> Stripped<L> {
    let at = survivors(given.text, given.text.len() as int);
    let from_this = match given.from_this {
        Some(from) => Some(pick(from, at)),
        None => None,
    };
    Stripped {
        text: pick(given.text, at),
        to_this: match given.to_this {
            Some(to) => match from_this {
                Some(from) => Some(inverse_of(from, to.len())),
                None => Some(renumbered(given.text, to)),
            },
            None => None,
        },
        from_this,
        levels: match given.levels {
            Some(levels) => Some(pick(levels, at)),
            None => None,
        },
    }
}

/// Whether the lists that are given have one entry for each character of the text.
pub open spec fn lengths_agree<L>(given: Stripped<L>) -> bool {
    &&& given.to_this matches Some(to) ==> to.len() == given.text.len()
    &&& given.from_this matches Some(from) ==> from.len() == given.text.len()
    &&& given.levels matches Some(levels) ==> levels.len() == given.text.len()
}

/// Whether the text is too long for the maps that are given: a map holds positions up
/// to `i32::MAX`.
pub open spec fn too_long<L>(given: Stripped<L>) -> bool {
    (given.to_this.is_some() || given.from_this.is_some()) && given.text.len() > i32::MAX
}

/// What `strip_marks` fails with on the text and the lists `given`, if it fails.
pub open spec fn strip_error<L>(given: Stripped<L>) -> Option<Error> {
    if !lengths_agree(given) {
        Some(Error::LengthMismatch)
    } else if too_long(given) {
        Some(Error::AllocationFailure)
    } else {
        None
    }
}

/// A list that may be given, as a sequence.
pub open spec fn given_list<T>(list: Option<&mut Vec<T>>) -> Option<Seq<T>> {
    match list {
        Some(v) => Some(v@),
        None => None,
    }
}

/// Removes the marks from a text in logical order, and keeps in step each of the lists
/// that is given: a removed character leaves `REMOVED` in the map to this text, and the
/// positions of the characters that stay are renumbered in both maps.
///
/// Fails with `LengthMismatch` if a list has not one entry for each character of the
/// text, and with `AllocationFailure` if a map is given and the text is longer than a
/// map can number. Nothing is changed then.
pub fn strip_marks<L: Copy>(
    text: &mut Vec<u32>,
    positions_to_this: Option<&mut Vec<i32>>,
    position_from_this_list: Option<&mut Vec<i32>>,
    embedding_levels: Option<&mut Vec<L>>,
) -> (r: Result<(), Error>)
    ensures
        ({
            let given = Stripped {
                text: old(text)@,
                to_this: given_list(positions_to_this),
                from_this: given_list(position_from_this_list),
                levels: given_list(embedding_levels),
            };
            let left = if r.is_ok() {
                strip(given)
            } else {
                given
            };
            &&& r == (match strip_error(given) {
                Some(e) => Err::<(), Error>(e),
                None => Ok::<(), Error>(()),
            })
            &&& final(text)@ == left.text
            &&& match positions_to_this {
                Some(v) => Some(final(v)@) == left.to_this,
                None => true,
            }
            &&& match position_from_this_list {
                Some(v) => Some(final(v)@) == left.from_this,
                None => true,
            }
            &&& match embedding_levels {
                Some(v) => Some(final(v)@) == left.levels,
                None => true,
            }
        }),
{
    let n = text.len();
    let to_fits = match &positions_to_this {
        Some(v) => v.len() == n,
        None => true,
    };
    let from_fits = match &position_from_this_list {
        Some(v) => v.len() == n,
        None => true,
    };
    let levels_fit = match &embedding_levels {
        Some(v) => v.len() == n,
        None => true,
    };
    if !to_fits || !from_fits || !levels_fit {
        return Err(Error::LengthMismatch);
    }
    if (positions_to_this.is_some() || position_from_this_list.is_some()) && n > 0x7FFF_FFFF {
        return Err(Error::AllocationFailure);
    }
    let at = find_survivors(text);
    match position_from_this_list {
        Some(from) => {
            let picked = pick_from(from, &at);
            match positions_to_this {
                Some(to) => {
                    let inverse = invert_map(&picked, to.len());
                    *to = inverse;
                },
                None => {},
            }
            *from = picked;
        },
        None => {
            match positions_to_this {
                Some(to) => {
                    let numbered = renumber(text, to);
                    *to = numbered;
                },
                None => {},
            }
        },
    }
    match embedding_levels {
        Some(levels) => {
            let picked = pick_from(levels, &at);
            *levels = picked;
        },
        None => {},
    }
    let left = pick_from(text, &at);
    *text = left;
    Ok(())
}

} // verus!
