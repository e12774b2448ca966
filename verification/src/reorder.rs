//! The order of the characters of a line on the screen.
//!
//! The levels of a line decide its order: from the highest level down to 1, each run of
//! characters at that level or above is reversed. Before that, the levels of the white
//! space at the end of the line are reset, and the non-spacing marks of right-to-left
//! text are put before their base character, so that they follow it on the screen.

use vstd::prelude::*;
use crate::char::CharType;
use crate::flag::FriBidiFlag;
use crate::level::LevelType;
use crate::level::MAX_RESOLVED_LEVEL;
use crate::marks::inverse_of;
use crate::marks::lemma_inverse_finds;
use crate::marks::lemma_inverse_len;
use crate::paragraph::ParagraphType;

verus! {

/// `p` with the entries from `a` to `b` in reverse order.
pub open spec fn reverse_range<T>(p: Seq<T>, a: int, b: int) -> Seq<T> {
    Seq::new(
        p.len(),
        |k: int|
            if a <= k <= b {
                p[a + b - k]
            } else {
                p[k]
            },
    )
}

/// The base level of a line of a paragraph with the direction `dir`.
pub open spec fn line_base(dir: ParagraphType) -> i8 {
    if dir.spec_is_rtl() {
        1
    } else {
        0
    }
}

/// Where the white space at the end of the first `n` characters starts: the position
/// after the last character that is no white space, embedding, override, PDF or BN.
pub open spec fn trail_start(types: Seq<CharType>, n: int) -> int
    decreases n,
{
    if n <= 0 {
        0
    } else if types[n - 1].spec_is_explicit_or_bn_or_ws() {
        trail_start(types, n - 1)
    } else {
        n
    }
}

/// The levels of a line: those of the paragraph, with the white space at the end of the
/// line reset to the base level.
pub open spec fn line_levels(types: Seq<CharType>, levels: Seq<LevelType>, dir: ParagraphType)
    -> Seq<LevelType> {
    Seq::new(
        levels.len(),
        |i: int|
            if i >= trail_start(types, levels.len() as int) {
                LevelType(line_base(dir))
            } else {
                levels[i]
            },
    )
}

/// The highest of 0 and the first `n` levels.
pub open spec fn highest_level(levels: Seq<LevelType>, n: int) -> int
    decreases n,
{
    if n <= 0 {
        0
    } else if levels[n - 1].0 > highest_level(levels, n - 1) {
        levels[n - 1].0 as int
    } else {
        highest_level(levels, n - 1)
    }
}

/// Where the run of characters at `level` or above that ends after `k` starts.
pub open spec fn run_start(levels: Seq<LevelType>, level: i8, k: int) -> int
    decreases k + 1,
{
    if k < 0 || levels[k].0 < level {
        k + 1
    } else {
        run_start(levels, level, k - 1)
    }
}

/// Where the group of a non-spacing mark of the level `level` starts, read from `k`
/// down: the group takes in the marks and the characters that the rules pass over, and
/// the base character before them if it has the same level.
pub open spec fn group_start(types: Seq<CharType>, levels: Seq<LevelType>, level: i8, k: int)
    -> int
    decreases k + 1,
{
    if k < 0 {
        0
    } else if levels[k].0 != level {
        k + 1
    } else if types[k].spec_is_explicit_or_bn_or_nsm() {
        group_start(types, levels, level, k - 1)
    } else {
        k
    }
}

/// A run starts at or before the position after `k`.
pub proof fn lemma_run_start_bound(levels: Seq<LevelType>, level: i8, k: int)
    requires
        k >= -1,
    ensures
        0 <= run_start(levels, level, k) <= k + 1,
    decreases k + 1,
{
    if k >= 0 && levels[k].0 >= level {
        lemma_run_start_bound(levels, level, k - 1);
    }
}

/// A group starts at or before the position after `k`.
pub proof fn lemma_group_start_bound(
    types: Seq<CharType>,
    levels: Seq<LevelType>,
    level: i8,
    k: int,
)
    requires
        k >= -1,
    ensures
        0 <= group_start(types, levels, level, k) <= k + 1,
    decreases k + 1,
{
    if k >= 0 && levels[k].0 == level && types[k].spec_is_explicit_or_bn_or_nsm() {
        lemma_group_start_bound(types, levels, level, k - 1);
    }
}

/// `p` with the groups of the non-spacing marks of right-to-left text below `hi`
/// reversed.
pub open spec fn marks_pass<T>(types: Seq<CharType>, levels: Seq<LevelType>, hi: int, p: Seq<T>)
    -> Seq<T>
    decreases hi,
{
    if hi <= 0 {
        p
    } else if levels[hi - 1].spec_is_right_to_left() && types[hi - 1]
        == CharType::NonSpacingMark {
        let a = group_start(types, levels, levels[hi - 1].0, hi - 2);
        proof {
            lemma_group_start_bound(types, levels, levels[hi - 1].0, hi - 2);
        }
        marks_pass(types, levels, a, reverse_range(p, a, hi - 1))
    } else {
        marks_pass(types, levels, hi - 1, p)
    }
}

/// `p` with each run of characters at `level` or above below `hi` reversed.
pub open spec fn level_pass<T>(levels: Seq<LevelType>, level: i8, hi: int, p: Seq<T>) -> Seq<T>
    decreases hi,
{
    if hi <= 0 {
        p
    } else if levels[hi - 1].0 >= level {
        let a = run_start(levels, level, hi - 2);
        proof {
            lemma_run_start_bound(levels, level, hi - 2);
        }
        level_pass(levels, level, a, reverse_range(p, a, hi - 1))
    } else {
        level_pass(levels, level, hi - 1, p)
    }
}

/// `p` after the passes for the levels from `level` down to 1.
pub open spec fn levels_pass<T>(levels: Seq<LevelType>, level: int, p: Seq<T>) -> Seq<T>
    decreases level,
{
    if level <= 0 {
        p
    } else {
        levels_pass(
            levels,
            level - 1,
            level_pass(levels, level as i8, levels.len() as int, p),
        )
    }
}

/// The entries of `p` in the order of the screen, for a line with the categories
/// `types` and the levels `levels`.
pub open spec fn visual<T>(
    flags: FriBidiFlag,
    types: Seq<CharType>,
    levels: Seq<LevelType>,
    p: Seq<T>,
) -> Seq<T> {
    let marked = if flags.spec_reorders_nsm() {
        marks_pass(types, levels, levels.len() as int, p)
    } else {
        p
    };
    levels_pass(levels, highest_level(levels, levels.len() as int), marked)
}

/// The positions from 0 to `n` in their order.
pub open spec fn identity(n: nat) -> Seq<u32> {
    Seq::new(n, |i: int| i as u32)
}

/// For each place on the screen the position in the line of the character that stands
/// there.
pub open spec fn visual_order(flags: FriBidiFlag, types: Seq<CharType>, levels: Seq<LevelType>)
    -> Seq<u32> {
    visual(flags, types, levels, identity(levels.len()))
}

/// `p` holds each position below its length once.
pub open spec fn is_permutation(p: Seq<u32>) -> bool {
    &&& forall|i: int| 0 <= i < p.len() ==> #[trigger] p[i] < p.len()
    &&& forall|i: int, j: int| 0 <= i < j < p.len() ==> p[i] != p[j]
}

/// `q` holds the entries of `t` in the order that `p` gives: at each place the entry of
/// `t` at the position that `p` holds for that place.
pub open spec fn arranges<T>(p: Seq<u32>, q: Seq<T>, t: Seq<T>) -> bool {
    &&& p.len() == t.len()
    &&& q.len() == t.len()
    &&& is_permutation(p)
    &&& forall|i: int| 0 <= i < p.len() ==> #[trigger] q[i] == t[p[i] as int]
}

/// Reversing a range of the order and of the entries together keeps the entries
/// arranged by the order.
pub proof fn lemma_reverse_arranges<T>(p: Seq<u32>, q: Seq<T>, t: Seq<T>, a: int, b: int)
    requires
        arranges(p, q, t),
        0 <= a,
        b < p.len(),
    ensures
        arranges(reverse_range(p, a, b), reverse_range(q, a, b), t),
{
    let turned = reverse_range(p, a, b);
    assert forall|i: int, j: int| 0 <= i < j < turned.len() implies turned[i] != turned[j] by {
        let i1 = if a <= i <= b {
            a + b - i
        } else {
            i
        };
        let j1 = if a <= j <= b {
            a + b - j
        } else {
            j
        };
        assert(turned[i] == p[i1]);
        assert(turned[j] == p[j1]);
        assert(i1 != j1);
        if i1 < j1 {
            assert(p[i1] != p[j1]);
        } else {
            assert(p[j1] != p[i1]);
        }
    }
}

/// The pass for the marks keeps the entries arranged by the order.
pub proof fn lemma_marks_pass_arranges<T>(
    types: Seq<CharType>,
    levels: Seq<LevelType>,
    hi: int,
    p: Seq<u32>,
    q: Seq<T>,
    t: Seq<T>,
)
    requires
        arranges(p, q, t),
        hi <= p.len(),
    ensures
        arranges(marks_pass(types, levels, hi, p), marks_pass(types, levels, hi, q), t),
    decreases hi,
{
    if hi <= 0 {
    } else if levels[hi - 1].spec_is_right_to_left() && types[hi - 1]
        == CharType::NonSpacingMark {
        let a = group_start(types, levels, levels[hi - 1].0, hi - 2);
        lemma_group_start_bound(types, levels, levels[hi - 1].0, hi - 2);
        lemma_reverse_arranges(p, q, t, a, hi - 1);
        lemma_marks_pass_arranges(
            types,
            levels,
            a,
            reverse_range(p, a, hi - 1),
            reverse_range(q, a, hi - 1),
            t,
        );
    } else {
        lemma_marks_pass_arranges(types, levels, hi - 1, p, q, t);
    }
}

/// The pass for one level keeps the entries arranged by the order.
pub proof fn lemma_level_pass_arranges<T>(
    levels: Seq<LevelType>,
    level: i8,
    hi: int,
    p: Seq<u32>,
    q: Seq<T>,
    t: Seq<T>,
)
    requires
        arranges(p, q, t),
        hi <= p.len(),
    ensures
        arranges(level_pass(levels, level, hi, p), level_pass(levels, level, hi, q), t),
    decreases hi,
{
    if hi <= 0 {
    } else if levels[hi - 1].0 >= level {
        let a = run_start(levels, level, hi - 2);
        lemma_run_start_bound(levels, level, hi - 2);
        lemma_reverse_arranges(p, q, t, a, hi - 1);
        lemma_level_pass_arranges(
            levels,
            level,
            a,
            reverse_range(p, a, hi - 1),
            reverse_range(q, a, hi - 1),
            t,
        );
    } else {
        lemma_level_pass_arranges(levels, level, hi - 1, p, q, t);
    }
}

/// The passes for the levels keep the entries arranged by the order.
pub proof fn lemma_levels_pass_arranges<T>(
    levels: Seq<LevelType>,
    level: int,
    p: Seq<u32>,
    q: Seq<T>,
    t: Seq<T>,
)
    requires
        arranges(p, q, t),
        levels.len() == p.len(),
    ensures
        arranges(levels_pass(levels, level, p), levels_pass(levels, level, q), t),
    decreases level,
{
    if level > 0 {
        lemma_level_pass_arranges(levels, level as i8, levels.len() as int, p, q, t);
        lemma_levels_pass_arranges(
            levels,
            level - 1,
            level_pass(levels, level as i8, levels.len() as int, p),
            level_pass(levels, level as i8, levels.len() as int, q),
            t,
        );
    }
}

/// The order of the screen is a permutation of the positions of the line, and a text
/// put into the order of the screen holds at each place the character that the order
/// names.
pub proof fn lemma_visual_arranges<T>(
    flags: FriBidiFlag,
    types: Seq<CharType>,
    levels: Seq<LevelType>,
    t: Seq<T>,
)
    requires
        t.len() == levels.len(),
        levels.len() <= u32::MAX,
    ensures
        arranges(visual_order(flags, types, levels), visual(flags, types, levels, t), t),
{
    let n = levels.len();
    let p = identity(n);
    assert(arranges(p, t, t));
    if flags.spec_reorders_nsm() {
        lemma_marks_pass_arranges(types, levels, n as int, p, t, t);
        lemma_levels_pass_arranges(
            levels,
            highest_level(levels, n as int),
            marks_pass(types, levels, n as int, p),
            marks_pass(types, levels, n as int, t),
            t,
        );
    } else {
        lemma_levels_pass_arranges(levels, highest_level(levels, n as int), p, t, t);
    }
}

/// Whether a line with the levels `levels` of a paragraph with the direction `dir` is in
/// the order of the screen as it stands: all its levels are 0, and so is the base level
/// of the paragraph.
pub open spec fn stays_in_order(levels: Seq<LevelType>, dir: ParagraphType) -> bool {
    &&& !dir.spec_is_rtl()
    &&& forall|i: int| 0 <= i < levels.len() ==> #[trigger] levels[i] == LevelType(0)
}

/// Where no level is above 0, the highest level is 0.
pub proof fn lemma_highest_of_zeros(levels: Seq<LevelType>, n: int)
    requires
        n <= levels.len(),
        forall|i: int| 0 <= i < levels.len() ==> (#[trigger] levels[i]).0 <= 0,
    ensures
        highest_level(levels, n) == 0,
    decreases n,
{
    if n > 0 {
        lemma_highest_of_zeros(levels, n - 1);
    }
}

/// Where no level is odd, the pass for the marks changes nothing.
pub proof fn lemma_marks_pass_of_even<T>(
    types: Seq<CharType>,
    levels: Seq<LevelType>,
    hi: int,
    p: Seq<T>,
)
    requires
        hi <= levels.len(),
        forall|i: int| 0 <= i < levels.len() ==> !(#[trigger] levels[i]).spec_is_right_to_left(),
    ensures
        marks_pass(types, levels, hi, p) == p,
    decreases hi,
{
    if hi > 0 {
        lemma_marks_pass_of_even(types, levels, hi - 1, p);
    }
}

/// A line whose characters all have the level 0 stays as it is: its order on the screen
/// is its own order.
pub proof fn lemma_level_zero_stays<T>(
    flags: FriBidiFlag,
    types: Seq<CharType>,
    levels: Seq<LevelType>,
    p: Seq<T>,
)
    requires
        forall|i: int| 0 <= i < levels.len() ==> #[trigger] levels[i] == LevelType(0),
    ensures
        visual(flags, types, levels, p) == p,
        visual_order(flags, types, levels) == identity(levels.len()),
{
    let n = levels.len() as int;
    lemma_highest_of_zeros(levels, n);
    lemma_marks_pass_of_even(types, levels, n, p);
    lemma_marks_pass_of_even(types, levels, n, identity(levels.len()));
}

/// The order of the screen can be undone: the map back of the order leads from each
/// character of the line to the same character on the screen, whatever the levels are.
pub proof fn lemma_order_round_trip<T>(
    flags: FriBidiFlag,
    types: Seq<CharType>,
    levels: Seq<LevelType>,
    text: Seq<T>,
)
    requires
        text.len() == levels.len(),
        levels.len() <= i32::MAX,
    ensures
        ({
            let order = visual_order(flags, types, levels);
            let shown = visual(flags, types, levels, text);
            let back = inverse_of(Seq::new(order.len(), |i: int| order[i] as i32), text.len());
            &&& shown.len() == text.len()
            &&& back.len() == text.len()
            &&& forall|j: int| 0 <= j < text.len() ==> 0 <= #[trigger] back[j] < text.len()
            &&& forall|j: int| 0 <= j < text.len() ==> shown[#[trigger] back[j] as int] == text[j]
        }),
{
    lemma_visual_arranges(flags, types, levels, text);
    let order = visual_order(flags, types, levels);
    lemma_inverse_of_permutation(order);
    let shown = visual(flags, types, levels, text);
    let back = inverse_of(Seq::new(order.len(), |i: int| order[i] as i32), text.len());
    assert forall|j: int| 0 <= j < text.len() implies shown[#[trigger] back[j] as int]
        == text[j] by {
        assert(order[back[j] as int] == j);
    }
}

/// The map back of a permutation undoes it: it leads from each position to the place
/// that holds the position.
pub proof fn lemma_inverse_of_permutation(p: Seq<u32>)
    requires
        is_permutation(p),
        p.len() <= i32::MAX,
    ensures
        ({
            let from = Seq::new(p.len(), |i: int| p[i] as i32);
            let to = inverse_of(from, p.len());
            &&& to.len() == p.len()
            &&& forall|j: int| 0 <= j < p.len() ==> 0 <= #[trigger] to[j] < p.len()
            &&& forall|j: int| 0 <= j < p.len() ==> p[#[trigger] to[j] as int] == j
            &&& forall|i: int| 0 <= i < p.len() ==> to[#[trigger] p[i] as int] == i
        }),
{
    let n = p.len();
    let from = Seq::new(n, |i: int| p[i] as i32);
    let to = inverse_of(from, n);
    lemma_inverse_len(from, n, n as int);
    assert forall|i: int| 0 <= i < n implies to[#[trigger] p[i] as int] == i by {
        assert(from[i] == p[i]);
        lemma_inverse_finds(from, n, n as int, i);
    }
    lemma_permutation_onto(p, n as int);
    assert forall|j: int| 0 <= j < n implies 0 <= #[trigger] to[j] < n && p[to[j] as int] == j by {
        assert(hits(p, n as int, j));
        let i = choose|i: int| 0 <= i < n && #[trigger] p[i] == j;
        assert(to[p[i] as int] == i);
    }
}

/// Whether one of the first `k` entries of `p` is `j`.
pub open spec fn hits(p: Seq<u32>, k: int, j: int) -> bool {
    exists|i: int| 0 <= i < k && #[trigger] p[i] == j
}

/// A permutation holds every position below its length.
pub proof fn lemma_permutation_onto(p: Seq<u32>, n: int)
    requires
        is_permutation(p),
        n == p.len(),
    ensures
        forall|j: int| 0 <= j < n ==> #[trigger] hits(p, n, j),
{
    let found = Set::new(|j: int| 0 <= j < n && hits(p, n, j));
    let all = Set::new(|j: int| 0 <= j < n);
    lemma_counts(p, n);
    vstd::set_lib::lemma_int_range(0, n);
    assert(all =~= vstd::set_lib::set_int_range(0, n));
    assert(found.subset_of(all));
    assert(image_upto(p, n) =~= found);
    vstd::set_lib::lemma_subset_equality(found, all);
    assert forall|j: int| 0 <= j < n implies #[trigger] hits(p, n, j) by {
        assert(all.contains(j));
        assert(found.contains(j));
    }
}

/// The positions that the first `k` entries of `p` hold.
pub open spec fn image_upto(p: Seq<u32>, k: int) -> Set<int> {
    Set::new(|j: int| 0 <= j < p.len() && hits(p, k, j))
}

/// The first `k` entries of a permutation hold `k` positions.
pub proof fn lemma_counts(p: Seq<u32>, k: int)
    requires
        is_permutation(p),
        0 <= k <= p.len(),
    ensures
        image_upto(p, k).finite(),
        image_upto(p, k).len() == k,
    decreases k,
{
    if k == 0 {
        assert(image_upto(p, 0) =~= Set::<int>::empty());
    } else {
        lemma_counts(p, k - 1);
        let before = image_upto(p, k - 1);
        let now = image_upto(p, k);
        let added = p[k - 1] as int;
        assert(hits(p, k, added));
        assert(!before.contains(added)) by {
            if before.contains(added) {
                let i = choose|i: int| 0 <= i < k - 1 && #[trigger] p[i] == added;
                assert(p[i] != p[k - 1]);
            }
        }
        assert(now =~= before.insert(added)) by {
            assert forall|j: int| now.contains(j) implies before.insert(added).contains(j) by {
                let i = choose|i: int| 0 <= i < k && #[trigger] p[i] == j;
                if i < k - 1 {
                    assert(hits(p, k - 1, j));
                }
            }
            assert forall|j: int| before.insert(added).contains(j) implies now.contains(j) by {
                if j != added {
                    let i = choose|i: int| 0 <= i < k - 1 && #[trigger] p[i] == j;
                    assert(hits(p, k, j));
                }
            }
        }
    }
}

/// Reverses the entries of `v` from `a` to `b`.
fn reverse_in<T: Copy>(v: &mut Vec<T>, a: usize, b: usize)
    requires
        a <= b < old(v).len(),
    ensures
        final(v)@ == reverse_range(old(v)@, a as int, b as int),
        final(v).len() == old(v).len(),
{
    let ghost before = v@;
    let mut lo: usize = a;
    let mut hi: usize = b;
    while lo < hi
        invariant
            a <= lo,
            hi <= b,
            lo + hi == a + b,
            lo <= hi + 1,
            v.len() == before.len(),
            b < before.len(),
            forall|k: int| (a <= k < lo || hi < k <= b) ==> #[trigger] v[k] == before[a + b - k],
            forall|k: int|
                (0 <= k < a || b < k < v.len() || lo <= k <= hi) ==> #[trigger] v[k] == before[k],
        decreases hi + 1 - lo,
    {
        let x = v[lo];
        let y = v[hi];
        v.set(lo, y);
        v.set(hi, x);
        lo += 1;
        hi -= 1;
    }
    assert(v@ =~= reverse_range(before, a as int, b as int));
}

/// Reverses each group of a base character and its non-spacing marks in right-to-left
/// text, so that the marks follow the base character once the run is reversed.
fn reorder_marks(
    types: &Vec<CharType>,
    levels: &Vec<LevelType>,
    map: &mut Vec<u32>,
    text: &mut Vec<u32>,
)
    requires
        types.len() == levels.len(),
        old(map).len() == levels.len(),
        old(text).len() == levels.len(),
    ensures
        final(map)@ == marks_pass(types@, levels@, levels.len() as int, old(map)@),
        final(text)@ == marks_pass(types@, levels@, levels.len() as int, old(text)@),
        final(map).len() == levels.len(),
        final(text).len() == levels.len(),
{
    let n = levels.len();
    let ghost map_goal = marks_pass(types@, levels@, n as int, map@);
    let ghost text_goal = marks_pass(types@, levels@, n as int, text@);
    let mut hi: usize = n;
    while hi > 0
        invariant
            n == levels.len(),
            n == types.len(),
            map.len() == n,
            text.len() == n,
            hi <= n,
            map_goal == marks_pass(types@, levels@, hi as int, map@),
            text_goal == marks_pass(types@, levels@, hi as int, text@),
        decreases hi,
    {
        let i = hi - 1;
        if levels[i].is_right_to_left() && types[i] == CharType::NonSpacingMark {
            let level = levels[i].0;
            let mut k: usize = i;
            while k > 0 && levels[k - 1].0 == level && types[k - 1].is_explicit_or_bn_or_nsm()
                invariant
                    n == levels.len(),
                    n == types.len(),
                    k <= i < n,
                    group_start(types@, levels@, level, i as int - 1) == group_start(
                        types@,
                        levels@,
                        level,
                        k as int - 1,
                    ),
                decreases k,
            {
                k -= 1;
            }
            let a = if k > 0 && levels[k - 1].0 == level {
                k - 1
            } else {
                k
            };
            reverse_in(map, a, i);
            reverse_in(text, a, i);
            hi = a;
        } else {
            hi = i;
        }
    }
}

/// Reverses each run of characters at `level` or above.
fn reorder_level(levels: &Vec<LevelType>, level: i8, map: &mut Vec<u32>, text: &mut Vec<u32>)
    requires
        old(map).len() == levels.len(),
        old(text).len() == levels.len(),
    ensures
        final(map)@ == level_pass(levels@, level, levels.len() as int, old(map)@),
        final(text)@ == level_pass(levels@, level, levels.len() as int, old(text)@),
        final(map).len() == levels.len(),
        final(text).len() == levels.len(),
{
    let n = levels.len();
    let ghost map_goal = level_pass(levels@, level, n as int, map@);
    let ghost text_goal = level_pass(levels@, level, n as int, text@);
    let mut hi: usize = n;
    while hi > 0
        invariant
            n == levels.len(),
            map.len() == n,
            text.len() == n,
            hi <= n,
            map_goal == level_pass(levels@, level, hi as int, map@),
            text_goal == level_pass(levels@, level, hi as int, text@),
        decreases hi,
    {
        let i = hi - 1;
        if levels[i].0 >= level {
            let mut a: usize = i;
            while a > 0 && levels[a - 1].0 >= level
                invariant
                    n == levels.len(),
                    a <= i < n,
                    run_start(levels@, level, i as int - 1) == run_start(
                        levels@,
                        level,
                        a as int - 1,
                    ),
                decreases a,
            {
                a -= 1;
            }
            reverse_in(map, a, i);
            reverse_in(text, a, i);
            hi = a;
        } else {
            hi = i;
        }
    }
}

/// Brings the characters `text` of a line into the order of the screen.
///
/// Resets the levels of the white space at the end of the line to the base level, and
/// reorders the text by the levels. Returns one more than the highest level of the line
/// and, for each place on the screen, the position in the line of the character that
/// now stands there.
pub fn reorder(
    flags: FriBidiFlag,
    types: &Vec<CharType>,
    dir: ParagraphType,
    levels: &mut Vec<LevelType>,
    text: &mut Vec<u32>,
) -> (out: (LevelType, Vec<u32>))
    requires
        types.len() == old(levels).len(),
        old(text).len() == old(levels).len(),
        old(levels).len() <= u32::MAX,
        forall|i: int| 0 <= i < old(levels).len() ==> (#[trigger] old(levels)[i]).wf(),
    ensures
        final(levels)@ == line_levels(types@, old(levels)@, dir),
        out.1@ == visual_order(flags, types@, final(levels)@),
        final(text)@ == visual(flags, types@, final(levels)@, old(text)@),
        arranges(out.1@, final(text)@, old(text)@),
        out.0.0 == highest_level(final(levels)@, final(levels).len() as int) + 1,
        out.1@.len() == old(levels).len(),
        forall|j: int| 0 <= j < old(levels).len() ==> #[trigger] hits(
            out.1@,
            old(levels).len() as int,
            j,
        ),
        stays_in_order(old(levels)@, dir) ==> {
            &&& final(levels)@ == old(levels)@
            &&& final(text)@ == old(text)@
            &&& out.1@ == identity(old(levels).len() as nat)
            &&& out.0 == LevelType(1)
        },
{
    let n = levels.len();
    let ghost given = levels@;
    let ghost written = text@;
    let base: i8 = if dir.is_rtl() {
        1
    } else {
        0
    };
    let mut i: usize = n;
    while i > 0 && types[i - 1].is_explicit_or_bn_or_ws()
        invariant
            n == types.len(),
            n == levels.len(),
            i <= n,
            trail_start(types@, n as int) == trail_start(types@, i as int),
            forall|k: int| 0 <= k < i ==> #[trigger] levels[k] == given[k],
            forall|k: int| i <= k < n ==> #[trigger] levels[k] == LevelType(base),
        decreases i,
    {
        i -= 1;
        levels.set(i, LevelType(base));
    }
    assert(levels@ =~= line_levels(types@, given, dir));
    let mut map: Vec<u32> = Vec::new();
    let mut k: usize = 0;
    while k < n
        invariant
            n <= u32::MAX,
            k <= n,
            map.len() == k,
            forall|m: int| 0 <= m < k ==> #[trigger] map[m] == m as u32,
        decreases n - k,
    {
        map.push(k as u32);
        k += 1;
    }
    assert(map@ =~= identity(n as nat));
    if flags.reorders_nsm() {
        reorder_marks(types, levels, &mut map, text);
    }
    let mut highest: i8 = 0;
    let mut k: usize = 0;
    while k < n
        invariant
            n == levels.len(),
            k <= n,
            highest == highest_level(levels@, k as int),
            0 <= highest <= MAX_RESOLVED_LEVEL,
            forall|m: int| 0 <= m < n ==> (#[trigger] levels[m]).wf(),
        decreases n - k,
    {
        if levels[k].0 > highest {
            highest = levels[k].0;
        }
        k += 1;
    }
    let ghost marked_map = map@;
    let ghost marked_text = text@;
    let mut level: i8 = highest;
    while level > 0
        invariant
            n == levels.len(),
            map.len() == n,
            text.len() == n,
            0 <= level <= highest,
            levels_pass(levels@, highest as int, marked_map) == levels_pass(
                levels@,
                level as int,
                map@,
            ),
            levels_pass(levels@, highest as int, marked_text) == levels_pass(
                levels@,
                level as int,
                text@,
            ),
        decreases level,
    {
        reorder_level(levels, level, &mut map, text);
        level -= 1;
    }
    proof {
        lemma_visual_arranges(flags, types@, levels@, written);
        lemma_permutation_onto(map@, n as int);
        if stays_in_order(given, dir) {
            assert(levels@ =~= given);
            lemma_level_zero_stays(flags, types@, levels@, written);
            lemma_highest_of_zeros(levels@, n as int);
        }
    }
    (LevelType(highest + 1), map)
}

} // verus!
