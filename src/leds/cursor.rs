//! What a sequence of pulls from either end of the LED ring hands out.

use vstd::prelude::*;

use crate::leds::Direction;

verus! {

/// One pull from the ring's iterator whose unyielded slots are
/// `front .. back`: the slot handed out, if any, and the new bounds.
/// `forward` pulls from the front (`next`), otherwise from the back
/// (`next_back`).
pub open spec fn pull(front: int, back: int, forward: bool) -> (Option<int>, int, int) {
    if front >= back {
        (None, front, back)
    } else if forward {
        (Some(front), front + 1, back)
    } else {
        (Some(back - 1), front, back - 1)
    }
}

/// The slots handed out by the pulls `ps`, in order, starting from the
/// bounds `front .. back` (`true` pulls from the front, `false` from the back).
pub open spec fn pulls(front: int, back: int, ps: Seq<bool>) -> Seq<Option<int>>
    decreases ps.len(),
{
    if ps.len() == 0 {
        Seq::empty()
    } else {
        let (y, f, b) = pull(front, back, ps[0]);
        seq![y] + pulls(f, b, ps.drop_first())
    }
}

/// The bounds left after the pulls `ps`, starting from `front .. back`.
pub open spec fn bounds_after(front: int, back: int, ps: Seq<bool>) -> (int, int)
    decreases ps.len(),
{
    if ps.len() == 0 {
        (front, back)
    } else {
        let (y, f, b) = pull(front, back, ps[0]);
        bounds_after(f, b, ps.drop_first())
    }
}

/// Pulls in any mix of ends hand out a slot exactly while slots are left,
/// and each slot comes from the unyielded range; the range shrinks by one for
/// each slot handed out.
pub proof fn lemma_pulls_count(front: int, back: int, ps: Seq<bool>)
    requires
        front <= back,
    ensures
        pulls(front, back, ps).len() == ps.len(),
        forall|k: int|
            0 <= k < ps.len() ==> ((#[trigger] pulls(front, back, ps)[k]) is Some <==> k < back
                - front),
        forall|k: int|
            0 <= k < ps.len() && (#[trigger] pulls(front, back, ps)[k]) is Some ==> front
                <= pulls(front, back, ps)[k].unwrap() < back,
        bounds_after(front, back, ps).0 <= bounds_after(front, back, ps).1,
        front <= bounds_after(front, back, ps).0,
        bounds_after(front, back, ps).1 <= back,
        bounds_after(front, back, ps).1 - bounds_after(front, back, ps).0 == if ps.len() <= back
            - front {
            back - front - ps.len()
        } else {
            0
        },
    decreases ps.len(),
{
    if ps.len() > 0 {
        let (y, f, b) = pull(front, back, ps[0]);
        lemma_pulls_count(f, b, ps.drop_first());
        let rest = pulls(f, b, ps.drop_first());
        assert(pulls(front, back, ps) == seq![y] + rest);
        assert forall|k: int| 0 < k < ps.len() implies pulls(front, back, ps)[k] == rest[k - 1] by {}
    }
}

/// No slot is handed out twice, whatever the mix of pulls from the front
/// and from the back.
pub proof fn lemma_pulls_never_repeat(front: int, back: int, ps: Seq<bool>)
    requires
        front <= back,
    ensures
        forall|i: int, j: int|
            0 <= i < j < ps.len() && (#[trigger] pulls(front, back, ps)[i]) is Some
                ==> pulls(front, back, ps)[i] != #[trigger] pulls(front, back, ps)[j],
    decreases ps.len(),
{
    lemma_pulls_count(front, back, ps);
    if ps.len() > 0 {
        let (y, f, b) = pull(front, back, ps[0]);
        lemma_pulls_never_repeat(f, b, ps.drop_first());
        lemma_pulls_count(f, b, ps.drop_first());
        let all = pulls(front, back, ps);
        let rest = pulls(f, b, ps.drop_first());
        assert(all == seq![y] + rest);
        assert forall|i: int, j: int|
            0 <= i < j < ps.len() && (#[trigger] all[i]) is Some implies all[i] != #[trigger] all[j] by {
            assert(all[j] == rest[j - 1]);
            if i > 0 {
                assert(all[i] == rest[i - 1]);
            } else if rest[j - 1] is Some {
                assert(f <= rest[j - 1].unwrap() < b);
            }
        }
    }
}

/// Eight pulls from a fresh iterator, in any mix of ends, hand out every
/// slot of the ring once; a further pull from either end hands out nothing.
pub proof fn lemma_eight_pulls_exhaust(ps: Seq<bool>)
    requires
        ps.len() == 8,
    ensures
        forall|k: int| 0 <= k < 8 ==> (#[trigger] pulls(0, 8, ps)[k]) is Some,
        forall|s: int| 0 <= s < 8 ==> #[trigger] pulls(0, 8, ps).contains(Some(s)),
        forall|i: int, j: int|
            0 <= i < j < 8 ==> #[trigger] pulls(0, 8, ps)[i] != #[trigger] pulls(0, 8, ps)[j],
        pulls(0, 8, ps.push(true))[8] is None,
        pulls(0, 8, ps.push(false))[8] is None,
{
    lemma_pulls_count(0, 8, ps);
    lemma_pulls_never_repeat(0, 8, ps);
    let ys = pulls(0, 8, ps);
    // The eight distinct slots, all below 8, are every slot.
    assert forall|s: int| 0 <= s < 8 implies #[trigger] ys.contains(Some(s)) by {
        let found = Seq::new(8, |k: int| ys[k].unwrap());
        assert(forall|k: int| 0 <= k < 8 ==> 0 <= #[trigger] found[k] < 8);
        assert(forall|i: int, j: int| 0 <= i < j < 8 ==> #[trigger] found[i] != #[trigger] found[j]);
        lemma_distinct_covers(found, s);
        let k = choose|k: int| 0 <= k < 8 && found[k] == s;
        assert(ys[k] == Some(s));
    }
    lemma_pulls_after_exhaustion(0, 8, ps, true);
    lemma_pulls_after_exhaustion(0, 8, ps, false);
}

proof fn lemma_pulls_after_exhaustion(front: int, back: int, ps: Seq<bool>, last: bool)
    requires
        front <= back,
        ps.len() >= back - front,
    ensures
        pulls(front, back, ps.push(last))[ps.len() as int] is None,
    decreases ps.len(),
{
    lemma_pulls_count(front, back, ps.push(last));
}

/// Eight distinct values in `0 .. 8` include every value of that range.
proof fn lemma_distinct_covers(found: Seq<int>, s: int)
    requires
        found.len() == 8,
        forall|k: int| 0 <= k < 8 ==> 0 <= #[trigger] found[k] < 8,
        forall|i: int, j: int| 0 <= i < j < 8 ==> #[trigger] found[i] != #[trigger] found[j],
        0 <= s < 8,
    ensures
        exists|k: int| 0 <= k < 8 && found[k] == s,
{
    if !(exists|k: int| 0 <= k < 8 && found[k] == s) {
        let seen = found.to_set();
        let range = Set::new(|v: int| 0 <= v < 8 && v != s);
        assert(seen.subset_of(range));
        vstd::set_lib::lemma_int_range(0, 8);
        assert(range =~= vstd::set_lib::set_int_range(0, 8).remove(s));
        found.unique_seq_to_set();
        vstd::set_lib::lemma_len_subset(seen, range);
    }
}

/// `n` pulls, all from the front (`forward`) or all from the back.
pub open spec fn one_end(n: nat, forward: bool) -> Seq<bool> {
    Seq::new(n, |i: int| forward)
}

/// Pulling eight times from the front of a fresh iterator hands out the LEDs
/// clockwise from North; a ninth pull hands out nothing.
pub proof fn lemma_forward_walk()
    ensures
        forall|k: int|
            0 <= k < 9 ==> #[trigger] pulls(0, 8, one_end(9, true))[k] == if k < 8 {
                Some(Direction::clockwise()[k].slot())
            } else {
                None
            },
{
    let ps = one_end(9, true);
    lemma_one_end_walk(0, 8, ps, true);
}

/// Pulling eight times from the back of a fresh iterator hands out the LEDs
/// counter-clockwise from North-West; a ninth pull hands out nothing.
pub proof fn lemma_backward_walk()
    ensures
        forall|k: int|
            0 <= k < 9 ==> #[trigger] pulls(0, 8, one_end(9, false))[k] == if k < 8 {
                Some(Direction::clockwise()[7 - k].slot())
            } else {
                None
            },
{
    let ps = one_end(9, false);
    lemma_one_end_walk(0, 8, ps, false);
}

/// Pulls all from one end hand out consecutive slots from that end.
proof fn lemma_one_end_walk(front: int, back: int, ps: Seq<bool>, forward: bool)
    requires
        front <= back,
        forall|k: int| 0 <= k < ps.len() ==> ps[k] == forward,
    ensures
        forall|k: int|
            0 <= k < ps.len() ==> #[trigger] pulls(front, back, ps)[k] == if k < back - front {
                Some(if forward { front + k } else { back - 1 - k })
            } else {
                None::<int>
            },
    decreases ps.len(),
{
    if ps.len() > 0 {
        let (y, f, b) = pull(front, back, ps[0]);
        lemma_one_end_walk(f, b, ps.drop_first(), forward);
        lemma_pulls_count(f, b, ps.drop_first());
        let rest = pulls(f, b, ps.drop_first());
        assert(pulls(front, back, ps) == seq![y] + rest);
        assert forall|k: int| 0 < k < ps.len() implies pulls(front, back, ps)[k] == rest[k - 1] by {}
    }
}

} // verus!
