//! Weighted random selection among candidate backends: the pool of one
//! call, the candidate that a draw selects, and the removal of a backend
//! that has failed.

use vstd::prelude::*;
use crate::text::same_text;

verus! {

/// A backend name with a routing weight: an entry of a catalog, or a
/// candidate in the pool of one call.
#[derive(Debug)]
pub struct Weighted {
    /// The name under which the backend is registered.
    pub name: String,
    /// The weight; a candidate of weight zero is never selected.
    pub weight: u64,
}

/// The sum of the weights of a pool.
pub open spec fn total_weight(pool: Seq<Weighted>) -> nat
    decreases pool.len(),
{
    if pool.len() == 0 {
        0
    } else {
        total_weight(pool.drop_last()) + pool.last().weight as nat
    }
}

/// The total weight of the candidates before position `at`.
pub open spec fn weight_before(pool: Seq<Weighted>, at: int) -> nat {
    total_weight(pool.take(at))
}

/// Whether `draw` selects the candidate at `at`: the draw lies above the
/// weight of all candidates before it, and within its own weight from there.
pub open spec fn selects(pool: Seq<Weighted>, draw: int, at: int) -> bool {
    &&& 0 <= at < pool.len()
    &&& weight_before(pool, at) < draw <= weight_before(pool, at) + pool[at].weight
}

/// The position that `draw` selects, for a draw from one to the total
/// weight of the pool.
pub open spec fn pick(pool: Seq<Weighted>, draw: int) -> int
    decreases pool.len(),
{
    if pool.len() == 0 {
        0
    } else if draw > total_weight(pool.drop_last()) {
        pool.len() - 1
    } else {
        pick(pool.drop_last(), draw)
    }
}

/// The pool without the candidates of the given name, the others in their
/// order.
pub open spec fn without(pool: Seq<Weighted>, name: Seq<char>) -> Seq<Weighted>
    decreases pool.len(),
{
    if pool.len() == 0 {
        pool
    } else if pool.last().name@ == name {
        without(pool.drop_last(), name)
    } else {
        without(pool.drop_last(), name).push(pool.last())
    }
}

/// Whether the pool holds a candidate of the given name.
pub open spec fn holds_name(pool: Seq<Weighted>, name: Seq<char>) -> bool {
    exists|at: int| 0 <= at < pool.len() && #[trigger] pool[at].name@ == name
}

/// The weight before a position grows by the weight at that position.
pub proof fn lemma_weight_before_next(pool: Seq<Weighted>, at: int)
    requires
        0 <= at < pool.len(),
    ensures
        weight_before(pool, at + 1) == weight_before(pool, at) + pool[at].weight,
        weight_before(pool, 0) == 0,
        weight_before(pool, pool.len() as int) == total_weight(pool),
{
    assert(pool.take(at + 1).drop_last() =~= pool.take(at));
    assert(pool.take(pool.len() as int) =~= pool);
}

/// The weight before a position never shrinks as the position moves on.
pub proof fn lemma_weight_before_grows(pool: Seq<Weighted>, from: int, to: int)
    requires
        0 <= from <= to <= pool.len(),
    ensures
        weight_before(pool, from) <= weight_before(pool, to),
    decreases to - from,
{
    if from < to {
        lemma_weight_before_grows(pool, from, to - 1);
        lemma_weight_before_next(pool, to - 1);
    }
}

/// A draw from one to the total weight selects the position that `pick`
/// names, and no other.
pub proof fn lemma_pick_selects(pool: Seq<Weighted>, draw: int)
    requires
        1 <= draw <= total_weight(pool),
    ensures
        selects(pool, draw, pick(pool, draw)),
        pool[pick(pool, draw)].weight > 0,
        forall|at: int| selects(pool, draw, at) ==> at == pick(pool, draw),
    decreases pool.len(),
{
    let last = pool.len() - 1;
    lemma_weight_before_next(pool, last);
    if draw <= total_weight(pool.drop_last()) {
        let front = pool.drop_last();
        lemma_pick_selects(front, draw);
        let found = pick(front, draw);
        assert(front.take(found) =~= pool.take(found));
        assert forall|at: int| selects(pool, draw, at) implies at == found by {
            if at != last {
                assert(front.take(at) =~= pool.take(at));
                assert(selects(front, draw, at));
            }
        }
    } else {
        assert forall|at: int| selects(pool, draw, at) implies at == last by {
            if at < last {
                lemma_weight_before_next(pool, at);
                lemma_weight_before_grows(pool, at + 1, last);
            }
        }
    }
}

/// Selection is proportional to weight: the draws that select a candidate
/// are exactly as many consecutive numbers as its weight says, so a draw
/// taken uniformly from one to the total weight selects each candidate with
/// a probability of its weight over the total.
pub proof fn lemma_selection_is_proportional(pool: Seq<Weighted>, at: int)
    requires
        0 <= at < pool.len(),
    ensures
        forall|draw: int|
            (1 <= draw <= total_weight(pool) && #[trigger] pick(pool, draw) == at) <==> (
            weight_before(pool, at) < draw <= weight_before(pool, at) + pool[at].weight),
        Set::new(|draw: int| 1 <= draw <= total_weight(pool) && pick(pool, draw) == at).finite(),
        Set::new(|draw: int| 1 <= draw <= total_weight(pool) && pick(pool, draw) == at).len()
            == pool[at].weight,
{
    let low = weight_before(pool, at) as int;
    let high = low + pool[at].weight;
    lemma_weight_before_next(pool, at);
    lemma_weight_before_grows(pool, at + 1, pool.len() as int);
    lemma_weight_before_next(pool, pool.len() - 1);
    assert forall|draw: int|
        (1 <= draw <= total_weight(pool) && #[trigger] pick(pool, draw) == at) <==> (low < draw
            <= high) by {
        if low < draw <= high {
            assert(selects(pool, draw, at));
        }
        if 1 <= draw <= total_weight(pool) {
            lemma_pick_selects(pool, draw);
        }
    }
    let chosen = Set::new(|draw: int| 1 <= draw <= total_weight(pool) && pick(pool, draw) == at);
    assert(chosen =~= vstd::set_lib::set_int_range(low + 1, high + 1));
    vstd::set_lib::lemma_int_range(low + 1, high + 1);
}

/// A pool with one more candidate holds the names it held, and the name of
/// that candidate.
proof fn lemma_names_grow(pool: Seq<Weighted>, extra: Weighted, name: Seq<char>)
    ensures
        holds_name(pool.push(extra), name) <==> holds_name(pool, name) || extra.name@ == name,
{
    let longer = pool.push(extra);
    if holds_name(pool, name) {
        let at = choose|at: int| 0 <= at < pool.len() && #[trigger] pool[at].name@ == name;
        assert(longer[at].name@ == name);
    }
    if extra.name@ == name {
        assert(longer[pool.len() as int].name@ == name);
    }
    if holds_name(longer, name) {
        let at = choose|at: int| 0 <= at < longer.len() && #[trigger] longer[at].name@ == name;
        if at < pool.len() {
            assert(pool[at].name@ == name);
        }
    }
}

/// What `without` leaves: no candidate of that name, and every candidate of
/// another name; no more candidates and no more weight than before, fewer
/// candidates if the name was in the pool, and the very pool if it was not.
pub proof fn lemma_without(pool: Seq<Weighted>, name: Seq<char>)
    ensures
        !holds_name(without(pool, name), name),
        without(pool, name).len() <= pool.len(),
        total_weight(without(pool, name)) <= total_weight(pool),
        holds_name(pool, name) ==> without(pool, name).len() < pool.len(),
        !holds_name(pool, name) ==> without(pool, name) == pool,
        forall|other: Seq<char>|
            other != name ==> (holds_name(without(pool, name), other) <==> holds_name(pool, other)),
    decreases pool.len(),
{
    if pool.len() > 0 {
        let front = pool.drop_last();
        let last = pool.last();
        let kept = without(front, name);
        assert(pool =~= front.push(last));
        assert(kept.push(last).drop_last() =~= kept);
        lemma_without(front, name);
        lemma_names_grow(front, last, name);
        lemma_names_grow(kept, last, name);
        assert forall|other: Seq<char>| other != name implies (holds_name(without(pool, name), other)
            <==> holds_name(pool, other)) by {
            lemma_names_grow(front, last, other);
            lemma_names_grow(kept, last, other);
        }
    }
}

/// A backend that was removed from the pool is not selected again,
/// whatever is drawn.
pub proof fn lemma_removed_is_not_selected(pool: Seq<Weighted>, name: Seq<char>, draw: int)
    requires
        1 <= draw <= total_weight(without(pool, name)),
    ensures
        without(pool, name)[pick(without(pool, name), draw)].name@ != name,
{
    lemma_without(pool, name);
    lemma_pick_selects(without(pool, name), draw);
}

/// Removing a candidate of the given name by position leaves `without`
/// unchanged.
proof fn lemma_without_skips(pool: Seq<Weighted>, name: Seq<char>, at: int)
    requires
        0 <= at < pool.len(),
        pool[at].name@ == name,
    ensures
        without(pool.remove(at), name) == without(pool, name),
    decreases pool.len(),
{
    if at < pool.len() - 1 {
        lemma_without_skips(pool.drop_last(), name, at);
        assert(pool.remove(at).drop_last() =~= pool.drop_last().remove(at));
    }
}

/// The names that one call tries in turn when every attempt fails: each
/// draw selects a candidate from the pool that is left, and the backend that
/// failed leaves the pool. The call ends when no weight is left; a draw
/// outside one to the total weight ends the sequence too.
pub open spec fn attempts(pool: Seq<Weighted>, draws: Seq<int>) -> Seq<Seq<char>>
    decreases draws.len(),
{
    if draws.len() == 0 || !(1 <= draws[0] <= total_weight(pool)) {
        Seq::empty()
    } else {
        let name = pool[pick(pool, draws[0])].name@;
        seq![name] + attempts(without(pool, name), draws.drop_first())
    }
}

/// One call never tries a backend twice, tries only backends of its pool,
/// and makes at most as many attempts as the pool has candidates, whatever
/// is drawn.
pub proof fn lemma_no_backend_is_tried_twice(pool: Seq<Weighted>, draws: Seq<int>)
    ensures
        attempts(pool, draws).no_duplicates(),
        attempts(pool, draws).len() <= pool.len(),
        forall|turn: int|
            0 <= turn < attempts(pool, draws).len() ==> holds_name(
                pool,
                #[trigger] attempts(pool, draws)[turn],
            ),
    decreases draws.len(),
{
    if draws.len() > 0 && 1 <= draws[0] <= total_weight(pool) {
        let name = pool[pick(pool, draws[0])].name@;
        lemma_pick_selects(pool, draws[0]);
        lemma_without(pool, name);
        lemma_no_backend_is_tried_twice(without(pool, name), draws.drop_first());
    }
}

/// A pool of one candidate is used up by one failure: once its backend has
/// failed and left the pool, no weight is left to draw from.
pub proof fn lemma_lone_candidate_is_used_up(pool: Seq<Weighted>, draw: int)
    requires
        pool.len() == 1,
        1 <= draw <= total_weight(pool),
    ensures
        without(pool, pool[pick(pool, draw)].name@).len() == 0,
        total_weight(without(pool, pool[pick(pool, draw)].name@)) == 0,
{
    lemma_pick_selects(pool, draw);
    lemma_without(pool, pool[pick(pool, draw)].name@);
}

/// The total weight of the pool.
pub fn weigh(pool: &Vec<Weighted>) -> (total: u128)
    ensures
        total == total_weight(pool@),
{
    let mut total: u128 = 0;
    let mut at: usize = 0;
    while at < pool.len()
        invariant
            at <= pool.len(),
            total == weight_before(pool@, at as int),
            total <= at * 0xffff_ffff_ffff_ffff,
        decreases pool.len() - at,
    {
        proof {
            lemma_weight_before_next(pool@, at as int);
            assert((at + 1) * 0xffff_ffff_ffff_ffff <= 0xffff_ffff_ffff_ffff_ffff_ffff_ffff_ffff)
                by (nonlinear_arith)
                requires
                    at < 0x1_0000_0000_0000_0000,
            ;
        }
        total = total + pool[at].weight as u128;
        at += 1;
    }
    proof {
        if pool.len() > 0 {
            lemma_weight_before_next(pool@, pool.len() - 1);
        }
    }
    total
}

/// The position that `draw` selects: the candidates are walked in order,
/// each taking its weight off the draw, up to the one that uses it up.
pub fn select(pool: &Vec<Weighted>, draw: u128) -> (at: usize)
    requires
        1 <= draw <= total_weight(pool@),
    ensures
        selects(pool@, draw as int, at as int),
        at == pick(pool@, draw as int),
{
    proof {
        if pool.len() > 0 {
            lemma_weight_before_next(pool@, 0);
        }
    }
    let mut at: usize = 0;
    let mut rest: u128 = draw;
    while rest > pool[at].weight as u128
        invariant
            at < pool.len(),
            rest == draw - weight_before(pool@, at as int),
            rest >= 1,
            draw <= total_weight(pool@),
        decreases pool.len() - at,
    {
        proof {
            lemma_weight_before_next(pool@, at as int);
            lemma_weight_before_grows(pool@, at + 1, pool.len() as int);
            lemma_weight_before_next(pool@, pool.len() - 1);
        }
        rest = rest - pool[at].weight as u128;
        at += 1;
    }
    proof {
        lemma_pick_selects(pool@, draw as int);
        assert(selects(pool@, draw as int, at as int));
    }
    at
}

/// Takes the backend of the given name out of the pool.
pub fn exclude(pool: &mut Vec<Weighted>, name: &str)
    ensures
        final(pool)@ == without(old(pool)@, name@),
{
    let ghost before = pool@;
    let mut at: usize = 0;
    while at < pool.len()
        invariant
            at <= pool.len(),
            without(pool@, name@) == without(before, name@),
            forall|seen: int| 0 <= seen < at ==> pool@[seen].name@ != name@,
        decreases pool.len() - at,
    {
        if same_text(pool[at].name.as_str(), name) {
            proof {
                lemma_without_skips(pool@, name@, at as int);
            }
            pool.remove(at);
        } else {
            at += 1;
        }
    }
    proof {
        lemma_without(pool@, name@);
    }
}

/// `Rng::gen_range` of the `rand` crate on the generator that `thread_rng`
/// gives, for the range from one to `total`, both included. The number that
/// comes back lies in that range; which one it is, is left to chance. An
/// empty range would make `gen_range` panic, so `total` is at least one.
#[verifier::external_body]
pub(crate) fn draw_up_to(total: u128) -> (draw: u128)
    requires
        1 <= total,
    ensures
        1 <= draw <= total,
{
    rand::Rng::gen_range(&mut rand::thread_rng(), 1..=total)
}

} // verus!
