//! What holds of every buffer, stated over the model and proved.

use vstd::prelude::*;
use crate::model::ring_math::{ring_add, ring_dist, ring_sub};
use crate::model::ring_view::{ahead_of, behind_of, IterView, RingView, Role};

verus! {

/// A move of one of the roles on a buffer.
pub enum Move<T> {
    /// The producer fills the slot it stands at and steps on.
    Push(T),
    /// The worker replaces the value in the slot it stands at.
    Rewrite(T),
    /// A role steps forward by a count.
    Advance(Role, int),
    /// The consumer moves the value out of the slot it stands at and steps on.
    PopMove,
    /// A worker or a consumer skips what is available to it.
    Reset(Role),
    /// A detached handle publishes its position.
    Publish(Role, int),
}

/// The move `m` may be made on the buffer `v`.
pub open spec fn enabled<T>(v: RingView<T>, m: Move<T>) -> bool {
    match m {
        Move::Push(_) => 1 <= v.available(Role::Producer),
        Move::Rewrite(_) => v.has_worker && 1 <= v.available(Role::Worker),
        Move::Advance(role, count) => {
            &&& 0 <= count <= v.available(role)
            &&& role == Role::Worker ==> v.has_worker
            &&& role == Role::Producer ==> v.filled(v.prod, count)
        },
        Move::PopMove => 1 <= v.available(Role::Consumer),
        Move::Reset(role) => role != Role::Producer && (role == Role::Worker ==> v.has_worker),
        Move::Publish(role, index) => {
            &&& v.in_reach(role, index)
            &&& role == Role::Worker ==> v.has_worker
            &&& role == Role::Producer ==> v.filled(v.prod, v.free_used(index))
        },
    }
}

/// The buffer `v` after the move `m`.
pub open spec fn step<T>(v: RingView<T>, m: Move<T>) -> RingView<T> {
    match m {
        Move::Push(value) => v.push(value),
        Move::Rewrite(value) => v.with_slot(v.work, Some(value)),
        Move::Advance(role, count) => v.advance(role, count),
        Move::PopMove => v.pop_move(),
        Move::Reset(role) => v.reset(role),
        Move::Publish(role, index) => v.with_index(role, index),
    }
}

/// Each of the moves `ms`, made in turn from `v` on, may be made.
pub open spec fn all_enabled<T>(v: RingView<T>, ms: Seq<Move<T>>) -> bool
    decreases ms.len(),
{
    if ms.len() == 0 {
        true
    } else {
        enabled(v, ms[0]) && all_enabled(step(v, ms[0]), ms.drop_first())
    }
}

/// The buffer `v` after the moves `ms`, made in turn.
pub open spec fn run<T>(v: RingView<T>, ms: Seq<Move<T>>) -> RingView<T>
    decreases ms.len(),
{
    if ms.len() == 0 {
        v
    } else {
        run(step(v, ms[0]), ms.drop_first())
    }
}

/// A move that may be made leaves a well-formed buffer well formed: the positions
/// stay positions of the storage, the worker stays between consumer and producer,
/// and what lies between consumer and producer holds values.
pub proof fn law_step_keeps_wf<T>(v: RingView<T>, m: Move<T>)
    requires
        v.wf(),
        enabled(v, m),
    ensures
        step(v, m).wf(),
        step(v, m).len() == v.len(),
{
    let n = v.len();
    match m {
        Move::Push(value) => {
            v.lemma_rewrite_free(v.prod, Some(value));
            let u = v.with_slot(v.prod, Some(value));
            assert(u.filled(u.prod, 1)) by {
                assert(ring_add(u.prod, 0, n) == u.prod);
            }
            u.lemma_publish(Role::Producer, u.prod, 1);
        },
        Move::Rewrite(value) => {
            v.lemma_rewrite_filled(v.work, Some(value));
        },
        Move::Advance(role, count) => {
            v.lemma_publish(role, v.index_of(role), count);
        },
        Move::PopMove => {
            v.lemma_move_out();
        },
        Move::Reset(role) => {
            v.lemma_publish(role, v.index_of(role), v.available(role));
        },
        Move::Publish(role, index) => {
            v.lemma_publish(role, index, 0);
        },
    }
}

/// Whatever the roles do, as long as each move may be made, the buffer stays well
/// formed.
pub proof fn law_run_keeps_wf<T>(v: RingView<T>, ms: Seq<Move<T>>)
    requires
        v.wf(),
        all_enabled(v, ms),
    ensures
        run(v, ms).wf(),
        run(v, ms).len() == v.len(),
    decreases ms.len(),
{
    if ms.len() > 0 {
        law_step_keeps_wf(v, ms[0]);
        law_run_keeps_wf(step(v, ms[0]), ms.drop_first());
    }
}

/// In every state that the roles can bring a buffer of `N` slots to, the three
/// positions lie in `[0, N)`.
pub proof fn law_indices_in_bounds<T>(v: RingView<T>, ms: Seq<Move<T>>)
    requires
        v.wf(),
        all_enabled(v, ms),
    ensures
        0 <= run(v, ms).prod < v.len(),
        0 <= run(v, ms).work < v.len(),
        0 <= run(v, ms).cons < v.len(),
{
    law_run_keeps_wf(v, ms);
}

/// On a buffer of `N` slots with a worker, the three roles share `N - 1` slots: what
/// the producer may fill, what the worker may change and what the consumer may read
/// add up to `N - 1`. So the room of the producer and the share of the consumer
/// never exceed `N - 1` together, whether written with wrapping subtraction or
/// modulo `N`.
pub proof fn law_split_availability<T>(v: RingView<T>)
    requires
        v.wf(),
        v.has_worker,
    ensures
        v.available(Role::Producer) + v.available(Role::Worker) + v.available(Role::Consumer)
            == v.len() - 1,
        (v.cons - v.prod - 1) % v.len() + (v.work - v.cons) % v.len() <= v.len() - 1,
{
    let n = v.len();
    crate::model::ring_math::lemma_free_slots_is_mod(v.prod, v.cons, n);
    crate::model::ring_math::lemma_ring_dist_is_mod(v.cons, v.work, n);
}

/// The sum `(prod - cons - 1) mod N + (work - cons) mod N` is at most `N` exactly
/// where the buffer is empty or the producer's and the worker's leads over the
/// consumer add up to `N + 1` at most.
pub proof fn law_lead_sum<T>(v: RingView<T>)
    requires
        v.wf(),
        v.has_worker,
    ensures
        (v.prod - v.cons - 1) % v.len() + (v.work - v.cons) % v.len() <= v.len() <==> (
        v.prod == v.cons || ring_dist(v.cons, v.prod, v.len()) + ring_dist(
            v.cons,
            v.work,
            v.len(),
        ) <= v.len() + 1),
{
    let n = v.len();
    crate::model::ring_math::lemma_ring_dist_is_mod(v.cons, v.work, n);
    if v.prod == v.cons {
        vstd::arithmetic::div_mod::lemma_small_mod((n - 1) as nat, n as nat);
        vstd::arithmetic::div_mod::lemma_mod_add_multiples_vanish(-1, n);
    } else {
        let d = ring_dist(v.cons, v.prod, n);
        vstd::arithmetic::div_mod::lemma_small_mod((d - 1) as nat, n as nat);
        if v.prod < v.cons {
            vstd::arithmetic::div_mod::lemma_mod_add_multiples_vanish(v.prod - v.cons - 1, n);
        }
    }
}

/// Skipping what is available a second time changes nothing.
pub proof fn law_reset_idempotent<T>(v: RingView<T>, role: Role)
    ensures
        v.reset(role).reset(role) == v.reset(role),
{
}

/// Publishing the position of a detached handle and then attaching it leaves the
/// buffer as attaching alone does.
pub proof fn law_sync_then_attach<T>(v: RingView<T>, role: Role, it: IterView)
    ensures
        v.with_index(role, it.index).with_index(role, it.index) == v.with_index(
            role,
            it.index,
        ),
{
}

/// What is available to a role depends on its position and on the position of the
/// role ahead of it alone; when that role steps forward by `count`, it grows by
/// `count`, and it never shrinks.
pub proof fn law_available_monotone<T>(v: RingView<T>, role: Role, count: int)
    requires
        v.wf(),
        role == Role::Worker ==> v.has_worker,
        0 <= count <= v.available(ahead_of(role, v.has_worker)),
    ensures
        v.advance(ahead_of(role, v.has_worker), count).available(role) == v.available(role)
            + count,
        v.advance(ahead_of(role, v.has_worker), count).available(role) >= v.available(role),
{
}

/// The buffer `v` after the producer pushed `items` one by one.
pub open spec fn push_all<T>(v: RingView<T>, items: Seq<T>) -> RingView<T>
    decreases items.len(),
{
    if items.len() == 0 {
        v
    } else {
        push_all(v.push(items[0]), items.drop_first())
    }
}

/// The buffer `v` after the worker replaced each of the next `count` values `x` by
/// `f(x)` and stepped over it.
pub open spec fn work_all<T>(v: RingView<T>, f: spec_fn(T) -> T, count: nat) -> RingView<T>
    decreases count,
{
    if count == 0 {
        v
    } else {
        work_all(
            v.with_slot(v.work, Some(f(v.slots[v.work]->0))).advance(Role::Worker, 1),
            f,
            (count - 1) as nat,
        )
    }
}

/// The values that `count` pops in a row hand out, first to last.
pub open spec fn pops<T>(v: RingView<T>, count: nat) -> Seq<T>
    decreases count,
{
    if count == 0 {
        Seq::empty()
    } else {
        seq![v.front()] + pops(v.pop(), (count - 1) as nat)
    }
}

/// The values that `count` moving pops in a row hand out, first to last.
pub open spec fn pops_moved<T>(v: RingView<T>, count: nat) -> Seq<T>
    decreases count,
{
    if count == 0 {
        Seq::empty()
    } else {
        seq![v.front()] + pops_moved(v.pop_move(), (count - 1) as nat)
    }
}

/// A push appends to what waits for the role behind the producer: for the worker
/// where there is one, else for the consumer. Nothing else changes for them.
pub proof fn law_push_appends<T>(v: RingView<T>, value: T)
    requires
        v.wf(),
        1 <= v.available(Role::Producer),
    ensures
        v.push(value).wf(),
        v.has_worker ==> v.push(value).backlog() == v.backlog().push(value) && v.push(
            value,
        ).queue() == v.queue(),
        !v.has_worker ==> v.push(value).queue() == v.queue().push(value),
        v.push(value).available(Role::Producer) == v.available(Role::Producer) - 1,
{
    let n = v.len();
    let u = v.push(value);
    law_step_keeps_wf(v, Move::Push(value));
    if v.has_worker {
        assert(u.backlog() =~= v.backlog().push(value)) by {
            assert forall|j: int| 0 <= j < u.backlog().len() implies u.backlog()[j]
                == v.backlog().push(value)[j] by {
                let i = ring_add(v.work, j, n);
                if j < v.backlog().len() {
                    assert(i != v.prod);
                } else {
                    assert(i == v.prod);
                }
            }
        }
        assert(u.queue() =~= v.queue()) by {
            assert forall|j: int| 0 <= j < u.queue().len() implies u.queue()[j] == v.queue()[j] by {
                assert(ring_add(v.cons, j, n) != v.prod);
            }
        }
    } else {
        assert(u.queue() =~= v.queue().push(value)) by {
            assert forall|j: int| 0 <= j < u.queue().len() implies u.queue()[j]
                == v.queue().push(value)[j] by {
                let i = ring_add(v.cons, j, n);
                if j < v.queue().len() {
                    assert(i != v.prod);
                } else {
                    assert(i == v.prod);
                }
            }
        }
    }
}

/// A pop hands out the oldest of the values that wait for the consumer and leaves
/// the rest waiting, in order; so does a moving pop.
pub proof fn law_pop_takes_oldest<T>(v: RingView<T>)
    requires
        v.wf(),
        1 <= v.available(Role::Consumer),
    ensures
        v.front() == v.queue()[0],
        v.pop().wf(),
        v.pop().queue() == v.queue().drop_first(),
        v.pop_move().wf(),
        v.pop_move().queue() == v.queue().drop_first(),
        v.has_worker ==> v.pop().backlog() == v.backlog() && v.pop_move().backlog()
            == v.backlog(),
        v.pop().available(Role::Consumer) == v.available(Role::Consumer) - 1,
        v.pop_move().available(Role::Consumer) == v.available(Role::Consumer) - 1,
{
    let n = v.len();
    law_step_keeps_wf(v, Move::Advance(Role::Consumer, 1));
    law_step_keeps_wf(v, Move::PopMove);
    assert(ring_add(v.cons, 0, n) == v.cons);
    let u = v.pop();
    let w = v.pop_move();
    assert(u.queue() =~= v.queue().drop_first()) by {
        assert forall|j: int| 0 <= j < u.queue().len() implies u.queue()[j]
            == v.queue().drop_first()[j] by {
            assert(ring_add(u.cons, j, n) == ring_add(v.cons, j + 1, n));
        }
    }
    assert(w.queue() =~= v.queue().drop_first()) by {
        assert forall|j: int| 0 <= j < w.queue().len() implies w.queue()[j]
            == v.queue().drop_first()[j] by {
            assert(ring_add(w.cons, j, n) == ring_add(v.cons, j + 1, n));
            assert(ring_add(w.cons, j, n) != v.cons);
        }
    }
    if v.has_worker {
        assert(u.backlog() =~= v.backlog());
        assert(w.backlog() =~= v.backlog()) by {
            assert forall|j: int| 0 <= j < w.backlog().len() implies w.backlog()[j]
                == v.backlog()[j] by {
                assert(ring_add(v.work, j, n) != v.cons);
            }
        }
    }
}

/// When the worker replaces the value `x` it stands at by `f(x)` and steps over it,
/// `f(x)` joins the values that wait for the consumer, behind them, and `x` leaves
/// the values that wait for the worker.
pub proof fn law_work_hands_over<T>(v: RingView<T>, f: spec_fn(T) -> T)
    requires
        v.wf(),
        v.has_worker,
        1 <= v.available(Role::Worker),
    ensures
        work_all(v, f, 1).wf(),
        work_all(v, f, 1).has_worker,
        work_all(v, f, 1).queue() == v.queue().push(f(v.backlog()[0])),
        work_all(v, f, 1).backlog() == v.backlog().drop_first(),
        work_all(v, f, 1).available(Role::Producer) == v.available(Role::Producer),
        work_all(v, f, 1).available(Role::Worker) == v.available(Role::Worker) - 1,
{
    let n = v.len();
    let x = f(v.slots[v.work]->0);
    let m = v.with_slot(v.work, Some(x));
    let u = m.advance(Role::Worker, 1);
    assert(work_all(v, f, 1) == u) by {
        reveal_with_fuel(work_all, 2);
    }
    law_step_keeps_wf(v, Move::Rewrite(x));
    law_step_keeps_wf(m, Move::Advance(Role::Worker, 1));
    assert(ring_add(v.work, 0, n) == v.work);
    assert(u.queue() =~= v.queue().push(f(v.backlog()[0]))) by {
        assert forall|j: int| 0 <= j < u.queue().len() implies u.queue()[j] == v.queue().push(
            f(v.backlog()[0]),
        )[j] by {
            let i = ring_add(v.cons, j, n);
            if j < v.queue().len() {
                assert(i != v.work);
            } else {
                assert(i == v.work);
            }
        }
    }
    assert(u.backlog() =~= v.backlog().drop_first()) by {
        assert forall|j: int| 0 <= j < u.backlog().len() implies u.backlog()[j]
            == v.backlog().drop_first()[j] by {
            assert(ring_add(u.work, j, n) == ring_add(v.work, j + 1, n));
            assert(ring_add(u.work, j, n) != v.work);
        }
    }
}

/// Pushing `items` one by one appends them, in order, to what waits behind the
/// producer.
pub proof fn law_push_all_appends<T>(v: RingView<T>, items: Seq<T>)
    requires
        v.wf(),
        items.len() <= v.available(Role::Producer),
    ensures
        push_all(v, items).wf(),
        v.has_worker ==> push_all(v, items).backlog() == v.backlog() + items && push_all(
            v,
            items,
        ).queue() == v.queue(),
        !v.has_worker ==> push_all(v, items).queue() == v.queue() + items,
        push_all(v, items).has_worker == v.has_worker,
    decreases items.len(),
{
    if items.len() == 0 {
        assert(v.backlog() + items =~= v.backlog());
        assert(v.queue() + items =~= v.queue());
    } else {
        law_push_appends(v, items[0]);
        law_push_all_appends(v.push(items[0]), items.drop_first());
        assert(v.backlog().push(items[0]) + items.drop_first() =~= v.backlog() + items);
        assert(v.queue().push(items[0]) + items.drop_first() =~= v.queue() + items);
    }
}

/// Pops hand out the values that wait for the consumer, oldest first; so do moving
/// pops.
pub proof fn law_pops_read_queue<T>(v: RingView<T>, count: nat)
    requires
        v.wf(),
        count <= v.available(Role::Consumer),
    ensures
        pops(v, count) == v.queue().subrange(0, count as int),
        pops_moved(v, count) == v.queue().subrange(0, count as int),
    decreases count,
{
    if count == 0 {
        assert(pops(v, count) =~= v.queue().subrange(0, 0));
        assert(pops_moved(v, count) =~= v.queue().subrange(0, 0));
    } else {
        law_pop_takes_oldest(v);
        law_pops_read_queue(v.pop(), (count - 1) as nat);
        law_pops_read_queue(v.pop_move(), (count - 1) as nat);
        assert(seq![v.front()] + v.queue().drop_first().subrange(0, count - 1)
            =~= v.queue().subrange(0, count as int));
    }
}

/// The worker hands `f(x)` over to the consumer for each of the next `count` values
/// `x` that wait for it, in order.
pub proof fn law_work_all_hands_over<T>(v: RingView<T>, f: spec_fn(T) -> T, count: nat)
    requires
        v.wf(),
        v.has_worker,
        count <= v.available(Role::Worker),
    ensures
        work_all(v, f, count).wf(),
        work_all(v, f, count).queue() == v.queue() + v.backlog().subrange(
            0,
            count as int,
        ).map_values(f),
        work_all(v, f, count).backlog() == v.backlog().subrange(
            count as int,
            v.backlog().len() as int,
        ),
    decreases count,
{
    if count == 0 {
        assert(v.queue() + v.backlog().subrange(0, 0).map_values(f) =~= v.queue());
        assert(v.backlog().subrange(0, v.backlog().len() as int) =~= v.backlog());
    } else {
        law_work_hands_over(v, f);
        let u = work_all(v, f, 1);
        assert(work_all(v, f, count) == work_all(u, f, (count - 1) as nat)) by {
            reveal_with_fuel(work_all, 2);
        }
        law_work_all_hands_over(u, f, (count - 1) as nat);
        assert(v.queue().push(f(v.backlog()[0])) + v.backlog().drop_first().subrange(
            0,
            count - 1,
        ).map_values(f) =~= v.queue() + v.backlog().subrange(0, count as int).map_values(f));
        assert(v.backlog().drop_first().subrange(
            count - 1,
            v.backlog().drop_first().len() as int,
        ) =~= v.backlog().subrange(count as int, v.backlog().len() as int));
    }
}

/// First in, first out: on a buffer without a worker where nothing waits, what the
/// consumer pops after the producer pushed `items` is `items`, in order.
pub proof fn law_fifo<T>(v: RingView<T>, items: Seq<T>)
    requires
        v.wf(),
        !v.has_worker,
        v.available(Role::Consumer) == 0,
        items.len() <= v.available(Role::Producer),
    ensures
        push_all(v, items).available(Role::Consumer) == items.len(),
        pops(push_all(v, items), items.len()) == items,
        pops_moved(push_all(v, items), items.len()) == items,
{
    law_push_all_appends(v, items);
    let u = push_all(v, items);
    assert(v.queue() + items =~= items);
    assert(u.queue().len() == u.available(Role::Consumer));
    law_pops_read_queue(u, items.len());
    assert(items.subrange(0, items.len() as int) =~= items);
}

/// With a worker that applies `f` in place: on a buffer where nothing waits, what
/// the consumer pops after the producer pushed `items` and the worker went over
/// them is `f(x)` for each `x` of `items`, in order.
pub proof fn law_worked_fifo<T>(v: RingView<T>, f: spec_fn(T) -> T, items: Seq<T>)
    requires
        v.wf(),
        v.has_worker,
        v.available(Role::Consumer) == 0,
        v.available(Role::Worker) == 0,
        items.len() <= v.available(Role::Producer),
    ensures
        push_all(v, items).available(Role::Consumer) == 0,
        push_all(v, items).available(Role::Worker) == items.len(),
        work_all(push_all(v, items), f, items.len()).available(Role::Consumer)
            == items.len(),
        pops(work_all(push_all(v, items), f, items.len()), items.len()) == items.map_values(
            f,
        ),
{
    law_push_all_appends(v, items);
    let u = push_all(v, items);
    assert(v.backlog() + items =~= items);
    assert(u.backlog().len() == u.available(Role::Worker));
    assert(u.queue().len() == u.available(Role::Consumer));
    assert(v.queue().len() == v.available(Role::Consumer));
    law_work_all_hands_over(u, f, items.len());
    let w = work_all(u, f, items.len());
    assert(items.subrange(0, items.len() as int) =~= items);
    assert(u.queue() + items.map_values(f) =~= items.map_values(f));
    assert(w.queue().len() == w.available(Role::Consumer));
    law_pops_read_queue(w, items.len());
    assert(items.map_values(f).subrange(0, items.len() as int) =~= items.map_values(f));
}

/// Pushing one item is pushing a slice of one.
pub proof fn law_push_is_push_seq<T>(v: RingView<T>, value: T)
    requires
        v.in_bounds(),
    ensures
        v.push(value) == v.push_seq(seq![value]),
{
    let n = v.len();
    let w = seq![value].map_values(|x: T| Some(x));
    assert(v.with_slot(v.prod, Some(value)).slots =~= v.with_window(v.prod, w).slots) by {
        assert forall|i: int| 0 <= i < n implies v.slots.update(v.prod, Some(value))[i]
            == v.with_window(v.prod, w).slots[i] by {
            if ring_dist(v.prod, i, n) < 1 {
                assert(i == v.prod);
            }
        }
    }
}

/// Pushing a slice at once is pushing its elements one by one.
pub proof fn law_push_seq_is_push_all<T>(v: RingView<T>, items: Seq<T>)
    requires
        v.wf(),
        items.len() <= v.available(Role::Producer),
    ensures
        v.push_seq(items) == push_all(v, items),
    decreases items.len(),
{
    let n = v.len();
    if items.len() == 0 {
        assert(v.push_seq(items) =~= v);
    } else {
        let u = v.push(items[0]);
        law_push_appends(v, items[0]);
        law_push_seq_is_push_all(u, items.drop_first());
        let rest = items.drop_first();
        assert(u.push_seq(rest) =~= v.push_seq(items)) by {
            assert forall|i: int| 0 <= i < n implies u.push_seq(rest).slots[i] == v.push_seq(
                items,
            ).slots[i] by {
                let d = ring_dist(v.prod, i, n);
                if d == 0 {
                    assert(i == v.prod);
                } else if d < items.len() {
                    assert(ring_dist(u.prod, i, n) == d - 1);
                    assert(rest[d - 1] == items[d]);
                } else {
                    assert(ring_dist(u.prod, i, n) == d - 1);
                }
            }
        }
    }
}

/// A slot that the consumer moved a value out of is empty and belongs to the
/// producer again. Once the producer has come round to it and pushed, it holds the
/// value pushed; and in a well-formed buffer every slot that the consumer (or the
/// worker) can reach holds a value. So a slot is filled again before it is next
/// consumed.
pub proof fn law_refilled_before_consumed<T>(v: RingView<T>, later: RingView<T>, value: T)
    requires
        v.wf(),
        1 <= v.available(Role::Consumer),
        later.wf(),
        later.len() == v.len(),
        later.prod == v.cons,
        1 <= later.available(Role::Producer),
    ensures
        v.pop_move().wf(),
        v.pop_move().slots[v.cons] is None,
        !v.pop_move().occupied(v.cons),
        later.push(value).wf(),
        later.push(value).slots[v.cons] == Some(value),
        forall|i: int|
            later.push(value).occupied(i) ==> (#[trigger] later.push(value).slots[i]) is Some,
{
    law_step_keeps_wf(v, Move::PopMove);
    law_step_keeps_wf(later, Move::Push(value));
    let u = later.push(value);
    assert forall|i: int| u.occupied(i) implies (#[trigger] u.slots[i]) is Some by {
        assert(u.occupied(i));
    }
}

/// The role that is woken when a role has moved is the one role whose share of the
/// buffer depends on that move: it is the role that runs up against the one that
/// moved.
pub proof fn law_wake_reaches_dependent(role: Role, other: Role, has_worker: bool)
    requires
        role == Role::Worker ==> has_worker,
        other == Role::Worker ==> has_worker,
    ensures
        ahead_of(behind_of(role, has_worker), has_worker) == role,
        ahead_of(other, has_worker) == role <==> other == behind_of(role, has_worker),
{
}

/// Slot `i` is one of those that `role` may touch at its published position.
pub open spec fn owns<T>(v: RingView<T>, role: Role, i: int) -> bool {
    &&& 0 <= i < v.len()
    &&& (role == Role::Worker ==> v.has_worker)
    &&& ring_dist(v.index_of(role), i, v.len()) < v.available(role)
}

/// No slot belongs to two roles at a time: the windows that the handles lend out
/// to different roles never overlap. What the worker and the consumer own is what
/// lies between consumer and producer, and exactly one slot belongs to nobody.
pub proof fn law_territories_disjoint<T>(v: RingView<T>, i: int)
    requires
        v.wf(),
        0 <= i < v.len(),
    ensures
        !(owns(v, Role::Producer, i) && owns(v, Role::Worker, i)),
        !(owns(v, Role::Producer, i) && owns(v, Role::Consumer, i)),
        !(owns(v, Role::Worker, i) && owns(v, Role::Consumer, i)),
        owns(v, Role::Worker, i) || owns(v, Role::Consumer, i) <==> v.occupied(i),
        !owns(v, Role::Producer, i) && !v.occupied(i) <==> i == ring_sub(v.cons, 1, v.len()),
{
}

/// The role that makes the move `m`.
pub open spec fn role_of<T>(m: Move<T>) -> Role {
    match m {
        Move::Push(_) => Role::Producer,
        Move::Rewrite(_) => Role::Worker,
        Move::Advance(role, _) => role,
        Move::PopMove => Role::Consumer,
        Move::Reset(role) => role,
        Move::Publish(role, _) => role,
    }
}

/// The move `m` looks at nothing but the slots and the position of its own role,
/// once it may be made: it is a push, a rewrite, a step forward or a moving pop.
pub open spec fn is_local<T>(m: Move<T>) -> bool {
    m is Push || m is Rewrite || m is Advance || m is PopMove
}

/// Moves of different roles do not get in each other's way: if each of two local
/// moves may be made, each may still be made after the other, and the buffer ends
/// up the same whichever comes first. This is what lets the three roles run at the
/// same time.
pub proof fn law_roles_commute<T>(v: RingView<T>, a: Move<T>, b: Move<T>)
    requires
        v.wf(),
        is_local(a),
        is_local(b),
        role_of(a) != role_of(b),
        enabled(v, a),
        enabled(v, b),
    ensures
        enabled(step(v, a), b),
        enabled(step(v, b), a),
        step(step(v, a), b) == step(step(v, b), a),
{
    lemma_still_enabled(v, a, b);
    lemma_still_enabled(v, b, a);
    lemma_same_either_way(v, a, b);
}

/// The one slot that a local move writes, if it writes any.
spec fn written<T>(v: RingView<T>, m: Move<T>) -> int {
    match m {
        Move::Push(_) => v.prod,
        Move::Rewrite(_) => v.work,
        _ => v.cons,
    }
}

/// What a local move changes: one position at most, and the slot at which its role
/// stands at most.
proof fn lemma_footprint<T>(v: RingView<T>, m: Move<T>)
    requires
        v.wf(),
        is_local(m),
        enabled(v, m),
    ensures
        step(v, m).len() == v.len(),
        step(v, m).has_worker == v.has_worker,
        forall|r: Role| r != role_of(m) ==> #[trigger] step(v, m).index_of(r) == v.index_of(r),
        forall|i: int|
            0 <= i < v.len() && i != written(v, m) ==> #[trigger] step(v, m).slots[i]
                == v.slots[i],
        written(v, m) == v.index_of(role_of(m)) || m is Advance,
        0 <= step(v, m).index_of(role_of(m)) < v.len(),
        ring_dist(v.index_of(role_of(m)), step(v, m).index_of(role_of(m)), v.len())
            <= v.available(role_of(m)),
{
    law_step_keeps_wf(v, m);
}

/// After a local move of one role, a local move of another role may still be made.
proof fn lemma_still_enabled<T>(v: RingView<T>, a: Move<T>, b: Move<T>)
    requires
        v.wf(),
        is_local(a),
        is_local(b),
        role_of(a) != role_of(b),
        enabled(v, a),
        enabled(v, b),
    ensures
        enabled(step(v, a), b),
{
    lemma_footprint(v, a);
    lemma_filled_kept(v, a, b);
    let va = step(v, a);
    assert(va.index_of(role_of(b)) == v.index_of(role_of(b)));
    assert(va.available(role_of(b)) >= v.available(role_of(b)));
}

/// Two local moves of different roles give the same buffer in either order.
proof fn lemma_same_either_way<T>(v: RingView<T>, a: Move<T>, b: Move<T>)
    requires
        v.wf(),
        is_local(a),
        is_local(b),
        role_of(a) != role_of(b),
        enabled(v, a),
        enabled(v, b),
    ensures
        step(step(v, a), b) == step(step(v, b), a),
{
    let n = v.len();
    let va = step(v, a);
    let vb = step(v, b);
    lemma_footprint(v, a);
    lemma_footprint(v, b);
    assert(va.index_of(role_of(b)) == v.index_of(role_of(b)));
    assert(vb.index_of(role_of(a)) == v.index_of(role_of(a)));
    let ab = step(va, b);
    let ba = step(vb, a);
    assert(ab.prod == ba.prod);
    assert(ab.work == ba.work);
    assert(ab.cons == ba.cons);
    assert(ab.slots =~= ba.slots);
    assert(ab =~= ba);
}

/// A producer that may step over `count` filled slots may still do so after a local
/// move of another role.
proof fn lemma_filled_kept<T>(v: RingView<T>, a: Move<T>, b: Move<T>)
    requires
        v.wf(),
        is_local(a),
        is_local(b),
        role_of(a) != role_of(b),
        enabled(v, a),
        enabled(v, b),
    ensures
        b matches Move::Advance(Role::Producer, count) ==> step(v, a).filled(v.prod, count),
{
    let n = v.len();
    if let Move::Advance(Role::Producer, count) = b {
        let va = step(v, a);
        assert forall|j: int| 0 <= j < count implies (#[trigger] va.slots[ring_add(
            v.prod,
            j,
            n,
        )]) is Some by {
            let i = ring_add(v.prod, j, n);
            assert(v.slots[i] is Some);
            assert(ring_dist(v.prod, i, n) == j);
        }
    }
}

} // verus!
