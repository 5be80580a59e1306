//! The state of a ring buffer as a mathematical value, and the moves of the three
//! roles on it.

use vstd::prelude::*;
use crate::model::ring_math::{ring_dist, ring_add, free_slots, ring_between, head_len, tail_len};

verus! {

/// The three roles that share a ring buffer.
#[derive(Clone, Copy, Debug, PartialEq, Eq, Structural)]
pub enum Role {
    /// Fills free slots.
    Producer,
    /// Changes filled slots in place, behind the producer.
    Worker,
    /// Reads or empties slots, behind the worker (or behind the producer where
    /// there is no worker).
    Consumer,
}

/// What a role handle keeps for itself: its position and the number of slots that
/// it knew to be available when it last looked.
pub struct IterView {
    /// Where the handle stands.
    pub index: int,
    /// How many slots the handle believes to be available.
    pub cached_avail: int,
}

/// The role that `role` runs up against: the producer is stopped by the consumer,
/// the worker by the producer, and the consumer by the worker where there is one,
/// else by the producer.
pub open spec fn ahead_of(role: Role, has_worker: bool) -> Role {
    match role {
        Role::Producer => Role::Consumer,
        Role::Worker => Role::Producer,
        Role::Consumer => if has_worker {
            Role::Worker
        } else {
            Role::Producer
        },
    }
}

/// The role that runs up against `role`, and so the one to wake when `role` has
/// moved: behind the producer comes the worker where there is one, else the
/// consumer; behind the worker the consumer; behind the consumer the producer.
pub open spec fn behind_of(role: Role, has_worker: bool) -> Role {
    match role {
        Role::Producer => if has_worker {
            Role::Worker
        } else {
            Role::Consumer
        },
        Role::Worker => Role::Consumer,
        Role::Consumer => Role::Producer,
    }
}

/// Tells which role to wake when `role` has moved.
pub fn wake_target(role: Role, has_worker: bool) -> (r: Role)
    ensures
        r == behind_of(role, has_worker),
{
    match role {
        Role::Producer => if has_worker {
            Role::Worker
        } else {
            Role::Consumer
        },
        Role::Worker => Role::Consumer,
        Role::Consumer => Role::Producer,
    }
}

/// The cached count after the handle was asked for `count` slots: it stays where it
/// settles the question, else it is the fresh count `avail`.
pub open spec fn cache_checked(cached: int, avail: int, count: int) -> int {
    if count <= cached {
        cached
    } else {
        avail
    }
}

/// The cached count after the handle moved `count` slots forward.
pub open spec fn cache_advanced(cached: int, count: int) -> int {
    if count <= cached {
        cached - count
    } else {
        0
    }
}

/// The cached count after the handle was asked for `count` slots and, where they
/// were available, took them.
pub open spec fn cache_taken(cached: int, avail: int, count: int) -> int {
    if count <= avail {
        cache_advanced(cache_checked(cached, avail, count), count)
    } else {
        cache_checked(cached, avail, count)
    }
}

/// A ring buffer as a mathematical value.
#[verifier::ext_equal]
pub struct RingView<T> {
    /// Slot by slot, `Some` for a slot that holds a value and `None` for one that
    /// was never written or whose value was moved out.
    pub slots: Seq<Option<T>>,
    /// Published position of the producer.
    pub prod: int,
    /// Published position of the worker.
    pub work: int,
    /// Published position of the consumer.
    pub cons: int,
    /// Whether the buffer was split with a worker between producer and consumer.
    pub has_worker: bool,
    /// Number of role handles that exist.
    pub alive_iters: int,
    /// Whether the producer's handle exists.
    pub prod_alive: bool,
    /// Whether the worker's handle exists.
    pub work_alive: bool,
    /// Whether the consumer's handle exists.
    pub cons_alive: bool,
}

/// Slots available to `role` when it stands at `index` and the role it runs up
/// against has published `succ`.
pub open spec fn avail_from(role: Role, index: int, succ: int, n: int) -> int {
    match role {
        Role::Producer => free_slots(index, succ, n),
        _ => ring_dist(index, succ, n),
    }
}

/// 1 for `true`, 0 for `false`.
pub open spec fn flag(b: bool) -> int {
    if b {
        1
    } else {
        0
    }
}

/// The values of a run of filled slots.
pub open spec fn values<T>(s: Seq<Option<T>>) -> Seq<T> {
    Seq::new(s.len(), |i: int| s[i]->0)
}

/// The slots of a storage after a window of `count` slots from `index` on was lent
/// out as a head and a tail, which came back as `head` and `tail`.
pub open spec fn stitched<T>(
    slots: Seq<Option<T>>,
    index: int,
    count: int,
    head: Seq<Option<T>>,
    tail: Seq<Option<T>>,
) -> Seq<Option<T>> {
    let n = slots.len() as int;
    tail + slots.subrange(tail_len(index, count, n), index) + head + slots.subrange(
        index + head_len(index, count, n),
        n,
    )
}

/// A window of `count` slots from `index` on was lent out of the buffer `before` as
/// `head` and `tail`; the two came back as `head_after` and `tail_after`, and the
/// buffer is then `after`.
pub open spec fn window_lent<T>(
    before: RingView<T>,
    after: RingView<T>,
    index: int,
    count: int,
    head: Seq<Option<T>>,
    tail: Seq<Option<T>>,
    head_after: Seq<Option<T>>,
    tail_after: Seq<Option<T>>,
) -> bool {
    &&& head.len() == head_len(index, count, before.len())
    &&& head + tail == before.window(index, count)
    &&& after == (RingView {
        slots: stitched(before.slots, index, count, head_after, tail_after),
        ..before
    })
    &&& head_after.len() == head.len() && tail_after.len() == tail.len() ==> after
        == before.with_window(index, head_after + tail_after)
}

impl<T> RingView<T> {
    /// Number of slots.
    pub open spec fn len(self) -> int {
        self.slots.len() as int
    }

    /// The state left behind once a buffer that its handles own has been freed.
    pub open spec fn torn_down() -> Self {
        RingView {
            slots: Seq::empty(),
            prod: 0,
            work: 0,
            cons: 0,
            has_worker: false,
            alive_iters: 0,
            prod_alive: false,
            work_alive: false,
            cons_alive: false,
        }
    }

    /// A buffer over `slots` that no role has touched yet.
    pub open spec fn fresh(slots: Seq<Option<T>>) -> Self {
        RingView { slots, ..Self::torn_down() }
    }

    /// All three positions are positions of the storage.
    pub open spec fn in_bounds(self) -> bool {
        &&& 0 < self.len() <= usize::MAX
        &&& 0 <= self.prod < self.len()
        &&& 0 <= self.work < self.len()
        &&& 0 <= self.cons < self.len()
    }

    /// Walking forward from the consumer one meets the worker no later than the
    /// producer.
    pub open spec fn ordered(self) -> bool {
        ring_between(self.cons, self.work, self.prod, self.len())
    }

    /// Slot `i` lies between the consumer (included) and the producer (excluded).
    pub open spec fn occupied(self, i: int) -> bool {
        &&& 0 <= i < self.len()
        &&& ring_dist(self.cons, i, self.len()) < ring_dist(self.cons, self.prod, self.len())
    }

    /// Every slot that a worker or a consumer may reach holds a value.
    pub open spec fn initialized(self) -> bool {
        forall|i: int| #[trigger] self.occupied(i) ==> self.slots[i] is Some
    }

    /// The counter of handles agrees with the three flags.
    pub open spec fn alive_consistent(self) -> bool {
        &&& self.alive_iters == flag(self.prod_alive) + flag(self.work_alive) + flag(
            self.cons_alive,
        )
        &&& self.work_alive ==> self.has_worker
    }

    /// What holds of a buffer between any two operations.
    pub open spec fn wf(self) -> bool {
        &&& self.in_bounds()
        &&& self.initialized()
        &&& self.alive_consistent()
        &&& self.has_worker ==> self.ordered()
    }

    /// Whether the handle of `role` exists.
    pub open spec fn role_alive(self, role: Role) -> bool {
        match role {
            Role::Producer => self.prod_alive,
            Role::Worker => self.work_alive,
            Role::Consumer => self.cons_alive,
        }
    }

    /// Published position of `role`.
    pub open spec fn index_of(self, role: Role) -> int {
        match role {
            Role::Producer => self.prod,
            Role::Worker => self.work,
            Role::Consumer => self.cons,
        }
    }

    /// Published position that `role` runs up against: the consumer's for the
    /// producer, the producer's for the worker, and for the consumer the worker's
    /// where there is one, else the producer's.
    pub open spec fn succ_of(self, role: Role) -> int {
        match role {
            Role::Producer => self.cons,
            Role::Worker => self.prod,
            Role::Consumer => if self.has_worker {
                self.work
            } else {
                self.prod
            },
        }
    }

    /// Position from which the territory of `role` starts. The producer and the
    /// consumer own what lies ahead of their published position; a worker may also
    /// walk back as far as the consumer.
    pub open spec fn base_of(self, role: Role) -> int {
        match role {
            Role::Producer => self.prod,
            _ => self.cons,
        }
    }

    /// Slots available to `role` when it stands at `index`.
    pub open spec fn avail_at(self, role: Role, index: int) -> int {
        avail_from(role, index, self.succ_of(role), self.len())
    }

    /// Slots available to `role` at its published position.
    pub open spec fn available(self, role: Role) -> int {
        self.avail_at(role, self.index_of(role))
    }

    /// `index` is a place where a handle of `role` may stand, attached or detached.
    pub open spec fn in_reach(self, role: Role, index: int) -> bool {
        &&& 0 <= index < self.len()
        &&& ring_dist(self.base_of(role), index, self.len()) + self.avail_at(role, index)
            == self.avail_at(role, self.base_of(role))
    }

    /// The slots `index`, `index + 1`, ... (`count` of them, wrapping) hold values.
    pub open spec fn filled(self, index: int, count: int) -> bool {
        forall|j: int|
            0 <= j < count ==> (#[trigger] self.slots[ring_add(index, j, self.len())]) is Some
    }

    /// The `count` slots from `index` on, in ring order.
    pub open spec fn window(self, index: int, count: int) -> Seq<Option<T>> {
        Seq::new(count as nat, |j: int| self.slots[ring_add(index, j, self.len())])
    }

    /// The storage with the `count` slots from `index` on replaced by `w`.
    pub open spec fn with_window(self, index: int, w: Seq<Option<T>>) -> Self {
        RingView {
            slots: Seq::new(
                self.slots.len(),
                |i: int|
                    if ring_dist(index, i, self.len()) < w.len() {
                        w[ring_dist(index, i, self.len())]
                    } else {
                        self.slots[i]
                    },
            ),
            ..self
        }
    }

    /// The buffer with slot `index` replaced by `slot`.
    pub open spec fn with_slot(self, index: int, slot: Option<T>) -> Self {
        RingView { slots: self.slots.update(index, slot), ..self }
    }

    /// The buffer with `index` published as the position of `role`.
    pub open spec fn with_index(self, role: Role, index: int) -> Self {
        match role {
            Role::Producer => RingView { prod: index, ..self },
            Role::Worker => RingView { work: index, ..self },
            Role::Consumer => RingView { cons: index, ..self },
        }
    }

    /// The handles of a split come to life: two without a worker, three with one.
    pub open spec fn with_handles(self, has_worker: bool) -> Self {
        RingView {
            has_worker,
            alive_iters: if has_worker {
                3
            } else {
                2
            },
            prod_alive: true,
            work_alive: has_worker,
            cons_alive: true,
            ..self
        }
    }

    /// The handle of `role` is dropped.
    pub open spec fn without_handle(self, role: Role) -> Self {
        match role {
            Role::Producer => RingView {
                prod_alive: false,
                alive_iters: self.alive_iters - 1,
                ..self
            },
            Role::Worker => RingView {
                work_alive: false,
                alive_iters: self.alive_iters - 1,
                ..self
            },
            Role::Consumer => RingView {
                cons_alive: false,
                alive_iters: self.alive_iters - 1,
                ..self
            },
        }
    }

    /// A window is the run of slots up to the end of the storage, followed by what
    /// wrapped around to its start.
    pub proof fn lemma_window_parts(self, index: int, count: int)
        requires
            0 <= index < self.len(),
            0 <= count <= self.len(),
        ensures
            self.window(index, count) == self.slots.subrange(
                index,
                index + head_len(index, count, self.len()),
            ) + self.slots.subrange(0, tail_len(index, count, self.len())),
    {
        let n = self.len();
        let parts = self.slots.subrange(index, index + head_len(index, count, n))
            + self.slots.subrange(0, tail_len(index, count, n));
        assert(self.window(index, count) =~= parts);
    }

    /// Where head and tail come back with the lengths they went out with, the
    /// storage is the old one with the window replaced.
    pub proof fn lemma_stitched(
        self,
        index: int,
        count: int,
        head: Seq<Option<T>>,
        tail: Seq<Option<T>>,
    )
        requires
            0 <= index < self.len(),
            0 <= count <= self.len(),
        ensures
            head.len() == head_len(index, count, self.len()) && tail.len() == tail_len(
                index,
                count,
                self.len(),
            ) ==> {
                &&& stitched(self.slots, index, count, head, tail) == self.with_window(
                    index,
                    head + tail,
                ).slots
                &&& self.with_window(index, head + tail).window(index, count) == head + tail
                &&& self.with_window(index, head + tail).len() == self.len()
            },
    {
        let n = self.len();
        let after = self.with_window(index, head + tail);
        if head.len() == head_len(index, count, n) && tail.len() == tail_len(index, count, n) {
            assert(stitched(self.slots, index, count, head, tail) =~= after.slots);
            assert(after.window(index, count) =~= head + tail) by {
                assert forall|j: int| 0 <= j < count implies after.window(index, count)[j] == (
                head + tail)[j] by {
                    assert(ring_dist(index, ring_add(index, j, n), n) == j);
                }
            }
        }
    }

    /// What a worker or a consumer finds available holds values.
    pub proof fn lemma_reach_filled(self, role: Role, index: int, count: int)
        requires
            self.wf(),
            role != Role::Worker || self.has_worker,
            self.in_reach(role, index),
            0 <= count <= self.avail_at(role, index),
        ensures
            role != Role::Producer ==> self.filled(index, count),
    {
        let n = self.len();
        if role != Role::Producer {
            assert forall|j: int| 0 <= j < count implies (#[trigger] self.slots[ring_add(
                index,
                j,
                n,
            )]) is Some by {
                assert(self.occupied(ring_add(index, j, n)));
            }
        }
    }

    /// Putting a value into a slot keeps the buffer well formed.
    pub proof fn lemma_rewrite_filled(self, index: int, slot: Option<T>)
        requires
            self.wf(),
            0 <= index < self.len(),
            slot is Some,
        ensures
            self.with_slot(index, slot).wf(),
    {
        let after = self.with_slot(index, slot);
        assert forall|i: int| #[trigger] after.occupied(i) implies after.slots[i] is Some by {
            assert(self.occupied(i));
        }
    }

    /// Filling free slots ahead of the producer keeps the buffer well formed, and
    /// the producer may then step past them.
    pub proof fn lemma_fill_free(self, w: Seq<Option<T>>)
        requires
            self.wf(),
            w.len() <= self.available(Role::Producer),
            forall|j: int| 0 <= j < w.len() ==> (#[trigger] w[j]) is Some,
        ensures
            self.with_window(self.prod, w).wf(),
            self.with_window(self.prod, w).filled(self.prod, w.len() as int),
            self.with_window(self.prod, w).window(self.prod, w.len() as int) == w,
    {
        let n = self.len();
        let after = self.with_window(self.prod, w);
        self.lemma_rewrite_window(self.prod, w);
        assert forall|j: int| 0 <= j < w.len() implies (#[trigger] after.slots[ring_add(
            self.prod,
            j,
            n,
        )]) is Some by {
            assert(ring_dist(self.prod, ring_add(self.prod, j, n), n) == j);
        }
        assert(after.window(self.prod, w.len() as int) =~= w) by {
            assert forall|j: int| 0 <= j < w.len() implies after.window(
                self.prod,
                w.len() as int,
            )[j] == w[j] by {
                assert(ring_dist(self.prod, ring_add(self.prod, j, n), n) == j);
            }
        }
    }

    /// A buffer stays well formed when a window of it is rewritten, as long as the
    /// slots between consumer and producer still hold values.
    pub proof fn lemma_rewrite_window(self, index: int, w: Seq<Option<T>>)
        requires
            self.wf(),
            0 <= index < self.len(),
            w.len() <= self.len(),
            forall|j: int|
                0 <= j < w.len() ==> (#[trigger] w[j]) is Some || !self.occupied(
                    ring_add(index, j, self.len()),
                ),
        ensures
            self.with_window(index, w).wf(),
            self.with_window(index, w).len() == self.len(),
    {
        let n = self.len();
        let after = self.with_window(index, w);
        assert forall|i: int| #[trigger] after.occupied(i) implies after.slots[i] is Some by {
            assert(self.occupied(i));
            let j = ring_dist(index, i, n);
            if j < w.len() {
                assert(ring_add(index, j, n) == i);
                assert(w[j] is Some);
            }
        }
    }

    /// Bringing the handles of a split to life keeps the buffer well formed, and each
    /// of them may stand at the published position of its role.
    pub proof fn lemma_with_handles(self, has_worker: bool)
        requires
            self.wf(),
            has_worker ==> self.ordered(),
        ensures
            self.with_handles(has_worker).wf(),
            self.with_handles(has_worker).in_reach(Role::Producer, self.prod),
            self.with_handles(has_worker).in_reach(Role::Consumer, self.cons),
            has_worker ==> self.with_handles(has_worker).in_reach(Role::Worker, self.work),
    {
        let after = self.with_handles(has_worker);
        assert forall|i: int| #[trigger] after.occupied(i) implies after.slots[i] is Some by {
            assert(self.occupied(i));
        }
    }

    /// Writing into a free slot keeps the buffer well formed.
    pub proof fn lemma_rewrite_free(self, index: int, slot: Option<T>)
        requires
            self.wf(),
            0 <= index < self.len(),
            !self.occupied(index),
        ensures
            self.with_slot(index, slot).wf(),
    {
        let after = self.with_slot(index, slot);
        assert forall|i: int| #[trigger] after.occupied(i) implies after.slots[i] is Some by {
            assert(self.occupied(i));
        }
    }

    /// Moving a value out of the slot that the consumer stands at and stepping on
    /// keeps the buffer well formed.
    pub proof fn lemma_move_out(self)
        requires
            self.wf(),
            1 <= self.available(Role::Consumer),
        ensures
            self.pop_move().wf(),
            self.pop_move().len() == self.len(),
    {
        let after = self.pop_move();
        assert forall|i: int| #[trigger] after.occupied(i) implies after.slots[i] is Some by {
            assert(self.occupied(i));
        }
    }

    /// Steps that a producer standing at `index` is ahead of its published position.
    pub open spec fn free_used(self, index: int) -> int {
        ring_dist(self.prod, index, self.len())
    }

    /// Publishing a position within reach keeps the buffer well formed, and the
    /// handle that published stands at its published position.
    pub proof fn lemma_publish(self, role: Role, index: int, count: int)
        requires
            self.wf(),
            role != Role::Worker || self.has_worker,
            self.in_reach(role, index),
            0 <= count <= self.avail_at(role, index),
            role == Role::Producer ==> self.filled(self.prod, self.free_used(index) + count),
        ensures
            self.with_index(role, ring_add(index, count, self.len())).wf(),
            self.with_index(role, ring_add(index, count, self.len())).in_reach(
                role,
                ring_add(index, count, self.len()),
            ),
            self.with_index(role, ring_add(index, count, self.len())).avail_at(
                role,
                ring_add(index, count, self.len()),
            ) == self.avail_at(role, index) - count,
    {
        let n = self.len();
        let next = ring_add(index, count, n);
        let after = self.with_index(role, next);
        assert(after.slots == self.slots);
        match role {
            Role::Producer => {
                assert forall|i: int| #[trigger] after.occupied(i) implies after.slots[i] is Some by {
                    if !self.occupied(i) {
                        let j = ring_dist(self.prod, i, n);
                        assert(0 <= j < self.free_used(index) + count);
                        assert(ring_add(self.prod, j, n) == i);
                    }
                }
            },
            Role::Worker => {
                assert forall|i: int| #[trigger] after.occupied(i) implies after.slots[i] is Some by {
                    assert(self.occupied(i));
                }
            },
            Role::Consumer => {
                assert forall|i: int| #[trigger] after.occupied(i) implies after.slots[i] is Some by {
                    assert(self.occupied(i));
                }
            },
        }
    }

    /// The producer fills the slot it stands at with `value` and steps on.
    pub open spec fn push(self, value: T) -> Self {
        self.with_slot(self.prod, Some(value)).with_index(
            Role::Producer,
            ring_add(self.prod, 1, self.len()),
        )
    }

    /// The producer fills the slots ahead of it with `items` and steps past them.
    pub open spec fn push_seq(self, items: Seq<T>) -> Self {
        self.with_window(self.prod, items.map_values(|x: T| Some(x))).with_index(
            Role::Producer,
            ring_add(self.prod, items.len() as int, self.len()),
        )
    }

    /// The role steps `count` slots forward.
    pub open spec fn advance(self, role: Role, count: int) -> Self {
        self.with_index(role, ring_add(self.index_of(role), count, self.len()))
    }

    /// The role skips everything that is available to it.
    pub open spec fn reset(self, role: Role) -> Self {
        self.with_index(role, self.succ_of(role))
    }

    /// The value that the consumer reads next.
    pub open spec fn front(self) -> T {
        self.slots[self.cons]->0
    }

    /// The consumer steps over the slot it stands at and leaves the value there.
    pub open spec fn pop(self) -> Self {
        self.advance(Role::Consumer, 1)
    }

    /// The consumer moves the value out of the slot it stands at and steps on.
    pub open spec fn pop_move(self) -> Self {
        self.with_slot(self.cons, None).advance(Role::Consumer, 1)
    }

    /// The values waiting for the consumer, oldest first.
    pub open spec fn queue(self) -> Seq<T> {
        values(self.window(self.cons, self.available(Role::Consumer)))
    }

    /// The values waiting for the worker, oldest first.
    pub open spec fn backlog(self) -> Seq<T> {
        values(self.window(self.work, self.available(Role::Worker)))
    }
}

} // verus!
