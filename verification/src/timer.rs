//! Countdown/stopwatch timers. Every live timer sits in a registry keyed by
//! a monotonically increasing id that is never reused; a `Timer` handle owns
//! exactly one entry and removes it on disposal. The registry is advanced
//! once per application frame.
use vstd::prelude::*;

verus! {

pub type TimerId = u64;

/// The mathematical state of one timer instance.
pub struct TimerModel {
    /// Elapsed milliseconds in the current cycle.
    pub elapsed: u64,
    /// Expiration threshold in milliseconds; 0 means endless.
    pub expiration: u64,
    /// Whether the instance never expires.
    pub endless: bool,
    /// The registry key the instance sits under.
    pub id: TimerId,
}

/// An instance is active while endless or still short of its expiration.
pub open spec fn active_model(m: TimerModel) -> bool {
    m.endless || m.elapsed < m.expiration
}

/// Addition on u64 that stops at the largest representable value.
pub open spec fn sat_add_u64(a: u64, b: u64) -> u64 {
    if a + b <= u64::MAX {
        (a + b) as u64
    } else {
        u64::MAX
    }
}

/// The instance after one advance by `delta` milliseconds: an endless
/// instance accumulates freely, a finite one is pinned at its expiration and
/// never overshoots.
pub open spec fn updated_model(m: TimerModel, delta: u64) -> TimerModel {
    if m.endless {
        TimerModel { elapsed: sat_add_u64(m.elapsed, delta), ..m }
    } else if m.elapsed + delta < m.expiration {
        TimerModel { elapsed: (m.elapsed + delta) as u64, ..m }
    } else {
        TimerModel { elapsed: m.expiration, ..m }
    }
}

/// The instance after a whole sequence of advances.
pub open spec fn advanced_model(m: TimerModel, deltas: Seq<u64>) -> TimerModel
    decreases deltas.len(),
{
    if deltas.len() == 0 {
        m
    } else {
        advanced_model(updated_model(m, deltas[0]), deltas.drop_first())
    }
}

/// Law: an endless instance stays endless and active — it never reports
/// expired — regardless of how much time is ever advanced.
pub proof fn lemma_endless_never_expires(m: TimerModel, deltas: Seq<u64>)
    requires
        m.endless,
    ensures
        advanced_model(m, deltas).endless,
        active_model(advanced_model(m, deltas)),
    decreases deltas.len(),
{
    if deltas.len() > 0 {
        lemma_endless_never_expires(updated_model(m, deltas[0]), deltas.drop_first());
    }
}

/// Law: a finite instance's elapsed time never overshoots its expiration
/// once it advances, whatever state it starts from.
pub proof fn lemma_finite_never_overshoots(m: TimerModel, delta: u64)
    requires
        !m.endless,
    ensures
        updated_model(m, delta).elapsed <= m.expiration,
{
}

/// One countdown/stopwatch instance.
#[derive(Clone, Copy, Debug)]
pub struct TimerInstance {
    current_time: u64,
    expiration_time: u64,
    endless: bool,
    pub id: TimerId,
}

impl View for TimerInstance {
    type V = TimerModel;

    closed spec fn view(&self) -> TimerModel {
        TimerModel {
            elapsed: self.current_time,
            expiration: self.expiration_time,
            endless: self.endless,
            id: self.id,
        }
    }
}

impl TimerInstance {
    /// A fresh instance: endless iff the expiration is 0; starting inactive
    /// means starting already at the expiration.
    pub fn new(expiration_time: u64, start_active: bool, id: TimerId) -> (r: TimerInstance)
        ensures
            r@ == (TimerModel {
                elapsed: if start_active {
                    0u64
                } else {
                    expiration_time
                },
                expiration: expiration_time,
                endless: expiration_time == 0,
                id,
            }),
    {
        TimerInstance {
            current_time: if start_active {
                0
            } else {
                expiration_time
            },
            expiration_time,
            endless: expiration_time == 0,
            id,
        }
    }

    /// Start a new cycle: the elapsed time returns to 0.
    pub fn reset(&mut self)
        ensures
            final(self)@ == (TimerModel { elapsed: 0, ..old(self)@ }),
    {
        self.current_time = 0;
    }

    /// Replace the expiration and re-apply the starting rule.
    pub fn set_time(&mut self, expiration_time: u64, start_active: bool)
        ensures
            final(self)@ == (TimerModel {
                elapsed: if start_active {
                    0u64
                } else {
                    expiration_time
                },
                expiration: expiration_time,
                endless: expiration_time == 0,
                id: old(self)@.id,
            }),
    {
        self.current_time = if start_active {
            0
        } else {
            expiration_time
        };
        self.expiration_time = expiration_time;
        self.endless = expiration_time == 0;
    }

    /// Whether the instance is still running.
    pub fn active(&self) -> (r: bool)
        ensures
            r == active_model(self@),
    {
        if !self.endless {
            return self.current_time < self.expiration_time;
        }
        true
    }

    /// Whether the instance has expired.
    pub fn expired(&self) -> (r: bool)
        ensures
            r == !active_model(self@),
    {
        !self.active()
    }

    /// Elapsed milliseconds in the current cycle.
    pub fn elapsed(&self) -> (r: u64)
        ensures
            r == self@.elapsed,
    {
        self.current_time
    }

    pub fn is_endless(&self) -> (r: bool)
        ensures
            r == self@.endless,
    {
        self.endless
    }

    pub fn set_endless(&mut self, endless: bool)
        ensures
            final(self)@ == (TimerModel { endless, ..old(self)@ }),
    {
        self.endless = endless;
    }

    /// Advance by `elapsed_ms` milliseconds.
    pub fn update(&mut self, elapsed_ms: u64)
        ensures
            final(self)@ == updated_model(old(self)@, elapsed_ms),
    {
        if self.endless {
            if elapsed_ms <= u64::MAX - self.current_time {
                self.current_time = self.current_time + elapsed_ms;
            } else {
                self.current_time = u64::MAX;
            }
        } else {
            if self.current_time < self.expiration_time && elapsed_ms < self.expiration_time
                - self.current_time {
                self.current_time = self.current_time + elapsed_ms;
            } else {
                self.current_time = self.expiration_time;
            }
        }
    }
}

/// The store of all live timer instances.
pub struct TimerRegistry {
    next_id: TimerId,
    entries: Vec<TimerInstance>,
}

impl TimerRegistry {
    /// The models of the live instances, in creation order.
    pub closed spec fn models(self) -> Seq<TimerModel> {
        Seq::new(self.entries@.len(), |i: int| self.entries@[i]@)
    }

    /// The id the next created timer will get.
    pub closed spec fn next_id_spec(self) -> TimerId {
        self.next_id
    }

    /// Ids are strictly increasing in creation order — so unique and never
    /// reused — and all lie below the next id to allocate; every live
    /// instance is endless exactly when its expiration is 0, so a reset
    /// entry is always active again.
    pub open spec fn wf(self) -> bool {
        &&& forall|i: int, j: int|
            0 <= i < j < self.models().len() ==> self.models()[i].id < self.models()[j].id
        &&& forall|i: int| 0 <= i < self.models().len() ==> #[trigger] self.models()[i].id
            < self.next_id_spec()
        &&& forall|i: int|
            0 <= i < self.models().len() ==> ((#[trigger] self.models()[i]).endless <==> self.models()[i].expiration == 0)
        &&& self.next_id_spec() >= 1
    }

    /// Whether some live instance sits under the id.
    pub open spec fn has_id(self, id: TimerId) -> bool {
        exists|i: int| 0 <= i < self.models().len() && #[trigger] self.models()[i].id == id
    }

    /// The position of the live instance under the id.
    pub closed spec fn index_of(self, id: TimerId) -> int {
        choose|i: int| 0 <= i < self.models().len() && #[trigger] self.models()[i].id == id
    }

    /// The model of the live instance under the id.
    pub open spec fn model_of(self, id: TimerId) -> TimerModel {
        self.models()[self.index_of(id)]
    }

    /// An empty registry.
    pub fn new() -> (r: TimerRegistry)
        ensures
            r.wf(),
            r.models() == Seq::<TimerModel>::empty(),
            r.next_id_spec() == 1u64,
    {
        let r = TimerRegistry { next_id: 1, entries: Vec::new() };
        proof {
            assert(r.models() =~= Seq::<TimerModel>::empty());
        }
        r
    }

    /// How many instances are live.
    pub fn len(&self) -> (r: usize)
        ensures
            r == self.models().len(),
    {
        self.entries.len()
    }

    /// The position of the entry under `id`, if it is live.
    fn find_index(&self, id: TimerId) -> (r: Option<usize>)
        ensures
            match r {
                Some(i) => i < self.models().len() && self.models()[i as int].id == id,
                None => !self.has_id(id),
            },
    {
        let mut i: usize = 0;
        while i < self.entries.len()
            invariant
                i <= self.entries@.len(),
                forall|j: int| 0 <= j < i ==> #[trigger] self.models()[j].id != id,
            decreases self.entries@.len() - i,
        {
            if self.entries[i].id == id {
                return Some(i);
            }
            i = i + 1;
        }
        None
    }

    /// Advance every live instance by `elapsed_ms` milliseconds; expired
    /// finite instances stay pinned at their expiration. Called once per
    /// application frame, after timestep clamping.
    pub fn update_all(&mut self, elapsed_ms: u64)
        requires
            old(self).wf(),
        ensures
            final(self).wf(),
            final(self).next_id_spec() == old(self).next_id_spec(),
            final(self).models().len() == old(self).models().len(),
            forall|i: int|
                0 <= i < old(self).models().len() ==> final(self).models()[i] == updated_model(
                    old(self).models()[i],
                    elapsed_ms,
                ),
            forall|id: TimerId| final(self).has_id(id) == old(self).has_id(id),
            forall|id: TimerId|
                old(self).has_id(id) ==> final(self).model_of(id) == updated_model(
                    old(self).model_of(id),
                    elapsed_ms,
                ),
    {
        let n = self.entries.len();
        let mut i: usize = 0;
        while i < n
            invariant
                i <= n,
                n == self.entries@.len(),
                self.entries@.len() == old(self).entries@.len(),
                self.next_id == old(self).next_id,
                forall|j: int|
                    0 <= j < i ==> self.models()[j] == updated_model(
                        old(self).models()[j],
                        elapsed_ms,
                    ),
                forall|j: int| i <= j < n ==> self.models()[j] == old(self).models()[j],
            decreases n - i,
        {
            let ghost prev = self.models();
            let mut e = self.entries[i];
            e.update(elapsed_ms);
            self.entries[i] = e;
            proof {
                assert(self.models()[i as int] == e@);
                assert forall|j: int|
                    0 <= j < self.entries@.len() && j != i implies self.models()[j] == prev[j] by {}
                assert forall|j: int|
                    0 <= j < i + 1 implies self.models()[j] == updated_model(
                    old(self).models()[j],
                    elapsed_ms,
                ) by {
                    if j < i {
                        assert(prev[j] == updated_model(old(self).models()[j], elapsed_ms));
                        assert(self.models()[j] == prev[j]);
                    } else {
                        assert(prev[j] == old(self).models()[j]);
                        assert(self.models()[j] == e@);
                    }
                }
            }
            i = i + 1;
        }
        proof {
            assert forall|i2: int, j2: int|
                0 <= i2 < j2 < self.models().len() implies self.models()[i2].id
                < self.models()[j2].id by {
                assert(self.models()[i2].id == old(self).models()[i2].id);
                assert(self.models()[j2].id == old(self).models()[j2].id);
            }
            assert forall|i2: int|
                0 <= i2 < self.models().len() implies #[trigger] self.models()[i2].id
                < self.next_id_spec() by {
                assert(self.models()[i2].id == old(self).models()[i2].id);
            }
            assert forall|i2: int|
                0 <= i2 < self.models().len() implies ((#[trigger] self.models()[i2]).endless
                <==> self.models()[i2].expiration == 0) by {
                assert(self.models()[i2] == updated_model(old(self).models()[i2], elapsed_ms));
            }
            assert(self.wf());
            assert forall|id: TimerId| self.has_id(id) == old(self).has_id(id) by {
                if old(self).has_id(id) {
                    let j = old(self).index_of(id);
                    old(self).lemma_unique_index(j);
                    assert(self.models()[j].id == id);
                }
                if self.has_id(id) {
                    let j = self.index_of(id);
                    self.lemma_unique_index(j);
                    assert(old(self).models()[j].id == id);
                }
            }
            assert forall|id: TimerId|
                old(self).has_id(id) implies self.model_of(id) == updated_model(
                old(self).model_of(id),
                elapsed_ms,
            ) by {
                let j = old(self).index_of(id);
                old(self).lemma_unique_index(j);
                self.lemma_unique_index(j);
            }
        }
    }

    /// The unique position of a live id: strict ordering makes ids unique.
    proof fn lemma_unique_index(self, i: int)
        requires
            self.wf(),
            0 <= i < self.models().len(),
        ensures
            self.has_id(self.models()[i].id),
            self.index_of(self.models()[i].id) == i,
            self.model_of(self.models()[i].id) == self.models()[i],
    {
        let id = self.models()[i].id;
        assert(self.has_id(id));
        let j = self.index_of(id);
        if i < j {
            assert(self.models()[i].id < self.models()[j].id);
        } else if j < i {
            assert(self.models()[j].id < self.models()[i].id);
        }
    }
}

/// A handle on one registry entry: calculates the time elapsed since its
/// initialization or tells whether a period of time has passed.
#[derive(Clone, Debug)]
pub struct Timer {
    id: TimerId,
}

impl View for Timer {
    type V = TimerId;

    closed spec fn view(&self) -> TimerId {
        self.id
    }
}

impl Timer {
    /// The registry id this handle owns.
    pub fn id(&self) -> (r: TimerId)
        ensures
            r == self@,
    {
        self.id
    }

    /// Create a timer under a fresh id, never used before. An
    /// `expiration_time` of 0 starts an endless timer; `start_active` says
    /// whether a finite timer starts running or starts already expired.
    pub fn new(expiration_time: u64, start_active: bool, registry: &mut TimerRegistry) -> (r:
        Timer)
        requires
            old(registry).wf(),
            old(registry).next_id_spec() < u64::MAX,
        ensures
            final(registry).wf(),
            r@ == old(registry).next_id_spec(),
            !old(registry).has_id(r@),
            final(registry).has_id(r@),
            final(registry).next_id_spec() == old(registry).next_id_spec() + 1,
            final(registry).models() == old(registry).models().push(
                (TimerModel {
                    elapsed: if start_active {
                        0u64
                    } else {
                        expiration_time
                    },
                    expiration: expiration_time,
                    endless: expiration_time == 0,
                    id: old(registry).next_id_spec(),
                }),
            ),
            final(registry).model_of(r@) == (TimerModel {
                elapsed: if start_active {
                    0u64
                } else {
                    expiration_time
                },
                expiration: expiration_time,
                endless: expiration_time == 0,
                id: r@,
            }),
    {
        let id = registry.next_id;
        registry.next_id = registry.next_id + 1;
        let instance = TimerInstance::new(expiration_time, start_active, id);
        registry.entries.push(instance);
        proof {
            let n = old(registry).models().len() as int;
            assert(registry.models() =~= old(registry).models().push(instance@));
            assert forall|i: int, j: int|
                0 <= i < j < registry.models().len() implies registry.models()[i].id
                < registry.models()[j].id by {
                if j < n {
                    assert(registry.models()[i] == old(registry).models()[i]);
                    assert(registry.models()[j] == old(registry).models()[j]);
                } else {
                    assert(registry.models()[i] == old(registry).models()[i]);
                    assert(old(registry).models()[i].id < id);
                }
            }
            assert forall|i: int|
                0 <= i < registry.models().len() implies ((#[trigger] registry.models()[
                i]).endless <==> registry.models()[i].expiration == 0) by {
                if i < n {
                    assert(registry.models()[i] == old(registry).models()[i]);
                }
            }
            registry.lemma_unique_index(n);
        }
        Timer { id }
    }

    /// Reset the elapsed time of the timer to 0: the timer is always active
    /// again, whether or not it had started or expired before.
    pub fn reset(&self, registry: &mut TimerRegistry)
        requires
            old(registry).wf(),
            old(registry).has_id(self@),
        ensures
            final(registry).wf(),
            final(registry).next_id_spec() == old(registry).next_id_spec(),
            final(registry).models().len() == old(registry).models().len(),
            final(registry).has_id(self@),
            final(registry).model_of(self@) == (TimerModel {
                elapsed: 0,
                ..old(registry).model_of(self@)
            }),
            active_model(final(registry).model_of(self@)),
            forall|id: TimerId| final(registry).has_id(id) == old(registry).has_id(id),
            forall|id: TimerId|
                id != self@ && old(registry).has_id(id) ==> final(registry).model_of(id) == old(
                    registry,
                ).model_of(id),
    {
        let i = match registry.find_index(self.id) {
            Some(i) => i,
            None => vstd::pervasive::unreached(),
        };
        let mut e = registry.entries[i];
        e.reset();
        registry.entries[i] = e;
        proof {
            Self::lemma_entry_update(*old(registry), *registry, i as int);
        }
    }

    /// Set a new expiration time for the timer and whether it starts
    /// running.
    pub fn set_time(&self, expiration_time: u64, start_active: bool, registry: &mut TimerRegistry)
        requires
            old(registry).wf(),
            old(registry).has_id(self@),
        ensures
            final(registry).wf(),
            final(registry).next_id_spec() == old(registry).next_id_spec(),
            final(registry).models().len() == old(registry).models().len(),
            final(registry).has_id(self@),
            final(registry).model_of(self@) == (TimerModel {
                elapsed: if start_active {
                    0u64
                } else {
                    expiration_time
                },
                expiration: expiration_time,
                endless: expiration_time == 0,
                id: self@,
            }),
            forall|id: TimerId| final(registry).has_id(id) == old(registry).has_id(id),
            forall|id: TimerId|
                id != self@ && old(registry).has_id(id) ==> final(registry).model_of(id) == old(
                    registry,
                ).model_of(id),
    {
        let i = match registry.find_index(self.id) {
            Some(i) => i,
            None => vstd::pervasive::unreached(),
        };
        let mut e = registry.entries[i];
        e.set_time(expiration_time, start_active);
        registry.entries[i] = e;
        proof {
            Self::lemma_entry_update(*old(registry), *registry, i as int);
        }
    }

    /// Whether the timer is still short of its expiration (always true for
    /// an endless timer).
    pub fn active(&self, registry: &TimerRegistry) -> (r: bool)
        requires
            registry.wf(),
            registry.has_id(self@),
        ensures
            r == active_model(registry.model_of(self@)),
    {
        let i = match registry.find_index(self.id) {
            Some(i) => i,
            None => vstd::pervasive::unreached(),
        };
        proof {
            registry.lemma_unique_index(i as int);
        }
        registry.entries[i].active()
    }

    /// Whether the timer has expired.
    pub fn expired(&self, registry: &TimerRegistry) -> (r: bool)
        requires
            registry.wf(),
            registry.has_id(self@),
        ensures
            r == !active_model(registry.model_of(self@)),
    {
        !self.active(registry)
    }

    /// The time elapsed, in milliseconds, since the start of the current
    /// timer cycle.
    pub fn elapsed(&self, registry: &TimerRegistry) -> (r: u64)
        requires
            registry.wf(),
            registry.has_id(self@),
        ensures
            r == registry.model_of(self@).elapsed,
    {
        let i = match registry.find_index(self.id) {
            Some(i) => i,
            None => vstd::pervasive::unreached(),
        };
        proof {
            registry.lemma_unique_index(i as int);
        }
        registry.entries[i].elapsed()
    }

    /// Remove the timer's entry from the registry; the handle is consumed,
    /// so the id can never be looked up again.
    pub fn dispose(self, registry: &mut TimerRegistry)
        requires
            old(registry).wf(),
        ensures
            final(registry).wf(),
            final(registry).next_id_spec() == old(registry).next_id_spec(),
            !final(registry).has_id(self@),
            forall|id: TimerId| id != self@ ==> final(registry).has_id(id) == old(registry).has_id(id),
            forall|id: TimerId|
                id != self@ && old(registry).has_id(id) ==> final(registry).model_of(id) == old(
                    registry,
                ).model_of(id),
    {
        let found = registry.find_index(self.id);
        match found {
            Some(i) => {
                registry.entries.remove(i);
                proof {
                    let i = i as int;
                    let pre = old(registry).models();
                    let post = registry.models();
                    assert(post =~= pre.remove(i));
                    assert forall|j: int| 0 <= j < post.len() implies post[j] == (if j < i {
                        pre[j]
                    } else {
                        pre[j + 1]
                    }) by {
                        if j < i {
                            assert(pre.subrange(0, i)[j] == pre[j]);
                        } else {
                            assert(pre.subrange(i + 1, pre.len() as int)[j - i] == pre[j + 1]);
                        }
                    }
                    assert forall|i2: int, j2: int|
                        0 <= i2 < j2 < post.len() implies post[i2].id < post[j2].id by {}
                    assert forall|i2: int| 0 <= i2 < post.len() implies #[trigger] post[i2].id
                        < registry.next_id_spec() by {}
                    assert forall|i2: int|
                        0 <= i2 < post.len() implies ((#[trigger] post[i2]).endless <==> post[
                        i2].expiration == 0) by {}
                    assert(registry.wf());
                    assert forall|id: TimerId| id != self@ implies registry.has_id(id) == old(
                        registry,
                    ).has_id(id) by {
                        if old(registry).has_id(id) {
                            let j = old(registry).index_of(id);
                            old(registry).lemma_unique_index(j);
                            if j < i {
                                assert(post[j].id == id);
                            } else if j > i {
                                assert(post[j - 1].id == id);
                            }
                        }
                        if registry.has_id(id) {
                            let j = registry.index_of(id);
                            registry.lemma_unique_index(j);
                            if j < i {
                                assert(pre[j].id == id);
                            } else {
                                assert(pre[j + 1].id == id);
                            }
                        }
                    }
                    assert(!registry.has_id(self@)) by {
                        if registry.has_id(self@) {
                            let j = registry.index_of(self@);
                            registry.lemma_unique_index(j);
                            old(registry).lemma_unique_index(i);
                            if j < i {
                                old(registry).lemma_unique_index(j);
                            } else {
                                old(registry).lemma_unique_index(j + 1);
                            }
                        }
                    }
                    assert forall|id: TimerId|
                        id != self@ && old(registry).has_id(id) implies registry.model_of(id)
                        == old(registry).model_of(id) by {
                        let j = old(registry).index_of(id);
                        old(registry).lemma_unique_index(j);
                        if j < i {
                            registry.lemma_unique_index(j);
                        } else if j > i {
                            registry.lemma_unique_index(j - 1);
                        }
                    }
                }
            },
            None => {
            },
        }
    }

    /// After one in-place entry rewrite that keeps the id, the registry is
    /// still well formed and every other entry keeps its model.
    proof fn lemma_entry_update(pre: TimerRegistry, post: TimerRegistry, i: int)
        requires
            pre.wf(),
            0 <= i < pre.models().len(),
            post.models().len() == pre.models().len(),
            post.next_id_spec() == pre.next_id_spec(),
            post.models()[i].id == pre.models()[i].id,
            post.models()[i].endless <==> post.models()[i].expiration == 0,
            forall|j: int| 0 <= j < pre.models().len() && j != i ==> post.models()[j] == pre.models()[j],
        ensures
            post.wf(),
            forall|id: TimerId| post.has_id(id) == pre.has_id(id),
            post.model_of(post.models()[i].id) == post.models()[i],
            forall|id: TimerId|
                id != pre.models()[i].id && pre.has_id(id) ==> post.model_of(id) == pre.model_of(
                    id,
                ),
    {
        assert forall|i2: int, j2: int|
            0 <= i2 < j2 < post.models().len() implies post.models()[i2].id
            < post.models()[j2].id by {
            assert(post.models()[i2].id == pre.models()[i2].id);
            assert(post.models()[j2].id == pre.models()[j2].id);
        }
        assert forall|i2: int|
            0 <= i2 < post.models().len() implies #[trigger] post.models()[i2].id
            < post.next_id_spec() by {
            assert(post.models()[i2].id == pre.models()[i2].id);
        }
        assert forall|i2: int|
            0 <= i2 < post.models().len() implies ((#[trigger] post.models()[i2]).endless
            <==> post.models()[i2].expiration == 0) by {
            if i2 != i {
                assert(post.models()[i2] == pre.models()[i2]);
            }
        }
        assert forall|id: TimerId| post.has_id(id) == pre.has_id(id) by {
            if pre.has_id(id) {
                let j = pre.index_of(id);
                pre.lemma_unique_index(j);
                assert(post.models()[j].id == id);
            }
            if post.has_id(id) {
                let j = post.index_of(id);
                post.lemma_unique_index(j);
                assert(pre.models()[j].id == id);
            }
        }
        post.lemma_unique_index(i);
        assert forall|id: TimerId|
            id != pre.models()[i].id && pre.has_id(id) implies post.model_of(id) == pre.model_of(
            id,
        ) by {
            let j = pre.index_of(id);
            pre.lemma_unique_index(j);
            post.lemma_unique_index(j);
        }
    }
}

} // verus!
