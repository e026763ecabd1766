//! A fixed pool of particle slots: emitting takes the first free slot, and a
//! slot is freed when its particle dies. The pool never grows or shrinks.

use vstd::prelude::*;

verus! {

/// One slot of the pool: a particle body and whether it is alive.
pub struct Slot<P> {
    pub body: P,
    pub is_active: bool,
}

/// A pool of particle slots of fixed size.
pub struct ParticleSystem<P> {
    particles: Vec<Slot<P>>,
}

impl<P> View for ParticleSystem<P> {
    type V = Seq<Slot<P>>;

    closed spec fn view(&self) -> Seq<Slot<P>> {
        self.particles@
    }
}

/// Whether every slot of `slots` is in use.
pub open spec fn all_active<P>(slots: Seq<Slot<P>>) -> bool {
    forall|i: int| 0 <= i < slots.len() ==> #[trigger] slots[i].is_active
}

/// `k` is the first slot of `slots` that is free.
pub open spec fn is_first_free<P>(slots: Seq<Slot<P>>, k: int) -> bool {
    &&& 0 <= k < slots.len()
    &&& !slots[k].is_active
    &&& forall|j: int| 0 <= j < k ==> #[trigger] slots[j].is_active
}

/// The slots after a particle with body `body` is emitted into `slots`.
pub open spec fn emitted<P>(slots: Seq<Slot<P>>, body: P, after: Seq<Slot<P>>) -> bool {
    if all_active(slots) {
        after == slots
    } else {
        exists|k: int|
            is_first_free(slots, k) && after == slots.update(k, Slot { body, is_active: true })
    }
}

impl<P: Copy> ParticleSystem<P> {
    /// A pool of `max_particles` free slots, each holding `blank`.
    pub fn new(max_particles: usize, blank: P) -> (s: Self)
        ensures
            s@.len() == max_particles,
            forall|i: int| 0 <= i < max_particles ==> #[trigger] s@[i] == (Slot { body: blank, is_active: false }),
    {
        let mut particles: Vec<Slot<P>> = Vec::new();
        let mut i: usize = 0;
        while i < max_particles
            invariant
                i <= max_particles,
                particles@.len() == i,
                forall|j: int| 0 <= j < i ==> #[trigger] particles@[j] == (Slot { body: blank, is_active: false }),
            decreases max_particles - i,
        {
            particles.push(Slot { body: blank, is_active: false });
            i = i + 1;
        }
        ParticleSystem { particles }
    }

    /// The slots.
    pub fn slots(&self) -> (r: &Vec<Slot<P>>)
        ensures
            r@ == self@,
    {
        &self.particles
    }

    /// Puts a particle with body `body` into the first free slot; does nothing
    /// when every slot is in use.
    pub fn emit(&mut self, body: P)
        ensures
            emitted(old(self)@, body, final(self)@),
    {
        let n = self.particles.len();
        let mut i: usize = 0;
        while i < n
            invariant
                n == self.particles@.len(),
                self@ == old(self)@,
                i <= n,
                forall|j: int| 0 <= j < i ==> #[trigger] self.particles@[j].is_active,
            decreases n - i,
        {
            if !self.particles[i].is_active {
                self.particles.set(i, Slot { body, is_active: true });
                assert(is_first_free(old(self)@, i as int));
                return;
            }
            i = i + 1;
        }
    }

    /// Advances every live particle by one step: `step` gives a live body its
    /// next body and whether it is still alive. Free slots are left as they are.
    pub fn update<F: Fn(P) -> (P, bool)>(&mut self, step: F)
        requires
            forall|p: P| #[trigger] step.requires((p,)),
        ensures
            final(self)@.len() == old(self)@.len(),
            forall|i: int|
                0 <= i < old(self)@.len() && !old(self)@[i].is_active ==> #[trigger] final(self)@[i]
                    == old(self)@[i],
            forall|i: int|
                0 <= i < old(self)@.len() && old(self)@[i].is_active ==> step.ensures(
                    (old(self)@[i].body,),
                    (#[trigger] final(self)@[i].body, final(self)@[i].is_active),
                ),
    {
        let n = self.particles.len();
        let mut i: usize = 0;
        while i < n
            invariant
                n == self.particles@.len(),
                n == old(self)@.len(),
                i <= n,
                forall|p: P| #[trigger] step.requires((p,)),
                forall|j: int| i <= j < n ==> #[trigger] self.particles@[j] == old(self)@[j],
                forall|j: int|
                    0 <= j < i && !old(self)@[j].is_active ==> #[trigger] self.particles@[j]
                        == old(self)@[j],
                forall|j: int|
                    0 <= j < i && old(self)@[j].is_active ==> step.ensures(
                        (old(self)@[j].body,),
                        (#[trigger] self.particles@[j].body, self.particles@[j].is_active),
                    ),
            decreases n - i,
        {
            if self.particles[i].is_active {
                let (body, alive) = step(self.particles[i].body);
                self.particles.set(i, Slot { body, is_active: alive });
            }
            i = i + 1;
        }
    }
}

/// The pool keeps its size: emitting never adds or removes a slot, emitting
/// into a pool with a free slot makes exactly that first free slot live with
/// the new body and leaves every other slot as it was, and emitting into a
/// full pool changes nothing.
pub proof fn lemma_emit_takes_first_free<P>(slots: Seq<Slot<P>>, body: P, after: Seq<Slot<P>>)
    requires
        emitted(slots, body, after),
    ensures
        after.len() == slots.len(),
        all_active(slots) ==> after == slots,
        !all_active(slots) ==> exists|k: int|
            #![trigger slots[k]]
            is_first_free(slots, k) && after[k] == (Slot { body, is_active: true }) && forall|j: int|
                0 <= j < slots.len() && j != k ==> #[trigger] after[j] == slots[j],
{
    if !all_active(slots) {
        let k = choose|k: int|
            is_first_free(slots, k) && after == slots.update(k, Slot { body, is_active: true });
        assert(slots[k] == slots[k]);
    }
}

/// The number of live slots.
pub open spec fn live_count<P>(slots: Seq<Slot<P>>) -> nat
    decreases slots.len(),
{
    if slots.len() == 0 {
        0
    } else {
        live_count(slots.drop_last()) + if slots.last().is_active {
            1nat
        } else {
            0nat
        }
    }
}

proof fn lemma_live_count_update<P>(slots: Seq<Slot<P>>, k: int, slot: Slot<P>)
    requires
        0 <= k < slots.len(),
    ensures
        live_count(slots.update(k, slot)) + (if slots[k].is_active {
            1int
        } else {
            0int
        }) == live_count(slots) + (if slot.is_active {
            1int
        } else {
            0int
        }),
    decreases slots.len(),
{
    let after = slots.update(k, slot);
    if k == slots.len() - 1 {
        assert(after.drop_last() =~= slots.drop_last());
    } else {
        assert(after.drop_last() =~= slots.drop_last().update(k, slot));
        lemma_live_count_update(slots.drop_last(), k, slot);
    }
}

proof fn lemma_live_count_le<P>(before: Seq<Slot<P>>, after: Seq<Slot<P>>)
    requires
        before.len() == after.len(),
        forall|i: int| 0 <= i < after.len() && #[trigger] after[i].is_active ==> before[i].is_active,
    ensures
        live_count(after) <= live_count(before),
    decreases before.len(),
{
    if before.len() > 0 {
        lemma_live_count_le(before.drop_last(), after.drop_last());
    }
}

/// Emitting into a pool with a free slot brings exactly one more particle to
/// life; emitting into a full pool leaves the count as it was.
pub proof fn lemma_emit_count<P>(slots: Seq<Slot<P>>, body: P, after: Seq<Slot<P>>)
    requires
        emitted(slots, body, after),
    ensures
        live_count(after) == if all_active(slots) {
            live_count(slots)
        } else {
            live_count(slots) + 1
        },
{
    if !all_active(slots) {
        let k = choose|k: int|
            is_first_free(slots, k) && after == slots.update(k, Slot { body, is_active: true });
        lemma_live_count_update(slots, k, Slot { body, is_active: true });
    }
}

/// A step never brings a free slot to life: every slot live after it was
/// live before, so the number of live particles never grows.
pub proof fn lemma_update_never_revives<P>(before: Seq<Slot<P>>, after: Seq<Slot<P>>)
    requires
        after.len() == before.len(),
        forall|i: int| 0 <= i < before.len() && !before[i].is_active ==> #[trigger] after[i] == before[i],
    ensures
        forall|i: int| 0 <= i < after.len() && #[trigger] after[i].is_active ==> before[i].is_active,
        live_count(after) <= live_count(before),
{
    assert forall|i: int| 0 <= i < after.len() && #[trigger] after[i].is_active implies before[i].is_active by {
        if !before[i].is_active {
            assert(after[i] == before[i]);
        }
    }
    lemma_live_count_le(before, after);
}

} // verus!
