//! The trail a bullet leaves behind: its most recent positions, newest first,
//! cut back whenever it reaches its length limit.

use vstd::prelude::*;
use std::collections::VecDeque;

verus! {

/// The points a trail holds after `point` is recorded on a trail that held
/// `points`: the new point goes in front, and the oldest point is dropped when
/// that makes the trail `max_trail_length` points or longer.
pub open spec fn recorded<T>(points: Seq<T>, point: T, max_trail_length: nat) -> Seq<T> {
    let pushed = seq![point] + points;
    if pushed.len() >= max_trail_length {
        pushed.drop_last()
    } else {
        pushed
    }
}

/// Recent positions of a moving object, newest first.
pub struct Trail<T> {
    history: VecDeque<T>,
    max_trail_length: usize,
}

impl<T> View for Trail<T> {
    type V = Seq<T>;

    closed spec fn view(&self) -> Seq<T> {
        self.history@
    }
}

impl<T> Trail<T> {
    pub closed spec fn limit(self) -> nat {
        self.max_trail_length as nat
    }

    /// An empty trail with the given length limit.
    pub fn new(max_trail_length: usize) -> (t: Self)
        ensures
            t@ == Seq::<T>::empty(),
            t.limit() == max_trail_length,
    {
        Trail { history: VecDeque::new(), max_trail_length }
    }

    /// The length limit.
    pub fn max_trail_length(&self) -> (n: usize)
        ensures
            n == self.limit(),
    {
        self.max_trail_length
    }

    /// The number of points held.
    pub fn len(&self) -> (n: usize)
        ensures
            n == self@.len(),
    {
        self.history.len()
    }

    /// The points, newest first.
    pub fn points(&self) -> (h: &VecDeque<T>)
        ensures
            h@ == self@,
    {
        &self.history
    }

    /// Records `point` as the newest position.
    pub fn record(&mut self, point: T)
        ensures
            final(self).limit() == old(self).limit(),
            final(self)@ == recorded(old(self)@, point, old(self).limit()),
    {
        self.history.push_front(point);
        if self.history.len() >= self.max_trail_length {
            self.history.pop_back();
        }
    }
}

/// Once a trail is shorter than its limit it stays so: recording a point
/// leaves it one point longer, but never at the limit, so a trail never holds
/// more than `max_trail_length - 1` points; the newest point is in front
/// whenever the limit leaves room for it.
pub proof fn lemma_trail_stays_short<T>(points: Seq<T>, point: T, max_trail_length: nat)
    requires
        points.len() < max_trail_length,
    ensures
        recorded(points, point, max_trail_length).len() < max_trail_length,
        recorded(points, point, max_trail_length).len() == if points.len() + 1 < max_trail_length {
            points.len() + 1
        } else {
            points.len()
        },
        max_trail_length >= 2 ==> recorded(points, point, max_trail_length)[0] == point,
        forall|i: int|
            1 <= i < recorded(points, point, max_trail_length).len() ==> #[trigger] recorded(
                points,
                point,
                max_trail_length,
            )[i] == points[i - 1],
{
}

/// The points a trail that held `points` holds after each of `inputs` is
/// recorded, first to last.
pub open spec fn recorded_all<T>(points: Seq<T>, inputs: Seq<T>, max_trail_length: nat) -> Seq<T>
    decreases inputs.len(),
{
    if inputs.len() == 0 {
        points
    } else {
        recorded(
            recorded_all(points, inputs.drop_last(), max_trail_length),
            inputs.last(),
            max_trail_length,
        )
    }
}

/// A trail with limit `m >= 1` that starts empty holds, after `k` points are
/// recorded, the newest `min(k, m - 1)` of them, newest first: it never
/// reaches `m` points.
pub proof fn lemma_trail_after_records<T>(inputs: Seq<T>, max_trail_length: nat)
    requires
        max_trail_length >= 1,
    ensures
        recorded_all(Seq::<T>::empty(), inputs, max_trail_length).len() == if inputs.len()
            < max_trail_length - 1 {
            inputs.len() as int
        } else {
            max_trail_length - 1
        },
        forall|j: int|
            0 <= j < recorded_all(Seq::<T>::empty(), inputs, max_trail_length).len()
                ==> #[trigger] recorded_all(Seq::<T>::empty(), inputs, max_trail_length)[j]
                == inputs[inputs.len() - 1 - j],
    decreases inputs.len(),
{
    if inputs.len() > 0 {
        let prev = inputs.drop_last();
        lemma_trail_after_records(prev, max_trail_length);
        let t = recorded_all(Seq::<T>::empty(), prev, max_trail_length);
        lemma_trail_stays_short(t, inputs.last(), max_trail_length);
        let after = recorded_all(Seq::<T>::empty(), inputs, max_trail_length);
        assert(after == recorded(t, inputs.last(), max_trail_length));
        assert forall|j: int| 0 <= j < after.len() implies #[trigger] after[j] == inputs[inputs.len() - 1 - j] by {
            if j == 0 {
                assert(after[0] == inputs.last());
            } else {
                assert(after[j] == t[j - 1]);
                assert(t[j - 1] == prev[prev.len() - 1 - (j - 1)]);
            }
        }
    }
}

} // verus!
