//! The enemy pool and the choice of an enemy's current action.

use vstd::prelude::*;

verus! {

/// The enemies on the field, in the order in which they were spawned.
pub struct EnemyPool<E> {
    pub enemies: Vec<E>,
}

impl<E> EnemyPool<E> {
    /// An empty pool.
    pub fn new() -> (p: Self)
        ensures
            p.enemies@ == Seq::<E>::empty(),
    {
        EnemyPool { enemies: Vec::new() }
    }

    /// Adds `enemy` after the enemies already there.
    pub fn spawn(&mut self, enemy: E)
        ensures
            final(self).enemies@ == old(self).enemies@.push(enemy),
    {
        self.enemies.push(enemy);
    }
}

/// The action at `cur_action_idx` in `actions`, or `fallback` when there is
/// no action there.
pub fn action_at<A: Copy>(actions: &Vec<A>, cur_action_idx: usize, fallback: A) -> (a: A)
    ensures
        a == (if cur_action_idx < actions@.len() {
            actions@[cur_action_idx as int]
        } else {
            fallback
        }),
{
    if cur_action_idx < actions.len() {
        actions[cur_action_idx]
    } else {
        fallback
    }
}

} // verus!
