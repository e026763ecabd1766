//! Weapon kinds and the volley each fires.

use vstd::prelude::*;

verus! {

/// The kinds of weapon the player carries.
#[derive(Clone, Copy, PartialEq, Eq, Structural, Debug)]
pub enum WeaponType {
    /// Two parallel shots straight ahead.
    Straight,
    /// One shot at a random angle that later homes in on enemies.
    Tracking,
}

/// One bullet of a volley: its vertical offset from the muzzle and the length
/// limit of its trail.
#[derive(Clone, Copy, PartialEq, Eq, Structural, Debug)]
pub struct ShotPlan {
    pub y_offset: i32,
    pub max_trail_length: usize,
}

/// The bullets a weapon of kind `kind` fires at once.
pub open spec fn volley(kind: WeaponType) -> Seq<ShotPlan> {
    match kind {
        WeaponType::Straight => seq![
            ShotPlan { y_offset: -5i32, max_trail_length: 8 },
            ShotPlan { y_offset: 5i32, max_trail_length: 8 },
        ],
        WeaponType::Tracking => seq![ShotPlan { y_offset: 0i32, max_trail_length: 12 }],
    }
}

impl WeaponType {
    /// The bullets this weapon fires at once: two shots ten pixels apart,
    /// centred on the muzzle, for the straight weapon; one shot from the muzzle
    /// for the tracking weapon.
    pub fn shot_plan(&self) -> (v: Vec<ShotPlan>)
        ensures
            v@ == volley(*self),
    {
        let mut shots: Vec<ShotPlan> = Vec::new();
        match self {
            WeaponType::Straight => {
                let mut i: i32 = 0;
                while i < 2
                    invariant
                        0 <= i <= 2,
                        shots@.len() == i,
                        forall|j: int| 0 <= j < i ==> #[trigger] shots@[j] == (ShotPlan { y_offset: (-5 + 10 * j) as i32, max_trail_length: 8 }),
                    decreases 2 - i,
                {
                    shots.push(ShotPlan { y_offset: -5 + 10 * i, max_trail_length: 8 });
                    i = i + 1;
                }
                assert(shots@ =~= volley(*self));
            },
            WeaponType::Tracking => {
                shots.push(ShotPlan { y_offset: 0, max_trail_length: 12 });
                assert(shots@ =~= volley(*self));
            },
        }
        shots
    }
}

/// The straight weapon fires two shots with the same trail, ten pixels apart
/// and centred on the muzzle, and the tracking weapon one shot from the muzzle
/// with a longer trail.
pub proof fn lemma_volley_shape()
    ensures
        volley(WeaponType::Straight).len() == 2,
        volley(WeaponType::Straight)[0].y_offset + volley(WeaponType::Straight)[1].y_offset == 0,
        volley(WeaponType::Straight)[1].y_offset - volley(WeaponType::Straight)[0].y_offset == 10,
        volley(WeaponType::Straight)[0].max_trail_length == 8,
        volley(WeaponType::Straight)[1].max_trail_length == 8,
        volley(WeaponType::Tracking).len() == 1,
        volley(WeaponType::Tracking)[0].y_offset == 0,
        volley(WeaponType::Tracking)[0].max_trail_length == 12,
{
}

} // verus!
