//! The run's shared state: the score and whether the bee has been hit.

use vstd::prelude::*;

use crate::geometry::{colliders_touching, Collider, Transform2};
use crate::GameState;

verus! {

/// The state a run carries across frames: obstacles passed so far, and
/// whether the bee has collided and the run is over.
#[derive(Clone, Copy, Debug, PartialEq, Eq, Structural)]
pub struct GameInfo {
    pub score: u32,
    pub is_dead: bool,
}

impl GameInfo {
    /// A fresh run: nothing passed, bee alive.
    pub fn new() -> (g: GameInfo)
        ensures
            g == (GameInfo { score: 0, is_dead: false }),
    {
        GameInfo { score: 0, is_dead: false }
    }
}

/// Test the bee against every pillar on screen and mark the run dead if any
/// pillar's collider overlaps the bee's. The score is untouched, and a run
/// already dead stays dead.
pub fn collisions(
    bee_t: &Transform2,
    bee_c: &Collider,
    pillars: &Vec<(Transform2, Collider)>,
    info: &mut GameInfo,
)
    requires
        bee_t.wf(),
        bee_c.wf(),
        forall|i: int|
            0 <= i < pillars@.len() ==> (#[trigger] pillars@[i]).0.wf() && pillars@[i].1.wf(),
    ensures
        final(info).score == old(info).score,
        final(info).is_dead == (old(info).is_dead || exists|i: int|
            0 <= i < pillars@.len() && colliders_touching(
                (#[trigger] pillars@[i]).1,
                pillars@[i].0,
                *bee_c,
                *bee_t,
            )),
{
    let mut collided = false;
    let n = pillars.len();
    let mut i: usize = 0;
    while i < n
        invariant
            n == pillars@.len(),
            0 <= i <= n,
            bee_t.wf(),
            bee_c.wf(),
            forall|k: int|
                0 <= k < pillars@.len() ==> (#[trigger] pillars@[k]).0.wf() && pillars@[k].1.wf(),
            collided == exists|k: int|
                0 <= k < i && colliders_touching(
                    (#[trigger] pillars@[k]).1,
                    pillars@[k].0,
                    *bee_c,
                    *bee_t,
                ),
        decreases n - i,
    {
        let (t, c) = &pillars[i];
        if c.is_touching(t, bee_c, bee_t) {
            collided = true;
        }
        i += 1;
    }

    if collided {
        info.is_dead = true;
    }
}

/// The scene change a frame asks for: once the run is dead, fall back to the
/// menu; otherwise stay where we are.
pub fn game_killer(info: &GameInfo) -> (next: Option<GameState>)
    ensures
        next == if info.is_dead {
            Option::Some(GameState::Menu)
        } else {
            Option::<GameState>::None
        },
{
    if info.is_dead {
        Option::Some(GameState::Menu)
    } else {
        Option::None
    }
}

} // verus!
