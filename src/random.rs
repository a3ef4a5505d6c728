use vstd::prelude::*;
use crate::frame::Position;

verus! {

/// Half the width of the area where timer spawns appear, in micro-units.
pub const SPAWN_X_LIMIT: i64 = 550000000;
/// Half the height of the area where timer spawns appear, in micro-units.
pub const SPAWN_Y_LIMIT: i64 = 325000000;

/// Whether a point lies in the area where timer spawns appear.
pub open spec fn in_spawn_area(p: Position) -> bool {
    &&& -SPAWN_X_LIMIT <= p.x < SPAWN_X_LIMIT
    &&& -SPAWN_Y_LIMIT <= p.y < SPAWN_Y_LIMIT
}

/// Relies on rand's `Rng::gen_range` on `thread_rng()`: it returns a value
/// of the half-open range `low..high`, and panics only when that range is empty.
#[verifier::external_body]
fn random_in(low: i64, high: i64) -> (r: i64)
    requires
        low < high,
    ensures
        low <= r < high,
{
    rand::Rng::gen_range(&mut rand::thread_rng(), low..high)
}

/// A point drawn at random from the spawn area.
pub fn random_spawn_point() -> (p: Position)
    ensures
        in_spawn_area(p),
{
    let x = random_in(-SPAWN_X_LIMIT, SPAWN_X_LIMIT);
    let y = random_in(-SPAWN_Y_LIMIT, SPAWN_Y_LIMIT);
    Position { x, y }
}

} // verus!
