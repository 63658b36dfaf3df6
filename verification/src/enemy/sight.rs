//! Whether a guard sees the player.
//!
//! The line of sight itself is found by the physics of the game: the caller
//! casts a ray from the guard toward the player, no longer than `ENEMY_SIGHT`
//! and blind to sensors, and hands in the first body that it hits.

use vstd::prelude::*;
use crate::enemy::{EnemyState, EnemyStateView};
use crate::geometry::Vec2;
use crate::unit::{Direction, facing_of};

verus! {

/// A guard notices the player without looking once it is nearer than this
/// many grid steps: fifteen units.
pub const ALWAYS_DETECT_RADIUS: u32 = 15_000;

/// How far a guard can see, in grid steps.
pub const ENEMY_SIGHT: u32 = 35_000_000;

/// Whether the player is so near that the guard notices it in any case.
pub open spec fn in_reach(position: Vec2, player: Vec2) -> bool {
    position.dist_sq(player) < ALWAYS_DETECT_RADIUS * ALWAYS_DETECT_RADIUS
}

/// Whether the guard looks the player's way. A guard on its round looks only
/// into the quadrant that it faces; one that is alerted looks all around.
pub open spec fn looks_toward(
    state: EnemyStateView,
    direction: Direction,
    position: Vec2,
    player: Vec2,
) -> bool {
    state is Idle ==> facing_of(player.x - position.x, player.y - position.y) == direction
}

/// Whether the ray shows the player: the first body that it hit is the
/// player, and the player is not invisible.
pub open spec fn ray_shows(hit: Option<u64>, player_entity: u64, invisible: bool) -> bool {
    hit == Some(player_entity) && !invisible
}

/// Whether a guard that is not stunned sees the player.
pub open spec fn sees(
    state: EnemyStateView,
    direction: Direction,
    position: Vec2,
    player: Vec2,
    hit: Option<u64>,
    player_entity: u64,
    invisible: bool,
) -> bool {
    in_reach(position, player) || (looks_toward(state, direction, position, player) && ray_shows(
        hit,
        player_entity,
        invisible,
    ))
}

/// Whether the guard looks the player's way.
fn looking(state: &EnemyState, direction: Direction, position: Vec2, player: Vec2) -> (b: bool)
    ensures
        b == looks_toward(state@, direction, position, player),
{
    match state {
        EnemyState::Idle => Direction::toward(position, player) == direction,
        _ => true,
    }
}

/// Whether what the ray hits can decide if the guard sees the player: the
/// guard is not stunned, the player is out of reach, and the guard looks its
/// way. Where this is `false` the ray need not be cast.
pub fn ray_decides(state: &EnemyState, direction: Direction, position: Vec2, player: Vec2) -> (b:
    bool)
    ensures
        b == (!(state@ is Stun) && !in_reach(position, player) && looks_toward(
            state@,
            direction,
            position,
            player,
        )),
{
    !state.is_stunned() && !position.closer_than(player, ALWAYS_DETECT_RADIUS) && looking(
        state,
        direction,
        position,
        player,
    )
}

/// Lets a guard look for the player. `hit` is the first body on the line of
/// sight, if any.
///
/// A stunned guard sees nothing and stays stunned. Any other guard is alerted
/// to where the player stands if it sees the player, and goes back to its
/// round if it does not.
pub fn see_player(
    state: &mut EnemyState,
    direction: Direction,
    position: Vec2,
    player: Vec2,
    hit: Option<u64>,
    player_entity: u64,
    invisible: bool,
) -> (seen: bool)
    ensures
        old(state)@ is Stun ==> !seen && *final(state) == *old(state),
        !(old(state)@ is Stun) ==> {
            &&& seen == sees(old(state)@, direction, position, player, hit, player_entity, invisible)
            &&& final(state)@ == if seen {
                EnemyStateView::Alert { target: player }
            } else {
                EnemyStateView::Idle
            }
        },
{
    if state.is_stunned() {
        return false;
    }
    let shown: bool = match hit {
        Some(entity) => entity == player_entity && !invisible,
        None => false,
    };
    let seen: bool = position.closer_than(player, ALWAYS_DETECT_RADIUS) || (looking(
        state,
        direction,
        position,
        player,
    ) && shown);
    if seen {
        *state = EnemyState::Alert { target: player };
    } else {
        *state = EnemyState::Idle;
    }
    seen
}

/// A guard does not see a player who is out of reach if it looks another way,
/// if something else blocks the ray, or if the player is invisible.
pub proof fn lemma_hidden_player_unseen(
    state: EnemyStateView,
    direction: Direction,
    position: Vec2,
    player: Vec2,
    hit: Option<u64>,
    player_entity: u64,
    invisible: bool,
)
    requires
        !in_reach(position, player),
        !looks_toward(state, direction, position, player) || hit != Some(player_entity)
            || invisible,
    ensures
        !sees(state, direction, position, player, hit, player_entity, invisible),
{
}

/// A player within reach is seen whatever the guard faces and whatever the
/// ray hits.
pub proof fn lemma_near_player_seen(
    state: EnemyStateView,
    direction: Direction,
    position: Vec2,
    player: Vec2,
    hit: Option<u64>,
    player_entity: u64,
    invisible: bool,
)
    requires
        in_reach(position, player),
    ensures
        sees(state, direction, position, player, hit, player_entity, invisible),
{
}

} // verus!
