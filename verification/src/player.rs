//! The player: how it walks, and what its fists do to the guards.

use vstd::prelude::*;
use crate::actions::BurstActions;
use crate::enemy::{EnemyState, EnemyStateView};
use crate::geometry::{Vec2, ceil_sqrt, clamp_coord, isqrt_ceil, scale_toward_zero};
use crate::timer::{Timer, TimerMode, TimerView};
use crate::unit::{Direction, Movement, facing_of};

pub mod effect;
pub mod inventory;

verus! {

/// A punch reaches guards nearer than this many grid steps: fifty units.
pub const PUNCH_RANGE: u32 = 50_000;

/// Microseconds for which a punch stuns.
pub const PUNCH_STUN: u64 = 1_500_000;

/// Microseconds that the player needs between two punches.
pub const PUNCH_COOLDOWN: u64 = 2_500_000;

/// The time the player needs between two punches.
#[derive(Clone, Copy, Debug, PartialEq, Eq, Structural)]
pub struct PunchTimer(pub Timer);

impl Default for PunchTimer {
    /// The player can punch once `PUNCH_COOLDOWN` has passed.
    fn default() -> (t: PunchTimer)
        ensures
            t.0@ == TimerView::fresh(PUNCH_COOLDOWN as nat, TimerMode::Once),
    {
        PunchTimer(Timer::new(PUNCH_COOLDOWN, TimerMode::Once))
    }
}

/// Whether a punch of a player at `player` who faces `facing` lands on a
/// guard at `enemy`: the guard is within `PUNCH_RANGE` and in the quadrant
/// that the player faces.
pub open spec fn punch_lands(player: Vec2, facing: Direction, enemy: Vec2) -> bool {
    enemy.dist_sq(player) < PUNCH_RANGE * PUNCH_RANGE && facing_of(
        enemy.x - player.x,
        enemy.y - player.y,
    ) == facing
}

/// Whether the player asks for a punch.
pub open spec fn asks_punch(actions: Seq<BurstActions>) -> bool {
    exists|i: int| 0 <= i < actions.len() && #[trigger] actions[i] == BurstActions::Punch
}

/// Whether the player asks for a punch.
fn wants_punch(actions: &Vec<BurstActions>) -> (b: bool)
    ensures
        b == asks_punch(actions@),
{
    let mut i: usize = 0;
    while i < actions.len()
        invariant
            i <= actions@.len(),
            forall|j: int| 0 <= j < i ==> actions@[j] != BurstActions::Punch,
        decreases actions@.len() - i,
    {
        match actions[i] {
            BurstActions::Punch => {
                return true;
            },
            _ => {},
        }
        i += 1;
    }
    false
}

/// Lets `delta` microseconds of the time between punches pass, and lets the
/// player punch if it asks to and that time is over. A punch stuns every
/// guard it lands on for `PUNCH_STUN` and starts the time between punches
/// over. Says whether the player punched.
pub fn punch_enemies(
    punch_timer: &mut PunchTimer,
    player: Vec2,
    facing: Direction,
    actions: &Vec<BurstActions>,
    states: &mut Vec<EnemyState>,
    positions: &Vec<Vec2>,
    delta: u32,
) -> (punched: bool)
    requires
        old(states)@.len() == positions@.len(),
    ensures
        punched == (old(punch_timer).0@.tick(delta as nat).finished && asks_punch(actions@)),
        final(punch_timer).0@ == if punched {
            old(punch_timer).0@.tick(delta as nat).reset()
        } else {
            old(punch_timer).0@.tick(delta as nat)
        },
        final(states)@.len() == old(states)@.len(),
        forall|i: int|
            #![trigger final(states)@[i]]
            0 <= i < old(states)@.len() ==> final(states)@[i]@ == if punched && punch_lands(
                player,
                facing,
                positions@[i],
            ) {
                EnemyStateView::stunned(PUNCH_STUN as nat)
            } else {
                old(states)@[i]@
            },
{
    punch_timer.0.tick(delta);
    if !punch_timer.0.finished() {
        return false;
    }
    if !wants_punch(actions) {
        return false;
    }
    let mut i: usize = 0;
    while i < states.len()
        invariant
            i <= states@.len(),
            states@.len() == old(states)@.len(),
            states@.len() == positions@.len(),
            forall|j: int|
                #![trigger states@[j]]
                0 <= j < i ==> states@[j]@ == if punch_lands(player, facing, positions@[j]) {
                    EnemyStateView::stunned(PUNCH_STUN as nat)
                } else {
                    old(states)@[j]@
                },
            forall|j: int|
                #![trigger states@[j]]
                i <= j < states@.len() ==> states@[j] == old(states)@[j],
        decreases states@.len() - i,
    {
        let enemy: Vec2 = positions[i];
        if enemy.closer_than(player, PUNCH_RANGE) && Direction::toward(player, enemy) == facing {
            states.set(i, EnemyState::stunned(PUNCH_STUN));
        }
        i += 1;
    }
    punch_timer.0.reset();
    true
}

/// The grid steps that the player covers in `delta` microseconds at
/// `speed`, times a boost of `multiplier` thousandths, rounded down.
pub open spec fn boosted_reach(speed: u32, multiplier: u32, delta: u32) -> int {
    (speed * delta * multiplier) / 1_000_000_000
}

/// One part of a stride of length `reach` along an input of length `len`:
/// `part * reach / len`, rounded toward zero, turned round for a dizzy
/// player and limited to the range of a coordinate.
pub open spec fn stride_part_of(part: int, reach: int, len: int, dizzy: bool) -> int {
    let along = scale_toward_zero(part, reach, len);
    clamp_coord(
        if dizzy {
            -along
        } else {
            along
        },
    )
}

/// The step that the player takes when it pushes toward `input`: as long as
/// `reach` and along `input`, or the opposite way for a dizzy player.
/// Without input there is no step.
pub open spec fn stride_of(input: Vec2, reach: int, dizzy: bool) -> Vec2 {
    let len = ceil_sqrt(input.dist_sq(Vec2 { x: 0, y: 0 }));
    if len == 0 {
        Vec2 { x: 0, y: 0 }
    } else {
        Vec2 {
            x: stride_part_of(input.x as int, reach, len, dizzy) as i32,
            y: stride_part_of(input.y as int, reach, len, dizzy) as i32,
        }
    }
}

/// One part of a stride.
fn stride_part(part: i32, reach: u128, len: u128, dizzy: bool) -> (c: i32)
    requires
        0 < len,
        reach <= 0xFFFF_FFFF * 0xFFFF_FFFF * 0xFFFF_FFFF,
    ensures
        c == stride_part_of(part as int, reach as int, len as int, dizzy),
{
    let size: u128 = if part >= 0 {
        part as u128
    } else {
        (-(part as i64)) as u128
    };
    assert(size * reach <= 0x8000_0000 * (0xFFFF_FFFF * 0xFFFF_FFFF * 0xFFFF_FFFF))
        by (nonlinear_arith)
        requires
            0 <= size <= 0x8000_0000,
            0 <= reach <= 0xFFFF_FFFF * 0xFFFF_FFFF * 0xFFFF_FFFF,
    ;
    let scaled: u128 = size * reach / len;
    let backward: bool = (part < 0) != dizzy;
    if backward {
        if scaled > 0x8000_0000 {
            i32::MIN
        } else {
            (-(scaled as i64)) as i32
        }
    } else {
        if scaled > i32::MAX as u128 {
            i32::MAX
        } else {
            scaled as i32
        }
    }
}

/// Works out the step that the player wants to take in `delta`
/// microseconds, boosted by `multiplier` thousandths where it has a boost,
/// and turns the player to face the way of the step.
pub fn player_movement(
    input: Vec2,
    movement: &Movement,
    multiplier: Option<u32>,
    dizzy: bool,
    direction: &mut Direction,
    delta: u32,
) -> (stride: Vec2)
    ensures
        stride == stride_of(
            input,
            boosted_reach(
                movement.speed,
                match multiplier {
                    Some(factor) => factor,
                    None => 1_000,
                },
                delta,
            ),
            dizzy,
        ),
        *final(direction) == if stride != (Vec2 { x: 0, y: 0 }) {
            facing_of(stride.x as int, stride.y as int)
        } else {
            *old(direction)
        },
{
    let factor: u32 = match multiplier {
        Some(factor) => factor,
        None => 1_000,
    };
    assert(movement.speed * delta <= 0xFFFF_FFFF * 0xFFFF_FFFF && movement.speed * delta * factor
        <= 0xFFFF_FFFF * 0xFFFF_FFFF * 0xFFFF_FFFF) by (nonlinear_arith)
        requires
            0 <= movement.speed <= 0xFFFF_FFFF,
            0 <= delta <= 0xFFFF_FFFF,
            0 <= factor <= 0xFFFF_FFFF,
    ;
    let reach: u128 = (movement.speed as u128) * (delta as u128) * (factor as u128)
        / 1_000_000_000;
    let len: u128 = isqrt_ceil(input.distance_squared(Vec2::zero()));
    let stride: Vec2 = if len == 0 {
        Vec2::zero()
    } else {
        Vec2 {
            x: stride_part(input.x, reach, len, dizzy),
            y: stride_part(input.y, reach, len, dizzy),
        }
    };
    if stride != Vec2::zero() {
        *direction = Direction::toward(Vec2::zero(), stride);
    }
    stride
}

/// How far the player gets along one axis: the whole `part` of its stride
/// where nothing is in the way. Where something is, `hit` says at which
/// thousandth of the stride; the player then gets as far as that lies beyond
/// the whole stride, which for a hit within the stride is nowhere.
pub open spec fn slide_of(part: int, hit: Option<u32>) -> int {
    match hit {
        Some(toi) => scale_toward_zero(
            part,
            if toi > 1_000 {
                toi - 1_000
            } else {
                0
            },
            1_000,
        ),
        None => part,
    }
}

/// How far the player gets along one axis.
fn slide(part: i32, hit: Option<u32>) -> (s: i64)
    ensures
        s == slide_of(part as int, hit),
{
    match hit {
        Some(toi) => {
            let beyond: i64 = if toi > 1_000 {
                (toi - 1_000) as i64
            } else {
                0
            };
            assert(-0x8000_0000 * 0xFFFF_FFFF <= part * beyond <= 0x8000_0000 * 0xFFFF_FFFF)
                by (nonlinear_arith)
                requires
                    -0x8000_0000 <= part <= 0x8000_0000,
                    0 <= beyond <= 0xFFFF_FFFF,
            ;
            if part >= 0 {
                (part as i64) * beyond / 1_000
            } else {
                assert((-part) * beyond == -(part * beyond)) by (nonlinear_arith);
                -((-(part as i64)) * beyond / 1_000)
            }
        },
        None => part as i64,
    }
}

/// Moves the player by its stride, each axis on its own: `hit_x` and `hit_y`
/// say what a sweep of the player's body along the stride's part on that
/// axis ran into. Says where the player stands now and whether it moved.
pub fn resolve_player_move(position: Vec2, stride: Vec2, hit_x: Option<u32>, hit_y: Option<u32>) -> (moved:
    (Vec2, bool))
    ensures
        moved.0 == position.spec_offset(
            slide_of(stride.x as int, hit_x),
            slide_of(stride.y as int, hit_y),
        ),
        moved.1 == (moved.0 != position),
{
    let target: Vec2 = position.offset(slide(stride.x, hit_x), slide(stride.y, hit_y));
    (target, target != position)
}

} // verus!
