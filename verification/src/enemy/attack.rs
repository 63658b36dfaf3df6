//! How a guard shoots at the player.

use vstd::prelude::*;
use crate::chance::random_u32;
use crate::enemy::{EnemyState, EnemyStateView};
use crate::geometry::Vec2;
use crate::timer::{Timer, TimerMode, TimerView};
use crate::unit::{Health, clamp_health};

verus! {

/// A guard shoots at a player who is nearer than this many grid steps:
/// twenty-five units.
pub const ATTACK_RANGE: u32 = 25_000;

/// Microseconds between two shots of a guard.
pub const ATTACK_PERIOD: u64 = 1_000_000;

/// The time a guard takes between two shots.
#[derive(Clone, Copy, Debug, PartialEq, Eq, Structural)]
pub struct EnemyAttackTimer(pub Timer);

impl Default for EnemyAttackTimer {
    /// A guard shoots once every `ATTACK_PERIOD`.
    fn default() -> (t: EnemyAttackTimer)
        ensures
            t.0@ == TimerView::fresh(ATTACK_PERIOD as nat, TimerMode::Repeating),
    {
        EnemyAttackTimer(Timer::new(ATTACK_PERIOD, TimerMode::Repeating))
    }
}

/// What one guard did to the player in a tick.
#[derive(Clone, Copy, Debug, PartialEq, Eq, Structural)]
pub struct Attack {
    /// Whether the guard fired.
    pub shoot: bool,
    /// Whether the shot brought the player's health down to zero.
    pub game_over: bool,
}

/// The health that a shot takes, in thousandths of a point: twenty points,
/// times the player's vulnerability in thousandths where it has one, and up to
/// five points more as `roll / 2^32` decides. A shot at an invincible player
/// takes nothing.
pub open spec fn damage_of(roll: u32, vulnerability: Option<u32>, invincible: bool) -> int {
    if invincible {
        0
    } else {
        (roll * 5_000) / 0x1_0000_0000 + 20 * match vulnerability {
            Some(amount) => amount as int,
            None => 1_000,
        }
    }
}

/// Whether a guard takes aim: it is alerted and the player is within
/// `ATTACK_RANGE`.
pub open spec fn takes_aim(state: EnemyStateView, position: Vec2, player: Vec2) -> bool {
    state is Alert && position.dist_sq(player) < ATTACK_RANGE * ATTACK_RANGE
}

/// The health that a shot takes.
fn damage(roll: u32, vulnerability: Option<u32>, invincible: bool) -> (d: i64)
    ensures
        d == damage_of(roll, vulnerability, invincible),
{
    if invincible {
        0
    } else {
        let spread: u64 = (roll as u64) * 5_000 / 0x1_0000_0000;
        let factor: u64 = match vulnerability {
            Some(amount) => amount as u64,
            None => 1_000,
        };
        (spread + 20 * factor) as i64
    }
}

/// Lets a guard attack for `delta` microseconds, with `roll` deciding how
/// hard a shot hits.
///
/// Only a guard that takes aim does anything: its attack timer counts on, and
/// on the tick that completes a period it fires. The shot takes `damage_of`
/// from the player's health. A shot that brings the health to zero ends the
/// game and sends the guard back to its round.
pub fn attack_player_at(
    state: &mut EnemyState,
    attack_timer: &mut EnemyAttackTimer,
    position: Vec2,
    player: Vec2,
    health: &mut Health,
    vulnerability: Option<u32>,
    invincible: bool,
    delta: u32,
    roll: u32,
) -> (attack: Attack)
    ensures
        final(health).max_health() == old(health).max_health(),
        !takes_aim(old(state)@, position, player) ==> {
            &&& attack == (Attack { shoot: false, game_over: false })
            &&& *final(state) == *old(state)
            &&& *final(attack_timer) == *old(attack_timer)
            &&& *final(health) == *old(health)
        },
        takes_aim(old(state)@, position, player) ==> {
            &&& final(attack_timer).0@ == old(attack_timer).0@.tick(delta as nat)
            &&& attack.shoot == final(attack_timer).0@.just_finished()
            &&& final(health).health() == if attack.shoot {
                clamp_health(old(health).health() - damage_of(roll, vulnerability, invincible))
            } else {
                old(health).health()
            }
            &&& attack.game_over == (attack.shoot && final(health).health() <= 0)
            &&& final(state)@ == if attack.game_over {
                EnemyStateView::Idle
            } else {
                old(state)@
            }
        },
{
    let aims: bool = state.is_alert() && position.closer_than(player, ATTACK_RANGE);
    if !aims {
        return Attack { shoot: false, game_over: false };
    }
    attack_timer.0.tick(delta);
    if !attack_timer.0.just_finished() {
        return Attack { shoot: false, game_over: false };
    }
    let reached_zero = health.take_damage(damage(roll, vulnerability, invincible));
    if reached_zero.0 {
        *state = EnemyState::Idle;
    }
    Attack { shoot: true, game_over: reached_zero.0 }
}

/// Lets a guard attack for `delta` microseconds; chance decides how hard a
/// shot hits.
pub fn attack_player(
    state: &mut EnemyState,
    attack_timer: &mut EnemyAttackTimer,
    position: Vec2,
    player: Vec2,
    health: &mut Health,
    vulnerability: Option<u32>,
    invincible: bool,
    delta: u32,
) -> (attack: Attack)
    ensures
        final(health).max_health() == old(health).max_health(),
        !takes_aim(old(state)@, position, player) ==> {
            &&& attack == (Attack { shoot: false, game_over: false })
            &&& *final(state) == *old(state)
            &&& *final(attack_timer) == *old(attack_timer)
            &&& *final(health) == *old(health)
        },
        takes_aim(old(state)@, position, player) ==> {
            &&& final(attack_timer).0@ == old(attack_timer).0@.tick(delta as nat)
            &&& attack.shoot == final(attack_timer).0@.just_finished()
            &&& !attack.shoot ==> final(health).health() == old(health).health()
            &&& attack.shoot ==> exists|roll: u32|
                final(health).health() == clamp_health(
                    old(health).health() - #[trigger] damage_of(roll, vulnerability, invincible),
                )
            &&& attack.game_over == (attack.shoot && final(health).health() <= 0)
            &&& final(state)@ == if attack.game_over {
                EnemyStateView::Idle
            } else {
                old(state)@
            }
        },
{
    let roll: u32 = random_u32();
    attack_player_at(
        state,
        attack_timer,
        position,
        player,
        health,
        vulnerability,
        invincible,
        delta,
        roll,
    )
}

} // verus!
