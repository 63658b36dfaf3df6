//! The guards: what state each one is in, and how a stun wears off.

use vstd::prelude::*;
use crate::enemy::attack::EnemyAttackTimer;
use crate::enemy::movement::{EnemyMovementTarget, EnemyMovementType, EnemyMovementTypeView};
use crate::geometry::{Rect, Vec2};
use crate::timer::{Timer, TimerMode, TimerView};
use crate::unit::{Direction, Movement};

pub mod attack;
pub mod movement;
pub mod sight;

verus! {

/// What a guard is doing.
#[derive(Clone, Copy, Debug, PartialEq, Eq, Structural)]
pub enum EnemyState {
    /// Following its own round.
    Idle,
    /// Running to where it saw the player.
    Alert { target: Vec2 },
    /// Out of action until the timer has run down.
    Stun { timer: Timer },
}

/// A guard's state, as numbers.
pub enum EnemyStateView {
    Idle,
    Alert { target: Vec2 },
    Stun { timer: TimerView },
}

impl View for EnemyState {
    type V = EnemyStateView;

    open spec fn view(&self) -> EnemyStateView {
        match *self {
            EnemyState::Idle => EnemyStateView::Idle,
            EnemyState::Alert { target } => EnemyStateView::Alert { target },
            EnemyState::Stun { timer } => EnemyStateView::Stun { timer: timer@ },
        }
    }
}

impl EnemyStateView {
    /// Every timer in the state is well-formed.
    pub open spec fn wf(self) -> bool {
        self matches EnemyStateView::Stun { timer } ==> timer.wf()
    }

    /// A guard that was just stunned for `duration` microseconds.
    pub open spec fn stunned(duration: nat) -> EnemyStateView {
        EnemyStateView::Stun { timer: TimerView::fresh(duration, TimerMode::Once) }
    }

    /// The state after `delta` microseconds have passed: a stun runs down and
    /// gives way to `Idle` on the tick that completes it, the other states
    /// stay.
    pub open spec fn after_tick(self, delta: nat) -> EnemyStateView {
        match self {
            EnemyStateView::Stun { timer } => {
                if timer.tick(delta).finished {
                    EnemyStateView::Idle
                } else {
                    EnemyStateView::Stun { timer: timer.tick(delta) }
                }
            },
            _ => self,
        }
    }

    /// The state after a tick of `delta` microseconds in which the guard saw
    /// the player at `sighting`, or nowhere. A stun comes first: it runs
    /// down, and what the guard might see does not count. Any other guard is
    /// alerted to a sighting and walks its round without one.
    pub open spec fn on_tick(self, sighting: Option<Vec2>, delta: nat) -> EnemyStateView {
        match self {
            EnemyStateView::Stun { .. } => self.after_tick(delta),
            _ => match sighting {
                Some(target) => EnemyStateView::Alert { target },
                None => EnemyStateView::Idle,
            },
        }
    }

    /// The state after `ticks` ticks of `delta` microseconds each.
    pub open spec fn after_ticks(self, delta: nat, ticks: nat) -> EnemyStateView
        decreases ticks,
    {
        if ticks == 0 {
            self
        } else {
            self.after_ticks(delta, (ticks - 1) as nat).after_tick(delta)
        }
    }
}

impl EnemyState {
    /// A guard stunned for `duration` microseconds.
    pub fn stunned(duration: u64) -> (s: EnemyState)
        ensures
            s@ == EnemyStateView::stunned(duration as nat),
    {
        EnemyState::Stun { timer: Timer::new(duration, TimerMode::Once) }
    }

    /// Whether the guard is out of action.
    pub fn is_stunned(&self) -> (b: bool)
        ensures
            b == (self@ is Stun),
    {
        match self {
            EnemyState::Stun { .. } => true,
            _ => false,
        }
    }

    /// Whether the guard is running to a sighting.
    pub fn is_alert(&self) -> (b: bool)
        ensures
            b == (self@ is Alert),
    {
        match self {
            EnemyState::Alert { .. } => true,
            _ => false,
        }
    }
}

impl Default for EnemyState {
    /// A guard starts on its round.
    fn default() -> (s: EnemyState)
        ensures
            s == EnemyState::Idle,
    {
        EnemyState::Idle
    }
}

/// Lets `delta` microseconds of a stun pass. A guard that is not stunned is
/// left alone, and the answer is `None`; for a stunned one the answer says
/// whether the stun still holds after this tick.
pub fn handle_stunned_enemy(state: &mut EnemyState, delta: u32) -> (stun_shown: Option<bool>)
    ensures
        final(state)@ == old(state)@.after_tick(delta as nat),
        final(state)@.wf(),
        stun_shown == if old(state)@ is Stun {
            Some(final(state)@ is Stun)
        } else {
            None::<bool>
        },
{
    match *state {
        EnemyState::Stun { timer } => {
            let mut timer: Timer = timer;
            timer.tick(delta);
            if timer.finished() {
                *state = EnemyState::Idle;
                Some(false)
            } else {
                *state = EnemyState::Stun { timer };
                Some(true)
            }
        },
        _ => None,
    }
}

/// Moves a guard's state on by one tick of `delta` microseconds, in which it
/// saw the player at `sighting`, or nowhere.
pub fn on_tick(state: &mut EnemyState, sighting: Option<Vec2>, delta: u32)
    ensures
        final(state)@ == old(state)@.on_tick(sighting, delta as nat),
        final(state)@.wf(),
{
    if state.is_stunned() {
        let _ = handle_stunned_enemy(state, delta);
    } else {
        match sighting {
            Some(target) => {
                *state = EnemyState::Alert { target };
            },
            None => {
                *state = EnemyState::Idle;
            },
        }
    }
}

/// Lets `delta` microseconds pass for every guard of `states`, and answers
/// for each what `handle_stunned_enemy` answers.
pub fn handle_stunned_enemies(states: &mut Vec<EnemyState>, delta: u32) -> (stun_shown: Vec<
    Option<bool>,
>)
    ensures
        final(states)@.len() == old(states)@.len(),
        stun_shown@.len() == old(states)@.len(),
        forall|i: int|
            #![trigger final(states)@[i]]
            0 <= i < old(states)@.len() ==> final(states)@[i]@ == old(states)@[i]@.after_tick(
                delta as nat,
            ),
        forall|i: int|
            #![trigger stun_shown@[i]]
            0 <= i < old(states)@.len() ==> stun_shown@[i] == if old(states)@[i]@ is Stun {
                Some(final(states)@[i]@ is Stun)
            } else {
                None::<bool>
            },
{
    let mut stun_shown: Vec<Option<bool>> = Vec::new();
    let mut i: usize = 0;
    while i < states.len()
        invariant
            i <= states@.len(),
            states@.len() == old(states)@.len(),
            stun_shown@.len() == i,
            forall|j: int|
                #![trigger states@[j]]
                0 <= j < i ==> states@[j]@ == old(states)@[j]@.after_tick(delta as nat),
            forall|j: int|
                #![trigger states@[j]]
                i <= j < states@.len() ==> states@[j] == old(states)@[j],
            forall|j: int|
                #![trigger stun_shown@[j]]
                0 <= j < i ==> stun_shown@[j] == if old(states)@[j]@ is Stun {
                    Some(states@[j]@ is Stun)
                } else {
                    None::<bool>
                },
        decreases states@.len() - i,
    {
        let mut state: EnemyState = states[i];
        let shown: Option<bool> = handle_stunned_enemy(&mut state, delta);
        states.set(i, state);
        stun_shown.push(shown);
        i += 1;
    }
    stun_shown
}

/// A stun of `duration` microseconds, ticked in equal steps, holds exactly as
/// long as the ticks add up to less than the duration. The tick that reaches
/// the duration turns the guard `Idle`, and it stays `Idle` from then on.
pub proof fn lemma_stun_wears_off(duration: nat, delta: nat, ticks: nat)
    requires
        ticks >= 1,
    ensures
        ({
            let state = EnemyStateView::stunned(duration).after_ticks(delta, ticks);
            if ticks * delta < duration {
                state == (EnemyStateView::Stun {
                    timer: TimerView {
                        elapsed: ticks * delta,
                        ..TimerView::fresh(duration, TimerMode::Once)
                    },
                })
            } else {
                state is Idle
            }
        }),
    decreases ticks,
{
    let start = EnemyStateView::stunned(duration);
    let before = start.after_ticks(delta, (ticks - 1) as nat);
    assert(start.after_ticks(delta, ticks) == before.after_tick(delta));
    assert((ticks - 1) * delta + delta == ticks * delta) by (nonlinear_arith);
    assert((ticks - 1) * delta >= 0) by (nonlinear_arith)
        requires
            ticks >= 1,
            delta >= 0,
    ;
    if ticks == 1 {
        assert(before == start);
    } else {
        lemma_stun_wears_off(duration, delta, (ticks - 1) as nat);
    }
}

/// A stun ends in one tick only: the first in which the ticks add up to the
/// duration, and the first of all for a stun without duration. Before that
/// tick the guard is stunned, from it on it is not.
pub proof fn lemma_stun_ends_once(duration: nat, delta: nat, ticks: nat)
    requires
        ticks >= 1,
    ensures
        ({
            let start = EnemyStateView::stunned(duration);
            let before = start.after_ticks(delta, (ticks - 1) as nat);
            let after = start.after_ticks(delta, ticks);
            (before is Stun && after is Idle) <==> ((ticks == 1 || (ticks - 1) * delta < duration)
                && duration <= ticks * delta)
        }),
{
    let start = EnemyStateView::stunned(duration);
    lemma_stun_wears_off(duration, delta, ticks);
    assert((ticks - 1) * delta <= ticks * delta) by (nonlinear_arith)
        requires
            ticks >= 1,
            delta >= 0,
    ;
    if ticks == 1 {
        assert(start.after_ticks(delta, 0) == start);
        assert((ticks - 1) * delta == 0) by (nonlinear_arith)
            requires
                ticks == 1,
        ;
    } else {
        lemma_stun_wears_off(duration, delta, (ticks - 1) as nat);
    }
}

/// A tick that takes time brings a stun nearer to its end: the guard is
/// `Idle` after it, or is stunned for less time than before.
pub proof fn lemma_stun_runs_down(timer: TimerView, delta: nat)
    requires
        timer.wf(),
        timer.mode == TimerMode::Once,
        !timer.finished,
        delta > 0,
    ensures
        match (EnemyStateView::Stun { timer }).after_tick(delta) {
            EnemyStateView::Idle => true,
            EnemyStateView::Stun { timer: left } => left.duration == timer.duration
                && left.duration - left.elapsed < timer.duration - timer.elapsed,
            EnemyStateView::Alert { .. } => false,
        },
{
}

/// Time alone never stuns a guard, and neither does what it sees.
pub proof fn lemma_no_stun_without_cause(state: EnemyStateView, sighting: Option<Vec2>, delta: nat)
    requires
        !(state is Stun),
    ensures
        state.after_tick(delta) == state,
        !(state.on_tick(sighting, delta) is Stun),
{
}

/// Grid steps per second at which a guard walks its round.
pub const ENEMY_SPEED: u32 = 100_000;

/// Grid steps per second at which an alerted guard runs.
pub const ENEMY_RUNNING_SPEED: u32 = 215_000;

/// Microseconds that a guard of an area waits at each point.
pub const GUARD_WAIT: u64 = 3_000_000;

/// Everything that makes up one guard.
#[derive(Clone, Debug)]
pub struct EnemyBundle {
    pub movement: Movement,
    pub direction: Direction,
    pub state: EnemyState,
    pub movement_type: EnemyMovementType,
    pub movement_target: EnemyMovementTarget,
    pub attack_timer: EnemyAttackTimer,
}

impl Default for EnemyBundle {
    /// An idle guard that keeps the origin as its post.
    fn default() -> (bundle: EnemyBundle)
        ensures
            bundle.movement == (Movement {
                speed: ENEMY_SPEED,
                running_speed: ENEMY_RUNNING_SPEED,
            }),
            bundle.direction == Direction::Up,
            bundle.state == EnemyState::Idle,
            bundle.movement_type@ == (EnemyMovementTypeView::Static {
                target: Vec2 { x: 0, y: 0 },
            }),
            bundle.movement_target@.len() == 0,
            bundle.attack_timer.0@ == TimerView::fresh(
                crate::enemy::attack::ATTACK_PERIOD as nat,
                TimerMode::Repeating,
            ),
    {
        EnemyBundle {
            movement: Movement { speed: ENEMY_SPEED, running_speed: ENEMY_RUNNING_SPEED },
            direction: Direction::Up,
            state: EnemyState::Idle,
            movement_type: EnemyMovementType::Static { target: Vec2::zero() },
            movement_target: EnemyMovementTarget::default(),
            attack_timer: EnemyAttackTimer::default(),
        }
    }
}

/// Why the level's data make no guard.
#[derive(Clone, Copy, Debug, PartialEq, Eq, Structural)]
pub enum LevelDataError {
    /// The kind of round is none of `Static`, `AlongPath`, `GuardArea`.
    UnknownMovementType,
    /// A guard of an area has no first corner.
    MissingCorner1,
    /// A guard of an area has no second corner.
    MissingCorner2,
}

/// The round that the level's data describe for a guard placed at
/// `position`: `Static` keeps the place, `AlongPath` walks from the place
/// through `path_points` and starts at the place, `GuardArea` guards the
/// rectangle between its two corners, starts at the first and waits
/// `GUARD_WAIT` at each point.
pub open spec fn round_of(
    kind: Seq<char>,
    position: Vec2,
    path_points: Seq<Vec2>,
    corner_1: Option<Vec2>,
    corner_2: Option<Vec2>,
) -> Result<EnemyMovementTypeView, LevelDataError> {
    if kind == "Static"@ {
        Ok(EnemyMovementTypeView::Static { target: position })
    } else if kind == "AlongPath"@ {
        Ok(EnemyMovementTypeView::AlongPath { path: seq![position] + path_points, current: 0 })
    } else if kind == "GuardArea"@ {
        match (corner_1, corner_2) {
            (None, _) => Err(LevelDataError::MissingCorner1),
            (Some(_), None) => Err(LevelDataError::MissingCorner2),
            (Some(first), Some(second)) => Ok(
                EnemyMovementTypeView::GuardArea {
                    area: Rect {
                        min: Vec2 {
                            x: if first.x <= second.x {
                                first.x
                            } else {
                                second.x
                            },
                            y: if first.y <= second.y {
                                first.y
                            } else {
                                second.y
                            },
                        },
                        max: Vec2 {
                            x: if first.x <= second.x {
                                second.x
                            } else {
                                first.x
                            },
                            y: if first.y <= second.y {
                                second.y
                            } else {
                                first.y
                            },
                        },
                    },
                    current: first,
                    wait_timer: TimerView::fresh(GUARD_WAIT as nat, TimerMode::Repeating),
                },
            ),
        }
    } else {
        Err(LevelDataError::UnknownMovementType)
    }
}

/// The view of a round that was made, or the reason why none was.
pub open spec fn round_view(round: Result<EnemyMovementType, LevelDataError>) -> Result<
    EnemyMovementTypeView,
    LevelDataError,
> {
    match round {
        Ok(movement_type) => Ok(movement_type@),
        Err(error) => Err(error),
    }
}

impl EnemyMovementType {
    /// Makes the round that the level's data describe.
    pub fn from_level(
        kind: &str,
        position: Vec2,
        path_points: Vec<Vec2>,
        corner_1: Option<Vec2>,
        corner_2: Option<Vec2>,
    ) -> (round: Result<EnemyMovementType, LevelDataError>)
        ensures
            round_view(round) == round_of(kind@, position, path_points@, corner_1, corner_2),
            round matches Ok(movement_type) ==> movement_type@.wf(),
    {
        let kind: String = kind.to_owned();
        if kind == "Static".to_owned() {
            Ok(EnemyMovementType::Static { target: position })
        } else if kind == "AlongPath".to_owned() {
            let mut path: Vec<Vec2> = path_points;
            path.insert(0, position);
            assert(path@ =~= seq![position] + path_points@);
            Ok(EnemyMovementType::AlongPath { path, current: 0 })
        } else if kind == "GuardArea".to_owned() {
            match (corner_1, corner_2) {
                (None, _) => Err(LevelDataError::MissingCorner1),
                (Some(_), None) => Err(LevelDataError::MissingCorner2),
                (Some(first), Some(second)) => Ok(
                    EnemyMovementType::GuardArea {
                        area: Rect::from_corners(first, second),
                        current: first,
                        wait_timer: Timer::new(GUARD_WAIT, TimerMode::Repeating),
                    },
                ),
            }
        } else {
            Err(LevelDataError::UnknownMovementType)
        }
    }
}

impl EnemyBundle {
    /// The guard that the level's data describe: as `default()` makes it,
    /// but on the round of `EnemyMovementType::from_level`.
    pub fn from_level(
        kind: &str,
        position: Vec2,
        path_points: Vec<Vec2>,
        corner_1: Option<Vec2>,
        corner_2: Option<Vec2>,
    ) -> (bundle: Result<EnemyBundle, LevelDataError>)
        ensures
            match bundle {
                Ok(guard) => {
                    &&& round_of(kind@, position, path_points@, corner_1, corner_2) == Ok::<
                        EnemyMovementTypeView,
                        LevelDataError,
                    >(guard.movement_type@)
                    &&& guard.movement_type@.wf()
                    &&& guard.movement == (Movement {
                        speed: ENEMY_SPEED,
                        running_speed: ENEMY_RUNNING_SPEED,
                    })
                    &&& guard.direction == Direction::Up
                    &&& guard.state == EnemyState::Idle
                    &&& guard.movement_target@.len() == 0
                    &&& guard.attack_timer.0@ == TimerView::fresh(
                        crate::enemy::attack::ATTACK_PERIOD as nat,
                        TimerMode::Repeating,
                    )
                },
                Err(error) => round_of(kind@, position, path_points@, corner_1, corner_2) == Err::<
                    EnemyMovementTypeView,
                    LevelDataError,
                >(error),
            },
    {
        match EnemyMovementType::from_level(kind, position, path_points, corner_1, corner_2) {
            Ok(movement_type) => {
                let mut bundle: EnemyBundle = EnemyBundle::default();
                bundle.movement_type = movement_type;
                Ok(bundle)
            },
            Err(error) => Err(error),
        }
    }
}

/// The layer on which a guard is drawn: one that faces up stands behind the
/// player, any other in front.
pub fn update_z_index(direction: Direction) -> (layer: u32)
    ensures
        layer == if direction == Direction::Up {
            6u32
        } else {
            4u32
        },
{
    match direction {
        Direction::Up => 6,
        _ => 4,
    }
}

} // verus!
