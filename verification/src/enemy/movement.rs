//! How a guard picks its next goal and walks toward it.
//!
//! A tick of one guard takes three steps. `next_goal` says whether the guard
//! needs a new route, and to where. The caller then searches the walkable
//! ground for that route. `enemy_movement` takes what the search gave and
//! walks the guard along its way points. Two more decisions stand beside
//! these: `enemy_guard_area_timer` counts the wait of a guard that watches an
//! area, and `avoid_overlap` with `settle` keeps guards from standing in each
//! other.

use vstd::prelude::*;
use vstd::math::abs;
use crate::chance::random_u32;
use crate::enemy::{EnemyState, EnemyStateView};
use crate::geometry::{
    Rect, Vec2, lemma_dist_sq_symmetric, lemma_point_at_inside, lemma_square_monotonic,
    lemma_step_never_overshoots, scale_toward_zero,
};
use crate::timer::{Timer, TimerView};
use crate::unit::{Direction, Movement, facing_of};

verus! {

/// The way points that a guard is walking through, nearest first. They come
/// from the last route that was found for the guard, and nothing but the
/// guard's walk changes them.
#[derive(Clone, Debug, PartialEq)]
pub struct EnemyMovementTarget {
    path: Vec<Vec2>,
}

impl View for EnemyMovementTarget {
    type V = Seq<Vec2>;

    closed spec fn view(&self) -> Seq<Vec2> {
        self.path@
    }
}

impl Default for EnemyMovementTarget {
    /// No way points: the guard has nowhere to go yet.
    fn default() -> (t: EnemyMovementTarget)
        ensures
            t@.len() == 0,
    {
        EnemyMovementTarget { path: Vec::new() }
    }
}

impl EnemyMovementTarget {
    /// The way points, nearest first.
    pub fn path(&self) -> (path: &Vec<Vec2>)
        ensures
            path@ == self@,
    {
        &self.path
    }
}

/// What the search for a route to a guard's goal gave.
#[derive(Clone, Debug, PartialEq)]
pub enum Route {
    /// The guard asked for no route.
    Kept,
    /// The route, from the place where the guard stands to its goal.
    Found(Vec<Vec2>),
    /// There is no way to the goal, or no walkable ground near it.
    NotFound,
}

/// The round that a guard follows while nothing disturbs it.
#[derive(Clone, Debug)]
#[allow(inconsistent_fields)]
pub enum EnemyMovementType {
    /// It keeps one post.
    Static { target: Vec2 },
    /// It walks from point to point and starts over after the last.
    AlongPath { path: Vec<Vec2>, current: usize },
    /// It walks to chance points of an area and waits at each.
    GuardArea { area: Rect, current: Vec2, wait_timer: Timer },
}

/// A guard's round, as numbers.
#[allow(inconsistent_fields)]
pub enum EnemyMovementTypeView {
    Static { target: Vec2 },
    AlongPath { path: Seq<Vec2>, current: nat },
    GuardArea { area: Rect, current: Vec2, wait_timer: TimerView },
}

impl View for EnemyMovementType {
    type V = EnemyMovementTypeView;

    open spec fn view(&self) -> EnemyMovementTypeView {
        match *self {
            EnemyMovementType::Static { target } => EnemyMovementTypeView::Static { target },
            EnemyMovementType::AlongPath { path, current } => EnemyMovementTypeView::AlongPath {
                path: path@,
                current: current as nat,
            },
            EnemyMovementType::GuardArea {
                area,
                current,
                wait_timer,
            } => EnemyMovementTypeView::GuardArea { area, current, wait_timer: wait_timer@ },
        }
    }
}

impl EnemyMovementTypeView {
    /// A path has a point and the index names one of them; an area has its
    /// corners in order.
    pub open spec fn wf(self) -> bool {
        match self {
            EnemyMovementTypeView::Static { .. } => true,
            EnemyMovementTypeView::AlongPath { path, current } => current < path.len(),
            EnemyMovementTypeView::GuardArea { area, current, wait_timer } => area.wf()
                && wait_timer.wf(),
        }
    }

    /// The round moved on to its next goal: a post stays, a path goes to its
    /// next point and from the last to the first, an area takes the point at
    /// the fractions `fx` and `fy` of its sides.
    pub open spec fn next(self, fx: u32, fy: u32) -> EnemyMovementTypeView {
        match self {
            EnemyMovementTypeView::Static { .. } => self,
            EnemyMovementTypeView::AlongPath { path, current } => EnemyMovementTypeView::AlongPath {
                path,
                current: (current + 1) % path.len(),
            },
            EnemyMovementTypeView::GuardArea {
                area,
                current,
                wait_timer,
            } => EnemyMovementTypeView::GuardArea {
                area,
                current: area.spec_point_at(fx, fy),
                wait_timer,
            },
        }
    }

    /// The round moved on `steps` times, an area taking its lower left corner
    /// each time.
    pub open spec fn next_times(self, steps: nat) -> EnemyMovementTypeView
        decreases steps,
    {
        if steps == 0 {
            self
        } else {
            self.next_times((steps - 1) as nat).next(0, 0)
        }
    }

    /// Where the round sends the guard now. An area names its point only on
    /// the tick that completes a wait.
    pub open spec fn target(self) -> Option<Vec2> {
        match self {
            EnemyMovementTypeView::Static { target } => Some(target),
            EnemyMovementTypeView::AlongPath { path, current } => Some(path[current as int]),
            EnemyMovementTypeView::GuardArea { area, current, wait_timer } => {
                if wait_timer.just_finished() {
                    Some(current)
                } else {
                    None
                }
            },
        }
    }

    /// The round after `delta` microseconds: the wait of an area goes on while
    /// the guard stands where it was sent, and starts over while it does not.
    pub open spec fn after_wait(self, standing: bool, delta: nat) -> EnemyMovementTypeView {
        match self {
            EnemyMovementTypeView::GuardArea {
                area,
                current,
                wait_timer,
            } => EnemyMovementTypeView::GuardArea {
                area,
                current,
                wait_timer: if standing {
                    wait_timer.tick(delta)
                } else {
                    wait_timer.reset()
                },
            },
            _ => self,
        }
    }
}

impl EnemyMovementType {
    /// Whether the round is well-formed: a path names one of its points, an
    /// area has its corners in order.
    pub fn is_wf(&self) -> (b: bool)
        ensures
            b == self@.wf(),
    {
        match self {
            EnemyMovementType::Static { .. } => true,
            EnemyMovementType::AlongPath { path, current } => *current < path.len(),
            EnemyMovementType::GuardArea { area, current, wait_timer } => {
                // every timer is well-formed, and says so when it is read
                let _ = wait_timer.finished();
                area.is_wf()
            },
        }
    }

    /// Moves the round on to its next goal; an area takes the point at the
    /// fractions `fx` and `fy` of its sides.
    pub fn move_to_next_at(&mut self, fx: u32, fy: u32)
        requires
            old(self)@.wf(),
        ensures
            final(self)@ == old(self)@.next(fx, fy),
            final(self)@.wf(),
    {
        match self {
            EnemyMovementType::Static { .. } => {},
            EnemyMovementType::AlongPath { path, current } => {
                let points: usize = path.len();
                *current = (*current + 1) % points;
            },
            EnemyMovementType::GuardArea { area, current, wait_timer } => {
                *current = area.point_at(fx, fy);
            },
        }
    }

    /// Moves the round on to its next goal; an area takes a point by chance.
    pub fn move_to_next(&mut self)
        requires
            old(self)@.wf(),
        ensures
            exists|fx: u32, fy: u32| final(self)@ == old(self)@.next(fx, fy),
            final(self)@.wf(),
            final(self)@ matches EnemyMovementTypeView::GuardArea { area, current, .. }
                ==> area.contains(current),
    {
        let fx: u32 = random_u32();
        let fy: u32 = random_u32();
        self.move_to_next_at(fx, fy);
        proof {
            if let EnemyMovementTypeView::GuardArea { area, .. } = old(self)@ {
                lemma_point_at_inside(area, fx, fy);
            }
        }
    }

    /// Where the round sends the guard now.
    pub fn target(&self) -> (t: Option<Vec2>)
        requires
            self@.wf(),
        ensures
            t == self@.target(),
    {
        match self {
            EnemyMovementType::Static { target } => Some(*target),
            EnemyMovementType::AlongPath { path, current } => Some(path[*current]),
            EnemyMovementType::GuardArea { area, current, wait_timer } => {
                if wait_timer.just_finished() {
                    Some(*current)
                } else {
                    None
                }
            },
        }
    }
}

/// Whether a guard at `position` stands where its way points send it: on the
/// nearest of them, or anywhere once none are left.
pub open spec fn stands_at_goal(path: Seq<Vec2>, position: Vec2) -> bool {
    path.len() == 0 || path[0] == position
}

/// Lets `delta` microseconds of an area guard's wait pass while it stands at
/// its goal, and starts the wait over while it is on its way. Other rounds
/// have no wait.
pub fn enemy_guard_area_timer(
    movement_type: &mut EnemyMovementType,
    movement_target: &EnemyMovementTarget,
    position: Vec2,
    delta: u32,
)
    ensures
        final(movement_type)@ == old(movement_type)@.after_wait(
            stands_at_goal(movement_target@, position),
            delta as nat,
        ),
        old(movement_type)@.wf() ==> final(movement_type)@.wf(),
{
    match movement_type {
        EnemyMovementType::GuardArea { area, current, wait_timer } => {
            let standing: bool = movement_target.path.len() == 0 || movement_target.path[0]
                == position;
            if standing {
                wait_timer.tick(delta);
            } else {
                wait_timer.reset();
            }
        },
        _ => {},
    }
}

/// A guard on a path of `n` points that moves on `steps` times gets `steps`
/// points further, counted round the path: after `n` moves it is back where
/// it was, and from the first point it visits every point in order.
pub proof fn lemma_patrol_cycles(path: Seq<Vec2>, current: nat, steps: nat)
    requires
        current < path.len(),
    ensures
        (EnemyMovementTypeView::AlongPath { path, current }).next_times(steps) == (
        EnemyMovementTypeView::AlongPath {
            path,
            current: (current + steps) % path.len(),
        }),
        (EnemyMovementTypeView::AlongPath { path, current }).next_times(path.len()) == (
        EnemyMovementTypeView::AlongPath { path, current }),
    decreases steps,
{
    let n = path.len() as int;
    let start = EnemyMovementTypeView::AlongPath { path, current };
    lemma_patrol_index(path, current, steps);
    lemma_patrol_index(path, current, path.len());
    let c = current as int;
    assert((c + n) % n == c) by (nonlinear_arith)
        requires
            0 <= c < n,
    ;
}

/// The index of a path guard after `steps` moves.
proof fn lemma_patrol_index(path: Seq<Vec2>, current: nat, steps: nat)
    requires
        current < path.len(),
    ensures
        (EnemyMovementTypeView::AlongPath { path, current }).next_times(steps) == (
        EnemyMovementTypeView::AlongPath {
            path,
            current: (current + steps) % path.len(),
        }),
    decreases steps,
{
    let n = path.len() as int;
    let start = EnemyMovementTypeView::AlongPath { path, current };
    if steps == 0 {
        let c = current as int;
        assert(c % n == c) by (nonlinear_arith)
            requires
                0 <= c < n,
        ;
    } else {
        lemma_patrol_index(path, current, (steps - 1) as nat);
        let total = (current + steps) as int;
        let before = (total - 1) % n;
        assert(start.next_times(steps) == start.next_times((steps - 1) as nat).next(0, 0));
        assert((before + 1) % n == total % n) by (nonlinear_arith)
            requires
                before == (total - 1) % n,
                0 < n,
                0 <= total - 1,
        ;
    }
}

/// Which fractions an area is given makes no difference to a post or a path.
pub proof fn lemma_only_areas_take_chances(round: EnemyMovementTypeView, fx: u32, fy: u32)
    requires
        !(round is GuardArea),
    ensures
        round.next(fx, fy) == round.next(0, 0),
{
}

/// Whatever fractions an area is given, the point it takes lies inside it.
pub proof fn lemma_guard_point_inside(round: EnemyMovementTypeView, fx: u32, fy: u32)
    requires
        round.wf(),
        round is GuardArea,
    ensures
        round.next(fx, fy) matches EnemyMovementTypeView::GuardArea { area, current, .. }
            && area.contains(current),
{
    if let EnemyMovementTypeView::GuardArea { area, .. } = round {
        lemma_point_at_inside(area, fx, fy);
    }
}

/// A guard counts as arrived at a way point once it is nearer than this many
/// grid steps: a tenth of a unit.
pub const ARRIVAL_DISTANCE: u32 = 100;

/// An alerted guard stops walking once the player is nearer than this many
/// grid steps: fifteen units.
pub const HALT_DISTANCE: u32 = 15_000;

/// Guards nearer to each other than this many grid steps, twenty-five units,
/// push each other apart.
pub const SEPARATION_RADIUS: u32 = 25_000;

/// How hard two guards push each other apart: the push is the line from
/// the other guard, times this and the microseconds of the tick, divided by
/// the squared distance. So it is the stronger the nearer the two are.
pub const REPULSION: u64 = 500;

/// The grid steps that a body of the given speed covers in `delta`
/// microseconds, rounded down.
pub open spec fn reach_of(speed: u32, delta: u32) -> int {
    (speed * delta) / 1_000_000
}

/// The speed at which a guard in `state` moves: it walks its round and runs
/// otherwise.
pub open spec fn pace_of(state: EnemyStateView, movement: Movement) -> u32 {
    if state is Idle {
        movement.speed
    } else {
        movement.running_speed
    }
}

/// Whether a guard halts for the player: it is alerted and has the player
/// within `HALT_DISTANCE`.
pub open spec fn halts(state: EnemyStateView, position: Vec2, player: Vec2) -> bool {
    state is Alert && position.dist_sq(player) < HALT_DISTANCE * HALT_DISTANCE
}

/// Whether `position` is within `ARRIVAL_DISTANCE` of `goal`.
pub open spec fn arrived(position: Vec2, goal: Vec2) -> bool {
    position.dist_sq(goal) < ARRIVAL_DISTANCE * ARRIVAL_DISTANCE
}

/// Whether a guard asks its round for the next goal: it is idle and has no
/// way point left.
pub open spec fn round_moves_on(state: EnemyStateView, path: Seq<Vec2>) -> bool {
    state is Idle && path.len() == 0
}

/// The goal that a guard needs a new route to, if any. `round` is the round
/// after it has moved on, where it does. `snapped` is the walkable point
/// nearest to the sighting of an alerted guard, if there is one.
///
/// An idle guard without way points heads for what its round names, and for
/// the spot it stands on when the round names nothing. An alerted guard heads
/// for the sighting unless its way points already end there.
pub open spec fn goal_of(
    state: EnemyStateView,
    round: EnemyMovementTypeView,
    path: Seq<Vec2>,
    position: Vec2,
    snapped: Option<Vec2>,
) -> Option<Vec2> {
    match state {
        EnemyStateView::Idle => {
            if path.len() == 0 {
                match round.target() {
                    Some(target) => Some(target),
                    None => Some(position),
                }
            } else {
                None
            }
        },
        EnemyStateView::Alert { .. } => {
            match snapped {
                Some(sighting) => {
                    if path.len() > 0 && path.last() == sighting {
                        None
                    } else {
                        Some(sighting)
                    }
                },
                None => None,
            }
        },
        EnemyStateView::Stun { .. } => None,
    }
}

/// The way points that a route leaves to walk: all but its first point, which
/// is where the walker stands.
pub open spec fn route_ahead(route: Seq<Vec2>) -> Seq<Vec2> {
    if route.len() == 0 {
        route
    } else {
        route.remove(0)
    }
}

/// The way points after the search for a route: a route that was found
/// takes their place, anything else leaves them.
pub open spec fn path_after(path: Seq<Vec2>, route: Route) -> Seq<Vec2> {
    match route {
        Route::Found(points) => route_ahead(points@),
        _ => path,
    }
}

/// What one tick of walking does to a guard.
pub struct Walk {
    pub position: Vec2,
    pub direction: Direction,
    /// The way points that are left.
    pub path: Seq<Vec2>,
    /// Whether the guard moved; `None` where the guard is not asked.
    pub walking: Option<bool>,
}

/// One tick of walking, `delta` microseconds long.
///
/// A stunned guard is left alone altogether. Any other guard takes the
/// route that was found for it. It is not asked to walk if it halts for the
/// player. It stands if no way to its goal was found in this tick, or if it
/// has no way point. Otherwise it steps toward its nearest way point as far
/// as its pace allows and no farther than the point, turns to face the way
/// it moved, and drops the point once it has arrived there.
pub open spec fn walk_of(
    state: EnemyStateView,
    movement: Movement,
    path: Seq<Vec2>,
    direction: Direction,
    position: Vec2,
    player: Vec2,
    route: Route,
    delta: u32,
) -> Walk {
    if state is Stun {
        Walk { position, direction, path, walking: None }
    } else {
        let path = path_after(path, route);
        if halts(state, position, player) {
            Walk { position, direction, path, walking: None }
        } else if route is NotFound || path.len() == 0 {
            Walk { position, direction, path, walking: Some(false) }
        } else {
            let goal = path[0];
            let to = position.spec_step_toward(goal, reach_of(pace_of(state, movement), delta));
            Walk {
                position: to,
                direction: if to != position {
                    facing_of(to.x - position.x, to.y - position.y)
                } else {
                    direction
                },
                path: if arrived(to, goal) {
                    path.remove(0)
                } else {
                    path
                },
                walking: Some(to != position),
            }
        }
    }
}

/// Decides whether a guard needs a new route, and to where; an area round
/// that moves on takes the point at the fractions `fx` and `fy` of its sides.
pub fn next_goal_at(
    state: &EnemyState,
    movement_type: &mut EnemyMovementType,
    movement_target: &EnemyMovementTarget,
    position: Vec2,
    snapped: Option<Vec2>,
    fx: u32,
    fy: u32,
) -> (goal: Option<Vec2>)
    requires
        old(movement_type)@.wf(),
    ensures
        final(movement_type)@ == if round_moves_on(state@, movement_target@) {
            old(movement_type)@.next(fx, fy)
        } else {
            old(movement_type)@
        },
        final(movement_type)@.wf(),
        goal == goal_of(state@, final(movement_type)@, movement_target@, position, snapped),
{
    match state {
        EnemyState::Idle => {
            if movement_target.path.len() == 0 {
                movement_type.move_to_next_at(fx, fy);
                match movement_type.target() {
                    Some(target) => Some(target),
                    None => Some(position),
                }
            } else {
                None
            }
        },
        EnemyState::Alert { .. } => {
            match snapped {
                Some(sighting) => {
                    let points: usize = movement_target.path.len();
                    if points > 0 && movement_target.path[points - 1] == sighting {
                        None
                    } else {
                        Some(sighting)
                    }
                },
                None => None,
            }
        },
        EnemyState::Stun { .. } => None,
    }
}

/// Decides whether a guard needs a new route, and to where; an area round
/// that moves on takes a point by chance.
pub fn next_goal(
    state: &EnemyState,
    movement_type: &mut EnemyMovementType,
    movement_target: &EnemyMovementTarget,
    position: Vec2,
    snapped: Option<Vec2>,
) -> (goal: Option<Vec2>)
    requires
        old(movement_type)@.wf(),
    ensures
        exists|fx: u32, fy: u32|
            final(movement_type)@ == if round_moves_on(state@, movement_target@) {
                #[trigger] old(movement_type)@.next(fx, fy)
            } else {
                old(movement_type)@
            },
        final(movement_type)@.wf(),
        goal == goal_of(state@, final(movement_type)@, movement_target@, position, snapped),
{
    let fx: u32 = random_u32();
    let fy: u32 = random_u32();
    next_goal_at(state, movement_type, movement_target, position, snapped, fx, fy)
}

/// Walks a guard for `delta` microseconds. `route` is what the search for
/// a route to the goal of `next_goal` gave, and `Route::Kept` where that
/// named no goal. The answer says whether the guard moved, and is `None`
/// where the guard was not asked to walk.
pub fn enemy_movement(
    state: &EnemyState,
    movement: &Movement,
    movement_target: &mut EnemyMovementTarget,
    direction: &mut Direction,
    position: &mut Vec2,
    player: Vec2,
    route: Route,
    delta: u32,
) -> (walking: Option<bool>)
    ensures
        ({
            let walk = walk_of(
                state@,
                *movement,
                old(movement_target)@,
                *old(direction),
                *old(position),
                player,
                route,
                delta,
            );
            &&& *final(position) == walk.position
            &&& *final(direction) == walk.direction
            &&& final(movement_target)@ == walk.path
            &&& walking == walk.walking
        }),
{
    if state.is_stunned() {
        return None;
    }
    let lost: bool = match route {
        Route::Found(points) => {
            let mut points: Vec<Vec2> = points;
            if points.len() > 0 {
                points.remove(0);
            }
            movement_target.path = points;
            false
        },
        Route::NotFound => true,
        Route::Kept => false,
    };
    if state.is_alert() && position.closer_than(player, HALT_DISTANCE) {
        return None;
    }
    if lost || movement_target.path.len() == 0 {
        return Some(false);
    }
    let goal: Vec2 = movement_target.path[0];
    let speed: u32 = match state {
        EnemyState::Idle => movement.speed,
        _ => movement.running_speed,
    };
    assert(speed * delta <= 0xFFFF_FFFF * 0xFFFF_FFFF) by (nonlinear_arith)
        requires
            0 <= speed <= 0xFFFF_FFFF,
            0 <= delta <= 0xFFFF_FFFF,
    ;
    let reach: u64 = (speed as u64) * (delta as u64) / 1_000_000;
    let from: Vec2 = *position;
    let to: Vec2 = from.step_toward(goal, reach);
    *position = to;
    let moved: bool = to != from;
    if moved {
        *direction = Direction::toward(from, to);
    }
    if to.closer_than(goal, ARRIVAL_DISTANCE) {
        movement_target.path.remove(0);
    }
    Some(moved)
}

/// A walk never carries a guard past its way point. A guard moves only
/// toward the nearest of its way points and ends no farther from it than it
/// was; it drops a way point only within `ARRIVAL_DISTANCE` of it, and then
/// only the nearest; and it stays where it is whenever it is stunned, halts
/// or has found no way.
pub proof fn lemma_walk_never_overshoots(
    state: EnemyStateView,
    movement: Movement,
    path: Seq<Vec2>,
    direction: Direction,
    position: Vec2,
    player: Vec2,
    route: Route,
    delta: u32,
)
    ensures
        ({
            let walk = walk_of(state, movement, path, direction, position, player, route, delta);
            let ahead = if state is Stun {
                path
            } else {
                path_after(path, route)
            };
            &&& ahead.len() > 0 ==> walk.position.dist_sq(ahead[0]) <= position.dist_sq(ahead[0])
            &&& ahead.len() == 0 ==> walk.position == position
            &&& walk.path == ahead || (ahead.len() > 0 && walk.path == ahead.remove(0) && arrived(
                walk.position,
                ahead[0],
            ))
            &&& (state is Stun || halts(state, position, player) || route is NotFound)
                ==> walk.position == position
        }),
{
    let ahead = if state is Stun {
        path
    } else {
        path_after(path, route)
    };
    if ahead.len() > 0 {
        lemma_step_never_overshoots(
            position,
            ahead[0],
            reach_of(pace_of(state, movement), delta),
        );
        assert(reach_of(pace_of(state, movement), delta) >= 0) by (nonlinear_arith)
            requires
                reach_of(pace_of(state, movement), delta) == (pace_of(state, movement) * delta)
                    / 1_000_000,
                pace_of(state, movement) >= 0,
                delta >= 0,
        ;
    }
}

/// The push that the first of two crowding guards gets, along each axis; the
/// second gets the opposite. It points from the second guard to the first and
/// is `REPULSION * delta` divided by their distance, each part rounded toward
/// zero. Guards on one spot are pushed as if the first stood one grid step to
/// the right.
pub open spec fn push_of(first: Vec2, second: Vec2, delta: u32) -> (int, int) {
    let gap = first.dist_sq(second);
    if gap == 0 {
        (REPULSION * delta, 0)
    } else {
        (
            scale_toward_zero(first.x - second.x, REPULSION * delta, gap),
            scale_toward_zero(first.y - second.y, REPULSION * delta, gap),
        )
    }
}

/// Whether two guards push each other apart: they are nearer than
/// `SEPARATION_RADIUS`, and not both stunned.
pub open spec fn crowding(
    first_state: EnemyStateView,
    second_state: EnemyStateView,
    first: Vec2,
    second: Vec2,
) -> bool {
    !(first_state is Stun && second_state is Stun) && first.dist_sq(second) < SEPARATION_RADIUS
        * SEPARATION_RADIUS
}

/// One part of a push: `gap_part * REPULSION * delta / gap`, rounded toward
/// zero.
fn push_part(gap_part: i64, delta: u32, gap: u128) -> (part: i64)
    requires
        -(SEPARATION_RADIUS as int) < gap_part < SEPARATION_RADIUS,
        0 < gap < SEPARATION_RADIUS * SEPARATION_RADIUS,
    ensures
        part == scale_toward_zero(gap_part as int, REPULSION * delta, gap as int),
        -0x7FFF_FFFF_FFFF_FFFF <= part <= 0x7FFF_FFFF_FFFF_FFFF,
{
    let weight: u64 = REPULSION * (delta as u64);
    let reach: u64 = if gap_part >= 0 {
        gap_part as u64
    } else {
        (-gap_part) as u64
    };
    assert(reach * weight <= 25_000 * (500 * 0xFFFF_FFFF)) by (nonlinear_arith)
        requires
            0 <= reach <= 25_000,
            0 <= weight <= 500 * 0xFFFF_FFFF,
    ;
    let scaled: u64 = reach * weight / (gap as u64);
    assert(scaled <= reach * weight) by (nonlinear_arith)
        requires
            scaled == (reach * weight) / (gap as int),
            0 <= reach * weight,
            0 < gap,
    ;
    if gap_part >= 0 {
        scaled as i64
    } else {
        -(scaled as i64)
    }
}

/// Proposes where two guards should stand to stop crowding each other: each
/// moved by its push, or `None` where they do not crowd. The proposals still
/// have to be brought onto walkable ground: see `settle`.
pub fn avoid_overlap(
    first: Vec2,
    first_state: &EnemyState,
    second: Vec2,
    second_state: &EnemyState,
    delta: u32,
) -> (proposal: Option<(Vec2, Vec2)>)
    ensures
        proposal == if crowding(first_state@, second_state@, first, second) {
            let (px, py) = push_of(first, second, delta);
            Some((first.spec_offset(px, py), second.spec_offset(-px, -py)))
        } else {
            None
        },
{
    if first_state.is_stunned() && second_state.is_stunned() {
        return None;
    }
    if !first.closer_than(second, SEPARATION_RADIUS) {
        return None;
    }
    let gap: u128 = first.distance_squared(second);
    let (px, py): (i64, i64) = if gap == 0 {
        (500 * (delta as i64), 0)
    } else {
        proof {
            lemma_parts_within(first, second, SEPARATION_RADIUS as int);
        }
        (
            push_part(first.x as i64 - second.x as i64, delta, gap),
            push_part(first.y as i64 - second.y as i64, delta, gap),
        )
    };
    Some((first.offset(px, py), second.offset(-px, -py)))
}

/// Where a guard stands after a proposed move was brought onto walkable
/// ground: on the walkable point found for it, or, where none was found, on
/// the spot it stood on.
pub fn settle(position: Vec2, snapped: Option<Vec2>) -> (p: Vec2)
    ensures
        p == match snapped {
            Some(walkable) => walkable,
            None => position,
        },
{
    match snapped {
        Some(walkable) => walkable,
        None => position,
    }
}

/// Two points nearer than `radius` differ by less than `radius` along each
/// axis.
pub proof fn lemma_parts_within(a: Vec2, b: Vec2, radius: int)
    requires
        radius >= 0,
        a.dist_sq(b) < radius * radius,
    ensures
        -radius < a.x - b.x < radius,
        -radius < a.y - b.y < radius,
{
    let dx: int = a.x - b.x;
    let dy: int = a.y - b.y;
    assert(dx * dx >= 0 && dy * dy >= 0) by (nonlinear_arith);
    if dx >= radius {
        lemma_square_monotonic(radius, dx);
    }
    if -dx >= radius {
        lemma_square_monotonic(radius, -dx);
        assert((-dx) * (-dx) == dx * dx) by (nonlinear_arith);
    }
    if dy >= radius {
        lemma_square_monotonic(radius, dy);
    }
    if -dy >= radius {
        lemma_square_monotonic(radius, -dy);
        assert((-dy) * (-dy) == dy * dy) by (nonlinear_arith);
    }
}

/// What rounding toward zero takes from a scaled part is less than one.
proof fn lemma_scale_error(d: int, weight: int, gap: int)
    requires
        weight >= 0,
        gap > 0,
    ensures
        ({
            let part = scale_toward_zero(d, weight, gap);
            &&& -gap < weight * d - gap * part < gap
            &&& d >= 0 ==> part >= 0
            &&& d <= 0 ==> part <= 0
        }),
{
    let m: int = if d >= 0 { d } else { -d };
    let q: int = (m * weight) / gap;
    assert(0 <= m * weight - gap * q < gap && q >= 0 && (m == 0 ==> q == 0)) by (nonlinear_arith)
        requires
            q == (m * weight) / gap,
            0 <= m,
            0 <= weight,
            0 < gap,
    ;
    let part = scale_toward_zero(d, weight, gap);
    if d >= 0 {
        assert(weight * d == m * weight) by (nonlinear_arith)
            requires
                m == d,
        ;
    } else {
        assert(weight * d == -(m * weight)) by (nonlinear_arith)
            requires
                m == -d,
        ;
        assert(gap * part == -(gap * q)) by (nonlinear_arith)
            requires
                part == -q,
        ;
    }
}

/// A product of two bounded numbers is bounded by the product of the bounds.
proof fn lemma_product_bound(a: int, b: int, bound: int)
    requires
        -bound <= a <= bound,
    ensures
        -(bound * abs(b)) <= a * b <= bound * abs(b),
{
    let m: int = abs(b) as int;
    assert(-(bound * m) <= a * b <= bound * m) by (nonlinear_arith)
        requires
            -bound <= a <= bound,
            m >= 0,
            b == m || b == -m,
    ;
}

/// Two crowding guards are pushed along the line that joins them. The push
/// of the first points away from the second along both axes, and it leaves
/// that line by no more than rounding takes: the area it spans with the line
/// from the second guard to the first is at most the sum of that line's two
/// parts.
pub proof fn lemma_push_follows_axis(first: Vec2, second: Vec2, delta: u32)
    ensures
        ({
            let (px, py) = push_of(first, second, delta);
            let vx = first.x - second.x;
            let vy = first.y - second.y;
            &&& vx >= 0 ==> px >= 0
            &&& vx <= 0 && first != second ==> px <= 0
            &&& vy >= 0 ==> py >= 0
            &&& vy <= 0 ==> py <= 0
            &&& abs(px * vy - py * vx) <= abs(vx) + abs(vy)
        }),
{
    let (px, py) = push_of(first, second, delta);
    let vx: int = first.x - second.x;
    let vy: int = first.y - second.y;
    let gap = first.dist_sq(second);
    let weight: int = REPULSION * delta;
    lemma_dist_sq_symmetric(first, second);
    assert(gap == vx * vx + vy * vy);
    if gap == 0 {
        assert(vx == 0 && vy == 0) by (nonlinear_arith)
            requires
                vx * vx + vy * vy == 0,
        ;
        assert(px * vy - py * vx == 0) by (nonlinear_arith)
            requires
                vx == 0,
                vy == 0,
        ;
    } else {
        lemma_scale_error(vx, weight, gap);
        lemma_scale_error(vy, weight, gap);
        let ex: int = weight * vx - gap * px;
        let ey: int = weight * vy - gap * py;
        let cross: int = px * vy - py * vx;
        assert(gap * cross == ey * vx - ex * vy) by (nonlinear_arith)
            requires
                ex == weight * vx - gap * px,
                ey == weight * vy - gap * py,
                cross == px * vy - py * vx,
        ;
        lemma_product_bound(ex, vy, gap - 1);
        lemma_product_bound(ey, vx, gap - 1);
        let span: int = (abs(vx) + abs(vy)) as int;
        assert((gap - 1) * abs(vy) + (gap - 1) * abs(vx) == (gap - 1) * span) by (nonlinear_arith)
            requires
                span == abs(vx) + abs(vy),
        ;
        assert(-span <= cross <= span) by (nonlinear_arith)
            requires
                -((gap - 1) * span) <= gap * cross <= (gap - 1) * span,
                gap > 0,
                span >= 0,
        ;
    }
}

/// A push never brings two guards nearer to each other: along each axis the
/// proposed places are at least as far apart as the guards were, and on the
/// same sides.
pub proof fn lemma_push_keeps_apart(first: Vec2, second: Vec2, delta: u32)
    ensures
        ({
            let (px, py) = push_of(first, second, delta);
            let a = first.spec_offset(px, py);
            let b = second.spec_offset(-px, -py);
            &&& first.x >= second.x ==> a.x - b.x >= first.x - second.x
            &&& first.x <= second.x && first != second ==> a.x - b.x <= first.x - second.x
            &&& first.y >= second.y ==> a.y - b.y >= first.y - second.y
            &&& first.y <= second.y ==> a.y - b.y <= first.y - second.y
        }),
{
    lemma_push_follows_axis(first, second, delta);
}

} // verus!
