use drug_test::enemy::sight::{ray_decides, see_player, ALWAYS_DETECT_RADIUS, ENEMY_SIGHT};
use drug_test::enemy::EnemyState;
use drug_test::geometry::Vec2;
use drug_test::unit::Direction;

const PLAYER: u64 = 42;
const WALL: u64 = 7;

#[test]
fn constants_of_sight() {
    assert_eq!(ALWAYS_DETECT_RADIUS, 15_000);
    assert_eq!(ENEMY_SIGHT, 35_000_000);
}

#[test]
fn idle_guard_sees_the_player_it_faces() {
    let mut state = EnemyState::Idle;
    let player = Vec2::new(0, 200_000);
    let seen = see_player(&mut state, Direction::Up, Vec2::zero(), player, Some(PLAYER), PLAYER, false);
    assert!(seen);
    assert_eq!(state, EnemyState::Alert { target: player });
}

#[test]
fn idle_guard_misses_the_player_behind_it() {
    let player = Vec2::new(0, 200_000);
    for facing in [Direction::Down, Direction::Left, Direction::Right] {
        let mut state = EnemyState::Idle;
        let seen = see_player(&mut state, facing, Vec2::zero(), player, Some(PLAYER), PLAYER, false);
        assert!(!seen);
        assert_eq!(state, EnemyState::Idle);
    }
}

#[test]
fn alerted_guard_looks_all_around() {
    let player = Vec2::new(0, 200_000);
    for facing in [Direction::Up, Direction::Down, Direction::Left, Direction::Right] {
        let mut state = EnemyState::Alert { target: Vec2::new(1, 1) };
        let seen = see_player(&mut state, facing, Vec2::zero(), player, Some(PLAYER), PLAYER, false);
        assert!(seen);
        assert_eq!(state, EnemyState::Alert { target: player });
    }
}

#[test]
fn blocked_ray_hides_the_player() {
    let player = Vec2::new(0, 200_000);
    for hit in [None, Some(WALL)] {
        let mut state = EnemyState::Idle;
        assert!(!see_player(&mut state, Direction::Up, Vec2::zero(), player, hit, PLAYER, false));
        assert_eq!(state, EnemyState::Idle);
    }
}

#[test]
fn invisible_player_is_not_seen_from_afar() {
    let player = Vec2::new(0, 200_000);
    let mut state = EnemyState::Idle;
    assert!(!see_player(&mut state, Direction::Up, Vec2::zero(), player, Some(PLAYER), PLAYER, true));
    assert_eq!(state, EnemyState::Idle);
}

#[test]
fn losing_sight_sends_an_alerted_guard_back_to_its_round() {
    let player = Vec2::new(0, 200_000);
    let mut state = EnemyState::Alert { target: Vec2::new(5, 5) };
    assert!(!see_player(&mut state, Direction::Up, Vec2::zero(), player, Some(WALL), PLAYER, false));
    assert_eq!(state, EnemyState::Idle);
}

#[test]
fn player_within_reach_is_always_noticed() {
    let player = Vec2::new(-9_000, -11_999);
    let mut state = EnemyState::Idle;
    assert!(see_player(&mut state, Direction::Up, Vec2::zero(), player, None, PLAYER, true));
    assert_eq!(state, EnemyState::Alert { target: player });
    let mut state = EnemyState::Idle;
    assert!(see_player(&mut state, Direction::Up, Vec2::zero(), Vec2::zero(), Some(WALL), PLAYER, true));
    assert_eq!(state, EnemyState::Alert { target: Vec2::zero() });
}

#[test]
fn reach_ends_at_fifteen_units() {
    let player = Vec2::new(-9_000, -12_000);
    let mut state = EnemyState::Idle;
    assert!(!see_player(&mut state, Direction::Up, Vec2::zero(), player, None, PLAYER, false));
    assert_eq!(state, EnemyState::Idle);
}

#[test]
fn stunned_guard_sees_nothing() {
    let mut state = EnemyState::stunned(1_000_000);
    let before = state;
    let player = Vec2::new(0, 1_000);
    assert!(!see_player(&mut state, Direction::Up, Vec2::zero(), player, Some(PLAYER), PLAYER, false));
    assert_eq!(state, before);
}

#[test]
fn ray_is_needed_only_where_it_decides() {
    let here = Vec2::zero();
    let far = Vec2::new(0, 200_000);
    let near = Vec2::new(0, 10_000);
    assert!(ray_decides(&EnemyState::Idle, Direction::Up, here, far));
    assert!(!ray_decides(&EnemyState::Idle, Direction::Left, here, far));
    assert!(ray_decides(&EnemyState::Alert { target: here }, Direction::Left, here, far));
    assert!(!ray_decides(&EnemyState::Idle, Direction::Up, here, near));
    assert!(!ray_decides(&EnemyState::stunned(5), Direction::Up, here, far));
}

#[test]
fn guard_keeps_its_round_when_every_condition_fails() {
    let here = Vec2::new(100, 100);
    let players = [Vec2::new(100, 15_100), Vec2::new(-40_000, 100), Vec2::new(20_000, -20_000)];
    for player in players {
        for facing in [Direction::Up, Direction::Down, Direction::Left, Direction::Right] {
            for (hit, invisible) in [(None, false), (Some(WALL), false), (Some(PLAYER), true)] {
                let mut state = EnemyState::Idle;
                assert!(!see_player(&mut state, facing, here, player, hit, PLAYER, invisible));
                assert_eq!(state, EnemyState::Idle);
            }
        }
    }
}
