use drug_test::actions::BurstActions;
use drug_test::enemy::EnemyState;
use drug_test::geometry::Vec2;
use drug_test::pill::{Pill, PillEffect};
use drug_test::player::effect::{
    affect_enemy, affect_player, any_heal, execute_pill_effect, execute_pill_effects,
    update_effect,
    Dizziness, EffectColor, EffectVisuals, Invincibility, Invisibility, MovementBoost,
    PlayerEffects, Sound, Temporary, Vulnerability, SNEEZE_RADIUS, TOXIC_FART_RADIUS,
    TOXIC_FART_STUN,
};
use drug_test::player::inventory::{consume_pills, Inventory};
use drug_test::player::{
    player_movement, punch_enemies, resolve_player_move, PunchTimer, PUNCH_COOLDOWN, PUNCH_RANGE,
    PUNCH_STUN,
};
use drug_test::timer::{Timer, TimerMode};
use drug_test::unit::{Direction, Health, Movement};

fn pill(main_effect: PillEffect, side_effect: PillEffect) -> Pill {
    Pill { main_effect, side_effect }
}

fn heal_pill() -> Pill {
    pill(PillEffect::Heal { amount: 15_000 }, PillEffect::Sneeze)
}

fn fart_pill() -> Pill {
    pill(PillEffect::ToxicFart, PillEffect::Dizziness { duration: 5_000_000 })
}

fn once(duration: u64) -> Timer {
    Timer::new(duration, TimerMode::Once)
}

#[test]
fn inventory_takes_pills_up_to_its_capacity() {
    let mut inv = Inventory::new(2);
    assert_eq!(inv.get_capacity(), 2);
    assert_eq!(inv.get_pill_count(), 0);
    assert!(inv.add_pill(heal_pill()));
    assert!(inv.add_pill(fart_pill()));
    assert!(!inv.add_pill(heal_pill()));
    assert_eq!(inv.get_pill_count(), 2);
    assert_eq!(inv.get_pills(), [heal_pill(), fart_pill()].as_slice());
}

#[test]
fn inventory_without_room_takes_nothing() {
    let mut inv = Inventory::new(0);
    assert!(!inv.add_pill(heal_pill()));
    assert_eq!(inv.get_pill_count(), 0);
    assert!(inv.get_pills().is_empty());
}

#[test]
fn inventory_shows_the_pill_in_a_slot() {
    let mut inv = Inventory::new(3);
    let _ = inv.add_pill(heal_pill());
    let _ = inv.add_pill(fart_pill());
    assert_eq!(inv.get_pill(0), Some(&heal_pill()));
    assert_eq!(inv.get_pill(1), Some(&fart_pill()));
    assert_eq!(inv.get_pill(2), None);
    assert_eq!(inv.get_pill(usize::MAX), None);
}

#[test]
fn removed_pill_lets_the_others_move_up() {
    let mut inv = Inventory::new(3);
    let _ = inv.add_pill(heal_pill());
    let _ = inv.add_pill(fart_pill());
    let _ = inv.add_pill(Pill::default());
    assert_eq!(inv.remove_pill(1), fart_pill());
    assert_eq!(inv.get_pills(), [heal_pill(), Pill::default()].as_slice());
    assert_eq!(inv.get_capacity(), 3);
    assert!(inv.add_pill(fart_pill()));
}

#[test]
fn consuming_an_empty_slot_gives_nothing() {
    let mut inv = Inventory::new(3);
    let _ = inv.add_pill(heal_pill());
    assert_eq!(inv.consume_pill(1), None);
    assert_eq!(inv.get_pill_count(), 1);
    assert_eq!(inv.consume_pill(0), Some(heal_pill()));
    assert_eq!(inv.get_pill_count(), 0);
    assert_eq!(inv.consume_pill(0), None);
}

#[test]
fn pills_are_consumed_in_the_order_of_the_requests() {
    let mut inv = Inventory::new(3);
    let _ = inv.add_pill(heal_pill());
    let _ = inv.add_pill(fart_pill());
    let _ = inv.add_pill(Pill::default());
    let actions = vec![
        BurstActions::ConsumePill { index: 2 },
        BurstActions::Punch,
        BurstActions::ConsumePill { index: 2 },
        BurstActions::ConsumePill { index: 0 },
        BurstActions::ConsumePill { index: 0 },
        BurstActions::ConsumePill { index: 0 },
    ];
    let pills = consume_pills(&mut inv, &actions);
    assert_eq!(pills, vec![Pill::default(), heal_pill(), fart_pill()]);
    assert_eq!(inv.get_pill_count(), 0);
    assert_eq!(inv.get_capacity(), 3);
}

#[test]
fn no_requests_consume_no_pills() {
    let mut inv = Inventory::new(3);
    let _ = inv.add_pill(heal_pill());
    assert_eq!(consume_pills(&mut inv, &Vec::new()), Vec::new());
    assert_eq!(consume_pills(&mut inv, &vec![BurstActions::Punch]), Vec::new());
    assert_eq!(inv.get_pills(), [heal_pill()].as_slice());
}

#[test]
fn effects_have_names() {
    assert_eq!(MovementBoost { multiplier: 1_500, timer: once(1) }.get_name(), "Speed Boost");
    assert_eq!(MovementBoost { multiplier: 1_001, timer: once(1) }.get_name(), "Speed Boost");
    assert_eq!(MovementBoost { multiplier: 1_000, timer: once(1) }.get_name(), "Speed Debuff");
    assert_eq!(MovementBoost { multiplier: 500, timer: once(1) }.get_name(), "Speed Debuff");
    assert_eq!(Invisibility { timer: once(1) }.get_name(), "Invisibility");
    assert_eq!(Invincibility { timer: once(1) }.get_name(), "Invincibility");
    assert_eq!(Dizziness { timer: once(1) }.get_name(), "Dizziness");
    assert_eq!(Vulnerability { amount: 2_000, timer: once(1) }.get_name(), "Vulnerability");
}

#[test]
fn effects_have_colours() {
    assert_eq!(
        MovementBoost { multiplier: 1_500, timer: once(1) }.get_color(),
        EffectColor::Rgb(0xea, 0xc5, 0x16)
    );
    assert_eq!(
        MovementBoost { multiplier: 1_000, timer: once(1) }.get_color(),
        EffectColor::Rgb(0xda, 0xa1, 0x1d)
    );
    assert_eq!(Invisibility { timer: once(1) }.get_color(), EffectColor::Rgb(0x00, 0xec, 0xc7));
    assert_eq!(Invincibility { timer: once(1) }.get_color(), EffectColor::Rgb(0xdf, 0xc1, 0xff));
    assert_eq!(
        Vulnerability { amount: 1, timer: once(1) }.get_color(),
        EffectColor::Rgb(0xfc, 0x62, 0x0a)
    );
}

#[test]
fn dizziness_runs_through_the_hues() {
    let mut dizzy = Dizziness { timer: once(5_000_000) };
    assert_eq!(dizzy.get_color(), EffectColor::Hue(0));
    dizzy.timer.tick(1_250_000);
    assert_eq!(dizzy.get_color(), EffectColor::Hue(90_000));
    dizzy.timer.tick(1);
    assert_eq!(dizzy.get_color(), EffectColor::Hue(90_000));
    dizzy.timer.tick(3_000_000);
    assert_eq!(dizzy.get_color(), EffectColor::Hue(306_000));
    dizzy.timer.tick(3_000_000);
    assert_eq!(dizzy.get_color(), EffectColor::Hue(360_000));
    assert_eq!(Dizziness { timer: once(0) }.get_color(), EffectColor::Hue(0));
}

#[test]
fn effect_ends_when_its_timer_has_run_down() {
    let mut boost = MovementBoost { multiplier: 1_500, timer: once(5_000_000) };
    assert!(!update_effect(&mut boost, 4_999_999));
    assert_eq!(boost.timer.elapsed(), 4_999_999);
    assert!(update_effect(&mut boost, 1));
    assert!(!update_effect(&mut boost, 1));
    assert_eq!(boost.multiplier, 1_500);
    let mut hidden = Invisibility { timer: once(3_000_000) };
    assert!(update_effect(&mut hidden, 3_000_000));
    let mut weak = Vulnerability { amount: 2_000, timer: once(1) };
    assert!(!update_effect(&mut weak, 0));
    assert!(update_effect(&mut weak, 9));
}

#[test]
fn timer_of_an_effect_can_be_changed_through_the_trait() {
    let mut safe = Invincibility { timer: once(3_000_000) };
    safe.get_timer().tick(1_000_000);
    assert_eq!(safe.timer.elapsed(), 1_000_000);
    let mut dizzy = Dizziness { timer: once(3_000_000) };
    dizzy.get_timer().tick(3_000_000);
    assert!(dizzy.timer.finished());
}

#[test]
fn toxic_fart_stuns_guards_within_its_radius() {
    assert_eq!(TOXIC_FART_RADIUS, 150_000);
    assert_eq!(TOXIC_FART_STUN, 5_000_000);
    let player = Vec2::zero();
    for before in [EnemyState::Idle, EnemyState::Alert { target: player }, EnemyState::stunned(9)] {
        let mut state = before;
        affect_enemy(PillEffect::ToxicFart, &mut state, Vec2::new(149_999, 0), player);
        assert_eq!(state, EnemyState::stunned(5_000_000));
        let mut state = before;
        affect_enemy(PillEffect::ToxicFart, &mut state, Vec2::new(150_000, 0), player);
        assert_eq!(state, before);
    }
}

#[test]
fn sneeze_alerts_guards_that_are_not_stunned() {
    assert_eq!(SNEEZE_RADIUS, 450_000);
    let player = Vec2::new(10, 10);
    let mut state = EnemyState::Idle;
    affect_enemy(PillEffect::Sneeze, &mut state, Vec2::new(10, 450_009), player);
    assert_eq!(state, EnemyState::Alert { target: player });
    let mut state = EnemyState::Idle;
    affect_enemy(PillEffect::Sneeze, &mut state, Vec2::new(10, 450_010), player);
    assert_eq!(state, EnemyState::Idle);
    let mut state = EnemyState::stunned(77);
    affect_enemy(PillEffect::Sneeze, &mut state, Vec2::new(10, 11), player);
    assert_eq!(state, EnemyState::stunned(77));
}

#[test]
fn other_effects_do_not_reach_the_guards() {
    for effect in [
        PillEffect::Heal { amount: 15_000 },
        PillEffect::Speed { amount: 1_500, duration: 1 },
        PillEffect::Invisibility { duration: 1 },
        PillEffect::Invincibility { duration: 1 },
        PillEffect::Dizziness { duration: 1 },
        PillEffect::Vulnerability { amount: 2_000, duration: 1 },
    ] {
        let mut state = EnemyState::Idle;
        affect_enemy(effect, &mut state, Vec2::zero(), Vec2::zero());
        assert_eq!(state, EnemyState::Idle);
    }
}

#[test]
fn effects_on_the_player() {
    let mut health = Health::new(100_000);
    health.set_health(50_000);
    let mut effects = PlayerEffects::default();
    assert_eq!(affect_player(PillEffect::Heal { amount: 15_000 }, &mut health, &mut effects), None);
    assert_eq!(health.get_health(), 65_000);
    assert_eq!(effects, PlayerEffects::default());
    let speed = PillEffect::Speed { amount: 1_500, duration: 5_000_000 };
    assert_eq!(affect_player(speed, &mut health, &mut effects), None);
    assert_eq!(
        effects.movement_boost,
        Some(MovementBoost { multiplier: 1_500, timer: once(5_000_000) })
    );
    assert_eq!(affect_player(PillEffect::ToxicFart, &mut health, &mut effects), Some(Sound::Fart));
    assert_eq!(affect_player(PillEffect::Sneeze, &mut health, &mut effects), Some(Sound::Sneeze));
    let hide = PillEffect::Invisibility { duration: 3_000_000 };
    assert_eq!(affect_player(hide, &mut health, &mut effects), None);
    assert_eq!(effects.invisibility, Some(Invisibility { timer: once(3_000_000) }));
    let safe = PillEffect::Invincibility { duration: 3_000_000 };
    assert_eq!(affect_player(safe, &mut health, &mut effects), None);
    assert_eq!(effects.invincibility, Some(Invincibility { timer: once(3_000_000) }));
    let dizzy = PillEffect::Dizziness { duration: 5_000_000 };
    assert_eq!(affect_player(dizzy, &mut health, &mut effects), None);
    assert_eq!(effects.dizziness, Some(Dizziness { timer: once(5_000_000) }));
    let weak = PillEffect::Vulnerability { amount: 2_000, duration: 5_000_000 };
    assert_eq!(affect_player(weak, &mut health, &mut effects), None);
    assert_eq!(
        effects.vulnerability,
        Some(Vulnerability { amount: 2_000, timer: once(5_000_000) })
    );
    assert_eq!(health.get_health(), 65_000);
    assert_eq!(health.get_max_health(), 100_000);
}

#[test]
fn new_effect_replaces_an_older_one_of_its_kind() {
    let mut health = Health::default();
    let mut effects = PlayerEffects::default();
    let mut old = MovementBoost { multiplier: 500, timer: once(5_000_000) };
    old.timer.tick(4_000_000);
    effects.movement_boost = Some(old);
    let speed = PillEffect::Speed { amount: 1_500, duration: 2_000_000 };
    let _ = affect_player(speed, &mut health, &mut effects);
    assert_eq!(
        effects.movement_boost,
        Some(MovementBoost { multiplier: 1_500, timer: once(2_000_000) })
    );
}

#[test]
fn one_effect_works_on_the_player_and_on_every_guard() {
    let mut health = Health::default();
    let mut effects = PlayerEffects::default();
    let mut states = vec![EnemyState::Idle, EnemyState::Idle, EnemyState::stunned(1)];
    let positions = vec![Vec2::new(100_000, 0), Vec2::new(200_000, 0), Vec2::new(0, 0)];
    let sound = execute_pill_effect(
        PillEffect::ToxicFart,
        &mut health,
        &mut effects,
        Vec2::zero(),
        &mut states,
        &positions,
    );
    assert_eq!(sound, Some(Sound::Fart));
    assert_eq!(
        states,
        vec![EnemyState::stunned(5_000_000), EnemyState::Idle, EnemyState::stunned(5_000_000)]
    );
}

#[test]
fn swallowed_pills_work_one_after_the_other() {
    let mut health = Health::new(100_000);
    health.set_health(95_000);
    let mut effects = PlayerEffects::default();
    let player = Vec2::zero();
    let mut states = vec![EnemyState::Idle, EnemyState::Idle, EnemyState::Idle];
    let positions = vec![Vec2::new(100_000, 0), Vec2::new(200_000, 0), Vec2::new(500_000, 0)];
    let pills = vec![
        pill(PillEffect::Heal { amount: 15_000 }, PillEffect::Sneeze),
        pill(PillEffect::ToxicFart, PillEffect::Heal { amount: -10_000 }),
        pill(
            PillEffect::Speed { amount: 1_500, duration: 5_000_000 },
            PillEffect::Speed { amount: 500, duration: 5_000_000 },
        ),
    ];
    let sounds =
        execute_pill_effects(&pills, &mut health, &mut effects, player, &mut states, &positions);
    assert_eq!(sounds, vec![Sound::Sneeze, Sound::Fart]);
    // healed to the greatest health first, harmed after
    assert_eq!(health.get_health(), 90_000);
    assert_eq!(
        states,
        vec![
            EnemyState::stunned(5_000_000),
            EnemyState::Alert { target: player },
            EnemyState::Idle,
        ]
    );
    assert_eq!(
        effects.movement_boost,
        Some(MovementBoost { multiplier: 500, timer: once(5_000_000) })
    );
    assert_eq!(effects.dizziness, None);
}

#[test]
fn sneeze_after_a_fart_leaves_the_stunned_alone() {
    let mut health = Health::default();
    let mut effects = PlayerEffects::default();
    let mut states = vec![EnemyState::Idle, EnemyState::Idle];
    let positions = vec![Vec2::new(100_000, 0), Vec2::new(200_000, 0)];
    let pills = vec![pill(PillEffect::ToxicFart, PillEffect::Sneeze)];
    let sounds = execute_pill_effects(
        &pills,
        &mut health,
        &mut effects,
        Vec2::new(1, 1),
        &mut states,
        &positions,
    );
    assert_eq!(sounds, vec![Sound::Fart, Sound::Sneeze]);
    assert_eq!(
        states,
        vec![EnemyState::stunned(5_000_000), EnemyState::Alert { target: Vec2::new(1, 1) }]
    );
}

#[test]
fn no_pills_no_effects() {
    let mut health = Health::default();
    let mut effects = PlayerEffects::default();
    let mut states = vec![EnemyState::Idle];
    let positions = vec![Vec2::zero()];
    let sounds = execute_pill_effects(
        &Vec::new(),
        &mut health,
        &mut effects,
        Vec2::zero(),
        &mut states,
        &positions,
    );
    assert!(sounds.is_empty());
    assert_eq!(health, Health::default());
    assert_eq!(effects, PlayerEffects::default());
    assert_eq!(states, vec![EnemyState::Idle]);
}

#[test]
fn punch_timer_allows_a_punch_every_two_and_a_half_seconds() {
    assert_eq!(PUNCH_COOLDOWN, 2_500_000);
    assert_eq!(PUNCH_RANGE, 50_000);
    assert_eq!(PUNCH_STUN, 1_500_000);
    let t = PunchTimer::default();
    assert_eq!(t.0.duration(), 2_500_000);
    assert_eq!(t.0.mode(), TimerMode::Once);
}

#[test]
fn punch_stuns_the_guards_in_front() {
    let mut timer = PunchTimer::default();
    let player = Vec2::new(1_000, 1_000);
    let positions = vec![
        Vec2::new(1_000, 40_000),
        Vec2::new(1_000, 51_000),
        Vec2::new(40_000, 1_000),
        Vec2::new(1_000, -20_000),
        Vec2::new(20_000, 21_000),
    ];
    let mut states = vec![
        EnemyState::Idle,
        EnemyState::Idle,
        EnemyState::Idle,
        EnemyState::Alert { target: player },
        EnemyState::stunned(9_000_000),
    ];
    let actions = vec![BurstActions::ConsumePill { index: 0 }, BurstActions::Punch];
    let punched = punch_enemies(
        &mut timer,
        player,
        Direction::Up,
        &actions,
        &mut states,
        &positions,
        2_500_000,
    );
    assert!(punched);
    assert_eq!(
        states,
        vec![
            EnemyState::stunned(1_500_000),
            EnemyState::Idle,
            EnemyState::Idle,
            EnemyState::Alert { target: player },
            EnemyState::stunned(1_500_000),
        ]
    );
    assert_eq!(timer, PunchTimer::default());
}

#[test]
fn punch_has_to_wait_for_its_timer() {
    let mut timer = PunchTimer::default();
    let player = Vec2::zero();
    let positions = vec![Vec2::new(0, 10_000)];
    let mut states = vec![EnemyState::Idle];
    let actions = vec![BurstActions::Punch, BurstActions::Punch];
    let punched =
        punch_enemies(&mut timer, player, Direction::Up, &actions, &mut states, &positions, 2_499_999);
    assert!(!punched);
    assert_eq!(states, vec![EnemyState::Idle]);
    assert_eq!(timer.0.elapsed(), 2_499_999);
    let punched =
        punch_enemies(&mut timer, player, Direction::Up, &actions, &mut states, &positions, 1);
    assert!(punched);
    assert_eq!(states, vec![EnemyState::stunned(1_500_000)]);
    assert_eq!(timer.0.elapsed(), 0);
    assert!(!timer.0.finished());
}

#[test]
fn no_punch_without_the_asking() {
    let mut timer = PunchTimer::default();
    let positions = vec![Vec2::new(0, 10_000)];
    let mut states = vec![EnemyState::Idle];
    let actions = vec![BurstActions::ConsumePill { index: 1 }];
    let punched = punch_enemies(
        &mut timer,
        Vec2::zero(),
        Direction::Up,
        &actions,
        &mut states,
        &positions,
        3_000_000,
    );
    assert!(!punched);
    assert_eq!(states, vec![EnemyState::Idle]);
    assert!(timer.0.finished());
    assert_eq!(timer.0.elapsed(), 2_500_000);
}

#[test]
fn player_strides_along_its_input() {
    let movement = Movement { speed: 500_000, running_speed: 250_000 };
    let mut direction = Direction::Down;
    // 500 units a second for a hundredth of a second are 5 units
    let stride =
        player_movement(Vec2::new(1_000, 0), &movement, None, false, &mut direction, 10_000);
    assert_eq!(stride, Vec2::new(5_000, 0));
    assert_eq!(direction, Direction::Right);
    let stride =
        player_movement(Vec2::new(0, -1_000), &movement, None, false, &mut direction, 10_000);
    assert_eq!(stride, Vec2::new(0, -5_000));
    assert_eq!(direction, Direction::Down);
}

#[test]
fn diagonal_stride_is_no_longer_than_a_straight_one() {
    let movement = Movement { speed: 500_000, running_speed: 250_000 };
    let mut direction = Direction::Down;
    // the input is 1414.2 long, counted as 1415: 1000 * 5000 / 1415 = 3533
    let stride =
        player_movement(Vec2::new(1_000, 1_000), &movement, None, false, &mut direction, 10_000);
    assert_eq!(stride, Vec2::new(3_533, 3_533));
    assert_eq!(direction, Direction::Up);
    let stride =
        player_movement(Vec2::new(-1_000, 1_000), &movement, None, false, &mut direction, 10_000);
    assert_eq!(stride, Vec2::new(-3_533, 3_533));
    assert_eq!(direction, Direction::Up);
}

#[test]
fn boost_scales_the_stride() {
    let movement = Movement { speed: 500_000, running_speed: 250_000 };
    let mut direction = Direction::Down;
    let input = Vec2::new(-1_000, 0);
    assert_eq!(
        player_movement(input, &movement, Some(1_500), false, &mut direction, 10_000),
        Vec2::new(-7_500, 0)
    );
    assert_eq!(direction, Direction::Left);
    assert_eq!(
        player_movement(input, &movement, Some(500), false, &mut direction, 10_000),
        Vec2::new(-2_500, 0)
    );
    assert_eq!(
        player_movement(input, &movement, Some(0), false, &mut direction, 10_000),
        Vec2::zero()
    );
    assert_eq!(direction, Direction::Left);
}

#[test]
fn dizzy_player_strides_the_other_way() {
    let movement = Movement { speed: 500_000, running_speed: 250_000 };
    let mut direction = Direction::Down;
    let stride =
        player_movement(Vec2::new(1_000, 0), &movement, None, true, &mut direction, 10_000);
    assert_eq!(stride, Vec2::new(-5_000, 0));
    assert_eq!(direction, Direction::Left);
}

#[test]
fn no_input_no_stride() {
    let movement = Movement { speed: 500_000, running_speed: 250_000 };
    let mut direction = Direction::Left;
    let stride = player_movement(Vec2::zero(), &movement, None, false, &mut direction, 10_000);
    assert_eq!(stride, Vec2::zero());
    assert_eq!(direction, Direction::Left);
}

#[test]
fn longest_stride_stops_at_the_ends_of_the_grid() {
    let movement = Movement { speed: u32::MAX, running_speed: 0 };
    let mut direction = Direction::Left;
    let stride = player_movement(
        Vec2::new(1, -1),
        &movement,
        Some(u32::MAX),
        false,
        &mut direction,
        u32::MAX,
    );
    assert_eq!(stride, Vec2::new(i32::MAX, i32::MIN));
    let stride = player_movement(
        Vec2::new(1, -1),
        &movement,
        Some(u32::MAX),
        true,
        &mut direction,
        u32::MAX,
    );
    assert_eq!(stride, Vec2::new(i32::MIN, i32::MAX));
}

#[test]
fn free_player_moves_by_its_stride() {
    let (to, moved) = resolve_player_move(Vec2::new(10, 10), Vec2::new(5, -7), None, None);
    assert_eq!(to, Vec2::new(15, 3));
    assert!(moved);
    let (to, moved) = resolve_player_move(Vec2::new(10, 10), Vec2::zero(), None, None);
    assert_eq!(to, Vec2::new(10, 10));
    assert!(!moved);
}

#[test]
fn blocked_axis_holds_the_player() {
    let here = Vec2::new(10, 10);
    let stride = Vec2::new(5_000, -7_000);
    assert_eq!(resolve_player_move(here, stride, Some(300), None), (Vec2::new(10, -6_990), true));
    assert_eq!(resolve_player_move(here, stride, None, Some(1_000)), (Vec2::new(5_010, 10), true));
    assert_eq!(resolve_player_move(here, stride, Some(0), Some(999)), (here, false));
}

#[test]
fn hit_beyond_the_stride_lets_the_player_slide() {
    let here = Vec2::zero();
    let stride = Vec2::new(5_000, -7_000);
    assert_eq!(
        resolve_player_move(here, stride, Some(1_500), Some(1_001)),
        (Vec2::new(2_500, -7), true)
    );
}

#[test]
fn pills_that_heal_or_harm_are_found() {
    assert!(!any_heal(&Vec::new()));
    assert!(!any_heal(&vec![fart_pill(), fart_pill()]));
    assert!(any_heal(&vec![fart_pill(), heal_pill()]));
    assert!(any_heal(&vec![pill(PillEffect::Sneeze, PillEffect::Heal { amount: -10_000 })]));
    assert!(any_heal(&vec![Pill::default(), fart_pill()]));
}
