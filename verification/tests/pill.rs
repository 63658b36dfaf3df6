use drug_test::pill::{Pill, PillEffect, PillTexture};

#[test]
fn positive_effects_in_order() {
    assert_eq!(
        PillEffect::positive(),
        vec![
            PillEffect::Heal { amount: 15_000 },
            PillEffect::Speed { amount: 1_500, duration: 5_000_000 },
            PillEffect::ToxicFart,
            PillEffect::Invisibility { duration: 3_000_000 },
            PillEffect::Invincibility { duration: 3_000_000 },
        ]
    );
}

#[test]
fn negative_effects_in_order() {
    assert_eq!(
        PillEffect::negative(),
        vec![
            PillEffect::Heal { amount: -10_000 },
            PillEffect::Speed { amount: 500, duration: 5_000_000 },
            PillEffect::Sneeze,
            PillEffect::Dizziness { duration: 5_000_000 },
            PillEffect::Vulnerability { amount: 2_000, duration: 5_000_000 },
        ]
    );
}

#[test]
fn kinds_ignore_amounts() {
    let heal = PillEffect::Heal { amount: 1 };
    assert!(heal.is_same_kind(&PillEffect::Heal { amount: -7 }));
    assert!(!heal.is_same_kind(&PillEffect::Sneeze));
    assert!(PillEffect::Sneeze.is_same_kind(&PillEffect::Sneeze));
    assert!(!PillEffect::Sneeze.is_same_kind(&PillEffect::ToxicFart));
    let all = [PillEffect::positive(), PillEffect::negative()].concat();
    for (i, a) in all.iter().enumerate() {
        for (j, b) in all.iter().enumerate() {
            let same = i == j || (i < 2 && j == i + 5) || (j < 2 && i == j + 5);
            assert_eq!(a.is_same_kind(b), same);
        }
    }
}

#[test]
fn side_effects_leave_out_the_kind_of_the_main_effect() {
    assert_eq!(
        PillEffect::side_effects(PillEffect::Heal { amount: 15_000 }),
        vec![
            PillEffect::Speed { amount: 500, duration: 5_000_000 },
            PillEffect::Sneeze,
            PillEffect::Dizziness { duration: 5_000_000 },
            PillEffect::Vulnerability { amount: 2_000, duration: 5_000_000 },
        ]
    );
    assert_eq!(
        PillEffect::side_effects(PillEffect::Speed { amount: 9, duration: 9 }),
        vec![
            PillEffect::Heal { amount: -10_000 },
            PillEffect::Sneeze,
            PillEffect::Dizziness { duration: 5_000_000 },
            PillEffect::Vulnerability { amount: 2_000, duration: 5_000_000 },
        ]
    );
    assert_eq!(PillEffect::side_effects(PillEffect::ToxicFart), PillEffect::negative());
}

#[test]
fn new_pill_gets_a_side_effect_of_another_kind() {
    for main in PillEffect::positive() {
        let mut seen = Vec::new();
        for _ in 0..300 {
            let pill = Pill::new(main);
            assert_eq!(pill.main_effect, main);
            assert!(PillEffect::negative().contains(&pill.side_effect));
            assert!(!pill.side_effect.is_same_kind(&main));
            if !seen.contains(&pill.side_effect) {
                seen.push(pill.side_effect);
            }
        }
        assert!(seen.len() > 1);
    }
}

#[test]
fn pill_with_a_given_side_effect() {
    let main = PillEffect::Heal { amount: 15_000 };
    assert_eq!(
        Pill::with_side_effect(main, Some(PillEffect::Sneeze)),
        Some(Pill { main_effect: main, side_effect: PillEffect::Sneeze })
    );
    assert_eq!(Pill::with_side_effect(main, Some(PillEffect::Heal { amount: -10_000 })), None);
    assert_eq!(Pill::with_side_effect(main, Some(PillEffect::ToxicFart)), None);
    assert_eq!(Pill::with_side_effect(main, None), None);
}

#[test]
fn default_pill_heals_and_harms() {
    let pill = Pill::default();
    assert_eq!(pill.main_effect, PillEffect::positive()[0]);
    assert_eq!(pill.side_effect, PillEffect::negative()[0]);
}

#[test]
fn texture_follows_the_main_effect() {
    let side = PillEffect::Sneeze;
    let textures = [
        PillTexture::Health,
        PillTexture::Speed,
        PillTexture::ToxicFart,
        PillTexture::Invisibility,
        PillTexture::Invincibility,
    ];
    for (main, texture) in PillEffect::positive().into_iter().zip(textures) {
        let pill = Pill { main_effect: main, side_effect: side };
        assert_eq!(pill.get_texture(), Some(texture));
    }
    for main in [
        PillEffect::Sneeze,
        PillEffect::Dizziness { duration: 1 },
        PillEffect::Vulnerability { amount: 1, duration: 1 },
    ] {
        assert_eq!(Pill { main_effect: main, side_effect: side }.get_texture(), None);
    }
}

#[test]
fn pills_of_the_level_by_name() {
    let wanted = PillEffect::positive();
    assert_eq!(PillEffect::from_level("Heal"), Some(wanted[0]));
    assert_eq!(PillEffect::from_level("Speed"), Some(wanted[1]));
    assert_eq!(PillEffect::from_level("ToxicFart"), Some(wanted[2]));
    assert_eq!(PillEffect::from_level("Invisibility"), Some(wanted[3]));
    assert_eq!(PillEffect::from_level("Invincibility"), Some(wanted[4]));
    for name in ["", "heal", "Sneeze", "Dizziness", "Vulnerability", "Heal "] {
        assert_eq!(PillEffect::from_level(name), None);
    }
}
