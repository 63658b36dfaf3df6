//! What a swallowed pill does, and the effects that wear off with time.

use vstd::prelude::*;
use crate::enemy::{EnemyState, EnemyStateView};
use crate::geometry::Vec2;
use crate::pill::{Pill, PillEffect};
use crate::timer::{Timer, TimerMode, TimerView};
use crate::unit::{Health, HEALTH_UNIT, healed};

verus! {

/// Guards nearer to a toxic fart than this many grid steps, one hundred and
/// fifty units, are stunned by it.
pub const TOXIC_FART_RADIUS: u32 = 150_000;

/// Microseconds for which a toxic fart stuns.
pub const TOXIC_FART_STUN: u64 = 5_000_000;

/// Guards nearer to a sneeze than this many grid steps, four hundred and
/// fifty units, hear it.
pub const SNEEZE_RADIUS: u32 = 450_000;

/// An effect that ends when its timer has run down.
pub trait Temporary: Sized {
    /// The timer that ends the effect.
    spec fn timer(&self) -> Timer;

    /// The same effect with another timer.
    spec fn with_timer(&self, timer: Timer) -> Self;

    /// The timer that ends the effect, to count it on. Nothing else of the
    /// effect changes through it.
    fn get_timer(&mut self) -> (timer: &mut Timer)
        ensures
            *timer == old(self).timer(),
            *final(self) == old(self).with_timer(*final(timer)),
            final(self).timer() == *final(timer),
    ;
}

/// How an effect is shown in the bar that counts it down.
#[derive(Clone, Copy, Debug, PartialEq, Eq, Structural)]
pub enum EffectColor {
    /// Red, green and blue.
    Rgb(u8, u8, u8),
    /// A full colour of the given hue, in thousandths of a degree.
    Hue(u32),
}

/// How an effect is shown to the player.
pub trait EffectVisuals {
    /// The colour of the effect's bar.
    spec fn color(&self) -> EffectColor;

    /// The effect's name.
    spec fn name(&self) -> Seq<char>;

    fn get_color(&self) -> (color: EffectColor)
        ensures
            color == self.color(),
    ;

    fn get_name(&self) -> (name: String)
        ensures
            name@ == self.name(),
    ;
}

/// The player moves faster or slower, by a factor in thousandths.
#[derive(Clone, Copy, Debug, PartialEq, Eq, Structural)]
pub struct MovementBoost {
    pub multiplier: u32,
    pub timer: Timer,
}

/// Guards cannot see the player.
#[derive(Clone, Copy, Debug, PartialEq, Eq, Structural)]
pub struct Invisibility {
    pub timer: Timer,
}

/// Shots do the player no harm.
#[derive(Clone, Copy, Debug, PartialEq, Eq, Structural)]
pub struct Invincibility {
    pub timer: Timer,
}

/// The player walks the opposite way.
#[derive(Clone, Copy, Debug, PartialEq, Eq, Structural)]
pub struct Dizziness {
    pub timer: Timer,
}

/// Shots harm the player more, by a factor in thousandths.
#[derive(Clone, Copy, Debug, PartialEq, Eq, Structural)]
pub struct Vulnerability {
    pub amount: u32,
    pub timer: Timer,
}

impl Temporary for MovementBoost {
    open spec fn timer(&self) -> Timer {
        self.timer
    }

    open spec fn with_timer(&self, timer: Timer) -> MovementBoost {
        MovementBoost { timer, ..*self }
    }

    fn get_timer(&mut self) -> (timer: &mut Timer) {
        &mut self.timer
    }
}

impl Temporary for Invisibility {
    open spec fn timer(&self) -> Timer {
        self.timer
    }

    open spec fn with_timer(&self, timer: Timer) -> Invisibility {
        Invisibility { timer }
    }

    fn get_timer(&mut self) -> (timer: &mut Timer) {
        &mut self.timer
    }
}

impl Temporary for Invincibility {
    open spec fn timer(&self) -> Timer {
        self.timer
    }

    open spec fn with_timer(&self, timer: Timer) -> Invincibility {
        Invincibility { timer }
    }

    fn get_timer(&mut self) -> (timer: &mut Timer) {
        &mut self.timer
    }
}

impl Temporary for Dizziness {
    open spec fn timer(&self) -> Timer {
        self.timer
    }

    open spec fn with_timer(&self, timer: Timer) -> Dizziness {
        Dizziness { timer }
    }

    fn get_timer(&mut self) -> (timer: &mut Timer) {
        &mut self.timer
    }
}

impl Temporary for Vulnerability {
    open spec fn timer(&self) -> Timer {
        self.timer
    }

    open spec fn with_timer(&self, timer: Timer) -> Vulnerability {
        Vulnerability { timer, ..*self }
    }

    fn get_timer(&mut self) -> (timer: &mut Timer) {
        &mut self.timer
    }
}

/// Lets `delta` microseconds of an effect pass, and says whether the effect
/// ended in this tick. Only the effect's timer changes.
pub fn update_effect<Effect: Temporary>(effect: &mut Effect, delta: u32) -> (ended: bool)
    ensures
        final(effect).timer()@ == old(effect).timer()@.tick(delta as nat),
        *final(effect) == old(effect).with_timer(final(effect).timer()),
        ended == final(effect).timer()@.just_finished(),
{
    let timer = effect.get_timer();
    timer.tick(delta);
    timer.just_finished()
}

impl EffectVisuals for MovementBoost {
    open spec fn color(&self) -> EffectColor {
        if self.multiplier > 1_000 {
            EffectColor::Rgb(0xea, 0xc5, 0x16)
        } else {
            EffectColor::Rgb(0xda, 0xa1, 0x1d)
        }
    }

    open spec fn name(&self) -> Seq<char> {
        if self.multiplier > 1_000 {
            "Speed Boost"@
        } else {
            "Speed Debuff"@
        }
    }

    fn get_color(&self) -> (color: EffectColor) {
        if self.multiplier > 1_000 {
            EffectColor::Rgb(0xea, 0xc5, 0x16)
        } else {
            EffectColor::Rgb(0xda, 0xa1, 0x1d)
        }
    }

    fn get_name(&self) -> (name: String) {
        if self.multiplier > 1_000 {
            "Speed Boost".to_string()
        } else {
            "Speed Debuff".to_string()
        }
    }
}

impl EffectVisuals for Invisibility {
    open spec fn color(&self) -> EffectColor {
        EffectColor::Rgb(0x00, 0xec, 0xc7)
    }

    open spec fn name(&self) -> Seq<char> {
        "Invisibility"@
    }

    fn get_color(&self) -> (color: EffectColor) {
        EffectColor::Rgb(0x00, 0xec, 0xc7)
    }

    fn get_name(&self) -> (name: String) {
        "Invisibility".to_string()
    }
}

impl EffectVisuals for Invincibility {
    open spec fn color(&self) -> EffectColor {
        EffectColor::Rgb(0xdf, 0xc1, 0xff)
    }

    open spec fn name(&self) -> Seq<char> {
        "Invincibility"@
    }

    fn get_color(&self) -> (color: EffectColor) {
        EffectColor::Rgb(0xdf, 0xc1, 0xff)
    }

    fn get_name(&self) -> (name: String) {
        "Invincibility".to_string()
    }
}

/// The hue that shows how far a timer has run: a full turn of the colour
/// circle over its duration, in thousandths of a degree and rounded down. A
/// timer without duration shows the first hue.
pub open spec fn hue_of(timer: TimerView) -> nat {
    if timer.duration == 0 {
        0
    } else {
        (timer.elapsed * 360_000) / timer.duration
    }
}

impl EffectVisuals for Dizziness {
    open spec fn color(&self) -> EffectColor {
        EffectColor::Hue(hue_of(self.timer@) as u32)
    }

    open spec fn name(&self) -> Seq<char> {
        "Dizziness"@
    }

    fn get_color(&self) -> (color: EffectColor) {
        let duration: u64 = self.timer.duration();
        let left: u64 = self.timer.remaining();
        if duration == 0 {
            EffectColor::Hue(0)
        } else {
            let elapsed: u128 = (duration - left) as u128;
            let hue: u128 = elapsed * 360_000 / (duration as u128);
            assert(hue <= 360_000) by (nonlinear_arith)
                requires
                    hue == (elapsed * 360_000) / (duration as int),
                    0 <= elapsed <= duration,
                    0 < duration,
            ;
            EffectColor::Hue(hue as u32)
        }
    }

    fn get_name(&self) -> (name: String) {
        "Dizziness".to_string()
    }
}

impl EffectVisuals for Vulnerability {
    open spec fn color(&self) -> EffectColor {
        EffectColor::Rgb(0xfc, 0x62, 0x0a)
    }

    open spec fn name(&self) -> Seq<char> {
        "Vulnerability"@
    }

    fn get_color(&self) -> (color: EffectColor) {
        EffectColor::Rgb(0xfc, 0x62, 0x0a)
    }

    fn get_name(&self) -> (name: String) {
        "Vulnerability".to_string()
    }
}

/// The effects that are at work on the player.
#[derive(Clone, Copy, Debug, PartialEq, Eq, Structural)]
pub struct PlayerEffects {
    pub movement_boost: Option<MovementBoost>,
    pub invisibility: Option<Invisibility>,
    pub invincibility: Option<Invincibility>,
    pub dizziness: Option<Dizziness>,
    pub vulnerability: Option<Vulnerability>,
}

impl Default for PlayerEffects {
    /// No effect at all.
    fn default() -> (effects: PlayerEffects)
        ensures
            effects == PlayerEffects::none(),
    {
        PlayerEffects {
            movement_boost: None,
            invisibility: None,
            invincibility: None,
            dizziness: None,
            vulnerability: None,
        }
    }
}

/// A noise that a pill makes.
#[derive(Clone, Copy, Debug, PartialEq, Eq, Structural)]
pub enum Sound {
    Fart,
    Sneeze,
}

impl PlayerEffects {
    /// No effect at all.
    pub open spec fn none() -> PlayerEffects {
        PlayerEffects {
            movement_boost: None,
            invisibility: None,
            invincibility: None,
            dizziness: None,
            vulnerability: None,
        }
    }

    /// The effects after `effect` set in. An effect that lasts starts with a
    /// fresh timer and takes the place of an older one of its kind.
    pub open spec fn after(self, effect: PillEffect) -> PlayerEffects {
        match effect {
            PillEffect::Speed { amount, duration } => PlayerEffects {
                movement_boost: Some(
                    MovementBoost {
                        multiplier: amount,
                        timer: Timer::fresh(duration, TimerMode::Once),
                    },
                ),
                ..self
            },
            PillEffect::Invisibility { duration } => PlayerEffects {
                invisibility: Some(Invisibility { timer: Timer::fresh(duration, TimerMode::Once) }),
                ..self
            },
            PillEffect::Invincibility { duration } => PlayerEffects {
                invincibility: Some(
                    Invincibility { timer: Timer::fresh(duration, TimerMode::Once) },
                ),
                ..self
            },
            PillEffect::Dizziness { duration } => PlayerEffects {
                dizziness: Some(Dizziness { timer: Timer::fresh(duration, TimerMode::Once) }),
                ..self
            },
            PillEffect::Vulnerability { amount, duration } => PlayerEffects {
                vulnerability: Some(
                    Vulnerability { amount, timer: Timer::fresh(duration, TimerMode::Once) },
                ),
                ..self
            },
            _ => self,
        }
    }

    /// The effects after all of `effects` set in, one after the other.
    pub open spec fn after_all(self, effects: Seq<PillEffect>) -> PlayerEffects
        decreases effects.len(),
    {
        if effects.len() == 0 {
            self
        } else {
            self.after_all(effects.drop_last()).after(effects.last())
        }
    }
}

/// The health after `effect` set in: healing adds its amount, which may be
/// negative, and keeps the health between one point and the greatest health.
pub open spec fn health_after(effect: PillEffect, health: int, max_health: int) -> int {
    match effect {
        PillEffect::Heal { amount } => healed(health, max_health, amount as int),
        _ => health,
    }
}

/// The health after all of `effects` set in, one after the other.
pub open spec fn health_after_all(effects: Seq<PillEffect>, health: int, max_health: int) -> int
    decreases effects.len(),
{
    if effects.len() == 0 {
        health
    } else {
        health_after(
            effects.last(),
            health_after_all(effects.drop_last(), health, max_health),
            max_health,
        )
    }
}

/// The noise that `effect` makes, if any.
pub open spec fn sound_of(effect: PillEffect) -> Option<Sound> {
    match effect {
        PillEffect::ToxicFart => Some(Sound::Fart),
        PillEffect::Sneeze => Some(Sound::Sneeze),
        _ => None,
    }
}

/// The noises that `effects` make, in their order.
pub open spec fn sounds_of(effects: Seq<PillEffect>) -> Seq<Sound>
    decreases effects.len(),
{
    if effects.len() == 0 {
        Seq::empty()
    } else {
        match sound_of(effects.last()) {
            Some(sound) => sounds_of(effects.drop_last()).push(sound),
            None => sounds_of(effects.drop_last()),
        }
    }
}

/// What `effect` does to a guard at `position` when the player swallows the
/// pill at `player`: a toxic fart stuns every guard within its radius, a
/// sneeze alerts every guard within its radius that is not stunned, and no
/// other effect reaches a guard.
pub open spec fn enemy_after(
    effect: PillEffect,
    state: EnemyStateView,
    position: Vec2,
    player: Vec2,
) -> EnemyStateView {
    match effect {
        PillEffect::ToxicFart => {
            if position.dist_sq(player) < TOXIC_FART_RADIUS * TOXIC_FART_RADIUS {
                EnemyStateView::stunned(TOXIC_FART_STUN as nat)
            } else {
                state
            }
        },
        PillEffect::Sneeze => {
            if position.dist_sq(player) < SNEEZE_RADIUS * SNEEZE_RADIUS && !(state is Stun) {
                EnemyStateView::Alert { target: player }
            } else {
                state
            }
        },
        _ => state,
    }
}

/// What all of `effects` do to a guard, one after the other.
pub open spec fn enemy_after_all(
    effects: Seq<PillEffect>,
    state: EnemyStateView,
    position: Vec2,
    player: Vec2,
) -> EnemyStateView
    decreases effects.len(),
{
    if effects.len() == 0 {
        state
    } else {
        enemy_after(
            effects.last(),
            enemy_after_all(effects.drop_last(), state, position, player),
            position,
            player,
        )
    }
}

/// The effects of `pills` in the order in which they set in: for each pill
/// what it was taken for, then what came with it.
pub open spec fn effects_of(pills: Seq<Pill>) -> Seq<PillEffect>
    decreases pills.len(),
{
    if pills.len() == 0 {
        Seq::empty()
    } else {
        effects_of(pills.drop_last()).push(pills.last().main_effect).push(pills.last().side_effect)
    }
}

/// Whether one of `effects` heals or harms.
pub open spec fn any_heals(effects: Seq<PillEffect>) -> bool {
    exists|i: int| 0 <= i < effects.len() && #[trigger] effects[i] is Heal
}

/// Whether one of the effects of `pills` heals or harms.
pub fn any_heal(pills: &Vec<Pill>) -> (b: bool)
    ensures
        b == any_heals(effects_of(pills@)),
{
    let mut i: usize = 0;
    while i < pills.len()
        invariant
            i <= pills@.len(),
            forall|j: int|
                0 <= j < i ==> !(#[trigger] pills@[j].main_effect is Heal)
                    && !(pills@[j].side_effect is Heal),
        decreases pills@.len() - i,
    {
        let pill: Pill = pills[i];
        let heals: bool = match (pill.main_effect, pill.side_effect) {
            (PillEffect::Heal { .. }, _) => true,
            (_, PillEffect::Heal { .. }) => true,
            _ => false,
        };
        if heals {
            proof {
                lemma_effects_grow(pills@, i as int);
                if pill.main_effect is Heal {
                    assert(effects_of(pills@)[2 * i] is Heal);
                } else {
                    assert(effects_of(pills@)[2 * i + 1] is Heal);
                }
            }
            return true;
        }
        i += 1;
    }
    proof {
        let effects = effects_of(pills@);
        lemma_effects_len(pills@);
        assert forall|k: int| 0 <= k < effects.len() implies !(#[trigger] effects[k] is Heal) by {
            lemma_effects_grow(pills@, k / 2);
            assert(!(pills@[k / 2].main_effect is Heal));
        }
    }
    false
}

/// Lets one effect work on one guard.
pub fn affect_enemy(effect: PillEffect, state: &mut EnemyState, position: Vec2, player: Vec2)
    ensures
        final(state)@ == enemy_after(effect, old(state)@, position, player),
{
    match effect {
        PillEffect::ToxicFart => {
            if position.closer_than(player, TOXIC_FART_RADIUS) {
                *state = EnemyState::stunned(TOXIC_FART_STUN);
            }
        },
        PillEffect::Sneeze => {
            if position.closer_than(player, SNEEZE_RADIUS) && !state.is_stunned() {
                *state = EnemyState::Alert { target: player };
            }
        },
        _ => {},
    }
}

/// Lets one effect work on the player, and names the noise it makes.
pub fn affect_player(effect: PillEffect, health: &mut Health, effects: &mut PlayerEffects) -> (sound:
    Option<Sound>)
    requires
        effect is Heal ==> old(health).max_health() >= HEALTH_UNIT,
    ensures
        final(health).max_health() == old(health).max_health(),
        final(health).health() == health_after(
            effect,
            old(health).health(),
            old(health).max_health(),
        ),
        *final(effects) == old(effects).after(effect),
        sound == sound_of(effect),
{
    match effect {
        PillEffect::Heal { amount } => {
            health.heal(amount);
            None
        },
        PillEffect::Speed { amount, duration } => {
            effects.movement_boost = Some(
                MovementBoost { multiplier: amount, timer: Timer::new(duration, TimerMode::Once) },
            );
            None
        },
        PillEffect::ToxicFart => Some(Sound::Fart),
        PillEffect::Invisibility { duration } => {
            effects.invisibility = Some(
                Invisibility { timer: Timer::new(duration, TimerMode::Once) },
            );
            None
        },
        PillEffect::Invincibility { duration } => {
            effects.invincibility = Some(
                Invincibility { timer: Timer::new(duration, TimerMode::Once) },
            );
            None
        },
        PillEffect::Vulnerability { amount, duration } => {
            effects.vulnerability = Some(
                Vulnerability { amount, timer: Timer::new(duration, TimerMode::Once) },
            );
            None
        },
        PillEffect::Dizziness { duration } => {
            effects.dizziness = Some(Dizziness { timer: Timer::new(duration, TimerMode::Once) });
            None
        },
        PillEffect::Sneeze => Some(Sound::Sneeze),
    }
}

/// Lets one effect work on the player and on every guard. `positions` holds
/// where each guard of `states` stands.
pub fn execute_pill_effect(
    effect: PillEffect,
    health: &mut Health,
    effects: &mut PlayerEffects,
    player: Vec2,
    states: &mut Vec<EnemyState>,
    positions: &Vec<Vec2>,
) -> (sound: Option<Sound>)
    requires
        effect is Heal ==> old(health).max_health() >= HEALTH_UNIT,
        old(states)@.len() == positions@.len(),
    ensures
        final(health).max_health() == old(health).max_health(),
        final(health).health() == health_after(
            effect,
            old(health).health(),
            old(health).max_health(),
        ),
        *final(effects) == old(effects).after(effect),
        sound == sound_of(effect),
        final(states)@.len() == old(states)@.len(),
        forall|i: int|
            #![trigger final(states)@[i]]
            0 <= i < old(states)@.len() ==> final(states)@[i]@ == enemy_after(
                effect,
                old(states)@[i]@,
                positions@[i],
                player,
            ),
{
    let sound: Option<Sound> = affect_player(effect, health, effects);
    let mut i: usize = 0;
    while i < states.len()
        invariant
            i <= states@.len(),
            states@.len() == old(states)@.len(),
            states@.len() == positions@.len(),
            forall|j: int|
                #![trigger states@[j]]
                0 <= j < i ==> states@[j]@ == enemy_after(
                    effect,
                    old(states)@[j]@,
                    positions@[j],
                    player,
                ),
            forall|j: int|
                #![trigger states@[j]]
                i <= j < states@.len() ==> states@[j] == old(states)@[j],
        decreases states@.len() - i,
    {
        let mut state: EnemyState = states[i];
        affect_enemy(effect, &mut state, positions[i], player);
        states.set(i, state);
        i += 1;
    }
    sound
}

/// Lets every effect of the swallowed `pills` work on the player and on
/// every guard: pill after pill, and of each pill first what it was taken
/// for, then what came with it. Hands back the noises that they make.
pub fn execute_pill_effects(
    pills: &Vec<Pill>,
    health: &mut Health,
    effects: &mut PlayerEffects,
    player: Vec2,
    states: &mut Vec<EnemyState>,
    positions: &Vec<Vec2>,
) -> (sounds: Vec<Sound>)
    requires
        any_heals(effects_of(pills@)) ==> old(health).max_health() >= HEALTH_UNIT,
        old(states)@.len() == positions@.len(),
    ensures
        final(health).max_health() == old(health).max_health(),
        final(health).health() == health_after_all(
            effects_of(pills@),
            old(health).health(),
            old(health).max_health(),
        ),
        *final(effects) == old(effects).after_all(effects_of(pills@)),
        sounds@ == sounds_of(effects_of(pills@)),
        final(states)@.len() == old(states)@.len(),
        forall|i: int|
            #![trigger final(states)@[i]]
            0 <= i < old(states)@.len() ==> final(states)@[i]@ == enemy_after_all(
                effects_of(pills@),
                old(states)@[i]@,
                positions@[i],
                player,
            ),
{
    let mut sounds: Vec<Sound> = Vec::new();
    let mut i: usize = 0;
    while i < pills.len()
        invariant
            i <= pills@.len(),
            any_heals(effects_of(pills@)) ==> old(health).max_health() >= HEALTH_UNIT,
            health.max_health() == old(health).max_health(),
            health.health() == health_after_all(
                effects_of(pills@.take(i as int)),
                old(health).health(),
                old(health).max_health(),
            ),
            *effects == old(effects).after_all(effects_of(pills@.take(i as int))),
            sounds@ == sounds_of(effects_of(pills@.take(i as int))),
            states@.len() == old(states)@.len(),
            states@.len() == positions@.len(),
            forall|j: int|
                #![trigger states@[j]]
                0 <= j < states@.len() ==> states@[j]@ == enemy_after_all(
                    effects_of(pills@.take(i as int)),
                    old(states)@[j]@,
                    positions@[j],
                    player,
                ),
        decreases pills@.len() - i,
    {
        let pill: Pill = pills[i];
        let ghost before = effects_of(pills@.take(i as int));
        let ghost between = before.push(pill.main_effect);
        let ghost after = between.push(pill.side_effect);
        proof {
            assert(pills@.take(i + 1).drop_last() =~= pills@.take(i as int));
            assert(pills@.take(i + 1).last() == pill);
            assert(effects_of(pills@.take(i + 1)) == after);
            assert(between.drop_last() =~= before);
            assert(after.drop_last() =~= between);
            lemma_effects_grow(pills@, i as int);
            if pill.main_effect is Heal {
                assert(effects_of(pills@)[2 * i] is Heal);
            }
            if pill.side_effect is Heal {
                assert(effects_of(pills@)[2 * i + 1] is Heal);
            }
        }
        let ghost states_before = states@;
        let first: Option<Sound> = execute_pill_effect(
            pill.main_effect,
            health,
            effects,
            player,
            states,
            positions,
        );
        match first {
            Some(sound) => {
                sounds.push(sound);
            },
            None => {},
        }
        let ghost states_between = states@;
        proof {
            assert(health_after_all(between, old(health).health(), old(health).max_health())
                == health.health());
            assert(old(effects).after_all(between) == *effects);
        }
        let second: Option<Sound> = execute_pill_effect(
            pill.side_effect,
            health,
            effects,
            player,
            states,
            positions,
        );
        match second {
            Some(sound) => {
                sounds.push(sound);
            },
            None => {},
        }
        proof {
            assert forall|j: int| 0 <= j < states@.len() implies #[trigger] states@[j]@
                == enemy_after_all(after, old(states)@[j]@, positions@[j], player) by {
                assert(states_between[j]@ == enemy_after(
                    pill.main_effect,
                    states_before[j]@,
                    positions@[j],
                    player,
                ));
                assert(enemy_after_all(between, old(states)@[j]@, positions@[j], player)
                    == states_between[j]@);
            }
            assert(sounds_of(between) == match sound_of(pill.main_effect) {
                Some(sound) => sounds_of(before).push(sound),
                None => sounds_of(before),
            });
        }
        i += 1;
    }
    proof {
        assert(pills@.take(pills@.len() as int) =~= pills@);
    }
    sounds
}

/// The effects of the first `i + 1` pills are among the effects of all, at
/// the places `2 * i` and `2 * i + 1`.
proof fn lemma_effects_grow(pills: Seq<Pill>, i: int)
    requires
        0 <= i < pills.len(),
    ensures
        effects_of(pills).len() == 2 * pills.len(),
        effects_of(pills)[2 * i] == pills[i].main_effect,
        effects_of(pills)[2 * i + 1] == pills[i].side_effect,
    decreases pills.len(),
{
    lemma_effects_len(pills);
    lemma_effects_len(pills.drop_last());
    if i < pills.len() - 1 {
        lemma_effects_grow(pills.drop_last(), i);
    }
}

/// Every pill has two effects.
proof fn lemma_effects_len(pills: Seq<Pill>)
    ensures
        effects_of(pills).len() == 2 * pills.len(),
    decreases pills.len(),
{
    if pills.len() > 0 {
        lemma_effects_len(pills.drop_last());
    }
}

} // verus!
