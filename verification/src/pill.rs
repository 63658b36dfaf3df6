//! The pills that lie about the level, and what swallowing one does.

use vstd::prelude::*;
use rand::seq::SliceRandom;

verus! {

/// What a pill does to the one who swallows it. Amounts of health are in
/// thousandths of a point, factors in thousandths, durations in microseconds.
#[derive(Clone, Copy, Debug, PartialEq, Eq, Structural)]
#[allow(inconsistent_fields)]
pub enum PillEffect {
    Heal { amount: i64 },
    Speed { amount: u32, duration: u64 },
    ToxicFart,
    Invisibility { duration: u64 },
    Invincibility { duration: u64 },
    Sneeze,
    Dizziness { duration: u64 },
    Vulnerability { amount: u32, duration: u64 },
}

/// The effects that a pill is taken for.
pub open spec fn positive_effects() -> Seq<PillEffect> {
    seq![
        PillEffect::Heal { amount: 15_000 },
        PillEffect::Speed { amount: 1_500, duration: 5_000_000 },
        PillEffect::ToxicFart,
        PillEffect::Invisibility { duration: 3_000_000 },
        PillEffect::Invincibility { duration: 3_000_000 },
    ]
}

/// The effects that come with a pill unasked.
pub open spec fn negative_effects() -> Seq<PillEffect> {
    seq![
        PillEffect::Heal { amount: -10_000i64 },
        PillEffect::Speed { amount: 500, duration: 5_000_000 },
        PillEffect::Sneeze,
        PillEffect::Dizziness { duration: 5_000_000 },
        PillEffect::Vulnerability { amount: 2_000, duration: 5_000_000 },
    ]
}

/// The unasked effects that can come with `main_effect`: those of another
/// kind, in the order of `negative_effects`.
pub open spec fn side_effects_for(main_effect: PillEffect) -> Seq<PillEffect> {
    negative_effects().filter(|effect: PillEffect| !effect.same_kind(main_effect))
}

/// The effect that a pill of the level is taken for, by its name in the
/// level's data.
pub open spec fn effect_named(kind: Seq<char>) -> Option<PillEffect> {
    if kind == "Heal"@ {
        Some(positive_effects()[0])
    } else if kind == "Speed"@ {
        Some(positive_effects()[1])
    } else if kind == "ToxicFart"@ {
        Some(positive_effects()[2])
    } else if kind == "Invisibility"@ {
        Some(positive_effects()[3])
    } else if kind == "Invincibility"@ {
        Some(positive_effects()[4])
    } else {
        None
    }
}

impl PillEffect {
    /// The effect that a pill of the level is taken for; `None` for a name
    /// that is none of the wanted effects'.
    pub fn from_level(kind: &str) -> (effect: Option<PillEffect>)
        ensures
            effect == effect_named(kind@),
    {
        let kind: String = kind.to_owned();
        if kind == "Heal".to_owned() {
            Some(PillEffect::Heal { amount: 15_000 })
        } else if kind == "Speed".to_owned() {
            Some(PillEffect::Speed { amount: 1_500, duration: 5_000_000 })
        } else if kind == "ToxicFart".to_owned() {
            Some(PillEffect::ToxicFart)
        } else if kind == "Invisibility".to_owned() {
            Some(PillEffect::Invisibility { duration: 3_000_000 })
        } else if kind == "Invincibility".to_owned() {
            Some(PillEffect::Invincibility { duration: 3_000_000 })
        } else {
            None
        }
    }

    /// Whether two effects are of one kind, whatever their amounts.
    pub open spec fn same_kind(self, other: PillEffect) -> bool {
        match self {
            PillEffect::Heal { .. } => other is Heal,
            PillEffect::Speed { .. } => other is Speed,
            PillEffect::ToxicFart => other is ToxicFart,
            PillEffect::Invisibility { .. } => other is Invisibility,
            PillEffect::Invincibility { .. } => other is Invincibility,
            PillEffect::Sneeze => other is Sneeze,
            PillEffect::Dizziness { .. } => other is Dizziness,
            PillEffect::Vulnerability { .. } => other is Vulnerability,
        }
    }

    /// Whether two effects are of one kind, whatever their amounts.
    pub fn is_same_kind(&self, other: &PillEffect) -> (b: bool)
        ensures
            b == self.same_kind(*other),
    {
        match (self, other) {
            (PillEffect::Heal { .. }, PillEffect::Heal { .. }) => true,
            (PillEffect::Speed { .. }, PillEffect::Speed { .. }) => true,
            (PillEffect::ToxicFart, PillEffect::ToxicFart) => true,
            (PillEffect::Invisibility { .. }, PillEffect::Invisibility { .. }) => true,
            (PillEffect::Invincibility { .. }, PillEffect::Invincibility { .. }) => true,
            (PillEffect::Sneeze, PillEffect::Sneeze) => true,
            (PillEffect::Dizziness { .. }, PillEffect::Dizziness { .. }) => true,
            (PillEffect::Vulnerability { .. }, PillEffect::Vulnerability { .. }) => true,
            _ => false,
        }
    }

    /// The effects that a pill is taken for.
    pub fn positive() -> (effects: Vec<PillEffect>)
        ensures
            effects@ == positive_effects(),
    {
        let effects: Vec<PillEffect> = vec![
            PillEffect::Heal { amount: 15_000 },
            PillEffect::Speed { amount: 1_500, duration: 5_000_000 },
            PillEffect::ToxicFart,
            PillEffect::Invisibility { duration: 3_000_000 },
            PillEffect::Invincibility { duration: 3_000_000 },
        ];
        assert(effects@ =~= positive_effects());
        effects
    }

    /// The effects that come with a pill unasked.
    pub fn negative() -> (effects: Vec<PillEffect>)
        ensures
            effects@ == negative_effects(),
    {
        let effects: Vec<PillEffect> = vec![
            PillEffect::Heal { amount: -10_000 },
            PillEffect::Speed { amount: 500, duration: 5_000_000 },
            PillEffect::Sneeze,
            PillEffect::Dizziness { duration: 5_000_000 },
            PillEffect::Vulnerability { amount: 2_000, duration: 5_000_000 },
        ];
        assert(effects@ =~= negative_effects());
        effects
    }

    /// The unasked effects that can come with `main_effect`.
    pub fn side_effects(main_effect: PillEffect) -> (effects: Vec<PillEffect>)
        ensures
            effects@ == side_effects_for(main_effect),
            effects@.len() > 0,
    {
        let all: Vec<PillEffect> = PillEffect::negative();
        let ghost other_kind = |effect: PillEffect| !effect.same_kind(main_effect);
        let mut effects: Vec<PillEffect> = Vec::new();
        let mut i: usize = 0;
        proof {
            reveal(Seq::filter);
            assert(all@.take(0).filter(other_kind) =~= Seq::<PillEffect>::empty());
        }
        while i < all.len()
            invariant
                i <= all@.len(),
                all@ == negative_effects(),
                other_kind == |effect: PillEffect| !effect.same_kind(main_effect),
                effects@ == all@.take(i as int).filter(other_kind),
            decreases all@.len() - i,
        {
            let effect: PillEffect = all[i];
            proof {
                reveal(Seq::filter);
                assert(all@.take(i + 1).drop_last() =~= all@.take(i as int));
                assert(all@.take(i + 1).last() == effect);
            }
            if !effect.is_same_kind(&main_effect) {
                effects.push(effect);
            }
            i += 1;
        }
        proof {
            assert(all@.take(all@.len() as int) =~= all@);
            lemma_side_effects_left(main_effect);
        }
        effects
    }
}

/// Whatever a pill is taken for, at least four unasked effects can come with
/// it, each of another kind and each one of `negative_effects`.
pub proof fn lemma_side_effects_left(main_effect: PillEffect)
    ensures
        side_effects_for(main_effect).len() >= 4,
        forall|i: int|
            0 <= i < side_effects_for(main_effect).len() ==> {
                &&& !(#[trigger] side_effects_for(main_effect)[i]).same_kind(main_effect)
                &&& negative_effects().contains(side_effects_for(main_effect)[i])
            },
{
    let all = negative_effects();
    let other_kind = |effect: PillEffect| !effect.same_kind(main_effect);
    let left = all.filter(other_kind);
    reveal_with_fuel(Seq::filter, 6);
    assert(all.drop_last().drop_last().drop_last().drop_last().drop_last().len() == 0);
    assert forall|i: int| 0 <= i < left.len() implies negative_effects().contains(
        #[trigger] left[i],
    ) by {
        assert(left.contains(left[i]));
    }
}

/// Calls `SliceRandom::choose` of the `rand` crate on the candidates, with
/// the generator that `rand::thread_rng` gives.
///
/// Trusted: of no candidates none is picked; otherwise one of them is.
#[verifier::external_body]
fn choose_effect(candidates: &Vec<PillEffect>) -> (picked: Option<PillEffect>)
    ensures
        candidates@.len() == 0 ==> picked is None,
        candidates@.len() > 0 ==> picked is Some && candidates@.contains(picked->0),
{
    candidates.choose(&mut rand::thread_rng()).copied()
}

/// The picture that shows a pill.
#[derive(Clone, Copy, Debug, PartialEq, Eq, Structural)]
pub enum PillTexture {
    Health,
    Speed,
    ToxicFart,
    Invisibility,
    Invincibility,
}

/// A pill: what it is taken for, and what comes with it.
#[derive(Clone, Copy, Debug, PartialEq, Eq, Structural)]
pub struct Pill {
    pub main_effect: PillEffect,
    pub side_effect: PillEffect,
}

impl Pill {
    /// The picture for a pill that is taken for `main_effect`, where there
    /// is one.
    pub open spec fn texture_of(main_effect: PillEffect) -> Option<PillTexture> {
        match main_effect {
            PillEffect::Heal { .. } => Some(PillTexture::Health),
            PillEffect::Speed { .. } => Some(PillTexture::Speed),
            PillEffect::ToxicFart => Some(PillTexture::ToxicFart),
            PillEffect::Invisibility { .. } => Some(PillTexture::Invisibility),
            PillEffect::Invincibility { .. } => Some(PillTexture::Invincibility),
            _ => None,
        }
    }

    /// A pill for `main_effect` with `side_effect`; `None` where the two are
    /// of one kind or the second is none of `negative_effects`.
    pub fn with_side_effect(main_effect: PillEffect, side_effect: Option<PillEffect>) -> (pill:
        Option<Pill>)
        ensures
            pill == match side_effect {
                Some(effect) => if side_effects_for(main_effect).contains(effect) {
                    Some(Pill { main_effect, side_effect: effect })
                } else {
                    None
                },
                None => None,
            },
    {
        match side_effect {
            Some(effect) => {
                let candidates: Vec<PillEffect> = PillEffect::side_effects(main_effect);
                let mut i: usize = 0;
                while i < candidates.len()
                    invariant
                        i <= candidates@.len(),
                        candidates@ == side_effects_for(main_effect),
                        side_effect == Some(effect),
                        forall|j: int| 0 <= j < i ==> candidates@[j] != effect,
                    decreases candidates@.len() - i,
                {
                    if candidates[i] == effect {
                        assert(candidates@[i as int] == effect);
                        return Some(Pill { main_effect, side_effect: effect });
                    }
                    i += 1;
                }
                None
            },
            None => None,
        }
    }

    /// A pill for `main_effect`, with one of the unasked effects of another
    /// kind, picked by chance.
    pub fn new(main_effect: PillEffect) -> (pill: Pill)
        ensures
            pill.main_effect == main_effect,
            side_effects_for(main_effect).contains(pill.side_effect),
            negative_effects().contains(pill.side_effect),
            !pill.side_effect.same_kind(main_effect),
    {
        let candidates: Vec<PillEffect> = PillEffect::side_effects(main_effect);
        let picked: Option<PillEffect> = choose_effect(&candidates);
        proof {
            lemma_side_effects_left(main_effect);
        }
        match Pill::with_side_effect(main_effect, picked) {
            Some(pill) => pill,
            None => Pill { main_effect, side_effect: candidates[0] },
        }
    }

    /// The picture that shows the pill, where there is one.
    pub fn get_texture(&self) -> (texture: Option<PillTexture>)
        ensures
            texture == Pill::texture_of(self.main_effect),
    {
        match self.main_effect {
            PillEffect::Heal { .. } => Some(PillTexture::Health),
            PillEffect::Speed { .. } => Some(PillTexture::Speed),
            PillEffect::ToxicFart => Some(PillTexture::ToxicFart),
            PillEffect::Invisibility { .. } => Some(PillTexture::Invisibility),
            PillEffect::Invincibility { .. } => Some(PillTexture::Invincibility),
            _ => None,
        }
    }
}

impl Default for Pill {
    /// The first of the wanted effects with the first of the unasked ones.
    fn default() -> (pill: Pill)
        ensures
            pill.main_effect == positive_effects()[0],
            pill.side_effect == negative_effects()[0],
    {
        Pill {
            main_effect: PillEffect::Heal { amount: 15_000 },
            side_effect: PillEffect::Heal { amount: -10_000 },
        }
    }
}

} // verus!
