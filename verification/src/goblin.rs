//! The goblin's clip set, sliced from its atlas by naming convention.

use vstd::prelude::*;

use crate::animation::{
    all_present, build_clip, entry_matches, AnimationLabel, AnimationMap, AnimationStates,
    BuildError, PlayMode,
};
use crate::atlas::{sheet_find, SpriteSheet};
use crate::components::CreatureType;

verus! {

/// The goblin's clip labels.
#[derive(Clone, Copy, Debug, PartialEq, Eq, Structural)]
pub enum GoblinAnimationStates {
    GoblinIdleRight,
    GoblinIdleLeft,
    GoblinDie,
    GoblinAttackRight,
    GoblinAttackLeft,
    GoblinAttackUpRight,
    GoblinAttackUpLeft,
    GoblinWalkRight,
    GoblinWalkLeft,
    GoblinWalkUpRight,
    GoblinWalkUpLeft,
}

/// The label string of each goblin clip.
pub open spec fn spec_goblin_label(s: GoblinAnimationStates) -> Seq<char> {
    match s {
        GoblinAnimationStates::GoblinIdleRight => "goblin_idle_right"@,
        GoblinAnimationStates::GoblinIdleLeft => "goblin_idle_left"@,
        GoblinAnimationStates::GoblinDie => "goblin_die"@,
        GoblinAnimationStates::GoblinAttackRight => "goblin_attack_right"@,
        GoblinAnimationStates::GoblinAttackLeft => "goblin_attack_left"@,
        GoblinAnimationStates::GoblinAttackUpRight => "goblin_attack_up_right"@,
        GoblinAnimationStates::GoblinAttackUpLeft => "goblin_attack_up_left"@,
        GoblinAnimationStates::GoblinWalkRight => "goblin_walk_right"@,
        GoblinAnimationStates::GoblinWalkLeft => "goblin_walk_left"@,
        GoblinAnimationStates::GoblinWalkUpRight => "goblin_walk_up_right"@,
        GoblinAnimationStates::GoblinWalkUpLeft => "goblin_walk_up_left"@,
    }
}

impl GoblinAnimationStates {
    pub fn to_string(&self) -> (r: &'static str)
        ensures
            r@ == spec_goblin_label(*self),
    {
        match self {
            GoblinAnimationStates::GoblinIdleRight => "goblin_idle_right",
            GoblinAnimationStates::GoblinIdleLeft => "goblin_idle_left",
            GoblinAnimationStates::GoblinDie => "goblin_die",
            GoblinAnimationStates::GoblinAttackRight => "goblin_attack_right",
            GoblinAnimationStates::GoblinAttackLeft => "goblin_attack_left",
            GoblinAnimationStates::GoblinAttackUpRight => "goblin_attack_up_right",
            GoblinAnimationStates::GoblinAttackUpLeft => "goblin_attack_up_left",
            GoblinAnimationStates::GoblinWalkRight => "goblin_walk_right",
            GoblinAnimationStates::GoblinWalkLeft => "goblin_walk_left",
            GoblinAnimationStates::GoblinWalkUpRight => "goblin_walk_up_right",
            GoblinAnimationStates::GoblinWalkUpLeft => "goblin_walk_up_left",
        }
    }
}

/// Whether the sheet holds every frame the goblin's clips name.
pub open spec fn goblin_atlas_complete(sheet: Seq<(String, crate::atlas::LiegeSprite)>) -> bool {
    &&& all_present(sheet, "goblin_idle_right"@, 16)
    &&& all_present(sheet, "goblin_idle_left"@, 16)
    &&& all_present(sheet, "goblin_walk_right"@, 4)
    &&& all_present(sheet, "goblin_walk_left"@, 4)
    &&& all_present(sheet, "goblin_walk_up_right"@, 4)
    &&& all_present(sheet, "goblin_walk_up_left"@, 4)
    &&& all_present(sheet, "goblin_attack_right"@, 4)
    &&& all_present(sheet, "goblin_attack_up_right"@, 4)
    &&& all_present(sheet, "goblin_attack_left"@, 4)
    &&& all_present(sheet, "goblin_attack_up_left"@, 4)
    &&& all_present(sheet, "goblin_die"@, 12)
}

/// What the goblin's built library holds, entry by entry.
pub open spec fn goblin_entries_match(
    m: Seq<(AnimationLabel, crate::animation::LiegeAnimation)>,
    sheet: Seq<(String, crate::atlas::LiegeSprite)>,
) -> bool {
    &&& m.len() == 11
    &&& entry_matches(m[0], CreatureType::Goblin, AnimationStates::IdleRight,
        "goblin_idle_right"@, 16, 5, PlayMode::Loop, sheet)
    &&& entry_matches(m[1], CreatureType::Goblin, AnimationStates::IdleLeft,
        "goblin_idle_left"@, 16, 5, PlayMode::Loop, sheet)
    &&& entry_matches(m[2], CreatureType::Goblin, AnimationStates::WalkRight,
        "goblin_walk_right"@, 4, 8, PlayMode::Loop, sheet)
    &&& entry_matches(m[3], CreatureType::Goblin, AnimationStates::WalkLeft,
        "goblin_walk_left"@, 4, 8, PlayMode::Loop, sheet)
    &&& entry_matches(m[4], CreatureType::Goblin, AnimationStates::WalkUpRight,
        "goblin_walk_up_right"@, 4, 8, PlayMode::Loop, sheet)
    &&& entry_matches(m[5], CreatureType::Goblin, AnimationStates::WalkUpLeft,
        "goblin_walk_up_left"@, 4, 8, PlayMode::Loop, sheet)
    &&& entry_matches(m[6], CreatureType::Goblin, AnimationStates::AttackRight,
        "goblin_attack_right"@, 4, 8, PlayMode::Loop, sheet)
    &&& entry_matches(m[7], CreatureType::Goblin, AnimationStates::AttackUpRight,
        "goblin_attack_up_right"@, 4, 8, PlayMode::Loop, sheet)
    &&& entry_matches(m[8], CreatureType::Goblin, AnimationStates::AttackLeft,
        "goblin_attack_left"@, 4, 8, PlayMode::Loop, sheet)
    &&& entry_matches(m[9], CreatureType::Goblin, AnimationStates::AttackUpLeft,
        "goblin_attack_up_left"@, 4, 8, PlayMode::Loop, sheet)
    &&& entry_matches(m[10], CreatureType::Goblin, AnimationStates::Die, "goblin_die"@, 12, 8,
        PlayMode::Once, sheet)
}

/// Building the goblin's library is deterministic: two libraries built
/// from the same atlas hold the same labels and clips with identical
/// frame sequences, rates and modes.
pub proof fn lemma_goblin_build_deterministic(
    sheet: Seq<(String, crate::atlas::LiegeSprite)>,
    m1: Seq<(AnimationLabel, crate::animation::LiegeAnimation)>,
    m2: Seq<(AnimationLabel, crate::animation::LiegeAnimation)>,
)
    requires
        goblin_entries_match(m1, sheet),
        goblin_entries_match(m2, sheet),
    ensures
        m1.len() == m2.len(),
        forall|i: int|
            0 <= i < m1.len() ==> (#[trigger] m1[i]).0 == m2[i].0 && m1[i].1.spec_eq(m2[i].1),
{
}

/// Builds the goblin's clip library from its atlas: looping idles at 5
/// fps over 16 frames, looping walks and attacks at 8 fps over 4
/// frames, and a play-once death at 8 fps over 12 frames.  Fails
/// exactly when a named frame is absent.
pub fn load_goblin_animations(sheet: &SpriteSheet) -> (r: Result<AnimationMap, BuildError>)
    ensures
        match r {
            Ok(m) => {
                &&& goblin_atlas_complete(sheet.frames@)
                &&& goblin_entries_match(m.animations@, sheet.frames@)
            },
            Err(e) => {
                &&& !goblin_atlas_complete(sheet.frames@)
                &&& match e {
                    BuildError::MissingFrame(name) => sheet_find(sheet.frames@, name@) is None,
                }
            },
        },
{
    let mut m = AnimationMap::new();
    let idle_right = match build_clip(sheet, "goblin_idle_right", 16, 5, PlayMode::Loop) {
        Ok(c) => c,
        Err(e) => return Err(e),
    };
    let idle_left = match build_clip(sheet, "goblin_idle_left", 16, 5, PlayMode::Loop) {
        Ok(c) => c,
        Err(e) => return Err(e),
    };
    let walk_right = match build_clip(sheet, "goblin_walk_right", 4, 8, PlayMode::Loop) {
        Ok(c) => c,
        Err(e) => return Err(e),
    };
    let walk_left = match build_clip(sheet, "goblin_walk_left", 4, 8, PlayMode::Loop) {
        Ok(c) => c,
        Err(e) => return Err(e),
    };
    let walk_up_right = match build_clip(sheet, "goblin_walk_up_right", 4, 8, PlayMode::Loop) {
        Ok(c) => c,
        Err(e) => return Err(e),
    };
    let walk_up_left = match build_clip(sheet, "goblin_walk_up_left", 4, 8, PlayMode::Loop) {
        Ok(c) => c,
        Err(e) => return Err(e),
    };
    let attack_right = match build_clip(sheet, "goblin_attack_right", 4, 8, PlayMode::Loop) {
        Ok(c) => c,
        Err(e) => return Err(e),
    };
    let attack_up_right = match build_clip(sheet, "goblin_attack_up_right", 4, 8, PlayMode::Loop) {
        Ok(c) => c,
        Err(e) => return Err(e),
    };
    let attack_left = match build_clip(sheet, "goblin_attack_left", 4, 8, PlayMode::Loop) {
        Ok(c) => c,
        Err(e) => return Err(e),
    };
    let attack_up_left = match build_clip(sheet, "goblin_attack_up_left", 4, 8, PlayMode::Loop) {
        Ok(c) => c,
        Err(e) => return Err(e),
    };
    let die = match build_clip(sheet, "goblin_die", 12, 8, PlayMode::Once) {
        Ok(c) => c,
        Err(e) => return Err(e),
    };
    let goblin = CreatureType::Goblin;
    m.animations.push(
        (AnimationLabel { creature: goblin, state: AnimationStates::IdleRight }, idle_right),
    );
    m.animations.push(
        (AnimationLabel { creature: goblin, state: AnimationStates::IdleLeft }, idle_left),
    );
    m.animations.push(
        (AnimationLabel { creature: goblin, state: AnimationStates::WalkRight }, walk_right),
    );
    m.animations.push(
        (AnimationLabel { creature: goblin, state: AnimationStates::WalkLeft }, walk_left),
    );
    m.animations.push(
        (AnimationLabel { creature: goblin, state: AnimationStates::WalkUpRight }, walk_up_right),
    );
    m.animations.push(
        (AnimationLabel { creature: goblin, state: AnimationStates::WalkUpLeft }, walk_up_left),
    );
    m.animations.push(
        (AnimationLabel { creature: goblin, state: AnimationStates::AttackRight }, attack_right),
    );
    m.animations.push(
        (
            AnimationLabel { creature: goblin, state: AnimationStates::AttackUpRight },
            attack_up_right,
        ),
    );
    m.animations.push(
        (AnimationLabel { creature: goblin, state: AnimationStates::AttackLeft }, attack_left),
    );
    m.animations.push(
        (
            AnimationLabel { creature: goblin, state: AnimationStates::AttackUpLeft },
            attack_up_left,
        ),
    );
    m.animations.push((AnimationLabel { creature: goblin, state: AnimationStates::Die }, die));
    Ok(m)
}

} // verus!
