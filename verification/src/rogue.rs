//! The rogue's clip set, sliced from its atlas by naming convention.

use vstd::prelude::*;

use crate::animation::{
    all_present, build_clip, entry_matches, AnimationLabel, AnimationMap, AnimationStates,
    BuildError, PlayMode,
};
use crate::atlas::{sheet_find, SpriteSheet};
use crate::components::CreatureType;

verus! {

/// The rogue's clip labels.
#[derive(Clone, Copy, Debug, PartialEq, Eq, Structural)]
pub enum RogueAnimationStates {
    RogueIdleRight,
    RogueIdleLeft,
    RogueDie,
    RogueAttackRight,
    RogueAttackLeft,
    RogueAttackUpRight,
    RogueAttackUpLeft,
    RogueWalkRight,
    RogueWalkLeft,
    RogueWalkUpRight,
    RogueWalkUpLeft,
}

/// The label string of each rogue clip.
pub open spec fn spec_rogue_label(s: RogueAnimationStates) -> Seq<char> {
    match s {
        RogueAnimationStates::RogueIdleRight => "rogue_idle_right"@,
        RogueAnimationStates::RogueIdleLeft => "rogue_idle_left"@,
        RogueAnimationStates::RogueDie => "rogue_die"@,
        RogueAnimationStates::RogueAttackRight => "rogue_attack_right"@,
        RogueAnimationStates::RogueAttackLeft => "rogue_attack_left"@,
        RogueAnimationStates::RogueAttackUpRight => "rogue_attack_up_right"@,
        RogueAnimationStates::RogueAttackUpLeft => "rogue_attack_up_left"@,
        RogueAnimationStates::RogueWalkRight => "rogue_walk_right"@,
        RogueAnimationStates::RogueWalkLeft => "rogue_walk_left"@,
        RogueAnimationStates::RogueWalkUpRight => "rogue_walk_up_right"@,
        RogueAnimationStates::RogueWalkUpLeft => "rogue_walk_up_left"@,
    }
}

impl RogueAnimationStates {
    pub fn to_string(&self) -> (r: &'static str)
        ensures
            r@ == spec_rogue_label(*self),
    {
        match self {
            RogueAnimationStates::RogueIdleRight => "rogue_idle_right",
            RogueAnimationStates::RogueIdleLeft => "rogue_idle_left",
            RogueAnimationStates::RogueDie => "rogue_die",
            RogueAnimationStates::RogueAttackRight => "rogue_attack_right",
            RogueAnimationStates::RogueAttackLeft => "rogue_attack_left",
            RogueAnimationStates::RogueAttackUpRight => "rogue_attack_up_right",
            RogueAnimationStates::RogueAttackUpLeft => "rogue_attack_up_left",
            RogueAnimationStates::RogueWalkRight => "rogue_walk_right",
            RogueAnimationStates::RogueWalkLeft => "rogue_walk_left",
            RogueAnimationStates::RogueWalkUpRight => "rogue_walk_up_right",
            RogueAnimationStates::RogueWalkUpLeft => "rogue_walk_up_left",
        }
    }
}

/// Whether the sheet holds every frame the rogue's clips name.
pub open spec fn rogue_atlas_complete(sheet: Seq<(String, crate::atlas::LiegeSprite)>) -> bool {
    &&& all_present(sheet, "rogue_idle_right"@, 16)
    &&& all_present(sheet, "rogue_idle_left"@, 16)
    &&& all_present(sheet, "rogue_die"@, 26)
    &&& all_present(sheet, "rogue_attack_right"@, 4)
    &&& all_present(sheet, "rogue_attack_left"@, 4)
    &&& all_present(sheet, "rogue_attack_up_right"@, 4)
    &&& all_present(sheet, "rogue_attack_up_left"@, 4)
    &&& all_present(sheet, "rogue_walk_r"@, 4)
    &&& all_present(sheet, "rogue_walk_l"@, 4)
    &&& all_present(sheet, "rogue_walk_up_r"@, 4)
    &&& all_present(sheet, "rogue_walk_up_l"@, 4)
}

/// What the rogue's built library holds, entry by entry.
pub open spec fn rogue_entries_match(
    m: Seq<(AnimationLabel, crate::animation::LiegeAnimation)>,
    sheet: Seq<(String, crate::atlas::LiegeSprite)>,
) -> bool {
    &&& m.len() == 11
    &&& entry_matches(m[0], CreatureType::Rogue, AnimationStates::IdleRight,
        "rogue_idle_right"@, 16, 5, PlayMode::Loop, sheet)
    &&& entry_matches(m[1], CreatureType::Rogue, AnimationStates::IdleLeft,
        "rogue_idle_left"@, 16, 5, PlayMode::Loop, sheet)
    &&& entry_matches(m[2], CreatureType::Rogue, AnimationStates::Die, "rogue_die"@, 26, 8,
        PlayMode::Once, sheet)
    &&& entry_matches(m[3], CreatureType::Rogue, AnimationStates::AttackRight,
        "rogue_attack_right"@, 4, 8, PlayMode::Loop, sheet)
    &&& entry_matches(m[4], CreatureType::Rogue, AnimationStates::AttackLeft,
        "rogue_attack_left"@, 4, 8, PlayMode::Loop, sheet)
    &&& entry_matches(m[5], CreatureType::Rogue, AnimationStates::AttackUpRight,
        "rogue_attack_up_right"@, 4, 8, PlayMode::Loop, sheet)
    &&& entry_matches(m[6], CreatureType::Rogue, AnimationStates::AttackUpLeft,
        "rogue_attack_up_left"@, 4, 8, PlayMode::Loop, sheet)
    &&& entry_matches(m[7], CreatureType::Rogue, AnimationStates::WalkRight, "rogue_walk_r"@,
        4, 8, PlayMode::Loop, sheet)
    &&& entry_matches(m[8], CreatureType::Rogue, AnimationStates::WalkLeft, "rogue_walk_l"@, 4,
        8, PlayMode::Loop, sheet)
    &&& entry_matches(m[9], CreatureType::Rogue, AnimationStates::WalkUpRight,
        "rogue_walk_up_r"@, 4, 8, PlayMode::Loop, sheet)
    &&& entry_matches(m[10], CreatureType::Rogue, AnimationStates::WalkUpLeft,
        "rogue_walk_up_l"@, 4, 8, PlayMode::Loop, sheet)
}

/// Building the rogue's library is deterministic: two libraries built
/// from the same atlas hold the same labels and clips with identical
/// frame sequences, rates and modes.
pub proof fn lemma_rogue_build_deterministic(
    sheet: Seq<(String, crate::atlas::LiegeSprite)>,
    m1: Seq<(AnimationLabel, crate::animation::LiegeAnimation)>,
    m2: Seq<(AnimationLabel, crate::animation::LiegeAnimation)>,
)
    requires
        rogue_entries_match(m1, sheet),
        rogue_entries_match(m2, sheet),
    ensures
        m1.len() == m2.len(),
        forall|i: int|
            0 <= i < m1.len() ==> (#[trigger] m1[i]).0 == m2[i].0 && m1[i].1.spec_eq(m2[i].1),
{
}

/// Builds the rogue's clip library from its atlas: looping idles at 5
/// fps over 16 frames, looping attacks and walks at 8 fps over 4
/// frames, and a play-once death at 8 fps over 26 frames.  Fails
/// exactly when a named frame is absent.
pub fn load_rogue_animations(sheet: &SpriteSheet) -> (r: Result<AnimationMap, BuildError>)
    ensures
        match r {
            Ok(m) => {
                &&& rogue_atlas_complete(sheet.frames@)
                &&& rogue_entries_match(m.animations@, sheet.frames@)
            },
            Err(e) => {
                &&& !rogue_atlas_complete(sheet.frames@)
                &&& match e {
                    BuildError::MissingFrame(name) => sheet_find(sheet.frames@, name@) is None,
                }
            },
        },
{
    let mut m = AnimationMap::new();
    let idle_right = match build_clip(sheet, "rogue_idle_right", 16, 5, PlayMode::Loop) {
        Ok(c) => c,
        Err(e) => return Err(e),
    };
    let idle_left = match build_clip(sheet, "rogue_idle_left", 16, 5, PlayMode::Loop) {
        Ok(c) => c,
        Err(e) => return Err(e),
    };
    let die = match build_clip(sheet, "rogue_die", 26, 8, PlayMode::Once) {
        Ok(c) => c,
        Err(e) => return Err(e),
    };
    let attack_right = match build_clip(sheet, "rogue_attack_right", 4, 8, PlayMode::Loop) {
        Ok(c) => c,
        Err(e) => return Err(e),
    };
    let attack_left = match build_clip(sheet, "rogue_attack_left", 4, 8, PlayMode::Loop) {
        Ok(c) => c,
        Err(e) => return Err(e),
    };
    let attack_up_right = match build_clip(sheet, "rogue_attack_up_right", 4, 8, PlayMode::Loop) {
        Ok(c) => c,
        Err(e) => return Err(e),
    };
    let attack_up_left = match build_clip(sheet, "rogue_attack_up_left", 4, 8, PlayMode::Loop) {
        Ok(c) => c,
        Err(e) => return Err(e),
    };
    let walk_right = match build_clip(sheet, "rogue_walk_r", 4, 8, PlayMode::Loop) {
        Ok(c) => c,
        Err(e) => return Err(e),
    };
    let walk_left = match build_clip(sheet, "rogue_walk_l", 4, 8, PlayMode::Loop) {
        Ok(c) => c,
        Err(e) => return Err(e),
    };
    let walk_up_right = match build_clip(sheet, "rogue_walk_up_r", 4, 8, PlayMode::Loop) {
        Ok(c) => c,
        Err(e) => return Err(e),
    };
    let walk_up_left = match build_clip(sheet, "rogue_walk_up_l", 4, 8, PlayMode::Loop) {
        Ok(c) => c,
        Err(e) => return Err(e),
    };
    let rogue = CreatureType::Rogue;
    m.animations.push(
        (AnimationLabel { creature: rogue, state: AnimationStates::IdleRight }, idle_right),
    );
    m.animations.push(
        (AnimationLabel { creature: rogue, state: AnimationStates::IdleLeft }, idle_left),
    );
    m.animations.push((AnimationLabel { creature: rogue, state: AnimationStates::Die }, die));
    m.animations.push(
        (AnimationLabel { creature: rogue, state: AnimationStates::AttackRight }, attack_right),
    );
    m.animations.push(
        (AnimationLabel { creature: rogue, state: AnimationStates::AttackLeft }, attack_left),
    );
    m.animations.push(
        (
            AnimationLabel { creature: rogue, state: AnimationStates::AttackUpRight },
            attack_up_right,
        ),
    );
    m.animations.push(
        (
            AnimationLabel { creature: rogue, state: AnimationStates::AttackUpLeft },
            attack_up_left,
        ),
    );
    m.animations.push(
        (AnimationLabel { creature: rogue, state: AnimationStates::WalkRight }, walk_right),
    );
    m.animations.push(
        (AnimationLabel { creature: rogue, state: AnimationStates::WalkLeft }, walk_left),
    );
    m.animations.push(
        (AnimationLabel { creature: rogue, state: AnimationStates::WalkUpRight }, walk_up_right),
    );
    m.animations.push(
        (AnimationLabel { creature: rogue, state: AnimationStates::WalkUpLeft }, walk_up_left),
    );
    Ok(m)
}

} // verus!
