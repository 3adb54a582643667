use liege::animation::{AnimationLabel, AnimationStates, BuildError, PlayMode};
use liege::animations::load_animations;
use liege::atlas::SpriteSheet;
use liege::components::CreatureType;
use liege::cursor::load_cursor_animations;
use liege::goblin::{load_goblin_animations, GoblinAnimationStates};
use liege::json::deserialize_json;
use liege::rogue::{load_rogue_animations, RogueAnimationStates};
use liege::systems::library_ready;

fn sprite_json(x: i32, y: i32) -> String {
    format!(
        "{{\"frame\":{{\"x\":{},\"y\":{},\"w\":9,\"h\":9}},\"rotated\":false,\
         \"trimmed\":true,\"spriteSourceSize\":{{\"x\":0,\"y\":0,\"w\":9,\"h\":9}},\
         \"sourceSize\":{{\"w\":9,\"h\":9}}}}",
        x, y
    )
}

fn atlas_json(series: &[(&str, usize)], singles: &[&str]) -> String {
    let mut members: Vec<String> = Vec::new();
    for (prefix, count) in series {
        for n in 1..=*count {
            members.push(format!("\"{}_{}.png\":{}", prefix, n, sprite_json(n as i32, 0)));
        }
    }
    for name in singles {
        members.push(format!("\"{}\":{}", name, sprite_json(0, 0)));
    }
    format!("{{\"frames\":{{{}}}}}", members.join(","))
}

fn rogue_sheet() -> SpriteSheet {
    let json = atlas_json(
        &[
            ("rogue_idle_right", 16),
            ("rogue_idle_left", 16),
            ("rogue_die", 26),
            ("rogue_attack_right", 4),
            ("rogue_attack_left", 4),
            ("rogue_attack_up_right", 4),
            ("rogue_attack_up_left", 4),
            ("rogue_walk_r", 4),
            ("rogue_walk_l", 4),
            ("rogue_walk_up_r", 4),
            ("rogue_walk_up_l", 4),
        ],
        &[],
    );
    deserialize_json(&json).expect("rogue atlas parses")
}

fn goblin_sheet() -> SpriteSheet {
    let json = atlas_json(
        &[
            ("goblin_idle_right", 16),
            ("goblin_idle_left", 16),
            ("goblin_die", 12),
            ("goblin_attack_right", 4),
            ("goblin_attack_left", 4),
            ("goblin_attack_up_right", 4),
            ("goblin_attack_up_left", 4),
            ("goblin_walk_right", 4),
            ("goblin_walk_left", 4),
            ("goblin_walk_up_right", 4),
            ("goblin_walk_up_left", 4),
        ],
        &[],
    );
    deserialize_json(&json).expect("goblin atlas parses")
}

#[test]
fn test_clip_counts_and_rates() {
    // Every built clip holds as many frames as its name list, at a
    // positive rate.
    let sheet = rogue_sheet();
    let m = load_rogue_animations(&sheet).expect("complete atlas");
    assert_eq!(m.animations.len(), 11);
    for (_, clip) in &m.animations {
        assert!(clip.fps > 0);
        assert!(!clip.frames.is_empty());
    }
    let die = m
        .get(AnimationLabel { creature: CreatureType::Rogue, state: AnimationStates::Die })
        .expect("die clip");
    assert_eq!(die.frames.len(), 26);
    assert_eq!(die.fps, 8);
    assert_eq!(die.mode, PlayMode::Once);
    let idle = m
        .get(AnimationLabel { creature: CreatureType::Rogue, state: AnimationStates::IdleRight })
        .expect("idle clip");
    assert_eq!(idle.frames.len(), 16);
    assert_eq!(idle.fps, 5);
    assert_eq!(idle.mode, PlayMode::Loop);
    // The frames come from the named atlas entries, in order.
    assert_eq!(idle.frames[0].frame.x, 1);
    assert_eq!(idle.frames[15].frame.x, 16);
}

#[test]
fn test_build_is_deterministic() {
    // Building twice from the same atlas yields identical clips.
    let sheet = rogue_sheet();
    let m1 = load_rogue_animations(&sheet).expect("complete atlas");
    let m2 = load_rogue_animations(&sheet).expect("complete atlas");
    assert_eq!(m1.animations.len(), m2.animations.len());
    for i in 0..m1.animations.len() {
        assert_eq!(m1.animations[i].0, m2.animations[i].0);
        assert_eq!(m1.animations[i].1.frames, m2.animations[i].1.frames);
        assert_eq!(m1.animations[i].1.fps, m2.animations[i].1.fps);
        assert_eq!(m1.animations[i].1.mode, m2.animations[i].1.mode);
    }
}

#[test]
fn test_missing_frame_fails_build() {
    // Leave one walk frame out: construction reports the miss.
    let json = atlas_json(
        &[
            ("rogue_idle_right", 16),
            ("rogue_idle_left", 16),
            ("rogue_die", 26),
            ("rogue_attack_right", 4),
            ("rogue_attack_left", 4),
            ("rogue_attack_up_right", 4),
            ("rogue_attack_up_left", 4),
            ("rogue_walk_r", 3),
            ("rogue_walk_l", 4),
            ("rogue_walk_up_r", 4),
            ("rogue_walk_up_l", 4),
        ],
        &[],
    );
    let sheet = deserialize_json(&json).expect("atlas parses");
    match load_rogue_animations(&sheet) {
        Ok(_) => panic!("a missing frame must fail the build"),
        Err(BuildError::MissingFrame(name)) => {
            assert_eq!(name, "rogue_walk_r_4.png");
        },
    }
}

#[test]
fn test_combined_library_is_ready_for_both_creatures() {
    let mut lib = load_rogue_animations(&rogue_sheet()).expect("rogue clips");
    let goblin = load_goblin_animations(&goblin_sheet()).expect("goblin clips");
    lib.extend(goblin);
    assert_eq!(lib.animations.len(), 22);
    assert!(library_ready(&lib, CreatureType::Rogue));
    assert!(library_ready(&lib, CreatureType::Goblin));

    let goblin_die = lib
        .get(AnimationLabel { creature: CreatureType::Goblin, state: AnimationStates::Die })
        .expect("goblin die clip");
    assert_eq!(goblin_die.frames.len(), 12);
    assert_eq!(goblin_die.mode, PlayMode::Once);
}

#[test]
fn test_rogue_only_library_is_not_ready_for_goblin() {
    let lib = load_rogue_animations(&rogue_sheet()).expect("rogue clips");
    assert!(library_ready(&lib, CreatureType::Rogue));
    assert!(!library_ready(&lib, CreatureType::Goblin));
}

#[test]
fn test_animation_state_labels() {
    assert_eq!(AnimationStates::IdleRight.to_str(), "_idle_right");
    assert_eq!(AnimationStates::Die.to_str(), "_die");
    assert_eq!(AnimationStates::WalkUpLeft.to_str(), "_walk_up_left");
    assert_eq!(AnimationStates::Die.get_creature_animation("rogue"), "rogue_die");
    assert_eq!(
        AnimationStates::WalkUpRight.get_creature_animation("goblin"),
        "goblin_walk_up_right"
    );
    let label = AnimationLabel { creature: CreatureType::Goblin, state: AnimationStates::IdleLeft };
    assert_eq!(label.to_label_string(), "goblin_idle_left");
    assert_eq!(CreatureType::Rogue.to_str(), "rogue");
    assert_eq!(CreatureType::Goblin.to_str(), "goblin");
}

#[test]
fn test_creature_specific_label_enums() {
    assert_eq!(RogueAnimationStates::RogueWalkUpRight.to_string(), "rogue_walk_up_right");
    assert_eq!(RogueAnimationStates::RogueDie.to_string(), "rogue_die");
    assert_eq!(GoblinAnimationStates::GoblinIdleLeft.to_string(), "goblin_idle_left");
    assert_eq!(GoblinAnimationStates::GoblinAttackUpLeft.to_string(), "goblin_attack_up_left");
}

#[test]
fn test_cursor_clips() {
    let json = atlas_json(&[("cursor_click_default", 4)], &["cursor_default.png"]);
    let sheet = deserialize_json(&json).expect("cursor atlas parses");
    let ui = load_cursor_animations(&sheet).expect("cursor clips");
    assert_eq!(ui.cursor_idle.animation.frames.len(), 1);
    assert_eq!(ui.cursor_idle.animation.fps, 5);
    assert_eq!(ui.cursor_idle.animation.mode, PlayMode::Loop);
    assert_eq!(ui.cursor_click.animation.frames.len(), 4);
    assert_eq!(ui.cursor_click.animation.fps, 12);
    assert_eq!(ui.cursor_click.animation.mode, PlayMode::Once);
    assert_eq!(ui.cursor_click.animation.frames[0].frame.x, 1);
    assert_eq!(ui.cursor_idle.texture_handle, "resources/ui/cursor/cursor.png");

    // Without the idle pointer frame the build fails.
    let json = atlas_json(&[("cursor_click_default", 4)], &[]);
    let sheet = deserialize_json(&json).expect("atlas parses");
    assert!(load_cursor_animations(&sheet).is_err());
}

#[test]
fn test_grid_animation_table() {
    let defs = load_animations();
    assert_eq!(defs.len(), 5);
    assert_eq!(defs[0].0, "rogue_idle");
    assert_eq!(defs[0].1.name, "idle");
    assert_eq!(defs[0].1.frames, 16);
    assert_eq!(defs[0].1.fps, 6);
    assert_eq!(defs[0].1.row, 0);
    assert_eq!(defs[4].0, "rogue_walk_up_left");
    assert_eq!(defs[4].1.row, 4);
    assert_eq!(defs[4].1.frames, 4);
    assert!(defs.iter().all(|d| d.1.tile_width == 9 && d.1.tile_height == 9 && d.1.playing));
}
