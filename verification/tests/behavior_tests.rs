use liege::animation::{AnimationLabel, AnimationMap, AnimationStates};
use liege::components::{CreatureType, MapInformation};
use liege::geom::WorldVec;
use liege::goblin::load_goblin_animations;
use liege::json::deserialize_json;
use liege::rogue::load_rogue_animations;
use liege::systems::{
    apply_random_death, apply_random_movement, MoveDraws, DEATH_THRESHOLD, MOVE_THRESHOLD,
};
use liege::world::{new_entity, SimEntity, TickDraws, World};

fn sprite_json(x: i32, y: i32) -> String {
    format!(
        "{{\"frame\":{{\"x\":{},\"y\":{},\"w\":9,\"h\":9}},\"rotated\":false,\
         \"trimmed\":true,\"spriteSourceSize\":{{\"x\":0,\"y\":0,\"w\":9,\"h\":9}},\
         \"sourceSize\":{{\"w\":9,\"h\":9}}}}",
        x, y
    )
}

fn atlas_json(series: &[(&str, usize)]) -> String {
    let mut members: Vec<String> = Vec::new();
    for (prefix, count) in series {
        for n in 1..=*count {
            members.push(format!("\"{}_{}.png\":{}", prefix, n, sprite_json(n as i32, 0)));
        }
    }
    format!("{{\"frames\":{{{}}}}}", members.join(","))
}

fn full_library() -> AnimationMap {
    let rogue_json = atlas_json(&[
        ("rogue_idle_right", 16),
        ("rogue_idle_left", 16),
        ("rogue_die", 26),
        ("rogue_attack_right", 4),
        ("rogue_attack_left", 4),
        ("rogue_attack_up_right", 4),
        ("rogue_attack_up_left", 4),
        ("rogue_walk_r", 4),
        ("rogue_walk_l", 4),
        ("rogue_walk_up_r", 4),
        ("rogue_walk_up_l", 4),
    ]);
    let goblin_json = atlas_json(&[
        ("goblin_idle_right", 16),
        ("goblin_idle_left", 16),
        ("goblin_die", 12),
        ("goblin_attack_right", 4),
        ("goblin_attack_left", 4),
        ("goblin_attack_up_right", 4),
        ("goblin_attack_up_left", 4),
        ("goblin_walk_right", 4),
        ("goblin_walk_left", 4),
        ("goblin_walk_up_right", 4),
        ("goblin_walk_up_left", 4),
    ]);
    let rogue_sheet = deserialize_json(&rogue_json).expect("rogue atlas parses");
    let goblin_sheet = deserialize_json(&goblin_json).expect("goblin atlas parses");
    let mut lib = load_rogue_animations(&rogue_sheet).expect("rogue clips");
    lib.extend(load_goblin_animations(&goblin_sheet).expect("goblin clips"));
    lib
}

fn map_info() -> MapInformation {
    // Tiles of 8 world units at a 2.5 scale: 20 units (20000 milli)
    // between tile corners.
    MapInformation { width: 200, height: 200, tile_size: 8000, tile_scale_x: 2500, tile_scale_y: 2500 }
}

fn rogue_at(lib: &AnimationMap, x: i32, y: i32) -> SimEntity {
    new_entity(CreatureType::Rogue, x, y, 500, "resources/characters/rogue/rogue.png", lib)
        .expect("entity spawns")
}

fn idle_draws(roll: u32) -> MoveDraws {
    MoveDraws { roll, tile_x: 10, tile_y: 20 }
}

#[test]
fn test_idle_entity_above_threshold_stays_idle_unchanged() {
    // An idle-right entity that draws at or above the move threshold
    // keeps its destination and its label.
    let lib = full_library();
    let info = map_info();
    let mut e = rogue_at(&lib, 100_000, 100_000);
    e.animated.animation_state.update(100);
    apply_random_movement(
        &mut e.movement,
        &mut e.drawable,
        &mut e.animated,
        &e.kind,
        &info,
        &lib,
        idle_draws(MOVE_THRESHOLD),
    );
    assert_eq!(e.movement.destination, WorldVec { x: 0, y: 0 });
    assert_eq!(e.animated.label.state, AnimationStates::IdleRight);
    // The playback clock was not reset: no clip swap happened.
    assert_eq!(e.animated.animation_state.elapsed_ms, 100);
    assert_eq!(e.drawable.position, WorldVec { x: 100_000, y: 100_000 });
}

#[test]
fn test_idle_entity_below_threshold_picks_destination() {
    let lib = full_library();
    let info = map_info();
    let mut e = rogue_at(&lib, 100_000, 100_000);
    apply_random_movement(
        &mut e.movement,
        &mut e.drawable,
        &mut e.animated,
        &e.kind,
        &info,
        &lib,
        idle_draws(MOVE_THRESHOLD - 1),
    );
    // Tiles (10, 20) at 20000 milli-units per tile.
    assert_eq!(e.movement.destination, WorldVec { x: 200_000, y: 400_000 });
    // Picking a destination by itself changes no clip.
    assert_eq!(e.animated.label.state, AnimationStates::IdleRight);
    assert_eq!(e.drawable.position, WorldVec { x: 100_000, y: 100_000 });
}

#[test]
fn test_walking_entity_switches_to_default_idle_when_staying() {
    let lib = full_library();
    let info = map_info();
    let mut e = rogue_at(&lib, 100_000, 100_000);
    e.animated.label = AnimationLabel { creature: CreatureType::Rogue, state: AnimationStates::WalkLeft };
    e.animated.animation_state.update(700);
    apply_random_movement(
        &mut e.movement,
        &mut e.drawable,
        &mut e.animated,
        &e.kind,
        &info,
        &lib,
        idle_draws(MOVE_THRESHOLD),
    );
    assert_eq!(e.animated.label.state, AnimationStates::IdleRight);
    // The swap reset playback.
    assert_eq!(e.animated.animation_state.elapsed_ms, 0);
}

#[test]
fn test_arrival_at_half_a_unit_resets_destination() {
    // Distance exactly 0.5 world units (500 milli) is within the
    // arrival radius: the entity goes idle and clears its destination.
    let lib = full_library();
    let info = map_info();
    let mut e = rogue_at(&lib, 1000, 1000);
    e.movement.destination = WorldVec { x: 1500, y: 1000 };
    e.animated.label = AnimationLabel { creature: CreatureType::Rogue, state: AnimationStates::WalkRight };
    apply_random_movement(
        &mut e.movement,
        &mut e.drawable,
        &mut e.animated,
        &e.kind,
        &info,
        &lib,
        idle_draws(999_999),
    );
    assert_eq!(e.movement.destination, WorldVec { x: 0, y: 0 });
    assert_eq!(e.animated.label.state, AnimationStates::IdleRight);
    assert_eq!(e.drawable.position, WorldVec { x: 1000, y: 1000 });
}

#[test]
fn test_direction_right_up_selects_walk_up_right() {
    // Direction (3, -2): x >= 0 and y <= 0, so walk-up-right under the
    // inclusive tie-break rule.
    let lib = full_library();
    let info = map_info();
    let mut e = rogue_at(&lib, 1000, 3000);
    e.movement.destination = WorldVec { x: 4000, y: 1000 };
    apply_random_movement(
        &mut e.movement,
        &mut e.drawable,
        &mut e.animated,
        &e.kind,
        &info,
        &lib,
        idle_draws(999_999),
    );
    assert_eq!(e.animated.label.state, AnimationStates::WalkUpRight);
    // One step of speed 500 toward the destination, by integer
    // normalization over the distance isqrt(3000^2 + 2000^2) = 3605.
    assert_eq!(e.drawable.position, WorldVec { x: 1416, y: 2723 });
    assert_eq!(e.movement.destination, WorldVec { x: 4000, y: 1000 });
}

#[test]
fn test_direction_straight_down_selects_walk_right() {
    // Direction (0, 5): x == 0 matches the first listed branch, so
    // walk-right under the inclusive rule.
    let lib = full_library();
    let info = map_info();
    let mut e = rogue_at(&lib, 1000, 1000);
    e.movement.destination = WorldVec { x: 1000, y: 6000 };
    apply_random_movement(
        &mut e.movement,
        &mut e.drawable,
        &mut e.animated,
        &e.kind,
        &info,
        &lib,
        idle_draws(999_999),
    );
    assert_eq!(e.animated.label.state, AnimationStates::WalkRight);
    assert_eq!(e.drawable.position, WorldVec { x: 1000, y: 1500 });
}

#[test]
fn test_constant_direction_keeps_playback_running() {
    let lib = full_library();
    let info = map_info();
    let mut e = rogue_at(&lib, 1000, 1000);
    e.movement.destination = WorldVec { x: 50_000, y: 60_000 };
    apply_random_movement(
        &mut e.movement,
        &mut e.drawable,
        &mut e.animated,
        &e.kind,
        &info,
        &lib,
        idle_draws(999_999),
    );
    assert_eq!(e.animated.label.state, AnimationStates::WalkRight);
    e.animated.animation_state.update(300);
    apply_random_movement(
        &mut e.movement,
        &mut e.drawable,
        &mut e.animated,
        &e.kind,
        &info,
        &lib,
        idle_draws(999_999),
    );
    // Same direction, same label: the clip was not swapped, so the
    // clock kept its elapsed time.
    assert_eq!(e.animated.label.state, AnimationStates::WalkRight);
    assert_eq!(e.animated.animation_state.elapsed_ms, 300);
}

#[test]
fn test_death_roll_below_threshold_starts_death_clip() {
    let lib = full_library();
    let mut e = rogue_at(&lib, 1000, 1000);
    e.animated.animation_state.update(400);
    let removed = apply_random_death(&mut e.animated, &e.kind, &lib, DEATH_THRESHOLD - 1);
    assert!(!removed);
    assert_eq!(e.animated.label.state, AnimationStates::Die);
    assert_eq!(e.animated.liege_animation.frames.len(), 26);
    assert_eq!(e.animated.animation_state.elapsed_ms, 0);
}

#[test]
fn test_death_roll_at_threshold_changes_nothing() {
    let lib = full_library();
    let mut e = rogue_at(&lib, 1000, 1000);
    let removed = apply_random_death(&mut e.animated, &e.kind, &lib, DEATH_THRESHOLD);
    assert!(!removed);
    assert_eq!(e.animated.label.state, AnimationStates::IdleRight);
}

#[test]
fn test_dying_entity_reported_only_when_clip_ends() {
    let lib = full_library();
    let mut e = rogue_at(&lib, 1000, 1000);
    apply_random_death(&mut e.animated, &e.kind, &lib, 0);
    assert_eq!(e.animated.label.state, AnimationStates::Die);
    // 26 frames at 8 fps complete at 3.25 s.
    e.animated.animation_state.update(3249);
    assert!(!apply_random_death(&mut e.animated, &e.kind, &lib, 999_999));
    e.animated.animation_state.update(1);
    assert!(apply_random_death(&mut e.animated, &e.kind, &lib, 999_999));
    // A dying entity never rolls again: its label stays the death clip.
    assert_eq!(e.animated.label.state, AnimationStates::Die);
}

fn quiet_draws() -> TickDraws {
    TickDraws { death_roll: 999_999, move_draws: MoveDraws { roll: 999_999, tile_x: 1, tile_y: 1 } }
}

#[test]
fn test_completed_dying_entity_leaves_world_exactly_once() {
    // Once a death clip reports ended, the entity is absent from the
    // live set after the next tick, and no other entity is touched.
    let lib = full_library();
    let info = map_info();
    let mut world = World::new();
    let mut dying = rogue_at(&lib, 1000, 1000);
    apply_random_death(&mut dying.animated, &dying.kind, &lib, 0);
    dying.animated.animation_state.update(3250);
    world.push(dying);
    world.push(rogue_at(&lib, 2000, 2000));
    assert_eq!(world.len(), 2);

    world.tick_with_draws(&lib, &info, &vec![quiet_draws(), quiet_draws()], 16);
    assert_eq!(world.len(), 1);
    assert_eq!(world.entities[0].drawable.position, WorldVec { x: 2000, y: 2000 });

    world.tick_with_draws(&lib, &info, &vec![quiet_draws()], 16);
    assert_eq!(world.len(), 1);
}

#[test]
fn test_dying_entity_stays_until_clip_completes() {
    let lib = full_library();
    let info = map_info();
    let mut world = World::new();
    let mut dying = rogue_at(&lib, 1000, 1000);
    apply_random_death(&mut dying.animated, &dying.kind, &lib, 0);
    // 3.0 s elapsed: frame 24 of 26, not yet complete.
    dying.animated.animation_state.update(3000);
    world.push(dying);

    world.tick_with_draws(&lib, &info, &vec![quiet_draws()], 100);
    assert_eq!(world.len(), 1);
    // The tick advanced its clip by the shared delta.
    assert_eq!(world.entities[0].animated.animation_state.elapsed_ms, 3100);
    // A dying entity does not move or re-roll decisions.
    assert_eq!(world.entities[0].movement.destination, WorldVec { x: 0, y: 0 });
}

#[test]
fn test_tick_advances_all_clocks_by_shared_delta() {
    let lib = full_library();
    let info = map_info();
    let mut world = World::new();
    world.push(rogue_at(&lib, 1000, 1000));
    world.push(rogue_at(&lib, 9000, 9000));
    world.tick_with_draws(&lib, &info, &vec![quiet_draws(), quiet_draws()], 42);
    assert_eq!(world.entities[0].animated.animation_state.elapsed_ms, 42);
    assert_eq!(world.entities[1].animated.animation_state.elapsed_ms, 42);
}

#[test]
fn test_random_tick_keeps_world_well_formed() {
    let lib = full_library();
    let info = map_info();
    let mut world = World::new();
    for i in 0..8 {
        world.push(rogue_at(&lib, 1000 * i, 2000 * i));
    }
    for _ in 0..50 {
        world.tick(&lib, &info, 16);
    }
    assert!(world.len() <= 8);
    for e in &world.entities {
        let d = e.movement.destination;
        assert!(d == WorldVec { x: 0, y: 0 } || (d.x >= 1 && d.y >= 1));
        // Any picked destination lies on the drawn tile grid.
        if d.x != 0 {
            assert_eq!(d.x % 20_000, 0);
            assert!(d.x >= 20_000 && d.x <= 1_200_000);
            assert_eq!(d.y % 20_000, 0);
            assert!(d.y >= 20_000 && d.y <= 1_200_000);
        }
    }
}

#[test]
fn test_new_entity_rejects_out_of_range_values() {
    let lib = full_library();
    assert!(new_entity(CreatureType::Rogue, 0, 0, -1, "t", &lib).is_none());
    assert!(new_entity(CreatureType::Rogue, 2_000_000_000, 0, 500, "t", &lib).is_none());
    let empty = AnimationMap::new();
    assert!(new_entity(CreatureType::Rogue, 0, 0, 500, "t", &empty).is_none());
    let e = new_entity(CreatureType::Goblin, 5, 6, 500, "t", &lib).expect("spawns");
    assert_eq!(e.kind.kind, CreatureType::Goblin);
    assert_eq!(e.animated.label.state, AnimationStates::IdleRight);
    assert!(!e.selected.selected);
    // The goblin idle clip has 16 frames; its first atlas entry sits at
    // column 1 in the generated atlas.
    assert_eq!(e.current_sprite().frame.x, 1);
}
