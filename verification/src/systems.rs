//! The per-tick behavior state machine.
//!
//! Each live entity is driven by two rules a tick: a death roll, which
//! may switch it to its death clip and later report it for removal, and
//! the idle/move rule, which picks destinations, walks toward them and
//! selects the directional walk clip.  Random draws are plain values
//! handed in by the caller, so every rule is deterministic and the
//! caller may inject a deterministic source.

use vstd::prelude::*;
use vstd::math::abs;

use crate::animation::{
    found_wf, map_find, AnimationLabel, AnimationMap, AnimationStates, LiegeAnimation,
};
use crate::arith::{isqrt64, lemma_step_le_speed, spec_isqrt};
use crate::components::{
    AnimatedComponent, AnimatedView, CreatureType, DrawableComponent, EntityKind, MapInformation,
    MovementComponent,
};
use crate::geom::WorldVec;
use crate::playback::PlaybackClock;

verus! {

/// Random draws are uniform in `[0, ROLL_RANGE)`.
pub const ROLL_RANGE: u32 = 1_000_000;

/// A death roll below this starts the death clip: a 0.005% chance per
/// tick.
pub const DEATH_THRESHOLD: u32 = 50;

/// An idle entity's roll below this picks a new destination: a 0.5%
/// chance per tick.
pub const MOVE_THRESHOLD: u32 = 5_000;

/// Destination tiles are drawn from `TILE_MIN..=TILE_MAX` on each axis.
pub const TILE_MIN: u32 = 1;

pub const TILE_MAX: u32 = 60;

/// Closer than one world unit to the destination counts as arrived.
pub const ARRIVE_RADIUS: i32 = 1000;

/// The random draws one entity's movement rule may consume in a tick.
#[derive(Clone, Copy, Debug, PartialEq, Eq, Structural)]
pub struct MoveDraws {
    pub roll: u32,
    pub tile_x: u32,
    pub tile_y: u32,
}

impl MoveDraws {
    pub open spec fn wf(self) -> bool {
        &&& TILE_MIN <= self.tile_x <= TILE_MAX
        &&& TILE_MIN <= self.tile_y <= TILE_MAX
    }
}

/// The animated component after swapping to the library clip of
/// `state`: new label, that clip's contents, playback reset.
pub open spec fn spec_swap(
    kind: CreatureType,
    state: AnimationStates,
    lib: Seq<(AnimationLabel, LiegeAnimation)>,
) -> AnimatedView {
    let label = AnimationLabel { creature: kind, state };
    let clip = map_find(lib, label)->Some_0;
    AnimatedView {
        label,
        frames: clip.frames@,
        fps: clip.fps,
        mode: clip.mode,
        elapsed_ms: 0,
    }
}

/// The labels a tick can demand of the library, all present and
/// usable: the default idle, the four walk directions and death.
pub open spec fn lib_ready(
    lib: Seq<(AnimationLabel, LiegeAnimation)>,
    kind: CreatureType,
) -> bool {
    &&& found_wf(lib, AnimationLabel { creature: kind, state: AnimationStates::IdleRight })
    &&& found_wf(lib, AnimationLabel { creature: kind, state: AnimationStates::WalkRight })
    &&& found_wf(lib, AnimationLabel { creature: kind, state: AnimationStates::WalkLeft })
    &&& found_wf(lib, AnimationLabel { creature: kind, state: AnimationStates::WalkUpRight })
    &&& found_wf(lib, AnimationLabel { creature: kind, state: AnimationStates::WalkUpLeft })
    &&& found_wf(lib, AnimationLabel { creature: kind, state: AnimationStates::Die })
}

/// The death rule: a live entity whose roll falls below
/// `DEATH_THRESHOLD` switches to its death clip; an entity already on
/// the death clip is reported for removal exactly when that clip has
/// completed.
pub open spec fn spec_death_step(
    a: AnimatedView,
    kind: CreatureType,
    lib: Seq<(AnimationLabel, LiegeAnimation)>,
    roll: u32,
) -> (AnimatedView, bool) {
    if a.label.state is Die {
        (a, a.ended())
    } else if roll < DEATH_THRESHOLD {
        (spec_swap(kind, AnimationStates::Die, lib), false)
    } else {
        (a, false)
    }
}

/// The walk clip for a raw direction vector, under the inclusive
/// tie-break rule: a zero component matches the first listed branch.
/// `y` grows downward, so `dy <= 0` means heading up.
pub open spec fn spec_walk_state(dx: int, dy: int) -> AnimationStates {
    if dx >= 0 && dy >= 0 {
        AnimationStates::WalkRight
    } else if dx <= 0 && dy >= 0 {
        AnimationStates::WalkLeft
    } else if dx >= 0 && dy <= 0 {
        AnimationStates::WalkUpRight
    } else {
        AnimationStates::WalkUpLeft
    }
}

/// The destination for a drawn tile pair, scaled to world units.
pub open spec fn spec_pick_dest(info: MapInformation, tile_x: u32, tile_y: u32) -> WorldVec {
    WorldVec {
        x: (tile_x * info.spec_step_x()) as i32,
        y: (tile_y * info.spec_step_y()) as i32,
    }
}

/// The idle/move rule, evaluated for a live entity each tick:
///
/// - a dying entity is left alone;
/// - with no destination, a roll below `MOVE_THRESHOLD` picks a random
///   tile destination; otherwise the entity idles, switching to the
///   default idle clip unless one of the two idle clips is active;
/// - with a destination closer than `ARRIVE_RADIUS`, it arrives:
///   destination resets to zero and the default idle clip starts;
/// - otherwise it steps toward the destination by its speed and shows
///   the directional walk clip, resetting playback only on a change.
pub open spec fn spec_movement_step(
    mov: MovementComponent,
    pos: WorldVec,
    a: AnimatedView,
    kind: CreatureType,
    info: MapInformation,
    lib: Seq<(AnimationLabel, LiegeAnimation)>,
    draws: MoveDraws,
) -> (MovementComponent, WorldVec, AnimatedView) {
    if a.label.state is Die {
        (mov, pos, a)
    } else if mov.destination.is_zero() {
        if draws.roll < MOVE_THRESHOLD {
            (
                MovementComponent {
                    destination: spec_pick_dest(info, draws.tile_x, draws.tile_y),
                    speed: mov.speed,
                },
                pos,
                a,
            )
        } else if a.label.state is IdleRight || a.label.state is IdleLeft {
            (mov, pos, a)
        } else {
            (mov, pos, spec_swap(kind, AnimationStates::IdleRight, lib))
        }
    } else {
        let dx = mov.destination.x - pos.x;
        let dy = mov.destination.y - pos.y;
        let d2 = dx * dx + dy * dy;
        if d2 < ARRIVE_RADIUS * ARRIVE_RADIUS {
            (
                MovementComponent { destination: WorldVec { x: 0, y: 0 }, speed: mov.speed },
                pos,
                spec_swap(kind, AnimationStates::IdleRight, lib),
            )
        } else {
            let len = spec_isqrt(d2);
            let sx = (abs(dx) * mov.speed) / len;
            let sy = (abs(dy) * mov.speed) / len;
            let np = WorldVec {
                x: (if dx >= 0 {
                    pos.x + sx
                } else {
                    pos.x - sx
                }) as i32,
                y: (if dy >= 0 {
                    pos.y + sy
                } else {
                    pos.y - sy
                }) as i32,
            };
            let label = AnimationLabel { creature: kind, state: spec_walk_state(dx, dy) };
            let a2 = if a.label == label {
                a
            } else {
                spec_swap(kind, spec_walk_state(dx, dy), lib)
            };
            (mov, np, a2)
        }
    }
}

/// Runtime check of `found_wf` for one label.
fn found_ok(m: &AnimationMap, label: AnimationLabel) -> (r: bool)
    ensures
        r == found_wf(m.animations@, label),
{
    match m.get(label) {
        Some(clip) => clip.check_wf(),
        None => false,
    }
}

/// Runtime check of `lib_ready`: whether the library holds a usable
/// clip for every label a tick can demand for `kind`.  Loaders leave a
/// clip out only on a broken asset, so a `false` here is fatal to the
/// caller.
pub fn library_ready(m: &AnimationMap, kind: CreatureType) -> (r: bool)
    ensures
        r == lib_ready(m.animations@, kind),
{
    found_ok(m, AnimationLabel { creature: kind, state: AnimationStates::IdleRight }) && found_ok(
        m,
        AnimationLabel { creature: kind, state: AnimationStates::WalkRight },
    ) && found_ok(m, AnimationLabel { creature: kind, state: AnimationStates::WalkLeft })
        && found_ok(m, AnimationLabel { creature: kind, state: AnimationStates::WalkUpRight })
        && found_ok(m, AnimationLabel { creature: kind, state: AnimationStates::WalkUpLeft })
        && found_ok(m, AnimationLabel { creature: kind, state: AnimationStates::Die })
}

/// Swaps the entity to the library clip of `state` and resets playback.
fn swap_to(
    animation: &mut AnimatedComponent,
    kind: CreatureType,
    state: AnimationStates,
    animation_mapping: &AnimationMap,
)
    requires
        found_wf(animation_mapping.animations@, AnimationLabel { creature: kind, state }),
    ensures
        final (animation)@ == spec_swap(kind, state, animation_mapping.animations@),
        final (animation).wf(),
{
    let label = AnimationLabel { creature: kind, state };
    let clip = animation_mapping.get_required(label);
    animation.liege_animation = clip.duplicate();
    animation.label = label;
    animation.animation_state = PlaybackClock::new();
}

/// The walk clip for a raw direction vector.
fn walk_state(dx: i64, dy: i64) -> (r: AnimationStates)
    ensures
        r == spec_walk_state(dx as int, dy as int),
{
    if dx >= 0 && dy >= 0 {
        AnimationStates::WalkRight
    } else if dx <= 0 && dy >= 0 {
        AnimationStates::WalkLeft
    } else if dx >= 0 && dy <= 0 {
        AnimationStates::WalkUpRight
    } else {
        AnimationStates::WalkUpLeft
    }
}

/// The death rule for one entity.  Returns whether the entity must be
/// removed from the live set at the end of this tick.
pub fn apply_random_death(
    animation: &mut AnimatedComponent,
    creature_type: &EntityKind,
    animation_mapping: &AnimationMap,
    roll: u32,
) -> (remove: bool)
    requires
        old(animation).wf(),
        found_wf(
            animation_mapping.animations@,
            AnimationLabel { creature: creature_type.kind, state: AnimationStates::Die },
        ),
    ensures
        (final (animation)@, remove) == spec_death_step(
            old(animation)@,
            creature_type.kind,
            animation_mapping.animations@,
            roll,
        ),
        final (animation).wf(),
{
    if animation.label.state == AnimationStates::Die {
        animation.animation_state.is_ended(&animation.liege_animation)
    } else if roll < DEATH_THRESHOLD {
        swap_to(animation, creature_type.kind, AnimationStates::Die, animation_mapping);
        false
    } else {
        false
    }
}

/// The idle/move rule for one entity.
pub fn apply_random_movement(
    movement: &mut MovementComponent,
    drawable: &mut DrawableComponent,
    animation: &mut AnimatedComponent,
    creature_type: &EntityKind,
    map_info: &MapInformation,
    animation_mapping: &AnimationMap,
    draws: MoveDraws,
)
    requires
        old(movement).wf(),
        old(drawable).wf(),
        old(animation).wf(),
        map_info.wf(),
        draws.wf(),
        lib_ready(animation_mapping.animations@, creature_type.kind),
    ensures
        (*final (movement), final (drawable).position, final (animation)@) == spec_movement_step(
            *old(movement),
            old(drawable).position,
            old(animation)@,
            creature_type.kind,
            *map_info,
            animation_mapping.animations@,
            draws,
        ),
        final (drawable).texture_handle == old(drawable).texture_handle,
        final (movement).wf(),
        final (drawable).wf(),
        final (animation).wf(),
{
    if animation.label.state == AnimationStates::Die {
        return ;
    }
    if movement.destination.eq_zero() {
        if draws.roll < MOVE_THRESHOLD {
            let step_x = map_info.step_x();
            let step_y = map_info.step_y();
            proof {
                assert((draws.tile_x as int) * (step_x as int) <= 60 * 16_000_000
                    && (draws.tile_x as int) * (step_x as int) >= 1 && (draws.tile_y as int)
                    * (step_y as int) <= 60 * 16_000_000 && (draws.tile_y as int) * (step_y as int)
                    >= 1) by (nonlinear_arith)
                    requires
                        1 <= draws.tile_x <= 60,
                        1 <= draws.tile_y <= 60,
                        1 <= step_x <= 16_000_000,
                        1 <= step_y <= 16_000_000,
                ;
            }
            let dest_x: u32 = draws.tile_x * step_x;
            let dest_y: u32 = draws.tile_y * step_y;
            movement.destination = WorldVec { x: dest_x as i32, y: dest_y as i32 };
        } else {
            let st = animation.label.state;
            if st == AnimationStates::IdleRight || st == AnimationStates::IdleLeft {
            } else {
                swap_to(
                    animation,
                    creature_type.kind,
                    AnimationStates::IdleRight,
                    animation_mapping,
                );
            }
        }
    } else {
        let dx: i64 = movement.destination.x as i64 - drawable.position.x as i64;
        let dy: i64 = movement.destination.y as i64 - drawable.position.y as i64;
        proof {
            assert((dx as int) * (dx as int) <= 4_000_000_000_000_000_000 && (dx as int) * (
            dx as int) >= 0 && (dy as int) * (dy as int) <= 4_000_000_000_000_000_000 && (
            dy as int) * (dy as int) >= 0) by (nonlinear_arith)
                requires
                    -2_000_000_000 <= dx <= 2_000_000_000,
                    -2_000_000_000 <= dy <= 2_000_000_000,
            ;
        }
        let d2: i64 = dx * dx + dy * dy;
        if d2 < 1_000_000 {
            movement.destination = WorldVec::zero();
            swap_to(animation, creature_type.kind, AnimationStates::IdleRight, animation_mapping);
        } else {
            let len: u64 = isqrt64(d2 as u64);
            proof {
                assert(len >= 1000) by (nonlinear_arith)
                    requires
                        ((len + 1) as int) * ((len + 1) as int) > d2,
                        d2 >= 1_000_000,
                        len >= 0,
                ;
            }
            let ax: u64 = if dx >= 0 {
                dx as u64
            } else {
                (-dx) as u64
            };
            let ay: u64 = if dy >= 0 {
                dy as u64
            } else {
                (-dy) as u64
            };
            proof {
                assert((ax as int) * (movement.speed as int) <= 2_000_000_000 * 1_000_000 && (
                ay as int) * (movement.speed as int) <= 2_000_000_000 * 1_000_000)
                    by (nonlinear_arith)
                    requires
                        0 <= ax <= 2_000_000_000,
                        0 <= ay <= 2_000_000_000,
                        0 <= movement.speed <= 1_000_000,
                ;
                assert((ax as int) * (ax as int) <= d2 && (ay as int) * (ay as int) <= d2)
                    by (nonlinear_arith)
                    requires
                        ax == abs(dx as int),
                        ay == abs(dy as int),
                        d2 == (dx as int) * (dx as int) + (dy as int) * (dy as int),
                ;
                lemma_step_le_speed(
                    ax as int,
                    d2 as int,
                    len as int,
                    movement.speed as int,
                );
                lemma_step_le_speed(
                    ay as int,
                    d2 as int,
                    len as int,
                    movement.speed as int,
                );
            }
            let sx: u64 = ax * (movement.speed as u64) / len;
            let sy: u64 = ay * (movement.speed as u64) / len;
            let nx: i32 = if dx >= 0 {
                drawable.position.x + sx as i32
            } else {
                drawable.position.x - sx as i32
            };
            let ny: i32 = if dy >= 0 {
                drawable.position.y + sy as i32
            } else {
                drawable.position.y - sy as i32
            };
            drawable.position = WorldVec { x: nx, y: ny };
            let ws = walk_state(dx, dy);
            let new_label = AnimationLabel { creature: creature_type.kind, state: ws };
            if animation.label != new_label {
                swap_to(animation, creature_type.kind, ws, animation_mapping);
            }
        }
    }
}

} // verus!
