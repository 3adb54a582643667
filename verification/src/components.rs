//! Per-entity components and the world configuration handed in by the
//! terrain provider.

use vstd::prelude::*;

use crate::animation::{AnimationLabel, LiegeAnimation, PlayMode};
use crate::atlas::LiegeSprite;
use crate::geom::WorldVec;
use crate::playback::{spec_ended_at, spec_frame_index_at, PlaybackClock, ELAPSED_CAP};

verus! {

/// Positions stay within this many milli-units of the origin.
pub const POS_LIMIT: i32 = 1_000_000_000;

/// Chosen destinations stay within this bound, so a step toward one
/// keeps the position within `POS_LIMIT`.
pub const DEST_LIMIT: i32 = 999_000_000;

/// Largest per-tick speed, in milli-units.
pub const SPEED_LIMIT: i32 = 1_000_000;

/// Coarse behavioral states an entity can be drawn in.
#[derive(Clone, Copy, Debug, PartialEq, Eq, Structural)]
pub enum AnimationState {
    Idle,
    WalkRight,
    WalkLeft,
    WalkUpRight,
    WalkUpLeft,
}

/// The creatures the simulation knows.
#[derive(Clone, Copy, Debug, PartialEq, Eq, Structural)]
pub enum CreatureType {
    Rogue,
    Goblin,
}

impl CreatureType {
    /// The creature's label-string prefix.
    pub fn to_str(&self) -> (r: &'static str)
        ensures
            r@ == crate::animation::spec_creature_prefix(*self),
    {
        match self {
            CreatureType::Rogue => "rogue",
            CreatureType::Goblin => "goblin",
        }
    }
}

/// Positions the behavior rules keep in range.
pub open spec fn pos_wf(v: WorldVec) -> bool {
    &&& -POS_LIMIT <= v.x <= POS_LIMIT
    &&& -POS_LIMIT <= v.y <= POS_LIMIT
}

/// Where the entity is drawn, and with which texture.
#[derive(Clone, Copy, Debug)]
pub struct DrawableComponent {
    pub position: WorldVec,
    pub texture_handle: &'static str,
}

impl DrawableComponent {
    pub open spec fn wf(self) -> bool {
        pos_wf(self.position)
    }
}

/// Where the entity is heading.  A zero destination means "no
/// destination / idle-eligible".
#[derive(Clone, Copy, Debug, PartialEq, Eq, Structural)]
pub struct MovementComponent {
    pub destination: WorldVec,
    pub speed: i32,
}

impl MovementComponent {
    /// Component values the behavior rules keep in range.
    pub open spec fn wf(self) -> bool {
        &&& 0 <= self.speed <= SPEED_LIMIT
        &&& self.destination.is_zero() || (1 <= self.destination.x <= DEST_LIMIT && 1
            <= self.destination.y <= DEST_LIMIT)
    }
}

/// The entity's active clip and its playback state.
#[derive(Debug)]
pub struct AnimatedComponent {
    pub label: AnimationLabel,
    pub liege_animation: LiegeAnimation,
    pub animation_state: PlaybackClock,
}

/// Mathematical value of an `AnimatedComponent`: the label, the clip's
/// contents, and the clock.
pub ghost struct AnimatedView {
    pub label: AnimationLabel,
    pub frames: Seq<LiegeSprite>,
    pub fps: u32,
    pub mode: PlayMode,
    pub elapsed_ms: u64,
}

impl AnimatedView {
    pub open spec fn wf(self) -> bool {
        &&& 1 <= self.frames.len() <= 100_000
        &&& 1 <= self.fps <= 1000
        &&& self.elapsed_ms <= ELAPSED_CAP
    }

    /// Whether the active clip has completed.
    pub open spec fn ended(self) -> bool {
        spec_ended_at(self.elapsed_ms, self.fps, self.frames.len() as int, self.mode)
    }

    /// The frame index the active clip currently shows.
    pub open spec fn frame_index(self) -> int {
        spec_frame_index_at(self.elapsed_ms, self.fps, self.frames.len() as int, self.mode)
    }
}

impl View for AnimatedComponent {
    type V = AnimatedView;

    open spec fn view(&self) -> AnimatedView {
        AnimatedView {
            label: self.label,
            frames: self.liege_animation.frames@,
            fps: self.liege_animation.fps,
            mode: self.liege_animation.mode,
            elapsed_ms: self.animation_state.elapsed_ms,
        }
    }
}

impl AnimatedComponent {
    /// The string key of the active clip, e.g. `"rogue_idle_right"`.
    pub fn animated_sprite_label(&self) -> (r: String)
        ensures
            r@ == crate::animation::spec_creature_prefix(self.label.creature)
                + crate::animation::spec_state_suffix(self.label.state),
    {
        self.label.to_label_string()
    }

    pub open spec fn wf(self) -> bool {
        self@.wf()
    }
}

/// Which creature this entity is.
#[derive(Clone, Copy, Debug, PartialEq, Eq, Structural)]
pub struct EntityKind {
    pub kind: CreatureType,
}

/// UI selection flag, orthogonal to behavior.
#[derive(Clone, Copy, Debug, PartialEq, Eq, Structural)]
pub struct SelectedComponent {
    pub selected: bool,
}

/// Read-only world configuration from the terrain provider.  Sizes and
/// scales are in milli-units: a tile size of `8000` with a scale of
/// `2500` gives tiles `20` world units apart.
#[derive(Clone, Copy, Debug, PartialEq, Eq, Structural)]
pub struct MapInformation {
    pub width: i32,
    pub height: i32,
    pub tile_size: u32,
    pub tile_scale_x: u32,
    pub tile_scale_y: u32,
}

impl MapInformation {
    /// World-space distance between tile columns, in milli-units.
    pub open spec fn spec_step_x(self) -> int {
        (self.tile_size * self.tile_scale_x) / 1000
    }

    /// World-space distance between tile rows, in milli-units.
    pub open spec fn spec_step_y(self) -> int {
        (self.tile_size * self.tile_scale_y) / 1000
    }

    /// A usable configuration: tile steps positive and small enough
    /// that every chosen destination stays within `DEST_LIMIT`.
    pub open spec fn wf(self) -> bool {
        &&& 1 <= self.spec_step_x() <= 16_000_000
        &&& 1 <= self.spec_step_y() <= 16_000_000
    }

    /// World-space distance between tile columns, in milli-units.
    pub fn step_x(&self) -> (r: u32)
        requires
            self.wf(),
        ensures
            r == self.spec_step_x(),
    {
        (((self.tile_size as u64) * (self.tile_scale_x as u64)) / 1000) as u32
    }

    /// World-space distance between tile rows, in milli-units.
    pub fn step_y(&self) -> (r: u32)
        requires
            self.wf(),
        ensures
            r == self.spec_step_y(),
    {
        (((self.tile_size as u64) * (self.tile_scale_y as u64)) / 1000) as u32
    }
}

} // verus!
