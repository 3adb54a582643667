//! Animation clips, labels and the clip library.
//!
//! A clip is an ordered list of atlas sprites plus a playback rate and a
//! loop/once mode.  Clips are looked up by a label that pairs a creature
//! with an action/direction state; the label also renders to the string
//! key (`"<creature>_<action>_<direction>"`) that the atlas assets use.

use vstd::prelude::*;
use vstd::string::StringExecFns;

use crate::atlas::{sheet_find, LiegeSprite, SpriteSheet};
use crate::components::CreatureType;

verus! {

/// Building a clip or a library fails when the atlas lacks a frame the
/// naming convention demands; the missing name is carried along.  Such
/// a miss means a broken asset and is fatal to the caller.
#[derive(Debug)]
pub enum BuildError {
    MissingFrame(String),
}

/// Action-and-direction part of an animation label.
#[derive(Clone, Copy, Debug, PartialEq, Eq, Structural)]
pub enum AnimationStates {
    IdleRight,
    IdleLeft,
    Die,
    AttackRight,
    AttackLeft,
    AttackUpRight,
    AttackUpLeft,
    WalkRight,
    WalkLeft,
    WalkUpRight,
    WalkUpLeft,
}

/// The label-string suffix for each animation state.
pub open spec fn spec_state_suffix(s: AnimationStates) -> Seq<char> {
    match s {
        AnimationStates::IdleRight => "_idle_right"@,
        AnimationStates::IdleLeft => "_idle_left"@,
        AnimationStates::Die => "_die"@,
        AnimationStates::AttackRight => "_attack_right"@,
        AnimationStates::AttackLeft => "_attack_left"@,
        AnimationStates::AttackUpRight => "_attack_up_right"@,
        AnimationStates::AttackUpLeft => "_attack_up_left"@,
        AnimationStates::WalkRight => "_walk_right"@,
        AnimationStates::WalkLeft => "_walk_left"@,
        AnimationStates::WalkUpRight => "_walk_up_right"@,
        AnimationStates::WalkUpLeft => "_walk_up_left"@,
    }
}

impl AnimationStates {
    /// The label-string suffix for this state.
    pub fn to_str(&self) -> (r: &'static str)
        ensures
            r@ == spec_state_suffix(*self),
    {
        match self {
            AnimationStates::IdleRight => "_idle_right",
            AnimationStates::IdleLeft => "_idle_left",
            AnimationStates::Die => "_die",
            AnimationStates::AttackRight => "_attack_right",
            AnimationStates::AttackLeft => "_attack_left",
            AnimationStates::AttackUpRight => "_attack_up_right",
            AnimationStates::AttackUpLeft => "_attack_up_left",
            AnimationStates::WalkRight => "_walk_right",
            AnimationStates::WalkLeft => "_walk_left",
            AnimationStates::WalkUpRight => "_walk_up_right",
            AnimationStates::WalkUpLeft => "_walk_up_left",
        }
    }

    /// The full label string for a creature in this state.
    pub fn get_creature_animation(&self, creature_type: &str) -> (r: String)
        ensures
            r@ == creature_type@ + spec_state_suffix(*self),
    {
        String::from_str(creature_type).concat(self.to_str())
    }
}

/// Which clip an entity is showing: a creature plus its current state.
#[derive(Clone, Copy, Debug, PartialEq, Eq, Structural)]
pub struct AnimationLabel {
    pub creature: CreatureType,
    pub state: AnimationStates,
}

impl AnimationLabel {
    /// The string form of the label, e.g. `"rogue_walk_up_left"`.
    pub fn to_label_string(&self) -> (r: String)
        ensures
            r@ == spec_creature_prefix(self.creature) + spec_state_suffix(self.state),
    {
        self.state.get_creature_animation(self.creature.to_str())
    }
}

/// The label-string prefix for each creature.
pub open spec fn spec_creature_prefix(c: CreatureType) -> Seq<char> {
    match c {
        CreatureType::Rogue => "rogue"@,
        CreatureType::Goblin => "goblin"@,
    }
}

/// Whether a clip repeats or holds its last frame.
#[derive(Clone, Copy, Debug, PartialEq, Eq, Structural)]
pub enum PlayMode {
    Loop,
    Once,
}

/// An animation clip: ordered sprites, playback rate, loop/once mode.
#[derive(Debug)]
pub struct LiegeAnimation {
    pub frames: Vec<LiegeSprite>,
    pub fps: u32,
    pub mode: PlayMode,
}

impl LiegeAnimation {
    /// A usable clip: at least one frame and a positive bounded rate.
    pub open spec fn wf(self) -> bool {
        &&& 1 <= self.frames@.len() <= 100_000
        &&& 1 <= self.fps <= 1000
    }

    pub open spec fn spec_eq(self, other: LiegeAnimation) -> bool {
        self.frames@ == other.frames@ && self.fps == other.fps && self.mode == other.mode
    }

    pub fn frame_count(&self) -> (r: usize)
        ensures
            r == self.frames@.len(),
    {
        self.frames.len()
    }

    /// Runtime check of `wf`.
    pub fn check_wf(&self) -> (r: bool)
        ensures
            r == self.wf(),
    {
        let n = self.frames.len();
        1 <= n && n <= 100_000 && 1 <= self.fps && self.fps <= 1000
    }

    /// An independent copy, so each entity can own its playback without
    /// sharing state with another entity showing the same clip.
    pub fn duplicate(&self) -> (r: LiegeAnimation)
        ensures
            r.spec_eq(*self),
    {
        let mut frames: Vec<LiegeSprite> = Vec::new();
        let mut i: usize = 0;
        while i < self.frames.len()
            invariant
                i <= self.frames@.len(),
                frames@ =~= self.frames@.take(i as int),
            decreases self.frames@.len() - i,
        {
            frames.push(self.frames[i]);
            i = i + 1;
        }
        proof {
            assert(frames@ =~= self.frames@);
        }
        LiegeAnimation { frames, fps: self.fps, mode: self.mode }
    }

    /// Frame Resolver: the exact sprite to display for a frame index.
    pub fn resolve(&self, frame_index: usize) -> (r: LiegeSprite)
        requires
            frame_index < self.frames@.len(),
        ensures
            r == self.frames@[frame_index as int],
    {
        self.frames[frame_index]
    }
}

/// The first clip stored under `label`, if any.
pub open spec fn map_find(
    entries: Seq<(AnimationLabel, LiegeAnimation)>,
    label: AnimationLabel,
) -> Option<LiegeAnimation>
    decreases entries.len(),
{
    if entries.len() == 0 {
        None
    } else if entries.first().0 == label {
        Some(entries.first().1)
    } else {
        map_find(entries.drop_first(), label)
    }
}

/// The decimal string for a frame number, up to the largest clip
/// length the assets use.
pub open spec fn spec_index_str(n: int) -> Seq<char> {
    if n == 1 { "1"@ } else if n == 2 { "2"@ } else if n == 3 { "3"@ } else if n == 4 { "4"@ }
    else if n == 5 { "5"@ } else if n == 6 { "6"@ } else if n == 7 { "7"@ } else if n == 8 { "8"@ }
    else if n == 9 { "9"@ } else if n == 10 { "10"@ } else if n == 11 { "11"@ }
    else if n == 12 { "12"@ } else if n == 13 { "13"@ } else if n == 14 { "14"@ }
    else if n == 15 { "15"@ } else if n == 16 { "16"@ } else if n == 17 { "17"@ }
    else if n == 18 { "18"@ } else if n == 19 { "19"@ } else if n == 20 { "20"@ }
    else if n == 21 { "21"@ } else if n == 22 { "22"@ } else if n == 23 { "23"@ }
    else if n == 24 { "24"@ } else if n == 25 { "25"@ } else { "26"@ }
}

fn index_str(n: usize) -> (r: &'static str)
    requires
        1 <= n <= 26,
    ensures
        r@ == spec_index_str(n as int),
{
    match n {
        1 => "1",
        2 => "2",
        3 => "3",
        4 => "4",
        5 => "5",
        6 => "6",
        7 => "7",
        8 => "8",
        9 => "9",
        10 => "10",
        11 => "11",
        12 => "12",
        13 => "13",
        14 => "14",
        15 => "15",
        16 => "16",
        17 => "17",
        18 => "18",
        19 => "19",
        20 => "20",
        21 => "21",
        22 => "22",
        23 => "23",
        24 => "24",
        25 => "25",
        _ => "26",
    }
}

/// The atlas frame name for frame `n` of a clip: `"<prefix>_<n>.png"`.
pub open spec fn spec_frame_name(prefix: Seq<char>, n: int) -> Seq<char> {
    prefix + "_"@ + spec_index_str(n) + ".png"@
}

fn frame_name(prefix: &str, n: usize) -> (r: String)
    requires
        1 <= n <= 26,
    ensures
        r@ == spec_frame_name(prefix@, n as int),
{
    String::from_str(prefix).concat("_").concat(index_str(n)).concat(".png")
}

/// Whether the sheet holds every frame `"<prefix>_<n>.png"` for
/// `n = 1..count`.
pub open spec fn all_present(
    sheet: Seq<(String, LiegeSprite)>,
    prefix: Seq<char>,
    count: int,
) -> bool {
    forall|n: int| 1 <= n <= count ==> (#[trigger] sheet_find(sheet, spec_frame_name(prefix, n))) is Some
}

/// The frame list a clip built from `prefix` holds, in order.
pub open spec fn spec_clip_frames(
    sheet: Seq<(String, LiegeSprite)>,
    prefix: Seq<char>,
    count: int,
) -> Seq<LiegeSprite> {
    Seq::new(count as nat, |i: int| sheet_find(sheet, spec_frame_name(prefix, i + 1))->Some_0)
}

/// Builds one clip by slicing the sheet along the naming convention:
/// frames `"<prefix>_1.png"` through `"<prefix>_<count>.png"`, in
/// order, at `fps`, with the given mode.  Fails exactly when a name is
/// absent, carrying the first missing name.
pub fn build_clip(
    sheet: &SpriteSheet,
    prefix: &str,
    count: usize,
    fps: u32,
    mode: PlayMode,
) -> (r: Result<LiegeAnimation, BuildError>)
    requires
        1 <= count <= 26,
        1 <= fps <= 1000,
    ensures
        match r {
            Ok(c) => {
                &&& all_present(sheet.frames@, prefix@, count as int)
                &&& c.frames@ == spec_clip_frames(sheet.frames@, prefix@, count as int)
                &&& c.fps == fps
                &&& c.mode == mode
                &&& c.wf()
            },
            Err(e) => {
                &&& !all_present(sheet.frames@, prefix@, count as int)
                &&& match e {
                    BuildError::MissingFrame(name) => sheet_find(sheet.frames@, name@) is None,
                }
            },
        },
{
    let mut frames: Vec<LiegeSprite> = Vec::new();
    let mut n: usize = 1;
    while n <= count
        invariant
            1 <= n <= count + 1,
            count <= 26,
            frames@.len() == n - 1,
            forall|k: int|
                1 <= k < n ==> (#[trigger] sheet_find(
                    sheet.frames@,
                    spec_frame_name(prefix@, k),
                )) is Some,
            forall|i: int|
                0 <= i < n - 1 ==> frames@[i] == sheet_find(
                    sheet.frames@,
                    spec_frame_name(prefix@, i + 1),
                )->Some_0,
        decreases count + 1 - n,
    {
        let name = frame_name(prefix, n);
        match sheet.get(&name) {
            Some(sprite) => {
                frames.push(sprite);
            },
            None => {
                return Err(BuildError::MissingFrame(name));
            },
        }
        n = n + 1;
    }
    proof {
        assert(frames@ =~= spec_clip_frames(sheet.frames@, prefix@, count as int));
    }
    Ok(LiegeAnimation { frames, fps, mode })
}

/// Every clip the builder accepts has exactly as many frames as the
/// naming convention lists for it, and a positive playback rate.
pub proof fn lemma_built_clip_shape(
    sheet: Seq<(String, LiegeSprite)>,
    prefix: Seq<char>,
    count: int,
    fps: u32,
    c: LiegeAnimation,
)
    requires
        0 <= count,
        1 <= fps,
        c.frames@ == spec_clip_frames(sheet, prefix, count),
        c.fps == fps,
    ensures
        c.frames@.len() == count,
        c.fps >= 1,
{
}

/// Whether entry `e` is the clip of `state` for `creature`, built from
/// `prefix` with the given count, rate and mode.
pub open spec fn entry_matches(
    e: (AnimationLabel, LiegeAnimation),
    creature: CreatureType,
    state: AnimationStates,
    prefix: Seq<char>,
    count: int,
    fps: u32,
    mode: PlayMode,
    sheet: Seq<(String, LiegeSprite)>,
) -> bool {
    &&& e.0 == (AnimationLabel { creature, state })
    &&& e.1.frames@ == spec_clip_frames(sheet, prefix, count)
    &&& e.1.frames@.len() == count
    &&& e.1.fps == fps
    &&& e.1.mode == mode
}

/// Whether `label` is stored and its clip is usable.
pub open spec fn found_wf(
    entries: Seq<(AnimationLabel, LiegeAnimation)>,
    label: AnimationLabel,
) -> bool {
    match map_find(entries, label) {
        Some(c) => c.wf(),
        None => false,
    }
}

/// The clip library: label to clip, one entry per label.
pub struct AnimationMap {
    pub animations: Vec<(AnimationLabel, LiegeAnimation)>,
}

impl AnimationMap {
    pub fn new() -> (r: AnimationMap)
        ensures
            r.animations@.len() == 0,
    {
        AnimationMap { animations: Vec::new() }
    }

    /// Looks a label up in the library.
    pub fn get(&self, label: AnimationLabel) -> (r: Option<&LiegeAnimation>)
        ensures
            match r {
                Some(clip) => map_find(self.animations@, label) == Some(*clip),
                None => map_find(self.animations@, label) is None,
            },
    {
        let ghost all = self.animations@;
        proof {
            assert(all.skip(0) =~= all);
        }
        let mut i: usize = 0;
        while i < self.animations.len()
            invariant
                i <= all.len(),
                self.animations@ == all,
                map_find(all, label) == map_find(all.skip(i as int), label),
            decreases all.len() - i,
        {
            let entry = &self.animations[i];
            proof {
                assert(all.skip(i as int).len() == all.len() - i);
                assert(all.skip(i as int).first() == all[i as int]);
            }
            if entry.0 == label {
                return Some(&entry.1);
            }
            proof {
                assert(all.skip(i as int).drop_first() =~= all.skip(i + 1));
            }
            i = i + 1;
        }
        proof {
            assert(all.skip(all.len() as int).len() == 0);
        }
        None
    }

    /// Looks a label up that is known to be present.  A miss would be
    /// an asset-integrity violation, which the callers' contracts rule
    /// out.
    pub fn get_required(&self, label: AnimationLabel) -> (r: &LiegeAnimation)
        requires
            map_find(self.animations@, label) is Some,
        ensures
            Some(*r) == map_find(self.animations@, label),
    {
        match self.get(label) {
            Some(clip) => clip,
            None => vstd::pervasive::unreached(),
        }
    }

    /// Appends another library's entries, as when one creature's clips
    /// are concatenated onto another's for the simulation-time lookup.
    pub fn extend(&mut self, other: AnimationMap)
        ensures
            final (self).animations@ == old(self).animations@ + other.animations@,
    {
        let mut tail = other;
        self.animations.append(&mut tail.animations);
    }
}

} // verus!
