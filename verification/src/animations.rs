//! A fixed table of grid-sheet animation definitions: rows of a
//! uniformly tiled sprite sheet, each with a frame count and rate.

use vstd::prelude::*;

verus! {

/// One animation over a uniformly tiled sheet: a row of `frames` tiles
/// of `tile_width` by `tile_height` pixels, played at `fps`.
#[derive(Clone, Copy, Debug)]
pub struct AnimatedSpriteDef {
    pub tile_width: u32,
    pub tile_height: u32,
    pub name: &'static str,
    pub row: u32,
    pub frames: u32,
    pub fps: u32,
    pub playing: bool,
}

/// Whether a definition has exactly the given fields.
pub open spec fn def_matches(
    d: AnimatedSpriteDef,
    tile_width: u32,
    tile_height: u32,
    name: Seq<char>,
    row: u32,
    frames: u32,
    fps: u32,
    playing: bool,
) -> bool {
    &&& d.tile_width == tile_width
    &&& d.tile_height == tile_height
    &&& d.name@ == name
    &&& d.row == row
    &&& d.frames == frames
    &&& d.fps == fps
    &&& d.playing == playing
}

/// The rogue's grid-sheet animation table: the looping idle row and
/// the four directional walk rows.
pub fn load_animations() -> (r: Vec<(&'static str, AnimatedSpriteDef)>)
    ensures
        r@.len() == 5,
        r@[0].0@ == "rogue_idle"@,
        def_matches(r@[0].1, 9, 9, "idle"@, 0, 16, 6, true),
        r@[1].0@ == "rogue_walk_right"@,
        def_matches(r@[1].1, 9, 9, "rogue_walk_right"@, 1, 4, 4, true),
        r@[2].0@ == "rogue_walk_left"@,
        def_matches(r@[2].1, 9, 9, "rogue_walk_left"@, 2, 4, 4, true),
        r@[3].0@ == "rogue_walk_up_right"@,
        def_matches(r@[3].1, 9, 9, "rogue_walk_up_right"@, 3, 4, 4, true),
        r@[4].0@ == "rogue_walk_up_left"@,
        def_matches(r@[4].1, 9, 9, "rogue_walk_up_left"@, 4, 4, 4, true),
{
    let mut animations_map: Vec<(&'static str, AnimatedSpriteDef)> = Vec::new();
    animations_map.push(
        (
            "rogue_idle",
            AnimatedSpriteDef {
                tile_width: 9,
                tile_height: 9,
                name: "idle",
                row: 0,
                frames: 16,
                fps: 6,
                playing: true,
            },
        ),
    );
    animations_map.push(
        (
            "rogue_walk_right",
            AnimatedSpriteDef {
                tile_width: 9,
                tile_height: 9,
                name: "rogue_walk_right",
                row: 1,
                frames: 4,
                fps: 4,
                playing: true,
            },
        ),
    );
    animations_map.push(
        (
            "rogue_walk_left",
            AnimatedSpriteDef {
                tile_width: 9,
                tile_height: 9,
                name: "rogue_walk_left",
                row: 2,
                frames: 4,
                fps: 4,
                playing: true,
            },
        ),
    );
    animations_map.push(
        (
            "rogue_walk_up_right",
            AnimatedSpriteDef {
                tile_width: 9,
                tile_height: 9,
                name: "rogue_walk_up_right",
                row: 3,
                frames: 4,
                fps: 4,
                playing: true,
            },
        ),
    );
    animations_map.push(
        (
            "rogue_walk_up_left",
            AnimatedSpriteDef {
                tile_width: 9,
                tile_height: 9,
                name: "rogue_walk_up_left",
                row: 4,
                frames: 4,
                fps: 4,
                playing: true,
            },
        ),
    );
    animations_map
}

} // verus!
