//! View culling: whether a draw anchor lies inside the camera's view
//! rectangle, inflated outward on the near side by one scaled sprite
//! or tile, so nothing pops at the boundary.

use vstd::prelude::*;

verus! {

/// The camera's view: its world-space target and the screen's half
/// extents, in milli-units.
#[derive(Clone, Copy, Debug, PartialEq, Eq, Structural)]
pub struct ViewBounds {
    pub target_x: i32,
    pub target_y: i32,
    pub half_width: i32,
    pub half_height: i32,
}

/// The pure culling predicate: strictly inside the view rectangle
/// widened left and up by the margins.
pub open spec fn spec_in_view(
    x: int,
    y: int,
    view: ViewBounds,
    margin_x: int,
    margin_y: int,
) -> bool {
    &&& x > view.target_x - view.half_width - margin_x
    &&& x < view.target_x + view.half_width
    &&& y > view.target_y - view.half_height - margin_y
    &&& y < view.target_y + view.half_height
}

/// Whether an anchor lies in view with the given margins.
pub fn in_view(x: i32, y: i32, view: &ViewBounds, margin_x: i32, margin_y: i32) -> (r: bool)
    ensures
        r == spec_in_view(x as int, y as int, *view, margin_x as int, margin_y as int),
{
    let xl: i64 = x as i64;
    let yl: i64 = y as i64;
    let left: i64 = view.target_x as i64 - view.half_width as i64 - margin_x as i64;
    let right: i64 = view.target_x as i64 + view.half_width as i64;
    let top: i64 = view.target_y as i64 - view.half_height as i64 - margin_y as i64;
    let bottom: i64 = view.target_y as i64 + view.half_height as i64;
    xl > left && xl < right && yl > top && yl < bottom
}

/// Culling for map tiles: the margins are one scaled tile.
pub fn is_object_in_view(
    x: i32,
    y: i32,
    view: &ViewBounds,
    tile_margin_x: i32,
    tile_margin_y: i32,
) -> (r: bool)
    ensures
        r == spec_in_view(x as int, y as int, *view, tile_margin_x as int, tile_margin_y as int),
{
    in_view(x, y, view, tile_margin_x, tile_margin_y)
}

/// Culling for entity sprites: the margins are one scaled sprite.
pub fn is_sprite_in_view(
    x: i32,
    y: i32,
    view: &ViewBounds,
    sprite_margin_x: i32,
    sprite_margin_y: i32,
) -> (r: bool)
    ensures
        r == spec_in_view(
            x as int,
            y as int,
            *view,
            sprite_margin_x as int,
            sprite_margin_y as int,
        ),
{
    in_view(x, y, view, sprite_margin_x, sprite_margin_y)
}

} // verus!
