//! The atlas-description parser.
//!
//! The atlas arrives as an ASCII JSON document: an object whose
//! `"frames"` member maps frame names to sprite objects with `"frame"`,
//! `"rotated"`, `"trimmed"`, `"spriteSourceSize"` and `"sourceSize"`
//! members, in any order.  Unknown members are skipped by delimiter
//! balance; string escapes are not used by the atlas format and are
//! rejected.  The parser is specified by the `spec_parse_*` functions
//! below, which read the same grammar over the character sequence;
//! `deserialize_json` returns exactly what they describe, and fails
//! exactly when they reject.

use vstd::prelude::*;
use vstd::string::{StrSliceExecFns, StringExecFns};

use crate::atlas::{Frame, LiegeSprite, Size, SpriteSheet};

verus! {

/// A malformed atlas description: bad structure, a missing required
/// member, or a number outside the pixel-coordinate range.
#[derive(Clone, Copy, Debug, PartialEq, Eq, Structural)]
pub enum ParseError {
    Malformed,
}

pub open spec fn is_ws(c: char) -> bool {
    c == ' ' || c == '\t' || c == '\n' || c == '\r'
}

pub open spec fn is_digit(c: char) -> bool {
    48 <= c as int <= 57
}

pub open spec fn digit_val(c: char) -> int {
    c as int - 48
}

/// The first position at or after `pos` holding no whitespace.
pub open spec fn spec_skip_ws(s: Seq<char>, pos: int) -> int
    decreases s.len() - pos,
{
    if pos < 0 || pos >= s.len() {
        pos
    } else if is_ws(s[pos]) {
        spec_skip_ws(s, pos + 1)
    } else {
        pos
    }
}

proof fn lemma_skip_ws_bounds(s: Seq<char>, pos: int)
    requires
        0 <= pos,
    ensures
        pos <= spec_skip_ws(s, pos),
        pos <= s.len() ==> spec_skip_ws(s, pos) <= s.len(),
    decreases s.len() - pos,
{
    if pos < s.len() && is_ws(s[pos]) {
        lemma_skip_ws_bounds(s, pos + 1);
    }
}

/// The position of the closing quote of a string whose contents start
/// at `pos`.  Escapes are not part of the atlas format: a backslash
/// rejects.
pub open spec fn spec_string_end(s: Seq<char>, pos: int) -> Option<int>
    decreases s.len() - pos,
{
    if pos < 0 || pos >= s.len() {
        None
    } else if s[pos] == '"' {
        Some(pos)
    } else if s[pos] == '\\' {
        None
    } else {
        spec_string_end(s, pos + 1)
    }
}

proof fn lemma_string_end_bounds(s: Seq<char>, pos: int)
    requires
        0 <= pos,
    ensures
        match spec_string_end(s, pos) {
            Some(e) => pos <= e < s.len(),
            None => true,
        },
    decreases s.len() - pos,
{
    if 0 <= pos < s.len() && s[pos] != '"' && s[pos] != '\\' {
        lemma_string_end_bounds(s, pos + 1);
    }
}

/// A quoted string at `pos`: its contents and the position after the
/// closing quote.
pub open spec fn spec_parse_string(s: Seq<char>, pos: int) -> Option<(Seq<char>, int)> {
    if 0 <= pos < s.len() && s[pos] == '"' {
        match spec_string_end(s, pos + 1) {
            Some(e) => Some((s.subrange(pos + 1, e), e + 1)),
            None => None,
        }
    } else {
        None
    }
}

proof fn lemma_parse_string_bounds(s: Seq<char>, pos: int)
    requires
        0 <= pos,
    ensures
        match spec_parse_string(s, pos) {
            Some(r) => pos + 2 <= r.1 <= s.len(),
            None => true,
        },
{
    lemma_string_end_bounds(s, pos + 1);
}

/// Saturating decimal accumulation: a magnitude beyond any valid pixel
/// coordinate is pinned at three billion, which the range check below
/// still rejects, so the parsed value is exact whenever it is accepted.
pub open spec fn sat_acc(acc: int, d: int) -> int {
    if 10 * acc + d > 3_000_000_000 {
        3_000_000_000
    } else {
        10 * acc + d
    }
}

/// Consumes a run of digits, accumulating their saturated value.
pub open spec fn spec_parse_digits(s: Seq<char>, pos: int, acc: int) -> (int, int)
    decreases s.len() - pos,
{
    if 0 <= pos < s.len() && is_digit(s[pos]) {
        spec_parse_digits(s, pos + 1, sat_acc(acc, digit_val(s[pos])))
    } else {
        (acc, pos)
    }
}

proof fn lemma_parse_digits_bounds(s: Seq<char>, pos: int, acc: int)
    requires
        0 <= pos <= s.len(),
        0 <= acc <= 3_000_000_000,
    ensures
        pos <= spec_parse_digits(s, pos, acc).1 <= s.len(),
        0 <= spec_parse_digits(s, pos, acc).0 <= 3_000_000_000,
    decreases s.len() - pos,
{
    if pos < s.len() && is_digit(s[pos]) {
        lemma_parse_digits_bounds(s, pos + 1, sat_acc(acc, digit_val(s[pos])));
    }
}

/// A JSON integer at `pos`, within `i32` range: optional minus, then
/// digits without a redundant leading zero.
pub open spec fn spec_parse_i32(s: Seq<char>, pos: int) -> Option<(i32, int)> {
    let neg = 0 <= pos < s.len() && s[pos] == '-';
    let p = if neg {
        pos + 1
    } else {
        pos
    };
    if !(0 <= p < s.len() && is_digit(s[p])) {
        None
    } else if s[p] == '0' && p + 1 < s.len() && is_digit(s[p + 1]) {
        None
    } else {
        let (m, p2) = spec_parse_digits(s, p, 0);
        if neg {
            if m > 2_147_483_648 {
                None
            } else {
                Some(((-m) as i32, p2))
            }
        } else {
            if m > 2_147_483_647 {
                None
            } else {
                Some((m as i32, p2))
            }
        }
    }
}

proof fn lemma_parse_i32_bounds(s: Seq<char>, pos: int)
    requires
        0 <= pos <= s.len(),
    ensures
        match spec_parse_i32(s, pos) {
            Some(r) => pos < r.1 <= s.len(),
            None => true,
        },
{
    if 0 <= pos < s.len() && s[pos] == '-' {
        if pos + 1 < s.len() {
            lemma_parse_digits_bounds(s, pos + 1, 0);
            if pos + 1 < s.len() && is_digit(s[pos + 1]) {
                assert(spec_parse_digits(s, pos + 1, 0).1 >= pos + 2) by {
                    assert(spec_parse_digits(s, pos + 1, 0) == spec_parse_digits(
                        s,
                        pos + 2,
                        sat_acc(0, digit_val(s[pos + 1])),
                    ));
                    lemma_parse_digits_bounds(s, pos + 2, sat_acc(0, digit_val(s[pos + 1])));
                }
            }
        }
    } else if 0 <= pos < s.len() && is_digit(s[pos]) {
        assert(spec_parse_digits(s, pos, 0).1 >= pos + 1) by {
            assert(spec_parse_digits(s, pos, 0) == spec_parse_digits(
                s,
                pos + 1,
                sat_acc(0, digit_val(s[pos])),
            ));
            lemma_parse_digits_bounds(s, pos + 1, sat_acc(0, digit_val(s[pos])));
        }
        lemma_parse_digits_bounds(s, pos, 0);
    }
}

/// `true` or `false` at `pos`.
pub open spec fn spec_parse_bool(s: Seq<char>, pos: int) -> Option<(bool, int)> {
    if 0 <= pos && pos + 4 <= s.len() && s[pos] == 't' && s[pos + 1] == 'r' && s[pos + 2] == 'u'
        && s[pos + 3] == 'e' {
        Some((true, pos + 4))
    } else if 0 <= pos && pos + 5 <= s.len() && s[pos] == 'f' && s[pos + 1] == 'a' && s[pos + 2]
        == 'l' && s[pos + 3] == 's' && s[pos + 4] == 'e' {
        Some((false, pos + 5))
    } else {
        None
    }
}

/// Scans past an unknown member's value to the delimiter that ends it:
/// the first `,`, `}` or `]` at bracket depth zero outside a string.
/// The value itself is not interpreted.
pub open spec fn spec_skip_member_value(s: Seq<char>, pos: int, depth: int, in_str: bool) -> Option<
    int,
>
    decreases s.len() - pos,
{
    if pos < 0 || pos >= s.len() {
        None
    } else {
        let c = s[pos];
        if in_str {
            if c == '\\' {
                None
            } else if c == '"' {
                spec_skip_member_value(s, pos + 1, depth, false)
            } else {
                spec_skip_member_value(s, pos + 1, depth, true)
            }
        } else if c == '"' {
            spec_skip_member_value(s, pos + 1, depth, true)
        } else if c == '{' || c == '[' {
            spec_skip_member_value(s, pos + 1, depth + 1, false)
        } else if c == '}' || c == ']' {
            if depth == 0 {
                Some(pos)
            } else {
                spec_skip_member_value(s, pos + 1, depth - 1, false)
            }
        } else if c == ',' && depth == 0 {
            Some(pos)
        } else {
            spec_skip_member_value(s, pos + 1, depth, in_str)
        }
    }
}

proof fn lemma_skip_member_value_bounds(s: Seq<char>, pos: int, depth: int, in_str: bool)
    requires
        0 <= pos,
    ensures
        match spec_skip_member_value(s, pos, depth, in_str) {
            Some(t) => pos <= t < s.len(),
            None => true,
        },
    decreases s.len() - pos,
{
    if 0 <= pos < s.len() {
        let c = s[pos];
        if in_str {
            if c != '\\' {
                lemma_skip_member_value_bounds(s, pos + 1, depth, c != '"');
            }
        } else if c == '"' {
            lemma_skip_member_value_bounds(s, pos + 1, depth, true);
        } else if c == '{' || c == '[' {
            lemma_skip_member_value_bounds(s, pos + 1, depth + 1, false);
        } else if c == '}' || c == ']' {
            if depth != 0 {
                lemma_skip_member_value_bounds(s, pos + 1, depth - 1, false);
            }
        } else if !(c == ',' && depth == 0) {
            lemma_skip_member_value_bounds(s, pos + 1, depth, in_str);
        }
    }
}

/// The fields collected from an object of pixel coordinates.
#[derive(Clone, Copy, Debug, PartialEq, Eq, Structural)]
pub struct IntFields {
    pub x: Option<i32>,
    pub y: Option<i32>,
    pub w: Option<i32>,
    pub h: Option<i32>,
}

/// The members of an object holding integer fields `x`, `y`, `w`, `h`
/// in any order; other members are skipped, a duplicate tracked field
/// rejects.  `pos` stands on the opening quote of a key.
pub open spec fn spec_int_members(s: Seq<char>, pos: int, acc: IntFields) -> Option<
    (IntFields, int),
>
    decreases s.len() - pos, 1int,
        via int_members_decreases
{
    match spec_parse_string(s, pos) {
        None => None,
        Some((k, p1)) => {
            let p2 = spec_skip_ws(s, p1);
            if !(p2 < s.len() && s[p2] == ':') {
                None
            } else {
                let p3 = spec_skip_ws(s, p2 + 1);
                if k == "x"@ || k == "y"@ || k == "w"@ || k == "h"@ {
                    match spec_parse_i32(s, p3) {
                        None => None,
                        Some((v, p4)) => {
                            if k == "x"@ {
                                if acc.x is Some {
                                    None
                                } else {
                                    spec_int_next(s, p4, IntFields { x: Some(v), ..acc })
                                }
                            } else if k == "y"@ {
                                if acc.y is Some {
                                    None
                                } else {
                                    spec_int_next(s, p4, IntFields { y: Some(v), ..acc })
                                }
                            } else if k == "w"@ {
                                if acc.w is Some {
                                    None
                                } else {
                                    spec_int_next(s, p4, IntFields { w: Some(v), ..acc })
                                }
                            } else {
                                if acc.h is Some {
                                    None
                                } else {
                                    spec_int_next(s, p4, IntFields { h: Some(v), ..acc })
                                }
                            }
                        },
                    }
                } else {
                    match spec_skip_member_value(s, p3, 0, false) {
                        None => None,
                        Some(t) => spec_int_next(s, t, acc),
                    }
                }
            }
        },
    }
}

/// After one member of an integer object: a comma continues with the
/// next key, a closing brace ends the object.
pub open spec fn spec_int_next(s: Seq<char>, after: int, acc: IntFields) -> Option<
    (IntFields, int),
>
    decreases s.len() - after, 0int,
        via int_next_decreases
{
    let p = spec_skip_ws(s, after);
    if p < s.len() && s[p] == ',' {
        spec_int_members(s, spec_skip_ws(s, p + 1), acc)
    } else if p < s.len() && s[p] == '}' {
        Some((acc, p + 1))
    } else {
        None
    }
}

#[via_fn]
proof fn int_members_decreases(s: Seq<char>, pos: int, acc: IntFields) {
    if 0 <= pos {
        lemma_parse_string_bounds(s, pos);
        match spec_parse_string(s, pos) {
            None => {},
            Some((k, p1)) => {
                lemma_skip_ws_bounds(s, p1);
                let p2 = spec_skip_ws(s, p1);
                if p2 < s.len() && s[p2] == ':' {
                    lemma_skip_ws_bounds(s, p2 + 1);
                    let p3 = spec_skip_ws(s, p2 + 1);
                    lemma_parse_i32_bounds(s, p3);
                    lemma_skip_member_value_bounds(s, p3, 0, false);
                }
            },
        }
    }
}

#[via_fn]
proof fn int_next_decreases(s: Seq<char>, after: int, acc: IntFields) {
    if 0 <= after {
        lemma_skip_ws_bounds(s, after);
    }
    let p = spec_skip_ws(s, after);
    if 0 <= p + 1 {
        lemma_skip_ws_bounds(s, p + 1);
    }
}

proof fn lemma_int_members_bounds(s: Seq<char>, pos: int, acc: IntFields)
    requires
        0 <= pos,
    ensures
        match spec_int_members(s, pos, acc) {
            Some(r) => pos < r.1 <= s.len(),
            None => true,
        },
    decreases s.len() - pos, 1int,
{
    lemma_parse_string_bounds(s, pos);
    match spec_parse_string(s, pos) {
        None => {},
        Some((k, p1)) => {
            lemma_skip_ws_bounds(s, p1);
            let p2 = spec_skip_ws(s, p1);
            if p2 < s.len() && s[p2] == ':' {
                lemma_skip_ws_bounds(s, p2 + 1);
                let p3 = spec_skip_ws(s, p2 + 1);
                lemma_parse_i32_bounds(s, p3);
                lemma_skip_member_value_bounds(s, p3, 0, false);
                if k == "x"@ || k == "y"@ || k == "w"@ || k == "h"@ {
                    match spec_parse_i32(s, p3) {
                        None => {},
                        Some((v, p4)) => {
                            lemma_int_next_bounds(s, p4, IntFields { x: Some(v), ..acc });
                            lemma_int_next_bounds(s, p4, IntFields { y: Some(v), ..acc });
                            lemma_int_next_bounds(s, p4, IntFields { w: Some(v), ..acc });
                            lemma_int_next_bounds(s, p4, IntFields { h: Some(v), ..acc });
                        },
                    }
                } else {
                    match spec_skip_member_value(s, p3, 0, false) {
                        None => {},
                        Some(t) => {
                            lemma_int_next_bounds(s, t, acc);
                        },
                    }
                }
            }
        },
    }
}

proof fn lemma_int_next_bounds(s: Seq<char>, after: int, acc: IntFields)
    requires
        0 <= after,
    ensures
        match spec_int_next(s, after, acc) {
            Some(r) => after < r.1 <= s.len(),
            None => true,
        },
    decreases s.len() - after, 0int,
{
    lemma_skip_ws_bounds(s, after);
    let p = spec_skip_ws(s, after);
    if p < s.len() && s[p] == ',' {
        lemma_skip_ws_bounds(s, p + 1);
        lemma_int_members_bounds(s, spec_skip_ws(s, p + 1), acc);
    }
}

/// An object of integer members at `pos` (an opening brace), collected
/// into `IntFields`.  An empty object yields empty fields.
pub open spec fn spec_parse_int_object(s: Seq<char>, pos: int) -> Option<(IntFields, int)> {
    if 0 <= pos < s.len() && s[pos] == '{' {
        let p1 = spec_skip_ws(s, pos + 1);
        let none = IntFields { x: None, y: None, w: None, h: None };
        if p1 < s.len() && s[p1] == '}' {
            Some((none, p1 + 1))
        } else {
            spec_int_members(s, p1, none)
        }
    } else {
        None
    }
}

proof fn lemma_parse_int_object_bounds(s: Seq<char>, pos: int)
    requires
        0 <= pos,
    ensures
        match spec_parse_int_object(s, pos) {
            Some(r) => pos < r.1 <= s.len(),
            None => true,
        },
{
    if 0 <= pos < s.len() && s[pos] == '{' {
        lemma_skip_ws_bounds(s, pos + 1);
        let p1 = spec_skip_ws(s, pos + 1);
        let none = IntFields { x: None, y: None, w: None, h: None };
        lemma_int_members_bounds(s, p1, none);
    }
}

/// A pixel rectangle: an integer object whose `x`, `y`, `w` and `h`
/// are all present.
pub open spec fn spec_parse_rect(s: Seq<char>, pos: int) -> Option<(Frame, int)> {
    match spec_parse_int_object(s, pos) {
        None => None,
        Some((f, p)) => {
            if f.x is Some && f.y is Some && f.w is Some && f.h is Some {
                Some(
                    (
                        Frame {
                            x: f.x->Some_0,
                            y: f.y->Some_0,
                            w: f.w->Some_0,
                            h: f.h->Some_0,
                        },
                        p,
                    ),
                )
            } else {
                None
            }
        },
    }
}

/// An untrimmed size: an integer object whose `w` and `h` are present.
pub open spec fn spec_parse_size(s: Seq<char>, pos: int) -> Option<(Size, int)> {
    match spec_parse_int_object(s, pos) {
        None => None,
        Some((f, p)) => {
            if f.w is Some && f.h is Some {
                Some((Size { w: f.w->Some_0, h: f.h->Some_0 }, p))
            } else {
                None
            }
        },
    }
}

/// The fields collected from a sprite object.
#[derive(Clone, Copy, Debug, PartialEq, Eq, Structural)]
pub struct SpriteFields {
    pub frame: Option<Frame>,
    pub rotated: Option<bool>,
    pub trimmed: Option<bool>,
    pub sprite_source_size: Option<Frame>,
    pub source_size: Option<Size>,
}

/// The members of one sprite object, in any order; unknown members are
/// skipped, a duplicate rejects.
pub open spec fn spec_sprite_members(s: Seq<char>, pos: int, acc: SpriteFields) -> Option<
    (SpriteFields, int),
>
    decreases s.len() - pos, 1int,
        via sprite_members_decreases
{
    match spec_parse_string(s, pos) {
        None => None,
        Some((k, p1)) => {
            let p2 = spec_skip_ws(s, p1);
            if !(p2 < s.len() && s[p2] == ':') {
                None
            } else {
                let p3 = spec_skip_ws(s, p2 + 1);
                if k == "frame"@ {
                    match spec_parse_rect(s, p3) {
                        None => None,
                        Some((v, p4)) => if acc.frame is Some {
                            None
                        } else {
                            spec_sprite_next(s, p4, SpriteFields { frame: Some(v), ..acc })
                        },
                    }
                } else if k == "rotated"@ {
                    match spec_parse_bool(s, p3) {
                        None => None,
                        Some((v, p4)) => if acc.rotated is Some {
                            None
                        } else {
                            spec_sprite_next(s, p4, SpriteFields { rotated: Some(v), ..acc })
                        },
                    }
                } else if k == "trimmed"@ {
                    match spec_parse_bool(s, p3) {
                        None => None,
                        Some((v, p4)) => if acc.trimmed is Some {
                            None
                        } else {
                            spec_sprite_next(s, p4, SpriteFields { trimmed: Some(v), ..acc })
                        },
                    }
                } else if k == "spriteSourceSize"@ {
                    match spec_parse_rect(s, p3) {
                        None => None,
                        Some((v, p4)) => if acc.sprite_source_size is Some {
                            None
                        } else {
                            spec_sprite_next(
                                s,
                                p4,
                                SpriteFields { sprite_source_size: Some(v), ..acc },
                            )
                        },
                    }
                } else if k == "sourceSize"@ {
                    match spec_parse_size(s, p3) {
                        None => None,
                        Some((v, p4)) => if acc.source_size is Some {
                            None
                        } else {
                            spec_sprite_next(s, p4, SpriteFields { source_size: Some(v), ..acc })
                        },
                    }
                } else {
                    match spec_skip_member_value(s, p3, 0, false) {
                        None => None,
                        Some(t) => spec_sprite_next(s, t, acc),
                    }
                }
            }
        },
    }
}

/// After one sprite member: a comma continues, a closing brace ends.
pub open spec fn spec_sprite_next(s: Seq<char>, after: int, acc: SpriteFields) -> Option<
    (SpriteFields, int),
>
    decreases s.len() - after, 0int,
        via sprite_next_decreases
{
    let p = spec_skip_ws(s, after);
    if p < s.len() && s[p] == ',' {
        spec_sprite_members(s, spec_skip_ws(s, p + 1), acc)
    } else if p < s.len() && s[p] == '}' {
        Some((acc, p + 1))
    } else {
        None
    }
}

#[via_fn]
proof fn sprite_members_decreases(s: Seq<char>, pos: int, acc: SpriteFields) {
    if 0 <= pos {
        lemma_parse_string_bounds(s, pos);
        match spec_parse_string(s, pos) {
            None => {},
            Some((k, p1)) => {
                lemma_skip_ws_bounds(s, p1);
                let p2 = spec_skip_ws(s, p1);
                if p2 < s.len() && s[p2] == ':' {
                    lemma_skip_ws_bounds(s, p2 + 1);
                    let p3 = spec_skip_ws(s, p2 + 1);
                    lemma_parse_int_object_bounds(s, p3);
                    lemma_skip_member_value_bounds(s, p3, 0, false);
                }
            },
        }
    }
}

#[via_fn]
proof fn sprite_next_decreases(s: Seq<char>, after: int, acc: SpriteFields) {
    if 0 <= after {
        lemma_skip_ws_bounds(s, after);
    }
    let p = spec_skip_ws(s, after);
    if 0 <= p + 1 {
        lemma_skip_ws_bounds(s, p + 1);
    }
}

proof fn lemma_sprite_members_bounds(s: Seq<char>, pos: int, acc: SpriteFields)
    requires
        0 <= pos,
    ensures
        match spec_sprite_members(s, pos, acc) {
            Some(r) => pos < r.1 <= s.len(),
            None => true,
        },
    decreases s.len() - pos, 1int,
{
    lemma_parse_string_bounds(s, pos);
    match spec_parse_string(s, pos) {
        None => {},
        Some((k, p1)) => {
            lemma_skip_ws_bounds(s, p1);
            let p2 = spec_skip_ws(s, p1);
            if p2 < s.len() && s[p2] == ':' {
                lemma_skip_ws_bounds(s, p2 + 1);
                let p3 = spec_skip_ws(s, p2 + 1);
                lemma_parse_int_object_bounds(s, p3);
                lemma_skip_member_value_bounds(s, p3, 0, false);
                match spec_parse_rect(s, p3) {
                    None => {},
                    Some((v, p4)) => {
                        lemma_sprite_next_bounds(s, p4, SpriteFields { frame: Some(v), ..acc });
                        lemma_sprite_next_bounds(
                            s,
                            p4,
                            SpriteFields { sprite_source_size: Some(v), ..acc },
                        );
                    },
                }
                match spec_parse_size(s, p3) {
                    None => {},
                    Some((v, p4)) => {
                        lemma_sprite_next_bounds(
                            s,
                            p4,
                            SpriteFields { source_size: Some(v), ..acc },
                        );
                    },
                }
                match spec_parse_bool(s, p3) {
                    None => {},
                    Some((v, p4)) => {
                        lemma_sprite_next_bounds(s, p4, SpriteFields { rotated: Some(v), ..acc });
                        lemma_sprite_next_bounds(s, p4, SpriteFields { trimmed: Some(v), ..acc });
                    },
                }
                match spec_skip_member_value(s, p3, 0, false) {
                    None => {},
                    Some(t) => {
                        lemma_sprite_next_bounds(s, t, acc);
                    },
                }
            }
        },
    }
}

proof fn lemma_sprite_next_bounds(s: Seq<char>, after: int, acc: SpriteFields)
    requires
        0 <= after,
    ensures
        match spec_sprite_next(s, after, acc) {
            Some(r) => after < r.1 <= s.len(),
            None => true,
        },
    decreases s.len() - after, 0int,
{
    lemma_skip_ws_bounds(s, after);
    let p = spec_skip_ws(s, after);
    if p < s.len() && s[p] == ',' {
        lemma_skip_ws_bounds(s, p + 1);
        lemma_sprite_members_bounds(s, spec_skip_ws(s, p + 1), acc);
    }
}

/// One sprite object at `pos`: all five members present.
pub open spec fn spec_parse_sprite(s: Seq<char>, pos: int) -> Option<(LiegeSprite, int)> {
    if 0 <= pos < s.len() && s[pos] == '{' {
        let p1 = spec_skip_ws(s, pos + 1);
        let none = SpriteFields {
            frame: None,
            rotated: None,
            trimmed: None,
            sprite_source_size: None,
            source_size: None,
        };
        let parsed = if p1 < s.len() && s[p1] == '}' {
            Some((none, p1 + 1))
        } else {
            spec_sprite_members(s, p1, none)
        };
        match parsed {
            None => None,
            Some((f, p)) => {
                if f.frame is Some && f.rotated is Some && f.trimmed is Some
                    && f.sprite_source_size is Some && f.source_size is Some {
                    Some(
                        (
                            LiegeSprite {
                                frame: f.frame->Some_0,
                                rotated: f.rotated->Some_0,
                                trimmed: f.trimmed->Some_0,
                                sprite_source_size: f.sprite_source_size->Some_0,
                                source_size: f.source_size->Some_0,
                            },
                            p,
                        ),
                    )
                } else {
                    None
                }
            },
        }
    } else {
        None
    }
}

proof fn lemma_parse_sprite_bounds(s: Seq<char>, pos: int)
    requires
        0 <= pos,
    ensures
        match spec_parse_sprite(s, pos) {
            Some(r) => pos < r.1 <= s.len(),
            None => true,
        },
{
    if 0 <= pos < s.len() && s[pos] == '{' {
        lemma_skip_ws_bounds(s, pos + 1);
        let p1 = spec_skip_ws(s, pos + 1);
        let none = SpriteFields {
            frame: None,
            rotated: None,
            trimmed: None,
            sprite_source_size: None,
            source_size: None,
        };
        lemma_sprite_members_bounds(s, p1, none);
    }
}

/// The entries of the frames map: each member is a frame name and a
/// sprite object, collected in document order.
pub open spec fn spec_map_members(
    s: Seq<char>,
    pos: int,
    acc: Seq<(Seq<char>, LiegeSprite)>,
) -> Option<(Seq<(Seq<char>, LiegeSprite)>, int)>
    decreases s.len() - pos, 1int,
        via map_members_decreases
{
    match spec_parse_string(s, pos) {
        None => None,
        Some((k, p1)) => {
            let p2 = spec_skip_ws(s, p1);
            if !(p2 < s.len() && s[p2] == ':') {
                None
            } else {
                let p3 = spec_skip_ws(s, p2 + 1);
                match spec_parse_sprite(s, p3) {
                    None => None,
                    Some((v, p4)) => spec_map_next(s, p4, acc + seq![(k, v)]),
                }
            }
        },
    }
}

/// After one frames-map member: a comma continues, a closing brace
/// ends the map.
pub open spec fn spec_map_next(
    s: Seq<char>,
    after: int,
    acc: Seq<(Seq<char>, LiegeSprite)>,
) -> Option<(Seq<(Seq<char>, LiegeSprite)>, int)>
    decreases s.len() - after, 0int,
        via map_next_decreases
{
    let p = spec_skip_ws(s, after);
    if p < s.len() && s[p] == ',' {
        spec_map_members(s, spec_skip_ws(s, p + 1), acc)
    } else if p < s.len() && s[p] == '}' {
        Some((acc, p + 1))
    } else {
        None
    }
}

#[via_fn]
proof fn map_members_decreases(s: Seq<char>, pos: int, acc: Seq<(Seq<char>, LiegeSprite)>) {
    if 0 <= pos {
        lemma_parse_string_bounds(s, pos);
        match spec_parse_string(s, pos) {
            None => {},
            Some((k, p1)) => {
                lemma_skip_ws_bounds(s, p1);
                let p2 = spec_skip_ws(s, p1);
                if p2 < s.len() && s[p2] == ':' {
                    lemma_skip_ws_bounds(s, p2 + 1);
                    lemma_parse_sprite_bounds(s, spec_skip_ws(s, p2 + 1));
                }
            },
        }
    }
}

#[via_fn]
proof fn map_next_decreases(s: Seq<char>, after: int, acc: Seq<(Seq<char>, LiegeSprite)>) {
    if 0 <= after {
        lemma_skip_ws_bounds(s, after);
    }
    let p = spec_skip_ws(s, after);
    if 0 <= p + 1 {
        lemma_skip_ws_bounds(s, p + 1);
    }
}

proof fn lemma_map_members_bounds(s: Seq<char>, pos: int, acc: Seq<(Seq<char>, LiegeSprite)>)
    requires
        0 <= pos,
    ensures
        match spec_map_members(s, pos, acc) {
            Some(r) => pos < r.1 <= s.len(),
            None => true,
        },
    decreases s.len() - pos, 1int,
{
    lemma_parse_string_bounds(s, pos);
    match spec_parse_string(s, pos) {
        None => {},
        Some((k, p1)) => {
            lemma_skip_ws_bounds(s, p1);
            let p2 = spec_skip_ws(s, p1);
            if p2 < s.len() && s[p2] == ':' {
                lemma_skip_ws_bounds(s, p2 + 1);
                let p3 = spec_skip_ws(s, p2 + 1);
                lemma_parse_sprite_bounds(s, p3);
                match spec_parse_sprite(s, p3) {
                    None => {},
                    Some((v, p4)) => {
                        lemma_map_next_bounds(s, p4, acc + seq![(k, v)]);
                    },
                }
            }
        },
    }
}

proof fn lemma_map_next_bounds(s: Seq<char>, after: int, acc: Seq<(Seq<char>, LiegeSprite)>)
    requires
        0 <= after,
    ensures
        match spec_map_next(s, after, acc) {
            Some(r) => after < r.1 <= s.len(),
            None => true,
        },
    decreases s.len() - after, 0int,
{
    lemma_skip_ws_bounds(s, after);
    let p = spec_skip_ws(s, after);
    if p < s.len() && s[p] == ',' {
        lemma_skip_ws_bounds(s, p + 1);
        lemma_map_members_bounds(s, spec_skip_ws(s, p + 1), acc);
    }
}

/// The frames map at `pos`: an object of name-to-sprite members.
pub open spec fn spec_parse_frames_object(s: Seq<char>, pos: int) -> Option<
    (Seq<(Seq<char>, LiegeSprite)>, int),
> {
    if 0 <= pos < s.len() && s[pos] == '{' {
        let p1 = spec_skip_ws(s, pos + 1);
        if p1 < s.len() && s[p1] == '}' {
            Some((Seq::empty(), p1 + 1))
        } else {
            spec_map_members(s, p1, Seq::empty())
        }
    } else {
        None
    }
}

proof fn lemma_parse_frames_object_bounds(s: Seq<char>, pos: int)
    requires
        0 <= pos,
    ensures
        match spec_parse_frames_object(s, pos) {
            Some(r) => pos < r.1 <= s.len(),
            None => true,
        },
{
    if 0 <= pos < s.len() && s[pos] == '{' {
        lemma_skip_ws_bounds(s, pos + 1);
        lemma_map_members_bounds(s, spec_skip_ws(s, pos + 1), Seq::empty());
    }
}

/// The members of the top-level object: the required `"frames"` map,
/// with any other members skipped; a second `"frames"` rejects.
pub open spec fn spec_top_members(
    s: Seq<char>,
    pos: int,
    frames: Option<Seq<(Seq<char>, LiegeSprite)>>,
) -> Option<(Seq<(Seq<char>, LiegeSprite)>, int)>
    decreases s.len() - pos, 1int,
        via top_members_decreases
{
    match spec_parse_string(s, pos) {
        None => None,
        Some((k, p1)) => {
            let p2 = spec_skip_ws(s, p1);
            if !(p2 < s.len() && s[p2] == ':') {
                None
            } else {
                let p3 = spec_skip_ws(s, p2 + 1);
                if k == "frames"@ {
                    if frames is Some {
                        None
                    } else {
                        match spec_parse_frames_object(s, p3) {
                            None => None,
                            Some((m, p4)) => spec_top_next(s, p4, Some(m)),
                        }
                    }
                } else {
                    match spec_skip_member_value(s, p3, 0, false) {
                        None => None,
                        Some(t) => spec_top_next(s, t, frames),
                    }
                }
            }
        },
    }
}

/// After one top-level member: a comma continues, a closing brace ends
/// the document object, which must have held `"frames"`.
pub open spec fn spec_top_next(
    s: Seq<char>,
    after: int,
    frames: Option<Seq<(Seq<char>, LiegeSprite)>>,
) -> Option<(Seq<(Seq<char>, LiegeSprite)>, int)>
    decreases s.len() - after, 0int,
        via top_next_decreases
{
    let p = spec_skip_ws(s, after);
    if p < s.len() && s[p] == ',' {
        spec_top_members(s, spec_skip_ws(s, p + 1), frames)
    } else if p < s.len() && s[p] == '}' {
        match frames {
            Some(m) => Some((m, p + 1)),
            None => None,
        }
    } else {
        None
    }
}

#[via_fn]
proof fn top_members_decreases(
    s: Seq<char>,
    pos: int,
    frames: Option<Seq<(Seq<char>, LiegeSprite)>>,
) {
    if 0 <= pos {
        lemma_parse_string_bounds(s, pos);
        match spec_parse_string(s, pos) {
            None => {},
            Some((k, p1)) => {
                lemma_skip_ws_bounds(s, p1);
                let p2 = spec_skip_ws(s, p1);
                if p2 < s.len() && s[p2] == ':' {
                    lemma_skip_ws_bounds(s, p2 + 1);
                    let p3 = spec_skip_ws(s, p2 + 1);
                    lemma_parse_frames_object_bounds(s, p3);
                    lemma_skip_member_value_bounds(s, p3, 0, false);
                }
            },
        }
    }
}

#[via_fn]
proof fn top_next_decreases(
    s: Seq<char>,
    after: int,
    frames: Option<Seq<(Seq<char>, LiegeSprite)>>,
) {
    if 0 <= after {
        lemma_skip_ws_bounds(s, after);
    }
    let p = spec_skip_ws(s, after);
    if 0 <= p + 1 {
        lemma_skip_ws_bounds(s, p + 1);
    }
}

/// The whole document: optional whitespace, the top-level object, and
/// nothing but whitespace after it.
pub open spec fn spec_parse_document(s: Seq<char>) -> Option<Seq<(Seq<char>, LiegeSprite)>> {
    let p0 = spec_skip_ws(s, 0);
    if p0 < s.len() && s[p0] == '{' {
        let p1 = spec_skip_ws(s, p0 + 1);
        let parsed = if p1 < s.len() && s[p1] == '}' {
            None
        } else {
            spec_top_members(s, p1, None)
        };
        match parsed {
            None => None,
            Some((m, p)) => {
                if spec_skip_ws(s, p) == s.len() {
                    Some(m)
                } else {
                    None
                }
            },
        }
    } else {
        None
    }
}

fn skip_ws(s: &str, pos: usize) -> (r: usize)
    requires
        pos <= s@.len(),
    ensures
        r == spec_skip_ws(s@, pos as int),
        pos <= r <= s@.len(),
    decreases s@.len() - pos,
{
    let n = s.unicode_len();
    if pos < n {
        let c = s.get_char(pos);
        if c == ' ' || c == '\t' || c == '\n' || c == '\r' {
            skip_ws(s, pos + 1)
        } else {
            pos
        }
    } else {
        pos
    }
}

fn string_end(s: &str, pos: usize) -> (r: Option<usize>)
    requires
        pos <= s@.len(),
    ensures
        match r {
            Some(e) => spec_string_end(s@, pos as int) == Some(e as int) && pos <= e < s@.len(),
            None => spec_string_end(s@, pos as int) is None,
        },
    decreases s@.len() - pos,
{
    let n = s.unicode_len();
    if pos >= n {
        None
    } else {
        let c = s.get_char(pos);
        if c == '"' {
            Some(pos)
        } else if c == '\\' {
            None
        } else {
            string_end(s, pos + 1)
        }
    }
}

fn parse_string(s: &str, pos: usize) -> (r: Option<(String, usize)>)
    requires
        s.is_ascii(),
        pos <= s@.len(),
    ensures
        match r {
            Some(v) => spec_parse_string(s@, pos as int) == Some((v.0@, v.1 as int)) && pos < v.1
                <= s@.len(),
            None => spec_parse_string(s@, pos as int) is None,
        },
{
    let n = s.unicode_len();
    if pos < n && s.get_char(pos) == '"' {
        match string_end(s, pos + 1) {
            Some(e) => {
                let content = s.substring_ascii(pos + 1, e);
                Some((String::from_str(content), e + 1))
            },
            None => None,
        }
    } else {
        None
    }
}

fn parse_digits(s: &str, pos: usize, acc: u64) -> (r: (u64, usize))
    requires
        pos <= s@.len(),
        acc <= 3_000_000_000,
    ensures
        spec_parse_digits(s@, pos as int, acc as int) == (r.0 as int, r.1 as int),
        r.0 <= 3_000_000_000,
        pos <= r.1 <= s@.len(),
    decreases s@.len() - pos,
{
    let n = s.unicode_len();
    if pos < n {
        let u = s.get_char(pos) as u32;
        if 48 <= u && u <= 57 {
            let d = (u - 48) as u64;
            let next = if 10 * acc + d > 3_000_000_000 {
                3_000_000_000
            } else {
                10 * acc + d
            };
            parse_digits(s, pos + 1, next)
        } else {
            (acc, pos)
        }
    } else {
        (acc, pos)
    }
}

fn parse_i32(s: &str, pos: usize) -> (r: Option<(i32, usize)>)
    requires
        pos <= s@.len(),
    ensures
        match r {
            Some(v) => spec_parse_i32(s@, pos as int) == Some((v.0, v.1 as int)) && pos < v.1
                <= s@.len(),
            None => spec_parse_i32(s@, pos as int) is None,
        },
{
    let n = s.unicode_len();
    let neg = pos < n && s.get_char(pos) == '-';
    let p = if neg {
        pos + 1
    } else {
        pos
    };
    if !(p < n) {
        return None;
    }
    let u0 = s.get_char(p) as u32;
    if !(48 <= u0 && u0 <= 57) {
        return None;
    }
    if u0 == 48 && p + 1 < n {
        let u1 = s.get_char(p + 1) as u32;
        if 48 <= u1 && u1 <= 57 {
            return None;
        }
    }
    let (m, p2) = parse_digits(s, p, 0);
    proof {
        lemma_parse_i32_bounds(s@, pos as int);
    }
    if neg {
        if m > 2_147_483_648 {
            None
        } else {
            Some(((-(m as i64)) as i32, p2))
        }
    } else {
        if m > 2_147_483_647 {
            None
        } else {
            Some((m as i32, p2))
        }
    }
}

fn parse_bool(s: &str, pos: usize) -> (r: Option<(bool, usize)>)
    requires
        pos <= s@.len(),
    ensures
        match r {
            Some(v) => spec_parse_bool(s@, pos as int) == Some((v.0, v.1 as int)) && pos < v.1
                <= s@.len(),
            None => spec_parse_bool(s@, pos as int) is None,
        },
{
    let n = s.unicode_len();
    if pos < n && n - pos >= 4 && s.get_char(pos) == 't' && s.get_char(pos + 1) == 'r'
        && s.get_char(pos + 2) == 'u' && s.get_char(pos + 3) == 'e' {
        Some((true, pos + 4))
    } else if pos < n && n - pos >= 5 && s.get_char(pos) == 'f' && s.get_char(pos + 1) == 'a'
        && s.get_char(pos + 2) == 'l' && s.get_char(pos + 3) == 's' && s.get_char(pos + 4)
        == 'e' {
        Some((false, pos + 5))
    } else {
        None
    }
}

fn skip_member_value(s: &str, pos: usize, depth: usize, in_str: bool) -> (r: Option<usize>)
    requires
        depth <= pos <= s@.len(),
    ensures
        match r {
            Some(t) => spec_skip_member_value(s@, pos as int, depth as int, in_str) == Some(
                t as int,
            ) && pos <= t < s@.len(),
            None => spec_skip_member_value(s@, pos as int, depth as int, in_str) is None,
        },
    decreases s@.len() - pos,
{
    let n = s.unicode_len();
    if pos >= n {
        None
    } else {
        let c = s.get_char(pos);
        if in_str {
            if c == '\\' {
                None
            } else if c == '"' {
                skip_member_value(s, pos + 1, depth, false)
            } else {
                skip_member_value(s, pos + 1, depth, true)
            }
        } else if c == '"' {
            skip_member_value(s, pos + 1, depth, true)
        } else if c == '{' || c == '[' {
            skip_member_value(s, pos + 1, depth + 1, false)
        } else if c == '}' || c == ']' {
            if depth == 0 {
                Some(pos)
            } else {
                skip_member_value(s, pos + 1, depth - 1, false)
            }
        } else if c == ',' && depth == 0 {
            Some(pos)
        } else {
            skip_member_value(s, pos + 1, depth, in_str)
        }
    }
}

fn int_members(s: &str, pos: usize, acc: IntFields) -> (r: Option<(IntFields, usize)>)
    requires
        s.is_ascii(),
        pos <= s@.len(),
    ensures
        match r {
            Some(v) => spec_int_members(s@, pos as int, acc) == Some((v.0, v.1 as int)) && pos
                < v.1 <= s@.len(),
            None => spec_int_members(s@, pos as int, acc) is None,
        },
    decreases s@.len() - pos, 1int,
{
    match parse_string(s, pos) {
        None => None,
        Some((k, p1)) => {
            let p2 = skip_ws(s, p1);
            let n = s.unicode_len();
            if !(p2 < n && s.get_char(p2) == ':') {
                None
            } else {
                let p3 = skip_ws(s, p2 + 1);
                let kx = k.eq(&String::from_str("x"));
                let ky = k.eq(&String::from_str("y"));
                let kw = k.eq(&String::from_str("w"));
                let kh = k.eq(&String::from_str("h"));
                if kx || ky || kw || kh {
                    match parse_i32(s, p3) {
                        None => None,
                        Some((v, p4)) => {
                            if kx {
                                if acc.x.is_some() {
                                    None
                                } else {
                                    int_next(s, p4, IntFields { x: Some(v), ..acc })
                                }
                            } else if ky {
                                if acc.y.is_some() {
                                    None
                                } else {
                                    int_next(s, p4, IntFields { y: Some(v), ..acc })
                                }
                            } else if kw {
                                if acc.w.is_some() {
                                    None
                                } else {
                                    int_next(s, p4, IntFields { w: Some(v), ..acc })
                                }
                            } else {
                                if acc.h.is_some() {
                                    None
                                } else {
                                    int_next(s, p4, IntFields { h: Some(v), ..acc })
                                }
                            }
                        },
                    }
                } else {
                    match skip_member_value(s, p3, 0, false) {
                        None => None,
                        Some(t) => int_next(s, t, acc),
                    }
                }
            }
        },
    }
}

fn int_next(s: &str, after: usize, acc: IntFields) -> (r: Option<(IntFields, usize)>)
    requires
        s.is_ascii(),
        after <= s@.len(),
    ensures
        match r {
            Some(v) => spec_int_next(s@, after as int, acc) == Some((v.0, v.1 as int)) && after
                < v.1 <= s@.len(),
            None => spec_int_next(s@, after as int, acc) is None,
        },
    decreases s@.len() - after, 0int,
{
    let p = skip_ws(s, after);
    let n = s.unicode_len();
    if p < n && s.get_char(p) == ',' {
        let p1 = skip_ws(s, p + 1);
        int_members(s, p1, acc)
    } else if p < n && s.get_char(p) == '}' {
        Some((acc, p + 1))
    } else {
        None
    }
}

fn parse_int_object(s: &str, pos: usize) -> (r: Option<(IntFields, usize)>)
    requires
        s.is_ascii(),
        pos <= s@.len(),
    ensures
        match r {
            Some(v) => spec_parse_int_object(s@, pos as int) == Some((v.0, v.1 as int)) && pos
                < v.1 <= s@.len(),
            None => spec_parse_int_object(s@, pos as int) is None,
        },
{
    let n = s.unicode_len();
    if pos < n && s.get_char(pos) == '{' {
        let p1 = skip_ws(s, pos + 1);
        let none = IntFields { x: None, y: None, w: None, h: None };
        if p1 < n && s.get_char(p1) == '}' {
            Some((none, p1 + 1))
        } else {
            int_members(s, p1, none)
        }
    } else {
        None
    }
}

fn parse_rect(s: &str, pos: usize) -> (r: Option<(Frame, usize)>)
    requires
        s.is_ascii(),
        pos <= s@.len(),
    ensures
        match r {
            Some(v) => spec_parse_rect(s@, pos as int) == Some((v.0, v.1 as int)) && pos < v.1
                <= s@.len(),
            None => spec_parse_rect(s@, pos as int) is None,
        },
{
    match parse_int_object(s, pos) {
        None => None,
        Some((f, p)) => {
            match (f.x, f.y, f.w, f.h) {
                (Some(x), Some(y), Some(w), Some(h)) => Some((Frame { x, y, w, h }, p)),
                _ => None,
            }
        },
    }
}

fn parse_size(s: &str, pos: usize) -> (r: Option<(Size, usize)>)
    requires
        s.is_ascii(),
        pos <= s@.len(),
    ensures
        match r {
            Some(v) => spec_parse_size(s@, pos as int) == Some((v.0, v.1 as int)) && pos < v.1
                <= s@.len(),
            None => spec_parse_size(s@, pos as int) is None,
        },
{
    match parse_int_object(s, pos) {
        None => None,
        Some((f, p)) => {
            match (f.w, f.h) {
                (Some(w), Some(h)) => Some((Size { w, h }, p)),
                _ => None,
            }
        },
    }
}

fn sprite_members(s: &str, pos: usize, acc: SpriteFields) -> (r: Option<(SpriteFields, usize)>)
    requires
        s.is_ascii(),
        pos <= s@.len(),
    ensures
        match r {
            Some(v) => spec_sprite_members(s@, pos as int, acc) == Some((v.0, v.1 as int)) && pos
                < v.1 <= s@.len(),
            None => spec_sprite_members(s@, pos as int, acc) is None,
        },
    decreases s@.len() - pos, 1int,
{
    match parse_string(s, pos) {
        None => None,
        Some((k, p1)) => {
            let p2 = skip_ws(s, p1);
            let n = s.unicode_len();
            if !(p2 < n && s.get_char(p2) == ':') {
                None
            } else {
                let p3 = skip_ws(s, p2 + 1);
                if k.eq(&String::from_str("frame")) {
                    match parse_rect(s, p3) {
                        None => None,
                        Some((v, p4)) => if acc.frame.is_some() {
                            None
                        } else {
                            sprite_next(s, p4, SpriteFields { frame: Some(v), ..acc })
                        },
                    }
                } else if k.eq(&String::from_str("rotated")) {
                    match parse_bool(s, p3) {
                        None => None,
                        Some((v, p4)) => if acc.rotated.is_some() {
                            None
                        } else {
                            sprite_next(s, p4, SpriteFields { rotated: Some(v), ..acc })
                        },
                    }
                } else if k.eq(&String::from_str("trimmed")) {
                    match parse_bool(s, p3) {
                        None => None,
                        Some((v, p4)) => if acc.trimmed.is_some() {
                            None
                        } else {
                            sprite_next(s, p4, SpriteFields { trimmed: Some(v), ..acc })
                        },
                    }
                } else if k.eq(&String::from_str("spriteSourceSize")) {
                    match parse_rect(s, p3) {
                        None => None,
                        Some((v, p4)) => if acc.sprite_source_size.is_some() {
                            None
                        } else {
                            sprite_next(
                                s,
                                p4,
                                SpriteFields { sprite_source_size: Some(v), ..acc },
                            )
                        },
                    }
                } else if k.eq(&String::from_str("sourceSize")) {
                    match parse_size(s, p3) {
                        None => None,
                        Some((v, p4)) => if acc.source_size.is_some() {
                            None
                        } else {
                            sprite_next(s, p4, SpriteFields { source_size: Some(v), ..acc })
                        },
                    }
                } else {
                    match skip_member_value(s, p3, 0, false) {
                        None => None,
                        Some(t) => sprite_next(s, t, acc),
                    }
                }
            }
        },
    }
}

fn sprite_next(s: &str, after: usize, acc: SpriteFields) -> (r: Option<(SpriteFields, usize)>)
    requires
        s.is_ascii(),
        after <= s@.len(),
    ensures
        match r {
            Some(v) => spec_sprite_next(s@, after as int, acc) == Some((v.0, v.1 as int))
                && after < v.1 <= s@.len(),
            None => spec_sprite_next(s@, after as int, acc) is None,
        },
    decreases s@.len() - after, 0int,
{
    let p = skip_ws(s, after);
    let n = s.unicode_len();
    if p < n && s.get_char(p) == ',' {
        let p1 = skip_ws(s, p + 1);
        sprite_members(s, p1, acc)
    } else if p < n && s.get_char(p) == '}' {
        Some((acc, p + 1))
    } else {
        None
    }
}

fn parse_sprite(s: &str, pos: usize) -> (r: Option<(LiegeSprite, usize)>)
    requires
        s.is_ascii(),
        pos <= s@.len(),
    ensures
        match r {
            Some(v) => spec_parse_sprite(s@, pos as int) == Some((v.0, v.1 as int)) && pos < v.1
                <= s@.len(),
            None => spec_parse_sprite(s@, pos as int) is None,
        },
{
    let n = s.unicode_len();
    if pos < n && s.get_char(pos) == '{' {
        let p1 = skip_ws(s, pos + 1);
        let none = SpriteFields {
            frame: None,
            rotated: None,
            trimmed: None,
            sprite_source_size: None,
            source_size: None,
        };
        let parsed = if p1 < n && s.get_char(p1) == '}' {
            Some((none, p1 + 1))
        } else {
            sprite_members(s, p1, none)
        };
        match parsed {
            None => None,
            Some((f, p)) => {
                match (f.frame, f.rotated, f.trimmed, f.sprite_source_size, f.source_size) {
                    (Some(frame), Some(rotated), Some(trimmed), Some(sss), Some(ss)) => Some(
                        (
                            LiegeSprite {
                                frame,
                                rotated,
                                trimmed,
                                sprite_source_size: sss,
                                source_size: ss,
                            },
                            p,
                        ),
                    ),
                    _ => None,
                }
            },
        }
    } else {
        None
    }
}

/// The mathematical value of collected frame entries.
pub open spec fn entries_model(v: Seq<(String, LiegeSprite)>) -> Seq<(Seq<char>, LiegeSprite)> {
    v.map(|_i: int, p: (String, LiegeSprite)| (p.0@, p.1))
}

fn map_members(s: &str, pos: usize, acc: Vec<(String, LiegeSprite)>) -> (r: Option<
    (Vec<(String, LiegeSprite)>, usize),
>)
    requires
        s.is_ascii(),
        pos <= s@.len(),
    ensures
        match r {
            Some(v) => spec_map_members(s@, pos as int, entries_model(acc@)) == Some(
                (entries_model(v.0@), v.1 as int),
            ) && pos < v.1 <= s@.len(),
            None => spec_map_members(s@, pos as int, entries_model(acc@)) is None,
        },
    decreases s@.len() - pos, 1int,
{
    match parse_string(s, pos) {
        None => None,
        Some((k, p1)) => {
            let p2 = skip_ws(s, p1);
            let n = s.unicode_len();
            if !(p2 < n && s.get_char(p2) == ':') {
                None
            } else {
                let p3 = skip_ws(s, p2 + 1);
                match parse_sprite(s, p3) {
                    None => None,
                    Some((v, p4)) => {
                        let ghost acc0 = acc@;
                        let ghost kv = k@;
                        let mut acc2 = acc;
                        acc2.push((k, v));
                        proof {
                            assert(entries_model(acc2@) =~= entries_model(acc0) + seq![(kv, v)]);
                        }
                        map_next(s, p4, acc2)
                    },
                }
            }
        },
    }
}

fn map_next(s: &str, after: usize, acc: Vec<(String, LiegeSprite)>) -> (r: Option<
    (Vec<(String, LiegeSprite)>, usize),
>)
    requires
        s.is_ascii(),
        after <= s@.len(),
    ensures
        match r {
            Some(v) => spec_map_next(s@, after as int, entries_model(acc@)) == Some(
                (entries_model(v.0@), v.1 as int),
            ) && after < v.1 <= s@.len(),
            None => spec_map_next(s@, after as int, entries_model(acc@)) is None,
        },
    decreases s@.len() - after, 0int,
{
    let p = skip_ws(s, after);
    let n = s.unicode_len();
    if p < n && s.get_char(p) == ',' {
        let p1 = skip_ws(s, p + 1);
        map_members(s, p1, acc)
    } else if p < n && s.get_char(p) == '}' {
        Some((acc, p + 1))
    } else {
        None
    }
}

fn parse_frames_object(s: &str, pos: usize) -> (r: Option<(Vec<(String, LiegeSprite)>, usize)>)
    requires
        s.is_ascii(),
        pos <= s@.len(),
    ensures
        match r {
            Some(v) => spec_parse_frames_object(s@, pos as int) == Some(
                (entries_model(v.0@), v.1 as int),
            ) && pos < v.1 <= s@.len(),
            None => spec_parse_frames_object(s@, pos as int) is None,
        },
{
    let n = s.unicode_len();
    if pos < n && s.get_char(pos) == '{' {
        let p1 = skip_ws(s, pos + 1);
        let empty: Vec<(String, LiegeSprite)> = Vec::new();
        proof {
            assert(entries_model(empty@) =~= Seq::<(Seq<char>, LiegeSprite)>::empty());
        }
        if p1 < n && s.get_char(p1) == '}' {
            Some((empty, p1 + 1))
        } else {
            map_members(s, p1, empty)
        }
    } else {
        None
    }
}

fn top_members(s: &str, pos: usize, frames: Option<Vec<(String, LiegeSprite)>>) -> (r: Option<
    (Vec<(String, LiegeSprite)>, usize),
>)
    requires
        s.is_ascii(),
        pos <= s@.len(),
    ensures
        match r {
            Some(v) => spec_top_members(
                s@,
                pos as int,
                match frames {
                    Some(m) => Some(entries_model(m@)),
                    None => None,
                },
            ) == Some((entries_model(v.0@), v.1 as int)) && pos < v.1 <= s@.len(),
            None => spec_top_members(
                s@,
                pos as int,
                match frames {
                    Some(m) => Some(entries_model(m@)),
                    None => None,
                },
            ) is None,
        },
    decreases s@.len() - pos, 1int,
{
    match parse_string(s, pos) {
        None => None,
        Some((k, p1)) => {
            let p2 = skip_ws(s, p1);
            let n = s.unicode_len();
            if !(p2 < n && s.get_char(p2) == ':') {
                None
            } else {
                let p3 = skip_ws(s, p2 + 1);
                if k.eq(&String::from_str("frames")) {
                    if frames.is_some() {
                        None
                    } else {
                        match parse_frames_object(s, p3) {
                            None => None,
                            Some((m, p4)) => top_next(s, p4, Some(m)),
                        }
                    }
                } else {
                    match skip_member_value(s, p3, 0, false) {
                        None => None,
                        Some(t) => top_next(s, t, frames),
                    }
                }
            }
        },
    }
}

fn top_next(s: &str, after: usize, frames: Option<Vec<(String, LiegeSprite)>>) -> (r: Option<
    (Vec<(String, LiegeSprite)>, usize),
>)
    requires
        s.is_ascii(),
        after <= s@.len(),
    ensures
        match r {
            Some(v) => spec_top_next(
                s@,
                after as int,
                match frames {
                    Some(m) => Some(entries_model(m@)),
                    None => None,
                },
            ) == Some((entries_model(v.0@), v.1 as int)) && after < v.1 <= s@.len(),
            None => spec_top_next(
                s@,
                after as int,
                match frames {
                    Some(m) => Some(entries_model(m@)),
                    None => None,
                },
            ) is None,
        },
    decreases s@.len() - after, 0int,
{
    let p = skip_ws(s, after);
    let n = s.unicode_len();
    if p < n && s.get_char(p) == ',' {
        let p1 = skip_ws(s, p + 1);
        top_members(s, p1, frames)
    } else if p < n && s.get_char(p) == '}' {
        match frames {
            Some(m) => Some((m, p + 1)),
            None => None,
        }
    } else {
        None
    }
}

/// Parses an atlas description.  Returns exactly the sheet that
/// `spec_parse_document` reads from the text, and fails exactly when
/// that grammar rejects it (or the text is not ASCII, which the atlas
/// format never is).
pub fn deserialize_json(json_str: &str) -> (r: Result<SpriteSheet, ParseError>)
    ensures
        match r {
            Ok(sheet) => json_str.is_ascii() && spec_parse_document(json_str@) == Some(
                entries_model(sheet.frames@),
            ),
            Err(_) => !json_str.is_ascii() || spec_parse_document(json_str@) is None,
        },
{
    if !json_str.is_ascii() {
        return Err(ParseError::Malformed);
    }
    let s = json_str;
    let n = s.unicode_len();
    let p0 = skip_ws(s, 0);
    if !(p0 < n && s.get_char(p0) == '{') {
        return Err(ParseError::Malformed);
    }
    let p1 = skip_ws(s, p0 + 1);
    if p1 < n && s.get_char(p1) == '}' {
        return Err(ParseError::Malformed);
    }
    match top_members(s, p1, None) {
        None => Err(ParseError::Malformed),
        Some((m, p)) => {
            let p2 = skip_ws(s, p);
            if p2 == n {
                Ok(SpriteSheet { frames: m })
            } else {
                Err(ParseError::Malformed)
            }
        },
    }
}

} // verus!



