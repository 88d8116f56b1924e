//! Small rules of the window chrome: where a window may open, which image
//! of an icon fits, what the settings of the system mean.

use vstd::prelude::*;
use crate::text::{chars_of, push_str, string_of, trim, trimmed};

verus! {

/// How far from the right and lower edge of the work area a window opens at
/// most, so that a part of it stays in sight.
pub const EDGE_MARGIN: u32 = 100;

/// The part of the primary monitor in which windows open.
#[derive(Debug, Clone, Copy, PartialEq, Eq)]
pub struct WorkArea {
    pub x: i32,
    pub y: i32,
    pub width: u32,
    pub height: u32,
}

/// A coordinate held inside a work area that begins at `origin` and is
/// `extent` wide: not before the origin, and not nearer to the far edge than
/// the margin. An area narrower than the margin leaves only its origin.
pub open spec fn clamped(value: int, origin: int, extent: int) -> int {
    let far = origin + extent - EDGE_MARGIN;
    if far < origin || value < origin {
        origin
    } else if value > far {
        far
    } else {
        value
    }
}

fn clamp_axis(value: i32, origin: i32, extent: u32) -> (out: i32)
    ensures
        out == clamped(value as int, origin as int, extent as int),
{
    let far: i64 = origin as i64 + extent as i64 - EDGE_MARGIN as i64;
    if far < origin as i64 || value < origin {
        origin
    } else if value as i64 > far {
        far as i32
    } else {
        value
    }
}

/// Holds the position `(x, y)` inside the work area of the primary monitor.
/// Where the monitor is not known, the position is left as it is.
pub fn clamp_position(x: i32, y: i32, area: Option<WorkArea>) -> (at: (i32, i32))
    ensures
        at == match area {
            Some(area) => (
                clamped(x as int, area.x as int, area.width as int) as i32,
                clamped(y as int, area.y as int, area.height as int) as i32,
            ),
            None => (x, y),
        },
        area matches Some(area) ==> area.x <= at.0 && area.y <= at.1,
{
    match area {
        Some(area) => (clamp_axis(x, area.x, area.width), clamp_axis(y, area.y, area.height)),
        None => (x, y),
    }
}

/// The size of an image: the larger of its sides.
pub open spec fn side(size: (u32, u32)) -> int {
    if size.0 >= size.1 {
        size.0 as int
    } else {
        size.1 as int
    }
}

/// How far the size of an image is from the size wished for.
pub open spec fn distance(size: (u32, u32), desired: u32) -> int {
    if side(size) >= desired {
        side(size) - desired
    } else {
        desired - side(size)
    }
}

fn distance_of(size: (u32, u32), desired: u32) -> (d: u32)
    ensures
        d == distance(size, desired),
{
    let side: u32 = if size.0 >= size.1 {
        size.0
    } else {
        size.1
    };
    if side >= desired {
        side - desired
    } else {
        desired - side
    }
}

/// Picks, among the images of an icon, the one whose size is nearest to
/// the size wished for; of several equally near, the first.
pub fn best_fit(sizes: &Vec<(u32, u32)>, desired: u32) -> (pick: Option<usize>)
    ensures
        pick is None <==> sizes.len() == 0,
        pick matches Some(i) ==> {
            &&& i < sizes.len()
            &&& forall|k: int|
                0 <= k < sizes.len() ==> distance(sizes@[i as int], desired) <= distance(
                    #[trigger] sizes@[k],
                    desired,
                )
            &&& forall|k: int|
                0 <= k < i ==> distance(sizes@[i as int], desired) < distance(
                    #[trigger] sizes@[k],
                    desired,
                )
        },
{
    if sizes.len() == 0 {
        return None;
    }
    let mut best: usize = 0;
    let mut k: usize = 1;
    while k < sizes.len()
        invariant
            best < k <= sizes.len(),
            forall|j: int|
                0 <= j < k ==> distance(sizes@[best as int], desired) <= distance(
                    #[trigger] sizes@[j],
                    desired,
                ),
            forall|j: int|
                0 <= j < best ==> distance(sizes@[best as int], desired) < distance(
                    #[trigger] sizes@[j],
                    desired,
                ),
        decreases sizes.len() - k,
    {
        if distance_of(sizes[k], desired) < distance_of(sizes[best], desired) {
            best = k;
        }
        k += 1;
    }
    Some(best)
}

/// A colour: red, green, blue, opacity.
#[derive(Debug, Clone, Copy, PartialEq, Eq)]
pub struct Rgba(pub u8, pub u8, pub u8, pub u8);

/// Tells whether the system shows applications in its light theme, from
/// the setting that was read. Without the setting the theme is light.
pub fn is_light_theme(setting: Option<u32>) -> (light: bool)
    ensures
        light == match setting {
            Some(value) => value != 0,
            None => true,
        },
{
    match setting {
        Some(value) => value != 0,
        None => true,
    }
}

/// The background that a window gets under the theme: white under the
/// light one, near black under the dark one.
pub fn resolve_bg(light: bool) -> (colour: Rgba)
    ensures
        colour == if light {
            Rgba(0xFF, 0xFF, 0xFF, 0xFF)
        } else {
            Rgba(0x11, 0x11, 0x11, 0xFF)
        },
{
    if light {
        Rgba(0xFF, 0xFF, 0xFF, 0xFF)
    } else {
        Rgba(0x11, 0x11, 0x11, 0xFF)
    }
}

/// Tells whether the entry that starts the application with the system is
/// set: its value holds more than white space.
pub fn start_entry_set(value: &str) -> (set: bool)
    ensures
        set == (trimmed(value@).len() > 0),
{
    trim(&chars_of(value)).len() > 0
}

/// The value of the entry that starts the application with the system: the
/// path of the program in double quotes.
pub fn start_entry_value(program: &str) -> (value: String)
    ensures
        value@ == "\""@ + program@ + "\""@,
{
    let mut out: Vec<char> = Vec::new();
    push_str(&mut out, "\"");
    push_str(&mut out, program);
    push_str(&mut out, "\"");
    string_of(&out)
}

} // verus!
