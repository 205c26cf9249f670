use vstd::prelude::*;

verus! {

#[derive(Clone, Copy, Debug, PartialEq, Eq, Structural)]
pub enum HorizontalAlignment {
    Left,
    Center,
    Right,
    /// Starts at the left edge and stretches across the whole window.
    FillScreen,
}

#[derive(Clone, Copy, Debug, PartialEq, Eq, Structural)]
pub enum VerticalAlignment {
    Top,
    Center,
    Bottom,
}

/// A rectangle on the screen, in whole pixels: its top-left corner and its size.
#[derive(Clone, Copy, Debug, PartialEq, Eq, Structural)]
pub struct ScreenBox {
    pub x1: i64,
    pub y1: i64,
    pub width: i64,
    pub height: i64,
}

pub open spec fn aligned_x(horiz: HorizontalAlignment, window_width: int, width: int) -> int {
    match horiz {
        HorizontalAlignment::Left => 0,
        HorizontalAlignment::Center => (window_width - width) / 2,
        HorizontalAlignment::Right => window_width - width,
        HorizontalAlignment::FillScreen => 0,
    }
}

pub open spec fn aligned_y(vert: VerticalAlignment, window_height: int, height: int) -> int {
    match vert {
        VerticalAlignment::Top => 0,
        VerticalAlignment::Center => (window_height - height) / 2,
        VerticalAlignment::Bottom => window_height - height,
    }
}

/// Half of `d`, rounded down.
fn half_down(d: i64) -> (r: i64)
    requires
        -0x1_0000_0000 <= d <= 0x1_0000_0000,
    ensures
        r == d / 2,
{
    if d >= 0 {
        d / 2
    } else {
        -((1 - d) / 2)
    }
}

/// Where a text box of the given size goes in the window under the given alignment.
/// A box filling the screen takes the window's width; a centered one rounds down.
pub fn aligned_text_box(
    horiz: HorizontalAlignment,
    vert: VerticalAlignment,
    window_width: u32,
    window_height: u32,
    width: u32,
    height: u32,
) -> (r: ScreenBox)
    ensures
        r.x1 == aligned_x(horiz, window_width as int, width as int),
        r.y1 == aligned_y(vert, window_height as int, height as int),
        r.width == (if horiz == HorizontalAlignment::FillScreen { window_width } else { width }),
        r.height == height,
{
    let (ww, wh, w, h) = (window_width as i64, window_height as i64, width as i64, height as i64);
    let (x1, box_width) = match horiz {
        HorizontalAlignment::Left => (0, w),
        HorizontalAlignment::Center => (half_down(ww - w), w),
        HorizontalAlignment::Right => (ww - w, w),
        HorizontalAlignment::FillScreen => (0, ww),
    };
    let y1 = match vert {
        VerticalAlignment::Top => 0,
        VerticalAlignment::Center => half_down(wh - h),
        VerticalAlignment::Bottom => wh - h,
    };
    ScreenBox { x1, y1, width: box_width, height: h }
}

/// The box of the given size whose center is (`center_x`, `center_y`), rounding the
/// corner down.
pub fn centered_box(center_x: i32, center_y: i32, width: u32, height: u32) -> (r: ScreenBox)
    ensures
        r.x1 == center_x - width / 2,
        r.y1 == center_y - height / 2,
        r.width == width,
        r.height == height,
{
    ScreenBox {
        x1: center_x as i64 - width as i64 / 2,
        y1: center_y as i64 - height as i64 / 2,
        width: width as i64,
        height: height as i64,
    }
}

} // verus!
