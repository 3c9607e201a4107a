//! Screen geometry: rectangles in character cells and the fixed layout
//! split of a frame.
//!
//! A frame is split into a one-line header and the remaining field; the
//! header in turn gives its rightmost eight columns to the frame-rate
//! readout and the rest to the title. When the surface is too small the
//! short side of each split simply gets what is left, down to nothing.

use vstd::prelude::*;

verus! {

/// A rectangle of character cells, by its top-left corner and size.
#[derive(Clone, Copy, PartialEq, Eq, Structural, Debug)]
pub struct Rect {
    pub x: u16,
    pub y: u16,
    pub width: u16,
    pub height: u16,
}

/// A rectangle that stays within the addressable cell space.
pub open spec fn rect_wf(r: Rect) -> bool {
    r.x + r.width <= u16::MAX && r.y + r.height <= u16::MAX
}

/// Split an area into a header of height one (or zero, on an empty
/// area) and the field below it.
pub fn split_header(area: Rect) -> (r: (Rect, Rect))
    requires
        rect_wf(area),
    ensures
        r.0.x == area.x && r.0.y == area.y && r.0.width == area.width,
        r.0.height == if area.height == 0 { 0int } else { 1int },
        r.1.x == area.x && r.1.width == area.width,
        r.1.y == area.y + r.0.height,
        r.1.height == area.height - r.0.height,
        rect_wf(r.0) && rect_wf(r.1),
{
    if area.height == 0 {
        (area, area)
    } else {
        let header = Rect { x: area.x, y: area.y, width: area.width, height: 1 };
        let field = Rect {
            x: area.x,
            y: area.y + 1,
            width: area.width,
            height: area.height - 1,
        };
        (header, field)
    }
}

/// Split the header into the title area and the eight rightmost columns
/// for the frame-rate readout; a narrower header gives the readout what
/// width there is.
pub fn split_title(header: Rect) -> (r: (Rect, Rect))
    requires
        rect_wf(header),
    ensures
        r.1.width == if header.width < 8 { header.width as int } else { 8int },
        r.0 == (Rect {
            x: header.x,
            y: header.y,
            width: (header.width - r.1.width) as u16,
            height: header.height,
        }),
        r.1.x == header.x + r.0.width,
        r.1.y == header.y && r.1.height == header.height,
        rect_wf(r.0) && rect_wf(r.1),
{
    let fps_width: u16 = if header.width < 8 {
        header.width
    } else {
        8
    };
    let title = Rect {
        x: header.x,
        y: header.y,
        width: header.width - fps_width,
        height: header.height,
    };
    let fps_area = Rect {
        x: header.x + title.width,
        y: header.y,
        width: fps_width,
        height: header.height,
    };
    (title, fps_area)
}

} // verus!
