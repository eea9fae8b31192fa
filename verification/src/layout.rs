//! Text sizing and placement on the canvas.

use vstd::prelude::*;

verus! {

/// The scale, in pixels, at which the text is rendered: a tenth of the
/// smaller canvas dimension, with a floor of 12 so that small canvases stay
/// legible.
pub open spec fn spec_text_scale(width: u32, height: u32) -> int {
    let smaller = if width <= height { width as int } else { height as int };
    if smaller / 10 >= 12 {
        smaller / 10
    } else {
        12
    }
}

/// Pixel scale for the text: `max(12, min(width, height) / 10)`.
pub fn text_scale(width: u32, height: u32) -> (s: u32)
    ensures
        s == spec_text_scale(width, height),
{
    let smaller: u32 = if width <= height { width } else { height };
    let tenth: u32 = smaller / 10;
    if tenth >= 12 {
        tenth
    } else {
        12
    }
}

/// The signed offset that centers a box of extent `inner` inside one of
/// extent `outer`: negative when the box is larger than the canvas, in which
/// case the drawing routine clips it.
pub open spec fn spec_center_offset(outer: u32, inner: u32) -> int {
    if inner <= outer {
        (outer - inner) / 2
    } else {
        0 - ((inner - outer) as int) / 2
    }
}

/// Top-left origin that centers a text box of `text_width` by `text_height`
/// pixels within a canvas of `width` by `height` pixels.
pub fn text_origin(width: u32, height: u32, text_width: u32, text_height: u32) -> (o: (i32, i32))
    ensures
        o.0 == spec_center_offset(width, text_width),
        o.1 == spec_center_offset(height, text_height),
{
    (center_offset(width, text_width), center_offset(height, text_height))
}

fn center_offset(outer: u32, inner: u32) -> (o: i32)
    ensures
        o == spec_center_offset(outer, inner),
{
    if inner <= outer {
        ((outer - inner) / 2) as i32
    } else {
        let gap: u32 = (inner - outer) / 2;
        let neg: i32 = -(gap as i32);
        neg
    }
}

} // verus!
