//! Rectangles of terminal cells.

use vstd::prelude::*;
use crate::text::decimal;

verus! {

/// A rectangle of terminal cells: its top-left corner and its size.
#[derive(Debug, Clone, Copy, PartialEq, Eq, Hash, Structural)]
pub struct Rect {
    pub x: u16,
    pub y: u16,
    pub width: u16,
    pub height: u16,
}

/// The developer-facing text of a rectangle: the type's name and its four
/// fields by name, each as a decimal numeral.
pub open spec fn rect_debug_text(area: Rect) -> Seq<char> {
    "Rect { x: "@ + decimal(area.x as nat) + ", y: "@ + decimal(area.y as nat) + ", width: "@
        + decimal(area.width as nat) + ", height: "@ + decimal(area.height as nat) + " }"@
}

/// The developer-facing text of a rectangle.
///
/// Trusted: this formats the same rectangle as a `ratatui::layout::Rect`
/// with `{:?}`. That type derives `Debug` and has exactly the four public
/// fields `x`, `y`, `width` and `height`, all `u16`, so the text is the
/// struct's name followed by the fields in that order.
#[verifier::external_body]
pub(crate) fn rect_debug(area: Rect) -> (text: String)
    ensures
        text@ == rect_debug_text(area),
{
    format!(
        "{:?}",
        ratatui::layout::Rect { x: area.x, y: area.y, width: area.width, height: area.height }
    )
}

} // verus!
