//! The vertical split of the terminal area into a header, a body and a
//! footer band.

use vstd::prelude::*;
use crate::geometry::Rect;
use ratatui::layout::{Constraint, Direction, Layout};

verus! {

/// Below this width the main pane switches to its compact rendering.
pub const SMALL_AREA_WIDTH: u16 = 100;

/// The least height that the body band asks for.
pub const SMALL_AREA_HEIGHT: u16 = 4;

/// The height of the header and of the footer band, where they are shown.
pub const BAR_HEIGHT: u16 = 3;

/// How many rows beyond `SMALL_AREA_HEIGHT` an area must exceed before the
/// bars are shown at all.
pub const BAR_MARGIN: u16 = 5;

/// What the layout pass asks of the solver: a fixed height for the header,
/// a least height for the body, a fixed height for the footer.
#[derive(Debug, Clone, Copy, PartialEq, Eq, Structural)]
pub struct BandRequest {
    pub header: u16,
    pub body_min: u16,
    pub footer: u16,
}

/// Whether an area is tall enough for the bars to be shown.
pub open spec fn has_room_for_bars(area: Rect) -> bool {
    area.height > SMALL_AREA_HEIGHT + BAR_MARGIN
}

/// Whether an area is narrow enough for the compact rendering.
pub open spec fn is_small_area(area: Rect) -> bool {
    area.width < SMALL_AREA_WIDTH
}

/// The request for an area under the two visibility flags: a bar gets
/// `BAR_HEIGHT` rows where its flag is set and the area has room, else none;
/// the body asks for at least `SMALL_AREA_HEIGHT` rows.
pub open spec fn band_request(show_title_bar: bool, show_status_bar: bool, area: Rect)
    -> BandRequest {
    BandRequest {
        header: if show_title_bar && has_room_for_bars(area) {
            BAR_HEIGHT
        } else {
            0
        },
        body_min: SMALL_AREA_HEIGHT,
        footer: if show_status_bar && has_room_for_bars(area) {
            BAR_HEIGHT
        } else {
            0
        },
    }
}

/// Computes the request for an area under the two visibility flags.
pub fn request_bands(show_title_bar: bool, show_status_bar: bool, area: Rect) -> (request:
    BandRequest)
    ensures
        request == band_request(show_title_bar, show_status_bar, area),
{
    let roomy = area.height > SMALL_AREA_HEIGHT + BAR_MARGIN;
    BandRequest {
        header: if show_title_bar && roomy {
            BAR_HEIGHT
        } else {
            0
        },
        body_min: SMALL_AREA_HEIGHT,
        footer: if show_status_bar && roomy {
            BAR_HEIGHT
        } else {
            0
        },
    }
}

/// Whether an area is below the width threshold of the compact rendering.
pub fn small_area(area: Rect) -> (small: bool)
    ensures
        small == is_small_area(area),
{
    area.width < SMALL_AREA_WIDTH
}

/// Whether `bands` are three bands that each span the width of `area`.
pub open spec fn spans_width(area: Rect, bands: Seq<Rect>) -> bool {
    &&& bands.len() == 3
    &&& forall|i: int|
        0 <= i < 3 ==> (#[trigger] bands[i]).x == area.x && bands[i].width == area.width
}

/// Splits `area` top to bottom into header, body and footer.
///
/// Trusted: this is `Layout::new(..).split(..)` of ratatui with the
/// direction `Vertical` and the constraints `Length(header)`,
/// `Min(body_min)`, `Length(footer)`. The call returns one rectangle per
/// constraint, and for a vertical split each of them takes its `x` and its
/// `width` from the area. The heights and the `y` positions come out of
/// ratatui's constraint solver, which works in floating point; nothing is
/// claimed of them here. The call fails only where the solver refuses a
/// constraint, and the only ones it may refuse, those that keep each band
/// inside the area, can always be met together.
#[verifier::external_body]
pub(crate) fn split_vertically(area: Rect, request: BandRequest) -> (bands: Vec<Rect>)
    ensures
        spans_width(area, bands@),
{
    let outer =
        ratatui::layout::Rect { x: area.x, y: area.y, width: area.width, height: area.height };
    let constraints = [
        Constraint::Length(request.header),
        Constraint::Min(request.body_min),
        Constraint::Length(request.footer),
    ];
    let parts = Layout::new(Direction::Vertical, constraints).split(outer);
    parts.iter().map(|r| Rect { x: r.x, y: r.y, width: r.width, height: r.height }).collect()
}

/// Whatever the visibility flags, an area without room for the bars has
/// both bar heights requested as zero.
pub proof fn law_no_bars_without_room(show_title_bar: bool, show_status_bar: bool, area: Rect)
    requires
        area.height <= SMALL_AREA_HEIGHT + BAR_MARGIN,
    ensures
        band_request(show_title_bar, show_status_bar, area).header == 0,
        band_request(show_title_bar, show_status_bar, area).footer == 0,
{
}

/// With both flags set, an area with room has both bars requested at
/// exactly `BAR_HEIGHT` rows, and what is left of the height after the two
/// bars is no less than what the body asks for.
pub proof fn law_both_bars_with_room(area: Rect)
    requires
        area.height > SMALL_AREA_HEIGHT + BAR_MARGIN,
    ensures
        band_request(true, true, area).header == BAR_HEIGHT,
        band_request(true, true, area).footer == BAR_HEIGHT,
        area.height - 2 * BAR_HEIGHT >= band_request(true, true, area).body_min,
{
}

} // verus!
