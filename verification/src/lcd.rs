//! Geometry of the display's loading bar.
//!
//! The display driver itself (an SPI-attached panel) is an external
//! collaborator: the drawing calls live with the hardware layer. What is
//! verified here is the one decision the bar makes each update: whether
//! anything is drawn at all, whether the border and caption are (re)drawn,
//! and how wide the filled part is for a given completion percentage.
use vstd::prelude::*;

verus! {

/// Width of the bar's filled part at 100 percent, in pixels.
pub const LOADING_BAR_FULL_WIDTH: u32 = 231;

/// How the loading bar reacts to one progress update.
pub struct LoadingBarUpdate {
    /// The border and caption are drawn only on the first update.
    pub draw_frame: bool,
    /// Width of the filled part, in pixels; nothing is filled for a
    /// percentage beyond 100.
    pub fill_width: Option<u32>,
}

/// What one progress update at `percentage` draws: the frame exactly at
/// zero, and a fill proportional to the percentage as long as it is
/// meaningful.
pub fn loading_bar_update(percentage: u32) -> (r: LoadingBarUpdate)
    ensures
        r.draw_frame == (percentage == 0),
        percentage <= 100 ==> r.fill_width == Some(
            ((LOADING_BAR_FULL_WIDTH * percentage) / 100) as u32,
        ),
        percentage > 100 ==> r.fill_width is None,
{
    let fill_width: Option<u32> = if percentage <= 100 {
        Some((LOADING_BAR_FULL_WIDTH * percentage) / 100)
    } else {
        Option::None
    };
    LoadingBarUpdate { draw_frame: percentage == 0, fill_width }
}

} // verus!
