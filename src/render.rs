//! The fixed settings with which a page is rendered to a paginated document.
use vstd::prelude::*;

verus! {

/// How a page is loaded and printed. Lengths are in tenths of an inch and the
/// scale in percent, so the settings stay exact.
pub struct RenderPlan {
    pub viewport_width: u32,
    pub viewport_height: u32,
    pub landscape: bool,
    pub display_header_footer: bool,
    pub print_background: bool,
    pub scale_percent: u32,
    pub paper_width_tenths: u32,
    pub paper_height_tenths: u32,
    pub margin_tenths: u32,
    pub page_ranges: String,
    pub ignore_invalid_page_ranges: bool,
    pub prefer_css_page_size: bool,
}

/// A tablet-like viewport, portrait 11 by 17 paper at half scale with thin
/// margins, no header, footer or background, and the first two pages only.
pub fn render_plan() -> (r: RenderPlan)
    ensures
        r.viewport_width == 820,
        r.viewport_height == 1180,
        !r.landscape,
        !r.display_header_footer,
        !r.print_background,
        r.scale_percent == 50,
        r.paper_width_tenths == 110,
        r.paper_height_tenths == 170,
        r.margin_tenths == 1,
        r.page_ranges@ == "1-2"@,
        r.ignore_invalid_page_ranges,
        !r.prefer_css_page_size,
{
    RenderPlan {
        viewport_width: 820,
        viewport_height: 1180,
        landscape: false,
        display_header_footer: false,
        print_background: false,
        scale_percent: 50,
        paper_width_tenths: 110,
        paper_height_tenths: 170,
        margin_tenths: 1,
        page_ranges: String::from_str("1-2"),
        ignore_invalid_page_ranges: true,
        prefer_css_page_size: false,
    }
}

} // verus!
