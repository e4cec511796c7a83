//! The three-region vertical layout.
//!
//! Every frame the viewport is split afresh: a 1-cell margin is taken
//! off all four sides, and the remaining height is divided into a title
//! region (20 %), a list region (60 %) and a help region (20 %).  The
//! percentages are rounded half up; the help region absorbs the rounding
//! remainder so the three regions tile the usable area exactly.

use vstd::prelude::*;

verus! {

/// A rectangular region of the terminal viewport, in cells.
#[derive(Clone, Copy, PartialEq, Eq, Structural, Debug)]
pub struct Rect {
    pub x: u16,
    pub y: u16,
    pub width: u16,
    pub height: u16,
}

impl Rect {
    /// The region lies inside the `u16` cell grid.
    pub open spec fn wf(self) -> bool {
        self.x + self.width <= u16::MAX && self.y + self.height <= u16::MAX
    }
}

/// The three regions of one frame, top to bottom.
#[derive(Clone, Copy, PartialEq, Eq, Structural, Debug)]
pub struct Regions {
    pub title: Rect,
    pub list: Rect,
    pub help: Rect,
}

/// `pct` percent of `len`, rounded half up.
pub open spec fn round_pct(len: int, pct: int) -> int {
    (len * pct + 50) / 100
}

/// The left edge after the 1-cell margin.
pub open spec fn inner_x(area: Rect) -> int {
    if area.width >= 2 {
        area.x + 1
    } else {
        area.x as int
    }
}

/// The top edge after the 1-cell margin.
pub open spec fn inner_y(area: Rect) -> int {
    if area.height >= 2 {
        area.y + 1
    } else {
        area.y as int
    }
}

/// The width left after the 1-cell margin on both sides.
pub open spec fn usable_width(area: Rect) -> int {
    if area.width >= 2 {
        area.width - 2
    } else {
        0
    }
}

/// The height left after the 1-cell margin on both sides.
pub open spec fn usable_height(area: Rect) -> int {
    if area.height >= 2 {
        area.height - 2
    } else {
        0
    }
}

/// What the split of `area` into the three frame regions must look
/// like: all regions share the inner left edge and the usable width;
/// the title gets 20 % and the list 60 % of the usable height, rounded
/// half up; the help region takes exactly the rest, so the three
/// heights sum to the usable height and the regions stack without gap
/// or overlap.
pub open spec fn regions_spec(area: Rect, r: Regions) -> bool {
    let h = usable_height(area);
    &&& r.title.x == inner_x(area)
    &&& r.list.x == inner_x(area)
    &&& r.help.x == inner_x(area)
    &&& r.title.width == usable_width(area)
    &&& r.list.width == usable_width(area)
    &&& r.help.width == usable_width(area)
    &&& r.title.height == round_pct(h, 20)
    &&& r.list.height == round_pct(h, 60)
    &&& r.help.height == h - r.title.height - r.list.height
    &&& r.title.height + r.list.height + r.help.height == h
    &&& r.title.y == inner_y(area)
    &&& r.list.y == r.title.y + r.title.height
    &&& r.help.y == r.list.y + r.list.height
}

/// The rounded percentages never take more than the whole: 20 % and
/// 60 % of `h`, each rounded half up, fit in `h` together.
proof fn lemma_split_fits(h: int)
    requires
        h >= 0,
    ensures
        0 <= round_pct(h, 20),
        0 <= round_pct(h, 60),
        round_pct(h, 20) + round_pct(h, 60) <= h,
{
    let q1 = (h * 20 + 50) / 100;
    let q2 = (h * 60 + 50) / 100;
    assert(100 * q1 + (h * 20 + 50) % 100 == h * 20 + 50);
    assert(100 * q2 + (h * 60 + 50) % 100 == h * 60 + 50);
    if h >= 5 {
        assert(100 * (q1 + q2) <= 80 * h + 100);
        assert(80 * h + 100 <= 100 * h);
        assert(q1 + q2 <= h);
    } else {
        assert(q1 + q2 <= h);
    }
}

/// Splits the viewport into the title, list and help regions of one
/// frame, as [`regions_spec`] dictates.
pub fn split_regions(area: Rect) -> (r: Regions)
    requires
        area.wf(),
    ensures
        regions_spec(area, r),
        r.title.wf(),
        r.list.wf(),
        r.help.wf(),
{
    let x = if area.width >= 2 {
        area.x + 1
    } else {
        area.x
    };
    let y = if area.height >= 2 {
        area.y + 1
    } else {
        area.y
    };
    let w = if area.width >= 2 {
        area.width - 2
    } else {
        0
    };
    let h = if area.height >= 2 {
        area.height - 2
    } else {
        0
    };
    proof {
        lemma_split_fits(h as int);
    }
    let h1 = (((h as u32) * 20 + 50) / 100) as u16;
    let h2 = (((h as u32) * 60 + 50) / 100) as u16;
    let h3 = h - h1 - h2;
    Regions {
        title: Rect { x, y, width: w, height: h1 },
        list: Rect { x, y: y + h1, width: w, height: h2 },
        help: Rect { x, y: y + h1 + h2, width: w, height: h3 },
    }
}

} // verus!
