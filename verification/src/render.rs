//! The render planner: a pure function from (viewport, view model) to
//! the draw instructions of one frame.
//!
//! Nothing here touches the terminal.  The plan carries the three
//! layout regions, the title and help texts, and one line per item; the
//! selected line is flagged for highlighting and prefixed with the
//! `>> ` marker that no other line carries.  The driver only has to
//! hand the plan to its widgets.

use vstd::prelude::*;
use vstd::string::StringExecFns;
use crate::layout::{regions_spec, split_regions, Rect, Regions};
use crate::model::{ModelView, ViewModel};

verus! {

/// The marker glyph put in front of the selected line.
pub open spec fn marker() -> Seq<char> {
    seq!['>', '>', ' ']
}

/// One line of the item list, ready to draw.
pub struct ListLine {
    /// The text to draw, marker included on the selected line.
    pub text: String,
    /// Whether this line is the selected one and gets the highlight style.
    pub highlighted: bool,
}

/// What `line` must look like when it stands for item `j` of model `m`.
pub open spec fn line_ok(m: ModelView, j: int, line: ListLine) -> bool {
    &&& (line.highlighted <==> j == m.selected)
    &&& line.text@ == if j == m.selected {
        marker() + m.items[j]
    } else {
        m.items[j]
    }
}

/// The draw instructions of one frame.
pub struct FramePlan {
    /// Where the title, list and help widgets go.
    pub regions: Regions,
    /// The text of the title bar.
    pub title: String,
    /// One line per item, in display order.
    pub lines: Vec<ListLine>,
    /// The static help line listing the key bindings.
    pub help: String,
}

/// Plans one frame: splits the viewport as the layout dictates and
/// turns every item into a draw line, flagging and marking exactly the
/// selected one.
pub fn build_frame(area: Rect, model: &ViewModel) -> (p: FramePlan)
    requires
        area.wf(),
    ensures
        regions_spec(area, p.regions),
        p.title@ == "Ratatui Example"@,
        p.help@ == "Up/Down: Navigate | Enter: Add Item | q: Quit"@,
        p.lines@.len() == model@.items.len(),
        forall|i: int| 0 <= i < p.lines@.len() ==> line_ok(model@, i, #[trigger] p.lines@[i]),
{
    let regions = split_regions(area);
    let n = model.len();
    let sel = model.selected_index();
    let mut lines: Vec<ListLine> = Vec::new();
    let mut i: usize = 0;
    while i < n
        invariant
            i <= n,
            n == model@.items.len(),
            sel == model@.selected,
            lines@.len() == i,
            forall|j: int| 0 <= j < i ==> line_ok(model@, j, #[trigger] lines@[j]),
        decreases n - i,
    {
        let item = model.item(i);
        if i == sel {
            let mut text = ">> ".to_owned();
            proof {
                reveal_strlit(">> ");
                assert(text@ =~= marker());
            }
            text.append(item.as_str());
            lines.push(ListLine { text, highlighted: true });
        } else {
            lines.push(ListLine { text: item.clone(), highlighted: false });
        }
        i = i + 1;
    }
    FramePlan {
        regions,
        title: "Ratatui Example".to_owned(),
        lines,
        help: "Up/Down: Navigate | Enter: Add Item | q: Quit".to_owned(),
    }
}

} // verus!
