//! The scroll window: a fixed list of numbered rows and two buttons that
//! jump to its ends.

use vstd::prelude::*;
use vstd::string::*;
use crate::decimal::decimal_string;

verus! {

/// How many rows the scroll area holds.
pub const NUM_ROWS: u32 = 100;

/// The text of row `row` (counted from 0) of `num_rows`:
/// `This is row {row + 1}/{num_rows}`.
pub open spec fn row_text(row: nat, num_rows: nat) -> Seq<char> {
    "This is row "@ + crate::decimal::decimal(row + 1) + "/"@ + crate::decimal::decimal(num_rows)
}

/// What the scroll window does in one frame.
pub struct ScrollPlan {
    /// Keep the view glued to the bottom as rows are added.
    pub stick_to_bottom: bool,
    /// Move the view to the top before the rows are laid out.
    pub scroll_to_top: bool,
    /// Move the view to the bottom after the rows are laid out.
    pub scroll_to_bottom: bool,
    /// The labels, top to bottom.
    pub rows: Vec<String>,
}

/// The label of row `row` (counted from 0) out of `num_rows`.
pub fn row_label(row: u32, num_rows: u32) -> (s: String)
    requires
        row < u32::MAX,
    ensures
        s@ == row_text(row as nat, num_rows as nat),
{
    let mut s = String::from_str("This is row ");
    let number = decimal_string(row + 1);
    s.append(number.as_str());
    s.append("/");
    let total = decimal_string(num_rows);
    s.append(total.as_str());
    s
}

/// The scroll window for one frame, given which of its two buttons
/// ("Scroll to top", "Scroll to bottom") were clicked.
pub fn scroll_window(top_clicked: bool, bottom_clicked: bool) -> (plan: ScrollPlan)
    ensures
        plan.stick_to_bottom == !top_clicked,
        plan.scroll_to_top == top_clicked,
        plan.scroll_to_bottom == bottom_clicked,
        plan.rows@.len() == NUM_ROWS,
        forall|i: int|
            0 <= i < NUM_ROWS ==> (#[trigger] plan.rows@[i])@ == row_text(i as nat, NUM_ROWS as nat),
{
    let mut rows: Vec<String> = Vec::new();
    let mut row: u32 = 0;
    while row < NUM_ROWS
        invariant
            row <= NUM_ROWS,
            rows@.len() == row,
            forall|i: int| 0 <= i < row ==> (#[trigger] rows@[i])@ == row_text(i as nat, NUM_ROWS as nat),
        decreases NUM_ROWS - row,
    {
        let label = row_label(row, NUM_ROWS);
        rows.push(label);
        row = row + 1;
    }
    ScrollPlan {
        stick_to_bottom: !top_clicked,
        scroll_to_top: top_clicked,
        scroll_to_bottom: bottom_clicked,
        rows,
    }
}

} // verus!
