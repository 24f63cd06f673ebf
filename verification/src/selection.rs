use vstd::prelude::*;

verus! {

/// The scroll position and the selected row of a list or a table widget.
///
/// It holds, as plain values, what the widget state of the terminal toolkit
/// keeps between frames: the index of the first displayed row and the index of
/// the selected row, if any.
#[derive(Debug, Clone, Copy, PartialEq, Eq, Structural)]
pub struct Selection {
    pub selected: Option<usize>,
    pub offset: usize,
}

impl Selection {
    /// The selection after moving one row down: the first row when nothing is
    /// selected, else the next index, saturating at `usize::MAX`.
    pub open spec fn moved_next(self) -> Selection {
        Selection {
            selected: Some(
                match self.selected {
                    None => 0usize,
                    Some(i) => if i == usize::MAX { i } else { (i + 1) as usize },
                },
            ),
            offset: self.offset,
        }
    }

    /// The selection after moving one row up: `usize::MAX` (the last row, once
    /// rendered) when nothing is selected, else the previous index, saturating
    /// at `0`.
    pub open spec fn moved_previous(self) -> Selection {
        Selection {
            selected: Some(
                match self.selected {
                    None => usize::MAX,
                    Some(i) => if i == 0 { 0usize } else { (i - 1) as usize },
                },
            ),
            offset: self.offset,
        }
    }

    /// A fresh widget state with the given selection, scrolled to the top.
    pub open spec fn fresh(selected: Option<usize>) -> Selection {
        Selection { selected, offset: 0 }
    }
}

/// `ratatui::widgets::ListState::select_next` (defined in `ratatui-widgets`),
/// applied to a list state that
/// holds `sel`: the source sets the selection to `selected.map_or(0, |i|
/// i.saturating_add(1))` and leaves the offset alone (it resets the offset only
/// when the selection becomes `None`).
#[verifier::external_body]
pub(crate) fn list_select_next(sel: Selection) -> (r: Selection)
    ensures
        r == sel.moved_next(),
{
    let mut st = ratatui::widgets::ListState::default().with_offset(sel.offset).with_selected(
        sel.selected,
    );
    st.select_next();
    Selection { selected: st.selected(), offset: st.offset() }
}

/// `ratatui::widgets::ListState::select_previous`, applied to a list state
/// that holds `sel`: the source sets the selection to
/// `selected.map_or(usize::MAX, |i| i.saturating_sub(1))` and leaves the
/// offset alone.
#[verifier::external_body]
pub(crate) fn list_select_previous(sel: Selection) -> (r: Selection)
    ensures
        r == sel.moved_previous(),
{
    let mut st = ratatui::widgets::ListState::default().with_offset(sel.offset).with_selected(
        sel.selected,
    );
    st.select_previous();
    Selection { selected: st.selected(), offset: st.offset() }
}

/// `ratatui::widgets::TableState::select_next`, applied to a table state that
/// holds `sel`: same rule as for the list (next index, saturating; offset kept).
#[verifier::external_body]
pub(crate) fn table_select_next(sel: Selection) -> (r: Selection)
    ensures
        r == sel.moved_next(),
{
    let mut st = ratatui::widgets::TableState::default().with_offset(sel.offset).with_selected(
        sel.selected,
    );
    st.select_next();
    Selection { selected: st.selected(), offset: st.offset() }
}

/// `ratatui::widgets::TableState::select_previous`, applied to a table state
/// that holds `sel`: same rule as for the list (previous index, saturating at
/// `0`, `usize::MAX` from no selection; offset kept).
#[verifier::external_body]
pub(crate) fn table_select_previous(sel: Selection) -> (r: Selection)
    ensures
        r == sel.moved_previous(),
{
    let mut st = ratatui::widgets::TableState::default().with_offset(sel.offset).with_selected(
        sel.selected,
    );
    st.select_previous();
    Selection { selected: st.selected(), offset: st.offset() }
}

/// `ratatui::widgets::ListState::default().with_selected(selected)`: the
/// default state has offset `0` and no selection, and `with_selected` only
/// sets the selection.
#[verifier::external_body]
pub(crate) fn list_with_selected(selected: Option<usize>) -> (r: Selection)
    ensures
        r == Selection::fresh(selected),
{
    let st = ratatui::widgets::ListState::default().with_selected(selected);
    Selection { selected: st.selected(), offset: st.offset() }
}

/// `ratatui::widgets::TableState::default().with_selected(selected)`: the
/// default state has offset `0` and no selection, and `with_selected` only
/// sets the selection.
#[verifier::external_body]
pub(crate) fn table_with_selected(selected: Option<usize>) -> (r: Selection)
    ensures
        r == Selection::fresh(selected),
{
    let st = ratatui::widgets::TableState::default().with_selected(selected);
    Selection { selected: st.selected(), offset: st.offset() }
}

} // verus!
