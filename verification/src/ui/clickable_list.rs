//! A list whose rows carry click actions, built up in the fluent style.

use vstd::prelude::*;

use crate::ui::ui_action::UiAction;

verus! {

/// One list row: the text shown, its hover text, and what a click does.
#[derive(Debug, Clone)]
pub struct ClickableListItem {
    /// The row's label.
    pub label: String,
    /// The hover help for the row.
    pub description: String,
    /// The action a click on the row triggers.
    pub on_click: UiAction,
}

/// The list widget over borrowed rows.
pub struct ClickableList<'a> {
    items: &'a [ClickableListItem],
    selected: Option<usize>,
    hover_index: Option<usize>,
    scroll_offset: usize,
    layer: usize,
}

impl<'a> ClickableList<'a> {
    /// The rows the list shows.
    pub closed spec fn spec_items(&self) -> &'a [ClickableListItem] {
        self.items
    }

    /// The selected row, if any.
    pub closed spec fn spec_selected(&self) -> Option<usize> {
        self.selected
    }

    /// The hovered row, if any.
    pub closed spec fn spec_hover_index(&self) -> Option<usize> {
        self.hover_index
    }

    /// How many rows are scrolled out above.
    pub closed spec fn spec_scroll_offset(&self) -> usize {
        self.scroll_offset
    }

    /// The interaction layer the list registers on.
    pub closed spec fn spec_layer(&self) -> usize {
        self.layer
    }

    /// A list over the given rows: nothing selected, nothing hovered, not
    /// scrolled, on the base layer.
    pub fn new(items: &'a [ClickableListItem]) -> (r: Self)
        ensures
            r.spec_items() == items,
            r.spec_selected() is None,
            r.spec_hover_index() is None,
            r.spec_scroll_offset() == 0,
            r.spec_layer() == 0,
    {
        Self { items, selected: None, hover_index: None, scroll_offset: 0, layer: 0 }
    }

    /// The list with the selection replaced.
    pub fn selected(self, selected: Option<usize>) -> (r: Self)
        ensures
            r.spec_items() == self.spec_items(),
            r.spec_selected() == selected,
            r.spec_hover_index() == self.spec_hover_index(),
            r.spec_scroll_offset() == self.spec_scroll_offset(),
            r.spec_layer() == self.spec_layer(),
    {
        Self { selected, ..self }
    }

    /// The list with the scroll offset replaced.
    pub fn scroll_offset(self, offset: usize) -> (r: Self)
        ensures
            r.spec_items() == self.spec_items(),
            r.spec_selected() == self.spec_selected(),
            r.spec_hover_index() == self.spec_hover_index(),
            r.spec_scroll_offset() == offset,
            r.spec_layer() == self.spec_layer(),
    {
        Self { scroll_offset: offset, ..self }
    }

    /// The list with the interaction layer replaced.
    pub fn layer(self, layer: usize) -> (r: Self)
        ensures
            r.spec_items() == self.spec_items(),
            r.spec_selected() == self.spec_selected(),
            r.spec_hover_index() == self.spec_hover_index(),
            r.spec_scroll_offset() == self.spec_scroll_offset(),
            r.spec_layer() == layer,
    {
        Self { layer, ..self }
    }
}

} // verus!
