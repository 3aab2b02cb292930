//! Tabbed view over the buckets of a `p2pool.conf`: one tab per bucket, a cursor
//! over the fields of the tab shown.
use crate::components::p2pool_parser::ConfigSection;
use crate::navigation::{next_index, prev_index, step_next, step_previous, ListCursor};
use vstd::prelude::*;

verus! {

/// The tabs, the tab shown, and the field selected in it.
pub struct ConfigEditor {
    pub sections: Vec<ConfigSection>,
    pub selected_tab: usize,
    pub field_state: ListCursor,
}

/// The field selection right after tab `tab` is shown: its first field, if any.
pub open spec fn first_field(sections: Seq<ConfigSection>, tab: int) -> Option<usize> {
    if 0 <= tab < sections.len() && sections[tab].fields@.len() > 0 {
        Some(0)
    } else {
        None
    }
}

/// Number of fields in tab `tab`, or zero where there is no such tab.
pub open spec fn field_count(sections: Seq<ConfigSection>, tab: int) -> int {
    if 0 <= tab < sections.len() {
        sections[tab].fields@.len() as int
    } else {
        0
    }
}

impl ConfigEditor {
    /// An editor with no tabs.
    pub fn new() -> (r: ConfigEditor)
        ensures
            r.sections@.len() == 0,
            r.selected_tab == 0,
            r.field_state.selected is None,
    {
        ConfigEditor { sections: Vec::new(), selected_tab: 0, field_state: ListCursor::new() }
    }

    /// Shows `sections`, on the first tab, with its first field selected if it has one.
    pub fn load_data(&mut self, sections: Vec<ConfigSection>)
        ensures
            final(self).sections == sections,
            final(self).selected_tab == 0,
            final(self).field_state.selected == first_field(sections@, 0),
    {
        self.sections = sections;
        self.selected_tab = 0;
        self.field_state.select(None);
        if self.sections.len() > 0 && self.sections[0].fields.len() > 0 {
            self.field_state.select(Some(0));
        }
    }

    /// Shows the next tab, wrapping to the first, with its first field selected.
    pub fn next_tab(&mut self)
        ensures
            final(self).sections == old(self).sections,
            old(self).sections.len() == 0 ==> *final(self) == *old(self),
            old(self).sections.len() > 0 ==> {
                &&& final(self).selected_tab == next_index(
                    old(self).selected_tab as int,
                    old(self).sections.len() as int,
                )
                &&& final(self).field_state.selected == first_field(
                    old(self).sections@,
                    final(self).selected_tab as int,
                )
            },
    {
        if self.sections.len() == 0 {
            return;
        }
        self.selected_tab = step_next(self.selected_tab, self.sections.len());
        self.reset_field_selection();
    }

    /// Shows the previous tab, wrapping to the last, with its first field selected.
    pub fn previous_tab(&mut self)
        ensures
            final(self).sections == old(self).sections,
            old(self).sections.len() == 0 ==> *final(self) == *old(self),
            old(self).sections.len() > 0 ==> {
                &&& final(self).selected_tab == prev_index(
                    old(self).selected_tab as int,
                    old(self).sections.len() as int,
                )
                &&& final(self).field_state.selected == first_field(
                    old(self).sections@,
                    final(self).selected_tab as int,
                )
            },
    {
        if self.sections.len() == 0 {
            return;
        }
        self.selected_tab = step_previous(self.selected_tab, self.sections.len());
        self.reset_field_selection();
    }

    /// Selects the next field of the tab shown, wrapping to the first; selects the
    /// first where none is selected. Does nothing on a tab without fields.
    pub fn next_field(&mut self)
        ensures
            final(self).sections == old(self).sections,
            final(self).selected_tab == old(self).selected_tab,
            ({
                let n = field_count(old(self).sections@, old(self).selected_tab as int);
                &&& n == 0 ==> final(self).field_state == old(self).field_state
                &&& n > 0 ==> final(self).field_state.selected == Some(
                    match old(self).field_state.selected {
                        Some(i) => next_index(i as int, n) as usize,
                        None => 0usize,
                    },
                )
            }),
    {
        if self.selected_tab >= self.sections.len() {
            return;
        }
        let count = self.sections[self.selected_tab].fields.len();
        if count == 0 {
            return;
        }
        let i = match self.field_state.selected() {
            Some(i) => step_next(i, count),
            None => 0,
        };
        self.field_state.select(Some(i));
    }

    /// Selects the previous field of the tab shown, wrapping to the last; selects
    /// the first where none is selected. Does nothing on a tab without fields.
    pub fn previous_field(&mut self)
        ensures
            final(self).sections == old(self).sections,
            final(self).selected_tab == old(self).selected_tab,
            ({
                let n = field_count(old(self).sections@, old(self).selected_tab as int);
                &&& n == 0 ==> final(self).field_state == old(self).field_state
                &&& n > 0 ==> final(self).field_state.selected == Some(
                    match old(self).field_state.selected {
                        Some(i) => prev_index(i as int, n) as usize,
                        None => 0usize,
                    },
                )
            }),
    {
        if self.selected_tab >= self.sections.len() {
            return;
        }
        let count = self.sections[self.selected_tab].fields.len();
        if count == 0 {
            return;
        }
        let i = match self.field_state.selected() {
            Some(i) => step_previous(i, count),
            None => 0,
        };
        self.field_state.select(Some(i));
    }

    fn reset_field_selection(&mut self)
        ensures
            final(self).sections == old(self).sections,
            final(self).selected_tab == old(self).selected_tab,
            final(self).field_state.selected == first_field(
                old(self).sections@,
                old(self).selected_tab as int,
            ),
    {
        if self.selected_tab < self.sections.len() && self.sections[self.selected_tab].fields.len()
            > 0 {
            self.field_state.select(Some(0));
        } else {
            self.field_state.select(None);
        }
    }
}

impl Default for ConfigEditor {
    fn default() -> (r: ConfigEditor)
        ensures
            r.sections@.len() == 0,
            r.selected_tab == 0,
            r.field_state.selected is None,
    {
        ConfigEditor::new()
    }
}

} // verus!
