//! The launch menu: a fixed list of options and a selection moved by
//! up/down keys and confirmed by enter. Drawing it is the caller's job.

use vstd::prelude::*;
use crate::session::InputEvent;

verus! {

/// The menu state: which option is highlighted, and the option labels.
pub struct Menu {
    pub selected_index: usize,
    pub options: Vec<String>,
}

impl Menu {
    /// The selection always points at an option.
    pub open spec fn wf(&self) -> bool {
        self.selected_index < self.options@.len()
    }

    /// The launch menu: create a new text, edit an existing one, or exit,
    /// with the first option selected.
    pub fn new() -> (m: Menu)
        ensures
            m.wf(),
            m.selected_index == 0,
            m.options@.len() == 3,
            m.options@[0]@ == "Create a new text"@,
            m.options@[1]@ == "Edit an existing text"@,
            m.options@[2]@ == "Exit"@,
    {
        let mut options: Vec<String> = Vec::new();
        options.push("Create a new text".to_owned());
        options.push("Edit an existing text".to_owned());
        options.push("Exit".to_owned());
        Menu { selected_index: 0, options }
    }

    /// Moves the selection: up and down step it within bounds, and enter
    /// confirms it, returning the selected option's index. Other events
    /// leave the menu as it is.
    pub fn handle_input(&mut self, ev: InputEvent) -> (r: Option<usize>)
        requires
            old(self).wf(),
        ensures
            final(self).wf(),
            final(self).options == old(self).options,
            ev is Up ==> final(self).selected_index as int == if old(self).selected_index > 0 {
                old(self).selected_index - 1
            } else {
                0
            } && r is None,
            ev is Down ==> final(self).selected_index as int == if old(self).selected_index
                < old(self).options@.len() - 1 {
                old(self).selected_index + 1
            } else {
                old(self).selected_index as int
            } && r is None,
            ev is Enter ==> final(self).selected_index == old(self).selected_index && r == Some(
                old(self).selected_index,
            ),
            !(ev is Up) && !(ev is Down) && !(ev is Enter) ==> *final(self) == *old(self) && r
                is None,
    {
        match ev {
            InputEvent::Up => {
                if self.selected_index > 0 {
                    self.selected_index = self.selected_index - 1;
                }
                None
            },
            InputEvent::Down => {
                if self.selected_index < self.options.len() - 1 {
                    self.selected_index = self.selected_index + 1;
                }
                None
            },
            InputEvent::Enter => Some(self.selected_index),
            _ => None,
        }
    }
}

} // verus!
