//! The output destination panel: where the merged blob goes, chosen from a
//! fixed row of destinations.

use crate::keys::InputKey;
use vstd::prelude::*;

verus! {

/// Where the merged output is delivered.
#[derive(Debug, Clone, Copy, PartialEq, Eq, Structural)]
pub enum OutputDestination {
    FileAndClipboard,
    File,
    Clipboard,
}

/// How the destination row's selection index reacts to one key.
pub open spec fn output_key_post(
    pre_selected: int,
    len: int,
    post_selected: int,
    key: InputKey,
) -> bool {
    post_selected == (match key {
        InputKey::Left => if pre_selected > 0 {
            pre_selected - 1
        } else {
            0int
        },
        InputKey::Right => if pre_selected + 1 < len {
            pre_selected + 1
        } else {
            pre_selected
        },
        _ => pre_selected,
    })
}

/// The panel that picks the output destination.
pub struct OutputPanel {
    pub items: Vec<OutputDestination>,
    pub selected: usize,
    pub destination: OutputDestination,
}

impl OutputPanel {
    /// The fixed row of destinations with a valid selection index.
    pub open spec fn wf(&self) -> bool {
        &&& self.items@ == seq![
            OutputDestination::FileAndClipboard,
            OutputDestination::File,
            OutputDestination::Clipboard,
        ]
        &&& self.selected < self.items@.len()
    }

    pub fn new() -> (r: OutputPanel)
        ensures
            r.wf(),
            r.selected == 0,
            r.destination == OutputDestination::FileAndClipboard,
    {
        let mut items: Vec<OutputDestination> = Vec::new();
        items.push(OutputDestination::FileAndClipboard);
        items.push(OutputDestination::File);
        items.push(OutputDestination::Clipboard);
        proof {
            assert(items@ =~= seq![
                OutputDestination::FileAndClipboard,
                OutputDestination::File,
                OutputDestination::Clipboard,
            ]);
        }
        OutputPanel { items, selected: 0, destination: OutputDestination::FileAndClipboard }
    }

    /// One key press: the arrows move the selection inside the row, and the
    /// destination always follows the selection.
    pub fn handle_key(&mut self, key: InputKey)
        requires
            old(self).wf(),
        ensures
            final(self).wf(),
            output_key_post(
                old(self).selected as int,
                old(self).items@.len() as int,
                final(self).selected as int,
                key,
            ),
            final(self).destination == final(self).items@[final(self).selected as int],
            final(self).items == old(self).items,
    {
        match key {
            InputKey::Left => {
                if self.selected > 0 {
                    self.selected = self.selected - 1;
                }
            },
            InputKey::Right => {
                if self.selected + 1 < self.items.len() {
                    self.selected = self.selected + 1;
                }
            },
            _ => {},
        }
        self.destination = self.items[self.selected];
    }
}

} // verus!
