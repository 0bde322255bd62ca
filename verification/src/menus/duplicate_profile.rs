//! The dialog that duplicates a profile.

use crate::menus::MenuRequest;
use crate::text::{trim_text, trimmed};
use vstd::prelude::*;

verus! {

/// What the dialog asks for in the end: the name of the duplicate.
#[derive(Debug, Clone, PartialEq, Eq, PartialOrd, Ord)]
pub struct DuplicateData {
    pub name: String,
}

/// What can be reported to the dialog.
#[derive(Debug, Clone)]
pub enum DuplicateSubmenuMessage {
    EditName(String),
    Done,
}

/// The state of the dialog: the name of the profile and the name proposed
/// for its duplicate.
#[derive(Debug, Clone, PartialEq, Eq, PartialOrd, Ord)]
pub struct DuplicateSubmenuData {
    pub original: String,
    pub name: String,
}

impl DuplicateSubmenuData {
    /// The dialog as it opens: it proposes the present name, marked as a
    /// copy.
    pub fn new(original: &str) -> (menu: Self)
        ensures
            menu.original@ == original@,
            menu.name@ == original@ + " (Copy)"@,
    {
        let mut name = String::from_str(original);
        name.append(" (Copy)");
        Self { original: String::from_str(original), name }
    }

    /// Takes a report. An edit changes the proposed name; finishing asks
    /// the launcher for a duplicate under the proposed name, without the
    /// white space around it, and then to close the dialog.
    pub fn update(&mut self, m: DuplicateSubmenuMessage) -> (requests: Vec<MenuRequest>)
        ensures
            final(self).original == old(self).original,
            match m {
                DuplicateSubmenuMessage::EditName(s) => final(self).name == s && requests@.len()
                    == 0,
                DuplicateSubmenuMessage::Done => final(self).name == old(self).name
                    && requests@.len() == 2 && requests@[0] is DuplicateCurrentProfile
                    && requests@[0]->DuplicateCurrentProfile_0.name@ == trimmed(old(self).name@)
                    && requests@[1] == MenuRequest::Exit,
            },
    {
        let mut requests: Vec<MenuRequest> = Vec::new();
        match m {
            DuplicateSubmenuMessage::EditName(s) => {
                self.name = s;
            },
            DuplicateSubmenuMessage::Done => {
                let name = String::from_str(trim_text(self.name.as_str()));
                requests.push(MenuRequest::DuplicateCurrentProfile(DuplicateData { name }));
                requests.push(MenuRequest::Exit);
            },
        }
        requests
    }

    /// Whether the dialog can be finished: the proposed name, without the
    /// white space around it, differs from the present one.
    pub fn can_finish(&self) -> (ready: bool)
        ensures
            ready == (trimmed(self.name@) != self.original@),
    {
        String::from_str(trim_text(self.name.as_str())) != self.original
    }
}

} // verus!
