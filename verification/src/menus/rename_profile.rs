//! The dialog that renames a profile.

use crate::menus::MenuRequest;
use vstd::prelude::*;

verus! {

/// What can be reported to the dialog.
#[derive(Debug, Clone)]
pub enum RenameSubmenuMessage {
    EditName(String),
    Done,
}

/// The state of the dialog: the name as it stands.
#[derive(Debug, Clone, PartialEq, Eq, PartialOrd, Ord)]
pub struct RenameSubmenuData {
    pub name: String,
}

impl RenameSubmenuData {
    /// The dialog as it opens: it shows the present name.
    pub fn new(original: &str) -> (menu: Self)
        ensures
            menu.name@ == original@,
    {
        Self { name: String::from_str(original) }
    }

    /// Takes a report. An edit changes the name; finishing asks the
    /// launcher to rename the profile and then to close the dialog.
    pub fn update(&mut self, m: RenameSubmenuMessage) -> (requests: Vec<MenuRequest>)
        ensures
            match m {
                RenameSubmenuMessage::EditName(s) => final(self).name == s && requests@.len() == 0,
                RenameSubmenuMessage::Done => final(self).name == old(self).name && requests@
                    == seq![MenuRequest::RenameCurrentProfile(old(self).name), MenuRequest::Exit],
            },
    {
        let mut requests: Vec<MenuRequest> = Vec::new();
        match m {
            RenameSubmenuMessage::EditName(s) => {
                self.name = s;
            },
            RenameSubmenuMessage::Done => {
                requests.push(MenuRequest::RenameCurrentProfile(self.name.clone()));
                requests.push(MenuRequest::Exit);
            },
        }
        requests
    }
}

} // verus!
