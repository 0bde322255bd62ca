//! The dialog for a new profile.

use crate::menus::{entered_profile, profile_from_entries, MenuRequest};
use vstd::prelude::*;

verus! {

/// What can be reported to the dialog.
#[derive(Debug, Clone, PartialEq, Eq, PartialOrd, Ord)]
pub enum NewProfileSubmenuMessage {
    Exit,
    TextFieldEditName(String),
    TextFieldEditCollectionID(String),
    ToggleLinkMods(bool),
    CreateProfile,
}

/// What has been entered into the dialog.
#[derive(Debug, Clone, PartialEq, Eq, PartialOrd, Ord)]
pub struct NewProfileSubmenuData {
    pub name: String,
    pub collection_id: String,
    pub link_mods: bool,
}

impl NewProfileSubmenuData {
    /// The dialog as it opens: nothing entered, nothing ticked.
    pub fn new() -> (menu: Self)
        ensures
            menu.name@.len() == 0,
            menu.collection_id@.len() == 0,
            !menu.link_mods,
    {
        Self { name: String::new(), collection_id: String::new(), link_mods: false }
    }

    /// Takes a report. An edit changes the field it names; the request to
    /// create asks the launcher for a profile made from what was entered;
    /// the request to leave asks it to close the dialog.
    pub fn update(&mut self, message: NewProfileSubmenuMessage) -> (requests: Vec<MenuRequest>)
        ensures
            match message {
                NewProfileSubmenuMessage::Exit => *final(self) == *old(self) && requests@
                    == seq![MenuRequest::Exit],
                NewProfileSubmenuMessage::TextFieldEditName(s) => *final(self) == (Self {
                    name: s,
                    ..*old(self)
                }) && requests@.len() == 0,
                NewProfileSubmenuMessage::TextFieldEditCollectionID(s) => *final(self) == (Self {
                    collection_id: s,
                    ..*old(self)
                }) && requests@.len() == 0,
                NewProfileSubmenuMessage::ToggleLinkMods(b) => *final(self) == (Self {
                    link_mods: b,
                    ..*old(self)
                }) && requests@.len() == 0,
                NewProfileSubmenuMessage::CreateProfile => *final(self) == *old(self) && requests@
                    == seq![
                    MenuRequest::CreateProfile(
                        entered_profile(old(self).name, old(self).collection_id),
                    ),
                ],
            },
    {
        let mut requests: Vec<MenuRequest> = Vec::new();
        match message {
            NewProfileSubmenuMessage::Exit => {
                requests.push(MenuRequest::Exit);
            },
            NewProfileSubmenuMessage::TextFieldEditName(s) => {
                self.name = s;
            },
            NewProfileSubmenuMessage::TextFieldEditCollectionID(s) => {
                self.collection_id = s;
            },
            NewProfileSubmenuMessage::ToggleLinkMods(b) => {
                self.link_mods = b;
            },
            NewProfileSubmenuMessage::CreateProfile => {
                requests.push(
                    MenuRequest::CreateProfile(profile_from_entries(&self.name, &self.collection_id)),
                );
            },
        }
        requests
    }

    /// Whether a profile can be created: a name has been entered.
    pub fn can_create(&self) -> (ready: bool)
        ensures
            ready == (self.name@.len() > 0),
    {
        self.name.as_str().unicode_len() > 0
    }
}

} // verus!
