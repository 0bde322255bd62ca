//! The dialog that configures a profile.

use crate::menus::MenuRequest;
use crate::profile::ProfileJson;
use vstd::prelude::*;

verus! {

/// What can be reported to the dialog.
#[derive(Debug, Clone)]
pub enum ConfigureProfileSubmenuMessage {
    Exit,
    ToggleLinkModsCheckbox(bool),
    Delete,
}

/// The state of the dialog: a copy of the stored data of the profile.
#[derive(Debug, Clone, PartialEq, Eq, PartialOrd, Ord)]
pub struct ConfigureProfileSubmenuData {
    profile_copy: ProfileJson,
}

impl ConfigureProfileSubmenuData {
    /// The copy that the dialog works on.
    pub closed spec fn profile(&self) -> ProfileJson {
        self.profile_copy
    }

    /// The dialog as it opens for a profile.
    pub fn new(original: &ProfileJson) -> (menu: Self)
        ensures
            menu.profile().same_as(*original),
    {
        Self { profile_copy: original.copy() }
    }

    /// Takes a report. Ticking the box changes the copy and asks the
    /// launcher to store a copy of it; deleting asks it to delete the
    /// profile and then to close the dialog.
    pub fn update(&mut self, m: ConfigureProfileSubmenuMessage) -> (requests: Vec<MenuRequest>)
        ensures
            match m {
                ConfigureProfileSubmenuMessage::Exit => final(self).profile() == old(
                    self,
                ).profile() && requests@ == seq![MenuRequest::Exit],
                ConfigureProfileSubmenuMessage::ToggleLinkModsCheckbox(b) => final(self).profile()
                    == (ProfileJson { link_mods: b, ..old(self).profile() }) && requests@.len()
                    == 1 && requests@[0] is ModifyCurrentProfile
                    && requests@[0]->ModifyCurrentProfile_0.same_as(final(self).profile()),
                ConfigureProfileSubmenuMessage::Delete => final(self).profile() == old(
                    self,
                ).profile() && requests@ == seq![
                    MenuRequest::DeleteCurrentProfile,
                    MenuRequest::Exit,
                ],
            },
    {
        let mut requests: Vec<MenuRequest> = Vec::new();
        match m {
            ConfigureProfileSubmenuMessage::Exit => {
                requests.push(MenuRequest::Exit);
            },
            ConfigureProfileSubmenuMessage::ToggleLinkModsCheckbox(b) => {
                self.profile_copy.link_mods = b;
                requests.push(MenuRequest::ModifyCurrentProfile(self.profile_copy.copy()));
            },
            ConfigureProfileSubmenuMessage::Delete => {
                requests.push(MenuRequest::DeleteCurrentProfile);
                requests.push(MenuRequest::Exit);
            },
        }
        requests
    }
}

} // verus!
