//! The state of the launcher's dialogs and what can be reported to them.

use crate::menus::duplicate_profile::DuplicateData;
use crate::profile::ProfileJson;
use std::path::PathBuf;
use vstd::prelude::*;

pub mod configure_profile;
pub mod duplicate_profile;
pub mod new_profile;
pub mod rename_profile;
pub mod settings;

verus! {

/// What a dialog asks the launcher to do.
#[derive(Debug)]
pub enum MenuRequest {
    /// Close the dialog.
    Exit,
    /// Make a profile with this stored data.
    CreateProfile(ProfileJson),
    /// Replace the stored data of the current profile.
    ModifyCurrentProfile(ProfileJson),
    /// Delete the current profile.
    DeleteCurrentProfile,
    /// Give the current profile this name.
    RenameCurrentProfile(String),
    /// Duplicate the current profile.
    DuplicateCurrentProfile(DuplicateData),
}

/// The stored data of a profile made from what was entered: the name, the
/// collection unless none was entered, and nothing else.
pub open spec fn entered_profile(name: String, collection_id: String) -> ProfileJson {
    ProfileJson {
        name,
        additional_assets: None,
        collection_id: if collection_id@.len() == 0 {
            None
        } else {
            Some(collection_id)
        },
        link_mods: false,
        selected_executable: None,
    }
}

/// The stored data of a profile made from what was entered.
pub fn profile_from_entries(name: &String, collection_id: &String) -> (json: ProfileJson)
    ensures
        json == entered_profile(*name, *collection_id),
{
    ProfileJson {
        name: name.clone(),
        additional_assets: None,
        collection_id: if collection_id.as_str().unicode_len() == 0 {
            None
        } else {
            Some(collection_id.clone())
        },
        link_mods: false,
        selected_executable: None,
    }
}

/// What can be reported to the dialog for a new profile.
#[derive(Debug, Clone, PartialEq, Eq, PartialOrd, Ord)]
pub enum NewProfileSubmenuMessage {
    TextFieldEditName(String),
    TextFieldEditCollectionID(String),
    ToggleLinkMods(bool),
    CreateProfile,
}

/// The dialog for a new profile.
#[derive(Debug, Clone, PartialEq, Eq, PartialOrd, Ord)]
pub struct NewProfileSubmenu {
    pub name: String,
    pub collection_id: String,
    pub link_mods: bool,
}

impl NewProfileSubmenu {
    /// The dialog as it opens: nothing entered, nothing ticked.
    pub fn new() -> (menu: Self)
        ensures
            menu.name@.len() == 0,
            menu.collection_id@.len() == 0,
            !menu.link_mods,
    {
        Self { name: String::new(), collection_id: String::new(), link_mods: false }
    }

    /// Takes a report. An edit changes the field it names; the request to
    /// create asks the launcher for a profile made from what was entered.
    pub fn update(&mut self, message: NewProfileSubmenuMessage) -> (requests: Vec<MenuRequest>)
        ensures
            match message {
                NewProfileSubmenuMessage::TextFieldEditName(s) => *final(self) == (Self {
                    name: s,
                    ..*old(self)
                }) && requests@.len() == 0,
                NewProfileSubmenuMessage::TextFieldEditCollectionID(s) => *final(self) == (Self {
                    collection_id: s,
                    ..*old(self)
                }) && requests@.len() == 0,
                NewProfileSubmenuMessage::ToggleLinkMods(b) => *final(self) == (Self {
                    link_mods: b,
                    ..*old(self)
                }) && requests@.len() == 0,
                NewProfileSubmenuMessage::CreateProfile => *final(self) == *old(self) && requests@
                    == seq![
                    MenuRequest::CreateProfile(
                        entered_profile(old(self).name, old(self).collection_id),
                    ),
                ],
            },
    {
        let mut requests: Vec<MenuRequest> = Vec::new();
        match message {
            NewProfileSubmenuMessage::TextFieldEditName(s) => {
                self.name = s;
            },
            NewProfileSubmenuMessage::TextFieldEditCollectionID(s) => {
                self.collection_id = s;
            },
            NewProfileSubmenuMessage::ToggleLinkMods(b) => {
                self.link_mods = b;
            },
            NewProfileSubmenuMessage::CreateProfile => {
                requests.push(
                    MenuRequest::CreateProfile(profile_from_entries(&self.name, &self.collection_id)),
                );
            },
        }
        requests
    }

    /// Whether a profile can be created: a name has been entered.
    pub fn can_create(&self) -> (ready: bool)
        ensures
            ready == (self.name@.len() > 0),
    {
        self.name.as_str().unicode_len() > 0
    }
}

/// What can be reported to the dialog for the settings.
#[derive(Debug, Clone)]
pub enum SettingsSubmenuMessage {
    ClickExecutableListItem(String),
    ClickAddExecutableButton,
    ClickRemoveExecutableButton,
    NewExecutableNameInput(String),
    ClickNewExecutableButton,
    NewExecutableSelected(Option<PathBuf>),
    ClickNewExecutableAssetsButton,
    NewExecutableAssetsSelected(Option<PathBuf>),
}

/// The dialog for the settings.
#[derive(Debug, Clone, PartialEq, Eq, PartialOrd, Ord)]
pub struct SettingsSubmenuData {
    pub selected_executable: Option<String>,
    new_executable_name: String,
    new_executable_path: Option<PathBuf>,
    new_executable_assets: Option<PathBuf>,
}

impl SettingsSubmenuData {
    /// The executable selected in the list.
    pub closed spec fn selected(&self) -> Option<String> {
        self.selected_executable
    }

    /// The name entered for a new executable.
    pub closed spec fn entered_name(&self) -> Seq<char> {
        self.new_executable_name@
    }

    /// The binary picked for a new executable.
    pub closed spec fn picked_path(&self) -> Option<PathBuf> {
        self.new_executable_path
    }

    /// The assets picked for a new executable.
    pub closed spec fn picked_assets(&self) -> Option<PathBuf> {
        self.new_executable_assets
    }

    /// The dialog as it opens: nothing selected, entered or picked.
    pub fn new() -> (menu: Self)
        ensures
            menu.selected() is None,
            menu.entered_name().len() == 0,
            menu.picked_path() is None,
            menu.picked_assets() is None,
    {
        Self {
            selected_executable: None,
            new_executable_name: String::new(),
            new_executable_path: None,
            new_executable_assets: None,
        }
    }
}

/// What can be reported to the dialog that configures a profile.
#[derive(Debug, Clone)]
pub enum ConfigureProfileSubmenuMessage {
    ToggleLinkModsCheckbox(bool),
    SaveAndExit,
}

/// The dialog that configures a profile. It works on a copy of the stored
/// data.
#[derive(Debug, Clone, PartialEq, Eq, PartialOrd, Ord)]
pub struct ConfigureProfileSubmenuData {
    profile_copy: ProfileJson,
}

impl ConfigureProfileSubmenuData {
    /// The copy that the dialog works on.
    pub closed spec fn profile(&self) -> ProfileJson {
        self.profile_copy
    }

    /// The dialog as it opens for a profile.
    pub fn new(original: &ProfileJson) -> (menu: Self)
        ensures
            menu.profile().same_as(*original),
    {
        Self { profile_copy: original.copy() }
    }

    /// Takes a report. Ticking the box changes the copy; saving asks the
    /// launcher to store a copy of it.
    pub fn update(&mut self, m: ConfigureProfileSubmenuMessage) -> (requests: Vec<MenuRequest>)
        ensures
            match m {
                ConfigureProfileSubmenuMessage::ToggleLinkModsCheckbox(b) => final(self).profile()
                    == (ProfileJson { link_mods: b, ..old(self).profile() }) && requests@.len()
                    == 0,
                ConfigureProfileSubmenuMessage::SaveAndExit => final(self).profile() == old(
                    self,
                ).profile() && requests@.len() == 1 && requests@[0] is ModifyCurrentProfile
                    && requests@[0]->ModifyCurrentProfile_0.same_as(old(self).profile()),
            },
    {
        let mut requests: Vec<MenuRequest> = Vec::new();
        match m {
            ConfigureProfileSubmenuMessage::ToggleLinkModsCheckbox(b) => {
                self.profile_copy.link_mods = b;
            },
            ConfigureProfileSubmenuMessage::SaveAndExit => {
                requests.push(MenuRequest::ModifyCurrentProfile(self.profile_copy.copy()));
            },
        }
        requests
    }
}

} // verus!
