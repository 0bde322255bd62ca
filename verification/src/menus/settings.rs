//! The dialog for the settings.

use crate::executable::ExecutableVariant;
use std::path::PathBuf;
use vstd::prelude::*;

verus! {

/// What can be reported to the dialog.
#[derive(Debug, Clone)]
pub enum SettingsSubmenuMessage {
    Exit,
    SelectExecutable(String),
    GenerateExectuable,
    DeleteExecutable,
    EditExecutableName(String),
    PickExecutableBinary,
    PickedExecutableBinary(Option<PathBuf>),
    PickExecutableAssets,
    PickedExecutableAssets(Option<PathBuf>),
    SelectExecutableVariant(ExecutableVariant),
    ToggleCloseOnLaunch(bool),
}

/// The state of the dialog: the executable selected in the list and the
/// name entered for a new one.
#[derive(Debug, Clone, PartialEq, Eq, PartialOrd, Ord)]
pub struct SettingsSubmenuData {
    pub selected_executable: Option<String>,
    new_executable_name: String,
}

impl SettingsSubmenuData {
    /// The executable selected in the list.
    pub closed spec fn selected(&self) -> Option<String> {
        self.selected_executable
    }

    /// The name entered for a new executable.
    pub closed spec fn entered_name(&self) -> Seq<char> {
        self.new_executable_name@
    }

    /// The dialog as it opens: nothing selected, nothing entered.
    pub fn new() -> (menu: Self)
        ensures
            menu.selected() is None,
            menu.entered_name().len() == 0,
    {
        Self { selected_executable: None, new_executable_name: String::new() }
    }
}

} // verus!
