//! The directories that the launcher works in.

use std::path::PathBuf;
use vstd::prelude::*;

verus! {

/// The directories that the launcher works in.
#[derive(Debug, Clone)]
pub struct SBIDirectories {
    data_directory: PathBuf,
    profiles_directory: PathBuf,
    vanilla_assets: PathBuf,
    vanilla_storage: Option<PathBuf>,
    vanilla_mods: Option<PathBuf>,
}

/// Where the game's own assets are: where the command line says, else
/// where the environment says, else where the installed game has them.
pub open spec fn first_source(
    command_line: Option<PathBuf>,
    environment: Option<PathBuf>,
    installed: Option<PathBuf>,
) -> Option<PathBuf> {
    if command_line is Some {
        command_line
    } else if environment is Some {
        environment
    } else {
        installed
    }
}

impl SBIDirectories {
    /// The five directories, in the order of the fields.
    pub closed spec fn parts(&self) -> (PathBuf, PathBuf, PathBuf, Option<PathBuf>, Option<PathBuf>) {
        (
            self.data_directory,
            self.profiles_directory,
            self.vanilla_assets,
            self.vanilla_storage,
            self.vanilla_mods,
        )
    }

    /// The directories as given.
    pub fn new(
        data_directory: PathBuf,
        profiles_directory: PathBuf,
        vanilla_assets: PathBuf,
        vanilla_storage: Option<PathBuf>,
        vanilla_mods: Option<PathBuf>,
    ) -> (dirs: Self)
        ensures
            dirs.parts() == (
                data_directory,
                profiles_directory,
                vanilla_assets,
                vanilla_storage,
                vanilla_mods,
            ),
    {
        Self { data_directory, profiles_directory, vanilla_assets, vanilla_storage, vanilla_mods }
    }

    /// Settles where the game's own assets are. The command line counts
    /// before the environment, and both before the installed game; with
    /// none of them there is no telling.
    pub fn choose_vanilla_assets(
        command_line: Option<PathBuf>,
        environment: Option<PathBuf>,
        installed: Option<PathBuf>,
    ) -> (chosen: Option<PathBuf>)
        ensures
            chosen == first_source(command_line, environment, installed),
    {
        match command_line {
            Some(path) => Some(path),
            None => match environment {
                Some(path) => Some(path),
                None => installed,
            },
        }
    }

    /// Where the launcher keeps its data.
    pub fn data(&self) -> (path: &PathBuf)
        ensures
            *path == self.parts().0,
    {
        &self.data_directory
    }

    /// Where the profiles are.
    pub fn profiles(&self) -> (path: &PathBuf)
        ensures
            *path == self.parts().1,
    {
        &self.profiles_directory
    }

    /// Where the game's own assets are.
    pub fn vanilla_assets(&self) -> (path: &PathBuf)
        ensures
            *path == self.parts().2,
    {
        &self.vanilla_assets
    }

    /// Where the game keeps its own saves, if the game was found.
    pub fn vanilla_storage(&self) -> (path: Option<&PathBuf>)
        ensures
            path is Some <==> self.parts().3 is Some,
            path is Some ==> *path->0 == self.parts().3->0,
    {
        self.vanilla_storage.as_ref()
    }

    /// Where the game keeps its own mods, if the game was found.
    pub fn vanilla_mods(&self) -> (path: Option<&PathBuf>)
        ensures
            path is Some <==> self.parts().4 is Some,
            path is Some ==> *path->0 == self.parts().4->0,
    {
        self.vanilla_mods.as_ref()
    }
}

} // verus!
