//! The stored form of instances and of the configuration of executables.

use std::path::PathBuf;
use vstd::prelude::*;

verus! {

/// What is stored about an instance.
#[derive(Debug, Clone)]
pub struct InstanceDataJson {
    pub name: String,
    pub executable: Option<String>,
    pub additional_assets: Option<Vec<String>>,
    pub collection_id: Option<String>,
}

/// What is stored about a profile in its first form: a name, further asset
/// directories, and the collection it follows.
#[derive(Debug, Clone)]
pub struct ProfileJson {
    pub name: String,
    pub additional_assets: Option<Vec<String>>,
    pub collection_id: Option<String>,
}

/// A configured executable of the game.
#[derive(Debug)]
pub struct SBIConfigExecutable {
    pub name: String,
    pub bin: PathBuf,
    pub ld_path: Option<String>,
    pub custom_assets: Option<String>,
}

/// The name of the executable that is used where none is chosen.
pub fn default_executable() -> (name: String)
    ensures
        name@ == "vanilla"@,
{
    String::from_str("vanilla")
}

} // verus!
