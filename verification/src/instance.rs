//! An instance of the game: a folder and what is stored about it.

use crate::json::InstanceDataJson;
use crate::paths::{parent_of, path_parent};
use crate::text::{underscore, underscored};
use std::path::PathBuf;
use vstd::prelude::*;

verus! {

/// A change to what is stored about an instance.
#[derive(Debug)]
pub enum ModifyInstance {
    Name(String),
    Executable(Option<String>),
    Collection(Option<String>),
}

/// Why an instance could not be made.
#[derive(Debug, Clone, Copy, PartialEq, Eq, Structural)]
pub enum InstanceError {
    /// The path of the stored data has no folder above it.
    NoFolder,
}

impl InstanceError {
    /// The failure in words.
    pub fn message(&self) -> (text: String)
        ensures
            text@ == "Instance not in a valid folder??"@,
    {
        String::from_str("Instance not in a valid folder??")
    }
}

/// An instance: the folder it lives in and what is stored about it.
#[derive(Clone)]
pub struct Instance {
    folder_path: PathBuf,
    json: InstanceDataJson,
}

/// The stored data after a change: the changed field is replaced, the
/// others stay.
pub open spec fn modified(json: InstanceDataJson, modification: ModifyInstance) -> InstanceDataJson {
    match modification {
        ModifyInstance::Name(name) => InstanceDataJson { name, ..json },
        ModifyInstance::Executable(executable) => InstanceDataJson { executable, ..json },
        ModifyInstance::Collection(collection_id) => InstanceDataJson { collection_id, ..json },
    }
}

impl Instance {
    /// The folder of the instance.
    pub closed spec fn folder(&self) -> PathBuf {
        self.folder_path
    }

    /// What is stored about the instance.
    pub closed spec fn data(&self) -> InstanceDataJson {
        self.json
    }

    /// The instance whose data is stored at `path`: it lives in the folder
    /// that holds the file. A path without a folder above it gives no
    /// instance.
    pub fn from_json(json: InstanceDataJson, path: &PathBuf) -> (made: Result<Self, InstanceError>)
        ensures
            made is Ok <==> parent_of(*path) is Some,
            made is Ok ==> made->Ok_0.data() == json && made->Ok_0.folder() == parent_of(*path)->0,
            made is Err ==> made->Err_0 == InstanceError::NoFolder,
    {
        match path_parent(path) {
            Some(folder_path) => Ok(Instance { folder_path, json }),
            None => Err(InstanceError::NoFolder),
        }
    }

    /// Applies a change to what is stored about the instance.
    pub fn modify(&mut self, modification: ModifyInstance)
        ensures
            final(self).data() == modified(old(self).data(), modification),
            final(self).folder() == old(self).folder(),
    {
        match modification {
            ModifyInstance::Name(name) => {
                self.json.name = name;
            },
            ModifyInstance::Executable(exec) => {
                self.json.executable = exec;
            },
            ModifyInstance::Collection(maybe_collection_id) => {
                self.json.collection_id = maybe_collection_id;
            },
        }
    }

    /// The name of the executable chosen for the instance, if one is.
    pub fn executable(&self) -> (executable: &Option<String>)
        ensures
            *executable == self.data().executable,
    {
        &self.json.executable
    }

    /// The name of the instance.
    pub fn name(&self) -> (name: &str)
        ensures
            name@ == self.data().name@,
    {
        self.json.name.as_str()
    }

    /// The further asset directories of the instance, if it has any.
    pub fn additional_assets(&self) -> (assets: Option<&Vec<String>>)
        ensures
            assets is Some <==> self.data().additional_assets is Some,
            assets is Some ==> *assets->0 == self.data().additional_assets->0,
    {
        self.json.additional_assets.as_ref()
    }

    /// The collection that the instance follows, if it follows one.
    pub fn collection_id(&self) -> (collection: Option<String>)
        ensures
            collection == self.data().collection_id,
    {
        match &self.json.collection_id {
            Some(id) => Some(id.clone()),
            None => None,
        }
    }

    /// The folder of the instance.
    pub fn folder_path(&self) -> (folder: &PathBuf)
        ensures
            *folder == self.folder(),
    {
        &self.folder_path
    }

    /// What is stored about the instance.
    pub fn to_json(&self) -> (json: &InstanceDataJson)
        ensures
            *json == self.data(),
    {
        &self.json
    }
}

/// The folder name that stands for an instance's name: the name with an
/// underscore in place of every space.
pub fn instance_folder_name(name: &str) -> (folder: String)
    ensures
        folder@ == underscored(name@, false),
{
    underscore(name, false)
}

} // verus!
