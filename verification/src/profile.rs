//! A profile: a folder of its own for saves and mods, or the game's own
//! folder as it was installed.

use crate::paths::{clone_paths, parent_of, path_parent};
use crate::text::{decimal, decimal_string, underscore, underscored};
use std::path::PathBuf;
use vstd::prelude::*;

verus! {

/// What a profile is made of.
#[derive(Debug, Clone)]
pub enum ProfileData {
    /// The game's own folder. It has no stored data.
    Vanilla,
    /// A folder of the launcher, with its stored data.
    Json(ProfileJson),
}

/// What is stored about a profile.
#[derive(Clone, Debug, PartialEq, Eq, PartialOrd, Ord)]
pub struct ProfileJson {
    pub name: String,
    pub additional_assets: Option<Vec<PathBuf>>,
    pub collection_id: Option<String>,
    pub link_mods: bool,
    pub selected_executable: Option<String>,
}

impl ProfileJson {
    /// Two sets of stored data say the same.
    pub open spec fn same_as(&self, other: ProfileJson) -> bool {
        &&& self.name@ == other.name@
        &&& self.additional_assets is Some <==> other.additional_assets is Some
        &&& self.additional_assets is Some ==> self.additional_assets->0@
            == other.additional_assets->0@
        &&& self.collection_id.deep_view() == other.collection_id.deep_view()
        &&& self.link_mods == other.link_mods
        &&& self.selected_executable.deep_view() == other.selected_executable.deep_view()
    }

    /// A copy of the stored data.
    pub fn copy(&self) -> (copy: Self)
        ensures
            copy.same_as(*self),
    {
        ProfileJson {
            name: self.name.clone(),
            additional_assets: match &self.additional_assets {
                Some(listed) => Some(clone_paths(listed)),
                None => None,
            },
            collection_id: match &self.collection_id {
                Some(id) => Some(id.clone()),
                None => None,
            },
            link_mods: self.link_mods,
            selected_executable: match &self.selected_executable {
                Some(name) => Some(name.clone()),
                None => None,
            },
        }
    }
}

/// A profile: its folder and what it is made of.
#[derive(Debug, Clone)]
pub struct Profile {
    path: PathBuf,
    data: ProfileData,
}

impl Profile {
    /// The folder of the profile.
    pub closed spec fn folder(&self) -> PathBuf {
        self.path
    }

    /// What the profile is made of.
    pub closed spec fn content(&self) -> ProfileData {
        self.data
    }

    /// The stored data of the profile; meaningful for a profile that has
    /// some.
    pub open spec fn stored(&self) -> ProfileJson {
        self.content()->Json_0
    }

    /// The folder and the content of the profile.
    pub fn into_parts(self) -> (parts: (PathBuf, ProfileData))
        ensures
            parts == (self.folder(), self.content()),
    {
        (self.path, self.data)
    }

    /// The profile whose data is stored at `path`: its folder is the one
    /// that holds the file. A path without a folder above it gives no
    /// profile.
    pub fn from_json(json: ProfileJson, path: PathBuf) -> (made: Option<Profile>)
        ensures
            made is Some <==> parent_of(path) is Some,
            made is Some ==> made->0.folder() == parent_of(path)->0 && made->0.content()
                == ProfileData::Json(json),
    {
        match path_parent(&path) {
            Some(path) => Some(Profile { path, data: ProfileData::Json(json) }),
            None => None,
        }
    }

    /// The profile of the game's own folder.
    pub fn from_vanilla(path: PathBuf) -> (made: Profile)
        ensures
            made.folder() == path,
            made.content() == ProfileData::Vanilla,
    {
        Profile { path, data: ProfileData::Vanilla }
    }

    /// A profile of the launcher in the given folder.
    pub fn in_folder(path: PathBuf, json: ProfileJson) -> (made: Profile)
        ensures
            made.folder() == path,
            made.content() == ProfileData::Json(json),
    {
        Profile { path, data: ProfileData::Json(json) }
    }

    /// The name of the profile; the game's own folder is called "Default".
    pub fn name(&self) -> (name: &str)
        ensures
            name@ == (match self.content() {
                ProfileData::Json(json) => json.name@,
                ProfileData::Vanilla => "Default"@,
            }),
    {
        match &self.data {
            ProfileData::Json(json) => json.name.as_str(),
            ProfileData::Vanilla => "Default",
        }
    }

    /// The stored data of the profile, if it has any.
    pub fn json(&self) -> (json: Option<&ProfileJson>)
        ensures
            json is Some <==> self.content() is Json,
            json is Some ==> *json->0 == self.stored(),
    {
        match &self.data {
            ProfileData::Json(j) => Some(j),
            ProfileData::Vanilla => None,
        }
    }

    /// The stored data of the profile for changing, if it has any. What is
    /// written through the reference becomes the stored data; nothing else
    /// changes.
    pub fn json_mut(&mut self) -> (json: Option<&mut ProfileJson>)
        ensures
            json is Some <==> old(self).content() is Json,
            json is Some ==> *json->0 == old(self).stored() && final(self).content()
                == ProfileData::Json(*final(json->0)),
            json is None ==> final(self).content() == old(self).content(),
            final(self).folder() == old(self).folder(),
    {
        match &mut self.data {
            ProfileData::Json(j) => Some(j),
            ProfileData::Vanilla => None,
        }
    }

    /// Replaces the stored data. The game's own folder has none and stays
    /// as it is.
    pub fn set_json(&mut self, json: ProfileJson)
        ensures
            final(self).folder() == old(self).folder(),
            final(self).content() == (match old(self).content() {
                ProfileData::Json(_) => ProfileData::Json(json),
                ProfileData::Vanilla => ProfileData::Vanilla,
            }),
    {
        match &mut self.data {
            ProfileData::Json(j) => {
                *j = json;
            },
            ProfileData::Vanilla => {},
        }
    }

    /// Forgets which executable was chosen for the profile. The game's own
    /// folder has no choice to forget.
    pub fn clear_selected_executable(&mut self)
        ensures
            final(self).folder() == old(self).folder(),
            final(self).content() == (match old(self).content() {
                ProfileData::Json(json) => ProfileData::Json(
                    ProfileJson { selected_executable: None, ..json },
                ),
                ProfileData::Vanilla => ProfileData::Vanilla,
            }),
    {
        match &mut self.data {
            ProfileData::Json(json) => {
                json.selected_executable = None;
            },
            ProfileData::Vanilla => {},
        }
    }

    /// The folder of the profile.
    pub fn path(&self) -> (path: &PathBuf)
        ensures
            *path == self.folder(),
    {
        &self.path
    }

    /// The further asset directories of the profile, in order: none for
    /// the game's own folder and for a profile that stores none.
    pub fn additional_assets(&self) -> (assets: Vec<PathBuf>)
        ensures
            assets@ == (match self.content() {
                ProfileData::Json(json) => match json.additional_assets {
                    Some(listed) => listed@,
                    None => Seq::empty(),
                },
                ProfileData::Vanilla => Seq::empty(),
            }),
    {
        match &self.data {
            ProfileData::Json(json) => match &json.additional_assets {
                Some(listed) => clone_paths(listed),
                None => Vec::new(),
            },
            ProfileData::Vanilla => Vec::new(),
        }
    }

    /// Whether the game's own mods are loaded too: as stored, and always
    /// for the game's own folder.
    pub fn link_mods(&self) -> (linked: bool)
        ensures
            linked == (match self.content() {
                ProfileData::Json(json) => json.link_mods,
                ProfileData::Vanilla => true,
            }),
    {
        match &self.data {
            ProfileData::Json(json) => json.link_mods,
            ProfileData::Vanilla => true,
        }
    }

    /// The name of the executable chosen for the profile, if one is.
    pub fn selected_executable(&self) -> (name: Option<&str>)
        ensures
            name is Some <==> self.content() is Json && self.stored().selected_executable is Some,
            name is Some ==> name->0@ == self.stored().selected_executable->0@,
    {
        match &self.data {
            ProfileData::Json(json) => match &json.selected_executable {
                Some(name) => Some(name.as_str()),
                None => None,
            },
            ProfileData::Vanilla => None,
        }
    }

    /// Whether the profile is the game's own folder.
    pub fn is_vanilla(&self) -> (vanilla: bool)
        ensures
            vanilla == (self.content() is Vanilla),
    {
        match &self.data {
            ProfileData::Vanilla => true,
            ProfileData::Json(_) => false,
        }
    }
}

/// A folder name with a number behind it, for when the plain name is taken.
pub open spec fn numbered_name(name: Seq<char>, number: nat) -> Seq<char> {
    name + "_"@ + decimal(number)
}

/// The folder name that stands for a profile's name: the name with an
/// underscore in place of every space, hyphen, slash and backslash.
pub fn profile_folder_name(name: &str) -> (folder: String)
    ensures
        folder@ == underscored(name@, true),
{
    underscore(name, true)
}

/// The folder name to try when the plain name and all lower numbers are
/// taken.
pub fn numbered_folder_name(name: &str, number: usize) -> (folder: String)
    ensures
        folder@ == numbered_name(name@, number as nat),
{
    String::from_str(name).concat("_").concat(decimal_string(number).as_str())
}

/// The stored data of a duplicate: that of the original under the new
/// name, or, for the game's own folder, fresh data under the new name that
/// follows no collection, has no further assets, has no executable chosen
/// and loads the game's own mods.
pub fn duplicated_json(original: ProfileData, name: String) -> (json: ProfileJson)
    ensures
        json == (match original {
            ProfileData::Json(stored) => ProfileJson { name, ..stored },
            ProfileData::Vanilla => ProfileJson {
                name,
                additional_assets: None,
                collection_id: None,
                link_mods: true,
                selected_executable: None,
            },
        }),
{
    match original {
        ProfileData::Json(mut json) => {
            json.name = name;
            json
        },
        ProfileData::Vanilla => ProfileJson {
            name,
            additional_assets: None,
            collection_id: None,
            link_mods: true,
            selected_executable: None,
        },
    }
}

/// The name of the stored data inside a profile's folder.
pub fn profile_json_name() -> (name: &'static str)
    ensures
        name@ == "profile.json"@,
{
    "profile.json"
}

} // verus!
