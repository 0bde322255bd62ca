//! What the game is started with: the directories it loads assets from and
//! its arguments.

use crate::executable::ExecutableVariant;
use crate::profile::{Profile, ProfileData};
use std::path::PathBuf;
use vstd::prelude::*;

verus! {

/// How a launch ended.
#[derive(Debug, Copy, Clone)]
pub enum SBILaunchStatus {
    Success,
    Failure,
}

/// The settings of a launch.
#[derive(Debug, Copy, Clone)]
pub struct SBILaunchSettings {
    /// Whether the launcher ends once the game runs.
    pub close_on_launch: bool,
}

/// The further asset directories that a profile stores.
pub open spec fn stored_assets(profile: ProfileData) -> Seq<PathBuf> {
    match profile {
        ProfileData::Json(json) => match json.additional_assets {
            Some(listed) => listed@,
            None => Seq::empty(),
        },
        ProfileData::Vanilla => Seq::empty(),
    }
}

/// Whether a profile loads the game's own mods.
pub open spec fn links_mods(profile: ProfileData) -> bool {
    match profile {
        ProfileData::Json(json) => json.link_mods,
        ProfileData::Vanilla => true,
    }
}

/// The directories that the game loads assets from, in order: the game's
/// own assets, those of the executable if it has any, those of the
/// profile, and last the game's own mods, if there is such a folder, it
/// exists, and the profile asks for it.
pub open spec fn asset_list(
    profile: ProfileData,
    vanilla_mods: Option<PathBuf>,
    vanilla_mods_exist: bool,
    vanilla_assets: PathBuf,
    executable_assets: Option<PathBuf>,
) -> Seq<PathBuf> {
    seq![vanilla_assets] + (match executable_assets {
        Some(assets) => seq![assets],
        None => Seq::empty(),
    }) + stored_assets(profile) + (if vanilla_mods is Some && vanilla_mods_exist && links_mods(
        profile,
    ) {
        seq![vanilla_mods->0]
    } else {
        Seq::empty()
    })
}

/// The directories that the game loads assets from when it is started with
/// a profile.
pub fn asset_directories(
    profile: &Profile,
    vanilla_mods: Option<PathBuf>,
    vanilla_mods_exist: bool,
    vanilla_assets: PathBuf,
    executable_assets: Option<PathBuf>,
) -> (directories: Vec<PathBuf>)
    ensures
        directories@ == asset_list(
            profile.content(),
            vanilla_mods,
            vanilla_mods_exist,
            vanilla_assets,
            executable_assets,
        ),
{
    let mut directories: Vec<PathBuf> = Vec::new();
    directories.push(vanilla_assets);
    if let Some(assets) = executable_assets {
        directories.push(assets);
    }
    let ghost head = directories@;
    let mut stored = profile.additional_assets();
    directories.append(&mut stored);
    assert(directories@ =~= head + stored_assets(profile.content()));
    let ghost body = directories@;
    let linked = profile.link_mods();
    if let Some(mods) = vanilla_mods {
        if vanilla_mods_exist && linked {
            directories.push(mods);
        }
    }
    assert(directories@ =~= asset_list(
        profile.content(),
        vanilla_mods,
        vanilla_mods_exist,
        vanilla_assets,
        executable_assets,
    ));
    directories
}

/// The arguments of the game: where its boot configuration is, and for the
/// one variant that understands it, the request to load no workshop content
/// on its own.
pub open spec fn launch_argument_list(bootconfig: Seq<char>, variant: ExecutableVariant) -> Seq<
    Seq<char>,
> {
    seq!["-bootconfig"@, bootconfig] + (if variant == ExecutableVariant::XStarbound {
        seq!["-noworkshop"@]
    } else {
        Seq::empty()
    })
}

/// The arguments with which an executable of the given variant is started.
pub fn launch_arguments(bootconfig: &str, variant: &ExecutableVariant) -> (arguments: Vec<String>)
    ensures
        arguments.deep_view() == launch_argument_list(bootconfig@, *variant),
{
    let mut arguments: Vec<String> = Vec::new();
    arguments.push(String::from_str("-bootconfig"));
    arguments.push(String::from_str(bootconfig));
    assert(arguments.deep_view() =~= seq!["-bootconfig"@, bootconfig@]);
    let ghost head = arguments.deep_view();
    match variant {
        ExecutableVariant::XStarbound => {
            arguments.push(String::from_str("-noworkshop"));
            assert(arguments.deep_view() =~= head + seq!["-noworkshop"@]);
        },
        _ => {
            assert(arguments.deep_view() =~= head + Seq::<Seq<char>>::empty());
        },
    }
    arguments
}

/// The name of the game's boot configuration inside a profile's folder.
pub fn boot_config_name() -> (name: &'static str)
    ensures
        name@ == "sbinit.config"@,
{
    "sbinit.config"
}

} // verus!
