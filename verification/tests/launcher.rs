use sbi::executable::{Executable, ExecutableVariant};
use sbi::instance::{Instance, InstanceError, ModifyInstance};
use sbi::json::{default_executable, InstanceDataJson};
use sbi::menus::configure_profile::ConfigureProfileSubmenuData;
use sbi::menus::duplicate_profile::DuplicateSubmenuData;
use sbi::menus::new_profile::NewProfileSubmenuData;
use sbi::menus::rename_profile::RenameSubmenuData;
use sbi::menus::settings::SettingsSubmenuData;
use sbi::menus::NewProfileSubmenu;
use sbi::paths::clone_paths;
use sbi::profile::{Profile, ProfileData, ProfileJson};
use sbi::ui::popups::confirmation::{ConfirmationPopup, PopupAnswer, PopupKey};
use sbi::ui::popups::{is_instance_name_valid, ConsumablePopup};
use std::path::PathBuf;

fn data(name: &str) -> InstanceDataJson {
    InstanceDataJson {
        name: name.to_string(),
        executable: None,
        additional_assets: None,
        collection_id: Some("42".to_string()),
    }
}

fn stored(name: &str) -> ProfileJson {
    ProfileJson {
        name: name.to_string(),
        additional_assets: Some(vec![PathBuf::from("/a"), PathBuf::from("b/c")]),
        collection_id: Some("42".to_string()),
        link_mods: false,
        selected_executable: Some("xsb".to_string()),
    }
}

#[test]
fn instance_lives_in_the_folder_of_its_data() {
    let instance =
        Instance::from_json(data("one"), &PathBuf::from("/data/instances/one/instance.json")).unwrap();
    assert_eq!(instance.folder_path(), &PathBuf::from("/data/instances/one"));
    assert_eq!(instance.name(), "one");
    assert_eq!(instance.collection_id(), Some("42".to_string()));
    assert_eq!(instance.executable(), &None);
    assert!(instance.additional_assets().is_none());
    assert_eq!(instance.to_json().name, "one");
}

#[test]
fn instance_needs_a_folder() {
    let failed = Instance::from_json(data("one"), &PathBuf::from("/"));
    assert!(matches!(failed, Err(InstanceError::NoFolder)));
    let failed = Instance::from_json(data("one"), &PathBuf::from(""));
    assert!(matches!(failed, Err(InstanceError::NoFolder)));
    assert_eq!(InstanceError::NoFolder.message(), "Instance not in a valid folder??");
}

#[test]
fn modification_changes_one_field() {
    let mut instance = Instance::from_json(data("one"), &PathBuf::from("/i/one/instance.json")).unwrap();
    instance.modify(ModifyInstance::Name("two".to_string()));
    assert_eq!(instance.name(), "two");
    assert_eq!(instance.collection_id(), Some("42".to_string()));
    instance.modify(ModifyInstance::Executable(Some("xsb".to_string())));
    assert_eq!(instance.executable(), &Some("xsb".to_string()));
    assert_eq!(instance.name(), "two");
    instance.modify(ModifyInstance::Collection(None));
    assert_eq!(instance.collection_id(), None);
    assert_eq!(instance.executable(), &Some("xsb".to_string()));
    assert_eq!(instance.folder_path(), &PathBuf::from("/i/one"));
}

#[test]
fn additional_assets_of_an_instance_are_handed_out() {
    let mut json = data("one");
    json.additional_assets = Some(vec!["x".to_string(), "y".to_string()]);
    let instance = Instance::from_json(json, &PathBuf::from("/i/one/instance.json")).unwrap();
    assert_eq!(instance.additional_assets(), Some(&vec!["x".to_string(), "y".to_string()]));
}

#[test]
fn default_executable_is_vanilla() {
    assert_eq!(default_executable(), "vanilla");
    assert_eq!(ExecutableVariant::default(), ExecutableVariant::Vanilla);
}

#[test]
fn variants_are_offered_in_order() {
    assert_eq!(
        ExecutableVariant::options(),
        [ExecutableVariant::XStarbound, ExecutableVariant::OpenStarbound, ExecutableVariant::Vanilla]
    );
    assert_eq!(ExecutableVariant::XStarbound.label(), "XStarbound");
    assert_eq!(ExecutableVariant::OpenStarbound.label(), "OpenStarbound");
    assert_eq!(ExecutableVariant::Vanilla.label(), "Vanilla");
}

#[test]
fn relative_assets_are_read_from_the_folder_of_the_binary() {
    let executable = Executable {
        bin: PathBuf::from("/games/xsb/linux/starbound"),
        assets: Some(PathBuf::from("../assets")),
        variant: ExecutableVariant::XStarbound,
    };
    assert_eq!(executable.assets(), Some(PathBuf::from("/games/xsb/linux/../assets")));
    assert_eq!(executable.checked_assets(), Ok(Some(PathBuf::from("/games/xsb/linux/../assets"))));
}

#[test]
fn absolute_assets_are_taken_as_they_are() {
    let executable = Executable {
        bin: PathBuf::from("/games/xsb/linux/starbound"),
        assets: Some(PathBuf::from("/elsewhere/assets")),
        variant: ExecutableVariant::Vanilla,
    };
    assert_eq!(executable.assets(), Some(PathBuf::from("/elsewhere/assets")));
    assert_eq!(executable.checked_assets(), Ok(Some(PathBuf::from("/elsewhere/assets"))));
}

#[test]
fn executable_without_assets_has_none() {
    let executable = Executable {
        bin: PathBuf::from("/"),
        assets: None,
        variant: ExecutableVariant::Vanilla,
    };
    assert_eq!(executable.assets(), None);
    assert_eq!(executable.checked_assets(), Ok(None));
}

#[test]
fn relative_assets_of_a_binary_without_folder_cannot_be_located() {
    let executable = Executable {
        bin: PathBuf::from("/"),
        assets: Some(PathBuf::from("assets")),
        variant: ExecutableVariant::Vanilla,
    };
    assert_eq!(executable.checked_assets(), Err(()));
}

#[test]
fn profile_lives_in_the_folder_of_its_data() {
    let profile = Profile::from_json(stored("one"), PathBuf::from("/p/one/profile.json")).unwrap();
    assert_eq!(profile.path(), &PathBuf::from("/p/one"));
    assert_eq!(profile.name(), "one");
    assert!(!profile.is_vanilla());
    assert!(!profile.link_mods());
    assert_eq!(profile.selected_executable(), Some("xsb"));
    assert_eq!(profile.additional_assets(), vec![PathBuf::from("/a"), PathBuf::from("b/c")]);
    assert_eq!(profile.json(), Some(&stored("one")));
    assert!(Profile::from_json(stored("one"), PathBuf::from("/")).is_none());
}

#[test]
fn vanilla_profile_has_no_stored_data() {
    let mut profile = Profile::from_vanilla(PathBuf::from("/game/storage"));
    assert_eq!(profile.path(), &PathBuf::from("/game/storage"));
    assert_eq!(profile.name(), "Default");
    assert!(profile.is_vanilla());
    assert!(profile.link_mods());
    assert_eq!(profile.selected_executable(), None);
    assert!(profile.additional_assets().is_empty());
    assert!(profile.json().is_none());
    assert!(profile.json_mut().is_none());
    profile.set_json(stored("ignored"));
    assert!(profile.is_vanilla());
    profile.clear_selected_executable();
    assert!(profile.is_vanilla());
    let (path, data) = profile.into_parts();
    assert_eq!(path, PathBuf::from("/game/storage"));
    assert!(matches!(data, ProfileData::Vanilla));
}

#[test]
fn stored_data_of_a_profile_can_be_changed() {
    let mut profile = Profile::in_folder(PathBuf::from("/p/one"), stored("one"));
    profile.json_mut().unwrap().link_mods = true;
    assert!(profile.link_mods());
    profile.clear_selected_executable();
    assert_eq!(profile.selected_executable(), None);
    assert_eq!(profile.name(), "one");
    let mut other = stored("two");
    other.additional_assets = None;
    profile.set_json(other);
    assert_eq!(profile.name(), "two");
    assert!(profile.additional_assets().is_empty());
    assert_eq!(profile.path(), &PathBuf::from("/p/one"));
    let (path, data) = profile.into_parts();
    assert_eq!(path, PathBuf::from("/p/one"));
    assert!(matches!(data, ProfileData::Json(json) if json.name == "two"));
}

#[test]
fn copy_of_stored_data_is_equal() {
    assert_eq!(stored("one").copy(), stored("one"));
    assert_eq!(
        clone_paths(&vec![PathBuf::from("a"), PathBuf::from("/b")]),
        vec![PathBuf::from("a"), PathBuf::from("/b")]
    );
}

#[test]
fn dialogs_open_empty() {
    let menu = NewProfileSubmenu::new();
    assert_eq!(menu.name, "");
    assert_eq!(menu.collection_id, "");
    assert!(!menu.link_mods);
    let menu = NewProfileSubmenuData::new();
    assert_eq!(menu.name, "");
    assert_eq!(menu.collection_id, "");
    assert!(!menu.link_mods);
    assert_eq!(SettingsSubmenuData::new().selected_executable, None);
    assert_eq!(sbi::menus::SettingsSubmenuData::new().selected_executable, None);
}

#[test]
fn dialogs_open_with_the_present_values() {
    assert_eq!(RenameSubmenuData::new("one").name, "one");
    let menu = DuplicateSubmenuData::new("one");
    assert_eq!(menu.original, "one");
    assert_eq!(menu.name, "one (Copy)");
    assert_eq!(
        ConfigureProfileSubmenuData::new(&stored("one")),
        ConfigureProfileSubmenuData::new(&stored("one"))
    );
    assert_ne!(
        ConfigureProfileSubmenuData::new(&stored("one")),
        ConfigureProfileSubmenuData::new(&stored("two"))
    );
    assert_ne!(
        sbi::menus::ConfigureProfileSubmenuData::new(&stored("one")),
        sbi::menus::ConfigureProfileSubmenuData::new(&stored("two"))
    );
}

#[test]
fn instance_names_are_letters_digits_and_a_few_signs() {
    assert!(is_instance_name_valid("abc"));
    assert!(is_instance_name_valid("My instance_2-b"));
    assert!(is_instance_name_valid("  padded  "));
    assert!(is_instance_name_valid("\u{e9}t\u{e9}"));
    assert!(!is_instance_name_valid(""));
    assert!(!is_instance_name_valid("   "));
    assert!(!is_instance_name_valid("a/b"));
    assert!(!is_instance_name_valid("a!"));
    assert!(!is_instance_name_valid("a\tb"));
}

#[test]
fn confirmation_hands_its_message_out_once() {
    let mut popup = ConfirmationPopup::new(7u32, "Sure?".to_string());
    assert_eq!(popup.consume(), Some(7));
    assert_eq!(popup.consume(), None);
}

#[test]
fn instance_folder_name_replaces_spaces() {
    assert_eq!(sbi::instance::instance_folder_name("My first instance"), "My_first_instance");
    assert_eq!(sbi::instance::instance_folder_name("a-b/c"), "a-b/c");
    assert_eq!(sbi::instance::instance_folder_name(""), "");
}

#[test]
fn confirmation_is_answered_with_the_marked_button() {
    let mut popup = ConfirmationPopup::new(7u32, "Sure?".to_string());
    assert_eq!(popup.handle_key(PopupKey::Other), None);
    assert_eq!(popup.handle_key(PopupKey::Right), None);
    assert_eq!(popup.handle_key(PopupKey::Enter), Some(PopupAnswer::Dismiss));
    assert_eq!(popup.handle_key(PopupKey::Left), None);
    assert_eq!(popup.handle_key(PopupKey::Enter), Some(PopupAnswer::Confirm));
    assert_eq!(popup.handle_key(PopupKey::Left), None);
    assert_eq!(popup.handle_key(PopupKey::Enter), Some(PopupAnswer::Confirm));
    assert_eq!(popup.handle_key(PopupKey::Right), None);
    assert_eq!(popup.handle_key(PopupKey::Enter), Some(PopupAnswer::Dismiss));
    assert_eq!(popup.consume(), Some(7));
}

fn drain<P: ConsumablePopup<u32>>(popup: &mut P) -> Vec<u32> {
    let mut handed_out = Vec::new();
    while let Some(message) = popup.consume() {
        handed_out.push(message);
    }
    handed_out
}

#[test]
fn confirmation_is_a_consumable_dialog() {
    let mut popup = ConfirmationPopup::new(9u32, "Sure?".to_string());
    assert_eq!(drain(&mut popup), vec![9]);
    assert_eq!(drain(&mut popup), Vec::<u32>::new());
}
