use thock::config::config_file;
use thock::text::{starts_with, str_eq, strip_prefix};
use thock::tray::{menu_action, pack_item_checked, pack_menu_id, MenuAction};

#[test]
fn fixed_menu_items() {
    assert_eq!(menu_action("toggle_enabled"), MenuAction::ToggleEnabled);
    assert_eq!(menu_action("toggle_mouse"), MenuAction::ToggleMouse);
    assert_eq!(menu_action("open_settings"), MenuAction::OpenSettings);
    assert_eq!(menu_action("quit"), MenuAction::Quit);
}

#[test]
fn pack_menu_items() {
    assert_eq!(pack_menu_id("thock"), "pack:thock");
    assert_eq!(menu_action("pack:thock"), MenuAction::SelectPack("thock".to_string()));
    assert_eq!(menu_action(&pack_menu_id("thock")), MenuAction::SelectPack("thock".to_string()));
    assert_eq!(menu_action("pack:"), MenuAction::SelectPack(String::new()));
}

#[test]
fn unknown_menu_items() {
    assert_eq!(menu_action(""), MenuAction::Ignore);
    assert_eq!(menu_action("pack"), MenuAction::Ignore);
    assert_eq!(menu_action("Quit"), MenuAction::Ignore);
    assert_eq!(menu_action("xpack:thock"), MenuAction::Ignore);
}

#[test]
fn config_file_is_in_the_config_dir() {
    let expected = format!("/home/u/.config/thock{}config.json", std::path::MAIN_SEPARATOR);
    assert_eq!(config_file("/home/u/.config/thock"), expected);
    assert_eq!(config_file("relative"), format!("relative{}config.json", std::path::MAIN_SEPARATOR));
}

#[test]
fn string_helpers() {
    assert!(str_eq("Space", "Space"));
    assert!(!str_eq("Space", "Spac"));
    assert!(!str_eq("Space", "space"));
    assert!(str_eq("", ""));
    assert!(starts_with("pack:x", "pack:"));
    assert!(!starts_with("pac", "pack:"));
    assert_eq!(strip_prefix("pack:é", "pack:"), Some("é"));
    assert_eq!(strip_prefix("quit", "pack:"), None);
}

#[test]
fn pack_items_check_the_active_pack() {
    assert!(pack_item_checked("thock", "thock"));
    assert!(!pack_item_checked("thock", "other"));
    assert!(!pack_item_checked("thock", ""));
}
