use habitflow_shell::add_habit_event_name;
use habitflow_shell::main_window_label;
use habitflow_shell::tray_id;
use habitflow_shell::menu::MenuId;
use habitflow_shell::menu::menu_id_str;
use habitflow_shell::menu::menu_label;
use habitflow_shell::menu::parse_menu_id;
use habitflow_shell::menu::str_eq;
use habitflow_shell::menu::tray_menu_items;

#[test]
fn stable_interface_names() {
    assert_eq!(tray_id(), "habitflow-tray");
    assert_eq!(main_window_label(), "main");
    assert_eq!(add_habit_event_name(), "tray:add-habit");
}

#[test]
fn menu_items_have_stable_identifiers_and_labels_in_order() {
    let items = tray_menu_items();
    assert_eq!(items.len(), 3);
    assert_eq!(items[0].id, MenuId::Open);
    assert_eq!(items[1].id, MenuId::AddHabit);
    assert_eq!(items[2].id, MenuId::Quit);
    assert_eq!(items[0].label, "Open");
    assert_eq!(items[1].label, "Add Habit");
    assert_eq!(items[2].label, "Quit");
    assert!(items.iter().all(|it| it.enabled));
}

#[test]
fn identifier_strings_match_the_menu() {
    assert_eq!(menu_id_str(MenuId::Open), "open");
    assert_eq!(menu_id_str(MenuId::AddHabit), "add_habit");
    assert_eq!(menu_id_str(MenuId::Quit), "quit");
    assert_eq!(menu_label(MenuId::Open), "Open");
    assert_eq!(menu_label(MenuId::AddHabit), "Add Habit");
    assert_eq!(menu_label(MenuId::Quit), "Quit");
}

#[test]
fn parsing_recognizes_exactly_the_three_identifiers() {
    assert_eq!(parse_menu_id("open"), Some(MenuId::Open));
    assert_eq!(parse_menu_id("add_habit"), Some(MenuId::AddHabit));
    assert_eq!(parse_menu_id("quit"), Some(MenuId::Quit));
    assert_eq!(parse_menu_id(""), None);
    assert_eq!(parse_menu_id("Open"), None);
    assert_eq!(parse_menu_id("add-habit"), None);
    assert_eq!(parse_menu_id("quit "), None);
}

#[test]
fn every_registered_identifier_parses_back_to_its_item() {
    for m in [MenuId::Open, MenuId::AddHabit, MenuId::Quit] {
        assert_eq!(parse_menu_id(menu_id_str(m)), Some(m));
    }
}

#[test]
fn string_comparison_agrees_with_equality() {
    assert!(str_eq("", ""));
    assert!(str_eq("open", "open"));
    assert!(!str_eq("open", "opem"));
    assert!(!str_eq("open", "ope"));
    assert!(!str_eq("", "a"));
    assert!(str_eq("añejo", "añejo"));
    assert!(!str_eq("añejo", "anejo"));
}
