use winshell::{Menu, MenuEntry, FLAG_MENU_BAR_BREAK, FLAG_MENU_BREAK, FLAG_RIGHT_JUSTIFY};

fn item_fields(entry: &MenuEntry) -> (u32, &str, bool, bool, bool, u32) {
    match entry {
        MenuEntry::Item { native_id, text, checked, enabled, highlighted, type_flags } => {
            (*native_id, text.as_str(), *checked, *enabled, *highlighted, *type_flags)
        }
        other => panic!("expected an item entry, got {:?}", other),
    }
}

#[test]
fn new_menu_is_empty() {
    let menu = Menu::new().unwrap();
    assert_eq!(menu.item_count(), 0);
    assert!(menu.entries().is_empty());
}

#[test]
fn add_item_appends_fresh_item() {
    let mut menu = Menu::new().unwrap();
    menu.add_item(7, "seven").unwrap();
    assert_eq!(menu.item_count(), 1);
    let (native_id, text, checked, enabled, highlighted, type_flags) =
        item_fields(&menu.entries()[0]);
    assert_eq!(native_id, 0xF008);
    assert_eq!(text, "seven");
    assert!(!checked);
    assert!(enabled);
    assert!(!highlighted);
    assert_eq!(type_flags, 0);
}

#[test]
fn add_item_accepts_the_largest_id() {
    let mut menu = Menu::new().unwrap();
    menu.add_item(4094, "last").unwrap();
    let (native_id, ..) = item_fields(&menu.entries()[0]);
    assert_eq!(native_id, 0xFFFF);
}

#[test]
fn add_item_rejects_out_of_range_id() {
    let mut menu = Menu::new().unwrap();
    assert!(menu.add_item(4095, "too big").is_err());
    assert_eq!(menu.item_count(), 0);
}

#[test]
fn add_separator_appends_separator() {
    let mut menu = Menu::new().unwrap();
    menu.add_item(1, "one").unwrap();
    menu.add_separator().unwrap();
    assert_eq!(menu.item_count(), 2);
    assert!(matches!(menu.entries()[1], MenuEntry::Separator));
}

#[test]
fn add_submenu_transfers_child() {
    let mut child = Menu::new().unwrap();
    child.add_item(3, "inner").unwrap();
    let mut menu = Menu::new().unwrap();
    menu.add_item(1, "one").unwrap();
    menu.add_submenu(child, "more").unwrap();
    assert_eq!(menu.item_count(), 2);
    let sub = menu.get_submenu(1).unwrap();
    assert_eq!(sub.item_count(), 1);
    let (native_id, text, ..) = item_fields(&sub.entries()[0]);
    assert_eq!(native_id, 0xF004);
    assert_eq!(text, "inner");
}

#[test]
fn get_submenu_is_none_for_plain_items_and_out_of_range() {
    let mut menu = Menu::new().unwrap();
    menu.add_item(1, "one").unwrap();
    assert!(menu.get_submenu(0).is_none());
    assert!(menu.get_submenu(1).is_none());
    assert!(menu.get_submenu(u32::MAX).is_none());
}

#[test]
fn replace_item_swaps_in_a_fresh_item() {
    let mut menu = Menu::new().unwrap();
    menu.add_item(1, "one").unwrap();
    menu.add_item(2, "two").unwrap();
    menu.set_item_check(1, true).unwrap();
    menu.replace_item(1, 9, "nine").unwrap();
    assert_eq!(menu.item_count(), 2);
    let (native_id, text, checked, enabled, highlighted, type_flags) =
        item_fields(&menu.entries()[0]);
    assert_eq!(native_id, 0xF00A);
    assert_eq!(text, "nine");
    assert!(!checked, "a replaced item starts with fresh state");
    assert!(enabled);
    assert!(!highlighted);
    assert_eq!(type_flags, 0);
    let (other_id, other_text, ..) = item_fields(&menu.entries()[1]);
    assert_eq!(other_id, 0xF003);
    assert_eq!(other_text, "two");
}

#[test]
fn replace_item_rejects_bad_ids_without_change() {
    let mut menu = Menu::new().unwrap();
    menu.add_item(1, "one").unwrap();
    assert!(menu.replace_item(5000, 2, "x").is_err());
    assert!(menu.replace_item(1, 5000, "x").is_err());
    assert!(menu.replace_item(2, 3, "x").is_err());
    let (native_id, text, ..) = item_fields(&menu.entries()[0]);
    assert_eq!(native_id, 0xF002);
    assert_eq!(text, "one");
}

#[test]
fn remove_item_removes_first_match_only() {
    let mut menu = Menu::new().unwrap();
    menu.add_item(1, "first").unwrap();
    menu.add_item(2, "second").unwrap();
    menu.add_item(1, "third").unwrap();
    menu.remove_item(1).unwrap();
    assert_eq!(menu.item_count(), 2);
    let (_, text_a, ..) = item_fields(&menu.entries()[0]);
    let (_, text_b, ..) = item_fields(&menu.entries()[1]);
    assert_eq!(text_a, "second");
    assert_eq!(text_b, "third");
}

#[test]
fn remove_item_rejects_missing_or_bad_id() {
    let mut menu = Menu::new().unwrap();
    menu.add_item(1, "one").unwrap();
    assert!(menu.remove_item(2).is_err());
    assert!(menu.remove_item(4095).is_err());
    assert_eq!(menu.item_count(), 1);
}

#[test]
fn set_item_check_toggles_only_the_check_mark() {
    let mut menu = Menu::new().unwrap();
    menu.add_item(1, "one").unwrap();
    menu.set_item_check(1, true).unwrap();
    let (_, text, checked, enabled, ..) = item_fields(&menu.entries()[0]);
    assert!(checked);
    assert!(enabled);
    assert_eq!(text, "one");
    menu.set_item_check(1, false).unwrap();
    let (_, _, checked, ..) = item_fields(&menu.entries()[0]);
    assert!(!checked);
}

#[test]
fn set_item_enable_toggles_only_the_enabled_state() {
    let mut menu = Menu::new().unwrap();
    menu.add_item(1, "one").unwrap();
    menu.set_item_enable(1, false).unwrap();
    let (_, _, checked, enabled, ..) = item_fields(&menu.entries()[0]);
    assert!(!enabled);
    assert!(!checked);
}

#[test]
fn set_item_highlight_toggles_only_the_highlight() {
    let mut menu = Menu::new().unwrap();
    menu.add_item(1, "one").unwrap();
    menu.set_item_highlight(1, true).unwrap();
    let (_, _, _, enabled, highlighted, _) = item_fields(&menu.entries()[0]);
    assert!(highlighted);
    assert!(enabled);
}

#[test]
fn item_state_setters_reject_missing_items() {
    let mut menu = Menu::new().unwrap();
    menu.add_item(1, "one").unwrap();
    assert!(menu.set_item_check(2, true).is_err());
    assert!(menu.set_item_enable(2, true).is_err());
    assert!(menu.set_item_highlight(2, true).is_err());
    assert!(menu.set_item_check(4095, true).is_err());
}

#[test]
fn layout_flags_read_modify_write_keeps_other_flags() {
    let mut menu = Menu::new().unwrap();
    menu.add_item(1, "one").unwrap();
    menu.set_item_menu_break(1, true).unwrap();
    let (.., type_flags) = item_fields(&menu.entries()[0]);
    assert_eq!(type_flags, FLAG_MENU_BREAK);
    menu.set_item_menu_bar_break(1, true).unwrap();
    let (.., type_flags) = item_fields(&menu.entries()[0]);
    assert_eq!(type_flags, FLAG_MENU_BREAK | FLAG_MENU_BAR_BREAK);
    menu.set_item_right_justify(1, true).unwrap();
    let (.., type_flags) = item_fields(&menu.entries()[0]);
    assert_eq!(type_flags, FLAG_MENU_BREAK | FLAG_MENU_BAR_BREAK | FLAG_RIGHT_JUSTIFY);
    menu.set_item_menu_break(1, false).unwrap();
    let (.., type_flags) = item_fields(&menu.entries()[0]);
    assert_eq!(type_flags, FLAG_MENU_BAR_BREAK | FLAG_RIGHT_JUSTIFY);
}

#[test]
fn layout_flag_setters_reject_missing_items() {
    let mut menu = Menu::new().unwrap();
    assert!(menu.set_item_menu_break(1, true).is_err());
    assert!(menu.set_item_menu_bar_break(1, true).is_err());
    assert!(menu.set_item_right_justify(1, true).is_err());
    assert!(menu.set_item_menu_break(4095, true).is_err());
}
