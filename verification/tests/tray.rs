use zest::tray::{action_for_menu_id, TrayAction, ID_QUIT, ID_SETTINGS, ID_SHOW};
use zest::updater::should_check;
use zest::settings::UpdateFrequency;

#[test]
fn menu_ids_match_handler_constants() {
    assert_eq!(ID_SHOW, "show");
    assert_eq!(ID_SETTINGS, "settings");
    assert_eq!(ID_QUIT, "quit");
}

#[test]
fn menu_ids_map_onto_actions() {
    assert_eq!(action_for_menu_id(ID_SHOW), Some(TrayAction::Show));
    assert_eq!(action_for_menu_id(ID_SETTINGS), Some(TrayAction::Settings));
    assert_eq!(action_for_menu_id(ID_QUIT), Some(TrayAction::Quit));
    assert_eq!(action_for_menu_id("Show"), None);
    assert_eq!(action_for_menu_id(""), None);
}

#[test]
fn never_disables_update_checks() {
    assert!(should_check(UpdateFrequency::Daily));
    assert!(should_check(UpdateFrequency::Weekly));
    assert!(!should_check(UpdateFrequency::Never));
}

#[test]
fn tray_menu_lists_show_settings_and_quit() {
    let items = zest::tray::tray_menu_items();
    assert_eq!(
        items,
        vec![
            zest::tray::TrayItem::Item { id: "show", label: "Show" },
            zest::tray::TrayItem::Item { id: "settings", label: "Settings…" },
            zest::tray::TrayItem::Separator,
            zest::tray::TrayItem::Item { id: "quit", label: "Quit" },
        ]
    );
    for item in items {
        if let zest::tray::TrayItem::Item { id, .. } = item {
            assert!(zest::tray::action_for_menu_id(id).is_some());
        }
    }
}

#[test]
fn left_release_on_the_icon_reveals_the_overlay() {
    let click = zest::tray::action_for_icon_click;
    let left = zest::tray::TrayButton::Left;
    assert_eq!(click(left, true), Some(zest::tray::TrayAction::Show));
    assert_eq!(click(left, false), None);
    assert_eq!(click(zest::tray::TrayButton::Right, true), None);
    assert_eq!(click(zest::tray::TrayButton::Middle, true), None);
}
