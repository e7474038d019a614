//! Tray menu: Show / Settings / Quit, and which menu id means which.
use vstd::prelude::*;
use crate::text::{chars_of, eq_str};

verus! {

pub const ID_SHOW: &'static str = "show";

pub const ID_SETTINGS: &'static str = "settings";

pub const ID_QUIT: &'static str = "quit";

/// A user choice from the tray icon or its menu.
#[derive(Debug, Clone, Copy, PartialEq, Eq, Structural)]
pub enum TrayAction {
    /// Reveal the radial overlay for the current selection.
    Show,
    /// Open the settings window.
    Settings,
    /// Shut Zest down.
    Quit,
}

pub open spec fn tray_action_for(id: Seq<char>) -> Option<TrayAction> {
    if id == ID_SHOW@ {
        Some(TrayAction::Show)
    } else if id == ID_SETTINGS@ {
        Some(TrayAction::Settings)
    } else if id == ID_QUIT@ {
        Some(TrayAction::Quit)
    } else {
        None
    }
}

/// The action behind a tray menu item id; unknown ids do nothing.
pub fn action_for_menu_id(id: &str) -> (r: Option<TrayAction>)
    ensures
        r == tray_action_for(id@),
{
    let v = chars_of(id);
    if eq_str(&v, ID_SHOW) {
        Some(TrayAction::Show)
    } else if eq_str(&v, ID_SETTINGS) {
        Some(TrayAction::Settings)
    } else if eq_str(&v, ID_QUIT) {
        Some(TrayAction::Quit)
    } else {
        None
    }
}

/// Which mouse button an icon click used.
#[derive(Debug, Clone, Copy, PartialEq, Eq, Structural)]
pub enum TrayButton {
    Left,
    Right,
    Middle,
}

/// A click on the tray icon itself: a left-button release reveals the
/// overlay (the menu opens on the right button only).
pub fn action_for_icon_click(button: TrayButton, released: bool) -> (r: Option<TrayAction>)
    ensures
        r == (if button == TrayButton::Left && released { Some(TrayAction::Show) } else { None::<TrayAction> }),
{
    match button {
        TrayButton::Left => if released {
            Some(TrayAction::Show)
        } else {
            None
        },
        _ => None,
    }
}

/// One entry of the tray menu.
#[derive(Debug, Clone, PartialEq, Eq)]
pub enum TrayItem {
    /// A clickable item: its id and its label.
    Item { id: &'static str, label: &'static str },
    Separator,
}

/// The tray menu: Show, Settings, a separator, Quit.
pub fn tray_menu_items() -> (r: Vec<TrayItem>)
    ensures
        r@ == seq![
            TrayItem::Item { id: ID_SHOW, label: "Show" },
            TrayItem::Item { id: ID_SETTINGS, label: "Settings\u{2026}" },
            TrayItem::Separator,
            TrayItem::Item { id: ID_QUIT, label: "Quit" },
        ],
{
    let r = vec![
        TrayItem::Item { id: ID_SHOW, label: "Show" },
        TrayItem::Item { id: ID_SETTINGS, label: "Settings\u{2026}" },
        TrayItem::Separator,
        TrayItem::Item { id: ID_QUIT, label: "Quit" },
    ];
    assert(r@ =~= seq![
        TrayItem::Item { id: ID_SHOW, label: "Show" },
        TrayItem::Item { id: ID_SETTINGS, label: "Settings\u{2026}" },
        TrayItem::Separator,
        TrayItem::Item { id: ID_QUIT, label: "Quit" },
    ]);
    r
}

/// Every clickable tray menu item maps to an action.
pub proof fn law_every_menu_item_has_an_action()
    ensures
        tray_action_for(ID_SHOW@) == Some(TrayAction::Show),
        tray_action_for(ID_SETTINGS@) == Some(TrayAction::Settings),
        tray_action_for(ID_QUIT@) == Some(TrayAction::Quit),
{
    reveal_strlit("show");
    reveal_strlit("settings");
    reveal_strlit("quit");
    assert(ID_SHOW@ != ID_SETTINGS@) by {
        assert(ID_SHOW@.len() != ID_SETTINGS@.len());
    }
    assert(ID_QUIT@ != ID_SHOW@) by {
        assert(ID_QUIT@[0] != ID_SHOW@[0]);
    }
    assert(ID_QUIT@ != ID_SETTINGS@) by {
        assert(ID_QUIT@.len() != ID_SETTINGS@.len());
    }
}

} // verus!
