//! Global hotkey rules: which strings name the default menu binding, which
//! menu binding is acceptable, and which registered hotkey an event is for.
//! Parsing a hotkey string is `global_hotkey`'s job.
use vstd::prelude::*;
use crate::settings::{DEFAULT_HOTKEY, DEFAULT_CONVERT_HOTKEY};

verus! {

/// What `global_hotkey` makes of `text`: the identity of the hotkey it
/// parses, or the text of its parse error. The identity packs the modifiers
/// and the key, so two parsed hotkeys are the same exactly when their
/// identities are.
pub uninterp spec fn hotkey_parse(text: Seq<char>) -> Result<u32, Seq<char>>;

/// The identity of the hotkey parsed from `text`, or none when the text is
/// not a hotkey.
pub open spec fn parsed_hotkey(text: Seq<char>) -> Option<u32> {
    match hotkey_parse(text) {
        Ok(id) => Some(id),
        Err(_) => None,
    }
}

/// The parser's reason for refusing `text` (empty when it parses).
pub open spec fn parse_failure(text: Seq<char>) -> Seq<char> {
    match hotkey_parse(text) {
        Ok(_) => Seq::<char>::empty(),
        Err(reason) => reason,
    }
}

/// Parses `value` with `global_hotkey::hotkey::HotKey::from_str` and hands back
/// the parsed hotkey's id (`HotKey::id`), or the parse error's text (its
/// `Display`). Claimed: the outcome is a function of the text alone
/// (`hotkey_parse`).
#[verifier::external_body]
fn parse_hotkey_id(value: &str) -> (r: Result<u32, String>)
    ensures
        match r {
            Ok(id) => hotkey_parse(value@) == Ok::<u32, Seq<char>>(id),
            Err(reason) => hotkey_parse(value@) == Err::<u32, Seq<char>>(reason@),
        },
{
    match value.parse::<global_hotkey::hotkey::HotKey>() {
        Ok(hotkey) => Ok(hotkey.id()),
        Err(error) => Err(error.to_string()),
    }
}

/// Which overlay a hotkey opens.
#[derive(Debug, Clone, Copy, PartialEq, Eq, Structural)]
pub enum HotkeyAction {
    OpenMenu,
    OpenConvert,
}

/// Why a pair of hotkeys cannot be registered.
#[derive(Debug, Clone, PartialEq, Eq)]
pub enum HotkeyError {
    /// The text does not parse as a hotkey: the text, and the parser's reason.
    Invalid(String, String),
    /// The menu hotkey is the Convert hotkey.
    SameAsConvert(String),
}

/// The user-facing text of a hotkey error.
pub open spec fn hotkey_error_text(e: HotkeyError) -> Seq<char> {
    match e {
        HotkeyError::Invalid(value, reason) => "invalid global hotkey: "@ + value@ + ": "@ + reason@,
        HotkeyError::SameAsConvert(value) => "menu hotkey and Convert hotkey must be different: "@
            + value@,
    }
}

impl HotkeyError {
    pub fn message(&self) -> (r: String)
        ensures
            r@ == hotkey_error_text(*self),
    {
        match self {
            HotkeyError::Invalid(value, reason) => {
                let mut m = "invalid global hotkey: ".to_owned();
                m.append(value.as_str());
                m.append(": ");
                m.append(reason.as_str());
                m
            },
            HotkeyError::SameAsConvert(value) => {
                let mut m = "menu hotkey and Convert hotkey must be different: ".to_owned();
                m.append(value.as_str());
                m
            },
        }
    }
}

/// Parses one hotkey string, handing back the parsed hotkey's id.
pub fn parse_hotkey(value: &str) -> (r: Result<u32, HotkeyError>)
    ensures
        match r {
            Ok(id) => parsed_hotkey(value@) == Some(id),
            Err(e) => parsed_hotkey(value@) is None && (e matches HotkeyError::Invalid(text, reason)
                && text@ == value@ && reason@ == parse_failure(value@)),
        },
{
    match parse_hotkey_id(value) {
        Ok(id) => Ok(id),
        Err(reason) => Err(HotkeyError::Invalid(value.to_owned(), reason)),
    }
}

/// Whether `value` names the default menu binding, however it is written.
pub fn uses_default_hotkey(value: &str) -> (r: bool)
    ensures
        r == (parsed_hotkey(value@) is Some && parsed_hotkey(value@) == parsed_hotkey(
            DEFAULT_HOTKEY@,
        )),
{
    match (parse_hotkey_id(value), parse_hotkey_id(DEFAULT_HOTKEY)) {
        (Ok(value), Ok(default)) => value == default,
        _ => false,
    }
}

/// The menu bindings the settings form accepts: they parse, and they are not
/// the Convert binding.
pub open spec fn settings_accepts(value: Seq<char>) -> bool {
    parsed_hotkey(value) is Some && parsed_hotkey(value) != parsed_hotkey(DEFAULT_CONVERT_HOTKEY@)
}

/// The menu bindings registration accepts: they parse, the Convert binding
/// parses, and the two differ.
pub open spec fn registration_accepts(value: Seq<char>) -> bool {
    &&& parsed_hotkey(value) is Some
    &&& parsed_hotkey(DEFAULT_CONVERT_HOTKEY@) is Some
    &&& parsed_hotkey(value) != parsed_hotkey(DEFAULT_CONVERT_HOTKEY@)
}

/// A shortcut the settings form accepts is one registration accepts, so
/// saving a shortcut cannot disable start-up (given that the built-in Convert
/// binding parses).
pub proof fn law_accepted_shortcuts_register(value: Seq<char>)
    requires
        parsed_hotkey(DEFAULT_CONVERT_HOTKEY@) is Some,
        settings_accepts(value),
    ensures
        registration_accepts(value),
{
}

/// Parses the menu binding and the Convert binding, refusing a menu binding
/// that is not a hotkey or that is the Convert binding. Hands back the ids of
/// both.
pub fn parse_hotkeys(menu_hotkey: &str) -> (r: Result<(u32, u32), HotkeyError>)
    ensures
        r is Ok <==> registration_accepts(menu_hotkey@),
        match r {
            Ok((menu, convert)) => parsed_hotkey(menu_hotkey@) == Some(menu) && parsed_hotkey(
                DEFAULT_CONVERT_HOTKEY@,
            ) == Some(convert) && menu != convert,
            Err(HotkeyError::Invalid(value, reason)) => (parsed_hotkey(menu_hotkey@) is None && value@
                == menu_hotkey@ && reason@ == parse_failure(menu_hotkey@)) || (parsed_hotkey(
                menu_hotkey@,
            ) is Some && parsed_hotkey(DEFAULT_CONVERT_HOTKEY@) is None && value@
                == DEFAULT_CONVERT_HOTKEY@ && reason@ == parse_failure(DEFAULT_CONVERT_HOTKEY@)),
            Err(HotkeyError::SameAsConvert(value)) => parsed_hotkey(menu_hotkey@) is Some
                && parsed_hotkey(menu_hotkey@) == parsed_hotkey(DEFAULT_CONVERT_HOTKEY@) && value@
                == menu_hotkey@,
        },
{
    let menu = match parse_hotkey_id(menu_hotkey) {
        Ok(id) => id,
        Err(reason) => return Err(HotkeyError::Invalid(menu_hotkey.to_owned(), reason)),
    };
    let convert = match parse_hotkey_id(DEFAULT_CONVERT_HOTKEY) {
        Ok(id) => id,
        Err(reason) => return Err(HotkeyError::Invalid(DEFAULT_CONVERT_HOTKEY.to_owned(), reason)),
    };
    if menu == convert {
        return Err(HotkeyError::SameAsConvert(menu_hotkey.to_owned()));
    }
    Ok((menu, convert))
}

/// The message shown for a shortcut the settings form refuses.
pub open spec fn invalid_shortcut_text() -> Seq<char> {
    "Enter a valid shortcut, such as Shift+F."@
}

pub open spec fn reserved_shortcut_text() -> Seq<char> {
    "Shift+C is reserved for opening the Convert ring."@
}

/// Settings-form check of a menu binding: it must parse, and it must not be
/// the Convert binding.
pub fn validate_hotkey(value: &str) -> (r: Result<(), &'static str>)
    ensures
        parsed_hotkey(DEFAULT_CONVERT_HOTKEY@) is Some ==> (r is Ok <==> settings_accepts(value@)),
        match r {
            Ok(()) => parsed_hotkey(value@) is Some && parsed_hotkey(value@) != parsed_hotkey(
                DEFAULT_CONVERT_HOTKEY@,
            ),
            Err(message) => (parsed_hotkey(value@) is None && message@ == invalid_shortcut_text())
                || (parsed_hotkey(value@) is Some && parsed_hotkey(value@) == parsed_hotkey(
                DEFAULT_CONVERT_HOTKEY@,
            ) && message@ == reserved_shortcut_text()),
        },
{
    let hotkey = match parse_hotkey_id(value) {
        Ok(id) => id,
        Err(_) => return Err("Enter a valid shortcut, such as Shift+F."),
    };
    match parse_hotkey_id(DEFAULT_CONVERT_HOTKEY) {
        Ok(convert) => {
            if hotkey == convert {
                return Err("Shift+C is reserved for opening the Convert ring.");
            }
            Ok(())
        },
        Err(_) => Ok(()),
    }
}

/// The binding to try after the configured menu binding failed to register:
/// the default, unless the configured one already names it.
pub fn hotkey_fallback(configured: &str) -> (r: Option<&'static str>)
    ensures
        r == if parsed_hotkey(configured@) is Some && parsed_hotkey(configured@) == parsed_hotkey(
            DEFAULT_HOTKEY@,
        ) {
            None
        } else {
            Some(DEFAULT_HOTKEY)
        },
{
    if uses_default_hotkey(configured) {
        None
    } else {
        Some(DEFAULT_HOTKEY)
    }
}

/// The overlay a hotkey event opens: only presses of a registered hotkey count.
pub open spec fn event_action(event_id: u32, pressed: bool, menu_id: u32, convert_id: Option<u32>) -> Option<HotkeyAction> {
    if !pressed {
        None
    } else if event_id == menu_id {
        Some(HotkeyAction::OpenMenu)
    } else if convert_id == Some(event_id) {
        Some(HotkeyAction::OpenConvert)
    } else {
        None
    }
}

/// Maps a hotkey event (its hotkey id and whether it is a press) onto the
/// action it triggers.
pub fn action_for_event(event_id: u32, pressed: bool, menu_id: u32, convert_id: Option<u32>) -> (r: Option<HotkeyAction>)
    ensures
        r == event_action(event_id, pressed, menu_id, convert_id),
{
    if !pressed {
        return None;
    }
    if event_id == menu_id {
        return Some(HotkeyAction::OpenMenu);
    }
    match convert_id {
        Some(id) => if id == event_id {
            Some(HotkeyAction::OpenConvert)
        } else {
            None
        },
        None => None,
    }
}

/// What registering the two shortcuts amounts to. A refused menu shortcut
/// is fatal: no listener, and its error (the Convert shortcut is then not
/// tried, so `convert` is not looked at). A refused Convert shortcut is not:
/// the menu shortcut still works, no Convert id is listened for, and the
/// Convert error is kept as the reason direct Convert access is unavailable.
/// On success: the Convert id to listen for, if any, and that reason, if any.
pub fn registration_outcome(
    menu: Result<(), String>,
    convert: Result<(), String>,
    convert_id: u32,
) -> (r: Result<(Option<u32>, Option<String>), String>)
    ensures
        match menu {
            Err(e) => r == Err::<(Option<u32>, Option<String>), String>(e),
            Ok(()) => match convert {
                Ok(()) => r == Ok::<(Option<u32>, Option<String>), String>((Some(convert_id), None)),
                Err(c) => r == Ok::<(Option<u32>, Option<String>), String>((None, Some(c))),
            },
        },
{
    match menu {
        Err(e) => Err(e),
        Ok(()) => match convert {
            Ok(()) => Ok((Some(convert_id), None)),
            Err(c) => Ok((None, Some(c))),
        },
    }
}

/// Only presses of a registered hotkey open anything: a release never does;
/// a press of the menu hotkey opens the menu; a press of the registered
/// Convert hotkey (when it is not the menu one) opens the Convert ring; any
/// other press does nothing.
pub proof fn law_only_presses_of_registered_hotkeys_act(
    event_id: u32,
    pressed: bool,
    menu_id: u32,
    convert_id: Option<u32>,
)
    ensures
        !pressed ==> event_action(event_id, pressed, menu_id, convert_id) is None,
        pressed && event_id == menu_id ==> event_action(event_id, pressed, menu_id, convert_id)
            == Some(HotkeyAction::OpenMenu),
        pressed && event_id != menu_id && convert_id == Some(event_id) ==> event_action(
            event_id,
            pressed,
            menu_id,
            convert_id,
        ) == Some(HotkeyAction::OpenConvert),
        event_id != menu_id && convert_id != Some(event_id) ==> event_action(
            event_id,
            pressed,
            menu_id,
            convert_id,
        ) is None,
{
}

} // verus!
