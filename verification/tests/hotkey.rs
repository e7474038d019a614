use zest::hotkey::{
    action_for_event, parse_hotkey, parse_hotkeys, registration_outcome, uses_default_hotkey,
    validate_hotkey,
    HotkeyAction, HotkeyError,
};
use zest::settings::{DEFAULT_CONVERT_HOTKEY, DEFAULT_HOTKEY};

#[test]
fn recognizes_the_default_menu_binding_independent_of_formatting() {
    assert!(uses_default_hotkey(DEFAULT_HOTKEY));
    assert!(uses_default_hotkey(" shift + f "));
    assert!(!uses_default_hotkey("Shift+G"));
    assert!(!uses_default_hotkey("invalid"));
}

#[test]
fn rejects_invalid_hotkey_strings() {
    assert!(parse_hotkey("Shift+").is_err());
}

#[test]
fn rejects_duplicate_menu_and_convert_hotkeys() {
    assert!(parse_hotkeys(DEFAULT_CONVERT_HOTKEY).is_err());
}

#[test]
fn accepts_the_default_hotkey() {
    assert!(validate_hotkey("Shift+F").is_ok());
}

#[test]
fn rejects_invalid_and_reserved_hotkeys() {
    assert!(validate_hotkey("Shift+").is_err());
    assert!(validate_hotkey(DEFAULT_CONVERT_HOTKEY).is_err());
}

#[test]
fn maps_only_pressed_registered_hotkeys() {
    let (menu, convert) = parse_hotkeys(DEFAULT_HOTKEY).unwrap();

    assert_eq!(
        action_for_event(menu, true, menu, Some(convert)),
        Some(HotkeyAction::OpenMenu)
    );
    assert_eq!(
        action_for_event(convert, true, menu, Some(convert)),
        Some(HotkeyAction::OpenConvert)
    );
    assert_eq!(action_for_event(menu, false, menu, Some(convert)), None);
    assert_eq!(action_for_event(convert, true, menu, None), None);
}

#[test]
fn hotkey_errors_name_the_binding() {
    match parse_hotkeys("Shift+") {
        Err(error @ HotkeyError::Invalid(..)) => assert_eq!(
            error.message(),
            "invalid global hotkey: Shift+: Found empty token while parsing hotkey: Shift+"
        ),
        other => panic!("unexpected: {other:?}"),
    }
    match parse_hotkeys("shift+c") {
        Err(error @ HotkeyError::SameAsConvert(_)) => assert_eq!(
            error.message(),
            "menu hotkey and Convert hotkey must be different: shift+c"
        ),
        other => panic!("unexpected: {other:?}"),
    }
    assert_eq!(
        validate_hotkey("nonsense"),
        Err("Enter a valid shortcut, such as Shift+F.")
    );
    assert_eq!(
        validate_hotkey("Shift+C"),
        Err("Shift+C is reserved for opening the Convert ring.")
    );
}

#[test]
fn menu_and_convert_ids_differ_and_match_parsing() {
    let (menu, convert) = parse_hotkeys("Ctrl+Alt+Z").unwrap();
    assert_ne!(menu, convert);
    assert_eq!(parse_hotkey("ctrl+alt+z").unwrap(), menu);
    assert_eq!(parse_hotkey(DEFAULT_CONVERT_HOTKEY).unwrap(), convert);
}

#[test]
fn a_failed_custom_binding_falls_back_to_the_default() {
    assert_eq!(zest::hotkey::hotkey_fallback("Ctrl+Alt+Z"), Some(DEFAULT_HOTKEY));
    assert_eq!(zest::hotkey::hotkey_fallback("garbage"), Some(DEFAULT_HOTKEY));
    assert_eq!(zest::hotkey::hotkey_fallback("shift+F"), None);
}

#[test]
fn parses_record_style_default_hotkey() {
    let id = parse_hotkey(DEFAULT_HOTKEY).unwrap();
    let expected = global_hotkey::hotkey::HotKey::new(
        Some(global_hotkey::hotkey::Modifiers::SHIFT),
        global_hotkey::hotkey::Code::KeyF,
    );
    assert_eq!(id, expected.id());
}

#[test]
fn parses_convert_hotkey() {
    let id = parse_hotkey(DEFAULT_CONVERT_HOTKEY).unwrap();
    let expected = global_hotkey::hotkey::HotKey::new(
        Some(global_hotkey::hotkey::Modifiers::SHIFT),
        global_hotkey::hotkey::Code::KeyC,
    );
    assert_eq!(id, expected.id());
}

#[test]
fn a_refused_convert_shortcut_keeps_the_menu_shortcut() {
    assert_eq!(registration_outcome(Ok(()), Ok(()), 7), Ok((Some(7), None)));
    assert_eq!(
        registration_outcome(Ok(()), Err("in use".to_string()), 7),
        Ok((None, Some("in use".to_string())))
    );
    assert_eq!(
        registration_outcome(Err("taken".to_string()), Ok(()), 7),
        Err("taken".to_string())
    );
    assert_eq!(
        registration_outcome(Err("taken".to_string()), Err("in use".to_string()), 7),
        Err("taken".to_string())
    );
}
