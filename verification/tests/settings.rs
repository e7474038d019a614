use zest::settings::{
    Gradient, OutputLocation, Settings, Theme, UpdateFrequency, VideoPreset, DEFAULT_HOTKEY,
};

#[test]
fn defaults_match_the_documented_ones() {
    let s = Settings::default();
    assert_eq!(s.hotkey, DEFAULT_HOTKEY);
    assert_eq!(s.hotkey, "Shift+F");
    assert_eq!(s.output, OutputLocation::BesideOriginal);
    assert_eq!(s.jpeg_quality, 90);
    assert_eq!(s.video_preset, VideoPreset::Medium);
    assert_eq!(s.audio_bitrate_kbps, 192);
    assert_eq!(s.theme, Theme::System);
    assert_eq!(s.font_family, "Segoe UI Variable");
    assert_eq!(s.gradient, Gradient(vec!["#ff8a3d".to_string(), "#ff4d6d".to_string()]));
    assert!(!s.launch_at_startup);
    assert_eq!(s.update_frequency, UpdateFrequency::Weekly);
    assert!(s.warn_lossy_to_lossy);
    assert_eq!(Theme::default(), Theme::System);
    assert_eq!(VideoPreset::default(), VideoPreset::Medium);
    assert_eq!(UpdateFrequency::default(), UpdateFrequency::Weekly);
}

#[test]
fn gradients_hold_one_to_three_hex_colors() {
    assert!(Gradient::default().is_valid());
    assert!(Gradient(vec!["#000000".to_string()]).is_valid());
    assert!(!Gradient(vec![]).is_valid());
    assert!(!Gradient(vec!["#000000".to_string(); 4]).is_valid());
    assert!(!Gradient(vec!["000000".to_string()]).is_valid());
    assert!(!Gradient(vec!["#00000".to_string()]).is_valid());
    assert!(!Gradient(vec!["0#00000".to_string()]).is_valid());
    assert!(Gradient(vec!["#A0b1C2".to_string(), "#ffffff".to_string(), "#000000".to_string()]).is_valid());
    // Six hex digits after the `#`, nothing else.
    assert!(!Gradient(vec!["#zzzzzz".to_string()]).is_valid());
    assert!(!Gradient(vec!["#éeeee".to_string()]).is_valid());
    assert!(!Gradient(vec!["#ff8a3g".to_string()]).is_valid());
    assert!(!Gradient(vec!["#ff8a3d0".to_string()]).is_valid());
}

#[test]
fn gradient_editing_stays_between_one_and_three_colors() {
    let mut g = Gradient::default();
    g.add_color();
    assert_eq!(g.0, vec!["#ff8a3d", "#ff4d6d", "#ffffff"]);
    assert!(g.is_valid());
    g.add_color();
    assert_eq!(g.0.len(), 3);
    g.remove_color(0);
    assert_eq!(g.0, vec!["#ff4d6d", "#ffffff"]);
    g.remove_color(1);
    assert_eq!(g.0, vec!["#ff4d6d"]);
    g.remove_color(0);
    assert_eq!(g.0, vec!["#ff4d6d"]);
    assert!(g.is_valid());
}

#[test]
fn settings_live_in_the_zest_data_folder() {
    assert_eq!(
        zest::settings::settings_file_in("/home/me/.local/share"),
        "/home/me/.local/share/Zest/settings.json"
    );
    assert_eq!(
        zest::settings::settings_file_in("C:\\Users\\me\\AppData\\Local"),
        "C:\\Users\\me\\AppData\\Local\\Zest\\settings.json"
    );
    assert_eq!(
        zest::settings::settings_file_in("C:\\Users\\me\\AppData\\Local\\"),
        "C:\\Users\\me\\AppData\\Local\\Zest\\settings.json"
    );
    if let Some(path) = zest::settings::config_path() {
        assert!(path.ends_with("Zest/settings.json"), "{path}");
    }
}
