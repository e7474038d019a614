use std::path::{Path, PathBuf};
use std::time::{SystemTime, UNIX_EPOCH};
use zest::naming::{output_path_for, unique_path_in, unique_sibling_path};
use zest::settings::OutputLocation;

fn on_disk(path: &str) -> bool {
    Path::new(path).exists()
}

fn now() -> u64 {
    SystemTime::now()
        .duration_since(UNIX_EPOCH)
        .map(|d| d.as_secs())
        .unwrap_or(0)
}

#[test]
fn keeps_stem_and_ext() {
    let p = unique_sibling_path("C:/pics/photo.png", "jpg", &on_disk, now());
    let p = PathBuf::from(p);
    assert_eq!(p.extension().unwrap(), "jpg");
    assert!(p.to_string_lossy().contains("photo"));
}

#[test]
fn beside_the_original_is_the_default() {
    let original = "C:/pics/photo.png";
    let beside = output_path_for(original, "jpg", &OutputLocation::BesideOriginal, &on_disk, now());
    assert_eq!(Path::new(&beside).parent(), Some(Path::new("C:/pics")));
}

#[test]
fn a_chosen_folder_keeps_the_stem() {
    let original = "C:/pics/photo.png";
    let target = output_path_for(
        original,
        "jpg",
        &OutputLocation::Folder("D:/out".to_string()),
        &on_disk,
        now(),
    );
    let target = PathBuf::from(target);
    assert_eq!(target.parent(), Some(Path::new("D:/out")));
    assert!(
        target.to_string_lossy().contains("photo"),
        "stem was lost: {target:?}"
    );
    assert_eq!(target.extension().unwrap(), "jpg");
}

#[test]
fn ask_each_time_falls_back_to_beside_the_original() {
    // There is no prompt yet, so this must not fail the job or silently send
    // output somewhere the user did not choose.
    let original = "C:/pics/photo.png";
    let asked = output_path_for(original, "jpg", &OutputLocation::AskEachTime, &on_disk, now());
    assert_eq!(asked, unique_sibling_path(original, "jpg", &on_disk, now()));
}

#[test]
fn a_dot_prefixed_extension_is_accepted() {
    let original = "C:/pics/photo.png";
    let p = unique_sibling_path(original, ".jpg", &on_disk, now());
    assert_eq!(Path::new(&p).extension().unwrap(), "jpg");
}

#[test]
fn taken_names_are_numbered_in_order() {
    let taken = ["out/photo.jpg", "out/photo (1).jpg"];
    let probe = |p: &str| taken.contains(&p);
    assert_eq!(unique_path_in("out", "photo", "jpg", &probe, 7), "out/photo (2).jpg");
    assert_eq!(unique_path_in("out/", "photo", "..jpg", &probe, 7), "out/photo (2).jpg");
    assert_eq!(unique_path_in("out", "clip", "mp4", &probe, 7), "out/clip.mp4");
}

#[test]
fn every_name_taken_falls_back_to_the_timestamp() {
    let everything = |_: &str| true;
    assert_eq!(
        unique_path_in("out", "photo", "jpg", &everything, 1717171717),
        "out/photo (1717171717).jpg"
    );
}

#[test]
fn a_path_without_a_directory_or_a_name() {
    let free = |_: &str| false;
    assert_eq!(unique_sibling_path("photo.png", "jpg", &free, 0), "photo.jpg");
    assert_eq!(unique_sibling_path("/", "jpg", &free, 0), "./output.jpg");
    assert_eq!(unique_sibling_path(r"C:\pics\photo.png", "JPG", &free, 0), r"C:\pics\photo.JPG");
}

#[test]
fn windows_directories_are_joined_with_backslashes() {
    let free = |_: &str| false;
    assert_eq!(
        zest::naming::unique_path_in("C:\\pics", "photo", "jpg", &free, 0),
        "C:\\pics\\photo.jpg"
    );
    assert_eq!(
        zest::naming::unique_sibling_path("C:\\pics\\photo.png", "jpg", &free, 0),
        "C:\\pics\\photo.jpg"
    );
    assert_eq!(zest::naming::unique_path_in("/tmp/out", "photo", "jpg", &free, 0), "/tmp/out/photo.jpg");
}
