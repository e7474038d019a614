use std::path::Path;
use zest::file_kind::FileKind;
use zest::menu::{
    archive_targets, categories_for_selection, convert_menu_for_selection, convert_targets,
    menu_for_selection, ActionCategory, MenuAction,
};
use zest::selection::Selection;

fn sel(names: &[&str]) -> Selection {
    Selection::new(names.iter().map(|name| name.to_string()).collect())
}

fn dirs(selection: &Selection) -> Vec<bool> {
    selection.files.iter().map(|file| Path::new(file).is_dir()).collect()
}

/// A target the engine always rejects must not reach the ring: offering a
/// leaf that cannot work is worse than not offering it.
#[test]
fn the_convert_ring_offers_no_dead_targets() {
    let targets = convert_targets(FileKind::Image);
    for dead in ["heic", "pdf", "svg"] {
        assert!(
            !targets.contains(&dead),
            "{dead} cannot be produced yet but is offered in ring 2"
        );
    }
}

#[test]
fn the_convert_ring_still_offers_the_real_raster_targets() {
    let targets = convert_targets(FileKind::Image);
    for live in ["png", "jpg", "webp", "bmp", "gif", "tiff", "ico"] {
        assert!(targets.contains(&live), "{live} should be offered");
    }
}

#[test]
fn png_gets_convert_and_archive() {
    let s = sel(&["photo.png"]);
    assert_eq!(
        categories_for_selection(&s, &dirs(&s)),
        vec![ActionCategory::Convert, ActionCategory::Archive]
    );
}

#[test]
fn zip_gets_extract_only() {
    let s = sel(&["a.zip"]);
    assert_eq!(
        categories_for_selection(&s, &dirs(&s)),
        vec![ActionCategory::Extract]
    );
}

#[test]
fn mixed_gets_archive_only() {
    let s = sel(&["a.png", "b.mp3"]);
    assert_eq!(
        categories_for_selection(&s, &dirs(&s)),
        vec![ActionCategory::Archive]
    );
}

#[test]
fn convert_category_fans_out_to_targets() {
    let s = sel(&["photo.png"]);
    let menu = menu_for_selection(&s, &dirs(&s));
    let convert = &menu[0];
    assert_eq!(convert.label, "Convert");
    assert_eq!(convert.action, None);
    assert_eq!(
        convert.children.first().map(|c| c.action.clone()),
        Some(Some(MenuAction::Convert {
            ext: "png".to_string()
        }))
    );
    assert!(convert.children.iter().all(|c| c.children.is_empty()));
}

#[test]
fn archive_category_fans_out_to_archive_formats() {
    let s = sel(&["a.png", "b.mp3"]);
    let menu = menu_for_selection(&s, &dirs(&s));
    assert_eq!(menu.len(), 1);
    let archive = &menu[0];
    assert_eq!(archive.label, "Archive");
    assert_eq!(
        archive.children.last().and_then(|c| c.action.clone()),
        Some(MenuAction::Archive {
            ext: "gzip".to_string()
        })
    );
}

#[test]
fn extract_category_offers_here() {
    let s = sel(&["bundle.zip"]);
    let menu = menu_for_selection(&s, &dirs(&s));
    assert_eq!(menu.len(), 1);
    assert_eq!(menu[0].label, "Extract");
    assert_eq!(menu[0].children.len(), 1);
    assert_eq!(menu[0].children[0].action, Some(MenuAction::Extract));
}

#[test]
fn empty_selection_has_no_menu() {
    assert!(menu_for_selection(&Selection::default(), &[]).is_empty());
    assert!(convert_menu_for_selection(&Selection::default(), &[]).is_empty());
}

#[test]
fn convert_menu_is_the_bare_ring_two() {
    let s = sel(&["photo.png"]);
    let menu = convert_menu_for_selection(&s, &dirs(&s));
    assert!(menu.iter().all(|node| node.action.is_some()));
    assert_eq!(
        menu.first().and_then(|node| node.action.clone()),
        Some(MenuAction::Convert {
            ext: "png".to_string()
        })
    );
}

#[test]
fn several_archives_offer_extract_and_archive() {
    let s = sel(&["a.zip", "b.TGZ"]);
    assert_eq!(
        categories_for_selection(&s, &[false, false]),
        vec![ActionCategory::Extract, ActionCategory::Archive]
    );
}

#[test]
fn folders_and_unknown_files_offer_archive_only() {
    let s = sel(&["C:/Users/me/Documents"]);
    assert_eq!(
        categories_for_selection(&s, &[true]),
        vec![ActionCategory::Archive]
    );
    let s = sel(&["notes", "other"]);
    assert_eq!(
        categories_for_selection(&s, &[false, false]),
        vec![ActionCategory::Archive]
    );
    assert!(categories_for_selection(&Selection::default(), &[]).is_empty());
}

#[test]
fn a_uniform_audio_selection_converts_to_audio_targets() {
    let s = sel(&["a.mp3", "b.WAV"]);
    let menu = menu_for_selection(&s, &[false, false]);
    assert_eq!(menu.len(), 2);
    assert_eq!(menu[0].label, "Convert");
    let labels: Vec<&str> = menu[0].children.iter().map(|c| c.label.as_str()).collect();
    assert_eq!(labels, vec!["mp3", "wav", "flac", "aac", "ogg", "m4a", "opus"]);
    assert_eq!(menu[1].label, "Archive");
    let labels: Vec<&str> = menu[1].children.iter().map(|c| c.label.as_str()).collect();
    assert_eq!(labels, archive_targets().to_vec());
    assert!(menu.iter().all(|node| node.action.is_none()));
}

#[test]
fn kinds_without_convert_targets_get_an_empty_ring_two() {
    assert!(convert_targets(FileKind::Other).is_empty());
    assert!(convert_targets(FileKind::Folder).is_empty());
    assert!(convert_targets(FileKind::Archive).is_empty());
    let s = sel(&["setup.exe"]);
    assert!(convert_menu_for_selection(&s, &[false]).is_empty());
}

#[test]
fn images_the_engine_cannot_read_are_only_archived() {
    for name in ["photo.heic", "logo.SVG"] {
        let s = sel(&[name]);
        assert_eq!(
            categories_for_selection(&s, &[false]),
            vec![ActionCategory::Archive],
            "{name}"
        );
        assert!(convert_menu_for_selection(&s, &[false]).is_empty(), "{name}");
    }
    let s = sel(&["a.png", "b.heic"]);
    assert_eq!(
        categories_for_selection(&s, &[false, false]),
        vec![ActionCategory::Archive]
    );
    let s = sel(&["a.png", "b.JPEG", "c.tif"]);
    assert_eq!(
        categories_for_selection(&s, &[false, false, false]),
        vec![ActionCategory::Convert, ActionCategory::Archive]
    );
}

#[test]
fn every_documented_archive_extracts_on_its_own() {
    for name in ["a.zip", "a.tar", "a.tar.gz", "a.tgz", "a.gzip"] {
        let s = sel(&[name]);
        assert_eq!(
            categories_for_selection(&s, &[false]),
            vec![ActionCategory::Extract],
            "{name}"
        );
    }
}

#[test]
fn convert_targets_are_distinct_plain_extensions() {
    for kind in [
        zest::file_kind::FileKind::Image,
        zest::file_kind::FileKind::Video,
        zest::file_kind::FileKind::Audio,
        zest::file_kind::FileKind::TextData,
    ] {
        let targets = zest::menu::convert_targets(kind);
        assert!(!targets.is_empty());
        for (i, t) in targets.iter().enumerate() {
            assert!(!t.is_empty() && !t.starts_with('.'));
            assert_eq!(t.to_ascii_lowercase(), *t);
            assert!(!targets[i + 1..].contains(t), "{t} offered twice");
        }
    }
    for kind in [
        zest::file_kind::FileKind::Archive,
        zest::file_kind::FileKind::Folder,
        zest::file_kind::FileKind::Other,
    ] {
        assert!(zest::menu::convert_targets(kind).is_empty());
    }
}
