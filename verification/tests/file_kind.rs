use zest::file_kind::{classify_path, should_warn_lossy, FileKind};

#[test]
fn image_kinds() {
    assert_eq!(FileKind::from_extension("png"), FileKind::Image);
    assert_eq!(FileKind::from_extension("SVG"), FileKind::Image);
    assert_eq!(FileKind::from_extension("HEIC"), FileKind::Image);
}

#[test]
fn lossy_warning() {
    assert!(should_warn_lossy("jpg", "webp", FileKind::Image));
    assert!(!should_warn_lossy("png", "jpg", FileKind::Image));
    assert!(should_warn_lossy("mp3", "ogg", FileKind::Audio));
    assert!(!should_warn_lossy("wav", "mp3", FileKind::Audio));
}

#[test]
fn every_kind_has_a_representative_extension() {
    assert_eq!(FileKind::from_extension("Mp4"), FileKind::Video);
    assert_eq!(FileKind::from_extension("opus"), FileKind::Audio);
    assert_eq!(FileKind::from_extension("YML"), FileKind::TextData);
    assert_eq!(FileKind::from_extension("tgz"), FileKind::Archive);
    assert_eq!(FileKind::from_extension("GZIP"), FileKind::Archive);
    assert_eq!(FileKind::from_extension("exe"), FileKind::Other);
    assert_eq!(FileKind::from_extension(""), FileKind::Other);
}

#[test]
fn extractable_archives_are_exactly_the_archive_kind() {
    for ext in ["zip", "TAR", "tgz", "Gz", "png", "tar.gz", "rar", ""] {
        assert_eq!(
            FileKind::is_extractable_archive(ext),
            FileKind::from_extension(ext) == FileKind::Archive,
            "{ext}"
        );
    }
}

#[test]
fn classify_path_uses_the_extension_unless_a_directory() {
    assert_eq!(classify_path("C:/pics/photo.PNG", false), FileKind::Image);
    assert_eq!(classify_path(r"C:\Users\me\song.mp3", false), FileKind::Audio);
    assert_eq!(classify_path("C:/pics/photo.png", true), FileKind::Folder);
    assert_eq!(classify_path("README", false), FileKind::Other);
    assert_eq!(classify_path(".bashrc", false), FileKind::Other);
    assert_eq!(classify_path("archive.tar.gz", false), FileKind::Archive);
}

#[test]
fn video_reencodes_warn_unless_same_container() {
    assert!(should_warn_lossy("mp4", "webm", FileKind::Video));
    assert!(!should_warn_lossy("MP4", "mp4", FileKind::Video));
    assert!(should_warn_lossy("gif", "gif", FileKind::Video));
    assert!(!should_warn_lossy("jpg", "jpg", FileKind::TextData));
}
