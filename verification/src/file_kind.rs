//! File-kind detection from extensions.
use vstd::prelude::*;
use crate::text::{lower, lower_chars, one_of, views, chars_of};
use crate::path::{extension, path_extension};

verus! {

/// Broad bucket used for menu filtering. Conversion requires a uniform kind.
#[derive(Debug, Clone, Copy, PartialEq, Eq, Structural, Hash)]
pub enum FileKind {
    Image,
    Video,
    Audio,
    TextData,
    Archive,
    Folder,
    Other,
}

pub open spec fn image_exts() -> Seq<Seq<char>> {
    seq![
        "png"@, "jpg"@, "jpeg"@, "bmp"@, "gif"@, "tiff"@, "tif"@, "webp"@, "heic"@, "heif"@,
        "ico"@, "svg"@,
    ]
}

pub open spec fn video_exts() -> Seq<Seq<char>> {
    seq!["mp4"@, "avi"@, "mkv"@, "mov"@, "wmv"@, "flv"@, "webm"@]
}

pub open spec fn audio_exts() -> Seq<Seq<char>> {
    seq!["mp3"@, "wav"@, "flac"@, "aac"@, "ogg"@, "wma"@, "m4a"@, "opus"@]
}

pub open spec fn text_exts() -> Seq<Seq<char>> {
    seq!["txt"@, "csv"@, "json"@, "xml"@, "yaml"@, "yml"@, "toml"@, "md"@, "pdf"@]
}

pub open spec fn archive_exts() -> Seq<Seq<char>> {
    seq!["zip"@, "tar"@, "tgz"@, "gz"@, "gzip"@]
}

/// Image formats the image engine can read. HEIC needs HEVC decoding and SVG
/// needs a vector renderer, neither of which exists yet.
pub open spec fn image_input_exts() -> Seq<Seq<char>> {
    seq!["png"@, "jpg"@, "jpeg"@, "bmp"@, "gif"@, "tiff"@, "tif"@, "webp"@, "ico"@]
}

/// Whether a file of this path can be offered for conversion: an image must
/// be in a format the image engine reads; every other kind can.
pub open spec fn convertible_input(path: Seq<char>, is_dir: bool) -> bool {
    kind_of_path(path, is_dir) != FileKind::Image || match extension(path) {
        Some(e) => image_input_exts().contains(lower(e)),
        None => false,
    }
}

/// Lossy image formats, for the lossy-to-lossy warning.
pub open spec fn lossy_image_exts() -> Seq<Seq<char>> {
    seq!["jpg"@, "jpeg"@, "webp"@, "heic"@, "heif"@]
}

/// Lossy audio formats, for the lossy-to-lossy warning.
pub open spec fn lossy_audio_exts() -> Seq<Seq<char>> {
    seq!["mp3"@, "aac"@, "ogg"@, "opus"@, "wma"@, "m4a"@]
}

/// The kind of an already lowercased extension. The lists are disjoint, so
/// the order in which they are consulted does not matter.
pub open spec fn kind_of_lower_ext(e: Seq<char>) -> FileKind {
    if archive_exts().contains(e) {
        FileKind::Archive
    } else if image_exts().contains(e) {
        FileKind::Image
    } else if video_exts().contains(e) {
        FileKind::Video
    } else if audio_exts().contains(e) {
        FileKind::Audio
    } else if text_exts().contains(e) {
        FileKind::TextData
    } else {
        FileKind::Other
    }
}

/// The kind of an extension (no dot), whatever its ASCII case.
pub open spec fn kind_of_ext(ext: Seq<char>) -> FileKind {
    kind_of_lower_ext(lower(ext))
}

/// Whether an extension (no dot), whatever its ASCII case, is one we extract.
pub open spec fn is_archive_ext(ext: Seq<char>) -> bool {
    archive_exts().contains(lower(ext))
}

/// The kind of a path: a directory is a folder, anything else goes by its
/// extension, and no extension means `Other`.
pub open spec fn kind_of_path(path: Seq<char>, is_dir: bool) -> FileKind {
    if is_dir {
        FileKind::Folder
    } else {
        match extension(path) {
            Some(e) => kind_of_ext(e),
            None => FileKind::Other,
        }
    }
}

/// When re-encoding `input_ext` as `output_ext` degrades quality.
pub open spec fn lossy_to_lossy(input_ext: Seq<char>, output_ext: Seq<char>, kind: FileKind) -> bool {
    let i = lower(input_ext);
    let o = lower(output_ext);
    match kind {
        FileKind::Image => lossy_image_exts().contains(i) && lossy_image_exts().contains(o),
        FileKind::Audio => lossy_audio_exts().contains(i) && lossy_audio_exts().contains(o),
        FileKind::Video => i != o || o == "gif"@,
        _ => false,
    }
}

fn image_ext_list() -> (r: &'static [&'static str])
    ensures
        views(r@) == image_exts(),
{
    let r: &'static [&'static str] = &[
        "png",
        "jpg",
        "jpeg",
        "bmp",
        "gif",
        "tiff",
        "tif",
        "webp",
        "heic",
        "heif",
        "ico",
        "svg",
    ];
    assert(views(r@) =~= image_exts());
    r
}

fn video_ext_list() -> (r: &'static [&'static str])
    ensures
        views(r@) == video_exts(),
{
    let r: &'static [&'static str] = &["mp4", "avi", "mkv", "mov", "wmv", "flv", "webm"];
    assert(views(r@) =~= video_exts());
    r
}

fn audio_ext_list() -> (r: &'static [&'static str])
    ensures
        views(r@) == audio_exts(),
{
    let r: &'static [&'static str] = &["mp3", "wav", "flac", "aac", "ogg", "wma", "m4a", "opus"];
    assert(views(r@) =~= audio_exts());
    r
}

fn text_ext_list() -> (r: &'static [&'static str])
    ensures
        views(r@) == text_exts(),
{
    let r: &'static [&'static str] = &[
        "txt",
        "csv",
        "json",
        "xml",
        "yaml",
        "yml",
        "toml",
        "md",
        "pdf",
    ];
    assert(views(r@) =~= text_exts());
    r
}

fn archive_ext_list() -> (r: &'static [&'static str])
    ensures
        views(r@) == archive_exts(),
{
    let r: &'static [&'static str] = &["zip", "tar", "tgz", "gz", "gzip"];
    assert(views(r@) =~= archive_exts());
    r
}

fn image_input_list() -> (r: &'static [&'static str])
    ensures
        views(r@) == image_input_exts(),
{
    let r: &'static [&'static str] = &["png", "jpg", "jpeg", "bmp", "gif", "tiff", "tif", "webp", "ico"];
    assert(views(r@) =~= image_input_exts());
    r
}

/// Whether `path` can be offered for conversion (see `convertible_input`).
pub fn is_convertible_input(path: &str, is_dir: bool) -> (r: bool)
    ensures
        r == convertible_input(path@, is_dir),
{
    if classify_path(path, is_dir) != FileKind::Image {
        return true;
    }
    let p = chars_of(path);
    match path_extension(&p) {
        Some(e) => {
            let s = crate::text::string_of(&e);
            let lowered = lower_chars(s.as_str());
            one_of(&lowered, image_input_list())
        },
        None => false,
    }
}

fn lossy_image_list() -> (r: &'static [&'static str])
    ensures
        views(r@) == lossy_image_exts(),
{
    let r: &'static [&'static str] = &["jpg", "jpeg", "webp", "heic", "heif"];
    assert(views(r@) =~= lossy_image_exts());
    r
}

fn lossy_audio_list() -> (r: &'static [&'static str])
    ensures
        views(r@) == lossy_audio_exts(),
{
    let r: &'static [&'static str] = &["mp3", "aac", "ogg", "opus", "wma", "m4a"];
    assert(views(r@) =~= lossy_audio_exts());
    r
}

/// The kind of an already lowercased extension.
fn kind_of_lowered(e: &Vec<char>) -> (r: FileKind)
    ensures
        r == kind_of_lower_ext(e@),
{
    if one_of(e, archive_ext_list()) {
        FileKind::Archive
    } else if one_of(e, image_ext_list()) {
        FileKind::Image
    } else if one_of(e, video_ext_list()) {
        FileKind::Video
    } else if one_of(e, audio_ext_list()) {
        FileKind::Audio
    } else if one_of(e, text_ext_list()) {
        FileKind::TextData
    } else {
        FileKind::Other
    }
}

impl FileKind {
    /// Classify by extension (no dot), in any ASCII case; unknown is `Other`.
    /// Folders are detected by the caller (see `classify_path`).
    pub fn from_extension(ext: &str) -> (r: Self)
        ensures
            r == kind_of_ext(ext@),
    {
        let e = lower_chars(ext);
        kind_of_lowered(&e)
    }

    /// True for extensions we know how to extract.
    pub fn is_extractable_archive(ext: &str) -> (r: bool)
        ensures
            r == is_archive_ext(ext@),
    {
        let e = lower_chars(ext);
        one_of(&e, archive_ext_list())
    }
}

/// The kind of an extension given as characters.
pub fn kind_of_ext_chars(e: &Vec<char>) -> (r: FileKind)
    ensures
        r == kind_of_ext(e@),
{
    let mut lowered: Vec<char> = Vec::new();
    let mut i: usize = 0;
    while i < e.len()
        invariant
            i <= e@.len(),
            lowered@ == lower(e@).subrange(0, i as int),
        decreases e@.len() - i,
    {
        lowered.push(crate::text::ascii_lower_char(e[i]));
        i = i + 1;
    }
    assert(lowered@ =~= lower(e@));
    kind_of_lowered(&lowered)
}

/// Classify a path; `is_dir` says whether it names an existing directory.
pub fn classify_path(path: &str, is_dir: bool) -> (r: FileKind)
    ensures
        r == kind_of_path(path@, is_dir),
{
    if is_dir {
        return FileKind::Folder;
    }
    let p = chars_of(path);
    match path_extension(&p) {
        Some(e) => kind_of_ext_chars(&e),
        None => FileKind::Other,
    }
}

/// Lossy-to-lossy warning predicate: true when re-encoding would degrade
/// quality.
pub fn should_warn_lossy(input_ext: &str, output_ext: &str, kind: FileKind) -> (r: bool)
    ensures
        r == lossy_to_lossy(input_ext@, output_ext@, kind),
{
    let i = lower_chars(input_ext);
    let o = lower_chars(output_ext);
    match kind {
        FileKind::Image => one_of(&i, lossy_image_list()) && one_of(&o, lossy_image_list()),
        FileKind::Audio => one_of(&i, lossy_audio_list()) && one_of(&o, lossy_audio_list()),
        FileKind::Video => {
            let same = crate::text::eq_chars(&i, &o);
            !same || crate::text::eq_str(&o, "gif")
        },
        _ => false,
    }
}

/// An extension is extractable exactly when it classifies as an archive.
pub proof fn law_extractable_iff_archive(ext: Seq<char>)
    ensures
        is_archive_ext(ext) <==> kind_of_ext(ext) == FileKind::Archive,
{
}

/// Classification ignores ASCII case.
pub proof fn law_kind_ignores_case(a: Seq<char>, b: Seq<char>)
    requires
        lower(a) == lower(b),
    ensures
        kind_of_ext(a) == kind_of_ext(b),
        is_archive_ext(a) == is_archive_ext(b),
{
}

/// Two lists of short extensions share nothing: each pair is told apart by
/// its length or one of its first four characters.
proof fn lemma_disjoint(xs: Seq<Seq<char>>, ys: Seq<Seq<char>>)
    requires
        forall|i: int| 0 <= i < xs.len() ==> 2 <= #[trigger] xs[i].len() <= 4,
        forall|i: int, j: int| 0 <= i < xs.len() && 0 <= j < ys.len() ==> {
            let a = #[trigger] xs[i];
            let b = #[trigger] ys[j];
            ||| a.len() != b.len()
            ||| a[0] != b[0]
            ||| a[1] != b[1]
            ||| (a.len() > 2 && a[2] != b[2])
            ||| (a.len() > 3 && a[3] != b[3])
        },
    ensures
        forall|x: Seq<char>| xs.contains(x) ==> !ys.contains(x),
{
    assert forall|x: Seq<char>| xs.contains(x) implies !ys.contains(x) by {
        let i = choose|i: int| 0 <= i < xs.len() && xs[i] == x;
        if ys.contains(x) {
            let j = choose|j: int| 0 <= j < ys.len() && ys[j] == x;
            assert(xs[i] == ys[j]);
        }
    }
}

/// The documented extension lists of the different kinds share nothing.
proof fn lemma_kind_lists_disjoint()
    ensures
        forall|x: Seq<char>| seq!["png"@, "jpg"@, "jpeg"@, "bmp"@, "gif"@, "tiff"@, "tif"@, "webp"@, "heic"@, "heif"@, "ico"@, "svg"@].contains(x) ==> !seq!["zip"@, "tar"@, "tgz"@, "gz"@, "gzip"@].contains(x),
        forall|x: Seq<char>| seq!["mp4"@, "avi"@, "mkv"@, "mov"@, "wmv"@, "flv"@, "webm"@].contains(x) ==> !seq!["zip"@, "tar"@, "tgz"@, "gz"@, "gzip"@].contains(x),
        forall|x: Seq<char>| seq!["mp3"@, "wav"@, "flac"@, "aac"@, "ogg"@, "wma"@, "m4a"@, "opus"@].contains(x) ==> !seq!["zip"@, "tar"@, "tgz"@, "gz"@, "gzip"@].contains(x),
        forall|x: Seq<char>| seq!["txt"@, "csv"@, "json"@, "xml"@, "yaml"@, "yml"@, "toml"@, "md"@, "pdf"@].contains(x) ==> !seq!["zip"@, "tar"@, "tgz"@, "gz"@, "gzip"@].contains(x),
        forall|x: Seq<char>| seq!["mp4"@, "avi"@, "mkv"@, "mov"@, "wmv"@, "flv"@, "webm"@].contains(x) ==> !seq!["png"@, "jpg"@, "jpeg"@, "bmp"@, "gif"@, "tiff"@, "tif"@, "webp"@, "heic"@, "heif"@, "ico"@, "svg"@].contains(x),
        forall|x: Seq<char>| seq!["mp3"@, "wav"@, "flac"@, "aac"@, "ogg"@, "wma"@, "m4a"@, "opus"@].contains(x) ==> !seq!["png"@, "jpg"@, "jpeg"@, "bmp"@, "gif"@, "tiff"@, "tif"@, "webp"@, "heic"@, "heif"@, "ico"@, "svg"@].contains(x),
        forall|x: Seq<char>| seq!["txt"@, "csv"@, "json"@, "xml"@, "yaml"@, "yml"@, "toml"@, "md"@, "pdf"@].contains(x) ==> !seq!["png"@, "jpg"@, "jpeg"@, "bmp"@, "gif"@, "tiff"@, "tif"@, "webp"@, "heic"@, "heif"@, "ico"@, "svg"@].contains(x),
        forall|x: Seq<char>| seq!["mp3"@, "wav"@, "flac"@, "aac"@, "ogg"@, "wma"@, "m4a"@, "opus"@].contains(x) ==> !seq!["mp4"@, "avi"@, "mkv"@, "mov"@, "wmv"@, "flv"@, "webm"@].contains(x),
        forall|x: Seq<char>| seq!["txt"@, "csv"@, "json"@, "xml"@, "yaml"@, "yml"@, "toml"@, "md"@, "pdf"@].contains(x) ==> !seq!["mp4"@, "avi"@, "mkv"@, "mov"@, "wmv"@, "flv"@, "webm"@].contains(x),
        forall|x: Seq<char>| seq!["txt"@, "csv"@, "json"@, "xml"@, "yaml"@, "yml"@, "toml"@, "md"@, "pdf"@].contains(x) ==> !seq!["mp3"@, "wav"@, "flac"@, "aac"@, "ogg"@, "wma"@, "m4a"@, "opus"@].contains(x),
{
    reveal_strlit("aac");
    reveal_strlit("avi");
    reveal_strlit("bmp");
    reveal_strlit("csv");
    reveal_strlit("flac");
    reveal_strlit("flv");
    reveal_strlit("gif");
    reveal_strlit("gz");
    reveal_strlit("gzip");
    reveal_strlit("heic");
    reveal_strlit("heif");
    reveal_strlit("ico");
    reveal_strlit("jpeg");
    reveal_strlit("jpg");
    reveal_strlit("json");
    reveal_strlit("m4a");
    reveal_strlit("md");
    reveal_strlit("mkv");
    reveal_strlit("mov");
    reveal_strlit("mp3");
    reveal_strlit("mp4");
    reveal_strlit("ogg");
    reveal_strlit("opus");
    reveal_strlit("pdf");
    reveal_strlit("png");
    reveal_strlit("svg");
    reveal_strlit("tar");
    reveal_strlit("tgz");
    reveal_strlit("tif");
    reveal_strlit("tiff");
    reveal_strlit("toml");
    reveal_strlit("txt");
    reveal_strlit("wav");
    reveal_strlit("webm");
    reveal_strlit("webp");
    reveal_strlit("wma");
    reveal_strlit("wmv");
    reveal_strlit("xml");
    reveal_strlit("yaml");
    reveal_strlit("yml");
    reveal_strlit("zip");
    assert(seq!["zip"@, "tar"@, "tgz"@, "gz"@, "gzip"@] =~~= seq![seq!['z', 'i', 'p'], seq!['t', 'a', 'r'], seq!['t', 'g', 'z'], seq!['g', 'z'], seq!['g', 'z', 'i', 'p']]);
    assert(seq!["png"@, "jpg"@, "jpeg"@, "bmp"@, "gif"@, "tiff"@, "tif"@, "webp"@, "heic"@, "heif"@, "ico"@, "svg"@] =~~= seq![seq!['p', 'n', 'g'], seq!['j', 'p', 'g'], seq!['j', 'p', 'e', 'g'], seq!['b', 'm', 'p'], seq!['g', 'i', 'f'], seq!['t', 'i', 'f', 'f'], seq!['t', 'i', 'f'], seq!['w', 'e', 'b', 'p'], seq!['h', 'e', 'i', 'c'], seq!['h', 'e', 'i', 'f'], seq!['i', 'c', 'o'], seq!['s', 'v', 'g']]);
    assert(seq!["mp4"@, "avi"@, "mkv"@, "mov"@, "wmv"@, "flv"@, "webm"@] =~~= seq![seq!['m', 'p', '4'], seq!['a', 'v', 'i'], seq!['m', 'k', 'v'], seq!['m', 'o', 'v'], seq!['w', 'm', 'v'], seq!['f', 'l', 'v'], seq!['w', 'e', 'b', 'm']]);
    assert(seq!["mp3"@, "wav"@, "flac"@, "aac"@, "ogg"@, "wma"@, "m4a"@, "opus"@] =~~= seq![seq!['m', 'p', '3'], seq!['w', 'a', 'v'], seq!['f', 'l', 'a', 'c'], seq!['a', 'a', 'c'], seq!['o', 'g', 'g'], seq!['w', 'm', 'a'], seq!['m', '4', 'a'], seq!['o', 'p', 'u', 's']]);
    assert(seq!["txt"@, "csv"@, "json"@, "xml"@, "yaml"@, "yml"@, "toml"@, "md"@, "pdf"@] =~~= seq![seq!['t', 'x', 't'], seq!['c', 's', 'v'], seq!['j', 's', 'o', 'n'], seq!['x', 'm', 'l'], seq!['y', 'a', 'm', 'l'], seq!['y', 'm', 'l'], seq!['t', 'o', 'm', 'l'], seq!['m', 'd'], seq!['p', 'd', 'f']]);
    lemma_disjoint(seq!["png"@, "jpg"@, "jpeg"@, "bmp"@, "gif"@, "tiff"@, "tif"@, "webp"@, "heic"@, "heif"@, "ico"@, "svg"@], seq!["zip"@, "tar"@, "tgz"@, "gz"@, "gzip"@]);
    lemma_disjoint(seq!["mp4"@, "avi"@, "mkv"@, "mov"@, "wmv"@, "flv"@, "webm"@], seq!["zip"@, "tar"@, "tgz"@, "gz"@, "gzip"@]);
    lemma_disjoint(seq!["mp3"@, "wav"@, "flac"@, "aac"@, "ogg"@, "wma"@, "m4a"@, "opus"@], seq!["zip"@, "tar"@, "tgz"@, "gz"@, "gzip"@]);
    lemma_disjoint(seq!["txt"@, "csv"@, "json"@, "xml"@, "yaml"@, "yml"@, "toml"@, "md"@, "pdf"@], seq!["zip"@, "tar"@, "tgz"@, "gz"@, "gzip"@]);
    lemma_disjoint(seq!["mp4"@, "avi"@, "mkv"@, "mov"@, "wmv"@, "flv"@, "webm"@], seq!["png"@, "jpg"@, "jpeg"@, "bmp"@, "gif"@, "tiff"@, "tif"@, "webp"@, "heic"@, "heif"@, "ico"@, "svg"@]);
    lemma_disjoint(seq!["mp3"@, "wav"@, "flac"@, "aac"@, "ogg"@, "wma"@, "m4a"@, "opus"@], seq!["png"@, "jpg"@, "jpeg"@, "bmp"@, "gif"@, "tiff"@, "tif"@, "webp"@, "heic"@, "heif"@, "ico"@, "svg"@]);
    lemma_disjoint(seq!["txt"@, "csv"@, "json"@, "xml"@, "yaml"@, "yml"@, "toml"@, "md"@, "pdf"@], seq!["png"@, "jpg"@, "jpeg"@, "bmp"@, "gif"@, "tiff"@, "tif"@, "webp"@, "heic"@, "heif"@, "ico"@, "svg"@]);
    lemma_disjoint(seq!["mp3"@, "wav"@, "flac"@, "aac"@, "ogg"@, "wma"@, "m4a"@, "opus"@], seq!["mp4"@, "avi"@, "mkv"@, "mov"@, "wmv"@, "flv"@, "webm"@]);
    lemma_disjoint(seq!["txt"@, "csv"@, "json"@, "xml"@, "yaml"@, "yml"@, "toml"@, "md"@, "pdf"@], seq!["mp4"@, "avi"@, "mkv"@, "mov"@, "wmv"@, "flv"@, "webm"@]);
    lemma_disjoint(seq!["txt"@, "csv"@, "json"@, "xml"@, "yaml"@, "yml"@, "toml"@, "md"@, "pdf"@], seq!["mp3"@, "wav"@, "flac"@, "aac"@, "ogg"@, "wma"@, "m4a"@, "opus"@]);
}

/// Every documented archive extension, in any ASCII case, is classified as
/// Archive.
pub proof fn law_archive_extensions_are_archive(ext: Seq<char>)
    requires
        seq!["zip"@, "tar"@, "tgz"@, "gz"@, "gzip"@].contains(lower(ext)),
    ensures
        kind_of_ext(ext) == FileKind::Archive,
        is_archive_ext(ext) == true,
{
    lemma_kind_lists_disjoint();
}

/// Every documented image extension, in any ASCII case, is classified as
/// Image.
pub proof fn law_image_extensions_are_image(ext: Seq<char>)
    requires
        seq!["png"@, "jpg"@, "jpeg"@, "bmp"@, "gif"@, "tiff"@, "tif"@, "webp"@, "heic"@, "heif"@, "ico"@, "svg"@].contains(lower(ext)),
    ensures
        kind_of_ext(ext) == FileKind::Image,
        is_archive_ext(ext) == false,
{
    lemma_kind_lists_disjoint();
}

/// Every documented video extension, in any ASCII case, is classified as
/// Video.
pub proof fn law_video_extensions_are_video(ext: Seq<char>)
    requires
        seq!["mp4"@, "avi"@, "mkv"@, "mov"@, "wmv"@, "flv"@, "webm"@].contains(lower(ext)),
    ensures
        kind_of_ext(ext) == FileKind::Video,
        is_archive_ext(ext) == false,
{
    lemma_kind_lists_disjoint();
}

/// Every documented audio extension, in any ASCII case, is classified as
/// Audio.
pub proof fn law_audio_extensions_are_audio(ext: Seq<char>)
    requires
        seq!["mp3"@, "wav"@, "flac"@, "aac"@, "ogg"@, "wma"@, "m4a"@, "opus"@].contains(lower(ext)),
    ensures
        kind_of_ext(ext) == FileKind::Audio,
        is_archive_ext(ext) == false,
{
    lemma_kind_lists_disjoint();
}

/// Every documented text and data extension, in any ASCII case, is classified as
/// TextData.
pub proof fn law_text_extensions_are_text_data(ext: Seq<char>)
    requires
        seq!["txt"@, "csv"@, "json"@, "xml"@, "yaml"@, "yml"@, "toml"@, "md"@, "pdf"@].contains(lower(ext)),
    ensures
        kind_of_ext(ext) == FileKind::TextData,
        is_archive_ext(ext) == false,
{
    lemma_kind_lists_disjoint();
}

/// An extension outside every documented list is classified as Other.
pub proof fn law_other_extensions_are_other(ext: Seq<char>)
    requires
        !seq!["zip"@, "tar"@, "tgz"@, "gz"@, "gzip"@].contains(lower(ext)),
        !seq!["png"@, "jpg"@, "jpeg"@, "bmp"@, "gif"@, "tiff"@, "tif"@, "webp"@, "heic"@, "heif"@, "ico"@, "svg"@].contains(lower(ext)),
        !seq!["mp4"@, "avi"@, "mkv"@, "mov"@, "wmv"@, "flv"@, "webm"@].contains(lower(ext)),
        !seq!["mp3"@, "wav"@, "flac"@, "aac"@, "ogg"@, "wma"@, "m4a"@, "opus"@].contains(lower(ext)),
        !seq!["txt"@, "csv"@, "json"@, "xml"@, "yaml"@, "yml"@, "toml"@, "md"@, "pdf"@].contains(lower(ext)),
    ensures
        kind_of_ext(ext) == FileKind::Other,
{
}

/// Re-encoding between two lossy image formats (JPEG, WebP, HEIC/HEIF), in
/// any ASCII case, warns; an image with a lossless side does not.
pub proof fn law_lossy_images_warn(input_ext: Seq<char>, output_ext: Seq<char>)
    ensures
        lossy_to_lossy(input_ext, output_ext, FileKind::Image) <==> (seq![
            "jpg"@, "jpeg"@, "webp"@, "heic"@, "heif"@,
        ].contains(lower(input_ext)) && seq!["jpg"@, "jpeg"@, "webp"@, "heic"@, "heif"@].contains(
            lower(output_ext),
        )),
{
}

/// Re-encoding between two lossy audio formats (MP3, AAC, Ogg, Opus, WMA,
/// M4A), in any ASCII case, warns; audio with a lossless side does not.
pub proof fn law_lossy_audio_warns(input_ext: Seq<char>, output_ext: Seq<char>)
    ensures
        lossy_to_lossy(input_ext, output_ext, FileKind::Audio) <==> (seq![
            "mp3"@, "aac"@, "ogg"@, "opus"@, "wma"@, "m4a"@,
        ].contains(lower(input_ext)) && seq!["mp3"@, "aac"@, "ogg"@, "opus"@, "wma"@, "m4a"@].contains(
            lower(output_ext),
        )),
{
}

/// Video always re-encodes: any change of container warns, and so does
/// producing a GIF; keeping the same container with anything but GIF does
/// not. Other kinds never warn.
pub proof fn law_lossy_video_and_other_kinds(input_ext: Seq<char>, output_ext: Seq<char>, kind: FileKind)
    ensures
        lossy_to_lossy(input_ext, output_ext, FileKind::Video) <==> (lower(input_ext) != lower(
            output_ext,
        ) || lower(output_ext) == "gif"@),
        !(kind is Image || kind is Audio || kind is Video) ==> !lossy_to_lossy(input_ext, output_ext, kind),
{
}

} // verus!
