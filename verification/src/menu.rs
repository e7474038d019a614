//! Two-ring radial menu model.
//!
//! Ring 1: categories filtered by selection.
//! Ring 2: leaf targets after picking a category (or via the Convert hotkey).
use vstd::prelude::*;
use crate::file_kind::{FileKind, kind_of_path, is_archive_ext, classify_path, convertible_input, is_convertible_input};
use crate::path::{extension, path_extension};
use crate::selection::Selection;
use crate::text::{chars_of, views};

verus! {

/// Ring-1 categories.
#[derive(Debug, Clone, Copy, PartialEq, Eq, Structural)]
pub enum ActionCategory {
    Convert,
    Archive,
    Extract,
}

/// The extension of `p` (no dot), or nothing when it has none.
pub open spec fn ext_or_empty(p: Seq<char>) -> Seq<char> {
    match extension(p) {
        Some(e) => e,
        None => Seq::<char>::empty(),
    }
}

/// The kind of every selected path; `dirs[i]` says whether path `i` is a directory.
pub open spec fn kinds_of(paths: Seq<Seq<char>>, dirs: Seq<bool>) -> Seq<FileKind> {
    Seq::new(paths.len(), |i: int| kind_of_path(paths[i], dirs[i]))
}

/// Whether every kind equals the first.
pub open spec fn uniform(kinds: Seq<FileKind>) -> bool {
    forall|i: int| 0 <= i < kinds.len() ==> #[trigger] kinds[i] == kinds[0]
}

/// Every selected file can be offered for conversion.
pub open spec fn all_convertible(paths: Seq<Seq<char>>, dirs: Seq<bool>) -> bool {
    forall|i: int| 0 <= i < paths.len() ==> #[trigger] convertible_input(paths[i], dirs[i])
}

/// Ring-1 filtering rules:
/// - empty selection: nothing;
/// - a single extractable archive: Extract only;
/// - several archives: Extract and Archive;
/// - a uniform convertible kind, every file readable by its engine: Convert
///   and Archive;
/// - folders, unknown files, unreadable inputs or mixed kinds: Archive only.
pub open spec fn categories(paths: Seq<Seq<char>>, dirs: Seq<bool>) -> Seq<ActionCategory> {
    let kinds = kinds_of(paths, dirs);
    if paths.len() == 0 {
        seq![]
    } else if paths.len() == 1 && kinds[0] == FileKind::Archive && is_archive_ext(
        ext_or_empty(paths[0]),
    ) {
        seq![ActionCategory::Extract]
    } else if !uniform(kinds) {
        seq![ActionCategory::Archive]
    } else {
        match kinds[0] {
            FileKind::Archive => seq![ActionCategory::Extract, ActionCategory::Archive],
            FileKind::Other | FileKind::Folder => seq![ActionCategory::Archive],
            _ => if all_convertible(paths, dirs) {
                seq![ActionCategory::Convert, ActionCategory::Archive]
            } else {
                seq![ActionCategory::Archive]
            },
        }
    }
}

/// Ring-2 Convert leaves per kind (output extensions, no dot). Only targets
/// the engines can actually produce appear here.
pub open spec fn convert_target_list(kind: FileKind) -> Seq<Seq<char>> {
    match kind {
        FileKind::Image => seq!["png"@, "jpg"@, "webp"@, "bmp"@, "gif"@, "tiff"@, "ico"@],
        FileKind::Video => seq!["mp4"@, "webm"@, "avi"@, "mkv"@, "mov"@, "gif"@],
        FileKind::Audio => seq!["mp3"@, "wav"@, "flac"@, "aac"@, "ogg"@, "m4a"@, "opus"@],
        FileKind::TextData => seq![
            "txt"@, "csv"@, "json"@, "xml"@, "yaml"@, "toml"@, "md"@, "pdf"@,
        ],
        _ => seq![],
    }
}

/// Ring-2 Archive leaves.
pub open spec fn archive_target_list() -> Seq<Seq<char>> {
    seq!["zip"@, "tar"@, "tar.gz"@, "gzip"@]
}

/// What a picked leaf does. The overlay only reports this; dispatching it is
/// the app's job, so every string the menu shows lives here.
#[derive(Debug, Clone, PartialEq, Eq)]
pub enum MenuAction {
    /// Convert the selection to `ext` (no leading dot).
    Convert { ext: String },
    /// Create an archive of the selection in `ext` format.
    Archive { ext: String },
    /// Extract the selected archive next to itself.
    Extract,
}

/// A menu action with its extension as characters.
pub ghost enum ActionView {
    Convert(Seq<char>),
    Archive(Seq<char>),
    Extract,
}

impl View for MenuAction {
    type V = ActionView;

    open spec fn view(&self) -> ActionView {
        match self {
            MenuAction::Convert { ext } => ActionView::Convert(ext@),
            MenuAction::Archive { ext } => ActionView::Archive(ext@),
            MenuAction::Extract => ActionView::Extract,
        }
    }
}

pub open spec fn action_view(a: Option<MenuAction>) -> Option<ActionView> {
    match a {
        Some(x) => Some(x@),
        None => None,
    }
}

impl MenuAction {
    /// A copy of this action.
    pub fn duplicate(&self) -> (r: Self)
        ensures
            r@ == self@,
    {
        match self {
            MenuAction::Convert { ext } => MenuAction::Convert { ext: ext.clone() },
            MenuAction::Archive { ext } => MenuAction::Archive { ext: ext.clone() },
            MenuAction::Extract => MenuAction::Extract,
        }
    }
}

/// One sector in the radial menu. Ring-1 categories carry no action and only
/// fan out; ring-2 leaves carry exactly one action.
#[derive(Debug, PartialEq, Eq)]
pub struct MenuNode {
    pub label: String,
    pub action: Option<MenuAction>,
    pub children: Vec<MenuNode>,
}

/// `n` is a leaf labelled `label` that runs `act`.
pub open spec fn is_leaf(n: MenuNode, label: Seq<char>, act: ActionView) -> bool {
    &&& n.label@ == label
    &&& action_view(n.action) == Some(act)
    &&& n.children@.len() == 0
}

/// The action a ring-2 leaf of `category` for `target` runs.
pub open spec fn leaf_action(category: ActionCategory, target: Seq<char>) -> ActionView {
    match category {
        ActionCategory::Convert => ActionView::Convert(target),
        ActionCategory::Archive => ActionView::Archive(target),
        ActionCategory::Extract => ActionView::Extract,
    }
}

/// `nodes` are one leaf per target, in order.
pub open spec fn leaves_for(nodes: Seq<MenuNode>, targets: Seq<Seq<char>>, category: ActionCategory) -> bool {
    &&& nodes.len() == targets.len()
    &&& forall|j: int|
        0 <= j < nodes.len() ==> is_leaf(#[trigger] nodes[j], targets[j], leaf_action(category, targets[j]))
}

pub open spec fn category_label(category: ActionCategory) -> Seq<char> {
    match category {
        ActionCategory::Convert => "Convert"@,
        ActionCategory::Archive => "Archive"@,
        ActionCategory::Extract => "Extract"@,
    }
}

/// `n` is the ring-1 node for `category` when the first selected file is of `kind`.
pub open spec fn is_category_node(n: MenuNode, category: ActionCategory, kind: FileKind) -> bool {
    &&& n.label@ == category_label(category)
    &&& n.action is None
    &&& match category {
        ActionCategory::Convert => leaves_for(n.children@, convert_target_list(kind), category),
        ActionCategory::Archive => leaves_for(n.children@, archive_target_list(), category),
        ActionCategory::Extract => n.children@.len() == 1 && is_leaf(
            n.children@[0],
            "Here"@,
            ActionView::Extract,
        ),
    }
}

/// The extension of a path as characters, empty when it has none.
fn ext_chars(path: &str) -> (r: Vec<char>)
    ensures
        r@ == ext_or_empty(path@),
{
    let p = chars_of(path);
    match path_extension(&p) {
        Some(e) => e,
        None => Vec::new(),
    }
}

/// The kinds of the selected files.
fn selection_kinds(sel: &Selection, dirs: &[bool]) -> (r: Vec<FileKind>)
    requires
        dirs@.len() == sel.files@.len(),
    ensures
        r@ == kinds_of(sel.paths(), dirs@),
{
    let mut r: Vec<FileKind> = Vec::new();
    let mut i: usize = 0;
    while i < sel.files.len()
        invariant
            dirs@.len() == sel.files@.len(),
            i <= sel.files@.len(),
            r@ == kinds_of(sel.paths(), dirs@).subrange(0, i as int),
        decreases sel.files@.len() - i,
    {
        let k = classify_path(sel.files[i].as_str(), dirs[i]);
        r.push(k);
        i = i + 1;
    }
    assert(r@ =~= kinds_of(sel.paths(), dirs@));
    r
}

/// Ring-1 categories for a selection; `dirs[i]` says whether file `i` is a
/// directory.
pub fn categories_for_selection(sel: &Selection, dirs: &[bool]) -> (r: Vec<ActionCategory>)
    requires
        dirs@.len() == sel.files@.len(),
    ensures
        r@ == categories(sel.paths(), dirs@),
{
    if sel.is_empty() {
        return Vec::new();
    }
    let kinds = selection_kinds(sel, dirs);
    if kinds.len() == 1 {
        let ext = ext_chars(sel.files[0].as_str());
        let extractable = crate::file_kind::kind_of_ext_chars(&ext) == FileKind::Archive;
        proof {
            crate::file_kind::law_extractable_iff_archive(ext@);
        }
        if kinds[0] == FileKind::Archive && extractable {
            return vec![ActionCategory::Extract];
        }
    }
    let first = kinds[0];
    let mut same = true;
    let mut i: usize = 0;
    while i < kinds.len()
        invariant
            i <= kinds@.len(),
            kinds@.len() > 0,
            first == kinds@[0],
            same == (forall|j: int| 0 <= j < i ==> kinds@[j] == first),
        decreases kinds@.len() - i,
    {
        if kinds[i] != first {
            same = false;
        }
        i = i + 1;
    }
    if !same {
        return vec![ActionCategory::Archive];
    }
    match first {
        FileKind::Archive => vec![ActionCategory::Extract, ActionCategory::Archive],
        FileKind::Other | FileKind::Folder => vec![ActionCategory::Archive],
        _ => {
            let mut readable = true;
            let mut j: usize = 0;
            while j < sel.files.len()
                invariant
                    dirs@.len() == sel.files@.len(),
                    j <= sel.files@.len(),
                    readable == (forall|m: int|
                        0 <= m < j ==> #[trigger] convertible_input(sel.paths()[m], dirs@[m])),
                decreases sel.files@.len() - j,
            {
                assert(sel.paths()[j as int] == sel.files@[j as int]@);
                if !is_convertible_input(sel.files[j].as_str(), dirs[j]) {
                    readable = false;
                }
                j = j + 1;
            }
            if readable {
                vec![ActionCategory::Convert, ActionCategory::Archive]
            } else {
                vec![ActionCategory::Archive]
            }
        },
    }
}

/// Ring-2 Convert leaves for a kind (output extensions, no dot).
pub fn convert_targets(kind: FileKind) -> (r: &'static [&'static str])
    ensures
        views(r@) == convert_target_list(kind),
{
    match kind {
        FileKind::Image => {
            let r: &'static [&'static str] = &["png", "jpg", "webp", "bmp", "gif", "tiff", "ico"];
            assert(views(r@) =~= convert_target_list(kind));
            r
        },
        FileKind::Video => {
            let r: &'static [&'static str] = &["mp4", "webm", "avi", "mkv", "mov", "gif"];
            assert(views(r@) =~= convert_target_list(kind));
            r
        },
        FileKind::Audio => {
            let r: &'static [&'static str] = &["mp3", "wav", "flac", "aac", "ogg", "m4a", "opus"];
            assert(views(r@) =~= convert_target_list(kind));
            r
        },
        FileKind::TextData => {
            let r: &'static [&'static str] = &[
                "txt",
                "csv",
                "json",
                "xml",
                "yaml",
                "toml",
                "md",
                "pdf",
            ];
            assert(views(r@) =~= convert_target_list(kind));
            r
        },
        _ => {
            let r: &'static [&'static str] = &[];
            assert(views(r@) =~= convert_target_list(kind));
            r
        },
    }
}

/// Ring-2 Archive leaves.
pub fn archive_targets() -> (r: &'static [&'static str])
    ensures
        views(r@) == archive_target_list(),
{
    let r: &'static [&'static str] = &["zip", "tar", "tar.gz", "gzip"];
    assert(views(r@) =~= archive_target_list());
    r
}

fn convert_ext(ext: &str) -> (r: MenuAction)
    ensures
        r@ == ActionView::Convert(ext@),
{
    MenuAction::Convert { ext: ext.to_owned() }
}

fn archive_ext(ext: &str) -> (r: MenuAction)
    ensures
        r@ == ActionView::Archive(ext@),
{
    MenuAction::Archive { ext: ext.to_owned() }
}

impl MenuNode {
    /// Ring-1 category: it fans out, so it has no action of its own.
    fn category(label: &str, children: Vec<MenuNode>) -> (r: Self)
        ensures
            r.label@ == label@,
            r.action is None,
            r.children@ == children@,
    {
        MenuNode { label: label.to_owned(), action: None, children }
    }

    /// Ring-2 leaf: picking it runs this action.
    fn leaf(label: &str, action: MenuAction) -> (r: Self)
        ensures
            is_leaf(r, label@, action@),
    {
        MenuNode { label: label.to_owned(), action: Some(action), children: Vec::new() }
    }
}

/// One leaf per target; Convert leaves convert, any other category archives.
fn leaves(targets: &[&str], category: ActionCategory) -> (r: Vec<MenuNode>)
    requires
        category != ActionCategory::Extract,
    ensures
        leaves_for(r@, views(targets@), category),
{
    let mut r: Vec<MenuNode> = Vec::new();
    let mut i: usize = 0;
    while i < targets.len()
        invariant
            category != ActionCategory::Extract,
            i <= targets@.len(),
            leaves_for(r@, views(targets@).subrange(0, i as int), category),
        decreases targets@.len() - i,
    {
        let target = targets[i];
        let action = match category {
            ActionCategory::Convert => convert_ext(target),
            _ => archive_ext(target),
        };
        let node = MenuNode::leaf(target, action);
        r.push(node);
        i = i + 1;
        assert(views(targets@).subrange(0, i as int) =~= views(targets@).subrange(
            0,
            i - 1,
        ).push(target@));
    }
    assert(views(targets@).subrange(0, targets@.len() as int) =~= views(targets@));
    r
}

/// The ring-1 node for `category`, given the kind of the first selected file.
fn category_node(category: ActionCategory, kind: FileKind) -> (r: MenuNode)
    ensures
        is_category_node(r, category, kind),
{
    match category {
        ActionCategory::Convert => MenuNode::category(
            "Convert",
            leaves(convert_targets(kind), ActionCategory::Convert),
        ),
        ActionCategory::Archive => MenuNode::category(
            "Archive",
            leaves(archive_targets(), ActionCategory::Archive),
        ),
        ActionCategory::Extract => {
            let here = MenuNode::leaf("Here", MenuAction::Extract);
            let children = vec![here];
            MenuNode::category("Extract", children)
        },
    }
}

/// The two-ring menu for a selection: ring 1 categories, ring 2 leaf targets.
/// Empty when the selection is empty.
pub fn menu_for_selection(sel: &Selection, dirs: &[bool]) -> (r: Vec<MenuNode>)
    requires
        dirs@.len() == sel.files@.len(),
    ensures
        r@.len() == categories(sel.paths(), dirs@).len(),
        forall|i: int|
            0 <= i < r@.len() ==> is_category_node(
                #[trigger] r@[i],
                categories(sel.paths(), dirs@)[i],
                kinds_of(sel.paths(), dirs@)[0],
            ),
{
    if sel.is_empty() {
        return Vec::new();
    }
    let kind = classify_path(sel.files[0].as_str(), dirs[0]);
    let cats = categories_for_selection(sel, dirs);
    let mut r: Vec<MenuNode> = Vec::new();
    let mut i: usize = 0;
    while i < cats.len()
        invariant
            i <= cats@.len(),
            cats@ == categories(sel.paths(), dirs@),
            sel.files@.len() > 0,
            kind == kinds_of(sel.paths(), dirs@)[0],
            r@.len() == i,
            forall|j: int| 0 <= j < i ==> is_category_node(#[trigger] r@[j], cats@[j], kind),
        decreases cats@.len() - i,
    {
        let node = category_node(cats[i], kind);
        r.push(node);
        i = i + 1;
    }
    r
}

/// Ring 2 of the Convert category on its own, for the Convert hotkey path.
pub fn convert_menu_for_selection(sel: &Selection, dirs: &[bool]) -> (r: Vec<MenuNode>)
    requires
        dirs@.len() == sel.files@.len(),
    ensures
        sel.files@.len() == 0 ==> r@.len() == 0,
        sel.files@.len() > 0 && !convertible_input(sel.paths()[0], dirs@[0]) ==> r@.len() == 0,
        sel.files@.len() > 0 && convertible_input(sel.paths()[0], dirs@[0]) ==> leaves_for(
            r@,
            convert_target_list(kinds_of(sel.paths(), dirs@)[0]),
            ActionCategory::Convert,
        ),
{
    if sel.is_empty() {
        return Vec::new();
    }
    if !is_convertible_input(sel.files[0].as_str(), dirs[0]) {
        return Vec::new();
    }
    let kind = classify_path(sel.files[0].as_str(), dirs[0]);
    leaves(convert_targets(kind), ActionCategory::Convert)
}

/// An empty selection offers no category.
pub proof fn law_empty_selection_offers_nothing()
    ensures
        categories(Seq::<Seq<char>>::empty(), Seq::<bool>::empty()) == Seq::<ActionCategory>::empty(),
{
}

/// A single archive offers Extract only.
pub proof fn law_single_archive_extracts_only(path: Seq<char>, is_dir: bool)
    requires
        kind_of_path(path, is_dir) == FileKind::Archive,
    ensures
        categories(seq![path], seq![is_dir]) == seq![ActionCategory::Extract],
{
    let paths = seq![path];
    let dirs = seq![is_dir];
    assert(kinds_of(paths, dirs)[0] == FileKind::Archive);
    crate::file_kind::law_extractable_iff_archive(ext_or_empty(path));
}

/// A target extension as the menu offers it: not empty, no leading dot,
/// already in ASCII lowercase.
pub open spec fn is_plain_ext(t: Seq<char>) -> bool {
    &&& t.len() > 0
    &&& t[0] != '.'
    &&& crate::text::lower(t) == t
}

/// No target is offered twice.
pub open spec fn all_distinct(ts: Seq<Seq<char>>) -> bool {
    forall|i: int, j: int| 0 <= i < j < ts.len() ==> #[trigger] ts[i] != #[trigger] ts[j]
}

/// A list of short lowercase targets, each told apart from the others by its
/// length or one of its first four characters.
proof fn lemma_plain_and_distinct(ts: Seq<Seq<char>>)
    requires
        forall|i: int| 0 <= i < ts.len() ==> {
            let t = #[trigger] ts[i];
            &&& 0 < t.len() <= 4
            &&& forall|k: int| 0 <= k < t.len() ==> 'a' <= #[trigger] t[k] <= 'z' || '0' <= t[k] <= '9'
        },
        forall|i: int, j: int| 0 <= i < j < ts.len() ==> {
            let a = #[trigger] ts[i];
            let b = #[trigger] ts[j];
            ||| a.len() != b.len()
            ||| a[0] != b[0]
            ||| a[1] != b[1]
            ||| (a.len() > 2 && a[2] != b[2])
            ||| (a.len() > 3 && a[3] != b[3])
        },
    ensures
        all_distinct(ts),
        forall|i: int| 0 <= i < ts.len() ==> is_plain_ext(#[trigger] ts[i]),
{
    assert forall|i: int| 0 <= i < ts.len() implies is_plain_ext(#[trigger] ts[i]) by {
        let t = ts[i];
        assert(crate::text::lower(t) =~= t);
    }
}

/// Every Convert target is a plain extension (no dot, lowercase) offered
/// once; kinds that cannot be converted get none.
pub proof fn law_convert_targets_are_plain_and_distinct(kind: FileKind)
    ensures
        all_distinct(convert_target_list(kind)),
        forall|i: int|
            0 <= i < convert_target_list(kind).len() ==> is_plain_ext(
                #[trigger] convert_target_list(kind)[i],
            ),
        kind is Archive || kind is Folder || kind is Other ==> convert_target_list(kind).len() == 0,
{
    reveal_strlit("png");
    reveal_strlit("jpg");
    reveal_strlit("webp");
    reveal_strlit("bmp");
    reveal_strlit("gif");
    reveal_strlit("tiff");
    reveal_strlit("ico");
    reveal_strlit("mp4");
    reveal_strlit("webm");
    reveal_strlit("avi");
    reveal_strlit("mkv");
    reveal_strlit("mov");
    reveal_strlit("mp3");
    reveal_strlit("wav");
    reveal_strlit("flac");
    reveal_strlit("aac");
    reveal_strlit("ogg");
    reveal_strlit("m4a");
    reveal_strlit("opus");
    reveal_strlit("txt");
    reveal_strlit("csv");
    reveal_strlit("json");
    reveal_strlit("xml");
    reveal_strlit("yaml");
    reveal_strlit("toml");
    reveal_strlit("md");
    reveal_strlit("pdf");
    let ts = convert_target_list(kind);
    match kind {
        FileKind::Image => {
            assert(ts =~~= seq![
                seq!['p', 'n', 'g'], seq!['j', 'p', 'g'], seq!['w', 'e', 'b', 'p'], seq!['b', 'm', 'p'],
                seq!['g', 'i', 'f'], seq!['t', 'i', 'f', 'f'], seq!['i', 'c', 'o'],
            ]);
            lemma_plain_and_distinct(ts);
        },
        FileKind::Video => {
            assert(ts =~~= seq![
                seq!['m', 'p', '4'], seq!['w', 'e', 'b', 'm'], seq!['a', 'v', 'i'], seq!['m', 'k', 'v'],
                seq!['m', 'o', 'v'], seq!['g', 'i', 'f'],
            ]);
            lemma_plain_and_distinct(ts);
        },
        FileKind::Audio => {
            assert(ts =~~= seq![
                seq!['m', 'p', '3'], seq!['w', 'a', 'v'], seq!['f', 'l', 'a', 'c'], seq!['a', 'a', 'c'],
                seq!['o', 'g', 'g'], seq!['m', '4', 'a'], seq!['o', 'p', 'u', 's'],
            ]);
            lemma_plain_and_distinct(ts);
        },
        FileKind::TextData => {
            assert(ts =~~= seq![
                seq!['t', 'x', 't'], seq!['c', 's', 'v'], seq!['j', 's', 'o', 'n'], seq!['x', 'm', 'l'],
                seq!['y', 'a', 'm', 'l'], seq!['t', 'o', 'm', 'l'], seq!['m', 'd'], seq!['p', 'd', 'f'],
            ]);
            lemma_plain_and_distinct(ts);
        },
        _ => {},
    }
}

/// A single PNG file (the extension in any ASCII case) offers Convert and
/// Archive.
pub proof fn law_single_png_converts_and_archives(path: Seq<char>)
    requires
        extension(path) matches Some(e) && crate::text::lower(e) == "png"@,
    ensures
        categories(seq![path], seq![false]) == seq![ActionCategory::Convert, ActionCategory::Archive],
{
    reveal_strlit("png");
    reveal_strlit("zip");
    reveal_strlit("tar");
    reveal_strlit("tgz");
    reveal_strlit("gz");
    reveal_strlit("gzip");
    let e = extension(path)->Some_0;
    let l = crate::text::lower(e);
    let archives = crate::file_kind::archive_exts();
    assert(!archives.contains(l)) by {
        if archives.contains(l) {
            let k = choose|k: int| 0 <= k < archives.len() && archives[k] == l;
            if k == 0 || k == 1 || k == 2 {
                assert(archives[k][0] != l[0]);
            } else {
                assert(archives[k].len() != l.len());
            }
        }
    }
    assert(crate::file_kind::image_exts()[0] == l);
    assert(crate::file_kind::image_exts().contains(l));
    assert(crate::file_kind::image_input_exts()[0] == l);
    assert(crate::file_kind::image_input_exts().contains(l));
    let paths = seq![path];
    let dirs = seq![false];
    assert(kinds_of(paths, dirs)[0] == FileKind::Image);
    assert(!is_archive_ext(ext_or_empty(path)));
    assert(uniform(kinds_of(paths, dirs)));
    assert(convertible_input(paths[0], dirs[0]));
    assert(all_convertible(paths, dirs));
}

/// Mixed kinds offer Archive only: conversion needs a uniform type.
pub proof fn law_mixed_kinds_archive_only(paths: Seq<Seq<char>>, dirs: Seq<bool>)
    requires
        paths.len() == dirs.len(),
        !uniform(kinds_of(paths, dirs)),
    ensures
        categories(paths, dirs) == seq![ActionCategory::Archive],
{
    if paths.len() == 1 {
        let kinds = kinds_of(paths, dirs);
        assert(uniform(kinds));
    }
}

/// Folders offer Archive only.
pub proof fn law_folders_archive_only(paths: Seq<Seq<char>>, dirs: Seq<bool>)
    requires
        paths.len() == dirs.len(),
        paths.len() > 0,
        forall|i: int| 0 <= i < dirs.len() ==> #[trigger] dirs[i],
    ensures
        categories(paths, dirs) == seq![ActionCategory::Archive],
{
    let kinds = kinds_of(paths, dirs);
    assert(kinds[0] == FileKind::Folder);
    assert forall|i: int| 0 <= i < kinds.len() implies #[trigger] kinds[i] == kinds[0] by {
        assert(dirs[i]);
    }
}

/// A uniform convertible kind, every file readable by its engine, offers
/// Convert and Archive.
pub proof fn law_uniform_convertible_kind(paths: Seq<Seq<char>>, dirs: Seq<bool>)
    requires
        paths.len() == dirs.len(),
        paths.len() > 0,
        uniform(kinds_of(paths, dirs)),
        all_convertible(paths, dirs),
        kinds_of(paths, dirs)[0] is Image || kinds_of(paths, dirs)[0] is Video || kinds_of(
            paths,
            dirs,
        )[0] is Audio || kinds_of(paths, dirs)[0] is TextData,
    ensures
        categories(paths, dirs) == seq![ActionCategory::Convert, ActionCategory::Archive],
{
}

/// Every Convert leaf offered for images is an output the image engine
/// produces: it accepts the extension and is neither HEIC nor PDF.
pub proof fn law_image_ring_offers_only_producible_targets()
    ensures
        forall|i: int|
            0 <= i < convert_target_list(FileKind::Image).len() ==> {
                let t = #[trigger] convert_target_list(FileKind::Image)[i];
                &&& crate::convert::image::output_list().contains(t)
                &&& t != "heic"@
                &&& t != "pdf"@
            },
{
    reveal_strlit("png");
    reveal_strlit("jpg");
    reveal_strlit("webp");
    reveal_strlit("bmp");
    reveal_strlit("gif");
    reveal_strlit("tiff");
    reveal_strlit("ico");
    reveal_strlit("heic");
    reveal_strlit("pdf");
    let outs = crate::convert::image::output_list();
    assert(outs[0] == "png"@);
    assert(outs[1] == "jpg"@);
    assert(outs[2] == "bmp"@);
    assert(outs[3] == "gif"@);
    assert(outs[4] == "tiff"@);
    assert(outs[5] == "webp"@);
    assert(outs[7] == "ico"@);
    assert forall|i: int|
        0 <= i < convert_target_list(FileKind::Image).len() implies {
        let t = #[trigger] convert_target_list(FileKind::Image)[i];
        &&& outs.contains(t)
        &&& t != "heic"@
        &&& t != "pdf"@
    } by {
        let t = convert_target_list(FileKind::Image)[i];
        let heic = "heic"@;
        let pdf = "pdf"@;
        if i == 0 {
            assert(outs[0] == t);
            lemma_differ_at(t, pdf, 1);
        } else if i == 1 {
            assert(outs[1] == t);
            lemma_differ_at(t, pdf, 0);
        } else if i == 2 {
            assert(outs[5] == t);
            lemma_differ_at(t, heic, 0);
        } else if i == 3 {
            assert(outs[2] == t);
            lemma_differ_at(t, pdf, 0);
        } else if i == 4 {
            assert(outs[3] == t);
            lemma_differ_at(t, pdf, 0);
        } else if i == 5 {
            assert(outs[4] == t);
            lemma_differ_at(t, heic, 0);
        } else {
            assert(outs[7] == t);
            lemma_differ_at(t, pdf, 0);
        }
    }
}

proof fn lemma_differ_at(a: Seq<char>, b: Seq<char>, k: int)
    requires
        0 <= k < a.len(),
        k < b.len(),
        a[k] != b[k],
    ensures
        a != b,
{
}

/// An image the engine cannot read (HEIC, SVG) is never offered for
/// conversion.
pub proof fn law_unreadable_images_are_not_converted(paths: Seq<Seq<char>>, dirs: Seq<bool>, i: int)
    requires
        paths.len() == dirs.len(),
        0 <= i < paths.len(),
        !convertible_input(paths[i], dirs[i]),
    ensures
        !categories(paths, dirs).contains(ActionCategory::Convert),
{
    let c = categories(paths, dirs);
    if c.contains(ActionCategory::Convert) {
        let k = choose|k: int| 0 <= k < c.len() && c[k] == ActionCategory::Convert;
        assert(!all_convertible(paths, dirs));
    }
}

/// Every Archive leaf is a format the archive engine accepts.
pub proof fn law_archive_ring_matches_the_engine()
    ensures
        archive_target_list() == crate::convert::archive::create_target_list(),
{
}

/// The Convert ring for each kind: images go to PNG, JPG, WebP, BMP, GIF, TIFF
/// and ICO; video to MP4, WebM, AVI, MKV, MOV and GIF; audio to MP3, WAV,
/// FLAC, AAC, Ogg, M4A and Opus; text and data to TXT, CSV, JSON, XML, YAML,
/// TOML, Markdown and PDF; nothing else converts.
pub proof fn law_convert_ring_per_kind(kind: FileKind)
    ensures
        kind == FileKind::Image ==> convert_target_list(kind) == seq![
            "png"@, "jpg"@, "webp"@, "bmp"@, "gif"@, "tiff"@, "ico"@,
        ],
        kind == FileKind::Video ==> convert_target_list(kind) == seq![
            "mp4"@, "webm"@, "avi"@, "mkv"@, "mov"@, "gif"@,
        ],
        kind == FileKind::Audio ==> convert_target_list(kind) == seq![
            "mp3"@, "wav"@, "flac"@, "aac"@, "ogg"@, "m4a"@, "opus"@,
        ],
        kind == FileKind::TextData ==> convert_target_list(kind) == seq![
            "txt"@, "csv"@, "json"@, "xml"@, "yaml"@, "toml"@, "md"@, "pdf"@,
        ],
        kind is Archive || kind is Folder || kind is Other ==> convert_target_list(kind).len() == 0,
{
}

/// The Archive ring offers zip, tar, tar.gz and gzip, in that order.
pub proof fn law_archive_ring_formats()
    ensures
        archive_target_list() == seq!["zip"@, "tar"@, "tar.gz"@, "gzip"@],
{
}

/// A single readable raster image (PNG, JPG/JPEG, BMP, GIF, TIFF/TIF, WebP,
/// ICO; the extension in any ASCII case) offers Convert and Archive.
pub proof fn law_single_readable_image_converts_and_archives(path: Seq<char>)
    requires
        extension(path) matches Some(e) && seq![
            "png"@, "jpg"@, "jpeg"@, "bmp"@, "gif"@, "tiff"@, "tif"@, "webp"@, "ico"@,
        ].contains(crate::text::lower(e)),
    ensures
        categories(seq![path], seq![false]) == seq![ActionCategory::Convert, ActionCategory::Archive],
{
    let e = extension(path)->Some_0;
    let l = crate::text::lower(e);
    let readable = seq!["png"@, "jpg"@, "jpeg"@, "bmp"@, "gif"@, "tiff"@, "tif"@, "webp"@, "ico"@];
    let images = seq![
        "png"@, "jpg"@, "jpeg"@, "bmp"@, "gif"@, "tiff"@, "tif"@, "webp"@, "heic"@, "heif"@, "ico"@,
        "svg"@,
    ];
    let k = choose|k: int| 0 <= k < readable.len() && readable[k] == l;
    assert(images.contains(l)) by {
        if k <= 7 {
            assert(images[k] == l);
        } else {
            assert(images[10] == l);
        }
    }
    crate::file_kind::law_image_extensions_are_image(e);
    let paths = seq![path];
    let dirs = seq![false];
    assert(kinds_of(paths, dirs)[0] == FileKind::Image);
    assert(!is_archive_ext(ext_or_empty(path)));
    assert(uniform(kinds_of(paths, dirs)));
    assert(crate::file_kind::image_input_exts().contains(l));
    assert(convertible_input(paths[0], dirs[0]));
    assert(all_convertible(paths, dirs));
}

/// A single image the engine cannot read (HEIC, HEIF, SVG) offers Archive
/// only.
pub proof fn law_single_unreadable_image_archives_only(path: Seq<char>)
    requires
        extension(path) matches Some(e) && seq!["heic"@, "heif"@, "svg"@].contains(
            crate::text::lower(e),
        ),
    ensures
        categories(seq![path], seq![false]) == seq![ActionCategory::Archive],
{
    let e = extension(path)->Some_0;
    let l = crate::text::lower(e);
    let images = seq![
        "png"@, "jpg"@, "jpeg"@, "bmp"@, "gif"@, "tiff"@, "tif"@, "webp"@, "heic"@, "heif"@, "ico"@,
        "svg"@,
    ];
    let unreadable = seq!["heic"@, "heif"@, "svg"@];
    let k = choose|k: int| 0 <= k < unreadable.len() && unreadable[k] == l;
    assert(images.contains(l)) by {
        if k == 0 {
            assert(images[8] == l);
        } else if k == 1 {
            assert(images[9] == l);
        } else {
            assert(images[11] == l);
        }
    }
    crate::file_kind::law_image_extensions_are_image(e);
    reveal_strlit("png");
    reveal_strlit("jpg");
    reveal_strlit("jpeg");
    reveal_strlit("bmp");
    reveal_strlit("gif");
    reveal_strlit("tiff");
    reveal_strlit("tif");
    reveal_strlit("webp");
    reveal_strlit("ico");
    reveal_strlit("heic");
    reveal_strlit("heif");
    reveal_strlit("svg");
    let readable = crate::file_kind::image_input_exts();
    assert(readable =~~= seq![
        seq!['p', 'n', 'g'], seq!['j', 'p', 'g'], seq!['j', 'p', 'e', 'g'], seq!['b', 'm', 'p'],
        seq!['g', 'i', 'f'], seq!['t', 'i', 'f', 'f'], seq!['t', 'i', 'f'], seq!['w', 'e', 'b', 'p'],
        seq!['i', 'c', 'o'],
    ]);
    assert(unreadable =~~= seq![seq!['h', 'e', 'i', 'c'], seq!['h', 'e', 'i', 'f'], seq!['s', 'v', 'g']]);
    assert(!readable.contains(l)) by {
        if readable.contains(l) {
            let j = choose|j: int| 0 <= j < readable.len() && readable[j] == l;
            assert(readable[j] == unreadable[k]);
            assert(readable[j][0] != unreadable[k][0] || readable[j].len() != unreadable[k].len()
                || readable[j][1] != unreadable[k][1]);
        }
    }
    let paths = seq![path];
    let dirs = seq![false];
    assert(kinds_of(paths, dirs)[0] == FileKind::Image);
    assert(!is_archive_ext(ext_or_empty(path)));
    assert(uniform(kinds_of(paths, dirs)));
    assert(!convertible_input(paths[0], dirs[0]));
    assert(!all_convertible(paths, dirs));
}

} // verus!
