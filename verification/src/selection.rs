//! The files the user had selected, and how a raw Explorer selection is
//! filtered down to them: virtual shell items (Recycle Bin, This PC, ...)
//! have no filesystem path and are dropped.
use vstd::prelude::*;
use crate::text::{lower, chars_of, eq_str, string_of};

verus! {

/// Files the user had selected when they pressed the hotkey.
#[derive(Debug, Clone)]
pub struct Selection {
    pub files: Vec<String>,
}

impl Selection {
    /// The selected paths, as character sequences.
    pub open spec fn paths(&self) -> Seq<Seq<char>> {
        self.files@.map_values(|f: String| f@)
    }

    pub fn new(files: Vec<String>) -> (r: Self)
        ensures
            r.files@ == files@,
    {
        Selection { files }
    }

    pub fn is_empty(&self) -> (r: bool)
        ensures
            r == (self.files@.len() == 0),
    {
        self.files.len() == 0
    }

    pub fn len(&self) -> (r: usize)
        ensures
            r == self.files@.len(),
    {
        self.files.len()
    }
}

impl Default for Selection {
    fn default() -> (r: Self)
        ensures
            r.files@.len() == 0,
    {
        Selection { files: Vec::new() }
    }
}

/// Why no selection could be read.
#[derive(Debug, Clone, PartialEq, Eq)]
pub enum SelectionError {
    NoExplorerWindow,
    VirtualFolder,
    Com(String),
    Empty,
}

/// The user-facing text of a selection error.
pub open spec fn selection_error_text(e: SelectionError) -> Seq<char> {
    match e {
        SelectionError::NoExplorerWindow => "no Explorer window is focused"@,
        SelectionError::VirtualFolder => "selection is a virtual folder (Recycle Bin, This PC, \u{2026}) and has no filesystem paths"@,
        SelectionError::Com(detail) => "COM automation unavailable: "@ + detail@,
        SelectionError::Empty => "selection is empty"@,
    }
}

impl SelectionError {
    /// The user-facing text of this error.
    pub fn message(&self) -> (r: String)
        ensures
            r@ == selection_error_text(*self),
    {
        match self {
            SelectionError::NoExplorerWindow => "no Explorer window is focused".to_owned(),
            SelectionError::VirtualFolder => "selection is a virtual folder (Recycle Bin, This PC, \u{2026}) and has no filesystem paths".to_owned(),
            SelectionError::Com(detail) => {
                let mut m = "COM automation unavailable: ".to_owned();
                m.append(detail.as_str());
                m
            },
            SelectionError::Empty => "selection is empty".to_owned(),
        }
    }
}

/// `char::is_whitespace`: the Unicode White_Space characters.
pub open spec fn is_white_space(c: char) -> bool {
    let u = c as u32;
    ||| 0x09 <= u <= 0x0D
    ||| u == 0x20
    ||| u == 0x85
    ||| u == 0xA0
    ||| u == 0x1680
    ||| 0x2000 <= u <= 0x200A
    ||| u == 0x2028
    ||| u == 0x2029
    ||| u == 0x202F
    ||| u == 0x205F
    ||| u == 0x3000
}

pub open spec fn trim_start(s: Seq<char>) -> Seq<char>
    decreases s.len(),
{
    if s.len() > 0 && is_white_space(s[0]) {
        trim_start(s.drop_first())
    } else {
        s
    }
}

pub open spec fn trim_end(s: Seq<char>) -> Seq<char>
    decreases s.len(),
{
    if s.len() > 0 && is_white_space(s.last()) {
        trim_end(s.drop_last())
    } else {
        s
    }
}

/// `str::trim`.
pub open spec fn trim(s: Seq<char>) -> Seq<char> {
    trim_end(trim_start(s))
}

/// `s` with every `/` replaced by `\`.
pub open spec fn backslashed(s: Seq<char>) -> Seq<char> {
    Seq::new(s.len(), |i: int| if s[i] == '/' { '\\' } else { s[i] })
}

/// Index of the last `\` in `s`, or -1.
pub open spec fn last_backslash(s: Seq<char>) -> int
    decreases s.len(),
{
    if s.len() == 0 {
        -1
    } else if s.last() == '\\' {
        s.len() - 1
    } else {
        last_backslash(s.drop_last())
    }
}

pub open spec fn starts_with(s: Seq<char>, prefix: Seq<char>) -> bool {
    prefix.len() <= s.len() && s.subrange(0, prefix.len() as int) == prefix
}

/// Whether `path` names a virtual shell item rather than a filesystem path:
/// a `::{CLSID}` or `shell:::` moniker, "This PC", or the Recycle Bin.
pub open spec fn is_virtual_path(path: Seq<char>) -> bool {
    let p = backslashed(lower(trim(path)));
    let leaf = p.subrange(last_backslash(p) + 1, p.len() as int);
    ||| starts_with(p, "::"@)
    ||| starts_with(p, "shell:::"@)
    ||| p == "this pc"@
    ||| p == "recycle bin"@
    ||| leaf == "recycle bin"@
    ||| leaf == "$recycle.bin"@
}

pub proof fn lemma_last_backslash(p: Seq<char>)
    ensures
        -1 <= last_backslash(p) < p.len(),
    decreases p.len(),
{
    if p.len() > 0 && p.last() != '\\' {
        lemma_last_backslash(p.drop_last());
    }
}

fn white_space(c: char) -> (r: bool)
    ensures
        r == is_white_space(c),
{
    let u = c as u32;
    (0x09 <= u && u <= 0x0D) || u == 0x20 || u == 0x85 || u == 0xA0 || u == 0x1680 || (0x2000
        <= u && u <= 0x200A) || u == 0x2028 || u == 0x2029 || u == 0x202F || u == 0x205F || u
        == 0x3000
}

fn trimmed(v: &Vec<char>) -> (r: Vec<char>)
    ensures
        r@ == trim(v@),
{
    let mut a: usize = 0;
    assert(v@.subrange(0, v@.len() as int) =~= v@);
    while a < v.len() && white_space(v[a])
        invariant
            a <= v@.len(),
            trim_start(v@.subrange(a as int, v@.len() as int)) == trim_start(v@),
        decreases v@.len() - a,
    {
        assert(v@.subrange(a as int, v@.len() as int).drop_first() =~= v@.subrange(
            a + 1,
            v@.len() as int,
        ));
        a = a + 1;
    }
    let mut b: usize = v.len();
    assert(v@.subrange(a as int, b as int) == trim_start(v@));
    while b > a && white_space(v[b - 1])
        invariant
            a <= b <= v@.len(),
            trim_end(v@.subrange(a as int, b as int)) == trim(v@),
        decreases b,
    {
        assert(v@.subrange(a as int, b as int).drop_last() =~= v@.subrange(a as int, b - 1));
        b = b - 1;
    }
    crate::text::slice_chars(v, a, b)
}

fn starts_with_str(v: &Vec<char>, prefix: &str) -> (r: bool)
    ensures
        r == starts_with(v@, prefix@),
{
    let n = prefix.unicode_len();
    if n > v.len() {
        return false;
    }
    let head = crate::text::slice_chars(v, 0, n);
    eq_str(&head, prefix)
}

/// Whether `path` names a virtual shell item (Recycle Bin, This PC, a
/// `::{CLSID}` moniker) rather than a filesystem path.
pub fn is_virtual_folder(path: &str) -> (r: bool)
    ensures
        r == is_virtual_path(path@),
{
    let t = trimmed(&chars_of(path));
    let mut p: Vec<char> = Vec::new();
    let mut i: usize = 0;
    while i < t.len()
        invariant
            i <= t@.len(),
            p@ == backslashed(lower(t@)).subrange(0, i as int),
        decreases t@.len() - i,
    {
        let c = crate::text::ascii_lower_char(t[i]);
        if c == '/' {
            p.push('\\');
        } else {
            p.push(c);
        }
        i = i + 1;
    }
    assert(p@ =~= backslashed(lower(trim(path@))));
    proof {
        lemma_last_backslash(p@);
    }
    let mut j: usize = p.len();
    assert(p@.subrange(0, j as int) =~= p@);
    while j > 0 && p[j - 1] != '\\'
        invariant
            j <= p@.len(),
            last_backslash(p@.subrange(0, j as int)) == last_backslash(p@),
        decreases j,
    {
        assert(p@.subrange(0, j as int).drop_last() =~= p@.subrange(0, j - 1));
        j = j - 1;
    }
    proof {
        if j > 0 {
            assert(p@.subrange(0, j as int).last() == p@[j - 1]);
        }
    }
    let leaf = crate::text::slice_chars(&p, j, p.len());
    starts_with_str(&p, "::") || starts_with_str(&p, "shell:::") || eq_str(&p, "this pc")
        || eq_str(&p, "recycle bin") || eq_str(&leaf, "recycle bin") || eq_str(
        &leaf,
        "$recycle.bin",
    )
}

/// What a filtered selection maps to: paths win; items that existed but left
/// nothing mappable mean a virtual folder; no items at all mean an empty
/// selection.
pub open spec fn selection_outcome(saw_items: bool, paths: Seq<String>, r: Result<Selection, SelectionError>) -> bool {
    if paths.len() > 0 {
        r matches Ok(sel) && sel.files@ == paths
    } else if saw_items {
        r == Err::<Selection, SelectionError>(SelectionError::VirtualFolder)
    } else {
        r == Err::<Selection, SelectionError>(SelectionError::Empty)
    }
}

/// Map filtered paths onto the selection outcome.
pub fn finish_selection(saw_items: bool, paths: Vec<String>) -> (r: Result<Selection, SelectionError>)
    ensures
        selection_outcome(saw_items, paths@, r),
{
    if paths.len() > 0 {
        return Ok(Selection::new(paths));
    }
    if saw_items {
        return Err(SelectionError::VirtualFolder);
    }
    Err(SelectionError::Empty)
}

/// The paths of `paths` that are not virtual shell items, in order.
pub open spec fn real_paths(paths: Seq<String>) -> Seq<String> {
    paths.filter(|p: String| !is_virtual_path(p@))
}

/// Build a selection from explicit paths, dropping virtual shell items.
pub fn resolve_mock(paths: Vec<String>) -> (r: Result<Selection, SelectionError>)
    ensures
        selection_outcome(paths@.len() > 0, real_paths(paths@), r),
{
    let saw_items = paths.len() > 0;
    let mut kept: Vec<String> = Vec::new();
    let mut i: usize = 0;
    while i < paths.len()
        invariant
            i <= paths@.len(),
            kept@ == real_paths(paths@.take(i as int)),
        decreases paths@.len() - i,
    {
        reveal_with_fuel(Seq::<_>::filter, 1);
        let p = paths[i].clone();
        let virtual_item = is_virtual_folder(p.as_str());
        assert(paths@.take(i + 1).drop_last() =~= paths@.take(i as int));
        if !virtual_item {
            kept.push(p);
        }
        i = i + 1;
    }
    assert(paths@.take(paths@.len() as int) =~= paths@);
    finish_selection(saw_items, kept)
}

/// One entry of a shell view's selection, as far as it could be read.
#[derive(Debug, Clone)]
pub enum SelectedItem {
    /// The entry could not be fetched at all.
    Unreadable,
    /// The entry was fetched. `file_system` is whether the shell says it is
    /// filesystem-backed (none when it could not say); `path` is its
    /// filesystem path, when it has one.
    Item { file_system: Option<bool>, path: Option<String> },
}

/// The path an entry contributes: a filesystem-backed entry with a path that
/// is neither blank nor a virtual shell item.
pub open spec fn item_path(item: SelectedItem) -> Option<Seq<char>> {
    match item {
        SelectedItem::Item { file_system, path: Some(p) } => if file_system != Some(false)
            && trim(p@).len() > 0 && !is_virtual_path(p@) {
            Some(p@)
        } else {
            None
        },
        _ => None,
    }
}

/// The paths the entries contribute, in order.
pub open spec fn item_paths(items: Seq<SelectedItem>) -> Seq<Seq<char>>
    decreases items.len(),
{
    if items.len() == 0 {
        seq![]
    } else {
        let rest = item_paths(items.drop_last());
        match item_path(items.last()) {
            Some(p) => rest.push(p),
            None => rest,
        }
    }
}

/// Whether any entry could be fetched.
pub open spec fn saw_items(items: Seq<SelectedItem>) -> bool {
    exists|i: int| 0 <= i < items.len() && #[trigger] items[i] is Item
}

fn usable_path(path: &str) -> (r: bool)
    ensures
        r == (trim(path@).len() > 0 && !is_virtual_path(path@)),
{
    let t = trimmed(&chars_of(path));
    t.len() > 0 && !is_virtual_folder(path)
}

/// Turns a shell view's selection into a `Selection`: filesystem paths win;
/// entries that existed but left nothing mappable mean a virtual folder; no
/// entries at all mean an empty selection.
pub fn collect_selected(items: &[SelectedItem]) -> (r: Result<Selection, SelectionError>)
    ensures
        match r {
            Ok(sel) => item_paths(items@).len() > 0 && sel.paths() == item_paths(items@),
            Err(SelectionError::VirtualFolder) => item_paths(items@).len() == 0 && saw_items(items@),
            Err(SelectionError::Empty) => item_paths(items@).len() == 0 && !saw_items(items@),
            Err(_) => false,
        },
{
    let mut saw = false;
    let mut paths: Vec<String> = Vec::new();
    let mut i: usize = 0;
    while i < items.len()
        invariant
            i <= items@.len(),
            paths@.map_values(|p: String| p@) == item_paths(items@.take(i as int)),
            saw == saw_items(items@.take(i as int)),
        decreases items@.len() - i,
    {
        let ghost before = items@.take(i as int);
        assert(items@.take(i + 1).drop_last() =~= before);
        assert(items@.take(i + 1).last() == items@[i as int]);
        match &items[i] {
            SelectedItem::Unreadable => {
                assert(saw_items(items@.take(i + 1)) == saw_items(before)) by {
                    if saw_items(items@.take(i + 1)) {
                        let k = choose|k: int| 0 <= k < i + 1 && #[trigger] items@.take(i + 1)[k] is Item;
                        assert(k < i);
                        assert(before[k] is Item);
                    }
                    if saw_items(before) {
                        let k = choose|k: int| 0 <= k < i && #[trigger] before[k] is Item;
                        assert(items@.take(i + 1)[k] is Item);
                    }
                }
            },
            SelectedItem::Item { file_system, path } => {
                assert(items@.take(i + 1)[i as int] is Item);
                saw = true;
                let keep = match path {
                    Some(p) => {
                        let fs_ok = match file_system {
                            Some(false) => false,
                            _ => true,
                        };
                        if fs_ok && usable_path(p.as_str()) {
                            Some(p.clone())
                        } else {
                            None
                        }
                    },
                    None => None,
                };
                match keep {
                    Some(p) => {
                        paths.push(p);
                    },
                    None => {},
                }
            },
        }
        assert(paths@.map_values(|p: String| p@) =~= item_paths(items@.take(i + 1)));
        i = i + 1;
    }
    assert(items@.take(items@.len() as int) =~= items@);
    let ghost views = paths@.map_values(|p: String| p@);
    if paths.len() > 0 {
        let sel = Selection::new(paths);
        assert(sel.paths() =~= views);
        return Ok(sel);
    }
    if saw {
        return Err(SelectionError::VirtualFolder);
    }
    Err(SelectionError::Empty)
}

/// Whether a selection read settles the question (a selection, or a
/// definitive empty or virtual-folder answer); anything else means the
/// reader could not tell and the next way of reading is tried.
pub open spec fn is_definitive(r: Result<Selection, SelectionError>) -> bool {
    match r {
        Ok(_) => true,
        Err(SelectionError::Empty) => true,
        Err(SelectionError::VirtualFolder) => true,
        Err(_) => false,
    }
}

pub fn settles(r: &Result<Selection, SelectionError>) -> (b: bool)
    ensures
        b == is_definitive(*r),
{
    match r {
        Ok(_) => true,
        Err(SelectionError::Empty) => true,
        Err(SelectionError::VirtualFolder) => true,
        Err(_) => false,
    }
}

/// The answer of trying several ways of reading the selection in order: the
/// first definitive one; when none is, the last failure; when nothing was
/// tried, no Explorer window.
pub open spec fn first_settled(attempts: Seq<Result<Selection, SelectionError>>) -> Result<Selection, SelectionError>
    decreases attempts.len(),
{
    if attempts.len() == 0 {
        Err(SelectionError::NoExplorerWindow)
    } else if is_definitive(attempts[0]) || attempts.len() == 1 {
        attempts[0]
    } else {
        first_settled(attempts.drop_first())
    }
}

/// The answer of the attempts, in the order they were made.
pub fn settle_attempts(attempts: Vec<Result<Selection, SelectionError>>) -> (r: Result<Selection, SelectionError>)
    ensures
        r == first_settled(attempts@),
{
    let ghost all = attempts@;
    let mut rest = attempts;
    let mut answer: Result<Selection, SelectionError> = Err(SelectionError::NoExplorerWindow);
    let mut later = false;
    while rest.len() > 0
        invariant
            rest@.len() <= all.len(),
            rest@ == all.take(rest@.len() as int),
            answer == first_settled(all.skip(rest@.len() as int)),
            later == (rest@.len() < all.len()),
        decreases rest@.len(),
    {
        let ghost n = rest@.len();
        let x = rest.pop().unwrap();
        assert(all.skip(n - 1).drop_first() =~= all.skip(n as int));
        assert(all.skip(n - 1)[0] == x);
        assert(rest@ =~= all.take(n - 1));
        if settles(&x) || !later {
            answer = x;
        }
        later = true;
    }
    assert(all.skip(0) =~= all);
    answer
}

/// Once an attempt gives a definitive answer, the later ones do not matter:
/// reading can stop there.
pub proof fn law_definitive_attempt_ends_the_search(attempts: Seq<Result<Selection, SelectionError>>, k: int)
    requires
        0 <= k < attempts.len(),
        is_definitive(attempts[k]),
    ensures
        first_settled(attempts) == first_settled(attempts.take(k + 1)),
    decreases k,
{
    if k > 0 && !is_definitive(attempts[0]) {
        law_definitive_attempt_ends_the_search(attempts.drop_first(), k - 1);
        assert(attempts.take(k + 1).drop_first() =~= attempts.drop_first().take(k));
    }
}

/// Window class of the desktop's hosts.
pub open spec fn is_desktop_host(class: Seq<char>) -> bool {
    class == "Progman"@ || class == "WorkerW"@
}

/// Whether the foreground window is the desktop: the window or one of its
/// ancestors (`classes` runs from the window up to the top level) is a
/// desktop host, so a click on a desktop icon counts too.
pub fn is_desktop_window(classes: &[String]) -> (r: bool)
    ensures
        r == exists|i: int| 0 <= i < classes@.len() && is_desktop_host(#[trigger] classes@[i]@),
{
    let mut i: usize = 0;
    while i < classes.len()
        invariant
            i <= classes@.len(),
            forall|j: int| 0 <= j < i ==> !is_desktop_host(#[trigger] classes@[j]@),
        decreases classes@.len() - i,
    {
        let c = chars_of(classes[i].as_str());
        if eq_str(&c, "Progman") || eq_str(&c, "WorkerW") {
            assert(is_desktop_host(classes@[i as int]@));
            return true;
        }
        i = i + 1;
    }
    false
}

/// Window class of a shell folder view.
pub open spec fn view_class() -> Seq<char> {
    "SHELLDLL_DefView"@
}

/// Which window, walking up from the focused one to the frame (`classes`
/// in that order), is the shell view the focus sits in: the first folder
/// view, if any (none when focus is in the address bar, search box, ...).
pub fn focused_view_position(classes: &[String]) -> (r: Option<usize>)
    ensures
        match r {
            Some(i) => i < classes@.len() && classes@[i as int]@ == view_class() && forall|j: int|
                0 <= j < i ==> #[trigger] classes@[j]@ != view_class(),
            None => forall|j: int| 0 <= j < classes@.len() ==> #[trigger] classes@[j]@ != view_class(),
        },
{
    let mut i: usize = 0;
    while i < classes.len()
        invariant
            i <= classes@.len(),
            forall|j: int| 0 <= j < i ==> #[trigger] classes@[j]@ != view_class(),
        decreases classes@.len() - i,
    {
        let c = chars_of(classes[i].as_str());
        if eq_str(&c, "SHELLDLL_DefView") {
            return Some(i);
        }
        i = i + 1;
    }
    None
}

/// One tab of an Explorer frame's tab strip, as UI Automation reported it.
#[derive(Debug, Clone)]
pub struct TabReading {
    pub name: String,
    /// Whether the tab says it is selected; none when it could not say.
    pub selected: Option<bool>,
}

/// The selected tab's index and every tab's name, in order; none when no tab
/// says it is selected (no tab strip, as on a single-tab window).
pub fn tab_strip(tabs: &[TabReading]) -> (r: Option<(usize, Vec<String>)>)
    ensures
        match r {
            Some((i, names)) => {
                &&& i < tabs@.len()
                &&& tabs@[i as int].selected == Some(true)
                &&& forall|j: int| 0 <= j < i ==> #[trigger] tabs@[j].selected != Some(true)
                &&& names@.len() == tabs@.len()
                &&& forall|j: int| 0 <= j < names@.len() ==> #[trigger] names@[j]@ == tabs@[j].name@
            },
            None => forall|j: int| 0 <= j < tabs@.len() ==> #[trigger] tabs@[j].selected != Some(true),
        },
{
    let mut names: Vec<String> = Vec::new();
    let mut selected: Option<usize> = None;
    let mut i: usize = 0;
    while i < tabs.len()
        invariant
            i <= tabs@.len(),
            names@.len() == i,
            forall|j: int| 0 <= j < i ==> #[trigger] names@[j]@ == tabs@[j].name@,
            match selected {
                Some(k) => k < i && tabs@[k as int].selected == Some(true) && forall|j: int|
                    0 <= j < k ==> #[trigger] tabs@[j].selected != Some(true),
                None => forall|j: int| 0 <= j < i ==> #[trigger] tabs@[j].selected != Some(true),
            },
        decreases tabs@.len() - i,
    {
        names.push(tabs[i].name.clone());
        if selected.is_none() {
            let is = match tabs[i].selected {
                Some(b) => b,
                None => false,
            };
            if is {
                selected = Some(i);
            }
        }
        i = i + 1;
    }
    match selected {
        Some(k) => Some((k, names)),
        None => None,
    }
}

/// The last component of a folder path, or nothing.
pub open spec fn folder_leaf(folder: Seq<char>) -> Seq<char> {
    match crate::path::file_name(folder) {
        Some(n) => n,
        None => seq![],
    }
}

/// Which Explorer window entry shows the visible tab: the tab strip's
/// selected index, but only when it is in range of both the entries and the
/// tab names, and the entry's folder (read by the caller; none when it could
/// not be read) ends in the tab's name, ignoring ASCII case. Otherwise none,
/// and the caller keeps enumeration order.
pub open spec fn preferred_tab(selected: nat, names: Seq<Seq<char>>, entries: nat, folder: Option<Seq<char>>) -> Option<nat> {
    if selected >= entries || selected >= names.len() {
        None
    } else {
        match folder {
            None => None,
            Some(f) => if lower(folder_leaf(f)) == lower(names[selected as int]) {
                Some(selected)
            } else {
                None
            },
        }
    }
}

pub fn preferred_tab_entry(selected: usize, names: &[String], entries: usize, folder: Option<&str>) -> (r: Option<usize>)
    ensures
        match r {
            Some(i) => preferred_tab(selected as nat, names@.map_values(|n: String| n@), entries as nat, match folder { Some(f) => Some(f@), None => None }) == Some(i as nat),
            None => preferred_tab(selected as nat, names@.map_values(|n: String| n@), entries as nat, match folder { Some(f) => Some(f@), None => None }) is None,
        },
{
    if selected >= entries || selected >= names.len() {
        return None;
    }
    let f = match folder {
        Some(f) => f,
        None => return None,
    };
    let p = chars_of(f);
    let leaf = match crate::path::path_file_name(&p) {
        Some(n) => n,
        None => Vec::new(),
    };
    let leaf_lower = crate::text::lower_chars(string_of(&leaf).as_str());
    let name_lower = crate::text::lower_chars(names[selected].as_str());
    assert(names@.map_values(|n: String| n@)[selected as int] == names@[selected as int]@);
    if crate::text::eq_chars(&leaf_lower, &name_lower) {
        Some(selected)
    } else {
        None
    }
}

/// The indices below `n` in ascending order, leaving out `skip`.
pub open spec fn indices_except(n: nat, skip: Option<nat>) -> Seq<nat>
    decreases n,
{
    if n == 0 {
        seq![]
    } else {
        let rest = indices_except((n - 1) as nat, skip);
        if skip == Some((n - 1) as nat) {
            rest
        } else {
            rest.push((n - 1) as nat)
        }
    }
}

/// The order in which `entries` Explorer window entries are tried: the
/// preferred one first (when it is in range), the rest in enumeration order.
pub open spec fn entry_order(entries: nat, preferred: Option<nat>) -> Seq<nat> {
    match preferred {
        Some(p) => if p < entries {
            seq![p] + indices_except(entries, Some(p))
        } else {
            indices_except(entries, None)
        },
        None => indices_except(entries, None),
    }
}

pub fn candidate_order(entries: usize, preferred: Option<usize>) -> (r: Vec<usize>)
    ensures
        r@.map_values(|i: usize| i as nat) == entry_order(
            entries as nat,
            match preferred { Some(p) => Some(p as nat), None => None },
        ),
{
    let first = match preferred {
        Some(p) => if p < entries { Some(p) } else { None },
        None => None,
    };
    let ghost skip = match first { Some(p) => Some(p as nat), None => None::<nat> };
    let ghost head: Seq<nat> = match first { Some(p) => seq![p as nat], None => seq![] };
    let mut r: Vec<usize> = Vec::new();
    match first {
        Some(p) => {
            r.push(p);
        },
        None => {},
    }
    let mut i: usize = 0;
    while i < entries
        invariant
            i <= entries,
            skip == match first { Some(p) => Some(p as nat), None => None::<nat> },
            r@.map_values(|x: usize| x as nat) == head + indices_except(i as nat, skip),
        decreases entries - i,
    {
        let ghost before = r@;
        let take = match first {
            Some(p) => p != i,
            None => true,
        };
        assert(take == (skip != Some(i as nat)));
        assert(indices_except((i + 1) as nat, skip) == if take {
            indices_except(i as nat, skip).push(i as nat)
        } else {
            indices_except(i as nat, skip)
        });
        if take {
            r.push(i);
            assert(r@ == before.push(i));
            assert(r@.map_values(|x: usize| x as nat) =~= before.map_values(|x: usize| x as nat).push(i as nat));
        }
        assert(r@.map_values(|x: usize| x as nat) =~= head + indices_except((i + 1) as nat, skip));
        i = i + 1;
    }
    r
}

} // verus!
