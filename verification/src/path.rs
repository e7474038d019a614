//! A model of the path operations the naming and classification rules use:
//! file name, stem, extension, parent and join. Both `/` and `\\` separate
//! components (Explorer hands out either); `join` inserts `\\` after a directory
//! written with backslashes and `/` otherwise.
use vstd::prelude::*;
use crate::text::{slice_chars, concat_chars};

verus! {

pub open spec fn is_sep(c: char) -> bool {
    c == '/' || c == '\\'
}

/// `p` without its trailing separators.
pub open spec fn trim_end_seps(p: Seq<char>) -> Seq<char>
    decreases p.len(),
{
    if p.len() > 0 && is_sep(p.last()) {
        trim_end_seps(p.drop_last())
    } else {
        p
    }
}

/// Index of the last separator in `p`, or -1.
pub open spec fn last_sep(p: Seq<char>) -> int
    decreases p.len(),
{
    if p.len() == 0 {
        -1
    } else if is_sep(p.last()) {
        p.len() - 1
    } else {
        last_sep(p.drop_last())
    }
}

/// Index of the last `.` in `p`, or -1.
pub open spec fn last_dot(p: Seq<char>) -> int
    decreases p.len(),
{
    if p.len() == 0 {
        -1
    } else if p.last() == '.' {
        p.len() - 1
    } else {
        last_dot(p.drop_last())
    }
}

/// The final component of `p`; none for an empty path, a root, `.` or `..`.
pub open spec fn file_name(p: Seq<char>) -> Option<Seq<char>> {
    let t = trim_end_seps(p);
    let n = t.subrange(last_sep(t) + 1, t.len() as int);
    if n.len() == 0 || n == seq!['.'] || n == seq!['.', '.'] {
        None
    } else {
        Some(n)
    }
}

/// The stem of a file name: everything before its last dot, unless that dot
/// is the first character.
pub open spec fn name_stem(n: Seq<char>) -> Seq<char> {
    let d = last_dot(n);
    if d <= 0 { n } else { n.subrange(0, d) }
}

/// The extension of a file name: everything after its last dot, unless that
/// dot is the first character.
pub open spec fn name_extension(n: Seq<char>) -> Option<Seq<char>> {
    let d = last_dot(n);
    if d <= 0 { None } else { Some(n.subrange(d + 1, n.len() as int)) }
}

pub open spec fn file_stem(p: Seq<char>) -> Option<Seq<char>> {
    match file_name(p) {
        Some(n) => Some(name_stem(n)),
        None => None,
    }
}

pub open spec fn extension(p: Seq<char>) -> Option<Seq<char>> {
    match file_name(p) {
        Some(n) => name_extension(n),
        None => None,
    }
}

/// `p` without its final component; none for an empty path or a root.
pub open spec fn parent(p: Seq<char>) -> Option<Seq<char>> {
    let t = trim_end_seps(p);
    if t.len() == 0 {
        None
    } else {
        let i = last_sep(t);
        if i < 0 {
            Some(Seq::<char>::empty())
        } else {
            let q = trim_end_seps(t.subrange(0, i));
            if q.len() == 0 { Some(t.subrange(0, 1)) } else { Some(q) }
        }
    }
}

/// The separator `join` inserts after `dir`: a backslash when `dir` is
/// written with backslashes (a Windows path), a slash otherwise.
pub open spec fn separator_for(dir: Seq<char>) -> char {
    if dir.contains('\\') { '\\' } else { '/' }
}

/// `name` placed inside `dir`.
pub open spec fn join(dir: Seq<char>, name: Seq<char>) -> Seq<char> {
    if dir.len() == 0 {
        name
    } else if is_sep(dir.last()) {
        dir + name
    } else {
        dir + seq![separator_for(dir)] + name
    }
}

pub proof fn lemma_last_sep(p: Seq<char>)
    ensures
        -1 <= last_sep(p) < p.len(),
        last_sep(p) >= 0 ==> is_sep(p[last_sep(p)]),
        forall|j: int| last_sep(p) < j < p.len() ==> !is_sep(#[trigger] p[j]),
    decreases p.len(),
{
    if p.len() > 0 && !is_sep(p.last()) {
        lemma_last_sep(p.drop_last());
        assert forall|j: int| last_sep(p) < j < p.len() implies !is_sep(#[trigger] p[j]) by {
            if j < p.len() - 1 {
                assert(p[j] == p.drop_last()[j]);
            }
        }
    }
}

pub proof fn lemma_last_dot(p: Seq<char>)
    ensures
        -1 <= last_dot(p) < p.len(),
        last_dot(p) >= 0 ==> p[last_dot(p)] == '.',
        forall|j: int| last_dot(p) < j < p.len() ==> #[trigger] p[j] != '.',
    decreases p.len(),
{
    if p.len() > 0 && p.last() != '.' {
        lemma_last_dot(p.drop_last());
        assert forall|j: int| last_dot(p) < j < p.len() implies #[trigger] p[j] != '.' by {
            if j < p.len() - 1 {
                assert(p[j] == p.drop_last()[j]);
            }
        }
    }
}

pub proof fn lemma_trim_end_seps(p: Seq<char>)
    ensures
        trim_end_seps(p).len() <= p.len(),
        trim_end_seps(p) == p.subrange(0, trim_end_seps(p).len() as int),
        trim_end_seps(p).len() > 0 ==> !is_sep(trim_end_seps(p).last()),
    decreases p.len(),
{
    if p.len() > 0 && is_sep(p.last()) {
        lemma_trim_end_seps(p.drop_last());
        assert(p.drop_last().subrange(0, trim_end_seps(p).len() as int) =~= p.subrange(
            0,
            trim_end_seps(p).len() as int,
        ));
    } else {
        assert(p.subrange(0, p.len() as int) =~= p);
    }
}

/// A plain name joined onto a directory has that directory as its parent,
/// for an empty directory, a root, or a directory written without a
/// trailing separator.
pub proof fn lemma_parent_of_join(dir: Seq<char>, name: Seq<char>)
    requires
        name.len() > 0,
        forall|j: int| 0 <= j < name.len() ==> !is_sep(#[trigger] name[j]),
        dir.len() == 0 || !is_sep(dir.last()) || dir.len() == 1,
    ensures
        parent(join(dir, name)) == Some(dir),
{
    let t = join(dir, name);
    assert(t.last() == name.last()) by {
        if dir.len() > 0 && is_sep(dir.last()) {
            assert(t =~= dir + name);
        } else if dir.len() > 0 {
            assert(t =~= dir + seq![separator_for(dir)] + name);
        }
    }
    assert(!is_sep(name[name.len() - 1]));
    assert(trim_end_seps(t) == t);
    if dir.len() == 0 {
        lemma_last_sep(name);
        if last_sep(name) >= 0 {
            assert(is_sep(name[last_sep(name)]));
        }
        assert(last_sep(t) == -1);
    } else {
        let sep = separator_for(dir);
        assert(is_sep(sep));
        let pre = if is_sep(dir.last()) { dir } else { dir + seq![sep] };
        assert(t =~= pre + name);
        lemma_last_sep_append(pre, name);
        assert(last_sep(pre) == pre.len() - 1);
        if is_sep(dir.last()) {
            assert(dir.len() == 1);
            assert(t.subrange(0, 0) =~= Seq::<char>::empty());
            assert(t.subrange(0, 1) =~= dir);
        } else {
            assert(t.subrange(0, dir.len() as int) =~= dir);
            assert(trim_end_seps(dir) == dir);
        }
    }
}

/// Appending characters that are not separators leaves the last separator.
pub proof fn lemma_last_sep_append(a: Seq<char>, b: Seq<char>)
    requires
        forall|j: int| 0 <= j < b.len() ==> !is_sep(#[trigger] b[j]),
    ensures
        last_sep(a + b) == last_sep(a),
    decreases b.len(),
{
    if b.len() == 0 {
        assert(a + b =~= a);
    } else {
        assert((a + b).drop_last() =~= a + b.drop_last());
        assert((a + b).last() == b[b.len() - 1]);
        lemma_last_sep_append(a, b.drop_last());
    }
}

/// Appending characters that are not dots leaves the last dot.
pub proof fn lemma_last_dot_append(a: Seq<char>, b: Seq<char>)
    requires
        forall|j: int| 0 <= j < b.len() ==> #[trigger] b[j] != '.',
    ensures
        last_dot(a + b) == last_dot(a),
    decreases b.len(),
{
    if b.len() == 0 {
        assert(a + b =~= a);
    } else {
        assert((a + b).drop_last() =~= a + b.drop_last());
        assert((a + b).last() == b[b.len() - 1]);
        lemma_last_dot_append(a, b.drop_last());
    }
}

/// Joining a plain `stem.ext` file name keeps its stem and extension, and,
/// for a directory written without a trailing separator, its directory.
pub proof fn law_join_keeps_name_parts(dir: Seq<char>, stem: Seq<char>, ext: Seq<char>)
    requires
        stem.len() > 0,
        forall|j: int| 0 <= j < stem.len() ==> !is_sep(#[trigger] stem[j]),
        forall|j: int| 0 <= j < ext.len() ==> !is_sep(#[trigger] ext[j]) && ext[j] != '.',
        !(stem == seq!['.'] && ext.len() == 0),
    ensures
        file_stem(join(dir, stem + seq!['.'] + ext)) == Some(stem),
        extension(join(dir, stem + seq!['.'] + ext)) == Some(ext),
        dir.len() > 0 && !is_sep(dir.last()) ==> parent(join(dir, stem + seq!['.'] + ext))
            == Some(dir),
{
    let name = stem + seq!['.'] + ext;
    let sep = separator_for(dir);
    assert(is_sep(sep));
    let pre = if dir.len() == 0 {
        dir
    } else if is_sep(dir.last()) {
        dir
    } else {
        dir + seq![sep]
    };
    assert(join(dir, name) =~= pre + name);
    let t = pre + name;
    assert forall|j: int| 0 <= j < name.len() implies !is_sep(#[trigger] name[j]) by {
        if j < stem.len() {
            assert(name[j] == stem[j]);
        } else if j > stem.len() {
            assert(name[j] == ext[j - stem.len() - 1]);
        }
    }
    assert(t.last() == name.last());
    assert(!is_sep(t.last()));
    assert(trim_end_seps(t) == t);
    lemma_last_sep_append(pre, name);
    lemma_last_sep(pre);
    assert(last_sep(pre) == pre.len() - 1) by {
        if pre.len() > 0 {
            assert(is_sep(pre.last()));
        }
    }
    assert(t.subrange(last_sep(t) + 1, t.len() as int) =~= name);
    assert(name.len() >= 2);
    assert(name != seq!['.']);
    if name == seq!['.', '.'] {
        assert(stem.len() == 1);
        assert(stem[0] == name[0]);
        assert(stem =~= seq!['.']);
        assert(false);
    }
    assert(file_name(join(dir, name)) == Some(name));
    let head = stem + seq!['.'];
    assert(name =~= head + ext);
    assert forall|j: int| 0 <= j < ext.len() implies #[trigger] ext[j] != '.' by {}
    lemma_last_dot_append(head, ext);
    assert(head.last() == '.');
    assert(last_dot(head) == stem.len());
    assert(name.subrange(0, stem.len() as int) =~= stem);
    assert(name.subrange(stem.len() + 1int, name.len() as int) =~= ext);
    if dir.len() > 0 && !is_sep(dir.last()) {
        assert(t.subrange(0, last_sep(t)) =~= dir);
        assert(trim_end_seps(dir) == dir);
    }
}

/// The length of `v` without its trailing separators.
fn trimmed_len(v: &Vec<char>) -> (n: usize)
    ensures
        n <= v@.len(),
        v@.subrange(0, n as int) == trim_end_seps(v@),
{
    let mut n = v.len();
    assert(v@.subrange(0, n as int) =~= v@);
    while n > 0 && (v[n - 1] == '/' || v[n - 1] == '\\')
        invariant
            n <= v@.len(),
            trim_end_seps(v@.subrange(0, n as int)) == trim_end_seps(v@),
        decreases n,
    {
        assert(v@.subrange(0, n as int).drop_last() =~= v@.subrange(0, n - 1));
        n = n - 1;
    }
    n
}

fn trim_seps(v: &Vec<char>) -> (r: Vec<char>)
    ensures
        r@ == trim_end_seps(v@),
{
    let n = trimmed_len(v);
    slice_chars(v, 0, n)
}

fn find_last_sep(v: &Vec<char>) -> (r: Option<usize>)
    ensures
        match r {
            Some(i) => i as int == last_sep(v@),
            None => last_sep(v@) == -1,
        },
{
    let mut i = v.len();
    assert(v@.subrange(0, i as int) =~= v@);
    while i > 0
        invariant
            i <= v@.len(),
            last_sep(v@.subrange(0, i as int)) == last_sep(v@),
        decreases i,
    {
        let ghost s = v@.subrange(0, i as int);
        if v[i - 1] == '/' || v[i - 1] == '\\' {
            assert(s.last() == v@[i - 1]);
            return Some(i - 1);
        }
        assert(s.drop_last() =~= v@.subrange(0, i - 1));
        i = i - 1;
    }
    None
}

fn find_last_dot(v: &Vec<char>) -> (r: Option<usize>)
    ensures
        match r {
            Some(i) => i as int == last_dot(v@),
            None => last_dot(v@) == -1,
        },
{
    let mut i = v.len();
    assert(v@.subrange(0, i as int) =~= v@);
    while i > 0
        invariant
            i <= v@.len(),
            last_dot(v@.subrange(0, i as int)) == last_dot(v@),
        decreases i,
    {
        let ghost s = v@.subrange(0, i as int);
        if v[i - 1] == '.' {
            assert(s.last() == v@[i - 1]);
            return Some(i - 1);
        }
        assert(s.drop_last() =~= v@.subrange(0, i - 1));
        i = i - 1;
    }
    None
}

pub open spec fn opt_chars(o: Option<Vec<char>>) -> Option<Seq<char>> {
    match o {
        Some(v) => Some(v@),
        None => None,
    }
}

/// The final component of `p` (`Path::file_name`).
pub fn path_file_name(p: &Vec<char>) -> (r: Option<Vec<char>>)
    ensures
        opt_chars(r) == file_name(p@),
{
    let t = trim_seps(p);
    proof {
        lemma_last_sep(t@);
    }
    let start = match find_last_sep(&t) {
        Some(i) => {
            assert(i < t@.len());
            i + 1
        },
        None => 0,
    };
    let n = slice_chars(&t, start, t.len());
    if n.len() == 0 || (n.len() == 1 && n[0] == '.') || (n.len() == 2 && n[0] == '.' && n[1]
        == '.') {
        proof {
            if n@.len() == 1 {
                assert(n@ =~= seq!['.']);
            }
            if n@.len() == 2 {
                assert(n@ =~= seq!['.', '.']);
            }
        }
        None
    } else {
        assert(n@ != seq!['.']);
        assert(n@ != seq!['.', '.']);
        Some(n)
    }
}

/// Splits a file name into its stem and extension.
pub fn split_file_name(n: &Vec<char>) -> (r: (Vec<char>, Option<Vec<char>>))
    ensures
        r.0@ == name_stem(n@),
        opt_chars(r.1) == name_extension(n@),
{
    proof {
        lemma_last_dot(n@);
    }
    let len = n.len();
    match find_last_dot(n) {
        Some(d) => {
            assert(d < len);
            if d == 0 {
                (slice_chars(n, 0, n.len()), None)
            } else {
                (slice_chars(n, 0, d), Some(slice_chars(n, d + 1, len)))
            }
        },
        None => (slice_chars(n, 0, n.len()), None),
    }
}

/// `Path::extension`.
pub fn path_extension(p: &Vec<char>) -> (r: Option<Vec<char>>)
    ensures
        opt_chars(r) == extension(p@),
{
    match path_file_name(p) {
        Some(n) => split_file_name(&n).1,
        None => None,
    }
}

/// `Path::file_stem`.
pub fn path_file_stem(p: &Vec<char>) -> (r: Option<Vec<char>>)
    ensures
        opt_chars(r) == file_stem(p@),
{
    match path_file_name(p) {
        Some(n) => Some(split_file_name(&n).0),
        None => None,
    }
}

/// `Path::parent`.
pub fn path_parent(p: &Vec<char>) -> (r: Option<Vec<char>>)
    ensures
        opt_chars(r) == parent(p@),
{
    let t = trim_seps(p);
    if t.len() == 0 {
        return None;
    }
    proof {
        lemma_last_sep(t@);
    }
    match find_last_sep(&t) {
        None => Some(Vec::new()),
        Some(i) => {
            let head = slice_chars(&t, 0, i);
            let q = trim_seps(&head);
            if q.len() == 0 {
                Some(slice_chars(&t, 0, 1))
            } else {
                Some(q)
            }
        },
    }
}

/// The separator `join` inserts after `dir`.
fn separator_in(dir: &Vec<char>) -> (r: char)
    ensures
        r == separator_for(dir@),
{
    let mut i: usize = 0;
    while i < dir.len()
        invariant
            i <= dir@.len(),
            forall|j: int| 0 <= j < i ==> dir@[j] != '\\',
        decreases dir@.len() - i,
    {
        if dir[i] == '\\' {
            assert(dir@.contains('\\'));
            return '\\';
        }
        i = i + 1;
    }
    '/'
}

/// `name` placed inside `dir` (`Path::join` for a relative name).
pub fn path_join(dir: &Vec<char>, name: &Vec<char>) -> (r: Vec<char>)
    ensures
        r@ == join(dir@, name@),
{
    if dir.len() == 0 {
        slice_chars(name, 0, name.len())
    } else if dir[dir.len() - 1] == '/' || dir[dir.len() - 1] == '\\' {
        concat_chars(dir, name)
    } else {
        let mut with_sep = slice_chars(dir, 0, dir.len());
        with_sep.push(separator_in(dir));
        concat_chars(&with_sep, name)
    }
}

/// `name` placed inside `dir`, as a `String`.
pub fn join_str(dir: &str, name: &str) -> (r: String)
    ensures
        r@ == join(dir@, name@),
{
    let d = crate::text::chars_of(dir);
    let n = crate::text::chars_of(name);
    crate::text::string_of(&path_join(&d, &n))
}

} // verus!
