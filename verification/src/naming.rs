//! Collision-safe output naming: `photo.jpg`, `photo (1).jpg`, ...
//!
//! The destination comes from the configured output location, so a user who
//! picked a folder gets files there rather than beside the original. Whether a
//! candidate is taken is asked of the caller's `is_taken` probe, in order.
use vstd::prelude::*;
use crate::path::{file_stem, parent, join, path_file_stem, path_parent, path_join};
use crate::settings::OutputLocation;
use crate::text::{chars_of, string_of, concat_chars};

verus! {

/// How many numbered candidates are probed before falling back to a timestamp.
pub const MAX_ATTEMPTS: u64 = 10000;

/// The decimal digit for `d < 10`.
pub open spec fn digit(d: nat) -> char {
    ((d + 48) as u32) as char
}

/// The decimal representation of `n`.
pub open spec fn decimal(n: nat) -> Seq<char>
    decreases n,
{
    if n < 10 {
        seq![digit(n)]
    } else {
        decimal(n / 10).push(digit(n % 10))
    }
}

/// `e` without its leading dots.
pub open spec fn trim_leading_dots(e: Seq<char>) -> Seq<char>
    decreases e.len(),
{
    if e.len() > 0 && e[0] == '.' {
        trim_leading_dots(e.drop_first())
    } else {
        e
    }
}

/// `stem.ext`.
pub open spec fn plain_name(stem: Seq<char>, ext: Seq<char>) -> Seq<char> {
    stem + seq!['.'] + ext
}

/// `stem (n).ext`.
pub open spec fn numbered_name(stem: Seq<char>, n: nat, ext: Seq<char>) -> Seq<char> {
    stem + seq![' ', '('] + decimal(n) + seq![')', '.'] + ext
}

/// Candidate `k` in `dir`: the plain name first, then numbered ones.
pub open spec fn candidate(dir: Seq<char>, stem: Seq<char>, ext: Seq<char>, k: nat) -> Seq<char> {
    if k == 0 {
        join(dir, plain_name(stem, ext))
    } else {
        join(dir, numbered_name(stem, k, ext))
    }
}

/// The probe answered `taken` for `path`.
pub open spec fn answered<F: Fn(&str) -> bool>(probe: F, path: Seq<char>, taken: bool) -> bool {
    exists|s: &str| s@ == path && #[trigger] call_ensures(probe, (s,), taken)
}

/// `r` is what the search in `dir` settles on: the first candidate the probe
/// reported free, or, when all of them were taken, the name numbered by the
/// timestamp `secs`.
pub open spec fn unique_result<F: Fn(&str) -> bool>(
    probe: F,
    dir: Seq<char>,
    stem: Seq<char>,
    ext: Seq<char>,
    secs: nat,
    r: Seq<char>,
) -> bool {
    ||| exists|k: nat|
        #![trigger candidate(dir, stem, ext, k)]
        k < MAX_ATTEMPTS && r == candidate(dir, stem, ext, k) && answered(probe, r, false) && forall|
            j: nat,
        |
            j < k ==> answered(probe, #[trigger] candidate(dir, stem, ext, j), true)
    ||| (forall|j: nat|
        j < MAX_ATTEMPTS ==> answered(probe, #[trigger] candidate(dir, stem, ext, j), true)) && r
        == join(dir, numbered_name(stem, secs, ext))
}

/// The directory a sibling of `original` goes in.
pub open spec fn sibling_dir(original: Seq<char>) -> Seq<char> {
    match parent(original) {
        Some(d) => d,
        None => seq!['.'],
    }
}

/// The stem the output keeps.
pub open spec fn output_stem(original: Seq<char>) -> Seq<char> {
    match file_stem(original) {
        Some(s) => s,
        None => "output"@,
    }
}

/// The directory output goes in for a configured location.
pub open spec fn output_dir(original: Seq<char>, location: OutputLocation) -> Seq<char> {
    match location {
        OutputLocation::Folder(folder) => folder@,
        _ => sibling_dir(original),
    }
}

/// Appends the decimal digits of `n`.
fn push_decimal(out: &mut Vec<char>, n: u64)
    ensures
        final(out)@ == old(out)@ + decimal(n as nat),
    decreases n,
{
    if n >= 10 {
        push_decimal(out, n / 10);
    }
    let d: u8 = (n % 10) as u8;
    out.push((d + 48) as char);
    proof {
        if n >= 10 {
            assert(decimal(n as nat) == decimal((n / 10) as nat).push(digit((n % 10) as nat)));
        }
    }
    assert(final(out)@ =~= old(out)@ + decimal(n as nat));
}

fn trim_dots(e: &Vec<char>) -> (r: Vec<char>)
    ensures
        r@ == trim_leading_dots(e@),
{
    let mut i: usize = 0;
    assert(e@.subrange(0, e@.len() as int) =~= e@);
    while i < e.len() && e[i] == '.'
        invariant
            i <= e@.len(),
            trim_leading_dots(e@.subrange(i as int, e@.len() as int)) == trim_leading_dots(e@),
        decreases e@.len() - i,
    {
        assert(e@.subrange(i as int, e@.len() as int).drop_first() =~= e@.subrange(
            i + 1,
            e@.len() as int,
        ));
        i = i + 1;
    }
    crate::text::slice_chars(e, i, e.len())
}

/// `ext` without its leading dots.
pub fn trim_dots_str(ext: &str) -> (r: String)
    ensures
        r@ == trim_leading_dots(ext@),
{
    string_of(&trim_dots(&chars_of(ext)))
}

/// Candidate `k` in `dir`.
fn candidate_path(dir: &Vec<char>, stem: &Vec<char>, ext: &Vec<char>, k: u64) -> (r: String)
    ensures
        r@ == candidate(dir@, stem@, ext@, k as nat),
{
    let mut name = crate::text::slice_chars(stem, 0, stem.len());
    if k == 0 {
        name.push('.');
    } else {
        name.push(' ');
        name.push('(');
        push_decimal(&mut name, k);
        name.push(')');
        name.push('.');
    }
    let name = concat_chars(&name, ext);
    assert(k == 0 ==> name@ =~= plain_name(stem@, ext@));
    assert(k != 0 ==> name@ =~= numbered_name(stem@, k as nat, ext@));
    string_of(&path_join(dir, &name))
}

/// First free `stem.ext` in `dir`, then `stem (1).ext`, and so on; when every
/// numbered candidate is taken, `stem (now_secs).ext`. A leading dot on
/// `new_ext` is ignored.
pub fn unique_path_in<F: Fn(&str) -> bool>(
    dir: &str,
    stem: &str,
    new_ext: &str,
    is_taken: &F,
    now_secs: u64,
) -> (r: String)
    requires
        forall|s: &str| is_taken.requires((s,)),
    ensures
        unique_result(*is_taken, dir@, stem@, trim_leading_dots(new_ext@), now_secs as nat, r@),
{
    let d = chars_of(dir);
    let s = chars_of(stem);
    let e = trim_dots(&chars_of(new_ext));
    let mut k: u64 = 0;
    while k < MAX_ATTEMPTS
        invariant
            forall|s: &str| is_taken.requires((s,)),
            k <= MAX_ATTEMPTS,
            d@ == dir@,
            s@ == stem@,
            e@ == trim_leading_dots(new_ext@),
            forall|j: nat| j < k ==> answered(*is_taken, #[trigger] candidate(d@, s@, e@, j), true),
        decreases MAX_ATTEMPTS - k,
    {
        let c = candidate_path(&d, &s, &e, k);
        let taken = is_taken(c.as_str());
        if !taken {
            assert(answered(*is_taken, c@, false));
            assert(c@ == candidate(d@, s@, e@, k as nat));
            assert(unique_result(*is_taken, d@, s@, e@, now_secs as nat, c@));
            return c;
        }
        assert(answered(*is_taken, candidate(d@, s@, e@, k as nat), true));
        k = k + 1;
    }
    let mut name = crate::text::slice_chars(&s, 0, s.len());
    name.push(' ');
    name.push('(');
    push_decimal(&mut name, now_secs);
    name.push(')');
    name.push('.');
    let name = concat_chars(&name, &e);
    assert(name@ =~= numbered_name(s@, now_secs as nat, e@));
    string_of(&path_join(&d, &name))
}

/// A path for `original` re-encoded as `new_ext`, in the original's own
/// directory, that the probe reported free. Never the original itself when
/// the probe reports it as existing.
pub fn unique_sibling_path<F: Fn(&str) -> bool>(
    original: &str,
    new_ext: &str,
    is_taken: &F,
    now_secs: u64,
) -> (r: String)
    requires
        forall|s: &str| is_taken.requires((s,)),
    ensures
        unique_result(
            *is_taken,
            sibling_dir(original@),
            output_stem(original@),
            trim_leading_dots(new_ext@),
            now_secs as nat,
            r@,
        ),
{
    let p = chars_of(original);
    let dir = match path_parent(&p) {
        Some(d) => string_of(&d),
        None => {
            proof {
                reveal_strlit(".");
            }
            let dot = ".".to_owned();
            assert(dot@ =~= seq!['.']);
            dot
        },
    };
    let stem = match path_file_stem(&p) {
        Some(s) => string_of(&s),
        None => "output".to_owned(),
    };
    unique_path_in(dir.as_str(), stem.as_str(), new_ext, is_taken, now_secs)
}

/// Where a conversion should write, honouring the configured destination.
/// The original is never modified or moved. `AskEachTime` has no prompt yet,
/// so it falls back to beside the original.
pub fn output_path_for<F: Fn(&str) -> bool>(
    original: &str,
    new_ext: &str,
    location: &OutputLocation,
    is_taken: &F,
    now_secs: u64,
) -> (r: String)
    requires
        forall|s: &str| is_taken.requires((s,)),
    ensures
        unique_result(
            *is_taken,
            output_dir(original@, *location),
            output_stem(original@),
            trim_leading_dots(new_ext@),
            now_secs as nat,
            r@,
        ),
{
    match location {
        OutputLocation::Folder(folder) => {
            let p = chars_of(original);
            let stem = match path_file_stem(&p) {
                Some(s) => string_of(&s),
                None => "output".to_owned(),
            };
            unique_path_in(folder.as_str(), stem.as_str(), new_ext, is_taken, now_secs)
        },
        _ => unique_sibling_path(original, new_ext, is_taken, now_secs),
    }
}

/// Asking each time resolves to the same directory as beside the original.
pub proof fn law_ask_each_time_is_beside_original(original: Seq<char>)
    ensures
        output_dir(original, OutputLocation::AskEachTime) == output_dir(
            original,
            OutputLocation::BesideOriginal,
        ),
{
}

/// The probe gives one answer per path.
pub open spec fn consistent<F: Fn(&str) -> bool>(probe: F) -> bool {
    forall|a: &str, b: &str, x: bool, y: bool|
        #![trigger call_ensures(probe, (a,), x), call_ensures(probe, (b,), y)]
        a@ == b@ && call_ensures(probe, (a,), x) && call_ensures(probe, (b,), y) ==> x == y
}

/// Output never lands on a path the probe reports as taken (the original,
/// or an earlier output), as long as some candidate was free.
pub proof fn law_never_a_taken_path<F: Fn(&str) -> bool>(
    probe: F,
    dir: Seq<char>,
    stem: Seq<char>,
    ext: Seq<char>,
    secs: nat,
    r: Seq<char>,
    taken: Seq<char>,
)
    requires
        unique_result(probe, dir, stem, ext, secs, r),
        consistent(probe),
        answered(probe, taken, true),
        exists|k: nat| k < MAX_ATTEMPTS && answered(probe, #[trigger] candidate(dir, stem, ext, k), false),
    ensures
        r != taken,
{
    let k = choose|k: nat| k < MAX_ATTEMPTS && answered(probe, #[trigger] candidate(dir, stem, ext, k), false);
    if forall|j: nat| j < MAX_ATTEMPTS ==> answered(probe, #[trigger] candidate(dir, stem, ext, j), true) {
        assert(answered(probe, candidate(dir, stem, ext, k), true));
        let a = choose|s: &str| s@ == candidate(dir, stem, ext, k) && #[trigger] call_ensures(probe, (s,), true);
        let b = choose|s: &str| s@ == candidate(dir, stem, ext, k) && #[trigger] call_ensures(probe, (s,), false);
        assert(false);
    }
    assert(answered(probe, r, false));
    if r == taken {
        let a = choose|s: &str| s@ == r && #[trigger] call_ensures(probe, (s,), true);
        let b = choose|s: &str| s@ == r && #[trigger] call_ensures(probe, (s,), false);
        assert(false);
    }
}

/// The digits of a decimal representation.
proof fn lemma_decimal_digits(n: nat)
    ensures
        decimal(n).len() > 0,
        forall|i: int| 0 <= i < decimal(n).len() ==> '0' <= #[trigger] decimal(n)[i] <= '9',
    decreases n,
{
    if n >= 10 {
        lemma_decimal_digits(n / 10);
        let d = decimal(n / 10);
        assert forall|i: int| 0 <= i < decimal(n).len() implies '0' <= #[trigger] decimal(n)[i] <= '9' by {
            if i < d.len() {
                assert(decimal(n)[i] == d[i]);
            }
        }
    }
}

/// No character of `s` is a separator.
pub open spec fn no_seps(s: Seq<char>) -> bool {
    forall|j: int| 0 <= j < s.len() ==> !crate::path::is_sep(#[trigger] s[j])
}

/// Output names built from a stem and an extension without separators have
/// none either.
proof fn lemma_names_have_no_seps(stem: Seq<char>, n: nat, ext: Seq<char>)
    requires
        no_seps(stem),
        no_seps(ext),
    ensures
        no_seps(plain_name(stem, ext)),
        no_seps(numbered_name(stem, n, ext)),
        plain_name(stem, ext).len() > 0,
        numbered_name(stem, n, ext).len() > 0,
{
    let p = plain_name(stem, ext);
    assert forall|j: int| 0 <= j < p.len() implies !crate::path::is_sep(#[trigger] p[j]) by {
        if j < stem.len() {
            assert(p[j] == stem[j]);
        } else if j > stem.len() {
            assert(p[j] == ext[j - stem.len() - 1]);
        }
    }
    lemma_decimal_digits(n);
    let d = decimal(n);
    let m = numbered_name(stem, n, ext);
    assert forall|j: int| 0 <= j < m.len() implies !crate::path::is_sep(#[trigger] m[j]) by {
        if j < stem.len() {
            assert(m[j] == stem[j]);
        } else if j < stem.len() + 2 {
        } else if j < stem.len() + 2 + d.len() {
            assert(m[j] == d[j - stem.len() - 2]);
        } else if j < stem.len() + 4 + d.len() {
        } else {
            assert(m[j] == ext[j - stem.len() - 4 - d.len()]);
        }
    }
}

/// A directory `join` can place a name in and give back as the parent: empty,
/// a root, or written without a trailing separator.
pub open spec fn plain_dir(dir: Seq<char>) -> bool {
    dir.len() == 0 || !crate::path::is_sep(dir.last()) || dir.len() == 1
}

/// Output lands in the directory it was searched in: the parent of the
/// result is that directory (for a stem and extension without separators).
pub proof fn law_output_lies_in_its_directory<F: Fn(&str) -> bool>(
    probe: F,
    dir: Seq<char>,
    stem: Seq<char>,
    ext: Seq<char>,
    secs: nat,
    r: Seq<char>,
)
    requires
        unique_result(probe, dir, stem, ext, secs, r),
        plain_dir(dir),
        no_seps(stem),
        no_seps(ext),
    ensures
        parent(r) == Some(dir),
{
    if exists|k: nat|
        #![trigger candidate(dir, stem, ext, k)]
        k < MAX_ATTEMPTS && r == candidate(dir, stem, ext, k) && answered(probe, r, false) && forall|
            j: nat,
        |
            j < k ==> answered(probe, #[trigger] candidate(dir, stem, ext, j), true) {
        let k = choose|k: nat|
            #![trigger candidate(dir, stem, ext, k)]
            k < MAX_ATTEMPTS && r == candidate(dir, stem, ext, k) && answered(probe, r, false)
                && forall|j: nat| j < k ==> answered(probe, #[trigger] candidate(dir, stem, ext, j), true);
        lemma_names_have_no_seps(stem, k, ext);
        if k == 0 {
            crate::path::lemma_parent_of_join(dir, plain_name(stem, ext));
        } else {
            crate::path::lemma_parent_of_join(dir, numbered_name(stem, k, ext));
        }
    } else {
        lemma_names_have_no_seps(stem, secs, ext);
        crate::path::lemma_parent_of_join(dir, numbered_name(stem, secs, ext));
    }
}

/// The directory beside an original is one `join` gives back as the parent,
/// and the stem an output keeps has no separators.
pub proof fn law_sibling_dir_and_stem_are_plain(original: Seq<char>)
    ensures
        plain_dir(sibling_dir(original)),
        no_seps(output_stem(original)),
{
    let t = crate::path::trim_end_seps(original);
    crate::path::lemma_trim_end_seps(original);
    crate::path::lemma_last_sep(t);
    if t.len() > 0 && crate::path::last_sep(t) >= 0 {
        let q = crate::path::trim_end_seps(t.subrange(0, crate::path::last_sep(t)));
        crate::path::lemma_trim_end_seps(t.subrange(0, crate::path::last_sep(t)));
        if q.len() > 0 {
            assert(!crate::path::is_sep(q.last()));
        }
    }
    match crate::path::file_stem(original) {
        Some(st) => {
            let n = t.subrange(crate::path::last_sep(t) + 1, t.len() as int);
            assert forall|j: int| 0 <= j < n.len() implies !crate::path::is_sep(#[trigger] n[j]) by {
                assert(n[j] == t[crate::path::last_sep(t) + 1 + j]);
            }
            assert(crate::path::file_name(original) == Some(n));
            crate::path::lemma_last_dot(n);
            assert(st == crate::path::name_stem(n));
            assert(st.len() <= n.len());
            assert forall|j: int| 0 <= j < st.len() implies !crate::path::is_sep(#[trigger] st[j]) by {
                assert(st[j] == n[j]);
            }
        },
        None => {
            reveal_strlit("output");
            assert("output"@ =~= seq!['o', 'u', 't', 'p', 'u', 't']);
        },
    }
}

/// The search settles on one path: two searches in the same place that got
/// the same answers from the file system agree.
pub proof fn law_search_settles_on_one_path<F: Fn(&str) -> bool>(
    probe: F,
    dir: Seq<char>,
    stem: Seq<char>,
    ext: Seq<char>,
    secs: nat,
    r1: Seq<char>,
    r2: Seq<char>,
)
    requires
        consistent(probe),
        unique_result(probe, dir, stem, ext, secs, r1),
        unique_result(probe, dir, stem, ext, secs, r2),
    ensures
        r1 == r2,
{
    if r1 != r2 {
        if exists|k: nat|
            #![trigger candidate(dir, stem, ext, k)]
            k < MAX_ATTEMPTS && r1 == candidate(dir, stem, ext, k) && answered(probe, r1, false)
                && forall|j: nat| j < k ==> answered(probe, #[trigger] candidate(dir, stem, ext, j), true) {
            let k1 = choose|k: nat|
                #![trigger candidate(dir, stem, ext, k)]
                k < MAX_ATTEMPTS && r1 == candidate(dir, stem, ext, k) && answered(probe, r1, false)
                    && forall|j: nat| j < k ==> answered(probe, #[trigger] candidate(dir, stem, ext, j), true);
            lemma_not_both(probe, r1);
            if exists|k: nat|
                #![trigger candidate(dir, stem, ext, k)]
                k < MAX_ATTEMPTS && r2 == candidate(dir, stem, ext, k) && answered(probe, r2, false)
                    && forall|j: nat| j < k ==> answered(probe, #[trigger] candidate(dir, stem, ext, j), true) {
                let k2 = choose|k: nat|
                    #![trigger candidate(dir, stem, ext, k)]
                    k < MAX_ATTEMPTS && r2 == candidate(dir, stem, ext, k) && answered(probe, r2, false)
                        && forall|j: nat| j < k ==> answered(probe, #[trigger] candidate(dir, stem, ext, j), true);
                lemma_not_both(probe, r2);
                if k1 < k2 {
                    assert(answered(probe, candidate(dir, stem, ext, k1), true));
                } else if k2 < k1 {
                    assert(answered(probe, candidate(dir, stem, ext, k2), true));
                }
            } else {
                assert(answered(probe, candidate(dir, stem, ext, k1), true));
            }
        } else {
            let k2 = choose|k: nat|
                #![trigger candidate(dir, stem, ext, k)]
                k < MAX_ATTEMPTS && r2 == candidate(dir, stem, ext, k) && answered(probe, r2, false)
                    && forall|j: nat| j < k ==> answered(probe, #[trigger] candidate(dir, stem, ext, j), true);
            lemma_not_both(probe, r2);
            assert(answered(probe, candidate(dir, stem, ext, k2), true));
        }
    }
}

/// A consistent probe never answers both ways for one path.
proof fn lemma_not_both<F: Fn(&str) -> bool>(probe: F, path: Seq<char>)
    requires
        consistent(probe),
    ensures
        !(answered(probe, path, true) && answered(probe, path, false)),
{
    if answered(probe, path, true) && answered(probe, path, false) {
        let a = choose|s: &str| s@ == path && #[trigger] call_ensures(probe, (s,), true);
        let b = choose|s: &str| s@ == path && #[trigger] call_ensures(probe, (s,), false);
        assert(false);
    }
}

/// For every location but a chosen folder the output is the sibling path:
/// beside the original, in the original's directory.
pub proof fn law_unless_a_folder_output_is_the_sibling_path<F: Fn(&str) -> bool>(
    probe: F,
    original: Seq<char>,
    location: OutputLocation,
    ext: Seq<char>,
    secs: nat,
    output: Seq<char>,
    sibling: Seq<char>,
)
    requires
        consistent(probe),
        !(location is Folder),
        unique_result(probe, output_dir(original, location), output_stem(original), ext, secs, output),
        unique_result(probe, sibling_dir(original), output_stem(original), ext, secs, sibling),
        no_seps(ext),
    ensures
        output == sibling,
        parent(output) == Some(sibling_dir(original)),
{
    law_search_settles_on_one_path(probe, sibling_dir(original), output_stem(original), ext, secs, output, sibling);
    law_sibling_dir_and_stem_are_plain(original);
    law_output_lies_in_its_directory(probe, sibling_dir(original), output_stem(original), ext, secs, output);
}

} // verus!
