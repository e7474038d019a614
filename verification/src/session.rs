//! The decisions a running Zest session makes between its outside steps:
//! which selection a menu or a picked action works on, which menu goes on
//! screen, which jobs a picked action becomes, and what the user is told when
//! a global shortcut could not be bound.
use vstd::prelude::*;
use crate::convert::{normal_ext, Job, Operation};
use crate::menu::{
    categories, is_category_node, kinds_of, menu_for_selection, MenuAction, MenuNode,
};
use crate::selection::{Selection, SelectionError};
use crate::settings::{DEFAULT_CONVERT_HOTKEY, DEFAULT_HOTKEY};
use crate::text::{concat_strs, joined};

verus! {

/// The selection a menu is built from: a read that produced one, or nothing
/// (a virtual folder, or a read that failed), in which case a fallback ring
/// is shown.
pub fn resolve_selection(read: Result<Selection, SelectionError>) -> (r: Result<Selection, ()>)
    ensures
        match read {
            Ok(sel) => r == Ok::<Selection, ()>(sel),
            Err(_) => r is Err,
        },
{
    match read {
        Ok(selection) => Ok(selection),
        Err(_) => Err(()),
    }
}

/// The selection a picked action runs on when it is re-read: only a
/// non-empty one; an empty selection, a virtual folder or a failed read
/// leave nothing to run.
pub fn resolve_now(read: Result<Selection, SelectionError>) -> (r: Result<Selection, ()>)
    ensures
        match read {
            Ok(sel) => if sel.files@.len() > 0 {
                r == Ok::<Selection, ()>(sel)
            } else {
                r is Err
            },
            Err(_) => r is Err,
        },
{
    match read {
        Ok(selection) => {
            if selection.is_empty() {
                Err(())
            } else {
                Ok(selection)
            }
        },
        Err(_) => Err(()),
    }
}

/// The snapshot a picked action can run on without reading the selection
/// again: the one the visible menu was built from, unless it is missing or
/// empty.
pub fn usable_snapshot(snapshot: Option<Selection>) -> (r: Option<Selection>)
    ensures
        match snapshot {
            Some(sel) => if sel.files@.len() > 0 {
                r == Some(sel)
            } else {
                r is None
            },
            None => r is None,
        },
{
    match snapshot {
        Some(selection) => {
            if selection.is_empty() {
                None
            } else {
                Some(selection)
            }
        },
        None => None,
    }
}

/// The file the fallback ring stands for.
pub open spec fn fallback_paths() -> Seq<Seq<char>> {
    seq!["selection.png"@]
}

/// `nodes` is the two-ring menu for `paths` (with `dirs` saying which are
/// directories), as `menu_for_selection` builds it.
pub open spec fn is_menu_for(nodes: Seq<MenuNode>, paths: Seq<Seq<char>>, dirs: Seq<bool>) -> bool {
    &&& nodes.len() == categories(paths, dirs).len()
    &&& forall|i: int|
        0 <= i < nodes.len() ==> is_category_node(
            #[trigger] nodes[i],
            categories(paths, dirs)[i],
            kinds_of(paths, dirs)[0],
        )
}

/// Menu shown when the selection cannot be read: the categories and targets
/// a PNG would get, so the menu still tells the truth about what Zest can do.
pub fn fallback_menu() -> (r: Vec<MenuNode>)
    ensures
        is_menu_for(r@, fallback_paths(), seq![false]),
{
    let selection = Selection::new(vec!["selection.png".to_owned()]);
    let dirs = [false];
    assert(selection.paths() =~= fallback_paths());
    assert(dirs@ =~= seq![false]);
    menu_for_selection(&selection, &dirs)
}

/// The fallback ring is the ring of a single PNG: Convert and Archive.
pub proof fn law_fallback_ring_is_a_png_ring()
    ensures
        categories(fallback_paths(), seq![false]) == seq![
            crate::menu::ActionCategory::Convert,
            crate::menu::ActionCategory::Archive,
        ],
{
    reveal_strlit("selection.png");
    reveal_strlit("png");
    let stem = seq!['s', 'e', 'l', 'e', 'c', 't', 'i', 'o', 'n'];
    let ext = seq!['p', 'n', 'g'];
    let name = stem + seq!['.'] + ext;
    assert(name =~= "selection.png"@);
    assert(crate::path::join(Seq::<char>::empty(), name) =~= name);
    crate::path::law_join_keeps_name_parts(Seq::<char>::empty(), stem, ext);
    assert(ext =~= "png"@);
    assert(crate::text::lower(ext) =~= ext);
    crate::menu::law_single_png_converts_and_archives("selection.png"@);
    assert(fallback_paths() =~= seq!["selection.png"@]);
}

/// The ring-1 menu put on screen: the selection's own, or the fallback ring
/// when there is no selection to build it from.
pub fn overlay_menu(selection: Option<&Selection>, dirs: &[bool]) -> (r: Vec<MenuNode>)
    requires
        selection matches Some(sel) ==> dirs@.len() == sel.files@.len(),
    ensures
        match selection {
            Some(sel) => is_menu_for(r@, sel.paths(), dirs@),
            None => is_menu_for(r@, fallback_paths(), seq![false]),
        },
{
    match selection {
        Some(sel) => menu_for_selection(sel, dirs),
        None => fallback_menu(),
    }
}

/// `job` is what `choice` asks of `input`, before an output path is chosen.
pub open spec fn is_job_for(job: Job, choice: MenuAction, input: Seq<char>) -> bool {
    &&& job.input@ == input
    &&& job.output is None
    &&& match choice {
        MenuAction::Convert { ext } => job.operation == Operation::Convert && job.output_ext@
            == normal_ext(ext@),
        MenuAction::Archive { ext } => job.operation == Operation::Archive && job.output_ext@
            == normal_ext(ext@),
        MenuAction::Extract => job.operation == Operation::Extract && job.output_ext@.len() == 0,
    }
}

/// The job a picked action becomes for one selected file.
pub fn job_for(choice: &MenuAction, input: &str) -> (r: Job)
    ensures
        is_job_for(r, *choice, input@),
{
    match choice {
        MenuAction::Convert { ext } => Job::new(input, ext.as_str()),
        MenuAction::Archive { ext } => Job::archive(input, ext.as_str()),
        MenuAction::Extract => Job::extract(input),
    }
}

/// The jobs a picked action becomes: one per selected file, in order.
pub fn jobs_for(choice: &MenuAction, selection: &Selection) -> (r: Vec<Job>)
    ensures
        r@.len() == selection.files@.len(),
        forall|i: int| 0 <= i < r@.len() ==> is_job_for(#[trigger] r@[i], *choice, selection.files@[i]@),
{
    let mut r: Vec<Job> = Vec::new();
    let mut i: usize = 0;
    while i < selection.files.len()
        invariant
            i <= selection.files@.len(),
            r@.len() == i,
            forall|j: int| 0 <= j < i ==> is_job_for(#[trigger] r@[j], *choice, selection.files@[j]@),
        decreases selection.files@.len() - i,
    {
        let job = job_for(choice, selection.files[i].as_str());
        r.push(job);
        i = i + 1;
    }
    r
}

/// How the menu shortcut ended up at start-up.
#[derive(Debug, Clone)]
pub enum MenuBinding {
    /// The configured shortcut was registered.
    Configured,
    /// The configured shortcut failed with `error`; the default one was
    /// registered in its place.
    Default { error: String },
    /// No menu shortcut is registered: the configured one failed with
    /// `error`, and the default one, when it was tried, with `default_error`.
    Unbound { error: String, default_error: Option<String> },
}

/// What the user is told about the menu shortcut, if anything.
pub open spec fn menu_notice_text(configured: Seq<char>, binding: MenuBinding) -> Option<Seq<char>> {
    match binding {
        MenuBinding::Configured => None,
        MenuBinding::Default { error } => Some(
            joined(
                seq![
                    "Menu shortcut '"@,
                    configured,
                    "' could not be registered: "@,
                    error@,
                    ". Using "@,
                    DEFAULT_HOTKEY@,
                    " instead. Correct it below, save, and restart Zest."@,
                ],
            ),
        ),
        MenuBinding::Unbound { error, default_error: Some(default_error) } => Some(
            joined(
                seq![
                    "Neither menu shortcut '"@,
                    configured,
                    "' nor the default '"@,
                    DEFAULT_HOTKEY@,
                    "' could be registered: "@,
                    error@,
                    "; "@,
                    default_error@,
                    ". Tray actions remain available. Change the shortcut below and restart Zest."@,
                ],
            ),
        ),
        MenuBinding::Unbound { error, default_error: None } => Some(
            joined(
                seq![
                    "Default menu shortcut '"@,
                    configured,
                    "' could not be registered: "@,
                    error@,
                    ". Tray actions remain available. Close the app using this shortcut or select another shortcut below, then restart Zest."@,
                ],
            ),
        ),
    }
}

/// What the user is told when the Convert shortcut could not be bound.
pub open spec fn convert_notice_text(error: Seq<char>) -> Seq<char> {
    joined(
        seq![
            "Convert shortcut '"@,
            DEFAULT_CONVERT_HOTKEY@,
            "' could not be registered: "@,
            error,
            ". Your menu shortcut still works; close the other app using "@,
            DEFAULT_CONVERT_HOTKEY@,
            " to restore direct Convert access."@,
        ],
    )
}

/// The notice the settings window opens with at start-up: the menu shortcut
/// notice, then (while a menu shortcut is bound) the Convert one, joined by a
/// space; nothing when both shortcuts are bound.
pub open spec fn startup_notice_text(
    configured: Seq<char>,
    binding: MenuBinding,
    convert_error: Option<Seq<char>>,
) -> Option<Seq<char>> {
    let menu = menu_notice_text(configured, binding);
    let convert = match (binding, convert_error) {
        (MenuBinding::Unbound { .. }, _) => None,
        (_, Some(e)) => Some(convert_notice_text(e)),
        (_, None) => None,
    };
    match (menu, convert) {
        (Some(m), Some(c)) => Some(m + " "@ + c),
        (Some(m), None) => Some(m),
        (None, Some(c)) => Some(c),
        (None, None) => None,
    }
}

/// Start-up is quiet exactly when both shortcuts are bound: any shortcut that
/// could not be registered is reported.
pub proof fn law_quiet_start_iff_all_bound(
    configured: Seq<char>,
    binding: MenuBinding,
    convert_error: Option<Seq<char>>,
)
    ensures
        startup_notice_text(configured, binding, convert_error) is None <==> (binding is Configured
            && convert_error is None),
{
}

fn menu_notice(configured: &str, binding: &MenuBinding) -> (r: Option<String>)
    ensures
        match r {
            Some(s) => menu_notice_text(configured@, *binding) == Some(s@),
            None => menu_notice_text(configured@, *binding) is None,
        },
{
    match binding {
        MenuBinding::Configured => None,
        MenuBinding::Default { error } => {
            let parts = [
                "Menu shortcut '",
                configured,
                "' could not be registered: ",
                error.as_str(),
                ". Using ",
                DEFAULT_HOTKEY,
                " instead. Correct it below, save, and restart Zest.",
            ];
            let r = concat_strs(&parts);
            assert(parts@.map_values(|p: &str| p@) =~= seq![
                "Menu shortcut '"@,
                configured@,
                "' could not be registered: "@,
                error@,
                ". Using "@,
                DEFAULT_HOTKEY@,
                " instead. Correct it below, save, and restart Zest."@,
            ]);
            Some(r)
        },
        MenuBinding::Unbound { error, default_error: Some(default_error) } => {
            let parts = [
                "Neither menu shortcut '",
                configured,
                "' nor the default '",
                DEFAULT_HOTKEY,
                "' could be registered: ",
                error.as_str(),
                "; ",
                default_error.as_str(),
                ". Tray actions remain available. Change the shortcut below and restart Zest.",
            ];
            let r = concat_strs(&parts);
            assert(parts@.map_values(|p: &str| p@) =~= seq![
                "Neither menu shortcut '"@,
                configured@,
                "' nor the default '"@,
                DEFAULT_HOTKEY@,
                "' could be registered: "@,
                error@,
                "; "@,
                default_error@,
                ". Tray actions remain available. Change the shortcut below and restart Zest."@,
            ]);
            Some(r)
        },
        MenuBinding::Unbound { error, default_error: None } => {
            let parts = [
                "Default menu shortcut '",
                configured,
                "' could not be registered: ",
                error.as_str(),
                ". Tray actions remain available. Close the app using this shortcut or select another shortcut below, then restart Zest.",
            ];
            let r = concat_strs(&parts);
            assert(parts@.map_values(|p: &str| p@) =~= seq![
                "Default menu shortcut '"@,
                configured@,
                "' could not be registered: "@,
                error@,
                ". Tray actions remain available. Close the app using this shortcut or select another shortcut below, then restart Zest."@,
            ]);
            Some(r)
        },
    }
}

fn convert_notice(error: &str) -> (r: String)
    ensures
        r@ == convert_notice_text(error@),
{
    let parts = [
        "Convert shortcut '",
        DEFAULT_CONVERT_HOTKEY,
        "' could not be registered: ",
        error,
        ". Your menu shortcut still works; close the other app using ",
        DEFAULT_CONVERT_HOTKEY,
        " to restore direct Convert access.",
    ];
    let r = concat_strs(&parts);
    assert(parts@.map_values(|p: &str| p@) =~= seq![
        "Convert shortcut '"@,
        DEFAULT_CONVERT_HOTKEY@,
        "' could not be registered: "@,
        error@,
        ". Your menu shortcut still works; close the other app using "@,
        DEFAULT_CONVERT_HOTKEY@,
        " to restore direct Convert access."@,
    ]);
    r
}

/// The notice the settings window opens with at start-up, if any.
/// `convert_error` is why the Convert shortcut could not be bound, if it
/// could not.
pub fn startup_notice(configured: &str, binding: &MenuBinding, convert_error: Option<&str>) -> (r: Option<String>)
    ensures
        match r {
            Some(s) => startup_notice_text(
                configured@,
                *binding,
                match convert_error { Some(e) => Some(e@), None => None },
            ) == Some(s@),
            None => startup_notice_text(
                configured@,
                *binding,
                match convert_error { Some(e) => Some(e@), None => None },
            ) is None,
        },
{
    let menu = menu_notice(configured, binding);
    let convert = match binding {
        MenuBinding::Unbound { .. } => None,
        _ => match convert_error {
            Some(e) => Some(convert_notice(e)),
            None => None,
        },
    };
    match (menu, convert) {
        (Some(m), Some(c)) => {
            let parts = [m.as_str(), " ", c.as_str()];
            let r = concat_strs(&parts);
            assert(parts@.map_values(|p: &str| p@) =~= seq![m@, " "@, c@]);
            assert(joined(seq![m@, " "@, c@]) =~= m@ + " "@ + c@) by {
                let three = seq![m@, " "@, c@];
                let two = seq![m@, " "@];
                let one = seq![m@];
                assert(three.drop_last() =~= two);
                assert(two.drop_last() =~= one);
                assert(one.drop_last() =~= Seq::<Seq<char>>::empty());
                assert(joined(Seq::<Seq<char>>::empty()) =~= Seq::<char>::empty());
                assert(one.last() == m@);
                assert(joined(one) =~= m@);
                assert(joined(two) =~= m@ + " "@);
                assert(joined(three) =~= m@ + " "@ + c@);
            }
            Some(r)
        },
        (Some(m), None) => Some(m),
        (None, Some(c)) => Some(c),
        (None, None) => None,
    }
}

} // verus!
