use zest::selection::{
    candidate_order, collect_selected, finish_selection, focused_view_position, is_desktop_window,
    is_virtual_folder, preferred_tab_entry, tab_strip, TabReading,
    resolve_mock, settle_attempts, settles, SelectedItem, Selection, SelectionError,
};

#[test]
fn identifies_virtual_folder_paths_without_rejecting_real_names() {
    for path in [
        "::{645FF040-5081-101B-9F08-00AA002F954E}",
        "shell:::{20D04FE0-3AEA-1069-A2D8-08002B30309D}",
        "This PC",
        "Recycle Bin",
        r"C:\Users\me\Desktop\$Recycle.Bin",
    ] {
        assert!(is_virtual_folder(path), "expected virtual: {path}");
    }

    for path in [
        r"C:\Users\me\recycle-notes.txt",
        r"C:\Users\me\recycle\notes.txt",
        r"C:\Users\me\photo.png",
    ] {
        assert!(!is_virtual_folder(path), "expected filesystem path: {path}");
    }
}

#[test]
fn resolve_mock_filters_virtual_items_but_keeps_files() {
    let files = resolve_mock(vec![
        "::{645FF040-5081-101B-9F08-00AA002F954E}".to_string(),
        r"C:\Users\me\photo.png".to_string(),
    ])
    .unwrap()
    .files;
    assert_eq!(files, vec![r"C:\Users\me\photo.png".to_string()]);

    assert!(matches!(
        resolve_mock(vec!["This PC".to_string()]),
        Err(SelectionError::VirtualFolder)
    ));
    assert!(matches!(resolve_mock(vec![]), Err(SelectionError::Empty)));
}

#[test]
fn finish_selection_maps_paths_first() {
    let sel = finish_selection(true, vec![r"C:\a.png".to_string()]).unwrap();
    assert_eq!(sel.len(), 1);

    // Items existed but nothing mappable remained: virtual folder.
    assert!(matches!(
        finish_selection(true, vec![]),
        Err(SelectionError::VirtualFolder)
    ));
    // Nothing selected at all: empty.
    assert!(matches!(
        finish_selection(false, vec![]),
        Err(SelectionError::Empty)
    ));
}

#[test]
fn virtual_names_survive_case_whitespace_and_forward_slashes() {
    assert!(is_virtual_folder("  this pc \t"));
    assert!(is_virtual_folder("RECYCLE BIN"));
    assert!(is_virtual_folder("D:/$RECYCLE.BIN"));
    assert!(is_virtual_folder("C:/stuff/Recycle Bin"));
    assert!(!is_virtual_folder("C:/stuff/Recycle Bin/photo.png"));
    assert!(!is_virtual_folder(":colon.txt"));
    assert!(!is_virtual_folder(""));
}

#[test]
fn selection_reports_its_size() {
    let sel = Selection::new(vec!["a.png".to_string(), "b.png".to_string()]);
    assert_eq!(sel.len(), 2);
    assert!(!sel.is_empty());
    assert!(Selection::default().is_empty());
}

#[test]
fn selection_errors_read_as_before() {
    assert_eq!(SelectionError::Empty.message(), "selection is empty");
    assert_eq!(
        SelectionError::NoExplorerWindow.message(),
        "no Explorer window is focused"
    );
    assert_eq!(
        SelectionError::Com("boom".to_string()).message(),
        "COM automation unavailable: boom"
    );
    assert!(SelectionError::VirtualFolder.message().contains("virtual folder"));
}

fn item(file_system: Option<bool>, path: Option<&str>) -> SelectedItem {
    SelectedItem::Item { file_system, path: path.map(|p| p.to_string()) }
}

#[test]
fn collect_selected_keeps_filesystem_paths_in_order() {
    let sel = collect_selected(&[
        item(Some(true), Some(r"C:\a.png")),
        SelectedItem::Unreadable,
        item(Some(false), Some(r"C:\virtual")),
        item(None, Some("   ")),
        item(None, Some("::{645FF040-5081-101B-9F08-00AA002F954E}")),
        item(None, Some(r"C:\b.txt")),
    ])
    .unwrap();
    assert_eq!(sel.files, vec![r"C:\a.png".to_string(), r"C:\b.txt".to_string()]);
}

#[test]
fn collect_selected_tells_virtual_folders_from_empty_views() {
    assert_eq!(
        collect_selected(&[item(Some(true), None), item(None, Some("This PC"))]).unwrap_err(),
        SelectionError::VirtualFolder
    );
    assert_eq!(collect_selected(&[]).unwrap_err(), SelectionError::Empty);
    assert_eq!(
        collect_selected(&[SelectedItem::Unreadable]).unwrap_err(),
        SelectionError::Empty
    );
}

#[test]
fn only_definitive_reads_settle_the_selection() {
    assert!(settles(&Ok(Selection::new(vec!["a".to_string()]))));
    assert!(settles(&Err(SelectionError::Empty)));
    assert!(settles(&Err(SelectionError::VirtualFolder)));
    assert!(!settles(&Err(SelectionError::NoExplorerWindow)));
    assert!(!settles(&Err(SelectionError::Com("failed".to_string()))));
}

#[test]
fn visible_tab_is_preferred_only_when_its_folder_matches() {
    let names = vec!["Downloads".to_string(), "Pictures".to_string()];
    assert_eq!(preferred_tab_entry(1, &names, 2, Some(r"C:\Users\me\pictures")), Some(1));
    assert_eq!(preferred_tab_entry(1, &names, 2, Some(r"C:\Users\me\Documents")), None);
    assert_eq!(preferred_tab_entry(1, &names, 2, None), None);
    assert_eq!(preferred_tab_entry(2, &names, 3, Some(r"C:\Pictures")), None);
    assert_eq!(preferred_tab_entry(1, &names, 1, Some(r"C:\Pictures")), None);
}

#[test]
fn preferred_entry_is_tried_first_then_enumeration_order() {
    assert_eq!(candidate_order(4, Some(2)), vec![2, 0, 1, 3]);
    assert_eq!(candidate_order(4, Some(0)), vec![0, 1, 2, 3]);
    assert_eq!(candidate_order(3, None), vec![0, 1, 2]);
    assert_eq!(candidate_order(3, Some(7)), vec![0, 1, 2]);
    assert_eq!(candidate_order(0, None), Vec::<usize>::new());
}

#[test]
fn first_definitive_attempt_wins_else_the_last_failure() {
    let com = |m: &str| Err(SelectionError::Com(m.to_string()));
    assert_eq!(settle_attempts(vec![]).unwrap_err(), SelectionError::NoExplorerWindow);
    assert_eq!(
        settle_attempts(vec![com("first"), com("second")]).unwrap_err(),
        SelectionError::Com("second".to_string())
    );
    assert_eq!(
        settle_attempts(vec![com("first"), Err(SelectionError::Empty), com("third")]).unwrap_err(),
        SelectionError::Empty
    );
    let sel = settle_attempts(vec![
        com("first"),
        Ok(Selection::new(vec!["a.png".to_string()])),
        Err(SelectionError::VirtualFolder),
    ])
    .unwrap();
    assert_eq!(sel.files, vec!["a.png".to_string()]);
    assert_eq!(
        settle_attempts(vec![Err(SelectionError::VirtualFolder), com("later")]).unwrap_err(),
        SelectionError::VirtualFolder
    );
}

fn classes(names: &[&str]) -> Vec<String> {
    names.iter().map(|n| n.to_string()).collect()
}

#[test]
fn desktop_is_recognised_from_any_ancestor() {
    assert!(is_desktop_window(&classes(&["SysListView32", "SHELLDLL_DefView", "Progman"])));
    assert!(is_desktop_window(&classes(&["WorkerW"])));
    assert!(!is_desktop_window(&classes(&["DirectUIHWND", "CabinetWClass"])));
    assert!(!is_desktop_window(&classes(&["progman"])));
    assert!(!is_desktop_window(&[]));
}

#[test]
fn focused_view_is_the_first_folder_view_above_the_focus() {
    assert_eq!(
        focused_view_position(&classes(&["DirectUIHWND", "SHELLDLL_DefView", "ShellTabWindowClass", "SHELLDLL_DefView"])),
        Some(1)
    );
    assert_eq!(focused_view_position(&classes(&["Edit", "CabinetWClass"])), None);
}

#[test]
fn tab_strip_reports_the_first_selected_tab() {
    let tab = |name: &str, selected: Option<bool>| TabReading { name: name.to_string(), selected };
    let (selected, names) = tab_strip(&[
        tab("Downloads", Some(false)),
        tab("Pictures", None),
        tab("Music", Some(true)),
        tab("Video", Some(true)),
    ])
    .unwrap();
    assert_eq!(selected, 2);
    assert_eq!(names, vec!["Downloads", "Pictures", "Music", "Video"]);
    assert!(tab_strip(&[tab("Downloads", Some(false)), tab("Pictures", None)]).is_none());
    assert!(tab_strip(&[]).is_none());
}
