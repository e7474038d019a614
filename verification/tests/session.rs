use zest::convert::Operation;
use zest::menu::{menu_for_selection, MenuAction};
use zest::selection::{Selection, SelectionError};
use zest::session::{
    fallback_menu, job_for, jobs_for, overlay_menu, resolve_now, resolve_selection,
    startup_notice, usable_snapshot, MenuBinding,
};

fn selection(files: &[&str]) -> Selection {
    Selection::new(files.iter().map(|f| f.to_string()).collect())
}

#[test]
fn menus_come_from_readable_selections_only() {
    let sel = resolve_selection(Ok(selection(&["a.png"]))).unwrap();
    assert_eq!(sel.files, vec!["a.png".to_string()]);
    assert!(resolve_selection(Err(SelectionError::VirtualFolder)).is_err());
    assert!(resolve_selection(Err(SelectionError::NoExplorerWindow)).is_err());
    assert!(resolve_selection(Ok(selection(&[]))).is_ok());
}

#[test]
fn actions_run_only_on_non_empty_selections() {
    assert_eq!(resolve_now(Ok(selection(&["a.png"]))).unwrap().files, vec!["a.png".to_string()]);
    assert!(resolve_now(Ok(selection(&[]))).is_err());
    assert!(resolve_now(Err(SelectionError::VirtualFolder)).is_err());
    assert!(resolve_now(Err(SelectionError::Com("boom".to_string()))).is_err());
    assert_eq!(usable_snapshot(Some(selection(&["b.mp4"]))).unwrap().files, vec!["b.mp4".to_string()]);
    assert!(usable_snapshot(Some(selection(&[]))).is_none());
    assert!(usable_snapshot(None).is_none());
}

#[test]
fn fallback_menu_is_the_menu_of_a_png() {
    let menu = fallback_menu();
    let png = menu_for_selection(&selection(&["selection.png"]), &[false]);
    assert_eq!(menu, png);
    let labels: Vec<&str> = menu.iter().map(|n| n.label.as_str()).collect();
    assert_eq!(labels, vec!["Convert", "Archive"]);
    assert_eq!(menu[0].children[0].label, "png");
    assert_eq!(overlay_menu(None, &[]), png);
    let zip = selection(&["x.zip"]);
    let labels: Vec<String> = overlay_menu(Some(&zip), &[false]).into_iter().map(|n| n.label).collect();
    assert_eq!(labels, vec!["Extract".to_string()]);
}

#[test]
fn picked_actions_become_one_job_per_file() {
    let jobs = jobs_for(
        &MenuAction::Convert { ext: ".JPG".to_string() },
        &selection(&["a.png", "b.png"]),
    );
    assert_eq!(jobs.len(), 2);
    assert_eq!(jobs[0].input, "a.png");
    assert_eq!(jobs[1].input, "b.png");
    assert_eq!(jobs[0].operation, Operation::Convert);
    assert_eq!(jobs[0].output_ext, "jpg");
    assert!(jobs[0].output.is_none());
    let archive = job_for(&MenuAction::Archive { ext: "tar.gz".to_string() }, "dir");
    assert_eq!(archive.operation, Operation::Archive);
    assert_eq!(archive.output_ext, "tar.gz");
    let extract = job_for(&MenuAction::Extract, "x.zip");
    assert_eq!(extract.operation, Operation::Extract);
    assert_eq!(extract.output_ext, "");
}

#[test]
fn startup_notices_name_every_unbound_shortcut() {
    assert_eq!(startup_notice("Shift+F", &MenuBinding::Configured, None), None);
    assert_eq!(
        startup_notice("Ctrl+Q", &MenuBinding::Default { error: "taken".to_string() }, None).unwrap(),
        "Menu shortcut 'Ctrl+Q' could not be registered: taken. Using Shift+F instead. Correct it below, save, and restart Zest."
    );
    assert_eq!(
        startup_notice(
            "Ctrl+Q",
            &MenuBinding::Unbound { error: "taken".to_string(), default_error: Some("busy".to_string()) },
            Some("ignored"),
        )
        .unwrap(),
        "Neither menu shortcut 'Ctrl+Q' nor the default 'Shift+F' could be registered: taken; busy. Tray actions remain available. Change the shortcut below and restart Zest."
    );
    assert_eq!(
        startup_notice(
            "Shift+F",
            &MenuBinding::Unbound { error: "taken".to_string(), default_error: None },
            None,
        )
        .unwrap(),
        "Default menu shortcut 'Shift+F' could not be registered: taken. Tray actions remain available. Close the app using this shortcut or select another shortcut below, then restart Zest."
    );
    let convert = "Convert shortcut 'Shift+C' could not be registered: in use. Your menu shortcut still works; close the other app using Shift+C to restore direct Convert access.";
    assert_eq!(startup_notice("Shift+F", &MenuBinding::Configured, Some("in use")).unwrap(), convert);
    assert_eq!(
        startup_notice("Ctrl+Q", &MenuBinding::Default { error: "taken".to_string() }, Some("in use")).unwrap(),
        format!("Menu shortcut 'Ctrl+Q' could not be registered: taken. Using Shift+F instead. Correct it below, save, and restart Zest. {convert}")
    );
}
