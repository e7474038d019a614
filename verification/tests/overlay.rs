use zest::menu::{MenuAction, MenuNode};
use zest::overlay::{
    centered_origin, point_from_lparam, Click, OverlayEffect, OverlayEvent, OverlayState, RingModel,
    OVERLAY_SIZE,
};

fn menu(labels: &[&str], children: &[&[&str]]) -> Vec<MenuNode> {
    labels
        .iter()
        .zip(children)
        .map(|(label, child_labels)| MenuNode {
            label: (*label).to_string(),
            action: None,
            children: child_labels
                .iter()
                .map(|child| MenuNode {
                    label: (*child).to_string(),
                    action: Some(MenuAction::Convert {
                        ext: (*child).to_string(),
                    }),
                    children: Vec::new(),
                })
                .collect(),
        })
        .collect()
}

#[test]
fn centers_overlay_on_cursor() {
    assert_eq!(centered_origin(256, 256, OVERLAY_SIZE), (128, 128));
    assert_eq!(centered_origin(-20, -40, OVERLAY_SIZE), (-148, -168));
}

#[test]
fn decodes_mouse_coordinates() {
    let lparam = ((50_i32 as isize) << 16) | 100;
    assert_eq!(point_from_lparam(lparam), (100, 50));
    let negative = ((-3_i16 as u16 as isize) << 16) | (-7_i16 as u16 as isize);
    assert_eq!(point_from_lparam(negative), (-7, -3));
}

#[test]
fn click_expands_then_yields_the_leaf_action() {
    let mut ring = RingModel::new(menu(&["Convert", "Archive"], &[&["png"], &[]]));
    assert_eq!(ring.click(0), Click::Expanded);
    assert_eq!(ring.labels()[0], "png");
    assert_eq!(
        ring.click(0),
        Click::Action(MenuAction::Convert {
            ext: "png".to_string()
        })
    );
}

#[test]
fn clicking_an_empty_category_is_a_miss() {
    let mut ring = RingModel::new(menu(&["Convert", "Archive"], &[&["png"], &[]]));
    assert_eq!(ring.click(1), Click::Miss);
    assert_eq!(ring.labels().len(), 2);
}

#[test]
fn out_of_range_click_is_a_miss() {
    let mut ring = RingModel::new(Vec::new());
    assert_eq!(ring.click(0), Click::Miss);
}

#[test]
fn overlay_events_drive_highlight_expansion_and_choice() {
    let mut state = OverlayState::new(RingModel::new(menu(&["Convert", "Archive"], &[&["png", "jpg"], &[]])));
    assert!(matches!(state.step(OverlayEvent::Show(None)), OverlayEffect::ShowWindow));
    assert!(matches!(state.step(OverlayEvent::Hover(Some(1))), OverlayEffect::Redraw));
    assert_eq!(state.active, Some(1));
    assert!(matches!(state.step(OverlayEvent::Hover(Some(1))), OverlayEffect::Nothing));
    assert!(matches!(state.step(OverlayEvent::Release(None)), OverlayEffect::Nothing));
    assert!(matches!(state.step(OverlayEvent::Release(Some(1))), OverlayEffect::Nothing));
    assert_eq!(state.active, Some(1));
    assert!(matches!(state.step(OverlayEvent::Release(Some(0))), OverlayEffect::Redraw));
    assert_eq!(state.active, None);
    assert_eq!(state.ring.labels(), vec!["png".to_string(), "jpg".to_string()]);
    match state.step(OverlayEvent::Release(Some(1))) {
        OverlayEffect::Choose(action) => {
            assert_eq!(action, MenuAction::Convert { ext: "jpg".to_string() })
        }
        other => panic!("expected a choice, got {other:?}"),
    }
    assert!(matches!(state.step(OverlayEvent::Hover(Some(0))), OverlayEffect::Redraw));
    assert!(matches!(state.step(OverlayEvent::Leave), OverlayEffect::Redraw));
    assert!(matches!(state.step(OverlayEvent::Leave), OverlayEffect::Nothing));
    assert!(matches!(state.step(OverlayEvent::Hide), OverlayEffect::HideWindow));
    let fresh = RingModel::new(menu(&["Archive"], &[&[]]));
    assert!(matches!(state.step(OverlayEvent::Show(Some(fresh))), OverlayEffect::ShowWindow));
    assert_eq!(state.ring.labels(), vec!["Archive".to_string()]);
    assert!(matches!(state.step(OverlayEvent::Close), OverlayEffect::Quit));
}
