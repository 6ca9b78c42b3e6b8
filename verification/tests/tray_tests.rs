use program_manager::model::{ProgramGroup, ProgramItem, WindowState};
use program_manager::tray::{build_tray_menu, handle_menu_event, TrayAction};

fn window_state() -> WindowState {
    WindowState { x: 0, y: 0, width: 800, height: 600, minimized: false, maximized: false }
}

fn item(id: &str, name: &str) -> ProgramItem {
    ProgramItem {
        id: id.to_string(),
        name: name.to_string(),
        path: "/usr/bin/true".to_string(),
        icon: String::new(),
        working_dir: String::new(),
        shortcut_key: String::new(),
        launch_group: None,
    }
}

fn group(id: &str, name: &str, items: Vec<ProgramItem>) -> ProgramGroup {
    ProgramGroup {
        id: id.to_string(),
        name: name.to_string(),
        icon: String::new(),
        window_state: window_state(),
        items,
    }
}

#[test]
fn menu_mirrors_groups_and_skips_empty_ones() {
    let groups = vec![
        group("g1", "Tools", vec![item("a", "Editor"), item("b", "Browser")]),
        group("g2", "Empty", Vec::new()),
        group("g3", "Games", vec![item("c", "Chess")]),
    ];
    let menu = build_tray_menu(&groups);
    assert_eq!(menu.len(), 2);

    assert_eq!(menu[0].id, "group_g1");
    assert_eq!(menu[0].label, "Tools");
    assert_eq!(menu[0].entries.len(), 2);
    assert_eq!(menu[0].entries[0].id, "launch_a");
    assert_eq!(menu[0].entries[0].label, "Editor");
    assert_eq!(menu[0].entries[1].id, "launch_b");
    assert_eq!(menu[0].entries[1].label, "Browser");

    assert_eq!(menu[1].id, "group_g3");
    assert_eq!(menu[1].label, "Games");
    assert_eq!(menu[1].entries.len(), 1);
    assert_eq!(menu[1].entries[0].id, "launch_c");
}

#[test]
fn menu_of_no_groups_is_empty() {
    let menu = build_tray_menu(&Vec::new());
    assert!(menu.is_empty());
}

#[test]
fn tray_icon_is_a_solid_teal_square() {
    let rgba = program_manager::tray::get_tray_icon();
    assert_eq!(rgba.len(), 16 * 16 * 4);
    for px in rgba.chunks(4) {
        assert_eq!(px, [0x00, 0x80, 0x80, 0xFF]);
    }
}

#[test]
fn menu_events_decide_the_right_action() {
    match handle_menu_event("show") {
        TrayAction::ShowWindow => {}
        other => panic!("expected the show action, got {:?}", other),
    }
    match handle_menu_event("exit") {
        TrayAction::Exit => {}
        other => panic!("expected the exit action, got {:?}", other),
    }
    match handle_menu_event("launch_item-42") {
        TrayAction::EmitLaunch(id) => assert_eq!(id, "item-42"),
        other => panic!("expected a launch notification, got {:?}", other),
    }
    match handle_menu_event("separator") {
        TrayAction::Ignore => {}
        other => panic!("expected no action, got {:?}", other),
    }
    match handle_menu_event("launch_") {
        TrayAction::EmitLaunch(id) => assert_eq!(id, ""),
        other => panic!("expected a launch notification, got {:?}", other),
    }
}
