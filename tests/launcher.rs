use workspace_launcher::{HostCommand, Key, KeyResponse, Launcher, SessionEntry};

fn launcher(replace: Option<&str>) -> Launcher {
    let lines: Vec<String> = ["# layouts", "layouts/a.kdl", "", "layouts/b.kdl"]
        .iter()
        .map(|s| s.to_string())
        .collect();
    let value = replace.map(|s| s.to_string());
    Launcher::new(&lines, value.as_ref(), "/home/me/project".to_string())
}

fn type_query(l: &mut Launcher, q: &str) {
    for c in q.chars() {
        assert!(matches!(l.handle_key(Key::Char { c, ctrl: false }), KeyResponse::Render));
    }
}

fn confirm(l: &mut Launcher) -> String {
    match l.handle_key(Key::Enter) {
        KeyResponse::OpenLayout(p) => p,
        other => panic!("expected a layout to open, got {:?}", other),
    }
}

fn session(name: &str, current: bool) -> SessionEntry {
    SessionEntry { name: name.to_string(), is_current: current }
}

#[test]
fn loading_filters_the_list_and_reads_the_flag() {
    let l = launcher(None);
    assert_eq!(l.layouts(), &vec!["layouts/a.kdl".to_string(), "layouts/b.kdl".to_string()]);
    assert!(!l.replace_current_session());
    assert!(launcher(Some("true")).replace_current_session());
    assert!(!launcher(Some("false")).replace_current_session());
}

#[test]
fn typing_selects_a_match() {
    let mut l = launcher(None);
    assert_eq!(l.matched_layout(), None);
    type_query(&mut l, "b");
    assert_eq!(l.matched_layout(), Some(&"layouts/b.kdl".to_string()));
    assert_eq!(l.visible_layouts(), vec!["layouts/b.kdl".to_string()]);
    assert!(matches!(l.handle_key(Key::Backspace), KeyResponse::Render));
    assert_eq!(l.matched_layout(), None);
    assert_eq!(l.visible_layouts().len(), 2);
}

#[test]
fn first_typed_character_selects_a_match() {
    let mut l = launcher(None);
    type_query(&mut l, "a");
    assert_eq!(l.matched_layout(), Some(&"layouts/a.kdl".to_string()));
}

#[test]
fn moves_keep_the_match() {
    let mut l = launcher(None);
    type_query(&mut l, "ak");
    let before = l.matched_layout().cloned();
    assert!(matches!(l.handle_key(Key::Left), KeyResponse::Render));
    assert!(matches!(l.handle_key(Key::Right), KeyResponse::Render));
    assert_eq!(l.matched_layout().cloned(), before);
    assert_eq!(l.cursor(), 2);
    assert_eq!(l.query(), &vec!['a', 'k']);
}

#[test]
fn close_keys_and_other_keys() {
    let mut l = launcher(None);
    assert!(matches!(l.handle_key(Key::Esc), KeyResponse::Close));
    assert!(matches!(l.handle_key(Key::Char { c: 'c', ctrl: true }), KeyResponse::Close));
    assert!(matches!(l.handle_key(Key::Other), KeyResponse::Ignored));
    assert!(l.query().is_empty());
    assert!(matches!(l.handle_key(Key::Char { c: 'x', ctrl: true }), KeyResponse::Render));
    assert_eq!(l.query(), &vec!['x']);
}

#[test]
fn confirm_without_match_does_nothing() {
    let mut l = launcher(Some("true"));
    assert!(matches!(l.handle_key(Key::Enter), KeyResponse::Render));
    type_query(&mut l, "zzz");
    assert_eq!(l.matched_layout(), None);
    assert!(matches!(l.handle_key(Key::Enter), KeyResponse::Render));
}

#[test]
fn append_mode_opens_new_tabs_only() {
    let mut l = launcher(None);
    type_query(&mut l, "a.kdl");
    assert_eq!(confirm(&mut l), "/host/layouts/a.kdl");
    let cmds = l.open_layout(Ok("X".to_string())).unwrap();
    assert_eq!(cmds.len(), 1);
    assert!(matches!(&cmds[0], HostCommand::NewTabsWithLayout { layout } if layout == "X"));
}

#[test]
fn replace_mode_with_known_session_renames_switches_and_kills() {
    let mut l = launcher(Some("true"));
    l.observe_sessions(&vec![session("other", false), session("work", true)]);
    assert_eq!(l.current_session(), &Some("work".to_string()));
    type_query(&mut l, "a.kdl");
    confirm(&mut l);
    let cmds = l.open_layout(Ok("X".to_string())).unwrap();
    assert_eq!(cmds.len(), 4);
    assert!(matches!(&cmds[0], HostCommand::RenameSession { name } if name == "zellij_wp_delete_me"));
    assert!(matches!(
        &cmds[1],
        HostCommand::SwitchSessionWithLayout { session: Some(n), layout, cwd }
            if n == "zwp:work" && layout == "X" && cwd == "/home/me/project"
    ));
    assert!(matches!(&cmds[2], HostCommand::KillSession { name } if name == "zellij_wp_delete_me"));
    assert!(matches!(&cmds[3], HostCommand::DeleteDeadSession { name } if name == "zellij_wp_delete_me"));
}

#[test]
fn replace_mode_with_unknown_session_switches_once() {
    let mut l = launcher(Some("true"));
    type_query(&mut l, "b");
    confirm(&mut l);
    let cmds = l.open_layout(Ok("X".to_string())).unwrap();
    assert_eq!(cmds.len(), 1);
    assert!(matches!(
        &cmds[0],
        HostCommand::SwitchSessionWithLayout { session: None, layout, cwd }
            if layout == "X" && cwd == "/home/me/project"
    ));
}

#[test]
fn failed_read_records_error_and_plans_nothing() {
    let mut l = launcher(Some("true"));
    type_query(&mut l, "b");
    confirm(&mut l);
    assert!(l.open_layout(Err("No such file".to_string())).is_none());
    assert_eq!(l.error(), &Some("No such file".to_string()));
    assert_eq!(l.matched_layout(), Some(&"layouts/b.kdl".to_string()));
    let cmds = l.open_layout(Ok("Y".to_string())).unwrap();
    assert_eq!(cmds.len(), 1);
    assert_eq!(l.error(), &Some("No such file".to_string()));
}

#[test]
fn snapshot_without_current_session_keeps_the_last_one() {
    let mut l = launcher(None);
    assert_eq!(l.current_session(), &None);
    l.observe_sessions(&vec![session("a", true), session("b", true)]);
    assert_eq!(l.current_session(), &Some("a".to_string()));
    l.observe_sessions(&vec![session("c", false)]);
    assert_eq!(l.current_session(), &Some("a".to_string()));
    l.observe_sessions(&vec![]);
    assert_eq!(l.current_session(), &Some("a".to_string()));
}
