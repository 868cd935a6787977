use workspace_launcher::layouts::{enabled_value, layout_line, white_space};
use workspace_launcher::{filter_layout_lines, layout_path};

#[test]
fn load_filtering_drops_comments_and_blank_lines() {
    let lines: Vec<String> = ["# comment", "", "layouts/a.kdl", "   ", "layouts/b.kdl"]
        .iter()
        .map(|s| s.to_string())
        .collect();
    assert_eq!(
        filter_layout_lines(&lines),
        vec!["layouts/a.kdl".to_string(), "layouts/b.kdl".to_string()]
    );
}

#[test]
fn indented_comment_is_dropped_and_indented_path_kept() {
    assert!(!layout_line("   # x"));
    assert!(!layout_line("\t\u{3000}"));
    assert!(layout_line("  a.kdl"));
    assert!(layout_line("a#b"));
}

#[test]
fn white_space_agrees_with_std() {
    for c in ['\t', '\n', ' ', '\u{85}', '\u{a0}', '\u{2003}', '\u{3000}', 'a', '#', '\u{200b}'] {
        assert_eq!(white_space(c), c.is_whitespace());
    }
}

#[test]
fn layout_path_is_under_host_mount() {
    assert_eq!(layout_path("layouts/a.kdl"), "/host/layouts/a.kdl");
}

#[test]
fn only_true_enables_replace_mode() {
    assert!(enabled_value(Some(&"true".to_string())));
    assert!(!enabled_value(Some(&"yes".to_string())));
    assert!(!enabled_value(Some(&"True".to_string())));
    assert!(!enabled_value(None));
}
