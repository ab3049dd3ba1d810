use ghsync::identity::resolve_remote_identity;
use ghsync::mirror::{mirror_args, mirror_plan};
use ghsync::pipeline::{has_changes_from_status, is_affirmative};
use ghsync::store::get_path;
use ghsync::text::{normalize_source_dir, str_eq, str_starts_with};

#[test]
fn resolves_https_url() {
    let r = resolve_remote_identity("https://github.com/acme/widgets.git");
    assert_eq!(r, Some("acme/widgets".to_string()));
}

#[test]
fn resolves_ssh_url() {
    let r = resolve_remote_identity("git@github.com:acme/widgets.git");
    assert_eq!(r, Some("acme/widgets".to_string()));
}

#[test]
fn resolves_url_with_extra_segments_to_first_two() {
    let r = resolve_remote_identity("https://github.com/acme/widgets/extra.git");
    assert_eq!(r, Some("acme/widgets".to_string()));
}

#[test]
fn single_segment_url_is_absent() {
    assert_eq!(resolve_remote_identity("https://github.com/acme.git"), None);
    assert_eq!(resolve_remote_identity("github.com"), None);
    assert_eq!(resolve_remote_identity(""), None);
}

#[test]
fn two_bare_segments_resolve() {
    let r = resolve_remote_identity("acme/widgets");
    assert_eq!(r, Some("acme/widgets".to_string()));
}

#[test]
fn prefix_and_equality_helpers() {
    assert!(str_starts_with("https://x", "https://"));
    assert!(!str_starts_with("http://x", "https://"));
    assert!(str_starts_with("abc", ""));
    assert!(!str_starts_with("ab", "abc"));
    assert!(str_eq("same", "same"));
    assert!(!str_eq("same", "sane"));
    assert!(!str_eq("same", "sam"));
}

#[test]
fn normalize_adds_exactly_one_slash() {
    assert_eq!(normalize_source_dir("/a"), "/a/".to_string());
    assert_eq!(normalize_source_dir("/a/"), "/a/".to_string());
    assert_eq!(normalize_source_dir(""), "/".to_string());
}

#[test]
fn mirror_args_are_the_exact_tool_invocation() {
    let args = mirror_args("/src", "/dst");
    let expected: Vec<String> = vec![
        "-av".to_string(),
        "--delete".to_string(),
        "--exclude".to_string(),
        ".*".to_string(),
        "--exclude".to_string(),
        ".*.".to_string(),
        "/src/".to_string(),
        "/dst".to_string(),
    ];
    assert_eq!(args, expected);
}

#[test]
fn mirror_plan_spares_hidden_entries() {
    let source = vec![
        "src".to_string(),
        ".git".to_string(),
        "README.md".to_string(),
        ".env".to_string(),
    ];
    let dest = vec![
        ".git".to_string(),
        "old".to_string(),
        "src".to_string(),
        ".cache".to_string(),
    ];
    let plan = mirror_plan(&source, &dest);
    assert_eq!(plan.copy, vec!["src".to_string(), "README.md".to_string()]);
    assert_eq!(plan.delete, vec!["old".to_string()]);
}

#[test]
fn mirror_plan_deletes_nothing_when_trees_agree() {
    let source = vec!["a".to_string(), "b".to_string()];
    let dest = vec!["a".to_string(), "b".to_string()];
    let plan = mirror_plan(&source, &dest);
    assert_eq!(plan.copy, vec!["a".to_string(), "b".to_string()]);
    assert_eq!(plan.delete, Vec::<String>::new());
}

#[test]
fn change_gate_reads_status_output() {
    assert!(!has_changes_from_status(&None));
    assert!(!has_changes_from_status(&Some(Vec::new())));
    assert!(has_changes_from_status(&Some(b" M src/lib.rs\n".to_vec())));
}

#[test]
fn affirmative_answers() {
    assert!(is_affirmative("y"));
    assert!(is_affirmative("yes"));
    assert!(is_affirmative("Y"));
    assert!(is_affirmative("YeS"));
    assert!(is_affirmative("  yes\n"));
    assert!(is_affirmative("\ty \r\n"));
    assert!(!is_affirmative("n"));
    assert!(!is_affirmative("no"));
    assert!(!is_affirmative(""));
    assert!(!is_affirmative("   "));
    assert!(!is_affirmative("yess"));
    assert!(!is_affirmative("y e s"));
}

#[test]
fn affirmative_answers_under_unicode_whitespace() {
    assert!(is_affirmative("yes\u{000B}"));
    assert!(is_affirmative("yes\u{000C}"));
    assert!(is_affirmative("\u{00A0}y\u{00A0}"));
    assert!(is_affirmative("\u{2003}YES\u{2028}"));
    assert!(is_affirmative("\u{3000}y\u{205F}"));
    assert!(!is_affirmative("yes\u{0660}"));
    assert!(!is_affirmative("\u{200B}y"));
}

#[test]
fn config_path_prefers_the_configuration_directory() {
    assert_eq!(
        get_path(Some("/xdg"), Some("/home/u")),
        Some("/xdg/ghsync/config.json".to_string())
    );
    assert_eq!(get_path(Some("/xdg/"), None), Some("/xdg/ghsync/config.json".to_string()));
}

#[test]
fn config_path_falls_back_to_home_then_nowhere() {
    assert_eq!(
        get_path(None, Some("/home/u")),
        Some("/home/u/.config/ghsync/config.json".to_string())
    );
    assert_eq!(get_path(None, None), None);
}
