use quickpeek::state::{
    get_state_dir, get_state_file_path, load_last_selection, save_last_selection,
    save_last_selection_in,
};

#[test]
fn test_save_and_load_roundtrip() {
    let tmp = "/tmp/qp_state_test_1";
    let plan = save_last_selection_in(tmp, "/sample/path/image.png", 4242, 0);
    assert_eq!(plan.dir, tmp.to_string());
    assert_eq!(plan.target_path, "/tmp/qp_state_test_1/last_selection".to_string());
    assert_eq!(plan.content, "/sample/path/image.png\n".to_string());
    assert_eq!(
        load_last_selection(Some(plan.content.as_str())),
        Some("/sample/path/image.png".to_string())
    );
}

#[test]
fn test_load_nonexistent_state_file() {
    assert_eq!(load_last_selection(None), None);
}

#[test]
fn test_load_empty_or_whitespace_state_file() {
    assert_eq!(load_last_selection(Some("   \n  \n")), None);
    assert_eq!(load_last_selection(Some("")), None);
}

#[test]
fn test_atomic_overwrite() {
    let tmp = "/tmp/qp_state_test_overwrite";
    let first = save_last_selection_in(tmp, "/first/image.png", 7, 0);
    let second = save_last_selection_in(tmp, "/second/image.png", 7, 1);
    assert_eq!(first.target_path, second.target_path);
    assert_ne!(first.temp_path, second.temp_path);
    assert_eq!(first.temp_path, "/tmp/qp_state_test_overwrite/.last_selection.tmp.7.0".to_string());
    assert_eq!(second.temp_path, "/tmp/qp_state_test_overwrite/.last_selection.tmp.7.1".to_string());
    assert_eq!(load_last_selection(Some(first.content.as_str())), Some("/first/image.png".to_string()));
    assert_eq!(load_last_selection(Some(second.content.as_str())), Some("/second/image.png".to_string()));
}

#[test]
fn load_trims_the_content() {
    assert_eq!(load_last_selection(Some("  /a b/c.png \r\n")), Some("/a b/c.png".to_string()));
}

#[test]
fn state_dir_precedence() {
    assert_eq!(get_state_dir(Some("/x/state"), Some("/home/u")), "/x/state/quickpeek".to_string());
    assert_eq!(get_state_dir(Some(""), Some("/home/u")), "/home/u/.local/state/quickpeek".to_string());
    assert_eq!(get_state_dir(None, Some("/home/u/")), "/home/u/.local/state/quickpeek".to_string());
    assert_eq!(get_state_dir(None, Some("")), ".local/state/quickpeek".to_string());
    assert_eq!(get_state_dir(None, None), ".local/state/quickpeek".to_string());
    assert_eq!(
        get_state_file_path(None, Some("/home/u")),
        "/home/u/.local/state/quickpeek/last_selection".to_string()
    );
}

#[test]
fn save_uses_the_state_dir() {
    let plan = save_last_selection(Some("/s"), None, "/p.png", 12, 345);
    assert_eq!(plan.dir, "/s/quickpeek".to_string());
    assert_eq!(plan.temp_path, "/s/quickpeek/.last_selection.tmp.12.345".to_string());
    assert_eq!(plan.target_path, "/s/quickpeek/last_selection".to_string());
    assert_eq!(plan.content, "/p.png\n".to_string());
}
