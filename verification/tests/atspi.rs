use quickpeek::atspi::{
    check_a11y_address_reply, check_deadline, choose_selected_path, derive_selected_path,
    first_dir_holding_file,
    is_active_window, is_dolphin_app_name, is_view_role, parse_dir_from_window_title,
    should_prune_role, title_dir_candidate_of, ROLE_COMBO_BOX, ROLE_FRAME, ROLE_LIST,
    ROLE_MENU_BAR, ROLE_PUSH_BUTTON, ROLE_SCROLL_BAR, ROLE_TABLE, ROLE_TOOL_BAR,
    ROLE_TREE_TABLE, ROLE_DIALOG, ROLE_WINDOW, ROLE_CHECK_BOX,
};
use std::path::Path;
use std::time::{Duration, Instant};

const FIXTURES: &str = "/home/seemoo/Documents/Projects/QuickPeek/tests/fixtures";

fn check_title(title: &str) {
    // The caption names the directory; the directory itself is only accepted
    // where it exists on this machine.
    assert_eq!(title_dir_candidate_of(title, None), Some(FIXTURES.to_string()));
    let res = parse_dir_from_window_title(title, None);
    if Path::new(FIXTURES).is_dir() {
        assert_eq!(res, Some(FIXTURES.to_string()));
    } else {
        assert_eq!(res, None);
    }
}

#[test]
fn test_parse_dir_from_window_title_em_dash() {
    check_title("/home/seemoo/Documents/Projects/QuickPeek/tests/fixtures \u{2014} Dolphin");
}

#[test]
fn test_parse_dir_from_window_title_hyphen() {
    check_title("/home/seemoo/Documents/Projects/QuickPeek/tests/fixtures - Dolphin");
}

#[test]
fn test_parse_dir_from_window_title_en_dash() {
    check_title("/home/seemoo/Documents/Projects/QuickPeek/tests/fixtures \u{2013} Dolphin");
}

#[test]
fn test_parse_dir_from_window_title_tilde_expansion() {
    let home = "/tmp";
    let title = "~/Documents \u{2014} Dolphin";
    assert_eq!(
        title_dir_candidate_of(title, Some(home)),
        Some("/tmp/Documents".to_string())
    );
    let res = parse_dir_from_window_title(title, Some(home));
    if Path::new("/tmp/Documents").is_dir() {
        assert_eq!(res, Some("/tmp/Documents".to_string()));
    }
}

#[test]
fn test_parse_dir_from_window_title_non_directory_or_empty() {
    assert_eq!(parse_dir_from_window_title("", None), None);
    assert_eq!(parse_dir_from_window_title("   ", None), None);
    assert_eq!(parse_dir_from_window_title("Dolphin", None), None);
    assert_eq!(
        parse_dir_from_window_title("/nonexistent/directory/12345 \u{2014} Dolphin", None),
        None
    );
}

#[test]
fn title_of_an_existing_directory_is_accepted() {
    assert_eq!(parse_dir_from_window_title("  /tmp - Dolphin ", None), Some("/tmp".to_string()));
    assert_eq!(parse_dir_from_window_title("/ \u{2013} Dolphin", None), Some("/".to_string()));
}

#[test]
fn title_candidates() {
    assert_eq!(title_dir_candidate_of("~", Some("/home/u")), Some("/home/u".to_string()));
    assert_eq!(title_dir_candidate_of("~", None), Some("~".to_string()));
    assert_eq!(title_dir_candidate_of("~/a/b - Dolphin", Some("/home/u/")), Some("/home/u/a/b".to_string()));
    assert_eq!(title_dir_candidate_of("~x \u{2014} Dolphin", Some("/home/u")), Some("~x".to_string()));
    assert_eq!(title_dir_candidate_of(" - Dolphin", None), Some("- Dolphin".to_string()));
    assert_eq!(title_dir_candidate_of("\t /srv/data  \u{2014} Dolphin\n", None), Some("/srv/data".to_string()));
    assert_eq!(title_dir_candidate_of("relative \u{2014} Dolphin", None), Some("relative".to_string()));
    assert_eq!(title_dir_candidate_of("\u{3000}\u{2014} Dolphin", None), Some("\u{2014} Dolphin".to_string()));
    assert_eq!(parse_dir_from_window_title("relative \u{2014} Dolphin", None), None);
}

#[test]
fn test_is_active_window() {
    assert!(is_active_window(&[2, 0], ROLE_FRAME));
    assert!(is_active_window(&[0x43200102, 0], ROLE_FRAME));

    assert!(!is_active_window(&[0, 0], ROLE_FRAME));
    assert!(!is_active_window(&[0x43200100, 0], ROLE_FRAME));

    assert!(!is_active_window(&[2, 0], ROLE_LIST));
    assert!(!is_active_window(&[2, 0], ROLE_PUSH_BUTTON));
}

#[test]
fn active_window_roles_and_empty_state() {
    assert!(is_active_window(&[2], ROLE_WINDOW));
    assert!(is_active_window(&[3], ROLE_DIALOG));
    assert!(!is_active_window(&[], ROLE_FRAME));
    assert!(!is_active_window(&[0, 2], ROLE_FRAME));
}

#[test]
fn test_should_prune_role() {
    assert!(should_prune_role(ROLE_MENU_BAR));
    assert!(should_prune_role(ROLE_TOOL_BAR));
    assert!(should_prune_role(ROLE_PUSH_BUTTON));
    assert!(should_prune_role(ROLE_SCROLL_BAR));

    assert!(!should_prune_role(ROLE_FRAME));
    assert!(!should_prune_role(ROLE_LIST));
    assert!(!should_prune_role(ROLE_TABLE));
    assert!(!should_prune_role(ROLE_COMBO_BOX));
}

#[test]
fn pruned_roles_complete() {
    for role in [34u32, 35, 67, 59, 54, 56, 43, 7, 44] {
        assert!(should_prune_role(role));
    }
    assert!(should_prune_role(ROLE_CHECK_BOX));
    assert!(!should_prune_role(0));
    assert!(!should_prune_role(32));
}

#[test]
fn test_is_view_role() {
    assert!(is_view_role(ROLE_LIST));
    assert!(is_view_role(ROLE_TABLE));
    assert!(is_view_role(ROLE_TREE_TABLE));

    assert!(!is_view_role(ROLE_FRAME));
    assert!(!is_view_role(ROLE_COMBO_BOX));
    assert!(!is_view_role(ROLE_PUSH_BUTTON));
}

#[test]
fn test_derive_selected_path_existing_fixture() {
    let fixtures_dir = "tests/fixtures".to_string();
    let dirs = vec![fixtures_dir.clone()];

    let res = derive_selected_path(&dirs, "sample.png");
    assert_eq!(res, Ok(format!("{}/sample.png", fixtures_dir)));
}

#[test]
fn test_derive_selected_path_empty_filename() {
    let dirs = vec!["/tmp".to_string()];
    assert!(derive_selected_path(&dirs, "").is_err());
    assert!(derive_selected_path(&dirs, "   ").is_err());
    assert_eq!(derive_selected_path(&dirs, " \t"), Err("selected item has empty filename".to_string()));
}

#[test]
fn test_derive_selected_path_no_candidate_dirs() {
    assert!(derive_selected_path(&[], "sample.png").is_err());
    assert_eq!(
        derive_selected_path(&[], " sample.png "),
        Err("could not derive directory path for selected file 'sample.png'".to_string())
    );
}

#[test]
fn test_derive_selected_path_fallback_to_first_dir() {
    let dirs = vec!["/nonexistent/dir1".to_string(), "/nonexistent/dir2".to_string()];
    let res = derive_selected_path(&dirs, "foo.png");
    assert_eq!(res, Ok("/nonexistent/dir1/foo.png".to_string()));
}

#[test]
fn derive_prefers_an_existing_file() {
    // /etc/hostname or /etc/passwd exist on any Linux machine the tests run on.
    let dirs = vec!["/nonexistent/dir1".to_string(), "/etc".to_string()];
    assert_eq!(derive_selected_path(&dirs, "passwd"), Ok("/etc/passwd".to_string()));
    // The first directory that holds the file wins.
    let dirs = vec!["/nonexistent/dir1".to_string(), "/etc".to_string(), "/etc/".to_string()];
    assert_eq!(derive_selected_path(&dirs, "passwd"), Ok("/etc/passwd".to_string()));
    let dirs = vec!["/usr/../etc".to_string(), "/etc".to_string()];
    assert_eq!(derive_selected_path(&dirs, "passwd"), Ok("/usr/../etc/passwd".to_string()));
    assert_eq!(derive_selected_path(&[], "/etc/passwd"), Ok("/etc/passwd".to_string()));
    assert_eq!(derive_selected_path(&dirs, "/nonexistent/x.png"), Ok("/nonexistent/x.png".to_string()));
}

#[test]
fn choose_selected_path_cases() {
    let dirs = vec!["/a".to_string(), "/b/".to_string(), "/c".to_string()];
    assert_eq!(choose_selected_path(&dirs, " x.png ", false, &[]), Ok("/a/x.png".to_string()));
    assert_eq!(choose_selected_path(&dirs, "x.png", false, &[false, true]), Ok("/b/x.png".to_string()));
    assert_eq!(choose_selected_path(&dirs, "x.png", false, &[false, true, true]), Ok("/b/x.png".to_string()));
    assert_eq!(choose_selected_path(&dirs, "x.png", false, &[true, true, true]), Ok("/a/x.png".to_string()));
    assert_eq!(choose_selected_path(&dirs, "x.png", false, &[false, false, false]), Ok("/a/x.png".to_string()));
    assert_eq!(choose_selected_path(&dirs, "/c/x.png", true, &[false, true]), Ok("/c/x.png".to_string()));
    assert_eq!(choose_selected_path(&dirs, "/c/x.png", false, &[]), Ok("/c/x.png".to_string()));
    assert_eq!(choose_selected_path(&dirs, "c/x.png", true, &[]), Ok("/a/c/x.png".to_string()));
    assert_eq!(choose_selected_path(&[], "x.png", false, &[]), Err("could not derive directory path for selected file 'x.png'".to_string()));
    assert_eq!(choose_selected_path(&dirs, "", false, &[]), Err("selected item has empty filename".to_string()));
}

#[test]
fn first_dir_holding_the_file() {
    assert_eq!(first_dir_holding_file(&[]), None);
    assert_eq!(first_dir_holding_file(&[false, false]), None);
    assert_eq!(first_dir_holding_file(&[false, true, true]), Some(1));
    assert_eq!(first_dir_holding_file(&[true]), Some(0));
}

fn millis_since(start: Instant) -> u64 {
    start.elapsed().as_millis() as u64
}

#[test]
fn test_check_deadline() {
    let start = Instant::now() - Duration::from_millis(20);
    let now = millis_since(start);
    let future = now + Duration::from_secs(10).as_millis() as u64;
    assert!(check_deadline(now, future, "test").is_ok());

    let past = now - 10;
    let err = check_deadline(now, past, "test").unwrap_err();
    assert!(err.contains("deadline exceeded"));
    assert_eq!(err, "AT-SPI deadline exceeded at test");
    assert!(check_deadline(5, 5, "x").is_err());
    assert!(check_deadline(4, 5, "x").is_ok());
}

#[test]
fn test_primary_item_choice_first_valid() {
    let fixtures_dir = "tests/fixtures".to_string();
    let dirs = vec![fixtures_dir.clone()];

    let items = vec!["sample.png", "sample2.png"];
    let primary = items[0];
    let res = derive_selected_path(&dirs, primary);
    assert_eq!(res, Ok(format!("{}/sample.png", fixtures_dir)));
}

#[test]
fn address_reply() {
    assert_eq!(
        check_a11y_address_reply(Ok("unix:path=/run/user/1000/at-spi/bus_0".to_string())),
        Ok("unix:path=/run/user/1000/at-spi/bus_0".to_string())
    );
    assert_eq!(
        check_a11y_address_reply(Ok(String::new())),
        Err("empty AT-SPI bus address returned".to_string())
    );
    assert_eq!(
        check_a11y_address_reply(Err("timeout".to_string())),
        Err("org.a11y.Bus GetAddress failed: timeout".to_string())
    );
}

#[test]
fn dolphin_name_ignores_ascii_case() {
    assert!(is_dolphin_app_name("dolphin"));
    assert!(is_dolphin_app_name("Dolphin"));
    assert!(is_dolphin_app_name("DOLPHIN"));
    assert!(!is_dolphin_app_name("dolphin "));
    assert!(!is_dolphin_app_name("nautilus"));
    assert!(!is_dolphin_app_name(""));
}
