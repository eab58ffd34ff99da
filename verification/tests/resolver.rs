use quickpeek::resolver::{AccessibleRef, DolphinResolver, ResolverEvent, ResolverRequest};

fn obj(bus: &str, path: &str) -> AccessibleRef {
    AccessibleRef { bus: bus.to_string(), path: path.to_string() }
}

fn name(bus: &str, path: &str, timeout_ms: i32) -> ResolverRequest {
    ResolverRequest::GetName { bus: bus.to_string(), path: path.to_string(), timeout_ms }
}

fn role(bus: &str, path: &str, timeout_ms: i32) -> ResolverRequest {
    ResolverRequest::GetRole { bus: bus.to_string(), path: path.to_string(), timeout_ms }
}

fn children(bus: &str, path: &str, timeout_ms: i32) -> ResolverRequest {
    ResolverRequest::GetChildren { bus: bus.to_string(), path: path.to_string(), timeout_ms }
}

/// Runs the lookup up to the request for the role of the active window's root.
fn up_to_walk(title: &str) -> (DolphinResolver, ResolverRequest) {
    let r = DolphinResolver::new(Some("/home/u".to_string()), 150);
    let (r, req) = r.step(ResolverEvent::Started, 10);
    assert_eq!(req, ResolverRequest::GetAddress { timeout_ms: 30 });
    let (r, req) = r.step(ResolverEvent::Address(Ok("unix:path=/a11y".to_string())), 10);
    assert_eq!(req, ResolverRequest::Connect { address: "unix:path=/a11y".to_string() });
    let (r, req) = r.step(ResolverEvent::Connected(Ok(())), 10);
    assert_eq!(req, children("org.a11y.atspi.Registry", "/org/a11y/atspi/accessible/root", 30));
    let apps = vec![obj(":1.5", "/app/files"), obj(":1.9", "/app/dolphin")];
    let (r, req) = r.step(ResolverEvent::Children(Ok(apps)), 10);
    assert_eq!(req, name(":1.5", "/app/files", 20));
    let (r, req) = r.step(ResolverEvent::Name("nautilus".to_string()), 10);
    assert_eq!(req, name(":1.9", "/app/dolphin", 20));
    let (r, req) = r.step(ResolverEvent::Name("Dolphin".to_string()), 10);
    assert_eq!(req, children(":1.9", "/app/dolphin", 30));
    let wins = vec![obj(":1.9", "/w/1"), obj(":1.9", "/w/2")];
    let (r, req) = r.step(ResolverEvent::Children(Ok(wins)), 10);
    assert_eq!(req, role(":1.9", "/w/1", 20));
    let (r, req) = r.step(ResolverEvent::Role(23), 10);
    assert_eq!(req, ResolverRequest::GetState { bus: ":1.9".to_string(), path: "/w/1".to_string(), timeout_ms: 20 });
    let (r, req) = r.step(ResolverEvent::States(vec![0, 0]), 10);
    assert_eq!(req, role(":1.9", "/w/2", 20));
    let (r, req) = r.step(ResolverEvent::Role(23), 10);
    let (r, req2) = {
        assert!(matches!(req, ResolverRequest::GetState { .. }));
        r.step(ResolverEvent::States(vec![0x43200102, 0]), 10)
    };
    assert_eq!(req2, name(":1.9", "/w/2", 20));
    r.step(ResolverEvent::Name(title.to_string()), 10)
}

#[test]
fn full_lookup_prefers_the_directory_holding_the_file() {
    let (r, req) = up_to_walk("/tmp \u{2014} Dolphin");
    assert_eq!(req, ResolverRequest::IsDirectory { path: "/tmp".to_string() });
    let (r, req) = r.step(ResolverEvent::PathCheck(true), 10);
    assert_eq!(req, role(":1.9", "/w/2", 15));
    let (r, req) = r.step(ResolverEvent::Role(23), 10);
    assert_eq!(req, children(":1.9", "/w/2", 20));
    let kids = vec![obj(":1.9", "/menu"), obj(":1.9", "/combo"), obj(":1.9", "/list")];
    let (r, req) = r.step(ResolverEvent::Children(Ok(kids)), 10);
    assert_eq!(req, role(":1.9", "/menu", 15));
    // The menu bar is pruned: the walk goes on with the combo box.
    let (r, req) = r.step(ResolverEvent::Role(34), 10);
    assert_eq!(req, role(":1.9", "/combo", 15));
    let (r, req) = r.step(ResolverEvent::Role(11), 10);
    assert_eq!(req, name(":1.9", "/combo", 15));
    let (r, req) = r.step(ResolverEvent::Name(" /var ".to_string()), 10);
    assert_eq!(req, ResolverRequest::IsDirectory { path: "/var".to_string() });
    let (r, req) = r.step(ResolverEvent::PathCheck(true), 10);
    assert_eq!(req, children(":1.9", "/combo", 20));
    let (r, req) = r.step(ResolverEvent::Children(Ok(vec![])), 10);
    assert_eq!(req, role(":1.9", "/list", 15));
    let (r, req) = r.step(ResolverEvent::Role(31), 10);
    assert_eq!(req, ResolverRequest::GetSelectedCount { bus: ":1.9".to_string(), path: "/list".to_string(), timeout_ms: 20 });
    let (r, req) = r.step(ResolverEvent::SelectedCount(Some(2)), 10);
    assert_eq!(req, ResolverRequest::GetSelectedChild { bus: ":1.9".to_string(), path: "/list".to_string(), timeout_ms: 20 });
    let (r, req) = r.step(ResolverEvent::SelectedChild(Some(obj(":1.9", "/item/0"))), 10);
    assert_eq!(req, name(":1.9", "/item/0", 20));
    let (r, req) = r.step(ResolverEvent::Name("photo.png".to_string()), 10);
    // The location bar's directory comes first, the title's is the fallback.
    assert_eq!(req, ResolverRequest::IsFile { path: "/var/photo.png".to_string() });
    let (r, req) = r.step(ResolverEvent::PathCheck(false), 10);
    assert_eq!(req, ResolverRequest::IsFile { path: "/tmp/photo.png".to_string() });
    let (_r, req) = r.step(ResolverEvent::PathCheck(true), 10);
    assert_eq!(req, ResolverRequest::Finished(Ok("/tmp/photo.png".to_string())));
}

#[test]
fn lookup_falls_back_to_the_title_directory() {
    let (r, req) = up_to_walk("~/Pictures - Dolphin");
    assert_eq!(req, ResolverRequest::IsDirectory { path: "/home/u/Pictures".to_string() });
    let (r, _) = r.step(ResolverEvent::PathCheck(true), 10);
    let (r, _) = r.step(ResolverEvent::Role(60), 10);
    let (r, _) = r.step(ResolverEvent::SelectedCount(Some(1)), 10);
    let (r, _) = r.step(ResolverEvent::SelectedChild(Some(obj(":1.9", "/i"))), 10);
    let (r, req) = r.step(ResolverEvent::Name("a.png".to_string()), 10);
    assert_eq!(req, ResolverRequest::IsFile { path: "/home/u/Pictures/a.png".to_string() });
    let (_r, req) = r.step(ResolverEvent::PathCheck(false), 10);
    assert_eq!(req, ResolverRequest::Finished(Ok("/home/u/Pictures/a.png".to_string())));
}

#[test]
fn lookup_without_selection_fails() {
    let (r, req) = up_to_walk("Dolphin");
    // The caption is not a path: the walk begins at once.
    assert_eq!(req, role(":1.9", "/w/2", 15));
    let (r, req) = r.step(ResolverEvent::Role(31), 10);
    assert!(matches!(req, ResolverRequest::GetSelectedCount { .. }));
    let (r, req) = r.step(ResolverEvent::SelectedCount(Some(0)), 10);
    assert_eq!(req, children(":1.9", "/w/2", 20));
    let (_r, req) = r.step(ResolverEvent::Children(Err("no reply".to_string())), 10);
    assert_eq!(
        req,
        ResolverRequest::Finished(Err("no item selected in active Dolphin window".to_string()))
    );
}

#[test]
fn lookup_selection_without_directory_fails() {
    let (r, _) = up_to_walk("Dolphin");
    let (r, _) = r.step(ResolverEvent::Role(31), 10);
    let (r, _) = r.step(ResolverEvent::SelectedCount(Some(1)), 10);
    let (r, _) = r.step(ResolverEvent::SelectedChild(Some(obj(":1.9", "/i"))), 10);
    let (_r, req) = r.step(ResolverEvent::Name("a.png".to_string()), 10);
    assert_eq!(
        req,
        ResolverRequest::Finished(Err("could not derive directory path for selected file 'a.png'".to_string()))
    );
}

#[test]
fn walk_stops_ten_levels_below_the_window() {
    let (mut r, mut req) = up_to_walk("Dolphin");
    for level in 0..=10 {
        let path = if level == 0 { "/w/2".to_string() } else { format!("/n/{}", level) };
        assert_eq!(req, role(":1.9", &path, 15));
        let (r2, req2) = r.step(ResolverEvent::Role(0), 10);
        assert_eq!(req2, children(":1.9", &path, 20));
        let next = vec![obj(":1.9", &format!("/n/{}", level + 1))];
        let (r3, req3) = r2.step(ResolverEvent::Children(Ok(next)), 10);
        r = r3;
        req = req3;
    }
    // The children of the node ten levels down are not visited.
    assert_eq!(
        req,
        ResolverRequest::Finished(Err("no item selected in active Dolphin window".to_string()))
    );
    let _ = r;
}

#[test]
fn deadline_stops_the_lookup() {
    let r = DolphinResolver::new(None, 150);
    let (_r, req) = r.step(ResolverEvent::Started, 150);
    assert_eq!(req, ResolverRequest::Finished(Err("AT-SPI deadline exceeded at start".to_string())));

    let (r, req) = up_to_walk("Dolphin");
    assert_eq!(req, role(":1.9", "/w/2", 15));
    let (r, _) = r.step(ResolverEvent::Role(0), 10);
    let (_r, req) = r.step(ResolverEvent::Children(Ok(vec![obj(":1.9", "/c")])), 150);
    assert_eq!(req, ResolverRequest::Finished(Err("AT-SPI deadline exceeded at tree walk".to_string())));
}

#[test]
fn failures_before_the_walk() {
    let r = DolphinResolver::new(None, 150);
    let (r, _) = r.step(ResolverEvent::Started, 10);
    let (_r, req) = r.step(ResolverEvent::Address(Ok(String::new())), 10);
    assert_eq!(req, ResolverRequest::Finished(Err("empty AT-SPI bus address returned".to_string())));

    let r = DolphinResolver::new(None, 150);
    let (r, _) = r.step(ResolverEvent::Started, 10);
    let (r, _) = r.step(ResolverEvent::Address(Ok("a".to_string())), 10);
    let (_r, req) = r.step(ResolverEvent::Connected(Err("refused".to_string())), 10);
    assert_eq!(req, ResolverRequest::Finished(Err("failed to connect to AT-SPI bus at 'a': refused".to_string())));

    let r = DolphinResolver::new(None, 150);
    let (r, _) = r.step(ResolverEvent::Started, 10);
    let (r, _) = r.step(ResolverEvent::Address(Ok("a".to_string())), 10);
    let (r, _) = r.step(ResolverEvent::Connected(Ok(())), 10);
    let (r, _) = r.step(ResolverEvent::Children(Ok(vec![obj(":1.2", "/x")])), 10);
    let (_r, req) = r.step(ResolverEvent::Name("files".to_string()), 10);
    assert_eq!(req, ResolverRequest::Finished(Err("Dolphin application not found on accessibility bus".to_string())));

    let r = DolphinResolver::new(None, 150);
    let (_r, req) = r.step(ResolverEvent::Name("x".to_string()), 10);
    assert_eq!(req, ResolverRequest::Finished(Err("unexpected reply for the current AT-SPI step".to_string())));
}

#[test]
fn location_bar_wins_when_both_hold_the_file() {
    let (r, _) = up_to_walk("/tmp - Dolphin");
    let (r, _) = r.step(ResolverEvent::PathCheck(true), 10);
    let (r, _) = r.step(ResolverEvent::Role(23), 10);
    let kids = vec![obj(":1.9", "/combo"), obj(":1.9", "/list")];
    let (r, _) = r.step(ResolverEvent::Children(Ok(kids)), 10);
    let (r, _) = r.step(ResolverEvent::Role(11), 10);
    let (r, _) = r.step(ResolverEvent::Name("/var".to_string()), 10);
    let (r, _) = r.step(ResolverEvent::PathCheck(true), 10);
    let (r, _) = r.step(ResolverEvent::Children(Ok(vec![])), 10);
    let (r, _) = r.step(ResolverEvent::Role(31), 10);
    let (r, _) = r.step(ResolverEvent::SelectedCount(Some(1)), 10);
    let (r, _) = r.step(ResolverEvent::SelectedChild(Some(obj(":1.9", "/i"))), 10);
    let (r, req) = r.step(ResolverEvent::Name("n.png".to_string()), 10);
    assert_eq!(req, ResolverRequest::IsFile { path: "/var/n.png".to_string() });
    let (_r, req) = r.step(ResolverEvent::PathCheck(true), 10);
    assert_eq!(req, ResolverRequest::Finished(Ok("/var/n.png".to_string())));
}

#[test]
fn clock_at_the_deadline_stops_the_lookup() {
    let r = DolphinResolver::new(None, 150);
    let (r, req) = r.step(ResolverEvent::Started, 149);
    assert_eq!(req, ResolverRequest::GetAddress { timeout_ms: 30 });
    let (_r, req) = r.step(ResolverEvent::Address(Ok("a".to_string())), 151);
    assert_eq!(req, ResolverRequest::Finished(Err("AT-SPI deadline exceeded at address discovery".to_string())));
}
