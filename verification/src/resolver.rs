//! The lookup of the file selected in the active Dolphin window, as a state
//! machine.
//!
//! The lookup alternates questions to the accessibility bus and to the file
//! system with decisions. The decisions are made here: `DolphinResolver::step`
//! takes the answer to the last request (and whether the deadline has been
//! reached) and returns the next request, until it returns
//! `ResolverRequest::Finished` with the path or the reason for failing. The
//! caller performs each request and hands back its answer.
//!
//! The steps: find the accessibility bus and connect to it; find the
//! application whose accessible name is `dolphin` (up to ASCII case); find
//! its first active top-level window; read a directory from the window's
//! title; walk the window's tree depth first (at most ten levels below the
//! window, never into menus, bars or buttons), reading the location bar for
//! a directory and the first selected item of the first view that has a
//! selection; then derive the item's path from the candidate directories.

use vstd::prelude::*;
use crate::atspi::{
    a11y_address, check_a11y_address_reply, deadline_message, is_active_window,
    is_dolphin_app_name, is_dolphin_name, is_view_role, pruned_role, result_view, selected_path,
    should_prune_role, title_dir_candidate, title_dir_candidate_of, valid_probe, view_role,
    has_active_bit, window_role, selected_path_for, lemma_selected_path_names_the_file,
    ROLE_COMBO_BOX,
};
use crate::text::{is_absolute_path, is_absolute_str, path_join, path_join_str, trim, trim_str};

verus! {

/// Accessible object reference: the bus name of its application and its
/// object path.
#[derive(Debug, Clone, PartialEq, Eq)]
pub struct AccessibleRef {
    pub bus: String,
    pub path: String,
}

/// The view of an accessible object reference.
pub struct RefView {
    pub bus: Seq<char>,
    pub path: Seq<char>,
}

impl View for AccessibleRef {
    type V = RefView;

    open spec fn view(&self) -> RefView {
        RefView { bus: self.bus@, path: self.path@ }
    }
}

impl DeepView for AccessibleRef {
    type V = RefView;

    open spec fn deep_view(&self) -> RefView {
        self@
    }
}

/// A node of the window's tree that is still to be visited, with its depth
/// below the window.
pub struct StackEntry {
    pub path: String,
    pub depth: usize,
}

/// The view of a node still to be visited.
pub struct EntryView {
    pub path: Seq<char>,
    pub depth: nat,
}

impl View for StackEntry {
    type V = EntryView;

    open spec fn view(&self) -> EntryView {
        EntryView { path: self.path@, depth: self.depth as nat }
    }
}

impl DeepView for StackEntry {
    type V = EntryView;

    open spec fn deep_view(&self) -> EntryView {
        self@
    }
}

/// The answer to the last request.
#[derive(Debug)]
pub enum ResolverEvent {
    /// The lookup begins (there was no request yet).
    Started,
    /// `org.a11y.Bus.GetAddress`: the address, or the error's text.
    Address(Result<String, String>),
    /// Connecting to the accessibility bus: done, or the error's text.
    Connected(Result<(), String>),
    /// `GetChildren`: the children, or the error's text.
    Children(Result<Vec<AccessibleRef>, String>),
    /// The accessible name (empty where the call failed).
    Name(String),
    /// `GetRole` (0 where the call failed).
    Role(u32),
    /// `GetState`: the state words (empty where the call failed).
    States(Vec<u32>),
    /// `NSelectedChildren`: `None` where the call failed, 0 where the value
    /// was not an integer.
    SelectedCount(Option<i32>),
    /// `GetSelectedChild(0)`: `None` where the call failed.
    SelectedChild(Option<AccessibleRef>),
    /// Whether the file system holds a directory (or regular file) at the
    /// path that was asked about.
    PathCheck(bool),
}

/// The view of an answer.
pub enum EventView {
    Started,
    Address(Result<Seq<char>, Seq<char>>),
    Connected(Result<(), Seq<char>>),
    Children(Result<Seq<RefView>, Seq<char>>),
    Name(Seq<char>),
    Role(u32),
    States(Seq<u32>),
    SelectedCount(Option<i32>),
    SelectedChild(Option<RefView>),
    PathCheck(bool),
}

impl View for ResolverEvent {
    type V = EventView;

    open spec fn view(&self) -> EventView {
        match self {
            ResolverEvent::Started => EventView::Started,
            ResolverEvent::Address(r) => EventView::Address(result_view(*r)),
            ResolverEvent::Connected(r) => EventView::Connected(
                match r {
                    Ok(_) => Ok(()),
                    Err(e) => Err(e@),
                },
            ),
            ResolverEvent::Children(r) => EventView::Children(
                match r {
                    Ok(v) => Ok(v.deep_view()),
                    Err(e) => Err(e@),
                },
            ),
            ResolverEvent::Name(n) => EventView::Name(n@),
            ResolverEvent::Role(r) => EventView::Role(*r),
            ResolverEvent::States(v) => EventView::States(v@),
            ResolverEvent::SelectedCount(c) => EventView::SelectedCount(*c),
            ResolverEvent::SelectedChild(c) => EventView::SelectedChild(c.deep_view()),
            ResolverEvent::PathCheck(b) => EventView::PathCheck(*b),
        }
    }
}

/// What the caller does next.
#[derive(Debug, PartialEq, Eq)]
pub enum ResolverRequest {
    /// Call `org.a11y.Bus.GetAddress` on the session bus.
    GetAddress { timeout_ms: i32 },
    /// Connect to the accessibility bus at `address`.
    Connect { address: String },
    /// Call `org.a11y.atspi.Accessible.GetChildren`.
    GetChildren { bus: String, path: String, timeout_ms: i32 },
    /// Read the `Name` property of `org.a11y.atspi.Accessible`.
    GetName { bus: String, path: String, timeout_ms: i32 },
    /// Call `org.a11y.atspi.Accessible.GetRole`.
    GetRole { bus: String, path: String, timeout_ms: i32 },
    /// Call `org.a11y.atspi.Accessible.GetState`.
    GetState { bus: String, path: String, timeout_ms: i32 },
    /// Read the `NSelectedChildren` property of `org.a11y.atspi.Selection`.
    GetSelectedCount { bus: String, path: String, timeout_ms: i32 },
    /// Call `org.a11y.atspi.Selection.GetSelectedChild(0)`.
    GetSelectedChild { bus: String, path: String, timeout_ms: i32 },
    /// Ask the file system whether `path` is a directory.
    IsDirectory { path: String },
    /// Ask the file system whether `path` is a regular file.
    IsFile { path: String },
    /// The lookup is over: the selected file's path, or why there is none.
    Finished(Result<String, String>),
}

/// The view of a request.
pub enum RequestView {
    GetAddress { timeout_ms: i32 },
    Connect { address: Seq<char> },
    GetChildren { bus: Seq<char>, path: Seq<char>, timeout_ms: i32 },
    GetName { bus: Seq<char>, path: Seq<char>, timeout_ms: i32 },
    GetRole { bus: Seq<char>, path: Seq<char>, timeout_ms: i32 },
    GetState { bus: Seq<char>, path: Seq<char>, timeout_ms: i32 },
    GetSelectedCount { bus: Seq<char>, path: Seq<char>, timeout_ms: i32 },
    GetSelectedChild { bus: Seq<char>, path: Seq<char>, timeout_ms: i32 },
    IsDirectory { path: Seq<char> },
    IsFile { path: Seq<char> },
    Finished(Result<Seq<char>, Seq<char>>),
}

impl View for ResolverRequest {
    type V = RequestView;

    open spec fn view(&self) -> RequestView {
        match self {
            ResolverRequest::GetAddress { timeout_ms } => RequestView::GetAddress {
                timeout_ms: *timeout_ms,
            },
            ResolverRequest::Connect { address } => RequestView::Connect { address: address@ },
            ResolverRequest::GetChildren { bus, path, timeout_ms } => RequestView::GetChildren {
                bus: bus@,
                path: path@,
                timeout_ms: *timeout_ms,
            },
            ResolverRequest::GetName { bus, path, timeout_ms } => RequestView::GetName {
                bus: bus@,
                path: path@,
                timeout_ms: *timeout_ms,
            },
            ResolverRequest::GetRole { bus, path, timeout_ms } => RequestView::GetRole {
                bus: bus@,
                path: path@,
                timeout_ms: *timeout_ms,
            },
            ResolverRequest::GetState { bus, path, timeout_ms } => RequestView::GetState {
                bus: bus@,
                path: path@,
                timeout_ms: *timeout_ms,
            },
            ResolverRequest::GetSelectedCount { bus, path, timeout_ms } =>
                RequestView::GetSelectedCount { bus: bus@, path: path@, timeout_ms: *timeout_ms },
            ResolverRequest::GetSelectedChild { bus, path, timeout_ms } =>
                RequestView::GetSelectedChild { bus: bus@, path: path@, timeout_ms: *timeout_ms },
            ResolverRequest::IsDirectory { path } => RequestView::IsDirectory { path: path@ },
            ResolverRequest::IsFile { path } => RequestView::IsFile { path: path@ },
            ResolverRequest::Finished(r) => RequestView::Finished(result_view(*r)),
        }
    }
}

/// The phase of the lookup: what the last request was.
pub enum PhaseView {
    Start,
    AwaitAddress,
    AwaitConnect { address: Seq<char> },
    AwaitRootChildren,
    AwaitAppName { apps: Seq<RefView>, index: nat },
    AwaitWindows,
    AwaitWindowRole { windows: Seq<RefView>, index: nat },
    AwaitWindowState { windows: Seq<RefView>, index: nat, role: u32 },
    AwaitWindowName { window: Seq<char> },
    AwaitTitleDir { candidate: Seq<char>, window: Seq<char> },
    WalkRole { node: EntryView },
    WalkComboName { node: EntryView },
    AwaitLocationDir { node: EntryView, candidate: Seq<char> },
    WalkSelectedCount { node: EntryView },
    WalkSelectedChild { node: EntryView },
    WalkItemName { node: EntryView },
    WalkChildren { node: EntryView },
    ProbeDirect,
    ProbeDir { index: nat },
    Done,
}

/// The state of a lookup.
pub struct ResolverView {
    /// The value of `HOME`, which a leading `~` in a window title stands for.
    pub home: Option<Seq<char>>,
    /// When the lookup must give up, in milliseconds of the caller's
    /// monotonic clock.
    pub deadline_ms: nat,
    /// The bus name of the Dolphin application, once found.
    pub bus: Seq<char>,
    /// The directory read from the active window's title.
    pub title_dir: Option<Seq<char>>,
    /// The directory read from the location bar.
    pub location_dir: Option<Seq<char>>,
    /// The name of the first selected item.
    pub selected: Option<Seq<char>>,
    /// The nodes still to be visited, the next one last.
    pub stack: Seq<EntryView>,
    pub phase: PhaseView,
}

// ---------------------------------------------------------------------------
// The rules, as spec functions.
// ---------------------------------------------------------------------------

/// Deepest level below the window whose nodes are looked at.
pub open spec fn max_depth() -> nat {
    10
}

/// Bus name of the accessibility registry.
pub open spec fn registry_bus() -> Seq<char> {
    "org.a11y.atspi.Registry"@
}

/// Object path of the desktop's root accessible.
pub open spec fn root_path() -> Seq<char> {
    "/org/a11y/atspi/accessible/root"@
}

pub open spec fn connect_message(address: Seq<char>, err: Seq<char>) -> Seq<char> {
    "failed to connect to AT-SPI bus at '"@ + address + "': "@ + err
}

pub open spec fn root_children_message(err: Seq<char>) -> Seq<char> {
    "AT-SPI root GetChildren failed: "@ + err
}

pub open spec fn app_children_message(err: Seq<char>) -> Seq<char> {
    "Dolphin app GetChildren failed: "@ + err
}

pub open spec fn dolphin_not_found_message() -> Seq<char> {
    "Dolphin application not found on accessibility bus"@
}

pub open spec fn no_active_window_message() -> Seq<char> {
    "no active Dolphin window found"@
}

pub open spec fn no_item_selected_message() -> Seq<char> {
    "no item selected in active Dolphin window"@
}

pub open spec fn unexpected_reply_message() -> Seq<char> {
    "unexpected reply for the current AT-SPI step"@
}

/// The directories in which the selected item is looked for: the location
/// bar's directory, then the window title's where it differs (the caption
/// is the fallback).
pub open spec fn candidate_dirs(title_dir: Option<Seq<char>>, location_dir: Option<Seq<char>>) -> Seq<
    Seq<char>,
> {
    let first = match location_dir {
        Some(d) => seq![d],
        None => Seq::<Seq<char>>::empty(),
    };
    match title_dir {
        Some(t) => if location_dir == Some(t) {
            first
        } else {
            first.push(t)
        },
        None => first,
    }
}

/// The candidate directories of a state.
pub open spec fn dirs_of(s: ResolverView) -> Seq<Seq<char>> {
    candidate_dirs(s.title_dir, s.location_dir)
}

/// The lookup ends with `result`.
pub open spec fn finish(s: ResolverView, result: Result<Seq<char>, Seq<char>>) -> (
    ResolverView,
    RequestView,
) {
    (ResolverView { phase: PhaseView::Done, ..s }, RequestView::Finished(result))
}

/// The lookup fails with `msg`.
pub open spec fn fail(s: ResolverView, msg: Seq<char>) -> (ResolverView, RequestView) {
    finish(s, Err(msg))
}

/// `next`, unless the deadline was reached at `step`.
pub open spec fn gated(
    s: ResolverView,
    reached: bool,
    step: Seq<char>,
    next: (ResolverView, RequestView),
) -> (ResolverView, RequestView) {
    if reached {
        fail(s, deadline_message(step))
    } else {
        next
    }
}

/// Ask for the name of the application at `index`, or fail where none is left.
pub open spec fn search_app(s: ResolverView, apps: Seq<RefView>, index: nat, reached: bool) -> (
    ResolverView,
    RequestView,
) {
    if index < apps.len() {
        gated(
            s,
            reached,
            "app search"@,
            (
                ResolverView { phase: PhaseView::AwaitAppName { apps, index }, ..s },
                RequestView::GetName { bus: apps[index as int].bus, path: apps[index as int].path, timeout_ms: 20 },
            ),
        )
    } else {
        fail(s, dolphin_not_found_message())
    }
}

/// Ask for the role of the window at `index`, or fail where none is left.
pub open spec fn inspect_window(s: ResolverView, windows: Seq<RefView>, index: nat, reached: bool) -> (
    ResolverView,
    RequestView,
) {
    if index < windows.len() {
        gated(
            s,
            reached,
            "window inspection"@,
            (
                ResolverView { phase: PhaseView::AwaitWindowRole { windows, index }, ..s },
                RequestView::GetRole { bus: s.bus, path: windows[index as int].path, timeout_ms: 20 },
            ),
        )
    } else {
        fail(s, no_active_window_message())
    }
}

/// Visit `node`: ask for its role.
pub open spec fn visit(s: ResolverView, node: EntryView, reached: bool) -> (ResolverView, RequestView) {
    gated(
        s,
        reached,
        "tree walk"@,
        (
            ResolverView { phase: PhaseView::WalkRole { node }, ..s },
            RequestView::GetRole { bus: s.bus, path: node.path, timeout_ms: 15 },
        ),
    )
}

/// Ask for the children of `node`.
pub open spec fn ask_children(s: ResolverView, node: EntryView) -> (ResolverView, RequestView) {
    (
        ResolverView { phase: PhaseView::WalkChildren { node }, ..s },
        RequestView::GetChildren { bus: s.bus, path: node.path, timeout_ms: 20 },
    )
}

/// After the location bar was looked at (or not): read the selection of a
/// view, else go to the children.
pub open spec fn after_location(s: ResolverView, node: EntryView, role: u32) -> (
    ResolverView,
    RequestView,
) {
    if view_role(role) {
        (
            ResolverView { phase: PhaseView::WalkSelectedCount { node }, ..s },
            RequestView::GetSelectedCount { bus: s.bus, path: node.path, timeout_ms: 20 },
        )
    } else {
        ask_children(s, node)
    }
}

/// `stack` with the nodes `children` pushed so that the first child is
/// visited first.
pub open spec fn push_children(stack: Seq<EntryView>, children: Seq<RefView>, depth: nat) -> Seq<
    EntryView,
>
    decreases children.len(),
{
    if children.len() == 0 {
        stack
    } else {
        push_children(stack, children.drop_first(), depth).push(
            EntryView { path: children[0].path, depth },
        )
    }
}

/// Try the candidate directory at `index`, or settle on the fallback where
/// none is left.
pub open spec fn probe_from(s: ResolverView, index: nat) -> (ResolverView, RequestView) {
    let dirs = dirs_of(s);
    let name = s.selected->0;
    if index < dirs.len() {
        (
            ResolverView { phase: PhaseView::ProbeDir { index }, ..s },
            RequestView::IsFile { path: path_join(dirs[index as int], trim(name)) },
        )
    } else {
        finish(s, selected_path(dirs, name, false, None))
    }
}

/// The walk is over: derive the path of the selected item.
pub open spec fn finish_walk(s: ResolverView) -> (ResolverView, RequestView) {
    match s.selected {
        None => fail(s, no_item_selected_message()),
        Some(name) => {
            let t = trim(name);
            if t.len() == 0 {
                finish(s, selected_path(dirs_of(s), name, false, None))
            } else if is_absolute_path(t) {
                (ResolverView { phase: PhaseView::ProbeDirect, ..s }, RequestView::IsFile { path: t })
            } else {
                probe_from(s, 0)
            }
        },
    }
}

/// Visit the next node still to be visited, skipping those deeper than the
/// limit; end the walk where none is left.
pub open spec fn next_node(s: ResolverView, reached: bool) -> (ResolverView, RequestView)
    decreases s.stack.len(),
{
    if s.stack.len() == 0 {
        finish_walk(s)
    } else {
        let top = s.stack.last();
        let rest = ResolverView { stack: s.stack.drop_last(), ..s };
        if top.depth > max_depth() {
            next_node(rest, reached)
        } else {
            visit(rest, top, reached)
        }
    }
}

/// Begin the walk at the active window.
pub open spec fn start_walk(s: ResolverView, window: Seq<char>, reached: bool) -> (
    ResolverView,
    RequestView,
) {
    visit(ResolverView { stack: Seq::empty(), ..s }, EntryView { path: window, depth: 0 }, reached)
}

/// One step of the lookup: the state `s` receives the answer `e`; `reached`
/// tells whether the deadline had been reached when the answer came.
pub open spec fn resolver_step(s: ResolverView, e: EventView, reached: bool) -> (
    ResolverView,
    RequestView,
) {
    let s0 = ResolverView { phase: PhaseView::Done, ..s };
    let unexpected = fail(s0, unexpected_reply_message());
    match s.phase {
        PhaseView::Start => match e {
            EventView::Started => gated(
                s0,
                reached,
                "start"@,
                (
                    ResolverView { phase: PhaseView::AwaitAddress, ..s0 },
                    RequestView::GetAddress { timeout_ms: 30 },
                ),
            ),
            _ => unexpected,
        },
        PhaseView::AwaitAddress => match e {
            EventView::Address(reply) => match a11y_address(reply) {
                Err(m) => fail(s0, m),
                Ok(a) => gated(
                    s0,
                    reached,
                    "address discovery"@,
                    (
                        ResolverView { phase: PhaseView::AwaitConnect { address: a }, ..s0 },
                        RequestView::Connect { address: a },
                    ),
                ),
            },
            _ => unexpected,
        },
        PhaseView::AwaitConnect { address } => match e {
            EventView::Connected(Err(err)) => fail(s0, connect_message(address, err)),
            EventView::Connected(Ok(())) => gated(
                s0,
                reached,
                "bus connection"@,
                (
                    ResolverView { phase: PhaseView::AwaitRootChildren, ..s0 },
                    RequestView::GetChildren { bus: registry_bus(), path: root_path(), timeout_ms: 30 },
                ),
            ),
            _ => unexpected,
        },
        PhaseView::AwaitRootChildren => match e {
            EventView::Children(Err(err)) => fail(s0, root_children_message(err)),
            EventView::Children(Ok(apps)) => search_app(s0, apps, 0, reached),
            _ => unexpected,
        },
        PhaseView::AwaitAppName { apps, index } => match e {
            EventView::Name(name) => if is_dolphin_name(name) {
                let app = apps[index as int];
                let s1 = ResolverView { bus: app.bus, ..s0 };
                gated(
                    s1,
                    reached,
                    "window search"@,
                    (
                        ResolverView { phase: PhaseView::AwaitWindows, ..s1 },
                        RequestView::GetChildren { bus: app.bus, path: app.path, timeout_ms: 30 },
                    ),
                )
            } else {
                search_app(s0, apps, index + 1, reached)
            },
            _ => unexpected,
        },
        PhaseView::AwaitWindows => match e {
            EventView::Children(Err(err)) => fail(s0, app_children_message(err)),
            EventView::Children(Ok(windows)) => inspect_window(s0, windows, 0, reached),
            _ => unexpected,
        },
        PhaseView::AwaitWindowRole { windows, index } => match e {
            EventView::Role(role) => (
                ResolverView { phase: PhaseView::AwaitWindowState { windows, index, role }, ..s0 },
                RequestView::GetState { bus: s0.bus, path: windows[index as int].path, timeout_ms: 20 },
            ),
            _ => unexpected,
        },
        PhaseView::AwaitWindowState { windows, index, role } => match e {
            EventView::States(states) => if window_role(role) && has_active_bit(states) {
                let w = windows[index as int].path;
                (
                    ResolverView { phase: PhaseView::AwaitWindowName { window: w }, ..s0 },
                    RequestView::GetName { bus: s0.bus, path: w, timeout_ms: 20 },
                )
            } else {
                inspect_window(s0, windows, index + 1, reached)
            },
            _ => unexpected,
        },
        PhaseView::AwaitWindowName { window } => match e {
            EventView::Name(title) => match title_dir_candidate(title, s0.home) {
                Some(c) => if is_absolute_path(c) {
                    (
                        ResolverView { phase: PhaseView::AwaitTitleDir { candidate: c, window }, ..s0 },
                        RequestView::IsDirectory { path: c },
                    )
                } else {
                    start_walk(ResolverView { title_dir: None, ..s0 }, window, reached)
                },
                None => start_walk(ResolverView { title_dir: None, ..s0 }, window, reached),
            },
            _ => unexpected,
        },
        PhaseView::AwaitTitleDir { candidate, window } => match e {
            EventView::PathCheck(is_dir) => start_walk(
                ResolverView {
                    title_dir: if is_dir {
                        Some(candidate)
                    } else {
                        None
                    },
                    ..s0
                },
                window,
                reached,
            ),
            _ => unexpected,
        },
        PhaseView::WalkRole { node } => match e {
            EventView::Role(role) => if pruned_role(role) {
                next_node(s0, reached)
            } else if role == ROLE_COMBO_BOX && s0.location_dir is None {
                (
                    ResolverView { phase: PhaseView::WalkComboName { node }, ..s0 },
                    RequestView::GetName { bus: s0.bus, path: node.path, timeout_ms: 15 },
                )
            } else {
                after_location(s0, node, role)
            },
            _ => unexpected,
        },
        PhaseView::WalkComboName { node } => match e {
            EventView::Name(name) => {
                let t = trim(name);
                if is_absolute_path(t) {
                    (
                        ResolverView { phase: PhaseView::AwaitLocationDir { node, candidate: t }, ..s0 },
                        RequestView::IsDirectory { path: t },
                    )
                } else {
                    ask_children(s0, node)
                }
            },
            _ => unexpected,
        },
        PhaseView::AwaitLocationDir { node, candidate } => match e {
            EventView::PathCheck(is_dir) => if is_dir {
                ask_children(ResolverView { location_dir: Some(candidate), ..s0 }, node)
            } else {
                ask_children(s0, node)
            },
            _ => unexpected,
        },
        PhaseView::WalkSelectedCount { node } => match e {
            EventView::SelectedCount(count) => if count matches Some(n) && n > 0 {
                (
                    ResolverView { phase: PhaseView::WalkSelectedChild { node }, ..s0 },
                    RequestView::GetSelectedChild { bus: s0.bus, path: node.path, timeout_ms: 20 },
                )
            } else {
                ask_children(s0, node)
            },
            _ => unexpected,
        },
        PhaseView::WalkSelectedChild { node } => match e {
            EventView::SelectedChild(child) => match child {
                Some(c) => (
                    ResolverView { phase: PhaseView::WalkItemName { node }, ..s0 },
                    RequestView::GetName { bus: s0.bus, path: c.path, timeout_ms: 20 },
                ),
                None => ask_children(s0, node),
            },
            _ => unexpected,
        },
        PhaseView::WalkItemName { node } => match e {
            EventView::Name(name) => if name.len() > 0 {
                finish_walk(ResolverView { selected: Some(name), ..s0 })
            } else {
                ask_children(s0, node)
            },
            _ => unexpected,
        },
        PhaseView::WalkChildren { node } => match e {
            EventView::Children(Ok(children)) => next_node(
                ResolverView { stack: push_children(s0.stack, children, node.depth + 1), ..s0 },
                reached,
            ),
            EventView::Children(Err(_)) => next_node(s0, reached),
            _ => unexpected,
        },
        PhaseView::ProbeDirect => match e {
            EventView::PathCheck(is_file) => if is_file {
                finish(s0, selected_path(dirs_of(s0), s0.selected->0, true, None))
            } else {
                probe_from(s0, 0)
            },
            _ => unexpected,
        },
        PhaseView::ProbeDir { index } => match e {
            EventView::PathCheck(is_file) => if is_file {
                finish(s0, selected_path(dirs_of(s0), s0.selected->0, false, Some(index as int)))
            } else {
                probe_from(s0, index + 1)
            },
            _ => unexpected,
        },
        PhaseView::Done => unexpected,
    }
}

/// Every node still to be visited is at most one level below the limit.
pub open spec fn stack_bounded(stack: Seq<EntryView>) -> bool {
    forall|i: int| 0 <= i < stack.len() ==> #[trigger] stack[i].depth <= max_depth() + 1
}

/// The invariant of a lookup's state.
pub open spec fn resolver_wf(s: ResolverView) -> bool {
    &&& stack_bounded(s.stack)
    &&& match s.phase {
        PhaseView::AwaitAppName { apps, index } => index < apps.len(),
        PhaseView::AwaitWindowRole { windows, index } => index < windows.len(),
        PhaseView::AwaitWindowState { windows, index, .. } => index < windows.len(),
        PhaseView::WalkRole { node } => node.depth <= max_depth(),
        PhaseView::WalkComboName { node } => node.depth <= max_depth(),
        PhaseView::AwaitLocationDir { node, .. } => node.depth <= max_depth(),
        PhaseView::WalkSelectedCount { node } => node.depth <= max_depth(),
        PhaseView::WalkSelectedChild { node } => node.depth <= max_depth(),
        PhaseView::WalkItemName { node } => node.depth <= max_depth(),
        PhaseView::WalkChildren { node } => node.depth <= max_depth(),
        PhaseView::ProbeDirect => s.selected is Some,
        PhaseView::ProbeDir { index } => s.selected is Some && index < dirs_of(s).len(),
        _ => true,
    }
}


// ---------------------------------------------------------------------------
// Laws of the lookup.
// ---------------------------------------------------------------------------

/// `p` is a path that the selection of `s` derives to, for some answers of
/// the file system.
pub open spec fn derived_from_selection(s: ResolverView, p: Seq<char>) -> bool {
    &&& s.selected is Some
    &&& exists|direct_is_file: bool, first_existing: Option<int>|
        #![trigger selected_path(dirs_of(s), s.selected->0, direct_is_file, first_existing)]
        valid_probe(dirs_of(s), first_existing) && selected_path(
            dirs_of(s),
            s.selected->0,
            direct_is_file,
            first_existing,
        ) == Ok::<Seq<char>, Seq<char>>(p)
}

/// The lookup's outcome, where the step ends it with a path: the path was
/// derived from the selected item.
pub open spec fn success_is_derived(r: (ResolverView, RequestView)) -> bool {
    r.1 matches RequestView::Finished(Ok(p)) ==> derived_from_selection(r.0, p)
}

/// The requests that begin a stage of the lookup: finding the bus,
/// connecting to it, and looking at a window or a node of its tree.
pub open spec fn begins_stage(r: RequestView) -> bool {
    r is GetAddress || r is Connect || r is GetRole
}

proof fn lemma_probe_from_success(s: ResolverView, index: nat)
    requires
        s.selected is Some,
    ensures
        success_is_derived(probe_from(s, index)),
{
    let dirs = dirs_of(s);
    let name = s.selected->0;
    if index >= dirs.len() {
        let r = probe_from(s, index);
        assert(dirs_of(r.0) == dirs);
        assert(valid_probe(dirs, None));
        lemma_selected_path_names_the_file(dirs, name, false, None);
    }
}

proof fn lemma_finish_walk_success(s: ResolverView)
    ensures
        success_is_derived(finish_walk(s)),
        !begins_stage(finish_walk(s).1),
{
    if let Some(name) = s.selected {
        let t = trim(name);
        if t.len() == 0 {
            assert(valid_probe(dirs_of(s), None));
            lemma_selected_path_names_the_file(dirs_of(s), name, false, None);
        } else if !is_absolute_path(t) {
            lemma_probe_from_success(s, 0);
        }
    }
}

proof fn lemma_next_node(s: ResolverView, reached: bool)
    ensures
        success_is_derived(next_node(s, reached)),
        reached ==> !begins_stage(next_node(s, reached).1),
    decreases s.stack.len(),
{
    if s.stack.len() == 0 {
        lemma_finish_walk_success(s);
    } else {
        let rest = ResolverView { stack: s.stack.drop_last(), ..s };
        if s.stack.last().depth > max_depth() {
            lemma_next_node(rest, reached);
        }
    }
}

proof fn lemma_next_node_shape(s: ResolverView, reached: bool)
    ensures
        next_node(s, reached).0.bus == s.bus,
        ({
            let ph = next_node(s, reached).0.phase;
            ph is WalkRole || ph is Done || ph is ProbeDirect || ph is ProbeDir
        }),
    decreases s.stack.len(),
{
    if s.stack.len() > 0 {
        let rest = ResolverView { stack: s.stack.drop_last(), ..s };
        if s.stack.last().depth > max_depth() {
            lemma_next_node_shape(rest, reached);
        }
    }
}

proof fn lemma_step_shape(s: ResolverView, e: EventView, reached: bool)
    ensures
        !(s.phase is AwaitAppName) ==> resolver_step(s, e, reached).0.bus == s.bus,
        !(s.phase is AwaitWindowState) ==> !(resolver_step(s, e, reached).0.phase is AwaitWindowName),
{
    let s0 = ResolverView { phase: PhaseView::Done, ..s };
    match s.phase {
        PhaseView::WalkRole { node } => {
            lemma_next_node_shape(s0, reached);
        },
        PhaseView::WalkChildren { node } => {
            if let EventView::Children(Ok(children)) = e {
                lemma_next_node_shape(
                    ResolverView { stack: push_children(s0.stack, children, node.depth + 1), ..s0 },
                    reached,
                );
            } else {
                lemma_next_node_shape(s0, reached);
            }
        },
        _ => {},
    }
}

proof fn lemma_drop_last_bounded(stack: Seq<EntryView>)
    requires
        stack_bounded(stack),
        stack.len() > 0,
    ensures
        stack_bounded(stack.drop_last()),
        stack.last().depth <= max_depth() + 1,
{
    assert forall|i: int| 0 <= i < stack.drop_last().len() implies #[trigger] stack.drop_last()[i].depth <= max_depth() + 1 by {
        assert(stack.drop_last()[i] == stack[i]);
    }
}

proof fn lemma_next_node_wf(s: ResolverView, reached: bool)
    requires
        stack_bounded(s.stack),
    ensures
        resolver_wf(next_node(s, reached).0),
    decreases s.stack.len(),
{
    if s.stack.len() > 0 {
        lemma_drop_last_bounded(s.stack);
        let rest = ResolverView { stack: s.stack.drop_last(), ..s };
        if s.stack.last().depth > max_depth() {
            lemma_next_node_wf(rest, reached);
        }
    }
}

/// Every state of a lookup satisfies the invariant `resolver_wf`: in
/// particular, the walk asks about no node more than ten levels below the
/// window.
#[verifier::spinoff_prover]
pub proof fn lemma_step_preserves_wf(s: ResolverView, e: EventView, reached: bool)
    requires
        resolver_wf(s),
    ensures
        resolver_wf(resolver_step(s, e, reached).0),
{
    let s0 = ResolverView { phase: PhaseView::Done, ..s };
    match s.phase {
        PhaseView::WalkRole { node } => {
            lemma_next_node_wf(s0, reached);
        },
        PhaseView::WalkChildren { node } => {
            if let EventView::Children(Ok(children)) = e {
                lemma_push_children_depths(s0.stack, children, node.depth + 1);
                lemma_next_node_wf(
                    ResolverView { stack: push_children(s0.stack, children, node.depth + 1), ..s0 },
                    reached,
                );
            } else {
                lemma_next_node_wf(s0, reached);
            }
        },
        PhaseView::AwaitTitleDir { candidate, window } => {},
        PhaseView::AwaitWindowName { window } => {},
        _ => {},
    }
}

/// A lookup that ends with a path ends with one derived from the name of
/// the selected item and the candidate directories (the location bar's,
/// then the title's): by `lemma_selected_path_names_the_file`, the item's
/// trimmed name itself or that name joined onto a candidate directory.
pub proof fn lemma_success_is_derived(s: ResolverView, e: EventView, reached: bool)
    requires
        resolver_wf(s),
    ensures
        success_is_derived(resolver_step(s, e, reached)),
{
    let s0 = ResolverView { phase: PhaseView::Done, ..s };
    match s.phase {
        PhaseView::AwaitTitleDir { candidate, window } => {
            if let EventView::PathCheck(is_dir) = e {
                let s1 = ResolverView { title_dir: if is_dir { Some(candidate) } else { None }, ..s0 };
                lemma_next_node(ResolverView { stack: Seq::empty(), ..s1 }, reached);
            }
        },
        PhaseView::WalkRole { node } => {
            lemma_next_node(s0, reached);
        },
        PhaseView::WalkItemName { node } => {
            if let EventView::Name(name) = e {
                lemma_finish_walk_success(ResolverView { selected: Some(name), ..s0 });
            }
        },
        PhaseView::WalkChildren { node } => {
            if let EventView::Children(Ok(children)) = e {
                lemma_next_node(
                    ResolverView { stack: push_children(s0.stack, children, node.depth + 1), ..s0 },
                    reached,
                );
            } else {
                lemma_next_node(s0, reached);
            }
        },
        PhaseView::ProbeDirect => {
            if let EventView::PathCheck(is_file) = e {
                if is_file {
                    let name = s0.selected->0;
                    assert(valid_probe(dirs_of(s0), None));
                    lemma_selected_path_names_the_file(dirs_of(s0), name, true, None);
                } else {
                    lemma_probe_from_success(s0, 0);
                }
            }
        },
        PhaseView::ProbeDir { index } => {
            if let EventView::PathCheck(is_file) = e {
                if is_file {
                    let name = s0.selected->0;
                    assert(valid_probe(dirs_of(s0), Some(index as int)));
                    lemma_selected_path_names_the_file(dirs_of(s0), name, false, Some(index as int));
                } else {
                    lemma_probe_from_success(s0, index + 1);
                }
            }
        },
        _ => {},
    }
}

/// Once the deadline is reached, the lookup begins no further stage: it
/// neither looks for nor connects to the bus, nor asks for the role of
/// another window or node (and so walks no deeper).
pub proof fn lemma_deadline_stops_the_lookup(s: ResolverView, e: EventView)
    ensures
        !begins_stage(resolver_step(s, e, true).1),
{
    let s0 = ResolverView { phase: PhaseView::Done, ..s };
    match s.phase {
        PhaseView::AwaitTitleDir { candidate, window } => {},
        PhaseView::WalkRole { node } => {
            lemma_next_node(s0, true);
        },
        PhaseView::WalkItemName { node } => {
            if let EventView::Name(name) = e {
                lemma_finish_walk_success(ResolverView { selected: Some(name), ..s0 });
            }
        },
        PhaseView::WalkChildren { node } => {
            if let EventView::Children(Ok(children)) = e {
                lemma_next_node(
                    ResolverView { stack: push_children(s0.stack, children, node.depth + 1), ..s0 },
                    true,
                );
            } else {
                lemma_next_node(s0, true);
            }
        },
        _ => {},
    }
}

/// An object whose role is a menu, bar or button is not looked into: the
/// walk goes on with the next node still to be visited.
pub proof fn lemma_pruned_subtree_skipped(s: ResolverView, role: u32, reached: bool)
    requires
        s.phase is WalkRole,
        pruned_role(role),
    ensures
        resolver_step(s, EventView::Role(role), reached) == next_node(
            ResolverView { phase: PhaseView::Done, ..s },
            reached,
        ),
{
}

/// An object of a view role (list, table or tree table, by their AT-SPI
/// role numbers) is not pruned: its selection is read, by asking how many
/// of its children are selected.
pub proof fn lemma_view_selection_is_read(s: ResolverView, role: u32, reached: bool)
    requires
        s.phase is WalkRole,
        role == 31 || role == 60 || role == 69,
    ensures
        ({
            let node = s.phase->WalkRole_node;
            resolver_step(s, EventView::Role(role), reached) == (
                ResolverView { phase: PhaseView::WalkSelectedCount { node }, ..s },
                RequestView::GetSelectedCount { bus: s.bus, path: node.path, timeout_ms: 20 },
            )
        }),
{
}

/// The window whose tree is walked is one whose role is that of a
/// top-level window and whose state has the active bit: the lookup only
/// goes on to a window's title after both were seen.
pub proof fn lemma_only_active_window_is_read(s: ResolverView, e: EventView, reached: bool)
    ensures
        resolver_step(s, e, reached).0.phase is AwaitWindowName ==> (s.phase matches PhaseView::AwaitWindowState { role, .. } && e matches EventView::States(states) && window_role(role) && has_active_bit(states)),
{
    lemma_step_shape(s, e, reached);
}

/// The application whose windows are inspected is the first one whose
/// accessible name is `dolphin` up to ASCII case: the lookup only takes an
/// application's bus name after seeing such a name.
pub proof fn lemma_only_dolphin_is_inspected(s: ResolverView, e: EventView, reached: bool)
    ensures
        resolver_step(s, e, reached).0.bus != s.bus ==> (s.phase matches PhaseView::AwaitAppName { apps, index } && e matches EventView::Name(name) && is_dolphin_name(name) && resolver_step(s, e, reached).0.bus == apps[index as int].bus),
{
    lemma_step_shape(s, e, reached);
}

// ---------------------------------------------------------------------------
// The state machine.
// ---------------------------------------------------------------------------

enum Phase {
    Start,
    AwaitAddress,
    AwaitConnect { address: String },
    AwaitRootChildren,
    AwaitAppName { apps: Vec<AccessibleRef>, index: usize },
    AwaitWindows,
    AwaitWindowRole { windows: Vec<AccessibleRef>, index: usize },
    AwaitWindowState { windows: Vec<AccessibleRef>, index: usize, role: u32 },
    AwaitWindowName { window: String },
    AwaitTitleDir { candidate: String, window: String },
    WalkRole { node: StackEntry },
    WalkComboName { node: StackEntry },
    AwaitLocationDir { node: StackEntry, candidate: String },
    WalkSelectedCount { node: StackEntry },
    WalkSelectedChild { node: StackEntry },
    WalkItemName { node: StackEntry },
    WalkChildren { node: StackEntry },
    ProbeDirect,
    ProbeDir { index: usize },
    Done,
}

impl View for Phase {
    type V = PhaseView;

    closed spec fn view(&self) -> PhaseView {
        match self {
            Phase::Start => PhaseView::Start,
            Phase::AwaitAddress => PhaseView::AwaitAddress,
            Phase::AwaitConnect { address } => PhaseView::AwaitConnect { address: address@ },
            Phase::AwaitRootChildren => PhaseView::AwaitRootChildren,
            Phase::AwaitAppName { apps, index } => PhaseView::AwaitAppName {
                apps: apps.deep_view(),
                index: *index as nat,
            },
            Phase::AwaitWindows => PhaseView::AwaitWindows,
            Phase::AwaitWindowRole { windows, index } => PhaseView::AwaitWindowRole {
                windows: windows.deep_view(),
                index: *index as nat,
            },
            Phase::AwaitWindowState { windows, index, role } => PhaseView::AwaitWindowState {
                windows: windows.deep_view(),
                index: *index as nat,
                role: *role,
            },
            Phase::AwaitWindowName { window } => PhaseView::AwaitWindowName { window: window@ },
            Phase::AwaitTitleDir { candidate, window } => PhaseView::AwaitTitleDir {
                candidate: candidate@,
                window: window@,
            },
            Phase::WalkRole { node } => PhaseView::WalkRole { node: node@ },
            Phase::WalkComboName { node } => PhaseView::WalkComboName { node: node@ },
            Phase::AwaitLocationDir { node, candidate } => PhaseView::AwaitLocationDir {
                node: node@,
                candidate: candidate@,
            },
            Phase::WalkSelectedCount { node } => PhaseView::WalkSelectedCount { node: node@ },
            Phase::WalkSelectedChild { node } => PhaseView::WalkSelectedChild { node: node@ },
            Phase::WalkItemName { node } => PhaseView::WalkItemName { node: node@ },
            Phase::WalkChildren { node } => PhaseView::WalkChildren { node: node@ },
            Phase::ProbeDirect => PhaseView::ProbeDirect,
            Phase::ProbeDir { index } => PhaseView::ProbeDir { index: *index as nat },
            Phase::Done => PhaseView::Done,
        }
    }
}

/// A lookup of the file selected in the active Dolphin window.
pub struct DolphinResolver {
    home: Option<String>,
    deadline_ms: u64,
    bus: String,
    title_dir: Option<String>,
    location_dir: Option<String>,
    selected: Option<String>,
    stack: Vec<StackEntry>,
    phase: Phase,
}

impl View for DolphinResolver {
    type V = ResolverView;

    closed spec fn view(&self) -> ResolverView {
        ResolverView {
            home: self.home.deep_view(),
            deadline_ms: self.deadline_ms as nat,
            bus: self.bus@,
            title_dir: self.title_dir.deep_view(),
            location_dir: self.location_dir.deep_view(),
            selected: self.selected.deep_view(),
            stack: self.stack.deep_view(),
            phase: self.phase@,
        }
    }
}

impl DolphinResolver {
    #[verifier::type_invariant]
    closed spec fn inv(self) -> bool {
        resolver_wf(self@)
    }

    /// A lookup that has not begun; `home` is the value of `HOME` (where
    /// set), and the lookup gives up once the caller's monotonic clock reads
    /// `deadline_ms` or later.
    pub fn new(home: Option<String>, deadline_ms: u64) -> (r: Self)
        ensures
            r@ == (ResolverView {
                home: home.deep_view(),
                deadline_ms: deadline_ms as nat,
                bus: Seq::empty(),
                title_dir: None,
                location_dir: None,
                selected: None,
                stack: Seq::empty(),
                phase: PhaseView::Start,
            }),
    {
        let r = DolphinResolver {
            home,
            deadline_ms,
            bus: String::new(),
            title_dir: None,
            location_dir: None,
            selected: None,
            stack: Vec::new(),
            phase: Phase::Start,
        };
        assert(r.stack.deep_view() =~= Seq::<EntryView>::empty());
        r
    }

    /// One step of the lookup: receives the answer to the last request
    /// (`ResolverEvent::Started` at first) and the reading `now_ms` of the
    /// caller's monotonic clock when it came, and returns the next request.
    /// The deadline counts as reached where `now_ms` is at or past it.
    pub fn step(self, event: ResolverEvent, now_ms: u64) -> (r: (DolphinResolver, ResolverRequest))
        ensures
            (r.0@, r.1@) == resolver_step(self@, event@, now_ms >= self@.deadline_ms),
            resolver_wf(r.0@),
    {
        proof {
            use_type_invariant(&self);
        }
        let ghost before = self@;
        let deadline_reached = now_ms >= self.deadline_ms;
        let mut s = self;
        let mut phase = Phase::Done;
        std::mem::swap(&mut phase, &mut s.phase);
        proof {
            use_type_invariant(&s);
        }
        assert(phase@ == before.phase);
        assert(s@ == ResolverView { phase: PhaseView::Done, ..before });
        let reached = deadline_reached;
        let r = match phase {
            Phase::Start => match event {
                ResolverEvent::Started => {
                    if reached {
                        fail_step(s, deadline_text("start"))
                    } else {
                        s.phase = Phase::AwaitAddress;
                        (s, ResolverRequest::GetAddress { timeout_ms: 30 })
                    }
                },
                _ => fail_step(s, unexpected_text()),
            },
            Phase::AwaitAddress => match event {
                ResolverEvent::Address(reply) => match check_a11y_address_reply(reply) {
                    Err(m) => fail_step(s, m),
                    Ok(a) => {
                        if reached {
                            fail_step(s, deadline_text("address discovery"))
                        } else {
                            let address = a.clone();
                            s.phase = Phase::AwaitConnect { address: a };
                            (s, ResolverRequest::Connect { address })
                        }
                    },
                },
                _ => fail_step(s, unexpected_text()),
            },
            Phase::AwaitConnect { address } => match event {
                ResolverEvent::Connected(Err(err)) => {
                    let mut m = String::from_str("failed to connect to AT-SPI bus at '");
                    m.append(address.as_str());
                    m.append("': ");
                    m.append(err.as_str());
                    fail_step(s, m)
                },
                ResolverEvent::Connected(Ok(())) => {
                    if reached {
                        fail_step(s, deadline_text("bus connection"))
                    } else {
                        s.phase = Phase::AwaitRootChildren;
                        (
                            s,
                            ResolverRequest::GetChildren {
                                bus: String::from_str("org.a11y.atspi.Registry"),
                                path: String::from_str("/org/a11y/atspi/accessible/root"),
                                timeout_ms: 30,
                            },
                        )
                    }
                },
                _ => fail_step(s, unexpected_text()),
            },
            Phase::AwaitRootChildren => match event {
                ResolverEvent::Children(Err(err)) => {
                    let mut m = String::from_str("AT-SPI root GetChildren failed: ");
                    m.append(err.as_str());
                    fail_step(s, m)
                },
                ResolverEvent::Children(Ok(apps)) => search_app_step(s, apps, 0, reached),
                _ => fail_step(s, unexpected_text()),
            },
            Phase::AwaitAppName { apps, index } => match event {
                ResolverEvent::Name(name) => {
                    assert(apps.deep_view().len() == apps.len());
                    if is_dolphin_app_name(name.as_str()) {
                        let bus = apps[index].bus.clone();
                        let path = apps[index].path.clone();
                        s.bus = bus.clone();
                        if reached {
                            fail_step(s, deadline_text("window search"))
                        } else {
                            s.phase = Phase::AwaitWindows;
                            (s, ResolverRequest::GetChildren { bus, path, timeout_ms: 30 })
                        }
                    } else {
                        search_app_step(s, apps, index + 1, reached)
                    }
                },
                _ => fail_step(s, unexpected_text()),
            },
            Phase::AwaitWindows => match event {
                ResolverEvent::Children(Err(err)) => {
                    let mut m = String::from_str("Dolphin app GetChildren failed: ");
                    m.append(err.as_str());
                    fail_step(s, m)
                },
                ResolverEvent::Children(Ok(windows)) => inspect_window_step(s, windows, 0, reached),
                _ => fail_step(s, unexpected_text()),
            },
            Phase::AwaitWindowRole { windows, index } => match event {
                ResolverEvent::Role(role) => {
                    assert(windows.deep_view().len() == windows.len());
                    let bus = s.bus.clone();
                    let path = windows[index].path.clone();
                    s.phase = Phase::AwaitWindowState { windows, index, role };
                    (s, ResolverRequest::GetState { bus, path, timeout_ms: 20 })
                },
                _ => fail_step(s, unexpected_text()),
            },
            Phase::AwaitWindowState { windows, index, role } => match event {
                ResolverEvent::States(states) => {
                    assert(windows.deep_view().len() == windows.len());
                    if is_active_window(states.as_slice(), role) {
                        let w = windows[index].path.clone();
                        let bus = s.bus.clone();
                        let path = w.clone();
                        s.phase = Phase::AwaitWindowName { window: w };
                        (s, ResolverRequest::GetName { bus, path, timeout_ms: 20 })
                    } else {
                        inspect_window_step(s, windows, index + 1, reached)
                    }
                },
                _ => fail_step(s, unexpected_text()),
            },
            Phase::AwaitWindowName { window } => match event {
                ResolverEvent::Name(title) => {
                    let candidate = match &s.home {
                        Some(h) => title_dir_candidate_of(title.as_str(), Some(h.as_str())),
                        None => title_dir_candidate_of(title.as_str(), None),
                    };
                    match candidate {
                        Some(c) => {
                            if is_absolute_str(c.as_str()) {
                                let path = c.clone();
                                s.phase = Phase::AwaitTitleDir { candidate: c, window };
                                (s, ResolverRequest::IsDirectory { path })
                            } else {
                                s.title_dir = None;
                                start_walk_step(s, window, reached)
                            }
                        },
                        None => {
                            s.title_dir = None;
                            start_walk_step(s, window, reached)
                        },
                    }
                },
                _ => fail_step(s, unexpected_text()),
            },
            Phase::AwaitTitleDir { candidate, window } => match event {
                ResolverEvent::PathCheck(is_dir) => {
                    if is_dir {
                        s.title_dir = Some(candidate);
                    } else {
                        s.title_dir = None;
                    }
                    start_walk_step(s, window, reached)
                },
                _ => fail_step(s, unexpected_text()),
            },
            Phase::WalkRole { node } => match event {
                ResolverEvent::Role(role) => {
                    if should_prune_role(role) {
                        next_node_step(s, reached)
                    } else if role == ROLE_COMBO_BOX && s.location_dir.is_none() {
                        let bus = s.bus.clone();
                        let path = node.path.clone();
                        s.phase = Phase::WalkComboName { node };
                        (s, ResolverRequest::GetName { bus, path, timeout_ms: 15 })
                    } else {
                        after_location_step(s, node, role)
                    }
                },
                _ => fail_step(s, unexpected_text()),
            },
            Phase::WalkComboName { node } => match event {
                ResolverEvent::Name(name) => {
                    let t = trim_str(name.as_str());
                    if is_absolute_str(t) {
                        let path = String::from_str(t);
                        let candidate = String::from_str(t);
                        s.phase = Phase::AwaitLocationDir { node, candidate };
                        (s, ResolverRequest::IsDirectory { path })
                    } else {
                        ask_children_step(s, node)
                    }
                },
                _ => fail_step(s, unexpected_text()),
            },
            Phase::AwaitLocationDir { node, candidate } => match event {
                ResolverEvent::PathCheck(is_dir) => {
                    if is_dir {
                        s.location_dir = Some(candidate);
                    }
                    ask_children_step(s, node)
                },
                _ => fail_step(s, unexpected_text()),
            },
            Phase::WalkSelectedCount { node } => match event {
                ResolverEvent::SelectedCount(count) => {
                    let positive = match count {
                        Some(n) => n > 0,
                        None => false,
                    };
                    if positive {
                        let bus = s.bus.clone();
                        let path = node.path.clone();
                        s.phase = Phase::WalkSelectedChild { node };
                        (s, ResolverRequest::GetSelectedChild { bus, path, timeout_ms: 20 })
                    } else {
                        ask_children_step(s, node)
                    }
                },
                _ => fail_step(s, unexpected_text()),
            },
            Phase::WalkSelectedChild { node } => match event {
                ResolverEvent::SelectedChild(child) => match child {
                    Some(c) => {
                        let bus = s.bus.clone();
                        s.phase = Phase::WalkItemName { node };
                        (s, ResolverRequest::GetName { bus, path: c.path, timeout_ms: 20 })
                    },
                    None => ask_children_step(s, node),
                },
                _ => fail_step(s, unexpected_text()),
            },
            Phase::WalkItemName { node } => match event {
                ResolverEvent::Name(name) => {
                    if name.as_str().unicode_len() > 0 {
                        s.selected = Some(name);
                        finish_walk_step(s)
                    } else {
                        ask_children_step(s, node)
                    }
                },
                _ => fail_step(s, unexpected_text()),
            },
            Phase::WalkChildren { node } => match event {
                ResolverEvent::Children(Ok(children)) => {
                    let mut stack: Vec<StackEntry> = Vec::new();
                    std::mem::swap(&mut stack, &mut s.stack);
                    let ghost old_stack = stack.deep_view();
                    push_children_exec(&mut stack, &children, node.depth + 1);
                    proof {
                        lemma_push_children_depths(old_stack, children.deep_view(), (node.depth + 1) as nat);
                    }
                    s.stack = stack;
                    next_node_step(s, reached)
                },
                ResolverEvent::Children(Err(_)) => next_node_step(s, reached),
                _ => fail_step(s, unexpected_text()),
            },
            Phase::ProbeDirect => match event {
                ResolverEvent::PathCheck(is_file) => {
                    if is_file {
                        let dirs = candidate_dirs_exec(&s.title_dir, &s.location_dir);
                        let name = selected_name(&s);
                        let res = selected_path_for(dirs.as_slice(), name.as_str(), true, None);
                        finish_with(s, res)
                    } else {
                        probe_from_step(s, 0)
                    }
                },
                _ => fail_step(s, unexpected_text()),
            },
            Phase::ProbeDir { index } => match event {
                ResolverEvent::PathCheck(is_file) => {
                    if is_file {
                        let dirs = candidate_dirs_exec(&s.title_dir, &s.location_dir);
                        let name = selected_name(&s);
                        let res = selected_path_for(dirs.as_slice(), name.as_str(), false, Some(index));
                        finish_with(s, res)
                    } else {
                        probe_from_step(s, index + 1)
                    }
                },
                _ => fail_step(s, unexpected_text()),
            },
            Phase::Done => fail_step(s, unexpected_text()),
        };
        proof {
            use_type_invariant(&r.0);
        }
        r
    }
}

fn deadline_text(step: &str) -> (r: String)
    ensures
        r@ == deadline_message(step@),
{
    let mut m = String::from_str("AT-SPI deadline exceeded at ");
    m.append(step);
    m
}

fn unexpected_text() -> (r: String)
    ensures
        r@ == unexpected_reply_message(),
{
    String::from_str("unexpected reply for the current AT-SPI step")
}

fn finish_with(s: DolphinResolver, result: Result<String, String>) -> (r: (DolphinResolver, ResolverRequest))
    ensures
        (r.0@, r.1@) == finish(s@, result_view(result)),
{
    proof {
        use_type_invariant(&s);
    }
    let mut s = s;
    s.phase = Phase::Done;
    (s, ResolverRequest::Finished(result))
}

fn fail_step(s: DolphinResolver, msg: String) -> (r: (DolphinResolver, ResolverRequest))
    ensures
        (r.0@, r.1@) == fail(s@, msg@),
{
    finish_with(s, Err(msg))
}

fn selected_name(s: &DolphinResolver) -> (r: String)
    requires
        s@.selected is Some,
    ensures
        r@ == s@.selected->0,
{
    match &s.selected {
        Some(n) => n.clone(),
        None => String::new(),
    }
}

fn candidate_dirs_exec(title_dir: &Option<String>, location_dir: &Option<String>) -> (r: Vec<String>)
    ensures
        r.deep_view() == candidate_dirs(title_dir.deep_view(), location_dir.deep_view()),
{
    let mut v: Vec<String> = Vec::new();
    match location_dir {
        Some(d) => v.push(d.clone()),
        None => {},
    }
    match title_dir {
        Some(t) => {
            let same = match location_dir {
                Some(d) => *d == *t,
                None => false,
            };
            if !same {
                v.push(t.clone());
            }
        },
        None => {},
    }
    assert(v.deep_view() =~= candidate_dirs(title_dir.deep_view(), location_dir.deep_view()));
    v
}

fn search_app_step(s: DolphinResolver, apps: Vec<AccessibleRef>, index: usize, reached: bool) -> (r: (
    DolphinResolver,
    ResolverRequest,
))
    ensures
        (r.0@, r.1@) == search_app(s@, apps.deep_view(), index as nat, reached),
{
    proof {
        use_type_invariant(&s);
    }
    assert(apps.deep_view().len() == apps.len());
    if index < apps.len() {
        if reached {
            fail_step(s, deadline_text("app search"))
        } else {
            let bus = apps[index].bus.clone();
            let path = apps[index].path.clone();
            let mut s = s;
            s.phase = Phase::AwaitAppName { apps, index };
            (s, ResolverRequest::GetName { bus, path, timeout_ms: 20 })
        }
    } else {
        fail_step(s, String::from_str("Dolphin application not found on accessibility bus"))
    }
}

fn inspect_window_step(s: DolphinResolver, windows: Vec<AccessibleRef>, index: usize, reached: bool) -> (r: (
    DolphinResolver,
    ResolverRequest,
))
    ensures
        (r.0@, r.1@) == inspect_window(s@, windows.deep_view(), index as nat, reached),
{
    proof {
        use_type_invariant(&s);
    }
    assert(windows.deep_view().len() == windows.len());
    if index < windows.len() {
        if reached {
            fail_step(s, deadline_text("window inspection"))
        } else {
            let bus = s.bus.clone();
            let path = windows[index].path.clone();
            let mut s = s;
            s.phase = Phase::AwaitWindowRole { windows, index };
            (s, ResolverRequest::GetRole { bus, path, timeout_ms: 20 })
        }
    } else {
        fail_step(s, String::from_str("no active Dolphin window found"))
    }
}

fn visit_step(s: DolphinResolver, node: StackEntry, reached: bool) -> (r: (DolphinResolver, ResolverRequest))
    requires
        node.depth <= max_depth(),
    ensures
        (r.0@, r.1@) == visit(s@, node@, reached),
{
    proof {
        use_type_invariant(&s);
    }
    if reached {
        fail_step(s, deadline_text("tree walk"))
    } else {
        let bus = s.bus.clone();
        let path = node.path.clone();
        let mut s = s;
        s.phase = Phase::WalkRole { node };
        (s, ResolverRequest::GetRole { bus, path, timeout_ms: 15 })
    }
}

fn ask_children_step(s: DolphinResolver, node: StackEntry) -> (r: (DolphinResolver, ResolverRequest))
    requires
        node.depth <= max_depth(),
    ensures
        (r.0@, r.1@) == ask_children(s@, node@),
{
    proof {
        use_type_invariant(&s);
    }
    let bus = s.bus.clone();
    let path = node.path.clone();
    let mut s = s;
    s.phase = Phase::WalkChildren { node };
    (s, ResolverRequest::GetChildren { bus, path, timeout_ms: 20 })
}

fn after_location_step(s: DolphinResolver, node: StackEntry, role: u32) -> (r: (
    DolphinResolver,
    ResolverRequest,
))
    requires
        node.depth <= max_depth(),
    ensures
        (r.0@, r.1@) == after_location(s@, node@, role),
{
    proof {
        use_type_invariant(&s);
    }
    if is_view_role(role) {
        let bus = s.bus.clone();
        let path = node.path.clone();
        let mut s = s;
        s.phase = Phase::WalkSelectedCount { node };
        (s, ResolverRequest::GetSelectedCount { bus, path, timeout_ms: 20 })
    } else {
        ask_children_step(s, node)
    }
}

fn start_walk_step(s: DolphinResolver, window: String, reached: bool) -> (r: (
    DolphinResolver,
    ResolverRequest,
))
    ensures
        (r.0@, r.1@) == start_walk(s@, window@, reached),
{
    proof {
        use_type_invariant(&s);
    }
    let mut s = s;
    s.stack = Vec::new();
    assert(s.stack.deep_view() =~= Seq::<EntryView>::empty());
    visit_step(s, StackEntry { path: window, depth: 0 }, reached)
}

fn push_children_exec(stack: &mut Vec<StackEntry>, children: &Vec<AccessibleRef>, depth: usize)
    ensures
        final(stack).deep_view() == push_children(old(stack).deep_view(), children.deep_view(), depth as nat),
{
    let ghost start = old(stack).deep_view();
    let ghost cs = children.deep_view();
    let n = children.len();
    let mut i = n;
    assert(cs.subrange(n as int, n as int) =~= Seq::<RefView>::empty());
    while i > 0
        invariant
            n == children@.len(),
            cs == children.deep_view(),
            cs.len() == n,
            i <= n,
            stack.deep_view() == push_children(start, cs.subrange(i as int, n as int), depth as nat),
        decreases i,
    {
        i = i - 1;
        let ghost before = stack.deep_view();
        stack.push(StackEntry { path: children[i].path.clone(), depth });
        proof {
            let sub = cs.subrange(i as int, n as int);
            assert(sub.drop_first() =~= cs.subrange(i + 1, n as int));
            assert(sub[0] == cs[i as int]);
            assert(stack.deep_view() =~= before.push(EntryView { path: cs[i as int].path, depth: depth as nat }));
        }
    }
    assert(cs.subrange(0, n as int) =~= cs);
}

proof fn lemma_push_children_depths(stack: Seq<EntryView>, children: Seq<RefView>, depth: nat)
    requires
        stack_bounded(stack),
        depth <= max_depth() + 1,
    ensures
        stack_bounded(push_children(stack, children, depth)),
    decreases children.len(),
{
    if children.len() > 0 {
        lemma_push_children_depths(stack, children.drop_first(), depth);
        let prev = push_children(stack, children.drop_first(), depth);
        let next = push_children(stack, children, depth);
        assert forall|i: int| 0 <= i < next.len() implies #[trigger] next[i].depth <= max_depth() + 1 by {
            if i < prev.len() {
                assert(next[i] == prev[i]);
            }
        }
    }
}

fn next_node_step(start: DolphinResolver, reached: bool) -> (r: (DolphinResolver, ResolverRequest))
    ensures
        (r.0@, r.1@) == next_node(start@, reached),
{
    let mut s = start;
    loop
        invariant
            next_node(s@, reached) == next_node(start@, reached),
        decreases s@.stack.len(),
    {
        proof {
            use_type_invariant(&s);
        }
        let ghost before = s@;
        let mut stack: Vec<StackEntry> = Vec::new();
        std::mem::swap(&mut stack, &mut s.stack);
        assert(stack.deep_view() == before.stack);
        let ghost old_stack = stack@;
        let top = stack.pop();
        match top {
            None => {
                assert(stack.deep_view() =~= before.stack);
                s.stack = stack;
                assert(s@ == before);
                assert(old_stack.len() == 0);
                assert(before.stack.len() == 0);
                assert(next_node(before, reached) == finish_walk(before));
                return finish_walk_step(s);
            },
            Some(entry) => {
                proof {
                    assert(stack.deep_view() =~= before.stack.drop_last());
                    assert(entry@ == before.stack.last()) by {
                        assert(entry == old_stack.last());
                        assert(before.stack[before.stack.len() - 1] == old_stack[old_stack.len() - 1].deep_view());
                    }
                    assert(stack_bounded(stack.deep_view())) by {
                        assert forall|i: int| 0 <= i < stack.deep_view().len() implies #[trigger] stack.deep_view()[i].depth <= max_depth() + 1 by {
                            assert(stack.deep_view()[i] == before.stack[i]);
                        }
                    }
                }
                s.stack = stack;
                assert(s@ == ResolverView { stack: before.stack.drop_last(), ..before });
                assert(before.stack.len() > 0);
                if entry.depth > 10 {
                    assert(next_node(before, reached) == next_node(s@, reached));
                } else {
                    assert(next_node(before, reached) == visit(s@, entry@, reached));
                    return visit_step(s, entry, reached);
                }
            },
        }
    }
}

fn probe_from_step(s: DolphinResolver, index: usize) -> (r: (DolphinResolver, ResolverRequest))
    requires
        s@.selected is Some,
        index <= 2,
    ensures
        (r.0@, r.1@) == probe_from(s@, index as nat),
{
    proof {
        use_type_invariant(&s);
    }
    let dirs = candidate_dirs_exec(&s.title_dir, &s.location_dir);
    let name = selected_name(&s);
    assert(dirs.deep_view().len() == dirs.len());
    if index < dirs.len() {
        let t = trim_str(name.as_str());
        let path = path_join_str(dirs[index].as_str(), t);
        let mut s = s;
        s.phase = Phase::ProbeDir { index };
        (s, ResolverRequest::IsFile { path })
    } else {
        let res = selected_path_for(dirs.as_slice(), name.as_str(), false, None);
        finish_with(s, res)
    }
}

fn finish_walk_step(s: DolphinResolver) -> (r: (DolphinResolver, ResolverRequest))
    ensures
        (r.0@, r.1@) == finish_walk(s@),
{
    proof {
        use_type_invariant(&s);
    }
    if s.selected.is_none() {
        return fail_step(s, String::from_str("no item selected in active Dolphin window"));
    }
    let name = selected_name(&s);
    let t = trim_str(name.as_str());
    if t.unicode_len() == 0 {
        let dirs = candidate_dirs_exec(&s.title_dir, &s.location_dir);
        let res = selected_path_for(dirs.as_slice(), name.as_str(), false, None);
        finish_with(s, res)
    } else if is_absolute_str(t) {
        let path = String::from_str(t);
        let mut s = s;
        s.phase = Phase::ProbeDirect;
        (s, ResolverRequest::IsFile { path })
    } else {
        probe_from_step(s, 0)
    }
}

} // verus!
