//! What the command line asks for, and the state of the preview window:
//! whether it is shown, which file it shows, and what a toggle does.

use vstd::prelude::*;
use crate::probe::{path_exists, path_is_file};
use crate::text::{is_absolute_path, lemma_join_onto_absolute, path_join};

verus! {

/// What one invocation of the program asks for.
#[derive(Debug, PartialEq, Eq)]
pub enum CliMode {
    /// No argument: close the preview if it is shown, else open the selection.
    Toggle,
    /// `--service`: run the daemon without opening a window.
    Service,
    /// One path argument: show that file (made absolute).
    Show(String),
}

/// The message for a command line with more than one argument.
pub open spec fn too_many_arguments_message() -> Seq<char> {
    "too many arguments: at most one image path argument is allowed"@
}

/// Reads the command line `args` (program name first), making a path
/// argument absolute against `current_dir`.
pub fn parse_cli_args_with_dir(args: &[String], current_dir: &str) -> (r: Result<CliMode, String>)
    ensures
        args@.len() < 2 ==> r matches Ok(CliMode::Toggle),
        args@.len() == 2 && args@[1]@ == "--service"@ ==> r matches Ok(CliMode::Service),
        args@.len() == 2 && args@[1]@ != "--service"@ ==> (r matches Ok(CliMode::Show(p)) && p@
            == path_join(current_dir@, args@[1]@)),
        args@.len() > 2 ==> (r matches Err(e) && e@ == too_many_arguments_message()),
{
    let n = args.len();
    if n < 2 {
        Ok(CliMode::Toggle)
    } else if n == 2 {
        let arg = args[1].as_str();
        let service = String::from_str("--service");
        if args[1] == service {
            Ok(CliMode::Service)
        } else {
            Ok(CliMode::Show(crate::dbus::absolutize_path(arg, current_dir)))
        }
    } else {
        Err(String::from_str("too many arguments: at most one image path argument is allowed"))
    }
}

/// What a toggle request does.
#[derive(Debug, PartialEq, Eq, Clone, Copy, Structural)]
pub enum ToggleAction {
    /// The preview is shown: close it.
    Close,
    /// The preview is closed and a file was selected: show it.
    Open,
    /// The preview is closed and nothing was selected.
    NoSelection,
}

/// What a toggle does, given whether the preview is shown and whether a
/// file is selected.
pub open spec fn toggle_decision(window_open: bool, has_selection: bool) -> ToggleAction {
    if window_open {
        ToggleAction::Close
    } else if has_selection {
        ToggleAction::Open
    } else {
        ToggleAction::NoSelection
    }
}

/// What a toggle does, given whether the preview is shown and whether a
/// file is selected.
pub fn decide_toggle_action(window_open: bool, has_selection: bool) -> (r: ToggleAction)
    ensures
        r == toggle_decision(window_open, has_selection),
{
    if window_open {
        ToggleAction::Close
    } else if has_selection {
        ToggleAction::Open
    } else {
        ToggleAction::NoSelection
    }
}

/// The message of a toggle that finds nothing to show.
pub open spec fn no_file_message() -> Seq<char> {
    "no file to preview"@
}

/// The message for a preview target that does not exist.
pub open spec fn not_found_message(path: Seq<char>) -> Seq<char> {
    "file not found: "@ + path
}

/// The message for a preview target that exists but is not a regular file.
pub open spec fn not_regular_message(path: Seq<char>) -> Seq<char> {
    "path is not a regular file: "@ + path
}

/// The abstract state of the preview window.
pub struct PreviewView {
    /// The preview window is shown.
    pub is_open: bool,
    /// A window object is held (it may have been closed by the user).
    pub has_window: bool,
    /// The file shown last, which a toggle shows again.
    pub selection: Option<Seq<char>>,
    /// When the preview window was last opened, in milliseconds of the
    /// caller's monotonic clock.
    pub opened_at_ms: nat,
}

/// The state of the preview window, apart from the window itself.
pub struct WindowManager {
    open: bool,
    has_window: bool,
    current_selection: Option<String>,
    opened_at_ms: u64,
}

impl View for WindowManager {
    type V = PreviewView;

    closed spec fn view(&self) -> PreviewView {
        PreviewView {
            is_open: self.open,
            has_window: self.has_window,
            selection: self.current_selection.deep_view(),
            opened_at_ms: self.opened_at_ms as nat,
        }
    }
}

/// How long after the preview opened a toggle is ignored, in milliseconds:
/// a quick second key press does not close a preview that just opened.
pub const TOGGLE_DEBOUNCE_MS: u64 = 120;

/// What the caller does with the window after `WindowManager::show_file`.
#[derive(Debug, PartialEq, Eq, Clone, Copy, Structural)]
pub enum ShowAction {
    /// Put the new image into the window that is shown.
    SwapImage,
    /// Drop any old window and build and present a new one.
    CreateWindow,
}

/// What the caller does with the window after `WindowManager::close_window`.
#[derive(Debug, PartialEq, Eq, Clone, Copy, Structural)]
pub enum CloseAction {
    /// No window is held: nothing to do.
    Nothing,
    /// Drop the window, which the user had already closed.
    Release,
    /// Close and drop the window, and report that it closed.
    CloseAndRelease,
}

/// Where the file that a toggle opens comes from.
#[derive(Debug, PartialEq, Eq, Clone, Copy, Structural)]
pub enum SelectionSource {
    /// The file selected in the file manager right now.
    Live,
    /// The file shown last by this daemon.
    Memory,
    /// The file remembered in the state file.
    Persisted,
}

/// What the file system and the file manager tell about the candidates of
/// a toggle that opens the preview.
pub struct SelectionFacts {
    /// The file selected in the file manager, where one was found.
    pub live: Option<String>,
    /// Whether a regular file is at the path of the current selection.
    pub selection_is_file: bool,
    /// The selection remembered in the state file, where there is one.
    pub persisted: Option<String>,
    /// Whether a regular file is at the path of the remembered selection.
    pub persisted_is_file: bool,
}

/// The view of `SelectionFacts`.
pub struct FactsView {
    pub live: Option<Seq<char>>,
    pub selection_is_file: bool,
    pub persisted: Option<Seq<char>>,
    pub persisted_is_file: bool,
}

impl View for SelectionFacts {
    type V = FactsView;

    open spec fn view(&self) -> FactsView {
        FactsView {
            live: self.live.deep_view(),
            selection_is_file: self.selection_is_file,
            persisted: self.persisted.deep_view(),
            persisted_is_file: self.persisted_is_file,
        }
    }
}

/// What a toggle leads to.
#[derive(Debug, PartialEq, Eq)]
pub enum TogglePlan {
    /// The preview opened less than `TOGGLE_DEBOUNCE_MS` ago: it stays open.
    Debounced,
    /// The preview was closed; the window is handled as the action says.
    Closed(CloseAction),
    /// Show `path`, taken from `source`.
    Open { path: String, source: SelectionSource },
}

/// The view of a toggle's outcome.
pub enum ToggleOutcome {
    Debounced,
    Closed(CloseAction),
    Open(Seq<char>, SelectionSource),
}

/// The view of a toggle plan.
pub open spec fn plan_outcome(r: Result<TogglePlan, String>) -> Result<ToggleOutcome, Seq<char>> {
    match r {
        Ok(TogglePlan::Debounced) => Ok(ToggleOutcome::Debounced),
        Ok(TogglePlan::Closed(a)) => Ok(ToggleOutcome::Closed(a)),
        Ok(TogglePlan::Open { path, source }) => Ok(ToggleOutcome::Open(path@, source)),
        Err(e) => Err(e@),
    }
}

/// The state after a show of `path` succeeded at `now_ms`: a preview that
/// was not shown opens at `now_ms`.
pub open spec fn after_show(v: PreviewView, path: Seq<char>, now_ms: nat) -> PreviewView {
    PreviewView {
        is_open: true,
        has_window: true,
        selection: Some(path),
        opened_at_ms: if v.is_open && v.has_window {
            v.opened_at_ms
        } else {
            now_ms
        },
    }
}

/// The state after `close_window`.
pub open spec fn after_close(v: PreviewView) -> PreviewView {
    PreviewView { is_open: false, has_window: false, ..v }
}

/// The state after the user closed the window.
pub open spec fn after_close_request(v: PreviewView) -> PreviewView {
    PreviewView { is_open: false, ..v }
}

/// Whether a toggle at `now_ms` comes less than `TOGGLE_DEBOUNCE_MS` after
/// the shown preview opened.
pub open spec fn debounced(v: PreviewView, now_ms: nat) -> bool {
    v.is_open && now_ms < v.opened_at_ms + TOGGLE_DEBOUNCE_MS
}

/// The file that a toggle opens, in order: the file manager's live
/// selection; else the current selection where it is still a regular file;
/// else the remembered selection where it is a regular file; else none.
pub open spec fn toggle_target(v: PreviewView, f: FactsView) -> Option<(Seq<char>, SelectionSource)> {
    if f.live is Some {
        Some((f.live->0, SelectionSource::Live))
    } else if v.selection is Some && f.selection_is_file {
        Some((v.selection->0, SelectionSource::Memory))
    } else if f.persisted is Some && f.persisted_is_file {
        Some((f.persisted->0, SelectionSource::Persisted))
    } else {
        None
    }
}

/// The state after a toggle at `now_ms` (before the file of an `Open` is
/// shown). A toggle that opens makes its file the selection; one that finds
/// no file clears the selection (a stale one included).
pub open spec fn after_toggle(v: PreviewView, now_ms: nat, f: FactsView) -> PreviewView {
    if v.is_open {
        if debounced(v, now_ms) {
            v
        } else {
            after_close(v)
        }
    } else {
        match toggle_target(v, f) {
            Some((p, _)) => PreviewView { selection: Some(p), ..v },
            None => PreviewView { selection: None, ..v },
        }
    }
}

/// The outcome of a toggle at `now_ms`.
pub open spec fn toggle_outcome(v: PreviewView, now_ms: nat, f: FactsView) -> Result<ToggleOutcome, Seq<char>> {
    match toggle_decision(v.is_open, toggle_target(v, f) is Some) {
        ToggleAction::Close => if debounced(v, now_ms) {
            Ok(ToggleOutcome::Debounced)
        } else {
            Ok(
                ToggleOutcome::Closed(
                    if v.has_window {
                        CloseAction::CloseAndRelease
                    } else {
                        CloseAction::Nothing
                    },
                ),
            )
        },
        ToggleAction::Open => Ok(
            match toggle_target(v, f) {
                Some((p, src)) => ToggleOutcome::Open(p, src),
                None => ToggleOutcome::Debounced,
            },
        ),
        ToggleAction::NoSelection => Err(no_file_message()),
    }
}

/// Where a cold start (no argument, no daemon running yet) opens from.
#[derive(Debug, PartialEq, Eq)]
pub enum StartupChoice {
    /// The file manager's live selection.
    Live(String),
    /// The remembered selection, still a regular file.
    Persisted(String),
    /// The remembered selection is gone: clear it and open nothing.
    Stale(String),
    /// Nothing to open: start without a window.
    Nothing,
}

/// The file that a cold start opens: the live selection, else the
/// remembered one where it is still a regular file; a remembered selection
/// that is gone is reported as stale.
pub fn cold_start_target(live: Option<String>, persisted: SelectionCheck) -> (r: StartupChoice)
    ensures
        live is Some ==> (r matches StartupChoice::Live(p) && p@ == live->0@),
        live is None ==> (persisted matches SelectionCheck::Valid(q) ==> (r matches StartupChoice::Persisted(p) && p@ == q@)),
        live is None ==> (persisted matches SelectionCheck::Stale(q) ==> (r matches StartupChoice::Stale(p) && p@ == q@)),
        live is None && persisted is Empty ==> r is Nothing,
{
    match live {
        Some(p) => StartupChoice::Live(p),
        None => match persisted {
            SelectionCheck::Valid(q) => StartupChoice::Persisted(q),
            SelectionCheck::Stale(q) => StartupChoice::Stale(q),
            SelectionCheck::Empty => StartupChoice::Nothing,
        },
    }
}

/// Why `path` cannot be previewed, given whether something exists there and
/// whether it is a regular file; `Ok` where it can.
pub fn classify_preview_target(path: &str, exists: bool, is_regular_file: bool) -> (r: Result<
    (),
    String,
>)
    ensures
        !exists ==> (r matches Err(e) && e@ == not_found_message(path@)),
        exists && !is_regular_file ==> (r matches Err(e) && e@ == not_regular_message(path@)),
        exists && is_regular_file ==> r is Ok,
{
    if !exists {
        let mut m = String::from_str("file not found: ");
        m.append(path);
        Err(m)
    } else if !is_regular_file {
        let mut m = String::from_str("path is not a regular file: ");
        m.append(path);
        Err(m)
    } else {
        Ok(())
    }
}

/// What a remembered selection is worth at daemon start.
#[derive(Debug, PartialEq, Eq)]
pub enum SelectionCheck {
    /// The file is still there.
    Valid(String),
    /// The file is gone.
    Stale(String),
    /// Nothing was remembered.
    Empty,
}

/// Classifies a remembered selection, given whether a regular file is still
/// at its path.
pub fn classify_selection(path: Option<&str>, is_regular_file: bool) -> (r: SelectionCheck)
    ensures
        path is None ==> r is Empty,
        path is Some && is_regular_file ==> (r matches SelectionCheck::Valid(q) && q@
            == path->0@),
        path is Some && !is_regular_file ==> (r matches SelectionCheck::Stale(q) && q@
            == path->0@),
{
    match path {
        None => SelectionCheck::Empty,
        Some(p) => if is_regular_file {
            SelectionCheck::Valid(String::from_str(p))
        } else {
            SelectionCheck::Stale(String::from_str(p))
        },
    }
}

/// Classifies a remembered selection by looking whether a regular file is
/// still at its path.
pub fn check_selection_path(path: Option<&str>) -> (r: SelectionCheck)
    ensures
        path is None ==> r is Empty,
        path matches Some(p) ==> (r matches SelectionCheck::Valid(q) && q@ == p@) || (r matches SelectionCheck::Stale(q) && q@ == p@),
{
    match path {
        None => SelectionCheck::Empty,
        Some(p) => classify_selection(Some(p), path_is_file(p)),
    }
}

impl WindowManager {
    /// The state invariant: a shown preview has a window.
    pub closed spec fn wf(&self) -> bool {
        self.open ==> self.has_window
    }

    /// No window and nothing selected.
    pub fn new() -> (r: Self)
        ensures
            r.wf(),
            r@ == (PreviewView { is_open: false, has_window: false, selection: None, opened_at_ms: 0 }),
    {
        WindowManager { open: false, has_window: false, current_selection: None, opened_at_ms: 0 }
    }

    /// Whether the preview window is shown.
    pub fn is_open(&self) -> (r: bool)
        ensures
            r == self@.is_open,
    {
        self.open
    }

    /// Whether a window object is held.
    pub fn has_window(&self) -> (r: bool)
        ensures
            r == self@.has_window,
    {
        self.has_window
    }

    /// The file shown last.
    pub fn current_selection(&self) -> (r: Option<&String>)
        ensures
            r.deep_view() == self@.selection,
    {
        match &self.current_selection {
            Some(s) => Some(s),
            None => None,
        }
    }

    /// Replaces the selection (as a restored or cleared selection does).
    pub fn set_selection(&mut self, selection: Option<String>)
        requires
            old(self).wf(),
        ensures
            final(self).wf(),
            final(self)@ == (PreviewView { selection: selection.deep_view(), ..old(self)@ }),
    {
        self.current_selection = selection;
    }

    /// Checks that `path` can be previewed: something must exist there and it
    /// must be a regular file.
    pub fn check_target(path: &str) -> (r: Result<(), String>)
        ensures
            r is Ok || (r matches Err(e) && (e@ == not_found_message(path@) || e@
                == not_regular_message(path@))),
    {
        let exists = path_exists(path);
        let regular = if exists {
            path_is_file(path)
        } else {
            false
        };
        classify_preview_target(path, exists, regular)
    }

    /// Shows the image at `path`, given whether something exists there and
    /// whether it is a regular file. A missing path fails with
    /// `file not found: <path>` and one that is not a regular file with
    /// `path is not a regular file: <path>`, and neither changes the state.
    /// Otherwise records that the image was loaded at `now_ms` (a reading of
    /// the caller's monotonic clock, in milliseconds) and is shown, and says
    /// how: into the shown window, or in a new one, which opens then.
    pub fn show_file(&mut self, path: &str, exists: bool, is_regular_file: bool, now_ms: u64) -> (r:
        Result<ShowAction, String>)
        requires
            old(self).wf(),
        ensures
            final(self).wf(),
            !exists ==> (r matches Err(e) && e@ == not_found_message(path@)),
            exists && !is_regular_file ==> (r matches Err(e) && e@ == not_regular_message(
                path@,
            )),
            r is Err ==> final(self)@ == old(self)@,
            exists && is_regular_file ==> {
                &&& final(self)@ == after_show(old(self)@, path@, now_ms as nat)
                &&& r matches Ok(a) && a == (if old(self)@.is_open && old(self)@.has_window {
                    ShowAction::SwapImage
                } else {
                    ShowAction::CreateWindow
                })
            },
    {
        match classify_preview_target(path, exists, is_regular_file) {
            Err(e) => Err(e),
            Ok(()) => {
                let action = if self.open && self.has_window {
                    ShowAction::SwapImage
                } else {
                    self.opened_at_ms = now_ms;
                    ShowAction::CreateWindow
                };
                self.open = true;
                self.has_window = true;
                self.current_selection = Some(String::from_str(path));
                Ok(action)
            },
        }
    }

    /// Records that the user closed the window; says whether this closed a
    /// shown preview (which is then reported).
    pub fn on_close_request(&mut self) -> (r: bool)
        requires
            old(self).wf(),
        ensures
            final(self).wf(),
            final(self)@ == after_close_request(old(self)@),
            r == old(self)@.is_open,
    {
        let was_open = self.open;
        self.open = false;
        was_open
    }

    /// Closes the preview: drops the window, closing it first where it is
    /// still shown. The selection is kept.
    pub fn close_window(&mut self) -> (r: CloseAction)
        requires
            old(self).wf(),
        ensures
            final(self).wf(),
            final(self)@ == after_close(old(self)@),
            r == (if !old(self)@.has_window {
                CloseAction::Nothing
            } else if old(self)@.is_open {
                CloseAction::CloseAndRelease
            } else {
                CloseAction::Release
            }),
    {
        if self.has_window {
            self.has_window = false;
            if self.open {
                self.open = false;
                CloseAction::CloseAndRelease
            } else {
                CloseAction::Release
            }
        } else {
            CloseAction::Nothing
        }
    }

    /// Whether a toggle now would open the preview, and so whether the live
    /// selection of the file manager is to be looked up first. A toggle
    /// while the preview is shown looks nothing up.
    pub fn wants_live_selection(&self) -> (r: bool)
        ensures
            r == !self@.is_open,
    {
        !self.open
    }

    /// A toggle at `now_ms` (the caller's monotonic clock, in milliseconds).
    /// A shown preview stays open where it opened less than
    /// `TOGGLE_DEBOUNCE_MS` ago, and closes otherwise. A closed preview opens
    /// the file manager's live selection, else the current selection where
    /// it is still a regular file, else the remembered one where it is a
    /// regular file; where there is none, the selection is cleared and the
    /// toggle fails with `no file to preview`.
    pub fn toggle(&mut self, now_ms: u64, facts: SelectionFacts) -> (r: Result<TogglePlan, String>)
        requires
            old(self).wf(),
        ensures
            final(self).wf(),
            final(self)@ == after_toggle(old(self)@, now_ms as nat, facts@),
            plan_outcome(r) == toggle_outcome(old(self)@, now_ms as nat, facts@),
    {
        let SelectionFacts { live, selection_is_file, persisted, persisted_is_file } = facts;
        let memory_ok = self.current_selection.is_some() && selection_is_file;
        let persisted_ok = persisted.is_some() && persisted_is_file;
        let has_target = live.is_some() || memory_ok || persisted_ok;
        match decide_toggle_action(self.open, has_target) {
            ToggleAction::Close => {
                let within = self.opened_at_ms > now_ms || now_ms - self.opened_at_ms
                    < TOGGLE_DEBOUNCE_MS;
                if within {
                    Ok(TogglePlan::Debounced)
                } else {
                    let a = self.close_window();
                    Ok(TogglePlan::Closed(a))
                }
            },
            ToggleAction::Open => {
                let (path, source) = match live {
                    Some(p) => (p, SelectionSource::Live),
                    None => {
                        if memory_ok {
                            let p = match &self.current_selection {
                                Some(s) => s.clone(),
                                None => String::new(),
                            };
                            (p, SelectionSource::Memory)
                        } else {
                            let p = match persisted {
                                Some(q) => q,
                                None => String::new(),
                            };
                            (p, SelectionSource::Persisted)
                        }
                    },
                };
                self.current_selection = Some(path.clone());
                Ok(TogglePlan::Open { path, source })
            },
            ToggleAction::NoSelection => {
                self.current_selection = None;
                Err(String::from_str("no file to preview"))
            },
        }
    }
}

/// A path given on the command line is made absolute: run from an absolute
/// working directory, the file to show has an absolute path.
pub proof fn lemma_cli_path_is_absolute(current_dir: Seq<char>, arg: Seq<char>)
    requires
        is_absolute_path(current_dir),
    ensures
        is_absolute_path(path_join(current_dir, arg)),
{
    lemma_join_onto_absolute(current_dir, arg);
}

/// A toggle more than `TOGGLE_DEBOUNCE_MS` after the shown preview opened
/// closes it and keeps the selection.
pub proof fn lemma_toggle_closes_shown_preview(v: PreviewView, now_ms: nat, f: FactsView)
    requires
        v.is_open,
        v.has_window,
        now_ms >= v.opened_at_ms + TOGGLE_DEBOUNCE_MS,
    ensures
        toggle_outcome(v, now_ms, f) == Ok::<ToggleOutcome, Seq<char>>(
            ToggleOutcome::Closed(CloseAction::CloseAndRelease),
        ),
        !after_toggle(v, now_ms, f).is_open,
        after_toggle(v, now_ms, f).selection == v.selection,
{
}

/// A toggle less than `TOGGLE_DEBOUNCE_MS` after the preview opened leaves
/// it open and changes nothing.
pub proof fn lemma_toggle_debounced(v: PreviewView, now_ms: nat, f: FactsView)
    requires
        v.is_open,
        now_ms < v.opened_at_ms + TOGGLE_DEBOUNCE_MS,
    ensures
        toggle_outcome(v, now_ms, f) == Ok::<ToggleOutcome, Seq<char>>(ToggleOutcome::Debounced),
        after_toggle(v, now_ms, f) == v,
{
}

/// After a file was shown and the preview closed (by a toggle, by
/// `close_window` or by the user), a toggle without a live selection shows
/// that same file again while it is still a regular file.
pub proof fn lemma_toggle_reopens_last_file(
    v: PreviewView,
    path: Seq<char>,
    shown_at: nat,
    later: nat,
    f: FactsView,
)
    requires
        f.live is None,
        f.selection_is_file,
    ensures
        ({
            let shown = after_show(v, path, shown_at);
            &&& toggle_outcome(after_close(shown), later, f) == Ok::<ToggleOutcome, Seq<char>>(
                ToggleOutcome::Open(path, SelectionSource::Memory),
            )
            &&& toggle_outcome(after_close_request(shown), later, f) == Ok::<ToggleOutcome, Seq<char>>(
                ToggleOutcome::Open(path, SelectionSource::Memory),
            )
        }),
{
}

/// The live selection of the file manager wins over the remembered ones.
pub proof fn lemma_live_selection_wins(v: PreviewView, now_ms: nat, f: FactsView)
    requires
        !v.is_open,
        f.live is Some,
    ensures
        toggle_outcome(v, now_ms, f) == Ok::<ToggleOutcome, Seq<char>>(
            ToggleOutcome::Open(f.live->0, SelectionSource::Live),
        ),
        after_toggle(v, now_ms, f).selection == f.live,
{
}

/// Without a live selection, a current selection that is empty or no
/// longer a regular file is not opened: the toggle falls back to the
/// remembered selection where it is a regular file, which becomes the
/// selection; else it fails and clears the selection.
pub proof fn lemma_stale_selection_falls_back(v: PreviewView, now_ms: nat, f: FactsView)
    requires
        !v.is_open,
        f.live is None,
        !(v.selection is Some && f.selection_is_file),
    ensures
        f.persisted is Some && f.persisted_is_file ==> toggle_outcome(v, now_ms, f) == Ok::<
            ToggleOutcome,
            Seq<char>,
        >(ToggleOutcome::Open(f.persisted->0, SelectionSource::Persisted)) && after_toggle(
            v,
            now_ms,
            f,
        ).selection == f.persisted,
        !(f.persisted is Some && f.persisted_is_file) ==> toggle_outcome(v, now_ms, f) == Err::<
            ToggleOutcome,
            Seq<char>,
        >(no_file_message()) && after_toggle(v, now_ms, f).selection is None,
{
}

/// A toggle fails exactly when the preview is closed and none of the live,
/// current and remembered selections is there; then with `no file to
/// preview`, and the selection is cleared.
pub proof fn lemma_toggle_fails_only_without_selection(v: PreviewView, now_ms: nat, f: FactsView)
    ensures
        toggle_outcome(v, now_ms, f) is Err <==> (!v.is_open && toggle_target(v, f) is None),
        toggle_outcome(v, now_ms, f) is Err ==> toggle_outcome(v, now_ms, f) == Err::<
            ToggleOutcome,
            Seq<char>,
        >(no_file_message()) && after_toggle(v, now_ms, f).selection is None,
{
}

/// Two toggles from a closed preview with a selection that is still a
/// regular file, the file being shown in between and the second toggle
/// coming after the debounce time, leave the preview closed with the same
/// selection.
pub proof fn lemma_double_toggle_returns_to_closed(v: PreviewView, t1: nat, t2: nat, f: FactsView)
    requires
        !v.is_open,
        v.selection is Some,
        f.live is None,
        f.selection_is_file,
        t2 >= t1 + TOGGLE_DEBOUNCE_MS,
    ensures
        toggle_outcome(v, t1, f) == Ok::<ToggleOutcome, Seq<char>>(
            ToggleOutcome::Open(v.selection->0, SelectionSource::Memory),
        ),
        ({
            let shown = after_show(after_toggle(v, t1, f), v.selection->0, t1);
            &&& toggle_outcome(shown, t2, f) == Ok::<ToggleOutcome, Seq<char>>(
                ToggleOutcome::Closed(CloseAction::CloseAndRelease),
            )
            &&& !after_toggle(shown, t2, f).is_open
            &&& after_toggle(shown, t2, f).selection == v.selection
        }),
{
}

} // verus!
