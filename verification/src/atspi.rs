//! Rules for reading the accessibility (AT-SPI) tree of Dolphin: which roles
//! are looked into, which window is the active one, how a directory is read
//! from a window title and how the selected file's path is derived.

use vstd::prelude::*;
use crate::probe::{path_is_dir, path_is_file};
use crate::text::{
    has_prefix, is_absolute_path, lemma_join_onto_absolute, is_absolute_str, path_join, path_join_str, starts_with_str,
    strip_suffix, strip_suffix_str, trim, trim_str,
};

verus! {

/// AT-SPI role: check box.
pub const ROLE_CHECK_BOX: u32 = 7;
/// AT-SPI role: combo box (Dolphin's location bar).
pub const ROLE_COMBO_BOX: u32 = 11;
/// AT-SPI role: dialog.
pub const ROLE_DIALOG: u32 = 16;
/// AT-SPI role: frame (a top-level window).
pub const ROLE_FRAME: u32 = 23;
/// AT-SPI role: list.
pub const ROLE_LIST: u32 = 31;
/// AT-SPI role: list item.
pub const ROLE_LIST_ITEM: u32 = 32;
/// AT-SPI role: menu bar.
pub const ROLE_MENU_BAR: u32 = 34;
/// AT-SPI role: menu item.
pub const ROLE_MENU_ITEM: u32 = 35;
/// AT-SPI role: push button.
pub const ROLE_PUSH_BUTTON: u32 = 43;
/// AT-SPI role: radio button.
pub const ROLE_RADIO_BUTTON: u32 = 44;
/// AT-SPI role: scroll bar.
pub const ROLE_SCROLL_BAR: u32 = 54;
/// AT-SPI role: separator.
pub const ROLE_SEPARATOR: u32 = 56;
/// AT-SPI role: status bar.
pub const ROLE_STATUS_BAR: u32 = 59;
/// AT-SPI role: table.
pub const ROLE_TABLE: u32 = 60;
/// AT-SPI role: table cell.
pub const ROLE_TABLE_CELL: u32 = 61;
/// AT-SPI role: tool bar.
pub const ROLE_TOOL_BAR: u32 = 67;
/// AT-SPI role: tree table.
pub const ROLE_TREE_TABLE: u32 = 69;
/// AT-SPI role: window.
pub const ROLE_WINDOW: u32 = 74;

/// Bit of the first state word that marks an active window (`1 << 1`).
pub const STATE_ACTIVE_MASK: u32 = 2;

/// Roles whose subtrees are never looked into: menus, bars and buttons.
pub open spec fn pruned_role(role: u32) -> bool {
    ||| role == ROLE_MENU_BAR
    ||| role == ROLE_MENU_ITEM
    ||| role == ROLE_TOOL_BAR
    ||| role == ROLE_STATUS_BAR
    ||| role == ROLE_SCROLL_BAR
    ||| role == ROLE_SEPARATOR
    ||| role == ROLE_PUSH_BUTTON
    ||| role == ROLE_CHECK_BOX
    ||| role == ROLE_RADIO_BUTTON
}

/// Roles of the views whose selection is read: list, table and tree table.
pub open spec fn view_role(role: u32) -> bool {
    role == ROLE_LIST || role == ROLE_TABLE || role == ROLE_TREE_TABLE
}

/// The walk prunes exactly the objects of the nine roles of menu bars, menu
/// items, tool bars, status bars, scroll bars, separators, push buttons,
/// check boxes and radio buttons (by their AT-SPI role numbers), and views
/// are exactly lists, tables and tree tables; so no view is ever pruned.
pub proof fn lemma_pruned_roles_are_not_views(role: u32)
    ensures
        pruned_role(role) <==> (role == 34 || role == 35 || role == 67 || role == 59 || role == 54
            || role == 56 || role == 43 || role == 7 || role == 44),
        view_role(role) <==> (role == 31 || role == 60 || role == 69),
        view_role(role) ==> !pruned_role(role),
{
}

/// Roles of top-level windows: frame, window and dialog.
pub open spec fn window_role(role: u32) -> bool {
    role == ROLE_FRAME || role == ROLE_WINDOW || role == ROLE_DIALOG
}

/// Whether the state words mark an active object: the first word has the
/// active bit.
pub open spec fn has_active_bit(state: Seq<u32>) -> bool {
    state.len() > 0 && state[0] & STATE_ACTIVE_MASK != 0
}

/// Whether the subtree of an object with `role` is skipped during the walk.
pub fn should_prune_role(role: u32) -> (r: bool)
    ensures
        r == pruned_role(role),
{
    role == ROLE_MENU_BAR || role == ROLE_MENU_ITEM || role == ROLE_TOOL_BAR || role
        == ROLE_STATUS_BAR || role == ROLE_SCROLL_BAR || role == ROLE_SEPARATOR || role
        == ROLE_PUSH_BUTTON || role == ROLE_CHECK_BOX || role == ROLE_RADIO_BUTTON
}

/// Whether `role` is that of a view whose selection is read.
pub fn is_view_role(role: u32) -> (r: bool)
    ensures
        r == view_role(role),
{
    role == ROLE_LIST || role == ROLE_TABLE || role == ROLE_TREE_TABLE
}

/// Whether an object with the state words `state` and `role` is an active
/// top-level window.
pub fn is_active_window(state: &[u32], role: u32) -> (r: bool)
    ensures
        r == (window_role(role) && has_active_bit(state@)),
{
    let is_window = role == ROLE_FRAME || role == ROLE_WINDOW || role == ROLE_DIALOG;
    let active = if state.len() > 0 {
        state[0] & STATE_ACTIVE_MASK != 0
    } else {
        false
    };
    is_window && active
}

/// Dolphin's caption ending with an em dash.
pub open spec fn em_dash_suffix() -> Seq<char> {
    " \u{2014} Dolphin"@
}

/// Dolphin's caption ending with a hyphen.
pub open spec fn hyphen_suffix() -> Seq<char> {
    " - Dolphin"@
}

/// Dolphin's caption ending with an en dash.
pub open spec fn en_dash_suffix() -> Seq<char> {
    " \u{2013} Dolphin"@
}

/// The caption of a window title without the application suffix: the title
/// is trimmed, the first of the three Dolphin suffixes that it ends with is
/// stripped, and what is left is trimmed again.
pub open spec fn title_caption(title: Seq<char>) -> Seq<char> {
    let t = trim(title);
    match strip_suffix(t, em_dash_suffix()) {
        Some(s) => trim(s),
        None => match strip_suffix(t, hyphen_suffix()) {
            Some(s) => trim(s),
            None => match strip_suffix(t, en_dash_suffix()) {
                Some(s) => trim(s),
                None => t,
            },
        },
    }
}

/// `caption` with a leading `~` expanded to `home` (where `HOME` is set).
pub open spec fn expand_home(caption: Seq<char>, home: Option<Seq<char>>) -> Seq<char> {
    if home is Some && caption == "~"@ {
        home->0
    } else if home is Some && has_prefix(caption, "~/"@) {
        path_join(home->0, caption.subrange(2, caption.len() as int))
    } else {
        caption
    }
}

/// The directory that a window title names, before the file system is
/// asked: `None` for an empty caption.
pub open spec fn title_dir_candidate(title: Seq<char>, home: Option<Seq<char>>) -> Option<
    Seq<char>,
> {
    let c = title_caption(title);
    if c.len() == 0 {
        None
    } else {
        Some(expand_home(c, home))
    }
}

/// The caption of `title` without the Dolphin suffix.
fn strip_dolphin_suffix(title: &str) -> (r: &str)
    ensures
        r@ == title_caption(title@),
{
    let t = trim_str(title);
    match strip_suffix_str(t, " \u{2014} Dolphin") {
        Some(s) => trim_str(s),
        None => match strip_suffix_str(t, " - Dolphin") {
            Some(s) => trim_str(s),
            None => match strip_suffix_str(t, " \u{2013} Dolphin") {
                Some(s) => trim_str(s),
                None => t,
            },
        },
    }
}

/// The directory that the window title `title` names, with `~` expanded to
/// `home` (the value of `HOME`, where set); `None` for an empty caption.
/// The file system is not asked.
pub fn title_dir_candidate_of(title: &str, home: Option<&str>) -> (r: Option<String>)
    ensures
        r.deep_view() == title_dir_candidate(title@, home.deep_view()),
{
    let cleaned = strip_dolphin_suffix(title);
    let n = cleaned.unicode_len();
    if n == 0 {
        return None;
    }
    proof {
        reveal_strlit("~");
        reveal_strlit("~/");
    }
    match home {
        Some(h) => {
            if n == 1 && cleaned.get_char(0) == '~' {
                assert(cleaned@ =~= "~"@);
                return Some(String::from_str(h));
            }
            if starts_with_str(cleaned, "~/") {
                assert(cleaned@ != "~"@);
                let rest = cleaned.substring_char(2, n);
                return Some(path_join_str(h, rest));
            }
            if n == 1 {
                assert(cleaned@ != "~"@);
            }
            Some(String::from_str(cleaned))
        },
        None => Some(String::from_str(cleaned)),
    }
}

/// The candidate directory of a window title kept where it is absolute and
/// the file system reported a directory there.
pub open spec fn accept_title_dir_view(candidate: Option<Seq<char>>, is_dir: bool) -> Option<Seq<char>> {
    if candidate is Some && is_absolute_path(candidate->0) && is_dir {
        candidate
    } else {
        None
    }
}

/// Keeps the candidate directory of a window title where it is absolute and
/// the file system reported a directory there.
pub fn accept_title_dir(candidate: Option<String>, is_dir: bool) -> (r: Option<String>)
    ensures
        r.deep_view() == accept_title_dir_view(candidate.deep_view(), is_dir),
{
    match candidate {
        Some(c) => if is_absolute_str(c.as_str()) && is_dir {
            Some(c)
        } else {
            None
        },
        None => None,
    }
}

/// The directory that a Dolphin window title names, where it is an
/// absolute path to an existing directory. `home` is the value of `HOME`
/// (where set), which a leading `~` stands for.
pub fn parse_dir_from_window_title(title: &str, home: Option<&str>) -> (r: Option<String>)
    ensures
        r matches Some(d) ==> (title_dir_candidate(title@, home.deep_view()) == Some(d@)
            && is_absolute_path(d@)),
        (title_dir_candidate(title@, home.deep_view()) is None || !is_absolute_path(
            title_dir_candidate(title@, home.deep_view())->0,
        )) ==> r is None,
{
    let candidate = title_dir_candidate_of(title, home);
    let is_dir = match &candidate {
        Some(c) => if is_absolute_str(c.as_str()) {
            path_is_dir(c.as_str())
        } else {
            false
        },
        None => false,
    };
    accept_title_dir(candidate, is_dir)
}

/// A window title whose caption is `~/rest` names, where `HOME` is an
/// absolute path `h`, the absolute directory `rest` under `h`; the title's
/// directory is that one where the file system reports a directory there.
pub proof fn lemma_tilde_title_names_home_dir(title: Seq<char>, h: Seq<char>, rest: Seq<char>)
    requires
        title_caption(title) == "~/"@ + rest,
        is_absolute_path(h),
    ensures
        title_dir_candidate(title, Some(h)) == Some(path_join(h, rest)),
        is_absolute_path(path_join(h, rest)),
        accept_title_dir_view(title_dir_candidate(title, Some(h)), true) == Some(path_join(h, rest)),
{
    reveal_strlit("~/");
    reveal_strlit("~");
    let c = title_caption(title);
    assert(c.subrange(0, 2) =~= "~/"@);
    assert(c.subrange(2, c.len() as int) =~= rest);
    assert(c.len() != 1);
    lemma_join_onto_absolute(h, rest);
}

/// The message for a selected item whose name is empty.
pub open spec fn empty_filename_message() -> Seq<char> {
    "selected item has empty filename"@
}

/// The message for a selected item for which no directory is known.
pub open spec fn no_directory_message(name: Seq<char>) -> Seq<char> {
    "could not derive directory path for selected file '"@ + name + "'"@
}

/// The path of the selected item named `filename`, given what the file
/// system reported: `direct_is_file`, whether the trimmed name is itself an
/// absolute path to a regular file (only asked for an absolute name), and
/// `first_existing`, the first candidate directory in which the name is a
/// regular file. A name that is an existing absolute file wins; then the
/// first directory that holds the file; then the first directory at all.
pub open spec fn selected_path(
    dirs: Seq<Seq<char>>,
    filename: Seq<char>,
    direct_is_file: bool,
    first_existing: Option<int>,
) -> Result<Seq<char>, Seq<char>> {
    let t = trim(filename);
    if t.len() == 0 {
        Err(empty_filename_message())
    } else if is_absolute_path(t) && direct_is_file {
        Ok(t)
    } else if first_existing is Some {
        Ok(path_join(dirs[first_existing->0], t))
    } else if dirs.len() > 0 {
        Ok(path_join(dirs[0], t))
    } else {
        Err(no_directory_message(t))
    }
}

/// Whether `first_existing` may be an answer of the file system for
/// `dirs`: an index into it, if any.
pub open spec fn valid_probe(dirs: Seq<Seq<char>>, first_existing: Option<int>) -> bool {
    first_existing matches Some(i) ==> 0 <= i < dirs.len()
}

/// The view of a path result.
pub open spec fn result_view(r: Result<String, String>) -> Result<Seq<char>, Seq<char>> {
    match r {
        Ok(p) => Ok(p@),
        Err(e) => Err(e@),
    }
}

/// The index of the first `true` among `answers[k..]`.
pub open spec fn first_holding_from(answers: Seq<bool>, k: int) -> Option<int>
    decreases answers.len() - k,
{
    if k < 0 || k >= answers.len() {
        None
    } else if answers[k] {
        Some(k)
    } else {
        first_holding_from(answers, k + 1)
    }
}

/// The first candidate directory that holds the file, given the answers of
/// the file system for the directories in order (`answers[i]`: whether the
/// name is a regular file in directory `i`).
pub open spec fn first_holding(answers: Seq<bool>) -> Option<int> {
    first_holding_from(answers, 0)
}

/// `first_holding_from` finds the first `true` at or after `k`, and `None`
/// means there is none.
pub proof fn lemma_first_holding_from(answers: Seq<bool>, k: int)
    requires
        0 <= k,
    ensures
        first_holding_from(answers, k) matches Some(i) ==> (k <= i < answers.len() && answers[i]
            && forall|j: int| k <= j < i ==> !answers[j]),
        first_holding_from(answers, k) is None ==> forall|j: int| k <= j < answers.len() ==> !answers[j],
    decreases answers.len() - k,
{
    if k < answers.len() && !answers[k] {
        lemma_first_holding_from(answers, k + 1);
    }
}

/// The first directory that holds the file, from the answers for the
/// directories in order.
pub fn first_dir_holding_file(answers: &[bool]) -> (r: Option<usize>)
    ensures
        match r {
            Some(i) => first_holding(answers@) == Some(i as int),
            None => first_holding(answers@) is None,
        },
{
    let n = answers.len();
    let mut k: usize = 0;
    while k < n
        invariant
            n == answers@.len(),
            k <= n,
            first_holding_from(answers@, k as int) == first_holding(answers@),
        decreases n - k,
    {
        if answers[k] {
            return Some(k);
        }
        k = k + 1;
    }
    None
}

/// The path of the selected item, given what the file system reported (see
/// `selected_path`), with the first directory that holds the file given as
/// an index.
pub fn selected_path_for(
    candidate_dirs: &[String],
    filename: &str,
    direct_is_file: bool,
    first_existing: Option<usize>,
) -> (r: Result<String, String>)
    requires
        first_existing matches Some(i) ==> i < candidate_dirs@.len(),
    ensures
        result_view(r) == selected_path(
            candidate_dirs.deep_view(),
            filename@,
            direct_is_file,
            match first_existing {
                Some(i) => Some(i as int),
                None => None,
            },
        ),
{
    let t = trim_str(filename);
    proof {
        reveal_strlit("'");
    }
    if t.unicode_len() == 0 {
        return Err(String::from_str("selected item has empty filename"));
    }
    if is_absolute_str(t) && direct_is_file {
        return Ok(String::from_str(t));
    }
    match first_existing {
        Some(i) => Ok(path_join_str(candidate_dirs[i].as_str(), t)),
        None => {
            if candidate_dirs.len() > 0 {
                Ok(path_join_str(candidate_dirs[0].as_str(), t))
            } else {
                let mut m = String::from_str("could not derive directory path for selected file '");
                m.append(t);
                m.append("'");
                Err(m)
            }
        },
    }
}

/// The path of the selected item, given what the file system reported:
/// `direct_is_file` for the trimmed name itself, and `answers[i]`, whether
/// the name is a regular file in `candidate_dirs[i]`, for the directories
/// asked about in order. The first directory that holds the file wins.
pub fn choose_selected_path(
    candidate_dirs: &[String],
    filename: &str,
    direct_is_file: bool,
    answers: &[bool],
) -> (r: Result<String, String>)
    requires
        answers@.len() <= candidate_dirs@.len(),
    ensures
        result_view(r) == selected_path(
            candidate_dirs.deep_view(),
            filename@,
            direct_is_file,
            first_holding(answers@),
        ),
{
    let first = first_dir_holding_file(answers);
    proof {
        lemma_first_holding_from(answers@, 0);
    }
    selected_path_for(candidate_dirs, filename, direct_is_file, first)
}

/// Derives the absolute path of the selected file named `filename`: an
/// absolute name of a regular file is taken as it is; otherwise the first
/// of `candidate_dirs` in which the name is a regular file, else the first
/// of them at all. The file system is asked along the way (about the name
/// itself where it is absolute, then about each directory in order until
/// one holds the file), so the result is stated for the answers it gave.
pub fn derive_selected_path(candidate_dirs: &[String], filename: &str) -> (r: Result<String, String>)
    ensures
        exists|direct_is_file: bool, answers: Seq<bool>|
            #![trigger selected_path(candidate_dirs.deep_view(), filename@, direct_is_file, first_holding(answers))]
            answers.len() <= candidate_dirs@.len() && result_view(r) == selected_path(
                candidate_dirs.deep_view(),
                filename@,
                direct_is_file,
                first_holding(answers),
            ),
{
    let t = trim_str(filename);
    let ghost dirs = candidate_dirs.deep_view();
    let mut answers: Vec<bool> = Vec::new();
    if t.unicode_len() == 0 {
        return choose_selected_path(candidate_dirs, filename, false, answers.as_slice());
    }
    let direct = if is_absolute_str(t) {
        path_is_file(t)
    } else {
        false
    };
    if direct {
        return choose_selected_path(candidate_dirs, filename, true, answers.as_slice());
    }
    let n = candidate_dirs.len();
    let mut i: usize = 0;
    while i < n
        invariant
            n == candidate_dirs@.len(),
            i <= n,
            answers@.len() == i,
            forall|j: int| 0 <= j < i ==> !answers@[j],
        decreases n - i,
    {
        let c = path_join_str(candidate_dirs[i].as_str(), t);
        let holds = path_is_file(c.as_str());
        answers.push(holds);
        if holds {
            return choose_selected_path(candidate_dirs, filename, false, answers.as_slice());
        }
        i = i + 1;
    }
    choose_selected_path(candidate_dirs, filename, false, answers.as_slice())
}

/// The message of a lookup that ran past its deadline at `step`.
pub open spec fn deadline_message(step: Seq<char>) -> Seq<char> {
    "AT-SPI deadline exceeded at "@ + step
}

/// The outcome of a deadline check at `step`, given whether the deadline
/// was reached.
pub fn deadline_outcome(reached: bool, step: &str) -> (r: Result<(), String>)
    ensures
        !reached ==> r is Ok,
        reached ==> (r matches Err(e) && e@ == deadline_message(step@)),
{
    if reached {
        let mut m = String::from_str("AT-SPI deadline exceeded at ");
        m.append(step);
        Err(m)
    } else {
        Ok(())
    }
}

/// Fails with the step's name where the clock reading `now_ms` has reached
/// `deadline_ms` (both in milliseconds of the same monotonic clock).
pub fn check_deadline(now_ms: u64, deadline_ms: u64, step: &str) -> (r: Result<(), String>)
    ensures
        now_ms < deadline_ms ==> r is Ok,
        now_ms >= deadline_ms ==> (r matches Err(e) && e@ == deadline_message(step@)),
{
    deadline_outcome(now_ms >= deadline_ms, step)
}

/// The message for a failed `org.a11y.Bus.GetAddress` call.
pub open spec fn address_call_message(err: Seq<char>) -> Seq<char> {
    "org.a11y.Bus GetAddress failed: "@ + err
}

/// The message for an empty accessibility bus address.
pub open spec fn empty_address_message() -> Seq<char> {
    "empty AT-SPI bus address returned"@
}

/// The accessibility bus address, given the reply to
/// `org.a11y.Bus.GetAddress` (the address, or the error's text).
pub open spec fn a11y_address(reply: Result<Seq<char>, Seq<char>>) -> Result<Seq<char>, Seq<char>> {
    match reply {
        Err(e) => Err(address_call_message(e)),
        Ok(a) => if a.len() == 0 {
            Err(empty_address_message())
        } else {
            Ok(a)
        },
    }
}

/// The accessibility bus address, given the reply to
/// `org.a11y.Bus.GetAddress` (the address, or the error's text).
pub fn check_a11y_address_reply(reply: Result<String, String>) -> (r: Result<String, String>)
    ensures
        result_view(r) == a11y_address(result_view(reply)),
{
    match reply {
        Err(e) => {
            let mut m = String::from_str("org.a11y.Bus GetAddress failed: ");
            m.append(e.as_str());
            Err(m)
        },
        Ok(a) => if a.as_str().unicode_len() == 0 {
            Err(String::from_str("empty AT-SPI bus address returned"))
        } else {
            Ok(a)
        },
    }
}

/// Whether an application's accessible name is Dolphin's, up to ASCII case.
pub open spec fn is_dolphin_name(name: Seq<char>) -> bool {
    crate::text::eq_ignore_ascii_case(name, "dolphin"@)
}

/// Whether an application's accessible name is Dolphin's, up to ASCII case.
pub fn is_dolphin_app_name(name: &str) -> (r: bool)
    ensures
        r == is_dolphin_name(name@),
{
    crate::text::eq_ignore_ascii_case_str(name, "dolphin")
}

/// A derived path names the selected file: it is the trimmed name itself or
/// the trimmed name joined onto one of the candidate directories; and where
/// a candidate directory is known and the name is not empty, a path is
/// always derived.
pub proof fn lemma_selected_path_names_the_file(
    dirs: Seq<Seq<char>>,
    filename: Seq<char>,
    direct_is_file: bool,
    first_existing: Option<int>,
)
    requires
        valid_probe(dirs, first_existing),
    ensures
        selected_path(dirs, filename, direct_is_file, first_existing) matches Ok(p) ==> (p == trim(
            filename,
        ) || exists|i: int| 0 <= i < dirs.len() && p == path_join(#[trigger] dirs[i], trim(filename))),
        (dirs.len() > 0 && trim(filename).len() > 0) ==> selected_path(
            dirs,
            filename,
            direct_is_file,
            first_existing,
        ) is Ok,
        trim(filename).len() == 0 ==> selected_path(dirs, filename, direct_is_file, first_existing)
            == Err::<Seq<char>, Seq<char>>(empty_filename_message()),
{
    let t = trim(filename);
    if t.len() > 0 && !(is_absolute_path(t) && direct_is_file) {
        if let Some(i) = first_existing {
            assert(selected_path(dirs, filename, direct_is_file, first_existing) == Ok::<
                Seq<char>,
                Seq<char>,
            >(path_join(dirs[i], t)));
        } else if dirs.len() > 0 {
            assert(selected_path(dirs, filename, direct_is_file, first_existing) == Ok::<
                Seq<char>,
                Seq<char>,
            >(path_join(dirs[0], t)));
        }
    }
}

} // verus!
