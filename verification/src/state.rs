//! Where the last previewed file is remembered, and how the state file is
//! written and read back.

use vstd::prelude::*;
use crate::text::{
    decimal, decimal_string, is_white_space, path_join, path_join_str, trim, trim_end, trim_start,
    trim_str,
};

verus! {

/// The state directory: `$XDG_STATE_HOME/quickpeek` where that variable is
/// set and not empty, else `$HOME/.local/state/quickpeek` where `HOME` is set
/// and not empty, else the relative `.local/state/quickpeek`.
pub open spec fn state_dir(xdg_state_home: Option<Seq<char>>, home: Option<Seq<char>>) -> Seq<
    char,
> {
    if xdg_state_home is Some && xdg_state_home->0.len() > 0 {
        path_join(xdg_state_home->0, "quickpeek"@)
    } else if home is Some && home->0.len() > 0 {
        path_join(home->0, ".local/state/quickpeek"@)
    } else {
        ".local/state/quickpeek"@
    }
}

/// The state file inside the state directory `dir`.
pub open spec fn state_file_in(dir: Seq<char>) -> Seq<char> {
    path_join(dir, "last_selection"@)
}

/// What the state file holds after `path` was saved: the path and a newline.
pub open spec fn saved_content(path: Seq<char>) -> Seq<char> {
    path + seq!['\n']
}

/// The selection that the state file gives: `None` where it could not be
/// read or holds only white space, else its content without surrounding
/// white space.
pub open spec fn selection_from_content(content: Option<Seq<char>>) -> Option<Seq<char>> {
    match content {
        None => None,
        Some(c) => if trim(c).len() == 0 {
            None
        } else {
            Some(trim(c))
        },
    }
}

/// The name of the temporary file that a save writes before it renames it
/// over the state file; the process id and a per-process counter keep two
/// saves apart.
pub open spec fn temp_file_name(pid: u32, counter: u64) -> Seq<char> {
    ".last_selection.tmp."@ + decimal(pid as nat) + "."@ + decimal(counter as nat)
}

/// The steps of one save of the selection: create `dir` (mode 0700) where
/// it is missing, write `content` to `temp_path` (mode 0600), then rename
/// `temp_path` over `target_path`, removing `temp_path` where the rename
/// fails.
pub struct SavePlan {
    pub dir: String,
    pub temp_path: String,
    pub target_path: String,
    pub content: String,
}

/// The state directory, given the values of `XDG_STATE_HOME` and `HOME`.
pub fn get_state_dir(xdg_state_home: Option<&str>, home: Option<&str>) -> (r: String)
    ensures
        r@ == state_dir(xdg_state_home.deep_view(), home.deep_view()),
{
    proof {
        reveal_strlit("quickpeek");
        reveal_strlit(".local/state/quickpeek");
    }
    match xdg_state_home {
        Some(x) => {
            if x.unicode_len() > 0 {
                return path_join_str(x, "quickpeek");
            }
        },
        None => {},
    }
    match home {
        Some(h) => {
            if h.unicode_len() > 0 {
                return path_join_str(h, ".local/state/quickpeek");
            }
        },
        None => {},
    }
    String::from_str(".local/state/quickpeek")
}

/// The state file, given the values of `XDG_STATE_HOME` and `HOME`.
pub fn get_state_file_path(xdg_state_home: Option<&str>, home: Option<&str>) -> (r: String)
    ensures
        r@ == state_file_in(state_dir(xdg_state_home.deep_view(), home.deep_view())),
{
    let dir = get_state_dir(xdg_state_home, home);
    path_join_str(dir.as_str(), "last_selection")
}

/// The last selection, given what reading the state file gave (`None`
/// where it could not be read).
pub fn load_last_selection(file_content: Option<&str>) -> (r: Option<String>)
    ensures
        r.deep_view() == selection_from_content(file_content.deep_view()),
{
    match file_content {
        None => None,
        Some(c) => {
            let t = trim_str(c);
            if t.unicode_len() == 0 {
                None
            } else {
                Some(String::from_str(t))
            }
        },
    }
}

/// How to save `path` as the last selection in the state directory `state_dir`.
pub fn save_last_selection_in(state_dir: &str, path: &str, pid: u32, counter: u64) -> (r: SavePlan)
    ensures
        r.dir@ == state_dir@,
        r.temp_path@ == path_join(state_dir@, temp_file_name(pid, counter)),
        r.target_path@ == state_file_in(state_dir@),
        r.content@ == saved_content(path@),
{
    proof {
        reveal_strlit(".last_selection.tmp.");
        reveal_strlit(".");
        reveal_strlit("\n");
    }
    let mut name = String::from_str(".last_selection.tmp.");
    let p = decimal_string(pid as u64);
    name.append(p.as_str());
    name.append(".");
    let c = decimal_string(counter);
    name.append(c.as_str());
    let temp_path = path_join_str(state_dir, name.as_str());
    let target_path = path_join_str(state_dir, "last_selection");
    let mut content = String::from_str(path);
    content.append("\n");
    SavePlan { dir: String::from_str(state_dir), temp_path, target_path, content }
}

/// How to save `path` as the last selection, given the values of
/// `XDG_STATE_HOME` and `HOME`.
pub fn save_last_selection(
    xdg_state_home: Option<&str>,
    home: Option<&str>,
    path: &str,
    pid: u32,
    counter: u64,
) -> (r: SavePlan)
    ensures
        r.dir@ == state_dir(xdg_state_home.deep_view(), home.deep_view()),
        r.temp_path@ == path_join(r.dir@, temp_file_name(pid, counter)),
        r.target_path@ == state_file_in(r.dir@),
        r.content@ == saved_content(path@),
{
    let dir = get_state_dir(xdg_state_home, home);
    save_last_selection_in(dir.as_str(), path, pid, counter)
}

proof fn lemma_trim_start_concat(a: Seq<char>, b: Seq<char>)
    ensures
        trim_start(a + b) == (if trim_start(a).len() == 0 {
            trim_start(b)
        } else {
            trim_start(a) + b
        }),
    decreases a.len(),
{
    if a.len() == 0 {
        assert(a + b =~= b);
    } else if is_white_space(a[0]) {
        assert((a + b).drop_first() =~= a.drop_first() + b);
        lemma_trim_start_concat(a.drop_first(), b);
    } else {
        assert((a + b)[0] == a[0]);
    }
}

/// Reading the state file back after a save gives the saved path without
/// its surrounding white space, and no selection where that leaves nothing.
pub proof fn lemma_load_after_save(path: Seq<char>)
    ensures
        selection_from_content(Some(saved_content(path))) == (if trim(path).len() == 0 {
            None
        } else {
            Some(trim(path))
        }),
{
    let nl = seq!['\n'];
    lemma_trim_start_concat(path, nl);
    assert(is_white_space('\n'));
    if trim_start(path).len() == 0 {
        assert(nl.drop_first() =~= Seq::<char>::empty());
        assert(trim_start(nl) == trim_start(nl.drop_first()));
        assert(trim_start(Seq::<char>::empty()) =~= Seq::<char>::empty());
        assert(trim_end(Seq::<char>::empty()) =~= Seq::<char>::empty());
    } else {
        let t = trim_start(path);
        assert((t + nl).drop_last() =~= t);
        assert((t + nl).last() == '\n');
    }
}

/// A path without surrounding white space that is saved is read back as
/// itself.
pub proof fn lemma_save_load_roundtrip(path: Seq<char>)
    requires
        path.len() > 0,
        trim(path) == path,
    ensures
        selection_from_content(Some(saved_content(path))) == Some(path),
{
    lemma_load_after_save(path);
}

} // verus!
