//! The rule that puts the user's own program directories first on `PATH`.

use vstd::prelude::*;

verus! {

/// Below the home directory: where programs installed for one user live.
pub const LOCAL_BIN: &'static str = "/.local/bin";

/// Below the home directory: the user's own scripts and programs.
pub const BIN: &'static str = "/bin";

/// What stands between two directories of a search path.
pub const SEPARATOR: &'static str = ":";

/// The search path that lists the two user directories below `home` first and
/// then goes on with `current`. The separator before `current` is written even
/// where `current` is empty.
pub open spec fn user_path(home: Seq<char>, current: Seq<char>) -> Seq<char> {
    home + LOCAL_BIN@ + SEPARATOR@ + home + BIN@ + SEPARATOR@ + current
}

/// Builds the search path that `user_path` describes.
pub fn prepend_user_dirs(home: &str, current: &str) -> (path: String)
    ensures
        path@ == user_path(home@, current@),
{
    let mut path = String::from_str(home);
    path.append(LOCAL_BIN);
    path.append(SEPARATOR);
    path.append(home);
    path.append(BIN);
    path.append(SEPARATOR);
    path.append(current);
    path
}

/// The new search path is longer than the one it goes on with: by twice the
/// home directory and seventeen characters more.
pub proof fn user_path_len(home: Seq<char>, current: Seq<char>)
    ensures
        user_path(home, current).len() == 2 * home.len() + 17 + current.len(),
{
    reveal_strlit("/.local/bin");
    reveal_strlit("/bin");
    reveal_strlit(":");
}

} // verus!
