//! The variable names and default values that resolution knows about.

use vstd::prelude::*;

verus! {

/// Tells programs which kind of terminal they are attached to.
pub const TERM: &'static str = "TERM";

/// Advertises colour depth beyond what `TERM` alone conveys.
pub const COLORTERM: &'static str = "COLORTERM";

/// Selects the locale, and with it the character encoding.
pub const LANG: &'static str = "LANG";

/// The user's home directory.
pub const HOME: &'static str = "HOME";

/// The colon-separated list of directories searched for programs.
pub const PATH: &'static str = "PATH";

/// Value given to `TERM` when the environment does not define it.
pub const DEFAULT_TERM: &'static str = "xterm-256color";

/// Value given to `COLORTERM` when the environment does not define it.
pub const DEFAULT_COLORTERM: &'static str = "truecolor";

/// Value given to `LANG` when the environment does not define it.
pub const DEFAULT_LANG: &'static str = "en_US.UTF-8";

/// The five names above are pairwise different.
pub proof fn names_are_distinct()
    ensures
        TERM@ != COLORTERM@,
        TERM@ != LANG@,
        TERM@ != HOME@,
        TERM@ != PATH@,
        COLORTERM@ != LANG@,
        COLORTERM@ != HOME@,
        COLORTERM@ != PATH@,
        LANG@ != HOME@,
        LANG@ != PATH@,
        HOME@ != PATH@,
{
    reveal_strlit("TERM");
    reveal_strlit("COLORTERM");
    reveal_strlit("LANG");
    reveal_strlit("HOME");
    reveal_strlit("PATH");
    assert(TERM@[0] == 'T');
    assert(COLORTERM@[0] == 'C');
    assert(LANG@[0] == 'L');
    assert(HOME@[0] == 'H');
    assert(PATH@[0] == 'P');
}

/// None of the three default values is the empty string.
pub proof fn defaults_are_not_empty()
    ensures
        DEFAULT_TERM@.len() > 0,
        DEFAULT_COLORTERM@.len() > 0,
        DEFAULT_LANG@.len() > 0,
{
    reveal_strlit("xterm-256color");
    reveal_strlit("truecolor");
    reveal_strlit("en_US.UTF-8");
}

} // verus!
