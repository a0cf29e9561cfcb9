//! What holds of resolution on every environment.

use crate::names::{
    defaults_are_not_empty, names_are_distinct, COLORTERM, DEFAULT_COLORTERM, DEFAULT_LANG,
    DEFAULT_TERM, HOME, LANG, PATH, TERM,
};
use crate::path::{user_path, user_path_len};
use crate::resolve::{current_path, resolved, with_terminal_defaults, with_user_path};
use vstd::prelude::*;

verus! {

/// A resolved environment defines `TERM`. The value is the one that the
/// environment gave, and `xterm-256color` where it gave none; it is not empty
/// unless the environment defined `TERM` as the empty string, which this law
/// leaves out.
pub proof fn term_is_set(env: Map<Seq<char>, Seq<char>>)
    requires
        env.contains_key(TERM@) ==> env[TERM@].len() > 0,
    ensures
        resolved(env).contains_key(TERM@),
        resolved(env)[TERM@].len() > 0,
        env.contains_key(TERM@) ==> resolved(env)[TERM@] == env[TERM@],
        !env.contains_key(TERM@) ==> resolved(env)[TERM@] == DEFAULT_TERM@,
{
    names_are_distinct();
    defaults_are_not_empty();
}

/// A resolved environment defines `COLORTERM`. The value is the one that the
/// environment gave, and `truecolor` where it gave none; it is not empty unless
/// the environment defined `COLORTERM` as the empty string, which this law
/// leaves out.
pub proof fn colorterm_is_set(env: Map<Seq<char>, Seq<char>>)
    requires
        env.contains_key(COLORTERM@) ==> env[COLORTERM@].len() > 0,
    ensures
        resolved(env).contains_key(COLORTERM@),
        resolved(env)[COLORTERM@].len() > 0,
        env.contains_key(COLORTERM@) ==> resolved(env)[COLORTERM@] == env[COLORTERM@],
        !env.contains_key(COLORTERM@) ==> resolved(env)[COLORTERM@] == DEFAULT_COLORTERM@,
{
    names_are_distinct();
    defaults_are_not_empty();
}

/// A resolved environment defines `LANG`. The value is the one that the
/// environment gave, and `en_US.UTF-8` where it gave none; it is not empty
/// unless the environment defined `LANG` as the empty string, which this law
/// leaves out.
pub proof fn lang_is_set(env: Map<Seq<char>, Seq<char>>)
    requires
        env.contains_key(LANG@) ==> env[LANG@].len() > 0,
    ensures
        resolved(env).contains_key(LANG@),
        resolved(env)[LANG@].len() > 0,
        env.contains_key(LANG@) ==> resolved(env)[LANG@] == env[LANG@],
        !env.contains_key(LANG@) ==> resolved(env)[LANG@] == DEFAULT_LANG@,
{
    names_are_distinct();
    defaults_are_not_empty();
}

/// With a home directory, the resolved search path is the two user directories
/// below it, followed by the search path that the environment gave, read as
/// empty where it gave none.
pub proof fn path_gains_user_dirs(env: Map<Seq<char>, Seq<char>>)
    requires
        env.contains_key(HOME@),
    ensures
        resolved(env).contains_key(PATH@),
        resolved(env)[PATH@] == user_path(env[HOME@], current_path(env)),
{
    names_are_distinct();
}

/// Without a home directory, resolution leaves the search path alone: the
/// value stays what it was, and none appears where there was none.
pub proof fn path_untouched_without_home(env: Map<Seq<char>, Seq<char>>)
    requires
        !env.contains_key(HOME@),
    ensures
        resolved(env).contains_key(PATH@) == env.contains_key(PATH@),
        env.contains_key(PATH@) ==> resolved(env)[PATH@] == env[PATH@],
{
    names_are_distinct();
}

/// Every variable that the environment defines, the search path aside, is in
/// the resolved environment with the value it had.
pub proof fn defined_variables_pass_through(env: Map<Seq<char>, Seq<char>>, name: Seq<char>)
    requires
        env.contains_key(name),
        name != PATH@,
    ensures
        resolved(env).contains_key(name),
        resolved(env)[name] == env[name],
{
}

/// Resolution invents no variable but the four it is about.
pub proof fn no_other_variable_appears(env: Map<Seq<char>, Seq<char>>, name: Seq<char>)
    requires
        resolved(env).contains_key(name),
    ensures
        env.contains_key(name) || name == TERM@ || name == COLORTERM@ || name == LANG@ || name
            == PATH@,
{
}

/// Defining the terminal variables a second time changes nothing.
pub proof fn terminal_defaults_are_idempotent(env: Map<Seq<char>, Seq<char>>)
    ensures
        with_terminal_defaults(with_terminal_defaults(env)) == with_terminal_defaults(env),
{
}

/// Resolving a resolved environment again does nothing but apply the search
/// path rule a second time.
pub proof fn resolving_again_only_reapplies_path_rule(env: Map<Seq<char>, Seq<char>>)
    ensures
        resolved(resolved(env)) == with_user_path(resolved(env)),
{
    names_are_distinct();
    let once = resolved(env);
    assert(once.contains_key(TERM@));
    assert(once.contains_key(COLORTERM@));
    assert(once.contains_key(LANG@));
    assert(with_terminal_defaults(once) == once);
}

/// Without a home directory, resolving a resolved environment again changes
/// nothing.
pub proof fn resolve_is_idempotent_without_home(env: Map<Seq<char>, Seq<char>>)
    requires
        !env.contains_key(HOME@),
    ensures
        resolved(resolved(env)) == resolved(env),
{
    names_are_distinct();
    resolving_again_only_reapplies_path_rule(env);
    assert(!resolved(env).contains_key(HOME@));
}

/// With a home directory, resolving a resolved environment again puts the two
/// user directories on the search path once more, so that the outcome differs
/// from the first: resolution is meant to be applied once.
pub proof fn resolve_is_not_idempotent_with_home(env: Map<Seq<char>, Seq<char>>)
    requires
        env.contains_key(HOME@),
    ensures
        resolved(resolved(env)) == resolved(env).insert(
            PATH@,
            user_path(env[HOME@], resolved(env)[PATH@]),
        ),
        resolved(resolved(env)) != resolved(env),
{
    names_are_distinct();
    resolving_again_only_reapplies_path_rule(env);
    let once = resolved(env);
    assert(once.contains_key(HOME@) && once[HOME@] == env[HOME@]);
    assert(once.contains_key(PATH@));
    user_path_len(env[HOME@], once[PATH@]);
    assert(resolved(once)[PATH@].len() > once[PATH@].len());
}

} // verus!
