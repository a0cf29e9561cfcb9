//! Resolution: from the environment a process was started with to the one
//! handed to an interactive shell.

use crate::env_map::EnvironmentMap;
use crate::names::{COLORTERM, DEFAULT_COLORTERM, DEFAULT_LANG, DEFAULT_TERM, HOME, LANG, PATH, TERM};
use crate::path::{prepend_user_dirs, user_path};
use vstd::prelude::*;

verus! {

/// `env` with `name` bound to `value`, unless `env` binds `name` already.
pub open spec fn with_default(
    env: Map<Seq<char>, Seq<char>>,
    name: Seq<char>,
    value: Seq<char>,
) -> Map<Seq<char>, Seq<char>> {
    if env.contains_key(name) {
        env
    } else {
        env.insert(name, value)
    }
}

/// `env` with the terminal type, the colour capability and the locale defined.
pub open spec fn with_terminal_defaults(env: Map<Seq<char>, Seq<char>>) -> Map<
    Seq<char>,
    Seq<char>,
> {
    with_default(
        with_default(with_default(env, TERM@, DEFAULT_TERM@), COLORTERM@, DEFAULT_COLORTERM@),
        LANG@,
        DEFAULT_LANG@,
    )
}

/// The search path of `env`, read as empty where `env` has none.
pub open spec fn current_path(env: Map<Seq<char>, Seq<char>>) -> Seq<char> {
    if env.contains_key(PATH@) {
        env[PATH@]
    } else {
        Seq::empty()
    }
}

/// `env` with the user's program directories first on the search path. An
/// environment without a home directory is left as it is.
pub open spec fn with_user_path(env: Map<Seq<char>, Seq<char>>) -> Map<Seq<char>, Seq<char>> {
    if env.contains_key(HOME@) {
        env.insert(PATH@, user_path(env[HOME@], current_path(env)))
    } else {
        env
    }
}

/// The environment that resolution makes of `env`.
pub open spec fn resolved(env: Map<Seq<char>, Seq<char>>) -> Map<Seq<char>, Seq<char>> {
    with_user_path(with_terminal_defaults(env))
}

/// Binds `name` to `value` where `env` does not define `name`.
pub fn set_default(env: &mut EnvironmentMap, name: &str, value: &str)
    ensures
        final(env)@ == with_default(old(env)@, name@, value@),
{
    if !env.contains_key(name) {
        env.insert(String::from_str(name), String::from_str(value));
    }
}

/// Defines the terminal type, the colour capability and the locale where `env`
/// leaves them open.
pub fn apply_terminal_defaults(env: &mut EnvironmentMap)
    ensures
        final(env)@ == with_terminal_defaults(old(env)@),
{
    set_default(env, TERM, DEFAULT_TERM);
    set_default(env, COLORTERM, DEFAULT_COLORTERM);
    set_default(env, LANG, DEFAULT_LANG);
}

/// Puts the user's program directories first on the search path of `env`,
/// where `env` names a home directory.
pub fn apply_user_path(env: &mut EnvironmentMap)
    ensures
        final(env)@ == with_user_path(old(env)@),
{
    let new_path = match env.get(HOME) {
        Some(home) => {
            match env.get(PATH) {
                Some(current) => prepend_user_dirs(home.as_str(), current.as_str()),
                None => {
                    proof {
                        reveal_strlit("");
                        assert(""@ =~= Seq::<char>::empty());
                    }
                    prepend_user_dirs(home.as_str(), "")
                },
            }
        },
        None => {
            return;
        },
    };
    env.insert(String::from_str(PATH), new_path);
}

/// Makes of the environment a process was started with the one to hand to an
/// interactive shell: terminal type, colour capability and locale are defined,
/// and the user's program directories come first on the search path.
pub fn resolve(env: EnvironmentMap) -> (out: EnvironmentMap)
    ensures
        out@ == resolved(env@),
{
    let mut out = env;
    apply_terminal_defaults(&mut out);
    apply_user_path(&mut out);
    out
}

} // verus!
