//! Environment resolution for launching an interactive shell session.
//!
//! A program that starts a shell on a pseudo-terminal cannot hand down the
//! environment it was started with as it is: a desktop session often leaves
//! `TERM`, `COLORTERM` and `LANG` undefined, and its search path misses the
//! directories in which a user installs programs of their own.
//! [`resolve`] makes the corrected copy. It reads nothing but the
//! [`EnvironmentMap`] it is given, and changes nothing else.

pub mod env_map;
pub mod laws;
pub mod names;
pub mod path;
pub mod resolve;

pub use env_map::EnvironmentMap;
pub use resolve::resolve;
