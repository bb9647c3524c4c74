//! Trying again, and finding the private key.

use crate::error::{ErrorView, ScpError};
use crate::paths::{join, joined};
use crate::text::text_of;
use vstd::prelude::*;

verus! {

/// How often the opening of a session is tried again before a task gives up.
pub const SESSION_RETRIES: u32 = 10;

/// What follows an attempt.
#[derive(Debug, PartialEq, Eq)]
pub enum Attempt<T> {
    /// Nothing more is tried: this is the result.
    Settled(Result<T, ScpError>),
    /// The attempt failed and is made again, as the retry of this number.
    Again(u32),
}

/// What follows an attempt that gave `result` after `retries` retries, where
/// no more than `max_retries` are made. A success settles the matter. A
/// failure is retried while a retry is left, and settles it with its error
/// once none is.
pub fn after_attempt<T>(result: Result<T, ScpError>, retries: u32, max_retries: u32) -> (next:
    Attempt<T>)
    ensures
        next == (match result {
            Ok(value) => Attempt::Settled(Ok(value)),
            Err(error) => if retries < max_retries {
                Attempt::Again((retries + 1) as u32)
            } else {
                Attempt::Settled(Err(error))
            },
        }),
        next matches Attempt::Again(retry) ==> retries < retry <= max_retries,
{
    match result {
        Ok(value) => Attempt::Settled(Ok(value)),
        Err(error) => {
            if retries < max_retries {
                Attempt::Again(retries + 1)
            } else {
                Attempt::Settled(Err(error))
            }
        },
    }
}

/// Calls `f` until it succeeds, at most `max_retries` times more after the
/// first failure. Returns what the last call returned: the first success, or
/// the error of the call after which no retry was left.
pub fn with_retry<T, F>(f: F, max_retries: u32) -> (result: Result<T, ScpError>) where
    F: Fn() -> Result<T, ScpError>,

    requires
        f.requires(()),
    ensures
        f.ensures((), result),
{
    let mut retries: u32 = 0;
    loop
        invariant
            retries <= max_retries,
            f.requires(()),
        decreases max_retries - retries,
    {
        match after_attempt(f(), retries, max_retries) {
            Attempt::Settled(result) => {
                return result;
            },
            Attempt::Again(retry) => {
                retries = retry;
            },
        }
    }
}

/// Where the private key lies below the home directory.
pub open spec fn default_key_below() -> Seq<char> {
    ".ssh/id_rsa"@
}

/// What the error says where no private key was named and no home directory
/// was found.
pub const NO_HOME: &'static str =
    "Could not find home directory, please provide the private key path using the --private-key-path <key> flag";

/// The error for a private key that was not named by a user without a home
/// directory.
pub open spec fn no_home() -> ErrorView {
    ErrorView::Io(NO_HOME@)
}

/// The path of the private key: the one that was named, or else
/// `.ssh/id_rsa` in the home directory, if there is a home directory.
pub open spec fn resolved_key(named: Option<Seq<char>>, home: Option<Seq<char>>) -> Result<
    Seq<char>,
    ErrorView,
> {
    match (named, home) {
        (Some(named), _) => Ok(named),
        (None, Some(home)) => Ok(joined(home, default_key_below())),
        (None, None) => Err(no_home()),
    }
}

/// The text of a path or the view of the error in its place.
pub open spec fn path_result_view(path: Result<String, ScpError>) -> Result<Seq<char>, ErrorView> {
    match path {
        Ok(path) => Ok(path@),
        Err(error) => Err(error@),
    }
}

/// Calls `dirs_next::home_dir`, which asks the environment for the home
/// directory of the current user, and gives its path as text. The answer
/// depends on the environment, and nothing is claimed of it.
#[verifier::external_body]
pub(crate) fn home_dir() -> (home: Option<String>) {
    match dirs_next::home_dir() {
        Some(home) => Some(home.to_string_lossy().into_owned()),
        None => None,
    }
}

/// The path of the private key for a user whose home directory is `home`:
/// the one that was named, or else `.ssh/id_rsa` in the home directory.
/// Without either there is none, and the error says how to name one.
pub fn resolve_private_key(private_key: &Option<String>, home: &Option<String>) -> (key: Result<
    String,
    ScpError,
>)
    ensures
        path_result_view(key) == resolved_key(text_of(*private_key), text_of(*home)),
{
    match (private_key, home) {
        (Some(named), _) => Ok(named.clone()),
        (None, Some(home)) => Ok(join(home.as_str(), ".ssh/id_rsa")),
        (None, None) => Err(ScpError::Io(NO_HOME.to_owned())),
    }
}

/// The path of the private key: the one that was named, or else the default
/// one in the home directory of the current user. The environment is asked
/// for the home directory only where no key was named.
pub fn get_private_key_path(private_key: &Option<String>) -> (key: Result<String, ScpError>)
    ensures
        exists|home: Option<Seq<char>>|
            path_result_view(key) == #[trigger] resolved_key(text_of(*private_key), home),
{
    let home = match private_key {
        Some(_) => None,
        None => home_dir(),
    };
    let key = resolve_private_key(private_key, &home);
    assert(path_result_view(key) == resolved_key(text_of(*private_key), text_of(home)));
    key
}

} // verus!
