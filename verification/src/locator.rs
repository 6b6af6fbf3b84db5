//! Where the node binary is: an override from the environment first, then
//! the search path; and a cache that is written at most once.

use vstd::prelude::*;
use vstd::string::*;
use crate::error::HarnessError;
use crate::text::{trim, trimmed};

verus! {

/// What looking the binary's name up on the search path gave.
#[derive(Clone, Debug, PartialEq, Eq)]
pub struct LookupOutput {
    /// Whether the lookup program ended with a success status.
    pub success: bool,
    /// What it wrote to its standard output.
    pub stdout: String,
}

/// The override as a mathematical value.
pub open spec fn override_of(env_override: Option<String>) -> Option<Seq<char>> {
    match env_override {
        Some(path) => Some(path@),
        None => None,
    }
}

/// The path that a lookup names: its output without surrounding whitespace,
/// if the lookup succeeded and that is not empty.
pub open spec fn looked_up(lookup: Option<LookupOutput>) -> Option<Seq<char>> {
    match lookup {
        Some(output) => if output.success && trimmed(output.stdout@).len() > 0 {
            Some(trimmed(output.stdout@))
        } else {
            None
        },
        None => None,
    }
}

/// The path of the binary: the override where there is one, whatever it
/// holds; else what the lookup names.
pub open spec fn located(env_override: Option<String>, lookup: Option<LookupOutput>) -> Option<
    Seq<char>,
> {
    match override_of(env_override) {
        Some(path) => Some(path),
        None => looked_up(lookup),
    }
}

/// Whether `got` holds exactly the text `want`, or nothing where `want` is
/// nothing.
pub open spec fn same_path(got: Option<String>, want: Option<Seq<char>>) -> bool {
    match want {
        Some(path) => got is Some && got->Some_0@ == path,
        None => got is None,
    }
}

/// Resolves the path of the node binary from the value of the override
/// variable, if it is set, and from the outcome of the lookup on the search
/// path, if one was made. The lookup is not consulted when there is an
/// override.
pub fn find_myso_binary(env_override: Option<String>, lookup: Option<LookupOutput>) -> (path:
    Option<String>)
    ensures
        same_path(path, located(env_override, lookup)),
{
    if let Some(path) = env_override {
        return Some(path);
    }
    if let Some(output) = lookup {
        if output.success {
            let path = trim(output.stdout.as_str());
            if path.as_str().unicode_len() > 0 {
                return Some(path);
            }
        }
    }
    None
}

/// Tells whether the node binary can be found, so that callers can skip
/// their work where it cannot.
pub fn check_binary_available(env_override: &Option<String>, lookup: &Option<LookupOutput>) -> (
    available: bool)
    ensures
        available == located(*env_override, *lookup).is_some(),
{
    if env_override.is_some() {
        return true;
    }
    match lookup {
        Some(output) => {
            if output.success {
                let path = trim(output.stdout.as_str());
                path.as_str().unicode_len() > 0
            } else {
                false
            }
        },
        None => false,
    }
}

/// The path of the node binary, remembered once it was found.
#[derive(Clone, Debug, PartialEq, Eq)]
pub struct BinaryCache {
    pub path: Option<String>,
}

impl View for BinaryCache {
    type V = Option<Seq<char>>;

    open spec fn view(&self) -> Option<Seq<char>> {
        override_of(self.path)
    }
}

impl BinaryCache {
    /// A cache that remembers nothing yet.
    pub fn new() -> (cache: BinaryCache)
        ensures
            cache@ is None,
    {
        BinaryCache { path: None }
    }

    /// Whether a path is remembered, so that no lookup needs to be made.
    pub fn is_resolved(&self) -> (resolved: bool)
        ensures
            resolved == self@.is_some(),
    {
        self.path.is_some()
    }
}

/// The path of the node binary. A path found earlier is handed out again
/// and the arguments are not looked at; otherwise the path is resolved from
/// them and, if one is found, remembered from then on.
pub fn myso_binary(
    cache: &mut BinaryCache,
    env_override: Option<String>,
    lookup: Option<LookupOutput>,
) -> (path: Result<String, HarnessError>)
    ensures
        old(cache)@ is Some ==> final(cache)@ == old(cache)@,
        old(cache)@ is None ==> final(cache)@ == located(env_override, lookup),
        match path {
            Ok(found) => final(cache)@ == Some(found@),
            Err(e) => final(cache)@ is None && e == HarnessError::BinaryNotFound,
        },
{
    if let Some(known) = &cache.path {
        return Ok(known.clone());
    }
    match find_myso_binary(env_override, lookup) {
        Some(found) => {
            let path = found.clone();
            cache.path = Some(found);
            Ok(path)
        },
        None => Err(HarnessError::BinaryNotFound),
    }
}

} // verus!
