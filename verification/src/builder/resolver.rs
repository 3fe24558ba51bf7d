//! Runtime discovery: the interface through which a runtime name becomes a binary path.

use vstd::prelude::*;

use super::cmdline::concat;

verus! {

/// A resolved runtime: its name and the path of its binary.
#[derive(Debug)]
pub struct ResolvedRuntime {
    pub name: String,
    pub path: String,
}

/// Why a runtime could not be resolved.
#[derive(Debug)]
pub struct ResolveError {
    pub message: String,
}

/// Resolves a runtime name to the binary that runs it.
pub trait RuntimeResolver: Send + Sync {
    /// A resolved runtime carries the name it was asked for.
    fn resolve(&self, name: &str) -> (r: Result<ResolvedRuntime, ResolveError>)
        ensures
            r matches Ok(rt) ==> rt.name@ == name@,
    ;
}

/// `which::which`: the path of the executable that the name (a bare name is looked up on
/// `PATH`) stands for, as text (`to_string_lossy`). What it finds depends on the
/// environment and the disk, so nothing is stated of the outcome.
#[verifier::external_body]
fn find_executable(name: &str) -> (r: Result<String, ()>) {
    match which::which(name) {
        Ok(p) => Ok(p.to_string_lossy().into_owned()),
        Err(_) => Err(()),
    }
}

/// The `PATH` lookup (`find_executable`) was made for the name, and `found` is one of its
/// possible answers.
pub closed spec fn looked_up(name: Seq<char>, found: Result<String, ()>) -> bool {
    exists|s: &str| s@ == name && #[trigger] call_ensures(find_executable, (s,), found)
}

/// What resolving `name` gives for a lookup's answer: the runtime at the path found, or an
/// error that says the name is not on `PATH`.
pub open spec fn resolution_of(name: Seq<char>, found: Result<String, ()>, r: Result<ResolvedRuntime, ResolveError>) -> bool {
    match found {
        Ok(p) => (r matches Ok(rt) && rt.name@ == name && rt.path@ == p@),
        Err(()) => (r matches Err(e) && e.message@ == name + " not found on PATH"@),
    }
}

/// The runtime a `PATH` lookup of `name` gives: the runtime at the path found, or an error
/// that says the name is not on `PATH`.
pub fn resolution_from(name: &str, found: Result<String, ()>) -> (r: Result<ResolvedRuntime, ResolveError>)
    ensures
        resolution_of(name@, found, r),
{
    match found {
        Ok(path) => Ok(ResolvedRuntime { name: String::from_str(name), path }),
        Err(()) => Err(ResolveError { message: concat(name, " not found on PATH") }),
    }
}

/// Resolves runtimes by looking their binaries up on `PATH`.
pub struct WhichResolver;

impl RuntimeResolver for WhichResolver {
    /// Looks the name up on `PATH` and gives `resolution_from` of the answer: the binary
    /// found for the name, or an error that says it is not on `PATH`.
    fn resolve(&self, name: &str) -> (r: Result<ResolvedRuntime, ResolveError>)
        ensures
            exists|found: Result<String, ()>| #[trigger] looked_up(name@, found) && resolution_of(name@, found, r),
    {
        let found = find_executable(name);
        assert(call_ensures(find_executable, (name,), found));
        let ghost g = found;
        let r = resolution_from(name, found);
        assert(resolution_of(name@, g, r));
        assert(looked_up(name@, g));
        r
    }
}

/// A resolver that answers every name with the same path.
pub struct MockResolver {
    pub path: String,
}

impl MockResolver {
    pub fn new(path: String) -> (r: Self)
        ensures
            r.path@ == path@,
    {
        MockResolver { path }
    }
}

impl RuntimeResolver for MockResolver {
    fn resolve(&self, name: &str) -> (r: Result<ResolvedRuntime, ResolveError>)
        ensures
            r matches Ok(rt) && rt.name@ == name@ && rt.path@ == self.path@,
    {
        Ok(ResolvedRuntime { name: String::from_str(name), path: self.path.clone() })
    }
}

} // verus!
