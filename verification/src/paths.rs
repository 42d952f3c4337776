//! Canonicalization of configured search paths.

use vstd::prelude::*;

verus! {

/// A configured load path does not exist or cannot be made absolute.
#[derive(Debug, Clone)]
pub struct PathResolutionError {
    pub path: String,
    pub details: String,
}

impl PathResolutionError {
    /// The top-level description of this error.
    pub fn message(&self) -> (r: String)
        ensures
            r@ == "could not canonicalize the configured load path "@ + self.path@,
    {
        let mut m = "could not canonicalize the configured load path ".to_owned();
        m.append(self.path.as_str());
        m
    }

    /// The chain of underlying causes, outermost first.
    pub fn causes(&self) -> (r: Vec<String>)
        ensures
            r@.len() == 1,
            r@[0]@ == self.details@,
    {
        let mut v: Vec<String> = Vec::new();
        v.push(self.details.clone());
        v
    }
}

/// Relies on `dunce::canonicalize` to resolve a path against the real
/// filesystem; what it returns depends on the state of the disk, so nothing
/// is claimed of the result beyond success or failure.
#[verifier::external_body]
pub(crate) fn canonicalize_path(p: &String) -> (r: Result<String, String>) {
    match dunce::canonicalize(std::path::Path::new(p.as_str())) {
        Ok(resolved) => Ok(resolved.to_string_lossy().into_owned()),
        Err(e) => Err(format!("{}", e)),
    }
}

} // verus!
