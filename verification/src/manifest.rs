//! The project manifest: the glob patterns under which packages are looked up.

use vstd::prelude::*;

verus! {

/// The set of glob patterns, relative to the project root, under which
/// package directories are discovered.
#[derive(Debug, Clone)]
pub struct Manifest {
    pub packages: Vec<String>,
}

impl Manifest {
    /// The default manifest: packages live under `./packages/*` and `./apps/*`.
    pub fn new() -> (r: Manifest)
        ensures
            r.packages@.len() == 2,
            r.packages@[0]@ == "./packages/*"@,
            r.packages@[1]@ == "./apps/*"@,
    {
        let mut packages: Vec<String> = Vec::new();
        packages.push(String::from_str("./packages/*"));
        packages.push(String::from_str("./apps/*"));
        Manifest { packages }
    }
}

} // verus!
