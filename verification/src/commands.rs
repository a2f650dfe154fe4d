//! The command layer's argument and result records: plain values that the
//! surrounding shell fills from its argument parser and renders afterwards.

use vstd::prelude::*;

use crate::package::Package;
use crate::project::{filter_packages, spec_keep_filter};
use crate::runners::ScriptRunResult;

verus! {

/// The arguments of the listing command.
pub struct ListArgs {
    /// Whether unreadable and undetected packages are listed too.
    pub all: bool,
}

impl ListArgs {
    /// Selects the packages the listing shows, as the `all` flag asks.
    pub fn select_packages(&self, packages: Vec<Package>) -> (r: Vec<Package>)
        ensures
            r@ == packages@.filter(spec_keep_filter(self.all)),
    {
        filter_packages(packages, self.all)
    }
}

/// The arguments of the script-running command.
pub struct RunScriptArgs {
    /// The name of the script to run in every package.
    pub script_spec: String,
}

/// A command's result record, handed to the output renderer.
pub trait CommandResult<T> {
    fn get_result(&self) -> &T;
}

/// The result of the listing command.
pub struct ListResult {
    pub packages: Vec<Package>,
}

impl CommandResult<ListResult> for ListResult {
    fn get_result(&self) -> (r: &ListResult)
        ensures
            r == self,
    {
        self
    }
}

/// The result of the script-running command: one outcome per package, in
/// the input order of the packages.
pub struct RunScriptResult {
    pub results: Vec<(Package, ScriptRunResult)>,
}

impl CommandResult<RunScriptResult> for RunScriptResult {
    fn get_result(&self) -> (r: &RunScriptResult)
        ensures
            r == self,
    {
        self
    }
}

} // verus!
