//! Options of a comparison run and the ignore list.
use crate::diff::DiffPolicy;
use crate::smali_class::SmaliMethod;
use vstd::prelude::*;

verus! {

/// The options of a comparison run.
#[derive(Debug)]
pub struct UbiArgs {
    pub baksmali_path: String,
    pub dx_path: String,
    pub mod_dir: String,
    pub disass_dir: String,
    pub no_diff: bool,
    pub ignore_default_constructors: bool,
    pub ignore_object_super: bool,
}

impl UbiArgs {
    /// The comparison policy these options select.
    pub fn policy(&self) -> (r: DiffPolicy)
        ensures
            r.ignore_default_constructors == self.ignore_default_constructors,
            r.ignore_object_super == self.ignore_object_super,
    {
        DiffPolicy {
            ignore_default_constructors: self.ignore_default_constructors,
            ignore_object_super: self.ignore_object_super,
        }
    }
}

/// One class of the ignore list: methods whose differences are expected,
/// and a super class that the class is expected to have instead.
#[derive(Debug)]
pub struct UbiIgnoreClass {
    pub name: String,
    pub ignore_methods: Option<Vec<SmaliMethod>>,
    pub ignore_super: Option<String>,
}

/// The ignore list: classes with expected differences, and class files
/// whose absence from the comparison tree is expected.
#[derive(Debug)]
pub struct UbiIgnore {
    pub ignore: Vec<UbiIgnoreClass>,
    pub ignore_not_found: Vec<String>,
}

} // verus!
