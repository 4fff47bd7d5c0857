//! Where learner progress is kept on disk.
//!
//! Reading and writing the file is the caller's job; the store only fixes
//! the location.

use vstd::prelude::*;

verus! {

/// The resolved location of the progress file.
pub struct ProgressStore {
    path: String,
}

impl View for ProgressStore {
    type V = Seq<char>;

    closed spec fn view(&self) -> Seq<char> {
        self.path@
    }
}

impl ProgressStore {
    /// A store at the given file path.
    pub fn new(path: String) -> (s: Self)
        ensures
            s@ == path@,
    {
        ProgressStore { path }
    }

    /// The progress file's path.
    pub fn path(&self) -> (r: &String)
        ensures
            r@ == self@,
    {
        &self.path
    }
}

} // verus!
