//! A file-writer recipe: a remembered destination path for sinks that open
//! the file anew, in append mode, on each write dispatch rather than holding
//! one handle for the life of the process.

use vstd::prelude::*;

verus! {

/// Remembers the path of a log file for per-write opening. The writer
/// obtained from it must append and must never truncate existing content.
#[derive(Clone)]
pub struct FileMakeWriter {
    path: String,
}

impl View for FileMakeWriter {
    type V = Seq<char>;

    closed spec fn view(&self) -> Seq<char> {
        self.path@
    }
}

impl FileMakeWriter {
    /// Remembers `path` as the destination of the writer.
    pub fn new(path: String) -> (w: Self)
        ensures
            w@ == path@,
    {
        FileMakeWriter { path }
    }

    /// The remembered destination path.
    pub fn path(&self) -> (p: &String)
        ensures
            p@ == self@,
    {
        &self.path
    }
}

} // verus!
