//! The decisions of setting up the bundled dictionaries: which archives to fetch, and whether
//! the setup changed anything that calls for a restart.
use vstd::prelude::*;

verus! {

/// Whether a dictionary archive has to be downloaded: unless its file is there and reads as a
/// zip archive.
pub fn needs_download(file_exists: bool, reads_as_zip: bool) -> (r: bool)
    ensures
        r == !(file_exists && reads_as_zip),
{
    !(file_exists && reads_as_zip)
}

/// How many changes a setup has made to the installed dictionaries: each dictionary planned
/// for adding or removal, and each import step reported.
pub struct SetupProgress {
    pub updates: usize,
}

impl SetupProgress {
    /// A setup that has changed nothing yet.
    pub fn new() -> (r: SetupProgress)
        ensures
            r.updates == 0,
    {
        SetupProgress { updates: 0 }
    }

    /// The directory sync planned `added` dictionaries to add and `removed` to remove.
    pub fn directory_planned(&mut self, added: usize, removed: usize)
        requires
            old(self).updates + added + removed <= usize::MAX,
        ensures
            final(self).updates == old(self).updates + added + removed,
    {
        self.updates = self.updates + added + removed;
    }

    /// An import reported a step.
    pub fn import_reported(&mut self)
        requires
            old(self).updates < usize::MAX,
        ensures
            final(self).updates == old(self).updates + 1,
    {
        self.updates = self.updates + 1;
    }

    /// A restart is asked for exactly when the setup changed something.
    pub fn restart_requested(&self) -> (r: bool)
        ensures
            r == (self.updates > 0),
    {
        self.updates > 0
    }
}

} // verus!
