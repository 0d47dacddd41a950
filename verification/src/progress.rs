//! The progress that a dictionary import reports: a count of steps that grows by the entries
//! of each term bank read and by one at each later stage.
use vstd::prelude::*;

use crate::text::{push_str, string_from_chars};
use crate::types::YomitanProgress;

verus! {

/// The steps an import has taken so far.
pub struct ImportSteps {
    pub steps: usize,
}

impl ImportSteps {
    /// An import that has taken no step.
    pub fn new() -> (r: ImportSteps)
        ensures
            r.steps == 0,
    {
        ImportSteps { steps: 0 }
    }

    /// The report that the archive `bundle_name` is being opened.
    pub fn opening(&self, bundle_name: &str) -> (r: YomitanProgress)
        ensures
            r.message@ == "Opening "@ + bundle_name@,
            r.current == 0,
            r.total == 0,
            r.steps == self.steps,
    {
        let mut v: Vec<char> = Vec::new();
        push_str(&mut v, "Opening ");
        push_str(&mut v, bundle_name);
        YomitanProgress { message: string_from_chars(v.as_slice()), current: 0, total: 0, steps: self.steps }
    }

    /// Term bank `bank` of `total` was read with `entries` entries: they count as steps.
    pub fn term_bank_read(&mut self, bank: usize, total: usize, entries: usize) -> (r: YomitanProgress)
        requires
            old(self).steps + entries <= usize::MAX,
        ensures
            final(self).steps == old(self).steps + entries,
            r.message@ == "Reading term banks"@,
            r.current == bank,
            r.total == total,
            r.steps == final(self).steps,
    {
        self.steps = self.steps + entries;
        let mut v: Vec<char> = Vec::new();
        push_str(&mut v, "Reading term banks");
        YomitanProgress { message: string_from_chars(v.as_slice()), current: bank, total, steps: self.steps }
    }

    /// The import reached the stage `message`: one more step.
    pub fn stage(&mut self, message: &str) -> (r: YomitanProgress)
        requires
            old(self).steps < usize::MAX,
        ensures
            final(self).steps == old(self).steps + 1,
            r.message@ == message@,
            r.current == 0,
            r.total == 0,
            r.steps == final(self).steps,
    {
        self.steps = self.steps + 1;
        let mut v: Vec<char> = Vec::new();
        push_str(&mut v, message);
        YomitanProgress { message: string_from_chars(v.as_slice()), current: 0, total: 0, steps: self.steps }
    }
}

} // verus!
