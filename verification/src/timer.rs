//! Timing of long operations.
use vstd::prelude::*;

use crate::text::{push_str, string_from_chars};

verus! {

#[verifier::external_type_specification]
#[verifier::external_body]
pub struct ExInstant(std::time::Instant);

/// `std::time::Instant::now`. Nothing is claimed of the instant.
#[verifier::external_body]
fn instant_now() -> std::time::Instant {
    std::time::Instant::now()
}

/// `std::time::Instant::elapsed`, written as `{:.2?}` writes a `Duration`. Nothing is
/// claimed of the text: it depends on the clock.
#[verifier::external_body]
fn elapsed_text(start: &std::time::Instant) -> String {
    format!("{:.2?}", start.elapsed())
}

/// Measures the time since it was made, under a label.
pub struct Timer {
    start: std::time::Instant,
    label: String,
}

impl Timer {
    /// The label the timer reports under.
    pub closed spec fn label(&self) -> Seq<char> {
        self.label@
    }

    /// Starts a timer with a label.
    pub fn new(label: String) -> (t: Timer)
        ensures
            t.label() == label@,
    {
        Timer { start: instant_now(), label }
    }

    /// The label of the timer.
    pub fn label_text(&self) -> (r: &str)
        ensures
            r@ == self.label(),
    {
        self.label.as_str()
    }

    /// The report of the timer: its label in brackets, a space, and the time elapsed.
    pub fn report(&self) -> (r: String)
        ensures
            r@ == "["@ + self.label() + "] "@ + r@.skip(self.label().len() as int + 3),
    {
        let mut v: Vec<char> = Vec::new();
        push_str(&mut v, "[");
        push_str(&mut v, self.label.as_str());
        push_str(&mut v, "] ");
        let ghost head = v@;
        proof {
            reveal_strlit("[");
            reveal_strlit("] ");
        }
        let e = elapsed_text(&self.start);
        push_str(&mut v, e.as_str());
        assert(v@.skip(self.label().len() as int + 3) =~= e@);
        string_from_chars(v.as_slice())
    }
}

} // verus!
