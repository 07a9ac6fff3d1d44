//! The visitor counter: one number for the whole process, raised by one for
//! each request that a handler takes up.

use crate::text::{decimal_text, u64_to_text};
use std::sync::atomic::{AtomicU64, Ordering};
use vstd::prelude::*;

verus! {

/// A counter that many requests raise at once. It is handed to each request
/// by reference; nothing resets it.
pub struct VisitorCounter {
    visitor: AtomicU64,
}

impl VisitorCounter {
    /// A counter that has seen no visitor.
    pub fn new() -> (counter: VisitorCounter) {
        VisitorCounter { visitor: AtomicU64::new(0) }
    }

    /// Raises the counter by one, as one atomic step with relaxed ordering,
    /// then reads it and hands out what it read. Other requests may have
    /// raised the counter between the two steps, so the number says how many
    /// visits had been counted at some moment after this one; it wraps to
    /// zero past the largest 64-bit number.
    pub fn increment(&self) -> (seen: u64) {
        self.visitor.fetch_add(1, Ordering::Relaxed);
        self.visitor.load(Ordering::Relaxed)
    }
}

/// The line that reports the number of visitors.
pub open spec fn visitor_line(count: nat) -> Seq<char> {
    "The number of visitors: "@ + decimal_text(count)
}

/// Writes the line that reports the number of visitors.
pub fn visitor_message(count: u64) -> (line: String)
    ensures
        line@ == visitor_line(count as nat),
{
    let mut line = String::from_str("The number of visitors: ");
    let number = u64_to_text(count);
    line.append(number.as_str());
    line
}

} // verus!
