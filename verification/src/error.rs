use vstd::prelude::*;

verus! {

/// Why an advance was refused.
#[derive(Debug, Clone, Copy, PartialEq, Eq, Structural)]
pub enum AdvanceError {
    /// The handle spans fewer elements than were asked for: `needed` is the
    /// amount asked for, `remaining` the number of elements the handle
    /// spanned when it was asked.
    NotEnoughData { needed: usize, remaining: usize },
}

} // verus!
