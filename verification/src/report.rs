use vstd::prelude::*;

verus! {

/// The final value a report builder produces: a plain data carrier with the
/// rendered content, a count of the content pieces, and a label naming the
/// rendering format.
pub struct Report {
    pub content: String,
    pub items: i32,
    pub format: String,
}

} // verus!
