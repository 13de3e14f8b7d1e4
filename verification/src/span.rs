//! Spans in the form the diagnostic renderer takes them.
use vstd::prelude::*;
use miette::{SourceOffset, SourceSpan};
use crate::ast::Node;

verus! {

/// The renderer's span type. Its fields are private to the renderer.
#[verifier::external_type_specification]
#[verifier::external_body]
pub struct ExSourceSpan(SourceSpan);

/// The span that `miette::SourceSpan::new` builds from a byte offset and a
/// length in bytes.
pub uninterp spec fn source_span_of(offset: usize, length: usize) -> SourceSpan;

/// Calls `miette::SourceSpan::new` with the offset and the length, each
/// wrapped in a `miette::SourceOffset`. The constructor stores both as given,
/// so the result depends on the two numbers alone; it cannot fail.
#[verifier::external_body]
fn new_source_span(offset: usize, length: usize) -> (span: SourceSpan)
    ensures
        span == source_span_of(offset, length),
{
    SourceSpan::new(SourceOffset::from(offset), SourceOffset::from(length))
}

impl Node {
    /// This span for the renderer: it starts at `start` and is `len()` bytes
    /// long.
    pub fn source_span(&self) -> (span: SourceSpan)
        requires
            self.wf(),
        ensures
            span == source_span_of(self.start, (self.end - self.start) as usize),
    {
        new_source_span(self.start, self.len())
    }
}

} // verus!
