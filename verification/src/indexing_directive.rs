//! Whether the service indexes a written document.
use vstd::prelude::*;

verus! {

/// The indexing behaviour asked for with a write. `Default` leaves the
/// decision to the collection's indexing policy.
#[derive(Debug, Clone, Copy, PartialEq, Eq, Structural)]
pub enum IndexingDirective {
    Default,
    Include,
    Exclude,
}

impl IndexingDirective {
    /// The header value that asks for this behaviour; none for `Default`.
    pub open spec fn header_value(self) -> Option<Seq<char>> {
        match self {
            IndexingDirective::Default => None,
            IndexingDirective::Include => Some("Include"@),
            IndexingDirective::Exclude => Some("Exclude"@),
        }
    }

    /// The header value that asks for this behaviour; none for `Default`.
    pub fn to_header_value(&self) -> (value: Option<&'static str>)
        ensures
            crate::text::text_of(value) == self.header_value(),
    {
        match self {
            IndexingDirective::Default => None,
            IndexingDirective::Include => Some("Include"),
            IndexingDirective::Exclude => Some("Exclude"),
        }
    }
}

} // verus!
