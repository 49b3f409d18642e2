//! The per-request override of the consistency of reads.
use vstd::prelude::*;

verus! {

/// The strength of consistency asked for with a request. `Session` carries the
/// token of the session that the request continues.
#[derive(Debug, Clone, Copy)]
pub enum ConsistencyLevel<'a> {
    Strong,
    Bounded,
    Session(&'a str),
    ConsistentPrefix,
    Eventual,
}

/// A consistency level as a mathematical value.
pub enum ConsistencyLevelView {
    Strong,
    Bounded,
    Session(Seq<char>),
    ConsistentPrefix,
    Eventual,
}

impl ConsistencyLevelView {
    /// The word that names the level in its header.
    pub open spec fn header_value(self) -> Seq<char> {
        match self {
            ConsistencyLevelView::Strong => "Strong"@,
            ConsistencyLevelView::Bounded => "Bounded"@,
            ConsistencyLevelView::Session(_) => "Session"@,
            ConsistencyLevelView::ConsistentPrefix => "Prefix"@,
            ConsistencyLevelView::Eventual => "Eventual"@,
        }
    }

    /// The session token that goes with the level, if it has one.
    pub open spec fn session_token(self) -> Option<Seq<char>> {
        match self {
            ConsistencyLevelView::Session(token) => Some(token),
            _ => None,
        }
    }
}

impl<'a> View for ConsistencyLevel<'a> {
    type V = ConsistencyLevelView;

    open spec fn view(&self) -> ConsistencyLevelView {
        match *self {
            ConsistencyLevel::Strong => ConsistencyLevelView::Strong,
            ConsistencyLevel::Bounded => ConsistencyLevelView::Bounded,
            ConsistencyLevel::Session(token) => ConsistencyLevelView::Session(token@),
            ConsistencyLevel::ConsistentPrefix => ConsistencyLevelView::ConsistentPrefix,
            ConsistencyLevel::Eventual => ConsistencyLevelView::Eventual,
        }
    }
}

impl<'a> ConsistencyLevel<'a> {
    /// The word that names the level in its header.
    pub fn to_consistency_level_header(&self) -> (value: &'static str)
        ensures
            value@ == self@.header_value(),
    {
        match self {
            ConsistencyLevel::Strong => "Strong",
            ConsistencyLevel::Bounded => "Bounded",
            ConsistencyLevel::Session(_) => "Session",
            ConsistencyLevel::ConsistentPrefix => "Prefix",
            ConsistencyLevel::Eventual => "Eventual",
        }
    }
}

} // verus!
