//! Preconditions that make a request conditional on the state of its target.
use vstd::prelude::*;

verus! {

/// A precondition on the entity tag of the target: the request is carried out
/// only if the tag matches, or only if it does not.
#[derive(Debug, Clone, Copy)]
pub enum IfMatchCondition<'a> {
    Match(&'a str),
    NotMatch(&'a str),
}

/// A precondition on the entity tag, as a mathematical value.
pub enum IfMatchConditionView {
    Match(Seq<char>),
    NotMatch(Seq<char>),
}

impl IfMatchConditionView {
    /// The name of the header that carries the condition.
    pub open spec fn header_name(self) -> Seq<char> {
        match self {
            IfMatchConditionView::Match(_) => crate::headers::IF_MATCH@,
            IfMatchConditionView::NotMatch(_) => crate::headers::IF_NONE_MATCH@,
        }
    }

    /// The entity tag that the condition compares with.
    pub open spec fn etag(self) -> Seq<char> {
        match self {
            IfMatchConditionView::Match(etag) => etag,
            IfMatchConditionView::NotMatch(etag) => etag,
        }
    }
}

impl<'a> View for IfMatchCondition<'a> {
    type V = IfMatchConditionView;

    open spec fn view(&self) -> IfMatchConditionView {
        match *self {
            IfMatchCondition::Match(etag) => IfMatchConditionView::Match(etag@),
            IfMatchCondition::NotMatch(etag) => IfMatchConditionView::NotMatch(etag@),
        }
    }
}

} // verus!
