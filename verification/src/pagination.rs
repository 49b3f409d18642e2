//! Walking through the pages of a listing. The walk itself decides nothing
//! but when to stop and which token to send: whoever drives it sends one
//! request at a time and reports the token of each page that arrives.
use vstd::prelude::*;

verus! {

/// Where a walk stands, as a mathematical value.
pub enum PagerView {
    /// No page has been asked for yet.
    Start,
    /// The last page came with this token: there is more.
    Continue(Seq<char>),
    /// The last page came without a token: there is no more.
    Done,
}

impl PagerView {
    /// Whether another page is to be asked for.
    pub open spec fn wants_page(self) -> bool {
        !(self is Done)
    }

    /// The token to send with the next request: none for the first page.
    pub open spec fn token(self) -> Option<Seq<char>> {
        match self {
            PagerView::Continue(token) => Some(token),
            _ => None,
        }
    }

    /// Where the walk stands once a page with `token` has arrived. A walk
    /// that is done stays done.
    pub open spec fn advance(self, token: Option<Seq<char>>) -> PagerView {
        match self {
            PagerView::Done => PagerView::Done,
            _ => match token {
                Some(t) => PagerView::Continue(t),
                None => PagerView::Done,
            },
        }
    }

    /// How many of the pages with the tokens `tokens`, which the service
    /// would give one after the other, a walk from this state asks for.
    pub open spec fn pages_taken(self, tokens: Seq<Option<Seq<char>>>) -> nat
        decreases tokens.len(),
    {
        if !self.wants_page() || tokens.len() == 0 {
            0
        } else {
            1 + self.advance(tokens[0]).pages_taken(tokens.drop_first())
        }
    }
}

/// A walk through the pages of a listing.
#[derive(Debug)]
pub struct Pager {
    started: bool,
    continuation: Option<String>,
}

impl View for Pager {
    type V = PagerView;

    closed spec fn view(&self) -> PagerView {
        if !self.started {
            PagerView::Start
        } else {
            match self.continuation {
                Some(token) => PagerView::Continue(token@),
                None => PagerView::Done,
            }
        }
    }
}

impl Pager {
    #[verifier::type_invariant]
    spec fn no_token_before_start(self) -> bool {
        !self.started ==> self.continuation is None
    }

    /// A walk that has not asked for any page.
    pub fn new() -> (pager: Pager)
        ensures
            pager@ == PagerView::Start,
    {
        Pager { started: false, continuation: None }
    }

    /// Whether the last page has arrived.
    pub fn is_done(&self) -> (done: bool)
        ensures
            done == !self@.wants_page(),
    {
        self.started && self.continuation.is_none()
    }

    /// The token to send with the next request.
    pub fn continuation(&self) -> (token: Option<&str>)
        ensures
            crate::text::text_of(token) == self@.token(),
    {
        proof {
            use_type_invariant(self);
        }
        match &self.continuation {
            Some(token) => Some(token.as_str()),
            None => None,
        }
    }

    /// Records that a page has arrived, with the token it came with.
    pub fn advance(&mut self, continuation_token: Option<String>)
        ensures
            final(self)@ == old(self)@.advance(
                match continuation_token {
                    Some(token) => Some(token@),
                    None => None,
                },
            ),
    {
        proof {
            use_type_invariant(&*self);
        }
        if self.started && self.continuation.is_none() {
            return ;
        }
        self.started = true;
        self.continuation = continuation_token;
    }
}

} // verus!
