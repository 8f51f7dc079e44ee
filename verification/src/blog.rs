//! A blog post whose workflow state lives in a field, moved along by
//! requests, approvals and rejections.

use vstd::prelude::*;
use vstd::string::StringExecFns;

verus! {

/// The workflow stage a post is in.
#[derive(Debug, PartialEq, Eq, Structural)]
pub enum Phase {
    Draft,
    PendingReview,
    Published,
}

enum State {
    Draft,
    PendingReview { num_approvals: u8 },
    Published,
}

/// A blog post that moves from draft through review to publication.
/// Text can be amended only while the post is a draft, and the body is
/// readable only once the post is published.
pub struct Post {
    state: State,
    content: String,
}

impl Post {
    /// The workflow stage the post is in.
    pub closed spec fn phase(&self) -> Phase {
        match self.state {
            State::Draft => Phase::Draft,
            State::PendingReview { .. } => Phase::PendingReview,
            State::Published => Phase::Published,
        }
    }

    /// How many approvals the post has collected while under review.
    pub closed spec fn approvals(&self) -> u8 {
        match self.state {
            State::PendingReview { num_approvals } => num_approvals,
            _ => 0,
        }
    }

    /// The full text of the post, whether or not it is readable yet.
    pub closed spec fn text(&self) -> Seq<char> {
        self.content@
    }

    /// A new, empty draft.
    pub fn new() -> (r: Post)
        ensures
            r.phase() == Phase::Draft,
            r.text() == Seq::<char>::empty(),
    {
        Post { state: State::Draft, content: String::new() }
    }

    /// Appends `text` to the body; outside the draft stage the body
    /// stays as it was.
    pub fn add_text(&mut self, text: &str)
        ensures
            final(self).phase() == old(self).phase(),
            final(self).approvals() == old(self).approvals(),
            old(self).phase() == Phase::Draft ==> final(self).text() == old(self).text()
                + text@,
            old(self).phase() != Phase::Draft ==> final(self).text() == old(self).text(),
    {
        match self.state {
            State::Draft => {
                self.content.append(text);
            },
            _ => {},
        }
    }

    /// Sends a draft off for review; in any other stage nothing changes.
    pub fn request_review(&mut self)
        ensures
            final(self).text() == old(self).text(),
            old(self).phase() == Phase::Draft ==> final(self).phase() == Phase::PendingReview
                && final(self).approvals() == 0,
            old(self).phase() != Phase::Draft ==> final(self).phase() == old(self).phase()
                && final(self).approvals() == old(self).approvals(),
    {
        match self.state {
            State::Draft => {
                self.state = State::PendingReview { num_approvals: 0 };
            },
            _ => {},
        }
    }

    /// Records one approval; the second approval publishes the post.
    /// Outside review nothing changes.
    pub fn approve(&mut self)
        ensures
            final(self).text() == old(self).text(),
            old(self).phase() == Phase::PendingReview && old(self).approvals() >= 1
                ==> final(self).phase() == Phase::Published,
            old(self).phase() == Phase::PendingReview && old(self).approvals() == 0
                ==> final(self).phase() == Phase::PendingReview && final(self).approvals() == 1,
            old(self).phase() != Phase::PendingReview ==> final(self).phase() == old(
                self,
            ).phase() && final(self).approvals() == old(self).approvals(),
    {
        match self.state {
            State::PendingReview { num_approvals } => {
                if num_approvals >= 1 {
                    self.state = State::Published;
                } else {
                    self.state = State::PendingReview { num_approvals: num_approvals + 1 };
                }
            },
            _ => {},
        }
    }

    /// Sends a post under review back to the draft stage, keeping its
    /// text; in any other stage nothing changes.
    pub fn reject(&mut self)
        ensures
            final(self).text() == old(self).text(),
            old(self).phase() == Phase::PendingReview ==> final(self).phase() == Phase::Draft,
            old(self).phase() != Phase::PendingReview ==> final(self).phase() == old(
                self,
            ).phase() && final(self).approvals() == old(self).approvals(),
    {
        match self.state {
            State::PendingReview { .. } => {
                self.state = State::Draft;
            },
            _ => {},
        }
    }

    /// The readable body: the full text once published, empty before that.
    pub fn content<'a>(&'a self) -> (r: &'a str)
        ensures
            self.phase() == Phase::Published ==> r@ == self.text(),
            self.phase() != Phase::Published ==> r@ == Seq::<char>::empty(),
    {
        proof {
            reveal_strlit("");
        }
        match self.state {
            State::Published => self.content.as_str(),
            _ => "",
        }
    }
}

} // verus!
