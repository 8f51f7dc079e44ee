//! A blog post whose workflow state lives in the type system: each
//! stage is its own type, and only the transitions below exist.

use vstd::prelude::*;
use vstd::string::StringExecFns;

verus! {

/// A published post; the only stage whose content is readable.
pub struct Post {
    content: String,
}

/// A post being written; the only stage whose content can change.
pub struct DraftPost {
    content: String,
}

/// A post waiting for approval.
pub struct PendingReviewPost {
    content: String,
}

impl Post {
    /// The text of the post.
    pub closed spec fn text(&self) -> Seq<char> {
        self.content@
    }

    /// Starts a new, empty draft.
    pub fn new() -> (r: DraftPost)
        ensures
            r.text() == Seq::<char>::empty(),
    {
        DraftPost { content: String::new() }
    }

    /// The published content.
    pub fn content<'a>(&'a self) -> (r: &'a str)
        ensures
            r@ == self.text(),
    {
        self.content.as_str()
    }
}

impl DraftPost {
    /// The text of the draft.
    pub closed spec fn text(&self) -> Seq<char> {
        self.content@
    }

    /// Appends `text` to the draft.
    pub fn add_text(&mut self, text: &str)
        ensures
            final(self).text() == old(self).text() + text@,
    {
        self.content.append(text)
    }

    /// Consumes the draft and hands it over for review.
    pub fn request_review(self) -> (r: PendingReviewPost)
        ensures
            r.text() == self.text(),
    {
        PendingReviewPost { content: self.content }
    }
}

impl PendingReviewPost {
    /// The text of the post under review.
    pub closed spec fn text(&self) -> Seq<char> {
        self.content@
    }

    /// Approves the post, publishing it.
    pub fn approve(self) -> (r: Post)
        ensures
            r.text() == self.text(),
    {
        Post { content: self.content }
    }

    /// Rejects the post, sending it back to the draft stage with its
    /// text intact.
    pub fn reject(self) -> (r: DraftPost)
        ensures
            r.text() == self.text(),
    {
        DraftPost { content: self.content }
    }
}

} // verus!
