//! The review workflow again, with the states encoded as types: a draft,
//! a post under review, and a published post are three distinct types, and
//! each step consumes its input, so only the operations of the current
//! state exist at all.

use vstd::prelude::*;

verus! {

/// A published post: the only state whose content can be read.
pub struct Post {
    content: String,
}

/// A post being written: text can be added, review can be requested.
pub struct DraftPost {
    content: String,
}

/// A post waiting for review: it can only be approved.
pub struct PendingReviewPost {
    content: String,
}

impl Post {
    /// The post's text.
    pub closed spec fn text(&self) -> Seq<char> {
        self.content@
    }

    /// Start a new, empty draft.
    pub fn new() -> (draft: DraftPost)
        ensures
            draft.text() =~= Seq::<char>::empty(),
    {
        DraftPost { content: String::new() }
    }

    /// The published content.
    pub fn content(&self) -> (r: &str)
        ensures
            r@ == self.text(),
    {
        self.content.as_str()
    }
}

impl DraftPost {
    /// The draft's text so far.
    pub closed spec fn text(&self) -> Seq<char> {
        self.content@
    }

    /// Append text to the draft.
    pub fn add_text(&mut self, text: &str)
        ensures
            final(self).text() == old(self).text() + text@,
    {
        self.content.append(text);
    }

    /// Submit the draft for review, consuming it.
    pub fn request_review(self) -> (pending: PendingReviewPost)
        ensures
            pending.text() == self.text(),
    {
        PendingReviewPost { content: self.content }
    }
}

impl PendingReviewPost {
    /// The submitted text.
    pub closed spec fn text(&self) -> Seq<char> {
        self.content@
    }

    /// Approve the post, consuming the pending state.
    pub fn approve(self) -> (post: Post)
        ensures
            post.text() == self.text(),
    {
        Post { content: self.content }
    }
}

} // verus!
