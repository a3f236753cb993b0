//! A blog post moving through a review workflow, its state held as a plain
//! tagged union: draft, pending review, published. Only a published post
//! shows its content; review requests and approvals move the state one
//! step and do nothing elsewhere.

use vstd::prelude::*;

verus! {

/// Where a post stands in the review workflow.
pub enum PostState {
    /// Being written; content hidden.
    Draft,
    /// Submitted for review; content hidden.
    PendingReview,
    /// Approved; content visible.
    Published,
}

/// A blog post whose visible behaviour depends on its workflow state.
pub struct Post {
    state: PostState,
    content: String,
}

impl Post {
    /// The post's workflow state.
    pub closed spec fn state(&self) -> PostState {
        self.state
    }

    /// The post's full text, visible or not.
    pub closed spec fn text(&self) -> Seq<char> {
        self.content@
    }

    /// A fresh, empty draft.
    pub fn new() -> (post: Post)
        ensures
            post.state() == PostState::Draft,
            post.text() =~= Seq::<char>::empty(),
    {
        Post { state: PostState::Draft, content: String::new() }
    }

    /// Append text to the post's content, in any state.
    pub fn add_text(&mut self, text: &str)
        ensures
            final(self).text() == old(self).text() + text@,
            final(self).state() == old(self).state(),
    {
        self.content.append(text);
    }

    /// The visible content: the full text once published, nothing before.
    pub fn content(&self) -> (r: &str)
        ensures
            r@ == if self.state() is Published {
                self.text()
            } else {
                Seq::<char>::empty()
            },
    {
        match self.state {
            PostState::Published => self.content.as_str(),
            _ => {
                let hidden = "";
                proof {
                    reveal_strlit("");
                    assert(hidden@ =~= Seq::<char>::empty());
                }
                hidden
            },
        }
    }

    /// Ask for a review: a draft moves to pending review; any other state
    /// is left as it is. The text never changes.
    pub fn request_review(&mut self)
        ensures
            final(self).state() == if old(self).state() is Draft {
                PostState::PendingReview
            } else {
                old(self).state()
            },
            final(self).text() == old(self).text(),
    {
        match self.state {
            PostState::Draft => {
                self.state = PostState::PendingReview;
            },
            _ => {},
        }
    }

    /// Approve the post: a pending review moves to published; any other
    /// state is left as it is. The text never changes.
    pub fn approve(&mut self)
        ensures
            final(self).state() == if old(self).state() is PendingReview {
                PostState::Published
            } else {
                old(self).state()
            },
            final(self).text() == old(self).text(),
    {
        match self.state {
            PostState::PendingReview => {
                self.state = PostState::Published;
            },
            _ => {},
        }
    }
}

} // verus!
