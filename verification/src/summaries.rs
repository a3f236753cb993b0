//! Summaries: shared behaviour for things that can describe themselves in
//! one line, with a default wording for those that do not bother.

use vstd::prelude::*;

verus! {

/// Behaviour shared by everything that can summarise itself.
pub trait Summary {
    /// A one-line description; by default an invitation to read on.
    fn summarize(&self) -> (r: String)
        default_ensures
            r@ == "(Read more...)"@,
    {
        String::from_str("(Read more...)")
    }
}

/// A news article with its byline.
pub struct NewsArticle {
    /// The headline.
    pub headline: String,
    /// Where the story happened.
    pub location: String,
    /// Who wrote it.
    pub author: String,
    /// The body text.
    pub content: String,
}

impl Summary for NewsArticle {
    /// Headline, author and location.
    fn summarize(&self) -> (r: String)
        ensures
            r@ == self.headline@ + ", by "@ + self.author@ + " ("@ + self.location@ + ")"@,
    {
        let mut s = self.headline.clone();
        s.append(", by ");
        s.append(self.author.as_str());
        s.append(" (");
        s.append(self.location.as_str());
        s.append(")");
        s
    }
}

/// A short post by one user.
pub struct Tweet {
    /// Who posted it.
    pub username: String,
    /// The message.
    pub content: String,
    /// Whether it replies to another post.
    pub reply: bool,
    /// Whether it repeats another post.
    pub retweet: bool,
}

impl Summary for Tweet {
    /// The user, then the message.
    fn summarize(&self) -> (r: String)
        ensures
            r@ == self.username@ + ": "@ + self.content@,
    {
        let mut s = self.username.clone();
        s.append(": ");
        s.append(self.content.as_str());
        s
    }
}

/// Announce an item by its own summary. The summary is whatever the
/// item's implementation produces; through the bare trait method nothing
/// more can be promised of the result.
pub fn notify<T: Summary>(item: &T) -> (r: String) {
    let mut s = String::from_str("Breaking news! ");
    let summary = item.summarize();
    s.append(summary.as_str());
    s
}

} // verus!
