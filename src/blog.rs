//! A blog post whose stage is its type: a draft takes text, a draft sent
//! for review becomes a pending post, and an approved pending post becomes
//! a published post, the only stage whose content can be read.
use vstd::prelude::*;
use vstd::string::*;

verus! {

/// A published post.
pub struct Post {
    content: String,
}

/// A post being written.
pub struct DraftPost {
    content: String,
}

/// A post waiting for approval.
pub struct PendingReviewPost {
    content: String,
}

impl View for Post {
    type V = Seq<char>;

    closed spec fn view(&self) -> Seq<char> {
        self.content@
    }
}

impl View for DraftPost {
    type V = Seq<char>;

    closed spec fn view(&self) -> Seq<char> {
        self.content@
    }
}

impl View for PendingReviewPost {
    type V = Seq<char>;

    closed spec fn view(&self) -> Seq<char> {
        self.content@
    }
}

impl Post {
    /// Starts a new post as an empty draft.
    pub fn new() -> (r: DraftPost)
        ensures
            r@ == Seq::<char>::empty(),
    {
        DraftPost { content: String::new() }
    }

    /// The published text.
    pub fn content(&self) -> (r: &str)
        ensures
            r@ == self@,
    {
        self.content.as_str()
    }
}

impl DraftPost {
    /// Appends `text` to the draft.
    pub fn add_text(&mut self, text: &str)
        ensures
            final(self)@ == old(self)@ + text@,
    {
        self.content.append(text);
    }

    /// Sends the draft for review; the text is kept.
    pub fn request_review(self) -> (r: PendingReviewPost)
        ensures
            r@ == self@,
    {
        PendingReviewPost { content: self.content }
    }
}

impl PendingReviewPost {
    /// Approves the post, which publishes it with its text.
    pub fn approve(self) -> (r: Post)
        ensures
            r@ == self@,
    {
        Post { content: self.content }
    }
}

} // verus!
