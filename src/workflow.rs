//! A blog post that carries its review stage as a value: a draft goes to
//! review, an approved review is scheduled, a second approval publishes it,
//! and a rejection sends it back to draft.
use vstd::prelude::*;
use vstd::string::*;

verus! {

/// The review stage of a post.
#[derive(Clone, Copy, Debug, PartialEq, Eq, Structural)]
pub enum State {
    Draft,
    PendingReview,
    Scheduled,
    Published,
}

pub open spec fn spec_request_review(s: State) -> State {
    match s {
        State::Draft => State::PendingReview,
        _ => s,
    }
}

pub open spec fn spec_approve(s: State) -> State {
    match s {
        State::PendingReview => State::Scheduled,
        State::Scheduled => State::Published,
        _ => s,
    }
}

pub open spec fn spec_reject(s: State) -> State {
    State::Draft
}

impl State {
    /// A draft goes to review; any other stage stays as it is.
    pub fn request_review(self) -> (r: State)
        ensures
            r == spec_request_review(self),
    {
        match self {
            State::Draft => State::PendingReview,
            other => other,
        }
    }

    /// A pending post is scheduled and a scheduled one published; drafts
    /// and published posts stay as they are.
    pub fn approve(self) -> (r: State)
        ensures
            r == spec_approve(self),
    {
        match self {
            State::PendingReview => State::Scheduled,
            State::Scheduled => State::Published,
            other => other,
        }
    }

    /// Any stage goes back to draft.
    pub fn reject(self) -> (r: State)
        ensures
            r == spec_reject(self),
    {
        State::Draft
    }
}

/// A post: its stage and its text.
pub struct Post {
    state: State,
    content: String,
}

impl Post {
    pub closed spec fn spec_state(&self) -> State {
        self.state
    }

    pub closed spec fn spec_content(&self) -> Seq<char> {
        self.content@
    }

    /// A new, empty draft.
    pub fn new() -> (r: Post)
        ensures
            r.spec_state() == State::Draft,
            r.spec_content() == Seq::<char>::empty(),
    {
        Post { state: State::Draft, content: String::new() }
    }

    /// Appends `text` to the post; the stage is kept.
    pub fn add_text(&mut self, text: &str)
        ensures
            final(self).spec_content() == old(self).spec_content() + text@,
            final(self).spec_state() == old(self).spec_state(),
    {
        self.content.append(text);
    }

    /// The post's text, whatever its stage.
    pub fn content(&self) -> (r: &String)
        ensures
            r@ == self.spec_content(),
    {
        &self.content
    }

    /// The post's stage.
    pub fn state(&self) -> (r: State)
        ensures
            r == self.spec_state(),
    {
        self.state
    }

    /// Sends a draft for review.
    pub fn request_review(&mut self)
        ensures
            final(self).spec_state() == spec_request_review(old(self).spec_state()),
            final(self).spec_content() == old(self).spec_content(),
    {
        self.state = self.state.request_review();
    }

    /// Moves a post under review one stage towards publication.
    pub fn approve(&mut self)
        ensures
            final(self).spec_state() == spec_approve(old(self).spec_state()),
            final(self).spec_content() == old(self).spec_content(),
    {
        self.state = self.state.approve();
    }
}

} // verus!
