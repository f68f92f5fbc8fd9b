//! A blog post moving through the editorial workflow: drafted, sent for
//! review, approved — and showing its text only once published.

use vstd::prelude::*;
use vstd::string::StringExecFns;

verus! {

/// The three stations of the workflow. Review and approval only ever move a
/// post forward; there is no way back to a draft.
#[derive(Clone, Copy, Debug, PartialEq, Eq, Structural)]
pub enum PostState {
    Draft,
    PendingReview,
    Published,
}

/// A post: its accumulated text and where it stands in the workflow.
pub struct Post {
    state: PostState,
    content: String,
}

impl Post {
    /// Where the post stands.
    pub closed spec fn state_spec(&self) -> PostState {
        self.state
    }

    /// The text written so far, visible or not.
    pub closed spec fn text(&self) -> Seq<char> {
        self.content@
    }

    /// A new post starts as an empty draft.
    pub fn new() -> (p: Post)
        ensures
            p.state_spec() == PostState::Draft,
            p.text() == Seq::<char>::empty(),
    {
        Post { state: PostState::Draft, content: String::new() }
    }

    /// Appends text to the post, whatever its state.
    pub fn add_text(&mut self, text: &str)
        ensures
            final(self).state_spec() == old(self).state_spec(),
            final(self).text() == old(self).text() + text@,
    {
        self.content.append(text);
    }

    /// The text a reader gets to see: everything once the post is published,
    /// nothing before.
    pub fn content(&self) -> (s: &str)
        ensures
            self.state_spec() == PostState::Published ==> s@ == self.text(),
            self.state_spec() != PostState::Published ==> s@ == Seq::<char>::empty(),
    {
        match self.state {
            PostState::Published => self.content.as_str(),
            _ => {
                let s = "";
                proof {
                    reveal_strlit("");
                    assert(s@ =~= Seq::<char>::empty());
                }
                s
            },
        }
    }

    /// Asks for a review: a draft moves to pending review; a post already
    /// under review or published stays where it is.
    pub fn request_review(&mut self)
        ensures
            final(self).text() == old(self).text(),
            final(self).state_spec() == (match old(self).state_spec() {
                PostState::Draft => PostState::PendingReview,
                s => s,
            }),
    {
        if self.state == PostState::Draft {
            self.state = PostState::PendingReview;
        }
    }

    /// Approves the post: a post under review becomes published; a draft is
    /// not approvable and a published post stays published.
    pub fn approve(&mut self)
        ensures
            final(self).text() == old(self).text(),
            final(self).state_spec() == (match old(self).state_spec() {
                PostState::PendingReview => PostState::Published,
                s => s,
            }),
    {
        if self.state == PostState::PendingReview {
            self.state = PostState::Published;
        }
    }
}

} // verus!
