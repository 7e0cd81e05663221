use vstd::prelude::*;

verus! {

/// Where a post stands on its way to being published.
#[derive(Clone, Copy, Debug, PartialEq, Eq, Structural)]
pub enum PostState {
    Draft,
    PendingReview { current_approval_count: u8 },
    Approved,
}

impl PostState {
    /// Only a draft can be written on.
    pub open spec fn can_edit(self) -> bool {
        self is Draft
    }

    /// A draft goes to review; nothing else changes.
    pub open spec fn review_requested(self) -> PostState {
        match self {
            PostState::Draft => PostState::PendingReview { current_approval_count: 0 },
            other => other,
        }
    }

    /// A post in review is approved at its second approval; nothing else changes.
    pub open spec fn approved(self) -> PostState {
        match self {
            PostState::PendingReview { current_approval_count } => if current_approval_count < 1 {
                PostState::PendingReview {
                    current_approval_count: (current_approval_count + 1) as u8,
                }
            } else {
                PostState::Approved
            },
            other => other,
        }
    }

    /// A post in review goes back to being a draft; nothing else changes.
    pub open spec fn rejected(self) -> PostState {
        match self {
            PostState::PendingReview { .. } => PostState::Draft,
            other => other,
        }
    }
}

pub struct Post {
    state: PostState,
    content: String,
}

impl Post {
    pub closed spec fn state(&self) -> PostState {
        self.state
    }

    /// What has been written, whether or not it can be read yet.
    pub closed spec fn written(&self) -> Seq<char> {
        self.content@
    }

    pub fn new() -> (post: Post)
        ensures
            post.state() == PostState::Draft,
            post.written() == Seq::<char>::empty(),
    {
        Post { state: PostState::Draft, content: String::new() }
    }

    /// Writes on, if the post is a draft.
    pub fn add_text(&mut self, text: &str)
        ensures
            final(self).state() == old(self).state(),
            final(self).written() == if old(self).state().can_edit() {
                old(self).written() + text@
            } else {
                old(self).written()
            },
    {
        match self.state {
            PostState::Draft => {
                self.content.append(text);
            },
            _ => {},
        }
    }

    /// What can be read of the post: all of it once it is approved, and
    /// nothing before.
    pub fn content(&self) -> (shown: &str)
        ensures
            shown@ == if self.state() is Approved {
                self.written()
            } else {
                Seq::<char>::empty()
            },
    {
        match self.state {
            PostState::Approved => self.content.as_str(),
            _ => {
                let nothing = "";
                proof {
                    reveal_strlit("");
                }
                nothing
            },
        }
    }

    pub fn request_review(&mut self)
        ensures
            final(self).state() == old(self).state().review_requested(),
            final(self).written() == old(self).written(),
    {
        match self.state {
            PostState::Draft => {
                self.state = PostState::PendingReview { current_approval_count: 0 };
            },
            _ => {},
        }
    }

    pub fn approve(&mut self)
        ensures
            final(self).state() == old(self).state().approved(),
            final(self).written() == old(self).written(),
    {
        match self.state {
            PostState::PendingReview { current_approval_count } => {
                if current_approval_count < 1 {
                    self.state = PostState::PendingReview {
                        current_approval_count: current_approval_count + 1,
                    };
                } else {
                    self.state = PostState::Approved;
                }
            },
            _ => {},
        }
    }

    pub fn reject(&mut self)
        ensures
            final(self).state() == old(self).state().rejected(),
            final(self).written() == old(self).written(),
    {
        match self.state {
            PostState::PendingReview { .. } => {
                self.state = PostState::Draft;
            },
            _ => {},
        }
    }

    /// The name of the state that the post is in.
    pub fn state_name(&self) -> (name: &'static str)
        ensures
            name@ == match self.state() {
                PostState::Draft => "Draft"@,
                PostState::PendingReview { .. } => "PendingReview"@,
                PostState::Approved => "Approved"@,
            },
    {
        match self.state {
            PostState::Draft => "Draft",
            PostState::PendingReview { .. } => "PendingReview",
            PostState::Approved => "Approved",
        }
    }

    /// What has been written, whether or not it can be read yet.
    pub fn draft_text(&self) -> (text: &str)
        ensures
            text@ == self.written(),
    {
        self.content.as_str()
    }
}

/// Two approvals after a request for review approve a post, wherever it
/// stood; one approval does not approve a draft, and an approval without a
/// request leaves a draft a draft. Only an approved post cannot be written on
/// again after a rejection.
pub proof fn lemma_two_approvals(state: PostState)
    ensures
        state.review_requested().approved().approved() is Approved,
        PostState::Draft.review_requested().approved() == (PostState::PendingReview {
            current_approval_count: 1,
        }),
        PostState::Draft.review_requested().approved().approved() == PostState::Approved,
        PostState::Draft.approved() == PostState::Draft,
        state.rejected().can_edit() <==> !(state is Approved),
{
}

} // verus!
