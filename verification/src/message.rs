//! The message that is relayed.

use vstd::prelude::*;

verus! {

/// What a `Message` holds, as mathematical text.
pub struct MessageView {
    pub user: Seq<char>,
    pub text: Seq<char>,
}

/// One posted message: who sent it and what it says. Neither field is
/// constrained. A message is never changed once it is published; a
/// subscriber gets a copy of its own.
#[derive(Debug, PartialEq, Eq)]
pub struct Message {
    pub user: String,
    pub text: String,
}

impl View for Message {
    type V = MessageView;

    open spec fn view(&self) -> MessageView {
        MessageView { user: self.user@, text: self.text@ }
    }
}

impl Message {
    /// A message from `user` that says `text`.
    pub fn new(user: String, text: String) -> (msg: Message)
        ensures
            msg@ == (MessageView { user: user@, text: text@ }),
            msg.user == user,
            msg.text == text,
    {
        Message { user, text }
    }
}

impl Clone for Message {
    /// An independent copy with the same fields.
    fn clone(&self) -> (copy: Message)
        ensures
            copy == *self,
            copy@ == self@,
    {
        Message { user: self.user.clone(), text: self.text.clone() }
    }
}

} // verus!
