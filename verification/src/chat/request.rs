//! The body sent to the completion service.

use crate::chat::{Message, MessageView};
use vstd::prelude::*;

verus! {

/// A completion request: the model asked, and the conversation so far with
/// the new message last.
#[derive(Debug, PartialEq)]
pub struct Request {
    pub model: String,
    pub messages: Vec<Message>,
}

/// What a [`Request`] says.
pub ghost struct RequestView {
    pub model: Seq<char>,
    pub messages: Seq<MessageView>,
}

impl View for Request {
    type V = RequestView;

    open spec fn view(&self) -> RequestView {
        RequestView { model: self.model@, messages: self.messages.deep_view() }
    }
}

impl Clone for Request {
    fn clone(&self) -> (copy: Self)
        ensures
            copy@ == self@,
    {
        Request { model: self.model.clone(), messages: self.messages.clone() }
    }
}

} // verus!
