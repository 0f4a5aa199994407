//! The body that the completion service answers with.

use crate::chat::{Message, MessageView};
use vstd::prelude::*;

verus! {

/// The token counts of one call.
#[derive(Debug, Clone, Copy, PartialEq, Eq, Structural)]
pub struct Usage {
    pub prompt_tokens: u32,
    pub completion_tokens: u32,
    pub total_tokens: u32,
}

/// One completion offered by the service.
#[derive(Debug, PartialEq)]
pub struct Choice {
    pub index: u32,
    pub message: Message,
    pub finish_reason: String,
}

/// What a [`Choice`] says.
pub ghost struct ChoiceView {
    pub index: u32,
    pub message: MessageView,
    pub finish_reason: Seq<char>,
}

impl View for Choice {
    type V = ChoiceView;

    open spec fn view(&self) -> ChoiceView {
        ChoiceView {
            index: self.index,
            message: self.message@,
            finish_reason: self.finish_reason@,
        }
    }
}

impl DeepView for Choice {
    type V = ChoiceView;

    open spec fn deep_view(&self) -> ChoiceView {
        self@
    }
}

impl Clone for Choice {
    fn clone(&self) -> (copy: Self)
        ensures
            copy == *self,
    {
        Choice {
            index: self.index,
            message: self.message.clone(),
            finish_reason: self.finish_reason.clone(),
        }
    }
}

/// A completion response.
#[derive(Debug, PartialEq)]
pub struct Response {
    pub id: String,
    pub object: String,
    pub created: u32,
    pub choices: Vec<Choice>,
    pub usage: Usage,
}

/// What a [`Response`] says.
pub ghost struct ResponseView {
    pub id: Seq<char>,
    pub object: Seq<char>,
    pub created: u32,
    pub choices: Seq<ChoiceView>,
    pub usage: Usage,
}

impl View for Response {
    type V = ResponseView;

    open spec fn view(&self) -> ResponseView {
        ResponseView {
            id: self.id@,
            object: self.object@,
            created: self.created,
            choices: self.choices.deep_view(),
            usage: self.usage,
        }
    }
}

impl Clone for Response {
    fn clone(&self) -> (copy: Self)
        ensures
            copy@ == self@,
    {
        Response {
            id: self.id.clone(),
            object: self.object.clone(),
            created: self.created,
            choices: self.choices.clone(),
            usage: self.usage,
        }
    }
}

} // verus!
