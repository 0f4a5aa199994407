//! One exchange with the completion service: the request built from the
//! history, and what is done with the answer.

use crate::chat::request::{Request, RequestView};
use crate::chat::response::{Response, ResponseView};
use crate::chat::{appended, retained, Data, Message, MessageView, Role};
use vstd::prelude::*;

verus! {

/// Why a chat command failed.
#[derive(Clone, Copy, Debug, PartialEq, Eq, Structural)]
pub enum ChatError {
    /// The completion service could not be reached, or did not answer in time.
    UpstreamTransport,
    /// The completion service answered without success: another status than
    /// 2xx, a body that could not be read, or no choice in it.
    UpstreamResponse,
    /// The capacity asked for is no number that a capacity can be.
    InvalidCapacity,
    /// The command does not have the parameters that it takes.
    InvalidParameter,
    /// The history was asked for before it was set up.
    UninitializedStore,
}

/// What came back from one call of the completion service.
#[derive(Debug)]
pub enum Upstream {
    /// No answer: the service was not reached, or the call ran out of time.
    Unreachable,
    /// An answer with HTTP status `status`. `body` is the response read from
    /// it, `None` where the body did not hold one.
    Answered { status: u16, body: Option<Response> },
}

/// What an [`Upstream`] says.
pub ghost enum UpstreamView {
    Unreachable,
    Answered { status: u16, body: Option<ResponseView> },
}

impl View for Upstream {
    type V = UpstreamView;

    open spec fn view(&self) -> UpstreamView {
        match *self {
            Upstream::Unreachable => UpstreamView::Unreachable,
            Upstream::Answered { status, body } => UpstreamView::Answered {
                status,
                body: match body {
                    Some(response) => Some(response@),
                    None => None,
                },
            },
        }
    }
}

/// The history found in `slot`, the place where the running bot keeps it; the
/// failure to report where nothing was put there yet.
pub fn initialized<T>(slot: Option<T>) -> (found: Result<T, ChatError>)
    ensures
        found == match slot {
            Some(store) => Ok::<T, ChatError>(store),
            None => Err::<T, ChatError>(ChatError::UninitializedStore),
        },
{
    match slot {
        Some(store) => Ok(store),
        None => Err(ChatError::UninitializedStore),
    }
}

/// The model that every request asks.
pub const MODEL: &'static str = "gpt-3.5-turbo";

/// The assistant's message that an answer carries, or the reason why it
/// carries none. No answer is a transport failure. A status outside 200..=299,
/// an unreadable body or a body without choices is a response failure.
/// Otherwise the message of the first choice is the reply.
pub open spec fn reply_of(upstream: UpstreamView) -> Result<MessageView, ChatError> {
    match upstream {
        UpstreamView::Unreachable => Err(ChatError::UpstreamTransport),
        UpstreamView::Answered { status, body } => match body {
            Some(response) => if 200 <= status < 300 && response.choices.len() > 0 {
                Ok(response.choices[0].message)
            } else {
                Err(ChatError::UpstreamResponse)
            },
            None => Err(ChatError::UpstreamResponse),
        },
    }
}

/// The new message of `role` with text `content`, and the request that asks
/// for its completion: `histories` in order, then the new message.
pub fn chat_request(histories: &[Message], role: Role, content: &str) -> (prepared: (
    Message,
    Request,
))
    ensures
        prepared.0@ == (MessageView { role, content: content@ }),
        prepared.1@ == (RequestView {
            model: MODEL@,
            messages: histories.deep_view().push(prepared.0@),
        }),
{
    let message = Message { role, content: content.to_owned() };
    let mut messages: Vec<Message> = Vec::new();
    let mut i: usize = 0;
    while i < histories.len()
        invariant
            i <= histories.len(),
            messages@ == histories@.take(i as int),
        decreases histories.len() - i,
    {
        messages.push(histories[i].clone());
        i = i + 1;
    }
    messages.push(message.clone());
    let request = Request { model: MODEL.to_owned(), messages };
    assert(request.messages.deep_view() =~= histories.deep_view().push(message@));
    (message, request)
}

/// Reads the assistant's message out of what the service sent back.
pub fn chat_reply(upstream: &Upstream) -> (reply: Result<Message, ChatError>)
    ensures
        match reply {
            Ok(message) => reply_of(upstream@) == Ok::<MessageView, ChatError>(message@),
            Err(failure) => reply_of(upstream@) == Err::<MessageView, ChatError>(failure),
        },
{
    match upstream {
        Upstream::Unreachable => Err(ChatError::UpstreamTransport),
        Upstream::Answered { status, body } => match body {
            Some(response) => {
                if 200 <= *status && *status < 300 && response.choices.len() > 0 {
                    Ok(response.choices[0].message.clone())
                } else {
                    Err(ChatError::UpstreamResponse)
                }
            },
            None => Err(ChatError::UpstreamResponse),
        },
    }
}

/// Starts an exchange: copies the history held by `data` and builds, from the
/// copy, the new message and the request to send.
pub fn open_exchange(data: &Data, role: Role, content: &str) -> (prepared: (Message, Request))
    ensures
        prepared.0@ == (MessageView { role, content: content@ }),
        prepared.1@ == (RequestView { model: MODEL@, messages: data@.push(prepared.0@) }),
{
    let histories = data.histories();
    chat_request(histories.as_slice(), role, content)
}

/// Ends an exchange. Where `upstream` carries a reply, two messages are
/// appended to the history, `request` and then the reply, and the reply's
/// text is returned as it came. Where it carries none, the history stays as
/// it is and the failure is returned.
pub fn commit_exchange(data: &mut Data, request: Message, upstream: &Upstream) -> (outcome: Result<
    String,
    ChatError,
>)
    ensures
        final(data).capacity() == old(data).capacity(),
        match reply_of(upstream@) {
            Ok(reply) => {
                &&& outcome matches Ok(text)
                &&& text@ == reply.content
                &&& final(data)@ == appended(
                    appended(old(data)@, old(data).capacity(), request@),
                    old(data).capacity(),
                    reply,
                )
            },
            Err(failure) => {
                &&& outcome == Err::<String, ChatError>(failure)
                &&& final(data)@ == old(data)@
            },
        },
{
    match chat_reply(upstream) {
        Ok(reply) => {
            let text = reply.content.clone();
            data.add_history(request);
            data.add_history(reply);
            Ok(text)
        },
        Err(failure) => Err(failure),
    }
}

/// The capacity of the history, for a report to the user.
pub fn report_capacity(data: &Data) -> (capacity: usize)
    ensures
        capacity == data.capacity(),
{
    data.histsize()
}

/// Sets the capacity of the history to `histsize`, at once, and returns the
/// capacity before and after the call.
pub fn adjust_capacity(data: &mut Data, histsize: usize) -> (change: (usize, usize))
    ensures
        change.0 == old(data).capacity(),
        change.1 == histsize,
        final(data).capacity() == histsize,
        final(data)@ == retained(old(data)@, histsize as nat),
{
    let previous = data.set_histsize(histsize);
    (previous, histsize)
}

} // verus!
