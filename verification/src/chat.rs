//! The conversation history and the exchange with the completion service.

pub mod command;
pub mod exchange;
pub mod request;
pub mod response;

pub use command::{
    histsize_change_line, histsize_command, histsize_line, parse_histsize, report_histsize,
    report_histsize_change, HistsizeCommand,
};
pub use exchange::{
    adjust_capacity, chat_reply, chat_request, commit_exchange, initialized, open_exchange,
    reply_of, report_capacity, ChatError, Upstream, UpstreamView, MODEL,
};
pub use request::{Request, RequestView};
pub use response::{Choice, ChoiceView, Response, ResponseView, Usage};
use std::collections::VecDeque;
use vstd::prelude::*;

verus! {

/// Who authored a message of the conversation.
#[derive(Clone, Copy, Debug, PartialEq, Eq, Structural)]
pub enum Role {
    User,
    System,
    Assistant,
}

/// One message of the conversation.
#[derive(Debug)]
pub struct Message {
    pub role: Role,
    pub content: String,
}

/// What a [`Message`] says: its author and its text as a sequence of characters.
pub ghost struct MessageView {
    pub role: Role,
    pub content: Seq<char>,
}

impl View for Message {
    type V = MessageView;

    open spec fn view(&self) -> MessageView {
        MessageView { role: self.role, content: self.content@ }
    }
}

impl DeepView for Message {
    type V = MessageView;

    open spec fn deep_view(&self) -> MessageView {
        self@
    }
}

impl Clone for Message {
    fn clone(&self) -> (copy: Self)
        ensures
            copy == *self,
    {
        Message { role: self.role, content: self.content.clone() }
    }
}

impl PartialEq for Message {
    fn eq(&self, other: &Self) -> (equal: bool) {
        self.role == other.role && self.content == other.content
    }
}

impl vstd::std_specs::cmp::PartialEqSpecImpl for Message {
    open spec fn obeys_eq_spec() -> bool {
        true
    }

    open spec fn eq_spec(&self, other: &Self) -> bool {
        self@ == other@
    }
}

/// The last `capacity` elements of `s`, in their order; all of `s` where it
/// holds no more than that.
pub open spec fn retained<T>(s: Seq<T>, capacity: nat) -> Seq<T> {
    if s.len() <= capacity {
        s
    } else {
        s.skip(s.len() - capacity)
    }
}

/// The conversation history: the most recent messages, oldest first, never
/// more of them than its capacity.
#[derive(Debug)]
pub struct Data {
    histories: VecDeque<Message>,
    histsize: usize,
}

impl View for Data {
    type V = Seq<MessageView>;

    closed spec fn view(&self) -> Seq<MessageView> {
        self.histories.deep_view()
    }
}

impl Data {
    #[verifier::type_invariant]
    spec fn bounded(&self) -> bool {
        self.histories@.len() <= self.histsize
    }

    /// The largest number of messages that the history keeps.
    pub closed spec fn capacity(&self) -> nat {
        self.histsize as nat
    }

    /// An empty history that keeps up to `histsize` messages.
    pub fn new(histsize: usize) -> (data: Data)
        ensures
            data@ == Seq::<MessageView>::empty(),
            data.capacity() == histsize,
    {
        Data { histories: VecDeque::new(), histsize }
    }

    /// The capacity: how many messages the history keeps at most.
    pub fn histsize(&self) -> (histsize: usize)
        ensures
            histsize == self.capacity(),
            self@.len() <= histsize,
    {
        proof {
            use_type_invariant(self);
        }
        self.histsize
    }

    /// The number of messages that the history holds now.
    pub fn len(&self) -> (len: usize)
        ensures
            len == self@.len(),
            len <= self.capacity(),
    {
        proof {
            use_type_invariant(self);
        }
        self.histories.len()
    }

    /// Appends `history` as the newest message. Where the history is full, the
    /// oldest message leaves to make room; with capacity 0 nothing is ever
    /// kept.
    pub fn add_history(&mut self, history: Message)
        ensures
            final(self)@ == appended(old(self)@, old(self).capacity(), history@),
            final(self).capacity() == old(self).capacity(),
            final(self)@.len() <= final(self).capacity(),
    {
        proof {
            use_type_invariant(&*self);
        }
        if self.histsize == 0 {
            return ;
        }
        let mut queue: VecDeque<Message> = VecDeque::new();
        std::mem::swap(&mut self.histories, &mut queue);
        if queue.len() >= self.histsize {
            let _ = queue.pop_front();
        }
        queue.push_back(history);
        std::mem::swap(&mut self.histories, &mut queue);
    }

    /// A snapshot of the history: a copy of the messages held, oldest first.
    /// The copy is the caller's own; what happens to the history later does
    /// not reach it.
    pub fn histories(&self) -> (copy: Vec<Message>)
        ensures
            copy.deep_view() == self@,
    {
        let mut copy: Vec<Message> = Vec::new();
        let mut i: usize = 0;
        while i < self.histories.len()
            invariant
                i <= self.histories.len(),
                copy@ == self.histories@.take(i as int),
            decreases self.histories.len() - i,
        {
            copy.push(self.histories[i].clone());
            i = i + 1;
        }
        copy
    }

    /// Sets the capacity to `histsize` and returns the capacity before the
    /// call. Where the history holds more than `histsize` messages, the oldest
    /// leave at once.
    pub fn set_histsize(&mut self, histsize: usize) -> (previous: usize)
        ensures
            previous == old(self).capacity(),
            final(self).capacity() == histsize,
            final(self)@ == retained(old(self)@, histsize as nat),
            final(self)@.len() <= histsize,
    {
        proof {
            use_type_invariant(&*self);
        }
        let previous = self.histsize;
        let mut queue: VecDeque<Message> = VecDeque::new();
        std::mem::swap(&mut self.histories, &mut queue);
        while queue.len() > histsize
            invariant
                queue@.len() <= old(self).histories@.len(),
                queue@ == old(self).histories@.skip(old(self).histories@.len() - queue@.len()),
                queue@.len() >= histsize || queue@ == old(self).histories@,
            decreases queue@.len(),
        {
            let _ = queue.pop_front();
        }
        self.histsize = histsize;
        std::mem::swap(&mut self.histories, &mut queue);
        previous
    }
}

impl Default for Data {
    /// An empty history of capacity 0.
    fn default() -> (data: Data)
        ensures
            data@ == Seq::<MessageView>::empty(),
            data.capacity() == 0,
    {
        Data::new(0)
    }
}

/// What an append leaves of `s` under `capacity`: `last` added at the end,
/// and of that the most recent `capacity` elements.
pub open spec fn appended<T>(s: Seq<T>, capacity: nat, last: T) -> Seq<T> {
    retained(s.push(last), capacity)
}

/// What `s` becomes under `capacity` when the elements of `added` are
/// appended one after the other.
pub open spec fn after_appends<T>(s: Seq<T>, capacity: nat, added: Seq<T>) -> Seq<T>
    decreases added.len(),
{
    if added.len() == 0 {
        s
    } else {
        appended(after_appends(s, capacity, added.drop_last()), capacity, added.last())
    }
}

/// Keeping the last `capacity` elements before an append changes nothing of
/// what is kept after it. So two appends in a row leave the most recent
/// `capacity` of what was held and the two new elements.
pub proof fn lemma_retained_push<T>(s: Seq<T>, last: T, capacity: nat)
    ensures
        appended(retained(s, capacity), capacity, last) == appended(s, capacity, last),
        forall|first: T|
            appended(#[trigger] appended(s, capacity, first), capacity, last) == retained(
                s.push(first).push(last),
                capacity,
            ),
{
}

/// However many messages are appended, and whichever, the history never holds
/// more than its capacity, and it holds exactly the most recent `capacity` of
/// what it held before and what was appended since, in the order of arrival.
pub proof fn lemma_appends_keep_most_recent<T>(s: Seq<T>, capacity: nat, added: Seq<T>)
    requires
        s.len() <= capacity,
    ensures
        after_appends(s, capacity, added).len() <= capacity,
        after_appends(s, capacity, added) == retained(s + added, capacity),
    decreases added.len(),
{
    if added.len() > 0 {
        let before = added.drop_last();
        lemma_appends_keep_most_recent(s, capacity, before);
        lemma_retained_push(s + before, added.last(), capacity);
    }
}

/// With capacity 0 nothing is kept: setting the capacity to 0 empties the
/// history, and every append to such a history leaves it empty.
pub proof fn lemma_zero_capacity_keeps_nothing<T>(s: Seq<T>, last: T)
    ensures
        retained(s, 0) == Seq::<T>::empty(),
        appended(s, 0, last) == Seq::<T>::empty(),
{
}

/// Raising the capacity brings nothing back. A history within its capacity
/// keeps its contents when the capacity grows; so what left when the capacity
/// shrank to `smaller` is still gone after it grows to `larger`.
pub proof fn lemma_growing_restores_nothing<T>(s: Seq<T>, smaller: nat, larger: nat)
    requires
        smaller <= larger,
    ensures
        s.len() <= smaller ==> retained(s, larger) == s,
        retained(retained(s, smaller), larger) == retained(s, smaller),
{
}

} // verus!
