//! The error queue: messages shown for a while, oldest first.

use vstd::prelude::*;
use std::collections::VecDeque;

verus! {

/// How long a message stays in the queue, in milliseconds.
pub const ERROR_LIFETIME_MILLIS: u64 = 4000;

/// `queue` after the oldest message has expired; an empty queue stays empty.
pub open spec fn expired(queue: Seq<Seq<char>>) -> Seq<Seq<char>> {
    if queue.len() == 0 {
        queue
    } else {
        queue.drop_first()
    }
}

/// `queue` after `n` expiries.
pub open spec fn expired_times(queue: Seq<Seq<char>>, n: nat) -> Seq<Seq<char>>
    decreases n,
{
    if n == 0 {
        queue
    } else {
        expired(expired_times(queue, (n - 1) as nat))
    }
}

/// The messages on display, in the order in which they arrived.
pub struct ErrorQueue {
    messages: VecDeque<String>,
}

impl View for ErrorQueue {
    type V = Seq<Seq<char>>;

    closed spec fn view(&self) -> Seq<Seq<char>> {
        self.messages@.map_values(|m: String| m@)
    }
}

impl ErrorQueue {
    /// An empty queue.
    pub fn new() -> (q: Self)
        ensures
            q@ == Seq::<Seq<char>>::empty(),
    {
        let q = ErrorQueue { messages: VecDeque::new() };
        assert(q@ =~= Seq::<Seq<char>>::empty());
        q
    }

    /// The number of messages on display.
    pub fn len(&self) -> (n: usize)
        ensures
            n == self@.len(),
    {
        self.messages.len()
    }

    /// The message at position `i`, the oldest being at 0.
    pub fn get(&self, i: usize) -> (m: &String)
        requires
            i < self@.len(),
        ensures
            m@ == self@[i as int],
    {
        &self.messages[i]
    }

    /// Appends a message at the tail.
    pub fn push(&mut self, message: String)
        ensures
            final(self)@ == old(self)@.push(message@),
    {
        self.messages.push_back(message);
        assert(final(self)@ =~= old(self)@.push(message@));
    }

    /// Removes the message at the head, if there is one.
    pub fn pop_oldest(&mut self)
        ensures
            final(self)@ == expired(old(self)@),
    {
        let _ = self.messages.pop_front();
        assert(final(self)@ =~= expired(old(self)@));
    }
}

} // verus!
