//! The message channel: a first-in, first-out queue of messages.

use std::collections::VecDeque;
use vstd::prelude::*;

verus! {

/// A queue of messages between those who produce them and the one who
/// applies them. Messages leave in the order in which they came.
pub struct Channel<M> {
    pending: VecDeque<M>,
}

impl<M> View for Channel<M> {
    type V = Seq<M>;

    /// The pending messages, oldest first.
    closed spec fn view(&self) -> Seq<M> {
        self.pending@
    }
}

impl<M> Channel<M> {
    /// A channel with nothing pending.
    pub fn new() -> (channel: Self)
        ensures
            channel@ == Seq::<M>::empty(),
    {
        Channel { pending: VecDeque::new() }
    }

    /// Puts a message at the tail. Never waits, and never fails: the channel
    /// has no far end that could have gone away.
    pub fn send(&mut self, message: M)
        ensures
            final(self)@ == old(self)@.push(message),
    {
        self.pending.push_back(message);
    }

    /// Takes the oldest pending message, if there is one. Never waits.
    pub fn try_recv(&mut self) -> (message: Option<M>)
        ensures
            match message {
                Some(first) => old(self)@.len() > 0 && first == old(self)@.first() && final(self)@
                    == old(self)@.drop_first(),
                None => old(self)@.len() == 0 && final(self)@ == old(self)@,
            },
    {
        let message = self.pending.pop_front();
        proof {
            if message is Some {
                assert(self@ =~= old(self)@.drop_first());
            }
        }
        message
    }

    /// Takes the oldest pending message. The caller has waited until there
    /// is one.
    pub fn recv(&mut self) -> (message: M)
        requires
            old(self)@.len() > 0,
        ensures
            message == old(self)@.first(),
            final(self)@ == old(self)@.drop_first(),
    {
        let message = self.pending.pop_front();
        proof {
            assert(self@ =~= old(self)@.drop_first());
        }
        message.unwrap()
    }

    /// The number of pending messages.
    pub fn len(&self) -> (count: usize)
        ensures
            count == self@.len(),
    {
        self.pending.len()
    }

    /// Whether nothing is pending.
    pub fn is_empty(&self) -> (empty: bool)
        ensures
            empty == (self@.len() == 0),
    {
        self.pending.len() == 0
    }
}

/// What is left of a queue after `count` messages have been taken.
pub open spec fn after_taking<M>(pending: Seq<M>, count: nat) -> Seq<M>
    decreases count,
{
    if count == 0 || pending.len() == 0 {
        pending
    } else {
        after_taking(pending.drop_first(), (count - 1) as nat)
    }
}

/// First in, first out: when `sent` is put on a queue message by message and
/// as many messages are then taken as were pending before, what is left is
/// `sent`, in the order of sending. So those that were pending before left
/// first, and no message was lost or overtaken.
pub proof fn lemma_first_in_first_out<M>(pending: Seq<M>, sent: Seq<M>)
    ensures
        after_taking(pending + sent, pending.len()) == sent,
    decreases pending.len(),
{
    if pending.len() == 0 {
        assert(pending + sent =~= sent);
    } else {
        assert((pending + sent).drop_first() =~= pending.drop_first() + sent);
        lemma_first_in_first_out(pending.drop_first(), sent);
    }
}

} // verus!
