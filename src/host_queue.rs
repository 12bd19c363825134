//! Host-side queue of outgoing command messages. Aborting drops everything that
//! was not sent yet and leaves only a stop message.

use vstd::prelude::*;

verus! {

/// Outgoing messages, oldest first.
pub struct CommandRxQueue<C> {
    queue: Vec<C>,
}

impl<C> View for CommandRxQueue<C> {
    type V = Seq<C>;

    closed spec fn view(&self) -> Seq<C> {
        self.queue@
    }
}

impl<C> CommandRxQueue<C> {
    pub fn new() -> (r: Self)
        ensures
            r@ == Seq::<C>::empty(),
    {
        CommandRxQueue { queue: Vec::new() }
    }

    /// Queues `command` behind the others.
    pub fn send(&mut self, command: C)
        ensures
            final(self)@ == old(self)@.push(command),
    {
        self.queue.push(command);
    }

    /// Drops every queued message and queues `stop_command` alone.
    pub fn abort(&mut self, stop_command: C)
        ensures
            final(self)@ == seq![stop_command],
    {
        self.queue.clear();
        self.queue.push(stop_command);
        proof {
            assert(self.queue@ =~= seq![stop_command]);
        }
    }

    /// Drops every queued message.
    pub fn reset(&mut self)
        ensures
            final(self)@ == Seq::<C>::empty(),
    {
        self.queue.clear();
        proof {
            assert(self.queue@ =~= Seq::<C>::empty());
        }
    }

    pub fn is_empty(&self) -> (r: bool)
        ensures
            r <==> self@.len() == 0,
    {
        self.queue.len() == 0
    }

    /// Takes the oldest message, if any; the caller waits for one otherwise.
    pub fn process(&mut self) -> (r: Option<C>)
        ensures
            old(self)@.len() == 0 ==> r is None && final(self)@ == old(self)@,
            old(self)@.len() > 0 ==> r == Some(old(self)@[0]) && final(self)@ == old(
                self,
            )@.drop_first(),
    {
        if self.queue.len() == 0 {
            None
        } else {
            let c = self.queue.remove(0);
            proof {
                assert(self.queue@ =~= old(self)@.drop_first());
            }
            Some(c)
        }
    }
}

} // verus!
