//! Bounded FIFO of pending motion commands for one axis.

use vstd::prelude::*;
use crate::protocol::MotorCommand;

verus! {

/// Commands waiting for admission, oldest first, never more than `capacity`.
pub struct CommandQueue<V, P> {
    items: Vec<MotorCommand<V, P>>,
    capacity: usize,
}

impl<V, P> CommandQueue<V, P> {
    /// The pending commands, oldest first.
    pub closed spec fn items(&self) -> Seq<MotorCommand<V, P>> {
        self.items@
    }

    pub closed spec fn capacity_spec(&self) -> nat {
        self.capacity as nat
    }

    pub closed spec fn wf(&self) -> bool {
        &&& self.capacity > 0
        &&& self.items@.len() <= self.capacity
    }

    pub fn new(capacity: usize) -> (q: Self)
        requires
            capacity > 0,
        ensures
            q.wf(),
            q.items() == Seq::<MotorCommand<V, P>>::empty(),
            q.capacity_spec() == capacity,
    {
        CommandQueue { items: Vec::new(), capacity }
    }

    pub fn capacity(&self) -> (r: usize)
        ensures
            r == self.capacity_spec(),
    {
        self.capacity
    }

    pub fn len(&self) -> (r: usize)
        ensures
            r == self.items().len(),
    {
        self.items.len()
    }

    pub fn is_empty(&self) -> (r: bool)
        ensures
            r <==> self.items().len() == 0,
    {
        self.items.len() == 0
    }

    pub fn is_full(&self) -> (r: bool)
        requires
            self.wf(),
        ensures
            r <==> self.items().len() == self.capacity_spec(),
    {
        self.items.len() >= self.capacity
    }

    /// Appends `cmd` at the back. A `Halt` first discards everything pending and is
    /// always accepted; any other command is handed back when the queue is full.
    pub fn push(&mut self, cmd: MotorCommand<V, P>) -> (r: Result<(), MotorCommand<V, P>>)
        requires
            old(self).wf(),
        ensures
            final(self).wf(),
            final(self).capacity_spec() == old(self).capacity_spec(),
            cmd.is_halt_spec() ==> r is Ok && final(self).items() == seq![cmd],
            !cmd.is_halt_spec() ==> {
                if old(self).items().len() < old(self).capacity_spec() {
                    r is Ok && final(self).items() == old(self).items().push(cmd)
                } else {
                    r == Err::<(), MotorCommand<V, P>>(cmd) && final(self).items() == old(
                        self,
                    ).items()
                }
            },
    {
        if cmd.is_halt() {
            self.items.clear();
            self.items.push(cmd);
            proof {
                assert(self.items@ =~= seq![cmd]);
            }
            Ok(())
        } else if self.items.len() < self.capacity {
            self.items.push(cmd);
            Ok(())
        } else {
            Err(cmd)
        }
    }

    /// The oldest pending command, if any.
    pub fn front(&self) -> (r: Option<&MotorCommand<V, P>>)
        ensures
            self.items().len() == 0 ==> r is None,
            self.items().len() > 0 ==> r == Some(&self.items()[0]),
    {
        if self.items.len() == 0 {
            None
        } else {
            Some(&self.items[0])
        }
    }

    /// Removes and returns the oldest pending command.
    pub fn pop_front(&mut self) -> (r: Option<MotorCommand<V, P>>)
        requires
            old(self).wf(),
        ensures
            final(self).wf(),
            final(self).capacity_spec() == old(self).capacity_spec(),
            old(self).items().len() == 0 ==> r is None && final(self).items() == old(self).items(),
            old(self).items().len() > 0 ==> r == Some(old(self).items()[0]) && final(self).items()
                == old(self).items().drop_first(),
    {
        if self.items.len() == 0 {
            None
        } else {
            let c = self.items.remove(0);
            proof {
                assert(self.items@ =~= old(self).items@.drop_first());
            }
            Some(c)
        }
    }

    /// Discards every pending command.
    pub fn clear(&mut self)
        requires
            old(self).wf(),
        ensures
            final(self).wf(),
            final(self).capacity_spec() == old(self).capacity_spec(),
            final(self).items() == Seq::<MotorCommand<V, P>>::empty(),
    {
        self.items.clear();
        proof {
            assert(self.items@ =~= Seq::<MotorCommand<V, P>>::empty());
        }
    }
}

} // verus!
