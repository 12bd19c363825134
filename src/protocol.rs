//! Messages exchanged between the host and the motion controller.

use vstd::prelude::*;

verus! {

/// Operating mode of one axis.
#[derive(PartialEq, Eq, Structural, Clone, Copy, Debug)]
pub enum ControlMode {
    Position,
    Velocity,
    StandStill,
}

impl Default for ControlMode {
    fn default() -> (r: ControlMode)
        ensures
            r == ControlMode::Velocity,
    {
        ControlMode::Velocity
    }
}

/// Identifier of a physical axis.
#[derive(PartialEq, Eq, Structural, Clone, Copy, Debug)]
pub enum MotorId {
    Left,
    Right,
}

/// A small set of axis identifiers.
#[derive(PartialEq, Eq, Structural, Clone, Copy, Debug)]
pub struct AxisSet {
    pub left: bool,
    pub right: bool,
}

impl AxisSet {
    /// Whether `id` belongs to the set.
    pub open spec fn has(self, id: MotorId) -> bool {
        match id {
            MotorId::Left => self.left,
            MotorId::Right => self.right,
        }
    }

    pub fn empty() -> (r: AxisSet)
        ensures
            forall|id: MotorId| !r.has(id),
    {
        AxisSet { left: false, right: false }
    }

    pub fn single(id: MotorId) -> (r: AxisSet)
        ensures
            forall|other: MotorId| r.has(other) <==> other == id,
    {
        match id {
            MotorId::Left => AxisSet { left: true, right: false },
            MotorId::Right => AxisSet { left: false, right: true },
        }
    }

    pub fn union(&self, other: &AxisSet) -> (r: AxisSet)
        ensures
            forall|id: MotorId| r.has(id) <==> (self.has(id) || other.has(id)),
    {
        AxisSet { left: self.left || other.left, right: self.right || other.right }
    }

    pub fn contains(&self, id: MotorId) -> (r: bool)
        ensures
            r == self.has(id),
    {
        match id {
            MotorId::Left => self.left,
            MotorId::Right => self.right,
        }
    }

    pub fn is_empty(&self) -> (r: bool)
        ensures
            r <==> forall|id: MotorId| !self.has(id),
    {
        proof {
            assert(!self.has(MotorId::Left) ==> !self.left);
            assert(!self.has(MotorId::Right) ==> !self.right);
        }
        !self.left && !self.right
    }
}

/// Why a command was refused.
#[derive(PartialEq, Eq, Structural, Clone, Copy, Debug)]
pub enum CommandError {
    /// The command queue of every axis in the set had no room.
    BufferFull(AxisSet),
}

/// Outcome of handing one command to the controller.
pub type CommandSetResult = Result<(), CommandError>;

/// The axes named by a failed outcome; empty for success.
pub open spec fn failed_axes(r: CommandSetResult) -> AxisSet {
    match r {
        Ok(()) => AxisSet { left: false, right: false },
        Err(CommandError::BufferFull(axes)) => axes,
    }
}

/// Combines the outcomes of a request that addressed several axes: it fails when
/// any part failed, naming every axis that was refused.
pub fn merge_results(a: CommandSetResult, b: CommandSetResult) -> (r: CommandSetResult)
    ensures
        r.is_ok() <==> (a.is_ok() && b.is_ok()),
        forall|id: MotorId| failed_axes(r).has(id) <==> (failed_axes(a).has(id) || failed_axes(
            b,
        ).has(id)),
{
    match (a, b) {
        (Ok(()), Ok(())) => Ok(()),
        (Err(CommandError::BufferFull(x)), Ok(())) => Err(CommandError::BufferFull(x)),
        (Ok(()), Err(CommandError::BufferFull(y))) => Err(CommandError::BufferFull(y)),
        (Err(CommandError::BufferFull(x)), Err(CommandError::BufferFull(y))) => Err(
            CommandError::BufferFull(x.union(&y)),
        ),
    }
}

/// A motion request for one axis. The velocity and position payloads are carried
/// through unchanged; their numeric meaning belongs to the trajectory and speed
/// regulator that consume them.
#[derive(PartialEq, Eq, Clone, Copy, Debug)]
pub enum MotorCommand<V, P> {
    Halt,
    VelocityCommand(V),
    PositionCommand(P),
}

impl<V, P> MotorCommand<V, P> {
    pub open spec fn is_halt_spec(&self) -> bool {
        self is Halt
    }

    pub fn is_halt(&self) -> (r: bool)
        ensures
            r == self.is_halt_spec(),
    {
        match self {
            MotorCommand::Halt => true,
            _ => false,
        }
    }
}

/// The answer owed to a request that hands `cmd` to axis `id`, whose queue is
/// full or not: `Halt` always succeeds, any other command fails with `BufferFull`
/// naming exactly that axis when the queue has no room.
pub fn admission_result<V, P>(id: MotorId, cmd: &MotorCommand<V, P>, queue_full: bool) -> (r:
    CommandSetResult)
    ensures
        r is Ok <==> (cmd.is_halt_spec() || !queue_full),
        forall|other: MotorId| failed_axes(r).has(other) <==> (r is Err && other == id),
{
    if cmd.is_halt() || !queue_full {
        Ok(())
    } else {
        Err(CommandError::BufferFull(AxisSet::single(id)))
    }
}

} // verus!
