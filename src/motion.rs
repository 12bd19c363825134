//! The per-axis sequencer: admits queued commands against trajectory readiness,
//! runs the cooperative halt sequence, and decides when the trajectory advances.

use vstd::prelude::*;
use crate::command_queue::CommandQueue;
use crate::protocol::{AxisSet, CommandError, CommandSetResult, ControlMode, MotorCommand, MotorId};
use crate::trajectory::InterpolationStatus;

verus! {

/// Stage of the cooperative stop started by a `Halt` command.
#[derive(PartialEq, Eq, Structural, Clone, Copy, Debug)]
pub enum HaltProcessState {
    Idle,
    Ignite,
    Running,
    Finished,
}

/// What the caller must do to the trajectory and speed regulator after a command
/// has been admitted.
#[derive(PartialEq, Eq, Clone, Copy, Debug)]
pub enum MotionAction<V, P> {
    /// Nothing was admitted.
    Nothing,
    /// A halt was admitted in position mode: bring the trajectory to rest in place.
    StopTrajectory,
    /// A halt was admitted in velocity mode: program a zero target velocity.
    StopVelocity,
    /// A halt was admitted while standing still: nothing moves.
    HaltAtStandStill,
    /// Program this target velocity.
    SetVelocity(V),
    /// Re-arm the trajectory with this position request.
    StartPosition(P),
}

/// Readiness of an axis for the next command in a given mode: the trajectory has
/// finished, the velocity has settled, or the axis stands still.
pub open spec fn ready_spec(mode: ControlMode, status: InterpolationStatus, velocity_settled: bool) -> bool {
    match mode {
        ControlMode::Position => status == InterpolationStatus::Done,
        ControlMode::Velocity => velocity_settled,
        ControlMode::StandStill => true,
    }
}

/// Whether the front command may be taken now, given readiness.
pub open spec fn admissible<V, P>(cmd: MotorCommand<V, P>, ready: bool) -> bool {
    match cmd {
        MotorCommand::PositionCommand(_) => ready,
        _ => true,
    }
}

/// One tick of the halt sequence: Ignite waits one tick, Running lasts until the
/// axis is ready, Finished returns to Idle and leaves the axis standing still.
pub open spec fn halt_step(
    state: HaltProcessState,
    mode: ControlMode,
    ready: bool,
) -> (HaltProcessState, ControlMode) {
    match state {
        HaltProcessState::Idle => (HaltProcessState::Idle, mode),
        HaltProcessState::Ignite => (HaltProcessState::Running, mode),
        HaltProcessState::Running => if ready {
            (HaltProcessState::Finished, mode)
        } else {
            (HaltProcessState::Running, mode)
        },
        HaltProcessState::Finished => (HaltProcessState::Idle, ControlMode::StandStill),
    }
}

/// The action that admitting `cmd` in `mode` calls for.
pub open spec fn action_for<V, P>(cmd: MotorCommand<V, P>, mode: ControlMode) -> MotionAction<V, P> {
    match cmd {
        MotorCommand::Halt => match mode {
            ControlMode::Position => MotionAction::StopTrajectory,
            ControlMode::Velocity => MotionAction::StopVelocity,
            ControlMode::StandStill => MotionAction::HaltAtStandStill,
        },
        MotorCommand::VelocityCommand(v) => MotionAction::SetVelocity(v),
        MotorCommand::PositionCommand(p) => MotionAction::StartPosition(p),
    }
}

/// The mode that admitting `cmd` in `mode` leaves the axis in.
pub open spec fn mode_after<V, P>(cmd: MotorCommand<V, P>, mode: ControlMode) -> ControlMode {
    match cmd {
        MotorCommand::Halt => mode,
        MotorCommand::VelocityCommand(_) => ControlMode::Velocity,
        MotorCommand::PositionCommand(_) => ControlMode::Position,
    }
}

/// The sequencing state of one axis as contracts see it.
pub struct SequencerView<V, P> {
    pub mode: ControlMode,
    pub halt: HaltProcessState,
    pub queue: Seq<MotorCommand<V, P>>,
}

/// The admission step: the front command is taken when no halt sequence runs and
/// it is admissible; the mode follows it, and a `Halt` empties the queue and starts
/// the halt sequence. Otherwise nothing changes.
pub open spec fn admit_step<V, P>(s: SequencerView<V, P>, ready: bool) -> (
    SequencerView<V, P>,
    MotionAction<V, P>,
) {
    if s.queue.len() > 0 && s.halt == HaltProcessState::Idle && admissible(s.queue[0], ready) {
        let cmd = s.queue[0];
        let next = if cmd.is_halt_spec() {
            SequencerView {
                mode: s.mode,
                halt: HaltProcessState::Ignite,
                queue: Seq::<MotorCommand<V, P>>::empty(),
            }
        } else {
            SequencerView {
                mode: mode_after(cmd, s.mode),
                halt: s.halt,
                queue: s.queue.drop_first(),
            }
        };
        (next, action_for(cmd, s.mode))
    } else {
        (s, MotionAction::Nothing)
    }
}

/// The halt sequencing step of a tick.
pub open spec fn halt_tick<V, P>(s: SequencerView<V, P>, ready: bool) -> SequencerView<V, P> {
    let (h, m) = halt_step(s.halt, s.mode, ready);
    SequencerView { mode: m, halt: h, queue: s.queue }
}

/// Handing `cmd` to an axis whose queue holds at most `capacity` commands.
pub open spec fn submit_step<V, P>(
    s: SequencerView<V, P>,
    capacity: nat,
    id: MotorId,
    cmd: MotorCommand<V, P>,
) -> (SequencerView<V, P>, CommandSetResult) {
    if cmd.is_halt_spec() {
        (SequencerView { mode: s.mode, halt: s.halt, queue: seq![cmd] }, Ok(()))
    } else if s.queue.len() < capacity {
        (SequencerView { mode: s.mode, halt: s.halt, queue: s.queue.push(cmd) }, Ok(()))
    } else {
        (
            s,
            Err(
                CommandError::BufferFull(
                    (AxisSet { left: id == MotorId::Left, right: id == MotorId::Right }),
                ),
            ),
        )
    }
}

/// One whole tick of sequencing, with the same readiness seen by both steps.
pub open spec fn tick<V, P>(s: SequencerView<V, P>, ready: bool) -> SequencerView<V, P> {
    halt_tick(admit_step(s, ready).0, ready)
}

/// The state after one tick for each readiness value in turn, with no new commands.
pub open spec fn run_ticks<V, P>(s: SequencerView<V, P>, readies: Seq<bool>) -> SequencerView<
    V,
    P,
>
    decreases readies.len(),
{
    if readies.len() == 0 {
        s
    } else {
        run_ticks(tick(s, readies[0]), readies.drop_first())
    }
}

/// The state an axis settles in once a halt has completed and nothing is pending.
pub open spec fn standstill_view<V, P>() -> SequencerView<V, P> {
    SequencerView {
        mode: ControlMode::StandStill,
        halt: HaltProcessState::Idle,
        queue: Seq::<MotorCommand<V, P>>::empty(),
    }
}

/// Submitting `Halt` always succeeds and leaves no position or velocity command
/// pending: the halt is the only queued entry.
pub proof fn lemma_halt_clears_pending<V, P>(s: SequencerView<V, P>, capacity: nat, id: MotorId)
    ensures
        ({
            let (next, r) = submit_step(s, capacity, id, MotorCommand::Halt);
            &&& r is Ok
            &&& next.queue == seq![MotorCommand::<V, P>::Halt]
            &&& forall|i: int| 0 <= i < next.queue.len() ==> next.queue[i].is_halt_spec()
        }),
{
}

/// With nothing pending, an axis that stands still stays so.
pub proof fn lemma_standstill_is_stable<V, P>(readies: Seq<bool>)
    ensures
        run_ticks(standstill_view::<V, P>(), readies) == standstill_view::<V, P>(),
    decreases readies.len(),
{
    if readies.len() > 0 {
        let s = standstill_view::<V, P>();
        assert(tick(s, readies[0]) == s);
        lemma_standstill_is_stable::<V, P>(readies.drop_first());
    }
}

/// While the halt sequence runs with nothing pending, the axis reaches standstill
/// once readiness is seen on a tick that is not the last one.
pub proof fn lemma_running_halt_finishes<V, P>(mode: ControlMode, readies: Seq<bool>, i: int)
    requires
        0 <= i < readies.len() - 1,
        readies[i],
    ensures
        run_ticks(
            SequencerView {
                mode,
                halt: HaltProcessState::Running,
                queue: Seq::<MotorCommand<V, P>>::empty(),
            },
            readies,
        ) == standstill_view::<V, P>(),
    decreases readies.len(),
{
    let s = SequencerView {
        mode,
        halt: HaltProcessState::Running,
        queue: Seq::<MotorCommand<V, P>>::empty(),
    };
    let rest = readies.drop_first();
    if readies[0] {
        let f = SequencerView {
            mode,
            halt: HaltProcessState::Finished,
            queue: Seq::<MotorCommand<V, P>>::empty(),
        };
        assert(tick(s, readies[0]) == f);
        assert(tick(f, rest[0]) == standstill_view::<V, P>());
        assert(run_ticks(s, readies) == run_ticks(f, rest));
        assert(run_ticks(f, rest) == run_ticks(standstill_view::<V, P>(), rest.drop_first()));
        lemma_standstill_is_stable::<V, P>(rest.drop_first());
    } else {
        assert(tick(s, readies[0]) == s);
        assert(run_ticks(s, readies) == run_ticks(s, rest));
        assert(rest[i - 1]);
        lemma_running_halt_finishes::<V, P>(mode, rest, i - 1);
    }
}

/// Once a `Halt` is the only pending command and no halt sequence runs, the axis
/// reaches standstill with an empty queue, provided it is ready on some tick after
/// the first and before the last.
pub proof fn lemma_halt_reaches_standstill<V, P>(s: SequencerView<V, P>, readies: Seq<bool>, i: int)
    requires
        s.halt == HaltProcessState::Idle,
        s.queue == seq![MotorCommand::<V, P>::Halt],
        1 <= i < readies.len() - 1,
        readies[i],
    ensures
        run_ticks(s, readies) == standstill_view::<V, P>(),
{
    let rest = readies.drop_first();
    let a = admit_step(s, readies[0]).0;
    assert(a.halt == HaltProcessState::Ignite);
    assert(a.queue == Seq::<MotorCommand<V, P>>::empty());
    assert(rest[i - 1]);
    lemma_running_halt_finishes::<V, P>(s.mode, rest, i - 1);
}

/// A position command at the front of the queue is not taken while the axis is not
/// ready or a halt sequence runs: nothing changes.
pub proof fn lemma_position_waits<V, P>(s: SequencerView<V, P>, ready: bool)
    requires
        s.queue.len() > 0,
        s.queue[0] is PositionCommand,
        !ready || s.halt != HaltProcessState::Idle,
    ensures
        admit_step(s, ready) == (s, MotionAction::<V, P>::Nothing),
{
}

/// Apart from `Halt`, commands leave the queue in the order they entered it:
/// submitting appends at the back or, with the queue full, refuses and keeps the
/// queue; admitting takes only the front.
pub proof fn lemma_queue_is_fifo<V, P>(
    s: SequencerView<V, P>,
    capacity: nat,
    id: MotorId,
    cmd: MotorCommand<V, P>,
    ready: bool,
)
    requires
        !cmd.is_halt_spec(),
        s.queue.len() <= capacity,
        s.queue.len() > 0 ==> !s.queue[0].is_halt_spec(),
    ensures
        ({
            let (next, r) = submit_step(s, capacity, id, cmd);
            if s.queue.len() < capacity {
                r is Ok && next.queue == s.queue.push(cmd)
            } else {
                r is Err && next == s
            }
        }),
        ({
            let next = admit_step(s, ready).0;
            next.queue == s.queue || next.queue == s.queue.drop_first()
        }),
{
}

/// Command sequencing state of one axis.
pub struct Motion<V, P> {
    id: MotorId,
    cmd_queue: CommandQueue<V, P>,
    halt_process_state: HaltProcessState,
    control_mode: ControlMode,
}

impl<V, P> View for Motion<V, P> {
    type V = SequencerView<V, P>;

    closed spec fn view(&self) -> SequencerView<V, P> {
        SequencerView {
            mode: self.control_mode,
            halt: self.halt_process_state,
            queue: self.cmd_queue.items(),
        }
    }
}

impl<V, P> Motion<V, P> {
    pub closed spec fn id_spec(&self) -> MotorId {
        self.id
    }

    pub closed spec fn capacity(&self) -> nat {
        self.cmd_queue.capacity_spec()
    }

    pub closed spec fn wf(&self) -> bool {
        self.cmd_queue.wf()
    }

    /// A fresh axis in velocity mode, with no halt in progress and an empty queue
    /// that holds at most `queue_size` commands.
    pub fn new(id: MotorId, queue_size: usize) -> (m: Self)
        requires
            queue_size > 0,
        ensures
            m.wf(),
            m.id_spec() == id,
            m.capacity() == queue_size,
            m@ == (SequencerView {
                mode: ControlMode::Velocity,
                halt: HaltProcessState::Idle,
                queue: Seq::<MotorCommand<V, P>>::empty(),
            }),
    {
        Motion {
            id,
            cmd_queue: CommandQueue::new(queue_size),
            halt_process_state: HaltProcessState::Idle,
            control_mode: ControlMode::Velocity,
        }
    }

    pub fn id(&self) -> (r: MotorId)
        ensures
            r == self.id_spec(),
    {
        self.id
    }

    pub fn control_mode(&self) -> (r: ControlMode)
        ensures
            r == self@.mode,
    {
        self.control_mode
    }

    pub fn halt_process_state(&self) -> (r: HaltProcessState)
        ensures
            r == self@.halt,
    {
        self.halt_process_state
    }

    pub fn queue_len(&self) -> (r: usize)
        ensures
            r == self@.queue.len(),
    {
        self.cmd_queue.len()
    }

    pub fn queue_size(&self) -> (r: usize)
        ensures
            r == self.capacity(),
    {
        self.cmd_queue.capacity()
    }

    /// Flow-control flag for the command source.
    pub fn is_queue_full(&self) -> (r: bool)
        requires
            self.wf(),
        ensures
            r <==> self@.queue.len() == self.capacity(),
    {
        self.cmd_queue.is_full()
    }

    /// Hands a command to the axis. `Halt` always lands, after discarding every
    /// pending command; any other command is refused with `BufferFull` naming this
    /// axis when the queue has no room, and is otherwise appended.
    pub fn submit(&mut self, cmd: MotorCommand<V, P>) -> (r: CommandSetResult)
        requires
            old(self).wf(),
        ensures
            final(self).wf(),
            final(self).id_spec() == old(self).id_spec(),
            final(self).capacity() == old(self).capacity(),
            (final(self)@, r) == submit_step(old(self)@, old(self).capacity(), old(self).id_spec(), cmd),
    {
        match self.cmd_queue.push(cmd) {
            Ok(()) => Ok(()),
            Err(_) => {
                let axes = AxisSet::single(self.id);
                proof {
                    assert(axes.has(MotorId::Left) <==> self.id == MotorId::Left);
                    assert(axes.has(MotorId::Right) <==> self.id == MotorId::Right);
                }
                Err(CommandError::BufferFull(axes))
            },
        }
    }

    /// Readiness for the next command: in position mode the trajectory is done, in
    /// velocity mode the speed error has settled within tolerance, at standstill
    /// always.
    pub fn ready(&self, intp_status: InterpolationStatus, velocity_settled: bool) -> (r: bool)
        ensures
            r == ready_spec(self@.mode, intp_status, velocity_settled),
    {
        match self.control_mode {
            ControlMode::Position => intp_status == InterpolationStatus::Done,
            ControlMode::Velocity => velocity_settled,
            ControlMode::StandStill => true,
        }
    }

    /// Admission step of a tick, as `admit_step` describes.
    pub fn admit_command(&mut self, ready: bool) -> (r: MotionAction<V, P>)
        requires
            old(self).wf(),
        ensures
            final(self).wf(),
            final(self).id_spec() == old(self).id_spec(),
            final(self).capacity() == old(self).capacity(),
            (final(self)@, r) == admit_step(old(self)@, ready),
    {
        let take = match self.cmd_queue.front() {
            None => false,
            Some(cmd) => {
                let ok = match cmd {
                    MotorCommand::PositionCommand(_) => ready,
                    _ => true,
                };
                ok && self.halt_process_state == HaltProcessState::Idle
            },
        };
        if !take {
            return MotionAction::Nothing;
        }
        let cmd = self.cmd_queue.pop_front();
        match cmd {
            None => MotionAction::Nothing,
            Some(MotorCommand::Halt) => {
                self.cmd_queue.clear();
                self.halt_process_state = HaltProcessState::Ignite;
                match self.control_mode {
                    ControlMode::Position => MotionAction::StopTrajectory,
                    ControlMode::Velocity => MotionAction::StopVelocity,
                    ControlMode::StandStill => MotionAction::HaltAtStandStill,
                }
            },
            Some(MotorCommand::VelocityCommand(v)) => {
                self.control_mode = ControlMode::Velocity;
                MotionAction::SetVelocity(v)
            },
            Some(MotorCommand::PositionCommand(p)) => {
                self.control_mode = ControlMode::Position;
                MotionAction::StartPosition(p)
            },
        }
    }

    /// Halt sequencing step of a tick, as `halt_tick` describes.
    pub fn process_halt(&mut self, ready: bool)
        requires
            old(self).wf(),
        ensures
            final(self).wf(),
            final(self).id_spec() == old(self).id_spec(),
            final(self).capacity() == old(self).capacity(),
            final(self)@ == halt_tick(old(self)@, ready),
    {
        match self.halt_process_state {
            HaltProcessState::Ignite => self.halt_process_state = HaltProcessState::Running,
            HaltProcessState::Running => {
                if ready {
                    self.halt_process_state = HaltProcessState::Finished;
                }
            },
            HaltProcessState::Finished => {
                self.halt_process_state = HaltProcessState::Idle;
                self.control_mode = ControlMode::StandStill;
            },
            HaltProcessState::Idle => {},
        }
    }

    /// Whether the trajectory advances this tick: in position mode, until it is done.
    pub fn should_interpolate(&self, intp_status: InterpolationStatus) -> (r: bool)
        ensures
            r <==> (self@.mode == ControlMode::Position && intp_status
                != InterpolationStatus::Done),
    {
        self.control_mode == ControlMode::Position && intp_status != InterpolationStatus::Done
    }
}

} // verus!
