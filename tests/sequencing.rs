use wheel_motion::motion::{HaltProcessState, Motion, MotionAction};
use wheel_motion::protocol::{CommandError, ControlMode, MotorCommand, MotorId};
use wheel_motion::trajectory::InterpolationStatus;

#[derive(Debug, Clone, Copy, PartialEq)]
struct Target {
    displacement: f32,
    vel_max: f32,
    vel_end: f32,
}

type Cmd = MotorCommand<f32, Target>;

fn target(displacement: f32, vel_max: f32, vel_end: f32) -> Target {
    Target { displacement, vel_max, vel_end }
}

#[test]
fn new_axis_is_idle_in_velocity_mode() {
    let m: Motion<f32, Target> = Motion::new(MotorId::Left, 4);
    assert_eq!(m.control_mode(), ControlMode::Velocity);
    assert_eq!(m.halt_process_state(), HaltProcessState::Idle);
    assert_eq!(m.queue_len(), 0);
    assert!(!m.is_queue_full());
}

#[test]
fn halt_lands_and_clears_a_full_queue() {
    let mut m: Motion<f32, Target> = Motion::new(MotorId::Right, 2);
    assert_eq!(m.submit(Cmd::VelocityCommand(500.0)), Ok(()));
    assert_eq!(m.submit(Cmd::VelocityCommand(-500.0)), Ok(()));
    assert!(m.is_queue_full());
    assert_eq!(m.submit(Cmd::Halt), Ok(()));
    assert_eq!(m.queue_len(), 1);
    assert!(!m.is_queue_full());
    let action = m.admit_command(false);
    assert_eq!(action, MotionAction::StopVelocity);
    assert_eq!(m.queue_len(), 0);
    assert_eq!(m.halt_process_state(), HaltProcessState::Ignite);
}

#[test]
fn full_queue_refuses_position_until_a_slot_frees() {
    let mut m: Motion<f32, Target> = Motion::new(MotorId::Left, 2);
    let p = target(10.0, 300.0, 0.0);
    assert_eq!(m.submit(Cmd::PositionCommand(p)), Ok(()));
    assert_eq!(m.submit(Cmd::PositionCommand(p)), Ok(()));
    let refused = m.submit(Cmd::PositionCommand(p));
    match refused {
        Err(CommandError::BufferFull(axes)) => {
            assert!(axes.contains(MotorId::Left));
            assert!(!axes.contains(MotorId::Right));
        }
        Ok(()) => panic!("a full queue accepted a position command"),
    }
    assert_eq!(m.queue_len(), 2);
    // Velocity mode with the speed settled: the axis is ready and a slot frees.
    let ready = m.ready(InterpolationStatus::Done, true);
    assert!(ready);
    assert_eq!(m.admit_command(ready), MotionAction::StartPosition(p));
    assert_eq!(m.control_mode(), ControlMode::Position);
    assert_eq!(m.submit(Cmd::PositionCommand(p)), Ok(()));
    assert_eq!(m.queue_len(), 2);
}

fn tick(m: &mut Motion<f32, Target>, ready: bool) -> MotionAction<f32, Target> {
    let action = m.admit_command(ready);
    m.process_halt(ready);
    action
}

#[test]
fn halt_sequence_reaches_standstill() {
    let mut m: Motion<f32, Target> = Motion::new(MotorId::Left, 4);
    m.submit(Cmd::VelocityCommand(500.0)).unwrap();
    assert_eq!(tick(&mut m, true), MotionAction::SetVelocity(500.0));
    m.submit(Cmd::PositionCommand(target(1.0, 100.0, 0.0))).unwrap();
    m.submit(Cmd::Halt).unwrap();
    assert_eq!(m.queue_len(), 1);
    // Tick 0: the halt is admitted and ignites; the ignition moves on at once.
    assert_eq!(tick(&mut m, false), MotionAction::StopVelocity);
    assert_eq!(m.halt_process_state(), HaltProcessState::Running);
    // Not ready yet: keeps running, and nothing new is admitted meanwhile.
    m.submit(Cmd::VelocityCommand(100.0)).unwrap();
    assert_eq!(tick(&mut m, false), MotionAction::Nothing);
    assert_eq!(m.halt_process_state(), HaltProcessState::Running);
    assert_eq!(m.queue_len(), 1);
    assert_eq!(tick(&mut m, true), MotionAction::Nothing);
    assert_eq!(m.halt_process_state(), HaltProcessState::Finished);
    assert_eq!(m.control_mode(), ControlMode::Velocity);
    assert_eq!(tick(&mut m, true), MotionAction::Nothing);
    assert_eq!(m.halt_process_state(), HaltProcessState::Idle);
    assert_eq!(m.control_mode(), ControlMode::StandStill);
    // Standing still, the axis is ready and the waiting command is taken.
    assert!(m.ready(InterpolationStatus::Busy, false));
    assert_eq!(tick(&mut m, true), MotionAction::SetVelocity(100.0));
}

#[test]
fn halt_in_position_mode_stops_the_trajectory() {
    let mut m: Motion<f32, Target> = Motion::new(MotorId::Right, 3);
    let p = target(10.0, 300.0, 0.0);
    m.submit(Cmd::PositionCommand(p)).unwrap();
    assert_eq!(tick(&mut m, true), MotionAction::StartPosition(p));
    m.submit(Cmd::Halt).unwrap();
    assert_eq!(m.admit_command(false), MotionAction::StopTrajectory);
    assert_eq!(m.control_mode(), ControlMode::Position);
}

#[test]
fn halt_at_standstill_moves_nothing() {
    let mut m: Motion<f32, Target> = Motion::new(MotorId::Right, 3);
    m.submit(Cmd::Halt).unwrap();
    tick(&mut m, true);
    tick(&mut m, true);
    tick(&mut m, true);
    assert_eq!(m.control_mode(), ControlMode::StandStill);
    m.submit(Cmd::Halt).unwrap();
    assert_eq!(m.admit_command(true), MotionAction::HaltAtStandStill);
}

#[test]
fn position_command_waits_while_not_ready() {
    let mut m: Motion<f32, Target> = Motion::new(MotorId::Left, 3);
    let p = target(10.0, 300.0, 0.0);
    let q = target(-2.0, 100.0, 0.0);
    m.submit(Cmd::PositionCommand(p)).unwrap();
    m.submit(Cmd::PositionCommand(q)).unwrap();
    // Velocity mode, speed not settled: not ready.
    let ready = m.ready(InterpolationStatus::Done, false);
    assert!(!ready);
    assert_eq!(m.admit_command(ready), MotionAction::Nothing);
    assert_eq!(m.queue_len(), 2);
    assert_eq!(m.control_mode(), ControlMode::Velocity);
    // Ready: the oldest goes first.
    assert_eq!(m.admit_command(true), MotionAction::StartPosition(p));
    // Position mode, trajectory busy: not ready, the next one waits.
    let ready = m.ready(InterpolationStatus::Busy, true);
    assert!(!ready);
    assert!(m.should_interpolate(InterpolationStatus::Busy));
    assert_eq!(m.admit_command(ready), MotionAction::Nothing);
    let ready = m.ready(InterpolationStatus::Done, false);
    assert!(ready);
    assert!(!m.should_interpolate(InterpolationStatus::Done));
    assert_eq!(m.admit_command(ready), MotionAction::StartPosition(q));
    assert_eq!(m.queue_len(), 0);
}

#[test]
fn velocity_commands_are_taken_without_readiness() {
    let mut m: Motion<f32, Target> = Motion::new(MotorId::Left, 2);
    m.submit(Cmd::VelocityCommand(500.0)).unwrap();
    m.submit(Cmd::VelocityCommand(-500.0)).unwrap();
    assert_eq!(m.admit_command(false), MotionAction::SetVelocity(500.0));
    assert_eq!(m.admit_command(false), MotionAction::SetVelocity(-500.0));
    assert_eq!(m.admit_command(false), MotionAction::Nothing);
    assert!(!m.should_interpolate(InterpolationStatus::Busy));
}

#[test]
fn queue_capacity_two_keeps_latest_and_halt_lands() {
    let mut m: Motion<f32, Target> = Motion::new(MotorId::Left, 2);
    assert_eq!(m.queue_size(), 2);
    assert_eq!(m.submit(Cmd::VelocityCommand(500.0)), Ok(()));
    assert_eq!(m.submit(Cmd::VelocityCommand(-500.0)), Ok(()));
    assert!(m.submit(Cmd::VelocityCommand(100.0)).is_err());
    assert_eq!(m.submit(Cmd::Halt), Ok(()));
    assert_eq!(m.queue_len(), 1);
    assert_eq!(m.id(), MotorId::Left);
}
