use wheel_motion::host_queue::CommandRxQueue;
use wheel_motion::command_queue::CommandQueue;
use wheel_motion::protocol::{
    admission_result, merge_results, AxisSet, CommandError, ControlMode, MotorCommand, MotorId,
};

type Cmd = MotorCommand<i32, (i32, i32)>;

#[test]
fn axis_sets() {
    let e = AxisSet::empty();
    assert!(e.is_empty());
    let l = AxisSet::single(MotorId::Left);
    let r = AxisSet::single(MotorId::Right);
    assert!(l.contains(MotorId::Left) && !l.contains(MotorId::Right));
    assert!(r.contains(MotorId::Right) && !r.contains(MotorId::Left));
    let both = l.union(&r);
    assert!(both.contains(MotorId::Left) && both.contains(MotorId::Right));
    assert!(!both.is_empty());
}

#[test]
fn default_control_mode_is_velocity() {
    assert_eq!(ControlMode::default(), ControlMode::Velocity);
}

#[test]
fn admission_always_accepts_halt() {
    let halt: Cmd = MotorCommand::Halt;
    assert_eq!(admission_result(MotorId::Left, &halt, true), Ok(()));
    assert_eq!(admission_result(MotorId::Left, &halt, false), Ok(()));
}

#[test]
fn admission_refuses_when_full_naming_the_axis() {
    let v: Cmd = MotorCommand::VelocityCommand(5);
    let p: Cmd = MotorCommand::PositionCommand((1, 2));
    assert_eq!(admission_result(MotorId::Right, &v, false), Ok(()));
    assert_eq!(admission_result(MotorId::Right, &p, false), Ok(()));
    assert_eq!(
        admission_result(MotorId::Right, &p, true),
        Err(CommandError::BufferFull(AxisSet::single(MotorId::Right)))
    );
    assert_eq!(
        admission_result(MotorId::Left, &v, true),
        Err(CommandError::BufferFull(AxisSet::single(MotorId::Left)))
    );
}

#[test]
fn merged_results_name_every_refused_axis() {
    let l = Err(CommandError::BufferFull(AxisSet::single(MotorId::Left)));
    let r = Err(CommandError::BufferFull(AxisSet::single(MotorId::Right)));
    assert_eq!(merge_results(Ok(()), Ok(())), Ok(()));
    assert_eq!(merge_results(l, Ok(())), l);
    assert_eq!(merge_results(Ok(()), r), r);
    assert_eq!(
        merge_results(l, r),
        Err(CommandError::BufferFull(AxisSet { left: true, right: true }))
    );
}

#[test]
fn command_queue_is_bounded_fifo() {
    let mut q: CommandQueue<i32, (i32, i32)> = CommandQueue::new(2);
    assert!(q.is_empty());
    assert_eq!(q.capacity(), 2);
    assert_eq!(q.push(MotorCommand::VelocityCommand(1)), Ok(()));
    assert_eq!(q.push(MotorCommand::PositionCommand((2, 3))), Ok(()));
    assert!(q.is_full());
    assert_eq!(q.push(MotorCommand::VelocityCommand(4)), Err(MotorCommand::VelocityCommand(4)));
    assert_eq!(q.front(), Some(&MotorCommand::VelocityCommand(1)));
    assert_eq!(q.pop_front(), Some(MotorCommand::VelocityCommand(1)));
    assert_eq!(q.pop_front(), Some(MotorCommand::PositionCommand((2, 3))));
    assert_eq!(q.pop_front(), None);
    assert_eq!(q.len(), 0);
}

#[test]
fn command_queue_halt_clears_pending() {
    let mut q: CommandQueue<i32, (i32, i32)> = CommandQueue::new(3);
    q.push(MotorCommand::VelocityCommand(1)).unwrap();
    q.push(MotorCommand::VelocityCommand(2)).unwrap();
    q.push(MotorCommand::VelocityCommand(3)).unwrap();
    assert_eq!(q.push(MotorCommand::Halt), Ok(()));
    assert_eq!(q.len(), 1);
    assert!(q.front().unwrap().is_halt());
    q.clear();
    assert!(q.is_empty());
}

#[test]
fn host_queue_abort_leaves_only_stop() {
    let mut q: CommandRxQueue<&str> = CommandRxQueue::new();
    assert!(q.is_empty());
    q.send("a");
    q.send("b");
    assert_eq!(q.process(), Some("a"));
    q.send("c");
    q.abort("stop");
    assert_eq!(q.process(), Some("stop"));
    assert_eq!(q.process(), None);
    q.send("d");
    q.reset();
    assert!(q.is_empty());
}
