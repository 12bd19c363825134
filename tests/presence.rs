use wheel_motion::proto::command_rx::CommandRx;
use wheel_motion::proto::command_tx::CommandTx;
use wheel_motion::proto::motor_rx::Operation;
use wheel_motion::proto::presence::Presence;
use wheel_motion::proto::{command_rx, command_tx, motor_rx, motor_tx, mpu6050_tx};

#[test]
fn presence_flags() {
    let mut p = Presence::new();
    for i in 0..8 {
        assert!(!p.has(i));
    }
    p.insert(3);
    p.insert(7);
    assert!(p.has(3) && p.has(7) && !p.has(0));
    p.remove(3);
    assert!(!p.has(3) && p.has(7));
}

#[test]
fn motor_rx_hazzer() {
    let mut h = motor_rx::_Hazzer::new();
    assert!(!h.target_dist());
    h.set_target_dist();
    h.set_kd();
    assert!(h.target_dist() && h.kd());
    assert!(!h.target_vel() && !h.target_vel_end() && !h.kp() && !h.ki());
    h.clear_target_dist();
    assert!(!h.target_dist() && h.kd());
    let mut h = motor_rx::_Hazzer::default()
        .init_target_vel()
        .init_ki()
        .init_kp()
        .init_target_vel_end();
    assert!(h.target_vel() && h.ki() && h.kp() && h.target_vel_end() && !h.kd());
    h.clear_target_vel();
    h.clear_target_vel_end();
    h.clear_kp();
    h.clear_ki();
    h.clear_kd();
    assert_eq!(h, motor_rx::_Hazzer::new());
    h.set_target_vel();
    h.set_target_vel_end();
    h.set_kp();
    h.set_ki();
    let expected = motor_rx::_Hazzer::new()
        .init_target_vel()
        .init_target_vel_end()
        .init_kp()
        .init_ki();
    assert_eq!(h, expected);
    assert_ne!(h, expected.init_target_dist().init_kd());
}

#[test]
fn motor_tx_hazzer() {
    let mut h = motor_tx::_Hazzer::new().init_intp_pos().init_intp_vel().init_intp_acc();
    h.set_intp_jerk();
    h.set_actual_pos();
    assert!(h.intp_pos() && h.intp_vel() && h.intp_acc() && h.intp_jerk() && h.actual_pos());
    assert!(!h.actual_vel());
    h.set_actual_vel();
    h.clear_intp_pos();
    h.clear_intp_vel();
    h.clear_intp_acc();
    h.clear_intp_jerk();
    h.clear_actual_pos();
    assert!(h.actual_vel() && !h.intp_pos() && !h.actual_pos());
    h.clear_actual_vel();
    assert_eq!(h, motor_tx::_Hazzer::default());
    let h = motor_tx::_Hazzer::new().init_intp_jerk().init_actual_pos().init_actual_vel();
    assert!(h.intp_jerk() && h.actual_pos() && h.actual_vel() && !h.intp_acc());
}

#[test]
fn mpu6050_tx_hazzer() {
    let mut h = mpu6050_tx::_Hazzer::new().init_ax().init_ay().init_az();
    h.set_gx();
    h.set_gy();
    h.set_gz();
    assert!(h.ax() && h.ay() && h.az() && h.gx() && h.gy() && h.gz());
    h.clear_ax();
    h.clear_ay();
    h.clear_az();
    h.clear_gx();
    h.clear_gy();
    assert!(!h.ax() && !h.gy() && h.gz());
    h.clear_gz();
    assert_eq!(h, mpu6050_tx::_Hazzer::default());
    let h = mpu6050_tx::_Hazzer::new().init_gx().init_gy().init_gz();
    assert!(h.gx() && h.gy() && h.gz() && !h.ax());
}

#[test]
fn command_hazzers() {
    let mut h = command_rx::_Hazzer::new().init_left_motor();
    assert!(h.left_motor() && !h.right_motor());
    h.set_right_motor();
    h.clear_left_motor();
    assert!(!h.left_motor() && h.right_motor());
    h.clear_right_motor();
    assert_eq!(h, command_rx::_Hazzer::default());
    assert_eq!(
        command_rx::_Hazzer::new().init_right_motor().init_left_motor(),
        command_rx::_Hazzer::new().init_left_motor().init_right_motor()
    );

    let mut t = command_tx::_Hazzer::new().init_mpu6050().init_left_motor();
    assert!(t.mpu6050() && t.left_motor() && !t.right_motor());
    t.set_right_motor();
    t.set_mpu6050();
    t.clear_mpu6050();
    t.clear_left_motor();
    assert!(!t.mpu6050() && !t.left_motor() && t.right_motor());
    t.clear_right_motor();
    t.set_left_motor();
    assert_eq!(t, command_tx::_Hazzer::default().init_left_motor());
    assert!(command_tx::_Hazzer::new().init_right_motor().right_motor());
}

#[test]
fn command_rx_fields() {
    let mut c: CommandRx<i32> = CommandRx::with_values(1, 2);
    assert_eq!(c.left_motor(), None);
    assert_eq!(c.right_motor(), None);
    c.set_left_motor(10);
    assert_eq!(c.left_motor(), Some(&10));
    assert_eq!(c.right_motor(), None);
    c.set_right_motor(20);
    assert_eq!(c.right_motor(), Some(&20));
    c.clear_left_motor();
    assert_eq!(c.left_motor(), None);
    c.clear_right_motor();
    assert_eq!(c.right_motor(), None);
    assert_eq!((c.left_motor, c.right_motor), (10, 20));
}

#[test]
fn command_tx_fields() {
    let mut c: CommandTx<i32, u8> = CommandTx::with_values(1, 2, 3);
    assert_eq!(c.mpu6050(), None);
    c.set_mpu6050(30);
    c.set_left_motor(10);
    c.set_right_motor(20);
    assert_eq!(c.left_motor(), Some(&10));
    assert_eq!(c.right_motor(), Some(&20));
    assert_eq!(c.mpu6050(), Some(&30));
    c.clear_mpu6050();
    c.clear_left_motor();
    c.clear_right_motor();
    assert_eq!((c.left_motor(), c.right_motor(), c.mpu6050()), (None, None, None));
}

#[test]
fn operations() {
    assert_eq!(Operation::default(), Operation::unspecified());
    assert_eq!(Operation::from(5), Operation::stop());
    assert_eq!(Operation::intp_pos().0, 1);
    assert_eq!(Operation::intp_vel().0, 2);
    assert_eq!(Operation::pid_vel().0, 3);
    assert_eq!(Operation::pid_tune().0, 4);
}
