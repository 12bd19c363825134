//! Presence tracking for the optional fields of the messages of the serial link.
//! Each message keeps one flag per optional field in a byte; field `i` is present
//! when bit `i` is set.

pub mod presence;
pub mod motor_rx;
pub mod motor_tx;
pub mod mpu6050_tx;
pub mod command_rx;
pub mod command_tx;
