//! Command sequencing for a motorized wheel axis, and the pieces around it.
//!
//! - [`motion`]: the per-axis state machine that admits queued commands against
//!   trajectory readiness and runs the cooperative halt sequence.
//! - [`command_queue`], [`protocol`]: the bounded command queue and the messages
//!   and admission answers of the command interface.
//! - [`trajectory`], [`tuning`], [`ring_buffer`], [`drive`], [`encoder`]: the
//!   integer decisions of the trajectory, auto-tuning, motor output and sensing.
//! - [`packet`], [`proto`], [`command_parser`], [`mode_switch`], [`host_queue`]:
//!   framing and message presence on the serial link, and host-side helpers.

pub mod command_parser;
pub mod command_queue;
pub mod drive;
pub mod encoder;
pub mod host_queue;
pub mod mode_switch;
pub mod motion;
pub mod packet;
pub mod proto;
pub mod protocol;
pub mod ring_buffer;
pub mod trajectory;
pub mod tuning;
