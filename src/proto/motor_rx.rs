//! Field presence of the `MotorRx` message.

use vstd::prelude::*;
use crate::proto::presence::Presence;

verus! {
/// Number of the `target_dist` field.
pub const TARGET_DIST: u8 = 0;
/// Number of the `target_vel` field.
pub const TARGET_VEL: u8 = 1;
/// Number of the `target_vel_end` field.
pub const TARGET_VEL_END: u8 = 2;
/// Number of the `kp` field.
pub const KP: u8 = 3;
/// Number of the `ki` field.
pub const KI: u8 = 4;
/// Number of the `kd` field.
pub const KD: u8 = 5;
/// Which optional fields of a `MotorRx` message are present.
#[derive(PartialEq, Eq, Structural, Clone, Copy, Debug)]
pub struct _Hazzer(Presence);

impl View for _Hazzer {
    type V = Set<int>;

    closed spec fn view(&self) -> Set<int> {
        self.0@
    }
}

impl Default for _Hazzer {
    fn default() -> (r: _Hazzer)
        ensures
            r@ == Set::<int>::empty(),
    {
        _Hazzer(Presence::new())
    }
}

impl _Hazzer {
    /// No field present.
    pub fn new() -> (r: _Hazzer)
        ensures
            r@ == Set::<int>::empty(),
    {
        _Hazzer(Presence::new())
    }

    /// Whether `target_dist` is present.
    pub fn target_dist(&self) -> (r: bool)
        ensures
            r == self@.contains(TARGET_DIST as int),
    {
        self.0.has(TARGET_DIST)
    }

    /// Marks `target_dist` present.
    pub fn set_target_dist(&mut self)
        ensures
            final(self)@ == old(self)@.insert(TARGET_DIST as int),
    {
        self.0.insert(TARGET_DIST);
    }

    /// Marks `target_dist` absent.
    pub fn clear_target_dist(&mut self)
        ensures
            final(self)@ == old(self)@.remove(TARGET_DIST as int),
    {
        self.0.remove(TARGET_DIST);
    }

    /// Builder form of `set_target_dist`.
    pub fn init_target_dist(self) -> (r: _Hazzer)
        ensures
            r@ == self@.insert(TARGET_DIST as int),
    {
        let mut r = self;
        r.set_target_dist();
        r
    }

    /// Whether `target_vel` is present.
    pub fn target_vel(&self) -> (r: bool)
        ensures
            r == self@.contains(TARGET_VEL as int),
    {
        self.0.has(TARGET_VEL)
    }

    /// Marks `target_vel` present.
    pub fn set_target_vel(&mut self)
        ensures
            final(self)@ == old(self)@.insert(TARGET_VEL as int),
    {
        self.0.insert(TARGET_VEL);
    }

    /// Marks `target_vel` absent.
    pub fn clear_target_vel(&mut self)
        ensures
            final(self)@ == old(self)@.remove(TARGET_VEL as int),
    {
        self.0.remove(TARGET_VEL);
    }

    /// Builder form of `set_target_vel`.
    pub fn init_target_vel(self) -> (r: _Hazzer)
        ensures
            r@ == self@.insert(TARGET_VEL as int),
    {
        let mut r = self;
        r.set_target_vel();
        r
    }

    /// Whether `target_vel_end` is present.
    pub fn target_vel_end(&self) -> (r: bool)
        ensures
            r == self@.contains(TARGET_VEL_END as int),
    {
        self.0.has(TARGET_VEL_END)
    }

    /// Marks `target_vel_end` present.
    pub fn set_target_vel_end(&mut self)
        ensures
            final(self)@ == old(self)@.insert(TARGET_VEL_END as int),
    {
        self.0.insert(TARGET_VEL_END);
    }

    /// Marks `target_vel_end` absent.
    pub fn clear_target_vel_end(&mut self)
        ensures
            final(self)@ == old(self)@.remove(TARGET_VEL_END as int),
    {
        self.0.remove(TARGET_VEL_END);
    }

    /// Builder form of `set_target_vel_end`.
    pub fn init_target_vel_end(self) -> (r: _Hazzer)
        ensures
            r@ == self@.insert(TARGET_VEL_END as int),
    {
        let mut r = self;
        r.set_target_vel_end();
        r
    }

    /// Whether `kp` is present.
    pub fn kp(&self) -> (r: bool)
        ensures
            r == self@.contains(KP as int),
    {
        self.0.has(KP)
    }

    /// Marks `kp` present.
    pub fn set_kp(&mut self)
        ensures
            final(self)@ == old(self)@.insert(KP as int),
    {
        self.0.insert(KP);
    }

    /// Marks `kp` absent.
    pub fn clear_kp(&mut self)
        ensures
            final(self)@ == old(self)@.remove(KP as int),
    {
        self.0.remove(KP);
    }

    /// Builder form of `set_kp`.
    pub fn init_kp(self) -> (r: _Hazzer)
        ensures
            r@ == self@.insert(KP as int),
    {
        let mut r = self;
        r.set_kp();
        r
    }

    /// Whether `ki` is present.
    pub fn ki(&self) -> (r: bool)
        ensures
            r == self@.contains(KI as int),
    {
        self.0.has(KI)
    }

    /// Marks `ki` present.
    pub fn set_ki(&mut self)
        ensures
            final(self)@ == old(self)@.insert(KI as int),
    {
        self.0.insert(KI);
    }

    /// Marks `ki` absent.
    pub fn clear_ki(&mut self)
        ensures
            final(self)@ == old(self)@.remove(KI as int),
    {
        self.0.remove(KI);
    }

    /// Builder form of `set_ki`.
    pub fn init_ki(self) -> (r: _Hazzer)
        ensures
            r@ == self@.insert(KI as int),
    {
        let mut r = self;
        r.set_ki();
        r
    }

    /// Whether `kd` is present.
    pub fn kd(&self) -> (r: bool)
        ensures
            r == self@.contains(KD as int),
    {
        self.0.has(KD)
    }

    /// Marks `kd` present.
    pub fn set_kd(&mut self)
        ensures
            final(self)@ == old(self)@.insert(KD as int),
    {
        self.0.insert(KD);
    }

    /// Marks `kd` absent.
    pub fn clear_kd(&mut self)
        ensures
            final(self)@ == old(self)@.remove(KD as int),
    {
        self.0.remove(KD);
    }

    /// Builder form of `set_kd`.
    pub fn init_kd(self) -> (r: _Hazzer)
        ensures
            r@ == self@.insert(KD as int),
    {
        let mut r = self;
        r.set_kd();
        r
    }
}

/// Operation requested of a motor by a `MotorRx` message.
#[derive(PartialEq, Eq, Structural, Clone, Copy, Debug, Hash)]
pub struct Operation(pub i32);

impl Operation {
    /// No operation given.
    pub fn unspecified() -> (r: Operation)
        ensures
            r.0 == 0,
    {
        Operation(0)
    }

    /// Follow an interpolated position profile.
    pub fn intp_pos() -> (r: Operation)
        ensures
            r.0 == 1,
    {
        Operation(1)
    }

    /// Follow an interpolated velocity.
    pub fn intp_vel() -> (r: Operation)
        ensures
            r.0 == 2,
    {
        Operation(2)
    }

    /// Regulate velocity directly.
    pub fn pid_vel() -> (r: Operation)
        ensures
            r.0 == 3,
    {
        Operation(3)
    }

    /// Tune the velocity regulator.
    pub fn pid_tune() -> (r: Operation)
        ensures
            r.0 == 4,
    {
        Operation(4)
    }

    /// Stop the motor.
    pub fn stop() -> (r: Operation)
        ensures
            r.0 == 5,
    {
        Operation(5)
    }
}

impl Default for Operation {
    fn default() -> (r: Operation)
        ensures
            r.0 == 0,
    {
        Operation(0)
    }
}

impl From<i32> for Operation {
    fn from(val: i32) -> (r: Operation) {
        Operation(val)
    }
}

impl vstd::std_specs::convert::FromSpecImpl<i32> for Operation {
    open spec fn obeys_from_spec() -> bool {
        true
    }

    open spec fn from_spec(val: i32) -> Operation {
        Operation(val)
    }
}

} // verus!
