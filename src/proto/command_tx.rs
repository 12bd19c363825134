//! Field presence of the `CommandTx` message.

use vstd::prelude::*;
use crate::proto::presence::Presence;

verus! {
/// Number of the `left_motor` field.
pub const LEFT_MOTOR: u8 = 0;
/// Number of the `right_motor` field.
pub const RIGHT_MOTOR: u8 = 1;
/// Number of the `mpu6050` field.
pub const MPU6050: u8 = 2;
/// Which optional fields of a `CommandTx` message are present.
#[derive(PartialEq, Eq, Structural, Clone, Copy, Debug)]
pub struct _Hazzer(Presence);

impl View for _Hazzer {
    type V = Set<int>;

    closed spec fn view(&self) -> Set<int> {
        self.0@
    }
}

impl Default for _Hazzer {
    fn default() -> (r: _Hazzer)
        ensures
            r@ == Set::<int>::empty(),
    {
        _Hazzer(Presence::new())
    }
}

impl _Hazzer {
    /// No field present.
    pub fn new() -> (r: _Hazzer)
        ensures
            r@ == Set::<int>::empty(),
    {
        _Hazzer(Presence::new())
    }

    /// Whether `left_motor` is present.
    pub fn left_motor(&self) -> (r: bool)
        ensures
            r == self@.contains(LEFT_MOTOR as int),
    {
        self.0.has(LEFT_MOTOR)
    }

    /// Marks `left_motor` present.
    pub fn set_left_motor(&mut self)
        ensures
            final(self)@ == old(self)@.insert(LEFT_MOTOR as int),
    {
        self.0.insert(LEFT_MOTOR);
    }

    /// Marks `left_motor` absent.
    pub fn clear_left_motor(&mut self)
        ensures
            final(self)@ == old(self)@.remove(LEFT_MOTOR as int),
    {
        self.0.remove(LEFT_MOTOR);
    }

    /// Builder form of `set_left_motor`.
    pub fn init_left_motor(self) -> (r: _Hazzer)
        ensures
            r@ == self@.insert(LEFT_MOTOR as int),
    {
        let mut r = self;
        r.set_left_motor();
        r
    }

    /// Whether `right_motor` is present.
    pub fn right_motor(&self) -> (r: bool)
        ensures
            r == self@.contains(RIGHT_MOTOR as int),
    {
        self.0.has(RIGHT_MOTOR)
    }

    /// Marks `right_motor` present.
    pub fn set_right_motor(&mut self)
        ensures
            final(self)@ == old(self)@.insert(RIGHT_MOTOR as int),
    {
        self.0.insert(RIGHT_MOTOR);
    }

    /// Marks `right_motor` absent.
    pub fn clear_right_motor(&mut self)
        ensures
            final(self)@ == old(self)@.remove(RIGHT_MOTOR as int),
    {
        self.0.remove(RIGHT_MOTOR);
    }

    /// Builder form of `set_right_motor`.
    pub fn init_right_motor(self) -> (r: _Hazzer)
        ensures
            r@ == self@.insert(RIGHT_MOTOR as int),
    {
        let mut r = self;
        r.set_right_motor();
        r
    }

    /// Whether `mpu6050` is present.
    pub fn mpu6050(&self) -> (r: bool)
        ensures
            r == self@.contains(MPU6050 as int),
    {
        self.0.has(MPU6050)
    }

    /// Marks `mpu6050` present.
    pub fn set_mpu6050(&mut self)
        ensures
            final(self)@ == old(self)@.insert(MPU6050 as int),
    {
        self.0.insert(MPU6050);
    }

    /// Marks `mpu6050` absent.
    pub fn clear_mpu6050(&mut self)
        ensures
            final(self)@ == old(self)@.remove(MPU6050 as int),
    {
        self.0.remove(MPU6050);
    }

    /// Builder form of `set_mpu6050`.
    pub fn init_mpu6050(self) -> (r: _Hazzer)
        ensures
            r@ == self@.insert(MPU6050 as int),
    {
        let mut r = self;
        r.set_mpu6050();
        r
    }
}

/// A `CommandTx` message: each field's value, and which fields are present.
pub struct CommandTx<M, S> {
    pub left_motor: M,
    pub right_motor: M,
    pub mpu6050: S,
    pub _has: _Hazzer,
}

impl<M, S> CommandTx<M, S> {
    /// A message holding these values, with no field marked present.
    pub fn with_values(left_motor: M, right_motor: M, mpu6050: S) -> (r: Self)
        ensures
            r.left_motor == left_motor,
            r.right_motor == right_motor,
            r.mpu6050 == mpu6050,
            r._has@ == Set::<int>::empty(),
    {
        CommandTx { left_motor, right_motor, mpu6050, _has: _Hazzer::new() }
    }

    /// `left_motor`, when present.
    pub fn left_motor(&self) -> (r: Option<&M>)
        ensures
            r == (if self._has@.contains(LEFT_MOTOR as int) {
                Some(&self.left_motor)
            } else {
                None
            }),
    {
        if self._has.left_motor() {
            Some(&self.left_motor)
        } else {
            None
        }
    }

    /// Stores `value` as `left_motor` and marks it present.
    pub fn set_left_motor(&mut self, value: M)
        ensures
            final(self).left_motor == value,
            final(self)._has@ == old(self)._has@.insert(LEFT_MOTOR as int),
            final(self).right_motor == old(self).right_motor,
            final(self).mpu6050 == old(self).mpu6050,
    {
        self._has.set_left_motor();
        self.left_motor = value;
    }

    /// Marks `left_motor` absent; the stored value stays.
    pub fn clear_left_motor(&mut self)
        ensures
            final(self)._has@ == old(self)._has@.remove(LEFT_MOTOR as int),
            final(self).left_motor == old(self).left_motor,
            final(self).right_motor == old(self).right_motor,
            final(self).mpu6050 == old(self).mpu6050,
    {
        self._has.clear_left_motor();
    }

    /// `right_motor`, when present.
    pub fn right_motor(&self) -> (r: Option<&M>)
        ensures
            r == (if self._has@.contains(RIGHT_MOTOR as int) {
                Some(&self.right_motor)
            } else {
                None
            }),
    {
        if self._has.right_motor() {
            Some(&self.right_motor)
        } else {
            None
        }
    }

    /// Stores `value` as `right_motor` and marks it present.
    pub fn set_right_motor(&mut self, value: M)
        ensures
            final(self).right_motor == value,
            final(self)._has@ == old(self)._has@.insert(RIGHT_MOTOR as int),
            final(self).left_motor == old(self).left_motor,
            final(self).mpu6050 == old(self).mpu6050,
    {
        self._has.set_right_motor();
        self.right_motor = value;
    }

    /// Marks `right_motor` absent; the stored value stays.
    pub fn clear_right_motor(&mut self)
        ensures
            final(self)._has@ == old(self)._has@.remove(RIGHT_MOTOR as int),
            final(self).left_motor == old(self).left_motor,
            final(self).right_motor == old(self).right_motor,
            final(self).mpu6050 == old(self).mpu6050,
    {
        self._has.clear_right_motor();
    }

    /// `mpu6050`, when present.
    pub fn mpu6050(&self) -> (r: Option<&S>)
        ensures
            r == (if self._has@.contains(MPU6050 as int) {
                Some(&self.mpu6050)
            } else {
                None
            }),
    {
        if self._has.mpu6050() {
            Some(&self.mpu6050)
        } else {
            None
        }
    }

    /// Stores `value` as `mpu6050` and marks it present.
    pub fn set_mpu6050(&mut self, value: S)
        ensures
            final(self).mpu6050 == value,
            final(self)._has@ == old(self)._has@.insert(MPU6050 as int),
            final(self).left_motor == old(self).left_motor,
            final(self).right_motor == old(self).right_motor,
    {
        self._has.set_mpu6050();
        self.mpu6050 = value;
    }

    /// Marks `mpu6050` absent; the stored value stays.
    pub fn clear_mpu6050(&mut self)
        ensures
            final(self)._has@ == old(self)._has@.remove(MPU6050 as int),
            final(self).left_motor == old(self).left_motor,
            final(self).right_motor == old(self).right_motor,
            final(self).mpu6050 == old(self).mpu6050,
    {
        self._has.clear_mpu6050();
    }
}

} // verus!
