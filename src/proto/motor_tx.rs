//! Field presence of the `MotorTx` message.

use vstd::prelude::*;
use crate::proto::presence::Presence;

verus! {
/// Number of the `intp_pos` field.
pub const INTP_POS: u8 = 0;
/// Number of the `intp_vel` field.
pub const INTP_VEL: u8 = 1;
/// Number of the `intp_acc` field.
pub const INTP_ACC: u8 = 2;
/// Number of the `intp_jerk` field.
pub const INTP_JERK: u8 = 3;
/// Number of the `actual_pos` field.
pub const ACTUAL_POS: u8 = 4;
/// Number of the `actual_vel` field.
pub const ACTUAL_VEL: u8 = 5;
/// Which optional fields of a `MotorTx` message are present.
#[derive(PartialEq, Eq, Structural, Clone, Copy, Debug)]
pub struct _Hazzer(Presence);

impl View for _Hazzer {
    type V = Set<int>;

    closed spec fn view(&self) -> Set<int> {
        self.0@
    }
}

impl Default for _Hazzer {
    fn default() -> (r: _Hazzer)
        ensures
            r@ == Set::<int>::empty(),
    {
        _Hazzer(Presence::new())
    }
}

impl _Hazzer {
    /// No field present.
    pub fn new() -> (r: _Hazzer)
        ensures
            r@ == Set::<int>::empty(),
    {
        _Hazzer(Presence::new())
    }

    /// Whether `intp_pos` is present.
    pub fn intp_pos(&self) -> (r: bool)
        ensures
            r == self@.contains(INTP_POS as int),
    {
        self.0.has(INTP_POS)
    }

    /// Marks `intp_pos` present.
    pub fn set_intp_pos(&mut self)
        ensures
            final(self)@ == old(self)@.insert(INTP_POS as int),
    {
        self.0.insert(INTP_POS);
    }

    /// Marks `intp_pos` absent.
    pub fn clear_intp_pos(&mut self)
        ensures
            final(self)@ == old(self)@.remove(INTP_POS as int),
    {
        self.0.remove(INTP_POS);
    }

    /// Builder form of `set_intp_pos`.
    pub fn init_intp_pos(self) -> (r: _Hazzer)
        ensures
            r@ == self@.insert(INTP_POS as int),
    {
        let mut r = self;
        r.set_intp_pos();
        r
    }

    /// Whether `intp_vel` is present.
    pub fn intp_vel(&self) -> (r: bool)
        ensures
            r == self@.contains(INTP_VEL as int),
    {
        self.0.has(INTP_VEL)
    }

    /// Marks `intp_vel` present.
    pub fn set_intp_vel(&mut self)
        ensures
            final(self)@ == old(self)@.insert(INTP_VEL as int),
    {
        self.0.insert(INTP_VEL);
    }

    /// Marks `intp_vel` absent.
    pub fn clear_intp_vel(&mut self)
        ensures
            final(self)@ == old(self)@.remove(INTP_VEL as int),
    {
        self.0.remove(INTP_VEL);
    }

    /// Builder form of `set_intp_vel`.
    pub fn init_intp_vel(self) -> (r: _Hazzer)
        ensures
            r@ == self@.insert(INTP_VEL as int),
    {
        let mut r = self;
        r.set_intp_vel();
        r
    }

    /// Whether `intp_acc` is present.
    pub fn intp_acc(&self) -> (r: bool)
        ensures
            r == self@.contains(INTP_ACC as int),
    {
        self.0.has(INTP_ACC)
    }

    /// Marks `intp_acc` present.
    pub fn set_intp_acc(&mut self)
        ensures
            final(self)@ == old(self)@.insert(INTP_ACC as int),
    {
        self.0.insert(INTP_ACC);
    }

    /// Marks `intp_acc` absent.
    pub fn clear_intp_acc(&mut self)
        ensures
            final(self)@ == old(self)@.remove(INTP_ACC as int),
    {
        self.0.remove(INTP_ACC);
    }

    /// Builder form of `set_intp_acc`.
    pub fn init_intp_acc(self) -> (r: _Hazzer)
        ensures
            r@ == self@.insert(INTP_ACC as int),
    {
        let mut r = self;
        r.set_intp_acc();
        r
    }

    /// Whether `intp_jerk` is present.
    pub fn intp_jerk(&self) -> (r: bool)
        ensures
            r == self@.contains(INTP_JERK as int),
    {
        self.0.has(INTP_JERK)
    }

    /// Marks `intp_jerk` present.
    pub fn set_intp_jerk(&mut self)
        ensures
            final(self)@ == old(self)@.insert(INTP_JERK as int),
    {
        self.0.insert(INTP_JERK);
    }

    /// Marks `intp_jerk` absent.
    pub fn clear_intp_jerk(&mut self)
        ensures
            final(self)@ == old(self)@.remove(INTP_JERK as int),
    {
        self.0.remove(INTP_JERK);
    }

    /// Builder form of `set_intp_jerk`.
    pub fn init_intp_jerk(self) -> (r: _Hazzer)
        ensures
            r@ == self@.insert(INTP_JERK as int),
    {
        let mut r = self;
        r.set_intp_jerk();
        r
    }

    /// Whether `actual_pos` is present.
    pub fn actual_pos(&self) -> (r: bool)
        ensures
            r == self@.contains(ACTUAL_POS as int),
    {
        self.0.has(ACTUAL_POS)
    }

    /// Marks `actual_pos` present.
    pub fn set_actual_pos(&mut self)
        ensures
            final(self)@ == old(self)@.insert(ACTUAL_POS as int),
    {
        self.0.insert(ACTUAL_POS);
    }

    /// Marks `actual_pos` absent.
    pub fn clear_actual_pos(&mut self)
        ensures
            final(self)@ == old(self)@.remove(ACTUAL_POS as int),
    {
        self.0.remove(ACTUAL_POS);
    }

    /// Builder form of `set_actual_pos`.
    pub fn init_actual_pos(self) -> (r: _Hazzer)
        ensures
            r@ == self@.insert(ACTUAL_POS as int),
    {
        let mut r = self;
        r.set_actual_pos();
        r
    }

    /// Whether `actual_vel` is present.
    pub fn actual_vel(&self) -> (r: bool)
        ensures
            r == self@.contains(ACTUAL_VEL as int),
    {
        self.0.has(ACTUAL_VEL)
    }

    /// Marks `actual_vel` present.
    pub fn set_actual_vel(&mut self)
        ensures
            final(self)@ == old(self)@.insert(ACTUAL_VEL as int),
    {
        self.0.insert(ACTUAL_VEL);
    }

    /// Marks `actual_vel` absent.
    pub fn clear_actual_vel(&mut self)
        ensures
            final(self)@ == old(self)@.remove(ACTUAL_VEL as int),
    {
        self.0.remove(ACTUAL_VEL);
    }

    /// Builder form of `set_actual_vel`.
    pub fn init_actual_vel(self) -> (r: _Hazzer)
        ensures
            r@ == self@.insert(ACTUAL_VEL as int),
    {
        let mut r = self;
        r.set_actual_vel();
        r
    }
}

} // verus!
