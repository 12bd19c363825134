//! Field presence of the `Mpu6050Tx` message.

use vstd::prelude::*;
use crate::proto::presence::Presence;

verus! {
/// Number of the `ax` field.
pub const AX: u8 = 0;
/// Number of the `ay` field.
pub const AY: u8 = 1;
/// Number of the `az` field.
pub const AZ: u8 = 2;
/// Number of the `gx` field.
pub const GX: u8 = 3;
/// Number of the `gy` field.
pub const GY: u8 = 4;
/// Number of the `gz` field.
pub const GZ: u8 = 5;
/// Which optional fields of a `Mpu6050Tx` message are present.
#[derive(PartialEq, Eq, Structural, Clone, Copy, Debug)]
pub struct _Hazzer(Presence);

impl View for _Hazzer {
    type V = Set<int>;

    closed spec fn view(&self) -> Set<int> {
        self.0@
    }
}

impl Default for _Hazzer {
    fn default() -> (r: _Hazzer)
        ensures
            r@ == Set::<int>::empty(),
    {
        _Hazzer(Presence::new())
    }
}

impl _Hazzer {
    /// No field present.
    pub fn new() -> (r: _Hazzer)
        ensures
            r@ == Set::<int>::empty(),
    {
        _Hazzer(Presence::new())
    }

    /// Whether `ax` is present.
    pub fn ax(&self) -> (r: bool)
        ensures
            r == self@.contains(AX as int),
    {
        self.0.has(AX)
    }

    /// Marks `ax` present.
    pub fn set_ax(&mut self)
        ensures
            final(self)@ == old(self)@.insert(AX as int),
    {
        self.0.insert(AX);
    }

    /// Marks `ax` absent.
    pub fn clear_ax(&mut self)
        ensures
            final(self)@ == old(self)@.remove(AX as int),
    {
        self.0.remove(AX);
    }

    /// Builder form of `set_ax`.
    pub fn init_ax(self) -> (r: _Hazzer)
        ensures
            r@ == self@.insert(AX as int),
    {
        let mut r = self;
        r.set_ax();
        r
    }

    /// Whether `ay` is present.
    pub fn ay(&self) -> (r: bool)
        ensures
            r == self@.contains(AY as int),
    {
        self.0.has(AY)
    }

    /// Marks `ay` present.
    pub fn set_ay(&mut self)
        ensures
            final(self)@ == old(self)@.insert(AY as int),
    {
        self.0.insert(AY);
    }

    /// Marks `ay` absent.
    pub fn clear_ay(&mut self)
        ensures
            final(self)@ == old(self)@.remove(AY as int),
    {
        self.0.remove(AY);
    }

    /// Builder form of `set_ay`.
    pub fn init_ay(self) -> (r: _Hazzer)
        ensures
            r@ == self@.insert(AY as int),
    {
        let mut r = self;
        r.set_ay();
        r
    }

    /// Whether `az` is present.
    pub fn az(&self) -> (r: bool)
        ensures
            r == self@.contains(AZ as int),
    {
        self.0.has(AZ)
    }

    /// Marks `az` present.
    pub fn set_az(&mut self)
        ensures
            final(self)@ == old(self)@.insert(AZ as int),
    {
        self.0.insert(AZ);
    }

    /// Marks `az` absent.
    pub fn clear_az(&mut self)
        ensures
            final(self)@ == old(self)@.remove(AZ as int),
    {
        self.0.remove(AZ);
    }

    /// Builder form of `set_az`.
    pub fn init_az(self) -> (r: _Hazzer)
        ensures
            r@ == self@.insert(AZ as int),
    {
        let mut r = self;
        r.set_az();
        r
    }

    /// Whether `gx` is present.
    pub fn gx(&self) -> (r: bool)
        ensures
            r == self@.contains(GX as int),
    {
        self.0.has(GX)
    }

    /// Marks `gx` present.
    pub fn set_gx(&mut self)
        ensures
            final(self)@ == old(self)@.insert(GX as int),
    {
        self.0.insert(GX);
    }

    /// Marks `gx` absent.
    pub fn clear_gx(&mut self)
        ensures
            final(self)@ == old(self)@.remove(GX as int),
    {
        self.0.remove(GX);
    }

    /// Builder form of `set_gx`.
    pub fn init_gx(self) -> (r: _Hazzer)
        ensures
            r@ == self@.insert(GX as int),
    {
        let mut r = self;
        r.set_gx();
        r
    }

    /// Whether `gy` is present.
    pub fn gy(&self) -> (r: bool)
        ensures
            r == self@.contains(GY as int),
    {
        self.0.has(GY)
    }

    /// Marks `gy` present.
    pub fn set_gy(&mut self)
        ensures
            final(self)@ == old(self)@.insert(GY as int),
    {
        self.0.insert(GY);
    }

    /// Marks `gy` absent.
    pub fn clear_gy(&mut self)
        ensures
            final(self)@ == old(self)@.remove(GY as int),
    {
        self.0.remove(GY);
    }

    /// Builder form of `set_gy`.
    pub fn init_gy(self) -> (r: _Hazzer)
        ensures
            r@ == self@.insert(GY as int),
    {
        let mut r = self;
        r.set_gy();
        r
    }

    /// Whether `gz` is present.
    pub fn gz(&self) -> (r: bool)
        ensures
            r == self@.contains(GZ as int),
    {
        self.0.has(GZ)
    }

    /// Marks `gz` present.
    pub fn set_gz(&mut self)
        ensures
            final(self)@ == old(self)@.insert(GZ as int),
    {
        self.0.insert(GZ);
    }

    /// Marks `gz` absent.
    pub fn clear_gz(&mut self)
        ensures
            final(self)@ == old(self)@.remove(GZ as int),
    {
        self.0.remove(GZ);
    }

    /// Builder form of `set_gz`.
    pub fn init_gz(self) -> (r: _Hazzer)
        ensures
            r@ == self@.insert(GZ as int),
    {
        let mut r = self;
        r.set_gz();
        r
    }
}

} // verus!
