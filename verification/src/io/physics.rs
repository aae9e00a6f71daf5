//! Model-wide physics properties.

use vstd::prelude::*;

verus! {

/// The bit pattern of `1000.0`, the pixels per meter of a model that names
/// none.
pub const PIXELS_PER_METER: u32 = 0x447a_0000;

/// The bit pattern of `9.8`, the gravity of a model that names none.
pub const GRAVITY: u32 = 0x411c_cccd;

/// What a [`Physics`] is.
pub struct PhysicsView {
    pub pixels_per_meter: u32,
    pub gravity: u32,
}

/// Model-wide physics properties.
#[derive(Debug)]
pub struct Physics {
    pixels_per_meter: u32,
    gravity: u32,
}

impl View for Physics {
    type V = PhysicsView;

    closed spec fn view(&self) -> PhysicsView {
        PhysicsView {
            pixels_per_meter: self.pixels_per_meter,
            gravity: self.gravity,
        }
    }
}

impl Physics {
    /// The physics of a model that says nothing else: 1000 pixels per meter
    /// and a gravity of 9.8.
    pub fn new() -> (r: Physics)
        ensures
            r@ == (PhysicsView { pixels_per_meter: PIXELS_PER_METER, gravity: GRAVITY }),
    {
        Physics { pixels_per_meter: PIXELS_PER_METER, gravity: GRAVITY }
    }

    pub fn pixels_per_meter(&self) -> (r: u32)
        ensures
            r == self@.pixels_per_meter,
    {
        self.pixels_per_meter
    }

    pub fn set_pixels_per_meter(&mut self, pixels_per_meter: u32)
        ensures
            final(self)@ == (PhysicsView { pixels_per_meter, ..old(self)@ }),
    {
        self.pixels_per_meter = pixels_per_meter;
    }

    pub fn gravity(&self) -> (r: u32)
        ensures
            r == self@.gravity,
    {
        self.gravity
    }

    pub fn set_gravity(&mut self, gravity: u32)
        ensures
            final(self)@ == (PhysicsView { gravity, ..old(self)@ }),
    {
        self.gravity = gravity;
    }
}

impl Default for Physics {
    fn default() -> (r: Physics)
        ensures
            r@ == (PhysicsView { pixels_per_meter: PIXELS_PER_METER, gravity: GRAVITY }),
    {
        Physics::new()
    }
}

} // verus!
