use vstd::prelude::*;

verus! {

/// Bit pattern of positive infinity in IEEE-754 single precision.
pub const POSITIVE_INFINITY_BITS: u32 = 0x7f80_0000;

/// Bit pattern of negative zero in IEEE-754 single precision.
pub const NEGATIVE_ZERO_BITS: u32 = 0x8000_0000;

/// A flight speed, held as the IEEE-754 single-precision bit pattern that the
/// client receives.
#[derive(Clone, Copy, Debug, PartialEq, Eq, Structural)]
pub struct FlySpeed {
    pub bits: u32,
}

/// The number that `bits` encodes is at least zero: zero of either sign, a
/// positive finite number, or positive infinity (never a NaN).
pub open spec fn bits_at_least_zero(bits: u32) -> bool {
    bits <= POSITIVE_INFINITY_BITS || bits == NEGATIVE_ZERO_BITS
}

impl FlySpeed {
    pub fn from_bits(bits: u32) -> (r: FlySpeed)
        ensures
            r.bits == bits,
    {
        FlySpeed { bits }
    }

    /// Whether this speed meets the lower bound of zero, inclusive.
    pub fn is_at_least_zero(&self) -> (r: bool)
        ensures
            r == bits_at_least_zero(self.bits),
    {
        self.bits <= POSITIVE_INFINITY_BITS || self.bits == NEGATIVE_ZERO_BITS
    }
}

/// A player's flight abilities.
#[derive(Clone, Copy, Debug, PartialEq, Eq, Structural)]
pub struct Abilities {
    /// The player may fly.
    pub allow_flying: bool,
    /// The player is flying now.
    pub flying: bool,
    /// The speed at which the client flies.
    pub fly_speed: FlySpeed,
}

/// No flight without the allowance.
pub open spec fn grounded_unless_allowed(a: Abilities) -> bool {
    !a.allow_flying ==> !a.flying
}

/// The allowance flipped; flight stops when the allowance is taken away.
pub open spec fn toggled(a: Abilities) -> Abilities {
    Abilities {
        allow_flying: !a.allow_flying,
        flying: if a.allow_flying { false } else { a.flying },
        fly_speed: a.fly_speed,
    }
}

/// Flight allowed at the given speed; whether the player flies now is kept.
pub open spec fn enabled_at(a: Abilities, speed: FlySpeed) -> Abilities {
    Abilities { allow_flying: true, flying: a.flying, fly_speed: speed }
}

impl Abilities {
    pub fn new(allow_flying: bool, flying: bool, fly_speed: FlySpeed) -> (r: Abilities)
        ensures
            r.allow_flying == allow_flying,
            r.flying == flying,
            r.fly_speed == fly_speed,
    {
        Abilities { allow_flying, flying, fly_speed }
    }

    /// Flips the allowance to fly; taking it away also ends the flight.
    pub fn toggle(&mut self)
        ensures
            *final(self) == toggled(*old(self)),
            final(self).allow_flying == !old(self).allow_flying,
            grounded_unless_allowed(*final(self)),
    {
        self.allow_flying = !self.allow_flying;
        if !self.allow_flying {
            self.flying = false;
        }
    }

    /// Allows flight and sets the flight speed.
    pub fn enable_with_speed(&mut self, speed: FlySpeed)
        ensures
            *final(self) == enabled_at(*old(self), speed),
            final(self).allow_flying,
    {
        self.allow_flying = true;
        self.fly_speed = speed;
    }
}

/// Toggling twice gives the allowance back as it was, and keeps the speed.
pub proof fn lemma_toggle_twice_restores_allowance(a: Abilities)
    ensures
        toggled(toggled(a)).allow_flying == a.allow_flying,
        toggled(toggled(a)).fly_speed == a.fly_speed,
{
}

} // verus!
