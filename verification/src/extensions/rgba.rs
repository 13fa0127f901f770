//! Shade derivation: one step brighter or darker.
//!
//! A step darker multiplies each colour channel by 7/10; a step brighter
//! divides by 7/10. Both are computed in exact integer arithmetic and round
//! towards zero.

use crate::types::Rgba;
use vstd::prelude::*;

verus! {

/// The smallest value a lit channel has before it is brightened: the least
/// value that a step brighter strictly increases.
pub const MIN_BRIGHT: u8 = 3;

/// One channel a step darker: seven tenths of it, rounded down.
pub open spec fn darker_channel(v: u8) -> u8 {
    (v * 7 / 10) as u8
}

/// One channel a step brighter: a lit channel below `MIN_BRIGHT` is first
/// raised to it, then the channel is divided by seven tenths, rounded down
/// and capped at 255.
pub open spec fn brighter_channel(v: u8) -> u8 {
    let lifted: int = if 0 < v && v < MIN_BRIGHT {
        MIN_BRIGHT as int
    } else {
        v as int
    };
    if lifted * 10 / 7 > 255 {
        255u8
    } else {
        (lifted * 10 / 7) as u8
    }
}

/// A colour a step darker; alpha is kept.
pub open spec fn darker_colour(c: Rgba) -> Rgba {
    Rgba { r: darker_channel(c.r), g: darker_channel(c.g), b: darker_channel(c.b), a: c.a }
}

/// A colour a step brighter; alpha is kept. Black has no lit channel to
/// scale and becomes the darkest grey instead.
pub open spec fn brighter_colour(c: Rgba) -> Rgba {
    if c.r == 0 && c.g == 0 && c.b == 0 {
        Rgba { r: MIN_BRIGHT, g: MIN_BRIGHT, b: MIN_BRIGHT, a: c.a }
    } else {
        Rgba { r: brighter_channel(c.r), g: brighter_channel(c.g), b: brighter_channel(c.b), a: c.a }
    }
}

fn darken(v: u8) -> (d: u8)
    ensures
        d == darker_channel(v),
        d == v * 7 / 10,
{
    let wide: u16 = v as u16;
    (wide * 7 / 10) as u8
}

fn brighten(v: u8) -> (d: u8)
    ensures
        d == brighter_channel(v),
{
    let lifted: u16 = if 0 < v && v < MIN_BRIGHT {
        MIN_BRIGHT as u16
    } else {
        v as u16
    };
    let scaled: u16 = lifted * 10 / 7;
    if scaled > 255 {
        255
    } else {
        scaled as u8
    }
}

/// Colours that can be stepped brighter and darker.
pub trait AdjustBrightness: Sized {
    /// The value one step brighter.
    spec fn brighter_spec(&self) -> Self;

    /// The value one step darker.
    spec fn darker_spec(&self) -> Self;

    fn brighter(&self) -> (c: Self)
        ensures
            c == self.brighter_spec(),
    ;

    fn darker(&self) -> (c: Self)
        ensures
            c == self.darker_spec(),
    ;
}

impl AdjustBrightness for Rgba {
    open spec fn brighter_spec(&self) -> Self {
        brighter_colour(*self)
    }

    open spec fn darker_spec(&self) -> Self {
        darker_colour(*self)
    }

    fn brighter(&self) -> (c: Self)
        ensures
            c.a == self.a,
            self.r == 0 && self.g == 0 && self.b == 0 ==> c.r == 3 && c.g == 3 && c.b == 3,
    {
        if self.r == 0 && self.g == 0 && self.b == 0 {
            return Rgba::new(MIN_BRIGHT, MIN_BRIGHT, MIN_BRIGHT, self.a);
        }
        Rgba::new(brighten(self.r), brighten(self.g), brighten(self.b), self.a)
    }

    fn darker(&self) -> (c: Self)
        ensures
            c.r == self.r * 7 / 10,
            c.g == self.g * 7 / 10,
            c.b == self.b * 7 / 10,
            c.a == self.a,
    {
        Rgba::new(darken(self.r), darken(self.g), darken(self.b), self.a)
    }
}

} // verus!
