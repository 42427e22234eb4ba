//! The colour of the status light.

use vstd::prelude::*;

verus! {

/// A colour channel brought into `0..=255`.
pub open spec fn channel_of(value: i64) -> u8 {
    if value < 0 {
        0
    } else if value > 255 {
        255
    } else {
        value as u8
    }
}

/// Brings a colour channel into the range of a byte.
pub fn channel(value: i64) -> (byte: u8)
    ensures
        byte == channel_of(value),
{
    if value < 0 {
        0
    } else if value > 255 {
        255
    } else {
        value as u8
    }
}

/// The colour to write for the three channels asked for.
pub fn set_color(r: i64, g: i64, b: i64) -> (rgb: (u8, u8, u8))
    ensures
        rgb == (channel_of(r), channel_of(g), channel_of(b)),
{
    (channel(r), channel(g), channel(b))
}

} // verus!
