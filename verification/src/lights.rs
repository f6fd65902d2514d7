//! Packed light values.
//!
//! A light value is a single `u32` holding four 4-bit channels, from
//! the lowest bit up: blue, green, red, then sunlight. The three torch
//! channels are colored light emitted by blocks; sunlight is a separate
//! channel and is never a torch channel.

use vstd::prelude::*;

verus! {

/// The channels of a packed light value.
#[derive(Debug, Clone, Copy, PartialEq, Eq, Structural)]
pub enum LightColor {
    /// The sunlight channel. Not a torch channel.
    Sunlight,
    /// The red torch channel.
    Red,
    /// The green torch channel.
    Green,
    /// The blue torch channel.
    Blue,
}

/// The sunlight level stored in a packed light value.
pub open spec fn spec_sunlight_of(light: u32) -> u32 {
    (light >> 12) & 0xF
}

/// The red torch level stored in a packed light value.
pub open spec fn spec_red_light_of(light: u32) -> u32 {
    (light >> 8) & 0xF
}

/// The green torch level stored in a packed light value.
pub open spec fn spec_green_light_of(light: u32) -> u32 {
    (light >> 4) & 0xF
}

/// The blue torch level stored in a packed light value.
pub open spec fn spec_blue_light_of(light: u32) -> u32 {
    light & 0xF
}

/// The torch level of a packed light value on a torch channel; the
/// sunlight channel has no torch level and reads as zero here.
pub open spec fn spec_torch_light_of(light: u32, color: LightColor) -> u32 {
    match color {
        LightColor::Sunlight => 0,
        LightColor::Red => spec_red_light_of(light),
        LightColor::Green => spec_green_light_of(light),
        LightColor::Blue => spec_blue_light_of(light),
    }
}

/// Static helpers that read and write the channels of a packed light
/// value.
pub struct LightUtils;

impl LightUtils {
    /// Extract the sunlight level (bits 12..=15) of a packed light value.
    pub fn extract_sunlight(light: u32) -> (r: u32)
        ensures
            r == spec_sunlight_of(light),
            r <= 0xF,
    {
        proof {
            assert((light >> 12) & 0xF <= 0xF) by (bit_vector);
        }
        (light >> 12) & 0xF
    }

    /// Overwrite the sunlight level, leaving the torch channels unchanged.
    pub fn insert_sunlight(light: u32, level: u32) -> (r: u32)
        requires
            level <= 0xF,
        ensures
            spec_sunlight_of(r) == level,
            spec_red_light_of(r) == spec_red_light_of(light),
            spec_green_light_of(r) == spec_green_light_of(light),
            spec_blue_light_of(r) == spec_blue_light_of(light),
    {
        proof {
            assert(level <= 0xF ==> {
                &&& (((light & 0xFFFF0FFF) | (level << 12)) >> 12) & 0xF == level
                &&& (((light & 0xFFFF0FFF) | (level << 12)) >> 8) & 0xF == (light >> 8) & 0xF
                &&& (((light & 0xFFFF0FFF) | (level << 12)) >> 4) & 0xF == (light >> 4) & 0xF
                &&& ((light & 0xFFFF0FFF) | (level << 12)) & 0xF == light & 0xF
            }) by (bit_vector);
        }
        (light & 0xFFFF0FFF) | (level << 12)
    }

    /// Extract the red torch level (bits 8..=11) of a packed light value.
    pub fn extract_red_light(light: u32) -> (r: u32)
        ensures
            r == spec_red_light_of(light),
            r <= 0xF,
    {
        proof {
            assert((light >> 8) & 0xF <= 0xF) by (bit_vector);
        }
        (light >> 8) & 0xF
    }

    /// Overwrite the red torch level, leaving the other channels unchanged.
    pub fn insert_red_light(light: u32, level: u32) -> (r: u32)
        requires
            level <= 0xF,
        ensures
            spec_red_light_of(r) == level,
            spec_sunlight_of(r) == spec_sunlight_of(light),
            spec_green_light_of(r) == spec_green_light_of(light),
            spec_blue_light_of(r) == spec_blue_light_of(light),
    {
        proof {
            assert(level <= 0xF ==> {
                &&& (((light & 0xFFFFF0FF) | (level << 8)) >> 8) & 0xF == level
                &&& (((light & 0xFFFFF0FF) | (level << 8)) >> 12) & 0xF == (light >> 12) & 0xF
                &&& (((light & 0xFFFFF0FF) | (level << 8)) >> 4) & 0xF == (light >> 4) & 0xF
                &&& ((light & 0xFFFFF0FF) | (level << 8)) & 0xF == light & 0xF
            }) by (bit_vector);
        }
        (light & 0xFFFFF0FF) | (level << 8)
    }

    /// Extract the green torch level (bits 4..=7) of a packed light value.
    pub fn extract_green_light(light: u32) -> (r: u32)
        ensures
            r == spec_green_light_of(light),
            r <= 0xF,
    {
        proof {
            assert((light >> 4) & 0xF <= 0xF) by (bit_vector);
        }
        (light >> 4) & 0xF
    }

    /// Overwrite the green torch level, leaving the other channels unchanged.
    pub fn insert_green_light(light: u32, level: u32) -> (r: u32)
        requires
            level <= 0xF,
        ensures
            spec_green_light_of(r) == level,
            spec_sunlight_of(r) == spec_sunlight_of(light),
            spec_red_light_of(r) == spec_red_light_of(light),
            spec_blue_light_of(r) == spec_blue_light_of(light),
    {
        proof {
            assert(level <= 0xF ==> {
                &&& (((light & 0xFFFFFF0F) | (level << 4)) >> 4) & 0xF == level
                &&& (((light & 0xFFFFFF0F) | (level << 4)) >> 12) & 0xF == (light >> 12) & 0xF
                &&& (((light & 0xFFFFFF0F) | (level << 4)) >> 8) & 0xF == (light >> 8) & 0xF
                &&& ((light & 0xFFFFFF0F) | (level << 4)) & 0xF == light & 0xF
            }) by (bit_vector);
        }
        (light & 0xFFFFFF0F) | (level << 4)
    }

    /// Extract the blue torch level (bits 0..=3) of a packed light value.
    pub fn extract_blue_light(light: u32) -> (r: u32)
        ensures
            r == spec_blue_light_of(light),
            r <= 0xF,
    {
        proof {
            assert(light & 0xF <= 0xF) by (bit_vector);
        }
        light & 0xF
    }

    /// Overwrite the blue torch level, leaving the other channels unchanged.
    pub fn insert_blue_light(light: u32, level: u32) -> (r: u32)
        requires
            level <= 0xF,
        ensures
            spec_blue_light_of(r) == level,
            spec_sunlight_of(r) == spec_sunlight_of(light),
            spec_red_light_of(r) == spec_red_light_of(light),
            spec_green_light_of(r) == spec_green_light_of(light),
    {
        proof {
            assert(level <= 0xF ==> {
                &&& ((light & 0xFFFFFFF0) | level) & 0xF == level
                &&& (((light & 0xFFFFFFF0) | level) >> 12) & 0xF == (light >> 12) & 0xF
                &&& (((light & 0xFFFFFFF0) | level) >> 8) & 0xF == (light >> 8) & 0xF
                &&& (((light & 0xFFFFFFF0) | level) >> 4) & 0xF == (light >> 4) & 0xF
            }) by (bit_vector);
        }
        (light & 0xFFFFFFF0) | level
    }
}

} // verus!
