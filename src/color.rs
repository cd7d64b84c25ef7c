//! Limited-range BT.709 conversion of one YUV sample to RGB, in 8.8 fixed point.
//!
//! With `c = y - 16`, `d = u - 128` and `e = v - 128`:
//! `r = (298c + 459e + 128) >> 8`, `g = (298c - 55d - 136e + 128) >> 8`,
//! `b = (298c + 541d + 128) >> 8`, each clamped to `0..=255`.

use vstd::prelude::*;

verus! {

/// The largest scaled value that still maps below 255.
pub const SCALED_MAX: i32 = 65280;

/// A value in 8.8 fixed point, rounded down and clamped to a byte.
pub open spec fn clamp_scaled(v: int) -> u8 {
    if v < 0 {
        0
    } else if v >= SCALED_MAX {
        255
    } else {
        (v / 256) as u8
    }
}

pub open spec fn red_scaled(y: u8, u: u8, v: u8) -> int {
    298 * (y - 16) + 459 * (v - 128) + 128
}

pub open spec fn green_scaled(y: u8, u: u8, v: u8) -> int {
    298 * (y - 16) - 55 * (u - 128) - 136 * (v - 128) + 128
}

pub open spec fn blue_scaled(y: u8, u: u8, v: u8) -> int {
    298 * (y - 16) + 541 * (u - 128) + 128
}

/// The RGB value of one limited-range BT.709 YUV sample.
pub open spec fn yuv_to_rgb_spec(y: u8, u: u8, v: u8) -> (u8, u8, u8) {
    (
        clamp_scaled(red_scaled(y, u, v)),
        clamp_scaled(green_scaled(y, u, v)),
        clamp_scaled(blue_scaled(y, u, v)),
    )
}

fn clamp_to_byte(v: i32) -> (r: u8)
    ensures
        r == clamp_scaled(v as int),
{
    if v < 0 {
        0
    } else if v >= SCALED_MAX {
        255
    } else {
        ((v as u32) / 256) as u8
    }
}

/// Converts one limited-range BT.709 sample to RGB.
pub fn yuv_to_rgb(y: u8, u: u8, v: u8) -> (r: (u8, u8, u8))
    ensures
        r == yuv_to_rgb_spec(y, u, v),
{
    let c: i32 = y as i32 - 16;
    let d: i32 = u as i32 - 128;
    let e: i32 = v as i32 - 128;
    let r = clamp_to_byte(298 * c + 459 * e + 128);
    let g = clamp_to_byte(298 * c - 55 * d - 136 * e + 128);
    let b = clamp_to_byte(298 * c + 541 * d + 128);
    (r, g, b)
}

/// With neutral chroma (`u == v == 128`) the three channels are equal.
pub proof fn lemma_neutral_chroma_is_gray(y: u8)
    ensures
        yuv_to_rgb_spec(y, 128, 128).0 == yuv_to_rgb_spec(y, 128, 128).1,
        yuv_to_rgb_spec(y, 128, 128).1 == yuv_to_rgb_spec(y, 128, 128).2,
{
}

} // verus!
