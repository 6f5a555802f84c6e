use vstd::prelude::*;

use crate::light::{linear_light, linear_light_spec};

verus! {

/// Luma-weighted linear light of a color, with the weights 0.299, 0.587 and
/// 0.114 written in thousandths.
pub open spec fn weighted_light(c: (u8, u8, u8)) -> int {
    299 * linear_light_spec(c.0) + 587 * linear_light_spec(c.1) + 114 * linear_light_spec(c.2)
}

/// The largest level `k <= top` whose linear light, weighted as a whole
/// (by 1000), does not exceed `sum`; level 0 when none does.
pub open spec fn level_below(sum: int, top: u8) -> u8
    decreases top,
{
    if top == 0 || 1000 * linear_light_spec(top) <= sum {
        top
    } else {
        level_below(sum, (top - 1) as u8)
    }
}

/// The sRGB gray level of a color: its linear light, converted back to an
/// sRGB level and rounded down.
pub open spec fn gray_level(c: (u8, u8, u8)) -> u8 {
    level_below(weighted_light(c), 255)
}

/// Whether a background of color `bg` needs a dark foreground to contrast with.
pub open spec fn is_light(bg: (u8, u8, u8)) -> bool {
    gray_level(bg) > 0xA0
}

/// The foreground color that contrasts with a background: black on a light
/// background, white on a dark one.
pub open spec fn contrasting(bg: (u8, u8, u8)) -> (u8, u8, u8) {
    if is_light(bg) {
        (0u8, 0u8, 0u8)
    } else {
        (0xffu8, 0xffu8, 0xffu8)
    }
}

/// Gray level of a color, computed through linear light so that saturated
/// colors are judged by how bright they look.
pub fn conv_grayscale(color: (u8, u8, u8)) -> (r: u8)
    ensures
        r == gray_level(color),
{
    let red = linear_light(color.0) as u64;
    let green = linear_light(color.1) as u64;
    let blue = linear_light(color.2) as u64;
    let sum: u64 = 299 * red + 587 * green + 114 * blue;
    let mut level: u8 = 255;
    loop
        invariant
            sum as int == weighted_light(color),
            level_below(sum as int, level) == gray_level(color),
        decreases level,
    {
        let light = linear_light(level) as u64;
        if level == 0 || 1000 * light <= sum {
            return level;
        }
        level = level - 1;
    }
}

/// Foreground color for a background: black where the background's gray
/// level is above 0xA0, white otherwise.
pub fn calc_fg_color(bg: (u8, u8, u8)) -> (r: (u8, u8, u8))
    ensures
        r == contrasting(bg),
{
    if conv_grayscale(bg) > 0xA0u8 {
        (0u8, 0u8, 0u8)
    } else {
        (0xffu8, 0xffu8, 0xffu8)
    }
}


/// Consecutive levels have strictly increasing linear light.
proof fn lemma_light_steps_up(k: u8)
    requires
        k < 255,
    ensures
        linear_light_spec(k) < linear_light_spec((k + 1) as u8),
{
}

/// Linear light is strictly increasing in the level.
proof fn lemma_light_increasing(a: u8, b: u8)
    requires
        a < b,
    ensures
        linear_light_spec(a) < linear_light_spec(b),
    decreases b - a,
{
    lemma_light_steps_up((b - 1) as u8);
    if a < b - 1 {
        lemma_light_increasing(a, (b - 1) as u8);
    }
}

/// Searching down from any `top >= k` for the light of level `k` finds `k`.
proof fn lemma_level_below_finds(k: u8, top: u8)
    requires
        k <= top,
    ensures
        level_below(1000 * linear_light_spec(k), top) == k,
    decreases top,
{
    if k < top {
        lemma_light_increasing(k, top);
        lemma_level_below_finds(k, (top - 1) as u8);
    }
}

/// Converting a level to linear light and back gives the level itself: a
/// neutral gray `(k, k, k)` has gray level `k`.
pub proof fn lemma_neutral_gray_round_trip(k: u8)
    ensures
        gray_level((k, k, k)) == k,
{
    assert(weighted_light((k, k, k)) == 1000 * linear_light_spec(k));
    lemma_level_below_finds(k, 255);
}

} // verus!
