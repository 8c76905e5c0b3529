//! The display colour: one of the seven lit corners of the RGB cube.

use vstd::prelude::*;
use crate::random::gen_ratio_half;

verus! {

/// An opaque RGB colour whose channels are each fully off or fully on.
#[derive(Clone, Copy, Debug, PartialEq, Eq, Structural)]
pub struct Color {
    pub r: bool,
    pub g: bool,
    pub b: bool,
}

/// How often `randomized_color` draws again before it stops relying on
/// chance.
pub const MAX_DRAWS: u32 = 64;

impl Color {
    /// All three channels off.
    pub open spec fn is_black(self) -> bool {
        !self.r && !self.g && !self.b
    }

    /// The colour's place among the eight corners: red counts 4, green 2,
    /// blue 1.
    pub open spec fn index(self) -> nat {
        ((if self.r { 4nat } else { 0nat }) + (if self.g { 2nat } else { 0nat })
            + (if self.b { 1nat } else { 0nat })) as nat
    }

    /// The corner at place `index % 8`.
    pub open spec fn at(index: nat) -> Color {
        Color { r: index % 8 >= 4, g: index % 4 >= 2, b: index % 2 >= 1 }
    }
}

/// All three channels on.
pub open spec fn white() -> Color {
    Color { r: true, g: true, b: true }
}

/// The colour that three channel draws stand for: the drawn channels, with
/// black promoted to white.
pub open spec fn drawn_color(r: bool, g: bool, b: bool) -> Color {
    if !r && !g && !b {
        white()
    } else {
        Color { r, g, b }
    }
}

/// Whether `candidate` may replace `previous`: it must differ from it, where
/// there is one.
pub open spec fn acceptable(candidate: Color, previous: Option<Color>) -> bool {
    match previous {
        Some(p) => candidate != p,
        None => true,
    }
}

/// The lit colour after `c` in index order, wrapping from white to blue.
pub open spec fn successor(c: Color) -> Color {
    Color::at(c.index() % 7 + 1)
}

/// Turns three channel draws into a colour.
pub fn color_from_draws(r: bool, g: bool, b: bool) -> (c: Color)
    ensures
        c == drawn_color(r, g, b),
        !c.is_black(),
{
    if !r && !g && !b {
        Color { r: true, g: true, b: true }
    } else {
        Color { r, g, b }
    }
}

/// Tells whether `candidate` differs from `previous`, where there is one.
pub fn is_acceptable(candidate: &Color, previous: Option<&Color>) -> (ok: bool)
    ensures
        ok == acceptable(*candidate, match previous {
            Some(p) => Some(*p),
            None => None,
        }),
{
    match previous {
        Some(p) => !(*candidate == *p),
        None => true,
    }
}

/// The deterministic way out: the lit colour that follows `c` by index.
pub fn next_color(c: &Color) -> (n: Color)
    ensures
        n == successor(*c),
        !n.is_black(),
        n != *c,
{
    match (c.r, c.g, c.b) {
        (false, false, false) => Color { r: false, g: false, b: true },
        (false, false, true) => Color { r: false, g: true, b: false },
        (false, true, false) => Color { r: false, g: true, b: true },
        (false, true, true) => Color { r: true, g: false, b: false },
        (true, false, false) => Color { r: true, g: false, b: true },
        (true, false, true) => Color { r: true, g: true, b: false },
        (true, true, false) => Color { r: true, g: true, b: true },
        (true, true, true) => Color { r: false, g: false, b: true },
    }
}

/// A random lit colour that differs from `previous`, where there is one.
///
/// Each channel is a fair coin flip and black is promoted to white; a colour
/// equal to `previous` is thrown away and drawn anew. Should `MAX_DRAWS`
/// draws in a row all repeat `previous`, its successor by index is returned
/// instead.
pub fn randomized_color(previous: Option<&Color>) -> (c: Color)
    ensures
        !c.is_black(),
        previous matches Some(p) ==> c != *p,
{
    let mut rng = rand::thread_rng();
    let mut draws: u32 = 0;
    while draws < MAX_DRAWS
        invariant
            draws <= MAX_DRAWS,
        decreases MAX_DRAWS - draws,
    {
        let r = gen_ratio_half(&mut rng);
        let g = gen_ratio_half(&mut rng);
        let b = gen_ratio_half(&mut rng);
        let result = color_from_draws(r, g, b);
        if is_acceptable(&result, previous) {
            return result;
        }
        draws = draws + 1;
    }
    match previous {
        Some(p) => next_color(p),
        None => color_from_draws(true, true, true),
    }
}

} // verus!
