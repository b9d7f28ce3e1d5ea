//! The fade curve of a displayed image: opacity over the time it is shown.

use vstd::prelude::*;

verus! {

/// An opacity between 0 and 1, held exactly as a fraction.
#[derive(Clone, Copy, Debug)]
pub struct Opacity {
    pub numerator: u64,
    pub denominator: u64,
}

impl Opacity {
    /// A proper fraction of a positive denominator: a value in `[0, 1]`.
    pub open spec fn valid(self) -> bool {
        0 < self.denominator && self.numerator <= self.denominator
    }

    /// Opacity 0.
    pub open spec fn spec_is_transparent(&self) -> bool {
        self.numerator == 0
    }

    /// Opacity 1.
    pub open spec fn spec_is_opaque(&self) -> bool {
        self.numerator == self.denominator
    }

    #[verifier::when_used_as_spec(spec_is_transparent)]
    pub fn is_transparent(&self) -> (b: bool)
        ensures
            b == self.is_transparent(),
    {
        self.numerator == 0
    }

    #[verifier::when_used_as_spec(spec_is_opaque)]
    pub fn is_opaque(&self) -> (b: bool)
        ensures
            b == self.is_opaque(),
    {
        self.numerator == self.denominator
    }
}

/// `t`, held to the window `[0, total]`.
pub open spec fn clamped(t: int, total: int) -> int {
    if t < 0 {
        0
    } else if t > total {
        total
    } else {
        t
    }
}

/// Height of the trapezoid at `t`, before the cap and in units of time:
/// `total - |2 * clamped(t) - total|`. It rises from 0 at the start to
/// `total` in the middle of the window and falls back to 0 at its end.
pub open spec fn rise(t: int, total: int) -> int {
    let doubled = 2 * clamped(t, total) - total;
    total - if doubled < 0 {
        -doubled
    } else {
        doubled
    }
}

/// Opacity at time `t` of an image shown for `total` that fades for `fade`,
/// all in nanoseconds.
///
/// With `u = clamped(t) / total` and `f = fade / total` the opacity is
/// `(1 - |2u - 1|) / f`, capped at 1. Both sides of the division are
/// multiplied by `total` here, which gives `rise(t, total) / fade`. A window
/// of no length, or a fade of no length, is fully opaque.
pub open spec fn alpha_of(t: int, total: u64, fade: u64) -> Opacity {
    if total == 0 || fade == 0 {
        Opacity { numerator: 1, denominator: 1 }
    } else if rise(t, total as int) >= fade {
        Opacity { numerator: fade, denominator: fade }
    } else {
        Opacity { numerator: rise(t, total as int) as u64, denominator: fade }
    }
}

/// Opacity at time `t` of an image shown for `total_duration` that fades for
/// `fade_duration`, all in nanoseconds.
pub fn alpha(t: u64, total_duration: u64, fade_duration: u64) -> (a: Opacity)
    ensures
        a == alpha_of(t as int, total_duration, fade_duration),
        a.valid(),
{
    if total_duration == 0 || fade_duration == 0 {
        return Opacity { numerator: 1, denominator: 1 };
    }
    let within: u64 = if t > total_duration { total_duration } else { t };
    let left: u64 = total_duration - within;
    let nearer: u64 = if within < left { within } else { left };
    let height: u128 = 2 * (nearer as u128);
    assert(height == rise(t as int, total_duration as int));
    if height >= fade_duration as u128 {
        Opacity { numerator: fade_duration, denominator: fade_duration }
    } else {
        Opacity { numerator: height as u64, denominator: fade_duration }
    }
}

/// The curve is a trapezoid: transparent at the start of the window and from
/// its end on, opaque wherever both ends are at least half a fade away, and
/// the same at equal distances from the two ends.
pub proof fn alpha_is_a_trapezoid(t: u64, total: u64, fade: u64)
    requires
        total > 0,
        fade > 0,
    ensures
        alpha_of(t as int, total, fade).valid(),
        t == 0 || t >= total ==> alpha_of(t as int, total, fade).is_transparent(),
        alpha_of(t as int, total, fade).is_opaque() <==> fade <= 2 * t && fade <= 2 * (total - t),
        t <= total ==> alpha_of(t as int, total, fade) == alpha_of(total - t, total, fade),
{
}

/// The curve rises up to the middle of the window and falls after it.
pub proof fn alpha_rises_then_falls(earlier: u64, later: u64, total: u64, fade: u64)
    requires
        total > 0,
        fade > 0,
        earlier <= later,
    ensures
        alpha_of(earlier as int, total, fade).denominator == alpha_of(
            later as int,
            total,
            fade,
        ).denominator,
        2 * later <= total ==> alpha_of(earlier as int, total, fade).numerator <= alpha_of(
            later as int,
            total,
            fade,
        ).numerator,
        2 * earlier >= total ==> alpha_of(earlier as int, total, fade).numerator >= alpha_of(
            later as int,
            total,
            fade,
        ).numerator,
{
}

/// How far an image is into its fade, in nanoseconds.
#[derive(Clone, Copy, Debug)]
pub struct FadeInOut {
    /// How long the image is shown.
    pub total_duration: u64,
    /// How long one fade is set to take.
    pub fade_duration: u64,
    /// Time since the image appeared. It only grows.
    pub t: u64,
}

impl FadeInOut {
    /// A fade at its start.
    pub fn new(total_duration: u64, fade_duration: u64) -> (f: FadeInOut)
        ensures
            f == (FadeInOut { total_duration, fade_duration, t: 0 }),
    {
        FadeInOut { total_duration, fade_duration, t: 0 }
    }

    /// The fade after `delta` more nanoseconds. The time stops at the
    /// largest value it can hold, far beyond any window, where the opacity
    /// is that of the true sum.
    pub open spec fn ticked(self, delta: u64) -> FadeInOut {
        FadeInOut {
            t: if self.t + delta > u64::MAX {
                u64::MAX
            } else {
                (self.t + delta) as u64
            },
            ..self
        }
    }

    /// The opacity now.
    pub open spec fn opacity(self) -> Opacity {
        alpha_of(self.t as int, self.total_duration, self.fade_duration)
    }

    /// Lets `delta` nanoseconds pass.
    pub fn tick(&mut self, delta: u64)
        ensures
            *final(self) == old(self).ticked(delta),
            final(self).opacity() == alpha_of(
                old(self).t + delta,
                old(self).total_duration,
                old(self).fade_duration,
            ),
    {
        self.t = if delta > u64::MAX - self.t { u64::MAX } else { self.t + delta };
    }

    /// The opacity now.
    pub fn alpha(&self) -> (a: Opacity)
        ensures
            a == self.opacity(),
            a.valid(),
    {
        alpha(self.t, self.total_duration, self.fade_duration)
    }
}

} // verus!
