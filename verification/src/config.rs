//! Per-trigger burst parameters and the top-level configuration.

use vstd::prelude::*;
use vstd::std_specs::cmp::PartialEqSpecImpl;

verus! {

/// Particle shape chosen by the user for one trigger.
#[derive(Debug, Clone, Copy, Eq)]
pub enum FxShape {
    Default,
    Disc,
    Square,
    Ring,
    Triangle,
    Star,
    Heart,
    /// Key bursts only: the particles are the glyphs of the pressed key's label.
    Typed,
}

impl PartialEq for FxShape {
    fn eq(&self, other: &Self) -> (r: bool) {
        match (*self, *other) {
            (FxShape::Default, FxShape::Default) => true,
            (FxShape::Disc, FxShape::Disc) => true,
            (FxShape::Square, FxShape::Square) => true,
            (FxShape::Ring, FxShape::Ring) => true,
            (FxShape::Triangle, FxShape::Triangle) => true,
            (FxShape::Star, FxShape::Star) => true,
            (FxShape::Heart, FxShape::Heart) => true,
            (FxShape::Typed, FxShape::Typed) => true,
            _ => false,
        }
    }
}

impl PartialEqSpecImpl for FxShape {
    open spec fn obeys_eq_spec() -> bool {
        true
    }

    open spec fn eq_spec(&self, other: &Self) -> bool {
        *self == *other
    }
}

impl Default for FxShape {
    fn default() -> (r: Self)
        ensures
            r == FxShape::Default,
    {
        FxShape::Default
    }
}

/// Colour palette chosen by the user for one trigger.
#[derive(Debug, Clone, Copy, Eq)]
pub enum FxPalette {
    Default,
    /// Every particle white.
    Mono,
    /// Five muted pastel swatches.
    Pastel,
    /// Five saturated neon swatches.
    Neon,
    /// Hue slides with the particle index.
    Rainbow,
}

impl PartialEq for FxPalette {
    fn eq(&self, other: &Self) -> (r: bool) {
        match (*self, *other) {
            (FxPalette::Default, FxPalette::Default) => true,
            (FxPalette::Mono, FxPalette::Mono) => true,
            (FxPalette::Pastel, FxPalette::Pastel) => true,
            (FxPalette::Neon, FxPalette::Neon) => true,
            (FxPalette::Rainbow, FxPalette::Rainbow) => true,
            _ => false,
        }
    }
}

impl PartialEqSpecImpl for FxPalette {
    open spec fn obeys_eq_spec() -> bool {
        true
    }

    open spec fn eq_spec(&self, other: &Self) -> bool {
        *self == *other
    }
}

impl Default for FxPalette {
    fn default() -> (r: Self)
        ensures
            r == FxPalette::Default,
    {
        FxPalette::Default
    }
}

/// The continuous part of a trigger's parameters: initial speed, spread cone,
/// gravity, lifetime and base radius. The library moves it around but never
/// looks inside; the host supplies the presets and the stepping arithmetic.
/// Contracts say which of these methods produced a motion, and from what,
/// with `call_ensures`.
pub trait Motion: Sized + Copy {
    /// Motion carried by `FxParams::default()`.
    fn initial() -> Self;

    /// Motion of the default double-click parameters.
    fn double_click_initial() -> Self;

    /// Motion of the default key parameters.
    fn key_initial() -> Self;

    /// This motion with `field` moved by `dir` steps of its increment and
    /// clamped to its range.
    fn step(self, field: MotionField, dir: i32) -> Self;
}

/// One of the continuous parameters held by a [`Motion`].
#[derive(Debug, Clone, Copy, PartialEq, Eq, Structural)]
pub enum MotionField {
    Speed,
    Spread,
    Gravity,
    Lifetime,
    Radius,
}

/// Everything one trigger's burst is made of: how many particles, how they
/// move, whether they twinkle, and their shape and palette overrides.
#[derive(Debug, Clone, Copy)]
pub struct FxParams<M> {
    /// Particles per burst (the settings panel keeps it within 1..=50).
    pub count: u32,
    pub motion: M,
    /// Overlay a sinusoidal alpha pulse on the linear fade.
    pub twinkle: bool,
    pub shape: FxShape,
    pub palette: FxPalette,
}

impl<M: Motion> Default for FxParams<M> {
    fn default() -> (r: Self)
        ensures
            r.count == 12,
            !r.twinkle,
            r.shape == FxShape::Default,
            r.palette == FxPalette::Default,
            call_ensures(M::initial, (), r.motion),
    {
        FxParams {
            count: default_count(),
            motion: M::initial(),
            twinkle: false,
            shape: FxShape::default(),
            palette: FxPalette::default(),
        }
    }
}

/// Key defaults: typed glyphs in rainbow colours, so a keystroke bursts into
/// copies of the pressed character.
pub fn default_key_params<M: Motion>() -> (r: FxParams<M>)
    ensures
        r.count == 10,
        !r.twinkle,
        r.shape == FxShape::Typed,
        r.palette == FxPalette::Rainbow,
        call_ensures(M::key_initial, (), r.motion),
{
    FxParams {
        count: 10,
        motion: M::key_initial(),
        twinkle: false,
        shape: FxShape::Typed,
        palette: FxPalette::Rainbow,
    }
}

/// Top-level configuration: a master switch and independent parameters for
/// each of the four triggers.
#[derive(Debug, Clone, Copy)]
pub struct Config<M> {
    pub enabled: bool,
    /// Left click.
    pub mouse: FxParams<M>,
    /// Right click.
    pub right: FxParams<M>,
    /// Double click.
    pub double: FxParams<M>,
    /// Key press.
    pub key: FxParams<M>,
}

impl<M: Motion> Default for Config<M> {
    fn default() -> (r: Self)
        ensures
            r.enabled,
            r.mouse.count == 12 && !r.mouse.twinkle,
            r.mouse.shape == FxShape::Default && r.mouse.palette == FxPalette::Default,
            r.right.count == 12 && !r.right.twinkle,
            r.right.shape == FxShape::Default && r.right.palette == FxPalette::Neon,
            r.right.motion == r.mouse.motion,
            call_ensures(M::initial, (), r.mouse.motion),
            r.double.count == 20 && r.double.twinkle,
            r.double.shape == FxShape::Default && r.double.palette == FxPalette::Default,
            call_ensures(M::double_click_initial, (), r.double.motion),
            r.key.count == 10 && !r.key.twinkle,
            r.key.shape == FxShape::Typed && r.key.palette == FxPalette::Rainbow,
            call_ensures(M::key_initial, (), r.key.motion),
    {
        let base: FxParams<M> = FxParams::default();
        Config {
            enabled: true,
            mouse: base,
            right: FxParams { palette: FxPalette::Neon, ..base },
            double: FxParams {
                count: 20,
                motion: M::double_click_initial(),
                twinkle: true,
                ..base
            },
            key: default_key_params(),
        }
    }
}

/// Particles per burst when the configuration leaves the count out.
pub fn default_count() -> (r: u32)
    ensures
        r == 12,
{
    12
}

/// `enabled` when the configuration leaves it out.
pub fn default_true() -> (r: bool)
    ensures
        r,
{
    true
}

} // verus!
