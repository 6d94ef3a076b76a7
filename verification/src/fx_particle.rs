//! The particle pool: how a burst is planned (count, random draws, colour
//! and shape of every particle) and how the pool is kept under its cap.
//!
//! The random draws come from a 32-bit linear congruential generator seeded
//! in the pool, so consecutive bursts differ without an outside crate.

use vstd::prelude::*;

use crate::config::{FxPalette, FxShape};

verus! {

/// How one particle is drawn.
#[derive(Debug, Clone, Copy, PartialEq, Eq, Structural)]
pub enum ShapeKind {
    Disc,
    Square,
    Ring,
    Glyph(char),
}

/// Which colour a particle gets: one of the palette's five swatches, plain
/// white, or a hue taken from the particle's place in the burst.
#[derive(Debug, Clone, Copy, PartialEq, Eq, Structural)]
pub enum ColorPick {
    /// Index into the palette's swatches, below 5.
    Swatch(u32),
    White,
    Hue,
}

/// Everything about one particle of a burst that is not continuous: its
/// index, its three 16-bit random draws (angle jitter, speed, radius, each
/// over 0..=65535), its colour and its shape.
#[derive(Debug, Clone, Copy, PartialEq, Eq, Structural)]
pub struct SpawnSlot {
    pub index: usize,
    pub jitter: u32,
    pub speed: u32,
    pub radius: u32,
    pub color: ColorPick,
    pub shape: ShapeKind,
}

/// Most particles alive at once.
pub const PARTICLE_CAP: usize = 512;

/// One step of the generator: `seed * 1664525 + 1013904223` modulo 2^32.
pub open spec fn lcg_next(seed: u32) -> u32 {
    ((seed as nat * 1664525 + 1013904223) % 0x1_0000_0000) as u32
}

/// The generator state after `k` steps from `seed`.
pub open spec fn lcg_iter(seed: u32, k: nat) -> u32
    decreases k,
{
    if k == 0 {
        seed
    } else {
        lcg_next(lcg_iter(seed, (k - 1) as nat))
    }
}

/// The 16 bits of a draw that become a value in `[0, 1]`: bits 8..24.
pub open spec fn unit_numerator(r: u32) -> u32 {
    (r / 256) % 65536
}

pub open spec fn spec_resolve_shape(user: FxShape, fallback: ShapeKind, label: Seq<char>, i: int) -> ShapeKind {
    match user {
        FxShape::Default => fallback,
        FxShape::Disc => ShapeKind::Disc,
        FxShape::Square => ShapeKind::Square,
        FxShape::Ring => ShapeKind::Ring,
        FxShape::Triangle => ShapeKind::Glyph('\u{25B2}'),
        FxShape::Star => ShapeKind::Glyph('\u{2605}'),
        FxShape::Heart => ShapeKind::Glyph('\u{2665}'),
        FxShape::Typed => if label.len() == 0 {
            ShapeKind::Disc
        } else {
            ShapeKind::Glyph(label[i % (label.len() as int)])
        },
    }
}

/// The shape particle `i` of a burst gets. A typed burst spells its label out
/// over and over (`"Enter"` over twelve particles: E n t e r E n t e r E n);
/// with no label it falls back to discs.
pub fn resolve_shape(user: FxShape, fallback: ShapeKind, _seed: u32, label_chars: &[char], i: usize) -> (r: ShapeKind)
    ensures
        r == spec_resolve_shape(user, fallback, label_chars@, i as int),
{
    match user {
        FxShape::Default => fallback,
        FxShape::Disc => ShapeKind::Disc,
        FxShape::Square => ShapeKind::Square,
        FxShape::Ring => ShapeKind::Ring,
        FxShape::Triangle => ShapeKind::Glyph('\u{25B2}'),
        FxShape::Star => ShapeKind::Glyph('\u{2605}'),
        FxShape::Heart => ShapeKind::Glyph('\u{2665}'),
        FxShape::Typed => {
            if label_chars.len() == 0 {
                ShapeKind::Disc
            } else {
                ShapeKind::Glyph(label_chars[i % label_chars.len()])
            }
        },
    }
}

/// The shape a palette falls back to when the user left the shape at default.
pub fn default_shape_for_palette(_p: FxPalette) -> (r: ShapeKind)
    ensures
        r == ShapeKind::Disc,
{
    ShapeKind::Disc
}

pub open spec fn spec_color_pick(palette: FxPalette, i: int, seed: u32) -> ColorPick {
    match palette {
        FxPalette::Default => ColorPick::Swatch(((i + seed / 0x100_0000) % 5) as u32),
        FxPalette::Mono => ColorPick::White,
        FxPalette::Pastel | FxPalette::Neon => ColorPick::Swatch((i % 5) as u32),
        FxPalette::Rainbow => ColorPick::Hue,
    }
}

/// The colour particle `i` gets: the default palette starts its five swatches
/// at an offset drawn from `seed`, pastel and neon walk them in order.
pub fn pick_color(palette: FxPalette, i: usize, seed: u32) -> (r: ColorPick)
    requires
        palette == FxPalette::Default ==> i + seed / 0x100_0000 <= usize::MAX,
    ensures
        r == spec_color_pick(palette, i as int, seed),
{
    match palette {
        FxPalette::Default => {
            proof {
                assert(seed >> 24 == seed / 0x100_0000) by (bit_vector);
            }
            let k: usize = (i + (seed >> 24) as usize) % 5;
            ColorPick::Swatch(k as u32)
        },
        FxPalette::Mono => ColorPick::White,
        FxPalette::Pastel | FxPalette::Neon => ColorPick::Swatch((i % 5) as u32),
        FxPalette::Rainbow => ColorPick::Hue,
    }
}

/// Particles in a burst of `count`: at least one.
pub open spec fn burst_len(count: u32) -> nat {
    if count == 0 {
        1
    } else {
        count as nat
    }
}

/// Slot `i` of a burst whose generator started at `seed`: every particle draws
/// five times, for jitter, speed, radius, colour and shape, in that order.
pub open spec fn spec_slot(
    seed: u32,
    i: int,
    shape: FxShape,
    palette: FxPalette,
    label: Seq<char>,
) -> SpawnSlot {
    SpawnSlot {
        index: i as usize,
        jitter: unit_numerator(lcg_iter(seed, (5 * i + 1) as nat)),
        speed: unit_numerator(lcg_iter(seed, (5 * i + 2) as nat)),
        radius: unit_numerator(lcg_iter(seed, (5 * i + 3) as nat)),
        color: spec_color_pick(palette, i, lcg_iter(seed, (5 * i + 4) as nat)),
        shape: spec_resolve_shape(shape, ShapeKind::Disc, label, i),
    }
}

/// The last `PARTICLE_CAP` of `s`, or all of it when it is that short.
pub open spec fn capped<P>(s: Seq<P>) -> Seq<P> {
    if s.len() > PARTICLE_CAP {
        s.subrange(s.len() - PARTICLE_CAP, s.len() as int)
    } else {
        s
    }
}

/// The live particles and the generator state.
pub struct FxState<P> {
    pub particles: Vec<P>,
    /// Generator state; every draw advances it one step.
    pub seed: u32,
}

impl<P> Default for FxState<P> {
    fn default() -> (r: Self)
        ensures
            r.particles@.len() == 0,
            r.seed == 0,
    {
        FxState { particles: Vec::new(), seed: 0 }
    }
}

impl<P> FxState<P> {
    /// Advances the generator and returns its new state.
    pub fn next_rand(&mut self) -> (r: u32)
        ensures
            r == lcg_next(old(self).seed),
            final(self).seed == r,
            final(self).particles == old(self).particles,
    {
        let s: u32 = self.seed.wrapping_mul(1664525).wrapping_add(1013904223);
        proof {
            let a: nat = self.seed as nat * 1664525;
            let m: nat = 0x1_0000_0000;
            assert((a % m + 1013904223) % m == (a + 1013904223) % m) by {
                vstd::arithmetic::div_mod::lemma_add_mod_noop(a as int, 1013904223, m as int);
                vstd::arithmetic::div_mod::lemma_mod_twice(1013904223, m as int);
            }
        }
        self.seed = s;
        s
    }

    /// One draw reduced to the 16 bits that become a value in `[0, 1]`
    /// (divide by 65535).
    pub fn rand_unit(&mut self) -> (r: u32)
        ensures
            r == unit_numerator(lcg_next(old(self).seed)),
            r <= 65535,
            final(self).seed == lcg_next(old(self).seed),
            final(self).particles == old(self).particles,
    {
        let x: u32 = self.next_rand();
        let r: u32 = (x >> 8) & 0xFFFF;
        assert(r == (x / 256) % 65536) by (bit_vector)
            requires
                r == (x >> 8) & 0xFFFF,
        ;
        r
    }

    /// Plans one burst of `count` particles (at least one): the random draws,
    /// colour and shape of each, consuming five draws per particle.
    pub fn plan_burst(&mut self, count: u32, shape: FxShape, palette: FxPalette, label_chars: &[char]) -> (r: Vec<SpawnSlot>)
        requires
            burst_len(count) + 255 <= usize::MAX,
        ensures
            r@.len() == burst_len(count),
            forall|i: int|
                0 <= i < r@.len() ==> #[trigger] r@[i] == spec_slot(
                    old(self).seed,
                    i,
                    shape,
                    palette,
                    label_chars@,
                ),
            final(self).seed == lcg_iter(old(self).seed, 5 * burst_len(count)),
            final(self).particles == old(self).particles,
            shape == FxShape::Default ==> forall|i: int|
                0 <= i < r@.len() ==> (#[trigger] r@[i]).shape == ShapeKind::Disc,
    {
        let ghost s0 = self.seed;
        let n: usize = if count == 0 {
            1
        } else {
            count as usize
        };
        let mut slots: Vec<SpawnSlot> = Vec::new();
        let mut i: usize = 0;
        while i < n
            invariant
                n == burst_len(count),
                n + 255 <= usize::MAX,
                i <= n,
                slots@.len() == i,
                self.seed == lcg_iter(s0, (5 * i) as nat),
                self.particles == old(self).particles,
                s0 == old(self).seed,
                forall|j: int|
                    0 <= j < i ==> #[trigger] slots@[j] == spec_slot(s0, j, shape, palette, label_chars@),
            decreases n - i,
        {
            let jitter = self.rand_unit();
            let speed = self.rand_unit();
            let radius = self.rand_unit();
            let color_draw = self.next_rand();
            assert(color_draw / 0x100_0000 <= 255) by (bit_vector);
            let color = pick_color(palette, i, color_draw);
            let shape_draw = self.next_rand();
            let kind = resolve_shape(shape, default_shape_for_palette(palette), shape_draw, label_chars, i);
            proof {
                assert(lcg_iter(s0, (5 * i + 1) as nat) == lcg_next(lcg_iter(s0, (5 * i) as nat)));
                assert(lcg_iter(s0, (5 * i + 2) as nat) == lcg_next(lcg_iter(s0, (5 * i + 1) as nat)));
                assert(lcg_iter(s0, (5 * i + 3) as nat) == lcg_next(lcg_iter(s0, (5 * i + 2) as nat)));
                assert(lcg_iter(s0, (5 * i + 4) as nat) == lcg_next(lcg_iter(s0, (5 * i + 3) as nat)));
                assert(lcg_iter(s0, (5 * i + 5) as nat) == lcg_next(lcg_iter(s0, (5 * i + 4) as nat)));
            }
            let slot = SpawnSlot { index: i, jitter, speed, radius, color, shape: kind };
            assert(slot == spec_slot(s0, i as int, shape, palette, label_chars@));
            slots.push(slot);
            i = i + 1;
        }
        slots
    }

    /// Keeps only the newest `PARTICLE_CAP` particles.
    fn enforce_cap(&mut self)
        ensures
            final(self).particles@ == capped(old(self).particles@),
            final(self).seed == old(self).seed,
    {
        let len: usize = self.particles.len();
        if len > PARTICLE_CAP {
            let drop_n: usize = len - PARTICLE_CAP;
            let kept = self.particles.split_off(drop_n);
            self.particles = kept;
        }
    }

    /// Adds a freshly spawned burst after the live particles, then drops the
    /// oldest ones beyond the cap.
    pub fn add_burst(&mut self, fresh: Vec<P>)
        ensures
            final(self).particles@ == capped(old(self).particles@ + fresh@),
            final(self).seed == old(self).seed,
    {
        let mut fresh = fresh;
        self.particles.append(&mut fresh);
        self.enforce_cap();
    }
}


/// The pool is hard-capped: whatever was live and however large the burst,
/// at most `PARTICLE_CAP` particles remain, and nothing is dropped while
/// the pool is within the cap.
pub proof fn lemma_pool_capped<P>(live: Seq<P>, fresh: Seq<P>)
    ensures
        capped(live + fresh).len() <= PARTICLE_CAP,
        live.len() + fresh.len() <= PARTICLE_CAP ==> capped(live + fresh) == live + fresh,
{
}

/// The oldest particles are dropped first: what survives is the newest
/// stretch of the pool, so a burst no larger than the cap stays whole.
pub proof fn lemma_new_burst_kept<P>(live: Seq<P>, fresh: Seq<P>)
    requires
        fresh.len() <= PARTICLE_CAP,
    ensures
        ({
            let kept = capped(live + fresh);
            &&& kept.len() >= fresh.len()
            &&& kept.subrange(kept.len() - fresh.len(), kept.len() as int) == fresh
            &&& kept == (live + fresh).subrange((live + fresh).len() - kept.len(), (live + fresh).len() as int)
        }),
{
    let all = live + fresh;
    let kept = capped(all);
    assert(kept.subrange(kept.len() - fresh.len(), kept.len() as int) =~= fresh);
    assert(kept =~= all.subrange(all.len() - kept.len(), all.len() as int));
}

/// A typed burst spells its label out cyclically, one glyph per particle.
pub proof fn lemma_typed_burst_spells_label(seed: u32, i: int, palette: FxPalette, label: Seq<char>)
    requires
        label.len() > 0,
        0 <= i,
    ensures
        spec_slot(seed, i, FxShape::Typed, palette, label).shape == ShapeKind::Glyph(
            label[i % (label.len() as int)],
        ),
{
}


/// Every draw moves the generator: its parity flips at each step, so no two
/// consecutive draws are equal.
pub proof fn lemma_draw_changes_state(seed: u32)
    ensures
        lcg_next(seed) % 2 != seed % 2,
        lcg_next(seed) != seed,
{
    let x: int = seed as int * 1664525 + 1013904223;
    vstd::arithmetic::div_mod::lemma_mod_mod(x, 2, 0x8000_0000);
    assert(x == 2 * (seed as int * 832262 + 506952111) + (seed as int + 1)) by (nonlinear_arith)
        requires
            x == seed as int * 1664525 + 1013904223,
    ;
    vstd::arithmetic::div_mod::lemma_mod_multiples_vanish(
        seed as int * 832262 + 506952111,
        seed as int + 1,
        2,
    );
}


/// A key's label leaves no trace in a burst that is not typed: every slot,
/// and the generator state afterwards, are the same whatever the label.
/// (With equal labels two pools in the same state plan the same burst for
/// any shape, as `plan_burst` fixes every slot from the seed and arguments.)
pub proof fn lemma_label_leaves_no_trace(
    seed: u32,
    i: int,
    shape: FxShape,
    palette: FxPalette,
    label1: Seq<char>,
    label2: Seq<char>,
)
    requires
        shape != FxShape::Typed,
    ensures
        spec_slot(seed, i, shape, palette, label1) == spec_slot(seed, i, shape, palette, label2),
{
}


/// A fixed shape setting gives its own kind whatever the fallback, label and
/// index; the glyph shapes give their own symbol; the default setting takes
/// the fallback; a typed setting spells the label, or falls back to discs
/// when there is no label.
pub proof fn lemma_shape_settings(fallback: ShapeKind, label: Seq<char>, i: int)
    ensures
        spec_resolve_shape(FxShape::Disc, fallback, label, i) == ShapeKind::Disc,
        spec_resolve_shape(FxShape::Square, fallback, label, i) == ShapeKind::Square,
        spec_resolve_shape(FxShape::Ring, fallback, label, i) == ShapeKind::Ring,
        spec_resolve_shape(FxShape::Triangle, fallback, label, i) == ShapeKind::Glyph('▲'),
        spec_resolve_shape(FxShape::Star, fallback, label, i) == ShapeKind::Glyph('★'),
        spec_resolve_shape(FxShape::Heart, fallback, label, i) == ShapeKind::Glyph('♥'),
        spec_resolve_shape(FxShape::Default, fallback, label, i) == fallback,
        label.len() == 0 ==> spec_resolve_shape(FxShape::Typed, fallback, label, i)
            == ShapeKind::Disc,
        label.len() > 0 && 0 <= i ==> (spec_resolve_shape(FxShape::Typed, fallback, label, i) matches
            ShapeKind::Glyph(c) && label.contains(c)),
{
    if label.len() > 0 && 0 <= i {
        let k = i % (label.len() as int);
        assert(0 <= k < label.len());
        assert(label[k] == label[k]);
    }
}

/// Every particle of a burst with the default shape is a disc, whatever the
/// palette, label and seed.
pub proof fn lemma_default_burst_is_discs(seed: u32, i: int, palette: FxPalette, label: Seq<char>)
    ensures
        spec_slot(seed, i, FxShape::Default, palette, label).shape == ShapeKind::Disc,
{
}

/// Pastel and neon walk their five swatches in particle order, whatever the
/// seed: particle `i` gets swatch `i % 5`, so five particles in a row use all
/// five. Mono is always white and rainbow always a hue.
pub proof fn lemma_fixed_palettes(i: int, seed: u32)
    requires
        0 <= i,
    ensures
        spec_color_pick(FxPalette::Pastel, i, seed) == ColorPick::Swatch((i % 5) as u32),
        spec_color_pick(FxPalette::Neon, i, seed) == ColorPick::Swatch((i % 5) as u32),
        spec_color_pick(FxPalette::Pastel, i + 1, seed) != spec_color_pick(FxPalette::Pastel, i, seed),
        spec_color_pick(FxPalette::Neon, i + 1, seed) != spec_color_pick(FxPalette::Neon, i, seed),
        spec_color_pick(FxPalette::Mono, i, seed) == ColorPick::White,
        spec_color_pick(FxPalette::Rainbow, i, seed) == ColorPick::Hue,
        forall|k: int|
            0 <= k < 5 ==> spec_color_pick(FxPalette::Neon, k, seed) == ColorPick::Swatch(k as u32)
                && spec_color_pick(FxPalette::Pastel, k, seed) == ColorPick::Swatch(k as u32),
{
}

/// The default palette also walks its five swatches one per particle, from an
/// offset that only the seed's top byte decides: five particles in a row
/// get five different swatches.
pub proof fn lemma_default_palette_walks(i: int, seed: u32)
    requires
        0 <= i,
    ensures
        spec_color_pick(FxPalette::Default, i, seed) matches ColorPick::Swatch(k) && k < 5,
        forall|j: int, k: int|
            i <= j < k < i + 5 ==> #[trigger] spec_color_pick(FxPalette::Default, j, seed)
                != #[trigger] spec_color_pick(FxPalette::Default, k, seed),
        spec_color_pick(FxPalette::Default, i, 0) == ColorPick::Swatch((i % 5) as u32),
        spec_color_pick(FxPalette::Default, 0, seed) == ColorPick::Swatch(
            ((seed / 0x100_0000) % 5) as u32,
        ),
        forall|other: u32|
            other / 0x100_0000 == seed / 0x100_0000 ==> #[trigger] spec_color_pick(
                FxPalette::Default,
                i,
                other,
            ) == spec_color_pick(FxPalette::Default, i, seed),
{
    assert forall|j: int, k: int|
        i <= j < k < i + 5 implies #[trigger] spec_color_pick(FxPalette::Default, j, seed)
        != #[trigger] spec_color_pick(FxPalette::Default, k, seed) by {
        let b = j + seed / 0x100_0000;
        let d = k - j;
        assert(k + seed / 0x100_0000 == b + d);
        if (b + d) % 5 == b % 5 {
            vstd::arithmetic::div_mod::lemma_fundamental_div_mod(b + d, 5);
            vstd::arithmetic::div_mod::lemma_fundamental_div_mod(b, 5);
            assert(d == 5 * ((b + d) / 5 - b / 5)) by (nonlinear_arith)
                requires
                    b + d == 5 * ((b + d) / 5) + (b + d) % 5,
                    b == 5 * (b / 5) + b % 5,
                    (b + d) % 5 == b % 5,
            ;
            assert(false) by (nonlinear_arith)
                requires
                    d == 5 * ((b + d) / 5 - b / 5),
                    0 < d < 5,
            ;
        }
        vstd::arithmetic::div_mod::lemma_mod_bound(b, 5);
        vstd::arithmetic::div_mod::lemma_mod_bound(b + d, 5);
    }
}

/// The generator's step: zero goes to 1013904223, and each unit more in the
/// state moves the next state by 1664525, modulo 2^32.
pub proof fn lemma_generator_step(seed: u32)
    ensures
        lcg_next(0) == 1013904223,
        seed < u32::MAX ==> lcg_next((seed + 1) as u32) as int == (lcg_next(seed) as int + 1664525)
            % 0x1_0000_0000,
{
    if seed < u32::MAX {
        let x: int = seed as int * 1664525 + 1013904223;
        assert((seed + 1) as int * 1664525 + 1013904223 == x + 1664525) by (nonlinear_arith)
            requires
                x == seed as int * 1664525 + 1013904223,
        ;
        vstd::arithmetic::div_mod::lemma_add_mod_noop(x, 1664525, 0x1_0000_0000);
        vstd::arithmetic::div_mod::lemma_small_mod(1664525, 0x1_0000_0000);
        vstd::arithmetic::div_mod::lemma_mod_bound(x, 0x1_0000_0000);
    }
}

/// The draws of a burst are taken in order: particle 0 draws jitter, speed
/// and radius from the first three generator steps and its colour from the
/// fourth; particle `i + 1` draws exactly as particle `i` would from the
/// state five steps later.
pub proof fn lemma_draw_order(seed: u32, i: int, shape: FxShape, palette: FxPalette, label: Seq<char>)
    requires
        0 <= i,
    ensures
        spec_slot(seed, 0, shape, palette, label).jitter == unit_numerator(lcg_next(seed)),
        spec_slot(seed, 0, shape, palette, label).speed == unit_numerator(lcg_next(lcg_next(seed))),
        spec_slot(seed, 0, shape, palette, label).radius == unit_numerator(
            lcg_next(lcg_next(lcg_next(seed))),
        ),
        spec_slot(seed, 0, shape, palette, label).color == spec_color_pick(
            palette,
            0,
            lcg_next(lcg_next(lcg_next(lcg_next(seed)))),
        ),
        spec_slot(seed, i + 1, shape, palette, label).jitter == spec_slot(
            lcg_iter(seed, 5),
            i,
            shape,
            palette,
            label,
        ).jitter,
        spec_slot(seed, i + 1, shape, palette, label).speed == spec_slot(
            lcg_iter(seed, 5),
            i,
            shape,
            palette,
            label,
        ).speed,
        spec_slot(seed, i + 1, shape, palette, label).radius == spec_slot(
            lcg_iter(seed, 5),
            i,
            shape,
            palette,
            label,
        ).radius,
{
    reveal_with_fuel(lcg_iter, 5);
    lemma_iter_add(seed, 5, (5 * i + 1) as nat);
    lemma_iter_add(seed, 5, (5 * i + 2) as nat);
    lemma_iter_add(seed, 5, (5 * i + 3) as nat);
}

proof fn lemma_iter_add(seed: u32, a: nat, b: nat)
    ensures
        lcg_iter(seed, a + b) == lcg_iter(lcg_iter(seed, a), b),
    decreases b,
{
    if b > 0 {
        lemma_iter_add(seed, a, (b - 1) as nat);
        assert((a + b - 1) as nat == a + (b - 1) as nat);
    }
}

/// A burst asked for zero particles still spawns one; otherwise it spawns
/// exactly as many as asked.
pub proof fn lemma_burst_size(count: u32)
    ensures
        burst_len(0) == 1,
        count > 0 ==> burst_len(count) == count,
        burst_len(count) >= 1,
{
}


/// A draw becomes a value in `[0, 1]` through its bits 8..24: the low byte
/// and the top byte play no part.
pub proof fn lemma_unit_bits(x: u32, low: u32, top: u32)
    requires
        x < 65536,
        low < 256,
        top < 256,
    ensures
        unit_numerator((top * 0x100_0000 + x * 256 + low) as u32) == x,
        unit_numerator(x) <= 255,
{
    let r: int = top * 0x100_0000 + x * 256 + low;
    assert(r == (top * 65536 + x) * 256 + low) by (nonlinear_arith)
        requires
            r == top * 0x100_0000 + x * 256 + low,
    ;
    assert(r < 0x1_0000_0000) by (nonlinear_arith)
        requires
            r == top * 0x100_0000 + x * 256 + low,
            x < 65536,
            low < 256,
            top < 256,
    ;
    vstd::arithmetic::div_mod::lemma_fundamental_div_mod_converse_div(r, 256, top * 65536 + x, low as int);
    vstd::arithmetic::div_mod::lemma_fundamental_div_mod_converse_mod(top * 65536 + x, 65536, top as int, x as int);
    assert(x / 256 <= 255);
}

} // verus!
