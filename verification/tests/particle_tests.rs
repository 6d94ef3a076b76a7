use hanabifx::config::{FxPalette, FxShape};
use hanabifx::fx_particle::{
    default_shape_for_palette, pick_color, resolve_shape, ColorPick, FxState, ShapeKind, PARTICLE_CAP,
};

fn lcg(s: u32) -> u32 {
    s.wrapping_mul(1664525).wrapping_add(1013904223)
}

#[test]
fn generator_steps() {
    let mut st: FxState<u32> = FxState::default();
    assert_eq!(st.seed, 0);
    assert_eq!(st.next_rand(), 1013904223);
    assert_eq!(st.next_rand(), 1013904223u32.wrapping_mul(1664525).wrapping_add(1013904223));
    let before = st.seed;
    let u = st.rand_unit();
    assert_eq!(u, (lcg(before) >> 8) & 0xFFFF);
    assert!(u <= 65535);
}

#[test]
fn typed_burst_spells_enter() {
    let label: Vec<char> = "Enter".chars().collect();
    let spelled: String = (0..12)
        .map(|i| match resolve_shape(FxShape::Typed, ShapeKind::Disc, 0, &label, i) {
            ShapeKind::Glyph(c) => c,
            _ => '?',
        })
        .collect();
    assert_eq!(spelled, "EnterEnterEn");
}

#[test]
fn typed_without_label_falls_back_to_disc() {
    assert_eq!(resolve_shape(FxShape::Typed, ShapeKind::Ring, 7, &[], 3), ShapeKind::Disc);
}

#[test]
fn fixed_shapes() {
    assert_eq!(resolve_shape(FxShape::Default, ShapeKind::Square, 0, &[], 0), ShapeKind::Square);
    assert_eq!(resolve_shape(FxShape::Ring, ShapeKind::Disc, 0, &[], 0), ShapeKind::Ring);
    assert_eq!(resolve_shape(FxShape::Triangle, ShapeKind::Disc, 0, &[], 0), ShapeKind::Glyph('▲'));
    assert_eq!(resolve_shape(FxShape::Star, ShapeKind::Disc, 0, &[], 0), ShapeKind::Glyph('★'));
    assert_eq!(resolve_shape(FxShape::Heart, ShapeKind::Disc, 0, &[], 0), ShapeKind::Glyph('♥'));
    assert_eq!(default_shape_for_palette(FxPalette::Neon), ShapeKind::Disc);
}

#[test]
fn colour_choices() {
    assert_eq!(pick_color(FxPalette::Default, 4, 0x0300_0000), ColorPick::Swatch(2));
    assert_eq!(pick_color(FxPalette::Default, 0, 0xFF00_0000), ColorPick::Swatch(0));
    assert_eq!(pick_color(FxPalette::Pastel, 7, 12345), ColorPick::Swatch(2));
    assert_eq!(pick_color(FxPalette::Neon, 5, 0), ColorPick::Swatch(0));
    assert_eq!(pick_color(FxPalette::Mono, 3, 9), ColorPick::White);
    assert_eq!(pick_color(FxPalette::Rainbow, 3, 9), ColorPick::Hue);
}

#[test]
fn burst_plan_draws_five_per_particle() {
    let mut st: FxState<u32> = FxState::default();
    let label: Vec<char> = "ab".chars().collect();
    let plan = st.plan_burst(3, FxShape::Typed, FxPalette::Default, &label);
    assert_eq!(plan.len(), 3);
    let mut s = 0u32;
    for (i, slot) in plan.iter().enumerate() {
        assert_eq!(slot.index, i);
        s = lcg(s);
        assert_eq!(slot.jitter, (s >> 8) & 0xFFFF);
        s = lcg(s);
        assert_eq!(slot.speed, (s >> 8) & 0xFFFF);
        s = lcg(s);
        assert_eq!(slot.radius, (s >> 8) & 0xFFFF);
        s = lcg(s);
        assert_eq!(slot.color, ColorPick::Swatch(((i as u32 + (s >> 24)) % 5) as u32));
        s = lcg(s);
        assert_eq!(slot.shape, ShapeKind::Glyph(label[i % 2]));
    }
    assert_eq!(st.seed, s);
}

#[test]
fn zero_count_still_bursts_once() {
    let mut st: FxState<u32> = FxState::default();
    let plan = st.plan_burst(0, FxShape::Disc, FxPalette::Mono, &[]);
    assert_eq!(plan.len(), 1);
    assert_eq!(plan[0].shape, ShapeKind::Disc);
    assert_eq!(plan[0].color, ColorPick::White);
}

#[test]
fn consecutive_bursts_differ() {
    let mut st: FxState<u32> = FxState::default();
    let a = st.plan_burst(4, FxShape::Disc, FxPalette::Default, &[]);
    let b = st.plan_burst(4, FxShape::Disc, FxPalette::Default, &[]);
    assert_ne!(a, b);
}

#[test]
fn pool_is_capped_and_keeps_the_new_burst() {
    let mut st: FxState<u32> = FxState::default();
    st.add_burst((0..510).collect());
    assert_eq!(st.particles.len(), 510);
    st.add_burst((1000..1005).collect());
    assert_eq!(st.particles.len(), PARTICLE_CAP);
    assert_eq!(&st.particles[507..], &[1000, 1001, 1002, 1003, 1004]);
    assert_eq!(st.particles[0], 3);
}

#[test]
fn oversized_burst_keeps_its_newest() {
    let mut st: FxState<u32> = FxState::default();
    st.add_burst((0..10).collect());
    st.add_burst((100..700).collect());
    assert_eq!(st.particles.len(), 512);
    assert_eq!(st.particles[0], 188);
    assert_eq!(st.particles[511], 699);
}

#[test]
fn every_draw_changes_the_state() {
    let mut st: FxState<u32> = FxState::default();
    for _ in 0..1000 {
        let before = st.seed;
        let after = st.next_rand();
        assert_ne!(before, after);
        assert_ne!(before % 2, after % 2);
    }
}

#[test]
fn label_leaves_no_trace_unless_typed() {
    let a_label: Vec<char> = "Enter".chars().collect();
    let mut s1: FxState<u32> = FxState::default();
    let mut s2: FxState<u32> = FxState::default();
    let p1 = s1.plan_burst(7, FxShape::Star, FxPalette::Neon, &a_label);
    let p2 = s2.plan_burst(7, FxShape::Star, FxPalette::Neon, &[]);
    assert_eq!(p1, p2);
    assert_eq!(s1.seed, s2.seed);
    let t1 = s1.plan_burst(3, FxShape::Typed, FxPalette::Neon, &a_label);
    let t2 = s2.plan_burst(3, FxShape::Typed, FxPalette::Neon, &a_label);
    assert_eq!(t1, t2);
}

#[test]
fn non_default_palettes_ignore_the_seed() {
    assert_eq!(pick_color(FxPalette::Neon, usize::MAX, u32::MAX), ColorPick::Swatch((usize::MAX % 5) as u32));
    assert_eq!(pick_color(FxPalette::Mono, usize::MAX, u32::MAX), ColorPick::White);
}
