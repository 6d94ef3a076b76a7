use hanabifx::button_ids::{param_id, step_id, tab_id};
use hanabifx::config::{Config, FxPalette, FxParams, FxShape, Motion, MotionField};
use hanabifx::settings_ui::{
    count_step_would_overflow, count_steps_enabled, cycle, handle_click, palette_label, palette_order, parse_click, shape_label, shape_order,
    ClickCommand, ClickEffect, ParamField, Trigger,
};

/// A stand-in for the host's continuous parameters: it records the steps it was given.
#[derive(Debug, Clone, Copy, PartialEq)]
struct Steps {
    speed: f32,
    preset: u8,
    last: Option<(MotionField, i32)>,
}

impl Motion for Steps {
    fn initial() -> Self {
        Steps { speed: 350.0, preset: 0, last: None }
    }
    fn double_click_initial() -> Self {
        Steps { speed: 500.0, preset: 1, last: None }
    }
    fn key_initial() -> Self {
        Steps { speed: 280.0, preset: 2, last: None }
    }
    fn step(self, field: MotionField, dir: i32) -> Self {
        let mut next = self;
        if field == MotionField::Speed {
            next.speed = (self.speed + dir as f32 * 25.0).clamp(50.0, 800.0);
        }
        next.last = Some((field, dir));
        next
    }
}

fn cfg() -> Config<Steps> {
    Config::default()
}

#[test]
fn trigger_labels_and_slugs() {
    assert_eq!(Trigger::Mouse.label(), "Mouse");
    assert_eq!(Trigger::Right.label(), "Right");
    assert_eq!(Trigger::Double.label(), "Double");
    assert_eq!(Trigger::Key.label(), "Key");
    assert_eq!(Trigger::Mouse.id_slug(), "mouse");
    assert_eq!(Trigger::Right.id_slug(), "right");
    assert_eq!(Trigger::Double.id_slug(), "double");
    assert_eq!(Trigger::Key.id_slug(), "key");
}

#[test]
fn shape_and_palette_labels() {
    assert_eq!(shape_label(FxShape::Default), "default");
    assert_eq!(shape_label(FxShape::Triangle), "triangle");
    assert_eq!(shape_label(FxShape::Typed), "typed");
    assert_eq!(palette_label(FxPalette::Mono), "mono");
    assert_eq!(palette_label(FxPalette::Rainbow), "rainbow");
}

#[test]
fn params_pick_the_trigger() {
    let c = cfg();
    assert_eq!(Trigger::Right.params(&c).palette, FxPalette::Neon);
    assert_eq!(Trigger::Double.params(&c).count, 20);
    assert_eq!(Trigger::Key.params(&c).shape, FxShape::Typed);
    let mut c2 = cfg();
    Trigger::Mouse.params_mut(&mut c2).count = 33;
    assert_eq!(c2.mouse.count, 33);
    assert_eq!(c2.right.count, 12);
}

#[test]
fn parse_tab_and_keyword_ids() {
    assert_eq!(parse_click("tab-right"), ClickCommand::SwitchTab(Trigger::Right));
    assert_eq!(parse_click("tab-key"), ClickCommand::SwitchTab(Trigger::Key));
    assert_eq!(parse_click("tab-other"), ClickCommand::Ignore);
    assert_eq!(parse_click("enabled"), ClickCommand::ToggleEnabled);
    assert_eq!(parse_click("quit"), ClickCommand::Quit);
    assert_eq!(parse_click("done"), ClickCommand::HideSettings);
    assert_eq!(parse_click("reset"), ClickCommand::ResetTrigger);
    assert_eq!(parse_click(""), ClickCommand::Ignore);
    assert_eq!(parse_click("enabledx"), ClickCommand::Ignore);
}

#[test]
fn parse_param_ids() {
    assert_eq!(
        parse_click("p-mouse-speed-inc"),
        ClickCommand::Adjust(Trigger::Mouse, ParamField::Motion(MotionField::Speed), 1)
    );
    assert_eq!(
        parse_click("p-double-count-dec"),
        ClickCommand::Adjust(Trigger::Double, ParamField::Count, -1)
    );
    assert_eq!(
        parse_click("p-key-shape-prev"),
        ClickCommand::Adjust(Trigger::Key, ParamField::Shape, -1)
    );
    assert_eq!(
        parse_click("p-right-palette-next"),
        ClickCommand::Adjust(Trigger::Right, ParamField::Palette, 1)
    );
    assert_eq!(
        parse_click("p-mouse-twinkle-twinkle"),
        ClickCommand::Adjust(Trigger::Mouse, ParamField::Twinkle, 0)
    );
    assert_eq!(parse_click("p-mouse-count-bogus"), ClickCommand::Ignore);
    assert_eq!(parse_click("p-nobody-count-inc"), ClickCommand::Ignore);
    assert_eq!(parse_click("p-mouse-colour-inc"), ClickCommand::Ignore);
    assert_eq!(parse_click("p-mouse"), ClickCommand::Ignore);
    assert_eq!(parse_click("p-mouse-speed-inc-more"), ClickCommand::Ignore);
}

#[test]
fn panel_twinkle_toggle_flips_twinkle() {
    let id = param_id(Trigger::Mouse, ParamField::Twinkle);
    assert_eq!(id, "p-mouse-twinkle");
    assert_eq!(parse_click(&id), ClickCommand::Adjust(Trigger::Mouse, ParamField::Twinkle, 0));
    let mut c = cfg();
    let before = c;
    assert_eq!(handle_click(&id, &mut c, Trigger::Key), ClickEffect::Changed);
    assert!(c.mouse.twinkle);
    assert_eq!(c.mouse.count, before.mouse.count);
    assert_eq!(c.key.twinkle, before.key.twinkle);
    assert_eq!(handle_click(&id, &mut c, Trigger::Key), ClickEffect::Changed);
    assert!(!c.mouse.twinkle);
    for t in [Trigger::Right, Trigger::Double, Trigger::Key] {
        assert_eq!(parse_click(&param_id(t, ParamField::Twinkle)), ClickCommand::Adjust(t, ParamField::Twinkle, 0));
    }
}

#[test]
fn trailing_dash_twinkle_id_is_ignored() {
    assert_eq!(parse_click("p-mouse-twinkle-"), ClickCommand::Ignore);
    let mut c = cfg();
    let before = c;
    assert_eq!(handle_click("p-mouse-twinkle-", &mut c, Trigger::Mouse), ClickEffect::Nothing);
    assert_eq!(c.mouse.twinkle, before.mouse.twinkle);
    assert_eq!(parse_click("p-key-count-"), ClickCommand::Ignore);
}

#[test]
fn bare_ids_of_other_rows_are_ignored() {
    assert_eq!(parse_click("p-mouse-count"), ClickCommand::Ignore);
    assert_eq!(parse_click("p-key-shape"), ClickCommand::Ignore);
}

#[test]
fn full_turn_through_the_orders() {
    for s in shape_order() {
        let mut x = s;
        for _ in 0..shape_order().len() {
            x = cycle(&shape_order(), x, 1);
        }
        assert_eq!(x, s);
    }
    for p in palette_order() {
        for d in [-1000, -7, 3, 999] {
            let there = cycle(&palette_order(), p, d);
            assert_eq!(cycle(&palette_order(), there, -d), p);
        }
    }
}

#[test]
fn button_ids_spell_out() {
    assert_eq!(tab_id(Trigger::Double), "tab-double");
    assert_eq!(param_id(Trigger::Key, ParamField::Palette), "p-key-palette");
    assert_eq!(step_id(Trigger::Mouse, ParamField::Motion(MotionField::Lifetime), true), "p-mouse-lifetime-inc");
    assert_eq!(step_id(Trigger::Right, ParamField::Count, false), "p-right-count-dec");
    assert_eq!(step_id(Trigger::Key, ParamField::Shape, true), "p-key-shape-next");
    assert_eq!(step_id(Trigger::Key, ParamField::Palette, false), "p-key-palette-prev");
}

#[test]
fn button_ids_round_trip() {
    let triggers = [Trigger::Mouse, Trigger::Right, Trigger::Double, Trigger::Key];
    let fields = [
        ParamField::Count,
        ParamField::Motion(MotionField::Speed),
        ParamField::Motion(MotionField::Spread),
        ParamField::Motion(MotionField::Gravity),
        ParamField::Motion(MotionField::Lifetime),
        ParamField::Motion(MotionField::Radius),
        ParamField::Twinkle,
        ParamField::Shape,
        ParamField::Palette,
    ];
    for t in triggers {
        assert_eq!(parse_click(&tab_id(t)), ClickCommand::SwitchTab(t));
        for f in fields {
            assert_eq!(parse_click(&step_id(t, f, true)), ClickCommand::Adjust(t, f, 1));
            assert_eq!(parse_click(&step_id(t, f, false)), ClickCommand::Adjust(t, f, -1));
        }
    }
}

#[test]
fn count_steps_and_clamps() {
    let mut c = cfg();
    assert_eq!(handle_click("p-mouse-count-inc", &mut c, Trigger::Mouse), ClickEffect::Changed);
    assert_eq!(c.mouse.count, 13);
    c.mouse.count = 50;
    assert_eq!(handle_click("p-mouse-count-inc", &mut c, Trigger::Mouse), ClickEffect::Changed);
    assert_eq!(c.mouse.count, 50);
    c.mouse.count = 1;
    assert_eq!(handle_click("p-mouse-count-dec", &mut c, Trigger::Mouse), ClickEffect::Changed);
    assert_eq!(c.mouse.count, 1);
    // A step of 0 still clamps.
    c.key.count = 100;
    assert_eq!(handle_click("p-key-count-twinkle", &mut c, Trigger::Mouse), ClickEffect::Changed);
    assert_eq!(c.key.count, 50);
    // A count read as a negative i32 clamps to 1.
    c.right.count = 3_000_000_000;
    assert_eq!(handle_click("p-right-count-inc", &mut c, Trigger::Mouse), ClickEffect::Changed);
    assert_eq!(c.right.count, 1);
}

#[test]
fn count_step_undone_inside_range() {
    let mut c = cfg();
    for start in 1..=49u32 {
        c.double.count = start;
        let _ = handle_click("p-double-count-inc", &mut c, Trigger::Key);
        let _ = handle_click("p-double-count-dec", &mut c, Trigger::Key);
        assert_eq!(c.double.count, start);
    }
}

#[test]
fn shape_and_palette_cycle() {
    let mut c = cfg();
    c.mouse.shape = FxShape::Typed;
    let _ = handle_click("p-mouse-shape-next", &mut c, Trigger::Mouse);
    assert_eq!(c.mouse.shape, FxShape::Default);
    let _ = handle_click("p-mouse-shape-prev", &mut c, Trigger::Mouse);
    assert_eq!(c.mouse.shape, FxShape::Typed);
    let _ = handle_click("p-mouse-palette-prev", &mut c, Trigger::Mouse);
    assert_eq!(c.mouse.palette, FxPalette::Rainbow);
    let _ = handle_click("p-mouse-palette-next", &mut c, Trigger::Mouse);
    assert_eq!(c.mouse.palette, FxPalette::Default);
}

#[test]
fn every_shape_step_is_undone() {
    for s in shape_order() {
        for dir in [1, -1] {
            let there = cycle(&shape_order(), s, dir);
            assert_eq!(cycle(&shape_order(), there, -dir), s);
        }
    }
    for p in palette_order() {
        for dir in [1, -1] {
            let there = cycle(&palette_order(), p, dir);
            assert_eq!(cycle(&palette_order(), there, -dir), p);
        }
    }
}

#[test]
fn cycle_on_plain_values() {
    let order = [10u8, 20, 30];
    assert_eq!(cycle(&order, 10, 1), 20);
    assert_eq!(cycle(&order, 10, -1), 30);
    assert_eq!(cycle(&order, 30, 1), 10);
    assert_eq!(cycle(&order, 30, 4), 10);
    assert_eq!(cycle(&order, 10, -7), 30);
    // A value missing from the order counts as the first one.
    assert_eq!(cycle(&order, 99, 1), 20);
    assert_eq!(cycle(&order, 20, 0), 20);
}

#[test]
fn motion_steps_go_to_the_host() {
    let mut c = cfg();
    let _ = handle_click("p-mouse-speed-inc", &mut c, Trigger::Key);
    assert_eq!(c.mouse.motion.speed, 375.0);
    assert_eq!(c.mouse.motion.last, Some((MotionField::Speed, 1)));
    let _ = handle_click("p-right-radius-dec", &mut c, Trigger::Key);
    assert_eq!(c.right.motion.last, Some((MotionField::Radius, -1)));
    let _ = handle_click("p-double-gravity-twinkle", &mut c, Trigger::Key);
    assert_eq!(c.double.motion.last, Some((MotionField::Gravity, 0)));
    assert_eq!(c.right.count, 12);
    assert_eq!(c.mouse.count, 12);
}

#[test]
fn twinkle_flips_only_with_its_action() {
    let mut c = cfg();
    assert!(!c.key.twinkle);
    assert_eq!(handle_click("p-key-twinkle-twinkle", &mut c, Trigger::Mouse), ClickEffect::Changed);
    assert!(c.key.twinkle);
    assert_eq!(handle_click("p-key-twinkle-inc", &mut c, Trigger::Mouse), ClickEffect::Changed);
    assert!(c.key.twinkle);
}

#[test]
fn reset_restores_only_the_active_trigger() {
    let mut c = cfg();
    c.key.count = 40;
    c.key.twinkle = true;
    c.mouse.count = 3;
    assert_eq!(handle_click("reset", &mut c, Trigger::Key), ClickEffect::Changed);
    assert_eq!(c.key.count, 12);
    assert!(!c.key.twinkle);
    assert_eq!(c.key.shape, FxShape::Default);
    assert_eq!(c.key.palette, FxPalette::Default);
    assert_eq!(c.key.motion, Steps::initial());
    assert_eq!(c.mouse.count, 3);
}

#[test]
fn tabs_quit_and_done_leave_the_config() {
    let mut c = cfg();
    assert_eq!(handle_click("tab-double", &mut c, Trigger::Mouse), ClickEffect::SwitchTab(Trigger::Double));
    assert_eq!(handle_click("quit", &mut c, Trigger::Mouse), ClickEffect::Quit);
    assert_eq!(handle_click("done", &mut c, Trigger::Mouse), ClickEffect::HideSettings);
    assert_eq!(handle_click("nonsense", &mut c, Trigger::Mouse), ClickEffect::Nothing);
    assert!(c.enabled);
    assert_eq!(c.mouse.count, 12);
}

#[test]
fn enabled_toggle_undone() {
    let mut c = cfg();
    assert_eq!(handle_click("enabled", &mut c, Trigger::Mouse), ClickEffect::Changed);
    assert!(!c.enabled);
    assert_eq!(handle_click("enabled", &mut c, Trigger::Mouse), ClickEffect::Changed);
    assert!(c.enabled);
}

#[test]
fn default_params_look() {
    let p: FxParams<Steps> = FxParams::default();
    assert_eq!(p.count, 12);
    assert!(!p.twinkle);
    assert_eq!(p.shape, FxShape::Default);
    assert_eq!(p.palette, FxPalette::Default);
    assert_eq!(p.motion, Steps::initial());
}

#[test]
fn count_row_buttons() {
    assert_eq!(count_steps_enabled(1), (false, true));
    assert_eq!(count_steps_enabled(12), (true, true));
    assert_eq!(count_steps_enabled(50), (true, false));
    assert_eq!(count_steps_enabled(3_000_000_000), (false, true));
}

#[test]
fn count_overflow_is_detected() {
    let mut c = cfg();
    assert!(!count_step_would_overflow("p-mouse-count-inc", &c));
    c.mouse.count = 2_147_483_647;
    assert!(count_step_would_overflow("p-mouse-count-inc", &c));
    assert!(!count_step_would_overflow("p-mouse-count-dec", &c));
    assert!(!count_step_would_overflow("p-right-count-inc", &c));
    c.key.count = 2_147_483_648;
    assert!(count_step_would_overflow("p-key-count-dec", &c));
    assert!(!count_step_would_overflow("p-key-count-inc", &c));
}
