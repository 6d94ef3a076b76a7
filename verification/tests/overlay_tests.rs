use hanabifx::config::{Config, Motion, MotionField};
use hanabifx::fx_input_tap::FxTrigger;
use hanabifx::overlay::{
    burst_params, extra_content, frame_interval_ms, primary_content, settings_trigger, RedrawTracker,
    WindowContent,
};
use hanabifx::settings_ui::Trigger;

#[derive(Debug, Clone, Copy, PartialEq)]
struct Flat;

impl Motion for Flat {
    fn initial() -> Self {
        Flat
    }
    fn double_click_initial() -> Self {
        Flat
    }
    fn key_initial() -> Self {
        Flat
    }
    fn step(self, _field: MotionField, _dir: i32) -> Self {
        self
    }
}

#[test]
fn triggers_map_to_tabs() {
    assert_eq!(settings_trigger(FxTrigger::Mouse), Trigger::Mouse);
    assert_eq!(settings_trigger(FxTrigger::MouseRight), Trigger::Right);
    assert_eq!(settings_trigger(FxTrigger::MouseDouble), Trigger::Double);
    assert_eq!(settings_trigger(FxTrigger::Key), Trigger::Key);
}

#[test]
fn bursts_use_their_trigger_params() {
    let mut c: Config<Flat> = Config::default();
    assert_eq!(burst_params(&c, FxTrigger::MouseDouble).map(|p| p.count), Some(20));
    assert_eq!(burst_params(&c, FxTrigger::Key).map(|p| p.count), Some(10));
    c.enabled = false;
    assert!(burst_params(&c, FxTrigger::Mouse).is_none());
}

#[test]
fn window_contents() {
    assert_eq!(primary_content(false, false), WindowContent::Overlay);
    assert_eq!(primary_content(false, true), WindowContent::Overlay);
    assert_eq!(primary_content(true, false), WindowContent::Settings);
    assert_eq!(primary_content(true, true), WindowContent::Empty);
    assert_eq!(extra_content("fx"), WindowContent::Overlay);
    assert_eq!(extra_content("fxx"), WindowContent::Empty);
    assert_eq!(extra_content(""), WindowContent::Empty);
}

#[test]
fn frame_pacing() {
    assert_eq!(frame_interval_ms(true), 8);
    assert_eq!(frame_interval_ms(false), 16);
}

#[test]
fn one_clearing_frame_after_particles_vanish() {
    let mut t = RedrawTracker::new();
    assert!(!t.poll_dirty(false));
    assert!(t.poll_dirty(true));
    assert!(t.poll_dirty(true));
    assert!(t.poll_dirty(false));
    assert!(!t.poll_dirty(false));
    assert!(!t.poll_dirty(false));
}
