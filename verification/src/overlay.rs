//! Decisions of the overlay application: which parameters an input burst
//! uses, what each window shows, and when the overlay must be redrawn.

use vstd::prelude::*;

use crate::config::{Config, FxParams};
use crate::fx_input_tap::FxTrigger;
use crate::settings_ui::Trigger;
use crate::text::{chars_of, segment_is};

verus! {

/// The settings tab that configures the bursts of `t`.
pub fn settings_trigger(t: FxTrigger) -> (r: Trigger)
    ensures
        r == spec_settings_trigger(t),
{
    match t {
        FxTrigger::Mouse => Trigger::Mouse,
        FxTrigger::MouseRight => Trigger::Right,
        FxTrigger::MouseDouble => Trigger::Double,
        FxTrigger::Key => Trigger::Key,
    }
}

pub open spec fn spec_settings_trigger(t: FxTrigger) -> Trigger {
    match t {
        FxTrigger::Mouse => Trigger::Mouse,
        FxTrigger::MouseRight => Trigger::Right,
        FxTrigger::MouseDouble => Trigger::Double,
        FxTrigger::Key => Trigger::Key,
    }
}

/// The parameters an input of kind `t` bursts with, or None while the
/// effects are switched off.
pub fn burst_params<M: Copy>(cfg: &Config<M>, t: FxTrigger) -> (r: Option<FxParams<M>>)
    ensures
        r == if cfg.enabled {
            Some(spec_settings_trigger(t).spec_params(*cfg))
        } else {
            None
        },
{
    if !cfg.enabled {
        return None;
    }
    Some(*settings_trigger(t).params(cfg))
}

/// What a window shows.
#[derive(Debug, Clone, Copy, PartialEq, Eq, Structural)]
pub enum WindowContent {
    Empty,
    Settings,
    Overlay,
}

/// The primary window: the particle overlay normally; in edit mode the
/// settings panel, or nothing once the panel has been hidden.
pub fn primary_content(edit_mode: bool, settings_hidden: bool) -> (r: WindowContent)
    ensures
        r == if !edit_mode {
            WindowContent::Overlay
        } else if settings_hidden {
            WindowContent::Empty
        } else {
            WindowContent::Settings
        },
{
    if edit_mode {
        if settings_hidden {
            WindowContent::Empty
        } else {
            WindowContent::Settings
        }
    } else {
        WindowContent::Overlay
    }
}

/// Key of the extra full-screen window that carries the overlay in edit mode.
pub fn fx_window_key() -> (r: &'static str)
    ensures
        r@ == "fx"@,
{
    "fx"
}

/// The extra window `key`: the overlay for the fx window, nothing otherwise.
pub fn extra_content(key: &str) -> (r: WindowContent)
    ensures
        r == if key@ == "fx"@ {
            WindowContent::Overlay
        } else {
            WindowContent::Empty
        },
{
    let cs = chars_of(key);
    let n: usize = cs.len();
    let is_fx: bool = segment_is(&cs, 0, n, fx_window_key());
    assert(cs@.subrange(0, n as int) =~= key@);
    if is_fx {
        WindowContent::Overlay
    } else {
        WindowContent::Empty
    }
}

/// Milliseconds between frames: 8 while particles fly, 16 when idle.
pub fn frame_interval_ms(alive: bool) -> (r: u64)
    ensures
        r == if alive {
            8u64
        } else {
            16u64
        },
{
    if alive {
        8
    } else {
        16
    }
}

/// Remembers whether the previous frame had particles, so the frame in which
/// the last particle disappears is still drawn (and wipes the surface).
#[derive(Debug, Clone, Copy, PartialEq, Eq, Structural)]
pub struct RedrawTracker {
    pub had_particles_last_frame: bool,
}

/// Whether a frame must be drawn when `alive` says if particles are live,
/// and the tracker afterwards.
pub open spec fn redraw_step(had: bool, alive: bool) -> (bool, bool) {
    if alive {
        (true, true)
    } else if had {
        (true, false)
    } else {
        (false, false)
    }
}

impl RedrawTracker {
    pub fn new() -> (r: Self)
        ensures
            !r.had_particles_last_frame,
    {
        RedrawTracker { had_particles_last_frame: false }
    }

    /// Whether the overlay needs a new frame.
    pub fn poll_dirty(&mut self, alive: bool) -> (r: bool)
        ensures
            (r, final(self).had_particles_last_frame) == redraw_step(
                old(self).had_particles_last_frame,
                alive,
            ),
    {
        if alive {
            self.had_particles_last_frame = true;
            return true;
        }
        if self.had_particles_last_frame {
            self.had_particles_last_frame = false;
            return true;
        }
        false
    }
}

/// When the particles vanish, exactly one more frame is drawn and the
/// overlay then stays idle until particles come back.
pub proof fn lemma_one_clearing_frame(had: bool)
    ensures
        redraw_step(redraw_step(had, true).1, false).0,
        !redraw_step(redraw_step(redraw_step(had, true).1, false).1, false).0,
{
}

/// While particles are live every frame is drawn.
pub proof fn lemma_live_frames_drawn(had: bool)
    ensures
        redraw_step(had, true) == (true, true),
{
}


/// Each input bursts with its own tab's parameters: left click with Mouse,
/// right click with Right, double click with Double, key press with Key.
pub proof fn lemma_trigger_tabs()
    ensures
        spec_settings_trigger(FxTrigger::Mouse) == Trigger::Mouse,
        spec_settings_trigger(FxTrigger::MouseRight) == Trigger::Right,
        spec_settings_trigger(FxTrigger::MouseDouble) == Trigger::Double,
        spec_settings_trigger(FxTrigger::Key) == Trigger::Key,
{
}

} // verus!
