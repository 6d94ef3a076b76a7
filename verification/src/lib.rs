//! Verified core of hanabifx: the configuration model, the settings-panel
//! click grammar, the particle-burst planner and the input/redraw decisions.

pub mod config;
pub mod text;
pub mod settings_ui;
pub mod button_ids;
pub mod fx_particle;
pub mod fx_input_tap;
pub mod overlay;
