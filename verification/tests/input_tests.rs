use hanabifx::fx_input_tap::{event_mask, register_left_click, trigger_for_event, typed_label, FxTrigger};

#[test]
fn event_types_map_to_triggers() {
    assert_eq!(event_mask(), (1 << 1) | (1 << 3) | (1 << 10));
    assert_eq!(trigger_for_event(10), Some(FxTrigger::Key));
    assert_eq!(trigger_for_event(3), Some(FxTrigger::MouseRight));
    assert_eq!(trigger_for_event(1), Some(FxTrigger::Mouse));
    assert_eq!(trigger_for_event(2), None);
}

#[test]
fn double_clicks_do_not_chain() {
    let mut last: Option<(u32, u32)> = None;
    assert!(!register_left_click(&mut last, (0, 0), true));
    assert_eq!(last, Some((0, 0)));
    assert!(register_left_click(&mut last, (1, 1), true));
    assert_eq!(last, None);
    assert!(!register_left_click(&mut last, (2, 2), true));
    assert!(!register_left_click(&mut last, (9, 9), false));
    assert_eq!(last, Some((9, 9)));
}

#[test]
fn named_keys() {
    assert_eq!(typed_label(' ').as_deref(), Some("Space"));
    assert_eq!(typed_label('\t').as_deref(), Some("Tab"));
    assert_eq!(typed_label('\r').as_deref(), Some("Enter"));
    assert_eq!(typed_label('\n').as_deref(), Some("Enter"));
    assert_eq!(typed_label('\u{1B}').as_deref(), Some("Esc"));
    assert_eq!(typed_label('\u{8}').as_deref(), Some("Backspace"));
    assert_eq!(typed_label('\u{7F}').as_deref(), Some("Backspace"));
    assert_eq!(typed_label('\u{F700}').as_deref(), Some("Up"));
    assert_eq!(typed_label('\u{F703}').as_deref(), Some("Right"));
    assert_eq!(typed_label('\u{F728}').as_deref(), Some("Del"));
    assert_eq!(typed_label('\u{F72C}').as_deref(), Some("PgUp"));
    assert_eq!(typed_label('\u{F72D}').as_deref(), Some("PgDn"));
}

#[test]
fn function_keys() {
    assert_eq!(typed_label('\u{F704}').as_deref(), Some("F1"));
    assert_eq!(typed_label('\u{F70C}').as_deref(), Some("F9"));
    assert_eq!(typed_label('\u{F70D}').as_deref(), Some("F10"));
    assert_eq!(typed_label('\u{F70F}').as_deref(), Some("F12"));
}

#[test]
fn unnamed_special_keys_spell_nothing() {
    assert_eq!(typed_label('\u{F710}'), None);
    assert_eq!(typed_label('\u{F72A}'), None);
    assert_eq!(typed_label('\u{F8FF}'), None);
    assert_eq!(typed_label('\u{7}'), None);
    assert_eq!(typed_label('\u{85}'), None);
}

#[test]
fn printable_keys_spell_themselves() {
    assert_eq!(typed_label('a').as_deref(), Some("a"));
    assert_eq!(typed_label('é').as_deref(), Some("é"));
    assert_eq!(typed_label('\u{A0}').as_deref(), Some("\u{A0}"));
    assert_eq!(typed_label('\u{F900}').as_deref(), Some("\u{F900}"));
}

#[test]
fn control_class_matches_std() {
    for code in 0u32..0x300 {
        if let Some(c) = char::from_u32(code) {
            let named = matches!(c, ' ' | '\t' | '\r' | '\n' | '\u{1B}' | '\u{8}' | '\u{7F}');
            if !named {
                assert_eq!(typed_label(c).is_none(), c.is_control(), "{code:#x}");
            }
        }
    }
}
