//! Decisions of the global input tap: which burst an input event fires,
//! the software double-click detector, and the label a key press spells.

use vstd::prelude::*;
use vstd::string::StringExecFns;

verus! {

/// Which input fired a burst.
#[derive(Debug, Clone, Copy, PartialEq, Eq, Structural)]
pub enum FxTrigger {
    /// Left click; also the first half of a double click.
    Mouse,
    /// Right click.
    MouseRight,
    /// Second left click close in time and place to the first, emitted in
    /// addition to its `Mouse` burst.
    MouseDouble,
    /// Any key press.
    Key,
}

/// `NSEvent` type code of a left mouse-down.
pub const NSEVENT_TYPE_LEFT_MOUSE_DOWN: u64 = 1;
/// `NSEvent` type code of a right mouse-down.
pub const NSEVENT_TYPE_RIGHT_MOUSE_DOWN: u64 = 3;
/// `NSEvent` type code of a key-down.
pub const NSEVENT_TYPE_KEY_DOWN: u64 = 10;

/// The event mask the monitors are installed with: left and right
/// mouse-down and key-down.
pub fn event_mask() -> (r: u64)
    ensures
        r == 0x40a,
{
    let left: u64 = 1u64 << 1u64;
    let right: u64 = 1u64 << 3u64;
    let key: u64 = 1u64 << 10u64;
    assert(left | right | key == 0x40a) by (bit_vector)
        requires
            left == 1u64 << 1u64,
            right == 1u64 << 3u64,
            key == 1u64 << 10u64,
    ;
    left | right | key
}

pub open spec fn spec_trigger_for_event(ty: u64) -> Option<FxTrigger> {
    if ty == NSEVENT_TYPE_KEY_DOWN {
        Some(FxTrigger::Key)
    } else if ty == NSEVENT_TYPE_RIGHT_MOUSE_DOWN {
        Some(FxTrigger::MouseRight)
    } else if ty == NSEVENT_TYPE_LEFT_MOUSE_DOWN {
        Some(FxTrigger::Mouse)
    } else {
        None
    }
}

/// The burst an event of type `ty` fires first; other event types fire none.
pub fn trigger_for_event(ty: u64) -> (r: Option<FxTrigger>)
    ensures
        r == spec_trigger_for_event(ty),
{
    if ty == NSEVENT_TYPE_KEY_DOWN {
        Some(FxTrigger::Key)
    } else if ty == NSEVENT_TYPE_RIGHT_MOUSE_DOWN {
        Some(FxTrigger::MouseRight)
    } else if ty == NSEVENT_TYPE_LEFT_MOUSE_DOWN {
        Some(FxTrigger::Mouse)
    } else {
        None
    }
}

/// Whether a left click completes a double click, and the tracker after it:
/// `within` says whether the previous click lies inside the double-click
/// interval and distance. A completed double clears the tracker.
pub open spec fn left_click_step<S>(last: Option<S>, now: S, within: bool) -> (bool, Option<S>) {
    let is_double = last is Some && within;
    (is_double, if is_double { None } else { Some(now) })
}

/// Records a left click at `now` in the double-click tracker `last` and says
/// whether it completes a double click. A completed double clears the
/// tracker, so a third quick click starts afresh.
pub fn register_left_click<S>(last: &mut Option<S>, now: S, within: bool) -> (is_double: bool)
    ensures
        (is_double, *final(last)) == left_click_step(*old(last), now, within),
{
    let is_double: bool = last.is_some() && within;
    *last = if is_double {
        None
    } else {
        Some(now)
    };
    is_double
}

/// Double clicks never chain: the click right after a double click is a
/// single click, however close in time and place it comes.
pub proof fn lemma_double_click_does_not_chain<S>(
    tracker: Option<S>,
    first: S,
    first_within: bool,
    second: S,
    second_within: bool,
)
    requires
        left_click_step(tracker, first, first_within).0,
    ensures
        !left_click_step(left_click_step(tracker, first, first_within).1, second, second_within).0,
{
}

/// A click with nothing recorded before it is never a double click.
pub proof fn lemma_first_click_is_single<S>(now: S, within: bool)
    ensures
        !left_click_step(None::<S>, now, within).0,
        left_click_step(None::<S>, now, within).1 == Some(now),
{
}

/// Lowest and highest code of AppKit's private-use function-key range.
pub open spec fn in_private_use(c: char) -> bool {
    0xF700 <= (c as u32) <= 0xF8FF
}

/// Keys F1..F12 (`U+F704..=U+F70F`).
pub open spec fn is_function_key(c: char) -> bool {
    0xF704 <= (c as u32) <= 0xF70F
}

/// A control character: general category Cc, that is `U+0000..=U+001F` and
/// `U+007F..=U+009F`.
pub open spec fn is_control_char(c: char) -> bool {
    (c as u32) <= 0x1F || (0x7F <= (c as u32) <= 0x9F)
}

/// Decimal digits of `n`.
pub open spec fn decimal(n: nat) -> Seq<char>
    decreases n,
{
    if n < 10 {
        seq![(48 + n) as char]
    } else {
        decimal(n / 10).push((48 + n % 10) as char)
    }
}

/// The spelled-out name of a special key, when it has one.
pub open spec fn special_key_name(c: char) -> Option<Seq<char>> {
    if c == ' ' {
        Some("Space"@)
    } else if c == '\t' {
        Some("Tab"@)
    } else if c == '\r' || c == '\n' {
        Some("Enter"@)
    } else if c == '\u{1B}' {
        Some("Esc"@)
    } else if c == '\u{8}' || c == '\u{7F}' {
        Some("Backspace"@)
    } else if c == '\u{F700}' {
        Some("Up"@)
    } else if c == '\u{F701}' {
        Some("Down"@)
    } else if c == '\u{F702}' {
        Some("Left"@)
    } else if c == '\u{F703}' {
        Some("Right"@)
    } else if c == '\u{F728}' {
        Some("Del"@)
    } else if c == '\u{F729}' {
        Some("Home"@)
    } else if c == '\u{F72B}' {
        Some("End"@)
    } else if c == '\u{F72C}' {
        Some("PgUp"@)
    } else if c == '\u{F72D}' {
        Some("PgDn"@)
    } else if is_function_key(c) {
        Some(seq!['F'] + decimal(((c as u32) - 0xF704 + 1) as nat))
    } else {
        None
    }
}

/// The label a key whose typed text starts with `c` spells in a typed
/// burst: a named special key spells its name, an unnamed private-use or
/// control key spells nothing, any other key spells its own character.
pub open spec fn spec_typed_label(c: char) -> Option<Seq<char>> {
    match special_key_name(c) {
        Some(name) => Some(name),
        None => if in_private_use(c) || is_control_char(c) {
            None
        } else {
            Some(seq![c])
        },
    }
}

/// `char::to_string`: the one-character string holding `c`.
#[verifier::external_body]
fn char_to_string(c: char) -> (r: String)
    ensures
        r@ == seq![c],
{
    c.to_string()
}

fn function_key_name(n: u32) -> (r: &'static str)
    requires
        1 <= n <= 12,
    ensures
        r@ == seq!['F'] + decimal(n as nat),
{
    proof {
        reveal_with_fuel(decimal, 2);
    }
    match n {
        1 => {
            proof { reveal_strlit("F1"); }
            assert("F1"@ =~= seq!['F'] + decimal(1));
            "F1"
        },
        2 => {
            proof { reveal_strlit("F2"); }
            assert("F2"@ =~= seq!['F'] + decimal(2));
            "F2"
        },
        3 => {
            proof { reveal_strlit("F3"); }
            assert("F3"@ =~= seq!['F'] + decimal(3));
            "F3"
        },
        4 => {
            proof { reveal_strlit("F4"); }
            assert("F4"@ =~= seq!['F'] + decimal(4));
            "F4"
        },
        5 => {
            proof { reveal_strlit("F5"); }
            assert("F5"@ =~= seq!['F'] + decimal(5));
            "F5"
        },
        6 => {
            proof { reveal_strlit("F6"); }
            assert("F6"@ =~= seq!['F'] + decimal(6));
            "F6"
        },
        7 => {
            proof { reveal_strlit("F7"); }
            assert("F7"@ =~= seq!['F'] + decimal(7));
            "F7"
        },
        8 => {
            proof { reveal_strlit("F8"); }
            assert("F8"@ =~= seq!['F'] + decimal(8));
            "F8"
        },
        9 => {
            proof { reveal_strlit("F9"); }
            assert("F9"@ =~= seq!['F'] + decimal(9));
            "F9"
        },
        10 => {
            proof { reveal_strlit("F10"); }
            assert("F10"@ =~= seq!['F'] + decimal(10));
            "F10"
        },
        11 => {
            proof { reveal_strlit("F11"); }
            assert("F11"@ =~= seq!['F'] + decimal(11));
            "F11"
        },
        _ => {
            proof { reveal_strlit("F12"); }
            assert("F12"@ =~= seq!['F'] + decimal(12));
            "F12"
        },
    }
}

fn special_name(c: char) -> (r: Option<&'static str>)
    ensures
        match r {
            Some(s) => special_key_name(c) == Some(s@),
            None => special_key_name(c) is None,
        },
{
    if c == ' ' {
        Some("Space")
    } else if c == '\t' {
        Some("Tab")
    } else if c == '\r' || c == '\n' {
        Some("Enter")
    } else if c == '\u{1B}' {
        Some("Esc")
    } else if c == '\u{8}' || c == '\u{7F}' {
        Some("Backspace")
    } else if c == '\u{F700}' {
        Some("Up")
    } else if c == '\u{F701}' {
        Some("Down")
    } else if c == '\u{F702}' {
        Some("Left")
    } else if c == '\u{F703}' {
        Some("Right")
    } else if c == '\u{F728}' {
        Some("Del")
    } else if c == '\u{F729}' {
        Some("Home")
    } else if c == '\u{F72B}' {
        Some("End")
    } else if c == '\u{F72C}' {
        Some("PgUp")
    } else if c == '\u{F72D}' {
        Some("PgDn")
    } else {
        let code: u32 = c as u32;
        if 0xF704 <= code && code <= 0xF70F {
            Some(function_key_name(code - 0xF704 + 1))
        } else {
            None
        }
    }
}

/// The label a key press spells, from the first character of its typed text.
pub fn typed_label(c: char) -> (r: Option<String>)
    ensures
        match r {
            Some(s) => spec_typed_label(c) == Some(s@),
            None => spec_typed_label(c) is None,
        },
{
    match special_name(c) {
        Some(name) => Some(<String as StringExecFns>::from_str(name)),
        None => {
            let code: u32 = c as u32;
            if (0xF700 <= code && code <= 0xF8FF) || code <= 0x1F || (0x7F <= code && code <= 0x9F) {
                None
            } else {
                Some(char_to_string(c))
            }
        },
    }
}


/// Key-down fires a key burst, right mouse-down a right-click burst, left
/// mouse-down a left-click burst (`NSEvent` type codes 10, 3 and 1); no other
/// event fires anything.
pub proof fn lemma_event_triggers(ty: u64)
    ensures
        spec_trigger_for_event(10) == Some(FxTrigger::Key),
        spec_trigger_for_event(3) == Some(FxTrigger::MouseRight),
        spec_trigger_for_event(1) == Some(FxTrigger::Mouse),
        ty != 1 && ty != 3 && ty != 10 ==> spec_trigger_for_event(ty) is None,
        spec_trigger_for_event(ty) != Some(FxTrigger::MouseDouble),
{
}

/// Each special key spells its own keycap name.
pub proof fn lemma_named_keys()
    ensures
        spec_typed_label(' ') == Some("Space"@),
        spec_typed_label('\t') == Some("Tab"@),
        spec_typed_label('\r') == Some("Enter"@),
        spec_typed_label('\n') == Some("Enter"@),
        spec_typed_label('\u{1B}') == Some("Esc"@),
        spec_typed_label('\u{8}') == Some("Backspace"@),
        spec_typed_label('\u{7F}') == Some("Backspace"@),
        spec_typed_label('\u{F700}') == Some("Up"@),
        spec_typed_label('\u{F701}') == Some("Down"@),
        spec_typed_label('\u{F702}') == Some("Left"@),
        spec_typed_label('\u{F703}') == Some("Right"@),
        spec_typed_label('\u{F728}') == Some("Del"@),
        spec_typed_label('\u{F729}') == Some("Home"@),
        spec_typed_label('\u{F72B}') == Some("End"@),
        spec_typed_label('\u{F72C}') == Some("PgUp"@),
        spec_typed_label('\u{F72D}') == Some("PgDn"@),
{
}

/// The function keys F1..F12 spell "F1".."F12".
pub proof fn lemma_function_keys()
    ensures
        spec_typed_label('\u{F704}') == Some("F1"@),
        spec_typed_label('\u{F705}') == Some("F2"@),
        spec_typed_label('\u{F706}') == Some("F3"@),
        spec_typed_label('\u{F707}') == Some("F4"@),
        spec_typed_label('\u{F708}') == Some("F5"@),
        spec_typed_label('\u{F709}') == Some("F6"@),
        spec_typed_label('\u{F70A}') == Some("F7"@),
        spec_typed_label('\u{F70B}') == Some("F8"@),
        spec_typed_label('\u{F70C}') == Some("F9"@),
        spec_typed_label('\u{F70D}') == Some("F10"@),
        spec_typed_label('\u{F70E}') == Some("F11"@),
        spec_typed_label('\u{F70F}') == Some("F12"@),
{
    reveal_with_fuel(decimal, 2);
    reveal_strlit("F1");
    reveal_strlit("F2");
    reveal_strlit("F3");
    reveal_strlit("F4");
    reveal_strlit("F5");
    reveal_strlit("F6");
    reveal_strlit("F7");
    reveal_strlit("F8");
    reveal_strlit("F9");
    reveal_strlit("F10");
    reveal_strlit("F11");
    reveal_strlit("F12");
    assert(spec_typed_label('\u{F704}') == Some("F1"@));
    assert(spec_typed_label('\u{F705}') == Some("F2"@));
    assert(spec_typed_label('\u{F706}') == Some("F3"@));
    assert(spec_typed_label('\u{F707}') == Some("F4"@));
    assert(spec_typed_label('\u{F708}') == Some("F5"@));
    assert(spec_typed_label('\u{F709}') == Some("F6"@));
    assert(spec_typed_label('\u{F70A}') == Some("F7"@));
    assert(spec_typed_label('\u{F70B}') == Some("F8"@));
    assert(spec_typed_label('\u{F70C}') == Some("F9"@));
    assert(spec_typed_label('\u{F70D}') == Some("F10"@));
    assert(spec_typed_label('\u{F70E}') == Some("F11"@));
    assert(spec_typed_label('\u{F70F}') == Some("F12"@));
}

/// Any other key spells its own character, except unnamed keys of the
/// private-use range and control characters, which spell nothing; the
/// printable ASCII keys other than the space always spell themselves.
pub proof fn lemma_other_keys(c: char)
    ensures
        0x21 <= (c as u32) <= 0x7E ==> spec_typed_label(c) == Some(seq![c]),
        (c as u32) > 0x9F && !(0xF700 <= (c as u32) <= 0xF8FF) ==> spec_typed_label(c) == Some(
            seq![c],
        ),
        0xF710 <= (c as u32) <= 0xF727 ==> spec_typed_label(c) is None,
        0xF72E <= (c as u32) <= 0xF8FF ==> spec_typed_label(c) is None,
        (c as u32) < 0x20 && c != '\t' && c != '\r' && c != '\n' && c != '\u{1B}' && c != '\u{8}'
            ==> spec_typed_label(c) is None,
        0x80 <= (c as u32) <= 0x9F ==> spec_typed_label(c) is None,
{
}

} // verus!
