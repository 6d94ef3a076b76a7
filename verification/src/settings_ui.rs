//! The settings panel's model: trigger tabs, parameter rows, the button-id
//! grammar and the click handler that edits the configuration.

use vstd::prelude::*;
use vstd::laws_eq::obeys_concrete_eq;
use vstd::arithmetic::div_mod::{lemma_fundamental_div_mod, lemma_fundamental_div_mod_converse_mod, lemma_mod_pos_bound};

use crate::config::{Config, FxPalette, FxParams, FxShape, Motion, MotionField};
use crate::text::{chars_of, find_char, segment_is, starts_with};

verus! {

/// The trigger whose parameters the panel currently shows.
#[derive(Debug, Clone, Copy, PartialEq, Eq, Structural)]
pub enum Trigger {
    Mouse,
    Right,
    Double,
    Key,
}

impl Trigger {
    /// The tab caption.
    pub fn label(self) -> (r: &'static str)
        ensures
            r@ == self.spec_label(),
    {
        match self {
            Trigger::Mouse => "Mouse",
            Trigger::Right => "Right",
            Trigger::Double => "Double",
            Trigger::Key => "Key",
        }
    }

    pub open spec fn spec_label(self) -> Seq<char> {
        match self {
            Trigger::Mouse => "Mouse"@,
            Trigger::Right => "Right"@,
            Trigger::Double => "Double"@,
            Trigger::Key => "Key"@,
        }
    }

    /// The trigger's name inside button ids.
    pub fn id_slug(self) -> (r: &'static str)
        ensures
            r@ == self.spec_slug(),
    {
        match self {
            Trigger::Mouse => "mouse",
            Trigger::Right => "right",
            Trigger::Double => "double",
            Trigger::Key => "key",
        }
    }

    pub open spec fn spec_slug(self) -> Seq<char> {
        match self {
            Trigger::Mouse => "mouse"@,
            Trigger::Right => "right"@,
            Trigger::Double => "double"@,
            Trigger::Key => "key"@,
        }
    }

    /// The parameters this trigger fires with.
    pub open spec fn spec_params<M>(self, cfg: Config<M>) -> FxParams<M> {
        match self {
            Trigger::Mouse => cfg.mouse,
            Trigger::Right => cfg.right,
            Trigger::Double => cfg.double,
            Trigger::Key => cfg.key,
        }
    }

    /// `cfg` with this trigger's parameters replaced by `p`.
    pub open spec fn spec_with_params<M>(self, cfg: Config<M>, p: FxParams<M>) -> Config<M> {
        match self {
            Trigger::Mouse => Config { mouse: p, ..cfg },
            Trigger::Right => Config { right: p, ..cfg },
            Trigger::Double => Config { double: p, ..cfg },
            Trigger::Key => Config { key: p, ..cfg },
        }
    }

    pub fn params<'a, M>(self, cfg: &'a Config<M>) -> (r: &'a FxParams<M>)
        ensures
            *r == self.spec_params(*cfg),
    {
        match self {
            Trigger::Mouse => &cfg.mouse,
            Trigger::Right => &cfg.right,
            Trigger::Double => &cfg.double,
            Trigger::Key => &cfg.key,
        }
    }

    pub fn params_mut<'a, M>(self, cfg: &'a mut Config<M>) -> (r: &'a mut FxParams<M>)
        ensures
            *r == self.spec_params(*old(cfg)),
            *final(cfg) == self.spec_with_params(*old(cfg), *final(r)),
    {
        match self {
            Trigger::Mouse => &mut cfg.mouse,
            Trigger::Right => &mut cfg.right,
            Trigger::Double => &mut cfg.double,
            Trigger::Key => &mut cfg.key,
        }
    }
}

/// Caption of a shape in the panel.
pub fn shape_label(s: FxShape) -> (r: &'static str)
    ensures
        r@ == spec_shape_label(s),
{
    match s {
        FxShape::Default => "default",
        FxShape::Disc => "disc",
        FxShape::Square => "square",
        FxShape::Ring => "ring",
        FxShape::Triangle => "triangle",
        FxShape::Star => "star",
        FxShape::Heart => "heart",
        FxShape::Typed => "typed",
    }
}

pub open spec fn spec_shape_label(s: FxShape) -> Seq<char> {
    match s {
        FxShape::Default => "default"@,
        FxShape::Disc => "disc"@,
        FxShape::Square => "square"@,
        FxShape::Ring => "ring"@,
        FxShape::Triangle => "triangle"@,
        FxShape::Star => "star"@,
        FxShape::Heart => "heart"@,
        FxShape::Typed => "typed"@,
    }
}

/// Caption of a palette in the panel.
pub fn palette_label(p: FxPalette) -> (r: &'static str)
    ensures
        r@ == spec_palette_label(p),
{
    match p {
        FxPalette::Default => "default",
        FxPalette::Mono => "mono",
        FxPalette::Pastel => "pastel",
        FxPalette::Neon => "neon",
        FxPalette::Rainbow => "rainbow",
    }
}

pub open spec fn spec_palette_label(p: FxPalette) -> Seq<char> {
    match p {
        FxPalette::Default => "default"@,
        FxPalette::Mono => "mono"@,
        FxPalette::Pastel => "pastel"@,
        FxPalette::Neon => "neon"@,
        FxPalette::Rainbow => "rainbow"@,
    }
}

/// The order in which the shape selector steps through the shapes.
pub fn shape_order() -> (r: [FxShape; 8])
    ensures
        r@ == spec_shape_order(),
{
    [
        FxShape::Default,
        FxShape::Disc,
        FxShape::Square,
        FxShape::Ring,
        FxShape::Triangle,
        FxShape::Star,
        FxShape::Heart,
        FxShape::Typed,
    ]
}

pub open spec fn spec_shape_order() -> Seq<FxShape> {
    seq![
        FxShape::Default,
        FxShape::Disc,
        FxShape::Square,
        FxShape::Ring,
        FxShape::Triangle,
        FxShape::Star,
        FxShape::Heart,
        FxShape::Typed,
    ]
}

/// The order in which the palette selector steps through the palettes.
pub fn palette_order() -> (r: [FxPalette; 5])
    ensures
        r@ == spec_palette_order(),
{
    [FxPalette::Default, FxPalette::Mono, FxPalette::Pastel, FxPalette::Neon, FxPalette::Rainbow]
}

pub open spec fn spec_palette_order() -> Seq<FxPalette> {
    seq![FxPalette::Default, FxPalette::Mono, FxPalette::Pastel, FxPalette::Neon, FxPalette::Rainbow]
}

/// Index of the first occurrence of `x` in `order`, or 0 when it is absent.
pub open spec fn position_or_zero<T>(order: Seq<T>, x: T) -> int {
    match order.index_of_first(x) {
        Some(i) => i,
        None => 0,
    }
}

/// The element `dir` places after `current` in `order`, wrapping around.
pub open spec fn cycled<T>(order: Seq<T>, current: T, dir: int) -> T {
    order[(position_or_zero(order, current) + dir) % (order.len() as int)]
}

/// Steps `dir` places from `current` through `order`, wrapping at both ends;
/// a value missing from `order` counts as its first element's position.
pub fn cycle<T: Copy + PartialEq>(order: &[T], current: T, dir: i32) -> (r: T)
    requires
        obeys_concrete_eq::<T>(),
        0 < order@.len() <= i32::MAX,
        i32::MIN <= position_or_zero(order@, current) + dir <= i32::MAX,
    ensures
        r == cycled(order@, current, dir as int),
{
    proof {
        reveal(obeys_concrete_eq);
        order@.index_of_first_ensures(current);
    }
    let n: usize = order.len();
    let mut idx: usize = 0;
    let mut found: bool = false;
    while idx < n
        invariant_except_break
            !found,
        invariant
            n == order@.len(),
            obeys_concrete_eq::<T>(),
            idx <= n,
            forall|j: int| 0 <= j < idx ==> order@[j] != current,
        ensures
            idx <= n,
            forall|j: int| 0 <= j < idx ==> order@[j] != current,
            found ==> idx < n && order@[idx as int] == current,
            !found ==> idx == n,
        decreases n - idx,
    {
        proof {
            reveal(obeys_concrete_eq);
        }
        if order[idx] == current {
            found = true;
            break;
        }
        idx = idx + 1;
    }
    let pos: i64 = if found {
        idx as i64
    } else {
        0
    };
    assert(pos == position_or_zero(order@, current)) by {
        if found {
            assert(order@.contains(current));
        } else {
            assert(!order@.contains(current));
        }
    }
    let s: i64 = pos + dir as i64;
    let len: i64 = n as i64;
    let next: i64 = if s >= 0 {
        s % len
    } else {
        let q: i64 = (-s - 1) % len;
        proof {
            let a: int = -s - 1;
            lemma_fundamental_div_mod(a, len as int);
            lemma_mod_pos_bound(a, len as int);
            let k: int = a / (len as int);
            assert(s == (-k - 1) * len + (len - 1 - q)) by (nonlinear_arith)
                requires
                    a == len * k + q,
                    s == -a - 1,
            ;
            lemma_fundamental_div_mod_converse_mod(s as int, len as int, -k - 1, len - 1 - q);
        }
        len - 1 - q
    };
    order[next as usize]
}


/// A parameter row of the panel.
#[derive(Debug, Clone, Copy, PartialEq, Eq, Structural)]
pub enum ParamField {
    Count,
    Motion(MotionField),
    Twinkle,
    Shape,
    Palette,
}

impl ParamField {
    /// The field's name inside button ids.
    pub fn name(self) -> (r: &'static str)
        ensures
            r@ == self.spec_name(),
    {
        match self {
            ParamField::Count => "count",
            ParamField::Motion(MotionField::Speed) => "speed",
            ParamField::Motion(MotionField::Spread) => "spread",
            ParamField::Motion(MotionField::Gravity) => "gravity",
            ParamField::Motion(MotionField::Lifetime) => "lifetime",
            ParamField::Motion(MotionField::Radius) => "radius",
            ParamField::Twinkle => "twinkle",
            ParamField::Shape => "shape",
            ParamField::Palette => "palette",
        }
    }

    pub open spec fn spec_name(self) -> Seq<char> {
        match self {
            ParamField::Count => "count"@,
            ParamField::Motion(MotionField::Speed) => "speed"@,
            ParamField::Motion(MotionField::Spread) => "spread"@,
            ParamField::Motion(MotionField::Gravity) => "gravity"@,
            ParamField::Motion(MotionField::Lifetime) => "lifetime"@,
            ParamField::Motion(MotionField::Radius) => "radius"@,
            ParamField::Twinkle => "twinkle"@,
            ParamField::Shape => "shape"@,
            ParamField::Palette => "palette"@,
        }
    }
}

/// What a button id asks for.
#[derive(Debug, Clone, Copy, PartialEq, Eq, Structural)]
pub enum ClickCommand {
    /// Not a button the handler knows.
    Ignore,
    SwitchTab(Trigger),
    ToggleEnabled,
    Quit,
    HideSettings,
    /// Restore the active trigger's parameters to their defaults.
    ResetTrigger,
    /// Step a field of a trigger's parameters by -1, 0 or +1; a step of 0
    /// flips twinkle and re-clamps every other field.
    Adjust(Trigger, ParamField, i32),
}

/// What the caller should do after a click.
#[must_use]
#[derive(Debug, Clone, Copy, PartialEq, Eq, Structural)]
pub enum ClickEffect {
    /// Nothing to do.
    Nothing,
    /// The configuration was edited and should be persisted.
    Changed,
    /// Show this trigger's tab.
    SwitchTab(Trigger),
    /// Hide the panel and keep the effects running.
    HideSettings,
    Quit,
}

pub open spec fn has_prefix(s: Seq<char>, p: Seq<char>) -> bool {
    p.len() <= s.len() && s.subrange(0, p.len() as int) == p
}

pub open spec fn drop_prefix(s: Seq<char>, p: Seq<char>) -> Seq<char> {
    s.subrange(p.len() as int, s.len() as int)
}

/// `s` up to its first `-`, and what follows that `-` when there is one.
pub open spec fn cut_at_dash(s: Seq<char>) -> (Seq<char>, Option<Seq<char>>) {
    match s.index_of_first('-') {
        Some(i) => (s.subrange(0, i), Some(s.subrange(i + 1, s.len() as int))),
        None => (s, None),
    }
}

/// The three pieces of `s` split at its first two dashes (the third keeps any
/// further dashes). A missing second piece is empty; the third is None when
/// `s` has fewer than two dashes, and may be present but empty.
pub open spec fn split3(s: Seq<char>) -> (Seq<char>, Seq<char>, Option<Seq<char>>) {
    let (a, rest) = cut_at_dash(s);
    match rest {
        None => (a, Seq::empty(), None),
        Some(r) => {
            let (b, rest2) = cut_at_dash(r);
            (a, b, rest2)
        },
    }
}

/// The action word, empty when the id has none.
pub open spec fn action_word(action: Option<Seq<char>>) -> Seq<char> {
    match action {
        Some(w) => w,
        None => Seq::empty(),
    }
}

pub open spec fn spec_trigger_of(s: Seq<char>) -> Option<Trigger> {
    if s == Trigger::Mouse.spec_slug() {
        Some(Trigger::Mouse)
    } else if s == Trigger::Right.spec_slug() {
        Some(Trigger::Right)
    } else if s == Trigger::Double.spec_slug() {
        Some(Trigger::Double)
    } else if s == Trigger::Key.spec_slug() {
        Some(Trigger::Key)
    } else {
        None
    }
}

pub open spec fn spec_field_of(s: Seq<char>) -> Option<ParamField> {
    if s == ParamField::Count.spec_name() {
        Some(ParamField::Count)
    } else if s == ParamField::Motion(MotionField::Speed).spec_name() {
        Some(ParamField::Motion(MotionField::Speed))
    } else if s == ParamField::Motion(MotionField::Spread).spec_name() {
        Some(ParamField::Motion(MotionField::Spread))
    } else if s == ParamField::Motion(MotionField::Gravity).spec_name() {
        Some(ParamField::Motion(MotionField::Gravity))
    } else if s == ParamField::Motion(MotionField::Lifetime).spec_name() {
        Some(ParamField::Motion(MotionField::Lifetime))
    } else if s == ParamField::Motion(MotionField::Radius).spec_name() {
        Some(ParamField::Motion(MotionField::Radius))
    } else if s == ParamField::Twinkle.spec_name() {
        Some(ParamField::Twinkle)
    } else if s == ParamField::Shape.spec_name() {
        Some(ParamField::Shape)
    } else if s == ParamField::Palette.spec_name() {
        Some(ParamField::Palette)
    } else {
        None
    }
}

/// The step an action word asks for: -1 for `dec`/`prev`, +1 for `inc`/`next`.
pub open spec fn spec_dir_of(a: Seq<char>) -> i32 {
    if a == "dec"@ || a == "prev"@ {
        -1i32
    } else if a == "inc"@ || a == "next"@ {
        1i32
    } else {
        0i32
    }
}

/// A step of 0 is asked for by the action word `twinkle`, or by the twinkle
/// row's toggle, whose id has no action piece at all (an empty one after a
/// trailing dash does not count).
pub open spec fn is_toggle_action(field: Seq<char>, action: Option<Seq<char>>) -> bool {
    action == Some("twinkle"@) || (action is None && field == ParamField::Twinkle.spec_name())
}

/// The command a button id stands for.
///
/// Ids are `tab-<trigger>`, `enabled`, `quit`, `done`, `reset`,
/// `p-<trigger>-<field>-<action>` with action `dec`, `inc`, `prev`, `next`
/// or `twinkle`, and the twinkle row's own toggle `p-<trigger>-twinkle`
/// (no action word), which flips twinkle.
pub open spec fn click_command(id: Seq<char>) -> ClickCommand {
    if has_prefix(id, "tab-"@) {
        match spec_trigger_of(drop_prefix(id, "tab-"@)) {
            Some(t) => ClickCommand::SwitchTab(t),
            None => ClickCommand::Ignore,
        }
    } else if id == "enabled"@ {
        ClickCommand::ToggleEnabled
    } else if id == "quit"@ {
        ClickCommand::Quit
    } else if id == "done"@ {
        ClickCommand::HideSettings
    } else if id == "reset"@ {
        ClickCommand::ResetTrigger
    } else if has_prefix(id, "p-"@) {
        let (ts, fs, action) = split3(drop_prefix(id, "p-"@));
        match spec_trigger_of(ts) {
            None => ClickCommand::Ignore,
            Some(t) => {
                let dir = spec_dir_of(action_word(action));
                if dir == 0 && !is_toggle_action(fs, action) {
                    ClickCommand::Ignore
                } else {
                    match spec_field_of(fs) {
                        Some(f) => ClickCommand::Adjust(t, f, dir),
                        None => ClickCommand::Ignore,
                    }
                }
            },
        }
    } else {
        ClickCommand::Ignore
    }
}

fn trigger_at(cs: &[char], start: usize, end: usize) -> (r: Option<Trigger>)
    requires
        start <= end <= cs@.len(),
    ensures
        r == spec_trigger_of(cs@.subrange(start as int, end as int)),
{
    if segment_is(cs, start, end, Trigger::Mouse.id_slug()) {
        Some(Trigger::Mouse)
    } else if segment_is(cs, start, end, Trigger::Right.id_slug()) {
        Some(Trigger::Right)
    } else if segment_is(cs, start, end, Trigger::Double.id_slug()) {
        Some(Trigger::Double)
    } else if segment_is(cs, start, end, Trigger::Key.id_slug()) {
        Some(Trigger::Key)
    } else {
        None
    }
}

fn field_at(cs: &[char], start: usize, end: usize) -> (r: Option<ParamField>)
    requires
        start <= end <= cs@.len(),
    ensures
        r == spec_field_of(cs@.subrange(start as int, end as int)),
{
    if segment_is(cs, start, end, ParamField::Count.name()) {
        Some(ParamField::Count)
    } else if segment_is(cs, start, end, ParamField::Motion(MotionField::Speed).name()) {
        Some(ParamField::Motion(MotionField::Speed))
    } else if segment_is(cs, start, end, ParamField::Motion(MotionField::Spread).name()) {
        Some(ParamField::Motion(MotionField::Spread))
    } else if segment_is(cs, start, end, ParamField::Motion(MotionField::Gravity).name()) {
        Some(ParamField::Motion(MotionField::Gravity))
    } else if segment_is(cs, start, end, ParamField::Motion(MotionField::Lifetime).name()) {
        Some(ParamField::Motion(MotionField::Lifetime))
    } else if segment_is(cs, start, end, ParamField::Motion(MotionField::Radius).name()) {
        Some(ParamField::Motion(MotionField::Radius))
    } else if segment_is(cs, start, end, ParamField::Twinkle.name()) {
        Some(ParamField::Twinkle)
    } else if segment_is(cs, start, end, ParamField::Shape.name()) {
        Some(ParamField::Shape)
    } else if segment_is(cs, start, end, ParamField::Palette.name()) {
        Some(ParamField::Palette)
    } else {
        None
    }
}

fn dir_at(cs: &[char], start: usize, end: usize) -> (r: i32)
    requires
        start <= end <= cs@.len(),
    ensures
        r == spec_dir_of(cs@.subrange(start as int, end as int)),
{
    if segment_is(cs, start, end, "dec") || segment_is(cs, start, end, "prev") {
        -1
    } else if segment_is(cs, start, end, "inc") || segment_is(cs, start, end, "next") {
        1
    } else {
        0
    }
}

/// Splits `cs[start..end]` at its first dash: the end of the piece before
/// it, and where the rest begins (None when there is no dash).
fn cut_dash_at(cs: &[char], start: usize, end: usize) -> (r: (usize, Option<usize>))
    requires
        start <= end <= cs@.len(),
    ensures
        start <= r.0 <= end,
        ({
            let (a, rest) = cut_at_dash(cs@.subrange(start as int, end as int));
            &&& a == cs@.subrange(start as int, r.0 as int)
            &&& match r.1 {
                Some(b) => r.0 < b <= end && b == r.0 + 1 && rest == Some(
                    cs@.subrange(b as int, end as int),
                ),
                None => r.0 == end && rest is None,
            }
        }),
{
    let ghost seg = cs@.subrange(start as int, end as int);
    proof {
        seg.index_of_first_ensures('-');
    }
    match find_char(cs, start, end, '-') {
        Some(k) => {
            assert(seg.subrange(0, k as int) =~= cs@.subrange(start as int, (start + k) as int));
            assert(seg.subrange(k + 1, seg.len() as int) =~= cs@.subrange(
                (start + k + 1) as int,
                end as int,
            ));
            (start + k, Some(start + k + 1))
        },
        None => (end, None),
    }
}

/// Decodes a button id.
pub fn parse_click(id: &str) -> (r: ClickCommand)
    ensures
        r == click_command(id@),
{
    let cs = chars_of(id);
    let n: usize = cs.len();
    if starts_with(&cs, "tab-") {
        let k: usize = "tab-".unicode_len();
        return match trigger_at(&cs, k, n) {
            Some(t) => ClickCommand::SwitchTab(t),
            None => ClickCommand::Ignore,
        };
    }
    if segment_is(&cs, 0, n, "enabled") {
        assert(cs@.subrange(0, n as int) =~= cs@);
        return ClickCommand::ToggleEnabled;
    }
    if segment_is(&cs, 0, n, "quit") {
        assert(cs@.subrange(0, n as int) =~= cs@);
        return ClickCommand::Quit;
    }
    if segment_is(&cs, 0, n, "done") {
        assert(cs@.subrange(0, n as int) =~= cs@);
        return ClickCommand::HideSettings;
    }
    if segment_is(&cs, 0, n, "reset") {
        assert(cs@.subrange(0, n as int) =~= cs@);
        return ClickCommand::ResetTrigger;
    }
    assert(cs@.subrange(0, n as int) =~= cs@);
    if !starts_with(&cs, "p-") {
        return ClickCommand::Ignore;
    }
    let s0: usize = "p-".unicode_len();
    let ghost rest = drop_prefix(id@, "p-"@);
    assert(rest =~= cs@.subrange(s0 as int, n as int));
    let (a_end, b_start) = cut_dash_at(&cs, s0, n);
    let (fb, fe, ab, ae, has_action): (usize, usize, usize, usize, bool) = match b_start {
        None => (n, n, n, n, false),
        Some(b) => {
            let (b_end, c_start) = cut_dash_at(&cs, b, n);
            match c_start {
                None => (b, b_end, n, n, false),
                Some(c) => (b, b_end, c, n, true),
            }
        },
    };
    proof {
        let (ts, fs, action) = split3(rest);
        assert(ts == cs@.subrange(s0 as int, a_end as int));
        assert(fs =~= cs@.subrange(fb as int, fe as int));
        assert(action is Some <==> has_action);
        assert(action_word(action) =~= cs@.subrange(ab as int, ae as int));
    }
    let trig = match trigger_at(&cs, s0, a_end) {
        Some(t) => t,
        None => {
            return ClickCommand::Ignore;
        },
    };
    let dir: i32 = dir_at(&cs, ab, ae);
    let toggles: bool = if has_action {
        segment_is(&cs, ab, ae, "twinkle")
    } else {
        segment_is(&cs, fb, fe, ParamField::Twinkle.name())
    };
    if dir == 0 && !toggles {
        return ClickCommand::Ignore;
    }
    match field_at(&cs, fb, fe) {
        Some(f) => ClickCommand::Adjust(trig, f, dir),
        None => ClickCommand::Ignore,
    }
}


/// `count` read as an `i32`, two's complement.
pub open spec fn count_as_i32(count: u32) -> int {
    if count > i32::MAX {
        count - 0x1_0000_0000
    } else {
        count as int
    }
}

pub open spec fn clamp(v: int, lo: int, hi: int) -> int {
    if v < lo {
        lo
    } else if v > hi {
        hi
    } else {
        v
    }
}

/// The particle count after one step `dir` of the count row: kept within 1..=50.
pub open spec fn stepped_count(count: u32, dir: i32) -> u32 {
    clamp(count_as_i32(count) + dir, 1, 50) as u32
}

/// Whether stepping the count overflows `i32` (the count row works in `i32`).
pub open spec fn count_step_overflows<M>(cmd: ClickCommand, cfg: Config<M>) -> bool {
    match cmd {
        ClickCommand::Adjust(t, ParamField::Count, dir) => {
            let v = count_as_i32(t.spec_params(cfg).count) + dir;
            v < i32::MIN || v > i32::MAX
        },
        _ => false,
    }
}

/// `p` with `field` stepped by `dir`, leaving the motion as it is.
pub open spec fn adjusted<M>(p: FxParams<M>, field: ParamField, dir: i32) -> FxParams<M> {
    match field {
        ParamField::Count => FxParams { count: stepped_count(p.count, dir), ..p },
        ParamField::Motion(_) => p,
        ParamField::Twinkle => if dir == 0 {
            FxParams { twinkle: !p.twinkle, ..p }
        } else {
            p
        },
        ParamField::Shape => FxParams { shape: cycled(spec_shape_order(), p.shape, dir as int), ..p },
        ParamField::Palette => FxParams {
            palette: cycled(spec_palette_order(), p.palette, dir as int),
            ..p
        },
    }
}

/// Count, twinkle, shape and palette of `p` are those of `FxParams::default()`.
pub open spec fn has_default_look<M>(p: FxParams<M>) -> bool {
    p.count == 12 && !p.twinkle && p.shape == FxShape::Default && p.palette == FxPalette::Default
}

/// `after` and `effect` are what handling `cmd` on `before` gives, with
/// `active` the shown tab. A motion step leaves what the host's
/// `Motion::step` gives for that field and direction; a reset leaves what
/// `Motion::initial` gives.
pub open spec fn click_outcome<M: Motion>(
    cmd: ClickCommand,
    before: Config<M>,
    after: Config<M>,
    active: Trigger,
    effect: ClickEffect,
) -> bool {
    match cmd {
        ClickCommand::Ignore => effect == ClickEffect::Nothing && after == before,
        ClickCommand::SwitchTab(t) => effect == ClickEffect::SwitchTab(t) && after == before,
        ClickCommand::ToggleEnabled => effect == ClickEffect::Changed && after == Config {
            enabled: !before.enabled,
            ..before
        },
        ClickCommand::Quit => effect == ClickEffect::Quit && after == before,
        ClickCommand::HideSettings => effect == ClickEffect::HideSettings && after == before,
        ClickCommand::ResetTrigger => {
            let p = active.spec_params(after);
            &&& effect == ClickEffect::Changed
            &&& after == active.spec_with_params(before, p)
            &&& has_default_look(p)
            &&& call_ensures(M::initial, (), p.motion)
        },
        ClickCommand::Adjust(t, field, dir) => {
            let old_p = t.spec_params(before);
            let p = t.spec_params(after);
            &&& effect == ClickEffect::Changed
            &&& after == t.spec_with_params(before, p)
            &&& p == FxParams { motion: p.motion, ..adjusted(old_p, field, dir) }
            &&& match field {
                ParamField::Motion(mf) => call_ensures(M::step, (old_p.motion, mf, dir), p.motion),
                _ => p.motion == old_p.motion,
            }
        },
    }
}

proof fn lemma_shape_palette_eq()
    ensures
        obeys_concrete_eq::<FxShape>(),
        obeys_concrete_eq::<FxPalette>(),
{
    reveal(obeys_concrete_eq);
}

fn store_params<M: Motion>(t: Trigger, cfg: &mut Config<M>, p: FxParams<M>)
    ensures
        *final(cfg) == t.spec_with_params(*old(cfg), p),
{
    match t {
        Trigger::Mouse => cfg.mouse = p,
        Trigger::Right => cfg.right = p,
        Trigger::Double => cfg.double = p,
        Trigger::Key => cfg.key = p,
    }
}

/// Carries out a decoded click on `cfg`.
pub fn apply_click<M: Motion>(cmd: ClickCommand, cfg: &mut Config<M>, active: Trigger) -> (r: ClickEffect)
    requires
        !count_step_overflows(cmd, *old(cfg)),
        cmd is Adjust ==> -1 <= cmd->Adjust_2 <= 1,
    ensures
        click_outcome(cmd, *old(cfg), *final(cfg), active, r),
{
    match cmd {
        ClickCommand::Ignore => ClickEffect::Nothing,
        ClickCommand::SwitchTab(t) => ClickEffect::SwitchTab(t),
        ClickCommand::ToggleEnabled => {
            cfg.enabled = !cfg.enabled;
            ClickEffect::Changed
        },
        ClickCommand::Quit => ClickEffect::Quit,
        ClickCommand::HideSettings => ClickEffect::HideSettings,
        ClickCommand::ResetTrigger => {
            let fresh: FxParams<M> = FxParams::default();
            store_params(active, cfg, fresh);
            ClickEffect::Changed
        },
        ClickCommand::Adjust(t, field, dir) => {
            let mut p: FxParams<M> = *t.params(cfg);
            match field {
                ParamField::Count => {
                    let c: i64 = if p.count > 0x7fff_ffff {
                        p.count as i64 - 0x1_0000_0000
                    } else {
                        p.count as i64
                    };
                    let v: i64 = c + dir as i64;
                    let clamped: i64 = if v < 1 {
                        1
                    } else if v > 50 {
                        50
                    } else {
                        v
                    };
                    p.count = clamped as u32;
                },
                ParamField::Motion(mf) => {
                    p.motion = p.motion.step(mf, dir);
                },
                ParamField::Twinkle => {
                    if dir == 0 {
                        p.twinkle = !p.twinkle;
                    }
                },
                ParamField::Shape => {
                    let order = shape_order();
                    proof {
                        lemma_shape_palette_eq();
                        spec_shape_order().index_of_first_ensures(p.shape);
                    }
                    p.shape = cycle(order.as_slice(), p.shape, dir);
                },
                ParamField::Palette => {
                    let order = palette_order();
                    proof {
                        lemma_shape_palette_eq();
                        spec_palette_order().index_of_first_ensures(p.palette);
                    }
                    p.palette = cycle(order.as_slice(), p.palette, dir);
                },
            }
            store_params(t, cfg, p);
            ClickEffect::Changed
        },
    }
}

/// Interprets a click on the button `id` and edits `cfg` in place; `active`
/// is the trigger whose tab is shown (the one "reset" restores).
pub fn handle_click<M: Motion>(id: &str, cfg: &mut Config<M>, active: Trigger) -> (r: ClickEffect)
    requires
        !count_step_overflows(click_command(id@), *old(cfg)),
    ensures
        click_outcome(click_command(id@), *old(cfg), *final(cfg), active, r),
{
    let cmd = parse_click(id);
    apply_click(cmd, cfg, active)
}


/// Whatever the step, the count row keeps the particle count within 1..=50.
pub proof fn lemma_count_in_range(count: u32, dir: i32)
    ensures
        1 <= stepped_count(count, dir) <= 50,
{
}

/// Inside its range, one step up of the count is undone by one step down,
/// and one step down by one step up.
pub proof fn lemma_count_step_undone(count: u32)
    ensures
        1 <= count <= 49 ==> stepped_count(stepped_count(count, 1i32), -1i32) == count,
        2 <= count <= 50 ==> stepped_count(stepped_count(count, -1i32), 1i32) == count,
{
}

proof fn lemma_position_of_distinct<T>(order: Seq<T>, k: int)
    requires
        0 <= k < order.len(),
        forall|i: int, j: int| 0 <= i < j < order.len() ==> order[i] != order[j],
    ensures
        position_or_zero(order, order[k]) == k,
{
    order.index_of_first_ensures(order[k]);
    assert(order.contains(order[k]));
    let p = order.index_of_first(order[k])->0;
    if p < k {
        assert(order[p] != order[k]);
    }
    if p > k {
        assert(order[k] != order[k]);
    }
}

proof fn lemma_cycle_from_index<T>(order: Seq<T>, k: int, dir: int)
    requires
        0 <= k < order.len(),
        forall|i: int, j: int| 0 <= i < j < order.len() ==> order[i] != order[j],
    ensures
        cycled(order, order[k], dir) == order[(k + dir) % (order.len() as int)],
{
    lemma_position_of_distinct(order, k);
}

/// In an order without repeats, stepping `dir` places from an element of the
/// order and then `-dir` places comes back to it, for any `dir`.
pub proof fn lemma_cycle_undone<T>(order: Seq<T>, current: T, dir: int)
    requires
        order.contains(current),
        forall|i: int, j: int| 0 <= i < j < order.len() ==> order[i] != order[j],
    ensures
        cycled(order, cycled(order, current, dir), -dir) == current,
{
    let n = order.len() as int;
    let k = choose|k: int| 0 <= k < order.len() && order[k] == current;
    lemma_cycle_from_index(order, k, dir);
    let m = (k + dir) % n;
    vstd::arithmetic::div_mod::lemma_mod_bound(k + dir, n);
    lemma_cycle_from_index(order, m, -dir);
    vstd::arithmetic::div_mod::lemma_fundamental_div_mod(k + dir, n);
    let q = (k + dir) / n;
    assert(m + (-dir) == (-q) * n + k) by (nonlinear_arith)
        requires
            k + dir == n * q + m,
    ;
    vstd::arithmetic::div_mod::lemma_fundamental_div_mod_converse_mod(m + (-dir), n, -q, k);
}

/// `current` after `steps` single steps forward through `order`.
pub open spec fn cycled_times<T>(order: Seq<T>, current: T, steps: nat) -> T
    decreases steps,
{
    if steps == 0 {
        current
    } else {
        cycled(order, cycled_times(order, current, (steps - 1) as nat), 1)
    }
}

proof fn lemma_cycled_times_index<T>(order: Seq<T>, k: int, steps: nat)
    requires
        0 <= k < order.len(),
        forall|i: int, j: int| 0 <= i < j < order.len() ==> order[i] != order[j],
    ensures
        cycled_times(order, order[k], steps) == order[(k + steps) % (order.len() as int)],
    decreases steps,
{
    let n = order.len() as int;
    if steps == 0 {
        vstd::arithmetic::div_mod::lemma_small_mod(k as nat, n as nat);
    } else {
        lemma_cycled_times_index(order, k, (steps - 1) as nat);
        let m = (k + steps - 1) % n;
        vstd::arithmetic::div_mod::lemma_mod_bound(k + steps - 1, n);
        lemma_cycle_from_index(order, m, 1);
        vstd::arithmetic::div_mod::lemma_add_mod_noop_right(1, k + steps - 1, n);
        assert(m + 1 == 1 + m);
        assert(k + steps == 1 + (k + steps - 1));
    }
}

/// Going once round the whole order, one step at a time, comes back to
/// where it started.
pub proof fn lemma_cycle_full_turn<T>(order: Seq<T>, current: T)
    requires
        order.contains(current),
        forall|i: int, j: int| 0 <= i < j < order.len() ==> order[i] != order[j],
    ensures
        cycled_times(order, current, order.len()) == current,
{
    let n = order.len() as int;
    let k = choose|k: int| 0 <= k < order.len() && order[k] == current;
    lemma_cycled_times_index(order, k, order.len());
    vstd::arithmetic::div_mod::lemma_mod_multiples_vanish(1, k, n);
    vstd::arithmetic::div_mod::lemma_small_mod(k as nat, n as nat);
}

/// On the shape selector, one step forward is undone by one step back and
/// one step back by one step forward.
pub proof fn lemma_shape_step_undone(shape: FxShape, dir: i32)
    requires
        dir == 1 || dir == -1,
    ensures
        cycled(spec_shape_order(), cycled(spec_shape_order(), shape, dir as int), -dir) == shape,
{
    let order = spec_shape_order();
    let k: int = match shape {
        FxShape::Default => 0,
        FxShape::Disc => 1,
        FxShape::Square => 2,
        FxShape::Ring => 3,
        FxShape::Triangle => 4,
        FxShape::Star => 5,
        FxShape::Heart => 6,
        FxShape::Typed => 7,
    };
    assert(order[k] == shape);
    lemma_cycle_undone(order, shape, dir as int);
}

/// On the palette selector, one step forward is undone by one step back and
/// one step back by one step forward.
pub proof fn lemma_palette_step_undone(palette: FxPalette, dir: i32)
    requires
        dir == 1 || dir == -1,
    ensures
        cycled(spec_palette_order(), cycled(spec_palette_order(), palette, dir as int), -dir)
            == palette,
{
    let order = spec_palette_order();
    let k: int = match palette {
        FxPalette::Default => 0,
        FxPalette::Mono => 1,
        FxPalette::Pastel => 2,
        FxPalette::Neon => 3,
        FxPalette::Rainbow => 4,
    };
    assert(order[k] == palette);
    lemma_cycle_undone(order, palette, dir as int);
}

/// Flipping the master switch twice gives back the configuration.
pub proof fn lemma_enabled_toggle_undone<M: Motion>(c0: Config<M>, c1: Config<M>, c2: Config<M>, active: Trigger, e1: ClickEffect, e2: ClickEffect)
    requires
        click_outcome(ClickCommand::ToggleEnabled, c0, c1, active, e1),
        click_outcome(ClickCommand::ToggleEnabled, c1, c2, active, e2),
    ensures
        c2 == c0,
{
}


/// Which of the count row's step buttons are live: the count, read as an
/// `i32`, can go down while above 1 and up while below 50.
pub fn count_steps_enabled(count: u32) -> (r: (bool, bool))
    ensures
        r == (count_as_i32(count) > 1, count_as_i32(count) < 50),
{
    let v: i64 = if count > 0x7fff_ffff {
        count as i64 - 0x1_0000_0000
    } else {
        count as i64
    };
    (v > 1, v < 50)
}


/// Whether clicking `id` would step a count past the `i32` range, the one
/// click `handle_click` does not accept.
pub fn count_step_would_overflow<M>(id: &str, cfg: &Config<M>) -> (r: bool)
    ensures
        r == count_step_overflows(click_command(id@), *cfg),
{
    match parse_click(id) {
        ClickCommand::Adjust(t, ParamField::Count, dir) => {
            let count: u32 = t.params(cfg).count;
            let v: i64 = if count > 0x7fff_ffff {
                count as i64 - 0x1_0000_0000
            } else {
                count as i64
            };
            let w: i64 = v + dir as i64;
            w < -0x8000_0000 || w > 0x7fff_ffff
        },
        _ => false,
    }
}


/// Each shape is captioned with its own name, the one it has in the
/// configuration file.
pub proof fn lemma_shape_captions()
    ensures
        spec_shape_label(FxShape::Default) == "default"@,
        spec_shape_label(FxShape::Disc) == "disc"@,
        spec_shape_label(FxShape::Square) == "square"@,
        spec_shape_label(FxShape::Ring) == "ring"@,
        spec_shape_label(FxShape::Triangle) == "triangle"@,
        spec_shape_label(FxShape::Star) == "star"@,
        spec_shape_label(FxShape::Heart) == "heart"@,
        spec_shape_label(FxShape::Typed) == "typed"@,
{
}

/// Each palette is captioned with its own name, the one it has in the
/// configuration file.
pub proof fn lemma_palette_captions()
    ensures
        spec_palette_label(FxPalette::Default) == "default"@,
        spec_palette_label(FxPalette::Mono) == "mono"@,
        spec_palette_label(FxPalette::Pastel) == "pastel"@,
        spec_palette_label(FxPalette::Neon) == "neon"@,
        spec_palette_label(FxPalette::Rainbow) == "rainbow"@,
{
}

/// Each tab is captioned with its trigger's name, and named in ids by the
/// same word in lower case.
pub proof fn lemma_trigger_names()
    ensures
        Trigger::Mouse.spec_label() == "Mouse"@ && Trigger::Mouse.spec_slug() == "mouse"@,
        Trigger::Right.spec_label() == "Right"@ && Trigger::Right.spec_slug() == "right"@,
        Trigger::Double.spec_label() == "Double"@ && Trigger::Double.spec_slug() == "double"@,
        Trigger::Key.spec_label() == "Key"@ && Trigger::Key.spec_slug() == "key"@,
        spec_trigger_of("mouse"@) == Some(Trigger::Mouse),
        spec_trigger_of("right"@) == Some(Trigger::Right),
        spec_trigger_of("double"@) == Some(Trigger::Double),
        spec_trigger_of("key"@) == Some(Trigger::Key),
{
    reveal_strlit("mouse");
    reveal_strlit("right");
    reveal_strlit("double");
    reveal_strlit("key");
    assert("right"@ != "mouse"@) by {
        assert("right"@[0] == 'r');
    }
    assert("double"@ != "mouse"@ && "double"@ != "right"@) by {
        assert("double"@[0] == 'd');
    }
    assert("key"@ != "mouse"@ && "key"@ != "right"@ && "key"@ != "double"@) by {
        assert("key"@[0] == 'k');
    }
}

/// Each parameter row is named in ids by the parameter's own name.
pub proof fn lemma_field_names()
    ensures
        ParamField::Count.spec_name() == "count"@,
        ParamField::Motion(MotionField::Speed).spec_name() == "speed"@,
        ParamField::Motion(MotionField::Spread).spec_name() == "spread"@,
        ParamField::Motion(MotionField::Gravity).spec_name() == "gravity"@,
        ParamField::Motion(MotionField::Lifetime).spec_name() == "lifetime"@,
        ParamField::Motion(MotionField::Radius).spec_name() == "radius"@,
        ParamField::Twinkle.spec_name() == "twinkle"@,
        ParamField::Shape.spec_name() == "shape"@,
        ParamField::Palette.spec_name() == "palette"@,
{
}

/// `dec` and `prev` step down, `inc` and `next` step up.
pub proof fn lemma_action_words()
    ensures
        spec_dir_of("dec"@) == -1i32,
        spec_dir_of("prev"@) == -1i32,
        spec_dir_of("inc"@) == 1,
        spec_dir_of("next"@) == 1,
        spec_dir_of(Seq::<char>::empty()) == 0,
        spec_dir_of("twinkle"@) == 0,
{
    reveal_strlit("dec");
    reveal_strlit("prev");
    reveal_strlit("inc");
    reveal_strlit("next");
    reveal_strlit("twinkle");
    assert(Seq::<char>::empty() != "dec"@ && Seq::<char>::empty() != "prev"@
        && Seq::<char>::empty() != "inc"@ && Seq::<char>::empty() != "next"@) by {
        assert("dec"@.len() == 3 && "prev"@.len() == 4 && "inc"@.len() == 3 && "next"@.len() == 4);
    }
    assert("inc"@ != "dec"@ && "inc"@ != "prev"@) by {
        assert("inc"@[0] == 'i');
    }
    assert("next"@ != "dec"@ && "next"@ != "prev"@) by {
        assert("next"@[0] == 'n');
    }
    assert("twinkle"@ != "dec"@ && "twinkle"@ != "prev"@ && "twinkle"@ != "inc"@ && "twinkle"@
        != "next"@) by {
        assert("twinkle"@[0] == 't');
    }
}

/// The shape selector goes through all eight shapes, default first and typed
/// last, each once; the palette selector through all five palettes.
pub proof fn lemma_selector_orders(shape: FxShape, palette: FxPalette)
    ensures
        spec_shape_order().len() == 8,
        spec_shape_order()[0] == FxShape::Default,
        spec_shape_order()[1] == FxShape::Disc,
        spec_shape_order()[2] == FxShape::Square,
        spec_shape_order()[3] == FxShape::Ring,
        spec_shape_order()[4] == FxShape::Triangle,
        spec_shape_order()[5] == FxShape::Star,
        spec_shape_order()[6] == FxShape::Heart,
        spec_shape_order()[7] == FxShape::Typed,
        spec_shape_order().contains(shape),
        spec_palette_order().len() == 5,
        spec_palette_order()[0] == FxPalette::Default,
        spec_palette_order()[1] == FxPalette::Mono,
        spec_palette_order()[2] == FxPalette::Pastel,
        spec_palette_order()[3] == FxPalette::Neon,
        spec_palette_order()[4] == FxPalette::Rainbow,
        spec_palette_order().contains(palette),
{
    let k: int = match shape {
        FxShape::Default => 0,
        FxShape::Disc => 1,
        FxShape::Square => 2,
        FxShape::Ring => 3,
        FxShape::Triangle => 4,
        FxShape::Star => 5,
        FxShape::Heart => 6,
        FxShape::Typed => 7,
    };
    assert(spec_shape_order()[k] == shape);
    let j: int = match palette {
        FxPalette::Default => 0,
        FxPalette::Mono => 1,
        FxPalette::Pastel => 2,
        FxPalette::Neon => 3,
        FxPalette::Rainbow => 4,
    };
    assert(spec_palette_order()[j] == palette);
}

/// Inside the range one step changes the count by exactly one, and a twinkle
/// step of 0 flips twinkle while every other field's step keeps it.
pub proof fn lemma_single_steps<M>(p: FxParams<M>, field: ParamField, dir: i32)
    ensures
        1 <= p.count < 50 ==> stepped_count(p.count, 1i32) == p.count + 1,
        1 < p.count <= 50 ==> stepped_count(p.count, -1i32) == p.count - 1,
        adjusted(p, ParamField::Twinkle, 0i32).twinkle == !p.twinkle,
        dir != 0 ==> adjusted(p, ParamField::Twinkle, dir).twinkle == p.twinkle,
        field != ParamField::Twinkle ==> adjusted(p, field, dir).twinkle == p.twinkle,
        field != ParamField::Count ==> adjusted(p, field, dir).count == p.count,
        field != ParamField::Shape ==> adjusted(p, field, dir).shape == p.shape,
        field != ParamField::Palette ==> adjusted(p, field, dir).palette == p.palette,
{
}

} // verus!
