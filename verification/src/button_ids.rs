//! Ids of the panel's buttons, and the fact that the click grammar reads
//! each of them back as the command the button stands for.

use vstd::prelude::*;
use vstd::string::StringExecFns;

use crate::config::MotionField;
use crate::settings_ui::{
    click_command, cut_at_dash, drop_prefix, has_prefix, is_toggle_action, spec_dir_of,
    spec_field_of, spec_trigger_of, split3, ClickCommand, ParamField, Trigger,
};

verus! {

pub open spec fn spec_tab_id(t: Trigger) -> Seq<char> {
    "tab-"@ + t.spec_slug()
}

/// Id of a row's own control (`p-<trigger>-<field>`); the step buttons
/// append `-<action>` to it.
pub open spec fn spec_param_id(t: Trigger, field: ParamField) -> Seq<char> {
    "p-"@ + t.spec_slug() + "-"@ + field.spec_name()
}

/// The action word of a row's step button: `prev`/`next` on the selector
/// rows, `dec`/`inc` on the others.
pub open spec fn spec_step_word(field: ParamField, up: bool) -> Seq<char> {
    match field {
        ParamField::Shape | ParamField::Palette => if up {
            "next"@
        } else {
            "prev"@
        },
        _ => if up {
            "inc"@
        } else {
            "dec"@
        },
    }
}

pub open spec fn spec_step_id(t: Trigger, field: ParamField, up: bool) -> Seq<char> {
    spec_param_id(t, field) + "-"@ + spec_step_word(field, up)
}

/// Id of the tab button for `t`.
pub fn tab_id(t: Trigger) -> (r: String)
    ensures
        r@ == spec_tab_id(t),
{
    let mut s = <String as StringExecFns>::from_str("tab-");
    s.append(t.id_slug());
    s
}

/// Id of the row control of `field` on `t`'s tab.
pub fn param_id(t: Trigger, field: ParamField) -> (r: String)
    ensures
        r@ == spec_param_id(t, field),
{
    let mut s = <String as StringExecFns>::from_str("p-");
    s.append(t.id_slug());
    s.append("-");
    s.append(field.name());
    s
}

/// Id of the step button of `field` on `t`'s tab: the increasing one when `up`.
pub fn step_id(t: Trigger, field: ParamField, up: bool) -> (r: String)
    ensures
        r@ == spec_step_id(t, field, up),
{
    let mut s = param_id(t, field);
    s.append("-");
    let word: &str = match field {
        ParamField::Shape | ParamField::Palette => if up {
            "next"
        } else {
            "prev"
        },
        _ => if up {
            "inc"
        } else {
            "dec"
        },
    };
    s.append(word);
    s
}

proof fn lemma_cut_after_word(a: Seq<char>, b: Seq<char>)
    requires
        !a.contains('-'),
    ensures
        cut_at_dash(a + seq!['-'] + b) == (a, Some(b)),
{
    let s = a + seq!['-'] + b;
    s.index_of_first_ensures('-');
    assert(s[a.len() as int] == '-');
    assert(s.contains('-'));
    let i = s.index_of_first('-')->0;
    if i < a.len() {
        assert(s[i] == a[i]);
        assert(a.contains('-'));
    }
    assert(s.subrange(0, a.len() as int) =~= a);
    assert(s.subrange(a.len() as int + 1, s.len() as int) =~= b);
}

proof fn lemma_slug_literals()
    ensures
        Trigger::Mouse.spec_slug() == seq!['m', 'o', 'u', 's', 'e'],
        Trigger::Right.spec_slug() == seq!['r', 'i', 'g', 'h', 't'],
        Trigger::Double.spec_slug() == seq!['d', 'o', 'u', 'b', 'l', 'e'],
        Trigger::Key.spec_slug() == seq!['k', 'e', 'y'],
{
    reveal_strlit("mouse");
    reveal_strlit("right");
    reveal_strlit("double");
    reveal_strlit("key");
}

proof fn lemma_name_literals()
    ensures
        ParamField::Count.spec_name() == seq!['c', 'o', 'u', 'n', 't'],
        ParamField::Motion(MotionField::Speed).spec_name() == seq!['s', 'p', 'e', 'e', 'd'],
        ParamField::Motion(MotionField::Spread).spec_name() == seq!['s', 'p', 'r', 'e', 'a', 'd'],
        ParamField::Motion(MotionField::Gravity).spec_name() == seq!['g', 'r', 'a', 'v', 'i', 't', 'y'],
        ParamField::Motion(MotionField::Lifetime).spec_name() == seq![
            'l', 'i', 'f', 'e', 't', 'i', 'm', 'e',
        ],
        ParamField::Motion(MotionField::Radius).spec_name() == seq!['r', 'a', 'd', 'i', 'u', 's'],
        ParamField::Twinkle.spec_name() == seq!['t', 'w', 'i', 'n', 'k', 'l', 'e'],
        ParamField::Shape.spec_name() == seq!['s', 'h', 'a', 'p', 'e'],
        ParamField::Palette.spec_name() == seq!['p', 'a', 'l', 'e', 't', 't', 'e'],
{
    reveal_strlit("count");
    reveal_strlit("speed");
    reveal_strlit("spread");
    reveal_strlit("gravity");
    reveal_strlit("lifetime");
    reveal_strlit("radius");
    reveal_strlit("twinkle");
    reveal_strlit("shape");
    reveal_strlit("palette");
}

proof fn lemma_slug_decodes(t: Trigger)
    ensures
        spec_trigger_of(t.spec_slug()) == Some(t),
        !t.spec_slug().contains('-'),
{
    lemma_slug_literals();
    assert(!t.spec_slug().contains('-'));
}

proof fn lemma_name_decodes(f: ParamField)
    ensures
        spec_field_of(f.spec_name()) == Some(f),
        !f.spec_name().contains('-'),
{
    lemma_name_literals();
    assert(!f.spec_name().contains('-'));
}

/// A tab button's id is read back as a switch to that tab.
pub proof fn lemma_tab_id_round_trip(t: Trigger)
    ensures
        click_command(spec_tab_id(t)) == ClickCommand::SwitchTab(t),
{
    lemma_slug_decodes(t);
    reveal_strlit("tab-");
    let id = spec_tab_id(t);
    assert(id.subrange(0, "tab-"@.len() as int) =~= "tab-"@);
    assert(drop_prefix(id, "tab-"@) =~= t.spec_slug());
}

proof fn lemma_p_id_not_keyword(id: Seq<char>)
    requires
        id.len() >= 2,
        id[0] == 'p',
        id[1] == '-',
    ensures
        !has_prefix(id, "tab-"@),
        id != "enabled"@,
        id != "quit"@,
        id != "done"@,
        id != "reset"@,
        has_prefix(id, "p-"@),
{
    reveal_strlit("tab-");
    reveal_strlit("enabled");
    reveal_strlit("quit");
    reveal_strlit("done");
    reveal_strlit("reset");
    reveal_strlit("p-");
    if has_prefix(id, "tab-"@) {
        assert(id.subrange(0, 4)[0] == 't');
    }
    assert(id.subrange(0, 2) =~= "p-"@);
}

proof fn lemma_step_word(field: ParamField, up: bool)
    ensures
        !spec_step_word(field, up).contains('-'),
        spec_dir_of(spec_step_word(field, up)) == if up {
            1i32
        } else {
            -1i32
        },
{
    reveal_strlit("dec");
    reveal_strlit("inc");
    reveal_strlit("prev");
    reveal_strlit("next");
    assert(!spec_step_word(field, up).contains('-'));
    let w = spec_step_word(field, up);
    if up {
        assert(w[0] == 'i' || w[0] == 'n');
        assert(w != "dec"@ && w != "prev"@) by {
            assert("dec"@[0] == 'd' && "prev"@[0] == 'p');
        }
    } else {
        assert(w == "dec"@ || w == "prev"@);
    }
}

/// A step button's id is read back as a one-step adjustment of its field,
/// upward exactly when the button is the increasing one.
pub proof fn lemma_step_id_round_trip(t: Trigger, field: ParamField, up: bool)
    ensures
        click_command(spec_step_id(t, field, up)) == ClickCommand::Adjust(
            t,
            field,
            if up {
                1i32
            } else {
                -1i32
            },
        ),
{
    let id = spec_step_id(t, field, up);
    let word = spec_step_word(field, up);
    let slug = t.spec_slug();
    let name = field.spec_name();
    lemma_slug_decodes(t);
    lemma_name_decodes(field);
    lemma_step_word(field, up);
    assert("p-"@ == seq!['p', '-'] && "-"@ == seq!['-']) by {
        reveal_strlit("p-");
        reveal_strlit("-");
    }
    assert(id =~= seq!['p', '-'] + (slug + seq!['-'] + (name + seq!['-'] + word)));
    lemma_p_id_not_keyword(id);
    let rest = drop_prefix(id, "p-"@);
    assert(rest =~= slug + seq!['-'] + (name + seq!['-'] + word));
    lemma_cut_after_word(slug, name + seq!['-'] + word);
    lemma_cut_after_word(name, word);
    assert(split3(rest) == (slug, name, Some(word)));
}

proof fn lemma_cut_word(a: Seq<char>)
    requires
        !a.contains('-'),
    ensures
        cut_at_dash(a) == (a, None::<Seq<char>>),
{
    a.index_of_first_ensures('-');
}

/// The twinkle row's toggle id is read back as a flip of that trigger's
/// twinkle (a step of 0 on the twinkle field).
pub proof fn lemma_twinkle_toggle_round_trip(t: Trigger)
    ensures
        click_command(spec_param_id(t, ParamField::Twinkle)) == ClickCommand::Adjust(
            t,
            ParamField::Twinkle,
            0i32,
        ),
{
    let id = spec_param_id(t, ParamField::Twinkle);
    let slug = t.spec_slug();
    let name = ParamField::Twinkle.spec_name();
    lemma_slug_decodes(t);
    lemma_name_decodes(ParamField::Twinkle);
    assert("p-"@ == seq!['p', '-'] && "-"@ == seq!['-']) by {
        reveal_strlit("p-");
        reveal_strlit("-");
    }
    assert(id =~= seq!['p', '-'] + (slug + seq!['-'] + name));
    lemma_p_id_not_keyword(id);
    let rest = drop_prefix(id, "p-"@);
    assert(rest =~= slug + seq!['-'] + name);
    lemma_cut_after_word(slug, name);
    lemma_cut_word(name);
    assert(split3(rest) == (slug, name, None::<Seq<char>>));
    assert(spec_dir_of(Seq::<char>::empty()) == 0i32) by {
        reveal_strlit("dec");
        reveal_strlit("inc");
        reveal_strlit("prev");
        reveal_strlit("next");
        assert("dec"@.len() == 3 && "prev"@.len() == 4 && "inc"@.len() == 3 && "next"@.len() == 4);
    }
    assert(is_toggle_action(name, None));
}

} // verus!
