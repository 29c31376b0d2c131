use core::ops::{Range, RangeInclusive};

use inspector_core::{
    ActionColor, Context, DrawOp, Event, Inspectable, OptionAttributes, StringAttributes, Surface,
};

#[test]
fn string_edit_applied() {
    let mut s = String::from("hello");
    let mut ui = Surface::new(vec![Event::EditText(String::from("world"))]);
    let ctx = Context::new();
    s.ui(&mut ui, &StringAttributes { multiline: false }, &ctx);
    assert_eq!(s, "world");
    assert_eq!(ui.ops(), &vec![DrawOp::TextEdit { multiline: false }]);
    assert!(ui.events_remaining().is_empty());
}

#[test]
fn string_edit_then_noop_render_keeps_text() {
    let mut s = String::from("hello");
    let ctx = Context::new();
    let mut ui = Surface::new(vec![Event::EditText(String::from("world"))]);
    s.ui(&mut ui, &StringAttributes { multiline: false }, &ctx);
    let mut ui2 = Surface::new(vec![]);
    s.ui(&mut ui2, &StringAttributes { multiline: false }, &ctx);
    assert_eq!(s, "world");
}

#[test]
fn string_multiline_attribute_selects_widget() {
    let mut s = String::new();
    let mut ui = Surface::new(vec![]);
    let ctx = Context::new();
    s.ui(&mut ui, &StringAttributes { multiline: true }, &ctx);
    assert_eq!(ui.ops(), &vec![DrawOp::TextEdit { multiline: true }]);
    assert_eq!(s, "");
}

#[test]
fn string_default_attributes_are_singleline() {
    assert_eq!(StringAttributes::default(), StringAttributes { multiline: false });
}

#[test]
fn bool_toggle_flips_value() {
    let mut b = false;
    let mut ui = Surface::new(vec![Event::Toggle]);
    let ctx = Context::new();
    b.ui(&mut ui, &(), &ctx);
    assert!(b);
    assert_eq!(ui.ops(), &vec![DrawOp::Checkbox]);
    assert!(ui.events_remaining().is_empty());
}

#[test]
fn bool_untouched_keeps_value() {
    let mut b = true;
    let mut ui = Surface::new(vec![Event::Skip]);
    let ctx = Context::new();
    b.ui(&mut ui, &(), &ctx);
    assert!(b);
}

#[test]
fn number_edit_sets_value() {
    let mut n: i32 = 5;
    let mut ui = Surface::new(vec![Event::SetNumber(9)]);
    let ctx = Context::new();
    n.ui(&mut ui, &(), &ctx);
    assert_eq!(n, 9);
    assert_eq!(ui.ops(), &vec![DrawOp::NumberEdit]);
}

#[test]
fn range_inclusive_noop_render_is_identity() {
    let mut r: RangeInclusive<i32> = 3..=7;
    let mut ui = Surface::new(vec![]);
    let ctx = Context::new();
    r.ui(&mut ui, &(), &ctx);
    assert_eq!(r, 3..=7);
    let ops = ui.ops();
    assert_eq!(
        ops,
        &vec![
            DrawOp::GroupStart,
            DrawOp::NumberEdit,
            DrawOp::Label(String::from("..=")),
            DrawOp::NumberEdit,
            DrawOp::GroupEnd,
        ]
    );
    let editors = ops.iter().filter(|op| **op == DrawOp::NumberEdit).count();
    let labels = ops
        .iter()
        .filter(|op| matches!(op, DrawOp::Label(_)))
        .count();
    assert_eq!(editors, 2);
    assert_eq!(labels, 1);
}

#[test]
fn range_inclusive_edit_end_only() {
    let mut r: RangeInclusive<i32> = 3..=7;
    let mut ui = Surface::new(vec![Event::Skip, Event::SetNumber(9)]);
    let ctx = Context::new();
    r.ui(&mut ui, &(), &ctx);
    assert_eq!(r, 3..=9);
}

#[test]
fn range_inclusive_edit_start_leaves_end_alone() {
    let mut r: RangeInclusive<i32> = 3..=7;
    let mut ui = Surface::new(vec![Event::SetNumber(1)]);
    let ctx = Context::new();
    r.ui(&mut ui, &(), &ctx);
    assert_eq!(r, 1..=7);
}

#[test]
fn range_inclusive_inverted_is_not_corrected() {
    let mut r: RangeInclusive<i32> = 3..=7;
    let mut ui = Surface::new(vec![Event::SetNumber(10)]);
    let ctx = Context::new();
    r.ui(&mut ui, &(), &ctx);
    assert_eq!(r, 10..=7);
}

#[test]
fn range_half_open_edits_both_ends() {
    let mut r: Range<i32> = 1..4;
    let mut ui = Surface::new(vec![Event::SetNumber(0), Event::SetNumber(8)]);
    let ctx = Context::new();
    r.ui(&mut ui, &(), &ctx);
    assert_eq!(r, 0..8);
    assert_eq!(
        ui.ops(),
        &vec![
            DrawOp::GroupStart,
            DrawOp::NumberEdit,
            DrawOp::Label(String::from("..")),
            DrawOp::NumberEdit,
            DrawOp::GroupEnd,
        ]
    );
}

#[test]
fn option_add_adopts_replacement() {
    let mut v: Option<i32> = None;
    let attrs = OptionAttributes { replacement: Some(7), inner: () };
    let mut ui = Surface::new(vec![Event::Activate]);
    let ctx = Context::new();
    v.ui(&mut ui, &attrs, &ctx);
    assert_eq!(v, Some(7));
    assert_eq!(
        ui.ops(),
        &vec![
            DrawOp::Label(String::from("None")),
            DrawOp::Action { color: ActionColor::Green, glyph: String::from("+") },
        ]
    );
}

#[test]
fn option_remove_empties_value() {
    let mut v: Option<i32> = Some(5);
    let attrs = OptionAttributes { replacement: None, inner: () };
    let mut ui = Surface::new(vec![Event::Skip, Event::Activate]);
    let ctx = Context::new();
    v.ui(&mut ui, &attrs, &ctx);
    assert_eq!(v, None);
    assert_eq!(
        ui.ops(),
        &vec![
            DrawOp::NumberEdit,
            DrawOp::Action { color: ActionColor::Red, glyph: String::from("✖") },
        ]
    );
}

#[test]
fn option_absent_without_replacement_is_terminal() {
    let mut v: Option<i32> = None;
    let attrs = OptionAttributes { replacement: None, inner: () };
    let mut ui = Surface::new(vec![Event::Activate]);
    let ctx = Context::new();
    v.ui(&mut ui, &attrs, &ctx);
    assert_eq!(v, None);
    assert_eq!(ui.ops(), &vec![DrawOp::Label(String::from("None"))]);
}

#[test]
fn option_present_edits_inner_value() {
    let mut v: Option<i32> = Some(5);
    let attrs = OptionAttributes { replacement: None, inner: () };
    let mut ui = Surface::new(vec![Event::SetNumber(8), Event::Skip]);
    let ctx = Context::new();
    v.ui(&mut ui, &attrs, &ctx);
    assert_eq!(v, Some(8));
}

#[test]
fn option_default_attributes_have_no_replacement() {
    let attrs: OptionAttributes<i32> = OptionAttributes::default();
    assert!(attrs.replacement.is_none());
}

#[test]
fn sibling_contexts_get_distinct_identities() {
    let parent = Context::new();
    let a = parent.with_id(0);
    let b = parent.with_id(1);
    assert_ne!(a.ids(), b.ids());
}

#[test]
fn same_discriminator_gives_same_identity() {
    let parent = Context::new();
    let a = parent.with_id(0);
    let b = parent.with_id(0);
    assert_eq!(a.ids(), b.ids());
}

#[test]
fn identity_paths_follow_the_call_tree() {
    let root = Context::new();
    assert!(root.ids().is_empty());
    let child = root.with_id(0).with_id(1);
    assert_eq!(child.ids(), &vec![0u64, 1u64]);
}

#[test]
fn option_add_adopts_string_replacement() {
    let mut v: Option<String> = None;
    let attrs = OptionAttributes {
        replacement: Some(String::from("fresh")),
        inner: StringAttributes { multiline: false },
    };
    let mut ui = Surface::new(vec![Event::Activate]);
    let ctx = Context::new();
    v.ui(&mut ui, &attrs, &ctx);
    assert_eq!(v, Some(String::from("fresh")));
}

#[test]
fn option_of_range_edits_inner_end() {
    let mut v: Option<RangeInclusive<i32>> = Some(3..=7);
    let attrs: OptionAttributes<RangeInclusive<i32>> =
        OptionAttributes { replacement: None, inner: () };
    let mut ui = Surface::new(vec![Event::Skip, Event::SetNumber(9), Event::Skip]);
    let ctx = Context::new();
    v.ui(&mut ui, &attrs, &ctx);
    assert_eq!(v, Some(3..=9));
    assert!(ui.events_remaining().is_empty());
}

#[test]
fn option_of_range_remove_after_inner_events() {
    let mut v: Option<RangeInclusive<i32>> = Some(3..=7);
    let attrs: OptionAttributes<RangeInclusive<i32>> =
        OptionAttributes { replacement: None, inner: () };
    let mut ui = Surface::new(vec![Event::Skip, Event::Skip, Event::Activate]);
    let ctx = Context::new();
    v.ui(&mut ui, &attrs, &ctx);
    assert_eq!(v, None);
}

#[test]
fn identity_order_distinguishes_paths() {
    let root = Context::new();
    let a = root.with_id(0).with_id(1);
    let b = root.with_id(1).with_id(0);
    assert_ne!(a.ids(), b.ids());
}
