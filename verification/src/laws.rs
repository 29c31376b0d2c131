use vstd::prelude::*;
use vstd::pervasive::cloned;

use core::ops::RangeInclusive;

use crate::impls::primitives::{OptionAttributes, StringAttributes};
use crate::inspectable::Inspectable;
use crate::surface::{activated, DrawOpView, EventView};

verus! {

/// A simulated text edit lands in the buffer whole, and a further render
/// that meets no interaction leaves it alone: rendering a string against a
/// script holding one edit, then rendering the result against an empty
/// script, leaves the buffer holding exactly the edited text.
pub proof fn lemma_string_edit_round_trip(
    s: String,
    a1: StringAttributes,
    t: Seq<char>,
    s1: String,
    a2: StringAttributes,
    s2: String,
)
    requires
        <String as Inspectable>::edited(s, a1, seq![EventView::EditText(t)], s1),
        <String as Inspectable>::edited(s1, a2, Seq::<EventView>::empty(), s2),
    ensures
        s1@ == t,
        s2@ == t,
{
}

/// One simulated toggle flips exactly the rendered value and nothing else:
/// the new value is the negation of the old, the render issues one toggle
/// draw call and no other, and it consumes exactly one event.
pub proof fn lemma_bool_toggle_flips(b: bool, events: Seq<EventView>, post: bool)
    requires
        events.len() > 0,
        events[0] is Toggle,
        <bool as Inspectable>::edited(b, (), events, post),
    ensures
        post == !b,
        <bool as Inspectable>::draws(b, (), events) == seq![DrawOpView::Checkbox],
        <bool as Inspectable>::used(b, (), events) == 1nat,
{
}

/// Idempotence under a no-interaction render: rendering an inclusive range
/// of numbers against an empty script leaves both bounds unchanged.
pub proof fn lemma_range_inclusive_noop(pre: RangeInclusive<i32>, post: RangeInclusive<i32>)
    requires
        <RangeInclusive<i32> as Inspectable>::edited(pre, (), Seq::<EventView>::empty(), post),
    ensures
        post@.start == pre@.start,
        post@.end == pre@.end,
        post@.exhausted == false,
{
    assert(Seq::<EventView>::empty().skip(0) =~= Seq::<EventView>::empty());
}

/// A simulated edit to the start bound alone changes the start bound alone:
/// the end bound comes out unchanged.
pub proof fn lemma_range_inclusive_edit_start_only(
    pre: RangeInclusive<i32>,
    v: i32,
    post: RangeInclusive<i32>,
)
    requires
        <RangeInclusive<i32> as Inspectable>::edited(pre, (), seq![EventView::SetNumber(v)], post),
    ensures
        post@.start == v,
        post@.end == pre@.end,
        post@.exhausted == false,
{
    assert(seq![EventView::SetNumber(v)].skip(1) =~= Seq::<EventView>::empty());
}

/// Starting absent with a replacement configured, one simulated add
/// activation makes the value present, holding a clone of the replacement.
pub proof fn lemma_option_add<T: Inspectable + Clone>(
    attrs: OptionAttributes<T>,
    p: T,
    events: Seq<EventView>,
    post: Option<T>,
)
    requires
        attrs.replacement == Some(p),
        activated(events),
        <Option<T> as Inspectable>::edited(Option::<T>::None, attrs, events, post),
    ensures
        post matches Some(w) && cloned::<T>(p, w),
{
}

/// For a numeric optional value the adopted clone is the replacement
/// itself: one simulated add activation on an absent value yields exactly
/// the configured replacement, present.
pub proof fn lemma_option_add_number(
    attrs: OptionAttributes<i32>,
    p: i32,
    events: Seq<EventView>,
    post: Option<i32>,
)
    requires
        attrs.replacement == Some(p),
        activated(events),
        <Option<i32> as Inspectable>::edited(Option::<i32>::None, attrs, events, post),
    ensures
        post == Some(p),
{
}

/// Starting present, one simulated remove activation, arriving after the
/// events the inner view consumes, empties the value.
pub proof fn lemma_option_remove<T: Inspectable + Clone>(
    v: T,
    attrs: OptionAttributes<T>,
    events: Seq<EventView>,
    post: Option<T>,
)
    requires
        activated(events.skip(T::used(v, attrs.inner, events) as int)),
        <Option<T> as Inspectable>::edited(Some(v), attrs, events, post),
    ensures
        post is None,
{
}

/// Absent without a replacement configured is a terminal state: whatever
/// the script holds, the value stays absent.
pub proof fn lemma_option_absent_terminal<T: Inspectable + Clone>(
    attrs: OptionAttributes<T>,
    events: Seq<EventView>,
    post: Option<T>,
)
    requires
        attrs.replacement is None,
        <Option<T> as Inspectable>::edited(Option::<T>::None, attrs, events, post),
    ensures
        post is None,
{
}

} // verus!
