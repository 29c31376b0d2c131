use vstd::prelude::*;
use vstd::pervasive::cloned;

use core::ops::{Range, RangeInclusive};

use crate::context::Context;
use crate::egui_bind::{
    egui_checkbox, egui_colored_action, egui_green, egui_horizontal, egui_label, egui_number_edit,
    egui_red, egui_text_edit_multiline, egui_text_edit_singleline,
};
use crate::inspectable::Inspectable;
use crate::surface::{
    activated, bool_after, consume_one, number_after, text_after, ActionColor, DrawOpView,
    EventView, Surface,
};

verus! {

/// Render configuration for a string: whether the editor is single- or
/// multi-line.
#[derive(Clone, Copy, Debug, PartialEq, Eq)]
pub struct StringAttributes {
    pub multiline: bool,
}

impl Default for StringAttributes {
    /// The default presentation: a single-line editor.
    fn default() -> (r: StringAttributes)
        ensures
            r.multiline == false,
    {
        StringAttributes { multiline: false }
    }
}

impl Inspectable for String {
    type Attributes = StringAttributes;

    open spec fn used(pre: String, attrs: StringAttributes, events: Seq<EventView>) -> nat {
        consume_one(events)
    }

    open spec fn draws(pre: String, attrs: StringAttributes, events: Seq<EventView>) -> Seq<
        DrawOpView,
    > {
        seq![DrawOpView::TextEdit { multiline: attrs.multiline }]
    }

    open spec fn edited(
        pre: String,
        attrs: StringAttributes,
        events: Seq<EventView>,
        post: String,
    ) -> bool {
        post@ == text_after(pre@, events)
    }

    fn ui(&mut self, ui: &mut Surface, options: &StringAttributes, _context: &Context) {
        ui.draw_text_edit(self, options.multiline);
        proof {
            assert(old(ui)@.ops.push(DrawOpView::TextEdit { multiline: options.multiline }) =~= old(
                ui,
            )@.ops + Self::draws(*old(self), *options, old(ui)@.events));
        }
    }

    fn ui_egui(&mut self, ui: &mut bevy_egui::egui::Ui, options: &StringAttributes, _context: &Context) {
        match options.multiline {
            false => egui_text_edit_singleline(ui, self),
            true => egui_text_edit_multiline(ui, self),
        }
    }
}

impl Inspectable for bool {
    type Attributes = ();

    open spec fn used(pre: bool, attrs: (), events: Seq<EventView>) -> nat {
        consume_one(events)
    }

    open spec fn draws(pre: bool, attrs: (), events: Seq<EventView>) -> Seq<DrawOpView> {
        seq![DrawOpView::Checkbox]
    }

    open spec fn edited(pre: bool, attrs: (), events: Seq<EventView>, post: bool) -> bool {
        post == bool_after(pre, events)
    }

    fn ui(&mut self, ui: &mut Surface, options: &(), _context: &Context) {
        ui.draw_checkbox(self);
        proof {
            assert(old(ui)@.ops.push(DrawOpView::Checkbox) =~= old(ui)@.ops + Self::draws(
                *old(self),
                *options,
                old(ui)@.events,
            ));
        }
    }

    fn ui_egui(&mut self, ui: &mut bevy_egui::egui::Ui, _options: &(), _context: &Context) {
        egui_checkbox(ui, self);
    }
}

impl Inspectable for i32 {
    type Attributes = ();

    open spec fn used(pre: i32, attrs: (), events: Seq<EventView>) -> nat {
        consume_one(events)
    }

    open spec fn draws(pre: i32, attrs: (), events: Seq<EventView>) -> Seq<DrawOpView> {
        seq![DrawOpView::NumberEdit]
    }

    open spec fn edited(pre: i32, attrs: (), events: Seq<EventView>, post: i32) -> bool {
        post == number_after(pre, events)
    }

    fn ui(&mut self, ui: &mut Surface, options: &(), _context: &Context) {
        ui.draw_number_edit(self);
        proof {
            assert(old(ui)@.ops.push(DrawOpView::NumberEdit) =~= old(ui)@.ops + Self::draws(
                *old(self),
                *options,
                old(ui)@.events,
            ));
        }
    }

    fn ui_egui(&mut self, ui: &mut bevy_egui::egui::Ui, _options: &(), _context: &Context) {
        egui_number_edit(ui, self);
    }
}

/// Relies on RangeInclusive::into_inner: destructures the range into its
/// (start, end) bounds, discarding any iteration state.
pub assume_specification<Idx>[ RangeInclusive::<Idx>::into_inner ](
    r: RangeInclusive<Idx>,
) -> (ret: (Idx, Idx))
    ensures
        ret.0 == r@.start,
        ret.1 == r@.end,
;

impl<T: Inspectable + Default> Inspectable for RangeInclusive<T> {
    type Attributes = T::Attributes;

    open spec fn used(pre: RangeInclusive<T>, attrs: T::Attributes, events: Seq<EventView>) -> nat {
        T::used(pre@.start, attrs, events) + T::used(
            pre@.end,
            attrs,
            events.skip(T::used(pre@.start, attrs, events) as int),
        )
    }

    open spec fn draws(pre: RangeInclusive<T>, attrs: T::Attributes, events: Seq<EventView>) -> Seq<
        DrawOpView,
    > {
        seq![DrawOpView::GroupStart] + T::draws(pre@.start, attrs, events) + seq![
            DrawOpView::Label("..="@),
        ] + T::draws(pre@.end, attrs, events.skip(T::used(pre@.start, attrs, events) as int))
            + seq![DrawOpView::GroupEnd]
    }

    open spec fn edited(
        pre: RangeInclusive<T>,
        attrs: T::Attributes,
        events: Seq<EventView>,
        post: RangeInclusive<T>,
    ) -> bool {
        &&& T::edited(pre@.start, attrs, events, post@.start)
        &&& T::edited(
            pre@.end,
            attrs,
            events.skip(T::used(pre@.start, attrs, events) as int),
            post@.end,
        )
        &&& post@.exhausted == false
    }

    fn ui(&mut self, ui: &mut Surface, options: &T::Attributes, context: &Context) {
        let ghost evs0 = old(ui)@.events;
        ui.begin_horizontal();
        let mut whole = RangeInclusive::new(T::default(), T::default());
        core::mem::swap(self, &mut whole);
        let (mut start, mut end) = whole.into_inner();
        let c0 = context.with_id(0);
        start.ui(ui, options, &c0);
        ui.draw_label("..=");
        let c1 = context.with_id(1);
        end.ui(ui, options, &c1);
        let mut rebuilt = RangeInclusive::new(start, end);
        core::mem::swap(self, &mut rebuilt);
        ui.end_horizontal();
        proof {
            let u0: int = T::used(old(self)@.start, *options, evs0) as int;
            let u1: int = T::used(old(self)@.end, *options, evs0.skip(u0)) as int;
            assert(evs0.skip(u0).skip(u1) =~= evs0.skip(u0 + u1));
            assert(ui@.ops =~= old(ui)@.ops + Self::draws(*old(self), *options, evs0));
        }
    }

    fn ui_egui(&mut self, ui: &mut bevy_egui::egui::Ui, options: &T::Attributes, context: &Context)
        ensures
            final(self)@.exhausted == false,
    {
        let mut whole = RangeInclusive::new(T::default(), T::default());
        core::mem::swap(self, &mut whole);
        let (start, end) = whole.into_inner();
        let c0 = context.with_id(0);
        let c1 = context.with_id(1);
        let pair = egui_horizontal(
            ui,
            move |u: &mut bevy_egui::egui::Ui| -> (T, T)
                {
                    let mut start = start;
                    let mut end = end;
                    start.ui_egui(u, options, &c0);
                    egui_label(u, "..=");
                    end.ui_egui(u, options, &c1);
                    (start, end)
                },
        );
        let mut rebuilt = RangeInclusive::new(pair.0, pair.1);
        core::mem::swap(self, &mut rebuilt);
    }
}

impl<T: Inspectable + Default> Inspectable for Range<T> {
    type Attributes = T::Attributes;

    open spec fn used(pre: Range<T>, attrs: T::Attributes, events: Seq<EventView>) -> nat {
        T::used(pre.start, attrs, events) + T::used(
            pre.end,
            attrs,
            events.skip(T::used(pre.start, attrs, events) as int),
        )
    }

    open spec fn draws(pre: Range<T>, attrs: T::Attributes, events: Seq<EventView>) -> Seq<
        DrawOpView,
    > {
        seq![DrawOpView::GroupStart] + T::draws(pre.start, attrs, events) + seq![
            DrawOpView::Label(".."@),
        ] + T::draws(pre.end, attrs, events.skip(T::used(pre.start, attrs, events) as int)) + seq![
            DrawOpView::GroupEnd,
        ]
    }

    open spec fn edited(
        pre: Range<T>,
        attrs: T::Attributes,
        events: Seq<EventView>,
        post: Range<T>,
    ) -> bool {
        &&& T::edited(pre.start, attrs, events, post.start)
        &&& T::edited(
            pre.end,
            attrs,
            events.skip(T::used(pre.start, attrs, events) as int),
            post.end,
        )
    }

    fn ui(&mut self, ui: &mut Surface, options: &T::Attributes, context: &Context) {
        let ghost evs0 = old(ui)@.events;
        ui.begin_horizontal();
        let c0 = context.with_id(0);
        self.start.ui(ui, options, &c0);
        ui.draw_label("..");
        let c1 = context.with_id(1);
        self.end.ui(ui, options, &c1);
        ui.end_horizontal();
        proof {
            let u0: int = T::used(old(self).start, *options, evs0) as int;
            let u1: int = T::used(old(self).end, *options, evs0.skip(u0)) as int;
            assert(evs0.skip(u0).skip(u1) =~= evs0.skip(u0 + u1));
            assert(ui@.ops =~= old(ui)@.ops + Self::draws(*old(self), *options, evs0));
        }
    }

    fn ui_egui(&mut self, ui: &mut bevy_egui::egui::Ui, options: &T::Attributes, context: &Context) {
        let mut start = T::default();
        core::mem::swap(&mut self.start, &mut start);
        let mut end = T::default();
        core::mem::swap(&mut self.end, &mut end);
        let c0 = context.with_id(0);
        let c1 = context.with_id(1);
        let pair = egui_horizontal(
            ui,
            move |u: &mut bevy_egui::egui::Ui| -> (T, T)
                {
                    let mut start = start;
                    let mut end = end;
                    start.ui_egui(u, options, &c0);
                    egui_label(u, "..");
                    end.ui_egui(u, options, &c1);
                    (start, end)
                },
        );
        self.start = pair.0;
        self.end = pair.1;
    }
}

/// Render configuration for an optional value: the attributes handed to the
/// present value's own view, and an optional replacement value. When the
/// replacement is configured, the add action on an absent value adopts a
/// clone of it; when it is not, an absent value stays absent.
#[derive(Clone)]
pub struct OptionAttributes<T: Inspectable + Clone> {
    pub replacement: Option<T>,
    pub inner: T::Attributes,
}

impl<T: Inspectable + Clone> Default for OptionAttributes<T> {
    /// The default configuration: no replacement, and the inner type's
    /// default attributes.
    fn default() -> (r: OptionAttributes<T>)
        ensures
            r.replacement is None,
    {
        OptionAttributes { replacement: None, inner: T::Attributes::default() }
    }
}

impl<T: Inspectable + Clone> Inspectable for Option<T> {
    type Attributes = OptionAttributes<T>;

    open spec fn used(pre: Option<T>, attrs: OptionAttributes<T>, events: Seq<EventView>) -> nat {
        match pre {
            Some(v) => T::used(v, attrs.inner, events) + consume_one(
                events.skip(T::used(v, attrs.inner, events) as int),
            ),
            None => if attrs.replacement is Some {
                consume_one(events)
            } else {
                0nat
            },
        }
    }

    open spec fn draws(pre: Option<T>, attrs: OptionAttributes<T>, events: Seq<EventView>) -> Seq<
        DrawOpView,
    > {
        match pre {
            Some(v) => T::draws(v, attrs.inner, events) + seq![
                DrawOpView::Action { color: ActionColor::Red, glyph: "✖"@ },
            ],
            None => if attrs.replacement is Some {
                seq![DrawOpView::Label("None"@)] + seq![
                    DrawOpView::Action { color: ActionColor::Green, glyph: "+"@ },
                ]
            } else {
                seq![DrawOpView::Label("None"@)]
            },
        }
    }

    open spec fn edited(
        pre: Option<T>,
        attrs: OptionAttributes<T>,
        events: Seq<EventView>,
        post: Option<T>,
    ) -> bool {
        match pre {
            Some(v) => if activated(events.skip(T::used(v, attrs.inner, events) as int)) {
                post is None
            } else {
                post matches Some(w) && T::edited(v, attrs.inner, events, w)
            },
            None => match attrs.replacement {
                Some(p) => if activated(events) {
                    post matches Some(w) && cloned::<T>(p, w)
                } else {
                    post is None
                },
                None => post is None,
            },
        }
    }

    fn ui(&mut self, ui: &mut Surface, options: &OptionAttributes<T>, context: &Context) {
        match self {
            Some(val) => {
                val.ui(ui, &options.inner, context);
                let clicked = ui.draw_colored_action(ActionColor::Red, "✖");
                if clicked {
                    *self = None;
                }
                proof {
                    assert(ui@.ops =~= old(ui)@.ops + Self::draws(
                        *old(self),
                        *options,
                        old(ui)@.events,
                    ));
                }
            },
            None => {
                ui.draw_label("None");
                match &options.replacement {
                    Some(replacement) => {
                        let clicked = ui.draw_colored_action(ActionColor::Green, "+");
                        if clicked {
                            *self = Some(replacement.clone());
                        }
                        proof {
                            assert(ui@.ops =~= old(ui)@.ops + Self::draws(
                                *old(self),
                                *options,
                                old(ui)@.events,
                            ));
                        }
                    },
                    None => {
                        proof {
                            assert(old(ui)@.events.skip(0) =~= old(ui)@.events);
                            assert(ui@.ops =~= old(ui)@.ops + Self::draws(
                                *old(self),
                                *options,
                                old(ui)@.events,
                            ));
                        }
                    },
                }
            },
        }
    }

    fn ui_egui(
        &mut self,
        ui: &mut bevy_egui::egui::Ui,
        options: &OptionAttributes<T>,
        context: &Context,
    )
        ensures
            *old(self) is None && options.replacement is None ==> *final(self) is None,
            *old(self) is None ==> (*final(self) is None || (options.replacement matches Some(p)
                && *final(self) matches Some(w) && cloned::<T>(p, w))),
    {
        match self {
            Some(val) => {
                val.ui_egui(ui, &options.inner, context);
                if egui_colored_action(ui, egui_red(), "✖") {
                    *self = None;
                }
            },
            None => {
                egui_label(ui, "None");
                match &options.replacement {
                    Some(replacement) => {
                        if egui_colored_action(ui, egui_green(), "+") {
                            *self = Some(replacement.clone());
                        }
                    },
                    None => {},
                }
            },
        }
    }
}

} // verus!
