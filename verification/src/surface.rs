use vstd::prelude::*;

verus! {

/// A scripted user interaction handed to the drawing surface.
///
/// The surface answers each interactive widget from its script, in draw
/// order: every interactive widget consumes exactly one event while the
/// script lasts, and acts on it only when the event fits the widget.
/// `Skip` stands for a frame in which the user left that widget alone.
#[derive(Clone, Debug, PartialEq, Eq)]
pub enum Event {
    /// The user replaced the contents of an editable text control.
    EditText(String),
    /// The user set the value of a numeric editor.
    SetNumber(i32),
    /// The user flipped a toggle control.
    Toggle,
    /// The user activated a clickable action glyph.
    Activate,
    /// The user did not touch the widget.
    Skip,
}

/// The ghost image of an [`Event`], with text as a sequence of characters.
pub enum EventView {
    EditText(Seq<char>),
    SetNumber(i32),
    Toggle,
    Activate,
    Skip,
}

impl View for Event {
    type V = EventView;

    open spec fn view(&self) -> EventView {
        match self {
            Event::EditText(s) => EventView::EditText(s@),
            Event::SetNumber(n) => EventView::SetNumber(*n),
            Event::Toggle => EventView::Toggle,
            Event::Activate => EventView::Activate,
            Event::Skip => EventView::Skip,
        }
    }
}

/// The color of a clickable action glyph, one of the drawing surface's
/// named color constants.
#[derive(Clone, Copy, Debug, PartialEq, Eq)]
pub enum ActionColor {
    Red,
    Green,
}

/// One draw call issued to the drawing surface.
#[derive(Clone, Debug, PartialEq, Eq)]
pub enum DrawOp {
    /// An editable text control, single- or multi-line.
    TextEdit { multiline: bool },
    /// An editable numeric control.
    NumberEdit,
    /// An unlabelled toggle control.
    Checkbox,
    /// Non-interactive text.
    Label(String),
    /// A clickable glyph in a named color.
    Action { color: ActionColor, glyph: String },
    /// The start of a horizontal group of widgets.
    GroupStart,
    /// The end of a horizontal group of widgets.
    GroupEnd,
}

/// The ghost image of a [`DrawOp`], with text as a sequence of characters.
pub enum DrawOpView {
    TextEdit { multiline: bool },
    NumberEdit,
    Checkbox,
    Label(Seq<char>),
    Action { color: ActionColor, glyph: Seq<char> },
    GroupStart,
    GroupEnd,
}

impl View for DrawOp {
    type V = DrawOpView;

    open spec fn view(&self) -> DrawOpView {
        match self {
            DrawOp::TextEdit { multiline } => DrawOpView::TextEdit { multiline: *multiline },
            DrawOp::NumberEdit => DrawOpView::NumberEdit,
            DrawOp::Checkbox => DrawOpView::Checkbox,
            DrawOp::Label(s) => DrawOpView::Label(s@),
            DrawOp::Action { color, glyph } => (DrawOpView::Action {
                color: *color,
                glyph: glyph@,
            }),
            DrawOp::GroupStart => DrawOpView::GroupStart,
            DrawOp::GroupEnd => DrawOpView::GroupEnd,
        }
    }
}

/// How many scripted events one interactive widget consumes: one while the
/// script lasts, none once it is exhausted.
pub open spec fn consume_one(events: Seq<EventView>) -> nat {
    if events.len() > 0 {
        1nat
    } else {
        0nat
    }
}

/// The text an editable text control holds after one render against the
/// script `events`: the edited text if the next event is a text edit, the
/// old text otherwise.
pub open spec fn text_after(pre: Seq<char>, events: Seq<EventView>) -> Seq<char> {
    if events.len() > 0 {
        match events[0] {
            EventView::EditText(t) => t,
            _ => pre,
        }
    } else {
        pre
    }
}

/// The value a toggle control holds after one render against the script
/// `events`: flipped exactly when the next event is a toggle.
pub open spec fn bool_after(pre: bool, events: Seq<EventView>) -> bool {
    if events.len() > 0 && events[0] is Toggle {
        !pre
    } else {
        pre
    }
}

/// The value a numeric editor holds after one render against the script
/// `events`.
pub open spec fn number_after(pre: i32, events: Seq<EventView>) -> i32 {
    if events.len() > 0 {
        match events[0] {
            EventView::SetNumber(v) => v,
            _ => pre,
        }
    } else {
        pre
    }
}

/// Whether the next scripted event activates a clickable action glyph.
pub open spec fn activated(events: Seq<EventView>) -> bool {
    events.len() > 0 && events[0] is Activate
}

/// The ghost image of a [`Surface`]: the draw calls issued so far and the
/// script of user events not yet consumed.
pub struct SurfaceView {
    pub ops: Seq<DrawOpView>,
    pub events: Seq<EventView>,
}

/// The ghost image of a script of events.
pub open spec fn events_view(events: Seq<Event>) -> Seq<EventView> {
    events.map_values(|e: Event| e@)
}

/// A simulated drawing surface: the narrow interface the protocol draws
/// through. It records every draw call it is asked for and answers each
/// interactive widget from a script of user events, in draw order.
pub struct Surface {
    ops: Vec<DrawOp>,
    events: Vec<Event>,
}

impl View for Surface {
    type V = SurfaceView;

    closed spec fn view(&self) -> SurfaceView {
        SurfaceView {
            ops: self.ops@.map_values(|op: DrawOp| op@),
            events: events_view(self.events@),
        }
    }
}

impl Surface {
    /// A surface with nothing drawn yet, answering interactive widgets from
    /// `events` in order.
    pub fn new(events: Vec<Event>) -> (s: Surface)
        ensures
            s@.ops == Seq::<DrawOpView>::empty(),
            s@.events == events_view(events@),
    {
        let s = Surface { ops: Vec::new(), events };
        proof {
            assert(s@.ops =~= Seq::<DrawOpView>::empty());
        }
        s
    }

    /// The draw calls issued so far, oldest first.
    pub fn ops(&self) -> (r: &Vec<DrawOp>)
        ensures
            r@.map_values(|op: DrawOp| op@) == self@.ops,
    {
        &self.ops
    }

    /// The scripted events not yet consumed.
    pub fn events_remaining(&self) -> (r: &Vec<Event>)
        ensures
            events_view(r@) == self@.events,
    {
        &self.events
    }

    /// Takes the next scripted event, if the script still has one.
    fn take_event(&mut self) -> (ev: Option<Event>)
        ensures
            final(self)@.ops == old(self)@.ops,
            final(self)@.events == old(self)@.events.skip(consume_one(old(self)@.events) as int),
            old(self)@.events.len() == 0 ==> ev is None,
            old(self)@.events.len() > 0 ==> (ev matches Some(e) && e@ == old(self)@.events[0]),
    {
        if self.events.len() > 0 {
            let ev = self.events.remove(0);
            proof {
                assert(events_view(self.events@) =~= events_view(old(self).events@).skip(1));
            }
            Some(ev)
        } else {
            proof {
                assert(old(self)@.events.skip(0) =~= old(self)@.events);
            }
            None
        }
    }

    /// Records one draw call.
    fn record(&mut self, op: DrawOp)
        ensures
            final(self)@.ops == old(self)@.ops.push(op@),
            final(self)@.events == old(self)@.events,
    {
        let ghost prev = self.ops@;
        self.ops.push(op);
        proof {
            assert(self.ops@.map_values(|o: DrawOp| o@) =~= prev.map_values(|o: DrawOp| o@).push(
                self.ops@[prev.len() as int]@,
            ));
        }
    }

    /// Draws an editable text control bound to `buffer`. A scripted text
    /// edit replaces the buffer's contents in place, with no buffering and
    /// no separate commit step.
    pub fn draw_text_edit(&mut self, buffer: &mut String, multiline: bool)
        ensures
            final(self)@.ops == old(self)@.ops.push(DrawOpView::TextEdit { multiline }),
            final(self)@.events == old(self)@.events.skip(consume_one(old(self)@.events) as int),
            final(buffer)@ == text_after(old(buffer)@, old(self)@.events),
    {
        self.record(DrawOp::TextEdit { multiline });
        let ev = self.take_event();
        match ev {
            Some(Event::EditText(t)) => {
                *buffer = t;
            },
            _ => {},
        }
    }

    /// Draws an editable numeric control bound to `value`. A scripted
    /// numeric edit replaces the value in place.
    pub fn draw_number_edit(&mut self, value: &mut i32)
        ensures
            final(self)@.ops == old(self)@.ops.push(DrawOpView::NumberEdit),
            final(self)@.events == old(self)@.events.skip(consume_one(old(self)@.events) as int),
            *final(value) == number_after(*old(value), old(self)@.events),
    {
        self.record(DrawOp::NumberEdit);
        let ev = self.take_event();
        match ev {
            Some(Event::SetNumber(v)) => {
                *value = v;
            },
            _ => {},
        }
    }

    /// Draws an unlabelled toggle control bound to `flag`. A scripted
    /// toggle flips the value in place.
    pub fn draw_checkbox(&mut self, flag: &mut bool)
        ensures
            final(self)@.ops == old(self)@.ops.push(DrawOpView::Checkbox),
            final(self)@.events == old(self)@.events.skip(consume_one(old(self)@.events) as int),
            *final(flag) == bool_after(*old(flag), old(self)@.events),
    {
        self.record(DrawOp::Checkbox);
        let ev = self.take_event();
        match ev {
            Some(Event::Toggle) => {
                *flag = !*flag;
            },
            _ => {},
        }
    }

    /// Draws non-interactive text. Consumes no event.
    pub fn draw_label(&mut self, text: &str)
        ensures
            final(self)@.ops == old(self)@.ops.push(DrawOpView::Label(text@)),
            final(self)@.events == old(self)@.events,
    {
        self.record(DrawOp::Label(text.to_string()));
    }

    /// Draws a clickable glyph in the given color and reports whether the
    /// script activated it.
    pub fn draw_colored_action(&mut self, color: ActionColor, glyph: &str) -> (clicked: bool)
        ensures
            final(self)@.ops == old(self)@.ops.push(
                DrawOpView::Action { color, glyph: glyph@ },
            ),
            final(self)@.events == old(self)@.events.skip(consume_one(old(self)@.events) as int),
            clicked == activated(old(self)@.events),
    {
        self.record(DrawOp::Action { color, glyph: glyph.to_string() });
        let ev = self.take_event();
        match ev {
            Some(Event::Activate) => true,
            _ => false,
        }
    }

    /// Opens a horizontal group: the draw calls up to the matching
    /// [`Surface::end_horizontal`] are laid out left to right.
    pub fn begin_horizontal(&mut self)
        ensures
            final(self)@.ops == old(self)@.ops.push(DrawOpView::GroupStart),
            final(self)@.events == old(self)@.events,
    {
        self.record(DrawOp::GroupStart);
    }

    /// Closes the innermost horizontal group.
    pub fn end_horizontal(&mut self)
        ensures
            final(self)@.ops == old(self)@.ops.push(DrawOpView::GroupEnd),
            final(self)@.events == old(self)@.events,
    {
        self.record(DrawOp::GroupEnd);
    }
}

} // verus!
