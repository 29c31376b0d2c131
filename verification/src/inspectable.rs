use vstd::prelude::*;

use crate::context::Context;
use crate::surface::{DrawOpView, EventView, Surface};

verus! {

/// The capability a type needs to plug into the rendering pipeline: given
/// exclusive access to a value, its attributes and an identity context, draw
/// an editable representation of the value and apply the resulting edits in
/// place.
///
/// The three spec members pin down the behaviour of [`Inspectable::ui`]
/// exactly: `used` says how many scripted events one render consumes,
/// `draws` which draw calls it issues, and `edited` how the value after the
/// call relates to the value before it. A composite renderer recurses into
/// this protocol for each of its parts, each part under a child context
/// derived with a distinct discriminator.
pub trait Inspectable: Sized {
    /// Per-type render configuration, defaultable, read-only during a
    /// render call.
    type Attributes: Default;

    /// How many scripted events one render of `pre` consumes.
    spec fn used(pre: Self, attrs: Self::Attributes, events: Seq<EventView>) -> nat;

    /// The draw calls one render of `pre` issues, in order.
    spec fn draws(pre: Self, attrs: Self::Attributes, events: Seq<EventView>) -> Seq<DrawOpView>;

    /// How the value after one render relates to the value before it.
    spec fn edited(pre: Self, attrs: Self::Attributes, events: Seq<EventView>, post: Self) -> bool;

    /// Renders an editable view of `self` on the surface and applies the
    /// edits the surface reports, in place. Never fails and consumes no
    /// more events than the script holds.
    fn ui(&mut self, ui: &mut Surface, options: &Self::Attributes, context: &Context)
        ensures
            Self::used(*old(self), *options, old(ui)@.events) <= old(ui)@.events.len(),
            final(ui)@.events == old(ui)@.events.skip(
                Self::used(*old(self), *options, old(ui)@.events) as int,
            ),
            final(ui)@.ops == old(ui)@.ops + Self::draws(*old(self), *options, old(ui)@.events),
            Self::edited(*old(self), *options, old(ui)@.events, *final(self)),
    ;

    /// Renders the same editable view on a drawing context of the external
    /// immediate-mode UI library. What the user did this frame decides the
    /// outcome, so nothing is promised of it here; the per-type impls state
    /// what holds of every outcome where anything does.
    fn ui_egui(
        &mut self,
        ui: &mut bevy_egui::egui::Ui,
        options: &Self::Attributes,
        context: &Context,
    );
}

} // verus!
