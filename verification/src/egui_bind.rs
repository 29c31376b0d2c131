use vstd::prelude::*;

verus! {

/// The drawing context type of the external immediate-mode UI library,
/// opaque to the verified code: every draw call goes through the trusted
/// bindings below.
#[verifier::external_type_specification]
#[verifier::external_body]
pub struct ExUi(bevy_egui::egui::Ui);

/// The color type of the external UI library, carried through unread.
#[verifier::external_type_specification]
#[verifier::external_body]
pub struct ExColor32(bevy_egui::egui::Color32);

/// Relies on egui's Color32::RED constant, the color of the removal action.
#[verifier::external_body]
pub(crate) fn egui_red() -> bevy_egui::egui::Color32 {
    bevy_egui::egui::Color32::RED
}

/// Relies on egui's Color32::GREEN constant, the color of the add action.
#[verifier::external_body]
pub(crate) fn egui_green() -> bevy_egui::egui::Color32 {
    bevy_egui::egui::Color32::GREEN
}

/// Relies on egui's TextEdit::singleline and Ui::add: draws a single-line
/// text editor bound to `buffer`; keystrokes the surface reports this frame
/// land directly in `buffer`.
#[verifier::external_body]
pub(crate) fn egui_text_edit_singleline(ui: &mut bevy_egui::egui::Ui, buffer: &mut String) {
    ui.add(bevy_egui::egui::widgets::TextEdit::singleline(buffer));
}

/// Relies on egui's TextEdit::multiline and Ui::add: draws a multi-line
/// text editor bound to `buffer`.
#[verifier::external_body]
pub(crate) fn egui_text_edit_multiline(ui: &mut bevy_egui::egui::Ui, buffer: &mut String) {
    ui.add(bevy_egui::egui::widgets::TextEdit::multiline(buffer));
}

/// Relies on egui's DragValue::new and Ui::add: draws a numeric editor
/// bound to `value`.
#[verifier::external_body]
pub(crate) fn egui_number_edit(ui: &mut bevy_egui::egui::Ui, value: &mut i32) {
    ui.add(bevy_egui::egui::widgets::DragValue::new(value));
}

/// Relies on egui's Ui::checkbox: draws an unlabelled toggle bound to
/// `flag`; a click this frame flips it in place.
#[verifier::external_body]
pub(crate) fn egui_checkbox(ui: &mut bevy_egui::egui::Ui, flag: &mut bool) {
    ui.checkbox(flag, "");
}

/// Relies on egui's Ui::label: draws non-interactive text.
#[verifier::external_body]
pub(crate) fn egui_label(ui: &mut bevy_egui::egui::Ui, text: &str) {
    ui.label(text);
}

/// Relies on egui's Ui::colored_label and Response::clicked: draws a
/// clickable glyph in the given color and reports whether the user clicked
/// it this frame.
#[verifier::external_body]
pub(crate) fn egui_colored_action(
    ui: &mut bevy_egui::egui::Ui,
    color: bevy_egui::egui::Color32,
    glyph: &str,
) -> bool {
    ui.colored_label(color, glyph).clicked()
}

/// Relies on egui's Ui::horizontal: lays the draw calls the closure makes
/// out left to right and hands the closure's result back. The closure only
/// calls verified functions of this crate.
#[verifier::external_body]
pub(crate) fn egui_horizontal<R, F: FnOnce(&mut bevy_egui::egui::Ui) -> R>(
    ui: &mut bevy_egui::egui::Ui,
    f: F,
) -> R {
    ui.horizontal(f).inner
}

} // verus!
