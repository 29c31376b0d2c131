//! A type-driven protocol for rendering an editable view of an in-memory
//! value on an immediate-mode drawing surface, and for composing such views
//! recursively for structured values.
//!
//! Every renderable type implements [`Inspectable`]: handed exclusive access
//! to a value, per-type attributes and an identity [`Context`], it draws the
//! value's editable representation and applies the resulting edits in place.
//! Leaf implementations (strings, booleans, numbers) draw one primitive
//! widget; composite implementations (ranges, optional values) recurse into
//! the protocol for their parts, each part under a child context derived
//! with a distinct discriminator, so sibling widget identities never collide
//! and stay stable across frames.
//!
//! Rendering against the simulated [`Surface`] is verified exactly: the
//! contracts on [`Inspectable::ui`] pin which draw calls a render issues,
//! which scripted events it consumes, and how the value changes. The same
//! protocol draws on a real `egui` surface through the narrow trusted
//! bindings in [`egui_bind`].

pub mod context;
pub mod egui_bind;
pub mod impls;
pub mod inspectable;
pub mod laws;
pub mod surface;

pub use context::Context;
pub use impls::primitives::{OptionAttributes, StringAttributes};
pub use inspectable::Inspectable;
pub use surface::{ActionColor, DrawOp, Event, Surface};
