//! BEM-style class names, composed as values and rendered as text.
//!
//! A class name starts from a base ([`classname`]). `el` names a child
//! element (`block__child`), `attr` adds a modifier (`block block--mod`), and
//! `+` joins two names with a space. Every composed value has a canonical
//! text, its view, and rendering produces exactly that text.

mod class;
pub mod classes;
mod render;

pub use crate::class::classname;
pub use crate::class::lemma_to_string_is_repeatable;
pub use crate::class::Class;
pub use crate::render::Render;
