//! Sans-I/O core of a tool that switches a locally installed Notion desktop
//! client to its bundled Chinese locale.
//!
//! The crate decides, the caller performs: every filesystem access is
//! described by an [`machine::Action`] and answered with an
//! [`machine::Event`]. All decisions are verified against a mathematical
//! model stated over sequences of characters.

pub mod assets;
pub mod error;
pub mod laws;
pub mod layout;
pub mod machine;
pub mod model;
pub mod patch;
pub mod text;
pub mod version;
