//! Bindings generator for a Vulkan-style API registry.
//!
//! The registry is held as plain data ([`registry`]); every generator turns one
//! registry node into a declaration ([`decl`]) and states in its contract which
//! declaration that is.  A whole pass over a registry is in [`source`], and
//! [`render`] writes declarations as source text.
//!
//! Three parts of the generated bindings have behaviour of their own, and are
//! modelled here as executable, verified code: the bit-flag algebra
//! ([`flags`]), the loading of a function table ([`table`]) and the handles
//! ([`handles`]).

pub mod assemble;
pub mod case;
pub mod cexpr;
pub mod command;
pub mod constant;
pub mod decl;
pub mod definitions;
pub mod enums;
pub mod error;
pub mod flags;
pub mod handles;
pub mod registry;
pub mod render;
pub mod seqs;
pub mod source;
pub mod table;
pub mod text;
pub mod types;
