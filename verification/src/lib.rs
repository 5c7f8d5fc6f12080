//! Verified core of a discrete state-evolution and binding engine.
//!
//! The numeric evolution itself (coherence, decoherence, emergence and the
//! collapse arithmetic) runs on double-precision scalars and therefore lives
//! in the unverified driver around this crate.  What stands here is every part
//! of the system whose behaviour is discrete: the eight-layer genome and its
//! agent mapping, the two embedded-language ASTs and the intermediate
//! representation they are lowered to, the tag-to-coordinate axis enumeration,
//! the dense square-by-seven weight store with its reallocation rule, and the
//! content-addressed shard store.

pub mod ast;
pub mod axis;
pub mod bio_drive;
pub mod boot;
pub mod duality;
pub mod genome;
pub mod grid;
pub mod ir;
