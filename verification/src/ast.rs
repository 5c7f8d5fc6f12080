//! AST nodes of the two embedded languages.
//!
//! Both languages are pure data-construction APIs: there is no tokenizer or
//! parser, callers assemble the trees directly.  Only the float-free nodes
//! stand here; the constraint and collapse leaves that carry scalar limits
//! belong to the unverified driver.

pub mod crsm;
pub mod dna;
