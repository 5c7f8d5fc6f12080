//! Organism-layer AST nodes.
//!
//! Grammar reference:
//! - organism ::= "organism" IDENT "{" body "}"
//! - body ::= (field | gene | evolve | collapse)*

use vstd::prelude::*;

verus! {

/// Field declaration: field IDENT : IDENT.
#[derive(Debug, Clone)]
pub struct Field {
    pub name: String,
    pub field_type: String,
}

impl Field {
    /// Build a field declaration from its name and type tag.
    pub fn new(name: &str, field_type: &str) -> (f: Field)
        ensures
            f.name@ == name@,
            f.field_type@ == field_type@,
    {
        Field { name: name.to_owned(), field_type: field_type.to_owned() }
    }
}

/// Gene declaration with its body expressions.
#[derive(Debug)]
pub struct Gene {
    pub name: String,
    pub body: Vec<Expr>,
}

impl Gene {
    /// Build a gene with an empty body.
    pub fn new(name: &str) -> (g: Gene)
        ensures
            g.name@ == name@,
            g.body@ == Seq::<Expr>::empty(),
    {
        Gene { name: name.to_owned(), body: Vec::new() }
    }
}

/// Expression forms a gene body may hold.
#[derive(Debug)]
pub enum Expr {
    Emit(String),
    Bifurcate(String),
    Sovereign,
    Call(String, Vec<Expr>),
    Ident(String),
}

/// Evolution block: a list of ordinary differential equations.
#[derive(Debug, Clone)]
pub struct Evolve {
    pub odes: Vec<Ode>,
}

impl Evolve {
    /// Build an empty evolution block.
    pub fn new() -> (e: Evolve)
        ensures
            e.odes@ == Seq::<Ode>::empty(),
    {
        Evolve { odes: Vec::new() }
    }
}

/// Ordinary differential equation: d/dtau (vars) = rhs.
#[derive(Debug, Clone)]
pub struct Ode {
    pub state_vars: Vec<String>,
    pub rhs_func: String,
    pub rhs_args: Vec<String>,
}

} // verus!
