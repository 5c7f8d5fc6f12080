//! Manifold-layer AST nodes.
//!
//! Grammar reference:
//! - manifold ::= "manifold" IDENT "{" m_body "}"
//! - m_body ::= state hamiltonian constraint*

use vstd::prelude::*;

verus! {

/// State declaration: a named tuple of state variables.
#[derive(Debug, Clone)]
pub struct State {
    pub name: String,
    pub variables: Vec<String>,
}

impl State {
    /// Build a state declaration from a name and its variable list.
    pub fn new(name: &str, variables: Vec<String>) -> (s: State)
        ensures
            s.name@ == name@,
            s.variables == variables,
    {
        State { name: name.to_owned(), variables }
    }
}

/// Hamiltonian law declaration: a named list of terms.
#[derive(Debug, Clone)]
pub struct Hamiltonian {
    pub name: String,
    pub terms: Vec<HamiltonianTerm>,
}

impl Hamiltonian {
    /// Build an empty Hamiltonian declaration under the given name.
    pub fn new(name: &str) -> (h: Hamiltonian)
        ensures
            h.name@ == name@,
            h.terms@ == Seq::<HamiltonianTerm>::empty(),
    {
        Hamiltonian { name: name.to_owned(), terms: Vec::new() }
    }
}

/// Term forms a Hamiltonian declaration may hold.
#[derive(Debug, Clone)]
pub enum HamiltonianTerm {
    /// Positive product term: +IDENT IDENT
    Product(String, String),
    /// Negated term: -IDENT
    Negative(String),
    /// Plain juxtaposition: IDENT IDENT
    Simple(String, String),
}

} // verus!
