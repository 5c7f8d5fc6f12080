use crsm7::ast::crsm::{Hamiltonian, HamiltonianTerm, State};
use crsm7::ast::dna::{Evolve, Expr, Field, Gene};

#[test]
fn crsm_test_hamiltonian_terms() {
    let mut h = Hamiltonian::new("H_CRSM");
    h.terms.push(HamiltonianTerm::Product("DΛ".to_string(), "∇7D".to_string()));
    h.terms.push(HamiltonianTerm::Negative("KΓ".to_string()));
    h.terms.push(HamiltonianTerm::Simple("Π±".to_string(), "Jθ".to_string()));
    assert_eq!(h.terms.len(), 3);
}

#[test]
fn test_gene_with_expressions() {
    let mut gene = Gene::new("main");
    gene.body.push(Expr::Emit("Hello".to_string()));
    gene.body.push(Expr::Bifurcate("psi".to_string()));
    gene.body.push(Expr::Sovereign);
    assert_eq!(gene.body.len(), 3);
}

#[test]
fn test_state_builder() {
    let s = State::new(
        "C7D",
        vec![
            "Λ".to_string(),
            "Γ".to_string(),
            "Φ".to_string(),
            "Ξ".to_string(),
            "ρ".to_string(),
            "θ".to_string(),
            "τ".to_string(),
        ],
    );
    assert_eq!(s.name, "C7D");
    assert_eq!(s.variables.len(), 7);
}

#[test]
fn test_field_builder() {
    let f = Field::new("lambda", "coherence");
    assert_eq!(f.name, "lambda");
    assert_eq!(f.field_type, "coherence");
}

#[test]
fn test_evolve_starts_empty() {
    let e = Evolve::new();
    assert!(e.odes.is_empty());
}

#[test]
fn test_hamiltonian_starts_empty() {
    let h = Hamiltonian::new("H");
    assert_eq!(h.name, "H");
    assert!(h.terms.is_empty());
}
