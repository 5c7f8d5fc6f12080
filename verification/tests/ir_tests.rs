use crsm7::ast::dna::{Expr, Gene};
use crsm7::ir::{gene_ops, GeneOpType};

fn gene_with(name: &str, body: Vec<Expr>) -> Gene {
    let mut g = Gene::new(name);
    g.body = body;
    g
}

#[test]
fn test_gene_ops_emit_and_sovereign() {
    let genes = vec![gene_with(
        "main",
        vec![Expr::Emit("Hello".to_string()), Expr::Sovereign],
    )];
    let ops = gene_ops(&genes);
    assert_eq!(ops.len(), 2);
    assert_eq!(ops[0].name, "main");
    assert_eq!(ops[0].connection_index, 0);
    assert!(matches!(ops[0].op_type, GeneOpType::Emit(ref s) if s == "Hello"));
    assert!(matches!(ops[1].op_type, GeneOpType::Sovereign));
}

#[test]
fn test_gene_ops_bifurcate_yields_branch_pair() {
    let genes = vec![gene_with("split", vec![Expr::Bifurcate("psi".to_string())])];
    let ops = gene_ops(&genes);
    assert_eq!(ops.len(), 2);
    assert_eq!(ops[0].name, "split");
    assert!(matches!(ops[0].op_type, GeneOpType::Bifurcate));
    assert_eq!(ops[1].name, "split:bifurcate:psi");
    assert!(matches!(ops[1].op_type, GeneOpType::Bifurcate));
}

#[test]
fn test_gene_ops_call_keeps_ident_names() {
    let genes = vec![gene_with(
        "caller",
        vec![Expr::Call(
            "f".to_string(),
            vec![Expr::Ident("x".to_string()), Expr::Sovereign],
        )],
    )];
    let ops = gene_ops(&genes);
    assert_eq!(ops.len(), 1);
    match &ops[0].op_type {
        GeneOpType::Call(func, args) => {
            assert_eq!(func, "f");
            assert_eq!(args.len(), 2);
            assert_eq!(args[0], "x");
            assert_eq!(args[1], "");
        }
        _ => panic!("expected a call operation"),
    }
}

#[test]
fn test_gene_ops_bare_ident_yields_nothing() {
    let genes = vec![gene_with("idle", vec![Expr::Ident("x".to_string())])];
    let ops = gene_ops(&genes);
    assert!(ops.is_empty());
}

#[test]
fn test_gene_ops_indexes_genes_in_order() {
    let genes = vec![
        gene_with("first", vec![Expr::Sovereign]),
        gene_with("second", vec![Expr::Sovereign]),
    ];
    let ops = gene_ops(&genes);
    assert_eq!(ops.len(), 2);
    assert_eq!(ops[0].connection_index, 0);
    assert_eq!(ops[1].connection_index, 1);
    assert_eq!(ops[0].name, "first");
    assert_eq!(ops[1].name, "second");
}
