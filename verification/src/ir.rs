//! Intermediate representation that the organism-layer AST is lowered to,
//! and the lowering of gene bodies into operation lists.
//!
//! The lowering walks every gene of an organism in order and maps each body
//! expression to zero, one or two operations.  Its full output is pinned by
//! [`ops_of_genes`].

use crate::ast::dna::{Expr, Gene};
use vstd::prelude::*;

verus! {

/// Gene operation: one step of the lowered execution model.
#[derive(Debug, Clone)]
pub struct GeneOp {
    pub name: String,
    /// Index of the originating gene in its organism.
    pub connection_index: usize,
    pub op_type: GeneOpType,
}

/// Kinds of gene operations.
#[derive(Debug, Clone)]
pub enum GeneOpType {
    /// Emit string output.
    Emit(String),
    /// Split into the two projector branches.
    Bifurcate,
    /// Mark as sovereign.
    Sovereign,
    /// Call another function with named arguments.
    Call(String, Vec<String>),
}

/// Collapse action in the intermediate representation.
#[derive(Debug, Clone, PartialEq, Eq, Structural)]
pub enum CollapseActionIR {
    /// Apply the projector pair.
    ApplyProjector,
    /// Seal sovereignty.
    SealSovereignty,
}

/// Mathematical image of a [`GeneOpType`].
pub enum OpKindModel {
    Emit(Seq<char>),
    Bifurcate,
    Sovereign,
    Call(Seq<char>, Seq<Seq<char>>),
}

/// Mathematical image of a [`GeneOp`].
pub struct GeneOpModel {
    pub name: Seq<char>,
    pub connection_index: int,
    pub op: OpKindModel,
}

impl View for GeneOpType {
    type V = OpKindModel;

    open spec fn view(&self) -> OpKindModel {
        match self {
            GeneOpType::Emit(s) => OpKindModel::Emit(s@),
            GeneOpType::Bifurcate => OpKindModel::Bifurcate,
            GeneOpType::Sovereign => OpKindModel::Sovereign,
            GeneOpType::Call(f, args) => OpKindModel::Call(
                f@,
                args@.map_values(|a: String| a@),
            ),
        }
    }
}

impl View for GeneOp {
    type V = GeneOpModel;

    open spec fn view(&self) -> GeneOpModel {
        GeneOpModel {
            name: self.name@,
            connection_index: self.connection_index as int,
            op: self.op_type@,
        }
    }
}

/// View of a whole operation list.
pub open spec fn ops_view(ops: Seq<GeneOp>) -> Seq<GeneOpModel> {
    ops.map_values(|o: GeneOp| o@)
}

/// Argument names of a call: identifiers keep their name, every other
/// expression form contributes an empty name.
pub open spec fn arg_names_model(args: Seq<Expr>) -> Seq<Seq<char>> {
    args.map_values(
        |a: Expr|
            match a {
                Expr::Ident(n) => n@,
                _ => Seq::<char>::empty(),
            },
    )
}

/// Operations contributed by a single body expression of the gene named
/// `name` at organism position `idx`.
pub open spec fn ops_of_expr(name: Seq<char>, idx: int, e: Expr) -> Seq<GeneOpModel> {
    match e {
        Expr::Bifurcate(target) => seq![
            GeneOpModel { name, connection_index: idx, op: OpKindModel::Bifurcate },
            GeneOpModel {
                name: name + ":bifurcate:"@ + target@,
                connection_index: idx,
                op: OpKindModel::Bifurcate,
            },
        ],
        Expr::Sovereign => seq![
            GeneOpModel { name, connection_index: idx, op: OpKindModel::Sovereign },
        ],
        Expr::Emit(s) => seq![
            GeneOpModel { name, connection_index: idx, op: OpKindModel::Emit(s@) },
        ],
        Expr::Call(func, args) => seq![
            GeneOpModel {
                name,
                connection_index: idx,
                op: OpKindModel::Call(func@, arg_names_model(args@)),
            },
        ],
        Expr::Ident(_) => Seq::empty(),
    }
}

/// Operations contributed by the body suffix starting at expression `j`.
pub open spec fn ops_of_exprs_from(
    name: Seq<char>,
    idx: int,
    body: Seq<Expr>,
    j: int,
) -> Seq<GeneOpModel>
    decreases body.len() - j,
{
    if j < 0 || j >= body.len() {
        Seq::empty()
    } else {
        ops_of_expr(name, idx, body[j]) + ops_of_exprs_from(name, idx, body, j + 1)
    }
}

/// Operations contributed by the gene suffix starting at gene `i`.
pub open spec fn ops_of_genes_from(genes: Seq<Gene>, i: int) -> Seq<GeneOpModel>
    decreases genes.len() - i,
{
    if i < 0 || i >= genes.len() {
        Seq::empty()
    } else {
        ops_of_exprs_from(genes[i].name@, i, genes[i].body@, 0) + ops_of_genes_from(
            genes,
            i + 1,
        )
    }
}

/// The full operation list induced by a gene list.
pub open spec fn ops_of_genes(genes: Seq<Gene>) -> Seq<GeneOpModel> {
    ops_of_genes_from(genes, 0)
}

/// Lower the genes of one organism to their operation list.
///
/// Walks every gene in order and, within it, every body expression in order:
/// a bifurcation yields a branch pair of operations, sovereignty and emission
/// yield one operation each, a call keeps the names of its identifier
/// arguments, and a bare identifier yields nothing.
pub fn gene_ops(genes: &Vec<Gene>) -> (ops: Vec<GeneOp>)
    ensures
        ops_view(ops@) == ops_of_genes(genes@),
{
    let mut ops: Vec<GeneOp> = Vec::new();
    let ghost total = ops_of_genes(genes@);
    proof {
        assert(ops_view(ops@) =~= Seq::<GeneOpModel>::empty());
    }
    let mut i: usize = 0;
    while i < genes.len()
        invariant
            0 <= i <= genes@.len(),
            total == ops_of_genes(genes@),
            total =~~= ops_view(ops@) + ops_of_genes_from(genes@, i as int),
        decreases genes@.len() - i,
    {
        let gene = &genes[i];
        let mut j: usize = 0;
        while j < gene.body.len()
            invariant
                0 <= j <= gene.body@.len(),
                0 <= i < genes@.len(),
                gene == genes@[i as int],
                total == ops_of_genes(genes@),
                total =~~= ops_view(ops@) + ops_of_exprs_from(
                    gene.name@,
                    i as int,
                    gene.body@,
                    j as int,
                ) + ops_of_genes_from(genes@, i as int + 1),
            decreases gene.body@.len() - j,
        {
            let ghost ops_before = ops@;
            match &gene.body[j] {
                Expr::Bifurcate(target) => {
                    ops.push(
                        GeneOp {
                            name: gene.name.clone(),
                            connection_index: i,
                            op_type: GeneOpType::Bifurcate,
                        },
                    );
                    let branch_name = gene.name.clone().concat(":bifurcate:").concat(
                        target.as_str(),
                    );
                    ops.push(
                        GeneOp {
                            name: branch_name,
                            connection_index: i,
                            op_type: GeneOpType::Bifurcate,
                        },
                    );
                    proof {
                        assert(ops_view(ops@) =~~= ops_view(ops_before) + ops_of_expr(
                            gene.name@,
                            i as int,
                            gene.body@[j as int],
                        ));
                    }
                },
                Expr::Sovereign => {
                    ops.push(
                        GeneOp {
                            name: gene.name.clone(),
                            connection_index: i,
                            op_type: GeneOpType::Sovereign,
                        },
                    );
                    proof {
                        assert(ops_view(ops@) =~~= ops_view(ops_before) + ops_of_expr(
                            gene.name@,
                            i as int,
                            gene.body@[j as int],
                        ));
                    }
                },
                Expr::Emit(s) => {
                    ops.push(
                        GeneOp {
                            name: gene.name.clone(),
                            connection_index: i,
                            op_type: GeneOpType::Emit(s.clone()),
                        },
                    );
                    proof {
                        assert(ops_view(ops@) =~~= ops_view(ops_before) + ops_of_expr(
                            gene.name@,
                            i as int,
                            gene.body@[j as int],
                        ));
                    }
                },
                Expr::Call(func, args) => {
                    let arg_names = ident_names(args);
                    ops.push(
                        GeneOp {
                            name: gene.name.clone(),
                            connection_index: i,
                            op_type: GeneOpType::Call(func.clone(), arg_names),
                        },
                    );
                    proof {
                        assert(ops_view(ops@) =~~= ops_view(ops_before) + ops_of_expr(
                            gene.name@,
                            i as int,
                            gene.body@[j as int],
                        ));
                    }
                },
                Expr::Ident(_) => {
                    proof {
                        assert(ops_view(ops@) =~~= ops_view(ops_before) + ops_of_expr(
                            gene.name@,
                            i as int,
                            gene.body@[j as int],
                        ));
                    }
                },
            }
            j = j + 1;
        }
        i = i + 1;
    }
    ops
}

/// Collect the argument names of a call expression: identifiers keep their
/// name, anything else becomes an empty name.
fn ident_names(args: &Vec<Expr>) -> (names: Vec<String>)
    ensures
        names@.map_values(|s: String| s@) == arg_names_model(args@),
{
    let mut names: Vec<String> = Vec::new();
    let mut k: usize = 0;
    while k < args.len()
        invariant
            0 <= k <= args@.len(),
            names@.map_values(|s: String| s@) =~~= arg_names_model(args@.take(k as int)),
        decreases args@.len() - k,
    {
        let ghost names_before = names@;
        match &args[k] {
            Expr::Ident(n) => {
                names.push(n.clone());
            },
            _ => {
                names.push(String::new());
            },
        }
        proof {
            let lhs = names@.map_values(|s: String| s@);
            let rhs = arg_names_model(args@.take(k as int + 1));
            assert(names@.len() == names_before.len() + 1);
            assert(names_before.map_values(|s: String| s@).len() == names_before.len());
            assert(names_before.len() == k);
            assert(lhs.len() == k + 1);
            assert(rhs.len() == k + 1);
            assert forall|l: int| 0 <= l < k + 1 implies lhs[l] == rhs[l] by {
                assert(args@.take(k as int + 1)[l] == args@[l]);
                if l < k {
                    assert(names_before.map_values(|s: String| s@)[l] == arg_names_model(
                        args@.take(k as int),
                    )[l]);
                    assert(args@.take(k as int)[l] == args@[l]);
                }
            }
            assert(lhs =~= rhs);
        }
        k = k + 1;
    }
    proof {
        assert(args@.take(args@.len() as int) =~= args@);
    }
    names
}

} // verus!
