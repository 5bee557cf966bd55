//! The intermediate form of an authored entry procedure.
//!
//! The authoring front end parses an entry procedure into this form; the
//! instrumentation pass ([`crate::instrument`]) rewrites it into an
//! instrumented form whose execution emits the block markers and numbered
//! node calls of the runtime protocol.
//!
//! Only what the pass reads is represented: call expressions with the
//! module-local index of the name they target, resource-constructing
//! expressions, value bindings, loops, and an opaque atom for everything
//! else. Nested expressions are kept, since a resource created inside an
//! argument list still belongs to the enclosing block.

use vstd::prelude::*;

verus! {

/// How a call expression spells its callee.
#[derive(Clone, Copy, PartialEq, Eq, Structural, Debug)]
pub enum CallQualifier {
    /// A bare name.
    Unqualified,
    /// A name qualified to resolve within the current module.
    SelfModule,
    /// A name behind the external-reference marker segment.
    External,
}

/// One expression of an authored procedure body.
#[derive(PartialEq, Eq, Debug)]
pub enum RgExpr {
    /// A call expression. `name` is the module-local index of the callee's
    /// identifier; whether it targets a declared node is decided by the pass.
    Call { qualifier: CallQualifier, name: u32, args: Vec<RgExpr> },
    /// A resource-constructing expression.
    CreateResource { args: Vec<RgExpr> },
    /// An assignment to an existing binding, `target = value`; the target's
    /// textual form is kept as identifier bytes for diagnostic naming.
    Assign { target: Vec<u8>, value: Box<RgExpr> },
    /// A loop construct (for, while or indefinite); its body is a block.
    Loop { body: Vec<RgStmt> },
    /// Any other expression: opaque to the pass.
    Atom,
}

/// One statement of an authored procedure body.
#[derive(PartialEq, Eq, Debug)]
pub enum RgStmt {
    /// A local declaration, `let name = init`; the pattern's textual form is
    /// kept as identifier bytes for diagnostic naming.
    Local { name: Vec<u8>, init: Option<RgExpr> },
    /// An expression statement.
    Expr(RgExpr),
}

/// The number of syntactic nodes of an expression; a budget for the pass's
/// counters, which each grow by at most one per node.
pub open spec fn expr_weight(e: RgExpr) -> nat
    decreases e,
{
    match e {
        RgExpr::Call { args, .. } => 1 + exprs_weight(args@),
        RgExpr::CreateResource { args } => 1 + exprs_weight(args@),
        RgExpr::Assign { value, .. } => 1 + expr_weight(*value),
        RgExpr::Loop { body } => 1 + stmts_weight(body@),
        RgExpr::Atom => 1,
    }
}

/// The combined weight of a list of expressions.
pub open spec fn exprs_weight(es: Seq<RgExpr>) -> nat
    decreases es,
{
    if es.len() == 0 {
        0
    } else {
        exprs_weight(es.drop_last()) + expr_weight(es.last())
    }
}

/// The weight of a statement.
pub open spec fn stmt_weight(s: RgStmt) -> nat
    decreases s,
{
    match s {
        RgStmt::Local { init: Some(e), .. } => 1 + expr_weight(e),
        RgStmt::Local { init: None, .. } => 1,
        RgStmt::Expr(e) => 1 + expr_weight(e),
    }
}

/// The combined weight of a list of statements.
pub open spec fn stmts_weight(ss: Seq<RgStmt>) -> nat
    decreases ss,
{
    if ss.len() == 0 {
        0
    } else {
        stmts_weight(ss.drop_last()) + stmt_weight(ss.last())
    }
}

} // verus!
