//! The block instrumentation pass.
//!
//! A single walk over an entry procedure's body assigns each loop block a
//! fresh id, numbers node calls and resource creations per enclosing block,
//! resolves node-call qualification, and injects the diagnostic naming step
//! on bindings whose initializer creates a resource. The walk carries one
//! [`BlockContext`] per open lexical block; recursion into a loop body plays
//! the role of the pass's block stack.
//!
//! The pass is a pure function of the procedure body and the declared node
//! set: the whole transformation is mirrored by spec functions
//! ([`spec_instrument_stmts`] and friends), and every executable piece is
//! proved equal to its mirror.

use vstd::prelude::*;

use crate::ir::CallQualifier;
use crate::ir::RgExpr;
use crate::ir::RgStmt;
use crate::ir::expr_weight;
use crate::ir::exprs_weight;
use crate::ir::stmt_weight;
use crate::ir::stmts_weight;
use crate::rpsl_runtime::NO_PARENT;

verus! {

/// The id of the block standing for the whole procedure body.
pub const ROOT_BLOCK_ID: u32 = 0;

/// The per-block state of the pass: the block's id, its position in the
/// parent, and the running counts of what the pass has found directly inside
/// it. Finalized when the pass leaves the block's scope.
#[derive(Clone, Copy, PartialEq, Eq, Structural, Debug)]
pub struct BlockContext {
    /// The block's unique id.
    pub id: u32,
    /// Resource creations directly inside this block.
    pub resource_count: u32,
    /// Node calls directly inside this block.
    pub node_count: u32,
    /// Loop blocks directly inside this block.
    pub child_block_count: u32,
    /// This block's index among its parent's child blocks.
    pub local_loop_index: u32,
    /// The id of the enclosing block, or the no-parent sentinel.
    pub parent_id: u32,
}

/// The threaded state of the pass: the next free block id, the context of
/// the innermost open block, and the creation counter of the innermost open
/// value binding.
#[derive(Clone, Copy, PartialEq, Eq, Structural, Debug)]
pub struct PassState {
    /// The next globally unique block id to hand out.
    pub next_block_id: u32,
    /// The innermost open block.
    pub ctx: BlockContext,
    /// Net resource creations seen by the innermost open binding.
    pub binding_creations: u32,
}

/// Every counter of the pass has room to grow by `w` without wrapping.
pub open spec fn has_budget(st: PassState, w: nat) -> bool {
    &&& st.next_block_id + w <= u32::MAX
    &&& st.ctx.node_count + w <= u32::MAX
    &&& st.ctx.resource_count + w <= u32::MAX
    &&& st.ctx.child_block_count + w <= u32::MAX
    &&& st.binding_creations + w <= u32::MAX
}

/// One instrumented expression.
#[derive(PartialEq, Eq, Debug)]
pub enum InstExpr {
    /// A call that targets a declared node, rewritten: `external` records
    /// whether the external-reference marker was stripped (otherwise the
    /// call was qualified to the current module), and `local_index` is the
    /// block-local call index the pass prepends as an implicit argument.
    NodeCall { external: bool, name: u32, local_index: u32, args: Vec<InstExpr> },
    /// A call that does not target a node, kept as written.
    Call { qualifier: CallQualifier, name: u32, args: Vec<InstExpr> },
    /// A resource creation, tagged with its block-local resource index.
    CreateResource { local_index: u32, args: Vec<InstExpr> },
    /// The injected naming step: tags the value produced by `value` with the
    /// textual name of the binding it initializes.
    Named { name: Vec<u8>, value: Box<InstExpr> },
    /// An assignment, with its rewritten right-hand side.
    Assign { target: Vec<u8>, value: Box<InstExpr> },
    /// A rewritten loop: the finalized context of its block, and its body.
    /// Every dynamic iteration of the body opens with a loop-iteration
    /// marker; the block's begin and end markers wrap the whole loop.
    LoopBlock { ctx: BlockContext, body: Vec<InstStmt> },
    /// Any other expression, untouched.
    Atom,
}

/// One instrumented statement.
#[derive(PartialEq, Eq, Debug)]
pub enum InstStmt {
    /// A local declaration with its rewritten initializer.
    Local { name: Vec<u8>, init: Option<InstExpr> },
    /// An expression statement.
    Expr(InstExpr),
}

/// The mathematical form of an instrumented expression.
pub enum SpecInstExpr {
    /// See [`InstExpr::NodeCall`].
    NodeCall { external: bool, name: u32, local_index: u32, args: Seq<SpecInstExpr> },
    /// See [`InstExpr::Call`].
    Call { qualifier: CallQualifier, name: u32, args: Seq<SpecInstExpr> },
    /// See [`InstExpr::CreateResource`].
    CreateResource { local_index: u32, args: Seq<SpecInstExpr> },
    /// See [`InstExpr::Named`].
    Named { name: Seq<u8>, value: Box<SpecInstExpr> },
    /// See [`InstExpr::Assign`].
    Assign { target: Seq<u8>, value: Box<SpecInstExpr> },
    /// See [`InstExpr::LoopBlock`].
    LoopBlock { ctx: BlockContext, body: Seq<SpecInstStmt> },
    /// See [`InstExpr::Atom`].
    Atom,
}

/// The mathematical form of an instrumented statement.
pub enum SpecInstStmt {
    /// See [`InstStmt::Local`].
    Local { name: Seq<u8>, init: Option<SpecInstExpr> },
    /// See [`InstStmt::Expr`].
    Expr(SpecInstExpr),
}

/// The mathematical form of an instrumented expression.
pub open spec fn view_inst_expr(e: InstExpr) -> SpecInstExpr
    decreases e,
{
    match e {
        InstExpr::NodeCall { external, name, local_index, args } => SpecInstExpr::NodeCall {
            external,
            name,
            local_index,
            args: view_inst_exprs(args@),
        },
        InstExpr::Call { qualifier, name, args } => SpecInstExpr::Call {
            qualifier,
            name,
            args: view_inst_exprs(args@),
        },
        InstExpr::CreateResource { local_index, args } => SpecInstExpr::CreateResource {
            local_index,
            args: view_inst_exprs(args@),
        },
        InstExpr::Named { name, value } => SpecInstExpr::Named {
            name: name@,
            value: Box::new(view_inst_expr(*value)),
        },
        InstExpr::Assign { target, value } => SpecInstExpr::Assign {
            target: target@,
            value: Box::new(view_inst_expr(*value)),
        },
        InstExpr::LoopBlock { ctx, body } => SpecInstExpr::LoopBlock {
            ctx,
            body: view_inst_stmts(body@),
        },
        InstExpr::Atom => SpecInstExpr::Atom,
    }
}

/// The mathematical form of a list of instrumented expressions.
pub open spec fn view_inst_exprs(es: Seq<InstExpr>) -> Seq<SpecInstExpr>
    decreases es,
{
    if es.len() == 0 {
        Seq::empty()
    } else {
        view_inst_exprs(es.drop_last()).push(view_inst_expr(es.last()))
    }
}

/// The mathematical form of an instrumented statement.
pub open spec fn view_inst_stmt(s: InstStmt) -> SpecInstStmt
    decreases s,
{
    match s {
        InstStmt::Local { name, init: Some(e) } => SpecInstStmt::Local {
            name: name@,
            init: Some(view_inst_expr(e)),
        },
        InstStmt::Local { name, init: None } => SpecInstStmt::Local { name: name@, init: None },
        InstStmt::Expr(e) => SpecInstStmt::Expr(view_inst_expr(e)),
    }
}

/// The mathematical form of a list of instrumented statements.
pub open spec fn view_inst_stmts(ss: Seq<InstStmt>) -> Seq<SpecInstStmt>
    decreases ss,
{
    if ss.len() == 0 {
        Seq::empty()
    } else {
        view_inst_stmts(ss.drop_last()).push(view_inst_stmt(ss.last()))
    }
}

impl View for InstExpr {
    type V = SpecInstExpr;

    open spec fn view(&self) -> SpecInstExpr {
        view_inst_expr(*self)
    }
}

impl View for InstStmt {
    type V = SpecInstStmt;

    open spec fn view(&self) -> SpecInstStmt {
        view_inst_stmt(*self)
    }
}

/// Whether a call with this qualifier and name targets a declared node:
/// either it carries the external-reference marker, or its name is among
/// the module's declared nodes.
pub open spec fn spec_is_node_call(qualifier: CallQualifier, name: u32, declared: Seq<u32>) -> bool {
    qualifier is External || declared.contains(name)
}

/// What the pass makes of one expression under state `st`.
pub open spec fn spec_instrument_expr(e: RgExpr, declared: Seq<u32>, st: PassState) -> (
    SpecInstExpr,
    PassState,
)
    decreases e,
{
    match e {
        RgExpr::Call { qualifier, name, args } => {
            if spec_is_node_call(qualifier, name, declared) {
                let st1 = PassState {
                    ctx: BlockContext { node_count: (st.ctx.node_count + 1) as u32, ..st.ctx },
                    ..st
                };
                let r = spec_instrument_exprs(args@, declared, st1);
                (
                    SpecInstExpr::NodeCall {
                        external: qualifier is External,
                        name,
                        local_index: st.ctx.node_count,
                        args: r.0,
                    },
                    r.1,
                )
            } else {
                let r = spec_instrument_exprs(args@, declared, st);
                (SpecInstExpr::Call { qualifier, name, args: r.0 }, r.1)
            }
        },
        RgExpr::CreateResource { args } => {
            let st1 = PassState {
                ctx: BlockContext {
                    resource_count: (st.ctx.resource_count + 1) as u32,
                    ..st.ctx
                },
                binding_creations: (st.binding_creations + 1) as u32,
                ..st
            };
            let r = spec_instrument_exprs(args@, declared, st1);
            (SpecInstExpr::CreateResource { local_index: st.ctx.resource_count, args: r.0 }, r.1)
        },
        RgExpr::Assign { target, value } => {
            let r = spec_instrument_expr(*value, declared, PassState { binding_creations: 0, ..st });
            let rhs = if r.1.binding_creations == 1 {
                SpecInstExpr::Named { name: target@, value: Box::new(r.0) }
            } else {
                r.0
            };
            (
                SpecInstExpr::Assign { target: target@, value: Box::new(rhs) },
                PassState { binding_creations: st.binding_creations, ..r.1 },
            )
        },
        RgExpr::Loop { body } => {
            let child = PassState {
                next_block_id: (st.next_block_id + 1) as u32,
                ctx: BlockContext {
                    id: st.next_block_id,
                    resource_count: 0,
                    node_count: 0,
                    child_block_count: 0,
                    local_loop_index: st.ctx.child_block_count,
                    parent_id: st.ctx.id,
                },
                binding_creations: st.binding_creations,
            };
            let r = spec_instrument_stmts(body@, declared, child);
            (
                SpecInstExpr::LoopBlock { ctx: r.1.ctx, body: r.0 },
                PassState {
                    next_block_id: r.1.next_block_id,
                    ctx: BlockContext {
                        child_block_count: (st.ctx.child_block_count + 1) as u32,
                        ..st.ctx
                    },
                    binding_creations: r.1.binding_creations,
                },
            )
        },
        RgExpr::Atom => (SpecInstExpr::Atom, st),
    }
}

/// What the pass makes of a list of expressions, left to right.
pub open spec fn spec_instrument_exprs(es: Seq<RgExpr>, declared: Seq<u32>, st: PassState) -> (
    Seq<SpecInstExpr>,
    PassState,
)
    decreases es,
{
    if es.len() == 0 {
        (Seq::empty(), st)
    } else {
        let r = spec_instrument_exprs(es.drop_last(), declared, st);
        let r2 = spec_instrument_expr(es.last(), declared, r.1);
        (r.0.push(r2.0), r2.1)
    }
}

/// What the pass makes of one statement.
pub open spec fn spec_instrument_stmt(s: RgStmt, declared: Seq<u32>, st: PassState) -> (
    SpecInstStmt,
    PassState,
)
    decreases s,
{
    match s {
        RgStmt::Local { name, init: Some(e) } => {
            let r = spec_instrument_expr(e, declared, PassState { binding_creations: 0, ..st });
            let init = if r.1.binding_creations == 1 {
                SpecInstExpr::Named { name: name@, value: Box::new(r.0) }
            } else {
                r.0
            };
            (
                SpecInstStmt::Local { name: name@, init: Some(init) },
                PassState { binding_creations: st.binding_creations, ..r.1 },
            )
        },
        RgStmt::Local { name, init: None } => (
            SpecInstStmt::Local { name: name@, init: None },
            st,
        ),
        RgStmt::Expr(e) => {
            let r = spec_instrument_expr(e, declared, st);
            (SpecInstStmt::Expr(r.0), r.1)
        },
    }
}

/// What the pass makes of a list of statements, left to right.
pub open spec fn spec_instrument_stmts(ss: Seq<RgStmt>, declared: Seq<u32>, st: PassState) -> (
    Seq<SpecInstStmt>,
    PassState,
)
    decreases ss,
{
    if ss.len() == 0 {
        (Seq::empty(), st)
    } else {
        let r = spec_instrument_stmts(ss.drop_last(), declared, st);
        let r2 = spec_instrument_stmt(ss.last(), declared, r.1);
        (r.0.push(r2.0), r2.1)
    }
}

/// Node calls lexically inside an expression but outside any nested loop:
/// what the enclosing block's `node_count` counts.
pub open spec fn direct_calls_expr(e: RgExpr, declared: Seq<u32>) -> nat
    decreases e,
{
    match e {
        RgExpr::Call { qualifier, name, args } => (if spec_is_node_call(qualifier, name, declared) {
            1nat
        } else {
            0nat
        }) + direct_calls_exprs(args@, declared),
        RgExpr::CreateResource { args } => direct_calls_exprs(args@, declared),
        RgExpr::Assign { value, .. } => direct_calls_expr(*value, declared),
        RgExpr::Loop { .. } => 0,
        RgExpr::Atom => 0,
    }
}

/// See [`direct_calls_expr`].
pub open spec fn direct_calls_exprs(es: Seq<RgExpr>, declared: Seq<u32>) -> nat
    decreases es,
{
    if es.len() == 0 {
        0
    } else {
        direct_calls_exprs(es.drop_last(), declared) + direct_calls_expr(es.last(), declared)
    }
}

/// See [`direct_calls_expr`].
pub open spec fn direct_calls_stmt(s: RgStmt, declared: Seq<u32>) -> nat
    decreases s,
{
    match s {
        RgStmt::Local { init: Some(e), .. } => direct_calls_expr(e, declared),
        RgStmt::Local { init: None, .. } => 0,
        RgStmt::Expr(e) => direct_calls_expr(e, declared),
    }
}

/// See [`direct_calls_expr`].
pub open spec fn direct_calls_stmts(ss: Seq<RgStmt>, declared: Seq<u32>) -> nat
    decreases ss,
{
    if ss.len() == 0 {
        0
    } else {
        direct_calls_stmts(ss.drop_last(), declared) + direct_calls_stmt(ss.last(), declared)
    }
}

/// Resource creations lexically inside an expression but outside any nested
/// loop: what the enclosing block's `resource_count` counts.
pub open spec fn direct_creations_expr(e: RgExpr) -> nat
    decreases e,
{
    match e {
        RgExpr::Call { args, .. } => direct_creations_exprs(args@),
        RgExpr::CreateResource { args } => 1 + direct_creations_exprs(args@),
        RgExpr::Assign { value, .. } => direct_creations_expr(*value),
        RgExpr::Loop { .. } => 0,
        RgExpr::Atom => 0,
    }
}

/// See [`direct_creations_expr`].
pub open spec fn direct_creations_exprs(es: Seq<RgExpr>) -> nat
    decreases es,
{
    if es.len() == 0 {
        0
    } else {
        direct_creations_exprs(es.drop_last()) + direct_creations_expr(es.last())
    }
}

/// See [`direct_creations_expr`].
pub open spec fn direct_creations_stmt(s: RgStmt) -> nat
    decreases s,
{
    match s {
        RgStmt::Local { init: Some(e), .. } => direct_creations_expr(e),
        RgStmt::Local { init: None, .. } => 0,
        RgStmt::Expr(e) => direct_creations_expr(e),
    }
}

/// See [`direct_creations_expr`].
pub open spec fn direct_creations_stmts(ss: Seq<RgStmt>) -> nat
    decreases ss,
{
    if ss.len() == 0 {
        0
    } else {
        direct_creations_stmts(ss.drop_last()) + direct_creations_stmt(ss.last())
    }
}

/// Loops lexically inside an expression but outside any nested loop: what
/// the enclosing block's `child_block_count` counts.
pub open spec fn direct_loops_expr(e: RgExpr) -> nat
    decreases e,
{
    match e {
        RgExpr::Call { args, .. } => direct_loops_exprs(args@),
        RgExpr::CreateResource { args } => direct_loops_exprs(args@),
        RgExpr::Assign { value, .. } => direct_loops_expr(*value),
        RgExpr::Loop { .. } => 1,
        RgExpr::Atom => 0,
    }
}

/// See [`direct_loops_expr`].
pub open spec fn direct_loops_exprs(es: Seq<RgExpr>) -> nat
    decreases es,
{
    if es.len() == 0 {
        0
    } else {
        direct_loops_exprs(es.drop_last()) + direct_loops_expr(es.last())
    }
}

/// See [`direct_loops_expr`].
pub open spec fn direct_loops_stmt(s: RgStmt) -> nat
    decreases s,
{
    match s {
        RgStmt::Local { init: Some(e), .. } => direct_loops_expr(e),
        RgStmt::Local { init: None, .. } => 0,
        RgStmt::Expr(e) => direct_loops_expr(e),
    }
}

/// See [`direct_loops_expr`].
pub open spec fn direct_loops_stmts(ss: Seq<RgStmt>) -> nat
    decreases ss,
{
    if ss.len() == 0 {
        0
    } else {
        direct_loops_stmts(ss.drop_last()) + direct_loops_stmt(ss.last())
    }
}

/// Loops at any depth: how many fresh block ids an expression consumes.
pub open spec fn total_loops_expr(e: RgExpr) -> nat
    decreases e,
{
    match e {
        RgExpr::Call { args, .. } => total_loops_exprs(args@),
        RgExpr::CreateResource { args } => total_loops_exprs(args@),
        RgExpr::Assign { value, .. } => total_loops_expr(*value),
        RgExpr::Loop { body } => 1 + total_loops_stmts(body@),
        RgExpr::Atom => 0,
    }
}

/// See [`total_loops_expr`].
pub open spec fn total_loops_exprs(es: Seq<RgExpr>) -> nat
    decreases es,
{
    if es.len() == 0 {
        0
    } else {
        total_loops_exprs(es.drop_last()) + total_loops_expr(es.last())
    }
}

/// See [`total_loops_expr`].
pub open spec fn total_loops_stmt(s: RgStmt) -> nat
    decreases s,
{
    match s {
        RgStmt::Local { init: Some(e), .. } => total_loops_expr(e),
        RgStmt::Local { init: None, .. } => 0,
        RgStmt::Expr(e) => total_loops_expr(e),
    }
}

/// See [`total_loops_expr`].
pub open spec fn total_loops_stmts(ss: Seq<RgStmt>) -> nat
    decreases ss,
{
    if ss.len() == 0 {
        0
    } else {
        total_loops_stmts(ss.drop_last()) + total_loops_stmt(ss.last())
    }
}

/// Resource creations an expression contributes to the innermost open value
/// binding: creations at any loop depth, but not those inside a nested
/// binding of their own.
pub open spec fn binding_creations_expr(e: RgExpr) -> nat
    decreases e,
{
    match e {
        RgExpr::Call { args, .. } => binding_creations_exprs(args@),
        RgExpr::CreateResource { args } => 1 + binding_creations_exprs(args@),
        RgExpr::Assign { .. } => 0,
        RgExpr::Loop { body } => binding_creations_stmts(body@),
        RgExpr::Atom => 0,
    }
}

/// See [`binding_creations_expr`].
pub open spec fn binding_creations_exprs(es: Seq<RgExpr>) -> nat
    decreases es,
{
    if es.len() == 0 {
        0
    } else {
        binding_creations_exprs(es.drop_last()) + binding_creations_expr(es.last())
    }
}

/// See [`binding_creations_expr`].
pub open spec fn binding_creations_stmt(s: RgStmt) -> nat
    decreases s,
{
    match s {
        RgStmt::Local { .. } => 0,
        RgStmt::Expr(e) => binding_creations_expr(e),
    }
}

/// See [`binding_creations_expr`].
pub open spec fn binding_creations_stmts(ss: Seq<RgStmt>) -> nat
    decreases ss,
{
    if ss.len() == 0 {
        0
    } else {
        binding_creations_stmts(ss.drop_last()) + binding_creations_stmt(ss.last())
    }
}

/// How the pass moves the state across one expression: the open block's
/// counters grow by exactly the direct node calls, direct creations and
/// direct loops of the expression; the id counter advances by the loops at
/// any depth; the block's identity is untouched. Each growth is bounded by
/// the expression's weight, so a budget is preserved.
pub proof fn lemma_instrument_expr_state(e: RgExpr, declared: Seq<u32>, st: PassState)
    requires
        has_budget(st, expr_weight(e)),
    ensures
        ({
            let r = spec_instrument_expr(e, declared, st);
            &&& r.1.ctx.id == st.ctx.id
            &&& r.1.ctx.parent_id == st.ctx.parent_id
            &&& r.1.ctx.local_loop_index == st.ctx.local_loop_index
            &&& r.1.ctx.node_count == st.ctx.node_count + direct_calls_expr(e, declared)
            &&& r.1.ctx.resource_count == st.ctx.resource_count + direct_creations_expr(e)
            &&& r.1.ctx.child_block_count == st.ctx.child_block_count + direct_loops_expr(e)
            &&& r.1.next_block_id == st.next_block_id + total_loops_expr(e)
            &&& r.1.binding_creations == st.binding_creations + binding_creations_expr(e)
        }),
        direct_calls_expr(e, declared) <= expr_weight(e),
        direct_creations_expr(e) <= expr_weight(e),
        direct_loops_expr(e) <= expr_weight(e),
        total_loops_expr(e) <= expr_weight(e),
        binding_creations_expr(e) <= expr_weight(e),
    decreases e,
{
    match e {
        RgExpr::Call { qualifier, name, args } => {
            if spec_is_node_call(qualifier, name, declared) {
                let st1 = PassState {
                    ctx: BlockContext { node_count: (st.ctx.node_count + 1) as u32, ..st.ctx },
                    ..st
                };
                lemma_instrument_exprs_state(args@, declared, st1);
            } else {
                lemma_instrument_exprs_state(args@, declared, st);
            }
        },
        RgExpr::CreateResource { args } => {
            let st1 = PassState {
                ctx: BlockContext {
                    resource_count: (st.ctx.resource_count + 1) as u32,
                    ..st.ctx
                },
                binding_creations: (st.binding_creations + 1) as u32,
                ..st
            };
            lemma_instrument_exprs_state(args@, declared, st1);
        },
        RgExpr::Assign { target, value } => {
            lemma_instrument_expr_state(
                *value,
                declared,
                PassState { binding_creations: 0, ..st },
            );
        },
        RgExpr::Loop { body } => {
            let child = PassState {
                next_block_id: (st.next_block_id + 1) as u32,
                ctx: BlockContext {
                    id: st.next_block_id,
                    resource_count: 0,
                    node_count: 0,
                    child_block_count: 0,
                    local_loop_index: st.ctx.child_block_count,
                    parent_id: st.ctx.id,
                },
                binding_creations: st.binding_creations,
            };
            lemma_instrument_stmts_state(body@, declared, child);
        },
        RgExpr::Atom => {},
    }
}

/// See [`lemma_instrument_expr_state`].
pub proof fn lemma_instrument_exprs_state(es: Seq<RgExpr>, declared: Seq<u32>, st: PassState)
    requires
        has_budget(st, exprs_weight(es)),
    ensures
        ({
            let r = spec_instrument_exprs(es, declared, st);
            &&& r.0.len() == es.len()
            &&& r.1.ctx.id == st.ctx.id
            &&& r.1.ctx.parent_id == st.ctx.parent_id
            &&& r.1.ctx.local_loop_index == st.ctx.local_loop_index
            &&& r.1.ctx.node_count == st.ctx.node_count + direct_calls_exprs(es, declared)
            &&& r.1.ctx.resource_count == st.ctx.resource_count + direct_creations_exprs(es)
            &&& r.1.ctx.child_block_count == st.ctx.child_block_count + direct_loops_exprs(es)
            &&& r.1.next_block_id == st.next_block_id + total_loops_exprs(es)
            &&& r.1.binding_creations == st.binding_creations + binding_creations_exprs(es)
        }),
        direct_calls_exprs(es, declared) <= exprs_weight(es),
        direct_creations_exprs(es) <= exprs_weight(es),
        direct_loops_exprs(es) <= exprs_weight(es),
        total_loops_exprs(es) <= exprs_weight(es),
        binding_creations_exprs(es) <= exprs_weight(es),
    decreases es,
{
    if es.len() > 0 {
        lemma_instrument_exprs_state(es.drop_last(), declared, st);
        let r = spec_instrument_exprs(es.drop_last(), declared, st);
        lemma_instrument_expr_state(es.last(), declared, r.1);
    }
}

/// See [`lemma_instrument_expr_state`].
pub proof fn lemma_instrument_stmt_state(s: RgStmt, declared: Seq<u32>, st: PassState)
    requires
        has_budget(st, stmt_weight(s)),
    ensures
        ({
            let r = spec_instrument_stmt(s, declared, st);
            &&& r.1.ctx.id == st.ctx.id
            &&& r.1.ctx.parent_id == st.ctx.parent_id
            &&& r.1.ctx.local_loop_index == st.ctx.local_loop_index
            &&& r.1.ctx.node_count == st.ctx.node_count + direct_calls_stmt(s, declared)
            &&& r.1.ctx.resource_count == st.ctx.resource_count + direct_creations_stmt(s)
            &&& r.1.ctx.child_block_count == st.ctx.child_block_count + direct_loops_stmt(s)
            &&& r.1.next_block_id == st.next_block_id + total_loops_stmt(s)
            &&& r.1.binding_creations == st.binding_creations + binding_creations_stmt(s)
        }),
        direct_calls_stmt(s, declared) <= stmt_weight(s),
        direct_creations_stmt(s) <= stmt_weight(s),
        direct_loops_stmt(s) <= stmt_weight(s),
        total_loops_stmt(s) <= stmt_weight(s),
        binding_creations_stmt(s) <= stmt_weight(s),
    decreases s,
{
    match s {
        RgStmt::Local { name, init: Some(e) } => {
            lemma_instrument_expr_state(e, declared, PassState { binding_creations: 0, ..st });
        },
        RgStmt::Local { init: None, .. } => {},
        RgStmt::Expr(e) => {
            lemma_instrument_expr_state(e, declared, st);
        },
    }
}

/// See [`lemma_instrument_expr_state`].
pub proof fn lemma_instrument_stmts_state(ss: Seq<RgStmt>, declared: Seq<u32>, st: PassState)
    requires
        has_budget(st, stmts_weight(ss)),
    ensures
        ({
            let r = spec_instrument_stmts(ss, declared, st);
            &&& r.0.len() == ss.len()
            &&& r.1.ctx.id == st.ctx.id
            &&& r.1.ctx.parent_id == st.ctx.parent_id
            &&& r.1.ctx.local_loop_index == st.ctx.local_loop_index
            &&& r.1.ctx.node_count == st.ctx.node_count + direct_calls_stmts(ss, declared)
            &&& r.1.ctx.resource_count == st.ctx.resource_count + direct_creations_stmts(ss)
            &&& r.1.ctx.child_block_count == st.ctx.child_block_count + direct_loops_stmts(ss)
            &&& r.1.next_block_id == st.next_block_id + total_loops_stmts(ss)
            &&& r.1.binding_creations == st.binding_creations + binding_creations_stmts(ss)
        }),
        direct_calls_stmts(ss, declared) <= stmts_weight(ss),
        direct_creations_stmts(ss) <= stmts_weight(ss),
        direct_loops_stmts(ss) <= stmts_weight(ss),
        total_loops_stmts(ss) <= stmts_weight(ss),
        binding_creations_stmts(ss) <= stmts_weight(ss),
    decreases ss,
{
    if ss.len() > 0 {
        lemma_instrument_stmts_state(ss.drop_last(), declared, st);
        let r = spec_instrument_stmts(ss.drop_last(), declared, st);
        lemma_instrument_stmt_state(ss.last(), declared, r.1);
    }
}

/// A fresh copy of identifier bytes.
fn copy_bytes(v: &Vec<u8>) -> (r: Vec<u8>)
    ensures
        r@ == v@,
{
    let mut out: Vec<u8> = Vec::new();
    let mut i: usize = 0;
    while i < v.len()
        invariant
            i <= v@.len(),
            out@ =~= v@.take(i as int),
        decreases v@.len() - i,
    {
        out.push(v[i]);
        proof {
            assert(out@ =~= v@.take(i + 1 as int));
        }
        i = i + 1;
    }
    proof {
        assert(out@ =~= v@);
    }
    out
}

/// Whether `x` occurs in `v`.
fn contains_name(v: &Vec<u32>, x: u32) -> (b: bool)
    ensures
        b == v@.contains(x),
{
    let mut i: usize = 0;
    while i < v.len()
        invariant
            i <= v@.len(),
            forall|j: int| 0 <= j < i ==> v@[j] != x,
        decreases v@.len() - i,
    {
        if v[i] == x {
            return true;
        }
        i = i + 1;
    }
    false
}

/// The weight of a list prefix, extended by its next element, stays within
/// the list's weight.
proof fn lemma_exprs_weight_prefix(es: Seq<RgExpr>, k: int)
    requires
        0 <= k < es.len(),
    ensures
        exprs_weight(es.take(k)) + expr_weight(es[k]) <= exprs_weight(es),
        exprs_weight(es.take(k + 1)) == exprs_weight(es.take(k)) + expr_weight(es[k]),
    decreases es.len(),
{
    assert(es.take(k + 1).drop_last() =~= es.take(k));
    assert(es.take(k + 1).last() == es[k]);
    if k + 1 == es.len() {
        assert(es.take(k + 1) =~= es);
    } else {
        assert(es.drop_last().take(k) =~= es.take(k));
        assert(es.drop_last().take(k + 1) =~= es.take(k + 1));
        assert(es.drop_last()[k] == es[k]);
        lemma_exprs_weight_prefix(es.drop_last(), k);
    }
}

/// See [`lemma_exprs_weight_prefix`].
proof fn lemma_stmts_weight_prefix(ss: Seq<RgStmt>, k: int)
    requires
        0 <= k < ss.len(),
    ensures
        stmts_weight(ss.take(k)) + stmt_weight(ss[k]) <= stmts_weight(ss),
        stmts_weight(ss.take(k + 1)) == stmts_weight(ss.take(k)) + stmt_weight(ss[k]),
    decreases ss.len(),
{
    assert(ss.take(k + 1).drop_last() =~= ss.take(k));
    assert(ss.take(k + 1).last() == ss[k]);
    if k + 1 == ss.len() {
        assert(ss.take(k + 1) =~= ss);
    } else {
        assert(ss.drop_last().take(k) =~= ss.take(k));
        assert(ss.drop_last().take(k + 1) =~= ss.take(k + 1));
        assert(ss.drop_last()[k] == ss[k]);
        lemma_stmts_weight_prefix(ss.drop_last(), k);
    }
}

/// Runs the pass over one expression. See [`spec_instrument_expr`].
pub fn instrument_expr(e: &RgExpr, declared: &Vec<u32>, st: PassState) -> (r: (InstExpr, PassState))
    requires
        has_budget(st, expr_weight(*e)),
    ensures
        ({
            let s = spec_instrument_expr(*e, declared@, st);
            r.0@ == s.0 && r.1 == s.1
        }),
    decreases *e,
{
    match e {
        RgExpr::Call { qualifier, name, args } => {
            proof {
                assert(decreases_to!(*e => *args));
                assert(decreases_to!(*args => args@));
            }
            let is_ext = match qualifier {
                CallQualifier::External => true,
                _ => false,
            };
            if is_ext || contains_name(declared, *name) {
                let local_index = st.ctx.node_count;
                let st1 = PassState {
                    ctx: BlockContext { node_count: st.ctx.node_count + 1, ..st.ctx },
                    ..st
                };
                let (args2, st2) = instrument_exprs(args, declared, st1);
                (
                    InstExpr::NodeCall { external: is_ext, name: *name, local_index, args: args2 },
                    st2,
                )
            } else {
                let (args2, st2) = instrument_exprs(args, declared, st);
                (InstExpr::Call { qualifier: *qualifier, name: *name, args: args2 }, st2)
            }
        },
        RgExpr::CreateResource { args } => {
            proof {
                assert(decreases_to!(*e => *args));
                assert(decreases_to!(*args => args@));
            }
            let local_index = st.ctx.resource_count;
            let st1 = PassState {
                ctx: BlockContext { resource_count: st.ctx.resource_count + 1, ..st.ctx },
                binding_creations: st.binding_creations + 1,
                ..st
            };
            let (args2, st2) = instrument_exprs(args, declared, st1);
            (InstExpr::CreateResource { local_index, args: args2 }, st2)
        },
        RgExpr::Assign { target, value } => {
            proof {
                assert(decreases_to!(*e => *value));
            }
            let (v2, stv) = instrument_expr(value, declared, PassState { binding_creations: 0, ..st });
            let rhs = if stv.binding_creations == 1 {
                InstExpr::Named { name: copy_bytes(target), value: Box::new(v2) }
            } else {
                v2
            };
            proof {
                reveal_with_fuel(view_inst_expr, 3);
            }
            (
                InstExpr::Assign { target: copy_bytes(target), value: Box::new(rhs) },
                PassState { binding_creations: st.binding_creations, ..stv },
            )
        },
        RgExpr::Loop { body } => {
            proof {
                assert(decreases_to!(*e => *body));
                assert(decreases_to!(*body => body@));
            }
            let child = PassState {
                next_block_id: st.next_block_id + 1,
                ctx: BlockContext {
                    id: st.next_block_id,
                    resource_count: 0,
                    node_count: 0,
                    child_block_count: 0,
                    local_loop_index: st.ctx.child_block_count,
                    parent_id: st.ctx.id,
                },
                binding_creations: st.binding_creations,
            };
            let (body2, st_child) = instrument_stmts(body, declared, child);
            (
                InstExpr::LoopBlock { ctx: st_child.ctx, body: body2 },
                PassState {
                    next_block_id: st_child.next_block_id,
                    ctx: BlockContext {
                        child_block_count: st.ctx.child_block_count + 1,
                        ..st.ctx
                    },
                    binding_creations: st_child.binding_creations,
                },
            )
        },
        RgExpr::Atom => (InstExpr::Atom, st),
    }
}

/// Runs the pass over a list of expressions, left to right.
pub fn instrument_exprs(es: &Vec<RgExpr>, declared: &Vec<u32>, st: PassState) -> (r: (
    Vec<InstExpr>,
    PassState,
))
    requires
        has_budget(st, exprs_weight(es@)),
    ensures
        ({
            let s = spec_instrument_exprs(es@, declared@, st);
            view_inst_exprs(r.0@) == s.0 && r.1 == s.1
        }),
    decreases es@,
{
    let mut out: Vec<InstExpr> = Vec::new();
    let mut cur = st;
    let mut i: usize = 0;
    while i < es.len()
        invariant
            i <= es@.len(),
            has_budget(st, exprs_weight(es@)),
            ({
                let s = spec_instrument_exprs(es@.take(i as int), declared@, st);
                view_inst_exprs(out@) == s.0 && cur == s.1
            }),
        decreases es@.len() - i,
    {
        proof {
            lemma_exprs_weight_prefix(es@, i as int);
            lemma_instrument_exprs_state(es@.take(i as int), declared@, st);
            assert(has_budget(cur, expr_weight(es@[i as int])));
            assert(decreases_to!(es@ => es@[i as int]));
        }
        let (o, next) = instrument_expr(&es[i], declared, cur);
        let ghost prev = out@;
        out.push(o);
        cur = next;
        proof {
            assert(es@.take(i + 1 as int).drop_last() =~= es@.take(i as int));
            assert(es@.take(i + 1 as int).last() == es@[i as int]);
            assert(out@.drop_last() =~= prev);
            assert(out@.last() == o);
            assert(view_inst_exprs(out@) == view_inst_exprs(prev).push(view_inst_expr(o)));
        }
        i = i + 1;
    }
    proof {
        assert(es@.take(es@.len() as int) =~= es@);
    }
    (out, cur)
}

/// Runs the pass over one statement. See [`spec_instrument_stmt`].
pub fn instrument_stmt(s: &RgStmt, declared: &Vec<u32>, st: PassState) -> (r: (InstStmt, PassState))
    requires
        has_budget(st, stmt_weight(*s)),
    ensures
        ({
            let sp = spec_instrument_stmt(*s, declared@, st);
            r.0@ == sp.0 && r.1 == sp.1
        }),
    decreases *s,
{
    match s {
        RgStmt::Local { name, init } => {
            match init {
                Some(e) => {
                    proof {
                        assert(decreases_to!(*s => *init));
                        assert(decreases_to!(*init => *e));
                    }
                    let (v2, stv) = instrument_expr(
                        e,
                        declared,
                        PassState { binding_creations: 0, ..st },
                    );
                    let init2 = if stv.binding_creations == 1 {
                        InstExpr::Named { name: copy_bytes(name), value: Box::new(v2) }
                    } else {
                        v2
                    };
                    proof {
                        reveal_with_fuel(view_inst_expr, 2);
                    }
                    (
                        InstStmt::Local { name: copy_bytes(name), init: Some(init2) },
                        PassState { binding_creations: st.binding_creations, ..stv },
                    )
                },
                None => (InstStmt::Local { name: copy_bytes(name), init: None }, st),
            }
        },
        RgStmt::Expr(e) => {
            proof {
                assert(decreases_to!(*s => *e));
            }
            let (o, st2) = instrument_expr(e, declared, st);
            (InstStmt::Expr(o), st2)
        },
    }
}

/// Runs the pass over a list of statements, left to right.
pub fn instrument_stmts(ss: &Vec<RgStmt>, declared: &Vec<u32>, st: PassState) -> (r: (
    Vec<InstStmt>,
    PassState,
))
    requires
        has_budget(st, stmts_weight(ss@)),
    ensures
        ({
            let s = spec_instrument_stmts(ss@, declared@, st);
            view_inst_stmts(r.0@) == s.0 && r.1 == s.1
        }),
    decreases ss@,
{
    let mut out: Vec<InstStmt> = Vec::new();
    let mut cur = st;
    let mut i: usize = 0;
    while i < ss.len()
        invariant
            i <= ss@.len(),
            has_budget(st, stmts_weight(ss@)),
            ({
                let s = spec_instrument_stmts(ss@.take(i as int), declared@, st);
                view_inst_stmts(out@) == s.0 && cur == s.1
            }),
        decreases ss@.len() - i,
    {
        proof {
            lemma_stmts_weight_prefix(ss@, i as int);
            lemma_instrument_stmts_state(ss@.take(i as int), declared@, st);
            assert(has_budget(cur, stmt_weight(ss@[i as int])));
            assert(decreases_to!(ss@ => ss@[i as int]));
        }
        let (o, next) = instrument_stmt(&ss[i], declared, cur);
        let ghost prev = out@;
        out.push(o);
        cur = next;
        proof {
            assert(ss@.take(i + 1 as int).drop_last() =~= ss@.take(i as int));
            assert(ss@.take(i + 1 as int).last() == ss@[i as int]);
            assert(out@.drop_last() =~= prev);
            assert(out@.last() == o);
            assert(view_inst_stmts(out@) == view_inst_stmts(prev).push(view_inst_stmt(o)));
        }
        i = i + 1;
    }
    proof {
        assert(ss@.take(ss@.len() as int) =~= ss@);
    }
    (out, cur)
}

/// A whole instrumented entry procedure: the finalized root block context,
/// the rewritten body, and one past the last block id handed out.
#[derive(PartialEq, Eq, Debug)]
pub struct InstrumentedEntry {
    /// The root block's finalized counts; its id is [`ROOT_BLOCK_ID`] and
    /// its parent the no-parent sentinel.
    pub root: BlockContext,
    /// The rewritten procedure body.
    pub body: Vec<InstStmt>,
    /// One past the largest block id in use: the root id plus every loop's.
    pub num_blocks: u32,
}

/// The mathematical form of an instrumented entry procedure.
pub struct SpecInstrumentedEntry {
    pub root: BlockContext,
    pub body: Seq<SpecInstStmt>,
    pub num_blocks: u32,
}

impl View for InstrumentedEntry {
    type V = SpecInstrumentedEntry;

    open spec fn view(&self) -> SpecInstrumentedEntry {
        SpecInstrumentedEntry {
            root: self.root,
            body: view_inst_stmts(self.body@),
            num_blocks: self.num_blocks,
        }
    }
}

/// The state the pass starts from: the root block open, the first loop id
/// ready to be handed out.
pub open spec fn initial_pass_state() -> PassState {
    PassState {
        next_block_id: 1,
        ctx: BlockContext {
            id: ROOT_BLOCK_ID,
            resource_count: 0,
            node_count: 0,
            child_block_count: 0,
            local_loop_index: 0,
            parent_id: NO_PARENT,
        },
        binding_creations: 0,
    }
}

/// What instrumenting a whole entry procedure yields.
pub open spec fn spec_instrument_entry(body: Seq<RgStmt>, declared: Seq<u32>) -> SpecInstrumentedEntry {
    let r = spec_instrument_stmts(body, declared, initial_pass_state());
    SpecInstrumentedEntry { root: r.1.ctx, body: r.0, num_blocks: r.1.next_block_id }
}

/// Instruments a whole entry procedure: block ids are assigned once per
/// static loop site, in source order of first encounter, starting right
/// after the root block's id; the root context aggregates the node calls,
/// resource creations and loops directly in the procedure body.
pub fn instrument_entry(body: &Vec<RgStmt>, declared: &Vec<u32>) -> (r: InstrumentedEntry)
    requires
        stmts_weight(body@) + 1 <= u32::MAX,
    ensures
        r@ == spec_instrument_entry(body@, declared@),
        r.root.id == ROOT_BLOCK_ID,
        r.root.parent_id == NO_PARENT,
        r.root.node_count == direct_calls_stmts(body@, declared@),
        r.root.resource_count == direct_creations_stmts(body@),
        r.root.child_block_count == direct_loops_stmts(body@),
        r.num_blocks == 1 + total_loops_stmts(body@),
{
    let st = PassState {
        next_block_id: 1,
        ctx: BlockContext {
            id: ROOT_BLOCK_ID,
            resource_count: 0,
            node_count: 0,
            child_block_count: 0,
            local_loop_index: 0,
            parent_id: NO_PARENT,
        },
        binding_creations: 0,
    };
    proof {
        lemma_instrument_stmts_state(body@, declared@, st);
    }
    let (body2, st2) = instrument_stmts(body, declared, st);
    InstrumentedEntry { root: st2.ctx, body: body2, num_blocks: st2.next_block_id }
}


/// Whether every statement of a block is a bare call to a declared node,
/// with no arguments and no nested loops.
pub open spec fn all_top_level_node_calls(ss: Seq<RgStmt>, declared: Seq<u32>) -> bool {
    forall|i: int|
        0 <= i < ss.len() ==> ((#[trigger] ss[i]) matches RgStmt::Expr(
            RgExpr::Call { qualifier, name, args },
        ) && spec_is_node_call(qualifier, name, declared) && args@.len() == 0)
}

/// For a block containing only top-level node calls, the assigned local
/// call indices are consecutive in source order: the i-th call gets the
/// block's running call count plus i.
pub proof fn lemma_top_level_call_indices(ss: Seq<RgStmt>, declared: Seq<u32>, st: PassState)
    requires
        has_budget(st, stmts_weight(ss)),
        all_top_level_node_calls(ss, declared),
    ensures
        ({
            let r = spec_instrument_stmts(ss, declared, st);
            &&& r.0.len() == ss.len()
            &&& forall|i: int|
                0 <= i < ss.len() ==> ((#[trigger] r.0[i]) matches SpecInstStmt::Expr(
                    SpecInstExpr::NodeCall { local_index, .. },
                ) && local_index == st.ctx.node_count + i)
            &&& r.1.ctx.node_count == st.ctx.node_count + ss.len()
        }),
    decreases ss,
{
    lemma_instrument_stmts_state(ss, declared, st);
    if ss.len() > 0 {
        assert forall|i: int| 0 <= i < ss.len() - 1 implies (#[trigger] ss.drop_last()[i]) matches
            RgStmt::Expr(RgExpr::Call { qualifier, name, args }) && spec_is_node_call(
            qualifier,
            name,
            declared,
        ) && args@.len() == 0 by {
            assert(ss.drop_last()[i] == ss[i]);
        }
        lemma_top_level_call_indices(ss.drop_last(), declared, st);
        let r = spec_instrument_stmts(ss.drop_last(), declared, st);
        assert(ss.last() == ss[ss.len() - 1]);
        lemma_instrument_stmts_state(ss.drop_last(), declared, st);
        let last_r = spec_instrument_stmt(ss.last(), declared, r.1);
        let whole = spec_instrument_stmts(ss, declared, st);
        assert(whole.0 == r.0.push(last_r.0));
        assert(last_r.0 matches SpecInstStmt::Expr(SpecInstExpr::NodeCall { local_index, .. })
            && local_index == st.ctx.node_count + (ss.len() - 1));
        assert forall|i: int| 0 <= i < ss.len() implies ((#[trigger] whole.0[i]) matches
            SpecInstStmt::Expr(SpecInstExpr::NodeCall { local_index, .. }) && local_index
            == st.ctx.node_count + i) by {
            if i < ss.len() - 1 {
                assert(whole.0[i] == r.0[i]);
            } else {
                assert(whole.0[i] == last_r.0);
            }
        }
    }
}

/// The consecutive block ids starting at `start`.
pub open spec fn id_range(start: u32, n: nat) -> Seq<u32> {
    Seq::new(n, |i: int| (start + i) as u32)
}

/// The block ids of an instrumented expression, in order of first
/// encounter (a loop's id before the ids inside its body).
pub open spec fn loop_ids_expr(e: SpecInstExpr) -> Seq<u32>
    decreases e,
{
    match e {
        SpecInstExpr::NodeCall { args, .. } => loop_ids_exprs(args),
        SpecInstExpr::Call { args, .. } => loop_ids_exprs(args),
        SpecInstExpr::CreateResource { args, .. } => loop_ids_exprs(args),
        SpecInstExpr::Named { value, .. } => loop_ids_expr(*value),
        SpecInstExpr::Assign { value, .. } => loop_ids_expr(*value),
        SpecInstExpr::LoopBlock { ctx, body } => seq![ctx.id] + loop_ids_stmts(body),
        SpecInstExpr::Atom => Seq::empty(),
    }
}

/// See [`loop_ids_expr`].
pub open spec fn loop_ids_exprs(es: Seq<SpecInstExpr>) -> Seq<u32>
    decreases es,
{
    if es.len() == 0 {
        Seq::empty()
    } else {
        loop_ids_exprs(es.drop_last()) + loop_ids_expr(es.last())
    }
}

/// See [`loop_ids_expr`].
pub open spec fn loop_ids_stmt(s: SpecInstStmt) -> Seq<u32>
    decreases s,
{
    match s {
        SpecInstStmt::Local { init: Some(e), .. } => loop_ids_expr(e),
        SpecInstStmt::Local { init: None, .. } => Seq::empty(),
        SpecInstStmt::Expr(e) => loop_ids_expr(e),
    }
}

/// See [`loop_ids_expr`].
pub open spec fn loop_ids_stmts(ss: Seq<SpecInstStmt>) -> Seq<u32>
    decreases ss,
{
    if ss.len() == 0 {
        Seq::empty()
    } else {
        loop_ids_stmts(ss.drop_last()) + loop_ids_stmt(ss.last())
    }
}

/// Consecutive ranges concatenate.
proof fn lemma_id_range_concat(start: u32, a: nat, b: nat)
    requires
        start + a + b <= u32::MAX,
    ensures
        id_range(start, a + b) == id_range(start, a) + id_range((start + a) as u32, b),
{
    assert(id_range(start, a + b) =~= id_range(start, a) + id_range((start + a) as u32, b));
}

/// Block ids are assigned once per static loop site, in source order of
/// first encounter during the single pass: instrumenting an expression
/// under id counter `next` hands out exactly the consecutive ids starting
/// at `next`, one per loop site.
pub proof fn lemma_loop_ids_expr(e: RgExpr, declared: Seq<u32>, st: PassState)
    requires
        has_budget(st, expr_weight(e)),
    ensures
        loop_ids_expr(spec_instrument_expr(e, declared, st).0) == id_range(
            st.next_block_id,
            total_loops_expr(e),
        ),
    decreases e,
{
    lemma_instrument_expr_state(e, declared, st);
    match e {
        RgExpr::Call { qualifier, name, args } => {
            if spec_is_node_call(qualifier, name, declared) {
                let st1 = PassState {
                    ctx: BlockContext { node_count: (st.ctx.node_count + 1) as u32, ..st.ctx },
                    ..st
                };
                lemma_loop_ids_exprs(args@, declared, st1);
            } else {
                lemma_loop_ids_exprs(args@, declared, st);
            }
        },
        RgExpr::CreateResource { args } => {
            let st1 = PassState {
                ctx: BlockContext {
                    resource_count: (st.ctx.resource_count + 1) as u32,
                    ..st.ctx
                },
                binding_creations: (st.binding_creations + 1) as u32,
                ..st
            };
            lemma_loop_ids_exprs(args@, declared, st1);
        },
        RgExpr::Assign { target, value } => {
            reveal_with_fuel(loop_ids_expr, 3);
            lemma_loop_ids_expr(*value, declared, PassState { binding_creations: 0, ..st });
        },
        RgExpr::Loop { body } => {
            let child = PassState {
                next_block_id: (st.next_block_id + 1) as u32,
                ctx: BlockContext {
                    id: st.next_block_id,
                    resource_count: 0,
                    node_count: 0,
                    child_block_count: 0,
                    local_loop_index: st.ctx.child_block_count,
                    parent_id: st.ctx.id,
                },
                binding_creations: st.binding_creations,
            };
            lemma_instrument_stmts_state(body@, declared, child);
            lemma_loop_ids_stmts(body@, declared, child);
            assert(seq![st.next_block_id] =~= id_range(st.next_block_id, 1));
            lemma_id_range_concat(st.next_block_id, 1, total_loops_stmts(body@));
        },
        RgExpr::Atom => {
            assert(loop_ids_expr(spec_instrument_expr(e, declared, st).0) =~= id_range(
                st.next_block_id,
                0,
            ));
        },
    }
}

/// See [`lemma_loop_ids_expr`].
pub proof fn lemma_loop_ids_exprs(es: Seq<RgExpr>, declared: Seq<u32>, st: PassState)
    requires
        has_budget(st, exprs_weight(es)),
    ensures
        loop_ids_exprs(spec_instrument_exprs(es, declared, st).0) == id_range(
            st.next_block_id,
            total_loops_exprs(es),
        ),
    decreases es,
{
    lemma_instrument_exprs_state(es, declared, st);
    if es.len() == 0 {
        assert(loop_ids_exprs(spec_instrument_exprs(es, declared, st).0) =~= id_range(
            st.next_block_id,
            0,
        ));
    } else {
        lemma_loop_ids_exprs(es.drop_last(), declared, st);
        let r = spec_instrument_exprs(es.drop_last(), declared, st);
        lemma_instrument_exprs_state(es.drop_last(), declared, st);
        lemma_loop_ids_expr(es.last(), declared, r.1);
        let r2 = spec_instrument_expr(es.last(), declared, r.1);
        assert(spec_instrument_exprs(es, declared, st).0.drop_last() =~= r.0);
        assert(spec_instrument_exprs(es, declared, st).0.last() == r2.0);
        lemma_id_range_concat(
            st.next_block_id,
            total_loops_exprs(es.drop_last()),
            total_loops_expr(es.last()),
        );
    }
}

/// See [`lemma_loop_ids_expr`].
pub proof fn lemma_loop_ids_stmt(s: RgStmt, declared: Seq<u32>, st: PassState)
    requires
        has_budget(st, stmt_weight(s)),
    ensures
        loop_ids_stmt(spec_instrument_stmt(s, declared, st).0) == id_range(
            st.next_block_id,
            total_loops_stmt(s),
        ),
    decreases s,
{
    lemma_instrument_stmt_state(s, declared, st);
    match s {
        RgStmt::Local { name, init: Some(e) } => {
            reveal_with_fuel(loop_ids_expr, 3);
            lemma_loop_ids_expr(e, declared, PassState { binding_creations: 0, ..st });
        },
        RgStmt::Local { init: None, .. } => {
            assert(loop_ids_stmt(spec_instrument_stmt(s, declared, st).0) =~= id_range(
                st.next_block_id,
                0,
            ));
        },
        RgStmt::Expr(e) => {
            lemma_loop_ids_expr(e, declared, st);
        },
    }
}

/// See [`lemma_loop_ids_expr`].
pub proof fn lemma_loop_ids_stmts(ss: Seq<RgStmt>, declared: Seq<u32>, st: PassState)
    requires
        has_budget(st, stmts_weight(ss)),
    ensures
        loop_ids_stmts(spec_instrument_stmts(ss, declared, st).0) == id_range(
            st.next_block_id,
            total_loops_stmts(ss),
        ),
    decreases ss,
{
    lemma_instrument_stmts_state(ss, declared, st);
    if ss.len() == 0 {
        assert(loop_ids_stmts(spec_instrument_stmts(ss, declared, st).0) =~= id_range(
            st.next_block_id,
            0,
        ));
    } else {
        lemma_loop_ids_stmts(ss.drop_last(), declared, st);
        let r = spec_instrument_stmts(ss.drop_last(), declared, st);
        lemma_instrument_stmts_state(ss.drop_last(), declared, st);
        lemma_loop_ids_stmt(ss.last(), declared, r.1);
        let r2 = spec_instrument_stmt(ss.last(), declared, r.1);
        assert(spec_instrument_stmts(ss, declared, st).0.drop_last() =~= r.0);
        assert(spec_instrument_stmts(ss, declared, st).0.last() == r2.0);
        lemma_id_range_concat(
            st.next_block_id,
            total_loops_stmts(ss.drop_last()),
            total_loops_stmt(ss.last()),
        );
    }
}

/// The block ids of a whole instrumented entry are the root id followed by
/// one consecutive id per static loop site, in source order: running a loop
/// once or a thousand times cannot change them, since the ids are fixed
/// before execution.
pub proof fn lemma_entry_block_ids(body: Seq<RgStmt>, declared: Seq<u32>)
    requires
        stmts_weight(body) + 1 <= u32::MAX,
    ensures
        loop_ids_stmts(spec_instrument_entry(body, declared).body) == id_range(
            1,
            total_loops_stmts(body),
        ),
        spec_instrument_entry(body, declared).num_blocks == 1 + total_loops_stmts(body),
{
    lemma_loop_ids_stmts(body, declared, initial_pass_state());
    lemma_instrument_stmts_state(body, declared, initial_pass_state());
}

/// Instrumenting the same procedure body against the same declared node set
/// twice yields identical results: the pass is deterministic, with no
/// hidden state.
pub proof fn lemma_instrument_deterministic(
    body1: Seq<RgStmt>,
    body2: Seq<RgStmt>,
    declared1: Seq<u32>,
    declared2: Seq<u32>,
)
    requires
        body1 == body2,
        declared1 == declared2,
    ensures
        spec_instrument_entry(body1, declared1) == spec_instrument_entry(body2, declared2),
{
}


/// Whether every call expression of the input names an identifier below
/// `n`: what a module with `n` referable node names guarantees.
pub open spec fn call_names_lt_expr(e: RgExpr, n: nat) -> bool
    decreases e,
{
    match e {
        RgExpr::Call { name, args, .. } => name < n && call_names_lt_exprs(args@, n),
        RgExpr::CreateResource { args } => call_names_lt_exprs(args@, n),
        RgExpr::Assign { value, .. } => call_names_lt_expr(*value, n),
        RgExpr::Loop { body } => call_names_lt_stmts(body@, n),
        RgExpr::Atom => true,
    }
}

/// See [`call_names_lt_expr`].
pub open spec fn call_names_lt_exprs(es: Seq<RgExpr>, n: nat) -> bool
    decreases es,
{
    if es.len() == 0 {
        true
    } else {
        call_names_lt_exprs(es.drop_last(), n) && call_names_lt_expr(es.last(), n)
    }
}

/// See [`call_names_lt_expr`].
pub open spec fn call_names_lt_stmt(s: RgStmt, n: nat) -> bool
    decreases s,
{
    match s {
        RgStmt::Local { init: Some(e), .. } => call_names_lt_expr(e, n),
        RgStmt::Local { init: None, .. } => true,
        RgStmt::Expr(e) => call_names_lt_expr(e, n),
    }
}

/// See [`call_names_lt_expr`].
pub open spec fn call_names_lt_stmts(ss: Seq<RgStmt>, n: nat) -> bool
    decreases ss,
{
    if ss.len() == 0 {
        true
    } else {
        call_names_lt_stmts(ss.drop_last(), n) && call_names_lt_stmt(ss.last(), n)
    }
}

/// The pass output is well-formed for execution: every block id it bakes in
/// lies below the final id counter, and every node name below the module's
/// name bound.
pub proof fn lemma_instrument_expr_wf(e: RgExpr, declared: Seq<u32>, st: PassState, blocks: nat, names: nat)
    requires
        has_budget(st, expr_weight(e)),
        call_names_lt_expr(e, names),
        st.next_block_id + total_loops_expr(e) <= blocks,
    ensures
        crate::execute::wf_inst_expr(spec_instrument_expr(e, declared, st).0, blocks, names),
    decreases e,
{
    lemma_instrument_expr_state(e, declared, st);
    match e {
        RgExpr::Call { qualifier, name, args } => {
            if spec_is_node_call(qualifier, name, declared) {
                let st1 = PassState {
                    ctx: BlockContext { node_count: (st.ctx.node_count + 1) as u32, ..st.ctx },
                    ..st
                };
                lemma_instrument_exprs_wf(args@, declared, st1, blocks, names);
            } else {
                lemma_instrument_exprs_wf(args@, declared, st, blocks, names);
            }
        },
        RgExpr::CreateResource { args } => {
            let st1 = PassState {
                ctx: BlockContext {
                    resource_count: (st.ctx.resource_count + 1) as u32,
                    ..st.ctx
                },
                binding_creations: (st.binding_creations + 1) as u32,
                ..st
            };
            lemma_instrument_exprs_wf(args@, declared, st1, blocks, names);
        },
        RgExpr::Assign { target, value } => {
            reveal_with_fuel(crate::execute::wf_inst_expr, 4);
            lemma_instrument_expr_wf(
                *value,
                declared,
                PassState { binding_creations: 0, ..st },
                blocks,
                names,
            );
        },
        RgExpr::Loop { body } => {
            let child = PassState {
                next_block_id: (st.next_block_id + 1) as u32,
                ctx: BlockContext {
                    id: st.next_block_id,
                    resource_count: 0,
                    node_count: 0,
                    child_block_count: 0,
                    local_loop_index: st.ctx.child_block_count,
                    parent_id: st.ctx.id,
                },
                binding_creations: st.binding_creations,
            };
            lemma_instrument_stmts_state(body@, declared, child);
            lemma_instrument_stmts_wf(body@, declared, child, blocks, names);
        },
        RgExpr::Atom => {},
    }
}

/// See [`lemma_instrument_expr_wf`].
pub proof fn lemma_instrument_exprs_wf(es: Seq<RgExpr>, declared: Seq<u32>, st: PassState, blocks: nat, names: nat)
    requires
        has_budget(st, exprs_weight(es)),
        call_names_lt_exprs(es, names),
        st.next_block_id + total_loops_exprs(es) <= blocks,
    ensures
        crate::execute::wf_inst_exprs(spec_instrument_exprs(es, declared, st).0, blocks, names),
    decreases es,
{
    lemma_instrument_exprs_state(es, declared, st);
    if es.len() > 0 {
        lemma_instrument_exprs_wf(es.drop_last(), declared, st, blocks, names);
        let r = spec_instrument_exprs(es.drop_last(), declared, st);
        lemma_instrument_exprs_state(es.drop_last(), declared, st);
        lemma_instrument_expr_wf(es.last(), declared, r.1, blocks, names);
        assert(spec_instrument_exprs(es, declared, st).0.drop_last() =~= r.0);
    }
}

/// See [`lemma_instrument_expr_wf`].
pub proof fn lemma_instrument_stmt_wf(s: RgStmt, declared: Seq<u32>, st: PassState, blocks: nat, names: nat)
    requires
        has_budget(st, stmt_weight(s)),
        call_names_lt_stmt(s, names),
        st.next_block_id + total_loops_stmt(s) <= blocks,
    ensures
        crate::execute::wf_inst_stmt(spec_instrument_stmt(s, declared, st).0, blocks, names),
    decreases s,
{
    lemma_instrument_stmt_state(s, declared, st);
    match s {
        RgStmt::Local { name, init: Some(e) } => {
            reveal_with_fuel(crate::execute::wf_inst_expr, 4);
            lemma_instrument_expr_wf(
                e,
                declared,
                PassState { binding_creations: 0, ..st },
                blocks,
                names,
            );
        },
        RgStmt::Local { init: None, .. } => {},
        RgStmt::Expr(e) => {
            lemma_instrument_expr_wf(e, declared, st, blocks, names);
        },
    }
}

/// See [`lemma_instrument_expr_wf`].
pub proof fn lemma_instrument_stmts_wf(ss: Seq<RgStmt>, declared: Seq<u32>, st: PassState, blocks: nat, names: nat)
    requires
        has_budget(st, stmts_weight(ss)),
        call_names_lt_stmts(ss, names),
        st.next_block_id + total_loops_stmts(ss) <= blocks,
    ensures
        crate::execute::wf_inst_stmts(spec_instrument_stmts(ss, declared, st).0, blocks, names),
    decreases ss,
{
    lemma_instrument_stmts_state(ss, declared, st);
    if ss.len() > 0 {
        lemma_instrument_stmts_wf(ss.drop_last(), declared, st, blocks, names);
        let r = spec_instrument_stmts(ss.drop_last(), declared, st);
        lemma_instrument_stmts_state(ss.drop_last(), declared, st);
        lemma_instrument_stmt_wf(ss.last(), declared, r.1, blocks, names);
        assert(spec_instrument_stmts(ss, declared, st).0.drop_last() =~= r.0);
    }
}

/// An instrumented entry is ready to execute: any schedule that covers its
/// block count and any id binding that covers the module's node names
/// satisfies the executor's well-formedness demands.
pub proof fn lemma_instrument_entry_wf(body: Seq<RgStmt>, declared: Seq<u32>, names: nat)
    requires
        stmts_weight(body) + 1 <= u32::MAX,
        call_names_lt_stmts(body, names),
    ensures
        crate::execute::wf_inst_stmts(
            spec_instrument_entry(body, declared).body,
            spec_instrument_entry(body, declared).num_blocks as nat,
            names,
        ),
{
    lemma_instrument_stmts_state(body, declared, initial_pass_state());
    lemma_instrument_stmts_wf(
        body,
        declared,
        initial_pass_state(),
        spec_instrument_entry(body, declared).num_blocks as nat,
        names,
    );
}

} // verus!
