//! An authoring-time instrumentation library for declarative render graphs.
//!
//! An authored entry procedure describes a frame's GPU work as node calls and
//! resource creations interleaved with ordinary control flow. This crate
//! holds the two algorithmic cores of that pipeline: the transformation pass
//! that rewrites an entry procedure to emit block markers and per-block
//! numbering ([`instrument`]), and the compile-time encoder that packs
//! per-parameter access annotations into access descriptors ([`access`]).
//! Around them stand the runtime marker protocol ([`rpsl_runtime`]), the
//! resource view types ([`rps_types`]), and the node registry ([`registry`]).

use vstd::prelude::*;

pub mod access;
pub mod execute;
pub mod instrument;
pub mod ir;
pub mod registry;
pub mod rps_types;
pub mod rpsl_runtime;
pub mod support;

use crate::rpsl_runtime::MarkerEvent;
use crate::rpsl_runtime::MarkerKind;
use crate::rpsl_runtime::NO_PARENT;
use crate::rpsl_runtime::Trace;
use crate::rpsl_runtime::TraceEvent;
use crate::rpsl_runtime::count_node_calls;

verus! {

/// The errors this library reports instead of carrying on with corrupt state.
#[derive(Clone, Copy, PartialEq, Eq, Structural, Debug)]
#[non_exhaustive]
pub enum Error {
    /// An argument was rejected.
    InvalidArgs,
    /// A range or index fell outside its resource.
    IndexOutOfRange,
    /// A node name was already bound to a different id.
    NodeIdConflict,
}

/// The value a node call hands back: the runtime number of the recorded call.
#[derive(Clone, Copy, PartialEq, Eq, Structural, Debug)]
pub struct Node {
    /// The process-wide running number of this node call.
    pub id: u32,
}

/// Records one node invocation on the trace: the declaration id, the argument
/// count, and the block-local call index baked in by the instrumentation pass.
pub fn call_node(trace: &mut Trace, dcl_id: u32, local_id: u32, num_args: u32) -> (n: Node)
    requires
        count_node_calls(old(trace).events@) < u32::MAX,
    ensures
        final(trace).events@ == old(trace).events@.push(
            TraceEvent::NodeCall { node_decl_id: dcl_id, num_args, node_local_id: local_id },
        ),
        n.id == count_node_calls(old(trace).events@),
{
    let id = trace.node_call(dcl_id, num_args, local_id);
    Node { id }
}

/// Emits the loop-iteration marker that opens every dynamic iteration of the
/// loop block `block_index`.
pub fn loop_iterate(trace: &mut Trace, block_index: u32, _iter_index: u32)
    ensures
        final(trace).events@ == old(trace).events@.push(
            TraceEvent::Marker(
                MarkerEvent::spec_block_only(MarkerKind::LoopIteration, block_index),
            ),
        ),
{
    let ev = MarkerEvent::block_only(MarkerKind::LoopIteration, block_index);
    trace.block_marker(ev);
}

/// The marker coordinates under which one instrumented procedure calls
/// another: the caller's block, its parent, and the call's block-local index.
#[derive(Clone, Copy, PartialEq, Eq, Structural, Debug)]
pub struct CallIds {
    pub parent_id: u32,
    pub block_id: u32,
    pub local_index: u32,
}

/// The nesting context of one authoring execution. The host keeps one per
/// concurrently executing entry, so that two executions never observe each
/// other's call coordinates.
#[derive(Clone, Copy, PartialEq, Eq, Structural, Debug)]
pub struct NestingContext {
    /// The coordinates of the innermost instrumented call in progress, if any.
    pub call_ids: Option<CallIds>,
}

impl NestingContext {
    /// A context with no instrumented call in progress: the state in which a
    /// top-level entry procedure starts.
    pub fn new() -> (c: NestingContext)
        ensures
            c.call_ids is None,
    {
        NestingContext { call_ids: None }
    }
}

/// Installs the call coordinates of a nested instrumented call for the
/// callee's duration; `restore` puts the outer coordinates back.
pub struct FunctionCallIdGuard {
    outer_call_ids: Option<CallIds>,
}

impl FunctionCallIdGuard {
    /// The coordinates this guard restores when released.
    pub closed spec fn spec_outer(self) -> Option<CallIds> {
        self.outer_call_ids
    }

    /// Installs `{parent_id, block_id, local_index}` as the current call
    /// coordinates, remembering the outer ones.
    pub fn new(ctx: &mut NestingContext, parent_id: u32, block_id: u32, local_index: u32) -> (g:
        FunctionCallIdGuard)
        ensures
            final(ctx).call_ids == Some(CallIds { parent_id, block_id, local_index }),
            g.spec_outer() == old(ctx).call_ids,
    {
        FunctionCallIdGuard {
            outer_call_ids: FunctionMarkerGuard::set_call_ids(
                ctx,
                Some(CallIds { parent_id, block_id, local_index }),
            ),
        }
    }

    /// Puts the outer call coordinates back. Runs on every exit path of the
    /// nested call.
    pub fn restore(self, ctx: &mut NestingContext)
        ensures
            final(ctx).call_ids == self.spec_outer(),
    {
        FunctionMarkerGuard::set_call_ids(ctx, self.outer_call_ids);
    }
}

/// Emits the whole-procedure markers: a function-info marker for a top-level
/// entry, or — until a first-class function-block event exists — a
/// loop-begin / loop-iteration pair standing in for a child block when one
/// instrumented procedure calls another.
pub struct FunctionMarkerGuard {
    call_ids: Option<CallIds>,
}

impl FunctionMarkerGuard {
    /// The call coordinates the guard saw when it was created.
    pub closed spec fn spec_call_ids(self) -> Option<CallIds> {
        self.call_ids
    }

    /// Replaces the current call coordinates, handing back the previous ones.
    pub fn set_call_ids(ctx: &mut NestingContext, value: Option<CallIds>) -> (prev: Option<
        CallIds,
    >)
        ensures
            final(ctx).call_ids == value,
            prev == old(ctx).call_ids,
    {
        let prev = ctx.call_ids;
        ctx.call_ids = value;
        prev
    }

    /// Opens the procedure's scope: emits its summary marker, nested the
    /// loop-vocabulary way when call coordinates are installed.
    pub fn new(
        ctx: &NestingContext,
        trace: &mut Trace,
        resource_count: u32,
        node_count: u32,
        children_count: u32,
    ) -> (g: FunctionMarkerGuard)
        ensures
            g.spec_call_ids() == ctx.call_ids,
            ctx.call_ids matches Some(ids) ==> (final(trace).events@ == old(trace).events@.push(
                TraceEvent::Marker(
                    MarkerEvent {
                        kind: MarkerKind::LoopBegin,
                        block_id: ids.block_id,
                        resource_count,
                        node_count,
                        local_loop_index: ids.local_index,
                        num_children: children_count,
                        parent_id: ids.parent_id,
                    },
                ),
            ).push(
                TraceEvent::Marker(
                    MarkerEvent::spec_block_only(MarkerKind::LoopIteration, ids.block_id),
                ),
            )),
            ctx.call_ids is None ==> final(trace).events@ == old(trace).events@.push(
                TraceEvent::Marker(
                    MarkerEvent {
                        kind: MarkerKind::FunctionInfo,
                        block_id: 0u32,
                        resource_count,
                        node_count,
                        local_loop_index: NO_PARENT,
                        num_children: children_count,
                        parent_id: NO_PARENT,
                    },
                ),
            ),
    {
        let call_ids = ctx.call_ids;
        match &call_ids {
            Some(ids) => {
                trace.block_marker(
                    MarkerEvent {
                        kind: MarkerKind::LoopBegin,
                        block_id: ids.block_id,
                        resource_count,
                        node_count,
                        local_loop_index: ids.local_index,
                        num_children: children_count,
                        parent_id: ids.parent_id,
                    },
                );
                let ev = MarkerEvent::block_only(MarkerKind::LoopIteration, ids.block_id);
                trace.block_marker(ev);
            },
            None => {
                trace.block_marker(
                    MarkerEvent {
                        kind: MarkerKind::FunctionInfo,
                        block_id: 0,
                        resource_count,
                        node_count,
                        local_loop_index: NO_PARENT,
                        num_children: children_count,
                        parent_id: NO_PARENT,
                    },
                );
            },
        }
        FunctionMarkerGuard { call_ids }
    }

    /// Closes the procedure's scope: the nested stand-in block gets its
    /// loop-end marker; a top-level entry emits nothing yet. Runs on every
    /// exit path.
    pub fn finish(self, trace: &mut Trace)
        ensures
            self.spec_call_ids() matches Some(ids) ==> (final(trace).events@ == old(trace).events@.push(
                TraceEvent::Marker(MarkerEvent::spec_block_only(MarkerKind::LoopEnd, ids.block_id)),
            )),
            self.spec_call_ids() is None ==> final(trace).events@ == old(trace).events@,
    {
        match &self.call_ids {
            Some(ids) => {
                let ev = MarkerEvent::block_only(MarkerKind::LoopEnd, ids.block_id);
                trace.block_marker(ev);
            },
            None => {},
        }
    }
}

/// Emits the loop-begin marker on entry and guarantees the matching loop-end
/// marker when the loop's scope exits, on every exit path.
pub struct LoopGuard {
    block_index: u32,
}

impl LoopGuard {
    /// The block id whose end marker this guard owes.
    pub closed spec fn spec_block_index(self) -> u32 {
        self.block_index
    }

    /// Opens the loop block: emits its summary marker with the final
    /// aggregated counts of the block.
    pub fn new(
        trace: &mut Trace,
        block_index: u32,
        resource_count: u32,
        node_count: u32,
        local_loop_index: u32,
        num_children: u32,
        parent_id: u32,
    ) -> (g: LoopGuard)
        ensures
            final(trace).events@ == old(trace).events@.push(
                TraceEvent::Marker(
                    MarkerEvent {
                        kind: MarkerKind::LoopBegin,
                        block_id: block_index,
                        resource_count,
                        node_count,
                        local_loop_index,
                        num_children,
                        parent_id,
                    },
                ),
            ),
            g.spec_block_index() == block_index,
    {
        trace.block_marker(
            MarkerEvent {
                kind: MarkerKind::LoopBegin,
                block_id: block_index,
                resource_count,
                node_count,
                local_loop_index,
                num_children,
                parent_id,
            },
        );
        LoopGuard { block_index }
    }

    /// Closes the loop block: emits its end marker.
    pub fn finish(self, trace: &mut Trace)
        ensures
            final(trace).events@ == old(trace).events@.push(
                TraceEvent::Marker(
                    MarkerEvent::spec_block_only(MarkerKind::LoopEnd, self.spec_block_index()),
                ),
            ),
    {
        let ev = MarkerEvent::block_only(MarkerKind::LoopEnd, self.block_index);
        trace.block_marker(ev);
    }
}

} // verus!

