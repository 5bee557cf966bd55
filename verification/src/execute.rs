//! Execution of an instrumented entry procedure.
//!
//! Running the rewritten procedure replays its structure against the runtime
//! marker protocol: every loop block contributes one loop-begin marker
//! carrying its finalized counts, one loop-iteration marker per dynamic
//! iteration, and one loop-end marker on scope exit; node calls and resource
//! creations are recorded with the block-local indices the pass baked in,
//! and named creations are followed by their naming notification.
//!
//! How often each loop runs is the host's business; here it is an explicit
//! schedule, one iteration count per block id. What the execution appends to
//! the trace is mirrored exactly by spec functions ([`spec_exec_stmts`] and
//! friends) over the instrumented form's mathematical view.

use vstd::prelude::*;

use crate::call_node;
use crate::instrument::InstExpr;
use crate::instrument::InstStmt;
use crate::instrument::InstrumentedEntry;
use crate::instrument::SpecInstExpr;
use crate::instrument::SpecInstStmt;
use crate::instrument::view_inst_expr;
use crate::instrument::view_inst_exprs;
use crate::instrument::view_inst_stmt;
use crate::instrument::view_inst_stmts;
use crate::ir::CallQualifier;
use crate::ir::RgExpr;
use crate::ir::RgStmt;
use crate::loop_iterate;
use crate::rps_types::ResourceType;
use crate::rps_types::RpsFormat;
use crate::rpsl_runtime::MarkerEvent;
use crate::rpsl_runtime::MarkerKind;
use crate::rpsl_runtime::ResourceCreateRequest;
use crate::rpsl_runtime::Trace;
use crate::rpsl_runtime::TraceEvent;
use crate::rpsl_runtime::count_creations;
use crate::rpsl_runtime::count_node_calls;
use crate::FunctionMarkerGuard;
use crate::LoopGuard;
use crate::NestingContext;
use crate::CallIds;
use crate::rpsl_runtime::NO_PARENT;

verus! {

/// One recorded call into the host, in mathematical form: the naming
/// notification carries its bytes as a sequence.
pub enum SpecTraceEvent {
    /// A block marker.
    Marker(MarkerEvent),
    /// One node invocation.
    NodeCall { node_decl_id: u32, num_args: u32, node_local_id: u32 },
    /// One resource creation.
    CreateResource(ResourceCreateRequest),
    /// A diagnostic name attached to a created resource.
    NameResource { resource_hdl: u32, name: Seq<u8> },
}

/// The mathematical form of one trace event.
pub open spec fn view_trace_event(ev: TraceEvent) -> SpecTraceEvent {
    match ev {
        TraceEvent::Marker(m) => SpecTraceEvent::Marker(m),
        TraceEvent::NodeCall { node_decl_id, num_args, node_local_id } => SpecTraceEvent::NodeCall {
            node_decl_id,
            num_args,
            node_local_id,
        },
        TraceEvent::CreateResource(req) => SpecTraceEvent::CreateResource(req),
        TraceEvent::NameResource { resource_hdl, name } => SpecTraceEvent::NameResource {
            resource_hdl,
            name: name@,
        },
    }
}

/// The mathematical form of an event log.
pub open spec fn view_trace(events: Seq<TraceEvent>) -> Seq<SpecTraceEvent> {
    events.map_values(|ev: TraceEvent| view_trace_event(ev))
}

/// How many resource creations a sequence of events contains.
pub open spec fn abs_count_creations(events: Seq<SpecTraceEvent>) -> nat
    decreases events,
{
    if events.len() == 0 {
        0
    } else {
        abs_count_creations(events.drop_last()) + if events.last() is CreateResource {
            1nat
        } else {
            0nat
        }
    }
}

/// Creation counts add up over concatenation.
pub proof fn lemma_abs_count_creations_concat(a: Seq<SpecTraceEvent>, b: Seq<SpecTraceEvent>)
    ensures
        abs_count_creations(a + b) == abs_count_creations(a) + abs_count_creations(b),
    decreases b,
{
    if b.len() == 0 {
        assert(a + b =~= a);
    } else {
        lemma_abs_count_creations_concat(a, b.drop_last());
        assert((a + b).drop_last() =~= a + b.drop_last());
    }
}

/// The two ways of counting creations agree through the event view.
pub proof fn lemma_view_count_creations(events: Seq<TraceEvent>)
    ensures
        abs_count_creations(view_trace(events)) == count_creations(events),
    decreases events,
{
    if events.len() > 0 {
        lemma_view_count_creations(events.drop_last());
        assert(view_trace(events).drop_last() =~= view_trace(events.drop_last()));
    }
}

/// No sequence holds more node calls than events.
pub proof fn lemma_count_node_calls_le_len(events: Seq<TraceEvent>)
    ensures
        count_node_calls(events) <= events.len(),
    decreases events,
{
    if events.len() > 0 {
        lemma_count_node_calls_le_len(events.drop_last());
    }
}

/// No sequence holds more creations than events.
pub proof fn lemma_count_creations_le_len(events: Seq<TraceEvent>)
    ensures
        count_creations(events) <= events.len(),
    decreases events,
{
    if events.len() > 0 {
        lemma_count_creations_le_len(events.drop_last());
    }
}

/// The view of a log has the log's length.
pub proof fn lemma_view_trace_len(events: Seq<TraceEvent>)
    ensures
        view_trace(events).len() == events.len(),
{
}

/// Views commute with appending one event.
pub proof fn lemma_view_trace_push(events: Seq<TraceEvent>, ev: TraceEvent)
    ensures
        view_trace(events.push(ev)) == view_trace(events).push(view_trace_event(ev)),
{
    assert(view_trace(events.push(ev)) =~= view_trace(events).push(view_trace_event(ev)));
}

/// Appending a non-creation event keeps the creation count; appending a
/// creation raises it by one.
pub proof fn lemma_count_creations_push(events: Seq<TraceEvent>, ev: TraceEvent)
    ensures
        count_creations(events.push(ev)) == count_creations(events) + if ev is CreateResource {
            1nat
        } else {
            0nat
        },
{
    assert(events.push(ev).drop_last() =~= events);
}

/// The facts needed whenever the trace grows by one event: views and
/// creation counts commute with the push, and views keep lengths.
proof fn lemma_trace_push_facts()
    ensures
        forall|s: Seq<TraceEvent>, ev: TraceEvent| #[trigger] view_trace(s.push(ev))
            == view_trace(s).push(view_trace_event(ev)),
        forall|s: Seq<TraceEvent>| #[trigger] view_trace(s).len() == s.len(),
        forall|s: Seq<TraceEvent>, ev: TraceEvent| #[trigger] count_creations(s.push(ev))
            == count_creations(s) + if ev is CreateResource {
            1nat
        } else {
            0nat
        },
{
    assert forall|s: Seq<TraceEvent>, ev: TraceEvent| #[trigger] view_trace(s.push(ev))
        == view_trace(s).push(view_trace_event(ev)) by {
        lemma_view_trace_push(s, ev);
    }
    assert forall|s: Seq<TraceEvent>, ev: TraceEvent| #[trigger] count_creations(s.push(ev))
        == count_creations(s) + (if ev is CreateResource {
        1nat
    } else {
        0nat
    }) by {
        lemma_count_creations_push(s, ev);
    }
}

/// Whether every block id sits below `blocks` (so a schedule of that length
/// covers it) and every node name below `names` (so an id binding of that
/// length resolves it).
pub open spec fn wf_inst_expr(e: SpecInstExpr, blocks: nat, names: nat) -> bool
    decreases e, 0nat, 0nat,
{
    match e {
        SpecInstExpr::NodeCall { name, args, .. } => name < names && wf_inst_exprs(
            args,
            blocks,
            names,
        ),
        SpecInstExpr::Call { args, .. } => wf_inst_exprs(args, blocks, names),
        SpecInstExpr::CreateResource { args, .. } => wf_inst_exprs(args, blocks, names),
        SpecInstExpr::Named { value, .. } => wf_inst_expr(*value, blocks, names),
        SpecInstExpr::Assign { value, .. } => wf_inst_expr(*value, blocks, names),
        SpecInstExpr::LoopBlock { ctx, body } => ctx.id < blocks && wf_inst_stmts(
            body,
            blocks,
            names,
        ),
        SpecInstExpr::Atom => true,
    }
}

/// See [`wf_inst_expr`].
pub open spec fn wf_inst_exprs(es: Seq<SpecInstExpr>, blocks: nat, names: nat) -> bool
    decreases es, 0nat, 0nat,
{
    if es.len() == 0 {
        true
    } else {
        wf_inst_exprs(es.drop_last(), blocks, names) && wf_inst_expr(es.last(), blocks, names)
    }
}

/// See [`wf_inst_expr`].
pub open spec fn wf_inst_stmt(s: SpecInstStmt, blocks: nat, names: nat) -> bool
    decreases s, 0nat, 0nat,
{
    match s {
        SpecInstStmt::Local { init: Some(e), .. } => wf_inst_expr(e, blocks, names),
        SpecInstStmt::Local { init: None, .. } => true,
        SpecInstStmt::Expr(e) => wf_inst_expr(e, blocks, names),
    }
}

/// See [`wf_inst_expr`].
pub open spec fn wf_inst_stmts(ss: Seq<SpecInstStmt>, blocks: nat, names: nat) -> bool
    decreases ss, 0nat, 0nat,
{
    if ss.len() == 0 {
        true
    } else {
        wf_inst_stmts(ss.drop_last(), blocks, names) && wf_inst_stmt(ss.last(), blocks, names)
    }
}

/// The creation request recorded for a resource-constructing expression:
/// the authored payload is not modelled, only the baked block-local id that
/// the pass attached travels with the call.
pub open spec fn spec_creation_request(local_index: u32) -> ResourceCreateRequest {
    ResourceCreateRequest {
        res_type: ResourceType::UNKNOWN,
        flags: 0,
        format: RpsFormat::UNKNOWN,
        width: 0,
        height: 0,
        depth_or_array_size: 0,
        mip_levels: 0,
        sample_count: 0,
        sample_quality: 0,
        temporal_layers: 0,
        id: local_index,
    }
}

/// The loop-begin marker a loop block emits: its finalized counts.
pub open spec fn spec_loop_begin_event(ctx: crate::instrument::BlockContext) -> SpecTraceEvent {
    SpecTraceEvent::Marker(
        MarkerEvent {
            kind: MarkerKind::LoopBegin,
            block_id: ctx.id,
            resource_count: ctx.resource_count,
            node_count: ctx.node_count,
            local_loop_index: ctx.local_loop_index,
            num_children: ctx.child_block_count,
            parent_id: ctx.parent_id,
        },
    )
}

/// What executing one instrumented expression appends to the trace, and the
/// handle of the resource it directly creates, if any. `base` is how many
/// creations the trace already holds: the model numbers each creation by
/// its position among creations.
pub open spec fn spec_exec_expr(e: SpecInstExpr, sched: Seq<u32>, ids: Seq<u32>, base: nat) -> (
    Seq<SpecTraceEvent>,
    Option<u32>,
)
    decreases e, 0nat, 0nat,
{
    match e {
        SpecInstExpr::NodeCall { name, local_index, args, .. } => {
            let d = spec_exec_exprs(args, sched, ids, base);
            (
                d.push(
                    SpecTraceEvent::NodeCall {
                        node_decl_id: ids[name as int],
                        num_args: args.len() as u32,
                        node_local_id: local_index,
                    },
                ),
                None,
            )
        },
        SpecInstExpr::Call { args, .. } => (spec_exec_exprs(args, sched, ids, base), None),
        SpecInstExpr::CreateResource { local_index, args } => {
            let d = spec_exec_exprs(args, sched, ids, base);
            (
                d.push(SpecTraceEvent::CreateResource(spec_creation_request(local_index))),
                Some(((base + abs_count_creations(d)) as u32)),
            )
        },
        SpecInstExpr::Named { name, value } => {
            let r = spec_exec_expr(*value, sched, ids, base);
            match r.1 {
                Some(h) => (
                    r.0.push(SpecTraceEvent::NameResource { resource_hdl: h, name }),
                    Some(h),
                ),
                None => r,
            }
        },
        SpecInstExpr::Assign { value, .. } => {
            (spec_exec_expr(*value, sched, ids, base).0, None)
        },
        SpecInstExpr::LoopBlock { ctx, body } => {
            let iters = spec_exec_loop_iters(
                body,
                sched,
                ids,
                base,
                ctx.id,
                sched[ctx.id as int] as nat,
            );
            (
                seq![spec_loop_begin_event(ctx)] + iters + seq![
                    SpecTraceEvent::Marker(
                        MarkerEvent::spec_block_only(MarkerKind::LoopEnd, ctx.id),
                    )
                ],
                None,
            )
        },
        SpecInstExpr::Atom => (Seq::empty(), None),
    }
}

/// What executing a list of expressions appends, left to right.
pub open spec fn spec_exec_exprs(
    es: Seq<SpecInstExpr>,
    sched: Seq<u32>,
    ids: Seq<u32>,
    base: nat,
) -> Seq<SpecTraceEvent>
    decreases es, 0nat, 0nat,
{
    if es.len() == 0 {
        Seq::empty()
    } else {
        let d = spec_exec_exprs(es.drop_last(), sched, ids, base);
        d + spec_exec_expr(es.last(), sched, ids, base + abs_count_creations(d)).0
    }
}

/// What executing one statement appends.
pub open spec fn spec_exec_stmt(s: SpecInstStmt, sched: Seq<u32>, ids: Seq<u32>, base: nat) -> Seq<
    SpecTraceEvent,
>
    decreases s, 0nat, 0nat,
{
    match s {
        SpecInstStmt::Local { init: Some(e), .. } => spec_exec_expr(e, sched, ids, base).0,
        SpecInstStmt::Local { init: None, .. } => Seq::empty(),
        SpecInstStmt::Expr(e) => spec_exec_expr(e, sched, ids, base).0,
    }
}

/// What executing a list of statements appends, left to right.
pub open spec fn spec_exec_stmts(
    ss: Seq<SpecInstStmt>,
    sched: Seq<u32>,
    ids: Seq<u32>,
    base: nat,
) -> Seq<SpecTraceEvent>
    decreases ss, 0nat, 0nat,
{
    if ss.len() == 0 {
        Seq::empty()
    } else {
        let d = spec_exec_stmts(ss.drop_last(), sched, ids, base);
        d + spec_exec_stmt(ss.last(), sched, ids, base + abs_count_creations(d))
    }
}

/// What `k` dynamic iterations of a loop body append: each iteration opens
/// with its loop-iteration marker and then runs the body once.
pub open spec fn spec_exec_loop_iters(
    body: Seq<SpecInstStmt>,
    sched: Seq<u32>,
    ids: Seq<u32>,
    base: nat,
    block_id: u32,
    k: nat,
) -> Seq<SpecTraceEvent>
    decreases body, k, 1nat,
{
    if k == 0 {
        Seq::empty()
    } else {
        let d = spec_exec_loop_iters(body, sched, ids, base, block_id, (k - 1) as nat);
        let iter = SpecTraceEvent::Marker(
            MarkerEvent::spec_block_only(MarkerKind::LoopIteration, block_id),
        );
        d + seq![iter] + spec_exec_stmts(body, sched, ids, base + abs_count_creations(d))
    }
}

/// Earlier iterations append a prefix of what later iterations append.
proof fn lemma_loop_iters_len_monotone(
    body: Seq<SpecInstStmt>,
    sched: Seq<u32>,
    ids: Seq<u32>,
    base: nat,
    block_id: u32,
    j: nat,
    k: nat,
)
    requires
        j <= k,
    ensures
        spec_exec_loop_iters(body, sched, ids, base, block_id, j).len()
            <= spec_exec_loop_iters(body, sched, ids, base, block_id, k).len(),
    decreases k,
{
    if j < k {
        lemma_loop_iters_len_monotone(body, sched, ids, base, block_id, j, (k - 1) as nat);
    }
}

/// Runs one instrumented expression against the trace.
pub fn execute_expr(e: &InstExpr, sched: &Vec<u32>, ids: &Vec<u32>, trace: &mut Trace) -> (created:
    Option<u32>)
    requires
        wf_inst_expr(e@, sched@.len(), ids@.len()),
        old(trace).events@.len() + spec_exec_expr(
            e@,
            sched@,
            ids@,
            count_creations(old(trace).events@),
        ).0.len() <= u32::MAX,
    ensures
        ({
            let r = spec_exec_expr(e@, sched@, ids@, count_creations(old(trace).events@));
            view_trace(final(trace).events@) == view_trace(old(trace).events@) + r.0 && created
                == r.1
        }),
    decreases *e, 0nat, 0nat,
{
    match e {
        InstExpr::NodeCall { external: _, name, local_index, args } => {
            let ghost base = count_creations(old(trace).events@);
            let ghost d_args = spec_exec_exprs(view_inst_exprs(args@), sched@, ids@, base);
            let ghost ev = SpecTraceEvent::NodeCall {
                node_decl_id: ids@[*name as int],
                num_args: args@.len() as u32,
                node_local_id: *local_index,
            };
            proof {
                assert(decreases_to!(*e => *args));
                assert(decreases_to!(*args => args@));
                lemma_view_inst_exprs_len(args@);
                assert(spec_exec_expr(e@, sched@, ids@, base).0 == d_args.push(ev));
            }
            execute_exprs(args, sched, ids, trace);
            proof {
                lemma_view_trace_len(trace.events@);
                lemma_view_trace_len(old(trace).events@);
                lemma_count_node_calls_le_len(trace.events@);
            }
            let decl_id = ids[*name as usize];
            let n = call_node(trace, decl_id, *local_index, args.len() as u32);
            proof {
                lemma_trace_push_facts();
                assert(view_trace(trace.events@) =~= view_trace(old(trace).events@)
                    + d_args.push(ev));
            }
            None
        },
        InstExpr::Call { args, .. } => {
            proof {
                assert(decreases_to!(*e => *args));
                assert(decreases_to!(*args => args@));
            }
            execute_exprs(args, sched, ids, trace);
            None
        },
        InstExpr::CreateResource { local_index, args } => {
            let ghost base = count_creations(old(trace).events@);
            let ghost d_args = spec_exec_exprs(view_inst_exprs(args@), sched@, ids@, base);
            proof {
                assert(decreases_to!(*e => *args));
                assert(decreases_to!(*args => args@));
                assert(spec_exec_expr(e@, sched@, ids@, base).0 == d_args.push(
                    SpecTraceEvent::CreateResource(spec_creation_request(*local_index)),
                ));
            }
            execute_exprs(args, sched, ids, trace);
            proof {
                lemma_count_creations_le_len(trace.events@);
                lemma_view_trace_len(trace.events@);
                lemma_view_trace_len(old(trace).events@);
                lemma_view_count_creations(trace.events@);
                lemma_view_count_creations(old(trace).events@);
                lemma_abs_count_creations_concat(view_trace(old(trace).events@), d_args);
            }
            let req = ResourceCreateRequest {
                res_type: ResourceType::UNKNOWN,
                flags: 0,
                format: RpsFormat::UNKNOWN,
                width: 0,
                height: 0,
                depth_or_array_size: 0,
                mip_levels: 0,
                sample_count: 0,
                sample_quality: 0,
                temporal_layers: 0,
                id: *local_index,
            };
            let h = trace.create_resource(req);
            proof {
                lemma_trace_push_facts();
                assert(view_trace(trace.events@) =~= view_trace(old(trace).events@)
                    + d_args.push(
                    SpecTraceEvent::CreateResource(spec_creation_request(*local_index)),
                ));
            }
            Some(h)
        },
        InstExpr::Named { name, value } => {
            proof {
                assert(decreases_to!(*e => *value));
            }
            let created = execute_expr(value, sched, ids, trace);
            match created {
                Some(h) => {
                    trace.name_resource(h, name.as_slice());
                    proof {
                        lemma_trace_push_facts();
                        assert(trace.events@ =~= trace.events@.drop_last().push(
                            trace.events@.last(),
                        ));
                        let base = count_creations(old(trace).events@);
                        let r = spec_exec_expr(
                            view_inst_expr(**value),
                            sched@,
                            ids@,
                            base,
                        );
                        assert(view_trace_event(trace.events@.last())
                            == SpecTraceEvent::NameResource { resource_hdl: h, name: name@ });
                        assert(view_trace(trace.events@) =~= view_trace(old(trace).events@)
                            + r.0.push(
                            SpecTraceEvent::NameResource { resource_hdl: h, name: name@ },
                        ));
                    }
                    Some(h)
                },
                None => None,
            }
        },
        InstExpr::Assign { value, .. } => {
            proof {
                assert(decreases_to!(*e => *value));
            }
            execute_expr(value, sched, ids, trace);
            None
        },
        InstExpr::LoopBlock { ctx, body } => {
            let ghost base = count_creations(old(trace).events@);
            let ghost iters = spec_exec_loop_iters(
                view_inst_stmts(body@),
                sched@,
                ids@,
                base,
                ctx.id,
                sched@[ctx.id as int] as nat,
            );
            let ghost end_ev = SpecTraceEvent::Marker(
                MarkerEvent::spec_block_only(MarkerKind::LoopEnd, ctx.id),
            );
            proof {
                assert(decreases_to!(*e => *body));
                assert(decreases_to!(*body => body@));
                assert(spec_exec_expr(e@, sched@, ids@, base).0 == seq![
                    spec_loop_begin_event(*ctx)
                ] + iters + seq![end_ev]);
            }
            let guard = LoopGuard::new(
                trace,
                ctx.id,
                ctx.resource_count,
                ctx.node_count,
                ctx.local_loop_index,
                ctx.child_block_count,
                ctx.parent_id,
            );
            proof {
                lemma_trace_push_facts();
                assert(view_trace(trace.events@) =~= view_trace(old(trace).events@) + seq![
                    spec_loop_begin_event(*ctx)
                ]);
                assert(count_creations(trace.events@) == base);
                assert(trace.events@.len() == old(trace).events@.len() + 1);
            }
            let k = sched[ctx.id as usize];
            execute_loop_iters(body, sched, ids, k, ctx.id, trace);
            proof {
                assert(view_trace(trace.events@) =~= view_trace(old(trace).events@) + seq![
                    spec_loop_begin_event(*ctx)
                ] + iters);
            }
            guard.finish(trace);
            proof {
                lemma_trace_push_facts();
                assert(view_trace(trace.events@) =~= view_trace(old(trace).events@) + (seq![
                    spec_loop_begin_event(*ctx)
                ] + iters + seq![end_ev]));
            }
            None
        },
        InstExpr::Atom => None,
    }
}

/// Runs a list of instrumented expressions, left to right.
pub fn execute_exprs(es: &Vec<InstExpr>, sched: &Vec<u32>, ids: &Vec<u32>, trace: &mut Trace)
    requires
        wf_inst_exprs(view_inst_exprs(es@), sched@.len(), ids@.len()),
        old(trace).events@.len() + spec_exec_exprs(
            view_inst_exprs(es@),
            sched@,
            ids@,
            count_creations(old(trace).events@),
        ).len() <= u32::MAX,
    ensures
        view_trace(final(trace).events@) == view_trace(old(trace).events@) + spec_exec_exprs(
            view_inst_exprs(es@),
            sched@,
            ids@,
            count_creations(old(trace).events@),
        ),
    decreases es@, 0nat, 0nat,
{
    let ghost base = count_creations(old(trace).events@);
    let ghost whole = spec_exec_exprs(view_inst_exprs(es@), sched@, ids@, base);
    let mut i: usize = 0;
    while i < es.len()
        invariant
            i <= es@.len(),
            wf_inst_exprs(view_inst_exprs(es@), sched@.len(), ids@.len()),
            base == count_creations(old(trace).events@),
            whole == spec_exec_exprs(view_inst_exprs(es@), sched@, ids@, base),
            old(trace).events@.len() + whole.len() <= u32::MAX,
            view_trace(trace.events@) == view_trace(old(trace).events@) + spec_exec_exprs(
                view_inst_exprs(es@.take(i as int)),
                sched@,
                ids@,
                base,
            ),
        decreases es@.len() - i,
    {
        proof {
            lemma_view_inst_exprs_prefix(es@, i as int);
            lemma_wf_exprs_prefix(view_inst_exprs(es@), sched@.len(), ids@.len(), i as int);
            lemma_exec_exprs_prefix(view_inst_exprs(es@), sched@, ids@, base, i as int);
            assert(view_inst_exprs(es@).take(i + 1 as int) =~= view_inst_exprs(es@).take(
                i as int,
            ).push(view_inst_exprs(es@)[i as int]));
            lemma_view_count_creations(trace.events@);
            lemma_view_count_creations(old(trace).events@);
            lemma_abs_count_creations_concat(
                view_trace(old(trace).events@),
                spec_exec_exprs(view_inst_exprs(es@.take(i as int)), sched@, ids@, base),
            );
            assert(count_creations(trace.events@) == base + abs_count_creations(
                spec_exec_exprs(view_inst_exprs(es@.take(i as int)), sched@, ids@, base),
            ));
            assert(decreases_to!(es@ => es@[i as int]));
        }
        execute_expr(&es[i], sched, ids, trace);
        proof {
            let d_i = spec_exec_exprs(view_inst_exprs(es@.take(i as int)), sched@, ids@, base);
            let elem = spec_exec_expr(
                view_inst_expr(es@[i as int]),
                sched@,
                ids@,
                base + abs_count_creations(d_i),
            ).0;
            assert(spec_exec_exprs(view_inst_exprs(es@.take(i + 1 as int)), sched@, ids@, base)
                == d_i + elem);
            assert(view_trace(trace.events@) =~= view_trace(old(trace).events@) + (d_i + elem));
        }
        i = i + 1;
    }
    proof {
        assert(es@.take(es@.len() as int) =~= es@);
    }
}

/// Runs one instrumented statement.
pub fn execute_stmt(s: &InstStmt, sched: &Vec<u32>, ids: &Vec<u32>, trace: &mut Trace)
    requires
        wf_inst_stmt(s@, sched@.len(), ids@.len()),
        old(trace).events@.len() + spec_exec_stmt(
            s@,
            sched@,
            ids@,
            count_creations(old(trace).events@),
        ).len() <= u32::MAX,
    ensures
        view_trace(final(trace).events@) == view_trace(old(trace).events@) + spec_exec_stmt(
            s@,
            sched@,
            ids@,
            count_creations(old(trace).events@),
        ),
    decreases *s, 0nat, 0nat,
{
    match s {
        InstStmt::Local { init, .. } => {
            match init {
                Some(e) => {
                    proof {
                        assert(decreases_to!(*s => *init));
                        assert(decreases_to!(*init => *e));
                    }
                    execute_expr(e, sched, ids, trace);
                },
                None => {
                    proof {
                        assert(view_trace(trace.events@) =~= view_trace(trace.events@)
                            + Seq::<SpecTraceEvent>::empty());
                    }
                },
            }
        },
        InstStmt::Expr(e) => {
            proof {
                assert(decreases_to!(*s => *e));
            }
            execute_expr(e, sched, ids, trace);
        },
    }
}

/// Runs a list of instrumented statements, left to right.
pub fn execute_stmts(ss: &Vec<InstStmt>, sched: &Vec<u32>, ids: &Vec<u32>, trace: &mut Trace)
    requires
        wf_inst_stmts(view_inst_stmts(ss@), sched@.len(), ids@.len()),
        old(trace).events@.len() + spec_exec_stmts(
            view_inst_stmts(ss@),
            sched@,
            ids@,
            count_creations(old(trace).events@),
        ).len() <= u32::MAX,
    ensures
        view_trace(final(trace).events@) == view_trace(old(trace).events@) + spec_exec_stmts(
            view_inst_stmts(ss@),
            sched@,
            ids@,
            count_creations(old(trace).events@),
        ),
    decreases ss@, 0nat, 0nat,
{
    let ghost base = count_creations(old(trace).events@);
    let ghost whole = spec_exec_stmts(view_inst_stmts(ss@), sched@, ids@, base);
    let mut i: usize = 0;
    while i < ss.len()
        invariant
            i <= ss@.len(),
            wf_inst_stmts(view_inst_stmts(ss@), sched@.len(), ids@.len()),
            base == count_creations(old(trace).events@),
            whole == spec_exec_stmts(view_inst_stmts(ss@), sched@, ids@, base),
            old(trace).events@.len() + whole.len() <= u32::MAX,
            view_trace(trace.events@) == view_trace(old(trace).events@) + spec_exec_stmts(
                view_inst_stmts(ss@.take(i as int)),
                sched@,
                ids@,
                base,
            ),
        decreases ss@.len() - i,
    {
        proof {
            lemma_view_inst_stmts_prefix(ss@, i as int);
            lemma_wf_stmts_prefix(view_inst_stmts(ss@), sched@.len(), ids@.len(), i as int);
            lemma_exec_stmts_prefix(view_inst_stmts(ss@), sched@, ids@, base, i as int);
            assert(view_inst_stmts(ss@).take(i + 1 as int) =~= view_inst_stmts(ss@).take(
                i as int,
            ).push(view_inst_stmts(ss@)[i as int]));
            lemma_view_count_creations(trace.events@);
            lemma_view_count_creations(old(trace).events@);
            lemma_abs_count_creations_concat(
                view_trace(old(trace).events@),
                spec_exec_stmts(view_inst_stmts(ss@.take(i as int)), sched@, ids@, base),
            );
            assert(count_creations(trace.events@) == base + abs_count_creations(
                spec_exec_stmts(view_inst_stmts(ss@.take(i as int)), sched@, ids@, base),
            ));
            assert(decreases_to!(ss@ => ss@[i as int]));
        }
        execute_stmt(&ss[i], sched, ids, trace);
        proof {
            let d_i = spec_exec_stmts(view_inst_stmts(ss@.take(i as int)), sched@, ids@, base);
            let elem = spec_exec_stmt(
                view_inst_stmt(ss@[i as int]),
                sched@,
                ids@,
                base + abs_count_creations(d_i),
            );
            assert(spec_exec_stmts(view_inst_stmts(ss@.take(i + 1 as int)), sched@, ids@, base)
                == d_i + elem);
            assert(view_trace(trace.events@) =~= view_trace(old(trace).events@) + (d_i + elem));
        }
        i = i + 1;
    }
    proof {
        assert(ss@.take(ss@.len() as int) =~= ss@);
    }
}

/// Runs `k` dynamic iterations of an instrumented loop body, each opened by
/// its loop-iteration marker.
pub fn execute_loop_iters(
    body: &Vec<InstStmt>,
    sched: &Vec<u32>,
    ids: &Vec<u32>,
    k: u32,
    block_id: u32,
    trace: &mut Trace,
)
    requires
        wf_inst_stmts(view_inst_stmts(body@), sched@.len(), ids@.len()),
        old(trace).events@.len() + spec_exec_loop_iters(
            view_inst_stmts(body@),
            sched@,
            ids@,
            count_creations(old(trace).events@),
            block_id,
            k as nat,
        ).len() <= u32::MAX,
    ensures
        view_trace(final(trace).events@) == view_trace(old(trace).events@)
            + spec_exec_loop_iters(
            view_inst_stmts(body@),
            sched@,
            ids@,
            count_creations(old(trace).events@),
            block_id,
            k as nat,
        ),
    decreases body@, k as nat, 1nat,
{
    let ghost base = count_creations(old(trace).events@);
    let ghost whole = spec_exec_loop_iters(
        view_inst_stmts(body@),
        sched@,
        ids@,
        base,
        block_id,
        k as nat,
    );
    let mut j: u32 = 0;
    while j < k
        invariant
            j <= k,
            wf_inst_stmts(view_inst_stmts(body@), sched@.len(), ids@.len()),
            base == count_creations(old(trace).events@),
            whole == spec_exec_loop_iters(
                view_inst_stmts(body@),
                sched@,
                ids@,
                base,
                block_id,
                k as nat,
            ),
            old(trace).events@.len() + whole.len() <= u32::MAX,
            view_trace(trace.events@) == view_trace(old(trace).events@) + spec_exec_loop_iters(
                view_inst_stmts(body@),
                sched@,
                ids@,
                base,
                block_id,
                j as nat,
            ),
        decreases k - j,
    {
        loop_iterate(trace, block_id, u32::MAX);
        proof {
            let d = spec_exec_loop_iters(
                view_inst_stmts(body@),
                sched@,
                ids@,
                base,
                block_id,
                j as nat,
            );
            let iter = SpecTraceEvent::Marker(
                MarkerEvent::spec_block_only(MarkerKind::LoopIteration, block_id),
            );
            let body_delta = spec_exec_stmts(
                view_inst_stmts(body@),
                sched@,
                ids@,
                base + abs_count_creations(d),
            );
            assert(spec_exec_loop_iters(
                view_inst_stmts(body@),
                sched@,
                ids@,
                base,
                block_id,
                (j + 1) as nat,
            ) == d + seq![iter] + body_delta);
            lemma_loop_iters_len_monotone(
                view_inst_stmts(body@),
                sched@,
                ids@,
                base,
                block_id,
                (j + 1) as nat,
                k as nat,
            );
            lemma_trace_push_facts();
            assert(view_trace(trace.events@) =~= view_trace(old(trace).events@) + (d + seq![
                iter
            ]));
            lemma_view_count_creations(trace.events@);
            lemma_view_count_creations(old(trace).events@);
            lemma_abs_count_creations_concat(view_trace(old(trace).events@), d + seq![iter]);
            lemma_abs_count_creations_concat(d, seq![iter]);
            assert(abs_count_creations(Seq::<SpecTraceEvent>::empty()) == 0);
            assert(seq![iter].drop_last() =~= Seq::<SpecTraceEvent>::empty());
            assert(abs_count_creations(seq![iter]) == 0);
            assert(count_creations(trace.events@) == base + abs_count_creations(d));
            assert(trace.events@.len() + body_delta.len() <= u32::MAX);
        }
        execute_stmts(body, sched, ids, trace);
        proof {
            let d = spec_exec_loop_iters(
                view_inst_stmts(body@),
                sched@,
                ids@,
                base,
                block_id,
                j as nat,
            );
            let iter = SpecTraceEvent::Marker(
                MarkerEvent::spec_block_only(MarkerKind::LoopIteration, block_id),
            );
            let body_delta = spec_exec_stmts(
                view_inst_stmts(body@),
                sched@,
                ids@,
                base + abs_count_creations(d),
            );
            assert(view_trace(trace.events@) =~= view_trace(old(trace).events@) + (d + seq![iter]
                + body_delta));
        }
        j = j + 1;
    }
}

/// What executing a whole instrumented entry appends: the root summary
/// first — a plain function-info marker at top level, or the loop-vocabulary
/// stand-in block when the procedure runs as a nested instrumented call —
/// then the body.
pub open spec fn spec_exec_entry(
    root: crate::instrument::BlockContext,
    body: Seq<SpecInstStmt>,
    sched: Seq<u32>,
    ids: Seq<u32>,
    call_ids: Option<CallIds>,
    base: nat,
) -> Seq<SpecTraceEvent> {
    let body_delta = spec_exec_stmts(body, sched, ids, base);
    match call_ids {
        None => seq![
            SpecTraceEvent::Marker(
                MarkerEvent {
                    kind: MarkerKind::FunctionInfo,
                    block_id: 0u32,
                    resource_count: root.resource_count,
                    node_count: root.node_count,
                    local_loop_index: NO_PARENT,
                    num_children: root.child_block_count,
                    parent_id: NO_PARENT,
                },
            )
        ] + body_delta,
        Some(ids_c) => seq![
            SpecTraceEvent::Marker(
                MarkerEvent {
                    kind: MarkerKind::LoopBegin,
                    block_id: ids_c.block_id,
                    resource_count: root.resource_count,
                    node_count: root.node_count,
                    local_loop_index: ids_c.local_index,
                    num_children: root.child_block_count,
                    parent_id: ids_c.parent_id,
                },
            ),
            SpecTraceEvent::Marker(
                MarkerEvent::spec_block_only(MarkerKind::LoopIteration, ids_c.block_id),
            ),
        ] + body_delta + seq![
            SpecTraceEvent::Marker(
                MarkerEvent::spec_block_only(MarkerKind::LoopEnd, ids_c.block_id),
            )
        ],
    }
}

/// Runs a whole instrumented entry procedure: emits its summary marker,
/// replays the body against the schedule, and closes the stand-in block
/// when the entry runs as a nested instrumented call.
pub fn execute_entry(
    entry: &InstrumentedEntry,
    sched: &Vec<u32>,
    ids: &Vec<u32>,
    ctx: &NestingContext,
    trace: &mut Trace,
)
    requires
        wf_inst_stmts(view_inst_stmts(entry.body@), sched@.len(), ids@.len()),
        old(trace).events@.len() + spec_exec_entry(
            entry.root,
            view_inst_stmts(entry.body@),
            sched@,
            ids@,
            ctx.call_ids,
            count_creations(old(trace).events@),
        ).len() <= u32::MAX,
    ensures
        view_trace(final(trace).events@) == view_trace(old(trace).events@) + spec_exec_entry(
            entry.root,
            view_inst_stmts(entry.body@),
            sched@,
            ids@,
            ctx.call_ids,
            count_creations(old(trace).events@),
        ),
{
    let ghost base = count_creations(old(trace).events@);
    let ghost body_delta = spec_exec_stmts(view_inst_stmts(entry.body@), sched@, ids@, base);
    let ghost opening: Seq<SpecTraceEvent> = match ctx.call_ids {
        None => seq![
            SpecTraceEvent::Marker(
                MarkerEvent {
                    kind: MarkerKind::FunctionInfo,
                    block_id: 0u32,
                    resource_count: entry.root.resource_count,
                    node_count: entry.root.node_count,
                    local_loop_index: NO_PARENT,
                    num_children: entry.root.child_block_count,
                    parent_id: NO_PARENT,
                },
            )
        ],
        Some(ids_c) => seq![
            SpecTraceEvent::Marker(
                MarkerEvent {
                    kind: MarkerKind::LoopBegin,
                    block_id: ids_c.block_id,
                    resource_count: entry.root.resource_count,
                    node_count: entry.root.node_count,
                    local_loop_index: ids_c.local_index,
                    num_children: entry.root.child_block_count,
                    parent_id: ids_c.parent_id,
                },
            ),
            SpecTraceEvent::Marker(
                MarkerEvent::spec_block_only(MarkerKind::LoopIteration, ids_c.block_id),
            ),
        ],
    };
    let guard = FunctionMarkerGuard::new(
        ctx,
        trace,
        entry.root.resource_count,
        entry.root.node_count,
        entry.root.child_block_count,
    );
    proof {
        lemma_trace_push_facts();
        if ctx.call_ids is Some {
            assert(view_trace(trace.events@) =~= view_trace(old(trace).events@) + opening);
            assert(count_creations(trace.events@) == base);
        } else {
            assert(view_trace(trace.events@) =~= view_trace(old(trace).events@) + opening);
            assert(count_creations(trace.events@) == base);
        }
    }
    execute_stmts(&entry.body, sched, ids, trace);
    proof {
        assert(view_trace(trace.events@) =~= view_trace(old(trace).events@) + opening
            + body_delta);
    }
    guard.finish(trace);
    proof {
        if ctx.call_ids is Some {
            let ids_c = ctx.call_ids->Some_0;
            let closing = SpecTraceEvent::Marker(
                MarkerEvent::spec_block_only(MarkerKind::LoopEnd, ids_c.block_id),
            );
            lemma_trace_push_facts();
            assert(view_trace(trace.events@) =~= view_trace(old(trace).events@) + (opening
                + body_delta + seq![closing]));
        } else {
            assert(view_trace(trace.events@) =~= view_trace(old(trace).events@) + (opening
                + body_delta));
        }
    }
}

/// The view of an expression-list prefix is the prefix of the views.
proof fn lemma_view_inst_exprs_prefix(es: Seq<InstExpr>, k: int)
    requires
        0 <= k < es.len(),
    ensures
        view_inst_exprs(es.take(k + 1)) == view_inst_exprs(es.take(k)).push(
            view_inst_expr(es[k]),
        ),
        view_inst_exprs(es.take(k)) == view_inst_exprs(es).take(k),
        view_inst_exprs(es).len() == es.len(),
        view_inst_exprs(es)[k] == view_inst_expr(es[k]),
    decreases es.len(),
{
    assert(es.take(k + 1).drop_last() =~= es.take(k));
    assert(es.take(k + 1).last() == es[k]);
    lemma_view_inst_exprs_len(es);
    lemma_view_inst_exprs_index(es, k);
    lemma_view_inst_exprs_take(es, k);
}

/// The view of a list has the list's length.
proof fn lemma_view_inst_exprs_len(es: Seq<InstExpr>)
    ensures
        view_inst_exprs(es).len() == es.len(),
    decreases es,
{
    if es.len() > 0 {
        lemma_view_inst_exprs_len(es.drop_last());
    }
}

/// The view of a list views each element.
proof fn lemma_view_inst_exprs_index(es: Seq<InstExpr>, k: int)
    requires
        0 <= k < es.len(),
    ensures
        view_inst_exprs(es)[k] == view_inst_expr(es[k]),
    decreases es,
{
    lemma_view_inst_exprs_len(es);
    if es.len() > 0 {
        if k < es.len() - 1 {
            lemma_view_inst_exprs_index(es.drop_last(), k);
            lemma_view_inst_exprs_len(es.drop_last());
        }
    }
}

/// The view of a prefix is the prefix of the view.
proof fn lemma_view_inst_exprs_take(es: Seq<InstExpr>, k: int)
    requires
        0 <= k <= es.len(),
    ensures
        view_inst_exprs(es.take(k)) == view_inst_exprs(es).take(k),
    decreases es.len() - k,
{
    lemma_view_inst_exprs_len(es);
    if k == es.len() {
        assert(es.take(k) =~= es);
        assert(view_inst_exprs(es).take(k) =~= view_inst_exprs(es));
    } else {
        lemma_view_inst_exprs_take(es, k + 1);
        assert(es.take(k + 1).drop_last() =~= es.take(k));
        lemma_view_inst_exprs_len(es.take(k + 1));
        assert(view_inst_exprs(es.take(k + 1)).drop_last() == view_inst_exprs(es.take(k)));
        assert(view_inst_exprs(es).take(k + 1).drop_last() =~= view_inst_exprs(es).take(k));
    }
}

/// See [`lemma_view_inst_exprs_prefix`].
proof fn lemma_view_inst_stmts_prefix(ss: Seq<InstStmt>, k: int)
    requires
        0 <= k < ss.len(),
    ensures
        view_inst_stmts(ss.take(k + 1)) == view_inst_stmts(ss.take(k)).push(
            view_inst_stmt(ss[k]),
        ),
        view_inst_stmts(ss.take(k)) == view_inst_stmts(ss).take(k),
        view_inst_stmts(ss).len() == ss.len(),
        view_inst_stmts(ss)[k] == view_inst_stmt(ss[k]),
    decreases ss.len(),
{
    assert(ss.take(k + 1).drop_last() =~= ss.take(k));
    assert(ss.take(k + 1).last() == ss[k]);
    lemma_view_inst_stmts_len(ss);
    lemma_view_inst_stmts_index(ss, k);
    lemma_view_inst_stmts_take(ss, k);
}

/// See [`lemma_view_inst_exprs_len`].
proof fn lemma_view_inst_stmts_len(ss: Seq<InstStmt>)
    ensures
        view_inst_stmts(ss).len() == ss.len(),
    decreases ss,
{
    if ss.len() > 0 {
        lemma_view_inst_stmts_len(ss.drop_last());
    }
}

/// See [`lemma_view_inst_exprs_index`].
proof fn lemma_view_inst_stmts_index(ss: Seq<InstStmt>, k: int)
    requires
        0 <= k < ss.len(),
    ensures
        view_inst_stmts(ss)[k] == view_inst_stmt(ss[k]),
    decreases ss,
{
    lemma_view_inst_stmts_len(ss);
    if ss.len() > 0 {
        if k < ss.len() - 1 {
            lemma_view_inst_stmts_index(ss.drop_last(), k);
            lemma_view_inst_stmts_len(ss.drop_last());
        }
    }
}

/// See [`lemma_view_inst_exprs_take`].
proof fn lemma_view_inst_stmts_take(ss: Seq<InstStmt>, k: int)
    requires
        0 <= k <= ss.len(),
    ensures
        view_inst_stmts(ss.take(k)) == view_inst_stmts(ss).take(k),
    decreases ss.len() - k,
{
    lemma_view_inst_stmts_len(ss);
    if k == ss.len() {
        assert(ss.take(k) =~= ss);
        assert(view_inst_stmts(ss).take(k) =~= view_inst_stmts(ss));
    } else {
        lemma_view_inst_stmts_take(ss, k + 1);
        assert(ss.take(k + 1).drop_last() =~= ss.take(k));
        lemma_view_inst_stmts_len(ss.take(k + 1));
        assert(view_inst_stmts(ss.take(k + 1)).drop_last() == view_inst_stmts(ss.take(k)));
        assert(view_inst_stmts(ss).take(k + 1).drop_last() =~= view_inst_stmts(ss).take(k));
    }
}

/// Well-formedness restricts to prefixes and elements.
proof fn lemma_wf_exprs_prefix(es: Seq<SpecInstExpr>, blocks: nat, names: nat, k: int)
    requires
        0 <= k < es.len(),
        wf_inst_exprs(es, blocks, names),
    ensures
        wf_inst_exprs(es.take(k), blocks, names),
        wf_inst_expr(es[k], blocks, names),
    decreases es.len(),
{
    if k == es.len() - 1 {
        assert(es.take(k) =~= es.drop_last());
    } else {
        assert(es.drop_last().take(k) =~= es.take(k));
        assert(es.drop_last()[k] == es[k]);
        lemma_wf_exprs_prefix(es.drop_last(), blocks, names, k);
    }
}

/// See [`lemma_wf_exprs_prefix`].
proof fn lemma_wf_stmts_prefix(ss: Seq<SpecInstStmt>, blocks: nat, names: nat, k: int)
    requires
        0 <= k < ss.len(),
        wf_inst_stmts(ss, blocks, names),
    ensures
        wf_inst_stmts(ss.take(k), blocks, names),
        wf_inst_stmt(ss[k], blocks, names),
    decreases ss.len(),
{
    if k == ss.len() - 1 {
        assert(ss.take(k) =~= ss.drop_last());
    } else {
        assert(ss.drop_last().take(k) =~= ss.take(k));
        assert(ss.drop_last()[k] == ss[k]);
        lemma_wf_stmts_prefix(ss.drop_last(), blocks, names, k);
    }
}

/// One more element appends that element's delta after the prefix's.
proof fn lemma_exec_exprs_prefix(
    es: Seq<SpecInstExpr>,
    sched: Seq<u32>,
    ids: Seq<u32>,
    base: nat,
    k: int,
)
    requires
        0 <= k < es.len(),
    ensures
        ({
            let d = spec_exec_exprs(es.take(k), sched, ids, base);
            spec_exec_exprs(es.take(k + 1), sched, ids, base) == d + spec_exec_expr(
                es[k],
                sched,
                ids,
                base + abs_count_creations(d),
            ).0
        }),
        spec_exec_exprs(es.take(k), sched, ids, base).len() <= spec_exec_exprs(
            es,
            sched,
            ids,
            base,
        ).len(),
        spec_exec_exprs(es.take(k + 1), sched, ids, base).len() <= spec_exec_exprs(
            es,
            sched,
            ids,
            base,
        ).len(),
    decreases es.len(),
{
    assert(es.take(k + 1).drop_last() =~= es.take(k));
    assert(es.take(k + 1).last() == es[k]);
    lemma_exec_exprs_take_le(es, sched, ids, base, k);
    lemma_exec_exprs_take_le(es, sched, ids, base, k + 1);
}

/// The delta of a prefix is never longer than the delta of the whole.
proof fn lemma_exec_exprs_take_le(
    es: Seq<SpecInstExpr>,
    sched: Seq<u32>,
    ids: Seq<u32>,
    base: nat,
    k: int,
)
    requires
        0 <= k <= es.len(),
    ensures
        spec_exec_exprs(es.take(k), sched, ids, base).len() <= spec_exec_exprs(
            es,
            sched,
            ids,
            base,
        ).len(),
    decreases es.len(),
{
    if k == es.len() {
        assert(es.take(k) =~= es);
    } else {
        assert(es.drop_last().take(k) =~= es.take(k));
        lemma_exec_exprs_take_le(es.drop_last(), sched, ids, base, k);
    }
}

/// See [`lemma_exec_exprs_prefix`].
proof fn lemma_exec_stmts_prefix(
    ss: Seq<SpecInstStmt>,
    sched: Seq<u32>,
    ids: Seq<u32>,
    base: nat,
    k: int,
)
    requires
        0 <= k < ss.len(),
    ensures
        ({
            let d = spec_exec_stmts(ss.take(k), sched, ids, base);
            spec_exec_stmts(ss.take(k + 1), sched, ids, base) == d + spec_exec_stmt(
                ss[k],
                sched,
                ids,
                base + abs_count_creations(d),
            )
        }),
        spec_exec_stmts(ss.take(k), sched, ids, base).len() <= spec_exec_stmts(
            ss,
            sched,
            ids,
            base,
        ).len(),
        spec_exec_stmts(ss.take(k + 1), sched, ids, base).len() <= spec_exec_stmts(
            ss,
            sched,
            ids,
            base,
        ).len(),
    decreases ss.len(),
{
    assert(ss.take(k + 1).drop_last() =~= ss.take(k));
    assert(ss.take(k + 1).last() == ss[k]);
    lemma_exec_stmts_take_le(ss, sched, ids, base, k);
    lemma_exec_stmts_take_le(ss, sched, ids, base, k + 1);
}

/// See [`lemma_exec_exprs_take_le`].
proof fn lemma_exec_stmts_take_le(
    ss: Seq<SpecInstStmt>,
    sched: Seq<u32>,
    ids: Seq<u32>,
    base: nat,
    k: int,
)
    requires
        0 <= k <= ss.len(),
    ensures
        spec_exec_stmts(ss.take(k), sched, ids, base).len() <= spec_exec_stmts(
            ss,
            sched,
            ids,
            base,
        ).len(),
    decreases ss.len(),
{
    if k == ss.len() {
        assert(ss.take(k) =~= ss);
    } else {
        assert(ss.drop_last().take(k) =~= ss.take(k));
        lemma_exec_stmts_take_le(ss.drop_last(), sched, ids, base, k);
    }
}


/// The event stream of `k` iterations of a loop whose body is exactly one
/// node call: one loop-iteration marker, then the call, per iteration.
pub open spec fn spec_single_call_iterations(block_id: u32, call_ev: SpecTraceEvent, k: nat) -> Seq<
    SpecTraceEvent,
>
    decreases k,
{
    if k == 0 {
        Seq::empty()
    } else {
        spec_single_call_iterations(block_id, call_ev, (k - 1) as nat) + seq![
            SpecTraceEvent::Marker(
                MarkerEvent::spec_block_only(MarkerKind::LoopIteration, block_id),
            ),
            call_ev,
        ]
    }
}

/// A loop body holding exactly one argument-free node call runs as one
/// loop-iteration marker followed by that call, per dynamic iteration, and
/// creates no resources.
proof fn lemma_single_call_loop_iters(
    body: Seq<SpecInstStmt>,
    external: bool,
    name: u32,
    local_index: u32,
    sched: Seq<u32>,
    ids: Seq<u32>,
    base: nat,
    block_id: u32,
    k: nat,
)
    requires
        body == seq![
            SpecInstStmt::Expr(
                SpecInstExpr::NodeCall {
                    external,
                    name,
                    local_index,
                    args: Seq::<SpecInstExpr>::empty(),
                },
            )
        ],
    ensures
        spec_exec_loop_iters(body, sched, ids, base, block_id, k) == spec_single_call_iterations(
            block_id,
            SpecTraceEvent::NodeCall {
                node_decl_id: ids[name as int],
                num_args: 0,
                node_local_id: local_index,
            },
            k,
        ),
        abs_count_creations(spec_exec_loop_iters(body, sched, ids, base, block_id, k)) == 0,
    decreases k,
{
    let call_ev = SpecTraceEvent::NodeCall {
        node_decl_id: ids[name as int],
        num_args: 0,
        node_local_id: local_index,
    };
    let iter_ev = SpecTraceEvent::Marker(
        MarkerEvent::spec_block_only(MarkerKind::LoopIteration, block_id),
    );
    if k == 0 {
        assert(abs_count_creations(Seq::<SpecTraceEvent>::empty()) == 0);
    } else {
        lemma_single_call_loop_iters(
            body,
            external,
            name,
            local_index,
            sched,
            ids,
            base,
            block_id,
            (k - 1) as nat,
        );
        let d = spec_exec_loop_iters(body, sched, ids, base, block_id, (k - 1) as nat);
        let inner_base = base + abs_count_creations(d);
        assert(body.drop_last() =~= Seq::<SpecInstStmt>::empty());
        assert(abs_count_creations(Seq::<SpecTraceEvent>::empty()) == 0);
        assert(spec_exec_stmts(Seq::<SpecInstStmt>::empty(), sched, ids, inner_base) =~= Seq::<
            SpecTraceEvent,
        >::empty());
        assert(spec_exec_exprs(Seq::<SpecInstExpr>::empty(), sched, ids, inner_base) =~= Seq::<
            SpecTraceEvent,
        >::empty());
        assert(spec_exec_stmts(body, sched, ids, inner_base) == Seq::<
            SpecTraceEvent,
        >::empty() + spec_exec_stmt(body.last(), sched, ids, inner_base));
        assert(spec_exec_stmt(body.last(), sched, ids, inner_base) =~= seq![call_ev]);
        assert(spec_exec_stmts(body, sched, ids, inner_base) =~= seq![call_ev]);
        assert(spec_exec_loop_iters(body, sched, ids, base, block_id, k) =~= d + seq![
            iter_ev,
            call_ev,
        ]);
        lemma_abs_count_creations_concat(d, seq![iter_ev, call_ev]);
        assert(seq![iter_ev, call_ev].drop_last() =~= seq![iter_ev]);
        assert(seq![iter_ev].drop_last() =~= Seq::<SpecTraceEvent>::empty());
        assert(abs_count_creations(seq![iter_ev]) == 0);
        assert(abs_count_creations(seq![iter_ev, call_ev]) == 0);
    }
}

/// The runtime protocol of a loop whose body holds exactly one node call:
/// the enclosing loop block reports `node_count == 1`, and executing it
/// emits one loop-begin marker, then — for every dynamic iteration — one
/// loop-iteration marker directly followed by the call, and one loop-end
/// marker after the last iteration, however many iterations the schedule
/// grants the loop.
pub proof fn lemma_single_call_loop_protocol(
    e: RgExpr,
    q: CallQualifier,
    nm: u32,
    declared: Seq<u32>,
    st: crate::instrument::PassState,
    sched: Seq<u32>,
    ids: Seq<u32>,
    base: nat,
)
    requires
        crate::instrument::has_budget(st, crate::ir::expr_weight(e)),
        e matches RgExpr::Loop { body } && body@.len() == 1 && (body@[0] matches RgStmt::Expr(
            RgExpr::Call { qualifier, name, args },
        ) && qualifier == q && name == nm && crate::instrument::spec_is_node_call(
            q,
            nm,
            declared,
        ) && args@.len() == 0),
    ensures
        ({
            let r = crate::instrument::spec_instrument_expr(e, declared, st);
            let k = sched[st.next_block_id as int] as nat;
            &&& r.0 matches SpecInstExpr::LoopBlock { ctx, body } && ctx.node_count == 1
                && ctx.id == st.next_block_id && spec_exec_expr(r.0, sched, ids, base).0 == seq![
                spec_loop_begin_event(ctx)
            ] + spec_single_call_iterations(
                ctx.id,
                SpecTraceEvent::NodeCall {
                    node_decl_id: ids[nm as int],
                    num_args: 0,
                    node_local_id: 0,
                },
                k,
            ) + seq![
                SpecTraceEvent::Marker(
                    MarkerEvent::spec_block_only(MarkerKind::LoopEnd, st.next_block_id),
                )
            ]
        }),
{
    let body = e->Loop_body;
    let child = crate::instrument::PassState {
        next_block_id: (st.next_block_id + 1) as u32,
        ctx: crate::instrument::BlockContext {
            id: st.next_block_id,
            resource_count: 0,
            node_count: 0,
            child_block_count: 0,
            local_loop_index: st.ctx.child_block_count,
            parent_id: st.ctx.id,
        },
        binding_creations: st.binding_creations,
    };
    crate::instrument::lemma_instrument_stmts_state(body@, declared, child);
    let rb = crate::instrument::spec_instrument_stmts(body@, declared, child);
    assert(body@.drop_last() =~= Seq::<RgStmt>::empty());
    let rs = crate::instrument::spec_instrument_stmt(body@[0], declared, child);
    assert(rb.0 == crate::instrument::spec_instrument_stmts(
        Seq::<RgStmt>::empty(),
        declared,
        child,
    ).0.push(rs.0));
    assert(rb.0 =~= seq![rs.0]);
    assert(rs.0 matches SpecInstStmt::Expr(SpecInstExpr::NodeCall {
        external,
        name,
        local_index,
        args,
    }) && name == nm && local_index == 0 && args.len() == 0);
    let inst_body = rb.0;
    assert(inst_body == seq![
        SpecInstStmt::Expr(
            SpecInstExpr::NodeCall {
                external: q is External,
                name: nm,
                local_index: 0,
                args: Seq::<SpecInstExpr>::empty(),
            },
        )
    ]) by {
        assert(inst_body =~= seq![rs.0]);
        assert(rs.0 == SpecInstStmt::Expr(
            SpecInstExpr::NodeCall {
                external: q is External,
                name: nm,
                local_index: 0,
                args: Seq::<SpecInstExpr>::empty(),
            },
        ));
    }
    let k = sched[st.next_block_id as int] as nat;
    lemma_single_call_loop_iters(
        inst_body,
        q is External,
        nm,
        0,
        sched,
        ids,
        base,
        st.next_block_id,
        k,
    );
}

/// Which loop-begin marker a loop block emits does not depend on the
/// schedule: any two iteration counts yield the same first event with the
/// same block id and parameters.
pub proof fn lemma_loop_begin_schedule_independent(
    ctx: crate::instrument::BlockContext,
    body: Seq<SpecInstStmt>,
    sched1: Seq<u32>,
    sched2: Seq<u32>,
    ids: Seq<u32>,
    base: nat,
)
    ensures
        ({
            let t1 = spec_exec_expr(SpecInstExpr::LoopBlock { ctx, body }, sched1, ids, base).0;
            let t2 = spec_exec_expr(SpecInstExpr::LoopBlock { ctx, body }, sched2, ids, base).0;
            t1.len() > 0 && t2.len() > 0 && t1[0] == t2[0] && t1[0] == spec_loop_begin_event(ctx)
        }),
{
}

/// Executing the same instrumented form against the same schedule and id
/// binding, starting from the same creation count, appends the same
/// events: execution is deterministic.
pub proof fn lemma_execution_deterministic(
    ss1: Seq<SpecInstStmt>,
    ss2: Seq<SpecInstStmt>,
    sched1: Seq<u32>,
    sched2: Seq<u32>,
    ids1: Seq<u32>,
    ids2: Seq<u32>,
    base1: nat,
    base2: nat,
)
    requires
        ss1 == ss2,
        sched1 == sched2,
        ids1 == ids2,
        base1 == base2,
    ensures
        spec_exec_stmts(ss1, sched1, ids1, base1) == spec_exec_stmts(ss2, sched2, ids2, base2),
{
}

} // verus!
