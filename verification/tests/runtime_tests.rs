use rps_rs::call_node;
use rps_rs::loop_iterate;
use rps_rs::rps_types::Buffer;
use rps_rs::rps_types::RESOURCE_FLAG_NONE;
use rps_rs::rpsl_runtime::MarkerEvent;
use rps_rs::rpsl_runtime::MarkerKind;
use rps_rs::rpsl_runtime::Trace;
use rps_rs::rpsl_runtime::TraceEvent;
use rps_rs::rpsl_runtime::NO_PARENT;
use rps_rs::support::NonResourceNamerTrait;
use rps_rs::support::ResourceNamer;
use rps_rs::support::ResourceNamerTrait;
use rps_rs::FunctionCallIdGuard;
use rps_rs::FunctionMarkerGuard;
use rps_rs::LoopGuard;
use rps_rs::NestingContext;

#[test]
fn marker_kinds_use_the_wire_codes() {
    assert_eq!(MarkerKind::FunctionInfo.code(), 0);
    assert_eq!(MarkerKind::LoopBegin.code(), 1);
    assert_eq!(MarkerKind::LoopIteration.code(), 2);
    assert_eq!(MarkerKind::LoopEnd.code(), 3);
    assert_eq!(NO_PARENT, u32::MAX);
}

#[test]
fn node_calls_are_numbered_monotonically() {
    let mut trace = Trace::new();
    let first = call_node(&mut trace, 5, 0, 2);
    let second = call_node(&mut trace, 6, 1, 0);
    assert_eq!(first.id, 0);
    assert_eq!(second.id, 1);
    match &trace.events[0] {
        TraceEvent::NodeCall {
            node_decl_id,
            num_args,
            node_local_id,
        } => {
            assert_eq!(*node_decl_id, 5);
            assert_eq!(*num_args, 2);
            assert_eq!(*node_local_id, 0);
        }
        other => panic!("expected a node call, got {:?}", other),
    }
}

#[test]
fn markers_do_not_advance_call_numbering() {
    let mut trace = Trace::new();
    loop_iterate(&mut trace, 3, u32::MAX);
    let call = call_node(&mut trace, 0, 0, 0);
    assert_eq!(call.id, 0);
}

#[test]
fn loop_guard_brackets_its_block() {
    let mut trace = Trace::new();
    let guard = LoopGuard::new(&mut trace, 2, 1, 3, 0, 0, 0);
    loop_iterate(&mut trace, 2, u32::MAX);
    guard.finish(&mut trace);
    let kinds: Vec<(MarkerKind, u32)> = trace
        .events
        .iter()
        .map(|ev| match ev {
            TraceEvent::Marker(m) => (m.kind, m.block_id),
            other => panic!("expected only markers, got {:?}", other),
        })
        .collect();
    assert_eq!(
        kinds,
        vec![
            (MarkerKind::LoopBegin, 2),
            (MarkerKind::LoopIteration, 2),
            (MarkerKind::LoopEnd, 2),
        ]
    );
    match &trace.events[0] {
        TraceEvent::Marker(m) => {
            assert_eq!(m.resource_count, 1);
            assert_eq!(m.node_count, 3);
            assert_eq!(m.parent_id, 0);
        }
        _ => unreachable!(),
    }
}

#[test]
fn top_level_function_marker_is_function_info() {
    let ctx = NestingContext::new();
    let mut trace = Trace::new();
    let guard = FunctionMarkerGuard::new(&ctx, &mut trace, 2, 5, 1);
    guard.finish(&mut trace);
    assert_eq!(trace.events.len(), 1);
    match &trace.events[0] {
        TraceEvent::Marker(m) => {
            assert_eq!(m.kind, MarkerKind::FunctionInfo);
            assert_eq!(m.block_id, 0);
            assert_eq!(m.resource_count, 2);
            assert_eq!(m.node_count, 5);
            assert_eq!(m.num_children, 1);
            assert_eq!(m.parent_id, NO_PARENT);
            assert_eq!(m.local_loop_index, NO_PARENT);
        }
        other => panic!("expected a marker, got {:?}", other),
    }
}

#[test]
fn nested_function_marker_mimics_a_single_iteration_loop() {
    let mut ctx = NestingContext::new();
    let call_guard = FunctionCallIdGuard::new(&mut ctx, 1, 4, 0);
    let mut trace = Trace::new();
    let guard = FunctionMarkerGuard::new(&ctx, &mut trace, 0, 1, 0);
    guard.finish(&mut trace);
    call_guard.restore(&mut ctx);
    assert!(ctx.call_ids.is_none());

    let kinds: Vec<MarkerKind> = trace
        .events
        .iter()
        .map(|ev| match ev {
            TraceEvent::Marker(m) => m.kind,
            other => panic!("expected only markers, got {:?}", other),
        })
        .collect();
    assert_eq!(
        kinds,
        vec![
            MarkerKind::LoopBegin,
            MarkerKind::LoopIteration,
            MarkerKind::LoopEnd,
        ]
    );
    match &trace.events[0] {
        TraceEvent::Marker(m) => {
            assert_eq!(m.block_id, 4);
            assert_eq!(m.parent_id, 1);
            assert_eq!(m.local_loop_index, 0);
        }
        _ => unreachable!(),
    }
}

#[test]
fn call_id_guards_nest() {
    let mut ctx = NestingContext::new();
    let outer = FunctionCallIdGuard::new(&mut ctx, 0, 1, 0);
    let outer_ids = ctx.call_ids.unwrap();
    let inner = FunctionCallIdGuard::new(&mut ctx, 1, 2, 3);
    let inner_ids = ctx.call_ids.unwrap();
    assert_eq!(inner_ids.parent_id, 1);
    assert_eq!(inner_ids.block_id, 2);
    assert_eq!(inner_ids.local_index, 3);
    inner.restore(&mut ctx);
    assert_eq!(ctx.call_ids.unwrap(), outer_ids);
    outer.restore(&mut ctx);
    assert!(ctx.call_ids.is_none());
}

#[test]
fn block_only_markers_zero_the_unused_parameters() {
    let ev = MarkerEvent::block_only(MarkerKind::LoopEnd, 9);
    assert_eq!(ev.block_id, 9);
    assert_eq!(ev.resource_count, 0);
    assert_eq!(ev.node_count, 0);
    assert_eq!(ev.num_children, 0);
    assert_eq!(ev.parent_id, NO_PARENT);
}

#[test]
fn resource_namer_records_the_name() {
    let mut trace = Trace::new();
    let buf = Buffer::new(&mut trace, 8, 1, RESOURCE_FLAG_NONE, 0);
    let namer = ResourceNamer(buf);
    ResourceNamerTrait::set_name(&namer, &mut trace, b"depth");
    match &trace.events[1] {
        TraceEvent::NameResource { resource_hdl, name } => {
            assert_eq!(*resource_hdl, buf.id());
            assert_eq!(name, b"depth");
        }
        other => panic!("expected a naming event, got {:?}", other),
    }
}

#[test]
fn non_resource_namer_is_a_no_op() {
    let mut trace = Trace::new();
    let namer = ResourceNamer(17u32);
    NonResourceNamerTrait::set_name(&namer, &mut trace, b"ignored");
    assert!(trace.events.is_empty());
}
