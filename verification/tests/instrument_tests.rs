use rps_rs::execute::execute_entry;
use rps_rs::execute::execute_expr;
use rps_rs::instrument::instrument_entry;
use rps_rs::instrument::InstExpr;
use rps_rs::instrument::InstStmt;
use rps_rs::instrument::ROOT_BLOCK_ID;
use rps_rs::ir::CallQualifier;
use rps_rs::ir::RgExpr;
use rps_rs::ir::RgStmt;
use rps_rs::rpsl_runtime::MarkerKind;
use rps_rs::rpsl_runtime::Trace;
use rps_rs::rpsl_runtime::TraceEvent;
use rps_rs::rpsl_runtime::NO_PARENT;
use rps_rs::NestingContext;

fn node_call(name: u32) -> RgStmt {
    RgStmt::Expr(RgExpr::Call {
        qualifier: CallQualifier::Unqualified,
        name,
        args: vec![],
    })
}

fn marker(ev: &TraceEvent) -> (MarkerKind, u32) {
    match ev {
        TraceEvent::Marker(m) => (m.kind, m.block_id),
        other => panic!("expected a marker, got {:?}", other),
    }
}

#[test]
fn top_level_call_indices_are_consecutive() {
    let body = vec![node_call(0), node_call(1), node_call(0)];
    let declared = vec![0, 1];
    let entry = instrument_entry(&body, &declared);
    assert_eq!(entry.root.node_count, 3);
    assert_eq!(entry.root.id, ROOT_BLOCK_ID);
    assert_eq!(entry.root.parent_id, NO_PARENT);
    for (i, stmt) in entry.body.iter().enumerate() {
        match stmt {
            InstStmt::Expr(InstExpr::NodeCall {
                local_index,
                external,
                ..
            }) => {
                assert_eq!(*local_index, i as u32);
                assert!(!external);
            }
            other => panic!("expected a node call, got {:?}", other),
        }
    }
}

#[test]
fn non_node_calls_are_left_untouched() {
    let body = vec![node_call(7)];
    let declared = vec![0, 1];
    let entry = instrument_entry(&body, &declared);
    assert_eq!(entry.root.node_count, 0);
    match &entry.body[0] {
        InstStmt::Expr(InstExpr::Call { name, .. }) => assert_eq!(*name, 7),
        other => panic!("expected a plain call, got {:?}", other),
    }
}

#[test]
fn external_calls_count_as_node_calls() {
    let body = vec![RgStmt::Expr(RgExpr::Call {
        qualifier: CallQualifier::External,
        name: 9,
        args: vec![],
    })];
    let declared = vec![0];
    let entry = instrument_entry(&body, &declared);
    assert_eq!(entry.root.node_count, 1);
    match &entry.body[0] {
        InstStmt::Expr(InstExpr::NodeCall { external, name, .. }) => {
            assert!(*external);
            assert_eq!(*name, 9);
        }
        other => panic!("expected an external node call, got {:?}", other),
    }
}

#[test]
fn block_ids_follow_source_order_of_first_encounter() {
    // Two sibling loops; the first one holds a nested loop.
    let inner = RgStmt::Expr(RgExpr::Loop { body: vec![] });
    let first = RgStmt::Expr(RgExpr::Loop {
        body: vec![inner],
    });
    let second = RgStmt::Expr(RgExpr::Loop { body: vec![] });
    let body = vec![first, second];
    let declared = vec![];
    let entry = instrument_entry(&body, &declared);
    assert_eq!(entry.num_blocks, 4);
    assert_eq!(entry.root.child_block_count, 2);
    match (&entry.body[0], &entry.body[1]) {
        (
            InstStmt::Expr(InstExpr::LoopBlock {
                ctx: first_ctx,
                body: first_body,
            }),
            InstStmt::Expr(InstExpr::LoopBlock { ctx: second_ctx, .. }),
        ) => {
            assert_eq!(first_ctx.id, 1);
            assert_eq!(first_ctx.local_loop_index, 0);
            assert_eq!(first_ctx.parent_id, ROOT_BLOCK_ID);
            assert_eq!(first_ctx.child_block_count, 1);
            match &first_body[0] {
                InstStmt::Expr(InstExpr::LoopBlock { ctx: inner_ctx, .. }) => {
                    assert_eq!(inner_ctx.id, 2);
                    assert_eq!(inner_ctx.parent_id, 1);
                    assert_eq!(inner_ctx.local_loop_index, 0);
                }
                other => panic!("expected the nested loop, got {:?}", other),
            }
            assert_eq!(second_ctx.id, 3);
            assert_eq!(second_ctx.local_loop_index, 1);
            assert_eq!(second_ctx.parent_id, ROOT_BLOCK_ID);
        }
        other => panic!("expected two loop blocks, got {:?}", other),
    }
}

#[test]
fn resource_counts_are_attributed_per_block() {
    // One creation in the procedure body, one inside a loop: each is counted
    // by its own block only.
    let in_loop = RgStmt::Expr(RgExpr::CreateResource { args: vec![] });
    let body = vec![
        RgStmt::Expr(RgExpr::CreateResource { args: vec![] }),
        RgStmt::Expr(RgExpr::Loop {
            body: vec![in_loop],
        }),
    ];
    let declared = vec![];
    let entry = instrument_entry(&body, &declared);
    assert_eq!(entry.root.resource_count, 1);
    match &entry.body[1] {
        InstStmt::Expr(InstExpr::LoopBlock { ctx, body }) => {
            assert_eq!(ctx.resource_count, 1);
            match &body[0] {
                InstStmt::Expr(InstExpr::CreateResource { local_index, .. }) => {
                    assert_eq!(*local_index, 0)
                }
                other => panic!("expected a creation, got {:?}", other),
            }
        }
        other => panic!("expected a loop block, got {:?}", other),
    }
}

#[test]
fn creation_in_call_argument_counts_for_enclosing_block() {
    let call_with_creation = RgStmt::Expr(RgExpr::Call {
        qualifier: CallQualifier::Unqualified,
        name: 0,
        args: vec![RgExpr::CreateResource { args: vec![] }],
    });
    let declared = vec![0];
    let entry = instrument_entry(&vec![call_with_creation], &declared);
    assert_eq!(entry.root.resource_count, 1);
    assert_eq!(entry.root.node_count, 1);
}

#[test]
fn binding_with_single_creation_is_named() {
    let body = vec![RgStmt::Local {
        name: b"color_buffer".to_vec(),
        init: Some(RgExpr::CreateResource { args: vec![] }),
    }];
    let declared = vec![];
    let entry = instrument_entry(&body, &declared);
    match &entry.body[0] {
        InstStmt::Local {
            name,
            init: Some(InstExpr::Named { name: tag, value }),
        } => {
            assert_eq!(name, b"color_buffer");
            assert_eq!(tag, b"color_buffer");
            assert!(matches!(**value, InstExpr::CreateResource { .. }));
        }
        other => panic!("expected a named creation, got {:?}", other),
    }
}

#[test]
fn binding_without_creation_is_not_named() {
    let body = vec![RgStmt::Local {
        name: b"plain".to_vec(),
        init: Some(RgExpr::Atom),
    }];
    let declared = vec![];
    let entry = instrument_entry(&body, &declared);
    match &entry.body[0] {
        InstStmt::Local {
            init: Some(InstExpr::Atom),
            ..
        } => {}
        other => panic!("expected an untouched initializer, got {:?}", other),
    }
}

#[test]
fn binding_with_two_creations_is_not_named() {
    let body = vec![RgStmt::Local {
        name: b"pair".to_vec(),
        init: Some(RgExpr::CreateResource {
            args: vec![RgExpr::CreateResource { args: vec![] }],
        }),
    }];
    let declared = vec![];
    let entry = instrument_entry(&body, &declared);
    match &entry.body[0] {
        InstStmt::Local {
            init: Some(InstExpr::CreateResource { .. }),
            ..
        } => {}
        other => panic!("expected an unnamed initializer, got {:?}", other),
    }
}

#[test]
fn single_call_loop_emits_the_documented_protocol() {
    let body = vec![RgStmt::Expr(RgExpr::Loop {
        body: vec![node_call(0)],
    })];
    let declared = vec![0];
    let entry = instrument_entry(&body, &declared);
    match &entry.body[0] {
        InstStmt::Expr(InstExpr::LoopBlock { ctx, .. }) => assert_eq!(ctx.node_count, 1),
        other => panic!("expected a loop block, got {:?}", other),
    }

    // Schedule: the loop (block id 1) runs three times.
    let sched = vec![0, 3];
    let ids = vec![42];
    let mut trace = Trace::new();
    let ctx = NestingContext::new();
    execute_entry(&entry, &sched, &ids, &ctx, &mut trace);

    assert_eq!(trace.events.len(), 1 + 1 + 3 * 2 + 1);
    assert_eq!(
        marker(&trace.events[0]),
        (MarkerKind::FunctionInfo, ROOT_BLOCK_ID)
    );
    assert_eq!(marker(&trace.events[1]), (MarkerKind::LoopBegin, 1));
    match &trace.events[1] {
        TraceEvent::Marker(m) => {
            assert_eq!(m.node_count, 1);
            assert_eq!(m.resource_count, 0);
            assert_eq!(m.parent_id, ROOT_BLOCK_ID);
        }
        _ => unreachable!(),
    }
    for i in 0..3 {
        assert_eq!(
            marker(&trace.events[2 + 2 * i]),
            (MarkerKind::LoopIteration, 1)
        );
        match &trace.events[3 + 2 * i] {
            TraceEvent::NodeCall {
                node_decl_id,
                num_args,
                node_local_id,
            } => {
                assert_eq!(*node_decl_id, 42);
                assert_eq!(*num_args, 0);
                assert_eq!(*node_local_id, 0);
            }
            other => panic!("expected the node call, got {:?}", other),
        }
    }
    assert_eq!(marker(&trace.events[8]), (MarkerKind::LoopEnd, 1));
}

#[test]
fn loop_begin_parameters_do_not_depend_on_iteration_count() {
    let body = vec![RgStmt::Expr(RgExpr::Loop {
        body: vec![node_call(0)],
    })];
    let declared = vec![0];
    let entry_once = instrument_entry(&body, &declared);
    let entry_many = instrument_entry(&body, &declared);
    assert_eq!(entry_once, entry_many);

    let ids = vec![0];
    let mut trace_once = Trace::new();
    let mut trace_many = Trace::new();
    execute_entry(
        &entry_once,
        &vec![0, 1],
        &ids,
        &NestingContext::new(),
        &mut trace_once,
    );
    execute_entry(
        &entry_many,
        &vec![0, 5],
        &ids,
        &NestingContext::new(),
        &mut trace_many,
    );
    // The loop-begin marker (and everything before it) is identical.
    assert_eq!(trace_once.events[0], trace_many.events[0]);
    assert_eq!(trace_once.events[1], trace_many.events[1]);
}

#[test]
fn rerunning_the_pipeline_is_byte_identical() {
    let body = vec![
        RgStmt::Local {
            name: b"t".to_vec(),
            init: Some(RgExpr::CreateResource { args: vec![] }),
        },
        RgStmt::Expr(RgExpr::Loop {
            body: vec![node_call(1), node_call(0)],
        }),
        node_call(0),
    ];
    let declared = vec![0, 1];
    let first = instrument_entry(&body, &declared);
    let second = instrument_entry(&body, &declared);
    assert_eq!(first, second);

    let sched = vec![0, 2];
    let ids = vec![10, 11];
    let mut trace_a = Trace::new();
    let mut trace_b = Trace::new();
    execute_entry(&first, &sched, &ids, &NestingContext::new(), &mut trace_a);
    execute_entry(&second, &sched, &ids, &NestingContext::new(), &mut trace_b);
    assert_eq!(trace_a.events, trace_b.events);
}

#[test]
fn named_creation_executes_into_a_naming_event() {
    let body = vec![RgStmt::Local {
        name: b"shadow_map".to_vec(),
        init: Some(RgExpr::CreateResource { args: vec![] }),
    }];
    let declared = vec![];
    let entry = instrument_entry(&body, &declared);
    let mut trace = Trace::new();
    execute_entry(
        &entry,
        &vec![0],
        &vec![],
        &NestingContext::new(),
        &mut trace,
    );
    assert_eq!(trace.events.len(), 3);
    match &trace.events[1] {
        TraceEvent::CreateResource(req) => assert_eq!(req.id, 0),
        other => panic!("expected the creation, got {:?}", other),
    }
    match &trace.events[2] {
        TraceEvent::NameResource { resource_hdl, name } => {
            assert_eq!(*resource_hdl, 0);
            assert_eq!(name, b"shadow_map");
        }
        other => panic!("expected the naming event, got {:?}", other),
    }
}

#[test]
fn nested_entry_uses_the_loop_vocabulary() {
    let body = vec![node_call(0)];
    let declared = vec![0];
    let entry = instrument_entry(&body, &declared);
    let mut trace = Trace::new();
    let mut ctx = NestingContext::new();
    let guard = rps_rs::FunctionCallIdGuard::new(&mut ctx, 0, 7, 2);
    execute_entry(&entry, &vec![0], &vec![5], &ctx, &mut trace);
    guard.restore(&mut ctx);
    assert!(ctx.call_ids.is_none());

    assert_eq!(marker(&trace.events[0]), (MarkerKind::LoopBegin, 7));
    match &trace.events[0] {
        TraceEvent::Marker(m) => {
            assert_eq!(m.local_loop_index, 2);
            assert_eq!(m.parent_id, 0);
            assert_eq!(m.node_count, 1);
        }
        _ => unreachable!(),
    }
    assert_eq!(marker(&trace.events[1]), (MarkerKind::LoopIteration, 7));
    assert!(matches!(trace.events[2], TraceEvent::NodeCall { .. }));
    assert_eq!(marker(&trace.events[3]), (MarkerKind::LoopEnd, 7));
}

#[test]
fn execute_expr_reports_created_resource_handle() {
    let creation = InstExpr::CreateResource {
        local_index: 4,
        args: vec![],
    };
    let mut trace = Trace::new();
    let created = execute_expr(&creation, &vec![], &vec![], &mut trace);
    assert_eq!(created, Some(0));
    match &trace.events[0] {
        TraceEvent::CreateResource(req) => assert_eq!(req.id, 4),
        other => panic!("expected the creation, got {:?}", other),
    }
}

#[test]
fn loop_never_entered_still_brackets_its_block() {
    let body = vec![RgStmt::Expr(RgExpr::Loop {
        body: vec![node_call(0)],
    })];
    let declared = vec![0];
    let entry = instrument_entry(&body, &declared);
    let mut trace = Trace::new();
    execute_entry(
        &entry,
        &vec![0, 0],
        &vec![0],
        &NestingContext::new(),
        &mut trace,
    );
    assert_eq!(trace.events.len(), 3);
    assert_eq!(
        marker(&trace.events[0]),
        (MarkerKind::FunctionInfo, ROOT_BLOCK_ID)
    );
    assert_eq!(marker(&trace.events[1]), (MarkerKind::LoopBegin, 1));
    assert_eq!(marker(&trace.events[2]), (MarkerKind::LoopEnd, 1));
}

#[test]
fn empty_procedure_reports_zero_counts() {
    let entry = instrument_entry(&vec![], &vec![]);
    assert_eq!(entry.root.node_count, 0);
    assert_eq!(entry.root.resource_count, 0);
    assert_eq!(entry.root.child_block_count, 0);
    assert_eq!(entry.num_blocks, 1);
}
