use rps_rs::access::CRpsParamAttr;
use rps_rs::access::PARAMETER_FLAG_NONE;
use rps_rs::access::PARAMETER_FLAG_RESOURCE_BIT;
use rps_rs::registry::bind_entry_node_decls;
use rps_rs::registry::entry_param_resource_offsets;
use rps_rs::registry::entry_registration_name;
use rps_rs::registry::init_node_ids;
use rps_rs::registry::EntryDeclaration;
use rps_rs::registry::GlobalNodeIdBindingTable;
use rps_rs::registry::NodeDeclaration;
use rps_rs::registry::ParameterDescriptor;
use rps_rs::rpsl_runtime::CRpsTypeInfo;
use rps_rs::Error;

fn decl(name: &str) -> NodeDeclaration {
    NodeDeclaration {
        flags: 0,
        params: vec![],
        name: String::from(name),
    }
}

fn param(flags: u32, array_size: u32) -> ParameterDescriptor {
    ParameterDescriptor {
        type_info: CRpsTypeInfo { size: 4, id: 0 },
        array_size,
        attr: CRpsParamAttr::const_default(),
        name: String::from("p"),
        flags,
    }
}

#[test]
fn binding_assigns_ids_in_registration_order() {
    let decls = vec![decl("clear"), decl("draw"), decl("resolve")];
    let table = GlobalNodeIdBindingTable::bind(&decls).unwrap();
    assert_eq!(table.lookup("clear"), Some(0));
    assert_eq!(table.lookup("draw"), Some(1));
    assert_eq!(table.lookup("resolve"), Some(2));
    assert_eq!(table.lookup("absent"), None);
}

#[test]
fn rebinding_a_name_is_a_fatal_conflict() {
    let decls = vec![decl("clear"), decl("draw"), decl("clear")];
    assert_eq!(
        GlobalNodeIdBindingTable::bind(&decls),
        Err(Error::NodeIdConflict)
    );
}

#[test]
fn init_node_ids_resolves_call_sites() {
    let decls = vec![decl("clear"), decl("draw")];
    let sites = vec![
        String::from("draw"),
        String::from("clear"),
        String::from("draw"),
    ];
    let (table, resolved) = init_node_ids(&decls, &sites).unwrap();
    assert_eq!(resolved, vec![1, 0, 1]);
    assert_eq!(table.lookup("draw"), Some(1));
}

#[test]
fn init_node_ids_rejects_duplicate_declarations() {
    let decls = vec![decl("draw"), decl("draw")];
    let sites = vec![String::from("draw")];
    assert_eq!(init_node_ids(&decls, &sites), Err(Error::NodeIdConflict));
}

#[test]
fn init_node_ids_rejects_unknown_call_sites() {
    let decls = vec![decl("draw")];
    let sites = vec![String::from("missing")];
    assert_eq!(init_node_ids(&decls, &sites), Err(Error::InvalidArgs));
}

#[test]
fn resource_offsets_skip_plain_parameters() {
    let params = vec![
        param(PARAMETER_FLAG_RESOURCE_BIT, 0),
        param(PARAMETER_FLAG_NONE, 0),
        param(PARAMETER_FLAG_RESOURCE_BIT, 3),
        param(PARAMETER_FLAG_RESOURCE_BIT, 0),
        param(PARAMETER_FLAG_NONE, 2),
    ];
    let offsets = entry_param_resource_offsets(&params);
    assert_eq!(offsets, vec![0, 1, 1, 4, 5]);
}

#[test]
fn resource_offsets_of_no_parameters() {
    let offsets = entry_param_resource_offsets(&vec![]);
    assert!(offsets.is_empty());
}

#[test]
fn registration_names_follow_the_convention() {
    let name = entry_registration_name("hello_triangle", "main");
    assert_eq!(name, "rpsl_M_hello_triangle_E_main");
}

#[test]
fn binding_entries_records_the_declaration_count() {
    let entries = vec![
        EntryDeclaration {
            name: String::from("main"),
            params: vec![param(PARAMETER_FLAG_NONE, 0)],
            node_decl_count: 0,
        },
        EntryDeclaration {
            name: String::from("shadow"),
            params: vec![],
            node_decl_count: 0,
        },
    ];
    let bound = bind_entry_node_decls(entries, 12);
    assert_eq!(bound.len(), 2);
    assert_eq!(bound[0].name, "main");
    assert_eq!(bound[0].node_decl_count, 12);
    assert_eq!(bound[1].name, "shadow");
    assert_eq!(bound[1].node_decl_count, 12);
}
