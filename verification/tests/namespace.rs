use module_host::compose::check_module;
use module_host::prefix_check::{
    check, check_definitions, is_root, is_scaffolding, normalized, owned_by, ComposeError, SdlType,
};

#[test]
fn normalizing_lowercases_and_drops_underscores() {
    assert_eq!(normalized("Documents_Insert_Input"), "documentsinsertinput");
    assert_eq!(normalized("task_runs"), "taskruns");
    assert_eq!(normalized(""), "");
}

#[test]
fn prefixed_names_are_owned_in_every_case_convention() {
    assert!(owned_by("documents", "DocumentsInsertInput"));
    assert!(owned_by("documents", "documentsCreateOne"));
    assert!(owned_by("task_runs", "TaskRunsFilterInput"));
    assert!(owned_by("task_runs", "taskRunsCreateOne"));
    assert!(owned_by("documents", "documents"));
}

#[test]
fn unprefixed_names_are_not_owned() {
    assert!(!owned_by("inventory", "Widgets"));
    assert!(!owned_by("inventory", "widgetsCreateOne"));
    assert!(!owned_by("documents", "Docs"));
}

#[test]
fn scaffolding_and_roots_are_recognised() {
    assert!(is_scaffolding(&"PageInfo".to_owned()));
    assert!(is_scaffolding(&"CursorInput".to_owned()));
    assert!(!is_scaffolding(&"Documents".to_owned()));
    assert!(is_root(&"Query".to_owned()));
    assert!(is_root(&"Mutation".to_owned()));
    assert!(is_root(&"Subscription".to_owned()));
    assert!(!is_root(&"Documents".to_owned()));
}

#[test]
fn an_owned_schema_passes_the_check() {
    let sdl = "type Documents { id: String! }\n\
               input DocumentsInsertInput { id: String! }\n\
               type PageInfo { hasNextPage: Boolean! }\n\
               type Query { documents: [Documents!]! }\n\
               type Mutation { documentsCreateOne(data: DocumentsInsertInput!): Documents! }\n";
    assert!(check("documents", sdl).is_ok());
}

#[test]
fn an_unprefixed_type_is_reported_with_its_module() {
    let sdl = "type Widgets { id: Int! }\ntype Query { inventoryCount: Int! }\n";
    match check("inventory", sdl) {
        Err(ComposeError::UnownedType { module, registered_type }) => {
            assert_eq!(module, "inventory");
            assert_eq!(registered_type, "Widgets");
        }
        other => panic!("unexpected result: {other:?}"),
    }
}

#[test]
fn an_unprefixed_root_field_is_reported_with_its_root() {
    let sdl = "type Query { inventoryCount: Int! widgets: Int! }\n";
    match check("inventory", sdl) {
        Err(ComposeError::UnownedRootField { module, root, field }) => {
            assert_eq!(module, "inventory");
            assert_eq!(root, "Query");
            assert_eq!(field, "widgets");
        }
        other => panic!("unexpected result: {other:?}"),
    }
}

#[test]
fn the_first_violation_in_document_order_is_reported() {
    let sdl = "type Gadgets { id: Int! }\ntype Widgets { id: Int! }\n";
    match check("inventory", sdl) {
        Err(ComposeError::UnownedType { registered_type, .. }) => assert_eq!(registered_type, "Gadgets"),
        other => panic!("unexpected result: {other:?}"),
    }
}

#[test]
fn an_unparsable_schema_is_a_schema_error() {
    match check("documents", "type {") {
        Err(ComposeError::Schema(message)) => assert!(!message.is_empty()),
        other => panic!("unexpected result: {other:?}"),
    }
}

#[test]
fn definitions_are_checked_as_given() {
    let definitions = vec![
        None,
        Some(SdlType { name: "Ledger".to_owned(), object_fields: None }),
        Some(SdlType {
            name: "Mutation".to_owned(),
            object_fields: Some(vec!["ledgerRebalance".to_owned(), "other".to_owned()]),
        }),
    ];
    match check_definitions("ledger", &definitions) {
        Err(ComposeError::UnownedRootField { root, field, .. }) => {
            assert_eq!(root, "Mutation");
            assert_eq!(field, "other");
        }
        other => panic!("unexpected result: {other:?}"),
    }
}

#[test]
fn compose_error_messages_name_the_module() {
    let unowned = ComposeError::UnownedType { module: "inventory", registered_type: "Widgets".to_owned() };
    assert_eq!(
        unowned.message(),
        "module \"inventory\" registered type \"Widgets\", which does not carry the module's name as its prefix",
    );
    let root = ComposeError::UnownedRootField {
        module: "inventory",
        root: "Query".to_owned(),
        field: "widgets".to_owned(),
    };
    assert_eq!(
        root.message(),
        "module \"inventory\" registered Query field \"widgets\", which does not carry the module's name as its prefix",
    );
    assert_eq!(
        ComposeError::Schema("Query root has no fields".to_owned()).message(),
        "schema failed to build: Query root has no fields",
    );
}

#[test]
fn a_failed_mini_schema_build_is_a_schema_error() {
    match check_module("sample", Err("Type \"Query\" not found".to_owned())) {
        Err(ComposeError::Schema(message)) => assert_eq!(message, "Type \"Query\" not found"),
        other => panic!("unexpected result: {other:?}"),
    }
    assert!(check_module("sample", Ok("type Query { sampleCount: Int! }".to_owned())).is_ok());
    assert!(check_module("sample", Ok("type Query { count: Int! }".to_owned())).is_err());
}
