use module_host::exports::{escape_hatch_report, normalized_bindings, unknown_module_message};

#[test]
fn the_escape_hatch_report_lists_every_module_in_order() {
    let modules = vec![
        ("ledger", vec!["ledgerRebalance", "ledgerClose"]),
        ("projects", Vec::new()),
    ];
    assert_eq!(
        escape_hatch_report(&modules),
        "{\n  \"ledger\": [\"ledgerRebalance\", \"ledgerClose\"],\n  \"projects\": []\n}",
    );
}

#[test]
fn an_empty_registry_reports_an_empty_object() {
    assert_eq!(escape_hatch_report(&Vec::new()), "{\n\n}");
}

#[test]
fn bindings_end_in_exactly_one_newline() {
    assert_eq!(normalized_bindings("export type A = 1;\n\n \t"), "export type A = 1;\n");
    assert_eq!(normalized_bindings("export type A = 1;"), "export type A = 1;\n");
    assert_eq!(normalized_bindings(""), "\n");
}

#[test]
fn an_unknown_module_is_named_in_quotes() {
    assert_eq!(unknown_module_message("nope"), "unknown module \"nope\"");
}
