use module_host::compose::{
    attach_targets, contains_name, contributes_nothing, first_registration, kept_mutations,
    retained_inputs, subscription_root, BuilderCounts,
};
use module_host::custom_ops::CustomOps;

type Ledger = CustomOps<&'static str, &'static str, &'static str, &'static str, &'static str>;

fn names(list: &[&str]) -> Vec<String> {
    list.iter().map(|name| (*name).to_owned()).collect()
}

fn empty_counts() -> BuilderCounts {
    BuilderCounts {
        queries: 0,
        mutations: 0,
        subscriptions: 0,
        outputs: 0,
        inputs: 0,
        enumerations: 0,
        unions: 0,
        scalars: 0,
    }
}

#[test]
fn a_scaffolded_module_registers_nothing_and_contributes_nothing() {
    let ops = Ledger::default();
    assert!(!ops.contributes_schema());
    assert!(!ops.replaces_generated_writes());
    assert!(ops.declared_escape_hatches().is_empty());
    assert!(contributes_nothing(ops.contributes_schema(), &empty_counts()));
}

#[test]
fn a_module_with_entities_or_custom_operations_contributes() {
    let mut registered = empty_counts();
    registered.outputs = 1;
    assert!(!contributes_nothing(false, &registered));
    assert!(!contributes_nothing(true, &empty_counts()));
    let mut only_scalars = empty_counts();
    only_scalars.scalars = 2;
    assert!(!contributes_nothing(false, &only_scalars));
}

#[test]
fn a_declared_escape_hatch_is_reported_by_name_and_registered_as_a_mutation() {
    let mut ops = Ledger::default();
    ops.query("ledger queries");
    ops.output("rebalance outcome");
    ops.escape_hatch("ledgerRebalance", "rebalance mutation");
    assert_eq!(ops.declared_escape_hatches(), &["ledgerRebalance"]);
    assert!(ops.contributes_schema());
    let applied = ops.into_applied();
    assert_eq!(applied.registrations, vec!["ledger queries", "rebalance outcome", "rebalance mutation"]);
}

#[test]
fn a_module_that_fits_the_primitives_declares_no_escape_hatch() {
    let mut ops = Ledger::default();
    ops.query("queries");
    ops.mutation("mutations");
    ops.computed_field("word count");
    ops.write_hook("path rule");
    assert!(ops.declared_escape_hatches().is_empty());
}

#[test]
fn a_subscription_registers_its_output_its_channel_and_its_field() {
    let mut ops = Ledger::default();
    ops.subscription("event output", "event channel", "event field");
    let applied = ops.into_applied();
    assert_eq!(applied.registrations, vec!["event output", "event field"]);
    assert_eq!(applied.schema_data, vec!["event channel"]);
}

#[test]
fn selecting_writes_replaces_the_generated_write_surface() {
    let mut ops = Ledger::default();
    ops.computed_field("digest");
    assert!(!ops.replaces_generated_writes());
    assert!(ops.contributes_schema());
    ops.writes("documents writes", "documents dropped inputs");
    ops.write_hook("documents rule");
    assert!(ops.replaces_generated_writes());
    let applied = ops.into_applied();
    assert_eq!(applied.registrations, vec!["documents writes"]);
    assert_eq!(applied.dropped_inputs, vec!["documents dropped inputs"]);
    assert_eq!(applied.hooks, vec!["documents rule"]);
    assert_eq!(applied.computed_fields, vec!["digest"]);
}

#[test]
fn only_a_module_that_selects_writes_drops_its_generated_mutations() {
    assert_eq!(kept_mutations(3, 7, true), 3);
    assert_eq!(kept_mutations(3, 7, false), 7);
    assert_eq!(kept_mutations(0, 0, true), 0);
}

#[test]
fn the_subscription_root_exists_only_with_a_subscription() {
    assert_eq!(subscription_root(0), None);
    assert_eq!(subscription_root(2), Some("Subscription"));
}

#[test]
fn support_types_are_pushed_once_per_name() {
    let existing = names(&["Probes", "ProbesInsertInput"]);
    assert!(contains_name(&existing, "Probes"));
    assert!(!contains_name(&existing, "ProbesUpdateInput"));
    assert!(!first_registration(&existing, "ProbesInsertInput"));
    assert!(first_registration(&existing, "ProbesUpdateInput"));
    assert!(first_registration(&Vec::new(), "Probes"));
}

#[test]
fn dropped_inputs_are_removed_and_every_other_input_stays() {
    let inputs = names(&["DocumentsInsertInput", "DocumentsUpdateInput", "DocumentsFilterInput"]);
    let dropped = names(&["DocumentsUpdateInput"]);
    assert_eq!(retained_inputs(&inputs, &dropped), vec![true, false, true]);
    assert_eq!(retained_inputs(&inputs, &Vec::new()), vec![true, true, true]);
}

#[test]
fn a_computed_field_attaches_to_every_object_of_its_name() {
    let outputs = names(&["Documents", "PageInfo", "Documents", "Projects"]);
    assert_eq!(attach_targets(&outputs, "Documents"), vec![true, false, true, false]);
    assert_eq!(attach_targets(&outputs, "Missing"), vec![false, false, false, false]);
}
