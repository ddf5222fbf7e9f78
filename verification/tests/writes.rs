use module_host::writes::{GeneratedMutations, Mode, Registration, Write, Writes};

const ALL_WRITES: [Write; 4] = [Write::CreateOne, Write::CreateBatch, Write::Update, Write::Delete];

#[test]
fn starting_points_give_every_write_its_mode() {
    for write in ALL_WRITES {
        assert_eq!(Writes::none().mode(write), Mode::Off);
        assert_eq!(Writes::all_generated().mode(write), Mode::Generated);
    }
    assert_eq!(Writes::all_hooked().mode(Write::CreateOne), Mode::Hooked);
    assert_eq!(Writes::all_hooked().mode(Write::CreateBatch), Mode::Off);
    assert_eq!(Writes::all_hooked().mode(Write::Update), Mode::Hooked);
    assert_eq!(Writes::all_hooked().mode(Write::Delete), Mode::Hooked);
    assert_eq!(Writes::default(), Writes::none());
}

#[test]
fn narrowing_sets_only_the_named_write() {
    let writes = Writes::all_generated().without(Write::Update).hooked(Write::Delete);
    assert_eq!(writes.mode(Write::CreateOne), Mode::Generated);
    assert_eq!(writes.mode(Write::CreateBatch), Mode::Generated);
    assert_eq!(writes.mode(Write::Update), Mode::Off);
    assert_eq!(writes.mode(Write::Delete), Mode::Hooked);
    assert_eq!(writes.generated(Write::Update).mode(Write::Update), Mode::Generated);
}

#[test]
fn the_last_setting_of_a_write_wins_and_settings_commute() {
    let base = Writes::none();
    assert_eq!(base.hooked(Write::Update).without(Write::Update), base.without(Write::Update));
    assert_eq!(
        base.hooked(Write::CreateOne).generated(Write::Delete),
        base.generated(Write::Delete).hooked(Write::CreateOne),
    );
    let all = Writes::all_generated();
    assert_eq!(all.generated(Write::CreateBatch), all);
}

#[test]
fn hooked_is_generated_minus_batch_with_hooks() {
    let hooked = Writes::all_hooked();
    let rebuilt = Writes::all_generated()
        .hooked(Write::CreateOne)
        .without(Write::CreateBatch)
        .hooked(Write::Update)
        .hooked(Write::Delete);
    assert_eq!(hooked, rebuilt);
}

#[test]
fn inputs_are_needed_by_published_writes_only() {
    assert!(Writes::all_generated().needs_insert_input());
    assert!(Writes::all_generated().needs_update_input());
    assert!(!Writes::none().needs_insert_input());
    assert!(!Writes::none().needs_update_input());
    let batch_only = Writes::none().generated(Write::CreateBatch);
    assert!(batch_only.needs_insert_input());
    assert!(!batch_only.needs_update_input());
    let hooked_update = Writes::none().hooked(Write::Update);
    assert!(hooked_update.needs_update_input());
}

#[test]
fn dropping_update_drops_only_the_update_input() {
    let documents = Writes::all_generated().without(Write::Update).without(Write::CreateBatch);
    let dropped = documents.dropped_inputs(
        "DocumentsInsertInput".to_owned(),
        "DocumentsUpdateInput".to_owned(),
    );
    assert_eq!(dropped, vec!["DocumentsUpdateInput".to_owned()]);
}

#[test]
fn dropping_every_write_drops_both_inputs_in_order() {
    let dropped = Writes::none().dropped_inputs("AInsertInput".to_owned(), "AUpdateInput".to_owned());
    assert_eq!(dropped, vec!["AInsertInput".to_owned(), "AUpdateInput".to_owned()]);
    let kept = Writes::all_hooked().dropped_inputs("AInsertInput".to_owned(), "AUpdateInput".to_owned());
    assert!(kept.is_empty());
}

#[test]
fn generated_selection_keeps_only_generated_writes() {
    let writes = Writes::all_hooked().generated(Write::CreateBatch);
    let selection = writes.generated_selection();
    assert_eq!(
        selection,
        GeneratedMutations { create_one: false, create_batch: true, update: false, delete: false },
    );
    assert!(selection.any());
    assert!(!Writes::all_hooked().generated_selection().any());
}

#[test]
fn named_selections_select_what_they_say() {
    assert_eq!(
        GeneratedMutations::create_one_only(),
        GeneratedMutations { create_one: true, create_batch: false, update: false, delete: false },
    );
    assert_eq!(
        GeneratedMutations::all(),
        GeneratedMutations { create_one: true, create_batch: true, update: true, delete: true },
    );
}

#[test]
fn an_empty_selection_registers_nothing() {
    let none = GeneratedMutations { create_one: false, create_batch: false, update: false, delete: false };
    assert!(!none.any());
    assert!(none.registration_plan().is_empty());
}

#[test]
fn the_full_bundle_registers_support_types_then_fields() {
    assert_eq!(
        GeneratedMutations::all().registration_plan(),
        vec![
            Registration::BasicObject,
            Registration::InsertInput,
            Registration::UpdateInput,
            Registration::Field(Write::CreateOne, Mode::Generated),
            Registration::Field(Write::CreateBatch, Mode::Generated),
            Registration::Field(Write::Update, Mode::Generated),
            Registration::Field(Write::Delete, Mode::Generated),
        ],
    );
}

#[test]
fn each_flag_brings_only_its_field_and_inputs() {
    let delete_only = GeneratedMutations { create_one: false, create_batch: false, update: false, delete: true };
    assert_eq!(
        delete_only.registration_plan(),
        vec![Registration::BasicObject, Registration::Field(Write::Delete, Mode::Generated)],
    );
    let update_only = GeneratedMutations { create_one: false, create_batch: false, update: true, delete: false };
    assert_eq!(
        update_only.registration_plan(),
        vec![
            Registration::BasicObject,
            Registration::UpdateInput,
            Registration::Field(Write::Update, Mode::Generated),
        ],
    );
    let batch_only = GeneratedMutations { create_one: false, create_batch: true, update: false, delete: false };
    assert_eq!(
        batch_only.registration_plan(),
        vec![
            Registration::BasicObject,
            Registration::InsertInput,
            Registration::Field(Write::CreateBatch, Mode::Generated),
        ],
    );
}

#[test]
fn a_hooked_surface_registers_hooked_fields_after_generated_ones() {
    let plan = Writes::all_hooked().generated(Write::CreateBatch).registration_plan();
    assert_eq!(
        plan,
        vec![
            Registration::BasicObject,
            Registration::InsertInput,
            Registration::Field(Write::CreateBatch, Mode::Generated),
            Registration::BasicObject,
            Registration::InsertInput,
            Registration::Field(Write::CreateOne, Mode::Hooked),
            Registration::BasicObject,
            Registration::UpdateInput,
            Registration::Field(Write::Update, Mode::Hooked),
            Registration::Field(Write::Delete, Mode::Hooked),
        ],
    );
}

#[test]
fn every_published_write_gets_exactly_one_field() {
    let writes = Writes::all_generated().hooked(Write::Update).without(Write::Delete);
    let plan = writes.registration_plan();
    for write in ALL_WRITES {
        let fields: Vec<Mode> = plan
            .iter()
            .filter_map(|step| match step {
                Registration::Field(w, mode) if *w == write => Some(*mode),
                _ => None,
            })
            .collect();
        match writes.mode(write) {
            Mode::Off => assert!(fields.is_empty()),
            mode => assert_eq!(fields, vec![mode]),
        }
    }
}

#[test]
fn a_hooked_batch_create_gets_no_field() {
    let plan = Writes::none().hooked(Write::CreateBatch).registration_plan();
    assert!(plan.is_empty());
}

#[test]
fn registered_inputs_are_never_dropped() {
    let writes = Writes::none().hooked(Write::CreateOne);
    let plan = writes.registration_plan();
    assert!(plan.contains(&Registration::InsertInput));
    let dropped = writes.dropped_inputs("XInsertInput".to_owned(), "XUpdateInput".to_owned());
    assert_eq!(dropped, vec!["XUpdateInput".to_owned()]);
}
