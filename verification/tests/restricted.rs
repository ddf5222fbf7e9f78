use module_host::hooks::WriteSetRow;
use module_host::restricted::{
    row_reply, set_reply, ModelSetWrite, ModelWrite, OutputShape, PreparedModelSet, PreparedModelWrite,
    RestrictedMutationField, RestrictedReply, WritePermit,
};

#[test]
fn a_new_restricted_field_is_strict_by_default() {
    let field: RestrictedMutationField<&str, u8> = RestrictedMutationField::new("save_document", 2);
    assert_eq!(field.name, "save_document");
    assert_eq!(field.action, 2);
    assert!(!field.nullable);
    assert!(field.arguments.is_empty());
    assert!(!field.hook_owns_authorization);
    assert!(!field.returns_boolean);
    assert_eq!(field.row_output_shape(), OutputShape::Object);
    assert_eq!(field.set_output_shape(), OutputShape::ObjectList);
}

#[test]
fn builders_set_one_flag_each_and_keep_argument_order() {
    let field: RestrictedMutationField<&str, u8> = RestrictedMutationField::new(String::from("f"), 0)
        .argument("id")
        .argument("digest")
        .nullable()
        .hook_owns_authorization();
    assert_eq!(field.arguments, vec!["id", "digest"]);
    assert!(field.nullable);
    assert!(field.hook_owns_authorization);
    assert!(!field.returns_boolean);
    assert_eq!(field.row_output_shape(), OutputShape::NullableObject);
    assert_eq!(field.set_output_shape(), OutputShape::ObjectList);
    let flag = field.returns_boolean();
    assert_eq!(flag.row_output_shape(), OutputShape::Boolean);
    assert_eq!(flag.set_output_shape(), OutputShape::Boolean);
}

#[test]
fn a_boolean_contract_reports_whether_a_row_was_written() {
    assert!(matches!(row_reply(true, Some(5)), RestrictedReply::Flag(true)));
    assert!(matches!(row_reply::<i32>(true, None), RestrictedReply::Flag(false)));
    assert!(matches!(row_reply(false, Some(5)), RestrictedReply::Row(Some(5))));
    assert!(matches!(row_reply::<i32>(false, None), RestrictedReply::Row(None)));
    assert!(matches!(set_reply(true, vec![1]), RestrictedReply::Flag(true)));
    assert!(matches!(set_reply::<i32>(true, Vec::new()), RestrictedReply::Flag(false)));
    match set_reply(false, vec![3, 1, 2]) {
        RestrictedReply::Rows(rows) => assert_eq!(rows, vec![3, 1, 2]),
        _ => panic!("expected the rows"),
    }
}

struct Lock;

impl WritePermit for Lock {}

#[test]
fn prepared_writes_keep_what_was_prepared() {
    let prepared: PreparedModelWrite<i32, i32> = PreparedModelWrite::new(ModelWrite::Update(4), Lock);
    assert!(matches!(prepared.write, ModelWrite::Update(4)));
    prepared.permit.committed();
    let set: PreparedModelSet<i32, i32> =
        PreparedModelSet::new(vec![ModelSetWrite::Insert(1), ModelSetWrite::Delete { model: 2, active_model: 2 }], ());
    assert_eq!(set.writes.len(), 2);
}

#[test]
fn a_set_member_presents_itself_as_a_write_set_row() {
    let mut insert: ModelSetWrite<i32, i32> = ModelSetWrite::Insert(1);
    match insert.as_write_set_row() {
        WriteSetRow::Create { active_model } => *active_model = 5,
        _ => panic!("an insert is a create"),
    }
    assert!(matches!(insert, ModelSetWrite::Insert(5)));

    let mut update: ModelSetWrite<i32, i32> = ModelSetWrite::Update { model: 7, active_model: 8 };
    match update.as_write_set_row() {
        WriteSetRow::Update { old_model, active_model } => {
            assert_eq!(*old_model, 7);
            *active_model = 9;
        }
        _ => panic!("an update stays an update"),
    }
    assert!(matches!(update, ModelSetWrite::Update { model: 7, active_model: 9 }));

    let mut delete: ModelSetWrite<i32, i32> = ModelSetWrite::Delete { model: 3, active_model: 3 };
    *delete.active_model_mut() = 4;
    assert!(matches!(delete, ModelSetWrite::Delete { model: 3, active_model: 4 }));
}
