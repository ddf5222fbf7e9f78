use module_host::custom_fields::{
    expand, field, ImplItemShape, ImplShape, ImplSite, InputShape, Segment, SegmentArguments,
    SignatureShape, SignatureSite, TypeShape, CONTEXT_TYPE_MESSAGE, NOT_ASYNC_MESSAGE,
    NOT_A_FUNCTION_MESSAGE, NO_CONTEXT_MESSAGE, PATTERN_MESSAGE, RECEIVER_MESSAGE, RETURN_MESSAGE,
    TRAIT_IMPL_MESSAGE,
};
use module_host::naming::graphql_name;
use module_host::output::{self as output_rules, OutputSite, OutputStruct};

fn path(ident: &str, arguments: SegmentArguments<&'static str>) -> TypeShape<&'static str> {
    TypeShape::Path(Some(Segment { ident: ident.to_owned(), arguments }))
}

fn context_argument() -> InputShape<&'static str> {
    InputShape::Typed {
        name: Some("ctx".to_owned()),
        ty: TypeShape::Reference(Box::new(path("ModuleCtx", SegmentArguments::AngleBracketed(vec!["'_"])))),
    }
}

fn argument(name: &str, ty: &str) -> InputShape<&'static str> {
    InputShape::Typed { name: Some(name.to_owned()), ty: path(ty, SegmentArguments::Plain) }
}

fn result_of(output: &'static str) -> Option<TypeShape<&'static str>> {
    Some(path("Result", SegmentArguments::AngleBracketed(vec![output])))
}

fn resolver(ident: &str, inputs: Vec<InputShape<&'static str>>, output: Option<TypeShape<&'static str>>) -> SignatureShape<&'static str> {
    SignatureShape { is_async: true, ident: ident.to_owned(), inputs, output }
}

#[test]
fn graphql_names_are_lower_camel_case() {
    assert_eq!(graphql_name("documents_save_check"), "documentsSaveCheck");
    assert_eq!(graphql_name("ledger_total"), "ledgerTotal");
    assert_eq!(graphql_name("as_of"), "asOf");
    assert_eq!(graphql_name("id"), "id");
}

#[test]
fn a_resolver_becomes_a_camel_cased_field_with_camel_cased_arguments() {
    let signature = resolver(
        "ledger_rebalance",
        vec![context_argument(), argument("as_of", "String"), argument("dry_run", "bool")],
        result_of("LedgerRebalanceOutcome"),
    );
    let plan = field(&signature).ok().expect("a valid resolver");
    assert_eq!(plan.name, "ledgerRebalance");
    assert_eq!(*plan.output, "LedgerRebalanceOutcome");
    let arguments: Vec<(usize, String)> = plan.arguments.iter().map(|a| (a.input, a.name.clone())).collect();
    assert_eq!(arguments, vec![(1, "asOf".to_owned()), (2, "dryRun".to_owned())]);
}

#[test]
fn a_resolver_must_be_async() {
    let mut signature = resolver("ledger_total", vec![context_argument()], result_of("i32"));
    signature.is_async = false;
    let error = field(&signature).err().expect("not async");
    assert_eq!(error.site, SignatureSite::Signature);
    assert_eq!(error.message, NOT_ASYNC_MESSAGE);
}

#[test]
fn a_resolver_must_return_a_result() {
    let error = field(&resolver("f", vec![context_argument()], None)).err().expect("no return type");
    assert_eq!(error.site, SignatureSite::Signature);
    assert_eq!(error.message, RETURN_MESSAGE);
    let option = Some(path("Option", SegmentArguments::AngleBracketed(vec!["i32"])));
    let error = field(&resolver("f", vec![context_argument()], option)).err().expect("not a result");
    assert_eq!(error.site, SignatureSite::Returned);
    let bare = Some(path("Result", SegmentArguments::Plain));
    let error = field(&resolver("f", vec![context_argument()], bare)).err().expect("no output type");
    assert_eq!(error.site, SignatureSite::Returned);
    assert_eq!(error.message, RETURN_MESSAGE);
}

#[test]
fn a_resolver_takes_the_module_context_first() {
    let error = field(&resolver("f", Vec::new(), result_of("i32"))).err().expect("no context");
    assert_eq!(error.site, SignatureSite::Signature);
    assert_eq!(error.message, NO_CONTEXT_MESSAGE);

    let by_value = InputShape::Typed { name: Some("ctx".to_owned()), ty: path("ModuleCtx", SegmentArguments::Plain) };
    let error = field(&resolver("f", vec![by_value], result_of("i32"))).err().expect("context by value");
    assert_eq!(error.site, SignatureSite::InputType(0));
    assert_eq!(error.message, CONTEXT_TYPE_MESSAGE);

    let other = InputShape::Typed {
        name: Some("ctx".to_owned()),
        ty: TypeShape::Reference(Box::new(path("Context", SegmentArguments::Plain))),
    };
    let error = field(&resolver("f", vec![other], result_of("i32"))).err().expect("another context");
    assert_eq!(error.site, SignatureSite::InputType(0));

    let error = field(&resolver("f", vec![InputShape::Receiver], result_of("i32"))).err().expect("a receiver");
    assert_eq!(error.site, SignatureSite::Input(0));
    assert_eq!(error.message, CONTEXT_TYPE_MESSAGE);
}

#[test]
fn resolver_arguments_are_plain_names_without_a_receiver() {
    let error = field(&resolver("f", vec![context_argument(), argument("a", "i32"), InputShape::Receiver], result_of("i32")))
        .err()
        .expect("a receiver argument");
    assert_eq!(error.site, SignatureSite::Input(2));
    assert_eq!(error.message, RECEIVER_MESSAGE);

    let destructured = InputShape::Typed { name: None, ty: path("Pair", SegmentArguments::Plain) };
    let error = field(&resolver("f", vec![context_argument(), destructured], result_of("i32")))
        .err()
        .expect("a pattern argument");
    assert_eq!(error.site, SignatureSite::InputPattern(1));
    assert_eq!(error.message, PATTERN_MESSAGE);
}

#[test]
fn an_impl_block_becomes_one_field_per_resolver_in_order() {
    let block = ImplShape {
        is_trait_impl: false,
        items: vec![
            ImplItemShape::Fn(resolver("ledger_total", vec![context_argument()], result_of("i32"))),
            ImplItemShape::Fn(resolver("ledger_entry_count", vec![context_argument(), argument("as_of", "String")], result_of("i64"))),
        ],
    };
    let fields = expand(&block).ok().expect("a valid block");
    let names: Vec<&str> = fields.iter().map(|f| f.name.as_str()).collect();
    assert_eq!(names, vec!["ledgerTotal", "ledgerEntryCount"]);
    assert_eq!(*fields[1].output, "i64");
}

#[test]
fn an_impl_block_is_inherent_and_holds_only_resolvers() {
    let trait_impl: ImplShape<&str> = ImplShape { is_trait_impl: true, items: Vec::new() };
    let error = expand(&trait_impl).err().expect("a trait impl");
    assert_eq!(error.site, ImplSite::Block);
    assert_eq!(error.message, TRAIT_IMPL_MESSAGE);

    let with_constant = ImplShape {
        is_trait_impl: false,
        items: vec![ImplItemShape::Fn(resolver("a", vec![context_argument()], result_of("i32"))), ImplItemShape::Other],
    };
    let error = expand(&with_constant).err().expect("a constant");
    assert_eq!(error.site, ImplSite::Item(1));
    assert_eq!(error.message, NOT_A_FUNCTION_MESSAGE);

    let mut sync = resolver("b", vec![context_argument()], result_of("i32"));
    sync.is_async = false;
    let with_sync = ImplShape {
        is_trait_impl: false,
        items: vec![ImplItemShape::Fn(resolver("a", vec![context_argument()], result_of("i32"))), ImplItemShape::Fn(sync)],
    };
    let error = expand(&with_sync).err().expect("a sync function");
    assert_eq!(error.site, ImplSite::InItem(1, SignatureSite::Signature));
    assert_eq!(error.message, NOT_ASYNC_MESSAGE);
}

#[test]
fn an_output_struct_declares_its_own_name_and_camel_cased_fields() {
    let outcome = OutputStruct {
        ident: "LedgerRebalanceOutcome".to_owned(),
        named_fields: Some(vec!["moved".to_owned(), "as_of_date".to_owned()]),
        is_generic: false,
    };
    let plan = output_rules::expand(&outcome).ok().expect("a valid output");
    assert_eq!(plan.object_name, "LedgerRebalanceOutcome");
    assert_eq!(plan.field_names, vec!["moved".to_owned(), "asOfDate".to_owned()]);
}

#[test]
fn an_output_struct_has_named_fields_and_no_generics() {
    let tuple = OutputStruct { ident: "Pair".to_owned(), named_fields: None, is_generic: true };
    let error = output_rules::expand(&tuple).err().expect("a tuple struct");
    assert_eq!(error.site, OutputSite::Ident);
    assert_eq!(error.message, output_rules::UNNAMED_FIELDS_MESSAGE);
    let generic = OutputStruct { ident: "Wrapper".to_owned(), named_fields: Some(vec!["value".to_owned()]), is_generic: true };
    let error = output_rules::expand(&generic).err().expect("a generic struct");
    assert_eq!(error.site, OutputSite::Generics);
    assert_eq!(error.message, output_rules::GENERIC_MESSAGE);
}
