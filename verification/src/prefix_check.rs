//! Namespace ownership: every type a Module registers, and every root field,
//! carries the Module's name as its prefix.
//!
//! Case conventions differ per position (PascalCase types, camelCase root
//! fields, snake_case module names), so ownership compares
//! case-insensitively with underscores removed.

use vstd::prelude::*;
use async_graphql_parser::parse_schema;
use crate::text::{push_char, push_str};
use async_graphql_parser::types::{TypeKind, TypeSystemDefinition};

verus! {

/// Why a set of Modules failed to compose into a schema.
#[derive(Debug)]
pub enum ComposeError {
    /// The schema failed to build or to parse; the message says why.
    Schema(String),
    /// A Module registered a type whose name lacks the Module's prefix.
    UnownedType { module: &'static str, registered_type: String },
    /// A Module registered a Query, Mutation, or Subscription root field
    /// whose name lacks the Module's prefix.
    UnownedRootField { module: &'static str, root: String, field: String },
}

/// A [`ComposeError`] as text.
pub enum ComposeErrorView {
    Schema(Seq<char>),
    UnownedType { module: Seq<char>, registered_type: Seq<char> },
    UnownedRootField { module: Seq<char>, root: Seq<char>, field: Seq<char> },
}

impl View for ComposeError {
    type V = ComposeErrorView;

    open spec fn view(&self) -> ComposeErrorView {
        match self {
            ComposeError::Schema(message) => ComposeErrorView::Schema(message@),
            ComposeError::UnownedType { module, registered_type } => ComposeErrorView::UnownedType {
                module: module@,
                registered_type: registered_type@,
            },
            ComposeError::UnownedRootField { module, root, field } => ComposeErrorView::UnownedRootField {
                module: module@,
                root: root@,
                field: field@,
            },
        }
    }
}

/// The text of a composition error.
pub open spec fn compose_error_message(error: ComposeErrorView) -> Seq<char> {
    match error {
        ComposeErrorView::Schema(message) => "schema failed to build: "@ + message,
        ComposeErrorView::UnownedType { module, registered_type } => "module \""@ + module
            + "\" registered type \""@ + registered_type
            + "\", which does not carry the module's name as its prefix"@,
        ComposeErrorView::UnownedRootField { module, root, field } => "module \""@ + module
            + "\" registered "@ + root + " field \""@ + field
            + "\", which does not carry the module's name as its prefix"@,
    }
}

impl ComposeError {
    /// The error as text: what failed, naming the Module and the type or
    /// root field that lacks its prefix.
    pub fn message(&self) -> (text: String)
        ensures
            text@ == compose_error_message(self@),
    {
        match self {
            ComposeError::Schema(message) => {
                let mut text = "schema failed to build: ".to_owned();
                push_str(&mut text, message.as_str());
                text
            },
            ComposeError::UnownedType { module, registered_type } => {
                let mut text = "module \"".to_owned();
                push_str(&mut text, module);
                push_str(&mut text, "\" registered type \"");
                push_str(&mut text, registered_type.as_str());
                push_str(&mut text, "\", which does not carry the module's name as its prefix");
                text
            },
            ComposeError::UnownedRootField { module, root, field } => {
                let mut text = "module \"".to_owned();
                push_str(&mut text, module);
                push_str(&mut text, "\" registered ");
                push_str(&mut text, root.as_str());
                push_str(&mut text, " field \"");
                push_str(&mut text, field.as_str());
                push_str(&mut text, "\", which does not carry the module's name as its prefix");
                text
            },
        }
    }
}

/// One type definition of a schema's SDL, as far as the namespace check
/// reads it: its name and, for an object type, its field names.
pub struct SdlType {
    pub name: String,
    pub object_fields: Option<Vec<String>>,
}

/// An [`SdlType`] as text.
pub struct SdlTypeView {
    pub name: Seq<char>,
    pub object_fields: Option<Seq<Seq<char>>>,
}

impl View for SdlType {
    type V = SdlTypeView;

    open spec fn view(&self) -> SdlTypeView {
        SdlTypeView {
            name: self.name@,
            object_fields: match self.object_fields {
                Some(fields) => Some(fields@.map_values(|field: String| field@)),
                None => None,
            },
        }
    }
}

/// The definitions of an SDL document in order; a definition that is not a
/// type (a schema or directive definition) is `None`.
pub open spec fn definitions_view(definitions: Seq<Option<SdlType>>) -> Seq<Option<SdlTypeView>> {
    definitions.map_values(|definition: Option<SdlType>| match definition {
        Some(sdl_type) => Some(sdl_type@),
        None => None,
    })
}

/// What the GraphQL SDL parser makes of a document: its definitions, or the
/// parser's error message.
pub uninterp spec fn spec_parse_sdl(sdl: Seq<char>) -> Result<Seq<Option<SdlTypeView>>, Seq<char>>;

/// The lowercase mapping of one character, as the standard library gives it.
pub uninterp spec fn spec_to_lowercase(c: char) -> Seq<char>;

/// Parses a schema's SDL with `async_graphql_parser::parse_schema` and keeps
/// each definition's type name and object field names, in document order.
///
/// Trusted: the result is whatever the parser returns for `sdl`, named by
/// `spec_parse_sdl`; nothing about the GraphQL grammar is stated here.
#[verifier::external_body]
fn parse_sdl(sdl: &str) -> (parsed: Result<Vec<Option<SdlType>>, String>)
    ensures
        spec_parse_sdl(sdl@) == (match parsed {
            Ok(definitions) => Ok(definitions_view(definitions@)),
            Err(message) => Err(message@),
        }),
{
    let document = parse_schema(sdl).map_err(|error| error.to_string())?;
    Ok(document.definitions.into_iter().map(|definition| match definition {
        TypeSystemDefinition::Type(definition) => Some(SdlType {
            name: definition.node.name.node.to_string(),
            object_fields: match definition.node.kind {
                TypeKind::Object(object) => Some(object.fields.into_iter().map(|field| field.node.name.node.to_string()).collect()),
                TypeKind::Scalar | TypeKind::Interface(_) | TypeKind::Union(_) | TypeKind::Enum(_) | TypeKind::InputObject(_) => None,
            },
        }),
        TypeSystemDefinition::Schema(_) | TypeSystemDefinition::Directive(_) => None,
    }).collect())
}

/// `char::to_lowercase`, collected.
///
/// Trusted: the result is the standard library's lowercase mapping of `c`,
/// named by `spec_to_lowercase`.
#[verifier::external_body]
fn to_lowercase(c: char) -> (lower: Vec<char>)
    ensures
        lower@ == spec_to_lowercase(c),
{
    c.to_lowercase().collect()
}

/// A name with its underscores removed and every other character replaced
/// by its lowercase mapping.
pub open spec fn normalized_spec(name: Seq<char>) -> Seq<char>
    decreases name.len(),
{
    if name.len() == 0 {
        Seq::empty()
    } else {
        normalized_spec(name.drop_last()) + if name.last() == '_' {
            Seq::empty()
        } else {
            spec_to_lowercase(name.last())
        }
    }
}

/// Whether `name` belongs to the Module `module`.
pub open spec fn owned_spec(module: Seq<char>, name: Seq<char>) -> bool {
    normalized_spec(module).is_prefix_of(normalized_spec(name))
}

pub fn normalized(name: &str) -> (result: String)
    ensures
        result@ == normalized_spec(name@),
{
    let length = name.unicode_len();
    let mut result = String::new();
    let mut i: usize = 0;
    while i < length
        invariant
            length == name@.len(),
            i <= length,
            result@ == normalized_spec(name@.take(i as int)),
        decreases length - i,
    {
        let c = name.get_char(i);
        assert(name@.take(i + 1).drop_last() =~= name@.take(i as int));
        assert(name@.take(i + 1).last() == c);
        if c != '_' {
            let lower = to_lowercase(c);
            let ghost before = result@;
            let mut k: usize = 0;
            while k < lower.len()
                invariant
                    k <= lower.len(),
                    result@ == before + lower@.take(k as int),
                decreases lower.len() - k,
            {
                push_char(&mut result, lower[k]);
                assert(lower@.take(k + 1) =~= lower@.take(k as int).push(lower@[k as int]));
                k += 1;
            }
            assert(lower@.take(k as int) =~= lower@);
        } else {
            assert(result@ =~= result@ + Seq::<char>::empty());
        }
        i += 1;
    }
    assert(name@.take(length as int) =~= name@);
    result
}

/// Whether `name`, normalized, starts with `module`, normalized.
pub fn owned_by(module: &str, name: &str) -> (owned: bool)
    ensures
        owned == owned_spec(module@, name@),
{
    let owner = normalized(module);
    let candidate = normalized(name);
    let owner = owner.as_str();
    let candidate = candidate.as_str();
    let owner_length = owner.unicode_len();
    let candidate_length = candidate.unicode_len();
    if owner_length > candidate_length {
        return false;
    }
    let mut i: usize = 0;
    while i < owner_length
        invariant
            owner_length == owner@.len(),
            owner@ == normalized_spec(module@),
            candidate@ == normalized_spec(name@),
            candidate_length == candidate@.len(),
            owner_length <= candidate_length,
            i <= owner_length,
            forall|j: int| 0 <= j < i ==> owner@[j] == candidate@[j],
        decreases owner_length - i,
    {
        let a = owner.get_char(i);
        let b = candidate.get_char(i);
        if a != b {
            assert(owner@[i as int] != candidate@.subrange(0, owner@.len() as int)[i as int]);
            return false;
        }
        i += 1;
    }
    assert(owner@ =~= candidate@.subrange(0, owner@.len() as int));
    true
}

/// The framework scaffolding present in every built schema whatever the
/// Modules registered, and so owned by no Module: the pagination plumbing,
/// the ordering enum, the fixed filter primitives, and the `Json` scalar.
pub open spec fn is_scaffolding_spec(name: Seq<char>) -> bool {
        name == "CursorInput"@
        || name == "OffsetInput"@
        || name == "PageInput"@
        || name == "PaginationInput"@
        || name == "PageInfo"@
        || name == "PaginationInfo"@
        || name == "OrderByEnum"@
        || name == "BooleanFilterInput"@
        || name == "FloatFilterInput"@
        || name == "IdentityFilterInput"@
        || name == "IntegerFilterInput"@
        || name == "JsonFilterInput"@
        || name == "StringFilterInput"@
        || name == "TextFilterInput"@
        || name == "BooleanArrayFilterInput"@
        || name == "FloatArrayFilterInput"@
        || name == "IdArrayFilterInput"@
        || name == "IntegerArrayFilterInput"@
        || name == "StringArrayFilterInput"@
        || name == "TextArrayFilterInput"@
        || name == "Json"@
}

/// The root objects. They are shared plumbing; their fields are what Modules
/// own.
pub open spec fn is_root_spec(name: Seq<char>) -> bool {
    name == "Query"@ || name == "Mutation"@ || name == "Subscription"@
}

/// The first of `fields` that `module` does not own.
pub open spec fn first_unowned(module: Seq<char>, fields: Seq<Seq<char>>) -> Option<Seq<char>>
    decreases fields.len(),
{
    if fields.len() == 0 {
        None
    } else if !owned_spec(module, fields[0]) {
        Some(fields[0])
    } else {
        first_unowned(module, fields.drop_first())
    }
}

/// What is wrong with one definition of a Module's mini-schema, if anything:
/// a root object with a field the Module does not own, or a type that is
/// neither a root, nor scaffolding, nor owned by the Module. A root that is
/// not an object type, and a definition that is not a type, are never wrong.
pub open spec fn definition_violation(module: Seq<char>, definition: Option<SdlTypeView>) -> Option<ComposeErrorView> {
    match definition {
        None => None,
        Some(sdl_type) => if is_root_spec(sdl_type.name) {
            match sdl_type.object_fields {
                None => None,
                Some(fields) => match first_unowned(module, fields) {
                    None => None,
                    Some(field) => Some(ComposeErrorView::UnownedRootField {
                        module,
                        root: sdl_type.name,
                        field,
                    }),
                },
            }
        } else if !is_scaffolding_spec(sdl_type.name) && !owned_spec(module, sdl_type.name) {
            Some(ComposeErrorView::UnownedType { module, registered_type: sdl_type.name })
        } else {
            None
        },
    }
}

/// The first violation among `definitions`, in document order.
pub open spec fn first_violation(module: Seq<char>, definitions: Seq<Option<SdlTypeView>>) -> Option<ComposeErrorView>
    decreases definitions.len(),
{
    if definitions.len() == 0 {
        None
    } else {
        match definition_violation(module, definitions[0]) {
            Some(violation) => Some(violation),
            None => first_violation(module, definitions.drop_first()),
        }
    }
}

/// What the namespace check of `sdl` for `module` reports: the parser's
/// error, or the first violation, or nothing.
pub open spec fn check_spec(module: Seq<char>, sdl: Seq<char>) -> Option<ComposeErrorView> {
    match spec_parse_sdl(sdl) {
        Err(message) => Some(ComposeErrorView::Schema(message)),
        Ok(definitions) => first_violation(module, definitions),
    }
}

pub(crate) fn text_is(text: &String, literal: &str) -> (same: bool)
    ensures
        same == (text@ == literal@),
{
    let literal = literal.to_owned();
    text.eq(&literal)
}

/// Whether `name` is framework scaffolding.
pub fn is_scaffolding(name: &String) -> (scaffolding: bool)
    ensures
        scaffolding == is_scaffolding_spec(name@),
{
    text_is(name, "CursorInput")
        || text_is(name, "OffsetInput")
        || text_is(name, "PageInput")
        || text_is(name, "PaginationInput")
        || text_is(name, "PageInfo")
        || text_is(name, "PaginationInfo")
        || text_is(name, "OrderByEnum")
        || text_is(name, "BooleanFilterInput")
        || text_is(name, "FloatFilterInput")
        || text_is(name, "IdentityFilterInput")
        || text_is(name, "IntegerFilterInput")
        || text_is(name, "JsonFilterInput")
        || text_is(name, "StringFilterInput")
        || text_is(name, "TextFilterInput")
        || text_is(name, "BooleanArrayFilterInput")
        || text_is(name, "FloatArrayFilterInput")
        || text_is(name, "IdArrayFilterInput")
        || text_is(name, "IntegerArrayFilterInput")
        || text_is(name, "StringArrayFilterInput")
        || text_is(name, "TextArrayFilterInput")
        || text_is(name, "Json")
}

/// Whether `name` is a root object.
pub fn is_root(name: &String) -> (root: bool)
    ensures
        root == is_root_spec(name@),
{
    text_is(name, "Query") || text_is(name, "Mutation") || text_is(name, "Subscription")
}

proof fn lemma_first_unowned_skip(module: Seq<char>, fields: Seq<Seq<char>>, i: int)
    requires
        0 <= i < fields.len(),
        first_unowned(module, fields) == first_unowned(module, fields.skip(i)),
        owned_spec(module, fields[i]),
    ensures
        first_unowned(module, fields) == first_unowned(module, fields.skip(i + 1)),
{
    assert(fields.skip(i).drop_first() =~= fields.skip(i + 1));
}

proof fn lemma_first_violation_skip(module: Seq<char>, definitions: Seq<Option<SdlTypeView>>, i: int)
    requires
        0 <= i < definitions.len(),
        first_violation(module, definitions) == first_violation(module, definitions.skip(i)),
        definition_violation(module, definitions[i]) is None,
    ensures
        first_violation(module, definitions) == first_violation(module, definitions.skip(i + 1)),
{
    assert(definitions.skip(i).drop_first() =~= definitions.skip(i + 1));
}

/// The first root field among `fields` that `module` does not own.
fn find_unowned_field(module: &str, fields: &Vec<String>) -> (found: Option<usize>)
    ensures
        match found {
            Some(index) => index < fields@.len() && first_unowned(module@, fields@.map_values(|field: String| field@))
                == Some(fields@[index as int]@),
            None => first_unowned(module@, fields@.map_values(|field: String| field@)) is None,
        },
{
    let ghost view = fields@.map_values(|field: String| field@);
    let mut i: usize = 0;
    assert(view.skip(0) =~= view);
    while i < fields.len()
        invariant
            i <= fields@.len(),
            view == fields@.map_values(|field: String| field@),
            first_unowned(module@, view) == first_unowned(module@, view.skip(i as int)),
        decreases fields@.len() - i,
    {
        if !owned_by(module, fields[i].as_str()) {
            assert(view.skip(i as int)[0] == view[i as int]);
            return Some(i);
        }
        proof {
            lemma_first_unowned_skip(module@, view, i as int);
        }
        i += 1;
    }
    assert(view.skip(i as int) =~= Seq::<Seq<char>>::empty());
    None
}

/// Check every definition of a Module's mini-schema against the Module's
/// namespace, and report the first violation in document order.
pub fn check_definitions(module: &'static str, definitions: &Vec<Option<SdlType>>) -> (result: Result<(), ComposeError>)
    ensures
        first_violation(module@, definitions_view(definitions@)) == match result {
            Ok(_) => None,
            Err(error) => Some(error@),
        },
{
    let ghost view = definitions_view(definitions@);
    let mut i: usize = 0;
    assert(view.skip(0) =~= view);
    while i < definitions.len()
        invariant
            i <= definitions@.len(),
            view == definitions_view(definitions@),
            first_violation(module@, view) == first_violation(module@, view.skip(i as int)),
        decreases definitions@.len() - i,
    {
        assert(view.skip(i as int)[0] == view[i as int]);
        match &definitions[i] {
            None => {}
            Some(sdl_type) => {
                if is_root(&sdl_type.name) {
                    match &sdl_type.object_fields {
                        None => {}
                        Some(fields) => {
                            match find_unowned_field(module, fields) {
                                None => {}
                                Some(index) => {
                                    return Err(ComposeError::UnownedRootField {
                                        module,
                                        root: sdl_type.name.clone(),
                                        field: fields[index].clone(),
                                    });
                                }
                            }
                        }
                    }
                } else if !is_scaffolding(&sdl_type.name) && !owned_by(module, sdl_type.name.as_str()) {
                    return Err(ComposeError::UnownedType {
                        module,
                        registered_type: sdl_type.name.clone(),
                    });
                }
            }
        }
        proof {
            lemma_first_violation_skip(module@, view, i as int);
        }
        i += 1;
    }
    assert(view.skip(i as int) =~= Seq::<Option<SdlTypeView>>::empty());
    Ok(())
}

/// Walk a Module's mini-schema SDL and require every type name that is not
/// scaffolding, and every root field, to carry the Module's name as a
/// prefix.
pub fn check(module: &'static str, sdl: &str) -> (result: Result<(), ComposeError>)
    ensures
        check_spec(module@, sdl@) == match result {
            Ok(_) => None,
            Err(error) => Some(error@),
        },
{
    match parse_sdl(sdl) {
        Err(message) => Err(ComposeError::Schema(message)),
        Ok(definitions) => check_definitions(module, &definitions),
    }
}

proof fn lemma_normalized_concat(a: Seq<char>, b: Seq<char>)
    ensures
        normalized_spec(a + b) == normalized_spec(a) + normalized_spec(b),
    decreases b.len(),
{
    if b.len() == 0 {
        assert(a + b =~= a);
        assert(normalized_spec(b) =~= Seq::<char>::empty());
        assert(normalized_spec(a) + normalized_spec(b) =~= normalized_spec(a));
    } else {
        assert((a + b).drop_last() =~= a + b.drop_last());
        assert((a + b).last() == b.last());
        lemma_normalized_concat(a, b.drop_last());
        let tail = if b.last() == '_' { Seq::<char>::empty() } else { spec_to_lowercase(b.last()) };
        assert(normalized_spec(a) + normalized_spec(b.drop_last()) + tail
            =~= normalized_spec(a) + (normalized_spec(b.drop_last()) + tail));
    }
}

/// Every name that starts with the Module's own name belongs to the Module,
/// whatever follows.
pub proof fn law_prefixed_names_are_owned(module: Seq<char>, rest: Seq<char>)
    ensures
        owned_spec(module, module + rest),
{
    lemma_normalized_concat(module, rest);
    assert(normalized_spec(module) =~= (normalized_spec(module) + normalized_spec(rest)).subrange(
        0,
        normalized_spec(module).len() as int,
    ));
}

/// A Module owns a name exactly when the name, normalized, is the Module's
/// normalized name followed by something (possibly nothing); so an owned
/// name is never shorter, normalized, than the Module's name, and a name
/// that is only the start of the Module's name is not owned.
pub proof fn law_owned_names_extend_the_module(module: Seq<char>, name: Seq<char>)
    ensures
        owned_spec(module, name) <==> exists|rest: Seq<char>| normalized_spec(name) == #[trigger] (normalized_spec(module) + rest),
        owned_spec(module, name) ==> normalized_spec(module).len() <= normalized_spec(name).len(),
{
    let m = normalized_spec(module);
    let n = normalized_spec(name);
    if owned_spec(module, name) {
        let rest = n.subrange(m.len() as int, n.len() as int);
        assert(n =~= m + rest);
    }
    if exists|rest: Seq<char>| n == #[trigger] (m + rest) {
        let rest = choose|rest: Seq<char>| n == #[trigger] (m + rest);
        assert(m =~= n.subrange(0, m.len() as int));
    }
}

/// Underscores do not matter to ownership: removing one from a name changes
/// neither whether the Module owns it nor the normalized name.
pub proof fn law_underscores_do_not_matter(module: Seq<char>, before: Seq<char>, after: Seq<char>)
    ensures
        normalized_spec(before + seq!['_'] + after) == normalized_spec(before + after),
        owned_spec(module, before + seq!['_'] + after) == owned_spec(module, before + after),
{
    lemma_normalized_concat(before + seq!['_'], after);
    lemma_normalized_concat(before, seq!['_']);
    lemma_normalized_concat(before, after);
    assert(seq!['_'].drop_last() =~= Seq::<char>::empty());
    assert(seq!['_'].last() == '_');
    assert(normalized_spec(Seq::<char>::empty()) =~= Seq::<char>::empty());
    assert(normalized_spec(seq!['_']) =~= Seq::<char>::empty());
    assert(normalized_spec(before) + normalized_spec(seq!['_']) =~= normalized_spec(before));
}

/// Case does not matter to ownership: two characters with the same
/// lowercase mapping are interchangeable wherever they stand.
pub proof fn law_case_does_not_matter(module: Seq<char>, before: Seq<char>, c: char, d: char, after: Seq<char>)
    requires
        c != '_',
        d != '_',
        spec_to_lowercase(c) == spec_to_lowercase(d),
    ensures
        normalized_spec(before + seq![c] + after) == normalized_spec(before + seq![d] + after),
        owned_spec(module, before + seq![c] + after) == owned_spec(module, before + seq![d] + after),
{
    lemma_normalized_concat(before + seq![c], after);
    lemma_normalized_concat(before, seq![c]);
    lemma_normalized_concat(before + seq![d], after);
    lemma_normalized_concat(before, seq![d]);
    assert(seq![c].drop_last() =~= Seq::<char>::empty());
    assert(seq![d].drop_last() =~= Seq::<char>::empty());
    assert(seq![c].last() == c);
    assert(seq![d].last() == d);
    assert(normalized_spec(Seq::<char>::empty()) =~= Seq::<char>::empty());
    assert(normalized_spec(seq![c]) =~= spec_to_lowercase(c));
    assert(normalized_spec(seq![d]) =~= spec_to_lowercase(d));
}

/// The namespace check reports a violation exactly when some definition has
/// one, and the violation it reports is that of the first such definition.
pub proof fn law_first_violation_is_reported(module: Seq<char>, definitions: Seq<Option<SdlTypeView>>)
    ensures
        (first_violation(module, definitions) is Some) == exists|i: int|
            0 <= i < definitions.len() && #[trigger] definition_violation(module, definitions[i]) is Some,
        first_violation(module, definitions) is Some ==> exists|i: int|
            0 <= i < definitions.len()
            && first_violation(module, definitions) == definition_violation(module, definitions[i])
            && (forall|j: int| 0 <= j < i ==> #[trigger] definition_violation(module, definitions[j]) is None),
    decreases definitions.len(),
{
    if definitions.len() > 0 {
        let rest = definitions.drop_first();
        law_first_violation_is_reported(module, rest);
        if definition_violation(module, definitions[0]) is Some {
            assert(forall|j: int| 0 <= j < 0 ==> #[trigger] definition_violation(module, definitions[j]) is None);
        } else {
            if exists|i: int| 0 <= i < definitions.len() && #[trigger] definition_violation(module, definitions[i]) is Some {
                let i = choose|i: int| 0 <= i < definitions.len() && #[trigger] definition_violation(module, definitions[i]) is Some;
                assert(rest[i - 1] == definitions[i]);
            }
            if first_violation(module, rest) is Some {
                let k = choose|k: int|
                    0 <= k < rest.len()
                    && first_violation(module, rest) == definition_violation(module, rest[k])
                    && (forall|j: int| 0 <= j < k ==> #[trigger] definition_violation(module, rest[j]) is None);
                assert(rest[k] == definitions[k + 1]);
                assert forall|j: int| 0 <= j < k + 1 implies #[trigger] definition_violation(module, definitions[j]) is None by {
                    if j > 0 {
                        assert(definitions[j] == rest[j - 1]);
                    }
                }
            }
        }
    }
}

/// Scaffolding is never a violation, whoever registered it.
pub proof fn law_scaffolding_is_never_a_violation(module: Seq<char>, sdl_type: SdlTypeView)
    requires
        is_scaffolding_spec(sdl_type.name),
    ensures
        definition_violation(module, Some(sdl_type)) is None,
{
    reveal_strlit("Query");
    reveal_strlit("Mutation");
    reveal_strlit("Subscription");
    reveal_strlit("CursorInput");
    reveal_strlit("OffsetInput");
    reveal_strlit("PageInput");
    reveal_strlit("PaginationInput");
    reveal_strlit("PageInfo");
    reveal_strlit("PaginationInfo");
    reveal_strlit("OrderByEnum");
    reveal_strlit("BooleanFilterInput");
    reveal_strlit("FloatFilterInput");
    reveal_strlit("IdentityFilterInput");
    reveal_strlit("IntegerFilterInput");
    reveal_strlit("JsonFilterInput");
    reveal_strlit("StringFilterInput");
    reveal_strlit("TextFilterInput");
    reveal_strlit("BooleanArrayFilterInput");
    reveal_strlit("FloatArrayFilterInput");
    reveal_strlit("IdArrayFilterInput");
    reveal_strlit("IntegerArrayFilterInput");
    reveal_strlit("StringArrayFilterInput");
    reveal_strlit("TextArrayFilterInput");
    reveal_strlit("Json");
    let name = sdl_type.name;
    assert(!is_root_spec(name)) by {
        if is_root_spec(name) {
            assert(name.len() == 5 || name.len() == 8 || name.len() == 12);
            if name.len() == 8 {
                assert(name[0] == 'M');
                assert(name == "PageInfo"@);
                assert(name[0] == 'P');
            }
        }
    }
}

/// The first unowned field is one the Module does not own.
proof fn lemma_first_unowned_is_unowned(module: Seq<char>, fields: Seq<Seq<char>>)
    ensures
        match first_unowned(module, fields) {
            Some(field) => !owned_spec(module, field) && fields.contains(field),
            None => forall|i: int| 0 <= i < fields.len() ==> owned_spec(module, #[trigger] fields[i]),
        },
    decreases fields.len(),
{
    if fields.len() > 0 {
        lemma_first_unowned_is_unowned(module, fields.drop_first());
        if owned_spec(module, fields[0]) {
            if let Some(field) = first_unowned(module, fields.drop_first()) {
                let i = choose|i: int| 0 <= i < fields.drop_first().len() && fields.drop_first()[i] == field;
                assert(fields[i + 1] == field);
            } else {
                assert forall|i: int| 0 <= i < fields.len() implies owned_spec(module, #[trigger] fields[i]) by {
                    if i > 0 {
                        assert(fields[i] == fields.drop_first()[i - 1]);
                    }
                }
            }
        } else {
            assert(first_unowned(module, fields) == Some(fields[0]));
        }
    }
}

/// A reported violation names the Module whose mini-schema was checked,
/// and the type or root field it reports is one that Module does not own.
pub proof fn law_violations_name_their_module(module: Seq<char>, definitions: Seq<Option<SdlTypeView>>)
    ensures
        match first_violation(module, definitions) {
            Some(ComposeErrorView::UnownedType { module: named, registered_type }) => named == module
                && !owned_spec(module, registered_type),
            Some(ComposeErrorView::UnownedRootField { module: named, field, .. }) => named == module
                && !owned_spec(module, field),
            _ => true,
        },
    decreases definitions.len(),
{
    if definitions.len() > 0 {
        law_violations_name_their_module(module, definitions.drop_first());
        if let Some(sdl_type) = definitions[0] {
            if let Some(fields) = sdl_type.object_fields {
                lemma_first_unowned_is_unowned(module, fields);
            }
        }
    }
}

} // verus!
