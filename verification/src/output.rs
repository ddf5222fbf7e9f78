//! The rules of an `#[output]` struct: the custom GraphQL output object it
//! declares.
//!
//! Field names are camel-cased. The struct's own name is the GraphQL type
//! name, so it carries the Module's prefix or composition rejects it.

use vstd::prelude::*;
use crate::naming::{graphql_name, spec_lower_camel_case};

verus! {

/// A struct annotated with `#[output]`, as far as the rules read it.
pub struct OutputStruct {
    pub ident: String,
    /// The names of its fields, in declaration order; `None` for a tuple or
    /// unit struct.
    pub named_fields: Option<Vec<String>>,
    /// Whether it declares generic parameters.
    pub is_generic: bool,
}

/// Where an error points.
#[derive(Clone, Copy, Debug, PartialEq, Eq, Structural)]
pub enum OutputSite {
    /// The struct's name.
    Ident,
    /// Its generic parameters.
    Generics,
}

/// A struct that breaks an `#[output]` rule.
pub struct OutputError {
    pub site: OutputSite,
    pub message: &'static str,
}

/// The GraphQL object an `#[output]` struct declares.
pub struct OutputPlan {
    /// The GraphQL type name: the struct's own name.
    pub object_name: String,
    /// One camel-cased field name per struct field, in declaration order.
    pub field_names: Vec<String>,
}

pub const UNNAMED_FIELDS_MESSAGE: &'static str = "an #[output] type needs named fields; each one becomes a GraphQL field";

pub const GENERIC_MESSAGE: &'static str = "an #[output] type cannot be generic; the GraphQL type name would be ambiguous";

/// The object an `#[output]` struct declares, as its type name and field
/// names, or the first rule it breaks: it has named fields, and it is not
/// generic.
pub open spec fn expand_spec(input: OutputStruct) -> Result<(Seq<char>, Seq<Seq<char>>), (OutputSite, Seq<char>)> {
    match input.named_fields {
        None => Err((OutputSite::Ident, UNNAMED_FIELDS_MESSAGE@)),
        Some(fields) => if input.is_generic {
            Err((OutputSite::Generics, GENERIC_MESSAGE@))
        } else {
            Ok((input.ident@, fields@.map_values(|field: String| spec_lower_camel_case(field@))))
        },
    }
}

/// The GraphQL object an `#[output]` struct declares.
pub fn expand(input: &OutputStruct) -> (result: Result<OutputPlan, OutputError>)
    ensures
        match result {
            Ok(plan) => expand_spec(*input) == Ok::<_, (OutputSite, Seq<char>)>(
                (plan.object_name@, plan.field_names@.map_values(|name: String| name@)),
            ),
            Err(error) => expand_spec(*input) == Err::<(Seq<char>, Seq<Seq<char>>), _>(
                (error.site, error.message@),
            ),
        },
{
    let fields = match &input.named_fields {
        None => {
            return Err(OutputError { site: OutputSite::Ident, message: UNNAMED_FIELDS_MESSAGE });
        },
        Some(fields) => fields,
    };
    if input.is_generic {
        return Err(OutputError { site: OutputSite::Generics, message: GENERIC_MESSAGE });
    }
    let mut field_names: Vec<String> = Vec::new();
    let mut k: usize = 0;
    while k < fields.len()
        invariant
            k <= fields@.len(),
            field_names@.len() == k,
            forall|j: int|
                0 <= j < k ==> #[trigger] field_names@[j]@ == spec_lower_camel_case(fields@[j]@),
        decreases fields@.len() - k,
    {
        field_names.push(graphql_name(fields[k].as_str()));
        k += 1;
    }
    let plan = OutputPlan { object_name: input.ident.clone(), field_names };
    assert(plan.field_names@.map_values(|name: String| name@) =~= fields@.map_values(
        |field: String| spec_lower_camel_case(field@),
    ));
    Ok(plan)
}

} // verus!
