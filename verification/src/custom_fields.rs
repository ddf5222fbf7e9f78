//! The rules of a `#[custom_fields]` impl block: which resolver functions it
//! may hold, and the root field each one becomes.
//!
//! Every function becomes one field: its name is camel-cased, its first
//! argument must be `&ModuleCtx<'_>`, its remaining arguments become
//! camel-cased GraphQL arguments, and it must return `Result<T>`, where
//! `T` is the field's output type. The shapes below hold, as plain values,
//! what these rules read of the Rust syntax; the output type itself is
//! carried through as an opaque `G`.

use vstd::prelude::*;
use crate::naming::{graphql_name, spec_lower_camel_case};
use crate::prefix_check::text_is;

verus! {

/// The generic arguments of a path segment.
pub enum SegmentArguments<G> {
    /// No arguments: `Result`.
    Plain,
    /// Angle-bracketed arguments, in order: `Result<T, E>`.
    AngleBracketed(Vec<G>),
    /// Parenthesized arguments: `Fn(A) -> B`.
    Parenthesized,
}

/// One segment of a type path.
pub struct Segment<G> {
    pub ident: String,
    pub arguments: SegmentArguments<G>,
}

/// A type, as far as the rules read it.
pub enum TypeShape<G> {
    /// A path type, by its last segment (`None` for an empty path).
    Path(Option<Segment<G>>),
    /// A reference, and the type it refers to.
    Reference(Box<TypeShape<G>>),
    /// Any other type.
    Other,
}

/// One input of a function signature.
pub enum InputShape<G> {
    /// A `self` receiver.
    Receiver,
    /// A typed argument; `name` is its identifier when its pattern is a
    /// plain name.
    Typed { name: Option<String>, ty: TypeShape<G> },
}

/// A function signature.
pub struct SignatureShape<G> {
    pub is_async: bool,
    pub ident: String,
    pub inputs: Vec<InputShape<G>>,
    /// The declared return type; `None` when the function declares none.
    pub output: Option<TypeShape<G>>,
}

/// One item of an impl block.
pub enum ImplItemShape<G> {
    Fn(SignatureShape<G>),
    Other,
}

/// An impl block annotated with `#[custom_fields]`.
pub struct ImplShape<G> {
    pub is_trait_impl: bool,
    pub items: Vec<ImplItemShape<G>>,
}

/// Where in a signature an error points.
#[derive(Clone, Copy, Debug, PartialEq, Eq, Structural)]
pub enum SignatureSite {
    /// The signature as a whole.
    Signature,
    /// The input at this position.
    Input(usize),
    /// The pattern of the input at this position.
    InputPattern(usize),
    /// The type of the input at this position.
    InputType(usize),
    /// The declared return type.
    Returned,
}

/// A signature that breaks a resolver rule.
pub struct SignatureError {
    pub site: SignatureSite,
    pub message: &'static str,
}

/// Where in an impl block an error points.
#[derive(Clone, Copy, Debug, PartialEq, Eq, Structural)]
pub enum ImplSite {
    /// The impl block as a whole.
    Block,
    /// The item at this position.
    Item(usize),
    /// A site in the signature of the function at this position.
    InItem(usize, SignatureSite),
}

/// An impl block that breaks a `#[custom_fields]` rule.
pub struct ExpandError {
    pub site: ImplSite,
    pub message: &'static str,
}

/// One GraphQL argument of a field: the position of the Rust argument it
/// reads, and its camel-cased name.
pub struct ArgumentPlan {
    pub input: usize,
    pub name: String,
}

/// The root field a resolver becomes.
pub struct FieldPlan<'a, G> {
    /// The camel-cased field name.
    pub name: String,
    /// The output type `T` of the resolver's `Result<T>`.
    pub output: &'a G,
    /// The GraphQL arguments, in the order of the resolver's arguments.
    pub arguments: Vec<ArgumentPlan>,
}

/// A [`FieldPlan`] as plain values.
pub struct FieldView<G> {
    pub name: Seq<char>,
    pub output: G,
    pub arguments: Seq<(nat, Seq<char>)>,
}

impl<'a, G> View for FieldPlan<'a, G> {
    type V = FieldView<G>;

    open spec fn view(&self) -> FieldView<G> {
        FieldView {
            name: self.name@,
            output: *self.output,
            arguments: self.arguments@.map_values(|argument: ArgumentPlan| (argument.input as nat, argument.name@)),
        }
    }
}

pub const TRAIT_IMPL_MESSAGE: &'static str = "#[custom_fields] goes on an inherent impl block, not a trait impl";

pub const NOT_A_FUNCTION_MESSAGE: &'static str = "a #[custom_fields] impl block holds only resolver functions";

pub const NOT_ASYNC_MESSAGE: &'static str = "a resolver is `async fn`; it runs inside the request";

pub const NO_CONTEXT_MESSAGE: &'static str = "a resolver takes `ctx: &ModuleCtx<'_>` as its first argument";

pub const RECEIVER_MESSAGE: &'static str = "a resolver is an associated function, so it takes no `self`";

pub const PATTERN_MESSAGE: &'static str = "a resolver argument is a plain name; it becomes a GraphQL argument";

pub const CONTEXT_TYPE_MESSAGE: &'static str = "a resolver's first argument is `ctx: &ModuleCtx<'_>` — the only Store access a Module has";

pub const RETURN_MESSAGE: &'static str = "a resolver returns `module_host::Result<T>`, so its output type is declared";

/// The output type of a resolver: the first angle-bracketed argument of a
/// return type whose last path segment is `Result`.
pub open spec fn output_spec<G>(signature: SignatureShape<G>) -> Result<G, SignatureSite> {
    match signature.output {
        None => Err(SignatureSite::Signature),
        Some(returned) => match returned {
            TypeShape::Path(Some(segment)) => if segment.ident@ == "Result"@ {
                match segment.arguments {
                    SegmentArguments::AngleBracketed(parameters) => if parameters@.len() > 0 {
                        Ok(parameters@[0])
                    } else {
                        Err(SignatureSite::Returned)
                    },
                    _ => Err(SignatureSite::Returned),
                }
            } else {
                Err(SignatureSite::Returned)
            },
            _ => Err(SignatureSite::Returned),
        },
    }
}

/// Where a first argument that is not `&ModuleCtx` is reported; `None`
/// when it is a reference to a path whose last segment is `ModuleCtx`.
pub open spec fn context_violation<G>(argument: InputShape<G>) -> Option<SignatureSite> {
    match argument {
        InputShape::Receiver => Some(SignatureSite::Input(0)),
        InputShape::Typed { ty, .. } => match ty {
            TypeShape::Reference(referent) => match *referent {
                TypeShape::Path(Some(segment)) => if segment.ident@ == "ModuleCtx"@ {
                    None
                } else {
                    Some(SignatureSite::InputType(0))
                },
                _ => Some(SignatureSite::InputType(0)),
            },
            _ => Some(SignatureSite::InputType(0)),
        },
    }
}

/// The error for a GraphQL argument at position `k`, if it breaks a rule:
/// a receiver, or a pattern that is not a plain name.
pub open spec fn argument_violation<G>(argument: InputShape<G>, k: usize) -> Option<(SignatureSite, Seq<char>)> {
    match argument {
        InputShape::Receiver => Some((SignatureSite::Input(k), RECEIVER_MESSAGE@)),
        InputShape::Typed { name: None, .. } => Some((SignatureSite::InputPattern(k), PATTERN_MESSAGE@)),
        _ => None,
    }
}

/// The first error among the inputs at positions `1..n`.
pub open spec fn first_argument_violation<G>(inputs: Seq<InputShape<G>>, n: int) -> Option<(SignatureSite, Seq<char>)>
    decreases n,
{
    if n <= 1 {
        None
    } else {
        match first_argument_violation(inputs, n - 1) {
            Some(violation) => Some(violation),
            None => argument_violation(inputs[n - 1], (n - 1) as usize),
        }
    }
}

/// The Rust name of a typed, plainly named argument.
pub open spec fn argument_name<G>(argument: InputShape<G>) -> Seq<char> {
    match argument {
        InputShape::Typed { name: Some(name), .. } => name@,
        _ => Seq::empty(),
    }
}

/// The GraphQL arguments of a resolver: every input after the first, by
/// position and camel-cased name.
pub open spec fn arguments_spec<G>(inputs: Seq<InputShape<G>>) -> Seq<(nat, Seq<char>)> {
    Seq::new(
        (inputs.len() - 1) as nat,
        |j: int| ((j + 1) as nat, spec_lower_camel_case(argument_name(inputs[j + 1]))),
    )
}

/// The root field a resolver signature becomes, or the first rule it
/// breaks with its site and message. The rules are checked in this order:
/// the function is `async`; it returns `Result<T>`; it has a first
/// argument; that argument is `&ModuleCtx`; every other argument is typed
/// and plainly named.
pub open spec fn field_spec<G>(signature: SignatureShape<G>) -> Result<FieldView<G>, (SignatureSite, Seq<char>)> {
    if !signature.is_async {
        Err((SignatureSite::Signature, NOT_ASYNC_MESSAGE@))
    } else {
        match output_spec(signature) {
            Err(site) => Err((site, RETURN_MESSAGE@)),
            Ok(output) => if signature.inputs@.len() == 0 {
                Err((SignatureSite::Signature, NO_CONTEXT_MESSAGE@))
            } else {
                match context_violation(signature.inputs@[0]) {
                    Some(site) => Err((site, CONTEXT_TYPE_MESSAGE@)),
                    None => match first_argument_violation(signature.inputs@, signature.inputs@.len() as int) {
                        Some(violation) => Err(violation),
                        None => Ok(FieldView {
                            name: spec_lower_camel_case(signature.ident@),
                            output,
                            arguments: arguments_spec(signature.inputs@),
                        }),
                    },
                }
            },
        }
    }
}

/// The fields of the first `n` items of an impl block, or the first error
/// among them.
pub open spec fn expand_items<G>(items: Seq<ImplItemShape<G>>, n: int) -> Result<Seq<FieldView<G>>, (ImplSite, Seq<char>)>
    decreases n,
{
    if n <= 0 {
        Ok(Seq::empty())
    } else {
        match expand_items(items, n - 1) {
            Err(error) => Err(error),
            Ok(fields) => match items[n - 1] {
                ImplItemShape::Other => Err((ImplSite::Item((n - 1) as usize), NOT_A_FUNCTION_MESSAGE@)),
                ImplItemShape::Fn(signature) => match field_spec(signature) {
                    Err((site, message)) => Err((ImplSite::InItem((n - 1) as usize, site), message)),
                    Ok(field) => Ok(fields.push(field)),
                },
            },
        }
    }
}

/// Once an argument breaks a rule, later arguments do not change which
/// error is reported.
proof fn lemma_argument_violation_persists<G>(inputs: Seq<InputShape<G>>, m: int, n: int)
    requires
        m <= n,
        first_argument_violation(inputs, m) is Some,
    ensures
        first_argument_violation(inputs, n) == first_argument_violation(inputs, m),
    decreases n - m,
{
    if m < n {
        lemma_argument_violation_persists(inputs, m, n - 1);
    }
}

/// Once an item breaks a rule, later items do not change which error is
/// reported.
proof fn lemma_item_error_persists<G>(items: Seq<ImplItemShape<G>>, m: int, n: int)
    requires
        m <= n,
        expand_items(items, m) is Err,
    ensures
        expand_items(items, n) == expand_items(items, m),
    decreases n - m,
{
    if m < n {
        lemma_item_error_persists(items, m, n - 1);
    }
}

/// The root fields of a `#[custom_fields]` impl block, one per function in
/// item order, or the first rule it breaks.
pub open spec fn expand_spec<G>(input: ImplShape<G>) -> Result<Seq<FieldView<G>>, (ImplSite, Seq<char>)> {
    if input.is_trait_impl {
        Err((ImplSite::Block, TRAIT_IMPL_MESSAGE@))
    } else {
        expand_items(input.items@, input.items@.len() as int)
    }
}

/// The fields of the first `n` items, when none of them breaks a rule: one
/// per item, each the field of that item's function.
proof fn lemma_expand_items_fields<G>(items: Seq<ImplItemShape<G>>, n: int)
    requires
        0 <= n <= items.len(),
        expand_items(items, n) is Ok,
    ensures
        match expand_items(items, n) {
            Ok(fields) => fields.len() == n && forall|k: int|
                0 <= k < n ==> match #[trigger] items[k] {
                    ImplItemShape::Fn(signature) => field_spec(signature) == Ok::<_, (SignatureSite, Seq<char>)>(fields[k]),
                    ImplItemShape::Other => false,
                },
            Err(_) => false,
        },
    decreases n,
{
    if n > 0 {
        lemma_expand_items_fields(items, n - 1);
    }
}

/// Every item of an accepted `#[custom_fields]` block is a resolver
/// function, and each becomes exactly one root field, in item order, named
/// by the camel-cased function name and with one argument per Rust argument
/// after the context.
pub proof fn law_one_field_per_resolver<G>(input: ImplShape<G>)
    requires
        expand_spec(input) is Ok,
    ensures
        !input.is_trait_impl,
        match expand_spec(input) {
            Ok(fields) => fields.len() == input.items@.len() && forall|k: int|
                0 <= k < input.items@.len() ==> match #[trigger] input.items@[k] {
                    ImplItemShape::Fn(signature) => {
                        &&& field_spec(signature) == Ok::<_, (SignatureSite, Seq<char>)>(fields[k])
                        &&& fields[k].name == spec_lower_camel_case(signature.ident@)
                        &&& fields[k].arguments.len() + 1 == signature.inputs@.len()
                    },
                    ImplItemShape::Other => false,
                },
            Err(_) => false,
        },
{
    lemma_expand_items_fields(input.items@, input.items@.len() as int);
}

/// The root fields of a `#[custom_fields]` impl block: one per resolver
/// function, in item order.
pub fn expand<'a, G>(input: &'a ImplShape<G>) -> (result: Result<Vec<FieldPlan<'a, G>>, ExpandError>)
    ensures
        match result {
            Ok(fields) => expand_spec(*input) == Ok::<_, (ImplSite, Seq<char>)>(
                fields@.map_values(|field: FieldPlan<'a, G>| field@),
            ),
            Err(error) => expand_spec(*input) == Err::<Seq<FieldView<G>>, _>((error.site, error.message@)),
        },
{
    if input.is_trait_impl {
        return Err(ExpandError { site: ImplSite::Block, message: TRAIT_IMPL_MESSAGE });
    }
    let mut fields: Vec<FieldPlan<'a, G>> = Vec::new();
    assert(fields@.map_values(|field: FieldPlan<'a, G>| field@) =~= Seq::empty());
    let mut k: usize = 0;
    while k < input.items.len()
        invariant
            !input.is_trait_impl,
            k <= input.items@.len(),
            expand_items(input.items@, k as int) == Ok::<_, (ImplSite, Seq<char>)>(
                fields@.map_values(|field: FieldPlan<'a, G>| field@),
            ),
        decreases input.items@.len() - k,
    {
        match &input.items[k] {
            ImplItemShape::Other => {
                proof {
                    lemma_item_error_persists(input.items@, k + 1, input.items@.len() as int);
                }
                return Err(ExpandError { site: ImplSite::Item(k), message: NOT_A_FUNCTION_MESSAGE });
            },
            ImplItemShape::Fn(signature) => {
                match field(signature) {
                    Err(error) => {
                        proof {
                            lemma_item_error_persists(input.items@, k + 1, input.items@.len() as int);
                        }
                        return Err(ExpandError { site: ImplSite::InItem(k, error.site), message: error.message });
                    },
                    Ok(plan) => {
                        let ghost before = fields@;
                        fields.push(plan);
                        assert(fields@.map_values(|field: FieldPlan<'a, G>| field@) =~= before.map_values(
                            |field: FieldPlan<'a, G>| field@,
                        ).push(plan@));
                    },
                }
            },
        }
        k += 1;
    }
    Ok(fields)
}

/// The root field one resolver signature becomes.
pub fn field<'a, G>(signature: &'a SignatureShape<G>) -> (result: Result<FieldPlan<'a, G>, SignatureError>)
    ensures
        match result {
            Ok(plan) => field_spec(*signature) == Ok::<_, (SignatureSite, Seq<char>)>(plan@),
            Err(error) => field_spec(*signature) == Err::<FieldView<G>, _>((error.site, error.message@)),
        },
{
    if !signature.is_async {
        return Err(SignatureError { site: SignatureSite::Signature, message: NOT_ASYNC_MESSAGE });
    }
    let name = graphql_name(signature.ident.as_str());
    let output = match output_type(signature) {
        Ok(output) => output,
        Err(site) => {
            return Err(SignatureError { site, message: RETURN_MESSAGE });
        },
    };
    let inputs = &signature.inputs;
    if inputs.len() == 0 {
        return Err(SignatureError { site: SignatureSite::Signature, message: NO_CONTEXT_MESSAGE });
    }
    if let Err(error) = require_module_ctx(&inputs[0]) {
        return Err(error);
    }
    let mut arguments: Vec<ArgumentPlan> = Vec::new();
    let mut k: usize = 1;
    while k < inputs.len()
        invariant
            inputs == &signature.inputs,
            signature.is_async,
            output_spec(*signature) == Ok::<G, SignatureSite>(*output),
            context_violation(inputs@[0]) is None,
            name@ == spec_lower_camel_case(signature.ident@),
            1 <= k <= inputs@.len(),
            first_argument_violation(inputs@, k as int) is None,
            arguments@.len() == k - 1,
            forall|j: int|
                0 <= j < k - 1 ==> (#[trigger] arguments@[j].input as nat, arguments@[j].name@)
                    == arguments_spec(inputs@)[j],
        decreases inputs@.len() - k,
    {
        match &inputs[k] {
            InputShape::Receiver => {
                proof {
                    lemma_argument_violation_persists(inputs@, k + 1, inputs@.len() as int);
                }
                return Err(SignatureError { site: SignatureSite::Input(k), message: RECEIVER_MESSAGE });
            },
            InputShape::Typed { name: None, .. } => {
                proof {
                    lemma_argument_violation_persists(inputs@, k + 1, inputs@.len() as int);
                }
                return Err(SignatureError { site: SignatureSite::InputPattern(k), message: PATTERN_MESSAGE });
            },
            InputShape::Typed { name: Some(argument), .. } => {
                let argument_name = graphql_name(argument.as_str());
                arguments.push(ArgumentPlan { input: k, name: argument_name });
            },
        }
        k += 1;
    }
    let plan = FieldPlan { name, output, arguments };
    assert(plan@.arguments =~= arguments_spec(inputs@));
    Ok(plan)
}

/// The output type `T` of a resolver returning `Result<T>`.
fn output_type<'a, G>(signature: &'a SignatureShape<G>) -> (result: Result<&'a G, SignatureSite>)
    ensures
        match result {
            Ok(output) => output_spec(*signature) == Ok::<G, SignatureSite>(*output),
            Err(site) => output_spec(*signature) == Err::<G, SignatureSite>(site),
        },
{
    match &signature.output {
        None => Err(SignatureSite::Signature),
        Some(TypeShape::Path(Some(segment))) => {
            if text_is(&segment.ident, "Result") {
                match &segment.arguments {
                    SegmentArguments::AngleBracketed(parameters) => {
                        if parameters.len() > 0 {
                            Ok(&parameters[0])
                        } else {
                            Err(SignatureSite::Returned)
                        }
                    },
                    _ => Err(SignatureSite::Returned),
                }
            } else {
                Err(SignatureSite::Returned)
            }
        },
        Some(_) => Err(SignatureSite::Returned),
    }
}

/// Checks that a resolver's first argument is `&ModuleCtx`.
fn require_module_ctx<G>(argument: &InputShape<G>) -> (result: Result<(), SignatureError>)
    ensures
        match result {
            Ok(()) => context_violation(*argument) is None,
            Err(error) => context_violation(*argument) == Some(error.site) && error.message@
                == CONTEXT_TYPE_MESSAGE@,
        },
{
    let site = match argument {
        InputShape::Receiver => SignatureSite::Input(0),
        InputShape::Typed { ty, .. } => match ty {
            TypeShape::Reference(referent) => match &**referent {
                TypeShape::Path(Some(segment)) => {
                    if text_is(&segment.ident, "ModuleCtx") {
                        return Ok(());
                    }
                    SignatureSite::InputType(0)
                },
                _ => SignatureSite::InputType(0),
            },
            _ => SignatureSite::InputType(0),
        },
    };
    Err(SignatureError { site, message: CONTEXT_TYPE_MESSAGE })
}

} // verus!
