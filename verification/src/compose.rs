//! The decisions of composing Modules into one schema.
//!
//! Every Module is first built alone into a mini-schema and its namespace
//! checked there, so a violation names the Module that caused it. A freshly
//! scaffolded Module registers nothing, and nothing is what it contributes:
//! it gets no mini-schema build and composes cleanly before its first
//! migration. The schema builder itself is driven by the host; what to
//! keep, drop, attach, and declare is decided here.

use vstd::prelude::*;
use crate::prefix_check::{check, check_spec, ComposeError, ComposeErrorView};

verus! {

/// How many items of each kind a Module's entity registration put into an
/// empty schema builder.
#[derive(Clone, Copy, Debug)]
pub struct BuilderCounts {
    pub queries: usize,
    pub mutations: usize,
    pub subscriptions: usize,
    pub outputs: usize,
    pub inputs: usize,
    pub enumerations: usize,
    pub unions: usize,
    pub scalars: usize,
}

impl BuilderCounts {
    /// Whether nothing at all was registered.
    pub open spec fn is_empty_spec(self) -> bool {
        &&& self.queries == 0
        &&& self.mutations == 0
        &&& self.subscriptions == 0
        &&& self.outputs == 0
        &&& self.inputs == 0
        &&& self.enumerations == 0
        &&& self.unions == 0
        &&& self.scalars == 0
    }
}

/// The names of a list of registered types or fields.
pub open spec fn names_view(names: Seq<String>) -> Seq<Seq<char>> {
    names.map_values(|name: String| name@)
}

/// Whether a Module contributes nothing to the schema: its custom
/// operations add nothing, and its entity registration fills nothing.
pub open spec fn contributes_nothing_spec(contributes_schema: bool, registered: BuilderCounts) -> bool {
    !contributes_schema && registered.is_empty_spec()
}

/// Whether a Module contributes nothing, so that it gets no mini-schema
/// build and no namespace check.
pub fn contributes_nothing(contributes_schema: bool, registered: &BuilderCounts) -> (nothing: bool)
    ensures
        nothing == contributes_nothing_spec(contributes_schema, *registered),
{
    if contributes_schema {
        return false;
    }
    registered.queries == 0 && registered.mutations == 0 && registered.subscriptions == 0
        && registered.outputs == 0 && registered.inputs == 0 && registered.enumerations == 0
        && registered.unions == 0 && registered.scalars == 0
}

/// The outcome of checking one Module's mini-schema: the build's error, or
/// the namespace check of its SDL.
pub open spec fn module_check_spec(module: Seq<char>, mini: Result<Seq<char>, Seq<char>>) -> Option<ComposeErrorView> {
    match mini {
        Err(message) => Some(ComposeErrorView::Schema(message)),
        Ok(sdl) => check_spec(module, sdl),
    }
}

/// Checks one Module given its mini-schema: the SDL it printed, or the
/// message of the build that failed.
pub fn check_module(module: &'static str, mini: Result<String, String>) -> (result: Result<(), ComposeError>)
    ensures
        match result {
            Ok(()) => module_check_spec(module@, match mini {
                Ok(sdl) => Ok(sdl@),
                Err(message) => Err(message@),
            }) is None,
            Err(error) => module_check_spec(module@, match mini {
                Ok(sdl) => Ok(sdl@),
                Err(message) => Err(message@),
            }) == Some(error@),
        },
{
    match mini {
        Err(message) => Err(ComposeError::Schema(message)),
        Ok(sdl) => check(module, sdl.as_str()),
    }
}

/// How many mutations stay after a Module's registration, given how many
/// there were before it started registering: a Module that selects its
/// writes drops every mutation its registration added, and no others.
pub fn kept_mutations(before: usize, after: usize, replaces_generated_writes: bool) -> (kept: usize)
    requires
        before <= after,
    ensures
        kept == (if replaces_generated_writes { before } else { after }),
{
    if replaces_generated_writes {
        before
    } else {
        after
    }
}

/// The Subscription root the schema declares: only when a Module
/// registered a subscription field.
pub fn subscription_root(subscription_fields: usize) -> (root: Option<&'static str>)
    ensures
        match root {
            Some(name) => subscription_fields > 0 && name@ == "Subscription"@,
            None => subscription_fields == 0,
        },
{
    if subscription_fields > 0 {
        Some("Subscription")
    } else {
        None
    }
}

/// Whether `name` is among `names`.
pub fn contains_name(names: &Vec<String>, name: &str) -> (found: bool)
    ensures
        found == names_view(names@).contains(name@),
{
    let wanted = name.to_owned();
    let mut i: usize = 0;
    while i < names.len()
        invariant
            wanted@ == name@,
            i <= names@.len(),
            forall|j: int| 0 <= j < i ==> names@[j]@ != name@,
        decreases names@.len() - i,
    {
        if names[i].eq(&wanted) {
            assert(names_view(names@)[i as int] == name@);
            return true;
        }
        i += 1;
    }
    assert(!names_view(names@).contains(name@)) by {
        if names_view(names@).contains(name@) {
            let j = choose|j: int| 0 <= j < names_view(names@).len() && names_view(names@)[j] == name@;
            assert(names@[j]@ == name@);
        }
    }
    false
}

/// Whether a type named `name` is pushed: only when no registrar pushed one
/// under that name before, so generated and hooked registrars combine in
/// any mix.
pub fn first_registration(existing: &Vec<String>, name: &str) -> (push: bool)
    ensures
        push == !names_view(existing@).contains(name@),
{
    !contains_name(existing, name)
}

/// Which input types stay, per input in order: those that no write
/// selection dropped.
pub fn retained_inputs(inputs: &Vec<String>, dropped: &Vec<String>) -> (kept: Vec<bool>)
    ensures
        kept@.len() == inputs@.len(),
        forall|i: int| 0 <= i < inputs@.len() ==> kept@[i] == !names_view(dropped@).contains(#[trigger] inputs@[i]@),
{
    let mut kept: Vec<bool> = Vec::new();
    let mut i: usize = 0;
    while i < inputs.len()
        invariant
            i <= inputs@.len(),
            kept@.len() == i,
            forall|j: int| 0 <= j < i ==> kept@[j] == !names_view(dropped@).contains(#[trigger] inputs@[j]@),
        decreases inputs@.len() - i,
    {
        kept.push(!contains_name(dropped, inputs[i].as_str()));
        i += 1;
    }
    kept
}

/// Which output objects a computed field attaches to, per object in order:
/// every object named like the Model's object, not only the first, since an
/// entity may contribute several objects under one name.
pub fn attach_targets(outputs: &Vec<String>, object_name: &str) -> (targets: Vec<bool>)
    ensures
        targets@.len() == outputs@.len(),
        forall|i: int| 0 <= i < outputs@.len() ==> targets@[i] == (#[trigger] outputs@[i]@ == object_name@),
{
    let wanted = object_name.to_owned();
    let mut targets: Vec<bool> = Vec::new();
    let mut i: usize = 0;
    while i < outputs.len()
        invariant
            wanted@ == object_name@,
            i <= outputs@.len(),
            targets@.len() == i,
            forall|j: int| 0 <= j < i ==> targets@[j] == (#[trigger] outputs@[j]@ == object_name@),
        decreases outputs@.len() - i,
    {
        targets.push(outputs[i].eq(&wanted));
        i += 1;
    }
    targets
}

/// A Module before its first migration registers nothing, so it is
/// skipped: no mini-schema is built for it and no namespace check runs.
pub proof fn law_scaffolded_module_is_skipped(registered: BuilderCounts)
    requires
        registered.is_empty_spec(),
    ensures
        contributes_nothing_spec(false, registered),
        !contributes_nothing_spec(true, registered),
{
}

/// A Module is skipped only when its registration put nothing of any kind
/// into the builder and its custom operations add nothing: one query,
/// mutation, subscription, output, input, enumeration, union, or scalar
/// makes it contribute, so its mini-schema is built and namespace-checked.
pub proof fn law_anything_registered_is_checked(contributes_schema: bool, registered: BuilderCounts)
    ensures
        contributes_nothing_spec(contributes_schema, registered) <==> {
            &&& !contributes_schema
            &&& registered.queries == 0
            &&& registered.mutations == 0
            &&& registered.subscriptions == 0
            &&& registered.outputs == 0
            &&& registered.inputs == 0
            &&& registered.enumerations == 0
            &&& registered.unions == 0
            &&& registered.scalars == 0
        },
{
}

} // verus!
