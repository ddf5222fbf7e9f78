//! The closed vocabulary a Module has for everything beyond generated CRUD.
//!
//! A Module's `custom` function registers against one of these. Everything
//! registered lands in the Module's own mini-schema, so the prefix check
//! covers custom operations with no new machinery. The set is closed by
//! decision: an application that needs something outside it writes a
//! host-level exception, and recurring exceptions are the signal to grow
//! this vocabulary, not the Module.
//!
//! The ledger below records what was registered, in order; the entries
//! themselves are opaque here (`R` registers on a schema builder, `C`
//! computes a field, `D` names the inputs a write selection drops, `H`
//! registers a write hook, `S` attaches schema data) and are performed by
//! the host when it builds the schema.

use vstd::prelude::*;

verus! {

/// What one Module registers beyond the CRUD its migrations generate.
pub struct CustomOps<R, C, D, H, S> {
    selects_writes: bool,
    escape_hatches: Vec<&'static str>,
    registrations: Vec<R>,
    computed_fields: Vec<C>,
    dropped_inputs: Vec<D>,
    hooks: Vec<H>,
    schema_data: Vec<S>,
}

/// A [`CustomOps`] ledger as plain values.
pub struct CustomOpsView<R, C, D, H, S> {
    pub selects_writes: bool,
    pub escape_hatches: Seq<&'static str>,
    pub registrations: Seq<R>,
    pub computed_fields: Seq<C>,
    pub dropped_inputs: Seq<D>,
    pub hooks: Seq<H>,
    pub schema_data: Seq<S>,
}

impl<R, C, D, H, S> View for CustomOps<R, C, D, H, S> {
    type V = CustomOpsView<R, C, D, H, S>;

    closed spec fn view(&self) -> CustomOpsView<R, C, D, H, S> {
        CustomOpsView {
            selects_writes: self.selects_writes,
            escape_hatches: self.escape_hatches@,
            registrations: self.registrations@,
            computed_fields: self.computed_fields@,
            dropped_inputs: self.dropped_inputs@,
            hooks: self.hooks@,
            schema_data: self.schema_data@,
        }
    }
}

impl<R, C, D, H, S> CustomOpsView<R, C, D, H, S> {
    /// The ledger of a Module that registered nothing yet.
    pub open spec fn empty() -> Self {
        CustomOpsView {
            selects_writes: false,
            escape_hatches: Seq::empty(),
            registrations: Seq::empty(),
            computed_fields: Seq::empty(),
            dropped_inputs: Seq::empty(),
            hooks: Seq::empty(),
            schema_data: Seq::empty(),
        }
    }

    /// This ledger with one more schema registration.
    pub open spec fn registering(self, registration: R) -> Self {
        CustomOpsView { registrations: self.registrations.push(registration), ..self }
    }

    /// Whether the Module adds anything to its mini-schema.
    pub open spec fn contributes_schema(self) -> bool {
        self.registrations.len() > 0 || self.computed_fields.len() > 0
    }
}

/// What a ledger hands the host to perform: its entries, in registration
/// order.
pub struct Applied<R, C, D, H, S> {
    pub registrations: Vec<R>,
    pub computed_fields: Vec<C>,
    pub dropped_inputs: Vec<D>,
    pub hooks: Vec<H>,
    pub schema_data: Vec<S>,
}

impl<R, C, D, H, S> Default for CustomOps<R, C, D, H, S> {
    /// A ledger with nothing registered.
    fn default() -> (ops: Self)
        ensures
            ops@ == CustomOpsView::<R, C, D, H, S>::empty(),
    {
        CustomOps {
            selects_writes: false,
            escape_hatches: Vec::new(),
            registrations: Vec::new(),
            computed_fields: Vec::new(),
            dropped_inputs: Vec::new(),
            hooks: Vec::new(),
            schema_data: Vec::new(),
        }
    }
}

impl<R, C, D, H, S> CustomOps<R, C, D, H, S> {
    /// A custom output object. Registering the type is separate from
    /// returning it, so one output can serve several operations.
    pub fn output(&mut self, registration: R)
        ensures
            final(self)@ == old(self)@.registering(registration),
    {
        self.registrations.push(registration);
    }

    /// A type whose resolver functions become Query root fields.
    pub fn query(&mut self, registration: R)
        ensures
            final(self)@ == old(self)@.registering(registration),
    {
        self.registrations.push(registration);
    }

    /// A type whose resolver functions become Mutation root fields.
    pub fn mutation(&mut self, registration: R)
        ensures
            final(self)@ == old(self)@.registering(registration),
    {
        self.registrations.push(registration);
    }

    /// An escape-hatch mutation, declared under the camel-cased root field
    /// name its written exception is filed under. It registers like any
    /// mutation, and is listed among the declared escape hatches.
    pub fn escape_hatch(&mut self, declared_as: &'static str, registration: R)
        ensures
            final(self)@ == (CustomOpsView {
                escape_hatches: old(self)@.escape_hatches.push(declared_as),
                ..old(self)@.registering(registration)
            }),
    {
        self.escape_hatches.push(declared_as);
        self.mutation(registration);
    }

    /// A subscription: its event type is registered as an output, the
    /// event channel is attached to the schema, and the subscription field
    /// is registered after the output.
    pub fn subscription(&mut self, output: R, channel: S, field: R)
        ensures
            final(self)@ == (CustomOpsView {
                schema_data: old(self)@.schema_data.push(channel),
                ..old(self)@.registering(output).registering(field)
            }),
    {
        self.output(output);
        self.schema_data.push(channel);
        self.registrations.push(field);
    }

    /// A read-only field computed from a Model's row.
    pub fn computed_field(&mut self, computed: C)
        ensures
            final(self)@ == (CustomOpsView {
                computed_fields: old(self)@.computed_fields.push(computed),
                ..old(self)@
            }),
    {
        self.computed_fields.push(computed);
    }

    /// A selection of a Model's generated writes. Declaring it for any Model
    /// replaces the whole Module's generated write surface.
    pub fn writes(&mut self, registration: R, dropped: D)
        ensures
            final(self)@ == (CustomOpsView {
                selects_writes: true,
                dropped_inputs: old(self)@.dropped_inputs.push(dropped),
                ..old(self)@.registering(registration)
            }),
    {
        self.selects_writes = true;
        self.registrations.push(registration);
        self.dropped_inputs.push(dropped);
    }

    /// A rule this Module enforces over writes to one of its Models.
    pub fn write_hook(&mut self, hook: H)
        ensures
            final(self)@ == (CustomOpsView { hooks: old(self)@.hooks.push(hook), ..old(self)@ }),
    {
        self.hooks.push(hook);
    }

    /// The escape-hatch operations this Module declared, in declaration
    /// order.
    pub fn declared_escape_hatches(&self) -> (hatches: &[&'static str])
        ensures
            hatches@ == self@.escape_hatches,
    {
        self.escape_hatches.as_slice()
    }

    /// Whether the Module adds anything to its mini-schema: a registration
    /// or a computed field.
    pub fn contributes_schema(&self) -> (contributes: bool)
        ensures
            contributes == self@.contributes_schema(),
    {
        self.registrations.len() > 0 || self.computed_fields.len() > 0
    }

    /// Whether the Module selected its generated writes, replacing the
    /// generated write surface wholesale.
    pub fn replaces_generated_writes(&self) -> (replaces: bool)
        ensures
            replaces == self@.selects_writes,
    {
        self.selects_writes
    }

    /// The ledger's entries, for the host to perform in order.
    pub fn into_applied(self) -> (applied: Applied<R, C, D, H, S>)
        ensures
            applied.registrations@ == self@.registrations,
            applied.computed_fields@ == self@.computed_fields,
            applied.dropped_inputs@ == self@.dropped_inputs,
            applied.hooks@ == self@.hooks,
            applied.schema_data@ == self@.schema_data,
    {
        Applied {
            registrations: self.registrations,
            computed_fields: self.computed_fields,
            dropped_inputs: self.dropped_inputs,
            hooks: self.hooks,
            schema_data: self.schema_data,
        }
    }
}

/// A Module that registered nothing yet contributes nothing to its
/// mini-schema, and registering anything beyond a write hook makes it
/// contribute.
pub proof fn law_scaffolded_module_contributes_nothing<R, C, D, H, S>(
    ops: CustomOpsView<R, C, D, H, S>,
    registration: R,
)
    ensures
        !CustomOpsView::<R, C, D, H, S>::empty().contributes_schema(),
        ops.registering(registration).contributes_schema(),
{
}

} // verus!
