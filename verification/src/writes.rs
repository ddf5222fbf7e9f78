//! Per-operation selection of a Model's generated writes.
//!
//! Registering a Model publishes create-one, create-batch, update, and
//! delete together or not at all. [`Writes`] makes the choice a declaration
//! instead: per operation, and per operation whether it runs the Module's
//! hooks. Whatever is left `Off` is absent from the published contract.

use vstd::prelude::*;

verus! {

/// One of the four generated writes.
#[derive(Clone, Copy, Debug, PartialEq, Eq, Structural)]
pub enum Write {
    CreateOne,
    CreateBatch,
    Update,
    Delete,
}

/// How one generated write is published.
#[derive(Clone, Copy, Debug, PartialEq, Eq, Structural)]
pub enum Mode {
    /// Absent from the contract.
    Off,
    /// Published as the framework generates it, running no hooks.
    Generated,
    /// Published with the Module's hooks running; the field's shape is the
    /// generated one.
    Hooked,
}

/// The write surface one Model publishes.
///
/// Start from one of the three starting points and narrow it.
#[derive(Clone, Copy, Debug, PartialEq, Eq, Structural)]
pub struct Writes {
    pub(crate) create_one: Mode,
    pub(crate) create_batch: Mode,
    pub(crate) update: Mode,
    pub(crate) delete: Mode,
}

/// The generated framework writes to publish for one registered entity.
#[derive(Clone, Copy, Debug, PartialEq, Eq, Structural)]
pub struct GeneratedMutations {
    pub create_one: bool,
    pub create_batch: bool,
    pub update: bool,
    pub delete: bool,
}

/// One step of registering a Model's write surface on a schema builder.
///
/// The three support types are pushed only if no earlier step pushed one of
/// the same name; a field step always adds the field.
#[derive(Clone, Copy, Debug, PartialEq, Eq, Structural)]
pub enum Registration {
    /// The entity's basic output object.
    BasicObject,
    /// The entity's insert input object.
    InsertInput,
    /// The entity's update input object.
    UpdateInput,
    /// The mutation field serving `Write`, in the given (published) mode.
    Field(Write, Mode),
}

/// The one-element sequence `[item]` when `condition` holds, else empty.
pub open spec fn when<T>(condition: bool, item: T) -> Seq<T> {
    if condition { seq![item] } else { Seq::empty() }
}

impl GeneratedMutations {
    /// Whether this selection publishes `write`.
    pub open spec fn selects(self, write: Write) -> bool {
        match write {
            Write::CreateOne => self.create_one,
            Write::CreateBatch => self.create_batch,
            Write::Update => self.update,
            Write::Delete => self.delete,
        }
    }

    pub open spec fn any_spec(self) -> bool {
        self.create_one || self.create_batch || self.update || self.delete
    }

    /// The registration steps for this selection, in order: nothing at all
    /// when nothing is selected; otherwise the basic object, the inputs the
    /// selected writes need, then one field per selected write.
    #[verifier::opaque]
    pub open spec fn plan_spec(self) -> Seq<Registration> {
        if !self.any_spec() {
            Seq::empty()
        } else {
            seq![Registration::BasicObject]
                + when(self.create_one || self.create_batch, Registration::InsertInput)
                + when(self.update, Registration::UpdateInput)
                + when(self.create_one, Registration::Field(Write::CreateOne, Mode::Generated))
                + when(self.create_batch, Registration::Field(Write::CreateBatch, Mode::Generated))
                + when(self.update, Registration::Field(Write::Update, Mode::Generated))
                + when(self.delete, Registration::Field(Write::Delete, Mode::Generated))
        }
    }

    /// Only create-one.
    pub fn create_one_only() -> (selection: Self)
        ensures
            forall|write: Write| #[trigger] selection.selects(write) == (write == Write::CreateOne),
    {
        GeneratedMutations { create_one: true, create_batch: false, update: false, delete: false }
    }

    /// The whole generated bundle.
    pub fn all() -> (selection: Self)
        ensures
            forall|write: Write| #[trigger] selection.selects(write),
    {
        GeneratedMutations { create_one: true, create_batch: true, update: true, delete: true }
    }

    /// Whether anything is selected.
    pub fn any(self) -> (any: bool)
        ensures
            any == self.any_spec(),
            any == exists|write: Write| #[trigger] self.selects(write),
    {
        proof {
            if self.create_one { assert(self.selects(Write::CreateOne)); }
            if self.create_batch { assert(self.selects(Write::CreateBatch)); }
            if self.update { assert(self.selects(Write::Update)); }
            if self.delete { assert(self.selects(Write::Delete)); }
        }
        self.create_one || self.create_batch || self.update || self.delete
    }

    /// The registration steps that publish this selection of the generated
    /// bundle.
    pub fn registration_plan(self) -> (plan: Vec<Registration>)
        ensures
            plan@ == self.plan_spec(),
    {
        reveal(GeneratedMutations::plan_spec);
        let mut plan: Vec<Registration> = Vec::new();
        if !self.any() {
            assert(plan@ =~= self.plan_spec());
            return plan;
        }
        plan.push(Registration::BasicObject);
        if self.create_one || self.create_batch {
            plan.push(Registration::InsertInput);
        }
        if self.update {
            plan.push(Registration::UpdateInput);
        }
        if self.create_one {
            plan.push(Registration::Field(Write::CreateOne, Mode::Generated));
        }
        if self.create_batch {
            plan.push(Registration::Field(Write::CreateBatch, Mode::Generated));
        }
        if self.update {
            plan.push(Registration::Field(Write::Update, Mode::Generated));
        }
        if self.delete {
            plan.push(Registration::Field(Write::Delete, Mode::Generated));
        }
        assert(plan@ =~= self.plan_spec());
        plan
    }
}

/// Whether a write in this mode appears in the published contract.
pub open spec fn published(mode: Mode) -> bool {
    mode != Mode::Off
}

impl Writes {
    /// The mode this selection gives to `write`.
    pub closed spec fn mode_of(self, write: Write) -> Mode {
        match write {
            Write::CreateOne => self.create_one,
            Write::CreateBatch => self.create_batch,
            Write::Update => self.update,
            Write::Delete => self.delete,
        }
    }

    /// This selection with `write` in `mode` and every other write as it was.
    pub closed spec fn with_mode(self, write: Write, mode: Mode) -> Writes {
        match write {
            Write::CreateOne => Writes { create_one: mode, ..self },
            Write::CreateBatch => Writes { create_batch: mode, ..self },
            Write::Update => Writes { update: mode, ..self },
            Write::Delete => Writes { delete: mode, ..self },
        }
    }

    /// A selection that gives every write the same mode.
    pub closed spec fn uniform(mode: Mode) -> Writes {
        Writes { create_one: mode, create_batch: mode, update: mode, delete: mode }
    }

    /// No writes at all: every mutation on this Model is a custom operation.
    pub fn none() -> (writes: Self)
        ensures
            writes == Writes::uniform(Mode::Off),
    {
        Writes { create_one: Mode::Off, create_batch: Mode::Off, update: Mode::Off, delete: Mode::Off }
    }

    /// What a Model publishes when it says nothing: all four generated
    /// writes, none of which runs a hook.
    pub fn all_generated() -> (writes: Self)
        ensures
            writes == Writes::uniform(Mode::Generated),
    {
        Writes {
            create_one: Mode::Generated,
            create_batch: Mode::Generated,
            update: Mode::Generated,
            delete: Mode::Generated,
        }
    }

    /// Create-one, update, and delete with the Module's hooks running.
    ///
    /// Create-batch is left off deliberately: there is no hooked batch
    /// create, so publishing it here would put one write beside its siblings
    /// that quietly skips every rule. A Module that wants it back says so
    /// with `.generated(Write::CreateBatch)`.
    pub fn all_hooked() -> (writes: Self)
        ensures
            writes == Writes::uniform(Mode::Hooked).with_mode(Write::CreateBatch, Mode::Off),
    {
        Writes {
            create_one: Mode::Hooked,
            create_batch: Mode::Off,
            update: Mode::Hooked,
            delete: Mode::Hooked,
        }
    }

    /// The mode this selection gives to `write`.
    pub fn mode(&self, write: Write) -> (mode: Mode)
        ensures
            mode == self.mode_of(write),
    {
        match write {
            Write::CreateOne => self.create_one,
            Write::CreateBatch => self.create_batch,
            Write::Update => self.update,
            Write::Delete => self.delete,
        }
    }

    /// Publish this write as the framework generates it, running no hooks.
    pub fn generated(self, write: Write) -> (writes: Self)
        ensures
            writes == self.with_mode(write, Mode::Generated),
    {
        self.set(write, Mode::Generated)
    }

    /// Publish this write with the Module's hooks running.
    pub fn hooked(self, write: Write) -> (writes: Self)
        ensures
            writes == self.with_mode(write, Mode::Hooked),
    {
        self.set(write, Mode::Hooked)
    }

    /// Drop this write from the contract.
    pub fn without(self, write: Write) -> (writes: Self)
        ensures
            writes == self.with_mode(write, Mode::Off),
    {
        self.set(write, Mode::Off)
    }

    pub(crate) fn set(self, write: Write, mode: Mode) -> (writes: Self)
        ensures
            writes == self.with_mode(write, mode),
    {
        let mut writes = self;
        match write {
            Write::CreateOne => writes.create_one = mode,
            Write::CreateBatch => writes.create_batch = mode,
            Write::Update => writes.update = mode,
            Write::Delete => writes.delete = mode,
        }
        writes
    }

    /// Whether the insert input type is still needed: some create is
    /// published.
    pub fn needs_insert_input(self) -> (needed: bool)
        ensures
            needed == (published(self.mode_of(Write::CreateOne)) || published(self.mode_of(Write::CreateBatch))),
    {
        !matches!(self.create_one, Mode::Off) || !matches!(self.create_batch, Mode::Off)
    }

    /// Whether the update input type is still needed: update is published.
    pub fn needs_update_input(self) -> (needed: bool)
        ensures
            needed == published(self.mode_of(Write::Update)),
    {
        !matches!(self.update, Mode::Off)
    }

    /// The input types a Module's selection drops from the schema, given
    /// the Model's insert and update input type names: the insert input
    /// when no create is published, then the update input when update is
    /// not.
    pub fn dropped_inputs(self, insert_input: String, update_input: String) -> (dropped: Vec<String>)
        ensures
            dropped@ == when(
                !(published(self.mode_of(Write::CreateOne)) || published(self.mode_of(Write::CreateBatch))),
                insert_input,
            ) + when(!published(self.mode_of(Write::Update)), update_input),
    {
        let mut dropped: Vec<String> = Vec::new();
        if !self.needs_insert_input() {
            dropped.push(insert_input);
        }
        if !self.needs_update_input() {
            dropped.push(update_input);
        }
        proof {
            assert(dropped@ =~= when(
                !(published(self.mode_of(Write::CreateOne)) || published(self.mode_of(Write::CreateBatch))),
                insert_input,
            ) + when(!published(self.mode_of(Write::Update)), update_input));
        }
        dropped
    }

    /// The writes to publish exactly as the framework generates them.
    pub fn generated_selection(self) -> (selection: GeneratedMutations)
        ensures
            forall|write: Write| #[trigger] selection.selects(write)
                == (self.mode_of(write) == Mode::Generated),
    {
        GeneratedMutations {
            create_one: matches!(self.create_one, Mode::Generated),
            create_batch: matches!(self.create_batch, Mode::Generated),
            update: matches!(self.update, Mode::Generated),
            delete: matches!(self.delete, Mode::Generated),
        }
    }
}

impl Writes {
    /// The registration steps that publish this selection: the generated
    /// part of it first, then a hooked create-one, update, and delete for
    /// each write published as hooked, each with the support types its field
    /// needs.
    pub open spec fn plan_spec(self) -> Seq<Registration> {
        self.generated_part().plan_spec() + self.hooked_create_part() + self.hooked_update_part()
            + self.hooked_delete_part()
    }

    /// The registration steps that publish this selection.
    pub fn registration_plan(self) -> (plan: Vec<Registration>)
        ensures
            plan@ == self.plan_spec(),
    {
        let selection = self.generated_selection();
        let mut plan = selection.registration_plan();
        proof {
            assert(selection.selects(Write::CreateOne) == (self.mode_of(Write::CreateOne) == Mode::Generated));
            assert(selection.selects(Write::CreateBatch) == (self.mode_of(Write::CreateBatch) == Mode::Generated));
            assert(selection.selects(Write::Update) == (self.mode_of(Write::Update) == Mode::Generated));
            assert(selection.selects(Write::Delete) == (self.mode_of(Write::Delete) == Mode::Generated));
            assert(selection == self.generated_part());
            assert(plan@ == self.generated_part().plan_spec());
        }
        let ghost g = plan@;
        if matches!(self.create_one, Mode::Hooked) {
            plan.push(Registration::BasicObject);
            plan.push(Registration::InsertInput);
            plan.push(Registration::Field(Write::CreateOne, Mode::Hooked));
        }
        let ghost gc = plan@;
        assert(gc =~= g + self.hooked_create_part());
        if matches!(self.update, Mode::Hooked) {
            plan.push(Registration::BasicObject);
            plan.push(Registration::UpdateInput);
            plan.push(Registration::Field(Write::Update, Mode::Hooked));
        }
        let ghost gcu = plan@;
        assert(gcu =~= gc + self.hooked_update_part());
        if matches!(self.delete, Mode::Hooked) {
            plan.push(Registration::Field(Write::Delete, Mode::Hooked));
        }
        assert(plan@ =~= gcu + self.hooked_delete_part());
        assert(plan@ =~= self.plan_spec());
        plan
    }
}

/// The modes of the mutation fields that `plan` registers for `write`, in
/// registration order.
pub open spec fn field_modes(plan: Seq<Registration>, write: Write) -> Seq<Mode>
    decreases plan.len(),
{
    if plan.len() == 0 {
        Seq::empty()
    } else {
        field_modes(plan.drop_last(), write) + match plan.last() {
            Registration::Field(other, mode) => when(other == write, mode),
            _ => Seq::empty(),
        }
    }
}

proof fn lemma_field_modes_concat(a: Seq<Registration>, b: Seq<Registration>, write: Write)
    ensures
        field_modes(a + b, write) == field_modes(a, write) + field_modes(b, write),
    decreases b.len(),
{
    if b.len() == 0 {
        assert(a + b =~= a);
        assert(field_modes(a, write) + field_modes(b, write) =~= field_modes(a, write));
    } else {
        assert((a + b).drop_last() =~= a + b.drop_last());
        lemma_field_modes_concat(a, b.drop_last(), write);
        assert(field_modes(a, write) + field_modes(b.drop_last(), write) + field_modes(b, write).subrange(
            field_modes(b.drop_last(), write).len() as int,
            field_modes(b, write).len() as int,
        ) =~= field_modes(a, write) + field_modes(b, write));
    }
}

proof fn lemma_field_modes_of_one(item: Registration, write: Write)
    ensures
        field_modes(seq![item], write) == match item {
            Registration::Field(other, mode) => when(other == write, mode),
            _ => Seq::<Mode>::empty(),
        },
{
    assert(seq![item].drop_last() =~= Seq::<Registration>::empty());
    assert(field_modes(Seq::<Registration>::empty(), write) =~= Seq::<Mode>::empty());
    let tail = match item {
        Registration::Field(other, mode) => when(other == write, mode),
        _ => Seq::<Mode>::empty(),
    };
    assert(Seq::<Mode>::empty() + tail =~= tail);
}

proof fn lemma_field_modes_of_when(condition: bool, item: Registration, write: Write)
    ensures
        field_modes(when(condition, item), write) == if condition {
            match item {
                Registration::Field(other, mode) => when(other == write, mode),
                _ => Seq::<Mode>::empty(),
            }
        } else {
            Seq::<Mode>::empty()
        },
{
    if condition {
        lemma_field_modes_of_one(item, write);
    }
}

impl Writes {
    /// The writes this selection leaves in their generated form.
    pub open spec fn generated_part(self) -> GeneratedMutations {
        GeneratedMutations {
            create_one: self.mode_of(Write::CreateOne) == Mode::Generated,
            create_batch: self.mode_of(Write::CreateBatch) == Mode::Generated,
            update: self.mode_of(Write::Update) == Mode::Generated,
            delete: self.mode_of(Write::Delete) == Mode::Generated,
        }
    }

    /// The hooked create-one registration: basic object, insert input, field.
    pub open spec fn hooked_create_part(self) -> Seq<Registration> {
        if self.mode_of(Write::CreateOne) == Mode::Hooked {
            seq![
                Registration::BasicObject,
                Registration::InsertInput,
                Registration::Field(Write::CreateOne, Mode::Hooked),
            ]
        } else {
            Seq::empty()
        }
    }

    /// The hooked update registration: basic object, update input, field.
    pub open spec fn hooked_update_part(self) -> Seq<Registration> {
        if self.mode_of(Write::Update) == Mode::Hooked {
            seq![
                Registration::BasicObject,
                Registration::UpdateInput,
                Registration::Field(Write::Update, Mode::Hooked),
            ]
        } else {
            Seq::empty()
        }
    }

    /// The hooked delete registration: the field alone.
    pub open spec fn hooked_delete_part(self) -> Seq<Registration> {
        when(self.mode_of(Write::Delete) == Mode::Hooked, Registration::Field(Write::Delete, Mode::Hooked))
    }
}

proof fn lemma_generated_fields(selection: GeneratedMutations, write: Write)
    ensures
        field_modes(selection.plan_spec(), write) == when(selection.selects(write), Mode::Generated),
{
    reveal(GeneratedMutations::plan_spec);
    let g0 = seq![Registration::BasicObject];
    let g1 = when(selection.create_one || selection.create_batch, Registration::InsertInput);
    let g2 = when(selection.update, Registration::UpdateInput);
    let g3 = when(selection.create_one, Registration::Field(Write::CreateOne, Mode::Generated));
    let g4 = when(selection.create_batch, Registration::Field(Write::CreateBatch, Mode::Generated));
    let g5 = when(selection.update, Registration::Field(Write::Update, Mode::Generated));
    let g6 = when(selection.delete, Registration::Field(Write::Delete, Mode::Generated));
    if !selection.any_spec() {
        assert(field_modes(selection.plan_spec(), write) =~= Seq::<Mode>::empty());
        return;
    }
    lemma_field_modes_of_one(Registration::BasicObject, write);
    lemma_field_modes_of_when(selection.create_one || selection.create_batch, Registration::InsertInput, write);
    lemma_field_modes_of_when(selection.update, Registration::UpdateInput, write);
    lemma_field_modes_of_when(selection.create_one, Registration::Field(Write::CreateOne, Mode::Generated), write);
    lemma_field_modes_of_when(selection.create_batch, Registration::Field(Write::CreateBatch, Mode::Generated), write);
    lemma_field_modes_of_when(selection.update, Registration::Field(Write::Update, Mode::Generated), write);
    lemma_field_modes_of_when(selection.delete, Registration::Field(Write::Delete, Mode::Generated), write);
    lemma_field_modes_concat(g0, g1, write);
    lemma_field_modes_concat(g0 + g1, g2, write);
    lemma_field_modes_concat(g0 + g1 + g2, g3, write);
    lemma_field_modes_concat(g0 + g1 + g2 + g3, g4, write);
    lemma_field_modes_concat(g0 + g1 + g2 + g3 + g4, g5, write);
    lemma_field_modes_concat(g0 + g1 + g2 + g3 + g4 + g5, g6, write);
    let e = Seq::<Mode>::empty();
    assert(field_modes(g0, write) =~= e);
    assert(field_modes(g1, write) =~= e);
    assert(field_modes(g2, write) =~= e);
    match write {
        Write::CreateOne => {
            assert(field_modes(g4, write) =~= e);
            assert(field_modes(g5, write) =~= e);
            assert(field_modes(g6, write) =~= e);
        }
        Write::CreateBatch => {
            assert(field_modes(g3, write) =~= e);
            assert(field_modes(g5, write) =~= e);
            assert(field_modes(g6, write) =~= e);
        }
        Write::Update => {
            assert(field_modes(g3, write) =~= e);
            assert(field_modes(g4, write) =~= e);
            assert(field_modes(g6, write) =~= e);
        }
        Write::Delete => {
            assert(field_modes(g3, write) =~= e);
            assert(field_modes(g4, write) =~= e);
            assert(field_modes(g5, write) =~= e);
        }
    }
    assert(field_modes(selection.plan_spec(), write) =~= when(selection.selects(write), Mode::Generated));
}

proof fn lemma_three_fields(a: Registration, b: Registration, c: Registration, write: Write)
    requires
        !(a is Field),
        !(b is Field),
    ensures
        field_modes(seq![a, b, c], write) == field_modes(seq![c], write),
{
    lemma_field_modes_of_one(a, write);
    lemma_field_modes_of_one(b, write);
    lemma_field_modes_of_one(c, write);
    lemma_field_modes_concat(seq![a], seq![b], write);
    lemma_field_modes_concat(seq![a] + seq![b], seq![c], write);
    assert(seq![a, b, c] =~= seq![a] + seq![b] + seq![c]);
    assert(field_modes(seq![a], write) =~= Seq::<Mode>::empty());
    assert(field_modes(seq![b], write) =~= Seq::<Mode>::empty());
    assert(field_modes(seq![a, b, c], write) =~= field_modes(seq![c], write));
}

proof fn lemma_hooked_fields(writes: Writes, write: Write)
    ensures
        field_modes(writes.hooked_create_part() + writes.hooked_update_part() + writes.hooked_delete_part(), write)
            == when(writes.mode_of(write) == Mode::Hooked && write != Write::CreateBatch, Mode::Hooked),
{
    let c = writes.hooked_create_part();
    let u = writes.hooked_update_part();
    let d = writes.hooked_delete_part();
    let e = Seq::<Mode>::empty();
    lemma_field_modes_concat(c, u, write);
    lemma_field_modes_concat(c + u, d, write);
    if writes.create_one == Mode::Hooked {
        lemma_three_fields(Registration::BasicObject, Registration::InsertInput,
            Registration::Field(Write::CreateOne, Mode::Hooked), write);
        lemma_field_modes_of_one(Registration::Field(Write::CreateOne, Mode::Hooked), write);
    } else {
        assert(field_modes(c, write) =~= e);
    }
    if writes.update == Mode::Hooked {
        lemma_three_fields(Registration::BasicObject, Registration::UpdateInput,
            Registration::Field(Write::Update, Mode::Hooked), write);
        lemma_field_modes_of_one(Registration::Field(Write::Update, Mode::Hooked), write);
    } else {
        assert(field_modes(u, write) =~= e);
    }
    lemma_field_modes_of_when(writes.delete == Mode::Hooked, Registration::Field(Write::Delete, Mode::Hooked), write);
    let fc = field_modes(c, write);
    let fu = field_modes(u, write);
    let fd = field_modes(d, write);
    assert(fc =~= when(write == Write::CreateOne && writes.create_one == Mode::Hooked, Mode::Hooked));
    assert(fu =~= when(write == Write::Update && writes.update == Mode::Hooked, Mode::Hooked));
    assert(fd =~= when(write == Write::Delete && writes.delete == Mode::Hooked, Mode::Hooked));
    match write {
        Write::CreateOne => { assert(fc + fu + fd =~= fc); }
        Write::CreateBatch => { assert(fc + fu + fd =~= e); }
        Write::Update => { assert(fc + fu + fd =~= fu); }
        Write::Delete => { assert(fc + fu + fd =~= fd); }
    }
}

/// Registering a selection adds exactly one mutation field per published
/// write, in the mode the selection gives it, and no field for a write left
/// off. (There is no hooked batch create: a create-batch marked hooked gets
/// no field at all, so that one setting is left out here.)
pub proof fn law_one_field_per_published_write(writes: Writes, write: Write)
    requires
        !(write == Write::CreateBatch && writes.mode_of(write) == Mode::Hooked),
    ensures
        field_modes(writes.plan_spec(), write) == when(
            published(writes.mode_of(write)),
            writes.mode_of(write),
        ),
{
    let generated = writes.generated_part().plan_spec();
    let hooked = writes.hooked_create_part() + writes.hooked_update_part() + writes.hooked_delete_part();
    assert(writes.plan_spec() =~= generated + hooked);
    lemma_field_modes_concat(generated, hooked, write);
    lemma_generated_fields(writes.generated_part(), write);
    lemma_hooked_fields(writes, write);
    let mode = writes.mode_of(write);
    let fg = field_modes(generated, write);
    let fh = field_modes(hooked, write);
    if mode == Mode::Generated {
        assert(fg + fh =~= seq![Mode::Generated]);
    } else if mode == Mode::Hooked {
        assert(fg + fh =~= seq![Mode::Hooked]);
    } else {
        assert(fg + fh =~= Seq::<Mode>::empty());
    }
}

impl Default for Writes {
    fn default() -> (writes: Self)
        ensures
            writes == Writes::uniform(Mode::Off),
    {
        Writes::none()
    }
}

/// Reading a write back after setting it gives the mode just set, and every
/// other write keeps the mode it had.
pub proof fn law_set_reads_back(writes: Writes, write: Write, mode: Mode, other: Write)
    ensures
        writes.with_mode(write, mode).mode_of(write) == mode,
        other != write ==> writes.with_mode(write, mode).mode_of(other) == writes.mode_of(other),
{
}

/// A selection is determined by the modes it gives the four writes.
pub proof fn law_selection_is_its_modes(a: Writes, b: Writes)
    requires
        forall|write: Write| a.mode_of(write) == b.mode_of(write),
    ensures
        a == b,
{
    assert(a.mode_of(Write::CreateOne) == b.mode_of(Write::CreateOne));
    assert(a.mode_of(Write::CreateBatch) == b.mode_of(Write::CreateBatch));
    assert(a.mode_of(Write::Update) == b.mode_of(Write::Update));
    assert(a.mode_of(Write::Delete) == b.mode_of(Write::Delete));
}

/// Setting the same write twice keeps only the second setting.
pub proof fn law_last_setting_wins(writes: Writes, write: Write, first: Mode, second: Mode)
    ensures
        writes.with_mode(write, first).with_mode(write, second) == writes.with_mode(write, second),
{
}

/// Settings of two different writes do not interfere: their order does not
/// matter.
pub proof fn law_settings_commute(writes: Writes, a: Write, ma: Mode, b: Write, mb: Mode)
    requires
        a != b,
    ensures
        writes.with_mode(a, ma).with_mode(b, mb) == writes.with_mode(b, mb).with_mode(a, ma),
{
}

/// Setting a write to the mode it already has changes nothing.
pub proof fn law_setting_the_current_mode_is_no_change(writes: Writes, write: Write)
    ensures
        writes.with_mode(write, writes.mode_of(write)) == writes,
{
}

/// The hooked starting point publishes exactly what the generated one does
/// minus create-batch, and publishes none of it in its generated form.
pub proof fn law_hooked_is_generated_minus_batch(write: Write)
    ensures
        published(Writes::uniform(Mode::Hooked).with_mode(Write::CreateBatch, Mode::Off).mode_of(write))
            == (published(Writes::uniform(Mode::Generated).mode_of(write))
            && write != Write::CreateBatch),
        Writes::uniform(Mode::Hooked).with_mode(Write::CreateBatch, Mode::Off).mode_of(write)
            != Mode::Generated,
{
}

/// The uniform selection gives every write its mode.
pub proof fn law_uniform_modes(mode: Mode, write: Write)
    ensures
        Writes::uniform(mode).mode_of(write) == mode,
{
}

/// An input type a selection's registration pushes is never among the
/// inputs it drops: a registered insert input means some create is
/// published, and a registered update input means update is.
pub proof fn law_registered_inputs_are_kept(writes: Writes)
    ensures
        writes.plan_spec().contains(Registration::InsertInput) ==> (published(
            writes.mode_of(Write::CreateOne),
        ) || published(writes.mode_of(Write::CreateBatch))),
        writes.plan_spec().contains(Registration::UpdateInput) ==> published(
            writes.mode_of(Write::Update),
        ),
{
    reveal(GeneratedMutations::plan_spec);
    let generated = writes.generated_part();
    let plan = writes.plan_spec();
    if plan.contains(Registration::InsertInput) {
        let i = choose|i: int| 0 <= i < plan.len() && plan[i] == Registration::InsertInput;
        if !(published(writes.mode_of(Write::CreateOne)) || published(writes.mode_of(Write::CreateBatch))) {
            assert(!generated.create_one && !generated.create_batch);
            assert(writes.hooked_create_part() =~= Seq::empty());
            assert(!generated.plan_spec().contains(Registration::InsertInput));
            assert(false);
        }
    }
    if plan.contains(Registration::UpdateInput) {
        let i = choose|i: int| 0 <= i < plan.len() && plan[i] == Registration::UpdateInput;
        if !published(writes.mode_of(Write::Update)) {
            assert(!generated.update);
            assert(writes.hooked_update_part() =~= Seq::empty());
            assert(!generated.plan_spec().contains(Registration::UpdateInput));
            assert(false);
        }
    }
}

/// Whether a registration step is a mutation field that needs the support
/// type `input` registered: every field needs the basic object, a
/// create-one or create-batch field the insert input, and an update field
/// the update input.
pub open spec fn takes_input(step: Registration, input: Registration) -> bool {
    match step {
        Registration::Field(write, _) => match input {
            Registration::BasicObject => true,
            Registration::InsertInput => write == Write::CreateOne || write == Write::CreateBatch,
            Registration::UpdateInput => write == Write::Update,
            Registration::Field(..) => false,
        },
        _ => false,
    }
}

/// Whether every field of `plan` that needs `input` comes after a step that
/// registers `input`.
pub open spec fn input_comes_first(plan: Seq<Registration>, input: Registration) -> bool {
    forall|k: int|
        0 <= k < plan.len() && takes_input(#[trigger] plan[k], input) ==> exists|j: int|
            0 <= j < k && plan[j] == input
}

proof fn lemma_input_first_concat(a: Seq<Registration>, b: Seq<Registration>, input: Registration)
    requires
        input_comes_first(a, input),
        input_comes_first(b, input) || a.contains(input),
    ensures
        input_comes_first(a + b, input),
{
    let p = a + b;
    assert forall|k: int| 0 <= k < p.len() && takes_input(#[trigger] p[k], input) implies exists|j: int|
        0 <= j < k && p[j] == input by {
        if k < a.len() {
            assert(p[k] == a[k]);
            let j = choose|j: int| 0 <= j < k && a[j] == input;
            assert(p[j] == input);
        } else if a.contains(input) {
            let j = choose|j: int| 0 <= j < a.len() && a[j] == input;
            assert(p[j] == input);
        } else {
            assert(p[k] == b[k - a.len()]);
            let j = choose|j: int| 0 <= j < k - a.len() && b[j] == input;
            assert(p[j + a.len()] == input);
        }
    }
}

proof fn lemma_input_first_when(condition: bool, item: Registration, input: Registration)
    requires
        condition ==> !takes_input(item, input),
    ensures
        input_comes_first(when(condition, item), input),
        condition && item == input ==> when(condition, item).contains(input),
{
    if condition {
        assert(when(condition, item)[0] == item);
    }
}

proof fn lemma_contains_concat(a: Seq<Registration>, b: Seq<Registration>, x: Registration)
    ensures
        a.contains(x) ==> (a + b).contains(x),
{
    if a.contains(x) {
        let j = choose|j: int| 0 <= j < a.len() && a[j] == x;
        assert((a + b)[j] == x);
    }
}

proof fn lemma_generated_input_first(selection: GeneratedMutations, input: Registration)
    requires
        !(input is Field),
    ensures
        input_comes_first(selection.plan_spec(), input),
{
    reveal(GeneratedMutations::plan_spec);
    if !selection.any_spec() {
        return;
    }
    let creates = selection.create_one || selection.create_batch;
    let g0 = seq![Registration::BasicObject];
    let g1 = when(creates, Registration::InsertInput);
    let g2 = when(selection.update, Registration::UpdateInput);
    let g3 = when(selection.create_one, Registration::Field(Write::CreateOne, Mode::Generated));
    let g4 = when(selection.create_batch, Registration::Field(Write::CreateBatch, Mode::Generated));
    let g5 = when(selection.update, Registration::Field(Write::Update, Mode::Generated));
    let g6 = when(selection.delete, Registration::Field(Write::Delete, Mode::Generated));
    lemma_input_first_when(true, Registration::BasicObject, input);
    assert(when(true, Registration::BasicObject) == g0);
    lemma_input_first_when(creates, Registration::InsertInput, input);
    lemma_input_first_when(selection.update, Registration::UpdateInput, input);
    let supports = g0 + g1 + g2;
    lemma_input_first_concat(g0, g1, input);
    lemma_input_first_concat(g0 + g1, g2, input);
    let has_input = match input {
        Registration::BasicObject => true,
        Registration::InsertInput => creates,
        _ => selection.update,
    };
    if has_input {
        if input == Registration::BasicObject {
            assert(g0[0] == input);
            lemma_contains_concat(g0, g1, input);
        } else if input == Registration::InsertInput {
            lemma_contains_concat(g0, g1, input);
            lemma_contains_concat(g1, Seq::empty(), input);
            assert(g1[0] == input);
            assert((g0 + g1)[1] == input);
        } else {
            assert(g2[0] == input);
            assert((g0 + g1 + g2)[(g0 + g1).len() as int] == input);
        }
        lemma_contains_concat(g0 + g1, g2, input);
        assert(supports.contains(input));
    }
    lemma_input_first_when(selection.create_one && !has_input, Registration::Field(Write::CreateOne, Mode::Generated), input);
    lemma_input_first_when(selection.create_batch && !has_input, Registration::Field(Write::CreateBatch, Mode::Generated), input);
    lemma_input_first_when(selection.update && !has_input, Registration::Field(Write::Update, Mode::Generated), input);
    lemma_input_first_when(selection.delete && !has_input, Registration::Field(Write::Delete, Mode::Generated), input);
    if !has_input {
        assert(input_comes_first(g3, input));
        assert(input_comes_first(g4, input));
        assert(input_comes_first(g5, input));
        assert(input_comes_first(g6, input));
        lemma_input_first_concat(g3, g4, input);
        lemma_input_first_concat(g3 + g4, g5, input);
        lemma_input_first_concat(g3 + g4 + g5, g6, input);
    }
    let fields = g3 + g4 + g5 + g6;
    lemma_input_first_concat(supports, fields, input);
    assert(selection.plan_spec() =~= supports + fields);
}

/// Every field a generated selection registers comes after the support
/// types it takes: each field after the basic object, a create-one or
/// create-batch field after the insert input, and an update field after
/// the update input.
pub proof fn law_fields_follow_their_inputs(selection: GeneratedMutations)
    ensures
        input_comes_first(selection.plan_spec(), Registration::BasicObject),
        input_comes_first(selection.plan_spec(), Registration::InsertInput),
        input_comes_first(selection.plan_spec(), Registration::UpdateInput),
{
    lemma_generated_input_first(selection, Registration::BasicObject);
    lemma_generated_input_first(selection, Registration::InsertInput);
    lemma_generated_input_first(selection, Registration::UpdateInput);
}

proof fn lemma_three_steps_input_first(a: Registration, b: Registration, c: Registration, input: Registration)
    requires
        !takes_input(a, input),
        !takes_input(b, input),
        takes_input(c, input) ==> a == input || b == input,
    ensures
        input_comes_first(seq![a, b, c], input),
{
    let p = seq![a, b, c];
    assert forall|k: int| 0 <= k < p.len() && takes_input(#[trigger] p[k], input) implies exists|j: int|
        0 <= j < k && p[j] == input by {
        assert(k == 2);
        if a == input {
            assert(p[0] == input);
        } else {
            assert(p[1] == input);
        }
    }
}

/// Every create-one, create-batch, or update field a selection registers,
/// generated or hooked, comes after the input type it takes: a create
/// after the insert input, an update after the update input.
pub proof fn law_published_fields_follow_their_inputs(writes: Writes)
    ensures
        input_comes_first(writes.plan_spec(), Registration::InsertInput),
        input_comes_first(writes.plan_spec(), Registration::UpdateInput),
{
    let generated = writes.generated_part().plan_spec();
    let c = writes.hooked_create_part();
    let u = writes.hooked_update_part();
    let d = writes.hooked_delete_part();
    assert(writes.plan_spec() == generated + c + u + d);
    let inputs = seq![Registration::InsertInput, Registration::UpdateInput];
    assert forall|i: int| 0 <= i < 2 implies input_comes_first(writes.plan_spec(), #[trigger] inputs[i]) by {
        let input = inputs[i];
        lemma_generated_input_first(writes.generated_part(), input);
        if writes.mode_of(Write::CreateOne) == Mode::Hooked {
            lemma_three_steps_input_first(Registration::BasicObject, Registration::InsertInput,
                Registration::Field(Write::CreateOne, Mode::Hooked), input);
        }
        if writes.mode_of(Write::Update) == Mode::Hooked {
            lemma_three_steps_input_first(Registration::BasicObject, Registration::UpdateInput,
                Registration::Field(Write::Update, Mode::Hooked), input);
        }
        lemma_input_first_when(writes.mode_of(Write::Delete) == Mode::Hooked,
            Registration::Field(Write::Delete, Mode::Hooked), input);
        assert(input_comes_first(c, input));
        assert(input_comes_first(u, input));
        lemma_input_first_concat(generated, c, input);
        lemma_input_first_concat(generated + c, u, input);
        lemma_input_first_concat(generated + c + u, d, input);
    }
    assert(inputs[0] == Registration::InsertInput);
    assert(inputs[1] == Registration::UpdateInput);
}

} // verus!
