//! The decisions of a hooked or restricted mutation, one event at a time.
//!
//! A hooked create-one, update, or delete, and a restricted single-row or
//! set mutation, all run the same way: guards first, then a transaction in
//! which rows are prepared, every row's save hook runs, the set-level write
//! hooks see the whole write set, rows are persisted in order (a created row
//! re-checked against the create filter), and only then the commit, the
//! entity watch, and the permit release. Any block or failure ends the
//! mutation with an error before anything commits, so its transaction rolls
//! back. [`Pipeline`] holds that order; the caller performs each action and
//! reports what happened.

use vstd::prelude::*;
use crate::hooks::{guard_message, Guard};

verus! {

/// Which mutation a pipeline runs.
#[derive(Clone, Copy, Debug, PartialEq, Eq, Structural)]
pub enum PipelineKind {
    /// The hooked create-one mutation.
    CreateOne,
    /// The hooked update mutation.
    Update,
    /// The hooked delete mutation.
    Delete,
    /// A restricted single-row mutation.
    Restricted,
    /// A restricted set mutation.
    RestrictedSet,
}

/// Where a pipeline stands: which answer it waits for.
#[derive(Clone, Copy, Debug, PartialEq, Eq, Structural)]
pub enum Stage {
    EntityGuard,
    FieldGuard(usize),
    Begin,
    Prepare,
    SaveHook(usize),
    WriteSetHooks,
    Persist(usize),
    ScopeCheck(usize),
    Commit,
    Watch,
    Release,
    Done,
}

/// What the caller reports.
pub enum PipelineEvent {
    /// The guard or hook just asked answered.
    Guarded(Guard),
    /// The transaction began.
    Began,
    /// The rows to write were prepared: one flag per row, in persistence
    /// order, saying whether the row is inserted.
    Prepared(Vec<bool>),
    /// The row just written was persisted.
    Persisted,
    /// Whether the row just inserted lies inside the caller's create filter
    /// (`true` when there is no filter).
    Scoped(bool),
    /// The transaction committed.
    Committed,
    /// The entity watch ran.
    Watched,
    /// The permit was told of the commit.
    Released,
    /// The step just performed failed with this message.
    Failed(String),
}

/// What the caller does next.
#[derive(Debug, PartialEq, Eq)]
pub enum PipelineAction {
    CheckEntityGuard,
    CheckFieldGuard(usize),
    Begin,
    Prepare,
    RunSaveHook(usize),
    RunWriteSetHooks,
    Persist(usize),
    CheckScope(usize),
    Commit,
    Watch,
    Release,
    /// The mutation succeeded; answer the caller.
    Succeed,
    /// The mutation failed with this message; drop the transaction, which
    /// rolls it back.
    Fail(String),
}

/// A [`PipelineEvent`] as plain values.
pub enum EventView {
    Guarded(Option<Option<Seq<char>>>),
    Began,
    Prepared(Seq<bool>),
    Persisted,
    Scoped(bool),
    Committed,
    Watched,
    Released,
    Failed(Seq<char>),
}

/// A [`PipelineAction`] as plain values.
pub enum ActionView {
    CheckEntityGuard,
    CheckFieldGuard(nat),
    Begin,
    Prepare,
    RunSaveHook(nat),
    RunWriteSetHooks,
    Persist(nat),
    CheckScope(nat),
    Commit,
    Watch,
    Release,
    Succeed,
    Fail(Seq<char>),
}

impl View for PipelineEvent {
    type V = EventView;

    /// A guard's answer is `None` for allow and `Some(reason)` for a block.
    open spec fn view(&self) -> EventView {
        match self {
            PipelineEvent::Guarded(Guard::Allow) => EventView::Guarded(None),
            PipelineEvent::Guarded(Guard::Block(reason)) => EventView::Guarded(Some(match reason {
                Some(text) => Some(text@),
                None => None,
            })),
            PipelineEvent::Began => EventView::Began,
            PipelineEvent::Prepared(inserts) => EventView::Prepared(inserts@),
            PipelineEvent::Persisted => EventView::Persisted,
            PipelineEvent::Scoped(inside) => EventView::Scoped(*inside),
            PipelineEvent::Committed => EventView::Committed,
            PipelineEvent::Watched => EventView::Watched,
            PipelineEvent::Released => EventView::Released,
            PipelineEvent::Failed(message) => EventView::Failed(message@),
        }
    }
}

impl View for PipelineAction {
    type V = ActionView;

    open spec fn view(&self) -> ActionView {
        match self {
            PipelineAction::CheckEntityGuard => ActionView::CheckEntityGuard,
            PipelineAction::CheckFieldGuard(i) => ActionView::CheckFieldGuard(*i as nat),
            PipelineAction::Begin => ActionView::Begin,
            PipelineAction::Prepare => ActionView::Prepare,
            PipelineAction::RunSaveHook(i) => ActionView::RunSaveHook(*i as nat),
            PipelineAction::RunWriteSetHooks => ActionView::RunWriteSetHooks,
            PipelineAction::Persist(i) => ActionView::Persist(*i as nat),
            PipelineAction::CheckScope(i) => ActionView::CheckScope(*i as nat),
            PipelineAction::Commit => ActionView::Commit,
            PipelineAction::Watch => ActionView::Watch,
            PipelineAction::Release => ActionView::Release,
            PipelineAction::Succeed => ActionView::Succeed,
            PipelineAction::Fail(message) => ActionView::Fail(message@),
        }
    }
}

/// The message of a blocked guard: its reason, or the fallback.
pub open spec fn blocked_message(reason: Option<Seq<char>>, fallback: Seq<char>) -> Seq<char> {
    match reason {
        Some(text) => text,
        None => fallback,
    }
}

/// The message when a created row falls outside the caller's scope.
pub open spec fn outside_scope_message() -> Seq<char> {
    "created row is outside the caller's scope"@
}

impl PipelineKind {
    /// Whether the set-level write hooks run: for every kind but the
    /// restricted single-row mutation.
    pub open spec fn runs_write_set_hooks(self) -> bool {
        self != PipelineKind::Restricted
    }

    /// Whether the permit is released after the watch: restricted kinds.
    pub open spec fn holds_permit(self) -> bool {
        self == PipelineKind::Restricted || self == PipelineKind::RestrictedSet
    }

    /// Whether the input columns are field-guarded: create-one and update.
    pub open spec fn guards_fields(self) -> bool {
        self == PipelineKind::CreateOne || self == PipelineKind::Update
    }

    /// The fallback message of a blocked save hook.
    pub open spec fn save_hook_fallback(self) -> Seq<char> {
        match self {
            PipelineKind::CreateOne => "Blocked by before_active_model_save."@,
            PipelineKind::Update => "Save hook blocked the update."@,
            PipelineKind::Delete => "Save hook blocked the delete."@,
            _ => "Save hook blocked the write."@,
        }
    }

    /// The fallback message of a blocked write-set hook.
    pub open spec fn write_set_fallback(self) -> Seq<char> {
        match self {
            PipelineKind::CreateOne => "Write-set hook blocked the create."@,
            PipelineKind::Update => "Write-set hook blocked the update."@,
            PipelineKind::Delete => "Write-set hook blocked the delete."@,
            _ => "Write-set hook blocked the write."@,
        }
    }
}

/// The guard-phase messages.
pub open spec fn entity_guard_fallback() -> Seq<char> {
    "Entity guard triggered."@
}

pub open spec fn field_guard_fallback() -> Seq<char> {
    "Field guard triggered."@
}

/// The action that enters a stage on success.
pub open spec fn action_for(stage: Stage) -> ActionView {
    match stage {
        Stage::EntityGuard => ActionView::CheckEntityGuard,
        Stage::FieldGuard(i) => ActionView::CheckFieldGuard(i as nat),
        Stage::Begin => ActionView::Begin,
        Stage::Prepare => ActionView::Prepare,
        Stage::SaveHook(i) => ActionView::RunSaveHook(i as nat),
        Stage::WriteSetHooks => ActionView::RunWriteSetHooks,
        Stage::Persist(i) => ActionView::Persist(i as nat),
        Stage::ScopeCheck(i) => ActionView::CheckScope(i as nat),
        Stage::Commit => ActionView::Commit,
        Stage::Watch => ActionView::Watch,
        Stage::Release => ActionView::Release,
        Stage::Done => ActionView::Succeed,
    }
}

/// A mutation in progress.
pub struct Pipeline {
    kind: PipelineKind,
    checks_entity_guard: bool,
    columns: usize,
    stage: Stage,
    inserts: Vec<bool>,
}

/// A [`Pipeline`] as plain values.
pub struct PipelineModel {
    pub kind: PipelineKind,
    /// Whether the entity guard is asked.
    pub checks_entity_guard: bool,
    /// How many input columns are field-guarded.
    pub columns: nat,
    /// The stage the pipeline waits in.
    pub stage: Stage,
    /// Per prepared row, whether it is inserted; empty before preparation.
    pub inserts: Seq<bool>,
}

impl View for Pipeline {
    type V = PipelineModel;

    closed spec fn view(&self) -> PipelineModel {
        PipelineModel {
            kind: self.kind,
            checks_entity_guard: self.checks_entity_guard,
            columns: if self.kind.guards_fields() { self.columns as nat } else { 0 },
            stage: self.stage,
            inserts: self.inserts@,
        }
    }
}

impl PipelineModel {
    /// The number of prepared rows.
    pub open spec fn rows(self) -> nat {
        self.inserts.len()
    }

    /// Whether the watch runs after commit: always for hooked kinds, and
    /// only when a row was written for restricted ones.
    pub open spec fn watches(self) -> bool {
        !self.kind.holds_permit() || self.rows() > 0
    }

    /// The stage a new pipeline starts in: the entity guard when it is
    /// checked, else where an allowing entity guard would lead.
    pub open spec fn first_stage(self) -> Stage {
        if self.checks_entity_guard {
            Stage::EntityGuard
        } else {
            self.after_entity_guard()
        }
    }

    /// The stage after the entity guard allowed.
    pub open spec fn after_entity_guard(self) -> Stage {
        if self.kind == PipelineKind::CreateOne && self.columns > 0 {
            Stage::FieldGuard(0)
        } else {
            Stage::Begin
        }
    }

    /// The stage after the field guard of column `i` allowed.
    pub open spec fn after_field_guard(self, i: nat) -> Stage {
        if i + 1 < self.columns {
            Stage::FieldGuard((i + 1) as usize)
        } else if self.kind == PipelineKind::CreateOne {
            Stage::Begin
        } else {
            Stage::Prepare
        }
    }

    /// The stage after the transaction began.
    pub open spec fn after_begin(self) -> Stage {
        if self.kind == PipelineKind::Update && self.columns > 0 {
            Stage::FieldGuard(0)
        } else {
            Stage::Prepare
        }
    }

    /// The stage once every save hook allowed.
    pub open spec fn after_save_hooks(self) -> Stage {
        if self.kind.runs_write_set_hooks() {
            Stage::WriteSetHooks
        } else {
            self.persist_from(0)
        }
    }

    /// The stage that persists row `i`, or commits once every row is.
    pub open spec fn persist_from(self, i: nat) -> Stage {
        if i < self.rows() {
            Stage::Persist(i as usize)
        } else {
            Stage::Commit
        }
    }

    /// The stage after the commit.
    pub open spec fn after_commit(self) -> Stage {
        if self.watches() {
            Stage::Watch
        } else {
            self.after_watch()
        }
    }

    /// The stage after the watch.
    pub open spec fn after_watch(self) -> Stage {
        if self.kind.holds_permit() {
            Stage::Release
        } else {
            Stage::Done
        }
    }

    /// Whether the pipeline, in its stage, takes `event`. Every stage but
    /// the last takes a failure; otherwise each takes the report of the
    /// action it asked for.
    pub open spec fn accepts(self, event: EventView) -> bool {
        match (self.stage, event) {
            (Stage::Done, _) => false,
            (_, EventView::Failed(_)) => true,
            (Stage::EntityGuard, EventView::Guarded(_)) => true,
            (Stage::FieldGuard(_), EventView::Guarded(_)) => true,
            (Stage::Begin, EventView::Began) => true,
            (Stage::Prepare, EventView::Prepared(inserts)) => inserts.len() <= usize::MAX,
            (Stage::SaveHook(_), EventView::Guarded(_)) => true,
            (Stage::WriteSetHooks, EventView::Guarded(_)) => true,
            (Stage::Persist(_), EventView::Persisted) => true,
            (Stage::ScopeCheck(_), EventView::Scoped(_)) => true,
            (Stage::Commit, EventView::Committed) => true,
            (Stage::Watch, EventView::Watched) => true,
            (Stage::Release, EventView::Released) => true,
            _ => false,
        }
    }

    /// The pipeline's well-formedness: its stage lies within its columns
    /// and rows, the stages that need the prepared rows come after
    /// preparation, and only kinds that run write-set hooks wait for them.
    pub open spec fn well_formed(self) -> bool {
        &&& self.rows() <= usize::MAX
        &&& match self.stage {
            Stage::EntityGuard => self.checks_entity_guard && self.rows() == 0,
            Stage::FieldGuard(i) => i < self.columns && self.rows() == 0,
            Stage::Begin | Stage::Prepare => self.rows() == 0,
            Stage::SaveHook(i) => i < self.rows(),
            Stage::Persist(i) => i < self.rows(),
            Stage::ScopeCheck(i) => i < self.rows() && self.inserts[i as int],
            Stage::WriteSetHooks => self.kind.runs_write_set_hooks(),
            _ => true,
        }
    }

    /// The stage and action that follow `event`. A block, a failure, or a
    /// created row outside the caller's scope ends the mutation with its
    /// message; every other report moves to the next stage and asks for its
    /// action.
    pub open spec fn transition(self, event: EventView) -> (Stage, ActionView) {
        let next = match (self.stage, event) {
            (_, EventView::Failed(message)) => Err(message),
            (Stage::EntityGuard, EventView::Guarded(Some(reason))) => Err(blocked_message(reason, entity_guard_fallback())),
            (Stage::EntityGuard, EventView::Guarded(None)) => Ok(self.after_entity_guard()),
            (Stage::FieldGuard(_), EventView::Guarded(Some(reason))) => Err(blocked_message(reason, field_guard_fallback())),
            (Stage::FieldGuard(i), EventView::Guarded(None)) => Ok(self.after_field_guard(i as nat)),
            (Stage::Begin, EventView::Began) => Ok(self.after_begin()),
            (Stage::Prepare, EventView::Prepared(inserts)) => Ok(if inserts.len() > 0 {
                Stage::SaveHook(0)
            } else if self.kind.runs_write_set_hooks() {
                Stage::WriteSetHooks
            } else {
                Stage::Commit
            }),
            (Stage::SaveHook(_), EventView::Guarded(Some(reason))) => Err(blocked_message(reason, self.kind.save_hook_fallback())),
            (Stage::SaveHook(i), EventView::Guarded(None)) => Ok(if i + 1 < self.rows() {
                Stage::SaveHook((i + 1) as usize)
            } else {
                self.after_save_hooks()
            }),
            (Stage::WriteSetHooks, EventView::Guarded(Some(reason))) => Err(blocked_message(reason, self.kind.write_set_fallback())),
            (Stage::WriteSetHooks, EventView::Guarded(None)) => Ok(self.persist_from(0)),
            (Stage::Persist(i), EventView::Persisted) => Ok(if self.inserts[i as int] {
                Stage::ScopeCheck(i)
            } else {
                self.persist_from((i + 1) as nat)
            }),
            (Stage::ScopeCheck(_), EventView::Scoped(false)) => Err(outside_scope_message()),
            (Stage::ScopeCheck(i), EventView::Scoped(true)) => Ok(self.persist_from((i + 1) as nat)),
            (Stage::Commit, EventView::Committed) => Ok(self.after_commit()),
            (Stage::Watch, EventView::Watched) => Ok(self.after_watch()),
            (Stage::Release, EventView::Released) => Ok(Stage::Done),
            _ => Ok(Stage::Done),
        };
        match next {
            Err(message) => (Stage::Done, ActionView::Fail(message)),
            Ok(stage) => (stage, action_for(stage)),
        }
    }

    /// The pipeline after `event`: in the stage the event leads to, holding
    /// the prepared rows once they are reported.
    pub open spec fn next(self, event: EventView) -> PipelineModel {
        PipelineModel {
            stage: self.transition(event).0,
            inserts: match event {
                EventView::Prepared(inserts) => inserts,
                _ => self.inserts,
            },
            ..self
        }
    }
}

/// The actions a pipeline asks for as it takes `events` in order, up to
/// the first report it does not take.
pub open spec fn run(pipeline: PipelineModel, events: Seq<EventView>) -> Seq<ActionView>
    decreases events.len(),
{
    if events.len() == 0 || !pipeline.accepts(events[0]) {
        Seq::empty()
    } else {
        seq![pipeline.transition(events[0]).1] + run(pipeline.next(events[0]), events.drop_first())
    }
}

/// The action that enters `stage`.
fn action_of(stage: Stage) -> (action: PipelineAction)
    ensures
        action@ == action_for(stage),
{
    match stage {
        Stage::EntityGuard => PipelineAction::CheckEntityGuard,
        Stage::FieldGuard(i) => PipelineAction::CheckFieldGuard(i),
        Stage::Begin => PipelineAction::Begin,
        Stage::Prepare => PipelineAction::Prepare,
        Stage::SaveHook(i) => PipelineAction::RunSaveHook(i),
        Stage::WriteSetHooks => PipelineAction::RunWriteSetHooks,
        Stage::Persist(i) => PipelineAction::Persist(i),
        Stage::ScopeCheck(i) => PipelineAction::CheckScope(i),
        Stage::Commit => PipelineAction::Commit,
        Stage::Watch => PipelineAction::Watch,
        Stage::Release => PipelineAction::Release,
        Stage::Done => PipelineAction::Succeed,
    }
}

impl PipelineKind {
    fn runs_write_set_hooks_exec(self) -> (runs: bool)
        ensures
            runs == self.runs_write_set_hooks(),
    {
        match self {
            PipelineKind::Restricted => false,
            _ => true,
        }
    }

    fn holds_permit_exec(self) -> (holds: bool)
        ensures
            holds == self.holds_permit(),
    {
        match self {
            PipelineKind::Restricted | PipelineKind::RestrictedSet => true,
            _ => false,
        }
    }

    fn save_hook_fallback_text(self) -> (text: &'static str)
        ensures
            text@ == self.save_hook_fallback(),
    {
        match self {
            PipelineKind::CreateOne => "Blocked by before_active_model_save.",
            PipelineKind::Update => "Save hook blocked the update.",
            PipelineKind::Delete => "Save hook blocked the delete.",
            _ => "Save hook blocked the write.",
        }
    }

    fn write_set_fallback_text(self) -> (text: &'static str)
        ensures
            text@ == self.write_set_fallback(),
    {
        match self {
            PipelineKind::CreateOne => "Write-set hook blocked the create.",
            PipelineKind::Update => "Write-set hook blocked the update.",
            PipelineKind::Delete => "Write-set hook blocked the delete.",
            _ => "Write-set hook blocked the write.",
        }
    }
}

impl Pipeline {
    /// A pipeline for a mutation of `kind` whose input names `columns`
    /// columns (field-guarded for create-one and update), checking the
    /// entity guard unless the mutation's own hook owns authorization;
    /// with the first action to perform.
    pub fn new(kind: PipelineKind, checks_entity_guard: bool, columns: usize) -> (started: (
        Self,
        PipelineAction,
    ))
        ensures
            started.0@.well_formed(),
            started.0@.kind == kind,
            started.0@.checks_entity_guard == checks_entity_guard,
            started.0@.columns == (if kind.guards_fields() { columns as nat } else { 0 }),
            started.0@.inserts == Seq::<bool>::empty(),
            started.0@.stage == started.0@.first_stage(),
            started.1@ == action_for(started.0@.stage),
    {
        let mut pipeline = Pipeline {
            kind,
            checks_entity_guard,
            columns,
            stage: Stage::Done,
            inserts: Vec::new(),
        };
        let first = if checks_entity_guard {
            Stage::EntityGuard
        } else {
            pipeline.after_entity_guard_exec()
        };
        pipeline.stage = first;
        (pipeline, action_of(first))
    }

    /// The stage the pipeline waits in.
    pub fn stage(&self) -> (stage: Stage)
        ensures
            stage == self@.stage,
    {
        self.stage
    }

    fn guarded_columns(&self) -> (columns: usize)
        ensures
            columns == self@.columns,
    {
        match self.kind {
            PipelineKind::CreateOne | PipelineKind::Update => self.columns,
            _ => 0,
        }
    }

    fn after_entity_guard_exec(&self) -> (stage: Stage)
        ensures
            stage == self@.after_entity_guard(),
    {
        if self.kind == PipelineKind::CreateOne && self.guarded_columns() > 0 {
            Stage::FieldGuard(0)
        } else {
            Stage::Begin
        }
    }

    fn after_field_guard_exec(&self, i: usize) -> (stage: Stage)
        requires
            i < self@.columns,
        ensures
            stage == self@.after_field_guard(i as nat),
    {
        if i + 1 < self.guarded_columns() {
            Stage::FieldGuard(i + 1)
        } else if self.kind == PipelineKind::CreateOne {
            Stage::Begin
        } else {
            Stage::Prepare
        }
    }

    fn after_begin_exec(&self) -> (stage: Stage)
        ensures
            stage == self@.after_begin(),
    {
        if self.kind == PipelineKind::Update && self.guarded_columns() > 0 {
            Stage::FieldGuard(0)
        } else {
            Stage::Prepare
        }
    }

    fn persist_from_exec(&self, i: usize) -> (stage: Stage)
        ensures
            stage == self@.persist_from(i as nat),
    {
        if i < self.inserts.len() {
            Stage::Persist(i)
        } else {
            Stage::Commit
        }
    }

    fn after_watch_exec(&self) -> (stage: Stage)
        ensures
            stage == self@.after_watch(),
    {
        if self.kind.holds_permit_exec() {
            Stage::Release
        } else {
            Stage::Done
        }
    }

    fn after_commit_exec(&self) -> (stage: Stage)
        ensures
            stage == self@.after_commit(),
    {
        if !self.kind.holds_permit_exec() || self.inserts.len() > 0 {
            Stage::Watch
        } else {
            self.after_watch_exec()
        }
    }

    /// Moves to `stage` and asks for its action.
    fn enter(&mut self, stage: Stage) -> (action: PipelineAction)
        ensures
            final(self).stage == stage,
            final(self).kind == old(self).kind,
            final(self).checks_entity_guard == old(self).checks_entity_guard,
            final(self).columns == old(self).columns,
            final(self).inserts@ == old(self).inserts@,
            action@ == action_for(stage),
    {
        self.stage = stage;
        action_of(stage)
    }

    /// Ends the mutation with `message`.
    fn fail(&mut self, message: String) -> (action: PipelineAction)
        ensures
            final(self).stage == Stage::Done,
            final(self).kind == old(self).kind,
            final(self).checks_entity_guard == old(self).checks_entity_guard,
            final(self).columns == old(self).columns,
            final(self).inserts@ == old(self).inserts@,
            action@ == ActionView::Fail(message@),
    {
        self.stage = Stage::Done;
        PipelineAction::Fail(message)
    }

    /// Takes the report of the last action and returns the next one.
    pub fn step(&mut self, event: PipelineEvent) -> (action: PipelineAction)
        requires
            old(self)@.well_formed(),
            old(self)@.accepts(event@),
        ensures
            final(self)@ == old(self)@.next(event@),
            action@ == old(self)@.transition(event@).1,
            final(self)@.well_formed(),
    {
        let stage = self.stage;
        match event {
            PipelineEvent::Failed(message) => self.fail(message),
            PipelineEvent::Guarded(Guard::Block(reason)) => {
                let fallback = match stage {
                    Stage::EntityGuard => "Entity guard triggered.",
                    Stage::FieldGuard(_) => "Field guard triggered.",
                    Stage::SaveHook(_) => self.kind.save_hook_fallback_text(),
                    _ => self.kind.write_set_fallback_text(),
                };
                self.fail(guard_message(reason, fallback))
            },
            PipelineEvent::Guarded(Guard::Allow) => {
                let next = match stage {
                    Stage::EntityGuard => self.after_entity_guard_exec(),
                    Stage::FieldGuard(i) => self.after_field_guard_exec(i),
                    Stage::SaveHook(i) => {
                        let rows = self.inserts.len();
                        if i + 1 < rows {
                            Stage::SaveHook(i + 1)
                        } else if self.kind.runs_write_set_hooks_exec() {
                            Stage::WriteSetHooks
                        } else {
                            self.persist_from_exec(0)
                        }
                    },
                    _ => self.persist_from_exec(0),
                };
                self.enter(next)
            },
            PipelineEvent::Began => {
                let next = self.after_begin_exec();
                self.enter(next)
            },
            PipelineEvent::Prepared(inserts) => {
                let next = if inserts.len() > 0 {
                    Stage::SaveHook(0)
                } else if self.kind.runs_write_set_hooks_exec() {
                    Stage::WriteSetHooks
                } else {
                    Stage::Commit
                };
                self.inserts = inserts;
                self.enter(next)
            },
            PipelineEvent::Persisted => {
                let next = match stage {
                    Stage::Persist(i) => {
                        let rows = self.inserts.len();
                        assert(i < rows);
                        if self.inserts[i] {
                            Stage::ScopeCheck(i)
                        } else {
                            self.persist_from_exec(i + 1)
                        }
                    },
                    _ => Stage::Done,
                };
                self.enter(next)
            },
            PipelineEvent::Scoped(inside) => {
                if inside {
                    let next = match stage {
                        Stage::ScopeCheck(i) => {
                            let rows = self.inserts.len();
                            assert(i < rows);
                            self.persist_from_exec(i + 1)
                        },
                        _ => Stage::Done,
                    };
                    self.enter(next)
                } else {
                    self.fail(String::from_str("created row is outside the caller's scope"))
                }
            },
            PipelineEvent::Committed => {
                let next = self.after_commit_exec();
                self.enter(next)
            },
            PipelineEvent::Watched => {
                let next = self.after_watch_exec();
                self.enter(next)
            },
            PipelineEvent::Released => self.enter(Stage::Done),
        }
    }
}

/// A block, a failure, or a created row outside the caller's scope ends
/// the mutation, and only these do: the pipeline answers with the error and
/// takes nothing more, so the transaction is never committed. A block that
/// gave a reason is answered with that reason.
pub proof fn law_refusals_end_the_mutation(pipeline: PipelineModel, event: EventView)
    requires
        pipeline.well_formed(),
        pipeline.accepts(event),
    ensures
        (pipeline.transition(event).1 is Fail) <==> (event is Failed || event matches EventView::Guarded(Some(_))
            || event == EventView::Scoped(false)),
        pipeline.transition(event).1 is Fail ==> pipeline.transition(event).0 == Stage::Done,
        event matches EventView::Guarded(Some(Some(reason))) ==> pipeline.transition(event).1
            == ActionView::Fail(reason),
        event == EventView::Scoped(false) ==> pipeline.transition(event).1 == ActionView::Fail(
            outside_scope_message(),
        ),
{
}

/// Every input column of a field-guarded mutation has its own field guard
/// asked, in column order, before the mutation moves on: whatever the kind,
/// an allowing field guard of column `i` leads to the field guard of column
/// `i + 1` whenever there is one, and only the last column's allowing guard
/// leads elsewhere. So when an update has columns, its rows are prepared
/// only right after the last column's guard allowed, and a create-one with
/// columns begins its transaction only then.
pub proof fn law_every_column_is_field_guarded(pipeline: PipelineModel, event: EventView)
    requires
        pipeline.well_formed(),
        pipeline.accepts(event),
    ensures
        pipeline.stage matches Stage::FieldGuard(i) ==> (event == EventView::Guarded(None) && i + 1
            < pipeline.columns ==> pipeline.transition(event).0 == Stage::FieldGuard((i + 1) as usize)
            && pipeline.transition(event).1 == ActionView::CheckFieldGuard(((i + 1) as usize) as nat)),
        pipeline.stage matches Stage::FieldGuard(i) ==> (event == EventView::Guarded(None) && i + 1
            >= pipeline.columns ==> !(pipeline.transition(event).0 is FieldGuard)),
        pipeline.kind == PipelineKind::Update && pipeline.columns > 0 && pipeline.transition(event).0
            == Stage::Prepare ==> pipeline.stage == Stage::FieldGuard((pipeline.columns - 1) as usize)
            && event == EventView::Guarded(None),
        pipeline.kind == PipelineKind::CreateOne && pipeline.columns > 0 && pipeline.transition(event).0
            == Stage::Begin ==> pipeline.stage == Stage::FieldGuard((pipeline.columns - 1) as usize)
            && event == EventView::Guarded(None),
{
}

/// The first row is persisted only once every row's save hook has allowed
/// the write and, for every kind but the restricted single-row mutation,
/// the write-set hooks have allowed the whole set.
pub proof fn law_persistence_waits_for_every_hook(pipeline: PipelineModel, event: EventView)
    requires
        pipeline.well_formed(),
        pipeline.accepts(event),
        pipeline.transition(event).0 == Stage::Persist(0),
    ensures
        event == EventView::Guarded(None),
        pipeline.kind.runs_write_set_hooks() ==> pipeline.stage
            == Stage::WriteSetHooks,
        !pipeline.kind.runs_write_set_hooks() ==> pipeline.stage == Stage::SaveHook(
            (pipeline.rows() - 1) as usize,
        ),
{
}

/// The write-set hooks run after the last row's save hook allowed, or at
/// once when no row was prepared.
pub proof fn law_write_set_hooks_follow_every_save_hook(pipeline: PipelineModel, event: EventView)
    requires
        pipeline.well_formed(),
        pipeline.accepts(event),
        pipeline.transition(event).0 == Stage::WriteSetHooks,
    ensures
        pipeline.kind.runs_write_set_hooks(),
        (pipeline.stage == Stage::SaveHook((pipeline.rows() - 1) as usize) && event
            == EventView::Guarded(None)) || (pipeline.stage == Stage::Prepare && event
            == EventView::Prepared(Seq::empty())),
{
    if let EventView::Prepared(inserts) = event {
        assert(inserts.len() == 0 ==> inserts =~= Seq::<bool>::empty());
    }
}

/// The commit follows the last row's write (and, for an inserted row, its
/// scope check), or the hooks when no row was prepared.
pub proof fn law_commit_follows_the_last_write(pipeline: PipelineModel, event: EventView)
    requires
        pipeline.well_formed(),
        pipeline.accepts(event),
        pipeline.transition(event).0 == Stage::Commit,
    ensures
        pipeline.rows() > 0 ==> {
            let last = (pipeline.rows() - 1) as usize;
            ||| pipeline.stage == Stage::Persist(last) && event == EventView::Persisted
                && !pipeline.inserts[last as int]
            ||| pipeline.stage == Stage::ScopeCheck(last) && event == EventView::Scoped(true)
        },
        pipeline.rows() == 0 ==> {
            ||| pipeline.stage == Stage::WriteSetHooks && event == EventView::Guarded(None)
            ||| pipeline.stage == Stage::Prepare && event == EventView::Prepared(Seq::empty())
                && !pipeline.kind.runs_write_set_hooks()
        },
{
    if let EventView::Prepared(inserts) = event {
        assert(inserts.len() == 0 ==> inserts =~= Seq::<bool>::empty());
    }
}

/// The entity watch runs only right after the commit, and the permit is
/// released only after the commit and the watch, by restricted kinds.
pub proof fn law_watch_and_release_follow_the_commit(pipeline: PipelineModel, event: EventView)
    requires
        pipeline.well_formed(),
        pipeline.accepts(event),
    ensures
        pipeline.transition(event).0 == Stage::Watch ==> pipeline.stage == Stage::Commit
            && event == EventView::Committed,
        pipeline.transition(event).0 == Stage::Release ==> pipeline.kind.holds_permit() && (
        (pipeline.stage == Stage::Watch && event == EventView::Watched) || (
        pipeline.stage == Stage::Commit && event == EventView::Committed
            && pipeline.rows() == 0)),
{
}

/// A finished mutation takes no further report, so nothing it asked for
/// after finishing can happen; and the entity guard is asked at most once,
/// as the very first action, never after any other step (so a field whose
/// hook owns authorization never asks it).
pub proof fn law_finished_mutations_take_nothing(pipeline: PipelineModel, event: EventView)
    requires
        pipeline.well_formed(),
    ensures
        pipeline.stage == Stage::Done ==> !pipeline.accepts(event),
        pipeline.accepts(event) ==> pipeline.transition(event).0 != Stage::EntityGuard,
        !pipeline.checks_entity_guard ==> pipeline.first_stage() != Stage::EntityGuard,
{
}

/// Every report a pipeline takes keeps it well-formed.
proof fn lemma_next_well_formed(pipeline: PipelineModel, event: EventView)
    requires
        pipeline.well_formed(),
        pipeline.accepts(event),
    ensures
        pipeline.next(event).well_formed(),
{
    if let EventView::Prepared(inserts) = event {
        assert(inserts.len() == 0 ==> inserts =~= Seq::<bool>::empty());
    }
}

/// Once a mutation fails it performs nothing more: in every run of
/// reports, a failure is the last action asked for, so no write, commit,
/// watch, or release ever follows a block, a failed step, or a created row
/// outside the caller's scope; and the entity guard is never asked again.
pub proof fn law_nothing_follows_a_failure(pipeline: PipelineModel, events: Seq<EventView>)
    requires
        pipeline.well_formed(),
    ensures
        forall|k: int| 0 <= k < run(pipeline, events).len() - 1 ==> !(#[trigger] run(pipeline, events)[k] is Fail),
        forall|k: int| 0 <= k < run(pipeline, events).len() ==> #[trigger] run(pipeline, events)[k]
            != ActionView::CheckEntityGuard,
    decreases events.len(),
{
    if events.len() > 0 && pipeline.accepts(events[0]) {
        let next = pipeline.next(events[0]);
        let rest = events.drop_first();
        lemma_next_well_formed(pipeline, events[0]);
        law_nothing_follows_a_failure(next, rest);
        let first = pipeline.transition(events[0]);
        let actions = run(pipeline, events);
        assert(actions == seq![first.1] + run(next, rest));
        if first.1 is Fail {
            assert(next.stage == Stage::Done);
            if rest.len() > 0 {
                assert(!next.accepts(rest[0]));
            }
            assert(run(next, rest) =~= Seq::<ActionView>::empty());
        }
        assert(first.0 != Stage::EntityGuard);
        assert forall|k: int| 0 <= k < actions.len() implies #[trigger] actions[k] != ActionView::CheckEntityGuard by {
            if k > 0 {
                assert(actions[k] == run(next, rest)[k - 1]);
            }
        }
        assert forall|k: int| 0 <= k < actions.len() - 1 implies !(#[trigger] actions[k] is Fail) by {
            if k > 0 {
                assert(actions[k] == run(next, rest)[k - 1]);
            }
        }
    }
}

/// Whether a pipeline has not yet asked for its write-set hooks: it waits
/// for a guard, the transaction, the prepared rows, or a save hook.
pub open spec fn before_write_set_hooks(stage: Stage) -> bool {
    match stage {
        Stage::EntityGuard | Stage::FieldGuard(_) | Stage::Begin | Stage::Prepare | Stage::SaveHook(_) => true,
        _ => false,
    }
}

/// For a mutation that runs write-set hooks, no row is written and nothing
/// is committed before the write-set hooks were asked: in every run from
/// before that point, each persist or commit comes after a request to run
/// the write-set hooks.
pub proof fn law_rows_are_written_only_after_the_write_set_hooks(pipeline: PipelineModel, events: Seq<EventView>)
    requires
        pipeline.well_formed(),
        pipeline.kind.runs_write_set_hooks(),
        before_write_set_hooks(pipeline.stage),
    ensures
        forall|k: int|
            0 <= k < run(pipeline, events).len() && (#[trigger] run(pipeline, events)[k] is Persist
                || run(pipeline, events)[k] == ActionView::Commit) ==> exists|j: int|
                0 <= j < k && #[trigger] run(pipeline, events)[j] == ActionView::RunWriteSetHooks,
    decreases events.len(),
{
    if events.len() > 0 && pipeline.accepts(events[0]) {
        let next = pipeline.next(events[0]);
        let rest = events.drop_first();
        lemma_next_well_formed(pipeline, events[0]);
        let actions = run(pipeline, events);
        let later = run(next, rest);
        assert(actions == seq![pipeline.transition(events[0]).1] + later);
        if let EventView::Prepared(inserts) = events[0] {
            assert(inserts.len() == 0 ==> inserts =~= Seq::<bool>::empty());
        }
        if next.stage == Stage::Done {
            if rest.len() > 0 {
                assert(!next.accepts(rest[0]));
            }
            assert(later =~= Seq::<ActionView>::empty());
        } else if next.stage == Stage::WriteSetHooks {
            assert(actions[0] == ActionView::RunWriteSetHooks);
        } else {
            assert(before_write_set_hooks(next.stage));
            law_rows_are_written_only_after_the_write_set_hooks(next, rest);
            assert forall|k: int|
                0 <= k < actions.len() && (#[trigger] actions[k] is Persist || actions[k] == ActionView::Commit)
                implies exists|j: int| 0 <= j < k && #[trigger] actions[j] == ActionView::RunWriteSetHooks by {
                assert(k > 0);
                assert(actions[k] == later[k - 1]);
                let j = choose|j: int| 0 <= j < k - 1 && #[trigger] later[j] == ActionView::RunWriteSetHooks;
                assert(actions[j + 1] == later[j]);
            }
        }
    }
}

/// In every run, the entity watch is asked right after the commit: the
/// action before a watch is the commit, or the run started waiting for the
/// commit's report.
pub proof fn law_the_watch_follows_the_commit(pipeline: PipelineModel, events: Seq<EventView>)
    requires
        pipeline.well_formed(),
    ensures
        run(pipeline, events).len() > 0 && run(pipeline, events)[0] == ActionView::Watch ==> pipeline.stage
            == Stage::Commit,
        forall|k: int|
            0 < k < run(pipeline, events).len() && #[trigger] run(pipeline, events)[k] == ActionView::Watch
                ==> run(pipeline, events)[k - 1] == ActionView::Commit,
    decreases events.len(),
{
    if events.len() > 0 && pipeline.accepts(events[0]) {
        let next = pipeline.next(events[0]);
        let rest = events.drop_first();
        lemma_next_well_formed(pipeline, events[0]);
        law_the_watch_follows_the_commit(next, rest);
        law_watch_and_release_follow_the_commit(pipeline, events[0]);
        let actions = run(pipeline, events);
        let later = run(next, rest);
        assert(actions == seq![pipeline.transition(events[0]).1] + later);
        assert forall|k: int|
            0 < k < actions.len() && #[trigger] actions[k] == ActionView::Watch implies actions[k - 1]
                == ActionView::Commit by {
            assert(actions[k] == later[k - 1]);
            if k > 1 {
                assert(actions[k - 1] == later[k - 2]);
            } else {
                assert(next.stage == Stage::Commit);
            }
        }
    }
}

/// The step a field-guarded mutation takes once its field guards allowed:
/// an update prepares its rows, a create-one begins its transaction.
pub open spec fn step_after_field_guards(kind: PipelineKind) -> ActionView {
    if kind == PipelineKind::CreateOne {
        ActionView::Begin
    } else {
        ActionView::Prepare
    }
}

/// Whether the field guard of column `column` is still to be asked.
pub open spec fn field_guard_pending(pipeline: PipelineModel, column: nat) -> bool {
    &&& column < pipeline.columns
    &&& match pipeline.stage {
        Stage::EntityGuard => true,
        Stage::FieldGuard(i) => i < column,
        Stage::Begin => pipeline.kind == PipelineKind::Update,
        _ => false,
    }
}

proof fn lemma_pending_field_guard_is_asked(pipeline: PipelineModel, events: Seq<EventView>, column: nat)
    requires
        pipeline.well_formed(),
        pipeline.kind.guards_fields(),
        pipeline.columns <= usize::MAX,
        field_guard_pending(pipeline, column),
    ensures
        forall|k: int|
            0 <= k < run(pipeline, events).len() && #[trigger] run(pipeline, events)[k]
                == step_after_field_guards(pipeline.kind) ==> exists|j: int|
                0 <= j < k && run(pipeline, events)[j] == ActionView::CheckFieldGuard(column),
    decreases events.len(),
{
    if events.len() > 0 && pipeline.accepts(events[0]) {
        let next = pipeline.next(events[0]);
        let rest = events.drop_first();
        lemma_next_well_formed(pipeline, events[0]);
        let first = pipeline.transition(events[0]);
        let actions = run(pipeline, events);
        let later = run(next, rest);
        assert(actions == seq![first.1] + later);
        assert(first.1 != step_after_field_guards(pipeline.kind));
        if first.1 is Fail {
            if rest.len() > 0 {
                assert(!next.accepts(rest[0]));
            }
            assert(later =~= Seq::<ActionView>::empty());
        } else if first.1 != ActionView::CheckFieldGuard(column) {
            assert(field_guard_pending(next, column));
            lemma_pending_field_guard_is_asked(next, rest, column);
        }
        assert forall|k: int|
            0 <= k < actions.len() && #[trigger] actions[k] == step_after_field_guards(pipeline.kind)
            implies exists|j: int| 0 <= j < k && actions[j] == ActionView::CheckFieldGuard(column) by {
            assert(k > 0);
            assert(actions[k] == later[k - 1]);
            if first.1 == ActionView::CheckFieldGuard(column) {
                assert(actions[0] == ActionView::CheckFieldGuard(column));
            } else {
                let j = choose|j: int| 0 <= j < k - 1 && later[j] == ActionView::CheckFieldGuard(column);
                assert(actions[j + 1] == later[j]);
            }
        }
    }
}

/// A new create-one or update pipeline asks the field guard of every input
/// column before it writes anything: in the actions it asks for, its first
/// action followed by those of any run of reports, the update's preparation
/// of its rows and the create-one's begin of its transaction each come
/// after the field guard of `column` was asked, for every column.
pub proof fn law_every_field_guard_precedes_the_write(pipeline: PipelineModel, events: Seq<EventView>, column: nat)
    requires
        pipeline.well_formed(),
        pipeline.kind.guards_fields(),
        pipeline.columns <= usize::MAX,
        pipeline.stage == pipeline.first_stage(),
        column < pipeline.columns,
    ensures
        forall|k: int|
            0 <= k < (seq![action_for(pipeline.stage)] + run(pipeline, events)).len() && #[trigger] (seq![
                action_for(pipeline.stage),
            ] + run(pipeline, events))[k] == step_after_field_guards(pipeline.kind) ==> exists|j: int|
                0 <= j < k && (seq![action_for(pipeline.stage)] + run(pipeline, events))[j]
                    == ActionView::CheckFieldGuard(column),
{
    let actions = seq![action_for(pipeline.stage)] + run(pipeline, events);
    let later = run(pipeline, events);
    if field_guard_pending(pipeline, column) {
        lemma_pending_field_guard_is_asked(pipeline, events, column);
    }
    assert forall|k: int|
        0 <= k < actions.len() && #[trigger] actions[k] == step_after_field_guards(pipeline.kind)
        implies exists|j: int| 0 <= j < k && actions[j] == ActionView::CheckFieldGuard(column) by {
        assert(actions[0] != step_after_field_guards(pipeline.kind));
        assert(actions[k] == later[k - 1]);
        if field_guard_pending(pipeline, column) {
            let j = choose|j: int| 0 <= j < k - 1 && later[j] == ActionView::CheckFieldGuard(column);
            assert(actions[j + 1] == later[j]);
        } else {
            assert(pipeline.stage == Stage::FieldGuard(0) && column == 0);
            assert(actions[0] == ActionView::CheckFieldGuard(column));
        }
    }
}

} // verus!
