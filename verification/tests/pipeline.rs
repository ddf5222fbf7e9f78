use module_host::hooks::Guard;
use module_host::pipeline::{Pipeline, PipelineAction, PipelineEvent, PipelineKind, Stage};

fn allow() -> PipelineEvent {
    PipelineEvent::Guarded(Guard::Allow)
}

fn block(reason: Option<&str>) -> PipelineEvent {
    PipelineEvent::Guarded(Guard::Block(reason.map(str::to_owned)))
}

/// Runs a pipeline over `events`, collecting the first action and every
/// action that follows an event.
fn run(kind: PipelineKind, checks_entity_guard: bool, columns: usize, events: Vec<PipelineEvent>) -> (Vec<PipelineAction>, Stage) {
    let (mut pipeline, first) = Pipeline::new(kind, checks_entity_guard, columns);
    let mut actions = vec![first];
    for event in events {
        actions.push(pipeline.step(event));
    }
    (actions, pipeline.stage())
}

#[test]
fn a_hooked_create_runs_guards_hooks_write_and_scope_check_in_order() {
    let (actions, stage) = run(
        PipelineKind::CreateOne,
        true,
        2,
        vec![
            allow(),
            allow(),
            allow(),
            PipelineEvent::Began,
            PipelineEvent::Prepared(vec![true]),
            allow(),
            allow(),
            PipelineEvent::Persisted,
            PipelineEvent::Scoped(true),
            PipelineEvent::Committed,
            PipelineEvent::Watched,
        ],
    );
    assert_eq!(
        actions,
        vec![
            PipelineAction::CheckEntityGuard,
            PipelineAction::CheckFieldGuard(0),
            PipelineAction::CheckFieldGuard(1),
            PipelineAction::Begin,
            PipelineAction::Prepare,
            PipelineAction::RunSaveHook(0),
            PipelineAction::RunWriteSetHooks,
            PipelineAction::Persist(0),
            PipelineAction::CheckScope(0),
            PipelineAction::Commit,
            PipelineAction::Watch,
            PipelineAction::Succeed,
        ],
    );
    assert_eq!(stage, Stage::Done);
}

#[test]
fn a_hooked_update_runs_every_save_hook_before_the_set_hook_and_any_write() {
    let (actions, _) = run(
        PipelineKind::Update,
        true,
        1,
        vec![
            allow(),
            PipelineEvent::Began,
            allow(),
            PipelineEvent::Prepared(vec![false, false]),
            allow(),
            allow(),
            allow(),
            PipelineEvent::Persisted,
            PipelineEvent::Persisted,
            PipelineEvent::Committed,
            PipelineEvent::Watched,
        ],
    );
    assert_eq!(
        actions,
        vec![
            PipelineAction::CheckEntityGuard,
            PipelineAction::Begin,
            PipelineAction::CheckFieldGuard(0),
            PipelineAction::Prepare,
            PipelineAction::RunSaveHook(0),
            PipelineAction::RunSaveHook(1),
            PipelineAction::RunWriteSetHooks,
            PipelineAction::Persist(0),
            PipelineAction::Persist(1),
            PipelineAction::Commit,
            PipelineAction::Watch,
            PipelineAction::Succeed,
        ],
    );
}

#[test]
fn a_hooked_delete_of_no_rows_still_runs_the_set_hook_and_watch() {
    let (actions, _) = run(
        PipelineKind::Delete,
        true,
        3,
        vec![
            allow(),
            PipelineEvent::Began,
            PipelineEvent::Prepared(Vec::new()),
            allow(),
            PipelineEvent::Committed,
            PipelineEvent::Watched,
        ],
    );
    assert_eq!(
        actions,
        vec![
            PipelineAction::CheckEntityGuard,
            PipelineAction::Begin,
            PipelineAction::Prepare,
            PipelineAction::RunWriteSetHooks,
            PipelineAction::Commit,
            PipelineAction::Watch,
            PipelineAction::Succeed,
        ],
    );
}

#[test]
fn an_entity_guard_block_without_reason_fails_with_the_fallback() {
    let (actions, stage) = run(PipelineKind::Update, true, 0, vec![block(None)]);
    assert_eq!(actions[1], PipelineAction::Fail("Entity guard triggered.".to_owned()));
    assert_eq!(stage, Stage::Done);
}

#[test]
fn a_field_guard_block_fails_before_the_transaction_begins() {
    let (actions, _) = run(PipelineKind::CreateOne, true, 2, vec![allow(), block(None)]);
    assert_eq!(actions[2], PipelineAction::Fail("Field guard triggered.".to_owned()));
    let (actions, _) = run(PipelineKind::CreateOne, true, 2, vec![allow(), allow(), block(Some("column is locked"))]);
    assert_eq!(actions[3], PipelineAction::Fail("column is locked".to_owned()));
}

#[test]
fn a_save_hook_veto_fails_with_its_reason() {
    let (actions, stage) = run(
        PipelineKind::Delete,
        true,
        0,
        vec![allow(), PipelineEvent::Began, PipelineEvent::Prepared(vec![false, false]), allow(), block(Some("row is protected"))],
    );
    assert_eq!(actions.last(), Some(&PipelineAction::Fail("row is protected".to_owned())));
    assert_eq!(stage, Stage::Done);
}

#[test]
fn save_hook_fallbacks_name_the_write() {
    let events = || vec![allow(), PipelineEvent::Began, PipelineEvent::Prepared(vec![true]), block(None)];
    let (actions, _) = run(PipelineKind::CreateOne, true, 0, events());
    assert_eq!(actions.last(), Some(&PipelineAction::Fail("Blocked by before_active_model_save.".to_owned())));
    let (actions, _) = run(PipelineKind::Update, true, 0, vec![allow(), PipelineEvent::Began, PipelineEvent::Prepared(vec![false]), block(None)]);
    assert_eq!(actions.last(), Some(&PipelineAction::Fail("Save hook blocked the update.".to_owned())));
    let (actions, _) = run(PipelineKind::Delete, true, 0, vec![allow(), PipelineEvent::Began, PipelineEvent::Prepared(vec![false]), block(None)]);
    assert_eq!(actions.last(), Some(&PipelineAction::Fail("Save hook blocked the delete.".to_owned())));
    let (actions, _) = run(PipelineKind::Restricted, true, 0, events());
    assert_eq!(actions.last(), Some(&PipelineAction::Fail("Save hook blocked the write.".to_owned())));
}

#[test]
fn a_write_set_hook_block_rolls_the_whole_set_back() {
    let (actions, _) = run(
        PipelineKind::Update,
        true,
        0,
        vec![allow(), PipelineEvent::Began, PipelineEvent::Prepared(vec![false, false]), allow(), allow(), block(None)],
    );
    assert_eq!(actions.last(), Some(&PipelineAction::Fail("Write-set hook blocked the update.".to_owned())));
    assert!(!actions.iter().any(|action| matches!(action, PipelineAction::Persist(_) | PipelineAction::Commit)));
    let (actions, _) = run(
        PipelineKind::RestrictedSet,
        false,
        0,
        vec![PipelineEvent::Began, PipelineEvent::Prepared(vec![false]), allow(), block(Some("reorder refused"))],
    );
    assert_eq!(actions.last(), Some(&PipelineAction::Fail("reorder refused".to_owned())));
    let (actions, _) = run(
        PipelineKind::CreateOne,
        true,
        0,
        vec![allow(), PipelineEvent::Began, PipelineEvent::Prepared(vec![true]), allow(), block(None)],
    );
    assert_eq!(actions.last(), Some(&PipelineAction::Fail("Write-set hook blocked the create.".to_owned())));
}

#[test]
fn a_created_row_outside_the_scope_is_rejected_before_commit() {
    let (actions, stage) = run(
        PipelineKind::CreateOne,
        true,
        0,
        vec![
            allow(),
            PipelineEvent::Began,
            PipelineEvent::Prepared(vec![true]),
            allow(),
            allow(),
            PipelineEvent::Persisted,
            PipelineEvent::Scoped(false),
        ],
    );
    assert_eq!(actions.last(), Some(&PipelineAction::Fail("created row is outside the caller's scope".to_owned())));
    assert!(!actions.contains(&PipelineAction::Commit));
    assert_eq!(stage, Stage::Done);
}

#[test]
fn a_restricted_insert_skips_the_guard_it_owns_and_releases_its_permit() {
    let (actions, _) = run(
        PipelineKind::Restricted,
        false,
        0,
        vec![
            PipelineEvent::Began,
            PipelineEvent::Prepared(vec![true]),
            allow(),
            PipelineEvent::Persisted,
            PipelineEvent::Scoped(true),
            PipelineEvent::Committed,
            PipelineEvent::Watched,
            PipelineEvent::Released,
        ],
    );
    assert_eq!(
        actions,
        vec![
            PipelineAction::Begin,
            PipelineAction::Prepare,
            PipelineAction::RunSaveHook(0),
            PipelineAction::Persist(0),
            PipelineAction::CheckScope(0),
            PipelineAction::Commit,
            PipelineAction::Watch,
            PipelineAction::Release,
            PipelineAction::Succeed,
        ],
    );
}

#[test]
fn a_restricted_noop_commits_without_watching() {
    let (actions, _) = run(
        PipelineKind::Restricted,
        true,
        0,
        vec![allow(), PipelineEvent::Began, PipelineEvent::Prepared(Vec::new()), PipelineEvent::Committed, PipelineEvent::Released],
    );
    assert_eq!(
        actions,
        vec![
            PipelineAction::CheckEntityGuard,
            PipelineAction::Begin,
            PipelineAction::Prepare,
            PipelineAction::Commit,
            PipelineAction::Release,
            PipelineAction::Succeed,
        ],
    );
}

#[test]
fn a_restricted_set_persists_in_order_and_checks_inserted_rows() {
    let (actions, _) = run(
        PipelineKind::RestrictedSet,
        false,
        0,
        vec![
            PipelineEvent::Began,
            PipelineEvent::Prepared(vec![false, true, false]),
            allow(),
            allow(),
            allow(),
            allow(),
            PipelineEvent::Persisted,
            PipelineEvent::Persisted,
            PipelineEvent::Scoped(true),
            PipelineEvent::Persisted,
            PipelineEvent::Committed,
            PipelineEvent::Watched,
            PipelineEvent::Released,
        ],
    );
    assert_eq!(
        actions,
        vec![
            PipelineAction::Begin,
            PipelineAction::Prepare,
            PipelineAction::RunSaveHook(0),
            PipelineAction::RunSaveHook(1),
            PipelineAction::RunSaveHook(2),
            PipelineAction::RunWriteSetHooks,
            PipelineAction::Persist(0),
            PipelineAction::Persist(1),
            PipelineAction::CheckScope(1),
            PipelineAction::Persist(2),
            PipelineAction::Commit,
            PipelineAction::Watch,
            PipelineAction::Release,
            PipelineAction::Succeed,
        ],
    );
}

#[test]
fn a_failed_step_ends_the_mutation_with_its_message() {
    let (actions, stage) = run(
        PipelineKind::Update,
        true,
        0,
        vec![allow(), PipelineEvent::Began, PipelineEvent::Prepared(vec![false]), allow(), allow(), PipelineEvent::Failed("UNIQUE constraint failed".to_owned())],
    );
    assert_eq!(actions.last(), Some(&PipelineAction::Fail("UNIQUE constraint failed".to_owned())));
    assert_eq!(stage, Stage::Done);
}
