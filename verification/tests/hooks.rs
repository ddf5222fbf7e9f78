use module_host::dispatch::{filters_to_combine, scoped_order, ChainStep, GuardChain};
use module_host::hooks::{
    guard_message, guard_of, run_write_hook, write_action, Decision, Guard, Operation, WriteAction,
    WriteHook, WriteSet, WriteSetRow,
};

#[test]
fn a_rejection_carries_its_reason() {
    match Decision::reject("row is protected") {
        Decision::Reject(reason) => assert_eq!(reason, "row is protected"),
        Decision::Allow => panic!("expected a rejection"),
    }
    match Decision::reject(String::from("stale revision")) {
        Decision::Reject(reason) => assert_eq!(reason, "stale revision"),
        Decision::Allow => panic!("expected a rejection"),
    }
}

#[test]
fn operations_map_to_write_actions() {
    assert_eq!(write_action(Operation::Read), None);
    assert_eq!(write_action(Operation::Create), Some(WriteAction::Create));
    assert_eq!(write_action(Operation::Update), Some(WriteAction::Update));
    assert_eq!(write_action(Operation::Delete), Some(WriteAction::Delete));
}

#[test]
fn a_decision_becomes_a_guard() {
    assert!(matches!(guard_of(Decision::Allow), Guard::Allow));
    match guard_of(Decision::Reject("no".to_owned())) {
        Guard::Block(Some(reason)) => assert_eq!(reason, "no"),
        other => panic!("unexpected guard: {other:?}"),
    }
}

#[test]
fn a_blocked_guard_reads_its_reason_or_the_fallback() {
    assert_eq!(guard_message(Some("reorder refused".to_owned()), "Entity guard triggered."), "reorder refused");
    assert_eq!(guard_message(None, "Entity guard triggered."), "Entity guard triggered.");
}

#[test]
fn a_write_set_row_exposes_its_rows() {
    let mut create: WriteSetRow<i32, i32> = WriteSetRow::Create { active_model: 5 };
    assert_eq!(*create.active_model(), 5);
    assert_eq!(create.old_model(), None);
    *create.active_model_mut() = 6;
    assert_eq!(*create.active_model(), 6);

    let mut update: WriteSetRow<i32, i32> = WriteSetRow::Update { old_model: 1, active_model: 2 };
    assert_eq!(update.old_model(), Some(&1));
    *update.active_model_mut() = 3;
    assert_eq!(*update.active_model(), 3);
    assert_eq!(update.old_model(), Some(&1));

    let delete: WriteSetRow<i32, i32> = WriteSetRow::Delete { old_model: 9, active_model: 9 };
    assert_eq!(delete.old_model(), Some(&9));
}

#[test]
fn a_write_set_amends_only_the_addressed_row() {
    let mut rows: Vec<WriteSetRow<i32, i32>> = vec![
        WriteSetRow::Update { old_model: 10, active_model: 11 },
        WriteSetRow::Update { old_model: 20, active_model: 21 },
    ];
    {
        let mut write = WriteSet::new(WriteAction::Update, &mut rows);
        assert_eq!(write.action(), WriteAction::Update);
        assert_eq!(write.len(), 2);
        assert!(!write.is_empty());
        assert_eq!(write.current(0), Some(&10));
        assert_eq!(write.current(2), None);
        *write.proposed(1).expect("row 1") = 99;
        assert!(write.proposed(5).is_none());
    }
    assert_eq!(*rows[0].active_model(), 11);
    assert_eq!(*rows[1].active_model(), 99);
}

#[test]
fn an_empty_create_set_has_no_current_rows() {
    let mut rows: Vec<WriteSetRow<i32, i32>> = vec![WriteSetRow::Create { active_model: 1 }];
    let write = WriteSet::new(WriteAction::Create, &mut rows);
    assert_eq!(write.current(0), None);
    let mut none: Vec<WriteSetRow<i32, i32>> = Vec::new();
    assert!(WriteSet::new(WriteAction::Delete, &mut none).is_empty());
}

struct UniqueSlots;

impl WriteHook<i32, i32, ()> for UniqueSlots {
    fn check(&self, write: &mut WriteSet<'_, i32, i32>, _transaction: &()) -> Decision {
        let mut seen = Vec::new();
        for index in 0..write.len() {
            let slot = *write.proposed(index).expect("in range");
            if seen.contains(&slot) {
                return Decision::reject(format!("slot {slot} is taken"));
            }
            seen.push(slot);
        }
        Decision::Allow
    }
}

struct Renumber;

impl WriteHook<i32, i32, ()> for Renumber {
    fn check(&self, write: &mut WriteSet<'_, i32, i32>, _transaction: &()) -> Decision {
        for index in 0..write.len() {
            *write.proposed(index).expect("in range") = index as i32;
        }
        Decision::Allow
    }
}

#[test]
fn a_module_hook_rejection_blocks_with_its_reason() {
    let mut rows = vec![
        WriteSetRow::Create { active_model: 1 },
        WriteSetRow::Create { active_model: 1 },
    ];
    match run_write_hook(&UniqueSlots, Operation::Create, &mut rows, &()) {
        Guard::Block(Some(reason)) => assert_eq!(reason, "slot 1 is taken"),
        other => panic!("unexpected guard: {other:?}"),
    }
}

#[test]
fn a_module_hook_amends_every_row() {
    let mut rows = vec![
        WriteSetRow::Update { old_model: 5, active_model: 7 },
        WriteSetRow::Update { old_model: 6, active_model: 7 },
    ];
    assert!(matches!(run_write_hook(&Renumber, Operation::Update, &mut rows, &()), Guard::Allow));
    assert_eq!(*rows[0].active_model(), 0);
    assert_eq!(*rows[1].active_model(), 1);
}

#[test]
fn a_read_runs_no_module_hook() {
    let mut rows = vec![WriteSetRow::Create { active_model: 3 }];
    assert!(matches!(run_write_hook(&Renumber, Operation::Read, &mut rows, &()), Guard::Allow));
    assert_eq!(*rows[0].active_model(), 3);
}

fn drive(chain: &mut GuardChain, answers: &[Guard]) -> (Vec<usize>, Guard) {
    let mut asked = Vec::new();
    loop {
        match chain.next() {
            ChainStep::Ask(position) => {
                asked.push(position);
                let answer = match &answers[position] {
                    Guard::Allow => Guard::Allow,
                    Guard::Block(reason) => Guard::Block(reason.clone()),
                };
                chain.answer(answer);
            }
            ChainStep::Finish(verdict) => return (asked, verdict),
        }
    }
}

#[test]
fn composed_guards_stop_at_the_first_block() {
    let answers = [Guard::Allow, Guard::Block(Some("first block".to_owned())), Guard::Block(None)];
    let mut chain = GuardChain::new(vec![0, 1, 2]);
    let (asked, verdict) = drive(&mut chain, &answers);
    assert_eq!(asked, vec![0, 1]);
    match verdict {
        Guard::Block(Some(reason)) => assert_eq!(reason, "first block"),
        other => panic!("unexpected outcome: {other:?}"),
    }
}

#[test]
fn composed_guards_allow_when_every_hook_allows() {
    let answers = [Guard::Allow, Guard::Allow];
    let mut chain = GuardChain::new(vec![0, 1]);
    let (asked, verdict) = drive(&mut chain, &answers);
    assert_eq!(asked, vec![0, 1]);
    assert!(matches!(verdict, Guard::Allow));
    let empty = GuardChain::new(Vec::new());
    assert!(matches!(empty.next(), ChainStep::Finish(Guard::Allow)));
}

#[test]
fn write_set_hooks_for_another_entity_are_never_asked() {
    assert_eq!(scoped_order(&vec![true, false, true, false]), vec![0, 2]);
    assert_eq!(scoped_order(&vec![false, false]), Vec::<usize>::new());
    let answers = [Guard::Allow, Guard::Block(Some("write rows only".to_owned())), Guard::Allow];
    let mut chain = GuardChain::new(scoped_order(&vec![true, false, true]));
    let (asked, verdict) = drive(&mut chain, &answers);
    assert_eq!(asked, vec![0, 2]);
    assert!(matches!(verdict, Guard::Allow));
}

#[test]
fn filters_combine_only_contributing_hooks() {
    assert_eq!(filters_to_combine(&vec![false, true, true]), Some(vec![1, 2]));
    assert_eq!(filters_to_combine(&vec![false, false]), None);
    assert_eq!(filters_to_combine(&Vec::new()), None);
}
