use aether_core::task::{is_within_reach, Phase, Position, Task, TaskAction, TaskExecutor};

fn target() -> Position {
    Position { x: 606, y: 90, z: 404 }
}

fn reply_text(a: &TaskAction) -> &str {
    match a {
        TaskAction::Reply(t) => t.as_str(),
        other => panic!("expected Reply, got {:?}", other),
    }
}

#[test]
fn load_starts_navigation() {
    let mut ex = TaskExecutor::new();
    assert_eq!(ex.active_task(), None);
    let acts = ex.on_load(target());
    assert_eq!(acts.len(), 2);
    assert_eq!(reply_text(&acts[0]), "On my way Sir!");
    assert_eq!(acts[1], TaskAction::NavigateTo(target()));
    assert_eq!(ex.active_task(), Some(Task { target: target(), phase: Phase::Navigating }));
}

#[test]
fn second_load_is_rejected_while_busy() {
    let mut ex = TaskExecutor::new();
    ex.on_load(target());
    let before = ex.active_task();
    let acts = ex.on_load(Position { x: 0, y: 0, z: 0 });
    assert_eq!(acts.len(), 1);
    assert_eq!(reply_text(&acts[0]), "Busy Sir!");
    // The task keeps its phase and no second navigation request is issued.
    assert_eq!(ex.active_task(), before);
    assert!(!acts.iter().any(|a| matches!(a, TaskAction::NavigateTo(_))));
}

#[test]
fn position_far_away_changes_nothing() {
    let mut ex = TaskExecutor::new();
    ex.on_load(target());
    let acts = ex.on_position(Position { x: 0, y: 90, z: 404 });
    assert_eq!(acts.len(), 0);
    assert_eq!(ex.active_task(), Some(Task { target: target(), phase: Phase::Navigating }));
}

#[test]
fn position_within_reach_starts_interaction() {
    let mut ex = TaskExecutor::new();
    ex.on_load(target());
    // Distance 5 exactly: still within reach.
    let acts = ex.on_position(Position { x: 606, y: 95, z: 404 });
    assert_eq!(acts.len(), 2);
    assert_eq!(acts[0], TaskAction::CancelNavigation);
    assert_eq!(acts[1], TaskAction::InteractAt(target()));
    assert_eq!(ex.active_task(), Some(Task { target: target(), phase: Phase::Interacting }));
    // A later poll neither cancels nor interacts a second time.
    let acts = ex.on_position(Position { x: 606, y: 95, z: 404 });
    assert_eq!(acts.len(), 0);
    assert_eq!(ex.active_task(), Some(Task { target: target(), phase: Phase::Interacting }));
}

#[test]
fn proximity_threshold_is_euclidean() {
    let t = Position { x: 0, y: 0, z: 0 };
    assert!(is_within_reach(&Position { x: 3, y: 4, z: 0 }, &t)); // 9 + 16 = 25
    assert!(is_within_reach(&Position { x: 5, y: 0, z: 0 }, &t));
    assert!(!is_within_reach(&Position { x: 5, y: 1, z: 0 }, &t)); // 26 > 25
    assert!(!is_within_reach(&Position { x: 3, y: 4, z: 1 }, &t));
    assert!(is_within_reach(&Position { x: -3, y: -4, z: 0 }, &t));
    assert!(is_within_reach(&Position { x: i32::MIN, y: 0, z: 0 }, &Position {
        x: i32::MIN + 5,
        y: 0,
        z: 0,
    }));
    assert!(!is_within_reach(&Position { x: i32::MIN, y: 0, z: 0 }, &Position {
        x: i32::MAX,
        y: 0,
        z: 0,
    }));
}

#[test]
fn interact_ack_completes_task() {
    let mut ex = TaskExecutor::new();
    ex.on_load(target());
    ex.on_position(target());
    let (phase, acts) = ex.on_interact_ack();
    assert_eq!(phase, Some(Phase::Done));
    assert_eq!(acts.len(), 1);
    assert_eq!(reply_text(&acts[0]), "Done Sir!");
    assert_eq!(ex.active_task(), None);
}

#[test]
fn interact_ack_while_navigating_changes_nothing() {
    let mut ex = TaskExecutor::new();
    ex.on_load(target());
    let (phase, acts) = ex.on_interact_ack();
    assert_eq!(phase, None);
    assert_eq!(acts.len(), 0);
    assert_eq!(ex.active_task(), Some(Task { target: target(), phase: Phase::Navigating }));
}

#[test]
fn failure_discards_task_with_reply() {
    let mut ex = TaskExecutor::new();
    ex.on_load(target());
    let (phase, acts) = ex.on_failure();
    assert_eq!(phase, Some(Phase::Failed));
    assert_eq!(acts.len(), 1);
    assert_eq!(reply_text(&acts[0]), "Task failed Sir!");
    assert_eq!(ex.active_task(), None);
    // A failure while idle is not a task failure.
    let (phase, acts) = ex.on_failure();
    assert_eq!(phase, None);
    assert_eq!(acts.len(), 0);
}

#[test]
fn task_can_run_again_after_completion() {
    let mut ex = TaskExecutor::new();
    ex.on_load(target());
    ex.on_position(target());
    ex.on_interact_ack();
    let acts = ex.on_load(target());
    assert_eq!(acts.len(), 2);
    assert_eq!(reply_text(&acts[0]), "On my way Sir!");
}
