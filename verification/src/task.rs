//! The task executor: one bounded navigate-then-interact task per actor,
//! driven as a state machine by the accepted command, by position polls, and
//! by the movement collaborator's acknowledgements.
//!
//! The executor decides; the surrounding process performs the returned
//! actions (chat replies, navigation and interaction requests) against the
//! movement collaborator and the chat surfaces.

use vstd::prelude::*;

verus! {

/// One point in world coordinates (whole world-distance units).
#[derive(Clone, Copy, Debug, PartialEq, Eq, Structural)]
pub struct Position {
    pub x: i32,
    pub y: i32,
    pub z: i32,
}

/// The squared Euclidean distance between two positions.
pub open spec fn dist_sq(p: Position, t: Position) -> int {
    (p.x - t.x) * (p.x - t.x) + (p.y - t.y) * (p.y - t.y) + (p.z - t.z) * (p.z - t.z)
}

/// The fixed proximity threshold: within 5 world-distance units, Euclidean.
pub open spec fn within_reach(p: Position, t: Position) -> bool {
    dist_sq(p, t) <= 25
}

/// Exec counterpart of `within_reach`, exact for every pair of positions.
pub fn is_within_reach(p: &Position, t: &Position) -> (r: bool)
    ensures
        r == within_reach(*p, *t),
{
    let dx: i128 = (p.x as i128) - (t.x as i128);
    let dy: i128 = (p.y as i128) - (t.y as i128);
    let dz: i128 = (p.z as i128) - (t.z as i128);
    proof {
        assert(dx * dx < 0x10000000000000000 && dx * dx >= 0) by (nonlinear_arith)
            requires
                -0x100000000 < dx < 0x100000000,
        ;
        assert(dy * dy < 0x10000000000000000 && dy * dy >= 0) by (nonlinear_arith)
            requires
                -0x100000000 < dy < 0x100000000,
        ;
        assert(dz * dz < 0x10000000000000000 && dz * dz >= 0) by (nonlinear_arith)
            requires
                -0x100000000 < dz < 0x100000000,
        ;
    }
    dx * dx + dy * dy + dz * dz <= 25
}

/// Where a task stands.  A stored task is always in one of the two live
/// phases; `Done` and `Failed` are terminal and reported as the task is
/// discarded.
#[derive(Clone, Copy, Debug, PartialEq, Eq, Structural)]
pub enum Phase {
    Navigating,
    Interacting,
    Done,
    Failed,
}

/// One in-flight navigate-then-interact run.
#[derive(Clone, Copy, Debug, PartialEq, Eq, Structural)]
pub struct Task {
    pub target: Position,
    pub phase: Phase,
}

/// An action the surrounding process owes after a transition.
#[derive(Clone, Debug, PartialEq)]
pub enum TaskAction {
    /// A chat reply to emit into world chat.
    Reply(String),
    /// Ask the movement collaborator to walk to the position.
    NavigateTo(Position),
    /// Cancel the outstanding navigation request.
    CancelNavigation,
    /// Interact with the block at the position.
    InteractAt(Position),
}

/// The per-actor task executor: `task` is `None` while idle, and at most one
/// task is ever active.
pub struct TaskExecutor {
    task: Option<Task>,
}

impl View for TaskExecutor {
    type V = Option<Task>;

    closed spec fn view(&self) -> Option<Task> {
        self.task
    }
}

impl TaskExecutor {
    /// A stored task is never in a terminal phase.
    pub open spec fn wf(self) -> bool {
        match self@ {
            Some(t) => t.phase == Phase::Navigating || t.phase == Phase::Interacting,
            None => true,
        }
    }

    /// An idle executor.
    pub fn new() -> (r: TaskExecutor)
        ensures
            r@ is None,
            r.wf(),
    {
        TaskExecutor { task: None }
    }

    /// The active task, if any.
    pub fn active_task(&self) -> (r: Option<Task>)
        ensures
            r == self@,
    {
        self.task
    }

    /// An accepted `Load` command.  Idle: the task starts navigating and the
    /// process owes the acknowledgment reply and one navigation request.  A
    /// task already active: rejected with the busy reply, the task keeps its
    /// phase, and no navigation request is issued.
    pub fn on_load(&mut self, target: Position) -> (acts: Vec<TaskAction>)
        requires
            old(self).wf(),
        ensures
            final(self).wf(),
            match old(self)@ {
                Some(_) => final(self)@ == old(self)@ && acts@.len() == 1 && (acts@[0] matches
                TaskAction::Reply(t) && t@ == "Busy Sir!"@),
                None => final(self)@ == Some((Task { target, phase: Phase::Navigating }))
                    && acts@.len() == 2 && (acts@[0] matches TaskAction::Reply(t) && t@
                    == "On my way Sir!"@) && acts@[1] == TaskAction::NavigateTo(target),
            },
    {
        let mut acts: Vec<TaskAction> = Vec::new();
        match self.task {
            Some(_) => {
                acts.push(TaskAction::Reply(String::from_str("Busy Sir!")));
            },
            None => {
                self.task = Some(Task { target, phase: Phase::Navigating });
                acts.push(TaskAction::Reply(String::from_str("On my way Sir!")));
                acts.push(TaskAction::NavigateTo(target));
            },
        }
        acts
    }

    /// A position poll.  Only a navigating task within reach of its target
    /// moves on: it turns to interacting, and the process owes exactly one
    /// navigation cancel and one interaction request.  Every other state is
    /// left as it is, with nothing owed.
    pub fn on_position(&mut self, pos: Position) -> (acts: Vec<TaskAction>)
        requires
            old(self).wf(),
        ensures
            final(self).wf(),
            match old(self)@ {
                Some(t) => if t.phase == Phase::Navigating && within_reach(pos, t.target) {
                    final(self)@ == Some((Task { target: t.target, phase: Phase::Interacting }))
                        && acts@.len() == 2 && acts@[0] == TaskAction::CancelNavigation && acts@[1]
                        == TaskAction::InteractAt(t.target)
                } else {
                    final(self)@ == old(self)@ && acts@.len() == 0
                },
                None => final(self)@ == old(self)@ && acts@.len() == 0,
            },
    {
        let mut acts: Vec<TaskAction> = Vec::new();
        match self.task {
            Some(t) => {
                if matches!(t.phase, Phase::Navigating) && is_within_reach(&pos, &t.target) {
                    self.task = Some(Task { target: t.target, phase: Phase::Interacting });
                    acts.push(TaskAction::CancelNavigation);
                    acts.push(TaskAction::InteractAt(t.target));
                }
            },
            None => {},
        }
        acts
    }

    /// The movement collaborator acknowledged the interaction.  An
    /// interacting task reaches `Done`: it is discarded and the process owes
    /// the completion reply.  Every other state is left as it is.
    pub fn on_interact_ack(&mut self) -> (r: (Option<Phase>, Vec<TaskAction>))
        requires
            old(self).wf(),
        ensures
            final(self).wf(),
            match old(self)@ {
                Some(t) => if t.phase == Phase::Interacting {
                    final(self)@ is None && r.0 == Some(Phase::Done) && r.1@.len() == 1
                        && (r.1@[0] matches TaskAction::Reply(m) && m@ == "Done Sir!"@)
                } else {
                    final(self)@ == old(self)@ && r.0 is None && r.1@.len() == 0
                },
                None => final(self)@ == old(self)@ && r.0 is None && r.1@.len() == 0,
            },
    {
        let mut acts: Vec<TaskAction> = Vec::new();
        match self.task {
            Some(t) => {
                if matches!(t.phase, Phase::Interacting) {
                    self.task = None;
                    acts.push(TaskAction::Reply(String::from_str("Done Sir!")));
                    return (Some(Phase::Done), acts);
                }
            },
            None => {},
        }
        (None, acts)
    }

    /// The movement collaborator reported an error or the world connection
    /// dropped.  An active task reaches `Failed`: it is discarded and the
    /// process owes the failure reply.  An idle executor is left idle.
    pub fn on_failure(&mut self) -> (r: (Option<Phase>, Vec<TaskAction>))
        requires
            old(self).wf(),
        ensures
            final(self).wf(),
            match old(self)@ {
                Some(_) => final(self)@ is None && r.0 == Some(Phase::Failed) && r.1@.len() == 1
                    && (r.1@[0] matches TaskAction::Reply(m) && m@ == "Task failed Sir!"@),
                None => final(self)@ == old(self)@ && r.0 is None && r.1@.len() == 0,
            },
    {
        let mut acts: Vec<TaskAction> = Vec::new();
        match self.task {
            Some(_) => {
                self.task = None;
                acts.push(TaskAction::Reply(String::from_str("Task failed Sir!")));
                (Some(Phase::Failed), acts)
            },
            None => (None, acts),
        }
    }
}

} // verus!
