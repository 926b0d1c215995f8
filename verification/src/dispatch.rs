//! The one dispatch path for commands.
//!
//! Every command reaches the task executor through this function, whether it
//! was typed in world chat or bridged in from the relay channel: the bridge
//! synthesizes an event of exactly the shape a world-chat command takes, so
//! authorization happens here, once, through the parser and the actor's
//! role.

use vstd::prelude::*;

use crate::command::{parse_spec, Actor, AetherCommand};
use crate::task::{Phase, Position, Task, TaskAction, TaskExecutor};

verus! {

/// Whether a world-chat message event is dropped before command dispatch:
/// events without a resolvable sender, and the actor's own echoes, are never
/// dispatched.
pub open spec fn drops_for_dispatch(sender: Option<Seq<char>>, username: Seq<char>) -> bool {
    match sender {
        Some(s) => s == username,
        None => true,
    }
}

/// Dispatches one world-chat message event for `actor`.
///
/// A dropped event (no sender, or the actor's own echo) parses nothing and
/// changes nothing.  Otherwise the text is parsed under the actor's role;
/// `PearlLoad` is handed to the task executor with `target`, while `Help`
/// and `Unknown` leave the executor untouched with nothing owed —
/// unrecognized or unauthorized text is silently ignored here.
pub fn dispatch_world_message(
    executor: &mut TaskExecutor,
    actor: &Actor,
    sender: &Option<String>,
    content: &str,
    target: Position,
) -> (r: (AetherCommand, Vec<TaskAction>))
    requires
        old(executor).wf(),
    ensures
        final(executor).wf(),
        ({
            let dropped = drops_for_dispatch(
                match *sender {
                    Some(s) => Some(s@),
                    None => None,
                },
                actor.username@,
            );
            let cmd = parse_spec(content@, actor.role);
            if dropped {
                final(executor)@ == old(executor)@ && r.0 == AetherCommand::Unknown && r.1@.len()
                    == 0
            } else {
                r.0 == cmd && if cmd == AetherCommand::PearlLoad {
                    match old(executor)@ {
                        Some(_) => final(executor)@ == old(executor)@ && r.1@.len() == 1 && (
                        r.1@[0] matches TaskAction::Reply(t) && t@ == "Busy Sir!"@),
                        None => final(executor)@ == Some(
                            (Task { target, phase: Phase::Navigating }),
                        ) && r.1@.len() == 2 && (r.1@[0] matches TaskAction::Reply(t) && t@
                            == "On my way Sir!"@) && r.1@[1] == TaskAction::NavigateTo(target),
                    }
                } else {
                    final(executor)@ == old(executor)@ && r.1@.len() == 0
                }
            }
        }),
{
    let dropped: bool = match sender {
        Some(s) => *s == actor.username,
        None => true,
    };
    if dropped {
        return (AetherCommand::Unknown, Vec::new());
    }
    let cmd = AetherCommand::parse(content, actor);
    match cmd {
        AetherCommand::PearlLoad => {
            let acts = executor.on_load(target);
            (cmd, acts)
        },
        _ => (cmd, Vec::new()),
    }
}

} // verus!
