//! Forwarding between the two chat surfaces, and the command bridge.
//!
//! Each function here consumes one inbound event as plain values and returns
//! the sends the surrounding process must perform; the network calls
//! themselves are the transports' business.  Two invariants shape every
//! path: a world-chat message from the bound actor itself is never forwarded
//! (no reflection loop), and a relay message authored by a bot account is
//! never forwarded nor bridged (no relay echo loop).

use vstd::prelude::*;

use crate::command::Actor;
use crate::registry::{actors_for, channels_for, BindingKind, Registry};
use crate::text::{
    first_token, fourth_token, next_token_bounds, second_token, span_eq, third_token,
};

verus! {

/// One inbound relay-channel message, as the relay transport delivers it.
#[derive(Clone, Debug, PartialEq)]
pub struct RelayMessage {
    pub author: String,
    pub author_is_bot: bool,
    pub channel_id: u64,
    pub content: String,
}

/// One outbound send to a relay channel.
#[derive(Clone, Debug, PartialEq)]
pub struct RelaySend {
    pub channel_id: u64,
    pub text: String,
}

/// One world-chat message synthesized from a relay message, for one actor's
/// world-chat send path.
#[derive(Clone, Debug, PartialEq)]
pub struct WorldSend {
    pub actor_id: u64,
    pub sender: String,
    pub content: String,
}

/// The sender a world-chat event is attributed to: the resolved sender, or
/// the synthetic `"Server"` label when the event has none.
pub open spec fn effective_sender(sender: Option<Seq<char>>) -> Seq<char> {
    match sender {
        Some(s) => s,
        None => "Server"@,
    }
}

/// The line forwarded into a relay channel for a world-chat message.
pub open spec fn forwarded_line(sender: Seq<char>, content: Seq<char>) -> Seq<char> {
    sender + " -> "@ + content
}

/// World-to-relay forwarding: for one inbound world-chat message of the
/// actor `actor_id`, the sends owed to that actor's chat-relay bindings.
///
/// A message whose sender is the bound actor itself yields no send at all,
/// whatever the bindings; any other message yields exactly one send per
/// chat-relay binding, carrying `"{sender} -> {content}"`.
pub fn forward_world_message(
    registry: &Registry,
    actor_id: u64,
    actor: &Actor,
    sender: &Option<String>,
    content: &str,
) -> (sends: Vec<RelaySend>)
    ensures
        ({
            let eff = effective_sender(match *sender {
                Some(s) => Some(s@),
                None => None,
            });
            let chans = channels_for(registry@, actor_id, BindingKind::ChatRelay);
            if eff == actor.username@ {
                sends@.len() == 0
            } else {
                sends@.len() == chans.len() && forall|k: int|
                    #![trigger sends@[k]]
                    0 <= k < chans.len() ==> sends@[k].channel_id == chans[k]
                        && sends@[k].text@ == forwarded_line(eff, content@)
            }
        }),
{
    let resolved: String = match sender {
        Some(s) => s.clone(),
        None => String::from_str("Server"),
    };
    if resolved == actor.username {
        return Vec::new();
    }
    let line: String = resolved.concat(" -> ").concat(content);
    let chans = registry.channels_for_actor(actor_id, BindingKind::ChatRelay);
    let n = chans.len();
    let mut sends: Vec<RelaySend> = Vec::new();
    let mut i: usize = 0;
    while i < n
        invariant
            i <= n,
            n == chans@.len(),
            sends@.len() == i,
            forall|k: int|
                #![trigger sends@[k]]
                0 <= k < i ==> sends@[k].channel_id == chans@[k] && sends@[k].text@ == line@,
        decreases n - i,
    {
        sends.push(RelaySend { channel_id: chans[i], text: line.clone() });
        i += 1;
    }
    sends
}

/// Relay-to-world forwarding: for one inbound relay-channel message, the
/// world-chat messages owed to the actors whose chat-relay binding names the
/// message's channel.
///
/// A message authored by a bot account yields nothing; any other yields, per
/// bound actor, the message's content attributed to its author.
pub fn relay_to_world(registry: &Registry, msg: &RelayMessage) -> (out: Vec<WorldSend>)
    ensures
        ({
            let bound = actors_for(registry@, BindingKind::ChatRelay, msg.channel_id);
            if msg.author_is_bot {
                out@.len() == 0
            } else {
                out@.len() == bound.len() && forall|k: int|
                    #![trigger out@[k]]
                    0 <= k < bound.len() ==> out@[k].actor_id == bound[k] && out@[k].sender@
                        == msg.author@ && out@[k].content@ == msg.content@
            }
        }),
{
    if msg.author_is_bot {
        return Vec::new();
    }
    let bound = registry.actors_for_channel(BindingKind::ChatRelay, msg.channel_id);
    let n = bound.len();
    let mut out: Vec<WorldSend> = Vec::new();
    let mut i: usize = 0;
    while i < n
        invariant
            i <= n,
            n == bound@.len(),
            out@.len() == i,
            forall|k: int|
                #![trigger out@[k]]
                0 <= k < i ==> out@[k].actor_id == bound@[k] && out@[k].sender@ == msg.author@
                    && out@[k].content@ == msg.content@,
        decreases n - i,
    {
        out.push(
            WorldSend {
                actor_id: bound[i],
                sender: msg.author.clone(),
                content: msg.content.clone(),
            },
        );
        i += 1;
    }
    out
}

/// Whether relay text matches the bridge grammar `"!pearl" "load" <name>`:
/// exactly three whitespace-separated tokens, the first two fixed.
pub open spec fn bridge_grammar_matches(content: Seq<char>) -> bool {
    &&& first_token(content) == "!pearl"@
    &&& second_token(content) == "load"@
    &&& third_token(content).len() > 0
    &&& fourth_token(content).len() == 0
}

/// The `<name>` of a line matching the bridge grammar.
pub open spec fn bridge_target_name(content: Seq<char>) -> Seq<char> {
    third_token(content)
}

/// One world-chat message event synthesized by the command bridge for one
/// actor's inbound event stream.
#[derive(Clone, Debug, PartialEq)]
pub struct BridgedEvent {
    pub actor_id: u64,
    pub sender: String,
    pub content: String,
}

/// What the command bridge did with one relay-channel message.
#[derive(Debug, PartialEq)]
pub enum BridgeOutcome {
    /// Bot-authored, or no command binding names the channel: nothing owed.
    Ignored,
    /// The grammar matched: one synthesized event per bound actor.
    Bridged(Vec<BridgedEvent>),
    /// A command binding names the channel but the text does not match the
    /// grammar: a diagnostic, nothing forwarded into world chat.
    GrammarMismatch,
}

/// The command bridge: for one inbound relay-channel message, either the
/// world-chat command events to inject, or the diagnostic.
///
/// A matching line `"!pearl load <name>"` becomes, for every actor whose
/// command binding names the channel, a world-chat event attributed to
/// `<name>` with content `"!pearl load"` — the very shape a world-chat
/// command takes, so one dispatch path (and one authorization point, the
/// parser) serves both surfaces.  The bridge itself never checks a role.
pub fn bridge_relay_command(registry: &Registry, msg: &RelayMessage) -> (r: BridgeOutcome)
    ensures
        ({
            let bound = actors_for(registry@, BindingKind::CommandBridge, msg.channel_id);
            if msg.author_is_bot || bound.len() == 0 {
                r == BridgeOutcome::Ignored
            } else if bridge_grammar_matches(msg.content@) {
                r matches BridgeOutcome::Bridged(evts) && evts@.len() == bound.len()
                    && forall|k: int|
                    #![trigger evts@[k]]
                    0 <= k < bound.len() ==> evts@[k].actor_id == bound[k] && evts@[k].sender@
                        == bridge_target_name(msg.content@) && evts@[k].content@ == "!pearl load"@
            } else {
                r == BridgeOutcome::GrammarMismatch
            }
        }),
{
    if msg.author_is_bot {
        return BridgeOutcome::Ignored;
    }
    let bound = registry.actors_for_channel(BindingKind::CommandBridge, msg.channel_id);
    if bound.len() == 0 {
        return BridgeOutcome::Ignored;
    }
    let s: &str = msg.content.as_str();
    proof {
        assert(s@.skip(0) =~= s@);
    }
    let (a, b) = next_token_bounds(s, 0);
    if !span_eq(s, a, b, "!pearl") {
        return BridgeOutcome::GrammarMismatch;
    }
    let (c, d) = next_token_bounds(s, b);
    if !span_eq(s, c, d, "load") {
        return BridgeOutcome::GrammarMismatch;
    }
    let (e, f) = next_token_bounds(s, d);
    if e == f {
        proof {
            assert(third_token(msg.content@).len() == 0);
        }
        return BridgeOutcome::GrammarMismatch;
    }
    let (g, h) = next_token_bounds(s, f);
    if g != h {
        proof {
            assert(fourth_token(msg.content@).len() == h - g);
        }
        return BridgeOutcome::GrammarMismatch;
    }
    let name: &str = s.substring_char(e, f);
    let n = bound.len();
    let mut evts: Vec<BridgedEvent> = Vec::new();
    let mut i: usize = 0;
    while i < n
        invariant
            i <= n,
            n == bound@.len(),
            name@ == bridge_target_name(msg.content@),
            evts@.len() == i,
            forall|k: int|
                #![trigger evts@[k]]
                0 <= k < i ==> evts@[k].actor_id == bound@[k] && evts@[k].sender@ == name@
                    && evts@[k].content@ == "!pearl load"@,
        decreases n - i,
    {
        evts.push(
            BridgedEvent {
                actor_id: bound[i],
                sender: String::from_str(name),
                content: String::from_str("!pearl load"),
            },
        );
        i += 1;
    }
    BridgeOutcome::Bridged(evts)
}

} // verus!
