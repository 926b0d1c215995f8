//! The command grammar: free chat text plus the issuing actor's role is
//! classified into a typed command.
//!
//! Only the first two whitespace-separated tokens are examined; everything
//! after them is ignored, so a line delivered twice in one string parses the
//! same as the line delivered once.

use vstd::prelude::*;

use crate::text::{first_token, next_token_bounds, second_token, span_eq};

verus! {

/// Capability level of a world-chat actor.
#[derive(Clone, Copy, Debug, PartialEq, Eq, Structural)]
pub enum Role {
    Unprivileged,
    Pearl,
}

/// One authenticated world-chat identity: fixed for the session.
#[derive(Clone, Debug, PartialEq)]
pub struct Actor {
    pub username: String,
    pub role: Role,
}

/// A typed command derived from chat text and the issuing actor's role.
#[derive(Clone, Copy, Debug, PartialEq, Eq, Structural)]
pub enum AetherCommand {
    /// `"!pearl load"`, granted only to role `Pearl`.
    PearlLoad,
    /// `"!help"`, granted to every role.
    Help,
    /// Anything else, including a privileged command from an unprivileged
    /// actor: indistinguishable from "not a command" by design.
    Unknown,
}

/// What `parse` returns: a total function of the text's first two tokens and
/// the actor's role.
pub open spec fn parse_spec(text: Seq<char>, role: Role) -> AetherCommand {
    if first_token(text) == "!pearl"@ {
        if second_token(text) == "load"@ {
            if role == Role::Pearl {
                AetherCommand::PearlLoad
            } else {
                AetherCommand::Unknown
            }
        } else {
            AetherCommand::Unknown
        }
    } else if first_token(text) == "!help"@ {
        AetherCommand::Help
    } else {
        AetherCommand::Unknown
    }
}

impl AetherCommand {
    /// Classifies `input` for `actor`.  Total and deterministic: the result
    /// is exactly `parse_spec(input@, actor.role)`, for every input.
    pub fn parse(input: &str, actor: &Actor) -> (c: AetherCommand)
        ensures
            c == parse_spec(input@, actor.role),
    {
        proof {
            assert(input@.skip(0) =~= input@);
        }
        let (a, b) = next_token_bounds(input, 0);
        if span_eq(input, a, b, "!pearl") {
            let (c2, d2) = next_token_bounds(input, b);
            if span_eq(input, c2, d2, "load") {
                if actor.role == Role::Pearl {
                    AetherCommand::PearlLoad
                } else {
                    AetherCommand::Unknown
                }
            } else {
                AetherCommand::Unknown
            }
        } else if span_eq(input, a, b, "!help") {
            AetherCommand::Help
        } else {
            AetherCommand::Unknown
        }
    }
}

/// Trailing-token tolerance: the parsed command depends only on the first two
/// whitespace-separated tokens of the text, so any tokens after the second
/// (duplicate-delivery artifacts included) never change the result.
pub proof fn lemma_parse_depends_on_two_tokens(t1: Seq<char>, t2: Seq<char>, role: Role)
    requires
        first_token(t1) == first_token(t2),
        second_token(t1) == second_token(t2),
    ensures
        parse_spec(t1, role) == parse_spec(t2, role),
{
}

} // verus!
