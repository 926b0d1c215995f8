use aether_core::command::{Actor, AetherCommand, Role};

fn pearl_actor() -> Actor {
    Actor { username: String::from("_aether"), role: Role::Pearl }
}

fn plain_actor() -> Actor {
    Actor { username: String::from("_aether"), role: Role::Unprivileged }
}

#[test]
fn parse_load_trailing_tokens() {
    let a = pearl_actor();
    assert_eq!(AetherCommand::parse("!pearl load extra tokens", &a), AetherCommand::PearlLoad);
    assert_eq!(AetherCommand::parse("!pearl load", &a), AetherCommand::PearlLoad);
    assert_eq!(
        AetherCommand::parse("!pearl load extra tokens", &a),
        AetherCommand::parse("!pearl load", &a)
    );
}

#[test]
fn parse_load_duplicate_delivery() {
    // The upstream transport may deliver one line twice in one string; the
    // trailing tokens are ignored, so both deliveries parse identically.
    let a = pearl_actor();
    assert_eq!(AetherCommand::parse("!pearl load !pearl load", &a), AetherCommand::PearlLoad);
}

#[test]
fn parse_load_unprivileged_is_unknown() {
    let a = plain_actor();
    assert_eq!(AetherCommand::parse("!pearl load", &a), AetherCommand::Unknown);
    assert_eq!(AetherCommand::parse("!pearl load extra", &a), AetherCommand::Unknown);
}

#[test]
fn parse_help_any_role() {
    assert_eq!(AetherCommand::parse("!help", &pearl_actor()), AetherCommand::Help);
    assert_eq!(AetherCommand::parse("!help", &plain_actor()), AetherCommand::Help);
    assert_eq!(AetherCommand::parse("!help me please", &plain_actor()), AetherCommand::Help);
}

#[test]
fn parse_deterministic() {
    let a = pearl_actor();
    let one = AetherCommand::parse("!pearl load alice", &a);
    let two = AetherCommand::parse("!pearl load alice", &a);
    assert_eq!(one, two);
}

#[test]
fn parse_unknown_inputs() {
    let a = pearl_actor();
    assert_eq!(AetherCommand::parse("", &a), AetherCommand::Unknown);
    assert_eq!(AetherCommand::parse("   \t  ", &a), AetherCommand::Unknown);
    assert_eq!(AetherCommand::parse("!pearl", &a), AetherCommand::Unknown);
    assert_eq!(AetherCommand::parse("!pearl loadx", &a), AetherCommand::Unknown);
    assert_eq!(AetherCommand::parse("!PEARL load", &a), AetherCommand::Unknown);
    assert_eq!(AetherCommand::parse("hello there", &a), AetherCommand::Unknown);
    assert_eq!(AetherCommand::parse("load !pearl", &a), AetherCommand::Unknown);
}

#[test]
fn parse_tolerates_odd_whitespace() {
    let a = pearl_actor();
    assert_eq!(AetherCommand::parse("  !pearl \t load  ", &a), AetherCommand::PearlLoad);
    assert_eq!(AetherCommand::parse("\n!help\n", &a), AetherCommand::Help);
}

#[test]
fn parse_splits_on_unicode_whitespace() {
    // Tokenization follows the Unicode White_Space property, not just ASCII:
    // no-break space, em space and ideographic space all separate tokens.
    let a = pearl_actor();
    assert_eq!(AetherCommand::parse("!help\u{a0}me", &a), AetherCommand::Help);
    assert_eq!(AetherCommand::parse("!pearl\u{2003}load", &a), AetherCommand::PearlLoad);
    assert_eq!(AetherCommand::parse("\u{3000}!pearl\u{a0}load\u{2028}x", &a), AetherCommand::PearlLoad);
    // A non-whitespace exotic character still glues to its token.
    assert_eq!(AetherCommand::parse("!help\u{200b}me", &a), AetherCommand::Unknown);
}
