use nickbot::handler::{after_fetch, finish, nick_change_reply, text_arg, user_arg, Handler};
use nickbot::model::{
    Argument, Command, CommandError, Invocation, Member, NickRequest, Step, PROTECTED_USER,
    RAMOS_USER,
};
use nickbot::registry::{command_definitions, OptionKind};
use nickbot::text::{decimal_string, str_equal};

const GUILD: u64 = 700000000000000001;
const ROLE: u64 = 800000000000000002;
const BOT: u64 = 900000000000000003;

fn handler() -> Handler {
    Handler::new(GUILD, ROLE)
}

fn invocation(command: Command, args: Vec<Argument>, guild_id: Option<u64>) -> Invocation {
    Invocation { command, args, guild_id, member: None }
}

fn member(user_id: u64, name: &str, nick: Option<&str>) -> Member {
    Member {
        guild_id: GUILD,
        user_id,
        name: name.to_string(),
        tag: format!("{}#0042", name),
        nick: nick.map(|n| n.to_string()),
    }
}

fn reply_text(step: Step) -> String {
    match step {
        Step::Reply(text) => text,
        other => panic!("expected a reply, got {:?}", other),
    }
}

#[test]
fn ramos_without_guild_reports_missing_guild_id() {
    let inv = invocation(Command::Ramos, vec![Argument::Text("Capitán".to_string())], None);
    assert_eq!(reply_text(handler().dispatch(&inv)), "Error: Couldn't get guild ID");
}

#[test]
fn nick_on_protected_user_is_refused() {
    let inv = invocation(
        Command::Nick,
        vec![Argument::User(285601845957885952), Argument::Text("Nuevo".to_string())],
        Some(GUILD),
    );
    assert_eq!(
        reply_text(handler().dispatch(&inv)),
        "Error: Can't fix what's already perfect 🙏"
    );
}

#[test]
fn protected_user_is_refused_even_without_guild() {
    let step = handler().set_nick(None, PROTECTED_USER, "x".to_string());
    assert_eq!(reply_text(step), "Error: Can't fix what's already perfect 🙏");
}

#[test]
fn nick_without_arguments_requires_first() {
    let inv = invocation(Command::Nick, vec![], Some(GUILD));
    assert_eq!(reply_text(handler().dispatch(&inv)), "Error: Command requires argument #1");
}

#[test]
fn nick_without_nickname_requires_second() {
    let inv = invocation(Command::Nick, vec![Argument::User(5)], Some(GUILD));
    assert_eq!(reply_text(handler().dispatch(&inv)), "Error: Command requires argument #2");
}

#[test]
fn ramos_without_arguments_requires_first() {
    let inv = invocation(Command::Ramos, vec![], Some(GUILD));
    assert_eq!(reply_text(handler().dispatch(&inv)), "Error: Command requires argument #1");
}

#[test]
fn nick_with_text_for_user_is_invalid() {
    let inv = invocation(
        Command::Nick,
        vec![Argument::Text("someone".to_string()), Argument::Text("x".to_string())],
        Some(GUILD),
    );
    assert_eq!(reply_text(handler().dispatch(&inv)), "Error: Invalid argument #1");
}

#[test]
fn nick_with_user_for_nickname_is_invalid() {
    let inv = invocation(Command::Nick, vec![Argument::User(5), Argument::User(6)], Some(GUILD));
    assert_eq!(reply_text(handler().dispatch(&inv)), "Error: Invalid argument #2");
}

#[test]
fn ramos_with_unresolved_argument_is_invalid() {
    let inv = invocation(Command::Ramos, vec![Argument::Unresolved], Some(GUILD));
    assert_eq!(reply_text(handler().dispatch(&inv)), "Error: Invalid argument #1");
}

#[test]
fn nick_looks_up_the_member_first() {
    let inv = invocation(
        Command::Nick,
        vec![Argument::User(42), Argument::Text("Nuevo".to_string())],
        Some(GUILD),
    );
    match handler().dispatch(&inv) {
        Step::FetchMember(req) => {
            assert_eq!(req.guild_id, GUILD);
            assert_eq!(req.user_id, 42);
            assert_eq!(req.nick, "Nuevo");
        }
        other => panic!("unexpected step {:?}", other),
    }
}

#[test]
fn ramos_targets_the_fixed_user() {
    let inv = invocation(Command::Ramos, vec![Argument::Text("Capitán".to_string())], Some(GUILD));
    match handler().dispatch(&inv) {
        Step::FetchMember(req) => {
            assert_eq!(req.user_id, RAMOS_USER);
            assert_eq!(req.nick, "Capitán");
        }
        other => panic!("unexpected step {:?}", other),
    }
}

#[test]
fn nick_change_reply_is_exact() {
    assert_eq!(nick_change_reply("ana#0042", "old", "new"), "`ana#0042`  `old` → `new`");
}

#[test]
fn nick_change_reply_escapes_backticks() {
    assert_eq!(nick_change_reply("a", "x`y", "z"), "`a`  `x'y` → `z`");
}

#[test]
fn after_fetch_edits_other_member_with_old_nickname() {
    let req = NickRequest { guild_id: GUILD, user_id: 42, nick: "Nuevo".to_string() };
    let step = after_fetch(req, Ok(member(42, "ana", Some("Viejo"))), BOT);
    match step {
        Step::EditMemberNick { guild_id, user_id, nick, reply } => {
            assert_eq!(guild_id, GUILD);
            assert_eq!(user_id, 42);
            assert_eq!(nick, "Nuevo");
            assert_eq!(reply, "`ana#0042`  `Viejo` → `Nuevo`");
        }
        other => panic!("unexpected step {:?}", other),
    }
}

#[test]
fn after_fetch_uses_user_name_without_nickname() {
    let req = NickRequest { guild_id: GUILD, user_id: 42, nick: "N".to_string() };
    let step = after_fetch(req, Ok(member(42, "ana", None)), BOT);
    match step {
        Step::EditMemberNick { reply, .. } => assert_eq!(reply, "`ana#0042`  `ana` → `N`"),
        other => panic!("unexpected step {:?}", other),
    }
}

#[test]
fn after_fetch_renames_the_bot_itself() {
    let req = NickRequest { guild_id: GUILD, user_id: BOT, nick: "Bot".to_string() };
    let step = after_fetch(req, Ok(member(BOT, "nickbot", None)), BOT);
    match step {
        Step::EditOwnNick { guild_id, nick, .. } => {
            assert_eq!(guild_id, GUILD);
            assert_eq!(nick, "Bot");
        }
        other => panic!("unexpected step {:?}", other),
    }
}

#[test]
fn after_fetch_forwards_the_failure() {
    let req = NickRequest { guild_id: GUILD, user_id: 42, nick: "N".to_string() };
    let step = after_fetch(req, Err("Unknown Member".to_string()), BOT);
    assert_eq!(reply_text(step), "Error: Unknown Member");
}

#[test]
fn finish_answers_with_reply_or_failure() {
    assert_eq!(finish("done".to_string(), Ok(())), "done");
    assert_eq!(finish("done".to_string(), Err("Missing Permissions".to_string())), "Error: Missing Permissions");
}

#[test]
fn join_then_leave_changes_role_twice() {
    let mut inv = invocation(Command::Join, vec![], Some(GUILD));
    inv.member = Some(member(42, "ana", Some("Ani")));
    let joined = handler().dispatch(&inv);
    inv.command = Command::Leave;
    let left = handler().dispatch(&inv);
    let joined_reply = match joined {
        Step::AddRole { guild_id, user_id, role_id, reply } => {
            assert_eq!((guild_id, user_id, role_id), (GUILD, 42, ROLE));
            reply
        }
        other => panic!("unexpected step {:?}", other),
    };
    let left_reply = match left {
        Step::RemoveRole { guild_id, user_id, role_id, reply } => {
            assert_eq!((guild_id, user_id, role_id), (GUILD, 42, ROLE));
            reply
        }
        other => panic!("unexpected step {:?}", other),
    };
    assert_eq!(joined_reply, "`Ani` joined the fan club.");
    assert_eq!(left_reply, "`Ani` left the fan club.");
    assert_ne!(finish(joined_reply, Ok(())), finish(left_reply, Ok(())));
}

#[test]
fn join_outside_guild_is_refused() {
    let inv = invocation(Command::Join, vec![], None);
    assert_eq!(reply_text(handler().dispatch(&inv)), "Error: Not on a guild");
    let inv = invocation(Command::Leave, vec![], None);
    assert_eq!(reply_text(handler().dispatch(&inv)), "Error: Not on a guild");
}

#[test]
fn error_messages() {
    assert_eq!(CommandError::NoGuildId.message(), "Couldn't get guild ID");
    assert_eq!(CommandError::MissingArgument(12).message(), "Command requires argument #12");
    assert_eq!(CommandError::InvalidArgument(3).reply(), "Error: Invalid argument #3");
    assert_eq!(CommandError::Api("boom".to_string()).reply(), "Error: boom");
}

#[test]
fn argument_extraction() {
    let args = vec![Argument::User(7), Argument::Text("t".to_string()), Argument::Unresolved];
    assert!(matches!(user_arg(&args, 0), Ok(7)));
    assert!(matches!(user_arg(&args, 1), Err(CommandError::InvalidArgument(2))));
    assert!(matches!(user_arg(&args, 3), Err(CommandError::MissingArgument(4))));
    assert!(matches!(text_arg(&args, 1), Ok(ref s) if s == "t"));
    assert!(matches!(text_arg(&args, 2), Err(CommandError::InvalidArgument(3))));
}

#[test]
fn parse_commands() {
    assert_eq!(Command::parse("nick"), Some(Command::Nick));
    assert_eq!(Command::parse("ramos"), Some(Command::Ramos));
    assert_eq!(Command::parse("join"), Some(Command::Join));
    assert_eq!(Command::parse("leave"), Some(Command::Leave));
    assert_eq!(Command::parse("nickname"), None);
    assert_eq!(Command::parse(""), None);
}

#[test]
fn decimal_and_equality() {
    assert_eq!(decimal_string(0), "0");
    assert_eq!(decimal_string(1907), "1907");
    assert_eq!(decimal_string(u64::MAX), u64::MAX.to_string());
    assert!(str_equal("añ", "añ"));
    assert!(!str_equal("a", "ab"));
}

#[test]
fn registered_commands_match_handlers() {
    let defs = command_definitions();
    let names: Vec<&str> = defs.iter().map(|d| d.name.as_str()).collect();
    assert_eq!(names, vec!["nick", "ramos", "join", "leave"]);
    assert_eq!(defs[0].options.len(), 2);
    assert_eq!(defs[0].options[0].name, "user");
    assert_eq!(defs[0].options[0].kind, OptionKind::User);
    assert!(defs[0].options[1].required);
    assert_eq!(defs[1].description, "Set Ramos' nickname");
    assert_eq!(defs[1].options[0].kind, OptionKind::Text);
    assert!(defs[2].options.is_empty());
    assert_eq!(defs[3].description, "Leaves the fanclub.");
    for d in &defs {
        assert!(Command::parse(&d.name).is_some());
    }
}
