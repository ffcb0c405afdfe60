use crate::text::{decimal, mono_safe_of};
use vstd::prelude::*;

verus! {

/// The user whose nickname nobody may change.
pub const PROTECTED_USER: u64 = 285601845957885952;

/// The user whose nickname `ramos` sets.
pub const RAMOS_USER: u64 = 331194780916776961;

/// The commands that the bot registers.
#[derive(Clone, Copy, Debug, PartialEq, Eq, Structural)]
pub enum Command {
    Nick,
    Ramos,
    Join,
    Leave,
}

/// One argument of an invocation, as resolved by the gateway.
#[derive(Clone, Debug)]
pub enum Argument {
    User(u64),
    Text(String),
    /// An argument of another kind, or one the gateway could not resolve.
    Unresolved,
}

/// A guild member as the API describes it.
#[derive(Clone, Debug)]
pub struct Member {
    pub guild_id: u64,
    pub user_id: u64,
    /// The account's user name.
    pub name: String,
    /// The account's tag (name and discriminator).
    pub tag: String,
    /// The guild nickname, if one is set.
    pub nick: Option<String>,
}

/// One use of a command, with everything the handler may read of it.
#[derive(Clone, Debug)]
pub struct Invocation {
    pub command: Command,
    pub args: Vec<Argument>,
    /// The guild the command was used in.
    pub guild_id: Option<u64>,
    /// The invoking member, when the command was used inside a guild.
    pub member: Option<Member>,
}

/// Why a command failed. Argument positions count from 1.
#[derive(Clone, Debug)]
pub enum CommandError {
    NoGuildId,
    NotInGuild,
    MissingArgument(usize),
    InvalidArgument(usize),
    ProtectedTarget,
    /// A call to the API failed; its description is kept as it came.
    Api(String),
}

/// A nickname change that waits for the target member's record.
#[derive(Clone, Debug)]
pub struct NickRequest {
    pub guild_id: u64,
    pub user_id: u64,
    pub nick: String,
}

/// What the handler asks of its host next. Each step but `Reply` is an API
/// call; `reply` is what to answer when that call succeeds.
#[derive(Clone, Debug)]
pub enum Step {
    FetchMember(NickRequest),
    EditOwnNick { guild_id: u64, nick: String, reply: String },
    EditMemberNick { guild_id: u64, user_id: u64, nick: String, reply: String },
    AddRole { guild_id: u64, user_id: u64, role_id: u64, reply: String },
    RemoveRole { guild_id: u64, user_id: u64, role_id: u64, reply: String },
    /// Answer the interaction with this text; nothing follows.
    Reply(String),
}

/// A `Step` with its texts as character sequences.
pub enum StepModel {
    FetchMember { guild_id: u64, user_id: u64, nick: Seq<char> },
    EditOwnNick { guild_id: u64, nick: Seq<char>, reply: Seq<char> },
    EditMemberNick { guild_id: u64, user_id: u64, nick: Seq<char>, reply: Seq<char> },
    AddRole { guild_id: u64, user_id: u64, role_id: u64, reply: Seq<char> },
    RemoveRole { guild_id: u64, user_id: u64, role_id: u64, reply: Seq<char> },
    Reply(Seq<char>),
}

impl View for Step {
    type V = StepModel;

    open spec fn view(&self) -> StepModel {
        match self {
            Step::FetchMember(req) => StepModel::FetchMember {
                guild_id: req.guild_id,
                user_id: req.user_id,
                nick: req.nick@,
            },
            Step::EditOwnNick { guild_id, nick, reply } => StepModel::EditOwnNick {
                guild_id: *guild_id,
                nick: nick@,
                reply: reply@,
            },
            Step::EditMemberNick { guild_id, user_id, nick, reply } => StepModel::EditMemberNick {
                guild_id: *guild_id,
                user_id: *user_id,
                nick: nick@,
                reply: reply@,
            },
            Step::AddRole { guild_id, user_id, role_id, reply } => StepModel::AddRole {
                guild_id: *guild_id,
                user_id: *user_id,
                role_id: *role_id,
                reply: reply@,
            },
            Step::RemoveRole { guild_id, user_id, role_id, reply } => StepModel::RemoveRole {
                guild_id: *guild_id,
                user_id: *user_id,
                role_id: *role_id,
                reply: reply@,
            },
            Step::Reply(text) => StepModel::Reply(text@),
        }
    }
}

impl StepModel {
    /// Whether this step changes a nickname.
    pub open spec fn is_nick_edit(self) -> bool {
        self is EditOwnNick || self is EditMemberNick
    }

    /// Whether this step changes a member's roles.
    pub open spec fn is_role_change(self) -> bool {
        self is AddRole || self is RemoveRole
    }

    /// The text answered once this step's call succeeded (for a `Reply`, its
    /// text).
    pub open spec fn success_reply(self) -> Seq<char> {
        match self {
            StepModel::FetchMember { .. } => Seq::empty(),
            StepModel::EditOwnNick { reply, .. } => reply,
            StepModel::EditMemberNick { reply, .. } => reply,
            StepModel::AddRole { reply, .. } => reply,
            StepModel::RemoveRole { reply, .. } => reply,
            StepModel::Reply(text) => text,
        }
    }
}

/// The command registered under `name`, if any.
pub open spec fn command_named(name: Seq<char>) -> Option<Command> {
    if name == "nick"@ {
        Some(Command::Nick)
    } else if name == "ramos"@ {
        Some(Command::Ramos)
    } else if name == "join"@ {
        Some(Command::Join)
    } else if name == "leave"@ {
        Some(Command::Leave)
    } else {
        None
    }
}

/// The reason given to the user for `e`.
pub open spec fn error_message(e: CommandError) -> Seq<char> {
    match e {
        CommandError::NoGuildId => "Couldn't get guild ID"@,
        CommandError::NotInGuild => "Not on a guild"@,
        CommandError::MissingArgument(n) => "Command requires argument #"@ + decimal(n as nat),
        CommandError::InvalidArgument(n) => "Invalid argument #"@ + decimal(n as nat),
        CommandError::ProtectedTarget => "Can't fix what's already perfect 🙏"@,
        CommandError::Api(text) => text@,
    }
}

/// The reply that reports a failure with reason `reason`.
pub open spec fn error_reply(reason: Seq<char>) -> Seq<char> {
    "Error: "@ + reason
}

/// The name a member goes by in the guild: the nickname, else the user name.
pub open spec fn display_name(m: Member) -> Seq<char> {
    match m.nick {
        Some(n) => n@,
        None => m.name@,
    }
}

/// The reply to a nickname change of the member tagged `tag` from `old` to
/// `new`.
pub open spec fn nick_reply(tag: Seq<char>, old: Seq<char>, new: Seq<char>) -> Seq<char> {
    mono_safe_of(tag) + "  "@ + mono_safe_of(old) + " → "@ + mono_safe_of(new)
}

/// The reply when the member named `name` joins the fan club.
pub open spec fn joined_reply(name: Seq<char>) -> Seq<char> {
    mono_safe_of(name) + " joined the fan club."@
}

/// The reply when the member named `name` leaves the fan club.
pub open spec fn left_reply(name: Seq<char>) -> Seq<char> {
    mono_safe_of(name) + " left the fan club."@
}

/// The user named by argument `i`, or why there is none.
pub open spec fn user_arg_of(args: Seq<Argument>, i: int) -> Result<u64, CommandError> {
    if i >= args.len() {
        Err(CommandError::MissingArgument((i + 1) as usize))
    } else {
        match args[i] {
            Argument::User(u) => Ok(u),
            _ => Err(CommandError::InvalidArgument((i + 1) as usize)),
        }
    }
}

/// The text given as argument `i`, or why there is none.
pub open spec fn text_arg_of(args: Seq<Argument>, i: int) -> Result<Seq<char>, CommandError> {
    if i >= args.len() {
        Err(CommandError::MissingArgument((i + 1) as usize))
    } else {
        match args[i] {
            Argument::Text(s) => Ok(s@),
            _ => Err(CommandError::InvalidArgument((i + 1) as usize)),
        }
    }
}

/// The step that answers with the failure `e`.
pub open spec fn fail_step(e: CommandError) -> StepModel {
    StepModel::Reply(error_reply(error_message(e)))
}

/// How a nickname change of `user` to `nick` begins, in the guild `guild`
/// the command came from: the protected user is refused outright, and
/// without a guild there is nobody to look up.
pub open spec fn set_nick_step(guild: Option<u64>, user: u64, nick: Seq<char>) -> StepModel {
    if user == PROTECTED_USER {
        fail_step(CommandError::ProtectedTarget)
    } else {
        match guild {
            None => fail_step(CommandError::NoGuildId),
            Some(g) => StepModel::FetchMember { guild_id: g, user_id: user, nick },
        }
    }
}

/// How `nick` begins: a user, then a nickname.
pub open spec fn nick_step(inv: Invocation) -> StepModel {
    match user_arg_of(inv.args@, 0) {
        Err(e) => fail_step(e),
        Ok(user) => match text_arg_of(inv.args@, 1) {
            Err(e) => fail_step(e),
            Ok(nick) => set_nick_step(inv.guild_id, user, nick),
        },
    }
}

/// How `ramos` begins: a nickname for the fixed user.
pub open spec fn ramos_step(inv: Invocation) -> StepModel {
    match text_arg_of(inv.args@, 0) {
        Err(e) => fail_step(e),
        Ok(nick) => set_nick_step(inv.guild_id, RAMOS_USER, nick),
    }
}

/// How `join` begins: the invoking member is given role `role`.
pub open spec fn join_step(inv: Invocation, role: u64) -> StepModel {
    match inv.member {
        None => fail_step(CommandError::NotInGuild),
        Some(m) => StepModel::AddRole {
            guild_id: m.guild_id,
            user_id: m.user_id,
            role_id: role,
            reply: joined_reply(display_name(m)),
        },
    }
}

/// How `leave` begins: role `role` is taken from the invoking member.
pub open spec fn leave_step(inv: Invocation, role: u64) -> StepModel {
    match inv.member {
        None => fail_step(CommandError::NotInGuild),
        Some(m) => StepModel::RemoveRole {
            guild_id: m.guild_id,
            user_id: m.user_id,
            role_id: role,
            reply: left_reply(display_name(m)),
        },
    }
}

/// The first step of handling `inv`, for a bot whose fan club role is `role`.
pub open spec fn first_step(inv: Invocation, role: u64) -> StepModel {
    match inv.command {
        Command::Nick => nick_step(inv),
        Command::Ramos => ramos_step(inv),
        Command::Join => join_step(inv, role),
        Command::Leave => leave_step(inv, role),
    }
}

/// The step after the member record for `req` was asked for: the record,
/// or the description of the failure. The bot renames itself through its own
/// call; anybody else is edited as a member.
pub open spec fn step_after_fetch(
    req: NickRequest,
    fetched: Result<Member, String>,
    bot_user: u64,
) -> StepModel {
    match fetched {
        Err(e) => fail_step(CommandError::Api(e)),
        Ok(m) => {
            let reply = nick_reply(m.tag@, display_name(m), req.nick@);
            if req.user_id == bot_user {
                StepModel::EditOwnNick { guild_id: req.guild_id, nick: req.nick@, reply }
            } else {
                StepModel::EditMemberNick {
                    guild_id: req.guild_id,
                    user_id: req.user_id,
                    nick: req.nick@,
                    reply,
                }
            }
        },
    }
}

/// The text to answer with once a change was attempted: `reply` when it
/// succeeded, the failure otherwise.
pub open spec fn final_reply(reply: Seq<char>, outcome: Result<(), String>) -> Seq<char> {
    match outcome {
        Ok(()) => reply,
        Err(e) => error_reply(error_message(CommandError::Api(e))),
    }
}

} // verus!
