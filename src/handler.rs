use crate::model::{
    command_named, display_name, error_message, error_reply, fail_step, final_reply, first_step,
    join_step, leave_step, nick_reply, nick_step, ramos_step,
    set_nick_step, step_after_fetch, text_arg_of, user_arg_of, Argument, Command, CommandError,
    Invocation, Member, NickRequest, Step, PROTECTED_USER, RAMOS_USER,
};
use crate::text::{decimal_string, mono_safe, str_equal};
use vstd::prelude::*;

verus! {

impl Command {
    /// The command registered under `name`, if any.
    pub fn parse(name: &str) -> (r: Option<Command>)
        ensures
            r == command_named(name@),
    {
        if str_equal(name, "nick") {
            Some(Command::Nick)
        } else if str_equal(name, "ramos") {
            Some(Command::Ramos)
        } else if str_equal(name, "join") {
            Some(Command::Join)
        } else if str_equal(name, "leave") {
            Some(Command::Leave)
        } else {
            None
        }
    }
}

impl CommandError {
    /// The reason given to the user.
    pub fn message(&self) -> (r: String)
        ensures
            r@ == error_message(*self),
    {
        match self {
            CommandError::NoGuildId => String::from_str("Couldn't get guild ID"),
            CommandError::NotInGuild => String::from_str("Not on a guild"),
            CommandError::MissingArgument(n) => {
                let mut r = String::from_str("Command requires argument #");
                r.append(decimal_string(*n as u64).as_str());
                r
            },
            CommandError::InvalidArgument(n) => {
                let mut r = String::from_str("Invalid argument #");
                r.append(decimal_string(*n as u64).as_str());
                r
            },
            CommandError::ProtectedTarget => String::from_str("Can't fix what's already perfect 🙏"),
            CommandError::Api(text) => text.clone(),
        }
    }

    /// The reply that reports this failure.
    pub fn reply(&self) -> (r: String)
        ensures
            r@ == error_reply(error_message(*self)),
    {
        let mut r = String::from_str("Error: ");
        r.append(self.message().as_str());
        r
    }
}

fn fail(e: CommandError) -> (r: Step)
    ensures
        r@ == fail_step(e),
{
    Step::Reply(e.reply())
}

/// The user named by argument `i`.
pub fn user_arg(args: &Vec<Argument>, i: usize) -> (r: Result<u64, CommandError>)
    requires
        i < usize::MAX,
    ensures
        r == user_arg_of(args@, i as int),
{
    if i >= args.len() {
        Err(CommandError::MissingArgument(i + 1))
    } else {
        match &args[i] {
            Argument::User(u) => Ok(*u),
            _ => Err(CommandError::InvalidArgument(i + 1)),
        }
    }
}

/// The text given as argument `i`.
pub fn text_arg(args: &Vec<Argument>, i: usize) -> (r: Result<String, CommandError>)
    requires
        i < usize::MAX,
    ensures
        match r {
            Ok(s) => text_arg_of(args@, i as int) == Ok::<Seq<char>, CommandError>(s@),
            Err(e) => text_arg_of(args@, i as int) == Err::<Seq<char>, CommandError>(e),
        },
{
    if i >= args.len() {
        Err(CommandError::MissingArgument(i + 1))
    } else {
        match &args[i] {
            Argument::Text(s) => Ok(s.clone()),
            _ => Err(CommandError::InvalidArgument(i + 1)),
        }
    }
}

/// The name `m` goes by in the guild.
pub fn member_display_name(m: &Member) -> (r: String)
    ensures
        r@ == display_name(*m),
{
    match &m.nick {
        Some(n) => n.clone(),
        None => m.name.clone(),
    }
}

/// Reports a nickname change of the member tagged `tag` from `old` to `new`,
/// each shown as inline code.
pub fn nick_change_reply(tag: &str, old: &str, new: &str) -> (r: String)
    ensures
        r@ == nick_reply(tag@, old@, new@),
{
    let mut r = mono_safe(tag);
    r.append("  ");
    r.append(mono_safe(old).as_str());
    r.append(" → ");
    r.append(mono_safe(new).as_str());
    r
}

/// Handles a command: holds the guild the bot serves and its fan club role.
pub struct Handler {
    pub guild_id: u64,
    pub fanclub_role: u64,
}

impl Handler {
    pub fn new(guild_id: u64, fanclub_role: u64) -> (r: Self)
        ensures
            r.guild_id == guild_id,
            r.fanclub_role == fanclub_role,
    {
        Handler { guild_id, fanclub_role }
    }

    /// Begins a change of `user`'s nickname to `nick` in guild `guild_id`.
    pub fn set_nick(&self, guild_id: Option<u64>, user: u64, nick: String) -> (r: Step)
        ensures
            r@ == set_nick_step(guild_id, user, nick@),
    {
        if user == PROTECTED_USER {
            fail(CommandError::ProtectedTarget)
        } else {
            match guild_id {
                None => fail(CommandError::NoGuildId),
                Some(g) => Step::FetchMember(NickRequest { guild_id: g, user_id: user, nick }),
            }
        }
    }

    /// Begins `nick`: argument 1 names the user, argument 2 the nickname.
    pub fn cmd_nick(&self, inv: &Invocation) -> (r: Step)
        ensures
            r@ == nick_step(*inv),
    {
        let user = match user_arg(&inv.args, 0) {
            Ok(u) => u,
            Err(e) => return fail(e),
        };
        let nick = match text_arg(&inv.args, 1) {
            Ok(n) => n,
            Err(e) => return fail(e),
        };
        self.set_nick(inv.guild_id, user, nick)
    }

    /// Begins `ramos`: argument 1 is the nickname for the fixed user.
    pub fn cmd_ramos(&self, inv: &Invocation) -> (r: Step)
        ensures
            r@ == ramos_step(*inv),
    {
        let nick = match text_arg(&inv.args, 0) {
            Ok(n) => n,
            Err(e) => return fail(e),
        };
        self.set_nick(inv.guild_id, RAMOS_USER, nick)
    }

    /// Begins `join`: the invoking member is to get the fan club role.
    pub fn cmd_join(&self, inv: &Invocation) -> (r: Step)
        ensures
            r@ == join_step(*inv, self.fanclub_role),
    {
        match &inv.member {
            None => fail(CommandError::NotInGuild),
            Some(m) => {
                let mut reply = mono_safe(member_display_name(m).as_str());
                reply.append(" joined the fan club.");
                Step::AddRole {
                    guild_id: m.guild_id,
                    user_id: m.user_id,
                    role_id: self.fanclub_role,
                    reply,
                }
            },
        }
    }

    /// Begins `leave`: the fan club role is to be taken from the invoking
    /// member.
    pub fn cmd_leave(&self, inv: &Invocation) -> (r: Step)
        ensures
            r@ == leave_step(*inv, self.fanclub_role),
    {
        match &inv.member {
            None => fail(CommandError::NotInGuild),
            Some(m) => {
                let mut reply = mono_safe(member_display_name(m).as_str());
                reply.append(" left the fan club.");
                Step::RemoveRole {
                    guild_id: m.guild_id,
                    user_id: m.user_id,
                    role_id: self.fanclub_role,
                    reply,
                }
            },
        }
    }

    /// The first step of handling `inv`, chosen by its command.
    pub fn dispatch(&self, inv: &Invocation) -> (r: Step)
        ensures
            r@ == first_step(*inv, self.fanclub_role),
    {
        match inv.command {
            Command::Nick => self.cmd_nick(inv),
            Command::Ramos => self.cmd_ramos(inv),
            Command::Join => self.cmd_join(inv),
            Command::Leave => self.cmd_leave(inv),
        }
    }
}

/// Continues a nickname change once the member record for `req` was asked
/// for; `bot_user` is the bot's own user.
pub fn after_fetch(req: NickRequest, fetched: Result<Member, String>, bot_user: u64) -> (r: Step)
    ensures
        r@ == step_after_fetch(req, fetched, bot_user),
{
    match fetched {
        Err(e) => fail(CommandError::Api(e)),
        Ok(m) => {
            let old = member_display_name(&m);
            let reply = nick_change_reply(m.tag.as_str(), old.as_str(), req.nick.as_str());
            if req.user_id == bot_user {
                Step::EditOwnNick { guild_id: req.guild_id, nick: req.nick, reply }
            } else {
                Step::EditMemberNick {
                    guild_id: req.guild_id,
                    user_id: req.user_id,
                    nick: req.nick,
                    reply,
                }
            }
        },
    }
}

/// The text to answer with once the change that was to be answered with
/// `reply` was attempted.
pub fn finish(reply: String, outcome: Result<(), String>) -> (r: String)
    ensures
        r@ == final_reply(reply@, outcome),
{
    match outcome {
        Ok(()) => reply,
        Err(e) => CommandError::Api(e).reply(),
    }
}

} // verus!
