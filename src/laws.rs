use crate::model::{
    display_name, final_reply, first_step, joined_reply, left_reply, nick_reply, set_nick_step,
    step_after_fetch, Argument, Command, Invocation, Member, NickRequest, StepModel,
    PROTECTED_USER,
};
use crate::text::decimal;
use vstd::prelude::*;

verus! {

/// A `nick` naming a user other than the protected one, with a nickname, used
/// in a guild, first looks the member up. With the record in hand the
/// nickname is edited, and once that succeeds the answer is the member's tag,
/// the old name and the new one, each shown as inline code.
pub proof fn lemma_nick_reply_shows_change(inv: Invocation, role: u64, m: Member, bot_user: u64)
    requires
        inv.command == Command::Nick,
        inv.args@.len() >= 2,
        inv.args@[0] matches Argument::User(u) && u != PROTECTED_USER,
        inv.args@[1] is Text,
        inv.guild_id is Some,
    ensures
        ({
            let g = inv.guild_id->Some_0;
            let u = inv.args@[0]->User_0;
            let n = inv.args@[1]->Text_0;
            let next = step_after_fetch(NickRequest { guild_id: g, user_id: u, nick: n }, Ok(m), bot_user);
            &&& first_step(inv, role) == (StepModel::FetchMember { guild_id: g, user_id: u, nick: n@ })
            &&& next.is_nick_edit()
            &&& final_reply(next.success_reply(), Ok(())) == nick_reply(m.tag@, display_name(m), n@)
        }),
{
}

/// A nickname change aimed at the protected user never reaches an edit: the
/// answer is the fixed refusal, whatever the guild and the nickname, and so
/// for every `nick` that names that user with a nickname.
pub proof fn lemma_protected_user_is_refused(inv: Invocation, role: u64, guild: Option<u64>, nick: Seq<char>)
    ensures
        set_nick_step(guild, PROTECTED_USER, nick)
            == StepModel::Reply("Error: Can't fix what's already perfect 🙏"@),
        inv.command == Command::Nick && inv.args@.len() >= 2
            && inv.args@[0] == Argument::User(PROTECTED_USER) && inv.args@[1] is Text
            ==> first_step(inv, role) == StepModel::Reply("Error: Can't fix what's already perfect 🙏"@),
{
    reveal_strlit("Error: ");
    reveal_strlit("Can't fix what's already perfect 🙏");
    reveal_strlit("Error: Can't fix what's already perfect 🙏");
    assert("Error: "@ + "Can't fix what's already perfect 🙏"@
        =~= "Error: Can't fix what's already perfect 🙏"@);
}

proof fn lemma_one_two()
    ensures
        decimal(1) == seq!['1'],
        decimal(2) == seq!['2'],
{
    reveal_with_fuel(decimal, 1);
}

/// A command whose first or second argument is absent answers that the
/// argument is required, and makes no call.
pub proof fn lemma_missing_argument(inv: Invocation, role: u64)
    ensures
        (inv.command == Command::Nick || inv.command == Command::Ramos) && inv.args@.len() == 0
            ==> first_step(inv, role) == StepModel::Reply("Error: Command requires argument #1"@),
        inv.command == Command::Nick && inv.args@.len() == 1 && inv.args@[0] is User
            ==> first_step(inv, role) == StepModel::Reply("Error: Command requires argument #2"@),
{
    lemma_one_two();
    reveal_strlit("Error: ");
    reveal_strlit("Command requires argument #");
    reveal_strlit("Error: Command requires argument #1");
    reveal_strlit("Error: Command requires argument #2");
    assert("Error: "@ + ("Command requires argument #"@ + seq!['1'])
        =~= "Error: Command requires argument #1"@);
    assert("Error: "@ + ("Command requires argument #"@ + seq!['2'])
        =~= "Error: Command requires argument #2"@);
}

/// A command whose first or second argument is of the wrong kind answers
/// that the argument is invalid, and makes no call.
pub proof fn lemma_invalid_argument(inv: Invocation, role: u64)
    ensures
        inv.command == Command::Nick && inv.args@.len() >= 1 && inv.args@[0] !is User
            ==> first_step(inv, role) == StepModel::Reply("Error: Invalid argument #1"@),
        inv.command == Command::Nick && inv.args@.len() >= 2 && inv.args@[0] is User
            && inv.args@[1] !is Text
            ==> first_step(inv, role) == StepModel::Reply("Error: Invalid argument #2"@),
        inv.command == Command::Ramos && inv.args@.len() >= 1 && inv.args@[0] !is Text
            ==> first_step(inv, role) == StepModel::Reply("Error: Invalid argument #1"@),
{
    lemma_one_two();
    reveal_strlit("Error: ");
    reveal_strlit("Invalid argument #");
    reveal_strlit("Error: Invalid argument #1");
    reveal_strlit("Error: Invalid argument #2");
    assert("Error: "@ + ("Invalid argument #"@ + seq!['1']) =~= "Error: Invalid argument #1"@);
    assert("Error: "@ + ("Invalid argument #"@ + seq!['2']) =~= "Error: Invalid argument #2"@);
}

/// `join` and then `leave` by the same member make two role changes, the fan
/// club role added and then removed, each answered with its own confirmation.
/// Neither looks at the roles the member holds.
pub proof fn lemma_join_then_leave(join: Invocation, leave: Invocation, role: u64)
    requires
        join.command == Command::Join,
        leave.command == Command::Leave,
        join.member is Some,
        leave.member == join.member,
    ensures
        ({
            let m = join.member->Some_0;
            let joined = first_step(join, role);
            let left = first_step(leave, role);
            &&& joined == (StepModel::AddRole {
                guild_id: m.guild_id,
                user_id: m.user_id,
                role_id: role,
                reply: joined_reply(display_name(m)),
            })
            &&& left == (StepModel::RemoveRole {
                guild_id: m.guild_id,
                user_id: m.user_id,
                role_id: role,
                reply: left_reply(display_name(m)),
            })
            &&& final_reply(joined.success_reply(), Ok(())) != final_reply(left.success_reply(), Ok(()))
        }),
{
    reveal_strlit(" joined the fan club.");
    reveal_strlit(" left the fan club.");
    let m = join.member->Some_0;
    assert(joined_reply(display_name(m)).len() != left_reply(display_name(m)).len());
}

} // verus!
