use crate::model::command_named;
use vstd::prelude::*;

verus! {

/// The kind of value an option takes.
#[derive(Clone, Copy, Debug, PartialEq, Eq, Structural)]
pub enum OptionKind {
    User,
    Text,
}

/// One option of a registered command.
#[derive(Clone, Debug)]
pub struct OptionDef {
    pub name: String,
    pub description: String,
    pub kind: OptionKind,
    pub required: bool,
}

/// A command as the bot declares it to the API.
#[derive(Clone, Debug)]
pub struct CommandDef {
    pub name: String,
    pub description: String,
    pub options: Vec<OptionDef>,
}

impl View for OptionDef {
    type V = (Seq<char>, Seq<char>, OptionKind, bool);

    open spec fn view(&self) -> (Seq<char>, Seq<char>, OptionKind, bool) {
        (self.name@, self.description@, self.kind, self.required)
    }
}

impl View for CommandDef {
    type V = (Seq<char>, Seq<char>, Seq<(Seq<char>, Seq<char>, OptionKind, bool)>);

    open spec fn view(&self) -> (Seq<char>, Seq<char>, Seq<(Seq<char>, Seq<char>, OptionKind, bool)>) {
        (self.name@, self.description@, self.options@.map_values(|o: OptionDef| o@))
    }
}

/// The commands the bot declares, in order: name, description, and each
/// option's name, description, kind and whether it is required.
pub open spec fn registered_commands() -> Seq<(Seq<char>, Seq<char>, Seq<(Seq<char>, Seq<char>, OptionKind, bool)>)> {
    seq![
        ("nick"@, "Set a user's nickname"@, seq![
            ("user"@, "The user to set nickname"@, OptionKind::User, true),
            ("nickname"@, "The nickname to set"@, OptionKind::Text, true),
        ]),
        ("ramos"@, "Set Ramos' nickname"@, seq![
            ("nickname"@, "The nickname to set"@, OptionKind::Text, true),
        ]),
        ("join"@, "Joins the fanclub."@, Seq::empty()),
        ("leave"@, "Leaves the fanclub."@, Seq::empty()),
    ]
}

fn option(name: &str, description: &str, kind: OptionKind) -> (r: OptionDef)
    ensures
        r@ == (name@, description@, kind, true),
{
    OptionDef {
        name: String::from_str(name),
        description: String::from_str(description),
        kind,
        required: true,
    }
}

fn command(name: &str, description: &str, options: Vec<OptionDef>) -> (r: CommandDef)
    ensures
        r.name@ == name@,
        r.description@ == description@,
        r.options == options,
{
    CommandDef { name: String::from_str(name), description: String::from_str(description), options }
}

/// The commands to declare to the API each time the bot connects.
pub fn command_definitions() -> (r: Vec<CommandDef>)
    ensures
        r@.map_values(|d: CommandDef| d@) == registered_commands(),
{
    let nick = command(
        "nick",
        "Set a user's nickname",
        vec![
            option("user", "The user to set nickname", OptionKind::User),
            option("nickname", "The nickname to set", OptionKind::Text),
        ],
    );
    let ramos = command(
        "ramos",
        "Set Ramos' nickname",
        vec![option("nickname", "The nickname to set", OptionKind::Text)],
    );
    let join = command("join", "Joins the fanclub.", Vec::new());
    let leave = command("leave", "Leaves the fanclub.", Vec::new());
    let r = vec![nick, ramos, join, leave];
    assert(r@[0].options@.map_values(|o: OptionDef| o@) =~= registered_commands()[0].2);
    assert(r@[1].options@.map_values(|o: OptionDef| o@) =~= registered_commands()[1].2);
    assert(r@[2].options@.map_values(|o: OptionDef| o@) =~= registered_commands()[2].2);
    assert(r@[3].options@.map_values(|o: OptionDef| o@) =~= registered_commands()[3].2);
    assert(r@.map_values(|d: CommandDef| d@) =~= registered_commands());
    r
}

/// Every declared command's name is one the handler knows.
pub proof fn lemma_registered_names_are_known()
    ensures
        forall|i: int|
            0 <= i < registered_commands().len() ==> (#[trigger] command_named(registered_commands()[i].0)) is Some,
{
    reveal_strlit("nick");
    reveal_strlit("ramos");
    reveal_strlit("join");
    reveal_strlit("leave");
    assert(command_named(registered_commands()[0].0) is Some);
    assert(command_named(registered_commands()[1].0) is Some);
    assert(command_named(registered_commands()[2].0) is Some);
    assert(command_named(registered_commands()[3].0) is Some);
    assert(registered_commands().len() == 4);
}

} // verus!
