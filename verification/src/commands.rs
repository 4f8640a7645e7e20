use crate::definition::ServerConfig;
use crate::listing::{list, listing};
use crate::outcome::{Outcome, OutcomeView};
use vstd::prelude::*;
use vstd::string::*;

pub mod list;
pub mod start;
pub mod stop;

verus! {

/// The value that a user gave to an option of a command.
#[derive(Clone, Copy, Debug, PartialEq, Eq, Structural)]
pub enum OptionValue {
    Integer(i64),
    /// A value of any other kind.
    Other,
}

/// An option of a command, as a user filled it in.
#[derive(Clone, Debug, PartialEq, Eq)]
pub struct CommandOption {
    pub name: String,
    /// The value, where the platform could make one of what the user
    /// gave.
    pub resolved: Option<OptionValue>,
}

/// A command as a user gave it.
#[derive(Clone, Debug, PartialEq, Eq)]
pub struct Interaction {
    /// The guild that the command was given in, if it was given in one.
    pub guild_id: Option<u64>,
    pub options: Vec<CommandOption>,
}

/// The commands that users can give.
#[derive(Clone, Copy, Debug, PartialEq, Eq, Structural)]
pub enum Command {
    Ping,
    List,
    Start,
    Stop,
    /// A command of any other name.
    Other,
}

/// The command that goes by `name`.
pub open spec fn command_named(name: Seq<char>) -> Command {
    if name == "ping"@ {
        Command::Ping
    } else if name == "list"@ {
        Command::List
    } else if name == "start"@ {
        Command::Start
    } else if name == "stop"@ {
        Command::Stop
    } else {
        Command::Other
    }
}

/// Whether two texts are the same, character by character.
fn same_text(a: &str, b: &str) -> (same: bool)
    ensures
        same == (a@ == b@),
{
    String::from_str(a) == String::from_str(b)
}

impl Command {
    /// Tells which command a user gave, by its name.
    pub fn parse(name: &str) -> (command: Command)
        ensures
            command == command_named(name@),
    {
        if same_text(name, "ping") {
            Command::Ping
        } else if same_text(name, "list") {
            Command::List
        } else if same_text(name, "start") {
            Command::Start
        } else if same_text(name, "stop") {
            Command::Stop
        } else {
            Command::Other
        }
    }
}

/// The answer to a command that nothing here carries out.
pub fn not_implemented(name: &str) -> (text: String)
    ensures
        text@ == "not implemented: "@ + name@,
{
    String::from_str("not implemented: ").concat(name)
}

/// The integer that `option` holds, if it holds one.
pub open spec fn integer_of(option: CommandOption) -> Option<i64> {
    match option.resolved {
        Some(OptionValue::Integer(value)) => Some(value),
        _ => None,
    }
}

/// The server index that a command names: the integer of the first option
/// called `server`. There is none where no option is called so, and where
/// the first such option holds no integer.
pub open spec fn server_index(options: Seq<CommandOption>) -> Option<i64>
    decreases options.len(),
{
    if options.len() == 0 {
        None
    } else if options[0].name@ == "server"@ {
        integer_of(options[0])
    } else {
        server_index(options.skip(1))
    }
}

/// Reads the server index out of the options of a command.
pub fn read_server_index(options: &Vec<CommandOption>) -> (index: Option<i64>)
    ensures
        index == server_index(options@),
{
    let mut i: usize = 0;
    assert(options@.skip(0) =~= options@);
    while i < options.len()
        invariant
            i <= options@.len(),
            server_index(options@) == server_index(options@.skip(i as int)),
        decreases options@.len() - i,
    {
        let option = &options[i];
        assert(options@.skip(i as int)[0] == options@[i as int]);
        assert(options@.skip(i as int).skip(1) =~= options@.skip(i + 1));
        if same_text(option.name.as_str(), "server") {
            return match option.resolved {
                Some(OptionValue::Integer(value)) => Some(value),
                _ => None,
            };
        }
        i = i + 1;
    }
    None
}

/// What a command to start or stop a server asks for: the guild it comes
/// from and the index of the server, or the refusal of a command that
/// lacks one of them. The guild is looked at first.
pub open spec fn request_of(interaction: Interaction) -> Result<(u64, i64), OutcomeView> {
    match interaction.guild_id {
        None => Err(OutcomeView::NoGuild),
        Some(guild) => match server_index(interaction.options@) {
            None => Err(OutcomeView::NoServerIndex),
            Some(index) => Ok((guild, index)),
        },
    }
}

/// Reads a command to start or stop a server.
pub fn read_request(interaction: &Interaction) -> (request: Result<(u64, i64), Outcome>)
    ensures
        match request {
            Ok(asked) => request_of(*interaction) == Ok::<(u64, i64), OutcomeView>(asked),
            Err(outcome) => request_of(*interaction) == Err::<(u64, i64), OutcomeView>(outcome@),
        },
{
    match interaction.guild_id {
        None => Err(Outcome::NoGuild),
        Some(guild) => match read_server_index(&interaction.options) {
            None => Err(Outcome::NoServerIndex),
            Some(index) => Ok((guild, index)),
        },
    }
}

/// An option of a command that takes an integer, as it is registered with
/// the platform.
#[derive(Clone, Debug, PartialEq, Eq)]
pub struct IntegerOption {
    pub name: String,
    pub description: String,
    pub required: bool,
    /// The values that a user can pick, each under the name shown for it.
    pub choices: Vec<(usize, String)>,
}

/// A command as it is registered with the platform.
#[derive(Clone, Debug, PartialEq, Eq)]
pub struct CommandSpec {
    pub name: String,
    pub description: String,
    pub options: Vec<IntegerOption>,
}

/// Whether `option` is the option that picks a server out of `catalog` for
/// guild `guild_id`: a required option called `server`, whose choices are
/// the servers that the guild owns, by name, each with its index in the
/// catalog for its value.
pub open spec fn is_server_option(
    option: IntegerOption,
    guild_id: u64,
    catalog: Seq<ServerConfig>,
) -> bool {
    &&& option.name@ == "server"@
    &&& option.description@ == "Server index. See /list"@
    &&& option.required
    &&& option.choices.deep_view() == listing(catalog, Some(guild_id))
}

/// Whether `command` is the command `name` that acts on one server of
/// guild `guild_id`: it has the one option that picks the server.
pub open spec fn is_server_command(
    command: CommandSpec,
    name: Seq<char>,
    description: Seq<char>,
    guild_id: u64,
    catalog: Seq<ServerConfig>,
) -> bool {
    &&& command.name@ == name
    &&& command.description@ == description
    &&& command.options@.len() == 1
    &&& is_server_option(command.options@[0], guild_id, catalog)
}

/// Builds the command `name` that acts on one server of guild `guild_id`.
pub fn server_command(
    name: &str,
    description: &str,
    guild_id: u64,
    server_configs: &Vec<ServerConfig>,
) -> (command: CommandSpec)
    ensures
        is_server_command(command, name@, description@, guild_id, server_configs@),
{
    let option = IntegerOption {
        name: String::from_str("server"),
        description: String::from_str("Server index. See /list"),
        required: true,
        choices: list(server_configs, Some(guild_id)),
    };
    let mut options: Vec<IntegerOption> = Vec::new();
    options.push(option);
    CommandSpec {
        name: String::from_str(name),
        description: String::from_str(description),
        options,
    }
}

/// The commands to register for guild `guild_id`, in the order in which
/// they are registered: to list the servers, to start one and to stop one.
pub fn guild_commands(guild_id: u64, server_configs: &Vec<ServerConfig>) -> (commands: Vec<
    CommandSpec,
>)
    ensures
        commands@.len() == 3,
        list::is_list_command(commands@[0]),
        start::is_start_command(commands@[1], guild_id, server_configs@),
        stop::is_stop_command(commands@[2], guild_id, server_configs@),
{
    let mut commands: Vec<CommandSpec> = Vec::new();
    commands.push(list::register());
    commands.push(start::register(guild_id, server_configs));
    commands.push(stop::register(guild_id, server_configs));
    commands
}

} // verus!
