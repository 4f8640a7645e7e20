use crate::commands::{CommandSpec, Interaction};
use crate::definition::ServerConfig;
use crate::listing::{list, listing, listing_text, render_listing};
use crate::outcome::{message_text, Outcome, OutcomeView};
use vstd::prelude::*;
use vstd::string::*;

verus! {

/// The answer to the command `interaction` to list the servers: the
/// servers of the guild that the command comes from, or a refusal where
/// it comes from none.
pub open spec fn run_text(interaction: Interaction, catalog: Seq<ServerConfig>) -> Seq<char> {
    match interaction.guild_id {
        None => message_text(OutcomeView::NoGuild, 0),
        Some(guild) => listing_text(listing(catalog, Some(guild))),
    }
}

/// Carries out the command to list the servers.
pub fn run(interaction: &Interaction, server_configs: &Vec<ServerConfig>) -> (text: String)
    ensures
        text@ == run_text(*interaction, server_configs@),
{
    match interaction.guild_id {
        None => Outcome::NoGuild.message(0),
        Some(guild) => {
            let entries = list(server_configs, Some(guild));
            render_listing(&entries)
        },
    }
}

/// Whether `command` is the command to list the servers.
pub open spec fn is_list_command(command: CommandSpec) -> bool {
    &&& command.name@ == "list"@
    &&& command.description@ == "List the servers that this bot manages"@
    &&& command.options@.len() == 0
}

/// The command to list the servers.
pub fn register() -> (command: CommandSpec)
    ensures
        is_list_command(command),
{
    CommandSpec {
        name: String::from_str("list"),
        description: String::from_str("List the servers that this bot manages"),
        options: Vec::new(),
    }
}

} // verus!
