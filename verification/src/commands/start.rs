use crate::commands::{
    is_server_command, read_request, request_of, server_command, CommandSpec, Interaction,
};
use crate::definition::ServerConfig;
use crate::supervisor::{start_step, StartStep, StartStepView, Supervisor};
use vstd::prelude::*;
use vstd::string::*;

verus! {

/// The step that the command `interaction` to start a server calls for: a
/// refusal where the command lacks its guild or its server index, else
/// what the supervisor makes of the request.
pub open spec fn run_step<H>(
    interaction: Interaction,
    catalog: Seq<ServerConfig>,
    slots: Seq<Option<H>>,
) -> StartStepView {
    match request_of(interaction) {
        Err(outcome) => StartStepView::Done(outcome),
        Ok(asked) => start_step(catalog, slots, asked.1 as int, asked.0),
    }
}

/// Carries out the command to start a server, as far as the launch. Where
/// the step is a launch, the caller spawns the process and records what
/// came of it with [`Launch::record`](crate::supervisor::Launch::record).
pub fn run<'a, H>(interaction: &Interaction, supervisor: &'a mut Supervisor<H>) -> (step:
    StartStep<'a, H>)
    ensures
        final(supervisor).catalog() == old(supervisor).catalog(),
        step@ == run_step(*interaction, old(supervisor).catalog(), old(supervisor).slots()),
        match step {
            StartStep::Done(_) => final(supervisor).slots() == old(supervisor).slots(),
            StartStep::Launch(launch) => {
                &&& *launch.slot is None
                &&& final(supervisor).slots() == old(supervisor).slots().update(
                    launch.index as int,
                    *final(launch.slot),
                )
            },
        },
{
    match read_request(interaction) {
        Err(outcome) => StartStep::Done(outcome),
        Ok(asked) => supervisor.start(asked.1, asked.0),
    }
}

/// Whether `command` is the command to start a server of guild
/// `guild_id`.
pub open spec fn is_start_command(
    command: CommandSpec,
    guild_id: u64,
    catalog: Seq<ServerConfig>,
) -> bool {
    is_server_command(command, "start"@, "Start a minecraft server"@, guild_id, catalog)
}

/// The command to start a server, as guild `guild_id` gets it.
pub fn register(guild_id: u64, server_configs: &Vec<ServerConfig>) -> (command: CommandSpec)
    ensures
        is_start_command(command, guild_id, server_configs@),
{
    server_command("start", "Start a minecraft server", guild_id, server_configs)
}

} // verus!
