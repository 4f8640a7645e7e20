use crate::commands::{
    is_server_command, read_request, request_of, server_command, CommandSpec, Interaction,
};
use crate::definition::ServerConfig;
use crate::supervisor::{slots_after_stop, stop_step, StopStep, StopStepView, Supervisor};
use vstd::prelude::*;
use vstd::string::*;

verus! {

/// The step that the command `interaction` to stop a server calls for: a
/// refusal where the command lacks its guild or its server index, else
/// what the supervisor makes of the request.
pub open spec fn run_step<H>(
    interaction: Interaction,
    catalog: Seq<ServerConfig>,
    slots: Seq<Option<H>>,
) -> StopStepView<H> {
    match request_of(interaction) {
        Err(outcome) => StopStepView::Done(outcome),
        Ok(asked) => stop_step(catalog, slots, asked.1 as int, asked.0),
    }
}

/// The slots after the command `interaction` to stop a server.
pub open spec fn slots_after_run<H>(
    interaction: Interaction,
    catalog: Seq<ServerConfig>,
    slots: Seq<Option<H>>,
) -> Seq<Option<H>> {
    match request_of(interaction) {
        Err(_) => slots,
        Ok(asked) => slots_after_stop(catalog, slots, asked.1 as int, asked.0),
    }
}

/// Carries out the command to stop a server, as far as the shutdown.
/// Where the step is a shutdown, the caller runs it on the handle, and
/// the outcome is that of the shutdown.
pub fn run<H>(interaction: &Interaction, supervisor: &mut Supervisor<H>) -> (step: StopStep<H>)
    ensures
        final(supervisor).catalog() == old(supervisor).catalog(),
        final(supervisor).slots() == slots_after_run(
            *interaction,
            old(supervisor).catalog(),
            old(supervisor).slots(),
        ),
        step@ == run_step(*interaction, old(supervisor).catalog(), old(supervisor).slots()),
{
    match read_request(interaction) {
        Err(outcome) => StopStep::Done(outcome),
        Ok(asked) => supervisor.stop(asked.1, asked.0),
    }
}

/// Whether `command` is the command to stop a server of guild `guild_id`.
pub open spec fn is_stop_command(
    command: CommandSpec,
    guild_id: u64,
    catalog: Seq<ServerConfig>,
) -> bool {
    is_server_command(command, "stop"@, "Stop a minecraft server"@, guild_id, catalog)
}

/// The command to stop a server, as guild `guild_id` gets it.
pub fn register(guild_id: u64, server_configs: &Vec<ServerConfig>) -> (command: CommandSpec)
    ensures
        is_stop_command(command, guild_id, server_configs@),
{
    server_command("stop", "Stop a minecraft server", guild_id, server_configs)
}

} // verus!
