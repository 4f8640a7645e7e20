use crate::definition::ServerConfig;
use vstd::prelude::*;

verus! {

/// Whether a requester from guild `requester` may start and stop the
/// server `definition`: only the guild that owns it may.
pub open spec fn authorized(definition: ServerConfig, requester: u64) -> bool {
    definition.owner() == requester
}

/// Decides [`authorized`]. It is asked before anything is changed, and a
/// refusal ends the request.
pub fn authorize(definition: &ServerConfig, requester: u64) -> (allowed: bool)
    ensures
        allowed == authorized(*definition, requester),
{
    definition.guild_id() == requester
}

} // verus!
