use crate::definition::ServerConfig;
use crate::guard::{authorize, authorized};
use crate::launcher::{launch_recipe, recipe_of, LaunchRecipe, RecipeView};
use crate::outcome::{Outcome, OutcomeView};
use crate::listing::{list, listing};
use crate::registry::{all_stopped, occupied, Registry};
use vstd::prelude::*;
use vstd::string::*;

verus! {

/// Whether a request to start or stop a server is let through.
pub enum Admission {
    /// The index is not that of a configured server.
    OutOfBounds,
    /// The server belongs to another guild than the requester's.
    WrongGuild,
    Admitted,
}

/// Judges a request on server `index` from guild `requester`. The index is
/// looked at first, then the guild.
pub open spec fn admission(catalog: Seq<ServerConfig>, index: int, requester: u64) -> Admission {
    if index < 0 || index >= catalog.len() {
        Admission::OutOfBounds
    } else if !authorized(catalog[index], requester) {
        Admission::WrongGuild
    } else {
        Admission::Admitted
    }
}

/// A launch that a request to start a server calls for: how to launch the
/// server, and the slot that waits for the process. The slot stays
/// borrowed, and with it the whole table, until the launch is recorded or
/// given up: no other request is taken in between.
#[derive(Debug, PartialEq, Eq)]
pub struct Launch<'a, H> {
    /// The server's index in the catalog.
    pub index: usize,
    pub recipe: LaunchRecipe,
    /// The server's slot, which is empty.
    pub slot: &'a mut Option<H>,
}

/// What is to be done about a request to start a server.
#[derive(Debug, PartialEq, Eq)]
pub enum StartStep<'a, H> {
    /// Nothing: the request has ended, and this is what to answer.
    Done(Outcome),
    /// Spawn a process as the recipe says, then record how that went with
    /// [`Launch::record`].
    Launch(Launch<'a, H>),
}

/// A [`StartStep`] as text, without the slot.
pub enum StartStepView {
    Done(OutcomeView),
    Launch { index: usize, recipe: RecipeView },
}

impl<'a, H> View for StartStep<'a, H> {
    type V = StartStepView;

    open spec fn view(&self) -> StartStepView {
        match self {
            StartStep::Done(outcome) => StartStepView::Done(outcome@),
            StartStep::Launch(launch) => StartStepView::Launch {
                index: launch.index,
                recipe: launch.recipe@,
            },
        }
    }
}

/// What is to be done about a request to stop a server.
#[derive(Debug, PartialEq, Eq)]
pub enum StopStep<H> {
    /// Nothing: the request has ended, and this is what to answer.
    Done(Outcome),
    /// Shut the process behind `handle` down. The handle has left its
    /// slot, and is the caller's to use up.
    Shutdown { index: usize, handle: H },
}

pub enum StopStepView<H> {
    Done(OutcomeView),
    Shutdown { index: usize, handle: H },
}

impl<H> View for StopStep<H> {
    type V = StopStepView<H>;

    open spec fn view(&self) -> StopStepView<H> {
        match self {
            StopStep::Done(outcome) => StopStepView::Done(outcome@),
            StopStep::Shutdown { index, handle } => StopStepView::Shutdown {
                index: *index,
                handle: *handle,
            },
        }
    }
}

/// The step that a request to start server `index` calls for: a refusal
/// where the request is not admitted, and where the server already runs;
/// else a launch of that server.
pub open spec fn start_step<H>(
    catalog: Seq<ServerConfig>,
    slots: Seq<Option<H>>,
    index: int,
    requester: u64,
) -> StartStepView {
    match admission(catalog, index, requester) {
        Admission::OutOfBounds => StartStepView::Done(OutcomeView::OutOfBounds),
        Admission::WrongGuild => StartStepView::Done(OutcomeView::WrongGuild),
        Admission::Admitted => if occupied(slots, index) {
            StartStepView::Done(OutcomeView::AlreadyRunning)
        } else {
            StartStepView::Launch { index: index as usize, recipe: recipe_of(catalog[index]) }
        },
    }
}

/// What a launcher reports: the handle of the new process, or the cause of
/// the failure.
pub open spec fn launch_view<H>(launched: Result<H, String>) -> Result<H, Seq<char>> {
    match launched {
        Ok(handle) => Ok(handle),
        Err(cause) => Err(cause@),
    }
}

pub open spec fn address_view(address: Option<String>) -> Option<Seq<char>> {
    match address {
        Some(a) => Some(a@),
        None => None,
    }
}

/// What a slot holds once the launcher's report is recorded in it, and
/// the outcome. A handle goes into the slot if the slot is empty, and is
/// handed back if not. A failure leaves the slot as it is.
pub open spec fn record_effect<H>(
    slot: Option<H>,
    launched: Result<H, Seq<char>>,
    address: Option<Seq<char>>,
) -> (Option<H>, Result<OutcomeView, H>) {
    match launched {
        Err(cause) => (slot, Ok(OutcomeView::LaunchFailed(cause))),
        Ok(handle) => if slot is None {
            (Some(handle), Ok(OutcomeView::Started(address)))
        } else {
            (slot, Err(handle))
        },
    }
}

/// What came of recording a launch, as text.
pub open spec fn recorded_view<H>(recorded: Result<Outcome, H>) -> Result<OutcomeView, H> {
    match recorded {
        Ok(outcome) => Ok(outcome@),
        Err(handle) => Err(handle),
    }
}

impl<'a, H> Launch<'a, H> {
    /// Records what came of the launch: the handle of the new process, or
    /// the cause of the failure. `address` is where the server can be
    /// joined, if that is known; it goes into the outcome as it is.
    ///
    /// The slot of a launch that a supervisor called for is empty. A
    /// handle for a slot that is not would have no place: it is handed
    /// back as `Err`, and the slot stays as it is.
    pub fn record(self, launched: Result<H, String>, address: Option<String>) -> (recorded: Result<
        Outcome,
        H,
    >)
        ensures
            (*final(self.slot), recorded_view(recorded)) == record_effect(
                *old(self.slot),
                launch_view(launched),
                address_view(address),
            ),
    {
        match launched {
            Err(cause) => Ok(Outcome::LaunchFailed(cause)),
            Ok(handle) => {
                if self.slot.is_none() {
                    *self.slot = Some(handle);
                    Ok(Outcome::Started(address))
                } else {
                    Err(handle)
                }
            },
        }
    }
}

/// A whole start: the request, and the launcher's report where the
/// request calls for a launch. Gives the slots afterwards and the outcome.
pub open spec fn start_effect<H>(
    catalog: Seq<ServerConfig>,
    slots: Seq<Option<H>>,
    index: int,
    requester: u64,
    launched: Result<H, Seq<char>>,
    address: Option<Seq<char>>,
) -> (Seq<Option<H>>, OutcomeView) {
    match start_step(catalog, slots, index, requester) {
        StartStepView::Done(outcome) => (slots, outcome),
        StartStepView::Launch { .. } => match launched {
            Ok(handle) => (slots.update(index, Some(handle)), OutcomeView::Started(address)),
            Err(cause) => (slots, OutcomeView::LaunchFailed(cause)),
        },
    }
}

/// The step that a request to stop server `index` calls for: a refusal
/// where the request is not admitted, and where the server does not run;
/// else the shutdown of the process in its slot.
pub open spec fn stop_step<H>(
    catalog: Seq<ServerConfig>,
    slots: Seq<Option<H>>,
    index: int,
    requester: u64,
) -> StopStepView<H> {
    match admission(catalog, index, requester) {
        Admission::OutOfBounds => StopStepView::Done(OutcomeView::OutOfBounds),
        Admission::WrongGuild => StopStepView::Done(OutcomeView::WrongGuild),
        Admission::Admitted => match slots[index] {
            Some(handle) => StopStepView::Shutdown { index: index as usize, handle },
            None => StopStepView::Done(OutcomeView::AlreadyStopped),
        },
    }
}

/// The slots after a request to stop server `index`: an admitted request
/// empties the slot, and no other request changes anything.
pub open spec fn slots_after_stop<H>(
    catalog: Seq<ServerConfig>,
    slots: Seq<Option<H>>,
    index: int,
    requester: u64,
) -> Seq<Option<H>> {
    if admission(catalog, index, requester) is Admitted {
        slots.update(index, None)
    } else {
        slots
    }
}

/// Starts and stops the servers of a catalog, one process at most for each
/// server, at the request of the guild that owns the server.
///
/// The supervisor spawns nothing and awaits nothing itself: it says what
/// is to be done, and is told how it went. Each server goes from stopped
/// to running and back, and a restart of the supervisor finds all of them
/// stopped, whatever still runs on the host.
pub struct Supervisor<H> {
    catalog: Vec<ServerConfig>,
    registry: Registry<H>,
}

impl<H> Supervisor<H> {
    #[verifier::type_invariant]
    spec fn one_slot_each(self) -> bool {
        self.registry@.len() == self.catalog@.len()
    }

    /// The configured servers, which never change.
    pub closed spec fn catalog(&self) -> Seq<ServerConfig> {
        self.catalog@
    }

    /// What the slots hold, one for each server of the catalog.
    pub closed spec fn slots(&self) -> Seq<Option<H>> {
        self.registry@
    }

    /// A supervisor of the servers in `catalog`, none of them running.
    pub fn new(catalog: Vec<ServerConfig>) -> (supervisor: Self)
        ensures
            supervisor.catalog() == catalog@,
            supervisor.slots() == all_stopped::<H>(catalog@.len()),
    {
        let registry = Registry::new(catalog.len());
        Supervisor { catalog, registry }
    }

    /// The number of servers, and of slots.
    pub fn len(&self) -> (len: usize)
        ensures
            len == self.catalog().len(),
            len == self.slots().len(),
    {
        proof {
            use_type_invariant(self);
        }
        self.catalog.len()
    }

    /// The configured servers.
    pub fn configs(&self) -> (configs: &Vec<ServerConfig>)
        ensures
            configs@ == self.catalog(),
    {
        &self.catalog
    }

    /// Lists the servers for `scope`: those that the guild owns, or all
    /// where no guild is given. Each comes with its index in the catalog,
    /// which is what starts and stops it.
    pub fn list(&self, scope: Option<u64>) -> (entries: Vec<(usize, String)>)
        ensures
            entries.deep_view() == listing(self.catalog(), scope),
    {
        list(&self.catalog, scope)
    }

    /// Whether server `index` is taken to be running. Anyone may ask, and
    /// nothing changes.
    pub fn status(&self, index: i64) -> (running: bool)
        ensures
            running == occupied(self.slots(), index as int),
    {
        proof {
            use_type_invariant(self);
        }
        if index < 0 || index as u64 >= self.registry.len() as u64 {
            false
        } else {
            self.registry.is_running(index as usize)
        }
    }

    fn check(&self, index: i64, requester: u64) -> (admitted: Result<usize, Outcome>)
        ensures
            match admitted {
                Ok(slot) => admission(self.catalog(), index as int, requester) is Admitted && slot
                    == index,
                Err(outcome) => match admission(self.catalog(), index as int, requester) {
                    Admission::OutOfBounds => outcome@ == OutcomeView::OutOfBounds,
                    Admission::WrongGuild => outcome@ == OutcomeView::WrongGuild,
                    Admission::Admitted => false,
                },
            },
    {
        if index < 0 || index as u64 >= self.catalog.len() as u64 {
            return Err(Outcome::OutOfBounds);
        }
        let slot: usize = index as usize;
        if !authorize(&self.catalog[slot], requester) {
            return Err(Outcome::WrongGuild);
        }
        Ok(slot)
    }

    /// Takes a request from guild `requester` to start server `index`.
    /// Where the request is refused nothing changes. Where it calls for a
    /// launch, the server's slot is handed out with the recipe, and holds
    /// afterwards what the caller left in it.
    pub fn start<'a>(&'a mut self, index: i64, requester: u64) -> (step: StartStep<'a, H>)
        ensures
            final(self).catalog() == old(self).catalog(),
            step@ == start_step(old(self).catalog(), old(self).slots(), index as int, requester),
            match step {
                StartStep::Done(_) => final(self).slots() == old(self).slots(),
                StartStep::Launch(launch) => {
                    &&& launch.index == index
                    &&& *launch.slot is None
                    &&& final(self).slots() == old(self).slots().update(
                        index as int,
                        *final(launch.slot),
                    )
                },
            },
    {
        proof {
            use_type_invariant(&*self);
        }
        match self.check(index, requester) {
            Err(outcome) => StartStep::Done(outcome),
            Ok(slot) => if self.registry.is_running(slot) {
                StartStep::Done(Outcome::AlreadyRunning)
            } else {
                let recipe = launch_recipe(&self.catalog[slot]);
                StartStep::Launch(Launch { index: slot, recipe, slot: self.registry.get(slot) })
            },
        }
    }

    /// Takes a request from guild `requester` to stop server `index`. An
    /// admitted request leaves the slot empty, whatever becomes of the
    /// shutdown: a handle that was told to stop is used up.
    pub fn stop(&mut self, index: i64, requester: u64) -> (step: StopStep<H>)
        ensures
            final(self).catalog() == old(self).catalog(),
            final(self).slots() == slots_after_stop(
                old(self).catalog(),
                old(self).slots(),
                index as int,
                requester,
            ),
            step@ == stop_step(old(self).catalog(), old(self).slots(), index as int, requester),
    {
        proof {
            use_type_invariant(&*self);
        }
        match self.check(index, requester) {
            Err(outcome) => StopStep::Done(outcome),
            Ok(slot) => {
                let taken = self.registry.get(slot).take();
                match taken {
                    Some(handle) => StopStep::Shutdown { index: slot, handle },
                    None => StopStep::Done(Outcome::AlreadyStopped),
                }
            },
        }
    }
}

} // verus!
