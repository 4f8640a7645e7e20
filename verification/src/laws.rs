use crate::definition::ServerConfig;
use crate::guard::authorized;
use crate::outcome::OutcomeView;
use crate::registry::occupied;
use crate::supervisor::{
    admission, record_effect, slots_after_stop, start_effect, start_step, stop_step, Admission,
    StartStepView, StopStepView,
};
use vstd::prelude::*;

verus! {

/// One request to start a server, with what the launcher would report if
/// it were asked.
pub struct StartRequest<H> {
    pub requester: u64,
    pub launched: Result<H, Seq<char>>,
    pub address: Option<Seq<char>>,
}

/// The slots and the outcomes after the requests of `requests` to start
/// server `index`, taken one after the other.
pub open spec fn replay_starts<H>(
    catalog: Seq<ServerConfig>,
    slots: Seq<Option<H>>,
    index: int,
    requests: Seq<StartRequest<H>>,
) -> (Seq<Option<H>>, Seq<OutcomeView>)
    decreases requests.len(),
{
    if requests.len() == 0 {
        (slots, Seq::empty())
    } else {
        let before = replay_starts(catalog, slots, index, requests.drop_last());
        let request = requests.last();
        let last = start_effect(
            catalog,
            before.0,
            index,
            request.requester,
            request.launched,
            request.address,
        );
        (last.0, before.1.push(last.1))
    }
}

/// Starting fills slots and never empties one: the table keeps its
/// length, an occupied slot keeps its handle, and a start that launched
/// leaves the slot of its server occupied.
pub proof fn lemma_start_keeps_running<H>(
    catalog: Seq<ServerConfig>,
    slots: Seq<Option<H>>,
    index: int,
    request: StartRequest<H>,
    other: int,
)
    requires
        slots.len() == catalog.len(),
    ensures
        ({
            let after = start_effect(
                catalog,
                slots,
                index,
                request.requester,
                request.launched,
                request.address,
            );
            &&& after.0.len() == slots.len()
            &&& occupied(slots, other) ==> after.0[other] == slots[other]
            &&& other != index && 0 <= other < slots.len() ==> after.0[other] == slots[other]
            &&& after.1 is Started ==> !occupied(slots, index) && occupied(after.0, index)
        }),
{
}

/// Of the requests to start one server that are taken one after the
/// other, one at most launches it: from the launch on the slot is
/// occupied, no later request launches, and every later request that is
/// admitted is told that the server already runs.
pub proof fn law_one_start_wins<H>(
    catalog: Seq<ServerConfig>,
    slots: Seq<Option<H>>,
    index: int,
    requests: Seq<StartRequest<H>>,
)
    requires
        slots.len() == catalog.len(),
    ensures
        ({
            let ran = replay_starts(catalog, slots, index, requests);
            &&& ran.0.len() == slots.len()
            &&& ran.1.len() == requests.len()
            &&& occupied(slots, index) ==> occupied(ran.0, index)
            &&& forall|j: int|
                0 <= j < requests.len() && #[trigger] ran.1[j] is Started ==> occupied(
                    ran.0,
                    index,
                )
            &&& forall|j: int, k: int|
                0 <= j < k < requests.len() && #[trigger] ran.1[j] is Started ==> {
                    &&& !(#[trigger] ran.1[k] is Started)
                    &&& admission(catalog, index, requests[k].requester) is Admitted ==> ran.1[k]
                        == OutcomeView::AlreadyRunning
                }
        }),
    decreases requests.len(),
{
    if requests.len() > 0 {
        let earlier = requests.drop_last();
        let before = replay_starts(catalog, slots, index, earlier);
        law_one_start_wins(catalog, slots, index, earlier);
        lemma_start_keeps_running(catalog, before.0, index, requests.last(), index);
        let ran = replay_starts(catalog, slots, index, requests);
        assert forall|j: int, k: int|
            0 <= j < k < requests.len() && #[trigger] ran.1[j] is Started implies {
            &&& !(#[trigger] ran.1[k] is Started)
            &&& admission(catalog, index, requests[k].requester) is Admitted ==> ran.1[k]
                == OutcomeView::AlreadyRunning
        } by {
            assert(ran.1[j] == before.1[j]);
            if k < requests.len() - 1 {
                assert(ran.1[k] == before.1[k]);
                assert(requests[k] == earlier[k]);
            } else {
                assert(occupied(before.0, index));
            }
        }
    }
}

/// Where the server is stopped, every request comes from the guild that
/// owns it and every launch would succeed, the first request launches the
/// server and each of the others is told that it already runs.
pub proof fn law_exactly_one_start_succeeds<H>(
    catalog: Seq<ServerConfig>,
    slots: Seq<Option<H>>,
    index: int,
    requests: Seq<StartRequest<H>>,
)
    requires
        slots.len() == catalog.len(),
        0 <= index < catalog.len(),
        slots[index] is None,
        requests.len() > 0,
        forall|k: int|
            0 <= k < requests.len() ==> authorized(
                catalog[index],
                (#[trigger] requests[k]).requester,
            ) && requests[k].launched is Ok,
    ensures
        ({
            let ran = replay_starts(catalog, slots, index, requests);
            &&& ran.1.len() == requests.len()
            &&& ran.1[0] == OutcomeView::Started(requests[0].address)
            &&& forall|k: int|
                0 < k < requests.len() ==> #[trigger] ran.1[k] == OutcomeView::AlreadyRunning
            &&& ran.0 == slots.update(index, Some(requests[0].launched->Ok_0))
        }),
    decreases requests.len(),
{
    let earlier = requests.drop_last();
    if earlier.len() > 0 {
        assert forall|k: int| 0 <= k < earlier.len() implies authorized(
            catalog[index],
            (#[trigger] earlier[k]).requester,
        ) && earlier[k].launched is Ok by {
            assert(earlier[k] == requests[k]);
        }
        law_exactly_one_start_succeeds(catalog, slots, index, earlier);
        assert(earlier[0] == requests[0]);
    } else {
        assert(replay_starts(catalog, slots, index, earlier).0 == slots);
        assert(requests.last() == requests[0]);
    }
}

/// A request from another guild than the owner's is refused as such, to
/// start as to stop, whether the server runs or not, and the slots stay as
/// they are.
pub proof fn law_wrong_guild_changes_nothing<H>(
    catalog: Seq<ServerConfig>,
    slots: Seq<Option<H>>,
    index: int,
    requester: u64,
    launched: Result<H, Seq<char>>,
    address: Option<Seq<char>>,
)
    requires
        slots.len() == catalog.len(),
        0 <= index < catalog.len(),
        requester != catalog[index].owner(),
    ensures
        start_step(catalog, slots, index, requester) == StartStepView::Done(
            OutcomeView::WrongGuild,
        ),
        start_effect(catalog, slots, index, requester, launched, address) == (
            slots,
            OutcomeView::WrongGuild,
        ),
        stop_step(catalog, slots, index, requester) == StopStepView::<H>::Done(
            OutcomeView::WrongGuild,
        ),
        slots_after_stop(catalog, slots, index, requester) == slots,
{
}

/// After a request to stop a server that was admitted, the same request
/// is told that the server is already stopped, and changes nothing.
pub proof fn law_second_stop_finds_stopped<H>(
    catalog: Seq<ServerConfig>,
    slots: Seq<Option<H>>,
    index: int,
    requester: u64,
)
    requires
        slots.len() == catalog.len(),
        admission(catalog, index, requester) is Admitted,
    ensures
        ({
            let once = slots_after_stop(catalog, slots, index, requester);
            &&& stop_step(catalog, once, index, requester) == StopStepView::<H>::Done(
                OutcomeView::AlreadyStopped,
            )
            &&& slots_after_stop(catalog, once, index, requester) == once
        }),
{
    let once = slots_after_stop(catalog, slots, index, requester);
    assert(once.update(index, None) =~= once);
}

/// A server that was started, by a request that was admitted and a launch
/// that succeeded, runs; once it is stopped by such a request, it does
/// not.
pub proof fn law_round_trip<H>(
    catalog: Seq<ServerConfig>,
    slots: Seq<Option<H>>,
    index: int,
    requester: u64,
    handle: H,
    address: Option<Seq<char>>,
)
    requires
        slots.len() == catalog.len(),
        admission(catalog, index, requester) is Admitted,
    ensures
        ({
            let started = start_effect(catalog, slots, index, requester, Ok(handle), address).0;
            let stopped = slots_after_stop(catalog, started, index, requester);
            &&& occupied(started, index)
            &&& !occupied(stopped, index)
        }),
{
}

/// An index outside the catalog is refused as out of bounds, to start as
/// to stop, whoever asks, and the slots stay as they are.
pub proof fn law_out_of_bounds_is_refused<H>(
    catalog: Seq<ServerConfig>,
    slots: Seq<Option<H>>,
    index: int,
    requester: u64,
    launched: Result<H, Seq<char>>,
    address: Option<Seq<char>>,
)
    requires
        slots.len() == catalog.len(),
        index < 0 || index >= catalog.len(),
    ensures
        start_step(catalog, slots, index, requester) == StartStepView::Done(
            OutcomeView::OutOfBounds,
        ),
        start_effect(catalog, slots, index, requester, launched, address) == (
            slots,
            OutcomeView::OutOfBounds,
        ),
        stop_step(catalog, slots, index, requester) == StopStepView::<H>::Done(
            OutcomeView::OutOfBounds,
        ),
        slots_after_stop(catalog, slots, index, requester) == slots,
        !occupied(slots, index),
{
}

/// A whole start is what the two steps of the supervisor make of it: the
/// request, and the record of the launch in the slot that the request
/// handed out.
pub proof fn lemma_start_in_two_steps<H>(
    catalog: Seq<ServerConfig>,
    slots: Seq<Option<H>>,
    index: int,
    requester: u64,
    launched: Result<H, Seq<char>>,
    address: Option<Seq<char>>,
)
    requires
        slots.len() == catalog.len(),
        start_step(catalog, slots, index, requester) is Launch,
    ensures
        ({
            let recorded = record_effect(slots[index], launched, address);
            let whole = start_effect(catalog, slots, index, requester, launched, address);
            &&& slots.update(index, recorded.0) == whole.0
            &&& recorded.1 == Ok::<OutcomeView, H>(whole.1)
        }),
{
    let recorded = record_effect(slots[index], launched, address);
    let whole = start_effect(catalog, slots, index, requester, launched, address);
    assert(slots.update(index, recorded.0) =~= whole.0);
}

} // verus!
