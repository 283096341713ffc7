//! What a unit of work hands out over a whole sequence of replies, and what
//! holds of it whatever the replies are.

use crate::command::{CommandView, Reply};
use crate::constants::{
    CALLSIGN, FACTION, RESERVED_RESOURCE, SESSION_INVALID, SESSION_SECTION, TOKEN_KEY,
};
use crate::cycle::{
    first_order, law_transition_keeps_wf, proceed, without_answer, CycleView, Phase,
};
use crate::engine::{law_reserved_resource_is_never_sold, sell_orders};
use crate::model::{fleet, ShipNavStatus, ShipView};
use crate::parsers::{classified, RemoteError};
use vstd::prelude::*;

verus! {

/// A command that the decision logic may hand out: no sale of the reserved
/// resource, and no extraction by a survey.
pub open spec fn permitted(command: CommandView) -> bool {
    match command {
        CommandView::Sell { symbol, .. } => symbol != RESERVED_RESOURCE@,
        CommandView::Extract { survey, .. } => survey is None,
        _ => true,
    }
}

/// A command that is for a ship.
pub open spec fn for_a_ship(command: CommandView) -> bool {
    match command {
        CommandView::Dock { .. } => true,
        CommandView::Orbit { .. } => true,
        CommandView::Refuel { .. } => true,
        CommandView::Navigate { .. } => true,
        CommandView::Extract { .. } => true,
        CommandView::Sell { .. } => true,
        _ => false,
    }
}

/// The commands that the machine hands out, in their order, while the replies
/// are handed in one after the other.
pub open spec fn commands(cycle: CycleView, replies: Seq<Reply>) -> Seq<CommandView>
    decreases replies.len(),
{
    if replies.len() == 0 {
        Seq::empty()
    } else {
        let (next, command) = cycle.transition(replies.first());
        let rest = commands(next, replies.drop_first());
        match command {
            Some(command) => seq![command] + rest,
            None => rest,
        }
    }
}

/// The state of the machine after the replies were handed in.
pub open spec fn state_after(cycle: CycleView, replies: Seq<Reply>) -> CycleView
    decreases replies.len(),
{
    if replies.len() == 0 {
        cycle
    } else {
        state_after(cycle.transition(replies.first()).0, replies.drop_first())
    }
}

/// What a step to the next ship hands out: a permitted command for a ship, and
/// with it a phase of a ship; or nothing, and the unit of work is done.
proof fn lemma_proceed(ships: Seq<ShipView>, from: int)
    ensures
        proceed(ships, from).1 matches Some(command) ==> permitted(command) && for_a_ship(command),
        proceed(ships, from).1 is Some ==> proceed(ships, from).0.ship() is Some,
        proceed(ships, from).1 is None ==> proceed(ships, from).0 == Phase::Done,
    decreases ships.len() - from,
{
    if 0 <= from < ships.len() {
        let ship = ships[from];
        if first_order(ship, from as usize) is None {
            lemma_proceed(ships, from + 1);
        } else if ship.status == ShipNavStatus::Docked && sell_orders(ship).len() > 0 {
            law_reserved_resource_is_never_sold(ship, 0);
        }
    }
}

/// What one step of the machine hands out and where it leads, for every state
/// and every reply.
proof fn lemma_step(cycle: CycleView, reply: Reply)
    ensures
        cycle.transition(reply).1 matches Some(command) ==> permitted(command),
        cycle.transition(reply).1 matches Some(CommandView::Register { .. }) ==> cycle.phase
            == Phase::AwaitAgent,
        cycle.transition(reply).0.phase != Phase::AwaitAgent,
        cycle.phase.ship() is Some && !without_answer(reply) ==> on_the_page(
            cycle.transition(reply).0.phase,
        ),
{
    match (cycle.phase, reply) {
        (Phase::AwaitShips, Reply::Ships(Ok(ships))) => {
            lemma_proceed(fleet(ships@), 0);
        },
        (Phase::Docking { ship }, Reply::Settled) => {
            lemma_proceed(cycle.ships, ship + 1);
        },
        (Phase::Selling { ship, order }, Reply::Sold(_)) => {
            if order + 1 < sell_orders(cycle.ships[ship as int]).len() {
                law_reserved_resource_is_never_sold(cycle.ships[ship as int], order + 1);
            }
        },
        (Phase::Mining { ship }, Reply::Extracted(_)) => {
            lemma_proceed(cycle.ships, ship + 1);
        },
        (Phase::Prospecting { ship }, Reply::Waypoints(_)) => {
            lemma_proceed(cycle.ships, ship + 1);
        },
        (Phase::Navigating { ship }, Reply::Navigated(_)) => {
            lemma_proceed(cycle.ships, ship + 1);
        },
        (Phase::Recovering { ship }, Reply::Settled) => {
            lemma_proceed(cycle.ships, ship + 1);
        },
        _ => {},
    }
}

/// Whatever the state and the reply, the machine hands out no sale of the
/// reserved resource and no extraction by a survey.
pub proof fn law_step_is_permitted(cycle: CycleView, reply: Reply)
    ensures
        cycle.transition(reply).1 matches Some(command) ==> permitted(command),
{
    lemma_step(cycle, reply);
}

/// Over a whole unit of work, whatever the replies: no sale of the reserved
/// resource is handed out, and no extraction by a survey.
pub proof fn law_run_is_permitted(cycle: CycleView, replies: Seq<Reply>, k: int)
    requires
        0 <= k < commands(cycle, replies).len(),
    ensures
        permitted(commands(cycle, replies)[k]),
    decreases replies.len(),
{
    if replies.len() > 0 {
        let (next, command) = cycle.transition(replies.first());
        lemma_step(cycle, replies.first());
        match command {
            Some(command) => {
                if k > 0 {
                    law_run_is_permitted(next, replies.drop_first(), k - 1);
                }
            },
            None => {
                law_run_is_permitted(next, replies.drop_first(), k);
            },
        }
    }
}

/// Over a whole unit of work, whatever the replies: the state stays well
/// formed.
pub proof fn law_run_keeps_wf(cycle: CycleView, replies: Seq<Reply>)
    requires
        cycle.wf(),
    ensures
        state_after(cycle, replies).wf(),
    decreases replies.len(),
{
    if replies.len() > 0 {
        law_transition_keeps_wf(cycle, replies.first());
        law_run_keeps_wf(cycle.transition(replies.first()).0, replies.drop_first());
    }
}

/// A unit of work that has ended hands out nothing more and stays as it is,
/// whatever is handed in.
pub proof fn law_ended_unit_of_work_is_silent(cycle: CycleView, replies: Seq<Reply>)
    requires
        cycle.phase.ended(),
    ensures
        commands(cycle, replies) == Seq::<CommandView>::empty(),
        state_after(cycle, replies) == cycle,
    decreases replies.len(),
{
    if replies.len() > 0 {
        law_ended_unit_of_work_is_silent(cycle, replies.drop_first());
    }
}

/// A ship in orbit is docked, and with the dock's return the machine is done
/// with it: it goes on to the ships behind it.
pub proof fn law_ship_in_orbit_only_docks(cycle: CycleView, index: usize)
    requires
        index < cycle.ships.len(),
        cycle.ships[index as int].status == ShipNavStatus::InOrbit,
    ensures
        proceed(cycle.ships, index as int) == (
            Phase::Docking { ship: index },
            Some(CommandView::Dock { ship: cycle.ships[index as int].symbol }),
        ),
        cycle.phase == (Phase::Docking { ship: index }) ==> cycle.transition(Reply::Settled)
            == cycle.turn(proceed(cycle.ships, index + 1)),
{
}

/// A ship in transit is given no command: the machine passes it over.
pub proof fn law_ship_in_transit_is_passed_over(ships: Seq<ShipView>, index: int)
    requires
        0 <= index < ships.len(),
        ships[index].status == ShipNavStatus::InTransit,
    ensures
        first_order(ships[index], index as usize) is None,
        proceed(ships, index) == proceed(ships, index + 1),
{
}

/// A page of ships that are all in transit is worked through without any
/// command.
pub proof fn law_fleet_in_transit_is_left_alone(ships: Seq<ShipView>, from: int)
    requires
        forall|i: int|
            0 <= i < ships.len() ==> (#[trigger] ships[i]).status == ShipNavStatus::InTransit,
    ensures
        proceed(ships, from) == (Phase::Done, None::<CommandView>),
    decreases ships.len() - from,
{
    if 0 <= from < ships.len() {
        law_fleet_in_transit_is_left_alone(ships, from + 1);
    }
}

/// Only the answer to the fetch of the agent leads to a registration, and
/// nothing leads back to that fetch.
pub proof fn law_registration_follows_the_agent_only(cycle: CycleView, reply: Reply)
    ensures
        cycle.transition(reply).1 matches Some(CommandView::Register { .. }) ==> cycle.phase
            == Phase::AwaitAgent,
        cycle.transition(reply).0.phase != Phase::AwaitAgent,
{
    lemma_step(cycle, reply);
}

/// Over a whole unit of work, whatever the replies: a registration is the
/// first command that is handed out, in answer to the fetch of the agent. So
/// there is one registration at most.
pub proof fn law_registers_at_most_once(cycle: CycleView, replies: Seq<Reply>, k: int)
    requires
        0 <= k < commands(cycle, replies).len(),
        commands(cycle, replies)[k] is Register,
    ensures
        k == 0,
        cycle.phase == Phase::AwaitAgent,
    decreases replies.len(),
{
    if replies.len() > 0 {
        let (next, command) = cycle.transition(replies.first());
        lemma_step(cycle, replies.first());
        match command {
            Some(command) => {
                if k > 0 {
                    law_registers_at_most_once(next, replies.drop_first(), k - 1);
                }
            },
            None => {
                law_registers_at_most_once(next, replies.drop_first(), k);
            },
        }
    }
}

/// Whether a unit of work is past the check of its session without a good
/// session: it registers, stores, or is over.
pub open spec fn without_session(phase: Phase) -> bool {
    phase == Phase::AwaitRegistration || phase == Phase::AwaitStore || phase.ended()
}

/// Once a registration is under way, the only command that follows is the one
/// that stores the token: no ship is touched in that unit of work.
pub proof fn law_registration_touches_no_ship(cycle: CycleView, replies: Seq<Reply>, k: int)
    requires
        without_session(cycle.phase),
        0 <= k < commands(cycle, replies).len(),
    ensures
        commands(cycle, replies)[k] is StoreToken,
        k == 0,
        cycle.phase == Phase::AwaitRegistration,
    decreases replies.len(),
{
    if replies.len() > 0 {
        let (next, command) = cycle.transition(replies.first());
        assert(without_session(next.phase));
        match command {
            Some(command) => {
                if k > 0 {
                    law_registration_touches_no_ship(next, replies.drop_first(), k - 1);
                }
            },
            None => {
                law_registration_touches_no_ship(next, replies.drop_first(), k);
            },
        }
    }
}

/// A session that belongs to no account: the account is registered once, the
/// token that comes back is stored, and nothing else happens in that unit of
/// work, whatever replies follow.
pub proof fn law_invalid_session_is_renewed(
    page: int,
    error: RemoteError,
    token: String,
    later: Seq<Reply>,
)
    requires
        (error matches RemoteError::Response { entity, .. } && classified(entity).0
            == SESSION_INVALID),
    ensures
        commands(
            CycleView::initial(page),
            seq![Reply::Agent(Err(error)), Reply::Registered(Ok(token)), Reply::Stored] + later,
        ) == (seq![
            CommandView::Register { callsign: CALLSIGN@, faction: FACTION@ },
            CommandView::StoreToken { section: SESSION_SECTION@, key: TOKEN_KEY@, token: token@ },
        ]),
{
    let start = CycleView::initial(page);
    let replies = seq![Reply::Agent(Err(error)), Reply::Registered(Ok(token)), Reply::Stored]
        + later;
    let first = start.transition(replies[0]);
    let second = first.0.transition(replies[1]);
    let third = second.0.transition(replies[2]);
    let r1 = replies.drop_first();
    let r2 = r1.drop_first();
    let r3 = r2.drop_first();
    assert(r1.first() == replies[1]);
    assert(r2.first() == replies[2]);
    assert(third.0.phase == Phase::Done);
    assert(commands(third.0, r3) == Seq::<CommandView>::empty()) by {
        if commands(third.0, r3).len() > 0 {
            law_registration_touches_no_ship(third.0, r3, 0);
        }
    }
    assert(commands(second.0, r2) == commands(third.0, r3));
    assert(commands(first.0, r1) == seq![second.1.unwrap()] + commands(second.0, r2));
    assert(commands(start, replies) == seq![first.1.unwrap()] + commands(first.0, r1));
}

/// Whether a unit of work in this phase is at work on its page or through
/// with it, and was not ended by a failure.
pub open spec fn on_the_page(phase: Phase) -> bool {
    phase.ship() is Some || phase == Phase::Done || phase == Phase::OutOfStep
}

/// A failure on one ship does not stop the ships behind it. While the machine
/// is at a ship, a reply of the service, success or error, never ends the
/// attempt: it leads to a further command for that ship or to the ships behind
/// it, which are taken as if the ship had succeeded. Only a call that failed
/// below the response level ends the attempt.
pub proof fn law_page_goes_on(cycle: CycleView, reply: Reply, ship: usize)
    requires
        cycle.phase.ship() == Some(ship),
        !without_answer(reply),
    ensures
        cycle.transition(reply).0.phase != Phase::Aborted,
        cycle.transition(reply).0.phase == Phase::OutOfStep || cycle.transition(
            reply,
        ).0.phase.ship() == Some(ship) || cycle.transition(reply) == cycle.next_ship(ship),
{
    lemma_step(cycle, reply);
}

/// The ships of a page are taken in the order of the page. The step from a
/// place in the page leads to the first ship from there on that is given a
/// command, and every ship between is one that is given none; where no ship is
/// left that is given one, the unit of work is done.
pub proof fn law_ships_are_taken_in_page_order(ships: Seq<ShipView>, from: int)
    requires
        0 <= from,
        ships.len() <= usize::MAX,
    ensures
        match proceed(ships, from).0.ship() {
            Some(at) => from <= at < ships.len() && first_order(ships[at as int], at) == Some(
                (proceed(ships, from).0, proceed(ships, from).1.unwrap()),
            ) && forall|j: int| from <= j < at ==> first_order(ships[j], j as usize) is None,
            None => proceed(ships, from) == (Phase::Done, None::<CommandView>) && forall|j: int|
                from <= j < ships.len() ==> first_order(ships[j], j as usize) is None,
        },
    decreases ships.len() - from,
{
    if from < ships.len() {
        if first_order(ships[from], from as usize) is None {
            law_ships_are_taken_in_page_order(ships, from + 1);
        }
    }
}

/// Over a whole unit of work that is at its page: as long as every call is
/// answered by the service, with a success or with an error, the attempt is
/// never ended by a failure.
pub proof fn law_answered_page_is_never_aborted(cycle: CycleView, replies: Seq<Reply>)
    requires
        on_the_page(cycle.phase),
        forall|i: int| 0 <= i < replies.len() ==> !without_answer(#[trigger] replies[i]),
    ensures
        on_the_page(state_after(cycle, replies).phase),
        state_after(cycle, replies).phase != Phase::Aborted,
    decreases replies.len(),
{
    if replies.len() > 0 {
        assert(!without_answer(replies[0]));
        lemma_step(cycle, replies.first());
        let rest = replies.drop_first();
        assert forall|i: int| 0 <= i < rest.len() implies !without_answer(#[trigger] rest[i]) by {
            assert(rest[i] == replies[i + 1]);
        }
        law_answered_page_is_never_aborted(cycle.transition(replies.first()).0, rest);
    }
}

} // verus!
