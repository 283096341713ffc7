//! One unit of work as a state machine: the session is checked, then one page
//! of the fleet is worked through, ship by ship. The machine decides; its
//! caller performs each command and hands back the reply.

use crate::command::{issued, orders, Command, CommandView, Reply};
use crate::constants::{
    CALLSIGN, FACTION, FALLBACK_WAYPOINT, FLEET_PAGE_SIZE, SESSION_SECTION, TOKEN_KEY,
    WAYPOINT_PAGE, WAYPOINT_PAGE_SIZE,
};
use crate::engine::{
    auto_mine, auto_sell, find_sutable_mine_planet, mine_order, mining_site, navigate_order,
    navigate_to, sell_orders,
};
use crate::model::{
    chart, fleet, Agent, Extraction, Sale, Ship, ShipNavStatus, ShipView, Transit, Waypoint,
};
use crate::parsers::{
    classified, extract_resources_response_parser, get_agent_response_parser, is_recognized,
    travel_request_response_parser, RemoteError,
};
use crate::policy::{
    judge_session, recover, recovery, session_verdict, Operation, Recovery, SessionVerdict,
};
use vstd::prelude::*;

verus! {

/// Where a unit of work stands: which reply it waits for, or how it ended.
#[derive(Clone, Copy, Debug, PartialEq, Eq, Structural)]
pub enum Phase {
    /// The agent is being fetched.
    AwaitAgent,
    /// A new account is being registered.
    AwaitRegistration,
    /// The new token is being written.
    AwaitStore,
    /// The page of the fleet is being fetched.
    AwaitShips,
    /// The ship of this index is docking.
    Docking { ship: usize },
    /// The sale of this number, of the ship's sales, is being made.
    Selling { ship: usize, order: usize },
    /// The ship is extracting.
    Mining { ship: usize },
    /// The waypoints of the ship's system are being fetched.
    Prospecting { ship: usize },
    /// The ship is being sent to a waypoint.
    Navigating { ship: usize },
    /// The ship is being refuelled or brought into orbit.
    Recovering { ship: usize },
    /// The unit of work is over.
    Done,
    /// A remote call failed in a way that ends the attempt.
    Aborted,
    /// A reply came that answers no command that was out.
    OutOfStep,
}

impl Phase {
    /// Whether a unit of work in this phase has ended, in whichever way.
    pub open spec fn ended(self) -> bool {
        self == Phase::Done || self == Phase::Aborted || self == Phase::OutOfStep
    }

    /// The index of the ship that the phase is about, if it is about one.
    pub open spec fn ship(self) -> Option<usize> {
        match self {
            Phase::Docking { ship } => Some(ship),
            Phase::Selling { ship, .. } => Some(ship),
            Phase::Mining { ship } => Some(ship),
            Phase::Prospecting { ship } => Some(ship),
            Phase::Navigating { ship } => Some(ship),
            Phase::Recovering { ship } => Some(ship),
            _ => None,
        }
    }
}

/// The state of one unit of work.
#[derive(Debug)]
pub struct Cycle {
    page: i32,
    phase: Phase,
    ships: Vec<Ship>,
    failure: Option<RemoteError>,
}

/// The state of one unit of work as a mathematical value.
pub ghost struct CycleView {
    /// The page of the fleet that this unit of work is for.
    pub page: int,
    pub phase: Phase,
    /// The ships of the page, once they are fetched.
    pub ships: Seq<ShipView>,
    /// The failure that ended the attempt, in full.
    pub failure: Option<RemoteError>,
}

impl View for Cycle {
    type V = CycleView;

    closed spec fn view(&self) -> CycleView {
        CycleView {
            page: self.page as int,
            phase: self.phase,
            ships: fleet(self.ships@),
            failure: self.failure,
        }
    }
}

/// Whether a remote call failed below the response level.
pub open spec fn below_response<T>(outcome: Result<T, RemoteError>) -> bool {
    outcome matches Err(RemoteError::Transport { .. })
}

/// Whether a reply tells of a call that failed below the response level.
pub open spec fn without_answer(reply: Reply) -> bool {
    match reply {
        Reply::Agent(outcome) => below_response(outcome),
        Reply::Registered(outcome) => below_response(outcome),
        Reply::Ships(outcome) => below_response(outcome),
        Reply::Waypoints(outcome) => below_response(outcome),
        Reply::Navigated(outcome) => below_response(outcome),
        Reply::Extracted(outcome) => below_response(outcome),
        Reply::Sold(outcome) => below_response(outcome),
        Reply::Stored => false,
        Reply::Settled => false,
    }
}

/// A step of the machine: the phase that it goes to and the command that it
/// hands out.
pub type Step = (Phase, Option<CommandView>);

/// The first command for a ship, by its status: a ship in orbit docks, a ship
/// in transit is left alone, a docked ship sells what it may and, with nothing
/// to sell, mines.
pub open spec fn first_order(ship: ShipView, index: usize) -> Option<(Phase, CommandView)> {
    match ship.status {
        ShipNavStatus::InOrbit => Some(
            (Phase::Docking { ship: index }, CommandView::Dock { ship: ship.symbol }),
        ),
        ShipNavStatus::InTransit => None,
        ShipNavStatus::Docked => if sell_orders(ship).len() > 0 {
            Some((Phase::Selling { ship: index, order: 0 }, sell_orders(ship)[0]))
        } else {
            Some((Phase::Mining { ship: index }, mine_order(ship)))
        },
    }
}

/// The step to the first ship from `from` on that is given a command; the end
/// of the unit of work where there is none.
pub open spec fn proceed(ships: Seq<ShipView>, from: int) -> Step
    decreases ships.len() - from,
{
    if from < 0 || from >= ships.len() {
        (Phase::Done, None)
    } else {
        match first_order(ships[from], from as usize) {
            Some((phase, command)) => (phase, Some(command)),
            None => proceed(ships, from + 1),
        }
    }
}

impl CycleView {
    /// The state in which a unit of work for `page` begins.
    pub open spec fn initial(page: int) -> CycleView {
        CycleView { page: page, phase: Phase::AwaitAgent, ships: Seq::empty(), failure: None }
    }

    /// The ship index of a phase is that of a ship, and the sale of a phase is
    /// one of that ship's sales.
    pub open spec fn wf(self) -> bool {
        &&& self.ships.len() <= usize::MAX
        &&& match self.phase {
            Phase::Docking { ship } => ship < self.ships.len(),
            Phase::Selling { ship, order } => ship < self.ships.len() && order < sell_orders(
                self.ships[ship as int],
            ).len(),
            Phase::Mining { ship } => ship < self.ships.len(),
            Phase::Prospecting { ship } => ship < self.ships.len(),
            Phase::Navigating { ship } => ship < self.ships.len(),
            Phase::Recovering { ship } => ship < self.ships.len(),
            _ => true,
        }
    }

    /// Takes a step.
    pub open spec fn turn(self, step: Step) -> (CycleView, Option<CommandView>) {
        (CycleView { phase: step.0, ..self }, step.1)
    }

    /// Ends the attempt on a failure, which is kept in full.
    pub open spec fn abort(self, error: RemoteError) -> (CycleView, Option<CommandView>) {
        (CycleView { phase: Phase::Aborted, failure: Some(error), ..self }, None)
    }

    /// Goes on with the ship after `ship`.
    pub open spec fn next_ship(self, ship: usize) -> (CycleView, Option<CommandView>) {
        self.turn(proceed(self.ships, ship + 1))
    }

    /// After the agent was fetched. A good session goes on to the fleet. A
    /// session that belongs to no account is registered anew. Any other error
    /// of the service ends the unit of work with the fleet untouched.
    pub open spec fn after_agent(self, outcome: Result<Agent, RemoteError>) -> (
        CycleView,
        Option<CommandView>,
    ) {
        match outcome {
            Ok(_) => self.turn(
                (
                    Phase::AwaitShips,
                    Some(CommandView::ListShips { page: self.page, limit: FLEET_PAGE_SIZE as int }),
                ),
            ),
            Err(error) => match error {
                RemoteError::Transport { .. } => self.abort(error),
                RemoteError::Response { entity, .. } => match session_verdict(
                    classified(entity).0,
                ) {
                    SessionVerdict::Register => self.turn(
                        (
                            Phase::AwaitRegistration,
                            Some(
                                CommandView::Register { callsign: CALLSIGN@, faction: FACTION@ },
                            ),
                        ),
                    ),
                    SessionVerdict::Skip => self.turn((Phase::Done, None)),
                },
            },
        }
    }

    /// After the registration. The token of the new account is to be written;
    /// a registration that failed ends the attempt.
    pub open spec fn after_registration(self, outcome: Result<String, RemoteError>) -> (
        CycleView,
        Option<CommandView>,
    ) {
        match outcome {
            Ok(token) => self.turn(
                (
                    Phase::AwaitStore,
                    Some(
                        CommandView::StoreToken {
                            section: SESSION_SECTION@,
                            key: TOKEN_KEY@,
                            token: token@,
                        },
                    ),
                ),
            ),
            Err(error) => self.abort(error),
        }
    }

    /// After the page of the fleet was fetched. The ships are taken in their
    /// order; a page that could not be had ends the attempt.
    pub open spec fn after_ships(self, outcome: Result<Vec<Ship>, RemoteError>) -> (
        CycleView,
        Option<CommandView>,
    ) {
        match outcome {
            Ok(ships) => CycleView { ships: fleet(ships@), ..self }.turn(
                proceed(fleet(ships@), 0),
            ),
            Err(error) => self.abort(error),
        }
    }

    /// After a sale. However the service answered, the ship's next sale
    /// follows, and after the last the extraction.
    pub open spec fn after_sale(
        self,
        ship: usize,
        order: usize,
        outcome: Result<Sale, RemoteError>,
    ) -> (CycleView, Option<CommandView>) {
        match outcome {
            Err(RemoteError::Transport { detail }) => self.abort(
                RemoteError::Transport { detail },
            ),
            _ => {
                let sales = sell_orders(self.ships[ship as int]);
                if order + 1 < sales.len() {
                    self.turn(
                        (
                            Phase::Selling { ship: ship, order: (order + 1) as usize },
                            Some(sales[order + 1]),
                        ),
                    )
                } else {
                    self.turn(
                        (Phase::Mining { ship: ship }, Some(mine_order(self.ships[ship as int]))),
                    )
                }
            },
        }
    }

    /// After the extraction. A full hold sends the ship to the fallback
    /// waypoint, an invalid site has the system's waypoints fetched; with every
    /// other error, and with a yield, the ship is done.
    pub open spec fn after_extraction(
        self,
        ship: usize,
        outcome: Result<Extraction, RemoteError>,
    ) -> (CycleView, Option<CommandView>) {
        match outcome {
            Ok(_) => self.next_ship(ship),
            Err(error) => match error {
                RemoteError::Transport { .. } => self.abort(error),
                RemoteError::Response { entity, .. } => match recovery(
                    Operation::Extract,
                    classified(entity).0,
                ) {
                    Recovery::Unload => self.turn(
                        (
                            Phase::Navigating { ship: ship },
                            Some(navigate_order(self.ships[ship as int], FALLBACK_WAYPOINT@)),
                        ),
                    ),
                    Recovery::Prospect => self.turn(
                        (
                            Phase::Prospecting { ship: ship },
                            Some(
                                CommandView::ListWaypoints {
                                    system: self.ships[ship as int].system,
                                    page: WAYPOINT_PAGE as int,
                                    limit: WAYPOINT_PAGE_SIZE as int,
                                },
                            ),
                        ),
                    ),
                    _ => self.next_ship(ship),
                },
            },
        }
    }

    /// After the waypoints were fetched. The ship is sent to the mining site
    /// among them. Where the service answered the query with an error, nothing
    /// is done about it: the ship is done, and the ships behind it follow.
    pub open spec fn after_waypoints(
        self,
        ship: usize,
        outcome: Result<Vec<Waypoint>, RemoteError>,
    ) -> (CycleView, Option<CommandView>) {
        match outcome {
            Ok(waypoints) => self.turn(
                (
                    Phase::Navigating { ship: ship },
                    Some(navigate_order(self.ships[ship as int], mining_site(chart(waypoints@)))),
                ),
            ),
            Err(error) => match error {
                RemoteError::Transport { .. } => self.abort(error),
                RemoteError::Response { .. } => self.next_ship(ship),
            },
        }
    }

    /// After the ship was sent off. With too little fuel it is refuelled, a
    /// docked ship is brought into orbit; the route is not tried again. With
    /// every other error, and on its way, the ship is done.
    pub open spec fn after_navigation(
        self,
        ship: usize,
        outcome: Result<Transit, RemoteError>,
    ) -> (CycleView, Option<CommandView>) {
        match outcome {
            Ok(_) => self.next_ship(ship),
            Err(error) => match error {
                RemoteError::Transport { .. } => self.abort(error),
                RemoteError::Response { entity, .. } => match recovery(
                    Operation::Navigate,
                    classified(entity).0,
                ) {
                    Recovery::Refuel => self.turn(
                        (
                            Phase::Recovering { ship: ship },
                            Some(CommandView::Refuel { ship: self.ships[ship as int].symbol }),
                        ),
                    ),
                    Recovery::Orbit => self.turn(
                        (
                            Phase::Recovering { ship: ship },
                            Some(CommandView::Orbit { ship: self.ships[ship as int].symbol }),
                        ),
                    ),
                    _ => self.next_ship(ship),
                },
            },
        }
    }

    /// The machine: the state after `reply` and the command that follows it.
    /// A unit of work that has ended stays as it is. A reply that answers no
    /// command that was out puts the machine out of step.
    pub open spec fn transition(self, reply: Reply) -> (CycleView, Option<CommandView>) {
        match (self.phase, reply) {
            (Phase::Done, _) => (self, None),
            (Phase::Aborted, _) => (self, None),
            (Phase::OutOfStep, _) => (self, None),
            (Phase::AwaitAgent, Reply::Agent(outcome)) => self.after_agent(outcome),
            (Phase::AwaitRegistration, Reply::Registered(outcome)) => self.after_registration(
                outcome,
            ),
            (Phase::AwaitStore, Reply::Stored) => self.turn((Phase::Done, None)),
            (Phase::AwaitShips, Reply::Ships(outcome)) => self.after_ships(outcome),
            (Phase::Docking { ship }, Reply::Settled) => self.next_ship(ship),
            (Phase::Selling { ship, order }, Reply::Sold(outcome)) => self.after_sale(
                ship,
                order,
                outcome,
            ),
            (Phase::Mining { ship }, Reply::Extracted(outcome)) => self.after_extraction(
                ship,
                outcome,
            ),
            (Phase::Prospecting { ship }, Reply::Waypoints(outcome)) => self.after_waypoints(
                ship,
                outcome,
            ),
            (Phase::Navigating { ship }, Reply::Navigated(outcome)) => self.after_navigation(
                ship,
                outcome,
            ),
            (Phase::Recovering { ship }, Reply::Settled) => self.next_ship(ship),
            _ => self.turn((Phase::OutOfStep, None)),
        }
    }
}

/// The first command for `ship`, which stands at `index` in its page.
fn open_ship(ship: &Ship, index: usize) -> (first: Option<(Phase, Command)>)
    ensures
        match first {
            Some((phase, command)) => first_order(ship@, index) == Some((phase, command@)),
            None => first_order(ship@, index) is None,
        },
{
    match ship.status {
        ShipNavStatus::InOrbit => Some(
            (Phase::Docking { ship: index }, Command::Dock { ship: ship.symbol.clone() }),
        ),
        ShipNavStatus::InTransit => None,
        ShipNavStatus::Docked => {
            let mut sales = auto_sell(ship);
            if sales.len() > 0 {
                let first = sales.remove(0);
                Some((Phase::Selling { ship: index, order: 0 }, first))
            } else {
                Some((Phase::Mining { ship: index }, auto_mine(ship)))
            }
        },
    }
}

/// The step to the first ship from `from` on that is given a command.
fn proceed_from(ships: &Vec<Ship>, from: usize) -> (step: (Phase, Option<Command>))
    ensures
        (step.0, issued(step.1)) == proceed(fleet(ships@), from as int),
{
    let mut i: usize = from;
    while i < ships.len()
        invariant
            from <= i,
            fleet(ships@).len() == ships.len(),
            proceed(fleet(ships@), from as int) == proceed(fleet(ships@), i as int),
        decreases ships.len() - i,
    {
        assert(fleet(ships@)[i as int] == ships[i as int]@);
        match open_ship(&ships[i], i) {
            Some((phase, command)) => {
                return (phase, Some(command));
            },
            None => {},
        }
        i = i + 1;
    }
    (Phase::Done, None)
}

/// Every step to a ship leads to a phase of that ship.
proof fn lemma_proceed_keeps_wf(cycle: CycleView, from: int)
    requires
        cycle.ships.len() <= usize::MAX,
    ensures
        cycle.turn(proceed(cycle.ships, from)).0.wf(),
    decreases cycle.ships.len() - from,
{
    if 0 <= from < cycle.ships.len() {
        if first_order(cycle.ships[from], from as usize) is None {
            lemma_proceed_keeps_wf(cycle, from + 1);
        }
    }
}

/// The machine keeps its state well formed.
pub proof fn law_transition_keeps_wf(cycle: CycleView, reply: Reply)
    requires
        cycle.wf(),
    ensures
        cycle.transition(reply).0.wf(),
{
    match (cycle.phase, reply) {
        (Phase::AwaitShips, Reply::Ships(Ok(ships))) => {
            assert(fleet(ships@).len() == ships.len());
            lemma_proceed_keeps_wf(CycleView { ships: fleet(ships@), ..cycle }, 0);
        },
        (Phase::Docking { ship }, Reply::Settled) => {
            lemma_proceed_keeps_wf(cycle, ship + 1);
        },
        (Phase::Mining { ship }, Reply::Extracted(_)) => {
            lemma_proceed_keeps_wf(cycle, ship + 1);
        },
        (Phase::Prospecting { ship }, Reply::Waypoints(_)) => {
            lemma_proceed_keeps_wf(cycle, ship + 1);
        },
        (Phase::Navigating { ship }, Reply::Navigated(_)) => {
            lemma_proceed_keeps_wf(cycle, ship + 1);
        },
        (Phase::Recovering { ship }, Reply::Settled) => {
            lemma_proceed_keeps_wf(cycle, ship + 1);
        },
        _ => {},
    }
}

impl Cycle {
    /// Begins a unit of work for one page of the fleet. Its first command
    /// fetches the agent.
    pub fn begin(page: i32) -> (start: (Cycle, Command))
        ensures
            start.0@ == CycleView::initial(page as int),
            start.0@.wf(),
            start.1@ == CommandView::GetAgent,
    {
        let cycle = Cycle { page, phase: Phase::AwaitAgent, ships: Vec::new(), failure: None };
        assert(cycle@.ships == Seq::<ShipView>::empty());
        (cycle, Command::GetAgent)
    }

    /// The page of the fleet that this unit of work is for.
    pub fn page(&self) -> (page: i32)
        ensures
            page == self@.page,
    {
        self.page
    }

    /// Where the unit of work stands.
    pub fn phase(&self) -> (phase: Phase)
        ensures
            phase == self@.phase,
    {
        self.phase
    }

    /// The ships of the page, once they are fetched.
    pub fn ships(&self) -> (ships: &Vec<Ship>)
        ensures
            fleet(ships@) == self@.ships,
    {
        &self.ships
    }

    /// The failure that ended the attempt.
    pub fn failure(&self) -> (failure: &Option<RemoteError>)
        ensures
            *failure == self@.failure,
    {
        &self.failure
    }

    /// Whether the unit of work has ended, in whichever way.
    pub fn is_over(&self) -> (over: bool)
        ensures
            over == self@.phase.ended(),
    {
        match self.phase {
            Phase::Done => true,
            Phase::Aborted => true,
            Phase::OutOfStep => true,
            _ => false,
        }
    }

    fn turn(&mut self, step: (Phase, Option<Command>)) -> (command: Option<Command>)
        ensures
            (final(self)@, issued(command)) == old(self)@.turn((step.0, issued(step.1))),
    {
        self.phase = step.0;
        step.1
    }

    fn abort<T>(&mut self, outcome: Result<T, RemoteError>) -> (command: Option<Command>)
        requires
            outcome is Err,
        ensures
            (final(self)@, issued(command)) == old(self)@.abort(outcome->Err_0),
    {
        match outcome {
            Err(error) => {
                self.phase = Phase::Aborted;
                self.failure = Some(error);
            },
            Ok(_) => {},
        }
        None
    }

    fn next_ship(&mut self, ship: usize) -> (command: Option<Command>)
        requires
            ship < old(self)@.ships.len(),
        ensures
            (final(self)@, issued(command)) == old(self)@.next_ship(ship),
    {
        assert(self@.ships.len() == self.ships.len());
        let step = proceed_from(&self.ships, ship + 1);
        self.turn(step)
    }

    fn on_agent(&mut self, outcome: Result<Agent, RemoteError>) -> (command: Option<Command>)
        ensures
            (final(self)@, issued(command)) == old(self)@.after_agent(outcome),
    {
        if !is_recognized(&outcome) {
            return self.abort(outcome);
        }
        match get_agent_response_parser(outcome) {
            Ok(_) => {
                let fetch = Command::ListShips { page: self.page, limit: FLEET_PAGE_SIZE };
                self.turn((Phase::AwaitShips, Some(fetch)))
            },
            Err(error) => match judge_session(error.code) {
                SessionVerdict::Register => {
                    let register = Command::Register {
                        callsign: CALLSIGN.to_owned(),
                        faction: FACTION.to_owned(),
                    };
                    self.turn((Phase::AwaitRegistration, Some(register)))
                },
                SessionVerdict::Skip => self.turn((Phase::Done, None)),
            },
        }
    }

    fn on_registration(&mut self, outcome: Result<String, RemoteError>) -> (command: Option<
        Command,
    >)
        ensures
            (final(self)@, issued(command)) == old(self)@.after_registration(outcome),
    {
        match outcome {
            Ok(token) => {
                let store = Command::StoreToken {
                    section: SESSION_SECTION.to_owned(),
                    key: TOKEN_KEY.to_owned(),
                    token,
                };
                self.turn((Phase::AwaitStore, Some(store)))
            },
            Err(error) => self.abort(Err::<String, RemoteError>(error)),
        }
    }

    fn on_ships(&mut self, outcome: Result<Vec<Ship>, RemoteError>) -> (command: Option<Command>)
        ensures
            (final(self)@, issued(command)) == old(self)@.after_ships(outcome),
    {
        match outcome {
            Ok(ships) => {
                self.ships = ships;
                let step = proceed_from(&self.ships, 0);
                self.turn(step)
            },
            Err(error) => self.abort(Err::<Vec<Ship>, RemoteError>(error)),
        }
    }

    fn on_sale(
        &mut self,
        ship: usize,
        order: usize,
        outcome: Result<Sale, RemoteError>,
    ) -> (command: Option<Command>)
        requires
            old(self)@.wf(),
            old(self)@.phase == (Phase::Selling { ship, order }),
        ensures
            (final(self)@, issued(command)) == old(self)@.after_sale(ship, order, outcome),
    {
        if !is_recognized(&outcome) {
            return self.abort(outcome);
        }
        assert(self@.ships[ship as int] == self.ships[ship as int]@);
        let mut sales = auto_sell(&self.ships[ship]);
        assert(sales.len() == orders(sales@).len());
        if order + 1 < sales.len() {
            let next = sales.remove(order + 1);
            self.turn((Phase::Selling { ship, order: order + 1 }, Some(next)))
        } else {
            let mine = auto_mine(&self.ships[ship]);
            self.turn((Phase::Mining { ship }, Some(mine)))
        }
    }

    fn on_extraction(
        &mut self,
        ship: usize,
        outcome: Result<Extraction, RemoteError>,
    ) -> (command: Option<Command>)
        requires
            ship < old(self)@.ships.len(),
        ensures
            (final(self)@, issued(command)) == old(self)@.after_extraction(ship, outcome),
    {
        if !is_recognized(&outcome) {
            return self.abort(outcome);
        }
        assert(self@.ships[ship as int] == self.ships[ship as int]@);
        match extract_resources_response_parser(outcome) {
            Ok(_) => self.next_ship(ship),
            Err(error) => match recover(Operation::Extract, error.code) {
                Recovery::Unload => {
                    let route = navigate_to(&self.ships[ship], FALLBACK_WAYPOINT);
                    self.turn((Phase::Navigating { ship }, Some(route)))
                },
                Recovery::Prospect => {
                    let look = Command::ListWaypoints {
                        system: self.ships[ship].system.clone(),
                        page: WAYPOINT_PAGE,
                        limit: WAYPOINT_PAGE_SIZE,
                    };
                    self.turn((Phase::Prospecting { ship }, Some(look)))
                },
                _ => self.next_ship(ship),
            },
        }
    }

    fn on_waypoints(
        &mut self,
        ship: usize,
        outcome: Result<Vec<Waypoint>, RemoteError>,
    ) -> (command: Option<Command>)
        requires
            ship < old(self)@.ships.len(),
        ensures
            (final(self)@, issued(command)) == old(self)@.after_waypoints(ship, outcome),
    {
        if !is_recognized(&outcome) {
            return self.abort(outcome);
        }
        assert(self@.ships[ship as int] == self.ships[ship as int]@);
        match outcome {
            Ok(waypoints) => {
                let site = find_sutable_mine_planet(&waypoints);
                let route = navigate_to(&self.ships[ship], site.as_str());
                self.turn((Phase::Navigating { ship }, Some(route)))
            },
            Err(_) => self.next_ship(ship),
        }
    }

    fn on_navigation(
        &mut self,
        ship: usize,
        outcome: Result<Transit, RemoteError>,
    ) -> (command: Option<Command>)
        requires
            ship < old(self)@.ships.len(),
        ensures
            (final(self)@, issued(command)) == old(self)@.after_navigation(ship, outcome),
    {
        if !is_recognized(&outcome) {
            return self.abort(outcome);
        }
        assert(self@.ships[ship as int] == self.ships[ship as int]@);
        match travel_request_response_parser(outcome) {
            Ok(_) => self.next_ship(ship),
            Err(error) => match recover(Operation::Navigate, error.code) {
                Recovery::Refuel => {
                    let refuel = Command::Refuel { ship: self.ships[ship].symbol.clone() };
                    self.turn((Phase::Recovering { ship }, Some(refuel)))
                },
                Recovery::Orbit => {
                    let orbit = Command::Orbit { ship: self.ships[ship].symbol.clone() };
                    self.turn((Phase::Recovering { ship }, Some(orbit)))
                },
                _ => self.next_ship(ship),
            },
        }
    }
}

/// Takes one step of a unit of work: `reply` is what came back from the command
/// that was handed out last, and the result is the command to perform next, if
/// the unit of work goes on.
pub fn run_logic(cycle: &mut Cycle, reply: Reply) -> (command: Option<Command>)
    requires
        old(cycle)@.wf(),
    ensures
        (final(cycle)@, issued(command)) == old(cycle)@.transition(reply),
        final(cycle)@.wf(),
{
    proof {
        law_transition_keeps_wf(cycle@, reply);
    }
    let phase = cycle.phase;
    match phase {
        Phase::Done => None,
        Phase::Aborted => None,
        Phase::OutOfStep => None,
        Phase::AwaitAgent => match reply {
            Reply::Agent(outcome) => cycle.on_agent(outcome),
            _ => cycle.turn((Phase::OutOfStep, None)),
        },
        Phase::AwaitRegistration => match reply {
            Reply::Registered(outcome) => cycle.on_registration(outcome),
            _ => cycle.turn((Phase::OutOfStep, None)),
        },
        Phase::AwaitStore => match reply {
            Reply::Stored => cycle.turn((Phase::Done, None)),
            _ => cycle.turn((Phase::OutOfStep, None)),
        },
        Phase::AwaitShips => match reply {
            Reply::Ships(outcome) => cycle.on_ships(outcome),
            _ => cycle.turn((Phase::OutOfStep, None)),
        },
        Phase::Docking { ship } => match reply {
            Reply::Settled => cycle.next_ship(ship),
            _ => cycle.turn((Phase::OutOfStep, None)),
        },
        Phase::Selling { ship, order } => match reply {
            Reply::Sold(outcome) => cycle.on_sale(ship, order, outcome),
            _ => cycle.turn((Phase::OutOfStep, None)),
        },
        Phase::Mining { ship } => match reply {
            Reply::Extracted(outcome) => cycle.on_extraction(ship, outcome),
            _ => cycle.turn((Phase::OutOfStep, None)),
        },
        Phase::Prospecting { ship } => match reply {
            Reply::Waypoints(outcome) => cycle.on_waypoints(ship, outcome),
            _ => cycle.turn((Phase::OutOfStep, None)),
        },
        Phase::Navigating { ship } => match reply {
            Reply::Navigated(outcome) => cycle.on_navigation(ship, outcome),
            _ => cycle.turn((Phase::OutOfStep, None)),
        },
        Phase::Recovering { ship } => match reply {
            Reply::Settled => cycle.next_ship(ship),
            _ => cycle.turn((Phase::OutOfStep, None)),
        },
    }
}

} // verus!
