//! The commands that the decision logic hands out for someone else to perform,
//! and the replies that come back.

use crate::model::{Agent, Extraction, Sale, Ship, Survey, SurveyView, Transit, Waypoint};
use crate::parsers::RemoteError;
use vstd::prelude::*;

verus! {

/// One operation to perform for the agent.
#[derive(Debug, PartialEq, Eq)]
pub enum Command {
    /// Fetch the agent, which shows whether the session is good.
    GetAgent,
    /// Register a new account.
    Register { callsign: String, faction: String },
    /// Write the token of a new account to the configuration.
    StoreToken { section: String, key: String, token: String },
    /// Fetch one page of the fleet.
    ListShips { page: i32, limit: i32 },
    /// Fetch one page of the waypoints of a system.
    ListWaypoints { system: String, page: i32, limit: i32 },
    Dock { ship: String },
    Orbit { ship: String },
    Refuel { ship: String },
    Navigate { ship: String, waypoint: String },
    /// Extract resources, aimed by a survey if one is given.
    Extract { ship: String, survey: Option<Survey> },
    /// Sell `units` of the resource `symbol` from the hold.
    Sell { ship: String, symbol: String, units: i32 },
}

/// A command as a mathematical value.
pub ghost enum CommandView {
    GetAgent,
    Register { callsign: Seq<char>, faction: Seq<char> },
    StoreToken { section: Seq<char>, key: Seq<char>, token: Seq<char> },
    ListShips { page: int, limit: int },
    ListWaypoints { system: Seq<char>, page: int, limit: int },
    Dock { ship: Seq<char> },
    Orbit { ship: Seq<char> },
    Refuel { ship: Seq<char> },
    Navigate { ship: Seq<char>, waypoint: Seq<char> },
    Extract { ship: Seq<char>, survey: Option<SurveyView> },
    Sell { ship: Seq<char>, symbol: Seq<char>, units: int },
}

impl View for Command {
    type V = CommandView;

    open spec fn view(&self) -> CommandView {
        match self {
            Command::GetAgent => CommandView::GetAgent,
            Command::Register { callsign, faction } => CommandView::Register {
                callsign: callsign@,
                faction: faction@,
            },
            Command::StoreToken { section, key, token } => CommandView::StoreToken {
                section: section@,
                key: key@,
                token: token@,
            },
            Command::ListShips { page, limit } => CommandView::ListShips {
                page: *page as int,
                limit: *limit as int,
            },
            Command::ListWaypoints { system, page, limit } => CommandView::ListWaypoints {
                system: system@,
                page: *page as int,
                limit: *limit as int,
            },
            Command::Dock { ship } => CommandView::Dock { ship: ship@ },
            Command::Orbit { ship } => CommandView::Orbit { ship: ship@ },
            Command::Refuel { ship } => CommandView::Refuel { ship: ship@ },
            Command::Navigate { ship, waypoint } => CommandView::Navigate {
                ship: ship@,
                waypoint: waypoint@,
            },
            Command::Extract { ship, survey } => CommandView::Extract {
                ship: ship@,
                survey: match survey {
                    Some(survey) => Some(survey@),
                    None => None,
                },
            },
            Command::Sell { ship, symbol, units } => CommandView::Sell {
                ship: ship@,
                symbol: symbol@,
                units: *units as int,
            },
        }
    }
}

/// The commands of a list as mathematical values.
pub open spec fn orders(commands: Seq<Command>) -> Seq<CommandView> {
    Seq::new(commands.len(), |i: int| commands[i]@)
}

/// A command that may be missing, as a mathematical value.
pub open spec fn issued(command: Option<Command>) -> Option<CommandView> {
    match command {
        Some(command) => Some(command@),
        None => None,
    }
}

/// What came back from performing a command.
#[derive(Debug, PartialEq, Eq)]
pub enum Reply {
    Agent(Result<Agent, RemoteError>),
    /// The token of the account that was registered.
    Registered(Result<String, RemoteError>),
    /// The token is written.
    Stored,
    Ships(Result<Vec<Ship>, RemoteError>),
    Waypoints(Result<Vec<Waypoint>, RemoteError>),
    /// A dock, orbit or refuel call has returned. How it ended is not looked at.
    Settled,
    Navigated(Result<Transit, RemoteError>),
    Extracted(Result<Extraction, RemoteError>),
    Sold(Result<Sale, RemoteError>),
}

} // verus!
