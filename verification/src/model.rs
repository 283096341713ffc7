//! Snapshots of what the remote service owns: ships, waypoints, the agent.
//! They are read once per cycle and never changed here.

use vstd::prelude::*;

verus! {

/// Where a ship is in its navigation.
#[derive(Clone, Copy, Debug, PartialEq, Eq, Structural)]
pub enum ShipNavStatus {
    Docked,
    InOrbit,
    InTransit,
}

/// One line of a ship's cargo.
#[derive(Clone, Debug, PartialEq, Eq)]
pub struct ShipCargoItem {
    pub symbol: String,
    pub units: i32,
}

/// A cargo line as a mathematical value.
pub ghost struct CargoLine {
    pub symbol: Seq<char>,
    pub units: int,
}

impl View for ShipCargoItem {
    type V = CargoLine;

    open spec fn view(&self) -> CargoLine {
        CargoLine { symbol: self.symbol@, units: self.units as int }
    }
}

/// The route that a ship is on, or was last on.
#[derive(Clone, Debug, PartialEq, Eq)]
pub struct ShipNavRoute {
    pub departure: String,
    pub destination: String,
    /// The time of arrival, as the service wrote it.
    pub arrival: String,
}

pub ghost struct RouteView {
    pub departure: Seq<char>,
    pub destination: Seq<char>,
    pub arrival: Seq<char>,
}

impl View for ShipNavRoute {
    type V = RouteView;

    open spec fn view(&self) -> RouteView {
        RouteView {
            departure: self.departure@,
            destination: self.destination@,
            arrival: self.arrival@,
        }
    }
}

/// A ship of the fleet.
#[derive(Clone, Debug, PartialEq, Eq)]
pub struct Ship {
    pub symbol: String,
    pub status: ShipNavStatus,
    /// The system that the ship is in.
    pub system: String,
    /// The waypoint that the ship is at.
    pub waypoint: String,
    pub route: ShipNavRoute,
    /// The cargo lines, in the order of the service.
    pub inventory: Vec<ShipCargoItem>,
    /// Units that the hold can take.
    pub capacity: i32,
    /// Units that the hold has.
    pub units: i32,
}

pub ghost struct ShipView {
    pub symbol: Seq<char>,
    pub status: ShipNavStatus,
    pub system: Seq<char>,
    pub waypoint: Seq<char>,
    pub route: RouteView,
    pub inventory: Seq<CargoLine>,
    pub capacity: int,
    pub units: int,
}

/// The cargo lines of a hold as mathematical values.
pub open spec fn cargo_lines(inventory: Seq<ShipCargoItem>) -> Seq<CargoLine> {
    Seq::new(inventory.len(), |i: int| inventory[i]@)
}

impl View for Ship {
    type V = ShipView;

    open spec fn view(&self) -> ShipView {
        ShipView {
            symbol: self.symbol@,
            status: self.status,
            system: self.system@,
            waypoint: self.waypoint@,
            route: self.route@,
            inventory: cargo_lines(self.inventory@),
            capacity: self.capacity as int,
            units: self.units as int,
        }
    }
}

/// The ships of a page as mathematical values.
pub open spec fn fleet(ships: Seq<Ship>) -> Seq<ShipView> {
    Seq::new(ships.len(), |i: int| ships[i]@)
}

/// A place in a system.
#[derive(Clone, Debug, PartialEq, Eq)]
pub struct Waypoint {
    pub symbol: String,
    /// The symbols of the waypoint's traits.
    pub traits: Vec<String>,
}

pub ghost struct WaypointView {
    pub symbol: Seq<char>,
    pub traits: Seq<Seq<char>>,
}

impl View for Waypoint {
    type V = WaypointView;

    open spec fn view(&self) -> WaypointView {
        WaypointView {
            symbol: self.symbol@,
            traits: Seq::new(self.traits@.len(), |i: int| self.traits@[i]@),
        }
    }
}

/// The waypoints of a page as mathematical values.
pub open spec fn chart(waypoints: Seq<Waypoint>) -> Seq<WaypointView> {
    Seq::new(waypoints.len(), |i: int| waypoints[i]@)
}

/// How rich the deposits of a survey are.
#[derive(Clone, Copy, Debug, PartialEq, Eq, Structural)]
pub enum SurveySize {
    Small,
    Moderate,
    Large,
}

/// A survey of a waypoint, by which an extraction can be aimed.
#[derive(Clone, Debug, PartialEq, Eq)]
pub struct Survey {
    pub signature: String,
    /// The waypoint that was surveyed.
    pub symbol: String,
    /// The symbols of the resources that were found.
    pub deposits: Vec<String>,
    /// The time until which the survey holds, as the service wrote it.
    pub expiration: String,
    pub size: SurveySize,
}

pub ghost struct SurveyView {
    pub signature: Seq<char>,
    pub symbol: Seq<char>,
    pub deposits: Seq<Seq<char>>,
    pub expiration: Seq<char>,
    pub size: SurveySize,
}

impl View for Survey {
    type V = SurveyView;

    open spec fn view(&self) -> SurveyView {
        SurveyView {
            signature: self.signature@,
            symbol: self.symbol@,
            deposits: Seq::new(self.deposits@.len(), |i: int| self.deposits@[i]@),
            expiration: self.expiration@,
            size: self.size,
        }
    }
}

/// The account that the session belongs to.
#[derive(Clone, Debug, PartialEq, Eq)]
pub struct Agent {
    pub symbol: String,
    pub credits: i64,
}

/// What a sale brought: the resource sold and the units of it.
#[derive(Clone, Debug, PartialEq, Eq)]
pub struct Sale {
    pub symbol: String,
    pub units: i32,
}

/// What an extraction yielded.
#[derive(Clone, Debug, PartialEq, Eq)]
pub struct Extraction {
    pub symbol: String,
    pub units: i32,
}

/// A route that the service accepted.
#[derive(Clone, Debug, PartialEq, Eq)]
pub struct Transit {
    pub destination: String,
}

} // verus!
