//! The status line of a ship, for the console.

use crate::model::{Ship, ShipNavStatus, ShipView};
use vstd::prelude::*;
use vstd::string::*;

verus! {

/// The text that `i64::to_string` writes for a number.
pub uninterp spec fn decimal(number: int) -> Seq<char>;

/// `i64::to_string`. The contract claims only that the text depends on the
/// number alone; what the text is, is not stated.
#[verifier::external_body]
fn number_text(number: i64) -> (text: String)
    ensures
        text@ == decimal(number as int),
{
    number.to_string()
}

/// The seconds until a ship arrives, given the seconds since the time of its
/// arrival, which are negative while it is on its way: none once it is there.
pub open spec fn time_till_arrival(since_arrival: int) -> int {
    if since_arrival >= 0 {
        0
    } else {
        -since_arrival
    }
}

/// The seconds until a ship arrives; see `time_till_arrival`.
pub fn get_time_till_arival(since_arrival: i64) -> (left: i64)
    requires
        since_arrival > i64::MIN,
    ensures
        left == time_till_arrival(since_arrival as int),
{
    if since_arrival >= 0 {
        0
    } else {
        -since_arrival
    }
}

/// The status line of a ship. One in transit is shown with the seconds until
/// it arrives.
pub open spec fn status_line(ship: ShipView, seconds_left: int) -> Seq<char> {
    match ship.status {
        ShipNavStatus::Docked => "ship "@ + ship.symbol + " is docked at "@ + ship.waypoint + " "@
            + decimal(ship.units) + "/"@ + decimal(ship.capacity),
        ShipNavStatus::InOrbit => "ship "@ + ship.symbol + " is in orbit at "@ + ship.waypoint,
        ShipNavStatus::InTransit => "ship: "@ + ship.symbol + " is traveling from "@
            + ship.route.departure + " to "@ + ship.route.destination + " and will arive in "@
            + decimal(seconds_left),
    }
}

/// Writes the status line of `ship`.
pub fn ship_info(ship: &Ship, seconds_left: i64) -> (line: String)
    ensures
        line@ == status_line(ship@, seconds_left as int),
{
    match ship.status {
        ShipNavStatus::Docked => {
            let mut line = String::from_str("ship ");
            line.append(ship.symbol.as_str());
            line.append(" is docked at ");
            line.append(ship.waypoint.as_str());
            line.append(" ");
            line.append(number_text(ship.units as i64).as_str());
            line.append("/");
            line.append(number_text(ship.capacity as i64).as_str());
            line
        },
        ShipNavStatus::InOrbit => {
            let mut line = String::from_str("ship ");
            line.append(ship.symbol.as_str());
            line.append(" is in orbit at ");
            line.append(ship.waypoint.as_str());
            line
        },
        ShipNavStatus::InTransit => {
            let mut line = String::from_str("ship: ");
            line.append(ship.symbol.as_str());
            line.append(" is traveling from ");
            line.append(ship.route.departure.as_str());
            line.append(" to ");
            line.append(ship.route.destination.as_str());
            line.append(" and will arive in ");
            line.append(number_text(seconds_left).as_str());
            line
        },
    }
}

} // verus!
