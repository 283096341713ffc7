use voidinvestor::model::{Ship, ShipCargoItem, ShipNavRoute, ShipNavStatus};
use voidinvestor::report::{get_time_till_arival, ship_info};

fn craft(status: ShipNavStatus) -> Ship {
    Ship {
        symbol: "YVONNE-1".to_string(),
        status,
        system: "X1-DC54".to_string(),
        waypoint: "X1-DC54-17335A".to_string(),
        route: ShipNavRoute {
            departure: "X1-DC54-17335A".to_string(),
            destination: "X1-DC54-89945X".to_string(),
            arrival: "2023-05-11T17:51:34.699Z".to_string(),
        },
        inventory: vec![ShipCargoItem { symbol: "IRON_ORE".to_string(), units: 12 }],
        capacity: 60,
        units: 12,
    }
}

#[test]
fn time_till_arrival_is_never_negative() {
    assert_eq!(get_time_till_arival(0), 0);
    assert_eq!(get_time_till_arival(1), 0);
    assert_eq!(get_time_till_arival(86400), 0);
    assert_eq!(get_time_till_arival(i64::MAX), 0);
}

#[test]
fn time_till_arrival_counts_the_seconds_left() {
    assert_eq!(get_time_till_arival(-1), 1);
    assert_eq!(get_time_till_arival(-75), 75);
    assert_eq!(get_time_till_arival(i64::MIN + 1), i64::MAX);
}

#[test]
fn docked_ship_line() {
    assert_eq!(
        ship_info(&craft(ShipNavStatus::Docked), 0),
        "ship YVONNE-1 is docked at X1-DC54-17335A 12/60"
    );
}

#[test]
fn orbiting_ship_line() {
    assert_eq!(
        ship_info(&craft(ShipNavStatus::InOrbit), 0),
        "ship YVONNE-1 is in orbit at X1-DC54-17335A"
    );
}

#[test]
fn travelling_ship_line() {
    assert_eq!(
        ship_info(&craft(ShipNavStatus::InTransit), 75),
        "ship: YVONNE-1 is traveling from X1-DC54-17335A to X1-DC54-89945X and will arive in 75"
    );
}

#[test]
fn numbers_in_lines_are_decimal() {
    let mut ship = craft(ShipNavStatus::Docked);
    ship.units = -3;
    ship.capacity = 2147483647;
    assert_eq!(ship_info(&ship, 0), "ship YVONNE-1 is docked at X1-DC54-17335A -3/2147483647");
}
