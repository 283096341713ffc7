//! The decisions about one ship: what to sell, how to mine, where to go.

use crate::command::{orders, Command, CommandView};
use crate::constants::{FALLBACK_WAYPOINT, MINING_TRAIT, RESERVED_RESOURCE};
use crate::model::{
    cargo_lines, chart, CargoLine, Ship, ShipCargoItem, ShipView, Waypoint, WaypointView,
};
use vstd::prelude::*;

verus! {

/// The order to sell one cargo line in full, or none for the reserved resource.
pub open spec fn sell_order(ship: Seq<char>, line: CargoLine) -> Option<CommandView> {
    if line.symbol == RESERVED_RESOURCE@ {
        None
    } else {
        Some(CommandView::Sell { ship: ship, symbol: line.symbol, units: line.units })
    }
}

/// The sales of a docked ship: one for every cargo line but those of the
/// reserved resource, in the order of the hold, each for all units of its line.
pub open spec fn sell_orders(ship: ShipView) -> Seq<CommandView> {
    ship.inventory.filter_map(|line: CargoLine| sell_order(ship.symbol, line))
}

/// The extraction of a docked ship: by no survey.
pub open spec fn mine_order(ship: ShipView) -> CommandView {
    CommandView::Extract { ship: ship.symbol, survey: None }
}

/// The order that sends a ship to a waypoint.
pub open spec fn navigate_order(ship: ShipView, waypoint: Seq<char>) -> CommandView {
    CommandView::Navigate { ship: ship.symbol, waypoint: waypoint }
}

/// Whether a waypoint is a place to mine.
pub open spec fn minable(waypoint: WaypointView) -> bool {
    waypoint.traits.contains(MINING_TRAIT@)
}

/// The symbol of the first waypoint from `from` on that is a place to mine, and
/// the fallback waypoint where there is none.
pub open spec fn mining_site_from(waypoints: Seq<WaypointView>, from: int) -> Seq<char>
    decreases waypoints.len() - from,
{
    if from < 0 || from >= waypoints.len() {
        FALLBACK_WAYPOINT@
    } else if minable(waypoints[from]) {
        waypoints[from].symbol
    } else {
        mining_site_from(waypoints, from + 1)
    }
}

/// The symbol of the first waypoint that is a place to mine, and the fallback
/// waypoint where there is none.
pub open spec fn mining_site(waypoints: Seq<WaypointView>) -> Seq<char> {
    mining_site_from(waypoints, 0)
}

/// The units of `symbol` in a hold, over all its lines.
pub open spec fn cargo_amount(inventory: Seq<CargoLine>, symbol: Seq<char>) -> int
    decreases inventory.len(),
{
    if inventory.len() == 0 {
        0
    } else if inventory.last().symbol == symbol {
        cargo_amount(inventory.drop_last(), symbol) + inventory.last().units
    } else {
        cargo_amount(inventory.drop_last(), symbol)
    }
}

/// The sales of a docked ship, in the order in which they are to be made. A
/// sale that fails does not hold up those after it.
pub fn auto_sell(ship: &Ship) -> (sales: Vec<Command>)
    ensures
        orders(sales@) == sell_orders(ship@),
{
    let reserved: String = RESERVED_RESOURCE.to_owned();
    let mut sales: Vec<Command> = Vec::new();
    let ghost lines = ship@.inventory;
    let ghost pick = |line: CargoLine| sell_order(ship@.symbol, line);
    let mut i: usize = 0;
    while i < ship.inventory.len()
        invariant
            i <= ship.inventory.len(),
            reserved@ == RESERVED_RESOURCE@,
            lines == ship@.inventory,
            lines.len() == ship.inventory.len(),
            pick == |line: CargoLine| sell_order(ship@.symbol, line),
            orders(sales@) == lines.take(i as int).filter_map(pick),
        decreases ship.inventory.len() - i,
    {
        let line = &ship.inventory[i];
        proof {
            lines.lemma_filter_map_take_succ(pick, i as int);
            assert(lines[i as int] == line@);
        }
        if line.symbol != reserved {
            let ghost before = orders(sales@);
            let order = Command::Sell {
                ship: ship.symbol.clone(),
                symbol: line.symbol.clone(),
                units: line.units,
            };
            sales.push(order);
            assert(orders(sales@) == before + seq![order@]);
        }
        i = i + 1;
    }
    assert(lines.take(i as int) == lines);
    sales
}

/// The extraction of a docked ship. No survey goes with it.
pub fn auto_mine(ship: &Ship) -> (order: Command)
    ensures
        order@ == mine_order(ship@),
{
    Command::Extract { ship: ship.symbol.clone(), survey: None }
}

/// The order that sends `ship` to `waypoint`.
pub fn navigate_to(ship: &Ship, waypoint: &str) -> (order: Command)
    ensures
        order@ == navigate_order(ship@, waypoint@),
{
    Command::Navigate { ship: ship.symbol.clone(), waypoint: waypoint.to_owned() }
}

/// Whether `waypoint` is a place to mine.
pub fn is_minable(waypoint: &Waypoint) -> (found: bool)
    ensures
        found == minable(waypoint@),
{
    let wanted: String = MINING_TRAIT.to_owned();
    let mut i: usize = 0;
    while i < waypoint.traits.len()
        invariant
            i <= waypoint.traits.len(),
            wanted@ == MINING_TRAIT@,
            waypoint@.traits.len() == waypoint.traits.len(),
            forall|j: int| 0 <= j < i ==> waypoint@.traits[j] != MINING_TRAIT@,
        decreases waypoint.traits.len() - i,
    {
        if waypoint.traits[i] == wanted {
            assert(waypoint@.traits[i as int] == MINING_TRAIT@);
            return true;
        }
        i = i + 1;
    }
    false
}

/// Picks the waypoint to mine at among those of a system: the first that is a
/// place to mine, and the fallback waypoint where none is.
pub fn find_sutable_mine_planet(waypoints: &Vec<Waypoint>) -> (symbol: String)
    ensures
        symbol@ == mining_site(chart(waypoints@)),
{
    let mut i: usize = 0;
    while i < waypoints.len()
        invariant
            i <= waypoints.len(),
            chart(waypoints@).len() == waypoints.len(),
            mining_site(chart(waypoints@)) == mining_site_from(chart(waypoints@), i as int),
        decreases waypoints.len() - i,
    {
        assert(chart(waypoints@)[i as int] == waypoints[i as int]@);
        if is_minable(&waypoints[i]) {
            return waypoints[i].symbol.clone();
        }
        i = i + 1;
    }
    FALLBACK_WAYPOINT.to_owned()
}

/// The units of `symbol` in a hold, over all its lines. The count has to fit
/// the result at every line.
pub fn get_cargo_amount(cargo: &Vec<ShipCargoItem>, symbol: &str) -> (total: i32)
    requires
        forall|k: int|
            0 <= k <= cargo.len() ==> i32::MIN <= #[trigger] cargo_amount(
                cargo_lines(cargo@).take(k),
                symbol@,
            ) <= i32::MAX,
    ensures
        total == cargo_amount(cargo_lines(cargo@), symbol@),
{
    let wanted: String = symbol.to_owned();
    let ghost lines = cargo_lines(cargo@);
    let mut total: i32 = 0;
    let mut i: usize = 0;
    while i < cargo.len()
        invariant
            i <= cargo.len(),
            wanted@ == symbol@,
            lines == cargo_lines(cargo@),
            lines.len() == cargo.len(),
            total == cargo_amount(lines.take(i as int), symbol@),
            forall|k: int|
                0 <= k <= cargo.len() ==> i32::MIN <= #[trigger] cargo_amount(
                    lines.take(k),
                    symbol@,
                ) <= i32::MAX,
        decreases cargo.len() - i,
    {
        proof {
            assert(lines.take(i + 1).drop_last() == lines.take(i as int));
            assert(lines.take(i + 1).last() == cargo[i as int]@);
            assert(i32::MIN <= cargo_amount(lines.take(i + 1), symbol@) <= i32::MAX);
        }
        if cargo[i].symbol == wanted {
            total = total + cargo[i].units;
        }
        i = i + 1;
    }
    assert(lines.take(i as int) == lines);
    total
}

/// The reserved resource is in no sale, whatever the hold has.
pub proof fn law_reserved_resource_is_never_sold(ship: ShipView, k: int)
    requires
        0 <= k < sell_orders(ship).len(),
    ensures
        (sell_orders(ship)[k] matches CommandView::Sell { ship: seller, symbol, .. }
            && seller == ship.symbol && symbol != RESERVED_RESOURCE@),
{
    let pick = |line: CargoLine| sell_order(ship.symbol, line);
    let order = sell_orders(ship)[k];
    assert(sell_orders(ship).contains(order));
    ship.inventory.lemma_filter_map_contains(pick, order);
}

/// Every cargo line of another resource is sold, for all its units.
pub proof fn law_other_resources_are_sold(ship: ShipView, i: int)
    requires
        0 <= i < ship.inventory.len(),
        ship.inventory[i].symbol != RESERVED_RESOURCE@,
    ensures
        sell_orders(ship).contains(
            CommandView::Sell {
                ship: ship.symbol,
                symbol: ship.inventory[i].symbol,
                units: ship.inventory[i].units,
            },
        ),
{
    let pick = |line: CargoLine| sell_order(ship.symbol, line);
    lemma_filter_map_keeps(ship.inventory, pick, i);
}

/// What `pick` makes of an element of a sequence is in what it makes of the
/// sequence.
proof fn lemma_filter_map_keeps<A, B>(s: Seq<A>, pick: spec_fn(A) -> Option<B>, i: int)
    requires
        0 <= i < s.len(),
        pick(s[i]) is Some,
    ensures
        s.filter_map(pick).contains(pick(s[i]).unwrap()),
    decreases s.len(),
{
    let rest = s.drop_last();
    if i == s.len() - 1 {
        let made = rest.filter_map(pick) + seq![pick(s[i]).unwrap()];
        assert(made[made.len() - 1] == pick(s[i]).unwrap());
    } else {
        lemma_filter_map_keeps(rest, pick, i);
        let found = rest.filter_map(pick);
        let at = choose|j: int| 0 <= j < found.len() && found[j] == pick(s[i]).unwrap();
        match pick(s.last()) {
            Some(b) => {
                assert((found + seq![b])[at] == pick(s[i]).unwrap());
            },
            None => {},
        }
    }
}

/// A ship is always mined without a survey.
pub proof fn law_mining_omits_survey(ship: ShipView)
    ensures
        (mine_order(ship) matches CommandView::Extract { survey, .. } && survey is None),
{
}

/// The mining site is a waypoint of the list that is a place to mine, with none
/// such before it, or it is the fallback waypoint and no waypoint of the list
/// is a place to mine.
pub proof fn law_mining_site_is_first_minable(waypoints: Seq<WaypointView>)
    ensures
        (exists|i: int|
            0 <= i < waypoints.len() && minable(#[trigger] waypoints[i]) && mining_site(waypoints)
                == waypoints[i].symbol && forall|j: int|
                0 <= j < i ==> !minable(#[trigger] waypoints[j])) || (mining_site(waypoints)
            == FALLBACK_WAYPOINT@ && forall|j: int|
            0 <= j < waypoints.len() ==> !minable(#[trigger] waypoints[j])),
{
    lemma_mining_site_from(waypoints, 0);
}

proof fn lemma_mining_site_from(waypoints: Seq<WaypointView>, from: int)
    requires
        0 <= from <= waypoints.len(),
    ensures
        (exists|i: int|
            from <= i < waypoints.len() && minable(#[trigger] waypoints[i]) && mining_site_from(
                waypoints,
                from,
            ) == waypoints[i].symbol && forall|j: int|
                from <= j < i ==> !minable(#[trigger] waypoints[j])) || (mining_site_from(
            waypoints,
            from,
        ) == FALLBACK_WAYPOINT@ && forall|j: int|
            from <= j < waypoints.len() ==> !minable(#[trigger] waypoints[j])),
    decreases waypoints.len() - from,
{
    if from < waypoints.len() {
        if minable(waypoints[from]) {
        } else {
            lemma_mining_site_from(waypoints, from + 1);
        }
    }
}

} // verus!
