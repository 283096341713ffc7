//! The recovery policy: what to do about a classified error, given the
//! operation that it came from.

use crate::constants::{
    CARGO_FULL, INSUFFICIENT_FUEL, INVALID_MINING_SITE, NOT_IN_ORBIT, SESSION_INVALID,
};
use vstd::prelude::*;

verus! {

/// The kinds of operation whose outcome is classified.
#[derive(Clone, Copy, Debug, PartialEq, Eq, Structural)]
pub enum Operation {
    GetAgent,
    Navigate,
    Extract,
    Sell,
}

/// What is done about a failed operation.
#[derive(Clone, Copy, Debug, PartialEq, Eq, Structural)]
pub enum Recovery {
    /// Send the ship to the fallback waypoint, where it can unload.
    Unload,
    /// Look for a mining site in the ship's system and send the ship there.
    Prospect,
    /// Refuel the ship, and leave the route to the next cycle.
    Refuel,
    /// Bring the ship into orbit, and leave the route to the next cycle.
    Orbit,
    /// Nothing: the ship is seen again in the next cycle.
    Nothing,
}

/// The policy as a table. Every operation and every code has an entry.
pub open spec fn recovery(operation: Operation, code: int) -> Recovery {
    match operation {
        Operation::Extract => if code == CARGO_FULL {
            Recovery::Unload
        } else if code == INVALID_MINING_SITE {
            Recovery::Prospect
        } else {
            Recovery::Nothing
        },
        Operation::Navigate => if code == INSUFFICIENT_FUEL {
            Recovery::Refuel
        } else if code == NOT_IN_ORBIT {
            Recovery::Orbit
        } else {
            Recovery::Nothing
        },
        Operation::GetAgent => Recovery::Nothing,
        Operation::Sell => Recovery::Nothing,
    }
}

/// Selects the recovery for `code`, the error code of a failed `operation`.
pub fn recover(operation: Operation, code: i32) -> (action: Recovery)
    ensures
        action == recovery(operation, code as int),
{
    match operation {
        Operation::Extract => {
            if code == CARGO_FULL {
                Recovery::Unload
            } else if code == INVALID_MINING_SITE {
                Recovery::Prospect
            } else {
                Recovery::Nothing
            }
        },
        Operation::Navigate => {
            if code == INSUFFICIENT_FUEL {
                Recovery::Refuel
            } else if code == NOT_IN_ORBIT {
                Recovery::Orbit
            } else {
                Recovery::Nothing
            }
        },
        Operation::GetAgent => Recovery::Nothing,
        Operation::Sell => Recovery::Nothing,
    }
}

/// What is done about a session that the service did not accept.
#[derive(Clone, Copy, Debug, PartialEq, Eq, Structural)]
pub enum SessionVerdict {
    /// The account is gone: register once, and keep the new token.
    Register,
    /// Leave the fleet alone in this cycle.
    Skip,
}

/// The verdict on a failed fetch of the agent: only a session that belongs to
/// no account is registered anew.
pub open spec fn session_verdict(code: int) -> SessionVerdict {
    if code == SESSION_INVALID {
        SessionVerdict::Register
    } else {
        SessionVerdict::Skip
    }
}

/// Decides what follows a failed fetch of the agent.
pub fn judge_session(code: i32) -> (verdict: SessionVerdict)
    ensures
        verdict == session_verdict(code as int),
{
    if code == SESSION_INVALID {
        SessionVerdict::Register
    } else {
        SessionVerdict::Skip
    }
}

/// The policy is total, and its table is this: a full hold sends the ship to
/// unload, an invalid mining site sends it prospecting, too little fuel has it
/// refuelled, a docked ship is brought into orbit; every other code of
/// every operation leads to nothing.
pub proof fn law_recovery_table(operation: Operation, code: int)
    ensures
        recovery(Operation::Extract, 4228) == Recovery::Unload,
        recovery(Operation::Extract, 4205) == Recovery::Prospect,
        recovery(Operation::Navigate, 4203) == Recovery::Refuel,
        recovery(Operation::Navigate, 4204) == Recovery::Orbit,
        !(operation == Operation::Extract && (code == 4228 || code == 4205)) && !(operation
            == Operation::Navigate && (code == 4203 || code == 4204)) ==> recovery(operation, code)
            == Recovery::Nothing,
{
}

} // verus!
