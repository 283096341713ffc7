use voidinvestor::constants::{
    CARGO_FULL, COOLDOWN, INSUFFICIENT_FUEL, INVALID_MINING_SITE, NOT_IN_ORBIT, SESSION_INVALID,
    SESSION_PENDING,
};
use voidinvestor::policy::{judge_session, recover, Operation, Recovery, SessionVerdict};

#[test]
fn codes_have_the_values_of_the_service() {
    assert_eq!(CARGO_FULL, 4228);
    assert_eq!(INVALID_MINING_SITE, 4205);
    assert_eq!(INSUFFICIENT_FUEL, 4203);
    assert_eq!(NOT_IN_ORBIT, 4204);
    assert_eq!(SESSION_INVALID, 4104);
    assert_eq!(SESSION_PENDING, 4103);
    assert_eq!(COOLDOWN, 4000);
}

#[test]
fn recovery_table_entries() {
    assert_eq!(recover(Operation::Extract, 4228), Recovery::Unload);
    assert_eq!(recover(Operation::Extract, 4205), Recovery::Prospect);
    assert_eq!(recover(Operation::Navigate, 4203), Recovery::Refuel);
    assert_eq!(recover(Operation::Navigate, 4204), Recovery::Orbit);
}

#[test]
fn recovery_is_keyed_by_operation() {
    assert_eq!(recover(Operation::Navigate, 4228), Recovery::Nothing);
    assert_eq!(recover(Operation::Navigate, 4205), Recovery::Nothing);
    assert_eq!(recover(Operation::Extract, 4203), Recovery::Nothing);
    assert_eq!(recover(Operation::Extract, 4204), Recovery::Nothing);
    assert_eq!(recover(Operation::Sell, 4228), Recovery::Nothing);
    assert_eq!(recover(Operation::GetAgent, 4204), Recovery::Nothing);
}

#[test]
fn recovery_of_other_codes_is_nothing() {
    for code in [0, 1, -1, 4000, 4103, 4104, 4202, 4206, 4227, 4229, i32::MAX, i32::MIN] {
        assert_eq!(recover(Operation::Extract, code), Recovery::Nothing);
        assert_eq!(recover(Operation::Navigate, code), Recovery::Nothing);
        assert_eq!(recover(Operation::Sell, code), Recovery::Nothing);
        assert_eq!(recover(Operation::GetAgent, code), Recovery::Nothing);
    }
}

#[test]
fn session_verdicts() {
    assert_eq!(judge_session(4104), SessionVerdict::Register);
    assert_eq!(judge_session(4103), SessionVerdict::Skip);
    assert_eq!(judge_session(0), SessionVerdict::Skip);
    assert_eq!(judge_session(4228), SessionVerdict::Skip);
}
