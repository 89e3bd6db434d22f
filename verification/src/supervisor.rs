//! The supervisor: the sole owner of camera power transitions.
//!
//! On the same cadence as session ticks it reads the active-session count and
//! reconciles the frame source's power with it; the frame source itself never
//! decides to power on or off.

use vstd::prelude::*;

verus! {

/// What one reconciliation step tells the frame source to do.
#[derive(Clone, Copy, PartialEq, Eq, Structural, Debug)]
pub enum PowerAction {
    TurnOn,
    TurnOff,
    Keep,
}

/// The reconciliation rule: power on when sessions exist and the source is
/// off, power off when none exist and it is on, otherwise leave it alone.
pub open spec fn spec_reconcile(active: nat, powered: bool) -> PowerAction {
    if active > 0 && !powered {
        PowerAction::TurnOn
    } else if active == 0 && powered {
        PowerAction::TurnOff
    } else {
        PowerAction::Keep
    }
}

/// The power state after an action is applied.
pub open spec fn spec_apply(a: PowerAction, powered: bool) -> bool {
    match a {
        PowerAction::TurnOn => true,
        PowerAction::TurnOff => false,
        PowerAction::Keep => powered,
    }
}

/// One supervisor decision, as a function of what it read.
pub fn reconcile(active: usize, powered: bool) -> (a: PowerAction)
    ensures
        a == spec_reconcile(active as nat, powered),
{
    if active > 0 && !powered {
        PowerAction::TurnOn
    } else if active == 0 && powered {
        PowerAction::TurnOff
    } else {
        PowerAction::Keep
    }
}

/// Power follows the session count within one supervisor tick: whatever the
/// previous power state, after one reconciliation step the source is powered
/// exactly when the active count is positive. In particular a count
/// transition to zero powers it off, and a later start powers it back on, in
/// one tick each.
pub proof fn lemma_power_follows_count(active: nat, powered: bool)
    ensures
        spec_apply(spec_reconcile(active, powered), powered) == (active > 0),
{
}

} // verus!
