//! Per-connection lifecycle of the BLE peripheral: advertise, serve the
//! attribute table until the peer leaves, then start over.
//!
//! The radio work itself happens outside; this module decides, from the
//! outcome of each unit of work, what the loop does next.
use vstd::prelude::*;

verus! {

/// Advertising flag: LE general discoverable mode.
pub const LE_GENERAL_DISCOVERABLE: u8 = 0x02;

/// Advertising flag: BR/EDR not supported.
pub const BR_EDR_NOT_SUPPORTED: u8 = 0x04;

/// Flags field of the advertising payload.
pub const ADVERTISING_FLAGS: u8 = 0x06;

/// The 16-bit service UUID listed in the advertising payload.
pub const ADVERTISED_UUID16: u16 = 0x1809;

/// The 128-bit UUID of the timer service and of its one characteristic.
pub const TIMER_UUID: &'static str = "937312e0-2354-11eb-9f10-fbc30a62cf38";

/// Where the peripheral is in its lifecycle.
#[derive(Clone, Copy, Debug, PartialEq, Eq, Structural)]
pub enum SessionState {
    Advertising,
    Connected,
    Teardown,
}

/// What one unit of work of the attribute server reported.
#[derive(Clone, Copy, Debug, PartialEq, Eq, Structural)]
pub enum WorkOutcome {
    /// Work was done; the link is up.
    DidWork,
    /// The peer disconnected.
    GotDisconnected,
    /// A transient fault of the attribute layer.
    Failed,
}

/// What the loop does next.
#[derive(Clone, Copy, Debug, PartialEq, Eq, Structural)]
pub enum SessionAction {
    /// Run the next unit of work.
    Pump,
    /// Log the fault, then run the next unit of work.
    ReportAndPump,
    /// Leave the session: the connection is over.
    EndSession,
    /// Set up the controller and advertise again.
    Advertise,
}

/// The lifecycle's transition table. Faults never end a session; only a
/// disconnect does, and teardown always leads back to advertising.
pub open spec fn next_spec(state: SessionState, outcome: WorkOutcome) -> (SessionState, SessionAction) {
    match state {
        SessionState::Teardown => (SessionState::Advertising, SessionAction::Advertise),
        _ => match outcome {
            WorkOutcome::GotDisconnected => (SessionState::Teardown, SessionAction::EndSession),
            WorkOutcome::Failed => (state, SessionAction::ReportAndPump),
            WorkOutcome::DidWork => (SessionState::Connected, SessionAction::Pump),
        },
    }
}

/// The state and action that follow `state` once a unit of work reported
/// `outcome`; in `Teardown` the outcome plays no part.
pub fn next(state: SessionState, outcome: WorkOutcome) -> (r: (SessionState, SessionAction))
    ensures
        r == next_spec(state, outcome),
{
    match state {
        SessionState::Teardown => (SessionState::Advertising, SessionAction::Advertise),
        _ => match outcome {
            WorkOutcome::GotDisconnected => (SessionState::Teardown, SessionAction::EndSession),
            WorkOutcome::Failed => (state, SessionAction::ReportAndPump),
            WorkOutcome::DidWork => (SessionState::Connected, SessionAction::Pump),
        },
    }
}

} // verus!
