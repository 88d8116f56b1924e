//! The single-flight guard: at most one analysis at a time.
//!
//! The flag is a state machine with two states. An attempt on an idle flag
//! makes it busy and hands out a token; an attempt on a busy flag fails and
//! changes nothing. Giving the token back makes the flag idle again. The
//! owner of the flag keeps it behind a lock, so that attempts come one after
//! the other.

use vstd::prelude::*;

verus! {

/// The two states of the flag.
#[derive(Debug, Clone, Copy, PartialEq, Eq, Structural)]
pub enum FlightState {
    /// No analysis is in flight.
    Idle,
    /// One analysis is in flight.
    Busy,
}

/// The state after an attempt to acquire, and whether it succeeded.
pub open spec fn attempted(state: FlightState) -> (FlightState, bool) {
    (FlightState::Busy, state == FlightState::Idle)
}

/// The state after the token was given back.
pub open spec fn released(state: FlightState) -> FlightState {
    FlightState::Idle
}

/// The flag that says whether an analysis is in flight.
#[derive(Debug)]
pub struct AnalysisBusyFlag {
    state: FlightState,
}

/// The token of the one analysis in flight.
#[derive(Debug)]
pub struct AnalysisBusyGuard {
    token: (),
}

/// An analysis was asked for while one was in flight.
#[derive(Debug, Clone, Copy, PartialEq, Eq, Structural)]
pub struct BusyError;

impl BusyError {
    /// What is shown to the user.
    pub fn message(&self) -> (text: String)
        ensures
            text@ == "analysis already in progress"@,
    {
        "analysis already in progress".to_owned()
    }
}

impl AnalysisBusyFlag {
    /// The state of the flag.
    pub closed spec fn state(&self) -> FlightState {
        self.state
    }

    /// A flag with no analysis in flight.
    pub fn new() -> (flag: AnalysisBusyFlag)
        ensures
            flag.state() == FlightState::Idle,
    {
        AnalysisBusyFlag { state: FlightState::Idle }
    }

    /// Tells whether an analysis is in flight.
    pub fn is_busy(&self) -> (busy: bool)
        ensures
            busy == (self.state() == FlightState::Busy),
    {
        match self.state {
            FlightState::Idle => false,
            FlightState::Busy => true,
        }
    }
}

impl AnalysisBusyGuard {
    /// Takes the flag if it is idle. On a busy flag the attempt fails at
    /// once and the flag is left as it was.
    pub fn try_acquire(flag: &mut AnalysisBusyFlag) -> (out: Result<AnalysisBusyGuard, BusyError>)
        ensures
            final(flag).state() == attempted(old(flag).state()).0,
            out is Ok <==> attempted(old(flag).state()).1,
            out is Ok <==> old(flag).state() == FlightState::Idle,
            old(flag).state() == FlightState::Busy ==> final(flag).state() == old(flag).state(),
    {
        match flag.state {
            FlightState::Busy => Err(BusyError),
            FlightState::Idle => {
                flag.state = FlightState::Busy;
                Ok(AnalysisBusyGuard { token: () })
            },
        }
    }

    /// Gives the token back: the flag is idle afterwards, however the
    /// analysis ended.
    pub fn release(self, flag: &mut AnalysisBusyFlag)
        ensures
            final(flag).state() == released(old(flag).state()),
            final(flag).state() == FlightState::Idle,
    {
        flag.state = FlightState::Idle;
    }
}

/// Of two attempts in a row, the first on an idle flag succeeds and the
/// second fails and leaves the flag busy; once the token is given back, the
/// next attempt succeeds.
pub proof fn law_single_flight()
    ensures
        attempted(FlightState::Idle).1,
        !attempted(attempted(FlightState::Idle).0).1,
        attempted(attempted(FlightState::Idle).0).0 == FlightState::Busy,
        attempted(released(attempted(attempted(FlightState::Idle).0).0)).1,
{
}

/// Whatever the state, an attempt right after an attempt fails, and an
/// attempt right after a release succeeds.
pub proof fn law_attempts(state: FlightState)
    ensures
        !attempted(attempted(state).0).1,
        attempted(released(state)).1,
{
}

} // verus!
