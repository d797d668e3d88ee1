//! The motion driver: the decision core of the device's control loop.
//!
//! Each cycle it reads the connection state once. While a host is connected
//! it runs the whole scripted burst of four moves through the session, in
//! order, one payload per move; otherwise it does nothing. The connection is
//! re-checked once per cycle, not per move, so a burst runs to completion
//! even when the host disconnects in the middle of it; the transport then
//! drops the remaining notifications silently.

use vstd::prelude::*;
use crate::report::MouseReport;
use crate::session::MouseSession;
use crate::session::moved;

verus! {

/// Delay between two moves of a burst, in milliseconds: configuration for
/// the loop that runs the cycle.
pub const INTER_MOVE_DELAY_MS: u32 = 100;

/// Idle delay before the connection state is checked again, in milliseconds.
pub const IDLE_DELAY_MS: u32 = 60 * 1000;

/// One step of the scripted motion sequence.
#[derive(Clone, Copy, PartialEq, Eq, Structural, Debug)]
pub struct MotionStep {
    pub dx: i8,
    pub dy: i8,
    pub wheel: i8,
    pub hwheel: i8,
}

/// The driver's two states: idle with no host connected, active while one
/// is connected.
#[derive(Clone, Copy, PartialEq, Eq, Structural, Debug)]
pub enum DriverState {
    Idle,
    Active,
}

/// The state the driver is in for a cycle, given what the connection check
/// returned at the top of that cycle.
pub open spec fn spec_driver_state(connected: bool) -> DriverState {
    if connected {
        DriverState::Active
    } else {
        DriverState::Idle
    }
}

/// The scripted burst: four moves of amplitude 10, alternating sign, with no
/// scrolling. A stand-in for a real input source that exercises the whole
/// path from session state to notified payload.
pub open spec fn spec_burst() -> Seq<MotionStep> {
    seq![
        (MotionStep { dx: 10i8, dy: 10i8, wheel: 0i8, hwheel: 0i8 }),
        (MotionStep { dx: -10i8, dy: -10i8, wheel: 0i8, hwheel: 0i8 }),
        (MotionStep { dx: 10i8, dy: 10i8, wheel: 0i8, hwheel: 0i8 }),
        (MotionStep { dx: -10i8, dy: -10i8, wheel: 0i8, hwheel: 0i8 }),
    ]
}

/// The report state after the first `n` steps of a sequence, starting from
/// `s0`.
pub open spec fn state_after(s0: MouseReport, steps: Seq<MotionStep>, n: int) -> MouseReport
    decreases n,
{
    if n <= 0 {
        s0
    } else {
        let prev = state_after(s0, steps, n - 1);
        let step = steps[n - 1];
        moved(prev, step.dx, step.dy, step.wheel, step.hwheel)
    }
}

/// The exec counterpart of `spec_driver_state`.
pub fn driver_state(connected: bool) -> (r: DriverState)
    ensures
        r == spec_driver_state(connected),
{
    if connected {
        DriverState::Active
    } else {
        DriverState::Idle
    }
}

/// Build the scripted burst.
pub fn burst_steps() -> (r: Vec<MotionStep>)
    ensures
        r@ == spec_burst(),
        r@.len() == 4,
{
    let mut v: Vec<MotionStep> = Vec::new();
    v.push(MotionStep { dx: 10, dy: 10, wheel: 0, hwheel: 0 });
    v.push(MotionStep { dx: -10, dy: -10, wheel: 0, hwheel: 0 });
    v.push(MotionStep { dx: 10, dy: 10, wheel: 0, hwheel: 0 });
    v.push(MotionStep { dx: -10, dy: -10, wheel: 0, hwheel: 0 });
    proof {
        assert(v@ =~= spec_burst());
    }
    v
}

/// Run one driver cycle against the session. Connection gating: with no host
/// connected, no payload is produced and the session is untouched; with one
/// connected, the burst's four moves are applied in order and exactly one
/// payload per move is handed back, for the transport to notify in order.
pub fn run_cycle(session: &mut MouseSession, connected: bool) -> (payloads: Vec<Vec<u8>>)
    requires
        old(session).wf(),
    ensures
        final(session).wf(),
        final(session).min_report_spacing_ms == old(session).min_report_spacing_ms,
        !connected ==> payloads@.len() == 0 && *final(session) == *old(session),
        connected ==> {
            &&& payloads@.len() == spec_burst().len()
            &&& final(session).report == state_after(
                old(session).report,
                spec_burst(),
                spec_burst().len() as int,
            )
            &&& forall|k: int|
                0 <= k < payloads@.len() ==> #[trigger] payloads@[k]@ == state_after(
                    old(session).report,
                    spec_burst(),
                    k + 1,
                ).wire_bytes()
        },
{
    let mut payloads: Vec<Vec<u8>> = Vec::new();
    if !connected {
        return payloads;
    }
    let steps = burst_steps();
    let mut k: usize = 0;
    while k < steps.len()
        invariant
            steps@ == spec_burst(),
            k <= steps@.len(),
            session.wf(),
            session.min_report_spacing_ms == old(session).min_report_spacing_ms,
            session.report == state_after(old(session).report, spec_burst(), k as int),
            payloads@.len() == k,
            forall|j: int|
                0 <= j < k ==> #[trigger] payloads@[j]@ == state_after(
                    old(session).report,
                    spec_burst(),
                    j + 1,
                ).wire_bytes(),
        decreases steps@.len() - k,
    {
        let step = steps[k];
        assert(step == spec_burst()[k as int]);
        assert(step.dx != i8::MIN && step.dy != i8::MIN && step.wheel != i8::MIN && step.hwheel
            != i8::MIN);
        let p = session.move_by(step.dx, step.dy, step.wheel, step.hwheel);
        payloads.push(p);
        k = k + 1;
    }
    payloads
}

} // verus!
