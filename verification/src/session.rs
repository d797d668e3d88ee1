//! The mouse session: owns the one input report of the device and produces
//! the payloads that the transport notifies to the host.
//!
//! The session is deliberately stateless about click duration: buttons stay
//! set until a later report overwrites them, so callers release a button by
//! sending a zero mask. Connection state is owned by the BLE stack; callers
//! read it there and the driver takes it as an input.

use vstd::prelude::*;
use crate::report::MouseReport;
use crate::report::MAX_BUTTON_MASK;

verus! {

/// Default minimum spacing between two notified reports, in milliseconds: a
/// flow-control guard against overrunning the host's notification pipeline,
/// not a protocol requirement.
pub const DEFAULT_MIN_REPORT_SPACING_MS: u32 = 7;

/// The report state a `move_by` with the given arguments leaves behind: the
/// four motion fields overwritten, buttons kept.
pub open spec fn moved(s: MouseReport, dx: i8, dy: i8, wheel: i8, hwheel: i8) -> MouseReport {
    MouseReport { x: dx, y: dy, wheel: wheel, horizontal_wheel: hwheel, ..s }
}

/// The report state a `click` with the given mask leaves behind: the buttons
/// overwritten, motion kept.
pub open spec fn clicked(s: MouseReport, mask: u8) -> MouseReport {
    MouseReport { buttons: mask, ..s }
}

/// One mouse session: the single input report it owns, plus the spacing the
/// transport must keep between notified reports.
pub struct MouseSession {
    /// Current report state; starts all zero, mutated in place on every
    /// click and move, never reset except by an explicit zeroing call.
    pub report: MouseReport,
    /// Minimum inter-report spacing in milliseconds: configuration for the
    /// transport layer, not enforced here.
    pub min_report_spacing_ms: u32,
}

impl MouseSession {
    /// A session is valid when its report is.
    pub open spec fn wf(self) -> bool {
        self.report.wf()
    }

    /// A fresh session: all-zero report, default report spacing.
    pub fn new() -> (s: MouseSession)
        ensures
            s.report == (MouseReport { buttons: 0, x: 0, y: 0, wheel: 0, horizontal_wheel: 0 }),
            s.min_report_spacing_ms == DEFAULT_MIN_REPORT_SPACING_MS,
            s.wf(),
    {
        MouseSession {
            report: MouseReport::new(),
            min_report_spacing_ms: DEFAULT_MIN_REPORT_SPACING_MS,
        }
    }

    /// Overwrite the buttons and hand back the payload to notify. The host
    /// then observes the new button state until a later report overwrites
    /// it; callers simulate a release by clicking with a zero mask.
    pub fn click(&mut self, mask: u8) -> (payload: Vec<u8>)
        requires
            mask <= MAX_BUTTON_MASK,
            old(self).wf(),
        ensures
            final(self).report == clicked(old(self).report, mask),
            final(self).min_report_spacing_ms == old(self).min_report_spacing_ms,
            final(self).wf(),
            payload@ == final(self).report.wire_bytes(),
            payload@.len() == 5,
    {
        self.report.set_buttons(mask);
        self.report.encode()
    }

    /// Overwrite the motion fields and hand back the payload to notify.
    pub fn move_by(&mut self, dx: i8, dy: i8, wheel: i8, hwheel: i8) -> (payload: Vec<u8>)
        requires
            dx != i8::MIN,
            dy != i8::MIN,
            wheel != i8::MIN,
            hwheel != i8::MIN,
            old(self).wf(),
        ensures
            final(self).report == moved(old(self).report, dx, dy, wheel, hwheel),
            final(self).min_report_spacing_ms == old(self).min_report_spacing_ms,
            final(self).wf(),
            payload@ == final(self).report.wire_bytes(),
            payload@.len() == 5,
    {
        self.report.set_motion(dx, dy, wheel, hwheel);
        self.report.encode()
    }

    /// The wire image of the current state, without changing it.
    pub fn transmit_payload(&self) -> (payload: Vec<u8>)
        ensures
            payload@ == self.report.wire_bytes(),
            payload@.len() == 5,
    {
        self.report.encode()
    }
}

/// Idempotence of a state read: two `move_by` calls with the same arguments
/// leave the same report state behind, so the two payloads they hand back
/// are byte-identical.
pub proof fn lemma_move_by_idempotent(s: MouseReport, dx: i8, dy: i8, wheel: i8, hwheel: i8)
    ensures
        moved(moved(s, dx, dy, wheel, hwheel), dx, dy, wheel, hwheel) == moved(
            s,
            dx,
            dy,
            wheel,
            hwheel,
        ),
        moved(moved(s, dx, dy, wheel, hwheel), dx, dy, wheel, hwheel).wire_bytes() == moved(
            s,
            dx,
            dy,
            wheel,
            hwheel,
        ).wire_bytes(),
{
}

} // verus!
