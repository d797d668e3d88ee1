//! The in-memory input report and its wire encoding.
//!
//! One report is a snapshot of five fields; on the wire it is exactly five
//! bytes, packed in declared order with no padding:
//! `[buttons: u8][x: i8][y: i8][wheel: i8][horizontal_wheel: i8]`.
//! The host parses this payload positionally against the report descriptor,
//! so the layout here and the descriptor must agree byte for byte.

use vstd::prelude::*;

verus! {

/// Largest valid button mask: five button bits (left, right, middle,
/// back, forward); the three upper bits are reserved and must be zero.
pub const MAX_BUTTON_MASK: u8 = 0x1F;

/// One snapshot of mouse input state.
#[derive(Clone, Copy, PartialEq, Eq, Structural, Debug)]
pub struct MouseReport {
    /// Button bitfield, bit 0 = left ... bit 4 = forward; upper bits zero.
    pub buttons: u8,
    /// Relative horizontal displacement, in [-127, 127].
    pub x: i8,
    /// Relative vertical displacement, in [-127, 127].
    pub y: i8,
    /// Relative vertical scroll, in [-127, 127].
    pub wheel: i8,
    /// Relative horizontal scroll (AC Pan), in [-127, 127].
    pub horizontal_wheel: i8,
}

impl MouseReport {
    /// A valid report: reserved button bits are zero and every motion field
    /// lies in the declared logical range [-127, 127] (so never -128).
    pub open spec fn wf(self) -> bool {
        &&& self.buttons <= MAX_BUTTON_MASK
        &&& self.x != i8::MIN
        &&& self.y != i8::MIN
        &&& self.wheel != i8::MIN
        &&& self.horizontal_wheel != i8::MIN
    }

    /// The 5-byte wire image of a report: the five fields in declared order,
    /// signed fields in two's complement.
    pub open spec fn wire_bytes(self) -> Seq<u8> {
        seq![
            self.buttons,
            self.x as u8,
            self.y as u8,
            self.wheel as u8,
            self.horizontal_wheel as u8,
        ]
    }

    /// The all-zero report every session starts from.
    pub fn new() -> (r: MouseReport)
        ensures
            r == (MouseReport { buttons: 0, x: 0, y: 0, wheel: 0, horizontal_wheel: 0 }),
            r.wf(),
    {
        MouseReport { buttons: 0, x: 0, y: 0, wheel: 0, horizontal_wheel: 0 }
    }

    /// Overwrite the button bitfield. Masks beyond the five button bits are a
    /// caller error and are rejected here rather than truncated.
    pub fn set_buttons(&mut self, mask: u8)
        requires
            mask <= MAX_BUTTON_MASK,
        ensures
            *final(self) == (MouseReport { buttons: mask, ..*old(self) }),
    {
        self.buttons = mask;
    }

    /// Overwrite the four motion fields; buttons are left as they are.
    pub fn set_motion(&mut self, dx: i8, dy: i8, wheel: i8, hwheel: i8)
        requires
            dx != i8::MIN,
            dy != i8::MIN,
            wheel != i8::MIN,
            hwheel != i8::MIN,
        ensures
            *final(self) == (MouseReport {
                x: dx,
                y: dy,
                wheel: wheel,
                horizontal_wheel: hwheel,
                ..*old(self)
            }),
    {
        self.x = dx;
        self.y = dy;
        self.wheel = wheel;
        self.horizontal_wheel = hwheel;
    }

    /// Serialize the report to its wire format: exactly five bytes, no
    /// padding beyond what the descriptor declares.
    pub fn encode(&self) -> (r: Vec<u8>)
        ensures
            r@ == self.wire_bytes(),
            r@.len() == 5,
    {
        let mut out: Vec<u8> = Vec::new();
        out.push(self.buttons);
        out.push(self.x as u8);
        out.push(self.y as u8);
        out.push(self.wheel as u8);
        out.push(self.horizontal_wheel as u8);
        proof {
            assert(out@ =~= self.wire_bytes());
        }
        out
    }
}

/// Range invariant: whatever the field values, a report's wire image is
/// exactly five bytes, with no padding beyond what the descriptor declares.
pub proof fn lemma_wire_length(r: MouseReport)
    ensures
        r.wire_bytes().len() == 5,
{
}

} // verus!
