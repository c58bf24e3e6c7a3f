//! One controller session: its identifier, connection state and its LED
//! SysEx frame.
//!
//! The frame is the fixed-layout outbound message the hardware expects:
//! a 7-byte header, 64 pad entries of 4 bytes each (pad index, red, green,
//! blue) and a terminator byte. The pad-index bytes are written once and
//! never change; only the three color bytes of each entry are mutable, and
//! every color byte is clamped to the 7-bit range the wire format allows.

use vstd::prelude::*;
use crate::events::ButtonState;
use crate::events::ControllerEvent;

verus! {

/// Total size of the LED SysEx frame: 7 header bytes, 4 bytes for each of
/// the 64 pads, and one terminator byte.
pub const FRAME_LEN: usize = 7 + 4 * 64 + 1;

/// Payload length carried in the header: 4 bytes for each of the 64 pads.
pub const FRAME_PAYLOAD_LEN: u16 = 4 * 64;

/// High 7 bits of a 14-bit payload length, as the wire format splits it.
pub open spec fn seven_bit_hi(n: u16) -> u8 {
    ((n >> 7) & 0x7f) as u8
}

/// Low 7 bits of a 14-bit payload length.
pub open spec fn seven_bit_lo(n: u16) -> u8 {
    (n & 0x7f) as u8
}

/// Position of pad `i`'s entry (its index byte) inside the frame.
pub open spec fn pad_pos(i: int) -> int {
    7 + 4 * i
}

/// A color value clamped to the 7-bit range 0..=127.
pub open spec fn clamp7(c: u8) -> u8 {
    if c > 127 {
        127
    } else {
        c
    }
}

/// Well-formedness of a frame: exact header, immutable pad-index bytes,
/// terminator, and every color byte inside the 7-bit range.
pub open spec fn frame_wf(f: Seq<u8>) -> bool {
    &&& f.len() == FRAME_LEN
    &&& f[0] == 0xf0
    &&& f[1] == 0x47
    &&& f[2] == 0x7f
    &&& f[3] == 0x43
    &&& f[4] == 0x65
    &&& f[5] == seven_bit_hi(FRAME_PAYLOAD_LEN)
    &&& f[6] == seven_bit_lo(FRAME_PAYLOAD_LEN)
    &&& f[FRAME_LEN - 1] == 0xf7
    &&& forall|i: int| 0 <= i < 64 ==> f[pad_pos(i)] == i
    &&& forall|i: int|
        0 <= i < 64 ==> f[pad_pos(i) + 1] <= 127 && f[pad_pos(i) + 2] <= 127 && f[pad_pos(i) + 3]
            <= 127
}

/// Connection lifecycle of a session.
#[derive(Copy, Clone, Debug, PartialEq, Eq, Structural)]
pub enum ControllerState {
    Disconnected,
    Connected,
    Closed,
}

/// One attached controller: a stable identifier, its connection state, and
/// its owned LED frame. The input/output connections themselves are I/O and
/// live with the caller; this type holds everything the protocol layer
/// decides about.
pub struct FireController {
    id: u32,
    state: ControllerState,
    led_msg_buf: Vec<u8>,
}

impl FireController {
    /// The frame bytes, as the mathematical sequence contracts speak of.
    pub closed spec fn frame(&self) -> Seq<u8> {
        self.led_msg_buf@
    }

    /// The session identifier.
    pub closed spec fn spec_id(&self) -> u32 {
        self.id
    }

    /// The connection state.
    pub closed spec fn spec_state(&self) -> ControllerState {
        self.state
    }

    /// Invariant: the LED frame is well formed.
    pub open spec fn wf(&self) -> bool {
        frame_wf(self.frame())
    }

    /// Create a session with an initialized frame: header, pad-index bytes
    /// and terminator laid out, every color black.
    pub fn new(id: u32) -> (c: FireController)
        ensures
            c.wf(),
            c.spec_id() == id,
            c.spec_state() == ControllerState::Disconnected,
            forall|i: int|
                0 <= i < 64 ==> c.frame()[pad_pos(i) + 1] == 0 && c.frame()[pad_pos(i) + 2] == 0
                    && c.frame()[pad_pos(i) + 3] == 0,
    {
        let mut buf: Vec<u8> = Vec::new();
        let mut j: usize = 0;
        while j < FRAME_LEN
            invariant
                j <= FRAME_LEN,
                buf@.len() == j,
                forall|k: int| 0 <= k < j ==> buf@[k] == 0,
            decreases FRAME_LEN - j,
        {
            buf.push(0);
            j = j + 1;
        }
        buf.set(0, 0xf0);
        buf.set(1, 0x47);
        buf.set(2, 0x7f);
        buf.set(3, 0x43);
        buf.set(4, 0x65);
        buf.set(5, ((FRAME_PAYLOAD_LEN >> 7) & 0x7f) as u8);
        buf.set(6, (FRAME_PAYLOAD_LEN & 0x7f) as u8);
        let mut i: usize = 0;
        while i < 64
            invariant
                i <= 64,
                buf@.len() == FRAME_LEN,
                buf@[0] == 0xf0,
                buf@[1] == 0x47,
                buf@[2] == 0x7f,
                buf@[3] == 0x43,
                buf@[4] == 0x65,
                buf@[5] == seven_bit_hi(FRAME_PAYLOAD_LEN),
                buf@[6] == seven_bit_lo(FRAME_PAYLOAD_LEN),
                forall|k: int| 0 <= k < i ==> buf@[pad_pos(k)] == k,
                forall|k: int|
                    7 <= k < FRAME_LEN && !(k < 7 + 4 * i && (k - 7) % 4 == 0) ==> buf@[k] == 0,
            decreases 64 - i,
        {
            buf.set(7 + i * 4, i as u8);
            i = i + 1;
        }
        buf.set(FRAME_LEN - 1, 0xf7);
        FireController { id, state: ControllerState::Disconnected, led_msg_buf: buf }
    }

    /// Mark the session connected, once both port ends are open.
    pub fn mark_connected(&mut self)
        requires
            old(self).spec_state() == ControllerState::Disconnected,
        ensures
            final(self).spec_state() == ControllerState::Connected,
            final(self).spec_id() == old(self).spec_id(),
            final(self).frame() == old(self).frame(),
    {
        self.state = ControllerState::Connected;
    }

    /// Mark the session closed after the connection errored or the device
    /// disconnected; closure is an observable state, not a crash.
    pub fn mark_closed(&mut self)
        requires
            old(self).spec_state() == ControllerState::Connected,
        ensures
            final(self).spec_state() == ControllerState::Closed,
            final(self).spec_id() == old(self).spec_id(),
            final(self).frame() == old(self).frame(),
    {
        self.state = ControllerState::Closed;
    }

    /// The session identifier.
    pub fn id(&self) -> (r: u32)
        ensures
            r == self.spec_id(),
    {
        self.id
    }

    /// The connection state.
    pub fn state(&self) -> (r: ControllerState)
        ensures
            r == self.spec_state(),
    {
        self.state
    }

    /// Set one pad's color. Each channel is clamped to the 7-bit range
    /// before storage; the pad-index byte and every other byte of the frame
    /// are untouched.
    pub fn set_led(&mut self, i: u8, r: u8, g: u8, b: u8)
        requires
            old(self).wf(),
            i < 64,
        ensures
            final(self).wf(),
            final(self).spec_id() == old(self).spec_id(),
            final(self).spec_state() == old(self).spec_state(),
            final(self).frame().len() == FRAME_LEN,
            final(self).frame()[pad_pos(i as int) + 1] == clamp7(r),
            final(self).frame()[pad_pos(i as int) + 2] == clamp7(g),
            final(self).frame()[pad_pos(i as int) + 3] == clamp7(b),
            forall|j: int|
                0 <= j < FRAME_LEN && j != pad_pos(i as int) + 1 && j != pad_pos(i as int) + 2 && j
                    != pad_pos(i as int) + 3 ==> final(self).frame()[j] == old(self).frame()[j],
    {
        let base: usize = 7 + (i as usize) * 4;
        let rv: u8 = if r > 0x7f {
            0x7f
        } else {
            r
        };
        let gv: u8 = if g > 0x7f {
            0x7f
        } else {
            g
        };
        let bv: u8 = if b > 0x7f {
            0x7f
        } else {
            b
        };
        self.led_msg_buf.set(base + 1, rv);
        self.led_msg_buf.set(base + 2, gv);
        self.led_msg_buf.set(base + 3, bv);
    }

    /// Paint the canonical color-cube sample pattern over all 64 pads.
    pub fn set_color_cube(&mut self)
        requires
            old(self).wf(),
        ensures
            final(self).wf(),
            final(self).spec_id() == old(self).spec_id(),
            final(self).spec_state() == old(self).spec_state(),
            final(self).frame() == cube_frame(old(self).frame()),
    {
        let ghost f0 = self.led_msg_buf@;
        let mut i: u8 = 0;
        while i < 64
            invariant
                i <= 64,
                frame_wf(f0),
                self.led_msg_buf@.len() == FRAME_LEN,
                self.id == old(self).id,
                self.state == old(self).state,
                forall|j: int|
                    0 <= j < FRAME_LEN && !(7 <= j < 7 + 4 * i && (j - 7) % 4 != 0)
                        ==> self.led_msg_buf@[j] == f0[j],
                forall|j: int|
                    7 <= j < 7 + 4 * i && (j - 7) % 4 != 0 ==> self.led_msg_buf@[j] == cube_color(
                        (j - 7) / 4,
                        (j - 7) % 4,
                    ),
            decreases 64 - i,
        {
            let x: u8 = i % 4;
            let y: u8 = i / 16;
            let z: u8 = (i % 16) / 4;
            let base: usize = 7 + (i as usize) * 4;
            self.led_msg_buf.set(base + 1, clamped_component(x));
            self.led_msg_buf.set(base + 2, clamped_component(y));
            self.led_msg_buf.set(base + 3, clamped_component(z));
            i = i + 1;
        }
        proof {
            assert(self.led_msg_buf@ =~= cube_frame(f0));
        }
    }

    /// Consumer reaction to one decoded event: a grid pad going down lights
    /// it full white, a pad coming up turns it off, and every other event
    /// leaves the frame alone. Returns whether the frame changed and should
    /// be rendered. A grid index outside the 64 pads is ignored.
    pub fn apply_grid_feedback(&mut self, evt: ControllerEvent) -> (changed: bool)
        requires
            old(self).wf(),
        ensures
            final(self).wf(),
            final(self).spec_id() == old(self).spec_id(),
            final(self).spec_state() == old(self).spec_state(),
            match evt {
                ControllerEvent::GridButton(idx, _, _, st, _) => if idx < 64 {
                    let v: u8 = if st == ButtonState::Down {
                        0x7f
                    } else {
                        0
                    };
                    &&& changed
                    &&& final(self).frame()[pad_pos(idx as int) + 1] == v
                    &&& final(self).frame()[pad_pos(idx as int) + 2] == v
                    &&& final(self).frame()[pad_pos(idx as int) + 3] == v
                    &&& forall|j: int|
                        0 <= j < FRAME_LEN && j != pad_pos(idx as int) + 1 && j != pad_pos(
                            idx as int,
                        ) + 2 && j != pad_pos(idx as int) + 3 ==> final(self).frame()[j] == old(
                            self,
                        ).frame()[j]
                } else {
                    !changed && final(self).frame() == old(self).frame()
                },
                _ => !changed && final(self).frame() == old(self).frame(),
            },
    {
        match evt {
            ControllerEvent::GridButton(idx, _row, _col, state, _vel) => {
                if idx < 64 {
                    match state {
                        ButtonState::Down => self.set_led(idx, 0x7f, 0x7f, 0x7f),
                        ButtonState::Up => self.set_led(idx, 0, 0, 0),
                    }
                    true
                } else {
                    false
                }
            },
            _ => false,
        }
    }

    /// The serialized frame, ready to be sent to the device unchanged in
    /// layout. Transmitting it is I/O and belongs to the caller; any
    /// transmission failure there must be surfaced, not swallowed.
    pub fn render(&self) -> (r: &Vec<u8>)
        ensures
            r@ == self.frame(),
    {
        &self.led_msg_buf
    }
}

impl PartialEq for FireController {
    /// Sessions are compared by identifier alone, as one stands for one
    /// attached device.
    fn eq(&self, other: &Self) -> (r: bool) {
        self.id == other.id
    }
}

impl Eq for FireController {}

impl vstd::std_specs::cmp::PartialEqSpecImpl for FireController {
    open spec fn obeys_eq_spec() -> bool {
        true
    }

    open spec fn eq_spec(&self, other: &Self) -> bool {
        self.spec_id() == other.spec_id()
    }
}

/// One color component of the cube pattern: the raw value scaled by 32 and
/// clamped to the 7-bit range.
pub open spec fn cube_component(v: int) -> u8 {
    if v * 32 > 127 {
        127
    } else {
        (v * 32) as u8
    }
}

/// The cube color of pad `pad` at channel `chan` (1 = red, 2 = green,
/// 3 = blue): the pad index decomposed as x = pad % 4, y = pad / 16,
/// z = (pad % 16) / 4.
pub open spec fn cube_color(pad: int, chan: int) -> u8 {
    if chan == 1 {
        cube_component(pad % 4)
    } else if chan == 2 {
        cube_component(pad / 16)
    } else {
        cube_component((pad % 16) / 4)
    }
}

/// The frame after painting the cube pattern: every color byte holds its
/// cube color, every other byte is unchanged.
pub open spec fn cube_frame(f: Seq<u8>) -> Seq<u8> {
    Seq::new(
        f.len(),
        |j: int|
            if 7 <= j < FRAME_LEN - 1 && (j - 7) % 4 != 0 {
                cube_color((j - 7) / 4, (j - 7) % 4)
            } else {
                f[j]
            },
    )
}

/// Executable cube component for a scaled coordinate value.
fn clamped_component(v: u8) -> (r: u8)
    requires
        v <= 3,
    ensures
        r == cube_component(v as int),
{
    let s: u8 = v * 32;
    if s > 0x7f {
        0x7f
    } else {
        s
    }
}

/// The cube pattern is idempotent: painting it on a frame that already
/// holds it changes nothing, so two consecutive paints of any frame yield
/// byte-identical frames.
pub proof fn lemma_color_cube_idempotent(f: Seq<u8>)
    ensures
        cube_frame(cube_frame(f)) == cube_frame(f),
{
    assert(cube_frame(cube_frame(f)) =~= cube_frame(f));
}

} // verus!
