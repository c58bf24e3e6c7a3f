//! Domain events produced by a controller, and the decoder from raw
//! three-byte MIDI messages to events.

use vstd::prelude::*;

verus! {

/// Labeled (non-grid) controller buttons, left-to-right, top-to-bottom.
/// `Mystery` stands for any code inside the labeled-button byte range that
/// has no explicit mapping; it is kept rather than dropped so that unknown
/// hardware revisions remain observable.
#[derive(Copy, Clone, Debug, PartialEq, Eq, Structural)]
pub enum ControllerButton {
    Channel,
    PatternUp,
    PatternDown,
    Browser,
    GridLeft,
    GridRight,
    Row1,
    Row2,
    Row3,
    Row4,
    Step,
    Note,
    Drum,
    Perform,
    Shift,
    Alt,
    Pattern,
    Play,
    Stop,
    Record,
    Mystery,
}

/// The five rotary knobs.
#[derive(Copy, Clone, Debug, PartialEq, Eq, Structural)]
pub enum ControllerKnob {
    Volume,
    Pan,
    Filter,
    Resonance,
    Select,
}

/// Whether a button (or a knob's touch sensor) is pressed or released.
#[derive(Copy, Clone, Debug, PartialEq, Eq, Structural)]
pub enum ButtonState {
    Down,
    Up,
}

/// One decoded input event.
#[derive(Copy, Clone, Debug, PartialEq, Eq, Structural)]
pub enum ControllerEvent {
    /// A labeled non-grid button changed state.
    ControlButton(ControllerButton, ButtonState),
    /// A knob position update; the value is in 0..=127.
    KnobTurn(ControllerKnob, u8),
    /// Capacitive touch-down/up on a knob.
    KnobTouch(ControllerKnob, ButtonState),
    /// A pad on the 4x16 grid changed state: (index, row, col, state,
    /// velocity), with `row == index / 16` and `col == index % 16`.
    GridButton(u8, u8, u8, ButtonState, u8),
}

/// Row of a grid pad index: the grid is 4 rows of 16 columns.
pub open spec fn grid_row(i: int) -> int {
    i / 16
}

/// Column of a grid pad index.
pub open spec fn grid_col(i: int) -> int {
    i % 16
}

/// Grid coordinate law: for every pad index the row/column decomposition is
/// exact and in range.
pub proof fn lemma_grid_coords(i: int)
    requires
        0 <= i < 64,
    ensures
        grid_row(i) == i / 16,
        grid_col(i) == i % 16,
        grid_row(i) * 16 + grid_col(i) == i,
        0 <= grid_row(i) < 4,
        0 <= grid_col(i) < 16,
{
}

/// The knob assigned to a touch/turn sub-code. Codes 0x14..=0x18 fall inside
/// the knob byte range but name no knob on known hardware; they are rejected
/// (decoded to no event) rather than guessed at.
pub open spec fn spec_knob(code: u8) -> Option<ControllerKnob> {
    if code == 0x10 {
        Some(ControllerKnob::Volume)
    } else if code == 0x11 {
        Some(ControllerKnob::Pan)
    } else if code == 0x12 {
        Some(ControllerKnob::Filter)
    } else if code == 0x13 {
        Some(ControllerKnob::Resonance)
    } else if code == 0x19 {
        Some(ControllerKnob::Select)
    } else {
        None
    }
}

/// The labeled button assigned to a sub-code in 0x1a..=0x35; unmapped codes
/// inside that range give `Mystery`.
pub open spec fn spec_button(code: u8) -> ControllerButton {
    if code == 0x1a {
        ControllerButton::Channel
    } else if code == 0x1f {
        ControllerButton::PatternUp
    } else if code == 0x20 {
        ControllerButton::PatternDown
    } else if code == 0x21 {
        ControllerButton::Browser
    } else if code == 0x22 {
        ControllerButton::GridLeft
    } else if code == 0x23 {
        ControllerButton::GridRight
    } else if code == 0x24 {
        ControllerButton::Row1
    } else if code == 0x25 {
        ControllerButton::Row2
    } else if code == 0x26 {
        ControllerButton::Row3
    } else if code == 0x27 {
        ControllerButton::Step
    } else if code == 0x2d {
        ControllerButton::Note
    } else if code == 0x2e {
        ControllerButton::Drum
    } else if code == 0x2f {
        ControllerButton::Perform
    } else if code == 0x30 {
        ControllerButton::Shift
    } else if code == 0x31 {
        ControllerButton::Alt
    } else if code == 0x32 {
        ControllerButton::Pattern
    } else if code == 0x33 {
        ControllerButton::Play
    } else if code == 0x34 {
        ControllerButton::Stop
    } else if code == 0x35 {
        ControllerButton::Record
    } else {
        ControllerButton::Mystery
    }
}

/// What a raw MIDI message decodes to. Only three-byte messages in the byte
/// ranges this device family uses produce an event; everything else decodes
/// to no event.
pub open spec fn spec_decode(msg: Seq<u8>) -> Option<ControllerEvent> {
    if msg.len() != 3 {
        None
    } else {
        let status = msg[0];
        let d1 = msg[1];
        let d2 = msg[2];
        if 0x10 <= d1 <= 0x19 && (status == 0x90 || status == 0x80 || status == 0xb0) {
            match spec_knob(d1) {
                Some(knob) => if status == 0x90 {
                    Some(ControllerEvent::KnobTouch(knob, ButtonState::Down))
                } else if status == 0x80 {
                    Some(ControllerEvent::KnobTouch(knob, ButtonState::Up))
                } else {
                    Some(ControllerEvent::KnobTurn(knob, d2))
                },
                None => None,
            }
        } else if 0x1a <= d1 <= 0x35 && (status == 0x90 || status == 0x80) {
            let state = if status == 0x90 {
                ButtonState::Down
            } else {
                ButtonState::Up
            };
            Some(ControllerEvent::ControlButton(spec_button(d1), state))
        } else if 0x36 <= d1 <= 0x75 && (status == 0x90 || status == 0x80) {
            let state = if status == 0x90 {
                ButtonState::Down
            } else {
                ButtonState::Up
            };
            let index = (d1 - 0x36) as u8;
            Some(ControllerEvent::GridButton(
                index,
                grid_row(index as int) as u8,
                grid_col(index as int) as u8,
                state,
                d2,
            ))
        } else {
            None
        }
    }
}

impl ControllerEvent {
    /// Decode one raw MIDI message. Pure and total: unrecognized byte
    /// patterns and lengths other than three are not errors, they simply
    /// produce no event.
    pub fn from_midi(msg: &[u8]) -> (r: Option<ControllerEvent>)
        ensures
            r == spec_decode(msg@),
    {
        if msg.len() != 3 {
            return None;
        }
        let status = msg[0];
        let d1 = msg[1];
        let d2 = msg[2];
        if 0x10 <= d1 && d1 <= 0x19 && (status == 0x90 || status == 0x80 || status == 0xb0) {
            let knob = if d1 == 0x10 {
                ControllerKnob::Volume
            } else if d1 == 0x11 {
                ControllerKnob::Pan
            } else if d1 == 0x12 {
                ControllerKnob::Filter
            } else if d1 == 0x13 {
                ControllerKnob::Resonance
            } else if d1 == 0x19 {
                ControllerKnob::Select
            } else {
                return None;
            };
            if status == 0x90 {
                Some(ControllerEvent::KnobTouch(knob, ButtonState::Down))
            } else if status == 0x80 {
                Some(ControllerEvent::KnobTouch(knob, ButtonState::Up))
            } else {
                Some(ControllerEvent::KnobTurn(knob, d2))
            }
        } else if 0x1a <= d1 && d1 <= 0x35 && (status == 0x90 || status == 0x80) {
            let state = if status == 0x90 {
                ButtonState::Down
            } else {
                ButtonState::Up
            };
            let button = if d1 == 0x1a {
                ControllerButton::Channel
            } else if d1 == 0x1f {
                ControllerButton::PatternUp
            } else if d1 == 0x20 {
                ControllerButton::PatternDown
            } else if d1 == 0x21 {
                ControllerButton::Browser
            } else if d1 == 0x22 {
                ControllerButton::GridLeft
            } else if d1 == 0x23 {
                ControllerButton::GridRight
            } else if d1 == 0x24 {
                ControllerButton::Row1
            } else if d1 == 0x25 {
                ControllerButton::Row2
            } else if d1 == 0x26 {
                ControllerButton::Row3
            } else if d1 == 0x27 {
                ControllerButton::Step
            } else if d1 == 0x2d {
                ControllerButton::Note
            } else if d1 == 0x2e {
                ControllerButton::Drum
            } else if d1 == 0x2f {
                ControllerButton::Perform
            } else if d1 == 0x30 {
                ControllerButton::Shift
            } else if d1 == 0x31 {
                ControllerButton::Alt
            } else if d1 == 0x32 {
                ControllerButton::Pattern
            } else if d1 == 0x33 {
                ControllerButton::Play
            } else if d1 == 0x34 {
                ControllerButton::Stop
            } else if d1 == 0x35 {
                ControllerButton::Record
            } else {
                ControllerButton::Mystery
            };
            Some(ControllerEvent::ControlButton(button, state))
        } else if 0x36 <= d1 && d1 <= 0x75 && (status == 0x90 || status == 0x80) {
            let state = if status == 0x90 {
                ButtonState::Down
            } else {
                ButtonState::Up
            };
            let index = d1 - 0x36;
            let row = index / 16;
            let col = index % 16;
            Some(ControllerEvent::GridButton(index, row, col, state, d2))
        } else {
            None
        }
    }
}

} // verus!
