use fire_midi::events::ButtonState;
use fire_midi::events::ControllerEvent;
use fire_midi::events::ControllerKnob;
use fire_midi::session::ControllerState;
use fire_midi::session::FireController;

#[test]
fn initialized_frame_layout() {
    let c = FireController::new(0);
    let f = c.render();
    assert_eq!(f.len(), 264);
    assert_eq!(f[0], 0xf0);
    assert_eq!(f[1], 0x47);
    assert_eq!(f[2], 0x7f);
    assert_eq!(f[3], 0x43);
    assert_eq!(f[4], 0x65);
    assert_eq!(f[5], ((256u16 >> 7) & 0x7f) as u8);
    assert_eq!(f[6], (256u16 & 0x7f) as u8);
    for i in 0..64 {
        assert_eq!(f[7 + 4 * i], i as u8);
        assert_eq!(f[7 + 4 * i + 1], 0);
        assert_eq!(f[7 + 4 * i + 2], 0);
        assert_eq!(f[7 + 4 * i + 3], 0);
    }
    assert_eq!(f[263], 0xf7);
}

#[test]
fn set_led_clamps_to_seven_bits() {
    let mut c = FireController::new(0);
    c.set_led(5, 200, 100, 128);
    let f = c.render();
    assert_eq!(f[7 + 4 * 5 + 1], 127);
    assert_eq!(f[7 + 4 * 5 + 2], 100);
    assert_eq!(f[7 + 4 * 5 + 3], 127);
    c.set_led(5, 127, 0, 255);
    let f = c.render();
    assert_eq!(f[7 + 4 * 5 + 1], 127);
    assert_eq!(f[7 + 4 * 5 + 2], 0);
    assert_eq!(f[7 + 4 * 5 + 3], 127);
}

#[test]
fn set_led_touches_only_its_pad_colors() {
    let mut c = FireController::new(0);
    let before: Vec<u8> = c.render().clone();
    c.set_led(9, 1, 2, 3);
    let after = c.render();
    for j in 0..264 {
        if j >= 7 + 4 * 9 + 1 && j <= 7 + 4 * 9 + 3 {
            continue;
        }
        assert_eq!(after[j], before[j], "byte {} changed", j);
    }
    assert_eq!(after[7 + 4 * 9], 9);
}

#[test]
fn color_cube_exact_values() {
    let mut c = FireController::new(0);
    c.set_color_cube();
    let f = c.render();
    for i in 0usize..64 {
        let x = (i % 4) as u8;
        let y = (i / 16) as u8;
        let z = ((i % 16) / 4) as u8;
        assert_eq!(f[7 + 4 * i + 1], (x * 0x20).min(0x7f));
        assert_eq!(f[7 + 4 * i + 2], (y * 0x20).min(0x7f));
        assert_eq!(f[7 + 4 * i + 3], (z * 0x20).min(0x7f));
    }
    assert_eq!(f[7 + 4 * 0 + 1], 0);
    assert_eq!(f[7 + 4 * 3 + 1], 96);
    assert_eq!(f[7 + 4 * 16 + 2], 32);
    assert_eq!(f[7 + 4 * 4 + 3], 32);
    assert_eq!(f[7 + 4 * 63 + 1], 96);
    assert_eq!(f[7 + 4 * 63 + 2], 96);
    assert_eq!(f[7 + 4 * 63 + 3], 96);
}

#[test]
fn color_cube_is_idempotent() {
    let mut c = FireController::new(0);
    c.set_led(10, 5, 6, 7);
    c.set_color_cube();
    let once: Vec<u8> = c.render().clone();
    c.set_color_cube();
    let twice: Vec<u8> = c.render().clone();
    assert_eq!(once, twice);
}

#[test]
fn session_lifecycle() {
    let mut c = FireController::new(7);
    assert_eq!(c.id(), 7);
    assert_eq!(c.state(), ControllerState::Disconnected);
    c.mark_connected();
    assert_eq!(c.state(), ControllerState::Connected);
    c.mark_closed();
    assert_eq!(c.state(), ControllerState::Closed);
}

#[test]
fn grid_feedback_lights_and_clears_pads() {
    let mut c = FireController::new(0);
    let changed = c.apply_grid_feedback(ControllerEvent::GridButton(
        12,
        0,
        12,
        ButtonState::Down,
        0x40,
    ));
    assert!(changed);
    let f = c.render();
    assert_eq!(f[7 + 4 * 12 + 1], 0x7f);
    assert_eq!(f[7 + 4 * 12 + 2], 0x7f);
    assert_eq!(f[7 + 4 * 12 + 3], 0x7f);
    let changed = c.apply_grid_feedback(ControllerEvent::GridButton(
        12,
        0,
        12,
        ButtonState::Up,
        0x00,
    ));
    assert!(changed);
    let f = c.render();
    assert_eq!(f[7 + 4 * 12 + 1], 0);
    assert_eq!(f[7 + 4 * 12 + 2], 0);
    assert_eq!(f[7 + 4 * 12 + 3], 0);
}

#[test]
fn non_grid_events_leave_the_frame_alone() {
    let mut c = FireController::new(0);
    let before: Vec<u8> = c.render().clone();
    let changed = c.apply_grid_feedback(ControllerEvent::KnobTurn(ControllerKnob::Pan, 3));
    assert!(!changed);
    assert_eq!(c.render(), &before);
    let changed = c.apply_grid_feedback(ControllerEvent::GridButton(
        64,
        4,
        0,
        ButtonState::Down,
        1,
    ));
    assert!(!changed);
    assert_eq!(c.render(), &before);
}

#[test]
fn sessions_compare_by_identifier() {
    let a = FireController::new(1);
    let mut b = FireController::new(1);
    let c = FireController::new(2);
    b.set_led(0, 9, 9, 9);
    assert!(a == b);
    assert!(a != c);
}
