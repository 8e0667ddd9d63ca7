use std::sync::mpsc::sync_channel;

use bricc::{
    clear_screen_sequence, map_input_byte, AssemblerEvent, FrameAssembler, Framebuffer,
    InputModule, PixelOp, RemoteByte, TelnetModuleInputInterface, UserInput,
};

#[test]
fn set_pixel_packs_column_bits() {
    let mut fb = Framebuffer::new();
    fb.set_pixel(0, 0, true);
    assert_eq!(fb.columns[0], 1);
    fb.set_pixel(83, 47, true);
    assert_eq!(fb.columns[83], 1u64 << 47);
    fb.set_pixel(0, 0, false);
    assert_eq!(fb.columns[0], 0);
}

#[test]
fn out_of_range_pixels_are_dropped() {
    let mut fb = Framebuffer::new();
    fb.set_pixel(84, 0, true);
    fb.set_pixel(0, 48, true);
    fb.set_pixel(-1, 0, true);
    fb.set_pixel(0, -1, true);
    for c in &fb.columns {
        assert_eq!(*c, 0);
    }
}

#[test]
fn frame_lines_render_x_and_dot_rows() {
    let mut fb = Framebuffer::new();
    fb.set_pixel(1, 0, true);
    fb.set_pixel(83, 47, true);
    let lines = fb.frame_lines();
    assert_eq!(lines.len(), 48);
    for line in &lines {
        assert_eq!(line.len(), 84);
    }
    assert_eq!(lines[0][1], b'X');
    assert_eq!(lines[0][0], b'.');
    assert_eq!(lines[47][83], b'X');
    assert_eq!(lines[1][1], b'.');
}

#[test]
fn clear_sequence_is_clear_screen_and_scrollback() {
    assert_eq!(clear_screen_sequence(), b"\x1b[2J\x1b[3J".to_vec());
}

#[test]
fn batches_coalesce_into_one_snapshot() {
    let mut assembler = FrameAssembler::new();
    // Several batches arrive before the idle timeout: none publishes.
    let b1 = AssemblerEvent::Batch(vec![PixelOp { x: 0, y: 0, on: true }]);
    let b2 = AssemblerEvent::Batch(vec![
        PixelOp { x: 1, y: 1, on: true },
        PixelOp { x: 0, y: 0, on: false },
    ]);
    let b3 = AssemblerEvent::Batch(vec![PixelOp { x: 99, y: 0, on: true }]);
    assert!(assembler.step(&b1).is_none());
    assert!(assembler.step(&b2).is_none());
    assert!(assembler.step(&b3).is_none());
    // The idle turn publishes exactly one cumulative snapshot.
    let snap = assembler.step(&AssemblerEvent::IdleTimeout).expect("idle must publish");
    assert_eq!(snap.columns[0], 0);
    assert_eq!(snap.columns[1], 2);
    // The assembler's own frame is unchanged by publishing.
    assert_eq!(assembler.frame.columns[1], 2);
}

#[test]
fn idle_republishes_current_frame() {
    let mut assembler = FrameAssembler::new();
    let s1 = assembler.step(&AssemblerEvent::IdleTimeout).unwrap();
    let s2 = assembler.step(&AssemblerEvent::IdleTimeout).unwrap();
    assert_eq!(s1.columns, s2.columns);
}

#[test]
fn input_byte_table_maps_digits_and_keys() {
    for (b, expected) in [
        (b'0', UserInput::Number(0)),
        (b'5', UserInput::Number(5)),
        (b'9', UserInput::Number(9)),
        (b' ', UserInput::SoftKey),
        (b'#', UserInput::Hash),
        (b'*', UserInput::Star),
        (b'c', UserInput::Call),
        (b'C', UserInput::Call),
        (b'u', UserInput::Up),
        (b'U', UserInput::Up),
        (b'd', UserInput::Down),
        (b'D', UserInput::Down),
    ] {
        assert_eq!(map_input_byte(b), RemoteByte::Key(expected));
    }
}

#[test]
fn input_byte_q_ends_session_and_others_are_unrecognized() {
    assert_eq!(map_input_byte(b'q'), RemoteByte::EndSession);
    assert_eq!(map_input_byte(b'x'), RemoteByte::Unrecognized);
    assert_eq!(map_input_byte(b'\n'), RemoteByte::Unrecognized);
    assert_eq!(map_input_byte(0), RemoteByte::Unrecognized);
}

#[test]
fn input_interface_polls_bounded_queue() {
    let (tx, rx) = sync_channel(20);
    let mut interface = TelnetModuleInputInterface { input_receiver: rx };
    assert_eq!(interface.get_input(), None);
    tx.try_send(UserInput::Number(5)).unwrap();
    tx.try_send(UserInput::Up).unwrap();
    assert_eq!(interface.get_input(), Some(UserInput::Number(5)));
    assert_eq!(interface.get_input(), Some(UserInput::Up));
    assert_eq!(interface.get_input(), None);
}
