use gameboy::control::{finish_turn, handle_event, toggle_paused, Key, State};
use gameboy::register::Registers;

#[test]
fn keys_drive_the_display_loop() {
    let mut s = State::Running;
    handle_event(&mut s, Key::Space);
    assert_eq!(s, State::Paused);
    handle_event(&mut s, Key::Space);
    assert_eq!(s, State::Running);
    handle_event(&mut s, Key::Other);
    assert_eq!(s, State::Running);
    handle_event(&mut s, Key::Right);
    assert_eq!(s, State::FrameAdvance);
    finish_turn(&mut s);
    assert_eq!(s, State::Paused);
    handle_event(&mut s, Key::Down);
    assert_eq!(s, State::InstructionAdvance);
    finish_turn(&mut s);
    assert_eq!(s, State::Paused);
    finish_turn(&mut s);
    assert_eq!(s, State::Paused);
    let mut t = State::FrameAdvance;
    toggle_paused(&mut t);
    assert_eq!(t, State::Paused);
}

#[test]
fn registers_as_text() {
    let mut r = Registers::new();
    r.a = 0x01;
    r.f = 0xB0;
    r.b = 0x00;
    r.c = 0x13;
    r.h = 0x01;
    r.l = 0x4D;
    r.pc = 0x100;
    r.sp = 0xFFFE;
    assert_eq!(r.describe(), "AF: 01B0 BC: 0013 DE: 0000 HL: 014D PC: 0100 SP FFFE");
}
