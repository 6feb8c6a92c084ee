use chip8::{Chip8, Fault, Status, CYCLES};

fn loaded(rom: &[u8], debug: bool) -> Chip8 {
    let mut c = Chip8::new(debug);
    assert_eq!(c.load(rom), Ok(()));
    c
}

#[test]
fn frame_runs_eleven_instructions() {
    assert_eq!(CYCLES, 11);
    let mut rom = Vec::new();
    for _ in 0..20 {
        rom.extend_from_slice(&[0x71, 0x01]);
    }
    let mut c = loaded(&rom, false);
    let frame = c.cycle(0);
    assert_eq!(frame.status, Status::Running);
    assert_eq!(c.v[1], 11);
    assert_eq!(c.pc, 0x200 + 22);
    assert!(frame.trace.is_empty());
    assert!(frame.unknown.is_empty());
    assert!(!frame.bell);
}

#[test]
fn frame_end_to_end() {
    let mut c = loaded(&[0xA2, 0x34, 0x60, 0x00], false);
    let frame = c.cycle(0);
    assert_eq!(frame.status, Status::Running);
    assert_eq!(c.i, 0x234);
    assert_eq!(c.v[0], 0);
    assert_eq!(c.pc, 0x200 + 22);
}

#[test]
fn timers_go_down_by_one_per_tick_whatever_the_number_of_steps() {
    for steps in [0usize, 1, 5, 40] {
        let mut c = loaded(&[0x12, 0x00], false);
        c.delay = 10;
        c.sound = 3;
        for _ in 0..steps {
            assert_eq!(c.step(), Status::Running);
        }
        assert_eq!(c.delay, 10);
        assert_eq!(c.sound, 3);
        c.tick(16);
        assert_eq!(c.delay, 9);
        assert_eq!(c.sound, 2);
    }
    let mut c = loaded(&[0x12, 0x00], false);
    c.delay = 10;
    c.sound = 3;
    c.cycle(16);
    assert_eq!(c.delay, 9);
    assert_eq!(c.sound, 2);
    assert_eq!(c.last_cycle_time, 16);
}

#[test]
fn timers_wait_for_a_sixtieth_of_a_second() {
    let mut c = Chip8::new(false);
    c.delay = 5;
    c.sound = 5;
    c.last_cycle_time = 100;
    assert!(!c.tick(115));
    assert_eq!((c.delay, c.sound, c.last_cycle_time), (5, 5, 100));
    assert!(!c.tick(50));
    assert_eq!((c.delay, c.sound, c.last_cycle_time), (5, 5, 100));
    assert!(c.tick(116));
    assert_eq!((c.delay, c.sound, c.last_cycle_time), (4, 4, 116));
    assert!(!c.tick(1000));
    assert_eq!((c.delay, c.sound, c.last_cycle_time), (3, 3, 1000));
}

#[test]
fn timers_stop_at_zero() {
    let mut c = Chip8::new(false);
    c.delay = 1;
    c.tick(16);
    assert_eq!(c.delay, 0);
    assert_eq!(c.sound, 0);
    c.tick(32);
    assert_eq!(c.delay, 0);
    assert_eq!(c.sound, 0);
    assert_eq!(c.last_cycle_time, 32);
}

#[test]
fn bell_rings_once_per_tone() {
    let mut c = Chip8::new(false);
    c.sound = 3;
    assert!(c.tick(16));
    assert!(c.sound_active);
    assert_eq!(c.sound, 2);
    assert!(!c.tick(32));
    assert!(c.sound_active);
    assert!(!c.tick(48));
    assert_eq!(c.sound, 0);
    assert!(c.sound_active);
    assert!(!c.tick(64));
    assert!(!c.sound_active);
    c.sound = 1;
    assert!(c.tick(80));
    assert!(c.sound_active);
}

#[test]
fn frame_reports_the_bell() {
    let mut c = loaded(&[0x61, 0x02, 0xF1, 0x18, 0x12, 0x04], false);
    let frame = c.cycle(20);
    assert!(frame.bell);
    assert_eq!(c.sound, 1);
    let frame = c.cycle(40);
    assert!(!frame.bell);
    assert_eq!(c.sound, 0);
}

#[test]
fn frame_stops_at_the_end_of_memory() {
    let mut c = Chip8::new(false);
    c.pc = 4090;
    c.mem[4090..4096].copy_from_slice(&[0x71, 0x01, 0x71, 0x01, 0x71, 0x01]);
    c.delay = 2;
    let frame = c.cycle(16);
    assert_eq!(frame.status, Status::Halted);
    assert_eq!(c.v[1], 3);
    assert_eq!(c.pc, 4096);
    assert_eq!(c.delay, 1);
    let frame = c.cycle(32);
    assert_eq!(frame.status, Status::Halted);
    assert_eq!(c.v[1], 3);
    assert_eq!(c.delay, 0);
}

#[test]
fn frame_stops_at_a_fault_before_the_timers() {
    let mut c = loaded(&[0x61, 0x05, 0x00, 0xEE, 0x61, 0x09], true);
    c.delay = 7;
    let frame = c.cycle(100);
    assert_eq!(frame.status, Status::Faulted(Fault::StackUnderflow));
    assert_eq!(c.v[1], 5);
    assert_eq!(c.pc, 0x202);
    assert_eq!(c.delay, 7);
    assert_eq!(c.last_cycle_time, 0);
    assert!(!frame.bell);
    assert_eq!(frame.trace.len(), 2);
    assert!(frame.trace[1].ends_with(" RET"));
}

#[test]
fn frame_trace_with_debug() {
    let mut c = loaded(&[0x60, 0x0C, 0xA2, 0x34, 0x81, 0x28], true);
    let frame = c.cycle(0);
    assert_eq!(frame.trace.len(), 11);
    assert_eq!(
        frame.trace[0],
        "PC:0200 V0:00 V1:00 V2:00 V3:00 V4:00 V5:00 V6:00 V7:00 V8:00 V9:00 VA:00 VB:00 VC:00 \
         VD:00 VE:00 VF:00 I:0000 DT:00 ST:00 LD V0, 0x0C"
    );
    assert_eq!(
        frame.trace[1],
        "PC:0202 V0:0C V1:00 V2:00 V3:00 V4:00 V5:00 V6:00 V7:00 V8:00 V9:00 VA:00 VB:00 VC:00 \
         VD:00 VE:00 VF:00 I:0000 DT:00 ST:00 LD I, 0x234"
    );
    assert_eq!(
        frame.trace[2],
        "PC:0204 V0:0C V1:00 V2:00 V3:00 V4:00 V5:00 V6:00 V7:00 V8:00 V9:00 VA:00 VB:00 VC:00 \
         VD:00 VE:00 VF:00 I:0234 DT:00 ST:00 8XY8 ??"
    );
    assert!(frame.trace[3].ends_with(" SYS 0x000"));
    assert!(frame.trace[10].starts_with("PC:0214 "));
}

#[test]
fn frame_trace_stops_with_the_machine() {
    let mut c = Chip8::new(true);
    c.pc = 4092;
    let frame = c.cycle(0);
    assert_eq!(frame.status, Status::Halted);
    assert_eq!(frame.trace.len(), 2);
    assert!(frame.trace[0].starts_with("PC:0FFC "));
    assert!(frame.trace[1].starts_with("PC:0FFE "));
}

#[test]
fn frame_waits_for_a_key_across_frames() {
    let mut c = loaded(&[0xF2, 0x0A, 0x71, 0x01], false);
    for t in 0..3u64 {
        let frame = c.cycle(t * 17);
        assert_eq!(frame.status, Status::Running);
        assert_eq!(c.pc, 0x200);
        assert_eq!(c.v[1], 0);
    }
    let mut keys = [false; 16];
    keys[0xB] = true;
    c.input(keys);
    c.cycle(100);
    assert_eq!(c.v[2], 0xB);
    assert_eq!(c.v[1], 1);
    assert_eq!(c.pc, 0x200 + 22);
}

#[test]
fn frame_reports_unknown_words() {
    let mut c = loaded(&[0x81, 0x28, 0x61, 0x01, 0xE1, 0x00, 0xF1, 0xFF, 0x12, 0x08], false);
    let frame = c.cycle(0);
    assert_eq!(frame.status, Status::Running);
    assert_eq!(frame.unknown, vec![0x8128, 0xE100, 0xF1FF]);
    assert!(frame.trace.is_empty());
    assert_eq!(c.v[1], 1);
    assert_eq!(c.pc, 0x208);
    let frame = c.cycle(0);
    assert!(frame.unknown.is_empty());
}

#[test]
fn frame_rate_constants() {
    assert_eq!(chip8::frame::INSTRUCTION_RATE, 700);
    assert_eq!(chip8::frame::FRAME_RATE, 60);
    assert_eq!(chip8::frame::TICK_MS, 16);
    assert_eq!(CYCLES, 700 / 60);
}
