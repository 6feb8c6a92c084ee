use chip8::font::FONT;
use chip8::keypad::{keypad_scancode, KEYPAD};
use chip8::{Chip8, LoadError};

#[test]
fn power_on_state() {
    let c = Chip8::new(false);
    assert_eq!(c.pc, 0x200);
    assert_eq!(c.sp, 0);
    assert_eq!(c.i, 0);
    assert_eq!(c.delay, 0);
    assert_eq!(c.sound, 0);
    assert!(!c.sound_active);
    assert!(!c.debug);
    assert_eq!(c.last_cycle_time, 0);
    assert_eq!(c.v, [0u8; 16]);
    assert_eq!(c.stack, [0u16; 16]);
    assert_eq!(c.keys, [false; 16]);
    assert_eq!(&c.mem[..80], &FONT[..]);
    assert!(c.mem[80..].iter().all(|b| *b == 0));
    assert!(c.disp.iter().all(|p| *p == 0));
    assert!(c.is_wf());
    assert!(Chip8::new(true).debug);
}

#[test]
fn font_table_glyphs() {
    let c = Chip8::new(false);
    assert_eq!(&c.mem[0..5], &[0xF0, 0x90, 0x90, 0x90, 0xF0]);
    assert_eq!(&c.mem[5..10], &[0x20, 0x60, 0x20, 0x20, 0x70]);
    assert_eq!(&c.mem[50..55], &[0xF0, 0x90, 0xF0, 0x90, 0x90]);
    assert_eq!(&c.mem[75..80], &[0xF0, 0x80, 0xF0, 0x80, 0x80]);
}

#[test]
fn load_copies_rom_to_program_start() {
    let mut c = Chip8::new(false);
    let rom = [0xA2u8, 0x34, 0x60, 0x00];
    assert_eq!(c.load(&rom), Ok(()));
    assert_eq!(&c.mem[0x200..0x204], &rom[..]);
    assert_eq!(c.mem[0x204], 0);
    assert_eq!(c.mem[0x1FF], 0);
    assert_eq!(&c.mem[..80], &FONT[..]);
    assert_eq!(c.pc, 0x200);
}

#[test]
fn load_keeps_bytes_behind_the_rom() {
    let mut c = Chip8::new(false);
    assert_eq!(c.load(&[1, 2, 3, 4, 5, 6]), Ok(()));
    assert_eq!(c.load(&[9, 9]), Ok(()));
    assert_eq!(&c.mem[0x200..0x206], &[9, 9, 3, 4, 5, 6]);
}

#[test]
fn load_accepts_empty_and_largest_rom() {
    let mut c = Chip8::new(false);
    assert_eq!(c.load(&[]), Ok(()));
    assert!(c.mem[80..].iter().all(|b| *b == 0));
    let rom = vec![0x5Au8; 4096 - 0x200];
    assert_eq!(c.load(&rom), Ok(()));
    assert!(c.mem[0x200..].iter().all(|b| *b == 0x5A));
    assert_eq!(c.mem[0x1FF], 0);
    assert_eq!(c.mem[4095], 0x5A);
}

#[test]
fn load_rejects_oversized_rom() {
    let mut c = Chip8::new(false);
    let rom = vec![0xAAu8; 4096 - 0x200 + 1];
    let r = c.load(&rom);
    assert_eq!(r, Err(LoadError::TooLarge { size: 3585, max: 3584 }));
    assert!(c.mem[80..].iter().all(|b| *b == 0));
    assert_eq!(&c.mem[..80], &FONT[..]);
}

#[test]
fn load_error_message() {
    let e = LoadError::TooLarge { size: 3585, max: 3584 };
    assert_eq!(e.message(), "ROM size (3585) exceed maximum allowed size (3584)");
    let e = LoadError::TooLarge { size: 0, max: 10 };
    assert_eq!(e.message(), "ROM size (0) exceed maximum allowed size (10)");
    let e = LoadError::TooLarge { size: usize::MAX, max: 3584 };
    assert_eq!(
        e.message(),
        format!("ROM size ({}) exceed maximum allowed size ({})", usize::MAX, 3584)
    );
}

#[test]
fn clear_d_darkens_every_pixel() {
    let mut c = Chip8::new(false);
    c.disp[0] = 1;
    c.disp[777] = 1;
    c.disp[2047] = 1;
    c.v[3] = 9;
    c.clear_d();
    assert!(c.disp.iter().all(|p| *p == 0));
    assert_eq!(c.v[3], 9);
    assert_eq!(c.pc, 0x200);
}

#[test]
fn input_stores_keys_verbatim() {
    let mut c = Chip8::new(false);
    let mut keys = [false; 16];
    keys[0x0] = true;
    keys[0x7] = true;
    keys[0xF] = true;
    c.input(keys);
    assert_eq!(c.keys, keys);
    c.input([false; 16]);
    assert_eq!(c.keys, [false; 16]);
}

#[test]
fn draw_lists_lit_pixels_row_by_row() {
    let mut c = Chip8::new(false);
    assert_eq!(c.draw(), Vec::<(i32, i32)>::new());
    c.disp[65] = 1;
    c.disp[0] = 1;
    c.disp[63] = 1;
    c.disp[2047] = 1;
    c.disp[64 * 5 + 10] = 7;
    assert_eq!(c.draw(), vec![(0, 0), (63, 0), (1, 1), (10, 5), (63, 31)]);
}

#[test]
fn keypad_layout() {
    let expected: [i32; 16] = [27, 30, 31, 32, 20, 26, 8, 4, 22, 7, 29, 6, 33, 21, 9, 25];
    for k in 0..16u8 {
        assert_eq!(keypad_scancode(k), expected[k as usize]);
        assert_eq!(keypad_scancode(k), KEYPAD[k as usize]);
    }
    for j in 0..16 {
        for k in 0..16 {
            if j != k {
                assert_ne!(KEYPAD[j], KEYPAD[k]);
            }
        }
    }
}

#[test]
fn invariant_check_sees_bad_stack_pointer() {
    let mut c = Chip8::new(false);
    c.sp = 16;
    assert!(c.is_wf());
    c.sp = 17;
    assert!(!c.is_wf());
}
