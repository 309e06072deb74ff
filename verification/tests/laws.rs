use chip8::cycle::Cycle;
use chip8::keypad::{key_char_to_u8, KeyCode};
use chip8::machine::Computer;
use chip8::screen::screen_pixels;

#[test]
fn cleared_screen_paints_every_pixel_off() {
    let mut c = Computer::default();
    for b in c.ram.iter_mut() {
        *b = 0x5a;
    }
    c.cls();
    assert!(screen_pixels(&c.screen()).iter().all(|p| !p.on));
}

#[test]
fn keypad_values_are_distinct_and_cover_all_digits() {
    let keys = [
        KeyCode::X, KeyCode::Num1, KeyCode::Num2, KeyCode::Num3, KeyCode::Q, KeyCode::W,
        KeyCode::E, KeyCode::A, KeyCode::S, KeyCode::D, KeyCode::Z, KeyCode::C, KeyCode::Num4,
        KeyCode::R, KeyCode::F, KeyCode::V,
    ];
    let mut seen = [false; 16];
    for k in keys.iter() {
        let v = key_char_to_u8(*k) as usize;
        assert!(v < 16);
        assert!(!seen[v]);
        seen[v] = true;
    }
    assert!(seen.iter().all(|s| *s));
}

#[test]
fn byte_skips_are_complementary() {
    for kk in [0x41u8, 0x42, 0x43] {
        let inst = [0x3, 0x1, kk >> 4, kk & 0xf];
        let mut a = Computer::default();
        a.cpu.pc = 0x300;
        a.cpu.v[1] = 0x42;
        let mut b = Computer::default();
        b.cpu.pc = 0x300;
        b.cpu.v[1] = 0x42;
        a.se_vx_byte(&inst);
        b.sne_vx_byte(&[0x4, inst[1], inst[2], inst[3]]);
        assert_eq!(a.cpu.pc as u32 + b.cpu.pc as u32, 2 * 0x300 + 2);
    }
}

#[test]
fn cycles_leave_the_timers_alone() {
    // V0 := 7; I := 0x300; store V0..V0; V1 := DT; jump back
    let mut c = Computer::boot(&[0x60, 0x07, 0xa3, 0x00, 0xf0, 0x55, 0xf1, 0x07, 0x12, 0x00])
        .unwrap();
    c.cpu.dt = 3;
    c.cpu.st = 4;
    for _ in 0..20 {
        assert!(matches!(c.step(), Ok(Cycle::Ran)));
        assert_eq!((c.cpu.dt, c.cpu.st), (3, 4));
    }
    assert_eq!(c.cpu.v[1], 3);
    assert_eq!(c.ram[0x300], 7);
}

#[test]
fn bcd_digits_spell_the_register() {
    for value in [0u8, 9, 10, 99, 100, 128, 255] {
        let mut c = Computer::default();
        c.cpu.i = 0x500;
        c.cpu.v[0] = value;
        c.ls_b_vx(&[0xf, 0x0, 0x3, 0x3]);
        let d = &c.ram[0x500..0x503];
        assert!(d.iter().all(|x| *x < 10));
        assert_eq!(d[0] as u32 * 100 + d[1] as u32 * 10 + d[2] as u32, value as u32);
    }
}

#[test]
fn drawing_twice_restores_memory() {
    let mut c = Computer::default();
    c.cpu.i = 0x300;
    for k in 0..15 {
        c.ram[0x300 + k] = (k as u8).wrapping_mul(37) ^ 0xa5;
    }
    c.ram[4000] = 0x3c;
    c.cpu.v[1] = 61; // x: the sprite wraps to the start of the row
    c.cpu.v[2] = 10; // y
    let before = c.ram;
    c.drw_vx_vy_nibble(&[0xd, 0x1, 0x2, 0xf]);
    assert!(c.ram != before);
    c.drw_vx_vy_nibble(&[0xd, 0x1, 0x2, 0xf]);
    assert!(c.ram == before);
}

#[test]
fn drawing_touches_only_the_two_bytes_of_each_row() {
    let mut c = Computer::default();
    c.cpu.i = 0x300;
    c.ram[0x300] = 0b1011_0001;
    c.ram[0x301] = 0b0000_0000;
    c.cpu.v[1] = 13; // x: byte 1, offset 5
    c.cpu.v[2] = 3; // y
    let s = chip8::machine::SCREEN_START;
    c.ram[s + 3 * 8 + 2] = 0b1000_0000;
    let before = c.ram;
    c.drw_vx_vy_nibble(&[0xd, 0x1, 0x2, 0x2]);
    assert_eq!(c.ram[s + 3 * 8 + 1], 0b0000_0101);
    assert_eq!(c.ram[s + 3 * 8 + 2], 0b1000_0000 ^ 0b1000_1000);
    let changed = (0..4096).filter(|a| c.ram[*a] != before[*a]).count();
    assert_eq!(changed, 2);
    // the right part met the lit pixel at the top of byte 2
    assert_eq!(c.cpu.v[15], 1);
}
