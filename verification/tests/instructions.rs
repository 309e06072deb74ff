use chip8::machine::{Computer, SCREEN_START};

fn computer() -> Computer {
    Computer::default()
}

#[test]
fn default_is_all_zero() {
    let c = computer();
    assert!(c.ram.iter().all(|b| *b == 0));
    assert_eq!(c.cpu.v, [0u8; 16]);
    assert_eq!(c.cpu.stack, [0u16; 16]);
    assert_eq!((c.cpu.i, c.cpu.dt, c.cpu.st, c.cpu.pc, c.cpu.sp), (0, 0, 0, 0, 0));
}

#[test]
fn write_hex_sprites_puts_font_at_zero() {
    let mut c = computer();
    c.ram[80] = 0xaa;
    c.write_hex_sprites();
    assert_eq!(&c.ram[0..5], &[0xF0, 0x90, 0x90, 0x90, 0xF0]);
    assert_eq!(&c.ram[75..80], &[0xF0, 0x80, 0xF0, 0x80, 0x80]);
    assert_eq!(c.ram[80], 0xaa);
}

#[test]
fn ld_i_addr_sets_i() {
    let mut c = computer();
    c.ld_i_addr(&[0xa, 0x1, 0x2, 0x3]);
    assert_eq!(c.cpu.i, 0x123);
}

#[test]
fn ld_vx_byte_and_add_vx_byte_wrap() {
    let mut c = computer();
    c.ld_vx_byte(&[0x6, 0x3, 0xf, 0x0]);
    assert_eq!(c.cpu.v[3], 0xf0);
    c.add_vx_byte(&[0x7, 0x3, 0x2, 0x5]);
    assert_eq!(c.cpu.v[3], 0x15);
}

#[test]
fn skips() {
    let mut c = computer();
    c.cpu.pc = 0x200;
    c.cpu.v[1] = 0x42;
    c.se_vx_byte(&[0x3, 0x1, 0x4, 0x2]);
    assert_eq!(c.cpu.pc, 0x202);
    c.sne_vx_byte(&[0x4, 0x1, 0x4, 0x2]);
    assert_eq!(c.cpu.pc, 0x202);
    c.sne_vx_byte(&[0x4, 0x1, 0x4, 0x3]);
    assert_eq!(c.cpu.pc, 0x204);
    c.cpu.v[2] = 0x42;
    c.se_vx_vy(&[0x5, 0x1, 0x2, 0x0]);
    assert_eq!(c.cpu.pc, 0x206);
}

#[test]
fn call_then_ret_returns() {
    let mut c = computer();
    c.cpu.pc = 0x234;
    c.call_addr(&[0x2, 0x4, 0x5, 0x6]);
    assert_eq!(c.cpu.pc, 0x456);
    assert_eq!(c.cpu.sp, 1);
    assert_eq!(c.cpu.stack[1], 0x234);
    c.ret();
    assert_eq!(c.cpu.pc, 0x234);
    assert_eq!(c.cpu.sp, 0);
}

#[test]
fn jumps() {
    let mut c = computer();
    c.jmp_addr(&[0x1, 0xa, 0xb, 0xc]);
    assert_eq!(c.cpu.pc, 0xabc);
    c.cpu.v[0] = 0x10;
    c.jp_v0_addr(&[0xb, 0x3, 0x0, 0x0]);
    assert_eq!(c.cpu.pc, 0x310);
}

#[test]
fn logic_ops() {
    let mut c = computer();
    c.cpu.v[1] = 0b1100;
    c.cpu.v[2] = 0b1010;
    c.and_vx_vy(&[0x8, 0x1, 0x2, 0x2]);
    assert_eq!(c.cpu.v[1], 0b1000);
    c.cpu.v[1] = 0b1100;
    c.or_vx_vy(&[0x8, 0x1, 0x2, 0x1]);
    assert_eq!(c.cpu.v[1], 0b1110);
    c.cpu.v[1] = 0b1100;
    c.xor_vx_vy(&[0x8, 0x1, 0x2, 0x3]);
    assert_eq!(c.cpu.v[1], 0b0110);
    c.ld_vx_vy(&[0x8, 0x1, 0x2, 0x0]);
    assert_eq!(c.cpu.v[1], 0b1010);
}

#[test]
fn add_vx_vy_sets_carry() {
    let mut c = computer();
    c.cpu.v[1] = 200;
    c.cpu.v[2] = 100;
    c.add_vx_vy(&[0x8, 0x1, 0x2, 0x4]);
    assert_eq!(c.cpu.v[1], 44);
    assert_eq!(c.cpu.v[15], 1);
    c.add_vx_vy(&[0x8, 0x1, 0x2, 0x4]);
    assert_eq!(c.cpu.v[1], 144);
    assert_eq!(c.cpu.v[15], 0);
}

#[test]
fn add_vx_vy_into_vf_uses_the_new_flag() {
    let mut c = computer();
    c.cpu.v[15] = 200;
    c.cpu.v[2] = 100;
    c.add_vx_vy(&[0x8, 0xf, 0x2, 0x4]);
    // VF becomes the carry (1) first, then VF := 1 + 100.
    assert_eq!(c.cpu.v[15], 101);
}

#[test]
fn sub_and_subn() {
    let mut c = computer();
    c.cpu.v[1] = 5;
    c.cpu.v[2] = 7;
    c.sub_vx_vy(&[0x8, 0x1, 0x2, 0x5]);
    assert_eq!(c.cpu.v[1], 254);
    assert_eq!(c.cpu.v[15], 0);
    c.cpu.v[1] = 5;
    c.subn_vx_vy(&[0x8, 0x1, 0x2, 0x7]);
    assert_eq!(c.cpu.v[1], 2);
    assert_eq!(c.cpu.v[15], 1);
    c.cpu.v[1] = 7;
    c.sub_vx_vy(&[0x8, 0x1, 0x2, 0x5]);
    assert_eq!(c.cpu.v[1], 0);
    assert_eq!(c.cpu.v[15], 0);
}

#[test]
fn shifts() {
    let mut c = computer();
    c.cpu.v[4] = 0b1000_0011;
    c.shr_vx(&[0x8, 0x4, 0x0, 0x6]);
    assert_eq!(c.cpu.v[4], 0b0100_0001);
    assert_eq!(c.cpu.v[15], 1);
    c.cpu.v[4] = 0b1000_0011;
    c.shl_vx(&[0x8, 0x4, 0x0, 0xe]);
    assert_eq!(c.cpu.v[4], 0b0000_0110);
    assert_eq!(c.cpu.v[15], 1);
    c.cpu.v[1] = 0x81;
    c.shl_vx(&[0x8, 0x1, 0x0, 0xe]);
    assert_eq!(c.cpu.v[1], 0x02);
    assert_eq!(c.cpu.v[15], 1);
    c.cpu.v[1] = 0x41;
    c.shl_vx(&[0x8, 0x1, 0x0, 0xe]);
    assert_eq!(c.cpu.v[1], 0x82);
    assert_eq!(c.cpu.v[15], 0);
}

#[test]
fn add_i_vx_wraps() {
    let mut c = computer();
    c.cpu.i = 0xfffe;
    c.cpu.v[3] = 5;
    c.add_i_vx(&[0xf, 0x3, 0x1, 0xe]);
    assert_eq!(c.cpu.i, 3);
}

#[test]
fn store_and_load_registers() {
    let mut c = computer();
    c.cpu.i = 0x300;
    for k in 0..16 {
        c.cpu.v[k] = (k as u8) * 3 + 1;
    }
    c.ld_i_vx(&[0xf, 0x3, 0x5, 0x5]);
    assert_eq!(&c.ram[0x300..0x305], &[1, 4, 7, 10, 0]);
    c.cpu.v = [0u8; 16];
    c.ld_vx_i(&[0xf, 0x3, 0x6, 0x5]);
    assert_eq!(&c.cpu.v[0..5], &[1, 4, 7, 10, 0]);
    assert_eq!(c.cpu.i, 0x300);
}

#[test]
fn cls_clears_the_screen_only() {
    let mut c = computer();
    for b in c.ram.iter_mut() {
        *b = 0xff;
    }
    c.cls();
    assert!(c.ram[SCREEN_START..].iter().all(|b| *b == 0));
    assert!(c.ram[..SCREEN_START].iter().all(|b| *b == 0xff));
}

#[test]
fn ls_b_vx_writes_decimal_digits() {
    let mut c = computer();
    c.cpu.i = 0x400;
    c.cpu.v[2] = 254;
    c.ls_b_vx(&[0xf, 0x2, 0x3, 0x3]);
    assert_eq!(&c.ram[0x400..0x403], &[2, 5, 4]);
}

#[test]
fn lf_f_vx_points_at_the_digit_sprite() {
    let mut c = computer();
    c.write_hex_sprites();
    c.cpu.v[6] = 0xb;
    c.lf_f_vx(&[0xf, 0x6, 0x2, 0x9]);
    assert_eq!(c.cpu.i, 55);
    assert_eq!(&c.ram[55..60], &[0xE0, 0x90, 0xE0, 0x90, 0xE0]);
}

#[test]
fn ld_vx_dt_copies_the_timer() {
    let mut c = computer();
    c.cpu.dt = 9;
    c.ld_vx_dt(&[0xf, 0x8, 0x0, 0x7]);
    assert_eq!(c.cpu.v[8], 9);
}

#[test]
fn rnd_masks_the_random_byte() {
    let mut c = computer();
    c.rnd_vx_byte_with(&[0xc, 0x2, 0x0, 0xf], 0xab);
    assert_eq!(c.cpu.v[2], 0x0b);
    for _ in 0..32 {
        c.rnd_vx_byte(&[0xc, 0x2, 0x0, 0xf]);
        assert!(c.cpu.v[2] <= 0x0f);
    }
    c.rnd_vx_byte(&[0xc, 0x2, 0x0, 0x0]);
    assert_eq!(c.cpu.v[2], 0);
}

#[test]
fn draw_sets_bits_and_reports_collision() {
    let mut c = computer();
    c.write_hex_sprites();
    c.cpu.i = 0; // sprite of digit 0
    c.cpu.v[1] = 0; // x
    c.cpu.v[2] = 0; // y
    c.drw_vx_vy_nibble(&[0xd, 0x1, 0x2, 0x5]);
    assert_eq!(c.ram[SCREEN_START], 0xF0);
    assert_eq!(c.ram[SCREEN_START + 8], 0x90);
    assert_eq!(c.ram[SCREEN_START + 32], 0xF0);
    assert_eq!(c.cpu.v[15], 0);
    c.drw_vx_vy_nibble(&[0xd, 0x1, 0x2, 0x5]);
    assert!(c.ram[SCREEN_START..].iter().all(|b| *b == 0));
    assert_eq!(c.cpu.v[15], 1);
}

#[test]
fn draw_splits_an_unaligned_sprite_over_two_bytes() {
    let mut c = computer();
    c.cpu.i = 0x300;
    c.ram[0x300] = 0xff;
    c.cpu.v[1] = 4; // x
    c.cpu.v[2] = 1; // y
    c.drw_vx_vy_nibble(&[0xd, 0x1, 0x2, 0x1]);
    assert_eq!(c.ram[SCREEN_START + 8], 0x0f);
    assert_eq!(c.ram[SCREEN_START + 9], 0xf0);
    assert_eq!(c.cpu.v[15], 0);
}
