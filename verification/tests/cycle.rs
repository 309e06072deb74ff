use chip8::cycle::{decode, Cycle, Op, StepError};
use chip8::keypad::{key_char_to_u8, KeyCode, KeyWait};
use chip8::machine::{Computer, MAX_PROGRAM_SIZE, PROGRAM_START};
use chip8::message::unimplemented_panic;
use chip8::screen::{screen_pixels, Pixel};

fn boot(program: &[u8]) -> Computer {
    Computer::boot(program).expect("program fits")
}

#[test]
fn boot_lays_out_memory() {
    let c = boot(&[0x60, 0x05, 0x12, 0x00]);
    assert_eq!(c.cpu.pc, PROGRAM_START);
    assert_eq!(&c.ram[0..5], &[0xF0, 0x90, 0x90, 0x90, 0xF0]);
    assert_eq!(&c.ram[0x200..0x204], &[0x60, 0x05, 0x12, 0x00]);
    assert_eq!(c.ram[0x204], 0);
}

#[test]
fn boot_rejects_a_program_too_large() {
    let big = vec![0u8; MAX_PROGRAM_SIZE + 1];
    assert!(Computer::boot(&big).is_none());
    let fits = vec![0u8; MAX_PROGRAM_SIZE];
    assert!(Computer::boot(&fits).is_some());
}

#[test]
fn fetch_splits_into_nibbles() {
    let c = boot(&[0xa1, 0x2f]);
    assert_eq!(c.fetch(), [0xa, 0x1, 0x2, 0xf]);
}

#[test]
fn decode_examples() {
    assert_eq!(decode(&[0x0, 0x0, 0xe, 0x0]), Op::Cls);
    assert_eq!(decode(&[0x0, 0x0, 0xe, 0xe]), Op::Ret);
    assert_eq!(decode(&[0x0, 0x1, 0x2, 0x3]), Op::Invalid);
    assert_eq!(decode(&[0x8, 0x1, 0x2, 0xe]), Op::Shl);
    assert_eq!(decode(&[0x8, 0x1, 0x2, 0x8]), Op::Unimplemented);
    assert_eq!(decode(&[0x9, 0x1, 0x2, 0x0]), Op::Unimplemented);
    assert_eq!(decode(&[0xe, 0x1, 0x9, 0xe]), Op::Unimplemented);
    assert_eq!(decode(&[0xf, 0x1, 0x0, 0xa]), Op::LdKey);
    assert_eq!(decode(&[0xf, 0x1, 0x6, 0x5]), Op::LoadRegs);
    assert_eq!(decode(&[0xf, 0x1, 0x1, 0x5]), Op::Unimplemented);
}

#[test]
fn step_runs_a_small_program() {
    // V0 := 5; V0 += 3; jump to 0x200
    let mut c = boot(&[0x60, 0x05, 0x70, 0x03, 0x12, 0x00]);
    assert!(matches!(c.step(), Ok(Cycle::Ran)));
    assert_eq!(c.cpu.v[0], 5);
    assert_eq!(c.cpu.pc, 0x202);
    assert!(matches!(c.step(), Ok(Cycle::Ran)));
    assert_eq!(c.cpu.v[0], 8);
    assert_eq!(c.cpu.pc, 0x204);
    assert!(matches!(c.step(), Ok(Cycle::Ran)));
    assert_eq!(c.cpu.pc, 0x200);
}

#[test]
fn step_call_and_return() {
    // call 0x206; (0x202) nothing; ... 0x206: return
    let mut c = boot(&[0x22, 0x06, 0x00, 0x01, 0x00, 0x00, 0x00, 0xee]);
    assert!(matches!(c.step(), Ok(Cycle::Ran)));
    assert_eq!(c.cpu.pc, 0x206);
    assert_eq!(c.cpu.sp, 1);
    assert!(matches!(c.step(), Ok(Cycle::Ran)));
    assert_eq!(c.cpu.pc, 0x202);
    assert_eq!(c.cpu.sp, 0);
}

#[test]
fn step_reports_a_draw() {
    // I := 0 (font digit 0); draw 5 rows at (V0, V1)
    let mut c = boot(&[0xa0, 0x00, 0xd0, 0x15]);
    assert!(matches!(c.step(), Ok(Cycle::Ran)));
    assert!(matches!(c.step(), Ok(Cycle::Drew)));
    assert_eq!(c.screen()[0], 0xF0);
    assert_eq!(c.cpu.pc, 0x204);
}

#[test]
fn step_stops_on_unimplemented() {
    let mut c = boot(&[0x91, 0x20]);
    match c.step() {
        Err(StepError::Unimplemented(inst)) => assert_eq!(inst, [0x9, 0x1, 0x2, 0x0]),
        _ => panic!("expected an unimplemented instruction"),
    }
    assert_eq!(c.cpu.pc, 0x200);
}

#[test]
fn step_faults_on_return_with_empty_stack() {
    let mut c = boot(&[0x00, 0xee]);
    assert!(matches!(c.step(), Err(StepError::Fault)));
    assert_eq!(c.cpu.pc, 0x200);
}

#[test]
fn step_faults_when_pc_leaves_memory() {
    let mut c = boot(&[]);
    c.cpu.pc = 4095;
    assert!(matches!(c.step(), Err(StepError::Fault)));
}

#[test]
fn step_faults_on_stack_overflow() {
    // call 0x200 forever: the 16th call overflows the stack (slot 0 is never used)
    let mut c = boot(&[0x22, 0x00]);
    for _ in 0..15 {
        assert!(matches!(c.step(), Ok(Cycle::Ran)));
    }
    assert_eq!(c.cpu.sp, 15);
    assert!(matches!(c.step(), Err(StepError::Fault)));
    assert_eq!(c.cpu.sp, 15);
}

#[test]
fn key_wait_and_resume() {
    let mut c = boot(&[0xf3, 0x0a, 0x00, 0x00]);
    assert!(matches!(c.step(), Ok(Cycle::AwaitKey)));
    assert_eq!(c.cpu.pc, 0x200);
    assert!(matches!(c.resume_with_key(KeyCode::Other), Ok(KeyWait::Ignored)));
    assert_eq!(c.cpu.pc, 0x200);
    assert!(matches!(c.resume_with_key(KeyCode::K), Ok(KeyWait::Quit)));
    assert_eq!(c.cpu.pc, 0x200);
    assert!(matches!(c.resume_with_key(KeyCode::V), Ok(KeyWait::Loaded)));
    assert_eq!(c.cpu.v[3], 15);
    assert_eq!(c.cpu.pc, 0x202);
    assert!(matches!(c.resume_with_key(KeyCode::V), Err(StepError::Fault)));
}

#[test]
fn ld_vx_k_stores_keypad_values() {
    let mut c = Computer::default();
    assert_eq!(c.ld_vx_k(&[0xf, 0x2, 0x0, 0xa], KeyCode::Num4), KeyWait::Loaded);
    assert_eq!(c.cpu.v[2], 12);
    assert_eq!(c.ld_vx_k(&[0xf, 0x2, 0x0, 0xa], KeyCode::K), KeyWait::Quit);
    assert_eq!(c.cpu.v[2], 12);
}

#[test]
fn key_values() {
    assert_eq!(key_char_to_u8(KeyCode::X), 0);
    assert_eq!(key_char_to_u8(KeyCode::Num1), 1);
    assert_eq!(key_char_to_u8(KeyCode::Q), 4);
    assert_eq!(key_char_to_u8(KeyCode::V), 15);
    assert_eq!(key_char_to_u8(KeyCode::K), 16);
    assert_eq!(key_char_to_u8(KeyCode::Other), 16);
}

#[test]
fn pixels_of_a_screen() {
    let mut screen = vec![0u8; 257];
    screen[0] = 0x80; // leftmost pixel of the top row
    screen[9] = 0x01; // rightmost pixel of byte 1 in row 1
    let pixels = screen_pixels(&screen);
    assert_eq!(pixels.len(), 2048);
    assert_eq!(pixels[7], Pixel { x: 0, y: 0, on: true });
    assert_eq!(pixels[0], Pixel { x: 70, y: 0, on: false });
    assert_eq!(pixels[64 + 8], Pixel { x: 150, y: 10, on: true });
    assert_eq!(pixels.iter().filter(|p| p.on).count(), 2);
    assert_eq!(pixels[2047], Pixel { x: 560, y: 310, on: false });
}

#[test]
fn unimplemented_message() {
    assert_eq!(
        unimplemented_panic(&[0x9, 0x1, 0x2, 0xa]),
        "unimplemented instruction: 912a\n"
    );
    assert_eq!(
        unimplemented_panic(&[0x9, 0x1f, 0x0, 0xa]),
        "unimplemented instruction: 91f0a\n"
    );
}

#[test]
fn register_dump() {
    let mut c = Computer::default();
    c.cpu.v[0] = 0xab;
    c.cpu.v[15] = 1;
    c.cpu.i = 0x1234;
    c.cpu.dt = 0x10;
    c.cpu.pc = 0x200;
    c.cpu.sp = 2;
    c.cpu.stack[1] = 0xfff;
    let text = c.cpu.debug_text();
    assert_eq!(
        text,
        "v : ab, 0, 0, 0, 0, 0, 0, 0, 0, 0, 0, 0, 0, 0, 0, 1, \n\
         i : 1234\n\
         dt: 10\n\
         st: 0\n\
         pc: 200\n\
         sp: 2\n\
         sk: 0, fff, 0, 0, 0, 0, 0, 0, 0, 0, 0, 0, 0, 0, 0, 0, "
    );
}
