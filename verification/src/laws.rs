//! Properties that relate several instructions, or hold of every run of one.
use vstd::prelude::*;
use crate::machine::{
    Machine, font, reg_x, reg_y, byte_operand, addr_operand, addr_fits, SCREEN_START, PROGRAM_START,
};
use crate::combine::{lemma_combine_hex_digits, all_nibbles, hex_value};
use crate::draw::{
    rows_in_range, lemma_draw_rows_twice, lemma_draw_rows_frame, lemma_draw_rows_bytewise,
    lemma_draw_rows_collision, first_index, second_index, first_mask, second_mask, untouched, row_hit,
};
use crate::cycle::Op;
use crate::screen::pixel_spec;
use crate::keypad::{KeyCode, KeyWait, key_value, key_wait};
use crate::message::{hex_text, hex_char};

verus! {

/// The instruction at the program counter is made of four hexadecimal
/// digits, so it names valid registers and its operands pack without
/// overflow into the values the digits spell.
pub proof fn law_fetched_operands(m: Machine)
    requires
        m.wf(),
        m.can_fetch(),
    ensures
        Machine::xy_ok(m.fetch()),
        addr_fits(m.fetch()),
        addr_operand(m.fetch()) == m.fetch()[1] * 256 + m.fetch()[2] * 16 + m.fetch()[3],
        byte_operand(m.fetch()) == m.fetch()[2] * 16 + m.fetch()[3],
{
    let inst = m.fetch();
    let a = inst.subrange(1, 4);
    let b = inst.subrange(2, 4);
    assert(all_nibbles(a));
    assert(all_nibbles(b));
    lemma_combine_hex_digits(a);
    lemma_combine_hex_digits(b);
    assert(a.drop_last() =~= seq![inst[1], inst[2]]);
    assert(seq![inst[1], inst[2]].drop_last() =~= seq![inst[1]]);
    assert(seq![inst[1]].drop_last() =~= Seq::<u8>::empty());
    assert(b.drop_last() =~= seq![inst[2]]);
    assert(seq![inst[2]].drop_last() =~= Seq::<u8>::empty());
    assert(hex_value(Seq::<u8>::empty()) == 0);
    assert(hex_value(seq![inst[1]]) == inst[1]);
    assert(hex_value(seq![inst[2]]) == inst[2]);
    assert(hex_value(seq![inst[1], inst[2]]) == inst[1] * 16 + inst[2]);
    assert(a.last() == inst[3] && b.last() == inst[3]);
    assert(hex_value(a) == (inst[1] * 16 + inst[2]) * 16 + inst[3]);
    assert(hex_value(b) == inst[2] * 16 + inst[3]);
}

/// A return right after a call comes back to the calling instruction with
/// the stack pointer restored; registers and memory are as before the call.
pub proof fn law_ret_undoes_call(m: Machine, inst: Seq<u8>)
    requires
        m.wf(),
        m.call_addr_ok(inst),
    ensures
        m.call_addr(inst).ret_ok(),
        m.call_addr(inst).ret().pc == m.pc,
        m.call_addr(inst).ret().sp == m.sp,
        m.call_addr(inst).ret().v == m.v,
        m.call_addr(inst).ret().i == m.i,
        m.call_addr(inst).ret().ram == m.ram,
{
}

/// Run as cycles, a call followed by a return resumes at the instruction
/// after the call.
pub proof fn law_call_then_ret_resumes_after_call(
    m: Machine,
    call: Seq<u8>,
    ret: Seq<u8>,
    r1: u8,
    r2: u8,
)
    requires
        m.wf(),
        m.call_addr_ok(call),
        m.pc + 2 <= 0xffff,
    ensures
        m.next(Op::Call, call, r1).cycle_ok(Op::Ret, ret),
        m.next(Op::Call, call, r1).next(Op::Ret, ret, r2).pc == m.pc + 2,
        m.next(Op::Call, call, r1).next(Op::Ret, ret, r2).sp == m.sp,
{
}

/// Loading registers from where they were just stored gives them back.
pub proof fn law_load_after_store(m: Machine, inst: Seq<u8>)
    requires
        m.wf(),
        m.ld_i_vx_ok(inst),
    ensures
        m.ld_i_vx(inst).ld_vx_i_ok(inst),
        m.ld_i_vx(inst).ld_vx_i(inst).v =~= m.v,
        m.ld_i_vx(inst).ld_vx_i(inst).i == m.i,
{
}

/// The three bytes written by the decimal conversion are decimal digits
/// that spell `Vx`.
pub proof fn law_bcd_digits(m: Machine, inst: Seq<u8>)
    requires
        m.wf(),
        m.ls_b_vx_ok(inst),
    ensures
        ({
            let ram = m.ls_b_vx(inst).ram;
            let i = m.i as int;
            &&& ram[i] < 10 && ram[i + 1] < 10 && ram[i + 2] < 10
            &&& ram[i] * 100 + ram[i + 1] * 10 + ram[i + 2] == m.v[reg_x(inst)]
        }),
{
}

/// Once the font is in memory, pointing `I` at the sprite of a digit
/// 0..=15 finds that digit's five rows there.
pub proof fn law_font_sprite(m: Machine, inst: Seq<u8>)
    requires
        m.wf(),
        Machine::x_ok(inst),
        m.v[reg_x(inst)] < 16,
    ensures
        m.write_hex_sprites().lf_f_vx_ok(inst),
        ({
            let d = m.v[reg_x(inst)] as int;
            let f = m.write_hex_sprites().lf_f_vx(inst);
            &&& f.i == 5 * d
            &&& f.ram.subrange(f.i as int, f.i + 5) =~= font().subrange(5 * d, 5 * d + 5)
        }),
{
    let d = m.v[reg_x(inst)] as int;
    let f = m.write_hex_sprites().lf_f_vx(inst);
    assert(font().len() == 80);
    assert forall|k: int| 0 <= k < 5 implies #[trigger] f.ram.subrange(f.i as int, f.i + 5)[k]
        == font().subrange(5 * d, 5 * d + 5)[k] by {
        assert(f.ram[5 * d + k] == font()[5 * d + k]);
    }
}

/// Of the two byte comparisons, exactly one skips the next instruction.
pub proof fn law_skips_are_complementary(m: Machine, inst: Seq<u8>)
    requires
        m.wf(),
        m.se_vx_byte_ok(inst),
        m.sne_vx_byte_ok(inst),
    ensures
        m.se_vx_byte(inst).pc + m.sne_vx_byte(inst).pc == 2 * m.pc + 2,
{
}

/// Adding registers is exact once the carry is counted: the new `Vx` plus
/// 256 times the carry in `VF` is the sum of the old `Vx` and `Vy`.
pub proof fn law_add_carry_is_exact(m: Machine, inst: Seq<u8>)
    requires
        m.wf(),
        Machine::xy_ok(inst),
        reg_x(inst) != 15,
        reg_y(inst) != 15,
    ensures
        m.add_vx_vy(inst).v[reg_x(inst)] + 256 * m.add_vx_vy(inst).v[15] == m.v[reg_x(inst)]
            + m.v[reg_y(inst)],
{
}

/// Shifting right keeps the bit shifted out in `VF`: old `Vx` is twice the
/// new `Vx` plus `VF`.
pub proof fn law_shr_keeps_low_bit(m: Machine, inst: Seq<u8>)
    requires
        m.wf(),
        Machine::x_ok(inst),
        reg_x(inst) != 15,
    ensures
        m.v[reg_x(inst)] == 2 * m.shr_vx(inst).v[reg_x(inst)] + m.shr_vx(inst).v[15],
{
}

/// Shifting left keeps the bit shifted out in `VF`: twice the old `Vx` is
/// the new `Vx` plus 256 times `VF`.
pub proof fn law_shl_keeps_high_bit(m: Machine, inst: Seq<u8>)
    requires
        m.wf(),
        Machine::x_ok(inst),
        reg_x(inst) != 15,
    ensures
        2 * m.v[reg_x(inst)] == m.shl_vx(inst).v[reg_x(inst)] + 256 * m.shl_vx(inst).v[15],
{
}

/// Drawing the same sprite at the same place twice erases it: memory is as
/// before. (The sprite must lie outside the display buffer, and the
/// position must not be held in `VF`, which the first drawing overwrites.)
pub proof fn law_draw_twice_restores_memory(m: Machine, inst: Seq<u8>)
    requires
        m.wf(),
        m.drw_vx_vy_nibble_ok(inst),
        reg_x(inst) != 15,
        reg_y(inst) != 15,
        m.i + inst[3] <= SCREEN_START,
    ensures
        m.drw_vx_vy_nibble(inst).drw_vx_vy_nibble_ok(inst),
        m.drw_vx_vy_nibble(inst).drw_vx_vy_nibble(inst).ram =~= m.ram,
{
    let x = m.v[reg_x(inst)];
    let y = m.v[reg_y(inst)];
    let n = inst[3] as nat;
    let sprite = m.ram.subrange(m.i as int, m.i + n);
    let m1 = m.drw_vx_vy_nibble(inst);
    assert(rows_in_range(x, y, n));
    lemma_draw_rows_frame(m.ram, sprite, x, y, n);
    assert(m1.ram.subrange(m1.i as int, m1.i + n) =~= sprite) by {
        assert forall|k: int| 0 <= k < n implies #[trigger] m1.ram.subrange(
            m1.i as int,
            m1.i + n,
        )[k] == sprite[k] by {
            assert(m1.ram[m.i + k] == m.ram[m.i + k]);
        }
    }
    lemma_draw_rows_twice(m.ram, sprite, x, y, n);
}

/// Drawing, byte by byte: sprite row `r` (the byte at `I + r`) is XORed,
/// shifted right by `Vx mod 8`, into display byte
/// `SCREEN_START + 8 (Vy + r) + Vx / 8`, and its remaining low bits, shifted
/// to the top, into `SCREEN_START + 8 (Vy + r) + (Vx / 8 + 1) mod 8`; no
/// other byte of memory changes; and `VF` becomes 1 exactly when some row
/// met a lit pixel of the display as it was before drawing, 0 otherwise.
pub proof fn law_draw_bytewise(m: Machine, inst: Seq<u8>)
    requires
        m.wf(),
        m.drw_vx_vy_nibble_ok(inst),
    ensures
        ({
            let x = m.v[reg_x(inst)];
            let y = m.v[reg_y(inst)];
            let n = inst[3] as int;
            let off = x % 8;
            let after = m.drw_vx_vy_nibble(inst);
            &&& forall|r: int|
                0 <= r < n ==> after.ram[#[trigger] row_base(y, r) + x / 8] == m.ram[row_base(y, r)
                    + x / 8] ^ (m.ram[m.i + r] >> off)
            &&& forall|r: int|
                0 <= r < n ==> after.ram[#[trigger] row_base(y, r) + (x / 8 + 1) % 8] == m.ram[
                    row_base(y, r) + (x / 8 + 1) % 8] ^ (if off == 0 {
                    0u8
                } else {
                    m.ram[m.i + r] << ((8 - off) as u8)
                })
            &&& forall|a: int|
                0 <= a < 4096 && (forall|r: int|
                    0 <= r < n ==> a != #[trigger] row_base(y, r) + x / 8 && a != row_base(y, r) + (x
                        / 8 + 1) % 8) ==> #[trigger] after.ram[a] == m.ram[a]
            &&& after.v[15] == 1 <==> exists|r: int|
                0 <= r < n && (((m.ram[m.i + r] >> off) & m.ram[#[trigger] row_base(y, r) + x / 8])
                    != 0 || ((if off == 0 {
                    0u8
                } else {
                    m.ram[m.i + r] << ((8 - off) as u8)
                }) & m.ram[row_base(y, r) + (x / 8 + 1) % 8]) != 0)
            &&& after.v[15] == 0 || after.v[15] == 1
        }),
{
    let x = m.v[reg_x(inst)];
    let y = m.v[reg_y(inst)];
    let n = inst[3] as nat;
    let off = x % 8;
    let sprite = m.ram.subrange(m.i as int, m.i + n);
    let after = m.drw_vx_vy_nibble(inst);
    assert(rows_in_range(x, y, n));
    lemma_draw_rows_bytewise(m.ram, sprite, x, y, n);
    lemma_draw_rows_collision(m.ram, sprite, x, y, n);
    if n > 0 {
        assert(((x + 8) % 64) / 8 == ((x / 8) + 1) % 8) by (bit_vector)
            requires
                x + 8 <= 255,
        ;
    }
    assert forall|r: int| 0 <= r < n implies {
        &&& first_index(x, y, r) == row_base(y, r) + x / 8
        &&& second_index(x, y, r) == row_base(y, r) + (x / 8 + 1) % 8
        &&& #[trigger] sprite[r] == m.ram[m.i + r]
        &&& first_mask(sprite[r], x) == m.ram[m.i + r] >> off
        &&& second_mask(sprite[r], x) == (if off == 0 {
            0u8
        } else {
            m.ram[m.i + r] << ((8 - off) as u8)
        })
    } by {}
    assert forall|r: int| 0 <= r < n implies after.ram[#[trigger] row_base(y, r) + x / 8]
        == m.ram[row_base(y, r) + x / 8] ^ (m.ram[m.i + r] >> off) by {
        assert(sprite[r] == m.ram[m.i + r]);
        assert(after.ram[first_index(x, y, r)] == m.ram[first_index(x, y, r)] ^ first_mask(
            sprite[r],
            x,
        ));
    }
    assert forall|r: int| 0 <= r < n implies after.ram[#[trigger] row_base(y, r) + (x / 8 + 1) % 8]
        == m.ram[row_base(y, r) + (x / 8 + 1) % 8] ^ (if off == 0 {
        0u8
    } else {
        m.ram[m.i + r] << ((8 - off) as u8)
    }) by {
        assert(sprite[r] == m.ram[m.i + r]);
        assert(after.ram[second_index(x, y, r)] == m.ram[second_index(x, y, r)] ^ second_mask(
            sprite[r],
            x,
        ));
    }
    assert forall|a: int|
        0 <= a < 4096 && (forall|r: int|
            0 <= r < n ==> a != #[trigger] row_base(y, r) + x / 8 && a != row_base(y, r) + (x / 8
                + 1) % 8) implies #[trigger] after.ram[a] == m.ram[a] by {
        assert forall|r: int| 0 <= r < n implies a != #[trigger] first_index(x, y, r) && a
            != second_index(x, y, r) by {
            assert(a != row_base(y, r) + x / 8);
        }
        assert(untouched(x, y, n as int, a));
    }
    let hit = exists|r: int|
        0 <= r < n && (((m.ram[m.i + r] >> off) & m.ram[#[trigger] row_base(y, r) + x / 8]) != 0
            || ((if off == 0 {
            0u8
        } else {
            m.ram[m.i + r] << ((8 - off) as u8)
        }) & m.ram[row_base(y, r) + (x / 8 + 1) % 8]) != 0);
    if hit {
        let w = choose|r: int|
            0 <= r < n && (((m.ram[m.i + r] >> off) & m.ram[#[trigger] row_base(y, r) + x / 8])
                != 0 || ((if off == 0 {
                0u8
            } else {
                m.ram[m.i + r] << ((8 - off) as u8)
            }) & m.ram[row_base(y, r) + (x / 8 + 1) % 8]) != 0);
        assert(sprite[w] == m.ram[m.i + w]);
        assert(row_hit(m.ram, sprite, x, y, w));
    }
    if after.v[15] == 1 {
        let w = choose|r: int| 0 <= r < n && #[trigger] row_hit(m.ram, sprite, x, y, r);
        assert(sprite[w] == m.ram[m.i + w]);
        assert(first_index(x, y, w) == row_base(y, w) + x / 8);
        assert(second_index(x, y, w) == row_base(y, w) + (x / 8 + 1) % 8);
    }
}

/// First display byte of row `r` of a sprite drawn at height `y`.
pub open spec fn row_base(y: u8, r: int) -> int {
    3839 + 8 * (y + r)
}

/// After clearing, every pixel of the display is off.
pub proof fn law_cls_darkens_every_pixel(m: Machine, k: int)
    requires
        m.wf(),
        0 <= k < 2048,
    ensures
        !pixel_spec(m.cls().ram.skip(SCREEN_START as int), k).on,
{
    let screen = m.cls().ram.skip(SCREEN_START as int);
    let bit = (k % 8) as u8;
    assert(screen[(k / 64) * 8 + (k / 8) % 8] == 0);
    assert(((0u8 >> bit) & 1) == 0) by (bit_vector);
}

/// No cycle changes the timers, and every cycle keeps the sizes of memory,
/// registers and stack.
pub proof fn law_cycle_keeps_timers_and_shape(m: Machine, op: Op, inst: Seq<u8>, r: u8)
    requires
        m.wf(),
        m.cycle_ok(op, inst),
    ensures
        m.next(op, inst, r).wf(),
        m.next(op, inst, r).dt == m.dt,
        m.next(op, inst, r).st == m.st,
{
    if op == Op::Drw {
        let x = m.v[reg_x(inst)];
        let y = m.v[reg_y(inst)];
        let n = inst[3] as nat;
        lemma_draw_rows_frame(m.ram, m.ram.subrange(m.i as int, m.i + n), x, y, n);
    }
}

/// A freshly booted machine holds the font at address 0, the program at
/// `PROGRAM_START`, and starts there with an empty stack.
pub proof fn law_boot_layout(program: Seq<u8>)
    requires
        program.len() <= 3584,
    ensures
        Machine::booted(program).ram.subrange(0, 80) =~= font(),
        Machine::booted(program).ram.subrange(
            PROGRAM_START as int,
            PROGRAM_START + program.len(),
        ) =~= program,
        Machine::booted(program).ram.len() == 4096,
        Machine::booted(program).pc == PROGRAM_START,
        Machine::booted(program).sp == 0,
{
}

/// Subtraction is exact modulo 256: the new `Vx` is `Vx - Vy`, plus 256
/// when that is negative, and `VF` is 1 exactly when `Vx > Vy`.
pub proof fn law_sub_is_modular(m: Machine, inst: Seq<u8>)
    requires
        m.wf(),
        Machine::xy_ok(inst),
        reg_x(inst) != 15,
        reg_y(inst) != 15,
    ensures
        ({
            let vx = m.v[reg_x(inst)] as int;
            let vy = m.v[reg_y(inst)] as int;
            let after = m.sub_vx_vy(inst);
            &&& after.v[reg_x(inst)] == if vx >= vy { vx - vy } else { vx - vy + 256 }
            &&& after.v[15] == if vx > vy { 1int } else { 0 }
        }),
{
}

/// Reverse subtraction is exact modulo 256: the new `Vx` is `Vy - Vx`, plus
/// 256 when that is negative, and `VF` is 1 exactly when `Vy > Vx`.
pub proof fn law_subn_is_modular(m: Machine, inst: Seq<u8>)
    requires
        m.wf(),
        Machine::xy_ok(inst),
        reg_x(inst) != 15,
        reg_y(inst) != 15,
    ensures
        ({
            let vx = m.v[reg_x(inst)] as int;
            let vy = m.v[reg_y(inst)] as int;
            let after = m.subn_vx_vy(inst);
            &&& after.v[reg_x(inst)] == if vy >= vx { vy - vx } else { vy - vx + 256 }
            &&& after.v[15] == if vy > vx { 1int } else { 0 }
        }),
{
}

/// The offset jump lands at the sum, as integers, of its address operand
/// and `V0`.
pub proof fn law_jp_v0_adds(m: Machine, inst: Seq<u8>)
    requires
        m.wf(),
        m.jp_v0_addr_ok(inst),
    ensures
        m.jp_v0_addr(inst).pc == addr_operand(inst) + m.v[0],
        m.jp_v0_addr(inst).v == m.v,
{
}

/// The register comparison skips (moves the program counter on by two)
/// exactly when `Vx == Vy`, and changes nothing else.
pub proof fn law_se_vx_vy_skips_on_equal(m: Machine, inst: Seq<u8>)
    requires
        m.wf(),
        m.se_vx_vy_ok(inst),
    ensures
        m.se_vx_vy(inst).pc == if m.v[reg_x(inst)] == m.v[reg_y(inst)] {
            m.pc + 2
        } else {
            m.pc as int
        },
        m.se_vx_vy(inst).v == m.v,
        m.se_vx_vy(inst).ram == m.ram,
{
}

/// The byte comparisons: the equality test skips exactly when `Vx == kk`,
/// the inequality test exactly when `Vx != kk`; nothing else changes.
pub proof fn law_byte_skips(m: Machine, inst: Seq<u8>)
    requires
        m.wf(),
        m.se_vx_byte_ok(inst),
        m.sne_vx_byte_ok(inst),
    ensures
        m.se_vx_byte(inst).pc == if m.v[reg_x(inst)] == byte_operand(inst) {
            m.pc + 2
        } else {
            m.pc as int
        },
        m.sne_vx_byte(inst).pc == if m.v[reg_x(inst)] != byte_operand(inst) {
            m.pc + 2
        } else {
            m.pc as int
        },
        m.se_vx_byte(inst).v == m.v,
        m.sne_vx_byte(inst).v == m.v,
{
}

/// Where each painted pixel lies: pixel `k` is the display cell at column
/// `x / 10` (0..64) and row `y / 10` (0..32), its rectangle starts at ten
/// times those, it is lit exactly when the bit for that column (most
/// significant bit leftmost) of the row's byte is set, and `k` is determined
/// by the cell, so no cell is painted twice.
pub proof fn law_pixel_position(screen: Seq<u8>, k: int)
    requires
        screen.len() >= 256,
        0 <= k < 2048,
    ensures
        ({
            let p = pixel_spec(screen, k);
            let col = p.x / 10;
            let row = p.y / 10;
            &&& p.x == 10 * col && p.y == 10 * row
            &&& 0 <= col < 64 && 0 <= row < 32
            &&& p.on == (((screen[row * 8 + col / 8] >> ((7 - col % 8) as u8)) & 1) == 1)
            &&& k == row * 64 + (col / 8) * 8 + (7 - col % 8)
        }),
{
    let row = k / 64;
    let c = (k / 8) % 8;
    let bit = k % 8;
    let col = c * 8 + 7 - bit;
    assert(k == row * 64 + c * 8 + bit);
    assert(0 <= col < 64);
    let p = pixel_spec(screen, k);
    assert(p.x == col * 10);
    assert(p.y == row * 10);
    assert(col / 8 == c && col % 8 == 7 - bit);
    let b = screen[row * 8 + c];
    let sh = bit as u8;
    assert(((b >> sh) & 1) != 0 <==> ((b >> sh) & 1) == 1) by (bit_vector);
}

/// A lower-case hexadecimal digit's value, or -1 for any other character.
pub open spec fn hex_digit_value(c: char) -> int {
    if 48 <= c as int <= 57 {
        c as int - 48
    } else if 97 <= c as int <= 102 {
        c as int - 87
    } else {
        -1
    }
}

/// The number a string of hexadecimal digits spells, most significant first.
pub open spec fn read_hex(s: Seq<char>) -> int
    decreases s.len(),
{
    if s.len() == 0 {
        0
    } else {
        read_hex(s.drop_last()) * 16 + hex_digit_value(s.last())
    }
}

/// The hexadecimal text of a number is made of lower-case hexadecimal
/// digits, starts with `0` only for zero, and reads back as the number.
pub proof fn law_hex_text_reads_back(v: nat)
    ensures
        hex_text(v).len() >= 1,
        forall|i: int| 0 <= i < hex_text(v).len() ==> 0 <= #[trigger] hex_digit_value(hex_text(v)[i]) < 16,
        hex_text(v)[0] == '0' ==> v == 0,
        read_hex(hex_text(v)) == v,
    decreases v,
{
    if v >= 16 {
        law_hex_text_reads_back(v / 16);
        let t = hex_text(v);
        assert(t.drop_last() =~= hex_text(v / 16));
        assert(t[0] == hex_text(v / 16)[0]);
        assert forall|i: int| 0 <= i < t.len() implies 0 <= #[trigger] hex_digit_value(t[i]) < 16 by {
            if i < t.len() - 1 {
                assert(t[i] == hex_text(v / 16)[i]);
            }
        }
        let d = (v % 16) as int;
        assert(t.last() == hex_char(d));
        assert(hex_digit_value(hex_char(d)) == d);
        assert(v == (v / 16) * 16 + d);
    } else {
        assert(hex_text(v).drop_last() =~= Seq::<char>::empty());
        assert(read_hex(Seq::<char>::empty()) == 0);
        assert(hex_digit_value(hex_char(v as int)) == v);
    }
}

/// The keypad layout: the keys `X 1 2 3 Q W E A S D Z C 4 R F V` stand for
/// 0..=15 in that order; a keypad key ends the wait for a key, `K` stops the
/// interpreter, any other key is ignored.
pub proof fn law_keypad_layout(key: KeyCode)
    ensures
        key_value(KeyCode::X) == 0,
        key_value(KeyCode::Num1) == 1,
        key_value(KeyCode::Num2) == 2,
        key_value(KeyCode::Num3) == 3,
        key_value(KeyCode::Q) == 4,
        key_value(KeyCode::W) == 5,
        key_value(KeyCode::E) == 6,
        key_value(KeyCode::A) == 7,
        key_value(KeyCode::S) == 8,
        key_value(KeyCode::D) == 9,
        key_value(KeyCode::Z) == 10,
        key_value(KeyCode::C) == 11,
        key_value(KeyCode::Num4) == 12,
        key_value(KeyCode::R) == 13,
        key_value(KeyCode::F) == 14,
        key_value(KeyCode::V) == 15,
        key_value(KeyCode::K) == 16,
        key_value(KeyCode::Other) == 16,
        key_wait(KeyCode::K) == KeyWait::Quit,
        key_wait(KeyCode::Other) == KeyWait::Ignored,
        key_value(key) < 16 <==> key_wait(key) == KeyWait::Loaded,
{
}

/// A key press stored by the key wait lands in `Vx` and nowhere else.
pub proof fn law_key_lands_in_vx(m: Machine, inst: Seq<u8>, key: u8)
    requires
        m.wf(),
        Machine::x_ok(inst),
    ensures
        m.ld_vx_k(inst, key).v[reg_x(inst)] == key,
        forall|k: int|
            0 <= k < 16 && k != reg_x(inst) ==> #[trigger] m.ld_vx_k(inst, key).v[k] == m.v[k],
        m.ld_vx_k(inst, key).pc == m.pc,
        m.ld_vx_k(inst, key).ram == m.ram,
{
}

} // verus!
