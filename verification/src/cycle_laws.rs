//! What one cycle does, stated directly in terms of the two instruction
//! bytes at the program counter and the registers, per opcode.
use vstd::prelude::*;
use crate::machine::{Machine, byte_operand, addr_operand};
use crate::cycle::{Op, decode_spec};
use crate::laws::law_fetched_operands;

verus! {

/// The machine after one cycle (as `Computer::step` leaves it when the
/// cycle runs), with `r` the random byte.
pub open spec fn one_cycle(m: Machine, r: u8) -> Machine {
    m.next(decode_spec(m.fetch()), m.fetch(), r)
}

/// The high byte of the instruction at the program counter.
pub open spec fn hi_byte(m: Machine) -> int {
    m.ram[m.pc as int] as int
}

/// The low byte of the instruction at the program counter.
pub open spec fn lo_byte(m: Machine) -> int {
    m.ram[m.pc + 1] as int
}

/// Skips: `3xkk` skips the next instruction (the program counter moves on
/// by four) exactly when `Vx == kk`, `4xkk` exactly when `Vx != kk`, and
/// `5xy0` exactly when `Vx == Vy`; otherwise the program counter moves on
/// by two. Nothing else changes.
pub proof fn law_cycle_skips(m: Machine, r: u8)
    requires
        m.wf(),
        m.can_fetch(),
    ensures
        ({
            let op = hi_byte(m) / 16;
            let x = hi_byte(m) % 16;
            let y = lo_byte(m) / 16;
            let kk = lo_byte(m);
            let after = one_cycle(m, r);
            &&& op == 3 ==> after.pc == if m.v[x] == kk { m.pc + 4 } else { m.pc + 2 }
            &&& op == 4 ==> after.pc == if m.v[x] != kk { m.pc + 4 } else { m.pc + 2 }
            &&& op == 5 ==> after.pc == if m.v[x] == m.v[y] { m.pc + 4 } else { m.pc + 2 }
            &&& (op == 3 || op == 4 || op == 5) ==> {
                &&& after.v == m.v
                &&& after.ram == m.ram
                &&& after.i == m.i
                &&& after.sp == m.sp
                &&& after.stack == m.stack
            }
        }),
{
    law_fetched_operands(m);
    let inst = m.fetch();
    assert(byte_operand(inst) == lo_byte(m));
}

/// Control flow: `1nnn` jumps to `nnn`; `Bnnn` jumps to `nnn + V0`;
/// `2nnn` pushes the program counter one slot up the stack and jumps to
/// `nnn`; `00EE` returns to the instruction after the one whose address is
/// on top of the stack and pops it; `00E0` clears the display buffer and
/// moves on. Here `nnn` is the number the low nibble of the high byte and
/// the low byte spell.
pub proof fn law_cycle_control_flow(m: Machine, r: u8)
    requires
        m.wf(),
        m.can_fetch(),
    ensures
        ({
            let op = hi_byte(m) / 16;
            let nnn = (hi_byte(m) % 16) * 256 + lo_byte(m);
            let after = one_cycle(m, r);
            &&& op == 1 ==> after.pc == nnn && after.v == m.v && after.sp == m.sp
            &&& op == 0xb ==> after.pc == nnn + m.v[0] && after.v == m.v
            &&& op == 2 && m.sp + 1 < 16 ==> {
                &&& after.pc == nnn
                &&& after.sp == m.sp + 1
                &&& after.stack[m.sp + 1] == m.pc
                &&& forall|k: int| 0 <= k < 16 && k != m.sp + 1 ==> after.stack[k] == m.stack[k]
                &&& after.v == m.v
            }
            &&& hi_byte(m) == 0 && lo_byte(m) == 0xee && 1 <= m.sp < 16 && m.stack[m.sp as int]
                + 2 <= 0xffff ==> {
                &&& after.pc == m.stack[m.sp as int] + 2
                &&& after.sp == m.sp - 1
                &&& after.v == m.v
            }
            &&& hi_byte(m) == 0 && lo_byte(m) == 0xe0 ==> {
                &&& after.pc == m.pc + 2
                &&& forall|a: int| 0 <= a < 4096 ==> #[trigger] after.ram[a] == if a >= 3839 {
                    0
                } else {
                    m.ram[a]
                }
            }
        }),
{
    law_fetched_operands(m);
    let inst = m.fetch();
    assert(addr_operand(inst) == (hi_byte(m) % 16) * 256 + lo_byte(m));
}

/// Register logic, `8xyn` for `n` in 0..=3 with `x` other than `VF`: the new
/// `Vx` is `Vy`, `Vx OR Vy`, `Vx AND Vy` or `Vx XOR Vy`; every other register
/// and memory are unchanged and the program counter moves on by two.
pub proof fn law_cycle_register_logic(m: Machine, r: u8)
    requires
        m.wf(),
        m.can_fetch(),
        hi_byte(m) / 16 == 8,
        hi_byte(m) % 16 != 15,
        lo_byte(m) % 16 <= 3,
    ensures
        ({
            let n = lo_byte(m) % 16;
            let x = hi_byte(m) % 16;
            let y = lo_byte(m) / 16;
            let after = one_cycle(m, r);
            &&& n == 0 ==> after.v[x] == m.v[y]
            &&& n == 1 ==> after.v[x] == (m.v[x] | m.v[y])
            &&& n == 2 ==> after.v[x] == (m.v[x] & m.v[y])
            &&& n == 3 ==> after.v[x] == (m.v[x] ^ m.v[y])
            &&& forall|k: int| 0 <= k < 16 && k != x ==> #[trigger] after.v[k] == m.v[k]
            &&& after.pc == m.pc + 2
            &&& after.ram == m.ram
            &&& after.i == m.i
        }),
{
    law_fetched_operands(m);
}

/// Register arithmetic, `8xy4`, `8xy5`, `8xy7` with `x` and `y` other than
/// `VF`: the sum, difference or reverse difference modulo 256, with `VF` the
/// carry (sum over 255), or 1 exactly when the minuend is the larger;
/// every other register unchanged and the program counter moved on by two.
pub proof fn law_cycle_register_arithmetic(m: Machine, r: u8)
    requires
        m.wf(),
        m.can_fetch(),
        hi_byte(m) / 16 == 8,
        hi_byte(m) % 16 != 15,
        lo_byte(m) / 16 != 15,
        lo_byte(m) % 16 == 4 || lo_byte(m) % 16 == 5 || lo_byte(m) % 16 == 7,
    ensures
        ({
            let n = lo_byte(m) % 16;
            let x = hi_byte(m) % 16;
            let vx = m.v[x] as int;
            let vy = m.v[lo_byte(m) / 16] as int;
            let after = one_cycle(m, r);
            &&& n == 4 ==> {
                &&& after.v[x] == if vx + vy < 256 { vx + vy } else { vx + vy - 256 }
                &&& after.v[15] == if vx + vy > 255 { 1int } else { 0 }
            }
            &&& n == 5 ==> {
                &&& after.v[x] == if vx >= vy { vx - vy } else { vx - vy + 256 }
                &&& after.v[15] == if vx > vy { 1int } else { 0 }
            }
            &&& n == 7 ==> {
                &&& after.v[x] == if vy >= vx { vy - vx } else { vy - vx + 256 }
                &&& after.v[15] == if vy > vx { 1int } else { 0 }
            }
            &&& forall|k: int| 0 <= k < 15 && k != x ==> #[trigger] after.v[k] == m.v[k]
            &&& after.pc == m.pc + 2
            &&& after.ram == m.ram
        }),
{
    law_fetched_operands(m);
}

/// Shifts, `8xy6` and `8xyE` with `x` other than `VF`: the bit shifted out
/// lands in `VF` (0 or 1), so that twice the new `Vx` plus `VF` is the old
/// `Vx` (right shift), or the new `Vx` plus 256 times `VF` is twice the old
/// `Vx` (left shift); every other register unchanged and the program
/// counter moved on by two.
pub proof fn law_cycle_register_shifts(m: Machine, r: u8)
    requires
        m.wf(),
        m.can_fetch(),
        hi_byte(m) / 16 == 8,
        hi_byte(m) % 16 != 15,
        lo_byte(m) % 16 == 6 || lo_byte(m) % 16 == 0xe,
    ensures
        ({
            let n = lo_byte(m) % 16;
            let x = hi_byte(m) % 16;
            let vx = m.v[x] as int;
            let after = one_cycle(m, r);
            &&& n == 6 ==> 2 * after.v[x] + after.v[15] == vx
            &&& n == 0xe ==> after.v[x] + 256 * after.v[15] == 2 * vx
            &&& after.v[15] <= 1
            &&& forall|k: int| 0 <= k < 15 && k != x ==> #[trigger] after.v[k] == m.v[k]
            &&& after.pc == m.pc + 2
            &&& after.ram == m.ram
        }),
{
    law_fetched_operands(m);
}

/// Immediate operands: `6xkk` loads `kk` into `Vx`, `7xkk` adds it modulo
/// 256, `Cxkk` stores `kk AND r` for the random byte `r`, and `Annn` loads
/// `nnn` into `I`; each moves the program counter on by two.
pub proof fn law_cycle_immediates(m: Machine, r: u8)
    requires
        m.wf(),
        m.can_fetch(),
    ensures
        ({
            let op = hi_byte(m) / 16;
            let x = hi_byte(m) % 16;
            let kk = lo_byte(m);
            let nnn = x * 256 + kk;
            let after = one_cycle(m, r);
            &&& op == 6 ==> after.v[x] == kk
            &&& op == 7 ==> after.v[x] == (m.v[x] + kk) % 256
            &&& op == 0xc ==> after.v[x] == (m.ram[m.pc + 1] & r)
            &&& op == 0xa ==> after.i == nnn && after.v == m.v
            &&& (op == 6 || op == 7 || op == 0xc) ==> forall|k: int|
                0 <= k < 16 && k != x ==> #[trigger] after.v[k] == m.v[k]
            &&& (op == 6 || op == 7 || op == 0xc || op == 0xa) ==> after.pc == m.pc + 2
                && after.ram == m.ram
        }),
{
    law_fetched_operands(m);
    let inst = m.fetch();
    assert(byte_operand(inst) == lo_byte(m));
    assert(addr_operand(inst) == (hi_byte(m) % 16) * 256 + lo_byte(m));
}

/// The `Fxkk` instructions: `Fx07` copies the delay timer into `Vx`;
/// `Fx1E` adds `Vx` to `I` modulo 65536; `Fx29` points `I` at `5 * Vx`;
/// `Fx33` writes the hundreds, tens and ones of `Vx` at `I`, `I+1`, `I+2`;
/// `Fx55` stores `V0..=Vx` at `I..`; `Fx65` loads them back from there.
/// Each moves the program counter on by two.
pub proof fn law_cycle_f_ops(m: Machine, r: u8)
    requires
        m.wf(),
        m.can_fetch(),
        hi_byte(m) / 16 == 0xf,
    ensures
        ({
            let x = hi_byte(m) % 16;
            let kk = lo_byte(m);
            let vx = m.v[x] as int;
            let base = m.i as int;
            let after = one_cycle(m, r);
            &&& kk == 0x07 ==> after.v[x] == m.dt && after.pc == m.pc + 2
            &&& kk == 0x1e ==> after.i == (base + vx) % 65536 && after.pc == m.pc + 2
            &&& kk == 0x29 && vx * 5 <= 255 ==> after.i == 5 * vx && after.pc == m.pc + 2
            &&& kk == 0x33 && base + 2 < 4096 ==> {
                &&& after.ram[base] * 100 + after.ram[base + 1] * 10 + after.ram[base + 2] == vx
                &&& after.ram[base] < 10 && after.ram[base + 1] < 10 && after.ram[base + 2] < 10
                &&& after.pc == m.pc + 2
            }
            &&& kk == 0x55 && base + x < 4096 ==> {
                &&& forall|k: int| 0 <= k <= x ==> #[trigger] after.ram[base + k] == m.v[k]
                &&& after.v == m.v
                &&& after.pc == m.pc + 2
            }
            &&& kk == 0x65 && base + x < 4096 ==> {
                &&& forall|k: int| 0 <= k <= x ==> #[trigger] after.v[k] == m.ram[base + k]
                &&& forall|k: int| x < k < 16 ==> #[trigger] after.v[k] == m.v[k]
                &&& after.ram == m.ram
                &&& after.pc == m.pc + 2
            }
        }),
{
    law_fetched_operands(m);
    let inst = m.fetch();
    assert(inst[2] * 16 + inst[3] == lo_byte(m));
}

/// The decoding table: which instruction each pattern of hexadecimal
/// digits `(a, b, c, d)` names.
pub proof fn law_decode_table(inst: Seq<u8>)
    requires
        inst.len() == 4,
    ensures
        ({
            let a = inst[0];
            let d = inst[3];
            let kk = inst[2] * 16 + inst[3];
            let op = decode_spec(inst);
            &&& a == 0 && d == 0 ==> op == Op::Cls
            &&& a == 0 && d == 0xe ==> op == Op::Ret
            &&& a == 0 && d != 0 && d != 0xe ==> op == Op::Invalid
            &&& a == 1 ==> op == Op::Jmp
            &&& a == 2 ==> op == Op::Call
            &&& a == 3 ==> op == Op::SeByte
            &&& a == 4 ==> op == Op::SneByte
            &&& a == 5 ==> op == Op::SeReg
            &&& a == 6 ==> op == Op::LdByte
            &&& a == 7 ==> op == Op::AddByte
            &&& a == 8 && d == 0 ==> op == Op::LdReg
            &&& a == 8 && d == 1 ==> op == Op::Or
            &&& a == 8 && d == 2 ==> op == Op::And
            &&& a == 8 && d == 3 ==> op == Op::Xor
            &&& a == 8 && d == 4 ==> op == Op::AddReg
            &&& a == 8 && d == 5 ==> op == Op::Sub
            &&& a == 8 && d == 6 ==> op == Op::Shr
            &&& a == 8 && d == 7 ==> op == Op::Subn
            &&& a == 8 && d == 0xe ==> op == Op::Shl
            &&& a == 8 && (d == 8 || d == 9 || (0xa <= d <= 0xd) || d >= 0xf) ==> op
                == Op::Unimplemented
            &&& a == 9 ==> op == Op::Unimplemented
            &&& a == 0xa ==> op == Op::LdI
            &&& a == 0xb ==> op == Op::JpV0
            &&& a == 0xc ==> op == Op::Rnd
            &&& a == 0xd ==> op == Op::Drw
            &&& a == 0xe ==> op == Op::Unimplemented
            &&& a == 0xf && kk == 0x07 ==> op == Op::LdDt
            &&& a == 0xf && kk == 0x0a ==> op == Op::LdKey
            &&& a == 0xf && kk == 0x1e ==> op == Op::AddI
            &&& a == 0xf && kk == 0x29 ==> op == Op::LdFont
            &&& a == 0xf && kk == 0x33 ==> op == Op::LdBcd
            &&& a == 0xf && kk == 0x55 ==> op == Op::StoreRegs
            &&& a == 0xf && kk == 0x65 ==> op == Op::LoadRegs
            &&& a >= 0x10 ==> op == Op::Unimplemented
        }),
{
}

/// When a cycle runs to completion: every fetched instruction does, except
/// a return without a return address or whose return address is at the
/// top of the address range, a call with a full stack, a font lookup for a
/// register above 51, decimal conversion or register transfer past the end
/// of memory, and a drawing whose sprite or rows leave memory.
pub proof fn law_cycle_completes(m: Machine)
    requires
        m.wf(),
        m.can_fetch(),
    ensures
        ({
            let op = hi_byte(m) / 16;
            let x = hi_byte(m) % 16;
            let y = lo_byte(m) / 16;
            let n = lo_byte(m) % 16;
            let kk = lo_byte(m);
            let vx = m.v[x] as int;
            let vy = m.v[y] as int;
            let inst = m.fetch();
            let ok = m.cycle_ok(decode_spec(inst), inst);
            &&& op == 0 && n == 0xe ==> (ok <==> 1 <= m.sp < 16 && m.stack[m.sp as int] + 2
                <= 0xffff)
            &&& op == 0 && n != 0xe ==> ok
            &&& op == 1 ==> ok
            &&& op == 2 ==> (ok <==> m.sp < 15)
            &&& (3 <= op <= 7 || op == 0xa || op == 0xb || op == 0xc) ==> ok
            &&& op == 8 && (n <= 7 || n == 0xe) ==> ok
            &&& op == 0xd ==> (ok <==> m.i + n <= 4096 && (n > 0 ==> vx + 8 <= 255 && (vy + n
                - 1) * 8 + vx / 8 <= 255 && (vy + n - 1) * 8 + ((vx + 8) % 64) / 8 <= 255))
            &&& op == 0xf && (kk == 0x07 || kk == 0x1e) ==> ok
            &&& op == 0xf && kk == 0x29 ==> (ok <==> vx * 5 <= 255)
            &&& op == 0xf && kk == 0x33 ==> (ok <==> m.i + 2 < 4096)
            &&& op == 0xf && (kk == 0x55 || kk == 0x65) ==> (ok <==> m.i + x < 4096)
        }),
{
    law_fetched_operands(m);
    let inst = m.fetch();
    assert(inst[2] * 16 + inst[3] == lo_byte(m));
    assert(addr_operand(inst) <= 0xfff);
}

/// `Dxyn` draws the `n`-row sprite at `I` at (`Vx`, `Vy`) and moves on by
/// two; the `0nnn` instructions other than clear and return only move on
/// by two.
pub proof fn law_cycle_draw_and_no_op(m: Machine, r: u8)
    requires
        m.wf(),
        m.can_fetch(),
    ensures
        ({
            let op = hi_byte(m) / 16;
            let n = lo_byte(m) % 16;
            let after = one_cycle(m, r);
            &&& op == 0xd ==> after == m.drw_vx_vy_nibble(
                seq![op as u8, (hi_byte(m) % 16) as u8, (lo_byte(m) / 16) as u8, n as u8],
            ).with_pc((m.pc + 2) as u16)
            &&& op == 0 && n != 0 && n != 0xe ==> after == m.with_pc((m.pc + 2) as u16)
        }),
{
    let inst = m.fetch();
    assert(inst =~= seq![
        (hi_byte(m) / 16) as u8,
        (hi_byte(m) % 16) as u8,
        (lo_byte(m) / 16) as u8,
        (lo_byte(m) % 16) as u8,
    ]);
}

} // verus!
