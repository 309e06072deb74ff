//! The machine state, its mathematical model, and the effect of every
//! instruction on that model.
use vstd::prelude::*;
use crate::combine::{combine_spec, combine_fits};

verus! {

/// Bytes of addressable memory.
pub const RAM_SIZE: usize = 4096;

/// First byte of the display buffer, which runs from here to the end of memory.
pub const SCREEN_START: usize = 3839;

/// Where programs are loaded and where execution starts.
pub const PROGRAM_START: u16 = 0x200;

/// The largest program that fits between `PROGRAM_START` and the end of memory.
pub const MAX_PROGRAM_SIZE: usize = 3584;

/// Bytes of the built-in hexadecimal font: five per digit.
pub const FONT_SIZE: usize = 80;

/// The registers of the processor.
pub struct CPU {
    /// General purpose registers V0..VF; VF doubles as the flag register.
    pub v: [u8; 16],
    /// The address register I.
    pub i: u16,
    /// Delay timer.
    pub dt: u8,
    /// Sound timer.
    pub st: u8,
    /// Program counter.
    pub pc: u16,
    /// Stack pointer: index in `stack` of the most recent return address.
    pub sp: u8,
    /// Return addresses of the active subroutine calls.
    pub stack: [u16; 16],
}

/// Memory and processor together.
pub struct Computer {
    pub ram: [u8; 4096],
    pub cpu: CPU,
}

/// The mathematical model of a `Computer`.
#[verifier::ext_equal]
pub struct Machine {
    pub ram: Seq<u8>,
    pub v: Seq<u8>,
    pub i: u16,
    pub dt: u8,
    pub st: u8,
    pub pc: u16,
    pub sp: u8,
    pub stack: Seq<u16>,
}

impl View for Computer {
    type V = Machine;

    open spec fn view(&self) -> Machine {
        Machine {
            ram: self.ram@,
            v: self.cpu.v@,
            i: self.cpu.i,
            dt: self.cpu.dt,
            st: self.cpu.st,
            pc: self.cpu.pc,
            sp: self.cpu.sp,
            stack: self.cpu.stack@,
        }
    }
}

impl Default for CPU {
    fn default() -> (cpu: CPU)
        ensures
            cpu.v@ == Seq::new(16, |k: int| 0u8),
            cpu.i == 0,
            cpu.dt == 0,
            cpu.st == 0,
            cpu.pc == 0,
            cpu.sp == 0,
            cpu.stack@ == Seq::new(16, |k: int| 0u16),
    {
        let cpu = CPU { v: [0u8; 16], i: 0, dt: 0, st: 0, pc: 0, sp: 0, stack: [0u16; 16] };
        assert(cpu.v@ =~= Seq::new(16, |k: int| 0u8));
        assert(cpu.stack@ =~= Seq::new(16, |k: int| 0u16));
        cpu
    }
}

impl Default for Computer {
    fn default() -> (c: Computer)
        ensures
            c@ == Machine::zeroed(),
    {
        let c = Computer { ram: [0u8; 4096], cpu: CPU::default() };
        assert(c.ram@ =~= Seq::new(4096, |k: int| 0u8));
        c
    }
}

/// The built-in font: the sprites of the hexadecimal digits 0..F, five rows each.
pub open spec fn font() -> Seq<u8> {
    seq![
        0xF0u8, 0x90, 0x90, 0x90, 0xF0,
        0x20, 0x60, 0x20, 0x20, 0x70,
        0xF0, 0x10, 0xF0, 0x80, 0xF0,
        0xF0, 0x10, 0xF0, 0x10, 0xF0,
        0x90, 0x90, 0xF0, 0x10, 0x10,
        0xF0, 0x80, 0xF0, 0x10, 0xF0,
        0xF0, 0x80, 0xF0, 0x90, 0xF0,
        0xF0, 0x10, 0x20, 0x40, 0x40,
        0xF0, 0x90, 0xF0, 0x90, 0xF0,
        0xF0, 0x90, 0xF0, 0x10, 0xF0,
        0xF0, 0x90, 0xF0, 0x90, 0x90,
        0xE0, 0x90, 0xE0, 0x90, 0xE0,
        0xF0, 0x80, 0x80, 0x80, 0xF0,
        0xE0, 0x90, 0x90, 0x90, 0xE0,
        0xF0, 0x80, 0xF0, 0x80, 0xF0,
        0xF0, 0x80, 0xF0, 0x80, 0x80
    ]
}

/// The register named by the second nibble of an instruction.
pub open spec fn reg_x(inst: Seq<u8>) -> int {
    inst[1] as int
}

/// The register named by the third nibble of an instruction.
pub open spec fn reg_y(inst: Seq<u8>) -> int {
    inst[2] as int
}

/// The immediate byte operand: the last two elements packed, cut to eight bits.
pub open spec fn byte_operand(inst: Seq<u8>) -> u8 {
    (combine_spec(inst.subrange(2, 4)) % 256) as u8
}

/// The address operand: the last three elements packed.
pub open spec fn addr_operand(inst: Seq<u8>) -> int {
    combine_spec(inst.subrange(1, 4))
}

/// Packing the address operand does not overflow.
pub open spec fn addr_fits(inst: Seq<u8>) -> bool {
    combine_fits(inst.subrange(1, 4))
}

/// The carry flag of adding two bytes.
pub open spec fn carry(a: u8, b: u8) -> u8 {
    if a + b > 255 { 1 } else { 0 }
}

impl Machine {
    /// All memory and registers zero.
    pub open spec fn zeroed() -> Machine {
        Machine {
            ram: Seq::new(4096, |k: int| 0u8),
            v: Seq::new(16, |k: int| 0u8),
            i: 0,
            dt: 0,
            st: 0,
            pc: 0,
            sp: 0,
            stack: Seq::new(16, |k: int| 0u16),
        }
    }

    /// The sizes of memory, registers and stack are those of a `Computer`.
    pub open spec fn wf(self) -> bool {
        &&& self.ram.len() == 4096
        &&& self.v.len() == 16
        &&& self.stack.len() == 16
    }

    pub open spec fn with_v(self, v: Seq<u8>) -> Machine {
        Machine { v: v, ..self }
    }

    pub open spec fn with_ram(self, ram: Seq<u8>) -> Machine {
        Machine { ram: ram, ..self }
    }

    pub open spec fn with_i(self, i: u16) -> Machine {
        Machine { i: i, ..self }
    }

    pub open spec fn with_pc(self, pc: u16) -> Machine {
        Machine { pc: pc, ..self }
    }

    /// `program` copied to memory from `PROGRAM_START` on.
    pub open spec fn load_program(self, program: Seq<u8>) -> Machine {
        self.with_ram(
            self.ram.take(PROGRAM_START as int) + program + self.ram.skip(
                PROGRAM_START + program.len(),
            ),
        )
    }

    /// The machine as it starts a program: everything zero but the font,
    /// the program at `PROGRAM_START` and the program counter there.
    pub open spec fn booted(program: Seq<u8>) -> Machine {
        Self::zeroed().with_pc(PROGRAM_START).write_hex_sprites().load_program(program)
    }

    /// The font copied to the start of memory.
    pub open spec fn write_hex_sprites(self) -> Machine {
        self.with_ram(font() + self.ram.skip(80))
    }

    /// `I := nnn`
    pub open spec fn ld_i_addr(self, inst: Seq<u8>) -> Machine {
        self.with_i(addr_operand(inst) as u16)
    }

    /// `Vx := kk AND r`, where `r` is a random byte.
    pub open spec fn rnd_vx_byte(self, inst: Seq<u8>, r: u8) -> Machine {
        self.with_v(self.v.update(reg_x(inst), byte_operand(inst) & r))
    }

    /// Skips the next instruction when `Vx != kk`.
    pub open spec fn sne_vx_byte(self, inst: Seq<u8>) -> Machine {
        if byte_operand(inst) != self.v[reg_x(inst)] {
            self.with_pc((self.pc + 2) as u16)
        } else {
            self
        }
    }

    /// Skips the next instruction when `Vx == kk`.
    pub open spec fn se_vx_byte(self, inst: Seq<u8>) -> Machine {
        if byte_operand(inst) == self.v[reg_x(inst)] {
            self.with_pc((self.pc + 2) as u16)
        } else {
            self
        }
    }

    /// Skips the next instruction when `Vx == Vy`.
    pub open spec fn se_vx_vy(self, inst: Seq<u8>) -> Machine {
        if self.v[reg_x(inst)] == self.v[reg_y(inst)] {
            self.with_pc((self.pc + 2) as u16)
        } else {
            self
        }
    }

    /// `Vx := Vx + kk`, modulo 256.
    pub open spec fn add_vx_byte(self, inst: Seq<u8>) -> Machine {
        self.with_v(
            self.v.update(reg_x(inst), ((self.v[reg_x(inst)] + byte_operand(inst)) % 256) as u8),
        )
    }

    /// `PC := nnn`
    pub open spec fn jmp_addr(self, inst: Seq<u8>) -> Machine {
        self.with_pc(addr_operand(inst) as u16)
    }

    /// `Vx := kk`
    pub open spec fn ld_vx_byte(self, inst: Seq<u8>) -> Machine {
        self.with_v(self.v.update(reg_x(inst), byte_operand(inst)))
    }

    /// Pushes `PC` one slot up the stack and jumps to `nnn`.
    pub open spec fn call_addr(self, inst: Seq<u8>) -> Machine {
        Machine {
            sp: (self.sp + 1) as u8,
            stack: self.stack.update(self.sp + 1, self.pc),
            pc: addr_operand(inst) as u16,
            ..self
        }
    }

    /// Returns to the address on top of the stack and pops it.
    pub open spec fn ret(self) -> Machine {
        Machine { pc: self.stack[self.sp as int], sp: (self.sp - 1) as u8, ..self }
    }

    /// `Vx := Vx AND Vy`
    pub open spec fn and_vx_vy(self, inst: Seq<u8>) -> Machine {
        self.with_v(self.v.update(reg_x(inst), self.v[reg_x(inst)] & self.v[reg_y(inst)]))
    }

    /// `Vx := Vx OR Vy`
    pub open spec fn or_vx_vy(self, inst: Seq<u8>) -> Machine {
        self.with_v(self.v.update(reg_x(inst), self.v[reg_x(inst)] | self.v[reg_y(inst)]))
    }

    /// `Vx := Vx XOR Vy`
    pub open spec fn xor_vx_vy(self, inst: Seq<u8>) -> Machine {
        self.with_v(self.v.update(reg_x(inst), self.v[reg_x(inst)] ^ self.v[reg_y(inst)]))
    }

    /// `Vx := Vy`
    pub open spec fn ld_vx_vy(self, inst: Seq<u8>) -> Machine {
        self.with_v(self.v.update(reg_x(inst), self.v[reg_y(inst)]))
    }

    /// `VF := carry of Vx + Vy`, then `Vx := Vx + Vy` modulo 256 (read after VF is set).
    pub open spec fn add_vx_vy(self, inst: Seq<u8>) -> Machine {
        let x = reg_x(inst);
        let y = reg_y(inst);
        let w = self.v.update(15, carry(self.v[x], self.v[y]));
        self.with_v(w.update(x, ((w[x] + w[y]) % 256) as u8))
    }

    /// `VF := (Vx > Vy)`, then `Vx := Vx - Vy` modulo 256 (read after VF is set).
    pub open spec fn sub_vx_vy(self, inst: Seq<u8>) -> Machine {
        let x = reg_x(inst);
        let y = reg_y(inst);
        let w = self.v.update(15, if self.v[x] > self.v[y] { 1u8 } else { 0u8 });
        self.with_v(w.update(x, ((w[x] - w[y] + 256) % 256) as u8))
    }

    /// `VF := Vx mod 2`, then `Vx := Vx / 2` (read after VF is set).
    pub open spec fn shr_vx(self, inst: Seq<u8>) -> Machine {
        let x = reg_x(inst);
        let w = self.v.update(15, self.v[x] % 2);
        self.with_v(w.update(x, w[x] / 2))
    }

    /// `VF := 1` when the high bit of `Vx` is set and 0 otherwise, then
    /// `Vx := Vx * 2` modulo 256 (read after VF is set).
    pub open spec fn shl_vx(self, inst: Seq<u8>) -> Machine {
        let x = reg_x(inst);
        let w = self.v.update(15, if self.v[x] >= 128 { 1u8 } else { 0u8 });
        self.with_v(w.update(x, ((w[x] * 2) % 256) as u8))
    }

    /// `VF := (Vy > Vx)`, then `Vx := Vy - Vx` modulo 256 (read after VF is set).
    pub open spec fn subn_vx_vy(self, inst: Seq<u8>) -> Machine {
        let x = reg_x(inst);
        let y = reg_y(inst);
        let w = self.v.update(15, if self.v[y] > self.v[x] { 1u8 } else { 0u8 });
        self.with_v(w.update(x, ((w[y] - w[x] + 256) % 256) as u8))
    }

    /// `I := I + Vx`, modulo 65536.
    pub open spec fn add_i_vx(self, inst: Seq<u8>) -> Machine {
        self.with_i(((self.i + self.v[reg_x(inst)]) % 0x10000) as u16)
    }

    /// `Vx := key`
    pub open spec fn ld_vx_k(self, inst: Seq<u8>, key: u8) -> Machine {
        self.with_v(self.v.update(reg_x(inst), key))
    }

    /// Stores V0..=Vx at memory addresses I..=I+x.
    pub open spec fn ld_i_vx(self, inst: Seq<u8>) -> Machine {
        let x = reg_x(inst);
        let base = self.i as int;
        self.with_ram(
            Seq::new(
                self.ram.len(),
                |a: int|
                    if base <= a <= base + x {
                        self.v[a - base]
                    } else {
                        self.ram[a]
                    },
            ),
        )
    }

    /// Loads V0..=Vx from memory addresses I..=I+x.
    pub open spec fn ld_vx_i(self, inst: Seq<u8>) -> Machine {
        let x = reg_x(inst);
        let base = self.i as int;
        self.with_v(
            Seq::new(
                self.v.len(),
                |k: int|
                    if k <= x {
                        self.ram[base + k]
                    } else {
                        self.v[k]
                    },
            ),
        )
    }

    /// Zeroes the display buffer.
    pub open spec fn cls(self) -> Machine {
        self.with_ram(
            Seq::new(
                self.ram.len(),
                |a: int|
                    if a >= SCREEN_START { 0u8 } else { self.ram[a] },
            ),
        )
    }

    /// Writes the decimal digits of Vx (hundreds, tens, ones) at I, I+1, I+2.
    pub open spec fn ls_b_vx(self, inst: Seq<u8>) -> Machine {
        let vx = self.v[reg_x(inst)];
        let base = self.i as int;
        self.with_ram(
            self.ram.update(base, vx / 100).update(base + 1, (vx % 100) / 10).update(
                base + 2,
                vx % 10,
            ),
        )
    }

    /// `I := 5 * Vx`, the address of the font sprite of digit Vx.
    pub open spec fn lf_f_vx(self, inst: Seq<u8>) -> Machine {
        self.with_i((self.v[reg_x(inst)] * 5) as u16)
    }

    /// `PC := nnn + V0`
    pub open spec fn jp_v0_addr(self, inst: Seq<u8>) -> Machine {
        self.with_pc((addr_operand(inst) + self.v[0]) as u16)
    }

    /// `Vx := DT`
    pub open spec fn ld_vx_dt(self, inst: Seq<u8>) -> Machine {
        self.with_v(self.v.update(reg_x(inst), self.dt))
    }

    // Conditions under which an instruction runs to completion.

    /// The instruction names a register in its second nibble.
    pub open spec fn x_ok(inst: Seq<u8>) -> bool {
        inst[1] < 16
    }

    /// The instruction names registers in its second and third nibbles.
    pub open spec fn xy_ok(inst: Seq<u8>) -> bool {
        inst[1] < 16 && inst[2] < 16
    }

    /// Advancing the program counter by two stays within `u16`.
    pub open spec fn skip_ok(self) -> bool {
        self.pc + 2 <= 0xffff
    }

    pub open spec fn sne_vx_byte_ok(self, inst: Seq<u8>) -> bool {
        Self::x_ok(inst) && (byte_operand(inst) != self.v[reg_x(inst)] ==> self.skip_ok())
    }

    pub open spec fn se_vx_byte_ok(self, inst: Seq<u8>) -> bool {
        Self::x_ok(inst) && (byte_operand(inst) == self.v[reg_x(inst)] ==> self.skip_ok())
    }

    pub open spec fn se_vx_vy_ok(self, inst: Seq<u8>) -> bool {
        Self::xy_ok(inst) && (self.v[reg_x(inst)] == self.v[reg_y(inst)] ==> self.skip_ok())
    }

    pub open spec fn call_addr_ok(self, inst: Seq<u8>) -> bool {
        self.sp + 1 < 16 && addr_fits(inst)
    }

    pub open spec fn ret_ok(self) -> bool {
        1 <= self.sp < 16
    }

    pub open spec fn ld_i_vx_ok(self, inst: Seq<u8>) -> bool {
        Self::x_ok(inst) && self.i + inst[1] < RAM_SIZE
    }

    pub open spec fn ld_vx_i_ok(self, inst: Seq<u8>) -> bool {
        Self::x_ok(inst) && self.i + inst[1] < RAM_SIZE
    }

    pub open spec fn ls_b_vx_ok(self, inst: Seq<u8>) -> bool {
        Self::x_ok(inst) && self.i + 2 < RAM_SIZE
    }

    pub open spec fn lf_f_vx_ok(self, inst: Seq<u8>) -> bool {
        Self::x_ok(inst) && self.v[reg_x(inst)] * 5 <= 255
    }

    pub open spec fn jp_v0_addr_ok(self, inst: Seq<u8>) -> bool {
        addr_fits(inst) && addr_operand(inst) + self.v[0] <= 0xffff
    }
}

} // verus!
