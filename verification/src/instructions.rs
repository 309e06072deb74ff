//! The instructions, each as a method on `Computer` whose effect on the
//! model is the corresponding `Machine` function.
use vstd::prelude::*;
use crate::combine::{combine, lemma_combine_pair};
use crate::machine::{
    Computer, Machine, byte_operand, addr_operand, addr_fits, font, SCREEN_START, PROGRAM_START,
    MAX_PROGRAM_SIZE,
};
use crate::random::random_u8;
use crate::draw::{draw_rows, first_index, second_index, first_mask, second_mask};

verus! {

/// The immediate byte operand `kk` of an instruction.
fn byte_of(inst: &[u8; 4]) -> (kk: u8)
    ensures
        kk == byte_operand(inst@),
{
    let pair = [inst[2], inst[3]];
    proof {
        lemma_combine_pair(inst[2], inst[3]);
        assert(pair@ =~= seq![inst[2], inst[3]]);
        assert(inst@.subrange(2, 4) =~= pair@);
    }
    let w = combine(&pair);
    assert(w as u8 == (w % 256) as u8) by (bit_vector);
    w as u8
}

/// The address operand `nnn` of an instruction.
fn addr_of(inst: &[u8; 4]) -> (nnn: u16)
    requires
        addr_fits(inst@),
    ensures
        nnn == addr_operand(inst@),
{
    let triple = [inst[1], inst[2], inst[3]];
    assert(inst@.subrange(1, 4) =~= triple@);
    combine(&triple)
}

impl Computer {
    /// A machine ready to run `program`: all zero but for the font, the
    /// program loaded at `PROGRAM_START` and the program counter there.
    /// `None` when the program does not fit in memory.
    pub fn boot(program: &[u8]) -> (c: Option<Computer>)
        ensures
            program@.len() > MAX_PROGRAM_SIZE <==> c is None,
            c matches Some(c) ==> c@ == Machine::booted(program@),
    {
        if program.len() > MAX_PROGRAM_SIZE {
            return None;
        }
        let mut computer = Computer::default();
        computer.cpu.pc = PROGRAM_START;
        computer.write_hex_sprites();
        computer.load_program(program);
        Some(computer)
    }

    /// Copies `program` to memory from `PROGRAM_START` on.
    pub fn load_program(&mut self, program: &[u8])
        requires
            program@.len() <= MAX_PROGRAM_SIZE,
        ensures
            final(self)@ == old(self)@.load_program(program@),
    {
        let ghost m = self@;
        let start: usize = PROGRAM_START as usize;
        let mut k: usize = 0;
        while k < program.len()
            invariant
                m.wf(),
                start == 512,
                program@.len() <= MAX_PROGRAM_SIZE,
                k <= program@.len(),
                self@ == m.with_ram(self.ram@),
                self.ram@ =~= m.ram.take(512) + program@.take(k as int) + m.ram.skip(512 + k),
            decreases program@.len() - k,
        {
            self.ram[start + k] = program[k];
            k = k + 1;
        }
        assert(program@.take(program@.len() as int) =~= program@);
        assert(self@ =~= m.load_program(program@));
    }

    /// A copy of the display buffer.
    pub fn screen(&self) -> (screen: Vec<u8>)
        ensures
            screen@ == self@.ram.skip(SCREEN_START as int),
    {
        let mut screen: Vec<u8> = Vec::new();
        let mut a: usize = SCREEN_START;
        while a < self.ram.len()
            invariant
                SCREEN_START <= a <= 4096,
                self.ram@.len() == 4096,
                screen@ =~= self.ram@.subrange(SCREEN_START as int, a as int),
            decreases 4096 - a,
        {
            screen.push(self.ram[a]);
            a = a + 1;
        }
        screen
    }

    /// Draws the sprite of `inst[3]` bytes stored at `I` at the position
    /// held in the registers named by `inst[1]` and `inst[2]`, by XOR into the
    /// display buffer; `VF` reports whether a lit pixel was switched off.
    pub fn drw_vx_vy_nibble(&mut self, inst: &[u8; 4])
        requires
            old(self)@.drw_vx_vy_nibble_ok(inst@),
        ensures
            final(self)@ == old(self)@.drw_vx_vy_nibble(inst@),
    {
        let ghost m = self@;
        assert(m.wf());
        let screen_start: usize = SCREEN_START;
        let x = self.cpu.v[inst[1] as usize];
        let y = self.cpu.v[inst[2] as usize];
        let n: u8 = inst[3];
        let start: usize = self.cpu.i as usize;
        let end: usize = (self.cpu.i + n as u16) as usize;
        let mut sprite: Vec<u8> = Vec::new();
        let mut a: usize = start;
        while a < end
            invariant
                start <= a <= end <= 4096,
                self@ == m,
                sprite@ =~= m.ram.subrange(start as int, a as int),
            decreases end - a,
        {
            sprite.push(self.ram[a]);
            a = a + 1;
        }
        let offset: u8 = x % 8;
        let mut collided = false;
        let mut r: u8 = 0;
        while r < n
            invariant
                m.drw_vx_vy_nibble_ok(inst@),
                m.wf(),
                x == m.v[inst@[1] as int],
                y == m.v[inst@[2] as int],
                n == inst@[3],
                offset == x % 8,
                screen_start == SCREEN_START,
                r <= n,
                sprite@ == m.ram.subrange(m.i as int, m.i + n),
                self.ram@ == draw_rows(m.ram, sprite@, x, y, r as nat).0,
                collided == draw_rows(m.ram, sprite@, x, y, r as nat).1,
                self.cpu.v@ == m.v,
                self.cpu.i == m.i,
                self.cpu.dt == m.dt,
                self.cpu.st == m.st,
                self.cpu.pc == m.pc,
                self.cpu.sp == m.sp,
                self.cpu.stack@ == m.stack,
            decreases n - r,
        {
            let first_byte_i: usize = (((y + r) * 8) + (x / 8)) as usize + screen_start;
            let second_byte_i: usize = ((y + r) * 8 + ((x + 8) % 64) / 8) as usize + screen_start;
            let byte: u8 = sprite[r as usize];
            let first_byte: u8 = byte >> offset;
            let second_byte: u8 = if offset == 0 { 0 } else { byte << (8 - offset) };
            proof {
                assert(first_byte_i == first_index(x, y, r as int));
                assert(second_byte_i == second_index(x, y, r as int));
                assert(first_byte == first_mask(byte, x));
                assert(second_byte == second_mask(byte, x));
            }
            collided = collided || ((first_byte & self.ram[first_byte_i]) != 0);
            self.ram[first_byte_i] = self.ram[first_byte_i] ^ first_byte;
            collided = collided || ((second_byte & self.ram[second_byte_i]) != 0);
            self.ram[second_byte_i] = self.ram[second_byte_i] ^ second_byte;
            r = r + 1;
        }
        self.cpu.v[15] = if collided { 1 } else { 0 };
    }

    /// Copies the hexadecimal font to the first 80 bytes of memory.
    pub fn write_hex_sprites(&mut self)
        ensures
            final(self)@ == old(self)@.write_hex_sprites(),
    {
        let sprites: [u8; 80] = [
            0xF0, 0x90, 0x90, 0x90, 0xF0,  // 0
            0x20, 0x60, 0x20, 0x20, 0x70,  // 1
            0xF0, 0x10, 0xF0, 0x80, 0xF0,  // 2
            0xF0, 0x10, 0xF0, 0x10, 0xF0,  // 3
            0x90, 0x90, 0xF0, 0x10, 0x10,  // 4
            0xF0, 0x80, 0xF0, 0x10, 0xF0,  // 5
            0xF0, 0x80, 0xF0, 0x90, 0xF0,  // 6
            0xF0, 0x10, 0x20, 0x40, 0x40,  // 7
            0xF0, 0x90, 0xF0, 0x90, 0xF0,  // 8
            0xF0, 0x90, 0xF0, 0x10, 0xF0,  // 9
            0xF0, 0x90, 0xF0, 0x90, 0x90,  // A
            0xE0, 0x90, 0xE0, 0x90, 0xE0,  // B
            0xF0, 0x80, 0x80, 0x80, 0xF0,  // C
            0xE0, 0x90, 0x90, 0x90, 0xE0,  // D
            0xF0, 0x80, 0xF0, 0x80, 0xF0,  // E
            0xF0, 0x80, 0xF0, 0x80, 0x80,  // F
        ];
        assert(sprites@ =~= font());
        let ghost m = self@;
        let len: usize = sprites.len();
        let mut k: usize = 0;
        while k < len
            invariant
                len == 80,
                sprites@ == font(),
                k <= len,
                m.wf(),
                self@ == m.with_ram(self.ram@),
                self.ram@ =~= font().take(k as int) + m.ram.skip(k as int),
            decreases len - k,
        {
            self.ram[k] = sprites[k];
            k = k + 1;
        }
        assert(font().take(80) =~= font());
        assert(self@ =~= m.write_hex_sprites());
    }

    /// `I := nnn`
    pub fn ld_i_addr(&mut self, inst: &[u8; 4])
        requires
            addr_fits(inst@),
        ensures
            final(self)@ == old(self)@.ld_i_addr(inst@),
    {
        let addr = addr_of(inst);
        self.cpu.i = addr;
    }

    /// `Vx := kk AND r` for the given byte `r`.
    pub fn rnd_vx_byte_with(&mut self, inst: &[u8; 4], random_byte: u8)
        requires
            Machine::x_ok(inst@),
        ensures
            final(self)@ == old(self)@.rnd_vx_byte(inst@, random_byte),
    {
        let kk = byte_of(inst);
        let byte: u8 = kk & random_byte;
        self.cpu.v[inst[1] as usize] = byte;
    }

    /// `Vx := kk AND r` for a random byte `r`.
    pub fn rnd_vx_byte(&mut self, inst: &[u8; 4])
        requires
            Machine::x_ok(inst@),
        ensures
            exists|r: u8| final(self)@ == old(self)@.rnd_vx_byte(inst@, r),
    {
        let random_byte = random_u8();
        self.rnd_vx_byte_with(inst, random_byte);
    }

    /// Skips the next instruction when `Vx != kk`.
    pub fn sne_vx_byte(&mut self, inst: &[u8; 4])
        requires
            old(self)@.sne_vx_byte_ok(inst@),
        ensures
            final(self)@ == old(self)@.sne_vx_byte(inst@),
    {
        let kk = byte_of(inst);
        let vx = self.cpu.v[inst[1] as usize];
        if kk != vx {
            self.cpu.pc += 2;
        }
    }

    /// Skips the next instruction when `Vx == kk`.
    pub fn se_vx_byte(&mut self, inst: &[u8; 4])
        requires
            old(self)@.se_vx_byte_ok(inst@),
        ensures
            final(self)@ == old(self)@.se_vx_byte(inst@),
    {
        let kk = byte_of(inst);
        let vx = self.cpu.v[inst[1] as usize];
        if kk == vx {
            self.cpu.pc += 2;
        }
    }

    /// Skips the next instruction when `Vx == Vy`.
    pub fn se_vx_vy(&mut self, inst: &[u8; 4])
        requires
            old(self)@.se_vx_vy_ok(inst@),
        ensures
            final(self)@ == old(self)@.se_vx_vy(inst@),
    {
        let vx = self.cpu.v[inst[1] as usize];
        let vy = self.cpu.v[inst[2] as usize];
        if vx == vy {
            self.cpu.pc += 2;
        }
    }

    /// `Vx := Vx + kk`, wrapping.
    pub fn add_vx_byte(&mut self, inst: &[u8; 4])
        requires
            Machine::x_ok(inst@),
        ensures
            final(self)@ == old(self)@.add_vx_byte(inst@),
    {
        let kk = byte_of(inst);
        let x = inst[1] as usize;
        self.cpu.v[x] = self.cpu.v[x].wrapping_add(kk);
    }

    /// `PC := nnn`
    pub fn jmp_addr(&mut self, inst: &[u8; 4])
        requires
            addr_fits(inst@),
        ensures
            final(self)@ == old(self)@.jmp_addr(inst@),
    {
        self.cpu.pc = addr_of(inst);
    }

    /// `Vx := kk`
    pub fn ld_vx_byte(&mut self, inst: &[u8; 4])
        requires
            Machine::x_ok(inst@),
        ensures
            final(self)@ == old(self)@.ld_vx_byte(inst@),
    {
        let kk = byte_of(inst);
        self.cpu.v[inst[1] as usize] = kk;
    }

    /// Pushes the program counter and jumps to `nnn`.
    pub fn call_addr(&mut self, inst: &[u8; 4])
        requires
            old(self)@.call_addr_ok(inst@),
        ensures
            final(self)@ == old(self)@.call_addr(inst@),
    {
        self.cpu.sp += 1;
        self.cpu.stack[self.cpu.sp as usize] = self.cpu.pc;
        self.cpu.pc = addr_of(inst);
    }

    /// Pops the top return address into the program counter.
    pub fn ret(&mut self)
        requires
            old(self)@.ret_ok(),
        ensures
            final(self)@ == old(self)@.ret(),
    {
        self.cpu.pc = self.cpu.stack[self.cpu.sp as usize];
        self.cpu.sp -= 1;
    }

    /// `Vx := Vx AND Vy`
    pub fn and_vx_vy(&mut self, inst: &[u8; 4])
        requires
            Machine::xy_ok(inst@),
        ensures
            final(self)@ == old(self)@.and_vx_vy(inst@),
    {
        let x = inst[1] as usize;
        let y = inst[2] as usize;
        self.cpu.v[x] = self.cpu.v[x] & self.cpu.v[y];
    }

    /// `Vx := Vx OR Vy`
    pub fn or_vx_vy(&mut self, inst: &[u8; 4])
        requires
            Machine::xy_ok(inst@),
        ensures
            final(self)@ == old(self)@.or_vx_vy(inst@),
    {
        let x = inst[1] as usize;
        let y = inst[2] as usize;
        self.cpu.v[x] = self.cpu.v[x] | self.cpu.v[y];
    }

    /// `Vx := Vx XOR Vy`
    pub fn xor_vx_vy(&mut self, inst: &[u8; 4])
        requires
            Machine::xy_ok(inst@),
        ensures
            final(self)@ == old(self)@.xor_vx_vy(inst@),
    {
        let x = inst[1] as usize;
        let y = inst[2] as usize;
        self.cpu.v[x] = self.cpu.v[x] ^ self.cpu.v[y];
    }

    /// `Vx := Vy`
    pub fn ld_vx_vy(&mut self, inst: &[u8; 4])
        requires
            Machine::xy_ok(inst@),
        ensures
            final(self)@ == old(self)@.ld_vx_vy(inst@),
    {
        let x = inst[1] as usize;
        let y = inst[2] as usize;
        self.cpu.v[x] = self.cpu.v[y];
    }

    /// `VF := carry`, then `Vx := Vx + Vy`, wrapping.
    pub fn add_vx_vy(&mut self, inst: &[u8; 4])
        requires
            Machine::xy_ok(inst@),
        ensures
            final(self)@ == old(self)@.add_vx_vy(inst@),
    {
        let x = inst[1] as usize;
        let y = inst[2] as usize;
        self.cpu.v[15] = if (self.cpu.v[x] as u16 + self.cpu.v[y] as u16) > 255 { 1 } else { 0 };
        self.cpu.v[x] = self.cpu.v[x].wrapping_add(self.cpu.v[y]);
    }

    /// `VF := (Vx > Vy)`, then `Vx := Vx - Vy`, wrapping.
    pub fn sub_vx_vy(&mut self, inst: &[u8; 4])
        requires
            Machine::xy_ok(inst@),
        ensures
            final(self)@ == old(self)@.sub_vx_vy(inst@),
    {
        let x = inst[1] as usize;
        let y = inst[2] as usize;
        self.cpu.v[15] = if self.cpu.v[x] > self.cpu.v[y] { 1 } else { 0 };
        self.cpu.v[x] = self.cpu.v[x].wrapping_sub(self.cpu.v[y]);
    }

    /// `VF := Vx AND 1`, then `Vx := Vx >> 1`.
    pub fn shr_vx(&mut self, inst: &[u8; 4])
        requires
            Machine::x_ok(inst@),
        ensures
            final(self)@ == old(self)@.shr_vx(inst@),
    {
        let x = inst[1] as usize;
        let vx = self.cpu.v[x];
        assert(vx & 1 == vx % 2) by (bit_vector);
        self.cpu.v[15] = self.cpu.v[x] & 1;
        let w = self.cpu.v[x];
        assert(w >> 1 == w / 2) by (bit_vector);
        self.cpu.v[x] = self.cpu.v[x] >> 1;
    }

    /// `VF :=` the high bit of `Vx`, then `Vx := Vx << 1`.
    pub fn shl_vx(&mut self, inst: &[u8; 4])
        requires
            Machine::x_ok(inst@),
        ensures
            final(self)@ == old(self)@.shl_vx(inst@),
    {
        let x = inst[1] as usize;
        let vx = self.cpu.v[x];
        assert((vx >> 7u8) & 1 == if vx >= 128 { 1u8 } else { 0u8 }) by (bit_vector);
        self.cpu.v[15] = (self.cpu.v[x] >> 7u8) & 1;
        let w = self.cpu.v[x];
        assert(w << 1u8 == ((w * 2) % 256) as u8) by (bit_vector);
        self.cpu.v[x] = self.cpu.v[x] << 1u8;
    }

    /// `VF := (Vy > Vx)`, then `Vx := Vy - Vx`, wrapping.
    pub fn subn_vx_vy(&mut self, inst: &[u8; 4])
        requires
            Machine::xy_ok(inst@),
        ensures
            final(self)@ == old(self)@.subn_vx_vy(inst@),
    {
        let x = inst[1] as usize;
        let y = inst[2] as usize;
        self.cpu.v[15] = if self.cpu.v[y] > self.cpu.v[x] { 1 } else { 0 };
        self.cpu.v[x] = self.cpu.v[y].wrapping_sub(self.cpu.v[x]);
    }

    /// `I := I + Vx`, wrapping.
    pub fn add_i_vx(&mut self, inst: &[u8; 4])
        requires
            Machine::x_ok(inst@),
        ensures
            final(self)@ == old(self)@.add_i_vx(inst@),
    {
        let x = inst[1] as usize;
        self.cpu.i = self.cpu.i.wrapping_add(self.cpu.v[x] as u16);
    }

    /// Stores V0..=Vx at I..=I+x.
    pub fn ld_i_vx(&mut self, inst: &[u8; 4])
        requires
            old(self)@.ld_i_vx_ok(inst@),
        ensures
            final(self)@ == old(self)@.ld_i_vx(inst@),
    {
        let ghost m = self@;
        let last: u8 = inst[1] + 1;
        let mut k: u8 = 0;
        while k < last
            invariant
                m.wf(),
                m.ld_i_vx_ok(inst@),
                last == inst@[1] + 1,
                k <= last,
                self@ == m.with_ram(self.ram@),
                forall|a: int|
                    0 <= a < 4096 ==> #[trigger] self.ram@[a] == if m.i <= a < m.i + k {
                        m.v[a - m.i]
                    } else {
                        m.ram[a]
                    },
            decreases last - k,
        {
            self.ram[(self.cpu.i + k as u16) as usize] = self.cpu.v[k as usize];
            k = k + 1;
        }
        assert(self@ =~= m.ld_i_vx(inst@));
    }

    /// Loads V0..=Vx from I..=I+x.
    pub fn ld_vx_i(&mut self, inst: &[u8; 4])
        requires
            old(self)@.ld_vx_i_ok(inst@),
        ensures
            final(self)@ == old(self)@.ld_vx_i(inst@),
    {
        let ghost m = self@;
        let last: u8 = inst[1] + 1;
        let mut k: u8 = 0;
        while k < last
            invariant
                m.wf(),
                m.ld_vx_i_ok(inst@),
                last == inst@[1] + 1,
                k <= last,
                self@ == m.with_v(self.cpu.v@),
                forall|j: int|
                    0 <= j < 16 ==> #[trigger] self.cpu.v@[j] == if j < k {
                        m.ram[m.i + j]
                    } else {
                        m.v[j]
                    },
            decreases last - k,
        {
            self.cpu.v[k as usize] = self.ram[(self.cpu.i + k as u16) as usize];
            k = k + 1;
        }
        assert(self@ =~= m.ld_vx_i(inst@));
    }

    /// Clears the display buffer.
    pub fn cls(&mut self)
        ensures
            final(self)@ == old(self)@.cls(),
    {
        let ghost m = self@;
        let offset: usize = self.ram.len() - 256 - 1;
        let mut a: usize = offset;
        while a < self.ram.len()
            invariant
                m.wf(),
                offset == SCREEN_START,
                offset <= a <= 4096,
                self@ == m.with_ram(self.ram@),
                forall|b: int|
                    0 <= b < 4096 ==> #[trigger] self.ram@[b] == if offset <= b < a {
                        0u8
                    } else {
                        m.ram[b]
                    },
            decreases 4096 - a,
        {
            self.ram[a] = 0;
            a = a + 1;
        }
        assert(self@ =~= m.cls());
    }

    /// Writes the decimal digits of Vx at I, I+1 and I+2.
    pub fn ls_b_vx(&mut self, inst: &[u8; 4])
        requires
            old(self)@.ls_b_vx_ok(inst@),
        ensures
            final(self)@ == old(self)@.ls_b_vx(inst@),
    {
        let vx = self.cpu.v[inst[1] as usize];
        let i = self.cpu.i as usize;
        self.ram[i] = vx / 100;
        self.ram[i + 1] = (vx % 100) / 10;
        self.ram[i + 2] = vx % 10;
    }

    /// `I := 5 * Vx`, the font sprite of digit Vx.
    pub fn lf_f_vx(&mut self, inst: &[u8; 4])
        requires
            old(self)@.lf_f_vx_ok(inst@),
        ensures
            final(self)@ == old(self)@.lf_f_vx(inst@),
    {
        self.cpu.i = (self.cpu.v[inst[1] as usize] * 5) as u16;
    }

    /// `PC := nnn + V0`
    pub fn jp_v0_addr(&mut self, inst: &[u8; 4])
        requires
            old(self)@.jp_v0_addr_ok(inst@),
        ensures
            final(self)@ == old(self)@.jp_v0_addr(inst@),
    {
        let addr = addr_of(inst);
        self.cpu.pc = addr + self.cpu.v[0] as u16;
    }

    /// `Vx := DT`
    pub fn ld_vx_dt(&mut self, inst: &[u8; 4])
        requires
            Machine::x_ok(inst@),
        ensures
            final(self)@ == old(self)@.ld_vx_dt(inst@),
    {
        self.cpu.v[inst[1] as usize] = self.cpu.dt;
    }
}

} // verus!
