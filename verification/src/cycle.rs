//! Fetching, decoding and executing one instruction.
use vstd::prelude::*;
use crate::combine::{combine, lemma_combine_pair, lemma_combine_triple};
use crate::machine::{Computer, Machine, addr_operand, addr_fits, RAM_SIZE};
use crate::keypad::{KeyCode, KeyWait, key_wait, key_value};

verus! {

/// The instructions the interpreter tells apart.
#[derive(PartialEq, Eq, Structural, Clone, Copy, Debug)]
pub enum Op {
    Cls,
    Ret,
    /// An `0nnn` instruction other than clear and return: it does nothing.
    Invalid,
    Jmp,
    Call,
    SeByte,
    SneByte,
    SeReg,
    LdByte,
    AddByte,
    LdReg,
    Or,
    And,
    Xor,
    AddReg,
    Sub,
    Shr,
    Subn,
    Shl,
    LdI,
    JpV0,
    Rnd,
    Drw,
    LdDt,
    LdKey,
    AddI,
    LdFont,
    LdBcd,
    StoreRegs,
    LoadRegs,
    Unimplemented,
}

/// What one cycle did.
#[derive(PartialEq, Eq, Structural, Clone, Copy, Debug)]
pub enum Cycle {
    /// An instruction ran.
    Ran,
    /// A sprite was drawn: the display buffer changed.
    Drew,
    /// The instruction waits for a key press; nothing changed yet.
    AwaitKey,
}

/// Why a cycle could not run.
#[derive(Clone, Copy, Debug)]
pub enum StepError {
    /// The instruction is not implemented.
    Unimplemented([u8; 4]),
    /// The instruction would leave memory, the stack or the range of its arithmetic.
    Fault,
}

/// The instruction that the four nibbles encode.
pub open spec fn decode_spec(inst: Seq<u8>) -> Op {
    if inst[0] == 0x0 {
        if inst[3] == 0x0 {
            Op::Cls
        } else if inst[3] == 0xe {
            Op::Ret
        } else {
            Op::Invalid
        }
    } else if inst[0] == 0x1 {
        Op::Jmp
    } else if inst[0] == 0x2 {
        Op::Call
    } else if inst[0] == 0x3 {
        Op::SeByte
    } else if inst[0] == 0x4 {
        Op::SneByte
    } else if inst[0] == 0x5 {
        Op::SeReg
    } else if inst[0] == 0x6 {
        Op::LdByte
    } else if inst[0] == 0x7 {
        Op::AddByte
    } else if inst[0] == 0x8 {
        if inst[3] == 0x0 {
            Op::LdReg
        } else if inst[3] == 0x1 {
            Op::Or
        } else if inst[3] == 0x2 {
            Op::And
        } else if inst[3] == 0x3 {
            Op::Xor
        } else if inst[3] == 0x4 {
            Op::AddReg
        } else if inst[3] == 0x5 {
            Op::Sub
        } else if inst[3] == 0x6 {
            Op::Shr
        } else if inst[3] == 0x7 {
            Op::Subn
        } else if inst[3] == 0xe {
            Op::Shl
        } else {
            Op::Unimplemented
        }
    } else if inst[0] == 0xa {
        Op::LdI
    } else if inst[0] == 0xb {
        Op::JpV0
    } else if inst[0] == 0xc {
        Op::Rnd
    } else if inst[0] == 0xd {
        Op::Drw
    } else if inst[0] == 0xf {
        let kk = inst[2] * 16 + inst[3];
        if kk == 0x07 {
            Op::LdDt
        } else if kk == 0x0a {
            Op::LdKey
        } else if kk == 0x1e {
            Op::AddI
        } else if kk == 0x29 {
            Op::LdFont
        } else if kk == 0x33 {
            Op::LdBcd
        } else if kk == 0x55 {
            Op::StoreRegs
        } else if kk == 0x65 {
            Op::LoadRegs
        } else {
            Op::Unimplemented
        }
    } else {
        Op::Unimplemented
    }
}

/// The instruction moves on to the next one when it is done (jumps and calls do not).
pub open spec fn advances(op: Op) -> bool {
    !(op == Op::Jmp || op == Op::Call || op == Op::JpV0)
}

impl Machine {
    /// The two bytes at the program counter are in memory.
    pub open spec fn can_fetch(self) -> bool {
        self.pc + 1 < RAM_SIZE
    }

    /// The four nibbles of the instruction at the program counter.
    pub open spec fn fetch(self) -> Seq<u8> {
        let b0 = self.ram[self.pc as int];
        let b1 = self.ram[self.pc + 1];
        seq![b0 / 16, b0 % 16, b1 / 16, b1 % 16]
    }

    /// The effect of `op`, before the program counter moves on; `r` is the
    /// random byte that `Rnd` uses.
    pub open spec fn run(self, op: Op, inst: Seq<u8>, r: u8) -> Machine {
        match op {
            Op::Cls => self.cls(),
            Op::Ret => self.ret(),
            Op::Invalid => self,
            Op::Jmp => self.jmp_addr(inst),
            Op::Call => self.call_addr(inst),
            Op::SeByte => self.se_vx_byte(inst),
            Op::SneByte => self.sne_vx_byte(inst),
            Op::SeReg => self.se_vx_vy(inst),
            Op::LdByte => self.ld_vx_byte(inst),
            Op::AddByte => self.add_vx_byte(inst),
            Op::LdReg => self.ld_vx_vy(inst),
            Op::Or => self.or_vx_vy(inst),
            Op::And => self.and_vx_vy(inst),
            Op::Xor => self.xor_vx_vy(inst),
            Op::AddReg => self.add_vx_vy(inst),
            Op::Sub => self.sub_vx_vy(inst),
            Op::Shr => self.shr_vx(inst),
            Op::Subn => self.subn_vx_vy(inst),
            Op::Shl => self.shl_vx(inst),
            Op::LdI => self.ld_i_addr(inst),
            Op::JpV0 => self.jp_v0_addr(inst),
            Op::Rnd => self.rnd_vx_byte(inst, r),
            Op::Drw => self.drw_vx_vy_nibble(inst),
            Op::LdDt => self.ld_vx_dt(inst),
            Op::AddI => self.add_i_vx(inst),
            Op::LdFont => self.lf_f_vx(inst),
            Op::LdBcd => self.ls_b_vx(inst),
            Op::StoreRegs => self.ld_i_vx(inst),
            Op::LoadRegs => self.ld_vx_i(inst),
            _ => self,
        }
    }

    /// `op` runs to completion on this machine.
    pub open spec fn run_ok(self, op: Op, inst: Seq<u8>) -> bool {
        match op {
            Op::Cls => true,
            Op::Ret => self.ret_ok(),
            Op::Invalid => true,
            Op::Jmp => addr_fits(inst),
            Op::Call => self.call_addr_ok(inst),
            Op::SeByte => self.se_vx_byte_ok(inst),
            Op::SneByte => self.sne_vx_byte_ok(inst),
            Op::SeReg => self.se_vx_vy_ok(inst),
            Op::LdByte => Self::x_ok(inst),
            Op::AddByte => Self::x_ok(inst),
            Op::LdReg => Self::xy_ok(inst),
            Op::Or => Self::xy_ok(inst),
            Op::And => Self::xy_ok(inst),
            Op::Xor => Self::xy_ok(inst),
            Op::AddReg => Self::xy_ok(inst),
            Op::Sub => Self::xy_ok(inst),
            Op::Shr => Self::x_ok(inst),
            Op::Subn => Self::xy_ok(inst),
            Op::Shl => Self::x_ok(inst),
            Op::LdI => addr_fits(inst),
            Op::JpV0 => self.jp_v0_addr_ok(inst),
            Op::Rnd => Self::x_ok(inst),
            Op::Drw => self.drw_vx_vy_nibble_ok(inst),
            Op::LdDt => Self::x_ok(inst),
            Op::AddI => Self::x_ok(inst),
            Op::LdFont => self.lf_f_vx_ok(inst),
            Op::LdBcd => self.ls_b_vx_ok(inst),
            Op::StoreRegs => self.ld_i_vx_ok(inst),
            Op::LoadRegs => self.ld_vx_i_ok(inst),
            _ => false,
        }
    }

    /// `op` runs to completion and the program counter can then move on
    /// (the random byte does not affect the program counter).
    pub open spec fn cycle_ok(self, op: Op, inst: Seq<u8>) -> bool {
        &&& self.run_ok(op, inst)
        &&& advances(op) ==> self.run(op, inst, 0).pc + 2 <= 0xffff
    }

    /// The machine after one cycle of `op` with random byte `r`.
    pub open spec fn next(self, op: Op, inst: Seq<u8>, r: u8) -> Machine {
        let after = self.run(op, inst, r);
        if advances(op) {
            after.with_pc((after.pc + 2) as u16)
        } else {
            after
        }
    }
}

/// The instruction that the four nibbles encode.
pub fn decode(inst: &[u8; 4]) -> (op: Op)
    ensures
        op == decode_spec(inst@),
{
    match inst[0] {
        0x0 => {
            match inst[3] {
                0x0 => Op::Cls,
                0xe => Op::Ret,
                _ => Op::Invalid,
            }
        },
        0x1 => Op::Jmp,
        0x2 => Op::Call,
        0x3 => Op::SeByte,
        0x4 => Op::SneByte,
        0x5 => Op::SeReg,
        0x6 => Op::LdByte,
        0x7 => Op::AddByte,
        0x8 => {
            match inst[3] {
                0x0 => Op::LdReg,
                0x1 => Op::Or,
                0x2 => Op::And,
                0x3 => Op::Xor,
                0x4 => Op::AddReg,
                0x5 => Op::Sub,
                0x6 => Op::Shr,
                0x7 => Op::Subn,
                0xe => Op::Shl,
                _ => Op::Unimplemented,
            }
        },
        0xa => Op::LdI,
        0xb => Op::JpV0,
        0xc => Op::Rnd,
        0xd => Op::Drw,
        0xf => {
            let pair = [inst[2], inst[3]];
            proof {
                lemma_combine_pair(inst[2], inst[3]);
                assert(pair@ =~= seq![inst[2], inst[3]]);
            }
            match combine(&pair) {
                0x07 => Op::LdDt,
                0x0a => Op::LdKey,
                0x1e => Op::AddI,
                0x29 => Op::LdFont,
                0x33 => Op::LdBcd,
                0x55 => Op::StoreRegs,
                0x65 => Op::LoadRegs,
                _ => Op::Unimplemented,
            }
        },
        _ => Op::Unimplemented,
    }
}

/// Whether the address operand packs without overflow.
fn check_addr(inst: &[u8; 4]) -> (ok: bool)
    ensures
        ok == addr_fits(inst@),
{
    proof {
        lemma_combine_triple(inst[1], inst[2], inst[3]);
        assert(inst@.subrange(1, 4) =~= seq![inst[1], inst[2], inst[3]]);
    }
    let t: u32 = ((inst[1] as u32 * 16 + inst[2] as u32) * 16) % 0x10000 + inst[3] as u32;
    t <= 0xffff
}

/// The address operand, computed without overflow checks failing.
fn addr_value(inst: &[u8; 4]) -> (a: u32)
    ensures
        a == addr_operand(inst@),
{
    proof {
        lemma_combine_triple(inst[1], inst[2], inst[3]);
        assert(inst@.subrange(1, 4) =~= seq![inst[1], inst[2], inst[3]]);
    }
    ((inst[1] as u32 * 16 + inst[2] as u32) * 16) % 0x10000 + inst[3] as u32
}

impl Computer {
    /// The four nibbles of the instruction at the program counter.
    pub fn fetch(&self) -> (inst: [u8; 4])
        requires
            self@.can_fetch(),
        ensures
            inst@ == self@.fetch(),
    {
        let inst0 = self.ram[self.cpu.pc as usize];
        let inst1 = self.ram[(self.cpu.pc + 1) as usize];
        let tet0 = inst0 >> 4;
        let tet1 = 0x0f & inst0;
        let tet2 = inst1 >> 4;
        let tet3 = 0x0f & inst1;
        assert(tet0 == inst0 / 16 && tet1 == inst0 % 16) by (bit_vector)
            requires
                tet0 == inst0 >> 4,
                tet1 == 0x0f & inst0,
        ;
        assert(tet2 == inst1 / 16 && tet3 == inst1 % 16) by (bit_vector)
            requires
                tet2 == inst1 >> 4,
                tet3 == 0x0f & inst1,
        ;
        let inst = [tet0, tet1, tet2, tet3];
        assert(inst@ =~= self@.fetch());
        inst
    }

    /// Whether `op` runs to completion here and the program counter can then move on.
    fn cycle_ok(&self, op: Op, inst: &[u8; 4]) -> (ok: bool)
        requires
            self@.can_fetch(),
        ensures
            ok == self@.cycle_ok(op, inst@),
    {
        let ghost m = self@;
        assert(m.wf());
        let xi = inst[1];
        let yi = inst[2];
        let x_ok = xi < 16;
        let xy_ok = xi < 16 && yi < 16;
        let pc = self.cpu.pc as u32;
        let i = self.cpu.i as u32;
        let run_ok = match op {
            Op::Cls => true,
            Op::Ret => 1 <= self.cpu.sp && self.cpu.sp < 16,
            Op::Invalid => true,
            Op::Jmp => check_addr(inst),
            Op::Call => self.cpu.sp < 15 && check_addr(inst),
            Op::SeByte | Op::SneByte => x_ok,
            Op::SeReg => xy_ok,
            Op::LdByte | Op::AddByte | Op::Shr | Op::Shl | Op::Rnd | Op::LdDt | Op::AddI => x_ok,
            Op::LdReg | Op::Or | Op::And | Op::Xor | Op::AddReg | Op::Sub | Op::Subn => xy_ok,
            Op::LdI => check_addr(inst),
            Op::JpV0 => check_addr(inst) && addr_value(inst) + self.cpu.v[0] as u32 <= 0xffff,
            Op::Drw => {
                if xy_ok {
                    let x = self.cpu.v[xi as usize] as u32;
                    let y = self.cpu.v[yi as usize] as u32;
                    let n = inst[3] as u32;
                    i + n <= 4096 && (n == 0 || (x + 8 <= 255 && (y + n - 1) * 8 + x / 8 <= 255
                        && (y + n - 1) * 8 + ((x + 8) % 64) / 8 <= 255))
                } else {
                    false
                }
            },
            Op::LdFont => x_ok && self.cpu.v[xi as usize] as u32 * 5 <= 255,
            Op::LdBcd => x_ok && i + 2 < 4096,
            Op::StoreRegs | Op::LoadRegs => x_ok && i + xi as u32 <= 4095,
            _ => false,
        };
        assert(run_ok == m.run_ok(op, inst@));
        if !run_ok {
            return false;
        }
        let pc_after: u32 = match op {
            Op::Ret => self.cpu.stack[self.cpu.sp as usize] as u32,
            Op::SeByte | Op::SneByte | Op::SeReg => pc + 2,
            _ => pc,
        };
        proof {
            if advances(op) && op != Op::Ret && op != Op::SeByte && op != Op::SneByte && op
                != Op::SeReg {
                assert(m.run(op, inst@, 0).pc == m.pc);
            }
        }
        !advances_exec(op) || pc_after + 2 <= 0xffff
    }

    /// Runs one cycle: fetches the instruction at the program counter,
    /// decodes it, executes it and moves the program counter on past it
    /// (jumps and calls set it instead). An instruction that waits for a key
    /// is left for `resume_with_key`; on an error nothing changes.
    pub fn step(&mut self) -> (res: Result<Cycle, StepError>)
        ensures
            !old(self)@.can_fetch() ==> (res matches Err(StepError::Fault)) && final(self)@
                == old(self)@,
            old(self)@.can_fetch() ==> ({
                let inst = old(self)@.fetch();
                let op = decode_spec(inst);
                if op == Op::Unimplemented {
                    &&& res matches Err(StepError::Unimplemented(i)) && i@ == inst
                    &&& final(self)@ == old(self)@
                } else if op == Op::LdKey {
                    &&& res == Ok::<Cycle, StepError>(Cycle::AwaitKey)
                    &&& final(self)@ == old(self)@
                } else if old(self)@.cycle_ok(op, inst) {
                    &&& res == Ok::<Cycle, StepError>(
                        if op == Op::Drw {
                            Cycle::Drew
                        } else {
                            Cycle::Ran
                        },
                    )
                    &&& exists|r: u8| final(self)@ == old(self)@.next(op, inst, r)
                } else {
                    &&& res matches Err(StepError::Fault)
                    &&& final(self)@ == old(self)@
                }
            }),
    {
        if self.cpu.pc >= 4095 {
            return Err(StepError::Fault);
        }
        let inst = self.fetch();
        let op = decode(&inst);
        if op == Op::Unimplemented {
            return Err(StepError::Unimplemented(inst));
        }
        if op == Op::LdKey {
            return Ok(Cycle::AwaitKey);
        }
        if !self.cycle_ok(op, &inst) {
            return Err(StepError::Fault);
        }
        let ghost m = self@;
        let ghost mut r: u8 = 0;
        match op {
            Op::Cls => self.cls(),
            Op::Ret => self.ret(),
            Op::Invalid => {},
            Op::Jmp => self.jmp_addr(&inst),
            Op::Call => self.call_addr(&inst),
            Op::SeByte => self.se_vx_byte(&inst),
            Op::SneByte => self.sne_vx_byte(&inst),
            Op::SeReg => self.se_vx_vy(&inst),
            Op::LdByte => self.ld_vx_byte(&inst),
            Op::AddByte => self.add_vx_byte(&inst),
            Op::LdReg => self.ld_vx_vy(&inst),
            Op::Or => self.or_vx_vy(&inst),
            Op::And => self.and_vx_vy(&inst),
            Op::Xor => self.xor_vx_vy(&inst),
            Op::AddReg => self.add_vx_vy(&inst),
            Op::Sub => self.sub_vx_vy(&inst),
            Op::Shr => self.shr_vx(&inst),
            Op::Subn => self.subn_vx_vy(&inst),
            Op::Shl => self.shl_vx(&inst),
            Op::LdI => self.ld_i_addr(&inst),
            Op::JpV0 => self.jp_v0_addr(&inst),
            Op::Rnd => {
                self.rnd_vx_byte(&inst);
                proof {
                    r = choose|r: u8| self@ == m.rnd_vx_byte(inst@, r);
                }
            },
            Op::Drw => self.drw_vx_vy_nibble(&inst),
            Op::LdDt => self.ld_vx_dt(&inst),
            Op::AddI => self.add_i_vx(&inst),
            Op::LdFont => self.lf_f_vx(&inst),
            Op::LdBcd => self.ls_b_vx(&inst),
            Op::StoreRegs => self.ld_i_vx(&inst),
            Op::LoadRegs => self.ld_vx_i(&inst),
            _ => {},
        }
        assert(self@ == m.run(op, inst@, r));
        if advances_exec(op) {
            self.cpu.pc = self.cpu.pc + 2;
        }
        assert(self@ == m.next(op, inst@, r));
        Ok(if op == Op::Drw { Cycle::Drew } else { Cycle::Ran })
    }

    /// Hands a key press to the instruction at the program counter, which
    /// waits for one: a keypad key is stored in its register and the program
    /// counter moves on; other keys change nothing. When the machine is not
    /// waiting for a key, the answer is `Fault` and nothing changes.
    pub fn resume_with_key(&mut self, key: KeyCode) -> (res: Result<KeyWait, StepError>)
        ensures
            old(self)@.awaiting_key() ==> {
                &&& res == Ok::<KeyWait, StepError>(key_wait(key))
                &&& key_wait(key) == KeyWait::Loaded ==> final(self)@ == old(self)@.ld_vx_k(
                    old(self)@.fetch(),
                    key_value(key),
                ).with_pc((old(self)@.pc + 2) as u16)
                &&& key_wait(key) != KeyWait::Loaded ==> final(self)@ == old(self)@
            },
            !old(self)@.awaiting_key() ==> (res matches Err(StepError::Fault)) && final(self)@
                == old(self)@,
    {
        if self.cpu.pc >= 4095 {
            return Err(StepError::Fault);
        }
        let inst = self.fetch();
        if decode(&inst) != Op::LdKey {
            return Err(StepError::Fault);
        }
        let w = self.ld_vx_k(&inst, key);
        if w == KeyWait::Loaded {
            self.cpu.pc = self.cpu.pc + 2;
        }
        Ok(w)
    }
}

impl Machine {
    /// The instruction at the program counter waits for a key press.
    pub open spec fn awaiting_key(self) -> bool {
        self.can_fetch() && decode_spec(self.fetch()) == Op::LdKey
    }
}



/// The instruction moves on to the next one when it is done.
fn advances_exec(op: Op) -> (b: bool)
    ensures
        b == advances(op),
{
    match op {
        Op::Jmp | Op::Call | Op::JpV0 => false,
        _ => true,
    }
}

} // verus!
