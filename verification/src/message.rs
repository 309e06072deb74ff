//! Texts the interpreter reports: the stop message for an unimplemented
//! instruction and the register dump.
use vstd::prelude::*;
use crate::machine::CPU;

verus! {

/// The lower-case hexadecimal digit for `d`.
pub open spec fn hex_char(d: int) -> char {
    if d < 10 {
        (48 + d) as char
    } else {
        (87 + d) as char
    }
}

/// A number in lower-case hexadecimal without leading zeros.
pub open spec fn hex_text(v: nat) -> Seq<char>
    decreases v,
{
    if v < 16 {
        seq![hex_char(v as int)]
    } else {
        hex_text(v / 16) + seq![hex_char((v % 16) as int)]
    }
}

/// Each number in hexadecimal followed by `", "`.
pub open spec fn hex_list(vals: Seq<u16>) -> Seq<char>
    decreases vals.len(),
{
    if vals.len() == 0 {
        Seq::empty()
    } else {
        hex_list(vals.drop_last()) + hex_text(vals.last() as nat) + ", "@
    }
}

/// The register dump: each register on a line of its own, the general
/// registers and the stack as lists, all in hexadecimal.
pub open spec fn cpu_text(cpu: CPU) -> Seq<char> {
    "v : "@ + hex_list(cpu.v@.map_values(|b: u8| b as u16)) + "\n"@ + "i : "@ + hex_text(
        cpu.i as nat,
    ) + "\n"@ + "dt: "@ + hex_text(cpu.dt as nat) + "\n"@ + "st: "@ + hex_text(cpu.st as nat)
        + "\n"@ + "pc: "@ + hex_text(cpu.pc as nat) + "\n"@ + "sp: "@ + hex_text(cpu.sp as nat)
        + "\n"@ + "sk: "@ + hex_list(cpu.stack@)
}

/// The text of the stop message for an instruction.
pub open spec fn unimplemented_text(inst: Seq<u8>) -> Seq<char> {
    "unimplemented instruction: "@ + hex_text(inst[0] as nat) + hex_text(inst[1] as nat)
        + hex_text(inst[2] as nat) + hex_text(inst[3] as nat) + "\n"@
}

/// The one-character text of a hexadecimal digit.
fn hex_digit_str(d: u8) -> (s: &'static str)
    requires
        d < 16,
    ensures
        s@ == seq![hex_char(d as int)],
{
    match d {
        0 => {
            proof {
                reveal_strlit("0");
            }
            "0"
        },
        1 => {
            proof {
                reveal_strlit("1");
            }
            "1"
        },
        2 => {
            proof {
                reveal_strlit("2");
            }
            "2"
        },
        3 => {
            proof {
                reveal_strlit("3");
            }
            "3"
        },
        4 => {
            proof {
                reveal_strlit("4");
            }
            "4"
        },
        5 => {
            proof {
                reveal_strlit("5");
            }
            "5"
        },
        6 => {
            proof {
                reveal_strlit("6");
            }
            "6"
        },
        7 => {
            proof {
                reveal_strlit("7");
            }
            "7"
        },
        8 => {
            proof {
                reveal_strlit("8");
            }
            "8"
        },
        9 => {
            proof {
                reveal_strlit("9");
            }
            "9"
        },
        10 => {
            proof {
                reveal_strlit("a");
            }
            "a"
        },
        11 => {
            proof {
                reveal_strlit("b");
            }
            "b"
        },
        12 => {
            proof {
                reveal_strlit("c");
            }
            "c"
        },
        13 => {
            proof {
                reveal_strlit("d");
            }
            "d"
        },
        14 => {
            proof {
                reveal_strlit("e");
            }
            "e"
        },
        15 => {
            proof {
                reveal_strlit("f");
            }
            "f"
        },
        _ => {
            proof {
                reveal_strlit("f");
            }
            "f"
        },
    }
}

/// Appends a number in lower-case hexadecimal without leading zeros.
fn push_hex(s: &mut String, v: u16)
    ensures
        final(s)@ == old(s)@ + hex_text(v as nat),
    decreases v,
{
    if v >= 16 {
        push_hex(s, v / 16);
    }
    s.append(hex_digit_str((v % 16) as u8));
}

/// Appends each number in hexadecimal followed by `", "`.
fn push_hex_list(s: &mut String, vals: &[u16])
    ensures
        final(s)@ == old(s)@ + hex_list(vals@),
{
    let ghost start = s@;
    let mut k: usize = 0;
    assert(vals@.take(0) =~= Seq::<u16>::empty());
    while k < vals.len()
        invariant
            k <= vals@.len(),
            s@ =~= start + hex_list(vals@.take(k as int)),
        decreases vals@.len() - k,
    {
        assert(vals@.take(k + 1).drop_last() =~= vals@.take(k as int));
        push_hex(s, vals[k]);
        s.append(", ");
        k = k + 1;
    }
    assert(vals@.take(vals@.len() as int) =~= vals@);
}

/// The message with which the interpreter stops on an instruction it does
/// not implement: the instruction's four elements in hexadecimal.
pub fn unimplemented_panic(inst: &[u8; 4]) -> (msg: String)
    ensures
        msg@ == unimplemented_text(inst@),
{
    let mut msg = String::from_str("unimplemented instruction: ");
    push_hex(&mut msg, inst[0] as u16);
    push_hex(&mut msg, inst[1] as u16);
    push_hex(&mut msg, inst[2] as u16);
    push_hex(&mut msg, inst[3] as u16);
    msg.append("\n");
    msg
}

impl CPU {
    /// The register dump the interpreter logs after each cycle.
    pub fn debug_text(&self) -> (text: String)
        ensures
            text@ == cpu_text(*self),
    {
        let mut wide: Vec<u16> = Vec::new();
        let mut k: usize = 0;
        while k < 16
            invariant
                k <= 16,
                self.v@.len() == 16,
                wide@ =~= self.v@.map_values(|b: u8| b as u16).take(k as int),
            decreases 16 - k,
        {
            wide.push(self.v[k] as u16);
            k = k + 1;
        }
        assert(self.v@.map_values(|b: u8| b as u16).take(16) =~= self.v@.map_values(
            |b: u8| b as u16,
        ));
        let mut text = String::from_str("v : ");
        push_hex_list(&mut text, wide.as_slice());
        text.append("\n");
        text.append("i : ");
        push_hex(&mut text, self.i);
        text.append("\n");
        text.append("dt: ");
        push_hex(&mut text, self.dt as u16);
        text.append("\n");
        text.append("st: ");
        push_hex(&mut text, self.st as u16);
        text.append("\n");
        text.append("pc: ");
        push_hex(&mut text, self.pc);
        text.append("\n");
        text.append("sp: ");
        push_hex(&mut text, self.sp as u16);
        text.append("\n");
        text.append("sk: ");
        push_hex_list(&mut text, &self.stack);
        text
    }
}

} // verus!
