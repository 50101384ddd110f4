//! Registers saved during an exception, with a verified textual rendering.

use vstd::prelude::*;

use vstd::string::StringExecFns;

verus! {

/// Registers saved during an exception.
#[derive(Clone, Copy)]
pub struct ExceptionFrame {
    /// General purpose register r0
    pub r0: u32,
    /// General purpose register r1
    pub r1: u32,
    /// General purpose register r2
    pub r2: u32,
    /// General purpose register r3
    pub r3: u32,
    /// General purpose register r12
    pub r12: u32,
    /// Link register
    pub lr: u32,
    /// Program counter
    pub pc: u32,
    /// Program status register
    pub cpsr: u32,
}

/// The lower-case hexadecimal digit for `n`.
pub open spec fn spec_hex_digit(n: int) -> char {
    if n == 0 {
        '0'
    } else if n == 1 {
        '1'
    } else if n == 2 {
        '2'
    } else if n == 3 {
        '3'
    } else if n == 4 {
        '4'
    } else if n == 5 {
        '5'
    } else if n == 6 {
        '6'
    } else if n == 7 {
        '7'
    } else if n == 8 {
        '8'
    } else if n == 9 {
        '9'
    } else if n == 10 {
        'a'
    } else if n == 11 {
        'b'
    } else if n == 12 {
        'c'
    } else if n == 13 {
        'd'
    } else if n == 14 {
        'e'
    } else {
        'f'
    }
}

/// The ten-character rendering of `v`: `0x` followed by eight lower-case
/// hexadecimal digits, most significant nibble first.
pub open spec fn spec_hex32(v: u32) -> Seq<char> {
    seq![
        '0',
        'x',
        spec_hex_digit(((v >> 28) & 0xF) as int),
        spec_hex_digit(((v >> 24) & 0xF) as int),
        spec_hex_digit(((v >> 20) & 0xF) as int),
        spec_hex_digit(((v >> 16) & 0xF) as int),
        spec_hex_digit(((v >> 12) & 0xF) as int),
        spec_hex_digit(((v >> 8) & 0xF) as int),
        spec_hex_digit(((v >> 4) & 0xF) as int),
        spec_hex_digit((v & 0xF) as int),
    ]
}

proof fn lemma_nibble_bound(v: u32, shift: u32)
    requires
        shift < 32,
    ensures
        (v >> shift) & 0xF < 16,
{
    assert(shift < 32 ==> (v >> shift) & 0xF < 16) by (bit_vector);
}

fn push_hex_digit(s: &mut String, n: u32)
    requires
        n < 16,
    ensures
        final(s)@ == old(s)@ + seq![spec_hex_digit(n as int)],
{
    let d: &str = if n == 0 {
        "0"
    } else if n == 1 {
        "1"
    } else if n == 2 {
        "2"
    } else if n == 3 {
        "3"
    } else if n == 4 {
        "4"
    } else if n == 5 {
        "5"
    } else if n == 6 {
        "6"
    } else if n == 7 {
        "7"
    } else if n == 8 {
        "8"
    } else if n == 9 {
        "9"
    } else if n == 10 {
        "a"
    } else if n == 11 {
        "b"
    } else if n == 12 {
        "c"
    } else if n == 13 {
        "d"
    } else if n == 14 {
        "e"
    } else {
        "f"
    };
    proof {
        reveal_strlit("0");
        reveal_strlit("1");
        reveal_strlit("2");
        reveal_strlit("3");
        reveal_strlit("4");
        reveal_strlit("5");
        reveal_strlit("6");
        reveal_strlit("7");
        reveal_strlit("8");
        reveal_strlit("9");
        reveal_strlit("a");
        reveal_strlit("b");
        reveal_strlit("c");
        reveal_strlit("d");
        reveal_strlit("e");
        reveal_strlit("f");
        assert(d@ =~= seq![spec_hex_digit(n as int)]);
    }
    s.append(d);
}

/// Renders `v` as `0x` followed by eight lower-case hexadecimal digits.
pub fn hex32(v: u32) -> (s: String)
    ensures
        s@ == spec_hex32(v),
{
    let mut s: String = "0x".to_owned();
    proof {
        reveal_strlit("0x");
        lemma_nibble_bound(v, 28);
        lemma_nibble_bound(v, 24);
        lemma_nibble_bound(v, 20);
        lemma_nibble_bound(v, 16);
        lemma_nibble_bound(v, 12);
        lemma_nibble_bound(v, 8);
        lemma_nibble_bound(v, 4);
        lemma_nibble_bound(v, 0);
        assert(v & 0xF == (v >> 0) & 0xF) by (bit_vector);
    }
    push_hex_digit(&mut s, (v >> 28) & 0xF);
    push_hex_digit(&mut s, (v >> 24) & 0xF);
    push_hex_digit(&mut s, (v >> 20) & 0xF);
    push_hex_digit(&mut s, (v >> 16) & 0xF);
    push_hex_digit(&mut s, (v >> 12) & 0xF);
    push_hex_digit(&mut s, (v >> 8) & 0xF);
    push_hex_digit(&mut s, (v >> 4) & 0xF);
    push_hex_digit(&mut s, v & 0xF);
    proof {
        assert(s@ =~= spec_hex32(v));
    }
    s
}

impl ExceptionFrame {
    /// The rendering `describe` produces: each saved register labelled and
    /// shown in hexadecimal.
    pub open spec fn spec_describe(self) -> Seq<char> {
        "ExceptionFrame { r0: "@ + spec_hex32(self.r0) + ", r1: "@ + spec_hex32(self.r1)
            + ", r2: "@ + spec_hex32(self.r2) + ", r3: "@ + spec_hex32(self.r3) + ", r12: "@
            + spec_hex32(self.r12) + ", lr: "@ + spec_hex32(self.lr) + ", pc: "@
            + spec_hex32(self.pc) + ", cpsr: "@ + spec_hex32(self.cpsr) + " }"@
    }

    /// Renders the frame with each saved register labelled and shown in
    /// hexadecimal.
    pub fn describe(&self) -> (s: String)
        ensures
            s@ == self.spec_describe(),
    {
        let mut s: String = "ExceptionFrame { r0: ".to_owned();
        s.append(hex32(self.r0).as_str());
        s.append(", r1: ");
        s.append(hex32(self.r1).as_str());
        s.append(", r2: ");
        s.append(hex32(self.r2).as_str());
        s.append(", r3: ");
        s.append(hex32(self.r3).as_str());
        s.append(", r12: ");
        s.append(hex32(self.r12).as_str());
        s.append(", lr: ");
        s.append(hex32(self.lr).as_str());
        s.append(", pc: ");
        s.append(hex32(self.pc).as_str());
        s.append(", cpsr: ");
        s.append(hex32(self.cpsr).as_str());
        s.append(" }");
        s
    }
}

} // verus!
