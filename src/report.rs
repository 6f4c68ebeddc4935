//! Human-readable listing of the register file.

use vstd::prelude::*;
use crate::cpu::Cpu;

verus! {

/// Conventional ABI names of the 32 registers, in index order, each padded to
/// four characters.
pub open spec fn abi_names() -> Seq<&'static str> {
    seq![
        "zero", " ra ", " sp ", " gp ", " tp ", " t0 ", " t1 ", " t2 ",
        " s0 ", " s1 ", " a0 ", " a1 ", " a2 ", " a3 ", " a4 ", " a5 ",
        " a6 ", " a7 ", " s2 ", " s3 ", " s4 ", " s5 ", " s6 ", " s7 ",
        " s8 ", " s9 ", " s10", " s11", " t3 ", " t4 ", " t5 ", " t6 ",
    ]
}

/// The text of one register's entry: its index, name and value.
pub uninterp spec fn register_cell(index: usize, name: Seq<char>, value: u64) -> Seq<char>;

/// Relies on std's `format!`: renders `x<two-digit index>(<name>)= <value>`
/// with the value in `0x`-prefixed hexadecimal, left-aligned in 18 columns.
#[verifier::external_body]
fn format_cell(index: usize, name: &str, value: u64) -> (r: String)
    ensures
        r@ == register_cell(index, name@, value),
{
    format!("x{:02}({})= {:<#18x}", index, name, value)
}

/// Entry of register `i` of `regs`.
pub open spec fn cell_of(regs: Seq<u64>, i: int) -> Seq<char> {
    register_cell(i as usize, abi_names()[i]@, regs[i])
}

/// One line of the listing: a newline, then registers `4 * row` to
/// `4 * row + 3` separated by single spaces.
pub open spec fn dump_line(regs: Seq<u64>, row: int) -> Seq<char> {
    let b = 4 * row;
    seq!['\n'] + cell_of(regs, b) + seq![' '] + cell_of(regs, b + 1) + seq![' '] + cell_of(
        regs,
        b + 2,
    ) + seq![' '] + cell_of(regs, b + 3)
}

/// The first `rows` lines of the listing.
pub open spec fn dump_lines(regs: Seq<u64>, rows: int) -> Seq<char>
    decreases rows,
{
    if rows <= 0 {
        Seq::empty()
    } else {
        dump_lines(regs, rows - 1) + dump_line(regs, rows - 1)
    }
}

/// The whole listing: all 32 registers, four per line.
pub open spec fn dump_text(regs: Seq<u64>) -> Seq<char> {
    dump_lines(regs, 8)
}

impl Cpu {
    /// Lists all 32 registers in index order, four per line, each with its
    /// ABI name and its value in hexadecimal.
    pub fn dump_registers(&self) -> (r: String)
        ensures
            r@ == dump_text(self.regs@),
    {
        let names: Vec<&'static str> = vec![
            "zero", " ra ", " sp ", " gp ", " tp ", " t0 ", " t1 ", " t2 ",
            " s0 ", " s1 ", " a0 ", " a1 ", " a2 ", " a3 ", " a4 ", " a5 ",
            " a6 ", " a7 ", " s2 ", " s3 ", " s4 ", " s5 ", " s6 ", " s7 ",
            " s8 ", " s9 ", " s10", " s11", " t3 ", " t4 ", " t5 ", " t6 ",
        ];
        assert(names@ =~= abi_names());
        let mut output = String::new();
        let mut row: usize = 0;
        while row < 8
            invariant
                row <= 8,
                names@ == abi_names(),
                output@ == dump_lines(self.regs@, row as int),
            decreases 8 - row,
        {
            let b = 4 * row;
            let mut line = String::from_str("\n");
            let c0 = format_cell(b, names[b], self.regs[b]);
            line.append(c0.as_str());
            line.append(" ");
            let c1 = format_cell(b + 1, names[b + 1], self.regs[b + 1]);
            line.append(c1.as_str());
            line.append(" ");
            let c2 = format_cell(b + 2, names[b + 2], self.regs[b + 2]);
            line.append(c2.as_str());
            line.append(" ");
            let c3 = format_cell(b + 3, names[b + 3], self.regs[b + 3]);
            line.append(c3.as_str());
            proof {
                reveal_strlit("\n");
                reveal_strlit(" ");
                assert(line@ =~= dump_line(self.regs@, row as int));
            }
            output.append(line.as_str());
            row = row + 1;
        }
        output
    }
}

} // verus!
