//! Target instruction lines, their textual form, and their machine meaning.
//!
//! [`AsmLine`] is one emitted line. Its view [`LineV`] replaces the label
//! strings by their character sequences, so that specifications can build and
//! compare whole emissions. [`render_line`] produces the canonical text: two
//! spaces of indentation, the mnemonic, and the operands in the order
//! `dest, src1, src2` separated by `", "`.
//!
//! [`run_linevs`] gives straight-line machine semantics over a 32-register
//! file whose register 0 is hard-wired to zero; execution stops at the first
//! return. The comparison lemmas at the end state that each two-instruction
//! comparison sequence computes exactly the source comparison as 0 or 1.

use crate::errors::CompileError;
use crate::ir::BinaryOp;
use crate::semantics::{div_wrap, eval_binop, rem_wrap};
use vstd::prelude::*;

verus! {

/// Mnemonics of three-register instructions.
#[derive(Debug, Clone, Copy, PartialEq, Eq, Structural)]
pub enum BinMnemonic {
    Add,
    Sub,
    Mul,
    Div,
    Rem,
    And,
    Or,
    Xor,
    Slt,
    Sgt,
}

/// Mnemonics of the set-if-zero / set-if-nonzero pseudo-instructions.
#[derive(Debug, Clone, Copy, PartialEq, Eq, Structural)]
pub enum SetMnemonic {
    Seqz,
    Snez,
}

/// One line of emitted assembly.
#[derive(Debug, Clone, PartialEq, Eq)]
pub enum AsmLine {
    /// `  .text`
    TextDirective,
    /// `  .global <name>`
    GlobalDirective(String),
    /// `<name>:`
    Label(String),
    /// `  li rd, imm`
    Li(usize, i32),
    /// `  mv rd, rs`
    Mv(usize, usize),
    /// `  mn rd, rs1, rs2`
    Bin(BinMnemonic, usize, usize, usize),
    /// `  seqz rd, rs` / `  snez rd, rs`
    SetCond(SetMnemonic, usize, usize),
    /// `  ret`
    Ret,
}

/// The mathematical view of a line: label text as characters.
pub enum LineV {
    TextD,
    GlobalD(Seq<char>),
    LabelD(Seq<char>),
    LiV(int, i32),
    MvV(int, int),
    BinV(BinMnemonic, int, int, int),
    SetV(SetMnemonic, int, int),
    RetV,
}

impl View for AsmLine {
    type V = LineV;

    open spec fn view(&self) -> LineV {
        match self {
            AsmLine::TextDirective => LineV::TextD,
            AsmLine::GlobalDirective(s) => LineV::GlobalD(s@),
            AsmLine::Label(s) => LineV::LabelD(s@),
            AsmLine::Li(rd, imm) => LineV::LiV(*rd as int, *imm),
            AsmLine::Mv(rd, rs) => LineV::MvV(*rd as int, *rs as int),
            AsmLine::Bin(mn, rd, r1, r2) => LineV::BinV(*mn, *rd as int, *r1 as int, *r2 as int),
            AsmLine::SetCond(mn, rd, rs) => LineV::SetV(*mn, *rd as int, *rs as int),
            AsmLine::Ret => LineV::RetV,
        }
    }
}

/// The views of a line sequence.
pub open spec fn line_views(lines: Seq<AsmLine>) -> Seq<LineV> {
    lines.map_values(|l: AsmLine| l@)
}

/// The decimal digit character for `d`.
pub open spec fn digit_char(d: nat) -> char {
    if d == 0 {
        '0'
    } else if d == 1 {
        '1'
    } else if d == 2 {
        '2'
    } else if d == 3 {
        '3'
    } else if d == 4 {
        '4'
    } else if d == 5 {
        '5'
    } else if d == 6 {
        '6'
    } else if d == 7 {
        '7'
    } else if d == 8 {
        '8'
    } else {
        '9'
    }
}

/// The decimal digits of `n`, most significant first.
pub open spec fn dec_digits(n: nat) -> Seq<char>
    decreases n,
{
    if n < 10 {
        seq![digit_char(n)]
    } else {
        dec_digits(n / 10).push(digit_char(n % 10))
    }
}

/// The canonical decimal text of a 32-bit value, with a leading `-` when
/// negative.
pub open spec fn i32_text(n: int) -> Seq<char> {
    if n < 0 {
        seq!['-'] + dec_digits((-n) as nat)
    } else {
        dec_digits(n as nat)
    }
}

/// The name of hardware register `i`.
pub open spec fn reg_name(i: int) -> Seq<char> {
    if i == 0 {
        "x0"@
    } else if i == 1 {
        "ra"@
    } else if i == 2 {
        "sp"@
    } else if i == 3 {
        "gp"@
    } else if i == 4 {
        "tp"@
    } else if i == 5 {
        "t0"@
    } else if i == 6 {
        "t1"@
    } else if i == 7 {
        "t2"@
    } else if i == 8 {
        "fp"@
    } else if i == 9 {
        "s1"@
    } else if i == 10 {
        "a0"@
    } else if i == 11 {
        "a1"@
    } else if i == 12 {
        "a2"@
    } else if i == 13 {
        "a3"@
    } else if i == 14 {
        "a4"@
    } else if i == 15 {
        "a5"@
    } else if i == 16 {
        "a6"@
    } else if i == 17 {
        "a7"@
    } else if i == 18 {
        "s2"@
    } else if i == 19 {
        "s3"@
    } else if i == 20 {
        "s4"@
    } else if i == 21 {
        "s5"@
    } else if i == 22 {
        "s6"@
    } else if i == 23 {
        "s7"@
    } else if i == 24 {
        "s8"@
    } else if i == 25 {
        "s9"@
    } else if i == 26 {
        "s10"@
    } else if i == 27 {
        "s11"@
    } else if i == 28 {
        "t3"@
    } else if i == 29 {
        "t4"@
    } else if i == 30 {
        "t5"@
    } else if i == 31 {
        "t6"@
    } else {
        "x0"@
    }
}

/// The text of a three-register mnemonic.
pub open spec fn bin_mn_text(mn: BinMnemonic) -> Seq<char> {
    match mn {
        BinMnemonic::Add => "add"@,
        BinMnemonic::Sub => "sub"@,
        BinMnemonic::Mul => "mul"@,
        BinMnemonic::Div => "div"@,
        BinMnemonic::Rem => "rem"@,
        BinMnemonic::And => "and"@,
        BinMnemonic::Or => "or"@,
        BinMnemonic::Xor => "xor"@,
        BinMnemonic::Slt => "slt"@,
        BinMnemonic::Sgt => "sgt"@,
    }
}

/// The text of a set pseudo-instruction mnemonic.
pub open spec fn set_mn_text(mn: SetMnemonic) -> Seq<char> {
    match mn {
        SetMnemonic::Seqz => "seqz"@,
        SetMnemonic::Snez => "snez"@,
    }
}

/// The canonical text of one line.
pub open spec fn render_linev(l: LineV) -> Seq<char> {
    match l {
        LineV::TextD => "  .text"@,
        LineV::GlobalD(name) => "  .global "@ + name,
        LineV::LabelD(name) => name + ":"@,
        LineV::LiV(rd, imm) => "  li "@ + reg_name(rd) + ", "@ + i32_text(imm as int),
        LineV::MvV(rd, rs) => "  mv "@ + reg_name(rd) + ", "@ + reg_name(rs),
        LineV::BinV(mn, rd, r1, r2) => "  "@ + bin_mn_text(mn) + " "@ + reg_name(rd) + ", "@
            + reg_name(r1) + ", "@ + reg_name(r2),
        LineV::SetV(mn, rd, rs) => "  "@ + set_mn_text(mn) + " "@ + reg_name(rd) + ", "@
            + reg_name(rs),
        LineV::RetV => "  ret"@,
    }
}

/// The decimal digit as a string slice.
fn digit_str(d: u32) -> (r: &'static str)
    requires
        d < 10,
    ensures
        r@ == seq![digit_char(d as nat)],
{
    proof {
        reveal_strlit("0");
        reveal_strlit("1");
        reveal_strlit("2");
        reveal_strlit("3");
        reveal_strlit("4");
        reveal_strlit("5");
        reveal_strlit("6");
        reveal_strlit("7");
        reveal_strlit("8");
        reveal_strlit("9");
    }
    let r = if d == 0 {
        "0"
    } else if d == 1 {
        "1"
    } else if d == 2 {
        "2"
    } else if d == 3 {
        "3"
    } else if d == 4 {
        "4"
    } else if d == 5 {
        "5"
    } else if d == 6 {
        "6"
    } else if d == 7 {
        "7"
    } else if d == 8 {
        "8"
    } else {
        "9"
    };
    proof {
        assert(r@ =~= seq![digit_char(d as nat)]);
    }
    r
}

/// Appends the decimal digits of `n`.
fn push_u32_dec(s: &mut String, n: u32)
    ensures
        final(s)@ == old(s)@ + dec_digits(n as nat),
    decreases n,
{
    if n >= 10 {
        push_u32_dec(s, n / 10);
        s.append(digit_str(n % 10));
        proof {
            assert(final(s)@ =~= old(s)@ + dec_digits(n as nat));
        }
    } else {
        s.append(digit_str(n));
        proof {
            assert(final(s)@ =~= old(s)@ + dec_digits(n as nat));
        }
    }
}

/// Appends the canonical decimal text of `n`.
fn push_i32_dec(s: &mut String, n: i32)
    ensures
        final(s)@ == old(s)@ + i32_text(n as int),
{
    if n < 0 {
        s.append("-");
        let mag: u32 = (-(n as i64)) as u32;
        push_u32_dec(s, mag);
        proof {
            reveal_strlit("-");
            assert("-"@ =~= seq!['-']);
            assert(final(s)@ =~= old(s)@ + i32_text(n as int));
        }
    } else {
        push_u32_dec(s, n as u32);
    }
}

/// The name of hardware register `i`, as text.
fn register_name(i: usize) -> (r: &'static str)
    ensures
        r@ == reg_name(i as int),
{
    match i {
        0 => "x0",
        1 => "ra",
        2 => "sp",
        3 => "gp",
        4 => "tp",
        5 => "t0",
        6 => "t1",
        7 => "t2",
        8 => "fp",
        9 => "s1",
        10 => "a0",
        11 => "a1",
        12 => "a2",
        13 => "a3",
        14 => "a4",
        15 => "a5",
        16 => "a6",
        17 => "a7",
        18 => "s2",
        19 => "s3",
        20 => "s4",
        21 => "s5",
        22 => "s6",
        23 => "s7",
        24 => "s8",
        25 => "s9",
        26 => "s10",
        27 => "s11",
        28 => "t3",
        29 => "t4",
        30 => "t5",
        31 => "t6",
        _ => "x0",
    }
}

/// The text of a three-register mnemonic.
fn bin_mn_str(mn: BinMnemonic) -> (r: &'static str)
    ensures
        r@ == bin_mn_text(mn),
{
    match mn {
        BinMnemonic::Add => "add",
        BinMnemonic::Sub => "sub",
        BinMnemonic::Mul => "mul",
        BinMnemonic::Div => "div",
        BinMnemonic::Rem => "rem",
        BinMnemonic::And => "and",
        BinMnemonic::Or => "or",
        BinMnemonic::Xor => "xor",
        BinMnemonic::Slt => "slt",
        BinMnemonic::Sgt => "sgt",
    }
}

/// The text of a set pseudo-instruction mnemonic.
fn set_mn_str(mn: SetMnemonic) -> (r: &'static str)
    ensures
        r@ == set_mn_text(mn),
{
    match mn {
        SetMnemonic::Seqz => "seqz",
        SetMnemonic::Snez => "snez",
    }
}

/// Renders one line as its canonical text.
pub fn render_line(l: &AsmLine) -> (r: String)
    ensures
        r@ == render_linev(l@),
{
    match l {
        AsmLine::TextDirective => String::from_str("  .text"),
        AsmLine::GlobalDirective(name) => {
            let mut s = String::from_str("  .global ");
            s.append(name.as_str());
            s
        },
        AsmLine::Label(name) => {
            let mut s = name.clone();
            s.append(":");
            s
        },
        AsmLine::Li(rd, imm) => {
            let mut s = String::from_str("  li ");
            s.append(register_name(*rd));
            s.append(", ");
            push_i32_dec(&mut s, *imm);
            s
        },
        AsmLine::Mv(rd, rs) => {
            let mut s = String::from_str("  mv ");
            s.append(register_name(*rd));
            s.append(", ");
            s.append(register_name(*rs));
            s
        },
        AsmLine::Bin(mn, rd, r1, r2) => {
            let mut s = String::from_str("  ");
            s.append(bin_mn_str(*mn));
            s.append(" ");
            s.append(register_name(*rd));
            s.append(", ");
            s.append(register_name(*r1));
            s.append(", ");
            s.append(register_name(*r2));
            s
        },
        AsmLine::SetCond(mn, rd, rs) => {
            let mut s = String::from_str("  ");
            s.append(set_mn_str(*mn));
            s.append(" ");
            s.append(register_name(*rd));
            s.append(", ");
            s.append(register_name(*rs));
            s
        },
        AsmLine::Ret => String::from_str("  ret"),
    }
}

/// The result a three-register instruction computes. Division follows the
/// target's convention: division by zero yields `-1`, remainder by zero
/// yields the dividend, and the overflowing quotient wraps.
pub open spec fn alu(mn: BinMnemonic, a: i32, b: i32) -> i32 {
    match mn {
        BinMnemonic::Add => vstd::wrapping::i32_specs::wrapping_add(a, b),
        BinMnemonic::Sub => vstd::wrapping::i32_specs::wrapping_sub(a, b),
        BinMnemonic::Mul => vstd::wrapping::i32_specs::wrapping_mul(a, b),
        BinMnemonic::Div => if b == 0 {
            -1i32
        } else {
            div_wrap(a, b)
        },
        BinMnemonic::Rem => if b == 0 {
            a
        } else {
            rem_wrap(a, b)
        },
        BinMnemonic::And => a & b,
        BinMnemonic::Or => a | b,
        BinMnemonic::Xor => a ^ b,
        BinMnemonic::Slt => if a < b {
            1i32
        } else {
            0i32
        },
        BinMnemonic::Sgt => if a > b {
            1i32
        } else {
            0i32
        },
    }
}

/// The result of a set pseudo-instruction.
pub open spec fn set_cond(mn: SetMnemonic, a: i32) -> i32 {
    match mn {
        SetMnemonic::Seqz => if a == 0 {
            1i32
        } else {
            0i32
        },
        SetMnemonic::Snez => if a != 0 {
            1i32
        } else {
            0i32
        },
    }
}

/// Writes `v` into register `rd`; writes to the hard-wired zero register are
/// discarded.
pub open spec fn write_reg(regs: Seq<i32>, rd: int, v: i32) -> Seq<i32> {
    if rd == 0 || rd >= regs.len() {
        regs
    } else {
        regs.update(rd, v)
    }
}

/// The effect of one line on the register file; directives, labels and
/// returns leave it unchanged.
pub open spec fn step_linev(regs: Seq<i32>, l: LineV) -> Seq<i32> {
    match l {
        LineV::LiV(rd, imm) => write_reg(regs, rd, imm),
        LineV::MvV(rd, rs) => if 0 <= rs < regs.len() {
            write_reg(regs, rd, regs[rs])
        } else {
            regs
        },
        LineV::BinV(mn, rd, r1, r2) => if 0 <= r1 < regs.len() && 0 <= r2 < regs.len() {
            write_reg(regs, rd, alu(mn, regs[r1], regs[r2]))
        } else {
            regs
        },
        LineV::SetV(mn, rd, rs) => if 0 <= rs < regs.len() {
            write_reg(regs, rd, set_cond(mn, regs[rs]))
        } else {
            regs
        },
        _ => regs,
    }
}

/// Runs a straight-line sequence; execution stops at the first return.
pub open spec fn run_linevs(regs: Seq<i32>, lines: Seq<LineV>) -> Seq<i32>
    decreases lines.len(),
{
    if lines.len() == 0 {
        regs
    } else if lines[0] is RetV {
        regs
    } else {
        run_linevs(step_linev(regs, lines[0]), lines.skip(1))
    }
}

/// The initial register file: 32 registers, all zero.
pub open spec fn init_regs() -> Seq<i32> {
    Seq::new(32, |i: int| 0i32)
}

/// Runs a sequence of two non-return lines.
pub proof fn lemma_run_two(regs: Seq<i32>, a: LineV, b: LineV)
    requires
        !(a is RetV),
        !(b is RetV),
    ensures
        run_linevs(regs, seq![a, b]) == step_linev(step_linev(regs, a), b),
{
    reveal_with_fuel(run_linevs, 3);
    let l = seq![a, b];
    assert(l.skip(1) =~= seq![b]);
    assert(seq![b].skip(1) =~= Seq::<LineV>::empty());
}

/// The two-line sequence code generation emits for a comparison operator:
/// `==`/`!=` via exclusive or, the strict comparisons via set-less-than or
/// set-greater-than, and `>=`/`<=` as the negated opposite strict comparison.
pub open spec fn cmp_linevs(op: BinaryOp, rd: int, r1: int, r2: int) -> Seq<LineV> {
    match op {
        BinaryOp::Eq => seq![
            LineV::BinV(BinMnemonic::Xor, rd, r1, r2),
            LineV::SetV(SetMnemonic::Seqz, rd, rd),
        ],
        BinaryOp::NotEq => seq![
            LineV::BinV(BinMnemonic::Xor, rd, r1, r2),
            LineV::SetV(SetMnemonic::Snez, rd, rd),
        ],
        BinaryOp::Lt => seq![
            LineV::BinV(BinMnemonic::Slt, rd, r1, r2),
            LineV::SetV(SetMnemonic::Snez, rd, rd),
        ],
        BinaryOp::Gt => seq![
            LineV::BinV(BinMnemonic::Sgt, rd, r1, r2),
            LineV::SetV(SetMnemonic::Snez, rd, rd),
        ],
        BinaryOp::Le => seq![
            LineV::BinV(BinMnemonic::Sgt, rd, r1, r2),
            LineV::SetV(SetMnemonic::Seqz, rd, rd),
        ],
        BinaryOp::Ge => seq![
            LineV::BinV(BinMnemonic::Slt, rd, r1, r2),
            LineV::SetV(SetMnemonic::Seqz, rd, rd),
        ],
        _ => Seq::empty(),
    }
}

/// Whether `op` is one of the six relational or equality operators.
pub open spec fn is_comparison(op: BinaryOp) -> bool {
    ||| op is Eq
    ||| op is NotEq
    ||| op is Lt
    ||| op is Gt
    ||| op is Le
    ||| op is Ge
}

/// For every 32-bit pair, the instruction sequence emitted for a comparison
/// operator computes exactly the comparison's result, `0` or `1`, in its
/// destination register, and touches no other register.
pub proof fn lemma_comparison_sequence(op: BinaryOp, regs: Seq<i32>, rd: int, r1: int, r2: int)
    requires
        is_comparison(op),
        regs.len() == 32,
        0 < rd < 32,
        0 <= r1 < 32,
        0 <= r2 < 32,
    ensures
        run_linevs(regs, cmp_linevs(op, rd, r1, r2)).len() == 32,
        run_linevs(regs, cmp_linevs(op, rd, r1, r2))[rd] == eval_binop(
            op,
            regs[r1],
            regs[r2],
        )->Ok_0,
        forall|j: int|
            0 <= j < 32 && j != rd ==> run_linevs(regs, cmp_linevs(op, rd, r1, r2))[j] == regs[j],
{
    let x = regs[r1];
    let y = regs[r2];
    assert(((x ^ y) == 0) <==> (x == y)) by (bit_vector);
    match op {
        BinaryOp::Eq => {
            lemma_run_two(
                regs,
                LineV::BinV(BinMnemonic::Xor, rd, r1, r2),
                LineV::SetV(SetMnemonic::Seqz, rd, rd),
            );
        },
        BinaryOp::NotEq => {
            lemma_run_two(
                regs,
                LineV::BinV(BinMnemonic::Xor, rd, r1, r2),
                LineV::SetV(SetMnemonic::Snez, rd, rd),
            );
        },
        BinaryOp::Lt => {
            lemma_run_two(
                regs,
                LineV::BinV(BinMnemonic::Slt, rd, r1, r2),
                LineV::SetV(SetMnemonic::Snez, rd, rd),
            );
        },
        BinaryOp::Gt => {
            lemma_run_two(
                regs,
                LineV::BinV(BinMnemonic::Sgt, rd, r1, r2),
                LineV::SetV(SetMnemonic::Snez, rd, rd),
            );
        },
        BinaryOp::Le => {
            lemma_run_two(
                regs,
                LineV::BinV(BinMnemonic::Sgt, rd, r1, r2),
                LineV::SetV(SetMnemonic::Seqz, rd, rd),
            );
        },
        BinaryOp::Ge => {
            lemma_run_two(
                regs,
                LineV::BinV(BinMnemonic::Slt, rd, r1, r2),
                LineV::SetV(SetMnemonic::Seqz, rd, rd),
            );
        },
        _ => {},
    }
}

/// Runs emitted lines on the machine model, starting from all-zero
/// registers; useful to observe what a generated program computes.
pub fn execute_lines(lines: &Vec<AsmLine>) -> (regs: Vec<i32>)
    ensures
        regs@ == run_linevs(init_regs(), line_views(lines@)),
{
    let mut regs: Vec<i32> = Vec::new();
    let mut i: usize = 0;
    while i < 32
        invariant
            i <= 32,
            regs@.len() == i,
            forall|j: int| 0 <= j < i ==> regs@[j] == 0i32,
        decreases 32 - i,
    {
        regs.push(0);
        i = i + 1;
    }
    proof {
        assert(regs@ =~= init_regs());
        assert(line_views(lines@).skip(0) =~= line_views(lines@));
    }
    let mut k: usize = 0;
    while k < lines.len()
        invariant
            k <= lines.len(),
            regs@.len() == 32,
            run_linevs(regs@, line_views(lines@).skip(k as int)) == run_linevs(
                init_regs(),
                line_views(lines@),
            ),
        decreases lines.len() - k,
    {
        proof {
            assert(line_views(lines@).skip(k as int)[0] == lines@[k as int]@);
            assert(line_views(lines@).skip(k as int).skip(1) =~= line_views(lines@).skip(
                k as int + 1,
            ));
        }
        let ghost pre = regs@;
        match &lines[k] {
            AsmLine::Li(rd, imm) => {
                if *rd != 0 && *rd < 32 {
                    regs[*rd] = *imm;
                }
            },
            AsmLine::Mv(rd, rs) => {
                if *rs < 32 {
                    let v = regs[*rs];
                    if *rd != 0 && *rd < 32 {
                        regs[*rd] = v;
                    }
                }
            },
            AsmLine::Bin(mn, rd, r1, r2) => {
                if *r1 < 32 && *r2 < 32 {
                    let v = exec_alu(*mn, regs[*r1], regs[*r2]);
                    if *rd != 0 && *rd < 32 {
                        regs[*rd] = v;
                    }
                }
            },
            AsmLine::SetCond(mn, rd, rs) => {
                if *rs < 32 {
                    let a = regs[*rs];
                    let v = match mn {
                        SetMnemonic::Seqz => if a == 0 {
                            1
                        } else {
                            0
                        },
                        SetMnemonic::Snez => if a != 0 {
                            1
                        } else {
                            0
                        },
                    };
                    if *rd != 0 && *rd < 32 {
                        regs[*rd] = v;
                    }
                }
            },
            AsmLine::Ret => {
                proof {
                    assert(run_linevs(pre, line_views(lines@).skip(k as int)) == pre);
                }
                return regs;
            },
            _ => {},
        }
        proof {
            assert(regs@ =~= step_linev(pre, lines@[k as int]@));
        }
        k = k + 1;
    }
    proof {
        assert(line_views(lines@).skip(lines@.len() as int) =~= Seq::<LineV>::empty());
    }
    regs
}

/// Executes one three-register operation.
fn exec_alu(mn: BinMnemonic, a: i32, b: i32) -> (r: i32)
    ensures
        r == alu(mn, a, b),
{
    match mn {
        BinMnemonic::Add => a.wrapping_add(b),
        BinMnemonic::Sub => a.wrapping_sub(b),
        BinMnemonic::Mul => a.wrapping_mul(b),
        BinMnemonic::Div => if b == 0 {
            -1
        } else {
            crate::ir_builder::exec_div_wrap(a, b)
        },
        BinMnemonic::Rem => if b == 0 {
            a
        } else {
            crate::ir_builder::exec_rem_wrap(a, b)
        },
        BinMnemonic::And => a & b,
        BinMnemonic::Or => a | b,
        BinMnemonic::Xor => a ^ b,
        BinMnemonic::Slt => if a < b {
            1
        } else {
            0
        },
        BinMnemonic::Sgt => if a > b {
            1
        } else {
            0
        },
    }
}

} // verus!
