//! The register allocator and code generator.
//!
//! Walks a lowered function's instructions in block order, assigns every
//! result to a register from the fixed 15-register scratch pool, frees the
//! operand registers as soon as they are combined, and emits the target
//! instruction lines. The whole walk is pinned down by a functional model:
//! [`spec_gen_program`] says exactly which lines come out of which program,
//! and [`generate_riscv_asm`] returns exactly their canonical text.
//!
//! A binary operand that is the integer literal `0` consumes the hard-wired
//! zero register and emits no load ([`lemma_zero_operand`]); a scratch
//! register is only ever handed out while free, and exhaustion of the pool is
//! reported deterministically ([`lemma_allocation_safe`],
//! [`lemma_exhaustion`]).

use crate::errors::CompileError;
use crate::ir::{BinaryOp, FunctionData, Program, Value, ValueData};
use crate::target::{line_views, render_line, render_linev, AsmLine, BinMnemonic, LineV, SetMnemonic};
use vstd::prelude::*;

verus! {

/// The allocation table: for each of the 32 hardware registers, the handle of
/// the value currently owning it.
pub struct GenerateAsmInfo {
    register_user: Vec<Option<Value>>,
    asm_codes: Vec<AsmLine>,
}

/// The scratch pool, in allocation order: t0-t6 then a0-a7.
pub open spec fn pool_reg(k: int) -> int {
    if k == 0 {
        5
    } else if k == 1 {
        6
    } else if k == 2 {
        7
    } else if k == 3 {
        28
    } else if k == 4 {
        29
    } else if k == 5 {
        30
    } else if k == 6 {
        31
    } else if k == 7 {
        10
    } else if k == 8 {
        11
    } else if k == 9 {
        12
    } else if k == 10 {
        13
    } else if k == 11 {
        14
    } else if k == 12 {
        15
    } else if k == 13 {
        16
    } else {
        17
    }
}

/// The scratch pool as text order for the executable allocator.
fn temp_register(k: usize) -> (r: usize)
    requires
        k < 15,
    ensures
        r == pool_reg(k as int),
        0 < r < 32,
{
    match k {
        0 => 5,
        1 => 6,
        2 => 7,
        3 => 28,
        4 => 29,
        5 => 30,
        6 => 31,
        7 => 10,
        8 => 11,
        9 => 12,
        10 => 13,
        11 => 14,
        12 => 15,
        13 => 16,
        _ => 17,
    }
}

/// The allocation table of a fresh function: all 32 registers free.
pub open spec fn fresh_table() -> Seq<Option<Value>> {
    Seq::new(32, |i: int| None::<Value>)
}

/// The first free pool register at or after pool position `k`.
pub open spec fn spec_avail_from(t: Seq<Option<Value>>, k: int) -> Option<int>
    decreases 15 - k,
{
    if k < 0 || k >= 15 {
        None
    } else if t[pool_reg(k)] is None {
        Some(pool_reg(k))
    } else {
        spec_avail_from(t, k + 1)
    }
}

/// The first free pool register, in pool order.
pub open spec fn spec_avail(t: Seq<Option<Value>>) -> Option<int> {
    spec_avail_from(t, 0)
}

/// The lowest register currently owned by `v`, searched from `i` up.
pub open spec fn spec_find_from(t: Seq<Option<Value>>, v: Value, i: int) -> Option<int>
    decreases 32 - i,
{
    if i < 0 || i >= 32 {
        None
    } else if t[i] == Some(v) {
        Some(i)
    } else {
        spec_find_from(t, v, i + 1)
    }
}

/// The lowest register currently owned by `v`.
pub open spec fn spec_find(t: Seq<Option<Value>>, v: Value) -> Option<int> {
    spec_find_from(t, v, 0)
}

/// A law of the allocator: what `spec_avail` hands out is a free register of
/// the scratch pool (so no two simultaneously live values ever share one).
pub proof fn lemma_allocation_safe(t: Seq<Option<Value>>, k: int)
    requires
        t.len() == 32,
        0 <= k <= 15,
        spec_avail_from(t, k) is Some,
    ensures
        0 < spec_avail_from(t, k)->Some_0 < 32,
        t[spec_avail_from(t, k)->Some_0] is None,
        exists|j: int| 0 <= j < 15 && pool_reg(j) == spec_avail_from(t, k)->Some_0,
    decreases 15 - k,
{
    if k < 15 {
        if t[pool_reg(k)] is None {
            assert(pool_reg(k) == spec_avail_from(t, k)->Some_0);
        } else {
            lemma_allocation_safe(t, k + 1);
        }
    }
}

/// A law of the allocator: the pool is refused exactly when all fifteen
/// scratch registers are occupied.
pub proof fn lemma_exhaustion(t: Seq<Option<Value>>, k: int)
    requires
        t.len() == 32,
        0 <= k <= 15,
    ensures
        (spec_avail_from(t, k) is None) <==> (forall|j: int|
            k <= j < 15 ==> t[pool_reg(j)] is Some),
    decreases 15 - k,
{
    if k < 15 {
        lemma_exhaustion(t, k + 1);
    }
}

impl View for GenerateAsmInfo {
    type V = (Seq<Option<Value>>, Seq<LineV>);

    closed spec fn view(&self) -> (Seq<Option<Value>>, Seq<LineV>) {
        (self.register_user@, line_views(self.asm_codes@))
    }
}

impl GenerateAsmInfo {
    /// Whether the table has its 32 slots.
    pub open spec fn wf(self) -> bool {
        self@.0.len() == 32
    }

    /// A fresh allocation table: all registers free, no lines yet.
    pub fn new() -> (r: GenerateAsmInfo)
        ensures
            r.wf(),
            r@.0 =~= fresh_table(),
            r@.1 =~= Seq::<LineV>::empty(),
    {
        let mut register_user: Vec<Option<Value>> = Vec::new();
        let mut i: usize = 0;
        while i < 32
            invariant
                i <= 32,
                register_user@.len() == i,
                forall|j: int| 0 <= j < i ==> register_user@[j] is None,
            decreases 32 - i,
        {
            register_user.push(None);
            i = i + 1;
        }
        let r = GenerateAsmInfo { register_user, asm_codes: Vec::new() };
        proof {
            assert(r@.0 =~= fresh_table());
            assert(r@.1 =~= Seq::<LineV>::empty());
        }
        r
    }

    /// The emitted lines.
    pub fn into_lines(self) -> (r: Vec<AsmLine>)
        ensures
            line_views(r@) == self@.1,
    {
        self.asm_codes
    }

    /// Finds a free scratch register, in fixed pool order; refuses with
    /// [`CompileError::RegisterPoolExhausted`] exactly when the whole pool is
    /// occupied.
    fn get_available_register(&self) -> (r: Result<usize, CompileError>)
        requires
            self.wf(),
        ensures
            match spec_avail(self@.0) {
                Some(i) => r == Ok::<usize, CompileError>(i as usize),
                None => r == Err::<usize, CompileError>(CompileError::RegisterPoolExhausted),
            },
    {
        let mut k: usize = 0;
        while k < 15
            invariant
                self.wf(),
                k <= 15,
                spec_avail(self@.0) == spec_avail_from(self@.0, k as int),
            decreases 15 - k,
        {
            let reg = temp_register(k);
            if self.register_user[reg].is_none() {
                return Ok(reg);
            }
            k = k + 1;
        }
        Err(CompileError::RegisterPoolExhausted)
    }

    /// Finds the register currently owned by `value`, scanning upward from
    /// the lowest id.
    fn find_using_register(&self, value: Value) -> (r: Option<usize>)
        requires
            self.wf(),
        ensures
            match spec_find(self@.0, value) {
                Some(i) => r == Some(i as usize),
                None => r is None,
            },
    {
        let mut i: usize = 0;
        while i < 32
            invariant
                self.wf(),
                i <= 32,
                spec_find(self@.0, value) == spec_find_from(self@.0, value, i as int),
            decreases 32 - i,
        {
            match self.register_user[i] {
                Some(v) => {
                    if v.id == value.id {
                        proof {
                            assert(self@.0[i as int] == Some(value));
                        }
                        return Some(i);
                    }
                },
                None => {},
            }
            proof {
                assert(self@.0[i as int] != Some(value));
            }
            i = i + 1;
        }
        None
    }

    /// Allocates a free scratch register to `value`.
    fn allocate_register(&mut self, value: Value) -> (r: Result<usize, CompileError>)
        requires
            old(self).wf(),
        ensures
            final(self).wf(),
            final(self)@.1 == old(self)@.1,
            match spec_avail(old(self)@.0) {
                Some(i) => r == Ok::<usize, CompileError>(i as usize) && final(self)@.0 == old(
                    self,
                )@.0.update(i, Some(value)),
                None => r == Err::<usize, CompileError>(CompileError::RegisterPoolExhausted)
                    && final(self)@.0 == old(self)@.0,
            },
    {
        let reg = match self.get_available_register() {
            Ok(reg) => reg,
            Err(e) => {
                return Err(e);
            },
        };
        proof {
            lemma_allocation_safe(old(self)@.0, 0);
        }
        self.register_user[reg] = Some(value);
        Ok(reg)
    }

    /// Releases a register.
    fn free_register(&mut self, reg_id: usize)
        requires
            old(self).wf(),
            reg_id < 32,
        ensures
            final(self).wf(),
            final(self)@.1 == old(self)@.1,
            final(self)@.0 == old(self)@.0.update(reg_id as int, None::<Value>),
    {
        self.register_user[reg_id] = None;
    }

    /// Clears the allocation table: a fresh per-function state.
    fn reset_registers(&mut self)
        requires
            old(self).wf(),
        ensures
            final(self).wf(),
            final(self)@.1 == old(self)@.1,
            final(self)@.0 =~= fresh_table(),
    {
        let mut i: usize = 0;
        while i < 32
            invariant
                old(self).wf(),
                self.wf(),
                i <= 32,
                self@.1 == old(self)@.1,
                forall|j: int| 0 <= j < i ==> self@.0[j] is None,
            decreases 32 - i,
        {
            self.register_user[i] = None;
            i = i + 1;
        }
        proof {
            assert(self@.0 =~= fresh_table());
        }
    }

    /// Appends one line.
    fn push_line(&mut self, l: AsmLine)
        requires
            old(self).wf(),
        ensures
            final(self).wf(),
            final(self)@.0 == old(self)@.0,
            final(self)@.1 == old(self)@.1.push(l@),
    {
        self.asm_codes.push(l);
        proof {
            assert(self@.1 =~= old(self)@.1.push(l@));
        }
    }
}

/// What resolving one binary operand does: a zero literal is the hard-wired
/// zero register and emits nothing; a nonzero literal is loaded into a fresh
/// scratch register; a prior instruction's result is found in the table.
pub open spec fn spec_get_reg(fd: FunctionData, v: Value, t: Seq<Option<Value>>) -> Result<
    (int, Seq<LineV>, Seq<Option<Value>>),
    CompileError,
> {
    if v.id >= fd.values@.len() {
        Err(CompileError::MalformedProgram)
    } else {
        match fd.values@[v.id as int] {
            ValueData::Integer(n) => if n == 0 {
                Ok((0int, Seq::empty(), t))
            } else {
                match spec_avail(t) {
                    None => Err(CompileError::RegisterPoolExhausted),
                    Some(i) => Ok((i, seq![LineV::LiV(i, n)], t.update(i, Some(v)))),
                }
            },
            ValueData::Binary(_, _, _) => match spec_find(t, v) {
                None => Err(CompileError::MalformedProgram),
                Some(i) => Ok((i, Seq::empty(), t)),
            },
            ValueData::Return(_) => Err(CompileError::MalformedProgram),
        }
    }
}

/// A law of operand resolution: the literal `0` consumes the zero register
/// and emits no load instruction.
pub proof fn lemma_zero_operand(fd: FunctionData, v: Value, t: Seq<Option<Value>>)
    requires
        (v.id as int) < fd.values@.len(),
        fd.values@[v.id as int] == ValueData::Integer(0i32),
    ensures
        spec_get_reg(fd, v, t) == Ok::<(int, Seq<LineV>, Seq<Option<Value>>), CompileError>(
            (0int, Seq::empty(), t),
        ),
{
}

/// The lines translating one binary IR operator, destination first.
pub open spec fn spec_bin_emit(op: BinaryOp, rd: int, r1: int, r2: int) -> Result<
    Seq<LineV>,
    CompileError,
> {
    match op {
        BinaryOp::Add => Ok(seq![LineV::BinV(BinMnemonic::Add, rd, r1, r2)]),
        BinaryOp::Sub => Ok(seq![LineV::BinV(BinMnemonic::Sub, rd, r1, r2)]),
        BinaryOp::Mul => Ok(seq![LineV::BinV(BinMnemonic::Mul, rd, r1, r2)]),
        BinaryOp::Div => Ok(seq![LineV::BinV(BinMnemonic::Div, rd, r1, r2)]),
        BinaryOp::Mod => Ok(seq![LineV::BinV(BinMnemonic::Rem, rd, r1, r2)]),
        BinaryOp::And => Ok(seq![LineV::BinV(BinMnemonic::And, rd, r1, r2)]),
        BinaryOp::Or => Ok(seq![LineV::BinV(BinMnemonic::Or, rd, r1, r2)]),
        BinaryOp::Eq => Ok(crate::target::cmp_linevs(op, rd, r1, r2)),
        BinaryOp::NotEq => Ok(crate::target::cmp_linevs(op, rd, r1, r2)),
        BinaryOp::Lt => Ok(crate::target::cmp_linevs(op, rd, r1, r2)),
        BinaryOp::Gt => Ok(crate::target::cmp_linevs(op, rd, r1, r2)),
        BinaryOp::Le => Ok(crate::target::cmp_linevs(op, rd, r1, r2)),
        BinaryOp::Ge => Ok(crate::target::cmp_linevs(op, rd, r1, r2)),
        BinaryOp::Xor => Err(CompileError::UnsupportedOperator),
        BinaryOp::Shl => Err(CompileError::UnsupportedOperator),
        BinaryOp::Shr => Err(CompileError::UnsupportedOperator),
        BinaryOp::Sar => Err(CompileError::UnsupportedOperator),
    }
}

/// What generating one block entry does to the lines and the table.
pub open spec fn spec_gen_inst(fd: FunctionData, v: Value, t: Seq<Option<Value>>) -> Result<
    (Seq<LineV>, Seq<Option<Value>>),
    CompileError,
> {
    if v.id >= fd.values@.len() {
        Err(CompileError::MalformedProgram)
    } else {
        match fd.values@[v.id as int] {
            ValueData::Integer(_) => Err(CompileError::MalformedProgram),
            ValueData::Binary(op, l, r) => match spec_get_reg(fd, l, t) {
                Err(e) => Err(e),
                Ok((r1, lines1, t1)) => match spec_get_reg(fd, r, t1) {
                    Err(e) => Err(e),
                    Ok((r2, lines2, t2)) => {
                        let t3 = t2.update(r1, None).update(r2, None);
                        match spec_avail(t3) {
                            None => Err(CompileError::RegisterPoolExhausted),
                            Some(rd) => match spec_bin_emit(op, rd, r1, r2) {
                                Err(e) => Err(e),
                                Ok(lines3) => Ok(
                                    (lines1 + lines2 + lines3, t3.update(rd, Some(v))),
                                ),
                            },
                        }
                    },
                },
            },
            ValueData::Return(ov) => match ov {
                None => Ok((seq![LineV::RetV], t)),
                Some(rv) => if rv.id >= fd.values@.len() {
                    Err(CompileError::MalformedProgram)
                } else {
                    match fd.values@[rv.id as int] {
                        ValueData::Integer(n) => Ok((seq![LineV::LiV(10, n), LineV::RetV], t)),
                        ValueData::Binary(_, _, _) => match spec_find(t, rv) {
                            None => Err(CompileError::MalformedProgram),
                            Some(i) => Ok((seq![LineV::MvV(10, i), LineV::RetV], t)),
                        },
                        ValueData::Return(_) => Err(CompileError::MalformedProgram),
                    }
                },
            },
        }
    }
}

/// The lines generated for the block entries from position `k` on.
pub open spec fn spec_gen_insts(fd: FunctionData, k: int, t: Seq<Option<Value>>) -> Result<
    Seq<LineV>,
    CompileError,
>
    decreases fd.block.insts@.len() - k,
{
    if k < 0 || k >= fd.block.insts@.len() {
        Ok(Seq::empty())
    } else {
        match spec_gen_inst(fd, fd.block.insts@[k], t) {
            Err(e) => Err(e),
            Ok((lines, t2)) => match spec_gen_insts(fd, k + 1, t2) {
                Err(e) => Err(e),
                Ok(rest) => Ok(lines + rest),
            },
        }
    }
}

/// The lines generated for one function: its directives and label, then its
/// block, against a fresh allocation table.
pub open spec fn spec_gen_func(fd: FunctionData) -> Result<Seq<LineV>, CompileError> {
    if fd.name@.len() < 1 {
        Err(CompileError::MalformedProgram)
    } else {
        match spec_gen_insts(fd, 0, fresh_table()) {
            Err(e) => Err(e),
            Ok(body) => Ok(
                seq![
                    LineV::GlobalD(fd.name@.skip(1)),
                    LineV::LabelD(fd.name@.skip(1)),
                ] + body,
            ),
        }
    }
}

/// The lines generated for the functions from index `j` on.
pub open spec fn spec_gen_funcs(funcs: Seq<FunctionData>, j: int) -> Result<
    Seq<LineV>,
    CompileError,
>
    decreases funcs.len() - j,
{
    if j < 0 || j >= funcs.len() {
        Ok(Seq::empty())
    } else {
        match spec_gen_func(funcs[j]) {
            Err(e) => Err(e),
            Ok(lines) => match spec_gen_funcs(funcs, j + 1) {
                Err(e) => Err(e),
                Ok(rest) => Ok(lines + rest),
            },
        }
    }
}

/// All lines generated for a program: the text directive, then each function.
pub open spec fn spec_gen_program(p: Program) -> Result<Seq<LineV>, CompileError> {
    match spec_gen_funcs(p.funcs@, 0) {
        Err(e) => Err(e),
        Ok(lines) => Ok(seq![LineV::TextD] + lines),
    }
}

/// Resolves one binary operand to a register, emitting a load for a nonzero
/// literal.
fn get_reg(fd: &FunctionData, value: Value, asm_info: &mut GenerateAsmInfo) -> (r: Result<
    usize,
    CompileError,
>)
    requires
        old(asm_info).wf(),
    ensures
        final(asm_info).wf(),
        match spec_get_reg(*fd, value, old(asm_info)@.0) {
            Ok((i, lines, t2)) => {
                &&& r == Ok::<usize, CompileError>(i as usize)
                &&& 0 <= i < 32
                &&& final(asm_info)@.0 == t2
                &&& final(asm_info)@.1 == old(asm_info)@.1 + lines
            },
            Err(e) => r == Err::<usize, CompileError>(e),
        },
{
    if value.id >= fd.values.len() {
        return Err(CompileError::MalformedProgram);
    }
    match fd.values[value.id] {
        ValueData::Integer(n) => {
            if n == 0 {
                proof {
                    assert(old(asm_info)@.1 + Seq::<LineV>::empty() =~= old(asm_info)@.1);
                }
                Ok(0)
            } else {
                let reg = match asm_info.allocate_register(value) {
                    Ok(reg) => reg,
                    Err(e) => {
                        return Err(e);
                    },
                };
                proof {
                    lemma_allocation_safe(old(asm_info)@.0, 0);
                }
                asm_info.push_line(AsmLine::Li(reg, n));
                proof {
                    assert(old(asm_info)@.1.push(AsmLine::Li(reg, n)@) =~= old(asm_info)@.1
                        + seq![LineV::LiV(reg as int, n)]);
                }
                Ok(reg)
            }
        },
        ValueData::Binary(_, _, _) => {
            match asm_info.find_using_register(value) {
                Some(reg) => {
                    proof {
                        lemma_find_in_range(old(asm_info)@.0, value, 0);
                        assert(old(asm_info)@.1 + Seq::<LineV>::empty() =~= old(asm_info)@.1);
                    }
                    Ok(reg)
                },
                None => Err(CompileError::MalformedProgram),
            }
        },
        ValueData::Return(_) => Err(CompileError::MalformedProgram),
    }
}

/// A found register is a real register id.
proof fn lemma_find_in_range(t: Seq<Option<Value>>, v: Value, i: int)
    requires
        0 <= i <= 32,
        spec_find_from(t, v, i) is Some,
    ensures
        0 <= spec_find_from(t, v, i)->Some_0 < 32,
    decreases 32 - i,
{
    if i < 32 && !(t[i] == Some(v)) {
        lemma_find_in_range(t, v, i + 1);
    }
}

/// Emits the line(s) for one binary operator.
fn emit_binary(
    op: BinaryOp,
    rd: usize,
    r1: usize,
    r2: usize,
    asm_info: &mut GenerateAsmInfo,
) -> (r: Result<(), CompileError>)
    requires
        old(asm_info).wf(),
    ensures
        final(asm_info).wf(),
        final(asm_info)@.0 == old(asm_info)@.0,
        match spec_bin_emit(op, rd as int, r1 as int, r2 as int) {
            Ok(lines) => r is Ok && final(asm_info)@.1 == old(asm_info)@.1 + lines,
            Err(e) => r == Err::<(), CompileError>(e) && final(asm_info)@.1 == old(asm_info)@.1,
        },
{
    let ghost t0 = old(asm_info)@.1;
    match op {
        BinaryOp::Add => {
            asm_info.push_line(AsmLine::Bin(BinMnemonic::Add, rd, r1, r2));
            proof {
                assert(asm_info@.1 =~= t0 + spec_bin_emit(
                    op,
                    rd as int,
                    r1 as int,
                    r2 as int,
                )->Ok_0);
            }
            Ok(())
        },
        BinaryOp::Sub => {
            asm_info.push_line(AsmLine::Bin(BinMnemonic::Sub, rd, r1, r2));
            proof {
                assert(asm_info@.1 =~= t0 + spec_bin_emit(
                    op,
                    rd as int,
                    r1 as int,
                    r2 as int,
                )->Ok_0);
            }
            Ok(())
        },
        BinaryOp::Mul => {
            asm_info.push_line(AsmLine::Bin(BinMnemonic::Mul, rd, r1, r2));
            proof {
                assert(asm_info@.1 =~= t0 + spec_bin_emit(
                    op,
                    rd as int,
                    r1 as int,
                    r2 as int,
                )->Ok_0);
            }
            Ok(())
        },
        BinaryOp::Div => {
            asm_info.push_line(AsmLine::Bin(BinMnemonic::Div, rd, r1, r2));
            proof {
                assert(asm_info@.1 =~= t0 + spec_bin_emit(
                    op,
                    rd as int,
                    r1 as int,
                    r2 as int,
                )->Ok_0);
            }
            Ok(())
        },
        BinaryOp::Mod => {
            asm_info.push_line(AsmLine::Bin(BinMnemonic::Rem, rd, r1, r2));
            proof {
                assert(asm_info@.1 =~= t0 + spec_bin_emit(
                    op,
                    rd as int,
                    r1 as int,
                    r2 as int,
                )->Ok_0);
            }
            Ok(())
        },
        BinaryOp::And => {
            asm_info.push_line(AsmLine::Bin(BinMnemonic::And, rd, r1, r2));
            proof {
                assert(asm_info@.1 =~= t0 + spec_bin_emit(
                    op,
                    rd as int,
                    r1 as int,
                    r2 as int,
                )->Ok_0);
            }
            Ok(())
        },
        BinaryOp::Or => {
            asm_info.push_line(AsmLine::Bin(BinMnemonic::Or, rd, r1, r2));
            proof {
                assert(asm_info@.1 =~= t0 + spec_bin_emit(
                    op,
                    rd as int,
                    r1 as int,
                    r2 as int,
                )->Ok_0);
            }
            Ok(())
        },
        BinaryOp::Eq => {
            asm_info.push_line(AsmLine::Bin(BinMnemonic::Xor, rd, r1, r2));
            asm_info.push_line(AsmLine::SetCond(SetMnemonic::Seqz, rd, rd));
            proof {
                assert(asm_info@.1 =~= t0 + spec_bin_emit(
                    op,
                    rd as int,
                    r1 as int,
                    r2 as int,
                )->Ok_0);
            }
            Ok(())
        },
        BinaryOp::NotEq => {
            asm_info.push_line(AsmLine::Bin(BinMnemonic::Xor, rd, r1, r2));
            asm_info.push_line(AsmLine::SetCond(SetMnemonic::Snez, rd, rd));
            proof {
                assert(asm_info@.1 =~= t0 + spec_bin_emit(
                    op,
                    rd as int,
                    r1 as int,
                    r2 as int,
                )->Ok_0);
            }
            Ok(())
        },
        BinaryOp::Lt => {
            asm_info.push_line(AsmLine::Bin(BinMnemonic::Slt, rd, r1, r2));
            asm_info.push_line(AsmLine::SetCond(SetMnemonic::Snez, rd, rd));
            proof {
                assert(asm_info@.1 =~= t0 + spec_bin_emit(
                    op,
                    rd as int,
                    r1 as int,
                    r2 as int,
                )->Ok_0);
            }
            Ok(())
        },
        BinaryOp::Gt => {
            asm_info.push_line(AsmLine::Bin(BinMnemonic::Sgt, rd, r1, r2));
            asm_info.push_line(AsmLine::SetCond(SetMnemonic::Snez, rd, rd));
            proof {
                assert(asm_info@.1 =~= t0 + spec_bin_emit(
                    op,
                    rd as int,
                    r1 as int,
                    r2 as int,
                )->Ok_0);
            }
            Ok(())
        },
        BinaryOp::Le => {
            asm_info.push_line(AsmLine::Bin(BinMnemonic::Sgt, rd, r1, r2));
            asm_info.push_line(AsmLine::SetCond(SetMnemonic::Seqz, rd, rd));
            proof {
                assert(asm_info@.1 =~= t0 + spec_bin_emit(
                    op,
                    rd as int,
                    r1 as int,
                    r2 as int,
                )->Ok_0);
            }
            Ok(())
        },
        BinaryOp::Ge => {
            asm_info.push_line(AsmLine::Bin(BinMnemonic::Slt, rd, r1, r2));
            asm_info.push_line(AsmLine::SetCond(SetMnemonic::Seqz, rd, rd));
            proof {
                assert(asm_info@.1 =~= t0 + spec_bin_emit(
                    op,
                    rd as int,
                    r1 as int,
                    r2 as int,
                )->Ok_0);
            }
            Ok(())
        },
        BinaryOp::Xor => Err(CompileError::UnsupportedOperator),
        BinaryOp::Shl => Err(CompileError::UnsupportedOperator),
        BinaryOp::Shr => Err(CompileError::UnsupportedOperator),
        BinaryOp::Sar => Err(CompileError::UnsupportedOperator),
    }
}

/// Generates the lines for one block entry.
fn generate_inst(fd: &FunctionData, v: Value, asm_info: &mut GenerateAsmInfo) -> (r: Result<
    (),
    CompileError,
>)
    requires
        old(asm_info).wf(),
    ensures
        final(asm_info).wf(),
        match spec_gen_inst(*fd, v, old(asm_info)@.0) {
            Ok((lines, t2)) => {
                &&& r is Ok
                &&& final(asm_info)@.0 == t2
                &&& final(asm_info)@.1 == old(asm_info)@.1 + lines
            },
            Err(e) => r == Err::<(), CompileError>(e),
        },
{
    if v.id >= fd.values.len() {
        return Err(CompileError::MalformedProgram);
    }
    match fd.values[v.id] {
        ValueData::Integer(_) => Err(CompileError::MalformedProgram),
        ValueData::Binary(op, lhs, rhs) => {
            let reg1 = match get_reg(fd, lhs, asm_info) {
                Ok(reg) => reg,
                Err(e) => {
                    return Err(e);
                },
            };
            let reg2 = match get_reg(fd, rhs, asm_info) {
                Ok(reg) => reg,
                Err(e) => {
                    return Err(e);
                },
            };
            asm_info.free_register(reg1);
            asm_info.free_register(reg2);
            let ghost t3g = asm_info@.0;
            let reg_ans = match asm_info.allocate_register(v) {
                Ok(reg) => reg,
                Err(e) => {
                    return Err(e);
                },
            };
            proof {
                lemma_allocation_safe(t3g, 0);
            }
            let r = emit_binary(op, reg_ans, reg1, reg2, asm_info);
            proof {
                if r is Ok {
                    assert(asm_info@.1 =~= old(asm_info)@.1 + spec_gen_inst(
                        *fd,
                        v,
                        old(asm_info)@.0,
                    )->Ok_0.0);
                }
            }
            r
        },
        ValueData::Return(ov) => {
            match ov {
                Some(rv) => {
                    if rv.id >= fd.values.len() {
                        return Err(CompileError::MalformedProgram);
                    }
                    match fd.values[rv.id] {
                        ValueData::Integer(n) => {
                            asm_info.push_line(AsmLine::Li(10, n));
                            asm_info.push_line(AsmLine::Ret);
                            proof {
                                assert(asm_info@.1 =~= old(asm_info)@.1 + spec_gen_inst(
                                    *fd,
                                    v,
                                    old(asm_info)@.0,
                                )->Ok_0.0);
                            }
                            Ok(())
                        },
                        ValueData::Binary(_, _, _) => {
                            match asm_info.find_using_register(rv) {
                                Some(reg) => {
                                    proof {
                                        lemma_find_in_range(old(asm_info)@.0, rv, 0);
                                    }
                                    asm_info.push_line(AsmLine::Mv(10, reg));
                                    asm_info.push_line(AsmLine::Ret);
                                    proof {
                                        assert(asm_info@.1 =~= old(asm_info)@.1 + spec_gen_inst(
                                            *fd,
                                            v,
                                            old(asm_info)@.0,
                                        )->Ok_0.0);
                                    }
                                    Ok(())
                                },
                                None => Err(CompileError::MalformedProgram),
                            }
                        },
                        ValueData::Return(_) => Err(CompileError::MalformedProgram),
                    }
                },
                None => {
                    asm_info.push_line(AsmLine::Ret);
                    proof {
                        assert(asm_info@.1 =~= old(asm_info)@.1 + spec_gen_inst(
                            *fd,
                            v,
                            old(asm_info)@.0,
                        )->Ok_0.0);
                    }
                    Ok(())
                },
            }
        },
    }
}

impl FunctionData {
    /// Generates the lines for one function: its global directive and label,
    /// then every instruction of its block against a fresh allocation table.
    pub fn generate(&self, asm_info: &mut GenerateAsmInfo) -> (r: Result<(), CompileError>)
        requires
            old(asm_info).wf(),
        ensures
            final(asm_info).wf(),
            match spec_gen_func(*self) {
                Ok(lines) => r is Ok && final(asm_info)@.1 == old(asm_info)@.1 + lines,
                Err(e) => r == Err::<(), CompileError>(e),
            },
    {
        let l = self.name.as_str().unicode_len();
        if l < 1 {
            return Err(CompileError::MalformedProgram);
        }
        let tail = self.name.as_str().substring_char(1, l);
        asm_info.push_line(AsmLine::GlobalDirective(tail.to_owned()));
        asm_info.push_line(AsmLine::Label(tail.to_owned()));
        asm_info.reset_registers();
        let ghost base = asm_info@.1;
        let ghost t_init = fresh_table();
        proof {
            assert(asm_info@.0 =~= t_init);
            assert(self.name@.skip(1) =~= self.name@.subrange(1, self.name@.len() as int));
            assert(asm_info@.1.skip(base.len() as int) =~= Seq::<LineV>::empty());
            if let Ok(rest) = spec_gen_insts(*self, 0, fresh_table()) {
                assert(Seq::<LineV>::empty() + rest =~= rest);
            }
        }
        let mut k: usize = 0;
        while k < self.block.insts.len()
            invariant
                asm_info.wf(),
                k <= self.block.insts@.len(),
                self.name@.len() >= 1,
                asm_info@.1.len() >= base.len(),
                base.is_prefix_of(asm_info@.1),
                match spec_gen_insts(*self, k as int, asm_info@.0) {
                    Ok(rest) => spec_gen_insts(*self, 0, fresh_table()) == Ok::<Seq<LineV>, CompileError>(
                        asm_info@.1.skip(base.len() as int) + rest,
                    ),
                    Err(e) => spec_gen_insts(*self, 0, fresh_table()) == Err::<Seq<LineV>, CompileError>(
                        e,
                    ),
                },
            decreases self.block.insts@.len() - k,
        {
            let ghost pre = *asm_info;
            let v = self.block.insts[k];
            let rr = generate_inst(self, v, asm_info);
            proof {
                match spec_gen_inst(*self, v, pre@.0) {
                    Ok((lines, t2)) => {
                        assert(asm_info@.1.skip(base.len() as int) =~= pre@.1.skip(
                            base.len() as int,
                        ) + lines);
                        assert(pre@.1.is_prefix_of(asm_info@.1));
                        assert(base.is_prefix_of(asm_info@.1)) by {
                            assert forall|j: int| 0 <= j < base.len() implies asm_info@.1[j]
                                == base[j] by {
                                assert(pre@.1[j] == base[j]);
                            }
                            assert(base =~= asm_info@.1.subrange(0, base.len() as int));
                        }
                        if let Ok(rest) = spec_gen_insts(*self, k as int + 1, t2) {
                            assert(pre@.1.skip(base.len() as int) + lines + rest =~= pre@.1.skip(
                                base.len() as int,
                            ) + (lines + rest));
                        }
                    },
                    Err(_) => {},
                }
            }
            match rr {
                Err(e) => {
                    proof {
                        assert(spec_gen_insts(*self, k as int, pre@.0) == Err::<
                            Seq<LineV>,
                            CompileError,
                        >(e));
                    }
                    return Err(e);
                },
                Ok(()) => {},
            }
            k = k + 1;
        }
        proof {
            assert(asm_info@.1.skip(base.len() as int) + Seq::<LineV>::empty() =~= asm_info@.1.skip(
                base.len() as int,
            ));
            assert(base =~= old(asm_info)@.1 + seq![
                LineV::GlobalD(self.name@.skip(1)),
                LineV::LabelD(self.name@.skip(1)),
            ]);
            assert(base + asm_info@.1.skip(base.len() as int) =~= asm_info@.1);
            assert(old(asm_info)@.1 + spec_gen_func(*self)->Ok_0 =~= asm_info@.1);
        }
        Ok(())
    }
}

impl Program {
    /// Generates the lines for a whole program: the text directive, then each
    /// function in order.
    pub fn generate(&self, asm_info: &mut GenerateAsmInfo) -> (r: Result<(), CompileError>)
        requires
            old(asm_info).wf(),
        ensures
            final(asm_info).wf(),
            match spec_gen_program(*self) {
                Ok(lines) => r is Ok && final(asm_info)@.1 == old(asm_info)@.1 + lines,
                Err(e) => r == Err::<(), CompileError>(e),
            },
    {
        asm_info.push_line(AsmLine::TextDirective);
        let ghost base = asm_info@.1;
        proof {
            assert(asm_info@.1.skip(base.len() as int) =~= Seq::<LineV>::empty());
            if let Ok(rest) = spec_gen_funcs(self.funcs@, 0) {
                assert(Seq::<LineV>::empty() + rest =~= rest);
            }
        }
        let mut j: usize = 0;
        while j < self.funcs.len()
            invariant
                asm_info.wf(),
                j <= self.funcs@.len(),
                base.is_prefix_of(asm_info@.1),
                match spec_gen_funcs(self.funcs@, j as int) {
                    Ok(rest) => spec_gen_funcs(self.funcs@, 0) == Ok::<Seq<LineV>, CompileError>(
                        asm_info@.1.skip(base.len() as int) + rest,
                    ),
                    Err(e) => spec_gen_funcs(self.funcs@, 0) == Err::<Seq<LineV>, CompileError>(e),
                },
            decreases self.funcs@.len() - j,
        {
            let ghost pre = *asm_info;
            let rr = self.funcs[j].generate(asm_info);
            proof {
                match spec_gen_func(self.funcs@[j as int]) {
                    Ok(lines) => {
                        assert(asm_info@.1.skip(base.len() as int) =~= pre@.1.skip(
                            base.len() as int,
                        ) + lines);
                        assert(base.is_prefix_of(asm_info@.1)) by {
                            assert forall|i: int| 0 <= i < base.len() implies asm_info@.1[i]
                                == base[i] by {
                                assert(pre@.1[i] == base[i]);
                            }
                            assert(base =~= asm_info@.1.subrange(0, base.len() as int));
                        }
                        if let Ok(rest) = spec_gen_funcs(self.funcs@, j as int + 1) {
                            assert(pre@.1.skip(base.len() as int) + lines + rest =~= pre@.1.skip(
                                base.len() as int,
                            ) + (lines + rest));
                        }
                    },
                    Err(_) => {},
                }
            }
            match rr {
                Err(e) => {
                    return Err(e);
                },
                Ok(()) => {},
            }
            j = j + 1;
        }
        proof {
            assert(asm_info@.1.skip(base.len() as int) + Seq::<LineV>::empty() =~= asm_info@.1.skip(
                base.len() as int,
            ));
            assert(base =~= old(asm_info)@.1 + seq![LineV::TextD]);
            assert(base + asm_info@.1.skip(base.len() as int) =~= asm_info@.1);
            assert(old(asm_info)@.1 + spec_gen_program(*self)->Ok_0 =~= asm_info@.1);
        }
        Ok(())
    }
}

/// Generates the structured lines for a program, starting from nothing.
pub fn generate_asm_lines(mem_ir: &Program) -> (r: Result<Vec<AsmLine>, CompileError>)
    ensures
        match spec_gen_program(*mem_ir) {
            Ok(lines) => r is Ok && line_views(r->Ok_0@) == lines,
            Err(e) => r == Err::<Vec<AsmLine>, CompileError>(e),
        },
{
    let mut asm_info = GenerateAsmInfo::new();
    match mem_ir.generate(&mut asm_info) {
        Err(e) => Err(e),
        Ok(()) => {
            proof {
                if let Ok(lines) = spec_gen_program(*mem_ir) {
                    assert(asm_info@.1 =~= Seq::<LineV>::empty() + lines);
                    assert(Seq::<LineV>::empty() + lines =~= lines);
                }
            }
            Ok(asm_info.into_lines())
        },
    }
}

/// Generates the assembly text for a program: exactly the canonical rendering
/// of the lines [`spec_gen_program`] prescribes.
pub fn generate_riscv_asm(mem_ir: &Program) -> (r: Result<Vec<String>, CompileError>)
    ensures
        match spec_gen_program(*mem_ir) {
            Ok(lines) => {
                &&& r is Ok
                &&& r->Ok_0@.len() == lines.len()
                &&& forall|i: int| 0 <= i < lines.len() ==> (#[trigger] r->Ok_0@[i])@
                    == render_linev(lines[i])
            },
            Err(e) => r == Err::<Vec<String>, CompileError>(e),
        },
{
    let lines = match generate_asm_lines(mem_ir) {
        Ok(lines) => lines,
        Err(e) => {
            return Err(e);
        },
    };
    let mut out: Vec<String> = Vec::new();
    let mut i: usize = 0;
    while i < lines.len()
        invariant
            i <= lines.len(),
            out@.len() == i,
            forall|j: int| 0 <= j < i ==> (#[trigger] out@[j])@ == render_linev(lines@[j]@),
        decreases lines.len() - i,
    {
        out.push(render_line(&lines[i]));
        i = i + 1;
    }
    proof {
        if let Ok(model) = spec_gen_program(*mem_ir) {
            assert(forall|j: int| 0 <= j < model.len() ==> line_views(lines@)[j] == model[j]);
        }
    }
    Ok(out)
}

} // verus!
