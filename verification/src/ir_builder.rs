//! The IR lowering engine.
//!
//! Walks the syntax tree and emits IR instructions into the current function's
//! single basic block, resolving identifiers through the symbol table and
//! folding provably-constant sub-expressions at compile time.
//!
//! The lowering context [`MyIRGeneratorInfo`] threads the current function,
//! the handle of the most recently produced value, the symbol table, and the
//! constant-folding stage (`tmp_constants`). Folding mode is active exactly
//! while `tmp_constants` is `Some`: every build call then stages a numeric
//! value instead of emitting instructions, and the pair's first component is
//! the value staged by the latest completed operand.
//!
//! Each build method's contract ties what it emits to the semantic functions
//! of [`crate::semantics`]: in folding mode the staged value equals
//! `fold_sem`, outside it the produced handle evaluates to `rt_val` and an
//! error is returned exactly when `rt_check` finds one.

use crate::ast::exp::{AddExp, EqExp, Exp, LAndExp, LOrExp, MulExp, PrimaryExp, RelExp, UnaryExp};
use crate::ast::statements::{
    Block,
    BlockItem,
    CompUnit,
    ConstDecl,
    ConstDef,
    ConstExp,
    ConstInitVal,
    Decl,
    FuncDef,
    InitVal,
    LVal,
    Number,
    Stmt,
    VarDecl,
    VarDef,
};
use crate::errors::CompileError;
use crate::ir::{
    collect_returns,
    collect_returns_seq,
    eval_value,
    fd_wf,
    lemma_collect_returns_app,
    lemma_collect_returns_vals_extend,
    lemma_eval_value_stable,
    value_wf,
    BasicBlock,
    BinaryOp,
    FunctionData,
    IrType,
    Program,
    Value,
    ValueData,
};
use crate::semantics::{
    block_items_sem,
    const_defs_sem,
    div_wrap,
    eval_binop,
    first_err,
    fold2,
    rem_wrap,
    rt2,
    trunc_div_int,
    trunc_rem_int,
    var_defs_sem,
    SemEntry,
    SemEnv,
    SemState,
};
use crate::symbols::{SymbolTable, SymbolsEntry};
use vstd::arithmetic::div_mod::{
    lemma_div_is_ordered,
    lemma_div_is_ordered_by_denominator,
    lemma_div_nonincreasing,
    lemma_div_pos_is_pos,
    lemma_mod_division_less_than_divisor,
};
use vstd::prelude::*;

verus! {

/// The mutable lowering context: current function, latest value handle, the
/// symbol table, and the constant-folding stage.
pub struct MyIRGeneratorInfo {
    /// Index of the function currently being built.
    pub curr_func: Option<usize>,
    /// Handle of the most recently produced value.
    pub curr_value: Option<Value>,
    /// The symbol table of the compilation unit.
    pub curr_symbols: SymbolTable,
    /// The constant-folding stage: `Some` exactly while lowering a
    /// provably-constant sub-expression; the first component is the staged
    /// value of the latest completed operand.
    pub tmp_constants: Option<(i32, i32)>,
}

/// The function currently being built.
pub open spec fn cur_fd(p: Program, info: MyIRGeneratorInfo) -> FunctionData {
    p.funcs@[info.curr_func->Some_0 as int]
}

/// The semantic entry denoted by a symbol table entry: constants carry their
/// value, variables the evaluation of the IR value they are bound to.
pub open spec fn abs_entry(e: SymbolsEntry, vals: Seq<ValueData>) -> SemEntry {
    match e {
        SymbolsEntry::Const(c) => SemEntry::Const(c),
        SymbolsEntry::Variable(v) => SemEntry::Var(eval_value(vals, v.id as int)),
    }
}

/// The semantic environment denoted by a symbol table, read against a value
/// arena.
pub open spec fn abs_env(m: Map<Seq<char>, SymbolsEntry>, vals: Seq<ValueData>) -> SemEnv {
    Map::new(|k: Seq<char>| m.contains_key(k), |k: Seq<char>| abs_entry(m[k], vals))
}

/// The semantic environment at the current lowering state.
pub open spec fn sem_env_of(p: Program, info: MyIRGeneratorInfo) -> SemEnv {
    abs_env(info.curr_symbols@, cur_fd(p, info).values@)
}

/// Every variable binding points at a defined, result-producing value.
pub open spec fn env_wf(m: Map<Seq<char>, SymbolsEntry>, vals: Seq<ValueData>) -> bool {
    forall|k: Seq<char>|
        m.contains_key(k) ==> match #[trigger] m[k] {
            SymbolsEntry::Variable(v) => v.id < vals.len() && !(vals[v.id as int] is Return),
            SymbolsEntry::Const(_) => true,
        }
}

/// The lowering invariant: a current function exists, it is well formed, and
/// the symbol table only points at defined values.
pub open spec fn gen_inv(p: Program, info: MyIRGeneratorInfo) -> bool {
    &&& info.curr_func is Some
    &&& (info.curr_func->Some_0 as int) < p.funcs@.len()
    &&& fd_wf(cur_fd(p, info))
    &&& env_wf(info.curr_symbols@, cur_fd(p, info).values@)
}

/// Lowering only appends: the current function's arena and block grow, every
/// other function and the current one's name and type are untouched.
pub open spec fn prog_extends(p0: Program, p1: Program, i0: MyIRGeneratorInfo) -> bool {
    let f = i0.curr_func->Some_0 as int;
    &&& p1.funcs@.len() == p0.funcs@.len()
    &&& forall|j: int| 0 <= j < p0.funcs@.len() && j != f ==> p1.funcs@[j] == p0.funcs@[j]
    &&& p1.funcs@[f].name == p0.funcs@[f].name
    &&& p1.funcs@[f].ret_type == p0.funcs@[f].ret_type
    &&& p0.funcs@[f].values@.is_prefix_of(p1.funcs@[f].values@)
    &&& p0.funcs@[f].block.insts@.is_prefix_of(p1.funcs@[f].block.insts@)
}

/// All block entries appended since `p0` are binary operations (an expression
/// never emits a return).
pub open spec fn no_new_returns(p0: Program, p1: Program, i0: MyIRGeneratorInfo) -> bool {
    let fd0 = cur_fd(p0, i0);
    let fd1 = cur_fd(p1, i0);
    forall|k: int|
        fd0.block.insts@.len() <= k < fd1.block.insts@.len() ==> {
            &&& (#[trigger] fd1.block.insts@[k]).id < fd1.values@.len()
            &&& fd1.values@[fd1.block.insts@[k].id as int] is Binary
        }
}

/// The common contract of every expression build method, instantiated with
/// the node's three semantic readings (`fold_sem`, `rt_check`, `rt_val`)
/// taken in the pre-state environment.
pub open spec fn exp_post(
    p0: Program,
    i0: MyIRGeneratorInfo,
    p1: Program,
    i1: MyIRGeneratorInfo,
    r: Result<(), CompileError>,
    fold_r: Result<i32, CompileError>,
    check_r: Option<CompileError>,
    val_r: Option<i32>,
) -> bool {
    let fd1 = cur_fd(p1, i0);
    &&& i1.curr_func == i0.curr_func
    &&& i1.curr_symbols@ == i0.curr_symbols@
    &&& prog_extends(p0, p1, i0)
    &&& no_new_returns(p0, p1, i0)
    &&& if i0.tmp_constants is Some {
        &&& p1.funcs@ == p0.funcs@
        &&& i1.curr_value == i0.curr_value
        &&& match fold_r {
            Ok(v) => r is Ok && i1.tmp_constants is Some && i1.tmp_constants->Some_0.0 == v,
            Err(e) => r == Err::<(), CompileError>(e),
        }
    } else {
        &&& i1.tmp_constants is None
        &&& match r {
            Ok(_) => {
                &&& check_r is None
                &&& i1.curr_value is Some
                &&& (i1.curr_value->Some_0.id as int) < fd1.values@.len()
                &&& !(fd1.values@[i1.curr_value->Some_0.id as int] is Return)
                &&& eval_value(fd1.values@, i1.curr_value->Some_0.id as int) == val_r
            },
            Err(e) => check_r == Some(e),
        }
    }
}

/// An environment read against a longer arena denotes the same semantic
/// environment, as long as its bindings were already defined.
pub proof fn lemma_abs_env_stable(
    m: Map<Seq<char>, SymbolsEntry>,
    vals1: Seq<ValueData>,
    vals2: Seq<ValueData>,
)
    requires
        env_wf(m, vals1),
        vals1.len() <= vals2.len(),
        vals2.subrange(0, vals1.len() as int) =~= vals1,
    ensures
        abs_env(m, vals2) == abs_env(m, vals1),
{
    assert forall|k: Seq<char>| m.contains_key(k) implies abs_entry(m[k], vals2) == abs_entry(
        m[k],
        vals1,
    ) by {
        match m[k] {
            SymbolsEntry::Variable(v) => {
                lemma_eval_value_stable(vals1, vals2, v.id as int);
            },
            SymbolsEntry::Const(_) => {},
        }
    }
    assert(abs_env(m, vals2) =~= abs_env(m, vals1));
}

/// Appends a new value definition to the arena of function `f` and hands back
/// its handle; the block is untouched.
fn fresh_value(program: &mut Program, f: usize, data: ValueData) -> (v: Value)
    requires
        (f as int) < old(program).funcs@.len(),
        match data {
            ValueData::Integer(_) => true,
            ValueData::Binary(_, l, r) => {
                &&& (l.id as int) < old(program).funcs@[f as int].values@.len()
                &&& (r.id as int) < old(program).funcs@[f as int].values@.len()
                &&& !(old(program).funcs@[f as int].values@[l.id as int] is Return)
                &&& !(old(program).funcs@[f as int].values@[r.id as int] is Return)
            },
            ValueData::Return(ov) => match ov {
                Some(rv) => (rv.id as int) < old(program).funcs@[f as int].values@.len() && !(
                old(program).funcs@[f as int].values@[rv.id as int] is Return),
                None => true,
            },
        },
    ensures
        final(program).funcs@.len() == old(program).funcs@.len(),
        forall|j: int|
            0 <= j < old(program).funcs@.len() && j != f ==> final(program).funcs@[j] == old(program).funcs@[j],
        final(program).funcs@[f as int].values@ == old(program).funcs@[f as int].values@.push(
            data,
        ),
        final(program).funcs@[f as int].block.insts@ == old(program).funcs@[f as int].block.insts@,
        final(program).funcs@[f as int].name == old(program).funcs@[f as int].name,
        final(program).funcs@[f as int].ret_type == old(program).funcs@[f as int].ret_type,
        v.id == old(program).funcs@[f as int].values@.len(),
{
    let fd = &mut program.funcs[f];
    let id = fd.values.len();
    fd.values.push(data);
    Value { id }
}

/// Appends an instruction handle to the block of function `f`.
fn push_inst(program: &mut Program, f: usize, v: Value)
    requires
        (f as int) < old(program).funcs@.len(),
        (v.id as int) < old(program).funcs@[f as int].values@.len(),
    ensures
        final(program).funcs@.len() == old(program).funcs@.len(),
        forall|j: int|
            0 <= j < old(program).funcs@.len() && j != f ==> final(program).funcs@[j] == old(program).funcs@[j],
        final(program).funcs@[f as int].values@ == old(program).funcs@[f as int].values@,
        final(program).funcs@[f as int].block.insts@ == old(program).funcs@[f as int].block.insts@.push(v),
        final(program).funcs@[f as int].name == old(program).funcs@[f as int].name,
        final(program).funcs@[f as int].ret_type == old(program).funcs@[f as int].ret_type,
{
    let fd = &mut program.funcs[f];
    fd.block.insts.push(v);
}

/// Truncated division stays within the 32-bit range except for
/// `i32::MIN / -1`.
proof fn lemma_trunc_div_range(x: int, d: int)
    requires
        i32::MIN <= x <= i32::MAX,
        i32::MIN <= d <= i32::MAX,
        d != 0,
        !(x == i32::MIN && d == -1),
    ensures
        i32::MIN <= trunc_div_int(x, d) <= i32::MAX,
{
    if x == 0 {
    } else if x > 0 && d > 0 {
        lemma_div_pos_is_pos(x, d);
        lemma_div_nonincreasing(x, d);
    } else if x < 0 && d < 0 {
        let xm = x * -1;
        let dm = d * -1;
        lemma_div_pos_is_pos(xm, dm);
        if d == -1 {
            lemma_div_nonincreasing(xm, dm);
        } else {
            lemma_div_is_ordered_by_denominator(xm, 2, dm);
            lemma_div_is_ordered(xm, 0x8000_0000, 2);
        }
    } else if x < 0 {
        let xm = x * -1;
        lemma_div_pos_is_pos(xm, d);
        lemma_div_nonincreasing(xm, d);
    } else {
        let dm = d * -1;
        lemma_div_pos_is_pos(x, dm);
        lemma_div_nonincreasing(x, dm);
    }
}

/// The truncated remainder always stays within the 32-bit range.
proof fn lemma_trunc_rem_range(x: int, d: int)
    requires
        i32::MIN <= x <= i32::MAX,
        i32::MIN <= d <= i32::MAX,
        d != 0,
    ensures
        i32::MIN <= trunc_rem_int(x, d) <= i32::MAX,
{
    if x == 0 {
    } else if x > 0 && d > 0 {
        lemma_mod_division_less_than_divisor(x, d);
    } else if x < 0 && d < 0 {
        lemma_mod_division_less_than_divisor(x * -1, d * -1);
    } else if x < 0 {
        lemma_mod_division_less_than_divisor(x * -1, d);
    } else {
        lemma_mod_division_less_than_divisor(x, d * -1);
    }
}

/// 32-bit wrapping division (`i32::MIN / -1` wraps to `i32::MIN`).
pub fn exec_div_wrap(a: i32, b: i32) -> (r: i32)
    requires
        b != 0,
    ensures
        r == div_wrap(a, b),
{
    if a == i32::MIN && b == -1 {
        i32::MIN
    } else {
        match a.checked_div(b) {
            Some(q) => q,
            None => {
                proof {
                    lemma_trunc_div_range(a as int, b as int);
                }
                assert(false);
                0
            },
        }
    }
}

/// 32-bit wrapping remainder (`i32::MIN % -1` is `0`).
pub fn exec_rem_wrap(a: i32, b: i32) -> (r: i32)
    requires
        b != 0,
    ensures
        r == rem_wrap(a, b),
{
    if a == i32::MIN && b == -1 {
        0
    } else {
        match a.checked_rem(b) {
            Some(q) => q,
            None => {
                proof {
                    lemma_trunc_rem_range(a as int, b as int);
                }
                assert(false);
                0
            },
        }
    }
}

/// Applies one binary operator to two staged 32-bit constants.
fn eval_binop_exec(op: BinaryOp, a: i32, b: i32) -> (r: Result<i32, CompileError>)
    ensures
        r == eval_binop(op, a, b),
{
    match op {
        BinaryOp::NotEq => Ok(if a != b { 1 } else { 0 }),
        BinaryOp::Eq => Ok(if a == b { 1 } else { 0 }),
        BinaryOp::Gt => Ok(if a > b { 1 } else { 0 }),
        BinaryOp::Lt => Ok(if a < b { 1 } else { 0 }),
        BinaryOp::Ge => Ok(if a >= b { 1 } else { 0 }),
        BinaryOp::Le => Ok(if a <= b { 1 } else { 0 }),
        BinaryOp::Add => Ok(a.wrapping_add(b)),
        BinaryOp::Sub => Ok(a.wrapping_sub(b)),
        BinaryOp::Mul => Ok(a.wrapping_mul(b)),
        BinaryOp::Div => if b == 0 {
            Err(CompileError::DivisionByZero)
        } else {
            Ok(exec_div_wrap(a, b))
        },
        BinaryOp::Mod => if b == 0 {
            Err(CompileError::DivisionByZero)
        } else {
            Ok(exec_rem_wrap(a, b))
        },
        BinaryOp::And => Ok(a & b),
        BinaryOp::Or => Ok(a | b),
        BinaryOp::Xor => Err(CompileError::UnsupportedOperator),
        BinaryOp::Shl => Err(CompileError::UnsupportedOperator),
        BinaryOp::Shr => Err(CompileError::UnsupportedOperator),
        BinaryOp::Sar => Err(CompileError::UnsupportedOperator),
    }
}

/// Combines two already lowered operands under one binary operator: in
/// folding mode the staged pair is folded arithmetically and no instruction
/// is emitted; otherwise a `Binary` instruction combining the two handles is
/// appended and becomes the current value.
fn build_binary_from_values(
    first_value: Option<Value>,
    second_value: Option<Value>,
    program: &mut Program,
    my_ir_generator_info: &mut MyIRGeneratorInfo,
    binary_op: BinaryOp,
) -> (r: Result<(), CompileError>)
    requires
        gen_inv(*old(program), *old(my_ir_generator_info)),
        old(my_ir_generator_info).tmp_constants is None ==> {
            &&& first_value is Some
            &&& second_value is Some
            &&& (first_value->Some_0.id as int) < cur_fd(
                *old(program),
                *old(my_ir_generator_info),
            ).values@.len()
            &&& (second_value->Some_0.id as int) < cur_fd(
                *old(program),
                *old(my_ir_generator_info),
            ).values@.len()
            &&& !(cur_fd(*old(program), *old(my_ir_generator_info)).values@[first_value->Some_0.id
                as int] is Return)
            &&& !(cur_fd(*old(program), *old(my_ir_generator_info)).values@[second_value->Some_0.id
                as int] is Return)
        },
    ensures
        gen_inv(*final(program), *final(my_ir_generator_info)),
        final(my_ir_generator_info).curr_func == old(my_ir_generator_info).curr_func,
        final(my_ir_generator_info).curr_symbols@ == old(my_ir_generator_info).curr_symbols@,
        prog_extends(*old(program), *final(program), *old(my_ir_generator_info)),
        no_new_returns(*old(program), *final(program), *old(my_ir_generator_info)),
        old(my_ir_generator_info).tmp_constants matches Some(t) ==> {
            &&& final(program).funcs@ == old(program).funcs@
            &&& final(my_ir_generator_info).curr_value == old(my_ir_generator_info).curr_value
            &&& match eval_binop(binary_op, t.0, t.1) {
                Ok(v) => r is Ok && final(my_ir_generator_info).tmp_constants is Some && final(my_ir_generator_info).tmp_constants->Some_0.0 == v,
                Err(e) => r == Err::<(), CompileError>(e),
            }
        },
        old(my_ir_generator_info).tmp_constants is None ==> {
            &&& r is Ok
            &&& final(my_ir_generator_info).tmp_constants is None
            &&& final(my_ir_generator_info).curr_value is Some
            &&& (final(my_ir_generator_info).curr_value->Some_0.id as int) < cur_fd(
                *final(program),
                *old(my_ir_generator_info),
            ).values@.len()
            &&& !(cur_fd(*final(program), *old(my_ir_generator_info)).values@[final(my_ir_generator_info).curr_value->Some_0.id as int] is Return)
            &&& eval_value(
                cur_fd(*final(program), *old(my_ir_generator_info)).values@,
                final(my_ir_generator_info).curr_value->Some_0.id as int,
            ) == rt2(
                eval_value(
                    cur_fd(*old(program), *old(my_ir_generator_info)).values@,
                    first_value->Some_0.id as int,
                ),
                eval_value(
                    cur_fd(*old(program), *old(my_ir_generator_info)).values@,
                    second_value->Some_0.id as int,
                ),
                binary_op,
            )
        },
{
    let ghost p0 = *program;
    let ghost i0 = *my_ir_generator_info;
    if let Some((tmp1, tmp2)) = my_ir_generator_info.tmp_constants {
        match eval_binop_exec(binary_op, tmp1, tmp2) {
            Ok(v) => {
                my_ir_generator_info.tmp_constants = Some((v, 0));
                Ok(())
            },
            Err(e) => Err(e),
        }
    } else {
        let f = my_ir_generator_info.curr_func.unwrap();
        let v1 = first_value.unwrap();
        let v2 = second_value.unwrap();
        let v = fresh_value(program, f, ValueData::Binary(binary_op, v1, v2));
        push_inst(program, f, v);
        my_ir_generator_info.curr_value = Some(v);
        proof {
            let fd0 = cur_fd(p0, i0);
            let fd1 = cur_fd(*program, i0);
            assert(fd1.values@ == fd0.values@.push(ValueData::Binary(binary_op, v1, v2)));
            assert(fd0.values@.is_prefix_of(fd1.values@));
            lemma_eval_value_stable(fd0.values@, fd1.values@, v1.id as int);
            lemma_eval_value_stable(fd0.values@, fd1.values@, v2.id as int);
            assert forall|i: int| 0 <= i < fd1.values@.len() implies value_wf(fd1.values@, i) by {
                if i < fd0.values@.len() {
                    assert(value_wf(fd0.values@, i));
                }
            }
            lemma_abs_env_stable(i0.curr_symbols@, fd0.values@, fd1.values@);
        }
        Ok(())
    }
}


impl Number {
    /// Lowers an integer literal: staged in folding mode, otherwise defined as
    /// a fresh `Integer` arena entry (no instruction is emitted).
    pub fn build(
        &self,
        program: &mut Program,
        my_ir_generator_info: &mut MyIRGeneratorInfo,
    ) -> (r: Result<(), CompileError>)
        requires
            gen_inv(*old(program), *old(my_ir_generator_info)),
        ensures
            gen_inv(*final(program), *final(my_ir_generator_info)),
            exp_post(
                *old(program),
                *old(my_ir_generator_info),
                *final(program),
                *final(my_ir_generator_info),
                r,
                self.fold_sem(),
                None,
                self.rt_val(),
            ),
            cur_fd(*final(program), *old(my_ir_generator_info)).block.insts@ == cur_fd(
                *old(program),
                *old(my_ir_generator_info),
            ).block.insts@,
    {
        let ghost p0 = *program;
        let ghost i0 = *my_ir_generator_info;
        match self {
            Number::IntConst(n) => {
                if my_ir_generator_info.tmp_constants.is_some() {
                    my_ir_generator_info.tmp_constants = Some((*n, 0));
                    return Ok(());
                }
                let f = my_ir_generator_info.curr_func.unwrap();
                let v = fresh_value(program, f, ValueData::Integer(*n));
                my_ir_generator_info.curr_value = Some(v);
                proof {
                    let fd0 = cur_fd(p0, i0);
                    let fd1 = cur_fd(*program, i0);
                    assert(fd0.values@.is_prefix_of(fd1.values@));
                    assert forall|i: int| 0 <= i < fd1.values@.len() implies value_wf(
                        fd1.values@,
                        i,
                    ) by {
                        if i < fd0.values@.len() {
                            assert(value_wf(fd0.values@, i));
                        }
                    }
                }
                Ok(())
            },
        }
    }
}

impl LVal {
    /// Lowers an identifier reference. A constant is inlined: its literal
    /// value is staged (folding mode) or defined as a fresh `Integer` arena
    /// entry; in neither case is an instruction emitted. A variable reference
    /// resolves to the handle the variable is currently bound to, and is
    /// rejected inside a `const` initializer.
    pub fn build(
        &self,
        program: &mut Program,
        my_ir_generator_info: &mut MyIRGeneratorInfo,
    ) -> (r: Result<(), CompileError>)
        requires
            gen_inv(*old(program), *old(my_ir_generator_info)),
        ensures
            gen_inv(*final(program), *final(my_ir_generator_info)),
            exp_post(
                *old(program),
                *old(my_ir_generator_info),
                *final(program),
                *final(my_ir_generator_info),
                r,
                self.fold_sem(sem_env_of(*old(program), *old(my_ir_generator_info))),
                self.rt_check(sem_env_of(*old(program), *old(my_ir_generator_info))),
                self.rt_val(sem_env_of(*old(program), *old(my_ir_generator_info))),
            ),
            cur_fd(*final(program), *old(my_ir_generator_info)).block.insts@ == cur_fd(
                *old(program),
                *old(my_ir_generator_info),
            ).block.insts@,
    {
        let ghost p0 = *program;
        let ghost i0 = *my_ir_generator_info;
        match self {
            LVal::IDENT(ident) => {
                match my_ir_generator_info.curr_symbols.resolve(&ident.content) {
                    None => Err(CompileError::UndeclaredIdentifier(ident.content.clone())),
                    Some(SymbolsEntry::Const(val)) => {
                        if my_ir_generator_info.tmp_constants.is_some() {
                            my_ir_generator_info.tmp_constants = Some((val, 0));
                            return Ok(());
                        }
                        let f = my_ir_generator_info.curr_func.unwrap();
                        let v = fresh_value(program, f, ValueData::Integer(val));
                        my_ir_generator_info.curr_value = Some(v);
                        proof {
                            let fd0 = cur_fd(p0, i0);
                            let fd1 = cur_fd(*program, i0);
                            assert(fd0.values@.is_prefix_of(fd1.values@));
                            assert forall|i: int| 0 <= i < fd1.values@.len() implies value_wf(
                                fd1.values@,
                                i,
                            ) by {
                                if i < fd0.values@.len() {
                                    assert(value_wf(fd0.values@, i));
                                }
                            }
                        }
                        Ok(())
                    },
                    Some(SymbolsEntry::Variable(v)) => {
                        if my_ir_generator_info.tmp_constants.is_some() {
                            return Err(CompileError::NonConstantInitializer);
                        }
                        my_ir_generator_info.curr_value = Some(v);
                        Ok(())
                    },
                }
            },
        }
    }
}

/// Data and evaluation of an already defined value survive an extension of the
/// current function.
pub proof fn lemma_value_preserved(p1: Program, i1: MyIRGeneratorInfo, p2: Program, v: Value)
    requires
        prog_extends(p1, p2, i1),
        (v.id as int) < cur_fd(p1, i1).values@.len(),
    ensures
        cur_fd(p2, i1).values@[v.id as int] == cur_fd(p1, i1).values@[v.id as int],
        eval_value(cur_fd(p2, i1).values@, v.id as int) == eval_value(
            cur_fd(p1, i1).values@,
            v.id as int,
        ),
{
    let vals1 = cur_fd(p1, i1).values@;
    let vals2 = cur_fd(p2, i1).values@;
    assert(vals2.subrange(0, vals1.len() as int)[v.id as int] == vals2[v.id as int]);
    lemma_eval_value_stable(vals1, vals2, v.id as int);
}

/// Extension steps compose.
pub proof fn lemma_extend_trans(
    p0: Program,
    p1: Program,
    p2: Program,
    i0: MyIRGeneratorInfo,
    i1: MyIRGeneratorInfo,
)
    requires
        i1.curr_func == i0.curr_func,
        prog_extends(p0, p1, i0),
        prog_extends(p1, p2, i1),
        no_new_returns(p0, p1, i0),
        no_new_returns(p1, p2, i1),
    ensures
        prog_extends(p0, p2, i0),
        no_new_returns(p0, p2, i0),
{
    let f = i0.curr_func->Some_0 as int;
    let v0 = p0.funcs@[f].values@;
    let v1 = p1.funcs@[f].values@;
    let v2 = p2.funcs@[f].values@;
    let b0 = p0.funcs@[f].block.insts@;
    let b1 = p1.funcs@[f].block.insts@;
    let b2 = p2.funcs@[f].block.insts@;
    assert forall|i: int| 0 <= i < v0.len() implies v2[i] == v0[i] by {
        assert(v1.subrange(0, v0.len() as int)[i] == v1[i]);
        assert(v2.subrange(0, v1.len() as int)[i] == v2[i]);
    }
    assert(v0.is_prefix_of(v2)) by {
        assert(v0 =~= v2.subrange(0, v0.len() as int));
    }
    assert forall|i: int| 0 <= i < b0.len() implies b2[i] == b0[i] by {
        assert(b1.subrange(0, b0.len() as int)[i] == b1[i]);
        assert(b2.subrange(0, b1.len() as int)[i] == b2[i]);
    }
    assert(b0.is_prefix_of(b2)) by {
        assert(b0 =~= b2.subrange(0, b0.len() as int));
    }
    assert forall|k: int| b0.len() <= k < b2.len() implies {
        &&& (#[trigger] b2[k]).id < v2.len()
        &&& v2[b2[k].id as int] is Binary
    } by {
        if k < b1.len() {
            assert(b2.subrange(0, b1.len() as int)[k] == b2[k]);
            assert(b1[k].id < v1.len() && v1[b1[k].id as int] is Binary);
            assert(v2.subrange(0, v1.len() as int)[b1[k].id as int] == v2[b1[k].id as int]);
        }
    }
}

/// After a build step that leaves the symbol table alone, the semantic
/// environment is unchanged.
pub proof fn lemma_step_env(p0: Program, i0: MyIRGeneratorInfo, p1: Program, i1: MyIRGeneratorInfo)
    requires
        gen_inv(p0, i0),
        i1.curr_symbols@ == i0.curr_symbols@,
        i1.curr_func == i0.curr_func,
        prog_extends(p0, p1, i0),
    ensures
        sem_env_of(p1, i1) == sem_env_of(p0, i0),
{
    lemma_abs_env_stable(i0.curr_symbols@, cur_fd(p0, i0).values@, cur_fd(p1, i1).values@);
}


/// Finishes lowering a binary expression whose two operands have just been
/// lowered (the states around those two builds are passed as ghost
/// snapshots): stages the folded pair, or emits the combining instruction.
#[verifier::rlimit(30)]
fn finish_binary(
    first_value: Option<Value>,
    tmp1: i32,
    program: &mut Program,
    my_ir_generator_info: &mut MyIRGeneratorInfo,
    binary_op: BinaryOp,
    Ghost(p0): Ghost<Program>,
    Ghost(i0): Ghost<MyIRGeneratorInfo>,
    Ghost(p1): Ghost<Program>,
    Ghost(i1): Ghost<MyIRGeneratorInfo>,
    Ghost(fa): Ghost<Result<i32, CompileError>>,
    Ghost(ca): Ghost<Option<CompileError>>,
    Ghost(va): Ghost<Option<i32>>,
    Ghost(fb): Ghost<Result<i32, CompileError>>,
    Ghost(cb): Ghost<Option<CompileError>>,
    Ghost(vb): Ghost<Option<i32>>,
) -> (r: Result<(), CompileError>)
    requires
        gen_inv(p0, i0),
        gen_inv(p1, i1),
        gen_inv(*old(program), *old(my_ir_generator_info)),
        exp_post(p0, i0, p1, i1, Ok(()), fa, ca, va),
        exp_post(p1, i1, *old(program), *old(my_ir_generator_info), Ok(()), fb, cb, vb),
        i1.curr_value == first_value,
        i0.tmp_constants is Some ==> i1.tmp_constants->Some_0.0 == tmp1,
    ensures
        gen_inv(*final(program), *final(my_ir_generator_info)),
        exp_post(
            p0,
            i0,
            *final(program),
            *final(my_ir_generator_info),
            r,
            fold2(fa, fb, binary_op),
            first_err(ca, cb),
            rt2(va, vb, binary_op),
        ),
{
    let ghost p2 = *program;
    let ghost i2 = *my_ir_generator_info;
    let second_value = my_ir_generator_info.curr_value;
    if let Some((tmp2, _)) = my_ir_generator_info.tmp_constants {
        my_ir_generator_info.tmp_constants = Some((tmp1, tmp2));
    }
    proof {
        lemma_extend_trans(p0, p1, p2, i0, i1);
        if i0.tmp_constants is None {
            lemma_value_preserved(p1, i1, p2, first_value->Some_0);
        }
    }
    let r = build_binary_from_values(
        first_value,
        second_value,
        program,
        my_ir_generator_info,
        binary_op,
    );
    proof {
        lemma_extend_trans(p0, p2, *program, i0, i2);
    }
    r
}


impl AddExp {
    /// Lowers an additive expression: operands left to right, then one combining instruction (or a staged fold).
    pub fn build(
        &self,
        program: &mut Program,
        my_ir_generator_info: &mut MyIRGeneratorInfo,
    ) -> (r: Result<(), CompileError>)
        requires
            gen_inv(*old(program), *old(my_ir_generator_info)),
        ensures
            gen_inv(*final(program), *final(my_ir_generator_info)),
            exp_post(
                *old(program),
                *old(my_ir_generator_info),
                *final(program),
                *final(my_ir_generator_info),
                r,
                self.fold_sem(sem_env_of(*old(program), *old(my_ir_generator_info))),
                self.rt_check(sem_env_of(*old(program), *old(my_ir_generator_info))),
                self.rt_val(sem_env_of(*old(program), *old(my_ir_generator_info))),
            ),
        decreases *self,
    {
        let ghost p0 = *program;
        let ghost i0 = *my_ir_generator_info;
        let ghost env0 = sem_env_of(p0, i0);
        match self {
            AddExp::MulExp(exp) => exp.build(program, my_ir_generator_info),
            AddExp::BinaryAddExp(first_exp, second_exp) => {
                match (**first_exp).build(program, my_ir_generator_info) {
                    Err(e) => {
                        return Err(e);
                    },
                    Ok(()) => {},
                }
                let ghost p1 = *program;
                let ghost i1 = *my_ir_generator_info;
                proof {
                    lemma_step_env(p0, i0, p1, i1);
                }
                let mut tmp1: i32 = 0;
                if let Some((t, _)) = my_ir_generator_info.tmp_constants {
                    tmp1 = t;
                }
                let first_value = my_ir_generator_info.curr_value;
                match (*second_exp).build(program, my_ir_generator_info) {
                    Err(e) => {
                        proof {
                            lemma_extend_trans(p0, p1, *program, i0, i1);
                        }
                        return Err(e);
                    },
                    Ok(()) => {},
                }
                proof {
                    lemma_step_env(p1, i1, *program, *my_ir_generator_info);
                }
                finish_binary(
                    first_value,
                    tmp1,
                    program,
                    my_ir_generator_info,
                    BinaryOp::Add,
                    Ghost(p0),
                    Ghost(i0),
                    Ghost(p1),
                    Ghost(i1),
                    Ghost((**first_exp).fold_sem(env0)),
                    Ghost((**first_exp).rt_check(env0)),
                    Ghost((**first_exp).rt_val(env0)),
                    Ghost((*second_exp).fold_sem(env0)),
                    Ghost((*second_exp).rt_check(env0)),
                    Ghost((*second_exp).rt_val(env0)),
                )
            },
            AddExp::BinarySubExp(first_exp, second_exp) => {
                match (**first_exp).build(program, my_ir_generator_info) {
                    Err(e) => {
                        return Err(e);
                    },
                    Ok(()) => {},
                }
                let ghost p1 = *program;
                let ghost i1 = *my_ir_generator_info;
                proof {
                    lemma_step_env(p0, i0, p1, i1);
                }
                let mut tmp1: i32 = 0;
                if let Some((t, _)) = my_ir_generator_info.tmp_constants {
                    tmp1 = t;
                }
                let first_value = my_ir_generator_info.curr_value;
                match (*second_exp).build(program, my_ir_generator_info) {
                    Err(e) => {
                        proof {
                            lemma_extend_trans(p0, p1, *program, i0, i1);
                        }
                        return Err(e);
                    },
                    Ok(()) => {},
                }
                proof {
                    lemma_step_env(p1, i1, *program, *my_ir_generator_info);
                }
                finish_binary(
                    first_value,
                    tmp1,
                    program,
                    my_ir_generator_info,
                    BinaryOp::Sub,
                    Ghost(p0),
                    Ghost(i0),
                    Ghost(p1),
                    Ghost(i1),
                    Ghost((**first_exp).fold_sem(env0)),
                    Ghost((**first_exp).rt_check(env0)),
                    Ghost((**first_exp).rt_val(env0)),
                    Ghost((*second_exp).fold_sem(env0)),
                    Ghost((*second_exp).rt_check(env0)),
                    Ghost((*second_exp).rt_val(env0)),
                )
            },
        }
    }
}


impl MulExp {
    /// Lowers a multiplicative expression: operands left to right, then one combining instruction (or a staged fold).
    pub fn build(
        &self,
        program: &mut Program,
        my_ir_generator_info: &mut MyIRGeneratorInfo,
    ) -> (r: Result<(), CompileError>)
        requires
            gen_inv(*old(program), *old(my_ir_generator_info)),
        ensures
            gen_inv(*final(program), *final(my_ir_generator_info)),
            exp_post(
                *old(program),
                *old(my_ir_generator_info),
                *final(program),
                *final(my_ir_generator_info),
                r,
                self.fold_sem(sem_env_of(*old(program), *old(my_ir_generator_info))),
                self.rt_check(sem_env_of(*old(program), *old(my_ir_generator_info))),
                self.rt_val(sem_env_of(*old(program), *old(my_ir_generator_info))),
            ),
        decreases *self,
    {
        let ghost p0 = *program;
        let ghost i0 = *my_ir_generator_info;
        let ghost env0 = sem_env_of(p0, i0);
        match self {
            MulExp::UnaryExp(exp) => exp.build(program, my_ir_generator_info),
            MulExp::BinaryMulExp(first_exp, second_exp) => {
                match (**first_exp).build(program, my_ir_generator_info) {
                    Err(e) => {
                        return Err(e);
                    },
                    Ok(()) => {},
                }
                let ghost p1 = *program;
                let ghost i1 = *my_ir_generator_info;
                proof {
                    lemma_step_env(p0, i0, p1, i1);
                }
                let mut tmp1: i32 = 0;
                if let Some((t, _)) = my_ir_generator_info.tmp_constants {
                    tmp1 = t;
                }
                let first_value = my_ir_generator_info.curr_value;
                match (*second_exp).build(program, my_ir_generator_info) {
                    Err(e) => {
                        proof {
                            lemma_extend_trans(p0, p1, *program, i0, i1);
                        }
                        return Err(e);
                    },
                    Ok(()) => {},
                }
                proof {
                    lemma_step_env(p1, i1, *program, *my_ir_generator_info);
                }
                finish_binary(
                    first_value,
                    tmp1,
                    program,
                    my_ir_generator_info,
                    BinaryOp::Mul,
                    Ghost(p0),
                    Ghost(i0),
                    Ghost(p1),
                    Ghost(i1),
                    Ghost((**first_exp).fold_sem(env0)),
                    Ghost((**first_exp).rt_check(env0)),
                    Ghost((**first_exp).rt_val(env0)),
                    Ghost((*second_exp).fold_sem(env0)),
                    Ghost((*second_exp).rt_check(env0)),
                    Ghost((*second_exp).rt_val(env0)),
                )
            },
            MulExp::BinaryDivExp(first_exp, second_exp) => {
                match (**first_exp).build(program, my_ir_generator_info) {
                    Err(e) => {
                        return Err(e);
                    },
                    Ok(()) => {},
                }
                let ghost p1 = *program;
                let ghost i1 = *my_ir_generator_info;
                proof {
                    lemma_step_env(p0, i0, p1, i1);
                }
                let mut tmp1: i32 = 0;
                if let Some((t, _)) = my_ir_generator_info.tmp_constants {
                    tmp1 = t;
                }
                let first_value = my_ir_generator_info.curr_value;
                match (*second_exp).build(program, my_ir_generator_info) {
                    Err(e) => {
                        proof {
                            lemma_extend_trans(p0, p1, *program, i0, i1);
                        }
                        return Err(e);
                    },
                    Ok(()) => {},
                }
                proof {
                    lemma_step_env(p1, i1, *program, *my_ir_generator_info);
                }
                finish_binary(
                    first_value,
                    tmp1,
                    program,
                    my_ir_generator_info,
                    BinaryOp::Div,
                    Ghost(p0),
                    Ghost(i0),
                    Ghost(p1),
                    Ghost(i1),
                    Ghost((**first_exp).fold_sem(env0)),
                    Ghost((**first_exp).rt_check(env0)),
                    Ghost((**first_exp).rt_val(env0)),
                    Ghost((*second_exp).fold_sem(env0)),
                    Ghost((*second_exp).rt_check(env0)),
                    Ghost((*second_exp).rt_val(env0)),
                )
            },
            MulExp::BinaryModExp(first_exp, second_exp) => {
                match (**first_exp).build(program, my_ir_generator_info) {
                    Err(e) => {
                        return Err(e);
                    },
                    Ok(()) => {},
                }
                let ghost p1 = *program;
                let ghost i1 = *my_ir_generator_info;
                proof {
                    lemma_step_env(p0, i0, p1, i1);
                }
                let mut tmp1: i32 = 0;
                if let Some((t, _)) = my_ir_generator_info.tmp_constants {
                    tmp1 = t;
                }
                let first_value = my_ir_generator_info.curr_value;
                match (*second_exp).build(program, my_ir_generator_info) {
                    Err(e) => {
                        proof {
                            lemma_extend_trans(p0, p1, *program, i0, i1);
                        }
                        return Err(e);
                    },
                    Ok(()) => {},
                }
                proof {
                    lemma_step_env(p1, i1, *program, *my_ir_generator_info);
                }
                finish_binary(
                    first_value,
                    tmp1,
                    program,
                    my_ir_generator_info,
                    BinaryOp::Mod,
                    Ghost(p0),
                    Ghost(i0),
                    Ghost(p1),
                    Ghost(i1),
                    Ghost((**first_exp).fold_sem(env0)),
                    Ghost((**first_exp).rt_check(env0)),
                    Ghost((**first_exp).rt_val(env0)),
                    Ghost((*second_exp).fold_sem(env0)),
                    Ghost((*second_exp).rt_check(env0)),
                    Ghost((*second_exp).rt_val(env0)),
                )
            },
        }
    }
}


impl RelExp {
    /// Lowers a relational expression: operands left to right, then one comparison instruction yielding 0 or 1 (or a staged fold).
    pub fn build(
        &self,
        program: &mut Program,
        my_ir_generator_info: &mut MyIRGeneratorInfo,
    ) -> (r: Result<(), CompileError>)
        requires
            gen_inv(*old(program), *old(my_ir_generator_info)),
        ensures
            gen_inv(*final(program), *final(my_ir_generator_info)),
            exp_post(
                *old(program),
                *old(my_ir_generator_info),
                *final(program),
                *final(my_ir_generator_info),
                r,
                self.fold_sem(sem_env_of(*old(program), *old(my_ir_generator_info))),
                self.rt_check(sem_env_of(*old(program), *old(my_ir_generator_info))),
                self.rt_val(sem_env_of(*old(program), *old(my_ir_generator_info))),
            ),
        decreases *self,
    {
        let ghost p0 = *program;
        let ghost i0 = *my_ir_generator_info;
        let ghost env0 = sem_env_of(p0, i0);
        match self {
            RelExp::AddExp(exp) => exp.build(program, my_ir_generator_info),
            RelExp::BinaryLtRelExp(first_exp, second_exp) => {
                match (**first_exp).build(program, my_ir_generator_info) {
                    Err(e) => {
                        return Err(e);
                    },
                    Ok(()) => {},
                }
                let ghost p1 = *program;
                let ghost i1 = *my_ir_generator_info;
                proof {
                    lemma_step_env(p0, i0, p1, i1);
                }
                let mut tmp1: i32 = 0;
                if let Some((t, _)) = my_ir_generator_info.tmp_constants {
                    tmp1 = t;
                }
                let first_value = my_ir_generator_info.curr_value;
                match (*second_exp).build(program, my_ir_generator_info) {
                    Err(e) => {
                        proof {
                            lemma_extend_trans(p0, p1, *program, i0, i1);
                        }
                        return Err(e);
                    },
                    Ok(()) => {},
                }
                proof {
                    lemma_step_env(p1, i1, *program, *my_ir_generator_info);
                }
                finish_binary(
                    first_value,
                    tmp1,
                    program,
                    my_ir_generator_info,
                    BinaryOp::Lt,
                    Ghost(p0),
                    Ghost(i0),
                    Ghost(p1),
                    Ghost(i1),
                    Ghost((**first_exp).fold_sem(env0)),
                    Ghost((**first_exp).rt_check(env0)),
                    Ghost((**first_exp).rt_val(env0)),
                    Ghost((*second_exp).fold_sem(env0)),
                    Ghost((*second_exp).rt_check(env0)),
                    Ghost((*second_exp).rt_val(env0)),
                )
            },
            RelExp::BinaryGtRelExp(first_exp, second_exp) => {
                match (**first_exp).build(program, my_ir_generator_info) {
                    Err(e) => {
                        return Err(e);
                    },
                    Ok(()) => {},
                }
                let ghost p1 = *program;
                let ghost i1 = *my_ir_generator_info;
                proof {
                    lemma_step_env(p0, i0, p1, i1);
                }
                let mut tmp1: i32 = 0;
                if let Some((t, _)) = my_ir_generator_info.tmp_constants {
                    tmp1 = t;
                }
                let first_value = my_ir_generator_info.curr_value;
                match (*second_exp).build(program, my_ir_generator_info) {
                    Err(e) => {
                        proof {
                            lemma_extend_trans(p0, p1, *program, i0, i1);
                        }
                        return Err(e);
                    },
                    Ok(()) => {},
                }
                proof {
                    lemma_step_env(p1, i1, *program, *my_ir_generator_info);
                }
                finish_binary(
                    first_value,
                    tmp1,
                    program,
                    my_ir_generator_info,
                    BinaryOp::Gt,
                    Ghost(p0),
                    Ghost(i0),
                    Ghost(p1),
                    Ghost(i1),
                    Ghost((**first_exp).fold_sem(env0)),
                    Ghost((**first_exp).rt_check(env0)),
                    Ghost((**first_exp).rt_val(env0)),
                    Ghost((*second_exp).fold_sem(env0)),
                    Ghost((*second_exp).rt_check(env0)),
                    Ghost((*second_exp).rt_val(env0)),
                )
            },
            RelExp::BinaryLeRelExp(first_exp, second_exp) => {
                match (**first_exp).build(program, my_ir_generator_info) {
                    Err(e) => {
                        return Err(e);
                    },
                    Ok(()) => {},
                }
                let ghost p1 = *program;
                let ghost i1 = *my_ir_generator_info;
                proof {
                    lemma_step_env(p0, i0, p1, i1);
                }
                let mut tmp1: i32 = 0;
                if let Some((t, _)) = my_ir_generator_info.tmp_constants {
                    tmp1 = t;
                }
                let first_value = my_ir_generator_info.curr_value;
                match (*second_exp).build(program, my_ir_generator_info) {
                    Err(e) => {
                        proof {
                            lemma_extend_trans(p0, p1, *program, i0, i1);
                        }
                        return Err(e);
                    },
                    Ok(()) => {},
                }
                proof {
                    lemma_step_env(p1, i1, *program, *my_ir_generator_info);
                }
                finish_binary(
                    first_value,
                    tmp1,
                    program,
                    my_ir_generator_info,
                    BinaryOp::Le,
                    Ghost(p0),
                    Ghost(i0),
                    Ghost(p1),
                    Ghost(i1),
                    Ghost((**first_exp).fold_sem(env0)),
                    Ghost((**first_exp).rt_check(env0)),
                    Ghost((**first_exp).rt_val(env0)),
                    Ghost((*second_exp).fold_sem(env0)),
                    Ghost((*second_exp).rt_check(env0)),
                    Ghost((*second_exp).rt_val(env0)),
                )
            },
            RelExp::BinaryGeRelExp(first_exp, second_exp) => {
                match (**first_exp).build(program, my_ir_generator_info) {
                    Err(e) => {
                        return Err(e);
                    },
                    Ok(()) => {},
                }
                let ghost p1 = *program;
                let ghost i1 = *my_ir_generator_info;
                proof {
                    lemma_step_env(p0, i0, p1, i1);
                }
                let mut tmp1: i32 = 0;
                if let Some((t, _)) = my_ir_generator_info.tmp_constants {
                    tmp1 = t;
                }
                let first_value = my_ir_generator_info.curr_value;
                match (*second_exp).build(program, my_ir_generator_info) {
                    Err(e) => {
                        proof {
                            lemma_extend_trans(p0, p1, *program, i0, i1);
                        }
                        return Err(e);
                    },
                    Ok(()) => {},
                }
                proof {
                    lemma_step_env(p1, i1, *program, *my_ir_generator_info);
                }
                finish_binary(
                    first_value,
                    tmp1,
                    program,
                    my_ir_generator_info,
                    BinaryOp::Ge,
                    Ghost(p0),
                    Ghost(i0),
                    Ghost(p1),
                    Ghost(i1),
                    Ghost((**first_exp).fold_sem(env0)),
                    Ghost((**first_exp).rt_check(env0)),
                    Ghost((**first_exp).rt_val(env0)),
                    Ghost((*second_exp).fold_sem(env0)),
                    Ghost((*second_exp).rt_check(env0)),
                    Ghost((*second_exp).rt_val(env0)),
                )
            },
        }
    }
}


impl EqExp {
    /// Lowers an equality expression: operands left to right, then one comparison instruction yielding 0 or 1 (or a staged fold).
    pub fn build(
        &self,
        program: &mut Program,
        my_ir_generator_info: &mut MyIRGeneratorInfo,
    ) -> (r: Result<(), CompileError>)
        requires
            gen_inv(*old(program), *old(my_ir_generator_info)),
        ensures
            gen_inv(*final(program), *final(my_ir_generator_info)),
            exp_post(
                *old(program),
                *old(my_ir_generator_info),
                *final(program),
                *final(my_ir_generator_info),
                r,
                self.fold_sem(sem_env_of(*old(program), *old(my_ir_generator_info))),
                self.rt_check(sem_env_of(*old(program), *old(my_ir_generator_info))),
                self.rt_val(sem_env_of(*old(program), *old(my_ir_generator_info))),
            ),
        decreases *self,
    {
        let ghost p0 = *program;
        let ghost i0 = *my_ir_generator_info;
        let ghost env0 = sem_env_of(p0, i0);
        match self {
            EqExp::RelExp(exp) => exp.build(program, my_ir_generator_info),
            EqExp::BinaryEqExp(first_exp, second_exp) => {
                match (**first_exp).build(program, my_ir_generator_info) {
                    Err(e) => {
                        return Err(e);
                    },
                    Ok(()) => {},
                }
                let ghost p1 = *program;
                let ghost i1 = *my_ir_generator_info;
                proof {
                    lemma_step_env(p0, i0, p1, i1);
                }
                let mut tmp1: i32 = 0;
                if let Some((t, _)) = my_ir_generator_info.tmp_constants {
                    tmp1 = t;
                }
                let first_value = my_ir_generator_info.curr_value;
                match (*second_exp).build(program, my_ir_generator_info) {
                    Err(e) => {
                        proof {
                            lemma_extend_trans(p0, p1, *program, i0, i1);
                        }
                        return Err(e);
                    },
                    Ok(()) => {},
                }
                proof {
                    lemma_step_env(p1, i1, *program, *my_ir_generator_info);
                }
                finish_binary(
                    first_value,
                    tmp1,
                    program,
                    my_ir_generator_info,
                    BinaryOp::Eq,
                    Ghost(p0),
                    Ghost(i0),
                    Ghost(p1),
                    Ghost(i1),
                    Ghost((**first_exp).fold_sem(env0)),
                    Ghost((**first_exp).rt_check(env0)),
                    Ghost((**first_exp).rt_val(env0)),
                    Ghost((*second_exp).fold_sem(env0)),
                    Ghost((*second_exp).rt_check(env0)),
                    Ghost((*second_exp).rt_val(env0)),
                )
            },
            EqExp::BinaryNotEqExp(first_exp, second_exp) => {
                match (**first_exp).build(program, my_ir_generator_info) {
                    Err(e) => {
                        return Err(e);
                    },
                    Ok(()) => {},
                }
                let ghost p1 = *program;
                let ghost i1 = *my_ir_generator_info;
                proof {
                    lemma_step_env(p0, i0, p1, i1);
                }
                let mut tmp1: i32 = 0;
                if let Some((t, _)) = my_ir_generator_info.tmp_constants {
                    tmp1 = t;
                }
                let first_value = my_ir_generator_info.curr_value;
                match (*second_exp).build(program, my_ir_generator_info) {
                    Err(e) => {
                        proof {
                            lemma_extend_trans(p0, p1, *program, i0, i1);
                        }
                        return Err(e);
                    },
                    Ok(()) => {},
                }
                proof {
                    lemma_step_env(p1, i1, *program, *my_ir_generator_info);
                }
                finish_binary(
                    first_value,
                    tmp1,
                    program,
                    my_ir_generator_info,
                    BinaryOp::NotEq,
                    Ghost(p0),
                    Ghost(i0),
                    Ghost(p1),
                    Ghost(i1),
                    Ghost((**first_exp).fold_sem(env0)),
                    Ghost((**first_exp).rt_check(env0)),
                    Ghost((**first_exp).rt_val(env0)),
                    Ghost((*second_exp).fold_sem(env0)),
                    Ghost((*second_exp).rt_check(env0)),
                    Ghost((*second_exp).rt_val(env0)),
                )
            },
        }
    }
}


impl Exp {
    /// Lowers a full expression.
    pub fn build(
        &self,
        program: &mut Program,
        my_ir_generator_info: &mut MyIRGeneratorInfo,
    ) -> (r: Result<(), CompileError>)
        requires
            gen_inv(*old(program), *old(my_ir_generator_info)),
        ensures
            gen_inv(*final(program), *final(my_ir_generator_info)),
            exp_post(
                *old(program),
                *old(my_ir_generator_info),
                *final(program),
                *final(my_ir_generator_info),
                r,
                self.fold_sem(sem_env_of(*old(program), *old(my_ir_generator_info))),
                self.rt_check(sem_env_of(*old(program), *old(my_ir_generator_info))),
                self.rt_val(sem_env_of(*old(program), *old(my_ir_generator_info))),
            ),
        decreases *self,
    {
        proof {
            reveal(Exp::fold_sem);
            reveal(Exp::rt_check);
            reveal(Exp::rt_val);
        }
        match self {
            Exp::LOrExp(lor_exp) => lor_exp.build(program, my_ir_generator_info),
        }
    }
}


impl LOrExp {
    /// Lowers a logical-or expression: both operands are normalized to 0/1 booleans by comparison against zero, then combined with a bitwise or. Both operands are always evaluated.
    pub fn build(
        &self,
        program: &mut Program,
        my_ir_generator_info: &mut MyIRGeneratorInfo,
    ) -> (r: Result<(), CompileError>)
        requires
            gen_inv(*old(program), *old(my_ir_generator_info)),
        ensures
            gen_inv(*final(program), *final(my_ir_generator_info)),
            exp_post(
                *old(program),
                *old(my_ir_generator_info),
                *final(program),
                *final(my_ir_generator_info),
                r,
                self.fold_sem(sem_env_of(*old(program), *old(my_ir_generator_info))),
                self.rt_check(sem_env_of(*old(program), *old(my_ir_generator_info))),
                self.rt_val(sem_env_of(*old(program), *old(my_ir_generator_info))),
            ),
        decreases *self,
    {
        let ghost p0 = *program;
        let ghost i0 = *my_ir_generator_info;
        let ghost env0 = sem_env_of(p0, i0);
        match self {
            LOrExp::LAndExp(exp) => exp.build(program, my_ir_generator_info),
            LOrExp::BinaryLOrExp(first_exp, second_exp) => {
                match (**first_exp).build(program, my_ir_generator_info) {
                    Err(e) => {
                        return Err(e);
                    },
                    Ok(()) => {},
                }
                let ghost p1 = *program;
                let ghost i1 = *my_ir_generator_info;
                proof {
                    lemma_step_env(p0, i0, p1, i1);
                }
                let mut tmp1a: i32 = 0;
                if let Some((t, _)) = my_ir_generator_info.tmp_constants {
                    tmp1a = t;
                }
                let first_value_a = my_ir_generator_info.curr_value;
                let zero_a = Number::IntConst(0);
                match zero_a.build(program, my_ir_generator_info) {
                    Err(e) => {
                        return Err(e);
                    },
                    Ok(()) => {},
                }
                proof {
                    lemma_step_env(p1, i1, *program, *my_ir_generator_info);
                }
                match finish_binary(
                    first_value_a,
                    tmp1a,
                    program,
                    my_ir_generator_info,
                    BinaryOp::NotEq,
                    Ghost(p0),
                    Ghost(i0),
                    Ghost(p1),
                    Ghost(i1),
                    Ghost((**first_exp).fold_sem(env0)),
                    Ghost((**first_exp).rt_check(env0)),
                    Ghost((**first_exp).rt_val(env0)),
                    Ghost(Ok::<i32, CompileError>(0)),
                    Ghost(None::<CompileError>),
                    Ghost(Some(0i32)),
                ) {
                    Err(e) => {
                        return Err(e);
                    },
                    Ok(()) => {},
                }
                let ghost p3 = *program;
                let ghost i3 = *my_ir_generator_info;
                proof {
                    lemma_step_env(p0, i0, p3, i3);
                }
                let mut tmp1: i32 = 0;
                if let Some((t, _)) = my_ir_generator_info.tmp_constants {
                    tmp1 = t;
                }
                let bool1 = my_ir_generator_info.curr_value;
                let zero_b = Number::IntConst(0);
                match zero_b.build(program, my_ir_generator_info) {
                    Err(e) => {
                        return Err(e);
                    },
                    Ok(()) => {},
                }
                let ghost p4 = *program;
                let ghost i4 = *my_ir_generator_info;
                proof {
                    lemma_step_env(p3, i3, p4, i4);
                }
                let mut tmp1b: i32 = 0;
                if let Some((t, _)) = my_ir_generator_info.tmp_constants {
                    tmp1b = t;
                }
                let first_value_b = my_ir_generator_info.curr_value;
                match second_exp.build(program, my_ir_generator_info) {
                    Err(e) => {
                        proof {
                            lemma_extend_trans(p0, p3, p4, i0, i3);
                            lemma_extend_trans(p0, p4, *program, i0, i4);
                        }
                        return Err(e);
                    },
                    Ok(()) => {},
                }
                proof {
                    lemma_step_env(p4, i4, *program, *my_ir_generator_info);
                }
                match finish_binary(
                    first_value_b,
                    tmp1b,
                    program,
                    my_ir_generator_info,
                    BinaryOp::NotEq,
                    Ghost(p3),
                    Ghost(i3),
                    Ghost(p4),
                    Ghost(i4),
                    Ghost(Ok::<i32, CompileError>(0)),
                    Ghost(None::<CompileError>),
                    Ghost(Some(0i32)),
                    Ghost(second_exp.fold_sem(env0)),
                    Ghost(second_exp.rt_check(env0)),
                    Ghost(second_exp.rt_val(env0)),
                ) {
                    Err(e) => {
                        proof {
                            lemma_extend_trans(p0, p3, *program, i0, i3);
                        }
                        return Err(e);
                    },
                    Ok(()) => {},
                }
                let r = finish_binary(
                    bool1,
                    tmp1,
                    program,
                    my_ir_generator_info,
                    BinaryOp::Or,
                    Ghost(p0),
                    Ghost(i0),
                    Ghost(p3),
                    Ghost(i3),
                    Ghost(fold2((**first_exp).fold_sem(env0), Ok(0i32), BinaryOp::NotEq)),
                    Ghost(first_err((**first_exp).rt_check(env0), None)),
                    Ghost(rt2((**first_exp).rt_val(env0), Some(0i32), BinaryOp::NotEq)),
                    Ghost(fold2(Ok(0i32), second_exp.fold_sem(env0), BinaryOp::NotEq)),
                    Ghost(first_err(None, second_exp.rt_check(env0))),
                    Ghost(rt2(Some(0i32), second_exp.rt_val(env0), BinaryOp::NotEq)),
                );
                r
            },
        }
    }
}


impl LAndExp {
    /// Lowers a logical-and expression: both operands are normalized to 0/1 booleans by comparison against zero, then combined with a bitwise and. Both operands are always evaluated.
    pub fn build(
        &self,
        program: &mut Program,
        my_ir_generator_info: &mut MyIRGeneratorInfo,
    ) -> (r: Result<(), CompileError>)
        requires
            gen_inv(*old(program), *old(my_ir_generator_info)),
        ensures
            gen_inv(*final(program), *final(my_ir_generator_info)),
            exp_post(
                *old(program),
                *old(my_ir_generator_info),
                *final(program),
                *final(my_ir_generator_info),
                r,
                self.fold_sem(sem_env_of(*old(program), *old(my_ir_generator_info))),
                self.rt_check(sem_env_of(*old(program), *old(my_ir_generator_info))),
                self.rt_val(sem_env_of(*old(program), *old(my_ir_generator_info))),
            ),
        decreases *self,
    {
        let ghost p0 = *program;
        let ghost i0 = *my_ir_generator_info;
        let ghost env0 = sem_env_of(p0, i0);
        match self {
            LAndExp::EqExp(exp) => exp.build(program, my_ir_generator_info),
            LAndExp::BinaryLAndExp(first_exp, second_exp) => {
                match (**first_exp).build(program, my_ir_generator_info) {
                    Err(e) => {
                        return Err(e);
                    },
                    Ok(()) => {},
                }
                let ghost p1 = *program;
                let ghost i1 = *my_ir_generator_info;
                proof {
                    lemma_step_env(p0, i0, p1, i1);
                }
                let mut tmp1a: i32 = 0;
                if let Some((t, _)) = my_ir_generator_info.tmp_constants {
                    tmp1a = t;
                }
                let first_value_a = my_ir_generator_info.curr_value;
                let zero_a = Number::IntConst(0);
                match zero_a.build(program, my_ir_generator_info) {
                    Err(e) => {
                        return Err(e);
                    },
                    Ok(()) => {},
                }
                proof {
                    lemma_step_env(p1, i1, *program, *my_ir_generator_info);
                }
                match finish_binary(
                    first_value_a,
                    tmp1a,
                    program,
                    my_ir_generator_info,
                    BinaryOp::NotEq,
                    Ghost(p0),
                    Ghost(i0),
                    Ghost(p1),
                    Ghost(i1),
                    Ghost((**first_exp).fold_sem(env0)),
                    Ghost((**first_exp).rt_check(env0)),
                    Ghost((**first_exp).rt_val(env0)),
                    Ghost(Ok::<i32, CompileError>(0)),
                    Ghost(None::<CompileError>),
                    Ghost(Some(0i32)),
                ) {
                    Err(e) => {
                        return Err(e);
                    },
                    Ok(()) => {},
                }
                let ghost p3 = *program;
                let ghost i3 = *my_ir_generator_info;
                proof {
                    lemma_step_env(p0, i0, p3, i3);
                }
                let mut tmp1: i32 = 0;
                if let Some((t, _)) = my_ir_generator_info.tmp_constants {
                    tmp1 = t;
                }
                let bool1 = my_ir_generator_info.curr_value;
                let zero_b = Number::IntConst(0);
                match zero_b.build(program, my_ir_generator_info) {
                    Err(e) => {
                        return Err(e);
                    },
                    Ok(()) => {},
                }
                let ghost p4 = *program;
                let ghost i4 = *my_ir_generator_info;
                proof {
                    lemma_step_env(p3, i3, p4, i4);
                }
                let mut tmp1b: i32 = 0;
                if let Some((t, _)) = my_ir_generator_info.tmp_constants {
                    tmp1b = t;
                }
                let first_value_b = my_ir_generator_info.curr_value;
                match second_exp.build(program, my_ir_generator_info) {
                    Err(e) => {
                        proof {
                            lemma_extend_trans(p0, p3, p4, i0, i3);
                            lemma_extend_trans(p0, p4, *program, i0, i4);
                        }
                        return Err(e);
                    },
                    Ok(()) => {},
                }
                proof {
                    lemma_step_env(p4, i4, *program, *my_ir_generator_info);
                }
                match finish_binary(
                    first_value_b,
                    tmp1b,
                    program,
                    my_ir_generator_info,
                    BinaryOp::NotEq,
                    Ghost(p3),
                    Ghost(i3),
                    Ghost(p4),
                    Ghost(i4),
                    Ghost(Ok::<i32, CompileError>(0)),
                    Ghost(None::<CompileError>),
                    Ghost(Some(0i32)),
                    Ghost(second_exp.fold_sem(env0)),
                    Ghost(second_exp.rt_check(env0)),
                    Ghost(second_exp.rt_val(env0)),
                ) {
                    Err(e) => {
                        proof {
                            lemma_extend_trans(p0, p3, *program, i0, i3);
                        }
                        return Err(e);
                    },
                    Ok(()) => {},
                }
                let r = finish_binary(
                    bool1,
                    tmp1,
                    program,
                    my_ir_generator_info,
                    BinaryOp::And,
                    Ghost(p0),
                    Ghost(i0),
                    Ghost(p3),
                    Ghost(i3),
                    Ghost(fold2((**first_exp).fold_sem(env0), Ok(0i32), BinaryOp::NotEq)),
                    Ghost(first_err((**first_exp).rt_check(env0), None)),
                    Ghost(rt2((**first_exp).rt_val(env0), Some(0i32), BinaryOp::NotEq)),
                    Ghost(fold2(Ok(0i32), second_exp.fold_sem(env0), BinaryOp::NotEq)),
                    Ghost(first_err(None, second_exp.rt_check(env0))),
                    Ghost(rt2(Some(0i32), second_exp.rt_val(env0), BinaryOp::NotEq)),
                );
                r
            },
        }
    }
}


impl UnaryExp {
    /// Lowers a unary expression: `+` is identity, `-e` lowers as `0 - e`, `!e` lowers as `e == 0`.
    pub fn build(
        &self,
        program: &mut Program,
        my_ir_generator_info: &mut MyIRGeneratorInfo,
    ) -> (r: Result<(), CompileError>)
        requires
            gen_inv(*old(program), *old(my_ir_generator_info)),
        ensures
            gen_inv(*final(program), *final(my_ir_generator_info)),
            exp_post(
                *old(program),
                *old(my_ir_generator_info),
                *final(program),
                *final(my_ir_generator_info),
                r,
                self.fold_sem(sem_env_of(*old(program), *old(my_ir_generator_info))),
                self.rt_check(sem_env_of(*old(program), *old(my_ir_generator_info))),
                self.rt_val(sem_env_of(*old(program), *old(my_ir_generator_info))),
            ),
        decreases *self,
    {
        let ghost p0 = *program;
        let ghost i0 = *my_ir_generator_info;
        let ghost env0 = sem_env_of(p0, i0);
        match self {
            UnaryExp::PrimaryExp(primary_exp) => primary_exp.build(program, my_ir_generator_info),
            UnaryExp::PlusUnaryExp(plus_unary_exp) => (**plus_unary_exp).build(
                program,
                my_ir_generator_info,
            ),
            UnaryExp::MinusUnaryExp(unary_exp) => {
                let zero = Number::IntConst(0);
                match zero.build(program, my_ir_generator_info) {
                    Err(e) => {
                        return Err(e);
                    },
                    Ok(()) => {},
                }
                let ghost p1 = *program;
                let ghost i1 = *my_ir_generator_info;
                proof {
                    lemma_step_env(p0, i0, p1, i1);
                }
                let mut tmp1: i32 = 0;
                if let Some((t, _)) = my_ir_generator_info.tmp_constants {
                    tmp1 = t;
                }
                let first_value = my_ir_generator_info.curr_value;
                match (**unary_exp).build(program, my_ir_generator_info) {
                    Err(e) => {
                        proof {
                            lemma_extend_trans(p0, p1, *program, i0, i1);
                        }
                        return Err(e);
                    },
                    Ok(()) => {},
                }
                proof {
                    lemma_step_env(p1, i1, *program, *my_ir_generator_info);
                }
                finish_binary(
                    first_value,
                    tmp1,
                    program,
                    my_ir_generator_info,
                    BinaryOp::Sub,
                    Ghost(p0),
                    Ghost(i0),
                    Ghost(p1),
                    Ghost(i1),
                    Ghost(Ok::<i32, CompileError>(0)),
                    Ghost(None::<CompileError>),
                    Ghost(Some(0i32)),
                    Ghost((**unary_exp).fold_sem(env0)),
                    Ghost((**unary_exp).rt_check(env0)),
                    Ghost((**unary_exp).rt_val(env0)),
                )
            },
            UnaryExp::NotUnaryExp(unary_exp) => {
                match (**unary_exp).build(program, my_ir_generator_info) {
                    Err(e) => {
                        return Err(e);
                    },
                    Ok(()) => {},
                }
                let ghost p1 = *program;
                let ghost i1 = *my_ir_generator_info;
                proof {
                    lemma_step_env(p0, i0, p1, i1);
                }
                let mut tmp1: i32 = 0;
                if let Some((t, _)) = my_ir_generator_info.tmp_constants {
                    tmp1 = t;
                }
                let first_value = my_ir_generator_info.curr_value;
                let zero = Number::IntConst(0);
                match zero.build(program, my_ir_generator_info) {
                    Err(e) => {
                        return Err(e);
                    },
                    Ok(()) => {},
                }
                proof {
                    lemma_step_env(p1, i1, *program, *my_ir_generator_info);
                }
                finish_binary(
                    first_value,
                    tmp1,
                    program,
                    my_ir_generator_info,
                    BinaryOp::Eq,
                    Ghost(p0),
                    Ghost(i0),
                    Ghost(p1),
                    Ghost(i1),
                    Ghost((**unary_exp).fold_sem(env0)),
                    Ghost((**unary_exp).rt_check(env0)),
                    Ghost((**unary_exp).rt_val(env0)),
                    Ghost(Ok::<i32, CompileError>(0)),
                    Ghost(None::<CompileError>),
                    Ghost(Some(0i32)),
                )
            },
        }
    }
}


impl PrimaryExp {
    #[verifier::rlimit(80)]
    #[verifier::spinoff_prover]
    /// Lowers a primary expression.
    pub fn build(
        &self,
        program: &mut Program,
        my_ir_generator_info: &mut MyIRGeneratorInfo,
    ) -> (r: Result<(), CompileError>)
        requires
            gen_inv(*old(program), *old(my_ir_generator_info)),
        ensures
            gen_inv(*final(program), *final(my_ir_generator_info)),
            exp_post(
                *old(program),
                *old(my_ir_generator_info),
                *final(program),
                *final(my_ir_generator_info),
                r,
                self.fold_sem(sem_env_of(*old(program), *old(my_ir_generator_info))),
                self.rt_check(sem_env_of(*old(program), *old(my_ir_generator_info))),
                self.rt_val(sem_env_of(*old(program), *old(my_ir_generator_info))),
            ),
        decreases *self,
    {
        let ghost p0 = *program;
        let ghost i0 = *my_ir_generator_info;
        let ghost env0 = sem_env_of(p0, i0);
        match self {
            PrimaryExp::BracedExp(exp) => (**exp).build(program, my_ir_generator_info),
            PrimaryExp::Number(number) => number.build(program, my_ir_generator_info),
            PrimaryExp::LVal(lval) => lval.build(program, my_ir_generator_info),
        }
    }
}


/// An extension step that emits no returns leaves the collected return
/// values unchanged.
pub proof fn lemma_collect_preserved(p0: Program, i0: MyIRGeneratorInfo, p1: Program)
    requires
        gen_inv(p0, i0),
        prog_extends(p0, p1, i0),
        no_new_returns(p0, p1, i0),
    ensures
        collect_returns(cur_fd(p1, i0)) == collect_returns(cur_fd(p0, i0)),
{
    let fd0 = cur_fd(p0, i0);
    let fd1 = cur_fd(p1, i0);
    lemma_collect_returns_vals_extend(fd0.values@, fd1.values@, fd0.block.insts@);
    lemma_collect_returns_app(fd1.values@, fd0.block.insts@, fd1.block.insts@);
}

/// Declaring a binding updates the denoted semantic environment pointwise.
pub proof fn lemma_abs_env_insert(
    m: Map<Seq<char>, SymbolsEntry>,
    vals: Seq<ValueData>,
    k: Seq<char>,
    e: SymbolsEntry,
)
    ensures
        abs_env(m.insert(k, e), vals) == abs_env(m, vals).insert(k, abs_entry(e, vals)),
{
    assert(abs_env(m.insert(k, e), vals) =~= abs_env(m, vals).insert(k, abs_entry(e, vals)));
}

impl ConstExp {
    /// Folds a compile-time constant expression (folding mode must be
    /// active).
    pub fn build(
        &self,
        program: &mut Program,
        my_ir_generator_info: &mut MyIRGeneratorInfo,
    ) -> (r: Result<(), CompileError>)
        requires
            gen_inv(*old(program), *old(my_ir_generator_info)),
            old(my_ir_generator_info).tmp_constants is Some,
        ensures
            gen_inv(*final(program), *final(my_ir_generator_info)),
            exp_post(
                *old(program),
                *old(my_ir_generator_info),
                *final(program),
                *final(my_ir_generator_info),
                r,
                self.fold_sem(sem_env_of(*old(program), *old(my_ir_generator_info))),
                None,
                None,
            ),
    {
        match self {
            ConstExp::Exp(exp) => exp.build(program, my_ir_generator_info),
        }
    }
}

impl ConstInitVal {
    /// Folds a `const` initializer (folding mode must be active).
    pub fn build(
        &self,
        program: &mut Program,
        my_ir_generator_info: &mut MyIRGeneratorInfo,
    ) -> (r: Result<(), CompileError>)
        requires
            gen_inv(*old(program), *old(my_ir_generator_info)),
            old(my_ir_generator_info).tmp_constants is Some,
        ensures
            gen_inv(*final(program), *final(my_ir_generator_info)),
            exp_post(
                *old(program),
                *old(my_ir_generator_info),
                *final(program),
                *final(my_ir_generator_info),
                r,
                self.fold_sem(sem_env_of(*old(program), *old(my_ir_generator_info))),
                None,
                None,
            ),
    {
        match self {
            ConstInitVal::ConstExp(exp) => exp.build(program, my_ir_generator_info),
        }
    }
}

impl InitVal {
    /// Lowers a variable initializer (an ordinary expression).
    pub fn build(
        &self,
        program: &mut Program,
        my_ir_generator_info: &mut MyIRGeneratorInfo,
    ) -> (r: Result<(), CompileError>)
        requires
            gen_inv(*old(program), *old(my_ir_generator_info)),
            old(my_ir_generator_info).tmp_constants is None,
        ensures
            gen_inv(*final(program), *final(my_ir_generator_info)),
            exp_post(
                *old(program),
                *old(my_ir_generator_info),
                *final(program),
                *final(my_ir_generator_info),
                r,
                Err(CompileError::NonConstantInitializer),
                self.rt_check(sem_env_of(*old(program), *old(my_ir_generator_info))),
                self.rt_val(sem_env_of(*old(program), *old(my_ir_generator_info))),
            ),
        decreases *self,
    {
        match self {
            InitVal::Exp(exp) => exp.build(program, my_ir_generator_info),
        }
    }
}

impl ConstDef {
    /// Folds one `const` definition's initializer and binds the result in the
    /// symbol table; folding mode is consumed.
    pub fn build(
        &self,
        program: &mut Program,
        my_ir_generator_info: &mut MyIRGeneratorInfo,
    ) -> (r: Result<(), CompileError>)
        requires
            gen_inv(*old(program), *old(my_ir_generator_info)),
            old(my_ir_generator_info).tmp_constants is Some,
        ensures
            gen_inv(*final(program), *final(my_ir_generator_info)),
            final(my_ir_generator_info).curr_func == old(my_ir_generator_info).curr_func,
            final(program).funcs@ == old(program).funcs@,
            final(my_ir_generator_info).curr_value == old(my_ir_generator_info).curr_value,
            match self.sem(sem_env_of(*old(program), *old(my_ir_generator_info))) {
                Ok(env2) => {
                    &&& r is Ok
                    &&& final(my_ir_generator_info).tmp_constants is None
                    &&& abs_env(
                        final(my_ir_generator_info).curr_symbols@,
                        cur_fd(*old(program), *old(my_ir_generator_info)).values@,
                    ) == env2
                },
                Err(e) => r == Err::<(), CompileError>(e) && final(my_ir_generator_info).curr_symbols@ == old(my_ir_generator_info).curr_symbols@,
            },
    {
        let ghost p0 = *program;
        let ghost i0 = *my_ir_generator_info;
        match self {
            ConstDef::ConstDef(ident, const_initval) => {
                match const_initval.build(program, my_ir_generator_info) {
                    Err(e) => {
                        return Err(e);
                    },
                    Ok(()) => {},
                }
                let (ans, _) = my_ir_generator_info.tmp_constants.unwrap();
                my_ir_generator_info.tmp_constants = None;
                my_ir_generator_info.curr_symbols.declare(
                    ident.content.clone(),
                    SymbolsEntry::Const(ans),
                );
                proof {
                    lemma_abs_env_insert(
                        i0.curr_symbols@,
                        cur_fd(p0, i0).values@,
                        ident.content@,
                        SymbolsEntry::Const(ans),
                    );
                }
                Ok(())
            },
        }
    }
}

/// Lowers a sequence of `const` definitions, folding each initializer with
/// folding mode freshly activated.
fn build_const_defs(
    const_defs: &Vec<ConstDef>,
    program: &mut Program,
    my_ir_generator_info: &mut MyIRGeneratorInfo,
) -> (r: Result<(), CompileError>)
    requires
        gen_inv(*old(program), *old(my_ir_generator_info)),
        old(my_ir_generator_info).tmp_constants is None,
    ensures
        gen_inv(*final(program), *final(my_ir_generator_info)),
        final(my_ir_generator_info).curr_func == old(my_ir_generator_info).curr_func,
        final(program).funcs@ == old(program).funcs@,
        final(my_ir_generator_info).curr_value == old(my_ir_generator_info).curr_value,
        final(my_ir_generator_info).tmp_constants is None,
        match const_defs_sem(
            const_defs@,
            sem_env_of(*old(program), *old(my_ir_generator_info)),
        ) {
            Ok(env2) => {
                &&& r is Ok
                &&& final(my_ir_generator_info).tmp_constants is None
                &&& abs_env(
                    final(my_ir_generator_info).curr_symbols@,
                    cur_fd(*old(program), *old(my_ir_generator_info)).values@,
                ) == env2
            },
            Err(e) => r == Err::<(), CompileError>(e),
        },
{
    proof {
        assert(const_defs@.skip(0) =~= const_defs@);
    }
    let mut i: usize = 0;
    while i < const_defs.len()
        invariant
            gen_inv(*program, *my_ir_generator_info),
            gen_inv(*old(program), *old(my_ir_generator_info)),
            i <= const_defs.len(),
            my_ir_generator_info.curr_func == old(my_ir_generator_info).curr_func,
            my_ir_generator_info.curr_value == old(my_ir_generator_info).curr_value,
            my_ir_generator_info.tmp_constants is None,
            program.funcs@ == old(program).funcs@,
            const_defs_sem(
                const_defs@,
                sem_env_of(*old(program), *old(my_ir_generator_info)),
            ) == const_defs_sem(
                const_defs@.skip(i as int),
                abs_env(
                    my_ir_generator_info.curr_symbols@,
                    cur_fd(*old(program), *old(my_ir_generator_info)).values@,
                ),
            ),
        decreases const_defs.len() - i,
    {
        my_ir_generator_info.tmp_constants = Some((0, 0));
        let rr = const_defs[i].build(program, my_ir_generator_info);
        proof {
            assert(const_defs@.skip(i as int)[0] == const_defs@[i as int]);
            assert(const_defs@.skip(i as int).skip(1) =~= const_defs@.skip(i as int + 1));
        }
        match rr {
            Err(e) => {
                my_ir_generator_info.tmp_constants = None;
                return Err(e);
            },
            Ok(()) => {},
        }
        i = i + 1;
    }
    proof {
        assert(const_defs@.skip(const_defs@.len() as int) =~= Seq::<ConstDef>::empty());
    }
    Ok(())
}

impl ConstDecl {
    /// Lowers a `const` declaration: each definition's initializer is folded
    /// at compile time; no instructions are emitted.
    pub fn build(
        &self,
        program: &mut Program,
        my_ir_generator_info: &mut MyIRGeneratorInfo,
    ) -> (r: Result<(), CompileError>)
        requires
            gen_inv(*old(program), *old(my_ir_generator_info)),
            old(my_ir_generator_info).tmp_constants is None,
        ensures
            gen_inv(*final(program), *final(my_ir_generator_info)),
            final(my_ir_generator_info).curr_func == old(my_ir_generator_info).curr_func,
            final(program).funcs@ == old(program).funcs@,
            final(my_ir_generator_info).curr_value == old(my_ir_generator_info).curr_value,
            final(my_ir_generator_info).tmp_constants is None,
            match self.sem_decl(sem_env_of(*old(program), *old(my_ir_generator_info))) {
                Ok(env2) => {
                    &&& r is Ok
                    &&& final(my_ir_generator_info).tmp_constants is None
                    &&& abs_env(
                        final(my_ir_generator_info).curr_symbols@,
                        cur_fd(*old(program), *old(my_ir_generator_info)).values@,
                    ) == env2
                },
                Err(e) => r == Err::<(), CompileError>(e),
            },
    {
        match self {
            ConstDecl::ConstDecl(_, const_defs) => build_const_defs(
                const_defs,
                program,
                my_ir_generator_info,
            ),
        }
    }
}

impl VarDef {
    #[verifier::rlimit(30)]
    #[verifier::spinoff_prover]
    /// Lowers one variable definition: the initializer's instructions are
    /// emitted and the variable is bound to the resulting handle. A definition
    /// without an initializer is outside the supported fragment.
    pub fn build(
        &self,
        program: &mut Program,
        my_ir_generator_info: &mut MyIRGeneratorInfo,
    ) -> (r: Result<(), CompileError>)
        requires
            gen_inv(*old(program), *old(my_ir_generator_info)),
            old(my_ir_generator_info).tmp_constants is None,
        ensures
            gen_inv(*final(program), *final(my_ir_generator_info)),
            final(my_ir_generator_info).curr_func == old(my_ir_generator_info).curr_func,
            final(my_ir_generator_info).tmp_constants is None,
            prog_extends(*old(program), *final(program), *old(my_ir_generator_info)),
            no_new_returns(*old(program), *final(program), *old(my_ir_generator_info)),
            match self.sem(sem_env_of(*old(program), *old(my_ir_generator_info))) {
                Ok(env2) => r is Ok && abs_env(
                    final(my_ir_generator_info).curr_symbols@,
                    cur_fd(*final(program), *old(my_ir_generator_info)).values@,
                ) == env2,
                Err(e) => r == Err::<(), CompileError>(e),
            },
    {
        let ghost p0 = *program;
        let ghost i0 = *my_ir_generator_info;
        match self {
            VarDef::VarDef(ident, initval) => {
                match initval.build(program, my_ir_generator_info) {
                    Err(e) => {
                        return Err(e);
                    },
                    Ok(()) => {},
                }
                let ghost p1 = *program;
                let ghost i1 = *my_ir_generator_info;
                let v = my_ir_generator_info.curr_value.unwrap();
                my_ir_generator_info.curr_symbols.declare(
                    ident.content.clone(),
                    SymbolsEntry::Variable(v),
                );
                proof {
                    lemma_step_env(p0, i0, p1, i1);
                    lemma_abs_env_insert(
                        i1.curr_symbols@,
                        cur_fd(p1, i1).values@,
                        ident.content@,
                        SymbolsEntry::Variable(v),
                    );
                }
                Ok(())
            },
            VarDef::IDENT(_) => Err(CompileError::UnsupportedConstruct),
        }
    }
}

/// Lowers a sequence of variable definitions, emitting each initializer's
/// instructions.
fn build_var_defs(
    insides_def: &Vec<VarDef>,
    program: &mut Program,
    my_ir_generator_info: &mut MyIRGeneratorInfo,
) -> (r: Result<(), CompileError>)
    requires
        gen_inv(*old(program), *old(my_ir_generator_info)),
        old(my_ir_generator_info).tmp_constants is None,
    ensures
        gen_inv(*final(program), *final(my_ir_generator_info)),
        final(my_ir_generator_info).curr_func == old(my_ir_generator_info).curr_func,
        final(my_ir_generator_info).tmp_constants is None,
        prog_extends(*old(program), *final(program), *old(my_ir_generator_info)),
        no_new_returns(*old(program), *final(program), *old(my_ir_generator_info)),
        match var_defs_sem(
            insides_def@,
            sem_env_of(*old(program), *old(my_ir_generator_info)),
        ) {
            Ok(env2) => r is Ok && abs_env(
                final(my_ir_generator_info).curr_symbols@,
                cur_fd(*final(program), *old(my_ir_generator_info)).values@,
            ) == env2,
            Err(e) => r == Err::<(), CompileError>(e),
        },
{
    proof {
        assert(insides_def@.skip(0) =~= insides_def@);
    }
    let mut i: usize = 0;
    while i < insides_def.len()
        invariant
            gen_inv(*program, *my_ir_generator_info),
            gen_inv(*old(program), *old(my_ir_generator_info)),
            i <= insides_def.len(),
            my_ir_generator_info.curr_func == old(my_ir_generator_info).curr_func,
            my_ir_generator_info.tmp_constants is None,
            prog_extends(*old(program), *program, *old(my_ir_generator_info)),
            no_new_returns(*old(program), *program, *old(my_ir_generator_info)),
            var_defs_sem(
                insides_def@,
                sem_env_of(*old(program), *old(my_ir_generator_info)),
            ) == var_defs_sem(
                insides_def@.skip(i as int),
                abs_env(
                    my_ir_generator_info.curr_symbols@,
                    cur_fd(*program, *old(my_ir_generator_info)).values@,
                ),
            ),
        decreases insides_def.len() - i,
    {
        let ghost pc = *program;
        let ghost ic = *my_ir_generator_info;
        let rr = insides_def[i].build(program, my_ir_generator_info);
        proof {
            assert(insides_def@.skip(i as int)[0] == insides_def@[i as int]);
            assert(insides_def@.skip(i as int).skip(1) =~= insides_def@.skip(i as int + 1));
            lemma_extend_trans(*old(program), pc, *program, *old(my_ir_generator_info), ic);
        }
        match rr {
            Err(e) => {
                return Err(e);
            },
            Ok(()) => {},
        }
        i = i + 1;
    }
    proof {
        assert(insides_def@.skip(insides_def@.len() as int) =~= Seq::<VarDef>::empty());
    }
    Ok(())
}

impl VarDecl {
    /// Lowers a variable declaration, definition by definition.
    pub fn build(
        &self,
        program: &mut Program,
        my_ir_generator_info: &mut MyIRGeneratorInfo,
    ) -> (r: Result<(), CompileError>)
        requires
            gen_inv(*old(program), *old(my_ir_generator_info)),
            old(my_ir_generator_info).tmp_constants is None,
        ensures
            gen_inv(*final(program), *final(my_ir_generator_info)),
            final(my_ir_generator_info).curr_func == old(my_ir_generator_info).curr_func,
            final(my_ir_generator_info).tmp_constants is None,
            prog_extends(*old(program), *final(program), *old(my_ir_generator_info)),
            no_new_returns(*old(program), *final(program), *old(my_ir_generator_info)),
            match self.sem_decl(sem_env_of(*old(program), *old(my_ir_generator_info))) {
                Ok(env2) => r is Ok && abs_env(
                    final(my_ir_generator_info).curr_symbols@,
                    cur_fd(*final(program), *old(my_ir_generator_info)).values@,
                ) == env2,
                Err(e) => r == Err::<(), CompileError>(e),
            },
    {
        match self {
            VarDecl::VarDecl(_, insides_def) => build_var_defs(
                insides_def,
                program,
                my_ir_generator_info,
            ),
        }
    }
}

impl Decl {
    #[verifier::rlimit(30)]
    #[verifier::spinoff_prover]
    /// Lowers a declaration.
    pub fn build(
        &self,
        program: &mut Program,
        my_ir_generator_info: &mut MyIRGeneratorInfo,
    ) -> (r: Result<(), CompileError>)
        requires
            gen_inv(*old(program), *old(my_ir_generator_info)),
            old(my_ir_generator_info).tmp_constants is None,
        ensures
            gen_inv(*final(program), *final(my_ir_generator_info)),
            final(my_ir_generator_info).curr_func == old(my_ir_generator_info).curr_func,
            final(my_ir_generator_info).tmp_constants is None,
            prog_extends(*old(program), *final(program), *old(my_ir_generator_info)),
            no_new_returns(*old(program), *final(program), *old(my_ir_generator_info)),
            match self.sem(sem_env_of(*old(program), *old(my_ir_generator_info))) {
                Ok(env2) => r is Ok && abs_env(
                    final(my_ir_generator_info).curr_symbols@,
                    cur_fd(*final(program), *old(my_ir_generator_info)).values@,
                ) == env2,
                Err(e) => r == Err::<(), CompileError>(e),
            },
    {
        match self {
            Decl::ConstDecl(const_decl) => {
                let r = const_decl.build(program, my_ir_generator_info);
                proof {
                    let vals = cur_fd(*program, *old(my_ir_generator_info)).values@;
                    let insts = cur_fd(*program, *old(my_ir_generator_info)).block.insts@;
                    assert(vals.subrange(0, vals.len() as int) =~= vals);
                    assert(insts.subrange(0, insts.len() as int) =~= insts);
                }
                r
            },
            Decl::VarDecl(var_decl) => var_decl.build(program, my_ir_generator_info),
        }
    }
}


/// Extension alone composes (returns may have been emitted in between).
pub proof fn lemma_prog_extends_trans(
    p0: Program,
    p1: Program,
    p2: Program,
    i0: MyIRGeneratorInfo,
    i1: MyIRGeneratorInfo,
)
    requires
        i1.curr_func == i0.curr_func,
        prog_extends(p0, p1, i0),
        prog_extends(p1, p2, i1),
    ensures
        prog_extends(p0, p2, i0),
{
    let f = i0.curr_func->Some_0 as int;
    let v0 = p0.funcs@[f].values@;
    let v1 = p1.funcs@[f].values@;
    let v2 = p2.funcs@[f].values@;
    let b0 = p0.funcs@[f].block.insts@;
    let b1 = p1.funcs@[f].block.insts@;
    let b2 = p2.funcs@[f].block.insts@;
    assert forall|i: int| 0 <= i < v0.len() implies v2[i] == v0[i] by {
        assert(v1.subrange(0, v0.len() as int)[i] == v1[i]);
        assert(v2.subrange(0, v1.len() as int)[i] == v2[i]);
    }
    assert(v0.is_prefix_of(v2)) by {
        assert(v0 =~= v2.subrange(0, v0.len() as int));
    }
    assert forall|i: int| 0 <= i < b0.len() implies b2[i] == b0[i] by {
        assert(b1.subrange(0, b0.len() as int)[i] == b1[i]);
        assert(b2.subrange(0, b1.len() as int)[i] == b2[i]);
    }
    assert(b0.is_prefix_of(b2)) by {
        assert(b0 =~= b2.subrange(0, b0.len() as int));
    }
}

/// Discards everything a failing statement lowered: the current function's
/// arena and block are cut back to their recorded lengths.
fn rollback(program: &mut Program, f: usize, n_vals: usize, n_insts: usize)
    requires
        (f as int) < old(program).funcs@.len(),
        n_vals <= old(program).funcs@[f as int].values@.len(),
        n_insts <= old(program).funcs@[f as int].block.insts@.len(),
    ensures
        final(program).funcs@.len() == old(program).funcs@.len(),
        forall|j: int|
            0 <= j < old(program).funcs@.len() && j != f ==> final(program).funcs@[j] == old(
                program,
            ).funcs@[j],
        final(program).funcs@[f as int].values@ == old(
            program,
        ).funcs@[f as int].values@.subrange(0, n_vals as int),
        final(program).funcs@[f as int].block.insts@ == old(
            program,
        ).funcs@[f as int].block.insts@.subrange(0, n_insts as int),
        final(program).funcs@[f as int].name == old(program).funcs@[f as int].name,
        final(program).funcs@[f as int].ret_type == old(program).funcs@[f as int].ret_type,
{
    let fd = &mut program.funcs[f];
    fd.values.truncate(n_vals);
    fd.block.insts.truncate(n_insts);
}

impl Stmt {
    /// Lowers one statement. `return e` lowers `e` and emits a return of its
    /// value; `lv = e` rebinds a declared (non-constant) variable to the
    /// lowered value of `e`. A failing statement leaves no instructions
    /// behind: everything it lowered is rolled back.
    #[verifier::rlimit(50)]
    #[verifier::spinoff_prover]
    pub fn build(
        &self,
        program: &mut Program,
        my_ir_generator_info: &mut MyIRGeneratorInfo,
    ) -> (r: Result<(), CompileError>)
        requires
            gen_inv(*old(program), *old(my_ir_generator_info)),
            old(my_ir_generator_info).tmp_constants is None,
        ensures
            gen_inv(*final(program), *final(my_ir_generator_info)),
            final(my_ir_generator_info).curr_func == old(my_ir_generator_info).curr_func,
            final(my_ir_generator_info).tmp_constants is None,
            prog_extends(*old(program), *final(program), *old(my_ir_generator_info)),
            match self.sem(
                SemState {
                    env: sem_env_of(*old(program), *old(my_ir_generator_info)),
                    rets: collect_returns(cur_fd(*old(program), *old(my_ir_generator_info))),
                },
            ) {
                Ok(st2) => {
                    &&& r is Ok
                    &&& abs_env(
                        final(my_ir_generator_info).curr_symbols@,
                        cur_fd(*final(program), *old(my_ir_generator_info)).values@,
                    ) == st2.env
                    &&& collect_returns(cur_fd(*final(program), *old(my_ir_generator_info)))
                        == st2.rets
                },
                Err(e) => {
                    &&& r == Err::<(), CompileError>(e)
                    &&& cur_fd(*final(program), *old(my_ir_generator_info)).values@ == cur_fd(
                        *old(program),
                        *old(my_ir_generator_info),
                    ).values@
                    &&& cur_fd(*final(program), *old(my_ir_generator_info)).block.insts@ == cur_fd(
                        *old(program),
                        *old(my_ir_generator_info),
                    ).block.insts@
                    &&& final(my_ir_generator_info).curr_symbols@ == old(
                        my_ir_generator_info,
                    ).curr_symbols@
                },
            },
    {
        let ghost p0 = *program;
        let ghost i0 = *my_ir_generator_info;
        let ghost env0 = sem_env_of(p0, i0);
        let f = my_ir_generator_info.curr_func.unwrap();
        let n_vals = program.funcs[f].values.len();
        let n_insts = program.funcs[f].block.insts.len();
        match self {
            Stmt::ReturnStmt(exp) => {
                match exp.build(program, my_ir_generator_info) {
                    Err(e) => {
                        rollback(program, f, n_vals, n_insts);
                        proof {
                            assert(cur_fd(*program, i0).values@ =~= cur_fd(p0, i0).values@);
                            assert(cur_fd(*program, i0).block.insts@ =~= cur_fd(
                                p0,
                                i0,
                            ).block.insts@);
                            assert(cur_fd(p0, i0).values@.is_prefix_of(cur_fd(p0, i0).values@));
                            assert(cur_fd(p0, i0).block.insts@.is_prefix_of(
                                cur_fd(p0, i0).block.insts@,
                            ));
                        }
                        return Err(e);
                    },
                    Ok(()) => {},
                }
                let ghost p1 = *program;
                let ghost i1 = *my_ir_generator_info;
                let v = my_ir_generator_info.curr_value.unwrap();
                let rv = fresh_value(program, f, ValueData::Return(Some(v)));
                let ghost p2 = *program;
                push_inst(program, f, rv);
                proof {
                    let fd0 = cur_fd(p0, i0);
                    let fd1 = cur_fd(p1, i0);
                    let fd2 = cur_fd(p2, i0);
                    let fd3 = cur_fd(*program, i0);
                    assert(fd1.values@.is_prefix_of(fd2.values@));
                    assert forall|i: int| 0 <= i < fd3.values@.len() implies value_wf(
                        fd3.values@,
                        i,
                    ) by {
                        if i < fd1.values@.len() {
                            assert(value_wf(fd1.values@, i));
                        }
                    }
                    assert(prog_extends(p1, *program, i1));
                    lemma_prog_extends_trans(p0, p1, *program, i0, i1);
                    lemma_collect_preserved(p0, i0, p1);
                    lemma_collect_returns_vals_extend(fd1.values@, fd2.values@, fd1.block.insts@);
                    lemma_eval_value_stable(fd1.values@, fd2.values@, v.id as int);
                    assert(fd3.block.insts@.drop_last() =~= fd2.block.insts@);
                    assert(collect_returns(fd3) == collect_returns_seq(
                        fd2.values@,
                        fd2.block.insts@,
                    ).push(eval_value(fd2.values@, v.id as int)));
                    lemma_abs_env_stable(i0.curr_symbols@, fd0.values@, fd3.values@);
                }
                Ok(())
            },
            Stmt::AssignStmt(lval, exp) => {
                match lval {
                    LVal::IDENT(ident) => {
                        match my_ir_generator_info.curr_symbols.resolve(&ident.content) {
                            None => Err(
                                CompileError::UndeclaredIdentifier(ident.content.clone()),
                            ),
                            Some(SymbolsEntry::Const(_)) => Err(CompileError::ConstantAssignment),
                            Some(SymbolsEntry::Variable(_)) => {
                                match exp.build(program, my_ir_generator_info) {
                                    Err(e) => {
                                        rollback(program, f, n_vals, n_insts);
                                        proof {
                                            assert(cur_fd(*program, i0).values@ =~= cur_fd(
                                                p0,
                                                i0,
                                            ).values@);
                                            assert(cur_fd(*program, i0).block.insts@ =~= cur_fd(
                                                p0,
                                                i0,
                                            ).block.insts@);
                                            assert(cur_fd(p0, i0).values@.is_prefix_of(
                                                cur_fd(p0, i0).values@,
                                            ));
                                            assert(cur_fd(p0, i0).block.insts@.is_prefix_of(
                                                cur_fd(p0, i0).block.insts@,
                                            ));
                                        }
                                        return Err(e);
                                    },
                                    Ok(()) => {},
                                }
                                let ghost p1 = *program;
                                let ghost i1 = *my_ir_generator_info;
                                let v = my_ir_generator_info.curr_value.unwrap();
                                my_ir_generator_info.curr_symbols.declare(
                                    ident.content.clone(),
                                    SymbolsEntry::Variable(v),
                                );
                                proof {
                                    lemma_step_env(p0, i0, p1, i1);
                                    lemma_abs_env_insert(
                                        i1.curr_symbols@,
                                        cur_fd(p1, i1).values@,
                                        ident.content@,
                                        SymbolsEntry::Variable(v),
                                    );
                                    lemma_collect_preserved(p0, i0, p1);
                                }
                                Ok(())
                            },
                        }
                    },
                }
            },
        }
    }
}

impl BlockItem {
    /// Lowers one block item.
    #[verifier::rlimit(50)]
    #[verifier::spinoff_prover]
    pub fn build(
        &self,
        program: &mut Program,
        my_ir_generator_info: &mut MyIRGeneratorInfo,
    ) -> (r: Result<(), CompileError>)
        requires
            gen_inv(*old(program), *old(my_ir_generator_info)),
            old(my_ir_generator_info).tmp_constants is None,
        ensures
            gen_inv(*final(program), *final(my_ir_generator_info)),
            final(my_ir_generator_info).curr_func == old(my_ir_generator_info).curr_func,
            final(my_ir_generator_info).tmp_constants is None,
            prog_extends(*old(program), *final(program), *old(my_ir_generator_info)),
            match self.sem(
                SemState {
                    env: sem_env_of(*old(program), *old(my_ir_generator_info)),
                    rets: collect_returns(cur_fd(*old(program), *old(my_ir_generator_info))),
                },
            ) {
                Ok(st2) => {
                    &&& r is Ok
                    &&& abs_env(
                        final(my_ir_generator_info).curr_symbols@,
                        cur_fd(*final(program), *old(my_ir_generator_info)).values@,
                    ) == st2.env
                    &&& collect_returns(cur_fd(*final(program), *old(my_ir_generator_info)))
                        == st2.rets
                },
                Err(e) => r == Err::<(), CompileError>(e),
            },
    {
        let ghost p0 = *program;
        let ghost i0 = *my_ir_generator_info;
        match self {
            BlockItem::Decl(decl) => {
                let r = decl.build(program, my_ir_generator_info);
                proof {
                    if r is Ok {
                        lemma_collect_preserved(p0, i0, *program);
                    }
                }
                r
            },
            BlockItem::Stmt(stmt) => stmt.build(program, my_ir_generator_info),
        }
    }
}

/// Lowers a sequence of block items, left to right.
#[verifier::rlimit(50)]
#[verifier::spinoff_prover]
fn build_block_items(
    items: &Vec<BlockItem>,
    program: &mut Program,
    my_ir_generator_info: &mut MyIRGeneratorInfo,
) -> (r: Result<(), CompileError>)
    requires
        gen_inv(*old(program), *old(my_ir_generator_info)),
        old(my_ir_generator_info).tmp_constants is None,
    ensures
        gen_inv(*final(program), *final(my_ir_generator_info)),
        final(my_ir_generator_info).curr_func == old(my_ir_generator_info).curr_func,
        final(my_ir_generator_info).tmp_constants is None,
        prog_extends(*old(program), *final(program), *old(my_ir_generator_info)),
        match block_items_sem(
            items@,
            SemState {
                env: sem_env_of(*old(program), *old(my_ir_generator_info)),
                rets: collect_returns(cur_fd(*old(program), *old(my_ir_generator_info))),
            },
        ) {
            Ok(st2) => {
                &&& r is Ok
                &&& abs_env(
                    final(my_ir_generator_info).curr_symbols@,
                    cur_fd(*final(program), *old(my_ir_generator_info)).values@,
                ) == st2.env
                &&& collect_returns(cur_fd(*final(program), *old(my_ir_generator_info)))
                    == st2.rets
            },
            Err(e) => r == Err::<(), CompileError>(e),
        },
{
    proof {
        assert(items@.skip(0) =~= items@);
    }
    let mut i: usize = 0;
    while i < items.len()
        invariant
            gen_inv(*program, *my_ir_generator_info),
            gen_inv(*old(program), *old(my_ir_generator_info)),
            i <= items.len(),
            my_ir_generator_info.curr_func == old(my_ir_generator_info).curr_func,
            my_ir_generator_info.tmp_constants is None,
            prog_extends(*old(program), *program, *old(my_ir_generator_info)),
            block_items_sem(
                items@,
                SemState {
                    env: sem_env_of(*old(program), *old(my_ir_generator_info)),
                    rets: collect_returns(cur_fd(*old(program), *old(my_ir_generator_info))),
                },
            ) == block_items_sem(
                items@.skip(i as int),
                SemState {
                    env: abs_env(
                        my_ir_generator_info.curr_symbols@,
                        cur_fd(*program, *old(my_ir_generator_info)).values@,
                    ),
                    rets: collect_returns(cur_fd(*program, *old(my_ir_generator_info))),
                },
            ),
        decreases items.len() - i,
    {
        let ghost pc = *program;
        let ghost ic = *my_ir_generator_info;
        let rr = items[i].build(program, my_ir_generator_info);
        proof {
            assert(items@.skip(i as int)[0] == items@[i as int]);
            assert(items@.skip(i as int).skip(1) =~= items@.skip(i as int + 1));
            lemma_prog_extends_trans(*old(program), pc, *program, *old(my_ir_generator_info), ic);
        }
        match rr {
            Err(e) => {
                return Err(e);
            },
            Ok(()) => {},
        }
        i = i + 1;
    }
    proof {
        assert(items@.skip(items@.len() as int) =~= Seq::<BlockItem>::empty());
    }
    Ok(())
}

impl Block {
    /// Lowers a block, item by item.
    pub fn build(
        &self,
        program: &mut Program,
        my_ir_generator_info: &mut MyIRGeneratorInfo,
    ) -> (r: Result<(), CompileError>)
        requires
            gen_inv(*old(program), *old(my_ir_generator_info)),
            old(my_ir_generator_info).tmp_constants is None,
        ensures
            gen_inv(*final(program), *final(my_ir_generator_info)),
            final(my_ir_generator_info).curr_func == old(my_ir_generator_info).curr_func,
            final(my_ir_generator_info).tmp_constants is None,
            prog_extends(*old(program), *final(program), *old(my_ir_generator_info)),
            match block_items_sem(
                self.items_seq(),
                SemState {
                    env: sem_env_of(*old(program), *old(my_ir_generator_info)),
                    rets: collect_returns(cur_fd(*old(program), *old(my_ir_generator_info))),
                },
            ) {
                Ok(st2) => {
                    &&& r is Ok
                    &&& abs_env(
                        final(my_ir_generator_info).curr_symbols@,
                        cur_fd(*final(program), *old(my_ir_generator_info)).values@,
                    ) == st2.env
                    &&& collect_returns(cur_fd(*final(program), *old(my_ir_generator_info)))
                        == st2.rets
                },
                Err(e) => r == Err::<(), CompileError>(e),
            },
    {
        match self {
            Block::Block(block_items) => build_block_items(
                block_items,
                program,
                my_ir_generator_info,
            ),
        }
    }
}

impl FuncDef {
    /// Lowers a function definition: checks the return type, creates the
    /// function with its sigil-prefixed name and single entry block, then
    /// lowers the body into it.
    #[verifier::rlimit(50)]
    #[verifier::spinoff_prover]
    pub fn build(
        &self,
        program: &mut Program,
        my_ir_generator_info: &mut MyIRGeneratorInfo,
    ) -> (r: Result<(), CompileError>)
        requires
            old(my_ir_generator_info).tmp_constants is None,
            old(my_ir_generator_info).curr_symbols@ == Map::<Seq<char>, SymbolsEntry>::empty(),
        ensures
            match self.sem() {
                Ok(st) => {
                    &&& r is Ok
                    &&& final(program).funcs@.len() == old(program).funcs@.len() + 1
                    &&& forall|j: int|
                        0 <= j < old(program).funcs@.len() ==> final(program).funcs@[j] == old(
                            program,
                        ).funcs@[j]
                    &&& fd_wf(final(program).funcs@[old(program).funcs@.len() as int])
                    &&& final(program).funcs@[old(program).funcs@.len() as int].name@ == "@"@
                        + self.func_id@
                    &&& final(program).funcs@[old(program).funcs@.len() as int].ret_type
                        == IrType::Int32
                    &&& collect_returns(final(program).funcs@[old(program).funcs@.len() as int])
                        == st.rets
                },
                Err(e) => r == Err::<(), CompileError>(e),
            },
    {
        let int_name = String::from_str("int");
        if !(self.return_type.name == int_name) {
            return Err(CompileError::UnsupportedConstruct);
        }
        let mut fname = String::from_str("@");
        fname.append(self.func_id.as_str());
        let ghost p0 = *program;
        program.funcs.push(
            FunctionData {
                name: fname,
                ret_type: IrType::Int32,
                values: Vec::new(),
                block: BasicBlock { insts: Vec::new() },
            },
        );
        let f = program.funcs.len() - 1;
        my_ir_generator_info.curr_func = Some(f);
        let ghost p1 = *program;
        let ghost i1 = *my_ir_generator_info;
        proof {
            reveal_strlit("@");
            assert(cur_fd(p1, i1).name@.len() >= 1);
            assert(abs_env(i1.curr_symbols@, cur_fd(p1, i1).values@) =~= Map::<
                Seq<char>,
                SemEntry,
            >::empty());
        }
        match self.block.build(program, my_ir_generator_info) {
            Err(e) => Err(e),
            Ok(()) => Ok(()),
        }
    }
}

impl CompUnit {
    /// Lowers a whole compilation unit: its single function definition.
    pub fn build(
        &self,
        program: &mut Program,
        my_ir_generator_info: &mut MyIRGeneratorInfo,
    ) -> (r: Result<(), CompileError>)
        requires
            old(my_ir_generator_info).tmp_constants is None,
            old(my_ir_generator_info).curr_symbols@ == Map::<Seq<char>, SymbolsEntry>::empty(),
        ensures
            match self.sem() {
                Ok(st) => {
                    &&& r is Ok
                    &&& final(program).funcs@.len() == old(program).funcs@.len() + 1
                    &&& forall|j: int|
                        0 <= j < old(program).funcs@.len() ==> final(program).funcs@[j] == old(
                            program,
                        ).funcs@[j]
                    &&& fd_wf(final(program).funcs@[old(program).funcs@.len() as int])
                    &&& final(program).funcs@[old(program).funcs@.len() as int].name@ == "@"@
                        + self.func_def.func_id@
                    &&& final(program).funcs@[old(program).funcs@.len() as int].ret_type
                        == IrType::Int32
                    &&& collect_returns(final(program).funcs@[old(program).funcs@.len() as int])
                        == st.rets
                },
                Err(e) => r == Err::<(), CompileError>(e),
            },
    {
        self.func_def.build(program, my_ir_generator_info)
    }
}

/// Lowers a compilation unit into a fresh IR program: on success the
/// program holds exactly one well-formed function whose return instructions
/// carry, in order, the values the source program returns.
pub fn generate_ir(comp_unit: &CompUnit) -> (r: Result<Program, CompileError>)
    ensures
        match r {
            Ok(p) => {
                &&& comp_unit.sem() is Ok
                &&& p.funcs@.len() == 1
                &&& fd_wf(p.funcs@[0])
                &&& p.funcs@[0].name@ == "@"@ + comp_unit.func_def.func_id@
                &&& p.funcs@[0].ret_type == IrType::Int32
                &&& collect_returns(p.funcs@[0]) == comp_unit.sem()->Ok_0.rets
            },
            Err(e) => comp_unit.sem() == Err::<SemState, CompileError>(e),
        },
{
    let mut program = Program::new();
    let mut my_ir_generator_info = MyIRGeneratorInfo {
        curr_func: None,
        curr_value: None,
        curr_symbols: SymbolTable::new(),
        tmp_constants: None,
    };
    match comp_unit.build(&mut program, &mut my_ir_generator_info) {
        Err(e) => Err(e),
        Ok(()) => Ok(program),
    }
}

} // verus!
