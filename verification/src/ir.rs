//! The basic-block intermediate representation produced by lowering and
//! consumed by code generation.
//!
//! A function owns an arena of value definitions (`values`); a value is named
//! by its [`Value`] handle, an index into that arena. The function's single
//! basic block lists, in execution order, the handles of the instructions that
//! actually execute (binary operations and returns; integer literals live only
//! in the arena). A handle is always defined before any use: the operands of a
//! definition have strictly smaller indices.

use crate::errors::CompileError;
use crate::semantics::eval_binop;
use vstd::prelude::*;

verus! {

/// A binary IR operator. `Xor`, `Shl`, `Shr` and `Sar` are part of the IR
/// vocabulary but are not reachable from the supported grammar; code
/// generation rejects them with [`CompileError::UnsupportedOperator`].
#[derive(Debug, Clone, Copy, PartialEq, Eq, Structural)]
pub enum BinaryOp {
    NotEq,
    Eq,
    Gt,
    Lt,
    Ge,
    Le,
    Add,
    Sub,
    Mul,
    Div,
    Mod,
    And,
    Or,
    Xor,
    Shl,
    Shr,
    Sar,
}

/// The handle of a value: an index into its function's value arena, unique
/// within the function.
#[derive(Debug, Clone, Copy, PartialEq, Eq, Structural)]
pub struct Value {
    pub id: usize,
}

/// The definition of one value.
#[derive(Debug, Clone, Copy, PartialEq, Eq, Structural)]
pub enum ValueData {
    /// An integer literal.
    Integer(i32),
    /// A binary operation on two previously defined values.
    Binary(BinaryOp, Value, Value),
    /// A return, optionally carrying a previously defined value.
    Return(Option<Value>),
}

/// The return type of a function; only 32-bit integers exist in this fragment.
#[derive(Debug, Clone, Copy, PartialEq, Eq, Structural)]
pub enum IrType {
    Int32,
}

/// The single basic block of a function: instruction handles in execution
/// order.
#[derive(Debug)]
pub struct BasicBlock {
    pub insts: Vec<Value>,
}

/// One function: its (sigil-prefixed) name, return type, value arena, and
/// single entry block.
#[derive(Debug)]
pub struct FunctionData {
    pub name: String,
    pub ret_type: IrType,
    pub values: Vec<ValueData>,
    pub block: BasicBlock,
}

/// A whole IR program: its functions in definition order.
#[derive(Debug)]
pub struct Program {
    pub funcs: Vec<FunctionData>,
}

impl Program {
    /// An empty program, ready to receive functions.
    pub fn new() -> (r: Program)
        ensures
            r.funcs@ =~= Seq::<FunctionData>::empty(),
    {
        Program { funcs: Vec::new() }
    }
}

/// Whether the definition at index `i` of `vals` only references strictly
/// earlier definitions, and only ones that produce a result.
pub open spec fn value_wf(vals: Seq<ValueData>, i: int) -> bool {
    match vals[i] {
        ValueData::Integer(_) => true,
        ValueData::Binary(_, l, r) => {
            &&& l.id < i
            &&& r.id < i
            &&& !(vals[l.id as int] is Return)
            &&& !(vals[r.id as int] is Return)
        },
        ValueData::Return(ov) => match ov {
            Some(v) => v.id < i && !(vals[v.id as int] is Return),
            None => true,
        },
    }
}

/// Well-formedness of a function: the name carries its one-character sigil,
/// every arena entry references only earlier non-return definitions, and the
/// block lists only in-range handles of binary or return instructions.
pub open spec fn fd_wf(fd: FunctionData) -> bool {
    &&& fd.name@.len() >= 1
    &&& forall|i: int| 0 <= i < fd.values@.len() ==> value_wf(fd.values@, i)
    &&& forall|k: int| 0 <= k < fd.block.insts@.len() ==> {
        &&& (#[trigger] fd.block.insts@[k]).id < fd.values@.len()
        &&& !(fd.values@[fd.block.insts@[k].id as int] is Integer)
    }
}

/// The compile-time meaning of the value defined at index `id`: `Some` of the
/// 32-bit result when every reachable operation is defined, `None` when the
/// index is out of range, references are malformed, or a division by zero (or
/// an unsupported operator) occurs along the way.
pub open spec fn eval_value(vals: Seq<ValueData>, id: int) -> Option<i32>
    decreases id,
{
    if 0 <= id < vals.len() {
        match vals[id] {
            ValueData::Integer(n) => Some(n),
            ValueData::Binary(op, l, r) => {
                if l.id < id && r.id < id {
                    match (eval_value(vals, l.id as int), eval_value(vals, r.id as int)) {
                        (Some(a), Some(b)) => match eval_binop(op, a, b) {
                            Ok(v) => Some(v),
                            Err(_) => None,
                        },
                        _ => None,
                    }
                } else {
                    None
                }
            },
            ValueData::Return(_) => None,
        }
    } else {
        None
    }
}

/// Evaluation of an already defined value is unchanged when the arena grows:
/// definitions are never modified, only appended.
pub proof fn lemma_eval_value_stable(vals1: Seq<ValueData>, vals2: Seq<ValueData>, id: int)
    requires
        vals1.len() <= vals2.len(),
        vals2.subrange(0, vals1.len() as int) =~= vals1,
        id < vals1.len(),
    ensures
        eval_value(vals2, id) == eval_value(vals1, id),
    decreases id,
{
    if 0 <= id {
        assert(vals2[id] == vals1[id]);
        match vals1[id] {
            ValueData::Binary(op, l, r) => {
                if l.id < id && r.id < id {
                    lemma_eval_value_stable(vals1, vals2, l.id as int);
                    lemma_eval_value_stable(vals1, vals2, r.id as int);
                }
            },
            _ => {},
        }
    }
}

/// The return values of a function, in block order: one entry per return
/// instruction, each the evaluation of its operand (`None` also stands for a
/// value-less return, which the supported grammar never produces).
pub open spec fn collect_returns(fd: FunctionData) -> Seq<Option<i32>> {
    collect_returns_seq(fd.values@, fd.block.insts@)
}

/// Helper for [`collect_returns`]: the return values named by `insts` within
/// the arena `vals`.
pub open spec fn collect_returns_seq(vals: Seq<ValueData>, insts: Seq<Value>) -> Seq<Option<i32>>
    decreases insts.len(),
{
    if insts.len() == 0 {
        Seq::empty()
    } else {
        let rest = collect_returns_seq(vals, insts.drop_last());
        let v = insts.last();
        if 0 <= v.id < vals.len() {
            match vals[v.id as int] {
                ValueData::Return(ov) => rest.push(
                    match ov {
                        Some(rv) => eval_value(vals, rv.id as int),
                        None => None,
                    },
                ),
                _ => rest,
            }
        } else {
            rest
        }
    }
}


/// Return values already collected are unchanged when the arena grows, as
/// long as the instruction list stays the same and was well formed.
pub proof fn lemma_collect_returns_vals_extend(
    vals0: Seq<ValueData>,
    vals1: Seq<ValueData>,
    insts: Seq<Value>,
)
    requires
        vals0.is_prefix_of(vals1),
        forall|k: int| 0 <= k < insts.len() ==> (#[trigger] insts[k]).id < vals0.len(),
        forall|i: int| 0 <= i < vals0.len() ==> value_wf(vals0, i),
    ensures
        collect_returns_seq(vals1, insts) == collect_returns_seq(vals0, insts),
    decreases insts.len(),
{
    if insts.len() > 0 {
        lemma_collect_returns_vals_extend(vals0, vals1, insts.drop_last());
        let v = insts.last();
        assert(vals1.subrange(0, vals0.len() as int)[v.id as int] == vals1[v.id as int]);
        match vals0[v.id as int] {
            ValueData::Return(ov) => match ov {
                Some(rv) => {
                    assert(value_wf(vals0, v.id as int));
                    lemma_eval_value_stable(vals0, vals1, rv.id as int);
                },
                None => {},
            },
            _ => {},
        }
    }
}

/// Appending instructions that are not returns leaves the collected return
/// values unchanged.
pub proof fn lemma_collect_returns_app(vals: Seq<ValueData>, insts0: Seq<Value>, insts1: Seq<Value>)
    requires
        insts0.is_prefix_of(insts1),
        forall|k: int|
            insts0.len() <= k < insts1.len() ==> (#[trigger] insts1[k]).id < vals.len() && vals[
                insts1[k].id as int
            ] is Binary,
    ensures
        collect_returns_seq(vals, insts1) == collect_returns_seq(vals, insts0),
    decreases insts1.len(),
{
    if insts1.len() > insts0.len() {
        assert(insts0.is_prefix_of(insts1.drop_last())) by {
            assert(insts0 =~= insts1.drop_last().subrange(0, insts0.len() as int));
        }
        lemma_collect_returns_app(vals, insts0, insts1.drop_last());
    } else {
        assert(insts1 =~= insts0);
    }
}

} // verus!
