//! The mathematical meaning of the language fragment.
//!
//! Everything here is specification-only. Arithmetic is 32-bit two's-complement
//! wraparound; comparisons yield C-style `0`/`1`; `&&` and `||` evaluate both
//! operands (the grammar has no side effects, so this is observably equivalent
//! to short-circuiting), each normalized to a boolean by comparing against `0`.
//!
//! Three views of an expression are defined:
//! - `fold_sem`: its compile-time value inside a `const` initializer, where a
//!   reference to a variable is an error;
//! - `rt_check`: the first compile-time error (an undeclared identifier) met
//!   while lowering it outside a `const` initializer, if any;
//! - `rt_val`: its run-time value outside a `const` initializer, `None` when a
//!   division by zero makes it undefined.
//!
//! Statements transform a [`SemState`]: an environment plus the sequence of
//! values returned so far.

use crate::ast::exp::{AddExp, EqExp, Exp, LAndExp, LOrExp, MulExp, PrimaryExp, RelExp, UnaryExp};
use crate::ast::statements::{Block, BlockItem, CompUnit, ConstDecl, ConstDef, ConstExp, ConstInitVal, Decl, FuncDef, InitVal, LVal, Number, Stmt, VarDecl, VarDef};
use crate::errors::CompileError;
use crate::ir::BinaryOp;
use vstd::prelude::*;

verus! {

/// Truncated (round-toward-zero) integer division, as the source language and
/// the target machine perform it.
pub open spec fn trunc_div_int(x: int, d: int) -> int
    recommends
        d != 0,
{
    if x == 0 {
        0
    } else if x > 0 && d > 0 {
        x / d
    } else if x < 0 && d < 0 {
        (x * -1) / (d * -1)
    } else if x < 0 {
        ((x * -1) / d) * -1
    } else {
        (x / (d * -1)) * -1
    }
}

/// Remainder of truncated division: same sign as the dividend.
pub open spec fn trunc_rem_int(x: int, d: int) -> int
    recommends
        d != 0,
{
    if x == 0 {
        0
    } else if x > 0 && d > 0 {
        x % d
    } else if x < 0 && d < 0 {
        ((x * -1) % (d * -1)) * -1
    } else if x < 0 {
        ((x * -1) % d) * -1
    } else {
        x % (d * -1)
    }
}

/// 32-bit wrapping division; the one overflowing case `i32::MIN / -1` wraps
/// back to `i32::MIN`.
pub open spec fn div_wrap(a: i32, b: i32) -> i32
    recommends
        b != 0,
{
    if a == i32::MIN && b == -1 {
        i32::MIN
    } else {
        trunc_div_int(a as int, b as int) as i32
    }
}

/// 32-bit wrapping remainder; `i32::MIN % -1` is `0`.
pub open spec fn rem_wrap(a: i32, b: i32) -> i32
    recommends
        b != 0,
{
    if a == i32::MIN && b == -1 {
        0
    } else {
        trunc_rem_int(a as int, b as int) as i32
    }
}

/// The meaning of one binary IR operator on two 32-bit values: wraparound
/// arithmetic, `0`/`1` comparisons, bitwise `&`/`|`. Division by zero and the
/// operators outside the supported fragment are errors.
pub open spec fn eval_binop(op: BinaryOp, a: i32, b: i32) -> Result<i32, CompileError> {
    match op {
        BinaryOp::NotEq => Ok(if a != b { 1i32 } else { 0i32 }),
        BinaryOp::Eq => Ok(if a == b { 1i32 } else { 0i32 }),
        BinaryOp::Gt => Ok(if a > b { 1i32 } else { 0i32 }),
        BinaryOp::Lt => Ok(if a < b { 1i32 } else { 0i32 }),
        BinaryOp::Ge => Ok(if a >= b { 1i32 } else { 0i32 }),
        BinaryOp::Le => Ok(if a <= b { 1i32 } else { 0i32 }),
        BinaryOp::Add => Ok(vstd::wrapping::i32_specs::wrapping_add(a, b)),
        BinaryOp::Sub => Ok(vstd::wrapping::i32_specs::wrapping_sub(a, b)),
        BinaryOp::Mul => Ok(vstd::wrapping::i32_specs::wrapping_mul(a, b)),
        BinaryOp::Div => if b == 0 {
            Err(CompileError::DivisionByZero)
        } else {
            Ok(div_wrap(a, b))
        },
        BinaryOp::Mod => if b == 0 {
            Err(CompileError::DivisionByZero)
        } else {
            Ok(rem_wrap(a, b))
        },
        BinaryOp::And => Ok(a & b),
        BinaryOp::Or => Ok(a | b),
        BinaryOp::Xor => Err(CompileError::UnsupportedOperator),
        BinaryOp::Shl => Err(CompileError::UnsupportedOperator),
        BinaryOp::Shr => Err(CompileError::UnsupportedOperator),
        BinaryOp::Sar => Err(CompileError::UnsupportedOperator),
    }
}

/// A semantic environment entry: a compile-time constant, or a variable whose
/// current run-time value may be undefined (after a division by zero).
#[derive(Debug)]
pub enum SemEntry {
    Const(i32),
    Var(Option<i32>),
}

/// The semantic environment: identifier characters to entry.
pub type SemEnv = Map<Seq<char>, SemEntry>;

/// The state a statement sequence transforms: the environment and the values
/// of the returns executed so far, in order.
pub struct SemState {
    pub env: SemEnv,
    pub rets: Seq<Option<i32>>,
}

/// Sequencing of two folded operands under a binary operator; the left error
/// wins.
pub open spec fn fold2(
    a: Result<i32, CompileError>,
    b: Result<i32, CompileError>,
    op: BinaryOp,
) -> Result<i32, CompileError> {
    match a {
        Err(e) => Err(e),
        Ok(x) => match b {
            Err(e) => Err(e),
            Ok(y) => eval_binop(op, x, y),
        },
    }
}

/// Run-time combination of two operand values under a binary operator;
/// undefinedness propagates, and an erroring operator is undefined.
pub open spec fn rt2(a: Option<i32>, b: Option<i32>, op: BinaryOp) -> Option<i32> {
    match (a, b) {
        (Some(x), Some(y)) => match eval_binop(op, x, y) {
            Ok(v) => Some(v),
            Err(_) => None,
        },
        _ => None,
    }
}

/// The first of two possible compile-time errors.
pub open spec fn first_err(a: Option<CompileError>, b: Option<CompileError>) -> Option<
    CompileError,
> {
    if a is Some {
        a
    } else {
        b
    }
}

impl Number {
    /// The folded value of a literal is the literal.
    pub open spec fn fold_sem(self) -> Result<i32, CompileError> {
        match self {
            Number::IntConst(n) => Ok(n),
        }
    }

    /// The run-time value of a literal is the literal.
    pub open spec fn rt_val(self) -> Option<i32> {
        match self {
            Number::IntConst(n) => Some(n),
        }
    }
}

impl LVal {
    /// The identifier characters this left value names.
    pub open spec fn key(self) -> Seq<char> {
        match self {
            LVal::IDENT(id) => id.content@,
        }
    }

    /// The identifier as it will be reported in an error.
    pub open spec fn name(self) -> String {
        match self {
            LVal::IDENT(id) => id.content,
        }
    }

    /// Inside a `const` initializer an identifier must resolve to a constant.
    pub open spec fn fold_sem(self, env: SemEnv) -> Result<i32, CompileError> {
        if !env.contains_key(self.key()) {
            Err(CompileError::UndeclaredIdentifier(self.name()))
        } else {
            match env[self.key()] {
                SemEntry::Const(c) => Ok(c),
                SemEntry::Var(_) => Err(CompileError::NonConstantInitializer),
            }
        }
    }

    /// Outside a `const` initializer an identifier only needs to be declared.
    pub open spec fn rt_check(self, env: SemEnv) -> Option<CompileError> {
        if !env.contains_key(self.key()) {
            Some(CompileError::UndeclaredIdentifier(self.name()))
        } else {
            None
        }
    }

    /// A constant reads as its literal value; a variable as its current value.
    pub open spec fn rt_val(self, env: SemEnv) -> Option<i32> {
        if !env.contains_key(self.key()) {
            None
        } else {
            match env[self.key()] {
                SemEntry::Const(c) => Some(c),
                SemEntry::Var(ov) => ov,
            }
        }
    }
}

impl Exp {
    /// Opaque at use sites: statement- and declaration-level reasoning treats
    /// the value of an expression as atomic.
    #[verifier::opaque]
    pub open spec fn fold_sem(self, env: SemEnv) -> Result<i32, CompileError>
        decreases self,
    {
        match self {
            Exp::LOrExp(e) => e.fold_sem(env),
        }
    }

    /// Opaque at use sites, as [`Exp::fold_sem`] is.
    #[verifier::opaque]
    pub open spec fn rt_check(self, env: SemEnv) -> Option<CompileError>
        decreases self,
    {
        match self {
            Exp::LOrExp(e) => e.rt_check(env),
        }
    }

    /// Opaque at use sites, as [`Exp::fold_sem`] is.
    #[verifier::opaque]
    pub open spec fn rt_val(self, env: SemEnv) -> Option<i32>
        decreases self,
    {
        match self {
            Exp::LOrExp(e) => e.rt_val(env),
        }
    }
}

impl LOrExp {
    /// `||` folds as `(a != 0) | (0 != b)` on normalized booleans.
    pub open spec fn fold_sem(self, env: SemEnv) -> Result<i32, CompileError>
        decreases self,
    {
        match self {
            LOrExp::LAndExp(e) => e.fold_sem(env),
            LOrExp::BinaryLOrExp(a, b) => fold2(
                fold2((*a).fold_sem(env), Ok(0i32), BinaryOp::NotEq),
                fold2(Ok(0i32), b.fold_sem(env), BinaryOp::NotEq),
                BinaryOp::Or,
            ),
        }
    }

    pub open spec fn rt_check(self, env: SemEnv) -> Option<CompileError>
        decreases self,
    {
        match self {
            LOrExp::LAndExp(e) => e.rt_check(env),
            LOrExp::BinaryLOrExp(a, b) => first_err((*a).rt_check(env), b.rt_check(env)),
        }
    }

    pub open spec fn rt_val(self, env: SemEnv) -> Option<i32>
        decreases self,
    {
        match self {
            LOrExp::LAndExp(e) => e.rt_val(env),
            LOrExp::BinaryLOrExp(a, b) => rt2(
                rt2((*a).rt_val(env), Some(0i32), BinaryOp::NotEq),
                rt2(Some(0i32), b.rt_val(env), BinaryOp::NotEq),
                BinaryOp::Or,
            ),
        }
    }
}

impl LAndExp {
    /// `&&` folds as `(a != 0) & (0 != b)` on normalized booleans.
    pub open spec fn fold_sem(self, env: SemEnv) -> Result<i32, CompileError>
        decreases self,
    {
        match self {
            LAndExp::EqExp(e) => e.fold_sem(env),
            LAndExp::BinaryLAndExp(a, b) => fold2(
                fold2((*a).fold_sem(env), Ok(0i32), BinaryOp::NotEq),
                fold2(Ok(0i32), b.fold_sem(env), BinaryOp::NotEq),
                BinaryOp::And,
            ),
        }
    }

    pub open spec fn rt_check(self, env: SemEnv) -> Option<CompileError>
        decreases self,
    {
        match self {
            LAndExp::EqExp(e) => e.rt_check(env),
            LAndExp::BinaryLAndExp(a, b) => first_err((*a).rt_check(env), b.rt_check(env)),
        }
    }

    pub open spec fn rt_val(self, env: SemEnv) -> Option<i32>
        decreases self,
    {
        match self {
            LAndExp::EqExp(e) => e.rt_val(env),
            LAndExp::BinaryLAndExp(a, b) => rt2(
                rt2((*a).rt_val(env), Some(0i32), BinaryOp::NotEq),
                rt2(Some(0i32), b.rt_val(env), BinaryOp::NotEq),
                BinaryOp::And,
            ),
        }
    }
}

impl EqExp {
    pub open spec fn fold_sem(self, env: SemEnv) -> Result<i32, CompileError>
        decreases self,
    {
        match self {
            EqExp::RelExp(e) => e.fold_sem(env),
            EqExp::BinaryEqExp(a, b) => fold2((*a).fold_sem(env), b.fold_sem(env), BinaryOp::Eq),
            EqExp::BinaryNotEqExp(a, b) => fold2(
                (*a).fold_sem(env),
                b.fold_sem(env),
                BinaryOp::NotEq,
            ),
        }
    }

    pub open spec fn rt_check(self, env: SemEnv) -> Option<CompileError>
        decreases self,
    {
        match self {
            EqExp::RelExp(e) => e.rt_check(env),
            EqExp::BinaryEqExp(a, b) => first_err((*a).rt_check(env), b.rt_check(env)),
            EqExp::BinaryNotEqExp(a, b) => first_err((*a).rt_check(env), b.rt_check(env)),
        }
    }

    pub open spec fn rt_val(self, env: SemEnv) -> Option<i32>
        decreases self,
    {
        match self {
            EqExp::RelExp(e) => e.rt_val(env),
            EqExp::BinaryEqExp(a, b) => rt2((*a).rt_val(env), b.rt_val(env), BinaryOp::Eq),
            EqExp::BinaryNotEqExp(a, b) => rt2((*a).rt_val(env), b.rt_val(env), BinaryOp::NotEq),
        }
    }
}

impl RelExp {
    pub open spec fn fold_sem(self, env: SemEnv) -> Result<i32, CompileError>
        decreases self,
    {
        match self {
            RelExp::AddExp(e) => e.fold_sem(env),
            RelExp::BinaryLtRelExp(a, b) => fold2((*a).fold_sem(env), b.fold_sem(env), BinaryOp::Lt),
            RelExp::BinaryGtRelExp(a, b) => fold2((*a).fold_sem(env), b.fold_sem(env), BinaryOp::Gt),
            RelExp::BinaryLeRelExp(a, b) => fold2((*a).fold_sem(env), b.fold_sem(env), BinaryOp::Le),
            RelExp::BinaryGeRelExp(a, b) => fold2((*a).fold_sem(env), b.fold_sem(env), BinaryOp::Ge),
        }
    }

    pub open spec fn rt_check(self, env: SemEnv) -> Option<CompileError>
        decreases self,
    {
        match self {
            RelExp::AddExp(e) => e.rt_check(env),
            RelExp::BinaryLtRelExp(a, b) => first_err((*a).rt_check(env), b.rt_check(env)),
            RelExp::BinaryGtRelExp(a, b) => first_err((*a).rt_check(env), b.rt_check(env)),
            RelExp::BinaryLeRelExp(a, b) => first_err((*a).rt_check(env), b.rt_check(env)),
            RelExp::BinaryGeRelExp(a, b) => first_err((*a).rt_check(env), b.rt_check(env)),
        }
    }

    pub open spec fn rt_val(self, env: SemEnv) -> Option<i32>
        decreases self,
    {
        match self {
            RelExp::AddExp(e) => e.rt_val(env),
            RelExp::BinaryLtRelExp(a, b) => rt2((*a).rt_val(env), b.rt_val(env), BinaryOp::Lt),
            RelExp::BinaryGtRelExp(a, b) => rt2((*a).rt_val(env), b.rt_val(env), BinaryOp::Gt),
            RelExp::BinaryLeRelExp(a, b) => rt2((*a).rt_val(env), b.rt_val(env), BinaryOp::Le),
            RelExp::BinaryGeRelExp(a, b) => rt2((*a).rt_val(env), b.rt_val(env), BinaryOp::Ge),
        }
    }
}

impl AddExp {
    pub open spec fn fold_sem(self, env: SemEnv) -> Result<i32, CompileError>
        decreases self,
    {
        match self {
            AddExp::MulExp(e) => e.fold_sem(env),
            AddExp::BinaryAddExp(a, b) => fold2((*a).fold_sem(env), b.fold_sem(env), BinaryOp::Add),
            AddExp::BinarySubExp(a, b) => fold2((*a).fold_sem(env), b.fold_sem(env), BinaryOp::Sub),
        }
    }

    pub open spec fn rt_check(self, env: SemEnv) -> Option<CompileError>
        decreases self,
    {
        match self {
            AddExp::MulExp(e) => e.rt_check(env),
            AddExp::BinaryAddExp(a, b) => first_err((*a).rt_check(env), b.rt_check(env)),
            AddExp::BinarySubExp(a, b) => first_err((*a).rt_check(env), b.rt_check(env)),
        }
    }

    pub open spec fn rt_val(self, env: SemEnv) -> Option<i32>
        decreases self,
    {
        match self {
            AddExp::MulExp(e) => e.rt_val(env),
            AddExp::BinaryAddExp(a, b) => rt2((*a).rt_val(env), b.rt_val(env), BinaryOp::Add),
            AddExp::BinarySubExp(a, b) => rt2((*a).rt_val(env), b.rt_val(env), BinaryOp::Sub),
        }
    }
}

impl MulExp {
    pub open spec fn fold_sem(self, env: SemEnv) -> Result<i32, CompileError>
        decreases self,
    {
        match self {
            MulExp::UnaryExp(e) => e.fold_sem(env),
            MulExp::BinaryMulExp(a, b) => fold2((*a).fold_sem(env), b.fold_sem(env), BinaryOp::Mul),
            MulExp::BinaryDivExp(a, b) => fold2((*a).fold_sem(env), b.fold_sem(env), BinaryOp::Div),
            MulExp::BinaryModExp(a, b) => fold2((*a).fold_sem(env), b.fold_sem(env), BinaryOp::Mod),
        }
    }

    pub open spec fn rt_check(self, env: SemEnv) -> Option<CompileError>
        decreases self,
    {
        match self {
            MulExp::UnaryExp(e) => e.rt_check(env),
            MulExp::BinaryMulExp(a, b) => first_err((*a).rt_check(env), b.rt_check(env)),
            MulExp::BinaryDivExp(a, b) => first_err((*a).rt_check(env), b.rt_check(env)),
            MulExp::BinaryModExp(a, b) => first_err((*a).rt_check(env), b.rt_check(env)),
        }
    }

    pub open spec fn rt_val(self, env: SemEnv) -> Option<i32>
        decreases self,
    {
        match self {
            MulExp::UnaryExp(e) => e.rt_val(env),
            MulExp::BinaryMulExp(a, b) => rt2((*a).rt_val(env), b.rt_val(env), BinaryOp::Mul),
            MulExp::BinaryDivExp(a, b) => rt2((*a).rt_val(env), b.rt_val(env), BinaryOp::Div),
            MulExp::BinaryModExp(a, b) => rt2((*a).rt_val(env), b.rt_val(env), BinaryOp::Mod),
        }
    }
}

impl UnaryExp {
    /// `+` is identity, `-e` means `0 - e`, `!e` means `e == 0`.
    pub open spec fn fold_sem(self, env: SemEnv) -> Result<i32, CompileError>
        decreases self,
    {
        match self {
            UnaryExp::PrimaryExp(e) => e.fold_sem(env),
            UnaryExp::PlusUnaryExp(e) => (*e).fold_sem(env),
            UnaryExp::MinusUnaryExp(e) => fold2(Ok(0i32), (*e).fold_sem(env), BinaryOp::Sub),
            UnaryExp::NotUnaryExp(e) => fold2((*e).fold_sem(env), Ok(0i32), BinaryOp::Eq),
        }
    }

    pub open spec fn rt_check(self, env: SemEnv) -> Option<CompileError>
        decreases self,
    {
        match self {
            UnaryExp::PrimaryExp(e) => e.rt_check(env),
            UnaryExp::PlusUnaryExp(e) => (*e).rt_check(env),
            UnaryExp::MinusUnaryExp(e) => (*e).rt_check(env),
            UnaryExp::NotUnaryExp(e) => (*e).rt_check(env),
        }
    }

    pub open spec fn rt_val(self, env: SemEnv) -> Option<i32>
        decreases self,
    {
        match self {
            UnaryExp::PrimaryExp(e) => e.rt_val(env),
            UnaryExp::PlusUnaryExp(e) => (*e).rt_val(env),
            UnaryExp::MinusUnaryExp(e) => rt2(Some(0i32), (*e).rt_val(env), BinaryOp::Sub),
            UnaryExp::NotUnaryExp(e) => rt2((*e).rt_val(env), Some(0i32), BinaryOp::Eq),
        }
    }
}

impl PrimaryExp {
    pub open spec fn fold_sem(self, env: SemEnv) -> Result<i32, CompileError>
        decreases self,
    {
        match self {
            PrimaryExp::BracedExp(e) => (*e).fold_sem(env),
            PrimaryExp::Number(n) => n.fold_sem(),
            PrimaryExp::LVal(lv) => lv.fold_sem(env),
        }
    }

    pub open spec fn rt_check(self, env: SemEnv) -> Option<CompileError>
        decreases self,
    {
        match self {
            PrimaryExp::BracedExp(e) => (*e).rt_check(env),
            PrimaryExp::Number(_) => None,
            PrimaryExp::LVal(lv) => lv.rt_check(env),
        }
    }

    pub open spec fn rt_val(self, env: SemEnv) -> Option<i32>
        decreases self,
    {
        match self {
            PrimaryExp::BracedExp(e) => (*e).rt_val(env),
            PrimaryExp::Number(n) => n.rt_val(),
            PrimaryExp::LVal(lv) => lv.rt_val(env),
        }
    }
}

impl ConstExp {
    pub open spec fn fold_sem(self, env: SemEnv) -> Result<i32, CompileError> {
        match self {
            ConstExp::Exp(e) => e.fold_sem(env),
        }
    }
}

impl ConstInitVal {
    pub open spec fn fold_sem(self, env: SemEnv) -> Result<i32, CompileError> {
        match self {
            ConstInitVal::ConstExp(e) => e.fold_sem(env),
        }
    }
}

impl InitVal {
    pub open spec fn rt_check(self, env: SemEnv) -> Option<CompileError> {
        match self {
            InitVal::Exp(e) => e.rt_check(env),
        }
    }

    pub open spec fn rt_val(self, env: SemEnv) -> Option<i32> {
        match self {
            InitVal::Exp(e) => e.rt_val(env),
        }
    }
}

impl ConstDef {
    /// Folding the initializer and binding the result as a constant;
    /// redeclaration silently shadows.
    pub open spec fn sem(self, env: SemEnv) -> Result<SemEnv, CompileError> {
        match self {
            ConstDef::ConstDef(id, init) => match init.fold_sem(env) {
                Err(e) => Err(e),
                Ok(v) => Ok(env.insert(id.content@, SemEntry::Const(v))),
            },
        }
    }
}

/// The environment after a sequence of `const` definitions, left to right.
pub open spec fn const_defs_sem(defs: Seq<ConstDef>, env: SemEnv) -> Result<SemEnv, CompileError>
    decreases defs.len(),
{
    if defs.len() == 0 {
        Ok(env)
    } else {
        match defs[0].sem(env) {
            Err(e) => Err(e),
            Ok(env2) => const_defs_sem(defs.skip(1), env2),
        }
    }
}

impl VarDef {
    /// Evaluating the initializer and binding the result as a variable; a
    /// definition without an initializer is outside the supported fragment.
    pub open spec fn sem(self, env: SemEnv) -> Result<SemEnv, CompileError> {
        match self {
            VarDef::VarDef(id, init) => match init.rt_check(env) {
                Some(e) => Err(e),
                None => Ok(env.insert(id.content@, SemEntry::Var(init.rt_val(env)))),
            },
            VarDef::IDENT(_) => Err(CompileError::UnsupportedConstruct),
        }
    }
}

/// The environment after a sequence of variable definitions, left to right.
pub open spec fn var_defs_sem(defs: Seq<VarDef>, env: SemEnv) -> Result<SemEnv, CompileError>
    decreases defs.len(),
{
    if defs.len() == 0 {
        Ok(env)
    } else {
        match defs[0].sem(env) {
            Err(e) => Err(e),
            Ok(env2) => var_defs_sem(defs.skip(1), env2),
        }
    }
}

impl ConstDecl {
    pub open spec fn sem_decl(self, env: SemEnv) -> Result<SemEnv, CompileError> {
        match self {
            ConstDecl::ConstDecl(_, defs) => const_defs_sem(defs@, env),
        }
    }
}

impl VarDecl {
    pub open spec fn sem_decl(self, env: SemEnv) -> Result<SemEnv, CompileError> {
        match self {
            VarDecl::VarDecl(_, defs) => var_defs_sem(defs@, env),
        }
    }
}

impl Decl {
    pub open spec fn sem(self, env: SemEnv) -> Result<SemEnv, CompileError> {
        match self {
            Decl::ConstDecl(cd) => cd.sem_decl(env),
            Decl::VarDecl(vd) => vd.sem_decl(env),
        }
    }
}

impl Stmt {
    /// `return e` records the value of `e`; `lv = e` rebinds a declared
    /// variable and is an error on a constant or an undeclared name.
    pub open spec fn sem(self, st: SemState) -> Result<SemState, CompileError> {
        match self {
            Stmt::ReturnStmt(e) => match e.rt_check(st.env) {
                Some(er) => Err(er),
                None => Ok(SemState { env: st.env, rets: st.rets.push(e.rt_val(st.env)) }),
            },
            Stmt::AssignStmt(lv, e) => if !st.env.contains_key(lv.key()) {
                Err(CompileError::UndeclaredIdentifier(lv.name()))
            } else {
                match st.env[lv.key()] {
                    SemEntry::Const(_) => Err(CompileError::ConstantAssignment),
                    SemEntry::Var(_) => match e.rt_check(st.env) {
                        Some(er) => Err(er),
                        None => Ok(
                            SemState {
                                env: st.env.insert(lv.key(), SemEntry::Var(e.rt_val(st.env))),
                                rets: st.rets,
                            },
                        ),
                    },
                }
            },
        }
    }
}

impl BlockItem {
    pub open spec fn sem(self, st: SemState) -> Result<SemState, CompileError> {
        match self {
            BlockItem::Decl(d) => match d.sem(st.env) {
                Err(e) => Err(e),
                Ok(env2) => Ok(SemState { env: env2, rets: st.rets }),
            },
            BlockItem::Stmt(s) => s.sem(st),
        }
    }
}

/// The state after a sequence of block items, left to right.
pub open spec fn block_items_sem(items: Seq<BlockItem>, st: SemState) -> Result<
    SemState,
    CompileError,
>
    decreases items.len(),
{
    if items.len() == 0 {
        Ok(st)
    } else {
        match items[0].sem(st) {
            Err(e) => Err(e),
            Ok(st2) => block_items_sem(items.skip(1), st2),
        }
    }
}

impl Block {
    /// The items of the block, in order.
    pub open spec fn items_seq(self) -> Seq<BlockItem> {
        match self {
            Block::Block(items) => items@,
        }
    }
}

impl FuncDef {
    /// The meaning of the single function: its return type must be `int`, and
    /// its body runs from an empty environment with no returns yet.
    pub open spec fn sem(self) -> Result<SemState, CompileError> {
        if self.return_type.name@ != "int"@ {
            Err(CompileError::UnsupportedConstruct)
        } else {
            match self.block {
                Block::Block(items) => block_items_sem(
                    items@,
                    SemState { env: Map::empty(), rets: Seq::empty() },
                ),
            }
        }
    }
}

impl CompUnit {
    /// The meaning of the whole compilation unit.
    pub open spec fn sem(self) -> Result<SemState, CompileError> {
        self.func_def.sem()
    }
}

} // verus!
