//! Expression nodes of the abstract syntax tree.
//!
//! The layering mirrors C operator precedence:
//!
//! Exp         ::= LOrExp;
//! PrimaryExp  ::= "(" Exp ")" | Number | LVal;
//! UnaryExp    ::= PrimaryExp | ("+" | "-" | "!") UnaryExp;
//! MulExp      ::= UnaryExp | MulExp ("*" | "/" | "%") UnaryExp;
//! AddExp      ::= MulExp | AddExp ("+" | "-") MulExp;
//! RelExp      ::= AddExp | RelExp ("<" | ">" | "<=" | ">=") AddExp;
//! EqExp       ::= RelExp | EqExp ("==" | "!=") RelExp;
//! LAndExp     ::= EqExp | LAndExp "&&" EqExp;
//! LOrExp      ::= LAndExp | LOrExp "||" LAndExp;

use crate::ast::statements::{LVal, Number};
use vstd::prelude::*;

verus! {

/// A full expression.
#[derive(Debug)]
pub enum Exp {
    LOrExp(LOrExp),
}

/// A unary expression.
#[derive(Debug)]
pub enum UnaryExp {
    PrimaryExp(PrimaryExp),
    PlusUnaryExp(Box<UnaryExp>),
    MinusUnaryExp(Box<UnaryExp>),
    NotUnaryExp(Box<UnaryExp>),
}

/// A primary expression.
#[derive(Debug)]
pub enum PrimaryExp {
    BracedExp(Box<Exp>),
    Number(Number),
    LVal(LVal),
}

/// A multiplicative expression.
#[derive(Debug)]
pub enum MulExp {
    UnaryExp(UnaryExp),
    BinaryMulExp(Box<MulExp>, UnaryExp),
    BinaryDivExp(Box<MulExp>, UnaryExp),
    BinaryModExp(Box<MulExp>, UnaryExp),
}

/// An additive expression.
#[derive(Debug)]
pub enum AddExp {
    MulExp(MulExp),
    BinaryAddExp(Box<AddExp>, MulExp),
    BinarySubExp(Box<AddExp>, MulExp),
}

/// A logical-or expression.
#[derive(Debug)]
pub enum LOrExp {
    LAndExp(LAndExp),
    BinaryLOrExp(Box<LOrExp>, LAndExp),
}

/// A logical-and expression.
#[derive(Debug)]
pub enum LAndExp {
    EqExp(EqExp),
    BinaryLAndExp(Box<LAndExp>, EqExp),
}

/// An equality expression.
#[derive(Debug)]
pub enum EqExp {
    RelExp(RelExp),
    BinaryEqExp(Box<EqExp>, RelExp),
    BinaryNotEqExp(Box<EqExp>, RelExp),
}

/// A relational expression.
#[derive(Debug)]
pub enum RelExp {
    AddExp(AddExp),
    BinaryLtRelExp(Box<RelExp>, AddExp),
    BinaryGtRelExp(Box<RelExp>, AddExp),
    BinaryLeRelExp(Box<RelExp>, AddExp),
    BinaryGeRelExp(Box<RelExp>, AddExp),
}

} // verus!
