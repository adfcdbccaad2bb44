//! Declaration and statement nodes of the abstract syntax tree.

use crate::ast::exp::Exp;
use vstd::prelude::*;

verus! {

/// A whole compilation unit: exactly one function definition.
#[derive(Debug)]
pub struct CompUnit {
    pub func_def: FuncDef,
}

/// A function definition: return type, name and body.
#[derive(Debug)]
pub struct FuncDef {
    pub return_type: BType,
    pub func_id: String,
    pub block: Block,
}

/// A base type, spelled out as it appeared in the source (only "int" is
/// supported).
#[derive(Debug)]
pub struct BType {
    pub name: String,
}

/// A declaration: either a `const` declaration or a variable declaration.
#[derive(Debug)]
pub enum Decl {
    ConstDecl(ConstDecl),
    VarDecl(VarDecl),
}

/// A `const` declaration: a base type and one or more definitions.
#[derive(Debug)]
pub enum ConstDecl {
    ConstDecl(BType, Vec<ConstDef>),
}

/// One `const` definition: the identifier and its initializer.
#[derive(Debug)]
pub enum ConstDef {
    ConstDef(IDENT, ConstInitVal),
}

/// An identifier.
#[derive(Debug)]
pub struct IDENT {
    pub content: String,
}

/// The initializer of a `const` definition.
#[derive(Debug)]
pub enum ConstInitVal {
    ConstExp(ConstExp),
}

/// An expression that must be evaluable at compile time.
#[derive(Debug)]
pub enum ConstExp {
    Exp(Exp),
}

/// A left value: currently a bare identifier.
#[derive(Debug)]
pub enum LVal {
    IDENT(IDENT),
}

/// A variable declaration: a base type and one or more definitions.
#[derive(Debug)]
pub enum VarDecl {
    VarDecl(BType, Vec<VarDef>),
}

/// One variable definition, with or without an initializer.
#[derive(Debug)]
pub enum VarDef {
    VarDef(IDENT, InitVal),
    IDENT(IDENT),
}

/// The initializer of a variable definition.
#[derive(Debug)]
pub enum InitVal {
    Exp(Exp),
}

/// A brace-enclosed block of declarations and statements.
#[derive(Debug)]
pub enum Block {
    Block(Vec<BlockItem>),
}

/// One item of a block.
#[derive(Debug)]
pub enum BlockItem {
    Decl(Decl),
    Stmt(Stmt),
}

/// A statement: `return` or assignment.
#[derive(Debug)]
pub enum Stmt {
    ReturnStmt(Exp),
    AssignStmt(LVal, Exp),
}

/// An integer literal.
#[derive(Debug)]
pub enum Number {
    IntConst(i32),
}

} // verus!
