//! The abstract syntax tree consumed by IR lowering.
//!
//! The tree is produced by an external parser and is assumed to be well formed;
//! its shape follows the grammar
//!
//! CompUnit  ::= FuncDef;
//! FuncDef   ::= BType Id "(" ")" Block;
//! BType     ::= "int";
//! Block     ::= "{" {BlockItem} "}";
//! BlockItem ::= Decl | Stmt;
//! Decl      ::= ConstDecl | VarDecl;
//! ConstDecl ::= "const" BType ConstDef {"," ConstDef} ";";
//! ConstDef  ::= IDENT "=" ConstInitVal;
//! VarDecl   ::= BType VarDef {"," VarDef} ";";
//! VarDef    ::= IDENT | IDENT "=" InitVal;
//! Stmt      ::= "return" Exp ";" | LVal "=" Exp ";";
//!
//! together with the expression grammar documented in [`exp`].

pub mod exp;
pub mod statements;
