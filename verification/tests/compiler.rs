//! End-to-end checks: lowering, constant folding, register use and the
//! emitted assembly text, observed through the library's machine model.

use sysyc::asm_builder::{generate_asm_lines, generate_riscv_asm};
use sysyc::ast::exp::{AddExp, EqExp, Exp, LAndExp, LOrExp, MulExp, PrimaryExp, RelExp, UnaryExp};
use sysyc::ast::statements::{
    BType, Block, BlockItem, CompUnit, ConstDecl, ConstDef, ConstExp, ConstInitVal, Decl, FuncDef,
    InitVal, LVal, Number, Stmt, VarDecl, VarDef, IDENT,
};
use sysyc::errors::CompileError;
use sysyc::ir::ValueData;
use sysyc::ir_builder::generate_ir;
use sysyc::symbols::{SymbolTable, SymbolsEntry};
use sysyc::target::execute_lines;

fn unary_num(n: i32) -> UnaryExp {
    UnaryExp::PrimaryExp(PrimaryExp::Number(Number::IntConst(n)))
}

fn mul_num(n: i32) -> MulExp {
    MulExp::UnaryExp(unary_num(n))
}

fn add_num(n: i32) -> AddExp {
    AddExp::MulExp(mul_num(n))
}

fn rel_num(n: i32) -> RelExp {
    RelExp::AddExp(add_num(n))
}

fn eq_num(n: i32) -> EqExp {
    EqExp::RelExp(rel_num(n))
}

fn exp_of_add(a: AddExp) -> Exp {
    Exp::LOrExp(LOrExp::LAndExp(LAndExp::EqExp(EqExp::RelExp(RelExp::AddExp(a)))))
}

fn exp_of_eq(e: EqExp) -> Exp {
    Exp::LOrExp(LOrExp::LAndExp(LAndExp::EqExp(e)))
}

fn exp_of_land(e: LAndExp) -> Exp {
    Exp::LOrExp(LOrExp::LAndExp(e))
}

fn exp_of_unary(u: UnaryExp) -> Exp {
    exp_of_add(AddExp::MulExp(MulExp::UnaryExp(u)))
}

fn exp_num(n: i32) -> Exp {
    exp_of_add(add_num(n))
}

fn ident(name: &str) -> IDENT {
    IDENT { content: name.to_string() }
}

fn lval_exp(name: &str) -> Exp {
    exp_of_unary(UnaryExp::PrimaryExp(PrimaryExp::LVal(LVal::IDENT(ident(name)))))
}

fn const_decl_item(name: &str, init: Exp) -> BlockItem {
    BlockItem::Decl(Decl::ConstDecl(ConstDecl::ConstDecl(
        BType { name: "int".to_string() },
        vec![ConstDef::ConstDef(ident(name), ConstInitVal::ConstExp(ConstExp::Exp(init)))],
    )))
}

fn var_decl_item(name: &str, init: Exp) -> BlockItem {
    BlockItem::Decl(Decl::VarDecl(VarDecl::VarDecl(
        BType { name: "int".to_string() },
        vec![VarDef::VarDef(ident(name), InitVal::Exp(init))],
    )))
}

fn main_unit(items: Vec<BlockItem>) -> CompUnit {
    CompUnit {
        func_def: FuncDef {
            return_type: BType { name: "int".to_string() },
            func_id: "main".to_string(),
            block: Block::Block(items),
        },
    }
}

fn asm_text(unit: &CompUnit) -> Vec<String> {
    let program = generate_ir(unit).expect("lowering failed");
    generate_riscv_asm(&program).expect("code generation failed")
}

fn run_a0(unit: &CompUnit) -> i32 {
    let program = generate_ir(unit).expect("lowering failed");
    let lines = generate_asm_lines(&program).expect("code generation failed");
    let regs = execute_lines(&lines);
    regs[10]
}

#[test]
fn scenario_return_literal() {
    let unit = main_unit(vec![BlockItem::Stmt(Stmt::ReturnStmt(exp_num(42)))]);
    let text = asm_text(&unit);
    assert_eq!(
        text,
        vec![
            "  .text".to_string(),
            "  .global main".to_string(),
            "main:".to_string(),
            "  li a0, 42".to_string(),
            "  ret".to_string(),
        ]
    );
    assert_eq!(run_a0(&unit), 42);
}

#[test]
fn scenario_equality_computes_one() {
    let e = EqExp::BinaryEqExp(Box::new(eq_num(1)), rel_num(1));
    let unit = main_unit(vec![BlockItem::Stmt(Stmt::ReturnStmt(exp_of_eq(e)))]);
    let text = asm_text(&unit);
    assert!(text.iter().any(|l| l.contains("xor")));
    assert!(text.iter().any(|l| l.contains("seqz")));
    assert_eq!(run_a0(&unit), 1);
}

#[test]
fn scenario_arithmetic_computes_four() {
    let e = AddExp::BinarySubExp(
        Box::new(add_num(10)),
        MulExp::BinaryMulExp(Box::new(mul_num(3)), unary_num(2)),
    );
    let unit = main_unit(vec![BlockItem::Stmt(Stmt::ReturnStmt(exp_of_add(e)))]);
    assert_eq!(run_a0(&unit), 4);
}

#[test]
fn scenario_negated_constant() {
    let neg_a = UnaryExp::MinusUnaryExp(Box::new(UnaryExp::PrimaryExp(PrimaryExp::LVal(
        LVal::IDENT(ident("a")),
    ))));
    let unit = main_unit(vec![
        const_decl_item("a", exp_num(3)),
        BlockItem::Stmt(Stmt::ReturnStmt(exp_of_unary(neg_a))),
    ]);
    assert_eq!(run_a0(&unit), -3);
}

#[test]
fn scenario_logical_and_evaluates_both_sides() {
    let lhs = LAndExp::EqExp(EqExp::RelExp(RelExp::BinaryLtRelExp(
        Box::new(rel_num(1)),
        add_num(2),
    )));
    let rhs = EqExp::RelExp(RelExp::BinaryGtRelExp(Box::new(rel_num(3)), add_num(4)));
    let e = exp_of_land(LAndExp::BinaryLAndExp(Box::new(lhs), rhs));
    let unit = main_unit(vec![BlockItem::Stmt(Stmt::ReturnStmt(e))]);
    let text = asm_text(&unit);
    // both operands are lowered: two comparison sequences appear
    assert!(text.iter().filter(|l| l.contains("snez")).count() >= 2);
    assert_eq!(run_a0(&unit), 0);
}

#[test]
fn constant_folding_matches_arithmetic() {
    // const int a = 10 - 3 * 2; folds to 4 and is inlined at its use
    let init = AddExp::BinarySubExp(
        Box::new(add_num(10)),
        MulExp::BinaryMulExp(Box::new(mul_num(3)), unary_num(2)),
    );
    let unit = main_unit(vec![
        const_decl_item("a", exp_of_add(init)),
        BlockItem::Stmt(Stmt::ReturnStmt(lval_exp("a"))),
    ]);
    let text = asm_text(&unit);
    assert!(text.contains(&"  li a0, 4".to_string()));
    assert_eq!(run_a0(&unit), 4);
}

#[test]
fn constant_folding_wraps_around() {
    // const int a = 2147483647 + 1; wraps to the minimum value
    let init = AddExp::BinaryAddExp(Box::new(add_num(2147483647)), mul_num(1));
    let unit = main_unit(vec![
        const_decl_item("a", exp_of_add(init)),
        BlockItem::Stmt(Stmt::ReturnStmt(lval_exp("a"))),
    ]);
    assert_eq!(run_a0(&unit), i32::MIN);
}

#[test]
fn constant_inlining_emits_no_load_for_the_identifier() {
    // const int a = 5; return a + 1; lowers to an addition of two literals
    let use_a = AddExp::BinaryAddExp(
        Box::new(AddExp::MulExp(MulExp::UnaryExp(UnaryExp::PrimaryExp(PrimaryExp::LVal(
            LVal::IDENT(ident("a")),
        ))))),
        mul_num(1),
    );
    let unit = main_unit(vec![
        const_decl_item("a", exp_num(5)),
        BlockItem::Stmt(Stmt::ReturnStmt(exp_of_add(use_a))),
    ]);
    let program = generate_ir(&unit).expect("lowering failed");
    let fd = &program.funcs[0];
    // the addition's left operand is the literal 5, not a variable reference
    let add = fd
        .values
        .iter()
        .find_map(|v| match v {
            ValueData::Binary(_, l, r) => Some((*l, *r)),
            _ => None,
        })
        .expect("no addition was emitted");
    assert!(matches!(fd.values[add.0.id], ValueData::Integer(5)));
    assert!(matches!(fd.values[add.1.id], ValueData::Integer(1)));
    assert_eq!(run_a0(&unit), 6);
}

#[test]
fn zero_operand_uses_hard_wired_register() {
    // return -7; lowers to Sub(0, 7): no load is emitted for the zero
    let unit = main_unit(vec![BlockItem::Stmt(Stmt::ReturnStmt(exp_of_unary(
        UnaryExp::MinusUnaryExp(Box::new(unary_num(7))),
    )))]);
    let text = asm_text(&unit);
    assert_eq!(
        text,
        vec![
            "  .text".to_string(),
            "  .global main".to_string(),
            "main:".to_string(),
            "  li t0, 7".to_string(),
            "  sub t0, x0, t0".to_string(),
            "  mv a0, t0".to_string(),
            "  ret".to_string(),
        ]
    );
    assert_eq!(run_a0(&unit), -7);
}

#[test]
fn comparison_sequences_match_source_semantics() {
    let cases: Vec<(fn(Box<RelExp>, AddExp) -> RelExp, fn(i32, i32) -> i32)> = vec![
        (RelExp::BinaryLtRelExp, |x, y| if x < y { 1 } else { 0 }),
        (RelExp::BinaryGtRelExp, |x, y| if x > y { 1 } else { 0 }),
        (RelExp::BinaryLeRelExp, |x, y| if x <= y { 1 } else { 0 }),
        (RelExp::BinaryGeRelExp, |x, y| if x >= y { 1 } else { 0 }),
    ];
    let pairs = vec![(0, 0), (1, 2), (2, 1), (-5, 5), (i32::MIN, i32::MAX), (7, 7)];
    for (build, semantics) in cases {
        for &(x, y) in &pairs {
            let e = build(Box::new(rel_num(x)), add_num(y));
            let unit = main_unit(vec![BlockItem::Stmt(Stmt::ReturnStmt(exp_of_eq(
                EqExp::RelExp(e),
            )))]);
            assert_eq!(run_a0(&unit), semantics(x, y), "comparing {} and {}", x, y);
        }
    }
}

#[test]
fn equality_sequences_match_source_semantics() {
    let pairs = vec![(0, 0), (1, 2), (i32::MIN, i32::MIN), (i32::MIN, i32::MAX)];
    for &(x, y) in &pairs {
        let e = EqExp::BinaryEqExp(Box::new(eq_num(x)), rel_num(y));
        let unit = main_unit(vec![BlockItem::Stmt(Stmt::ReturnStmt(exp_of_eq(e)))]);
        assert_eq!(run_a0(&unit), if x == y { 1 } else { 0 });
        let n = EqExp::BinaryNotEqExp(Box::new(eq_num(x)), rel_num(y));
        let unit = main_unit(vec![BlockItem::Stmt(Stmt::ReturnStmt(exp_of_eq(n)))]);
        assert_eq!(run_a0(&unit), if x != y { 1 } else { 0 });
    }
}

#[test]
fn division_truncates_toward_zero() {
    let e = MulExp::BinaryDivExp(Box::new(mul_num(-7)), unary_num(2));
    let unit = main_unit(vec![BlockItem::Stmt(Stmt::ReturnStmt(exp_of_add(
        AddExp::MulExp(e),
    )))]);
    assert_eq!(run_a0(&unit), -3);
}

#[test]
fn assignment_rebinds_a_variable() {
    let unit = main_unit(vec![
        var_decl_item("x", exp_num(1)),
        BlockItem::Stmt(Stmt::AssignStmt(LVal::IDENT(ident("x")), exp_num(2))),
        BlockItem::Stmt(Stmt::ReturnStmt(lval_exp("x"))),
    ]);
    assert_eq!(run_a0(&unit), 2);
}

#[test]
fn undeclared_identifier_is_reported() {
    let unit = main_unit(vec![BlockItem::Stmt(Stmt::ReturnStmt(lval_exp("ghost_name")))]);
    match generate_ir(&unit) {
        Err(CompileError::UndeclaredIdentifier(name)) => assert_eq!(name, "ghost_name"),
        other => panic!("expected an undeclared-identifier error, got {:?}", other),
    }
}

#[test]
fn constant_assignment_is_reported() {
    let unit = main_unit(vec![
        const_decl_item("a", exp_num(1)),
        BlockItem::Stmt(Stmt::AssignStmt(LVal::IDENT(ident("a")), exp_num(2))),
        BlockItem::Stmt(Stmt::ReturnStmt(exp_num(0))),
    ]);
    assert!(matches!(generate_ir(&unit), Err(CompileError::ConstantAssignment)));
}

#[test]
fn non_constant_initializer_is_reported() {
    let unit = main_unit(vec![
        var_decl_item("x", exp_num(1)),
        const_decl_item("b", lval_exp("x")),
        BlockItem::Stmt(Stmt::ReturnStmt(exp_num(0))),
    ]);
    assert!(matches!(generate_ir(&unit), Err(CompileError::NonConstantInitializer)));
}

#[test]
fn division_by_zero_in_initializer_is_reported() {
    let init = MulExp::BinaryDivExp(Box::new(mul_num(1)), unary_num(0));
    let unit = main_unit(vec![
        const_decl_item("a", exp_of_add(AddExp::MulExp(init))),
        BlockItem::Stmt(Stmt::ReturnStmt(exp_num(0))),
    ]);
    assert!(matches!(generate_ir(&unit), Err(CompileError::DivisionByZero)));
}

#[test]
fn uninitialized_variable_is_unsupported() {
    let unit = main_unit(vec![
        BlockItem::Decl(Decl::VarDecl(VarDecl::VarDecl(
            BType { name: "int".to_string() },
            vec![VarDef::IDENT(ident("x"))],
        ))),
        BlockItem::Stmt(Stmt::ReturnStmt(exp_num(0))),
    ]);
    assert!(matches!(generate_ir(&unit), Err(CompileError::UnsupportedConstruct)));
}

#[test]
fn wrong_return_type_is_unsupported() {
    let unit = CompUnit {
        func_def: FuncDef {
            return_type: BType { name: "void".to_string() },
            func_id: "main".to_string(),
            block: Block::Block(vec![BlockItem::Stmt(Stmt::ReturnStmt(exp_num(0)))]),
        },
    };
    assert!(matches!(generate_ir(&unit), Err(CompileError::UnsupportedConstruct)));
}

#[test]
fn negative_literal_renders_with_sign() {
    let init = AddExp::BinarySubExp(Box::new(add_num(0)), mul_num(3));
    let unit = main_unit(vec![
        const_decl_item("a", exp_of_add(init)),
        BlockItem::Stmt(Stmt::ReturnStmt(lval_exp("a"))),
    ]);
    let text = asm_text(&unit);
    assert!(text.contains(&"  li a0, -3".to_string()));
}

#[test]
fn symbol_table_shadows_and_resolves() {
    let mut table = SymbolTable::new();
    assert!(table.resolve(&"a".to_string()).is_none());
    table.declare("a".to_string(), SymbolsEntry::Const(1));
    assert!(matches!(table.resolve(&"a".to_string()), Some(SymbolsEntry::Const(1))));
    table.declare("a".to_string(), SymbolsEntry::Const(2));
    assert!(matches!(table.resolve(&"a".to_string()), Some(SymbolsEntry::Const(2))));
    assert!(table.resolve(&"b".to_string()).is_none());
}
