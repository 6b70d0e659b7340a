use plaia::ast::{
    BinOp, CaseBranch, CaseBranchKind, Expr, ExprKind, FnDecl, Lit, LiteralKind, Loc, Module,
    Pattern, PatternKind, Statement, StatementKind, Symbol, Type, TypeBind, UnOp,
};
use plaia::concrete::{concrete_run, concrete_stmt_cb, initial_state, SimpleEvaluator};
use plaia::interpret::{eval_expr, Evaluator};
use plaia::semantics::ErrorKind;

fn at() -> Loc {
    Loc::new(0, 0)
}

fn sym(s: &str) -> Symbol {
    Symbol::new(String::from(s))
}

fn lit_int(v: i64) -> Expr {
    Expr { expr: ExprKind::Lit(Lit { lit: LiteralKind::LInt(v), loc: at() }), loc: at() }
}

fn var(n: &str) -> Expr {
    Expr { expr: ExprKind::Var(sym(n)), loc: at() }
}

fn un(op: UnOp, e: Expr) -> Expr {
    Expr { expr: ExprKind::Unary(op, Box::new(e)), loc: at() }
}

fn bin(op: BinOp, a: Expr, b: Expr) -> Expr {
    Expr { expr: ExprKind::Binary(op, Box::new(a), Box::new(b)), loc: at() }
}

fn call(f: &str, args: Vec<Expr>) -> Expr {
    Expr { expr: ExprKind::FunCall(sym(f), args), loc: at() }
}

fn decl_init(n: &str, init: Expr) -> Statement {
    Statement {
        stmt: StatementKind::VarDecl(TypeBind::new(sym(n), Type::I64, at()), Some(init)),
        loc: at(),
    }
}

fn assign(lhs: Expr, rhs: Expr) -> Statement {
    Statement { stmt: StatementKind::Assign(lhs, rhs), loc: at() }
}

fn block(ss: Vec<Statement>) -> Statement {
    Statement { stmt: StatementKind::new_block(ss), loc: at() }
}

fn fndecl(name: &str, params: Vec<&str>, body: Statement) -> FnDecl {
    let ps = params
        .into_iter()
        .map(|p| TypeBind::new(sym(p), Type::I64, at()))
        .collect();
    FnDecl { name: sym(name), params: ps, body, loc: at() }
}

fn module_of(fns: Vec<FnDecl>) -> Module {
    Module { globals: Vec::new(), functions: fns, loc: at() }
}

fn fresh_machine() -> SimpleEvaluator {
    let m = module_of(vec![fndecl("main", vec!["args"], block(vec![]))]);
    let (ev, _main) = initial_state(m, Vec::new()).expect("no entry point");
    ev
}

fn expr_error(e: Expr) -> ErrorKind {
    let mut ev = fresh_machine();
    eval_expr(&mut ev, &e, 100).expect_err("expected an abort").kind
}

fn stmt_error(s: Statement) -> ErrorKind {
    let mut ev = fresh_machine();
    concrete_stmt_cb(&mut ev, &s, 100).expect_err("expected an abort").kind
}

#[test]
fn unbound_name_aborts() {
    assert_eq!(stmt_error(assign(var("y"), lit_int(1))), ErrorKind::UnboundName);
}

#[test]
fn out_of_range_cell_aborts() {
    let ev = fresh_machine();
    assert_eq!(ev.find_heap(999), Err(ErrorKind::InvalidLocation));
}

#[test]
fn deref_of_non_pointer_aborts() {
    assert_eq!(expr_error(un(UnOp::Deref, lit_int(5))), ErrorKind::TypeMismatch);
}

#[test]
fn assignment_to_literal_aborts() {
    assert_eq!(stmt_error(assign(lit_int(5), lit_int(1))), ErrorKind::InvalidLValue);
}

#[test]
fn undeclared_function_aborts() {
    assert_eq!(expr_error(call("g", vec![])), ErrorKind::UnknownFunction);
}

#[test]
fn wrong_argument_count_aborts() {
    let f = fndecl("f", vec!["a"], block(vec![]));
    let main = fndecl(
        "main",
        vec!["args"],
        block(vec![decl_init("r", call("f", vec![lit_int(1), lit_int(2)]))]),
    );
    let er = concrete_run(module_of(vec![f, main]), vec![], 100).expect_err("expected an abort");
    assert_eq!(er.kind, ErrorKind::ArityMismatch);
}

#[test]
fn division_by_zero_aborts() {
    assert_eq!(expr_error(bin(BinOp::Div, lit_int(1), lit_int(0))), ErrorKind::DivisionByZero);
}

#[test]
fn projection_out_of_bounds_aborts() {
    let body = block(vec![decl_init("z", bin(BinOp::Proj, var("args"), lit_int(5)))]);
    let m = module_of(vec![fndecl("main", vec!["args"], body)]);
    let er = concrete_run(m, vec![1], 100).expect_err("expected an abort");
    assert_eq!(er.kind, ErrorKind::IndexOutOfRange);
}

#[test]
fn unbounded_recursion_aborts() {
    let f = fndecl("f", vec![], block(vec![decl_init("w", call("f", vec![]))]));
    let main = fndecl(
        "main",
        vec!["args"],
        block(vec![decl_init("r", call("f", vec![]))]),
    );
    let er = concrete_run(module_of(vec![f, main]), vec![], 5).expect_err("expected an abort");
    assert_eq!(er.kind, ErrorKind::StackOverflow);
}

#[test]
fn missing_entry_point_aborts() {
    let f = fndecl("f", vec!["a"], block(vec![]));
    let er = initial_state(module_of(vec![f]), Vec::new()).expect_err("expected an abort");
    assert_eq!(er.kind, ErrorKind::NoMainFunction);
}

#[test]
fn wildcard_pattern_is_unsupported() {
    let arm = CaseBranch {
        branch: CaseBranchKind::CaseArm(
            Pattern { pattern: PatternKind::PWild, loc: at() },
            Box::new(block(vec![])),
        ),
        loc: at(),
    };
    let s = Statement { stmt: StatementKind::Case(lit_int(1), vec![arm]), loc: at() };
    assert_eq!(stmt_error(s), ErrorKind::UnsupportedPattern);
}

#[test]
fn abort_carries_the_offending_span() {
    let mut ev = fresh_machine();
    let e = Expr {
        expr: ExprKind::Binary(BinOp::Div, Box::new(lit_int(1)), Box::new(lit_int(0))),
        loc: Loc::new(3, 8),
    };
    let er = eval_expr(&mut ev, &e, 100).expect_err("expected an abort");
    assert_eq!(er.loc, Loc::new(3, 8));
}
