use plaia::ast::{
    if_statement, BinOp, Expr, ExprKind, FnDecl, Lit, LiteralKind, Loc, Module, Statement,
    StatementKind, Symbol, Type, TypeBind, UnOp,
};
use plaia::concrete::{
    concrete_run, concrete_stmt_cb, initial_state, tracing_concrete_stmt_cb, SimpleEvaluator,
    SimpleValue,
};
use plaia::interpret::{eval_expr, Evaluator};

fn at() -> Loc {
    Loc::new(0, 0)
}

fn sym(s: &str) -> Symbol {
    Symbol::new(String::from(s))
}

fn lit_int(v: i64) -> Expr {
    Expr { expr: ExprKind::Lit(Lit { lit: LiteralKind::LInt(v), loc: at() }), loc: at() }
}

fn var(n: &str) -> Expr {
    Expr { expr: ExprKind::Var(sym(n)), loc: at() }
}

fn un(op: UnOp, e: Expr) -> Expr {
    Expr { expr: ExprKind::Unary(op, Box::new(e)), loc: at() }
}

fn bin(op: BinOp, a: Expr, b: Expr) -> Expr {
    Expr { expr: ExprKind::Binary(op, Box::new(a), Box::new(b)), loc: at() }
}

fn call(f: &str, args: Vec<Expr>) -> Expr {
    Expr { expr: ExprKind::FunCall(sym(f), args), loc: at() }
}

fn decl_init(n: &str, ty: Type, init: Expr) -> Statement {
    Statement {
        stmt: StatementKind::VarDecl(TypeBind::new(sym(n), ty, at()), Some(init)),
        loc: at(),
    }
}

fn assign(lhs: Expr, rhs: Expr) -> Statement {
    Statement { stmt: StatementKind::Assign(lhs, rhs), loc: at() }
}

fn block(ss: Vec<Statement>) -> Statement {
    Statement { stmt: StatementKind::new_block(ss), loc: at() }
}

fn fndecl(name: &str, params: Vec<&str>, body: Statement) -> FnDecl {
    let ps = params
        .into_iter()
        .map(|p| TypeBind::new(sym(p), Type::I64, at()))
        .collect();
    FnDecl { name: sym(name), params: ps, body, loc: at() }
}

fn module_of(fns: Vec<FnDecl>) -> Module {
    Module { globals: Vec::new(), functions: fns, loc: at() }
}

fn main_module(body: Statement) -> Module {
    module_of(vec![fndecl("main", vec!["args"], body)])
}

fn run_main(body: Statement, args: Vec<i64>) -> SimpleEvaluator {
    concrete_run(main_module(body), args, 100).expect("run aborted")
}

fn lookup_int(ev: &SimpleEvaluator, n: &str) -> i64 {
    let l = ev.find_store(&sym(n)).expect("name not bound");
    match ev.find_heap(l).expect("cell missing") {
        SimpleValue::VInt(v) => v,
        other => panic!("not an integer: {:?}", other),
    }
}

fn fresh_machine() -> SimpleEvaluator {
    let m = main_module(block(vec![]));
    let (ev, _main) = initial_state(m, Vec::new()).expect("no entry point");
    ev
}

#[test]
fn pointer_write_through_deref() {
    // { let x: int = 0; let p: int* = &x; *p = *p - 13; }
    let body = block(vec![
        decl_init("x", Type::I64, lit_int(0)),
        decl_init("p", Type::Ptr(Box::new(Type::I64)), un(UnOp::Ref, var("x"))),
        assign(
            un(UnOp::Deref, var("p")),
            bin(BinOp::Sub, un(UnOp::Deref, var("p")), lit_int(13)),
        ),
    ]);
    let ev = run_main(body, vec![]);
    assert_eq!(lookup_int(&ev, "x"), -13);
}

#[test]
fn call_binds_argument_in_frame() {
    // f(a) = { let w: int = a; }; main calls f(7): while f's body runs,
    // resolving `a` in its frame yields 7.
    let f = fndecl("f", vec!["a"], block(vec![decl_init("w", Type::I64, var("a"))]));
    let main = fndecl(
        "main",
        vec!["args"],
        block(vec![decl_init("y", Type::I64, call("f", vec![lit_int(7)]))]),
    );
    let ev = concrete_run(module_of(vec![f, main]), vec![], 100).expect("run aborted");
    let mut seen = false;
    for entry in ev.trace() {
        if let Some(l) = entry.store.lookup(&sym("a")) {
            if let Some(SimpleValue::VInt(v)) = entry.heap.get(l) {
                assert_eq!(*v, 7);
                seen = true;
            }
        }
    }
    assert!(seen, "no snapshot of f's frame binds a");
}

#[test]
fn main_adds_its_two_arguments() {
    // def main(args) = { let z: int = args[0] + args[1]; } on [2, 3]
    let body = block(vec![decl_init(
        "z",
        Type::I64,
        bin(
            BinOp::Add,
            bin(BinOp::Proj, var("args"), lit_int(0)),
            bin(BinOp::Proj, var("args"), lit_int(1)),
        ),
    )]);
    let ev = run_main(body, vec![2, 3]);
    assert_eq!(lookup_int(&ev, "z"), 5);
}

#[test]
fn literal_evaluates_to_injection_without_allocation() {
    let mut ev = fresh_machine();
    // the initial heap holds exactly the return cell and the arguments
    assert!(ev.find_heap(2).is_err());
    let r = eval_expr(&mut ev, &lit_int(42), 100);
    assert_eq!(r.expect("literal aborted"), SimpleValue::VInt(42));
    // still no new cell: evaluating a literal does not touch the heap
    assert!(ev.find_heap(2).is_err());
}

#[test]
fn arithmetic_operator_table() {
    let mut ev = fresh_machine();
    let cases: Vec<(BinOp, i64, i64, i64)> = vec![
        (BinOp::Add, 2, 3, 5),
        (BinOp::Sub, 2, 5, -3),
        (BinOp::Mul, -4, 3, -12),
        (BinOp::Div, -7, 2, -3),
        (BinOp::Div, 7, -2, -3),
        (BinOp::Div, 7, 2, 3),
        (BinOp::Eq, 3, 3, 1),
        (BinOp::Neq, 3, 3, 0),
        (BinOp::Lt, 2, 3, 1),
        (BinOp::Gt, 2, 3, 0),
        (BinOp::Lte, 3, 3, 1),
        (BinOp::Gte, 2, 3, 0),
        (BinOp::And, 1, 1, 1),
        (BinOp::And, 1, 0, 0),
        (BinOp::Or, 0, 1, 1),
        (BinOp::Or, 0, 0, 0),
    ];
    for (op, a, b, want) in cases {
        let r = eval_expr(&mut ev, &bin(op, lit_int(a), lit_int(b)), 100);
        assert_eq!(r.expect("operator aborted"), SimpleValue::VInt(want), "{:?}", op);
    }
}

#[test]
fn if_true_runs_branch_if_false_is_noop() {
    let then1 = assign(var("x"), lit_int(5));
    let s1 = Statement {
        stmt: if_statement(bin(BinOp::Eq, lit_int(1), lit_int(1)), then1),
        loc: at(),
    };
    let then2 = assign(var("x"), lit_int(7));
    let s2 = Statement {
        stmt: if_statement(bin(BinOp::Eq, lit_int(1), lit_int(2)), then2),
        loc: at(),
    };
    let body = block(vec![decl_init("x", Type::I64, lit_int(0)), s1, s2]);
    let ev = run_main(body, vec![]);
    assert_eq!(lookup_int(&ev, "x"), 5);
}

#[test]
fn assigning_the_same_literal_twice_is_idempotent() {
    let body = block(vec![
        decl_init("x", Type::I64, lit_int(0)),
        assign(var("x"), lit_int(5)),
        assign(var("x"), lit_int(5)),
    ]);
    let ev = run_main(body, vec![]);
    assert_eq!(lookup_int(&ev, "x"), 5);
}

#[test]
fn deref_of_address_round_trips() {
    let body = block(vec![
        decl_init("x", Type::I64, lit_int(9)),
        decl_init("y", Type::I64, un(UnOp::Deref, un(UnOp::Ref, var("x")))),
    ]);
    let ev = run_main(body, vec![]);
    assert_eq!(lookup_int(&ev, "y"), 9);
}

#[test]
fn redeclaring_a_name_shadows_it() {
    let body = block(vec![
        decl_init("x", Type::I64, lit_int(1)),
        decl_init("x", Type::I64, lit_int(2)),
    ]);
    let ev = run_main(body, vec![]);
    assert_eq!(lookup_int(&ev, "x"), 2);
}

#[test]
fn call_result_is_the_return_cell_value() {
    // No statement ever writes the conventional return cell, so a call's
    // value is the domain's zero.
    let f = fndecl("f", vec!["a"], block(vec![decl_init("w", Type::I64, lit_int(1))]));
    let main = fndecl(
        "main",
        vec!["args"],
        block(vec![decl_init("r", Type::I64, call("f", vec![lit_int(4)]))]),
    );
    let ev = concrete_run(module_of(vec![f, main]), vec![], 100).expect("run aborted");
    assert_eq!(lookup_int(&ev, "r"), 0);
}

#[test]
fn plain_runner_records_no_trace() {
    let mut ev = fresh_machine();
    let s = block(vec![decl_init("x", Type::I64, lit_int(1))]);
    concrete_stmt_cb(&mut ev, &s, 100).expect("run aborted");
    assert_eq!(ev.trace().len(), 0);
}

#[test]
fn tracing_runner_records_each_statement() {
    let mut ev = fresh_machine();
    let s = block(vec![
        decl_init("x", Type::I64, lit_int(1)),
        assign(var("x"), lit_int(2)),
    ]);
    tracing_concrete_stmt_cb(&mut ev, &s, 100).expect("run aborted");
    // one snapshot for the block itself, one per inner statement
    assert_eq!(ev.trace().len(), 3);
}

#[test]
fn run_records_final_snapshot() {
    let body = block(vec![decl_init("x", Type::I64, lit_int(3))]);
    let ev = run_main(body, vec![]);
    // block + declaration + the final snapshot
    assert_eq!(ev.trace().len(), 3);
    let last = &ev.trace()[2];
    let l = last.store.lookup(&sym("x")).expect("x not in final snapshot");
    assert_eq!(last.heap.get(l), Some(&SimpleValue::VInt(3)));
}

#[test]
fn negate_is_zero_minus_operand() {
    let mut ev = fresh_machine();
    let r = eval_expr(&mut ev, &un(UnOp::Negate, lit_int(5)), 100);
    assert_eq!(r.expect("negate aborted"), SimpleValue::VInt(-5));
    let r2 = eval_expr(&mut ev, &un(UnOp::Negate, lit_int(-5)), 100);
    assert_eq!(r2.expect("negate aborted"), SimpleValue::VInt(5));
}

#[test]
fn if_sugar_builds_a_single_true_arm() {
    let s = assign(var("x"), lit_int(1));
    let built = if_statement(bin(BinOp::Eq, lit_int(1), lit_int(1)), s);
    match built {
        StatementKind::Case(_, arms) => {
            assert_eq!(arms.len(), 1);
            let plaia::ast::CaseBranchKind::CaseArm(pat, _) = &arms[0].branch;
            match &pat.pattern {
                plaia::ast::PatternKind::PLiteral(l) => {
                    assert_eq!(l.lit, LiteralKind::LBool(true));
                }
                other => panic!("not a literal pattern: {:?}", other),
            }
        }
        other => panic!("not a case statement: {:?}", other),
    }
}

#[test]
fn later_entry_point_wins() {
    let first = fndecl("main", vec!["args"], block(vec![decl_init("a", Type::I64, lit_int(1))]));
    let second = fndecl("main", vec!["args"], block(vec![decl_init("b", Type::I64, lit_int(2))]));
    let ev = concrete_run(module_of(vec![first, second]), vec![], 100).expect("run aborted");
    assert_eq!(lookup_int(&ev, "b"), 2);
    assert!(ev.find_store(&sym("a")).is_err());
}

#[test]
fn empty_block_is_a_noop() {
    let mut ev = fresh_machine();
    concrete_stmt_cb(&mut ev, &block(vec![]), 100).expect("empty block aborted");
    assert!(ev.find_heap(2).is_err());
}
