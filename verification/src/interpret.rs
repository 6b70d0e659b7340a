//! The evaluation engine: the capability contract a machine must offer
//! (the `Evaluator` trait) and the shared, domain-parametric recursive
//! equations for expression evaluation, lvalue resolution and statement
//! execution, proved equivalent to the definitional semantics.
use std::rc::Rc;

use vstd::prelude::*;

use crate::ast::{BinOp, CaseBranch, CaseBranchKind, Expr, ExprKind, FnDecl, Lit, PatternKind, Statement, StatementKind, Symbol, UnOp};
use crate::concrete::{SimpleAddr, ValCompute};
use crate::semantics::{
    arms_size, do_match_spec, eval_args_spec, eval_expr_spec, eval_lval_spec, expr_size,
    exprs_size, lemma_eval_args_len, lemma_run_stmt_frames, run_block_spec, run_case_spec, run_stmt_spec, stmt_size,
    stmts_size, ErrorKind, EvalError, MachineView,
};

verus! {

/// The capability contract the engine evaluates against: store and heap
/// access, allocation, frame entry and exit, operator denotation,
/// literal/location injection, pattern test, function lookup, and the
/// trace hook. Every operation's behaviour is pinned to the
/// mathematical machine state `model()`, so the engine's own contract
/// can be stated once, for every domain.
pub trait Evaluator: Sized {
    /// The domain's value representation.
    type V: ValCompute;

    /// The mathematical view of this machine's state.
    spec fn model(&self) -> MachineView<Self::V>;

    /// Resolve a name in the current frame.
    fn find_store(&self, s: &Symbol) -> (r: Result<SimpleAddr, ErrorKind>)
        ensures
            r == self.model().find_store(s@),
    ;

    /// Read a heap cell.
    fn find_heap(&self, l: SimpleAddr) -> (r: Result<Self::V, ErrorKind>)
        ensures
            r == self.model().find_heap(l),
    ;

    /// Reserve a fresh heap cell initialized to the domain's zero value
    /// and return its location. Always succeeds: the heap is unbounded.
    fn allocate(&mut self) -> (r: SimpleAddr)
        ensures
            final(self).model() == old(self).model().allocate(Self::V::spec_zero()).0,
            r == old(self).model().allocate(Self::V::spec_zero()).1,
    ;

    /// Bind or silently rebind a name to a location in the current
    /// frame.
    fn update_store(&mut self, x: &Symbol, l: SimpleAddr)
        ensures
            final(self).model() == old(self).model().update_store(x@, l),
    ;

    /// Overwrite a heap cell.
    fn update_heap(&mut self, l: SimpleAddr, v: Self::V) -> (r: Result<(), ErrorKind>)
        ensures
            final(self).model() == old(self).model().update_heap(l, v).0,
            r == old(self).model().update_heap(l, v).1,
    ;

    /// Enter a call frame: each binding allocates a fresh heap cell for
    /// its initial value before the frame becomes current.
    fn push_frame(&mut self, frame: Vec<(Symbol, Self::V)>)
        ensures
            final(self).model() == old(self).model().push_frame(
                frame@.map_values(|p: (Symbol, Self::V)| (p.0@, p.1)),
            ),
    ;

    /// Leave the current frame. Calling this with no frame on the stack
    /// is a contract violation.
    fn pop_frame(&mut self)
        requires
            old(self).model().has_frame(),
        ensures
            final(self).model() == old(self).model().pop_frame(),
    ;

    /// The heap cell that holds a function's result by convention.
    fn return_loc(&self) -> (r: SimpleAddr)
        ensures
            r == self.model().return_loc(),
    ;

    /// The denotation of a binary operator in this domain.
    fn denote(&self, o: &BinOp, e1: Self::V, e2: Self::V) -> (r: Result<Self::V, ErrorKind>)
        ensures
            r == Self::V::spec_op(*o, e1, e2),
    ;

    /// Whether a value satisfies a pattern.
    fn do_match(&self, p: &PatternKind, v: &Self::V) -> (r: Result<bool, ErrorKind>)
        ensures
            r == do_match_spec::<Self::V>(*p, *v),
    ;

    /// The injection of a literal.
    fn inj_val(&self, l: &Lit) -> (r: Self::V)
        ensures
            r == Self::V::spec_from_lit(*l),
    ;

    /// The injection of a location as a pointer value.
    fn inj_loc(&self, l: SimpleAddr) -> (r: Self::V)
        ensures
            r == Self::V::spec_from_loc(l),
    ;

    /// The location a pointer value designates, if it is one.
    fn unwrap_ptr(&self, v: Self::V) -> (r: Result<SimpleAddr, ErrorKind>)
        ensures
            r == Self::V::spec_unwrap_loc(v),
    ;

    /// Look up a declared function by name.
    fn fn_decl(&self, f: &Symbol) -> (r: Result<Rc<FnDecl>, ErrorKind>)
        ensures
            match self.model().fn_decl(f@) {
                Ok(d) => r matches Ok(rd) && *rd == d,
                Err(k) => r matches Err(k2) && k2 == k,
            },
    ;

    /// Record a snapshot of the heap and current store, when tracing is
    /// on: the hook by which a recording strategy interposes itself
    /// without touching the evaluation rules.
    fn trace_stmt(&mut self, s: &Statement)
        ensures
            final(self).model() == old(self).model().trace_stmt(*s),
    ;
}

/// Evaluate an expression on the machine `eval`. Returns exactly what
/// the definitional semantics returns and leaves the machine in exactly
/// the state the semantics prescribes. `fuel` bounds the depth of
/// nested function calls; nothing else consumes it.
pub fn eval_expr<E: Evaluator>(eval: &mut E, e: &Expr, fuel: u64) -> (r: Result<E::V, EvalError>)
    ensures
        ({
            let (st2, r2) = eval_expr_spec::<E::V>(old(eval).model(), *e, fuel as nat);
            final(eval).model() == st2 && r == r2
        }),
    decreases fuel, expr_size(*e), 0int,
{
    match &e.expr {
        ExprKind::Lit(l) => Ok(eval.inj_val(l)),
        ExprKind::Var(x) => match eval.find_store(x) {
            Ok(l) => match eval.find_heap(l) {
                Ok(v) => Ok(v),
                Err(k) => Err(EvalError { kind: k, loc: e.loc }),
            },
            Err(k) => Err(EvalError { kind: k, loc: e.loc }),
        },
        ExprKind::Unary(op, e1) => match op {
            UnOp::Ref => match eval_lval(eval, e1, fuel) {
                Ok(l) => Ok(eval.inj_loc(l)),
                Err(er) => Err(er),
            },
            UnOp::Deref => match eval_expr(eval, e1, fuel) {
                Ok(pv) => match eval.unwrap_ptr(pv) {
                    Ok(l) => match eval.find_heap(l) {
                        Ok(v) => Ok(v),
                        Err(k) => Err(EvalError { kind: k, loc: e.loc }),
                    },
                    Err(k) => Err(EvalError { kind: k, loc: e.loc }),
                },
                Err(er) => Err(er),
            },
            UnOp::Negate => match eval_expr(eval, e1, fuel) {
                Ok(v) => {
                    let z = <E::V as ValCompute>::zero();
                    match eval.denote(&BinOp::Sub, z, v) {
                        Ok(v2) => Ok(v2),
                        Err(k) => Err(EvalError { kind: k, loc: e.loc }),
                    }
                },
                Err(er) => Err(er),
            },
        },
        ExprKind::Binary(o, lhs, rhs) => match eval_expr(eval, lhs, fuel) {
            Ok(v1) => match eval_expr(eval, rhs, fuel) {
                Ok(v2) => match eval.denote(o, v1, v2) {
                    Ok(v) => Ok(v),
                    Err(k) => Err(EvalError { kind: k, loc: e.loc }),
                },
                Err(er) => Err(er),
            },
            Err(er) => Err(er),
        },
        ExprKind::FunCall(f, es) => match eval.fn_decl(f) {
            Ok(decl) => {
                if decl.params.len() != es.len() {
                    Err(EvalError { kind: ErrorKind::ArityMismatch, loc: e.loc })
                } else if fuel == 0 {
                    Err(EvalError { kind: ErrorKind::StackOverflow, loc: e.loc })
                } else {
                    match eval_args(eval, es, 0, fuel) {
                        Ok(vs) => {
                            proof {
                                lemma_eval_args_len::<E::V>(old(eval).model(), es@, 0, fuel as nat);
                            }
                            let ghost bs = Seq::new(
                                vs@.len(),
                                |i: int| (decl.params@[i].name@, vs@[i]),
                            );
                            let mut frame: Vec<(Symbol, E::V)> = Vec::new();
                            let mut i: usize = 0;
                            while i < vs.len()
                                invariant
                                    i <= vs.len(),
                                    vs.len() == decl.params.len(),
                                    frame@.len() == i as int,
                                    forall|j: int|
                                        0 <= j < i as int ==> #[trigger] frame@[j].0
                                            == decl.params@[j].name && frame@[j].1 == vs@[j],
                                decreases vs.len() - i,
                            {
                                frame.push(
                                    (decl.params[i].name.dup(), <E::V as ValCompute>::dup(&vs[i])),
                                );
                                i = i + 1;
                            }
                            proof {
                                let m = frame@.map_values(|p: (Symbol, E::V)| (p.0@, p.1));
                                assert forall|j: int| 0 <= j < m.len() implies m[j] == bs[j] by {
                                    assert(m[j] == (frame@[j].0@, frame@[j].1));
                                }
                                assert(m =~= bs);
                            }
                            eval.push_frame(frame);
                            let ghost st2 = eval.model();
                            match run_stmt(eval, &decl.body, fuel - 1) {
                                Ok(u) => {
                                    proof {
                                        let d = old(eval).model().fn_decl(f@)->Ok_0;
                                        lemma_run_stmt_frames::<E::V>(
                                            st2,
                                            d.body,
                                            (fuel - 1) as nat,
                                        );
                                    }
                                    eval.pop_frame();
                                    let rl = eval.return_loc();
                                    match eval.find_heap(rl) {
                                        Ok(v) => Ok(v),
                                        Err(k) => Err(EvalError { kind: k, loc: e.loc }),
                                    }
                                },
                                Err(er) => Err(er),
                            }
                        },
                        Err(er) => Err(er),
                    }
                }
            },
            Err(k) => Err(EvalError { kind: k, loc: e.loc }),
        },
    }
}

/// Resolve an expression as an assignment target: a variable resolves
/// to its bound location, a dereference to the location its operand
/// points at; any other shape is an invalid lvalue.
fn eval_lval<E: Evaluator>(eval: &mut E, e: &Expr, fuel: u64) -> (r: Result<
    SimpleAddr,
    EvalError,
>)
    ensures
        ({
            let (st2, r2) = eval_lval_spec::<E::V>(old(eval).model(), *e, fuel as nat);
            final(eval).model() == st2 && r == r2
        }),
    decreases fuel, expr_size(*e), 1int,
{
    match &e.expr {
        ExprKind::Var(x) => match eval.find_store(x) {
            Ok(l) => Ok(l),
            Err(k) => Err(EvalError { kind: k, loc: e.loc }),
        },
        ExprKind::Unary(op, e1) => match op {
            UnOp::Deref => match eval_expr(eval, e1, fuel) {
                Ok(pv) => match eval.unwrap_ptr(pv) {
                    Ok(l) => Ok(l),
                    Err(k) => Err(EvalError { kind: k, loc: e.loc }),
                },
                Err(er) => Err(er),
            },
            _ => Err(EvalError { kind: ErrorKind::InvalidLValue, loc: e.loc }),
        },
        _ => Err(EvalError { kind: ErrorKind::InvalidLValue, loc: e.loc }),
    }
}

/// Evaluate the argument expressions `es[i..]`, strictly left to right.
fn eval_args<E: Evaluator>(eval: &mut E, es: &Vec<Expr>, i: usize, fuel: u64) -> (r: Result<
    Vec<E::V>,
    EvalError,
>)
    ensures
        ({
            let (st2, r2) = eval_args_spec::<E::V>(old(eval).model(), es@, i as int, fuel as nat);
            final(eval).model() == st2 && (match (r, r2) {
                (Ok(vs), Ok(vs2)) => vs@ == vs2,
                (Err(a), Err(b)) => a == b,
                _ => false,
            })
        }),
    decreases fuel, exprs_size(es@, i as int), 0int,
{
    if i >= es.len() {
        Ok(Vec::new())
    } else {
        match eval_expr(eval, &es[i], fuel) {
            Ok(v) => match eval_args(eval, es, i + 1, fuel) {
                Ok(mut vs) => {
                    vs.insert(0, v);
                    proof {
                        let (st2, r2) = eval_args_spec::<E::V>(
                            old(eval).model(),
                            es@,
                            i as int,
                            fuel as nat,
                        );
                        assert(vs@ =~= r2->Ok_0);
                    }
                    Ok(vs)
                },
                Err(er) => Err(er),
            },
            Err(er) => Err(er),
        }
    }
}

/// Execute a statement on the machine `eval`: the executable twin of
/// the definitional semantics, recording a snapshot first when tracing
/// is on.
pub fn run_stmt<E: Evaluator>(eval: &mut E, s: &Statement, fuel: u64) -> (r: Result<(), EvalError>)
    ensures
        ({
            let (st2, r2) = run_stmt_spec::<E::V>(old(eval).model(), *s, fuel as nat);
            final(eval).model() == st2 && r == r2
        }),
    decreases fuel, stmt_size(*s), 0int,
{
    eval.trace_stmt(s);
    match &s.stmt {
        StatementKind::Block(ss) => run_block(eval, ss, 0, fuel),
        StatementKind::Assign(lhs, rhs) => match eval_expr(eval, rhs, fuel) {
            Ok(v) => match eval_lval(eval, lhs, fuel) {
                Ok(l) => match eval.update_heap(l, v) {
                    Ok(u) => Ok(()),
                    Err(k) => Err(EvalError { kind: k, loc: s.loc }),
                },
                Err(er) => Err(er),
            },
            Err(er) => Err(er),
        },
        StatementKind::VarDecl(tb, oe) => match oe {
            Some(exp) => match eval_expr(eval, exp, fuel) {
                Ok(v) => {
                    let l = eval.allocate();
                    eval.update_store(&tb.name, l);
                    match eval.update_heap(l, v) {
                        Ok(u) => Ok(()),
                        Err(k) => Err(EvalError { kind: k, loc: s.loc }),
                    }
                },
                Err(er) => Err(er),
            },
            None => {
                let l = eval.allocate();
                eval.update_store(&tb.name, l);
                Ok(())
            },
        },
        StatementKind::Case(discr, arms) => match eval_expr(eval, discr, fuel) {
            Ok(v) => run_case(eval, &v, arms, 0, fuel),
            Err(er) => Err(er),
        },
    }
}

/// Execute the statements `ss[i..]` in order, stopping at the first
/// abort.
fn run_block<E: Evaluator>(eval: &mut E, ss: &Vec<Statement>, i: usize, fuel: u64) -> (r: Result<
    (),
    EvalError,
>)
    ensures
        ({
            let (st2, r2) = run_block_spec::<E::V>(old(eval).model(), ss@, i as int, fuel as nat);
            final(eval).model() == st2 && r == r2
        }),
    decreases fuel, stmts_size(ss@, i as int), 0int,
{
    if i >= ss.len() {
        Ok(())
    } else {
        match run_stmt(eval, &ss[i], fuel) {
            Ok(u) => run_block(eval, ss, i + 1, fuel),
            Err(er) => Err(er),
        }
    }
}

/// Scan the arms `arms[i..]` in declared order against the evaluated
/// discriminant; the first matching arm's statement executes and the
/// scan stops.
fn run_case<E: Evaluator>(
    eval: &mut E,
    v: &E::V,
    arms: &Vec<CaseBranch>,
    i: usize,
    fuel: u64,
) -> (r: Result<(), EvalError>)
    ensures
        ({
            let (st2, r2) = run_case_spec::<E::V>(
                old(eval).model(),
                *v,
                arms@,
                i as int,
                fuel as nat,
            );
            final(eval).model() == st2 && r == r2
        }),
    decreases fuel, arms_size(arms@, i as int), 0int,
{
    if i >= arms.len() {
        Ok(())
    } else {
        match &arms[i].branch {
            CaseBranchKind::CaseArm(pat, stmt) => match eval.do_match(&pat.pattern, v) {
                Ok(b) => if b {
                    run_stmt(eval, stmt, fuel)
                } else {
                    run_case(eval, v, arms, i + 1, fuel)
                },
                Err(k) => Err(EvalError { kind: k, loc: pat.loc }),
            },
        }
    }
}

} // verus!
