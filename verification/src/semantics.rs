//! The definitional semantics: a mathematical view of the evaluator's
//! state (heap, frame stack, declarations, trace) and the big-step
//! equations for expressions and statements, stated as specification
//! functions. The executable engine in `interpret` is proved equivalent
//! to these equations.
use vstd::prelude::*;

use crate::ast::{BinOp, CaseBranch, CaseBranchKind, Expr, ExprKind, FnDecl, Lit, Loc, PatternKind, Statement, StatementKind, Symbol, UnOp};
use crate::concrete::{SimpleAddr, ValCompute};

verus! {

/// The conditions under which a run aborts. All of them are
/// unrecoverable: evaluation stops at the first one.
#[derive(Debug, Clone, Copy, PartialEq, Eq, Structural)]
pub enum ErrorKind {
    /// A name was resolved that the current frame does not bind.
    UnboundName,
    /// A heap cell outside the allocated range was read or written.
    InvalidLocation,
    /// A value of the wrong shape met an operator (for example, a
    /// non-pointer was dereferenced).
    TypeMismatch,
    /// An expression that is not a variable or a dereference stood in
    /// assignment-target position.
    InvalidLValue,
    /// A call named a function that the module does not declare.
    UnknownFunction,
    /// A call passed more or fewer arguments than the callee declares.
    ArityMismatch,
    /// An integer division had a zero divisor.
    DivisionByZero,
    /// A projection indexed a tuple or vector outside its bounds.
    IndexOutOfRange,
    /// The evaluated program exceeded the call-depth bound.
    StackOverflow,
    /// The module declares no entry point named "main".
    NoMainFunction,
    /// A case arm used a pattern shape that evaluation does not support
    /// (wildcard or binding patterns are declared but not evaluated).
    UnsupportedPattern,
}

/// An abort, carrying the source span of the offending node.
#[derive(Debug, Clone, Copy, PartialEq, Eq, Structural)]
pub struct EvalError {
    pub kind: ErrorKind,
    pub loc: Loc,
}

/// One recorded snapshot: the whole heap, the current frame's bindings,
/// and the span of the statement about to execute.
pub type TraceView<V> = Seq<(Seq<V>, Map<Seq<char>, SimpleAddr>, Loc)>;

/// The mathematical view of an evaluator's state. The heap maps
/// locations (indices) to values; each frame maps names to locations;
/// the declaration table maps names to function declarations.
#[verifier::ext_equal]
pub struct MachineView<V> {
    pub heap: Seq<V>,
    pub frames: Seq<Map<Seq<char>, SimpleAddr>>,
    pub decls: Map<Seq<char>, FnDecl>,
    pub tracing: bool,
    pub trace: TraceView<V>,
}

/// The store a fresh frame starts with: each binding in order is given
/// the next heap location starting at `base`; a name bound twice keeps
/// its later (rightmost) location.
pub open spec fn frame_store<V>(bs: Seq<(Seq<char>, V)>, base: int) -> Map<Seq<char>, SimpleAddr>
    decreases bs.len(),
{
    if bs.len() == 0 {
        Map::empty()
    } else {
        frame_store(bs.drop_last(), base).insert(bs.last().0, (base + bs.len() - 1) as usize)
    }
}

impl<V> MachineView<V> {
    /// There is a current frame to resolve names in.
    pub open spec fn has_frame(self) -> bool {
        self.frames.len() > 0
    }

    /// The top of the frame stack: the store names resolve in.
    pub open spec fn cur_store(self) -> Map<Seq<char>, SimpleAddr> {
        self.frames.last()
    }

    /// Resolve a name in the current frame.
    pub open spec fn find_store(self, x: Seq<char>) -> Result<SimpleAddr, ErrorKind> {
        if self.has_frame() && self.cur_store().contains_key(x) {
            Ok(self.cur_store()[x])
        } else {
            Err(ErrorKind::UnboundName)
        }
    }

    /// Read a heap cell.
    pub open spec fn find_heap(self, l: SimpleAddr) -> Result<V, ErrorKind> {
        if l < self.heap.len() {
            Ok(self.heap[l as int])
        } else {
            Err(ErrorKind::InvalidLocation)
        }
    }

    /// Reserve a fresh heap cell holding `z` (the domain's zero value)
    /// and return its location. Always succeeds: the heap is unbounded.
    pub open spec fn allocate(self, z: V) -> (MachineView<V>, SimpleAddr) {
        (
            MachineView { heap: self.heap.push(z), ..self },
            self.heap.len() as usize,
        )
    }

    /// Bind (or silently rebind) a name to a location in the current
    /// frame.
    pub open spec fn update_store(self, x: Seq<char>, l: SimpleAddr) -> MachineView<V> {
        if self.has_frame() {
            MachineView {
                frames: self.frames.update(
                    self.frames.len() - 1,
                    self.cur_store().insert(x, l),
                ),
                ..self
            }
        } else {
            self
        }
    }

    /// Overwrite a heap cell.
    pub open spec fn update_heap(self, l: SimpleAddr, v: V) -> (MachineView<V>, Result<(), ErrorKind>) {
        if l < self.heap.len() {
            (MachineView { heap: self.heap.update(l as int, v), ..self }, Ok(()))
        } else {
            (self, Err(ErrorKind::InvalidLocation))
        }
    }

    /// Enter a call frame: every binding allocates a fresh heap cell for
    /// its initial value, then the new store becomes current.
    pub open spec fn push_frame(self, bs: Seq<(Seq<char>, V)>) -> MachineView<V> {
        MachineView {
            heap: self.heap + bs.map_values(|p: (Seq<char>, V)| p.1),
            frames: self.frames.push(frame_store(bs, self.heap.len() as int)),
            ..self
        }
    }

    /// Leave the current frame. Its heap cells are retained, unreachable
    /// through any store: the heap never shrinks.
    pub open spec fn pop_frame(self) -> MachineView<V> {
        MachineView { frames: self.frames.drop_last(), ..self }
    }

    /// The heap cell that holds a function's result by convention.
    pub open spec fn return_loc(self) -> SimpleAddr {
        0
    }

    /// Look up a declared function by name. The entry point is excluded
    /// from the table and can never be called.
    pub open spec fn fn_decl(self, f: Seq<char>) -> Result<FnDecl, ErrorKind> {
        if self.decls.contains_key(f) {
            Ok(self.decls[f])
        } else {
            Err(ErrorKind::UnknownFunction)
        }
    }

    /// Record a snapshot of the heap and the current store, tagged with
    /// `loc`, when tracing is on.
    pub open spec fn record(self, loc: Loc) -> MachineView<V> {
        if self.tracing && self.has_frame() {
            MachineView { trace: self.trace.push((self.heap, self.cur_store(), loc)), ..self }
        } else {
            self
        }
    }

    /// Record a snapshot immediately before a statement executes, when
    /// tracing is on.
    pub open spec fn trace_stmt(self, s: Statement) -> MachineView<V> {
        self.record(s.loc)
    }
}

/// Whether `v` satisfies pattern `p`: a literal pattern compares for
/// equality through the domain's operator table; the declared wildcard
/// and binding patterns are not supported by evaluation.
pub open spec fn do_match_spec<V: ValCompute>(p: PatternKind, v: V) -> Result<bool, ErrorKind> {
    match p {
        PatternKind::PLiteral(l) => match V::spec_op(
            crate::ast::BinOp::Eq,
            V::spec_from_lit(l),
            v,
        ) {
            Ok(b) => Ok(V::spec_is_true(b)),
            Err(k) => Err(k),
        },
        _ => Err(ErrorKind::UnsupportedPattern),
    }
}

/// The size of an expression tree: a numeric measure that every proper
/// subterm strictly decreases, used to ground the recursion of the
/// evaluation equations.
pub open spec fn expr_size(e: Expr) -> nat
    decreases e, 0int,
{
    match e.expr {
        ExprKind::Lit(l) => 1,
        ExprKind::Var(x) => 1,
        ExprKind::Unary(op, e1) => 1 + expr_size(*e1),
        ExprKind::Binary(o, lhs, rhs) => 1 + expr_size(*lhs) + expr_size(*rhs),
        ExprKind::FunCall(f, es) => 1 + exprs_size(es@, 0),
    }
}

/// The summed size of the expressions `es[i..]`.
pub open spec fn exprs_size(es: Seq<Expr>, i: int) -> nat
    decreases es, es.len() - i,
{
    if i < 0 || i >= es.len() {
        0
    } else {
        1 + expr_size(es[i]) + exprs_size(es, i + 1)
    }
}

/// The size of a statement tree.
pub open spec fn stmt_size(s: Statement) -> nat
    decreases s, 0int,
{
    match s.stmt {
        StatementKind::VarDecl(tb, oe) => match oe {
            Some(exp) => 1 + expr_size(exp),
            None => 1,
        },
        StatementKind::Assign(lhs, rhs) => 1 + expr_size(lhs) + expr_size(rhs),
        StatementKind::Block(ss) => 1 + stmts_size(ss@, 0),
        StatementKind::Case(discr, arms) => 1 + expr_size(discr) + arms_size(arms@, 0),
    }
}

/// The summed size of the statements `ss[i..]`.
pub open spec fn stmts_size(ss: Seq<Statement>, i: int) -> nat
    decreases ss, ss.len() - i,
{
    if i < 0 || i >= ss.len() {
        0
    } else {
        1 + stmt_size(ss[i]) + stmts_size(ss, i + 1)
    }
}

/// The summed size of the case arms `arms[i..]`.
pub open spec fn arms_size(arms: Seq<CaseBranch>, i: int) -> nat
    decreases arms, arms.len() - i,
{
    if i < 0 || i >= arms.len() {
        0
    } else {
        match arms[i].branch {
            CaseBranchKind::CaseArm(pat, stmt) => 1 + stmt_size(*stmt) + arms_size(arms, i + 1),
        }
    }
}

/// Evaluate an expression: the big-step equation. `fuel` bounds the
/// depth of nested function calls and nothing else.
pub open spec fn eval_expr_spec<V: ValCompute>(st: MachineView<V>, e: Expr, fuel: nat) -> (
    MachineView<V>,
    Result<V, EvalError>,
)
    decreases fuel, expr_size(e), 0int,
{
    match e.expr {
        ExprKind::Lit(l) => (st, Ok(V::spec_from_lit(l))),
        ExprKind::Var(x) => match st.find_store(x@) {
            Ok(l) => match st.find_heap(l) {
                Ok(v) => (st, Ok(v)),
                Err(k) => (st, Err(EvalError { kind: k, loc: e.loc })),
            },
            Err(k) => (st, Err(EvalError { kind: k, loc: e.loc })),
        },
        ExprKind::Unary(op, e1) => match op {
            UnOp::Ref => {
                let (st1, r1) = eval_lval_spec::<V>(st, *e1, fuel);
                match r1 {
                    Ok(l) => (st1, Ok(V::spec_from_loc(l))),
                    Err(er) => (st1, Err(er)),
                }
            },
            UnOp::Deref => {
                let (st1, r1) = eval_expr_spec(st, *e1, fuel);
                match r1 {
                    Ok(pv) => match V::spec_unwrap_loc(pv) {
                        Ok(l) => match st1.find_heap(l) {
                            Ok(v) => (st1, Ok(v)),
                            Err(k) => (st1, Err(EvalError { kind: k, loc: e.loc })),
                        },
                        Err(k) => (st1, Err(EvalError { kind: k, loc: e.loc })),
                    },
                    Err(er) => (st1, Err(er)),
                }
            },
            UnOp::Negate => {
                let (st1, r1) = eval_expr_spec(st, *e1, fuel);
                match r1 {
                    Ok(v) => match V::spec_op(BinOp::Sub, V::spec_zero(), v) {
                        Ok(v2) => (st1, Ok(v2)),
                        Err(k) => (st1, Err(EvalError { kind: k, loc: e.loc })),
                    },
                    Err(er) => (st1, Err(er)),
                }
            },
        },
        ExprKind::Binary(o, lhs, rhs) => {
            let (st1, r1) = eval_expr_spec(st, *lhs, fuel);
            match r1 {
                Ok(v1) => {
                    let (st2, r2) = eval_expr_spec(st1, *rhs, fuel);
                    match r2 {
                        Ok(v2) => match V::spec_op(o, v1, v2) {
                            Ok(v) => (st2, Ok(v)),
                            Err(k) => (st2, Err(EvalError { kind: k, loc: e.loc })),
                        },
                        Err(er) => (st2, Err(er)),
                    }
                },
                Err(er) => (st1, Err(er)),
            }
        },
        ExprKind::FunCall(f, es) => match st.fn_decl(f@) {
            Ok(decl) => if decl.params.len() != es.len() {
                (st, Err(EvalError { kind: ErrorKind::ArityMismatch, loc: e.loc }))
            } else if fuel == 0 {
                (st, Err(EvalError { kind: ErrorKind::StackOverflow, loc: e.loc }))
            } else {
                let (st1, r1) = eval_args_spec(st, es@, 0, fuel);
                match r1 {
                    Ok(vs) => {
                        let bs = Seq::new(vs.len(), |i: int| (decl.params@[i].name@, vs[i]));
                        let st2 = st1.push_frame(bs);
                        let (st3, r3) = run_stmt_spec::<V>(st2, decl.body, (fuel - 1) as nat);
                        match r3 {
                            Ok(u) => {
                                let st4 = st3.pop_frame();
                                match st4.find_heap(st4.return_loc()) {
                                    Ok(v) => (st4, Ok(v)),
                                    Err(k) => (st4, Err(EvalError { kind: k, loc: e.loc })),
                                }
                            },
                            Err(er) => (st3, Err(er)),
                        }
                    },
                    Err(er) => (st1, Err(er)),
                }
            },
            Err(k) => (st, Err(EvalError { kind: k, loc: e.loc })),
        },
    }
}

/// Resolve an expression as an assignment target: a variable resolves
/// to its bound location; a dereference resolves its operand as a
/// pointer value; nothing else is a valid target.
pub open spec fn eval_lval_spec<V: ValCompute>(st: MachineView<V>, e: Expr, fuel: nat) -> (
    MachineView<V>,
    Result<SimpleAddr, EvalError>,
)
    decreases fuel, expr_size(e), 1int,
{
    match e.expr {
        ExprKind::Var(x) => match st.find_store(x@) {
            Ok(l) => (st, Ok(l)),
            Err(k) => (st, Err(EvalError { kind: k, loc: e.loc })),
        },
        ExprKind::Unary(op, e1) => if op == UnOp::Deref {
            let (st1, r1) = eval_expr_spec::<V>(st, *e1, fuel);
            match r1 {
                Ok(pv) => match V::spec_unwrap_loc(pv) {
                    Ok(l) => (st1, Ok(l)),
                    Err(k) => (st1, Err(EvalError { kind: k, loc: e.loc })),
                },
                Err(er) => (st1, Err(er)),
            }
        } else {
            (st, Err(EvalError { kind: ErrorKind::InvalidLValue, loc: e.loc }))
        },
        _ => (st, Err(EvalError { kind: ErrorKind::InvalidLValue, loc: e.loc })),
    }
}

/// Evaluate the argument expressions `es[i..]`, strictly left to right,
/// threading the state through.
pub open spec fn eval_args_spec<V: ValCompute>(
    st: MachineView<V>,
    es: Seq<Expr>,
    i: int,
    fuel: nat,
) -> (MachineView<V>, Result<Seq<V>, EvalError>)
    decreases fuel, exprs_size(es, i), 0int,
{
    if i < 0 || i >= es.len() {
        (st, Ok(Seq::<V>::empty()))
    } else {
        let (st1, r1) = eval_expr_spec(st, es[i], fuel);
        match r1 {
            Ok(v) => {
                let (st2, r2) = eval_args_spec(st1, es, i + 1, fuel);
                match r2 {
                    Ok(vs) => (st2, Ok(seq![v] + vs)),
                    Err(er) => (st2, Err(er)),
                }
            },
            Err(er) => (st1, Err(er)),
        }
    }
}

/// Execute a statement: the big-step equation. A snapshot is recorded
/// first when tracing is on.
pub open spec fn run_stmt_spec<V: ValCompute>(st0: MachineView<V>, s: Statement, fuel: nat) -> (
    MachineView<V>,
    Result<(), EvalError>,
)
    decreases fuel, stmt_size(s), 0int,
{
    let st = st0.trace_stmt(s);
    match s.stmt {
        StatementKind::Block(ss) => run_block_spec::<V>(st, ss@, 0, fuel),
        StatementKind::Assign(lhs, rhs) => {
            let (st1, r1) = eval_expr_spec::<V>(st, rhs, fuel);
            match r1 {
                Ok(v) => {
                    let (st2, r2) = eval_lval_spec::<V>(st1, lhs, fuel);
                    match r2 {
                        Ok(l) => {
                            let (st3, r3) = st2.update_heap(l, v);
                            match r3 {
                                Ok(u) => (st3, Ok(())),
                                Err(k) => (st3, Err(EvalError { kind: k, loc: s.loc })),
                            }
                        },
                        Err(er) => (st2, Err(er)),
                    }
                },
                Err(er) => (st1, Err(er)),
            }
        },
        StatementKind::VarDecl(tb, oe) => match oe {
            Some(exp) => {
                let (st1, r1) = eval_expr_spec::<V>(st, exp, fuel);
                match r1 {
                    Ok(v) => {
                        let (st2, l) = st1.allocate(V::spec_zero());
                        let st3 = st2.update_store(tb.name@, l);
                        let (st4, r4) = st3.update_heap(l, v);
                        match r4 {
                            Ok(u) => (st4, Ok(())),
                            Err(k) => (st4, Err(EvalError { kind: k, loc: s.loc })),
                        }
                    },
                    Err(er) => (st1, Err(er)),
                }
            },
            None => {
                let (st1, l) = st.allocate(V::spec_zero());
                (st1.update_store(tb.name@, l), Ok(()))
            },
        },
        StatementKind::Case(discr, arms) => {
            let (st1, r1) = eval_expr_spec::<V>(st, discr, fuel);
            match r1 {
                Ok(v) => run_case_spec(st1, v, arms@, 0, fuel),
                Err(er) => (st1, Err(er)),
            }
        },
    }
}

/// Execute the statements `ss[i..]` in order, stopping at the first
/// abort. An empty block is a no-op.
pub open spec fn run_block_spec<V: ValCompute>(
    st: MachineView<V>,
    ss: Seq<Statement>,
    i: int,
    fuel: nat,
) -> (MachineView<V>, Result<(), EvalError>)
    decreases fuel, stmts_size(ss, i), 0int,
{
    if i < 0 || i >= ss.len() {
        (st, Ok(()))
    } else {
        let (st1, r1) = run_stmt_spec::<V>(st, ss[i], fuel);
        match r1 {
            Ok(u) => run_block_spec(st1, ss, i + 1, fuel),
            Err(er) => (st1, Err(er)),
        }
    }
}

/// Scan the arms `arms[i..]` in declared order against the already
/// evaluated discriminant; the first matching arm's statement executes
/// and no later arm is considered. No match is a no-op.
pub open spec fn run_case_spec<V: ValCompute>(
    st: MachineView<V>,
    v: V,
    arms: Seq<CaseBranch>,
    i: int,
    fuel: nat,
) -> (MachineView<V>, Result<(), EvalError>)
    decreases fuel, arms_size(arms, i), 0int,
{
    if i < 0 || i >= arms.len() {
        (st, Ok(()))
    } else {
        match arms[i].branch {
            CaseBranchKind::CaseArm(pat, stmt) => match do_match_spec::<V>(pat.pattern, v) {
                Ok(b) => if b {
                    run_stmt_spec::<V>(st, *stmt, fuel)
                } else {
                    run_case_spec(st, v, arms, i + 1, fuel)
                },
                Err(k) => (st, Err(EvalError { kind: k, loc: pat.loc })),
            },
        }
    }
}

/// Successful expression evaluation leaves the frame stack at its
/// starting depth: calls push and pop in balance.
pub proof fn lemma_eval_expr_frames<V: ValCompute>(st: MachineView<V>, e: Expr, fuel: nat)
    ensures
        eval_expr_spec::<V>(st, e, fuel).1 is Ok ==> eval_expr_spec::<V>(st, e, fuel).0.frames.len()
            == st.frames.len(),
    decreases fuel, expr_size(e), 0int,
{
    match e.expr {
        ExprKind::Lit(l) => {},
        ExprKind::Var(x) => {},
        ExprKind::Unary(op, e1) => match op {
            UnOp::Ref => {
                lemma_eval_lval_frames::<V>(st, *e1, fuel);
            },
            UnOp::Deref => {
                lemma_eval_expr_frames::<V>(st, *e1, fuel);
            },
            UnOp::Negate => {
                lemma_eval_expr_frames::<V>(st, *e1, fuel);
            },
        },
        ExprKind::Binary(o, lhs, rhs) => {
            lemma_eval_expr_frames::<V>(st, *lhs, fuel);
            let (st1, r1) = eval_expr_spec::<V>(st, *lhs, fuel);
            if r1 is Ok {
                lemma_eval_expr_frames::<V>(st1, *rhs, fuel);
            }
        },
        ExprKind::FunCall(f, es) => match st.fn_decl(f@) {
            Ok(decl) => if decl.params.len() == es.len() && fuel > 0 {
                lemma_eval_args_frames::<V>(st, es@, 0, fuel);
                let (st1, r1) = eval_args_spec::<V>(st, es@, 0, fuel);
                if r1 is Ok {
                    let vs = r1->Ok_0;
                    let bs = Seq::new(vs.len(), |i: int| (decl.params@[i].name@, vs[i]));
                    let st2 = st1.push_frame(bs);
                    lemma_run_stmt_frames::<V>(st2, decl.body, (fuel - 1) as nat);
                }
            },
            Err(k) => {},
        },
    }
}

/// Successful lvalue resolution leaves the frame stack at its starting
/// depth.
pub proof fn lemma_eval_lval_frames<V: ValCompute>(st: MachineView<V>, e: Expr, fuel: nat)
    ensures
        eval_lval_spec::<V>(st, e, fuel).1 is Ok ==> eval_lval_spec::<V>(st, e, fuel).0.frames.len()
            == st.frames.len(),
    decreases fuel, expr_size(e), 1int,
{
    match e.expr {
        ExprKind::Unary(op, e1) => if op == UnOp::Deref {
            lemma_eval_expr_frames::<V>(st, *e1, fuel);
        },
        _ => {},
    }
}

/// Successful argument evaluation leaves the frame stack at its
/// starting depth.
pub proof fn lemma_eval_args_frames<V: ValCompute>(
    st: MachineView<V>,
    es: Seq<Expr>,
    i: int,
    fuel: nat,
)
    ensures
        eval_args_spec::<V>(st, es, i, fuel).1 is Ok ==> eval_args_spec::<V>(
            st,
            es,
            i,
            fuel,
        ).0.frames.len() == st.frames.len(),
    decreases fuel, exprs_size(es, i), 0int,
{
    if i < 0 || i >= es.len() {
    } else {
        lemma_eval_expr_frames::<V>(st, es[i], fuel);
        let (st1, r1) = eval_expr_spec::<V>(st, es[i], fuel);
        if r1 is Ok {
            lemma_eval_args_frames::<V>(st1, es, i + 1, fuel);
        }
    }
}

/// Successful statement execution leaves the frame stack at its
/// starting depth.
pub proof fn lemma_run_stmt_frames<V: ValCompute>(st0: MachineView<V>, s: Statement, fuel: nat)
    ensures
        run_stmt_spec::<V>(st0, s, fuel).1 is Ok ==> run_stmt_spec::<V>(st0, s, fuel).0.frames.len()
            == st0.frames.len(),
    decreases fuel, stmt_size(s), 0int,
{
    let st = st0.trace_stmt(s);
    match s.stmt {
        StatementKind::Block(ss) => {
            lemma_run_block_frames::<V>(st, ss@, 0, fuel);
        },
        StatementKind::Assign(lhs, rhs) => {
            lemma_eval_expr_frames::<V>(st, rhs, fuel);
            let (st1, r1) = eval_expr_spec::<V>(st, rhs, fuel);
            if r1 is Ok {
                lemma_eval_lval_frames::<V>(st1, lhs, fuel);
            }
        },
        StatementKind::VarDecl(tb, oe) => match oe {
            Some(exp) => {
                lemma_eval_expr_frames::<V>(st, exp, fuel);
            },
            None => {},
        },
        StatementKind::Case(discr, arms) => {
            lemma_eval_expr_frames::<V>(st, discr, fuel);
            let (st1, r1) = eval_expr_spec::<V>(st, discr, fuel);
            if r1 is Ok {
                lemma_run_case_frames::<V>(st1, r1->Ok_0, arms@, 0, fuel);
            }
        },
    }
}

/// Successful block execution leaves the frame stack at its starting
/// depth.
pub proof fn lemma_run_block_frames<V: ValCompute>(
    st: MachineView<V>,
    ss: Seq<Statement>,
    i: int,
    fuel: nat,
)
    ensures
        run_block_spec::<V>(st, ss, i, fuel).1 is Ok ==> run_block_spec::<V>(
            st,
            ss,
            i,
            fuel,
        ).0.frames.len() == st.frames.len(),
    decreases fuel, stmts_size(ss, i), 0int,
{
    if i < 0 || i >= ss.len() {
    } else {
        lemma_run_stmt_frames::<V>(st, ss[i], fuel);
        let (st1, r1) = run_stmt_spec::<V>(st, ss[i], fuel);
        if r1 is Ok {
            lemma_run_block_frames::<V>(st1, ss, i + 1, fuel);
        }
    }
}

/// Successful case execution leaves the frame stack at its starting
/// depth.
pub proof fn lemma_run_case_frames<V: ValCompute>(
    st: MachineView<V>,
    v: V,
    arms: Seq<CaseBranch>,
    i: int,
    fuel: nat,
)
    ensures
        run_case_spec::<V>(st, v, arms, i, fuel).1 is Ok ==> run_case_spec::<V>(
            st,
            v,
            arms,
            i,
            fuel,
        ).0.frames.len() == st.frames.len(),
    decreases fuel, arms_size(arms, i), 0int,
{
    if i < 0 || i >= arms.len() {
    } else {
        match arms[i].branch {
            CaseBranchKind::CaseArm(pat, stmt) => match do_match_spec::<V>(pat.pattern, v) {
                Ok(b) => if b {
                    lemma_run_stmt_frames::<V>(st, *stmt, fuel);
                } else {
                    lemma_run_case_frames::<V>(st, v, arms, i + 1, fuel);
                },
                Err(k) => {},
            },
        }
    }
}

/// Successful argument evaluation yields exactly one value for each
/// remaining argument expression.
pub proof fn lemma_eval_args_len<V: ValCompute>(
    st: MachineView<V>,
    es: Seq<Expr>,
    i: int,
    fuel: nat,
)
    requires
        0 <= i <= es.len(),
    ensures
        eval_args_spec::<V>(st, es, i, fuel).1 matches Ok(vs) ==> vs.len() == es.len() - i,
    decreases fuel, exprs_size(es, i), 0int,
{
    if i < es.len() {
        let (st1, r1) = eval_expr_spec::<V>(st, es[i], fuel);
        if r1 is Ok {
            lemma_eval_args_len::<V>(st1, es, i + 1, fuel);
        }
    }
}

/// Evaluating a literal yields exactly the domain's injection of that
/// literal, with no change to the machine state: no heap mutation, no
/// allocation, no trace entry.
pub proof fn lemma_literal_eval<V: ValCompute>(st: MachineView<V>, e: Expr, fuel: nat)
    requires
        e.expr matches ExprKind::Lit(_),
    ensures
        eval_expr_spec::<V>(st, e, fuel) == (st, Ok::<V, EvalError>(V::spec_from_lit(e.expr->Lit_0))),
{
}

/// A binary expression evaluates its left operand first, then its
/// right operand in the state the left one produced, each exactly
/// once, and denotes the operator on the two values; an abort in
/// either operand is the expression's result.
pub proof fn lemma_binary_eval<V: ValCompute>(
    st: MachineView<V>,
    op: BinOp,
    a: Expr,
    b: Expr,
    loc: Loc,
    fuel: nat,
)
    ensures
        ({
            let e = Expr { expr: ExprKind::Binary(op, Box::new(a), Box::new(b)), loc };
            let (st1, ra) = eval_expr_spec::<V>(st, a, fuel);
            match ra {
                Ok(va) => {
                    let (st2, rb) = eval_expr_spec::<V>(st1, b, fuel);
                    match rb {
                        Ok(vb) => eval_expr_spec::<V>(st, e, fuel) == (match V::spec_op(
                            op,
                            va,
                            vb,
                        ) {
                            Ok(v) => (st2, Ok::<V, EvalError>(v)),
                            Err(k) => (st2, Err::<V, EvalError>(EvalError { kind: k, loc })),
                        }),
                        Err(er) => eval_expr_spec::<V>(st, e, fuel) == (
                            st2,
                            Err::<V, EvalError>(er),
                        ),
                    }
                },
                Err(er) => eval_expr_spec::<V>(st, e, fuel) == (st1, Err::<V, EvalError>(er)),
            }
        }),
{
}

/// Round trip: dereferencing the address of a variable yields exactly
/// the value its heap cell holds, and leaves the state unchanged.
pub proof fn lemma_deref_ref_roundtrip<V: ValCompute>(
    st: MachineView<V>,
    x: Symbol,
    l1: Loc,
    l2: Loc,
    l3: Loc,
    fuel: nat,
)
    requires
        st.has_frame(),
        st.cur_store().contains_key(x@),
        st.cur_store()[x@] < st.heap.len(),
    ensures
        ({
            let var = Expr { expr: ExprKind::Var(x), loc: l3 };
            let addr = Expr { expr: ExprKind::Unary(UnOp::Ref, Box::new(var)), loc: l2 };
            let e = Expr { expr: ExprKind::Unary(UnOp::Deref, Box::new(addr)), loc: l1 };
            eval_expr_spec::<V>(st, e, fuel) == (
                st,
                Ok::<V, EvalError>(st.heap[st.cur_store()[x@] as int]),
            )
        }),
{
    let l = st.cur_store()[x@];
    V::lemma_loc_roundtrip(l);
    let var = Expr { expr: ExprKind::Var(x), loc: l3 };
    let addr = Expr { expr: ExprKind::Unary(UnOp::Ref, Box::new(var)), loc: l2 };
    assert(eval_lval_spec::<V>(st, var, fuel) == (st, Ok::<SimpleAddr, EvalError>(l)));
    assert(eval_expr_spec::<V>(st, addr, fuel) == (st, Ok::<V, EvalError>(V::spec_from_loc(l))));
}

/// Assignment of a literal is idempotent: running `x = v` twice leaves
/// the heap and the frame stack exactly as one run leaves them, and
/// the cell bound to `x` holds the injected literal. (Only the trace
/// can tell the two runs apart.)
pub proof fn lemma_assign_idempotent<V: ValCompute>(
    st: MachineView<V>,
    x: Symbol,
    lit: Lit,
    sloc: Loc,
    eloc: Loc,
    lloc: Loc,
    fuel: nat,
)
    requires
        st.has_frame(),
        st.cur_store().contains_key(x@),
        st.cur_store()[x@] < st.heap.len(),
    ensures
        ({
            let lhs = Expr { expr: ExprKind::Var(x), loc: lloc };
            let rhs = Expr { expr: ExprKind::Lit(lit), loc: eloc };
            let s = Statement { stmt: StatementKind::Assign(lhs, rhs), loc: sloc };
            let l = st.cur_store()[x@];
            let (st1, r1) = run_stmt_spec::<V>(st, s, fuel);
            let (st2, r2) = run_stmt_spec::<V>(st1, s, fuel);
            r1 is Ok && r2 is Ok && st2.heap == st1.heap && st2.frames == st1.frames
                && st1.heap[l as int] == V::spec_from_lit(lit)
        }),
{
    let l = st.cur_store()[x@];
    let v = V::spec_from_lit(lit);
    assert(st.trace_stmt(Statement {
        stmt: StatementKind::Assign(
            Expr { expr: ExprKind::Var(x), loc: lloc },
            Expr { expr: ExprKind::Lit(lit), loc: eloc },
        ),
        loc: sloc,
    }).heap == st.heap);
    assert(st.heap.update(l as int, v).update(l as int, v) =~= st.heap.update(l as int, v));
}

/// Case semantics through the `if` sugar: with a single arm guarded by
/// the literal `true`, a discriminant the domain counts as matching
/// runs exactly that arm's statement; one that does not leaves the
/// statement a no-op; and the discriminant is evaluated once, first.
pub proof fn lemma_if_semantics<V: ValCompute>(st: MachineView<V>, cs: Statement, fuel: nat)
    requires
        cs.stmt matches StatementKind::Case(d, arms) && arms@.len() == 1 && arms@[0].branch matches
            CaseBranchKind::CaseArm(pat, s1),
    ensures
        ({
            let d = cs.stmt->Case_0;
            let arms = cs.stmt->Case_1;
            let arm = arms@[0];
            let pat = arm.branch->CaseArm_0;
            let s1 = arm.branch->CaseArm_1;
            let st0 = st.trace_stmt(cs);
            let (st1, r1) = eval_expr_spec::<V>(st0, d, fuel);
            match r1 {
                Ok(v) => match do_match_spec::<V>(pat.pattern, v) {
                    Ok(b) => if b {
                        run_stmt_spec::<V>(st, cs, fuel) == run_stmt_spec::<V>(st1, *s1, fuel)
                    } else {
                        run_stmt_spec::<V>(st, cs, fuel) == (st1, Ok::<(), EvalError>(()))
                    },
                    Err(k) => run_stmt_spec::<V>(st, cs, fuel) == (
                        st1,
                        Err::<(), EvalError>(EvalError { kind: k, loc: pat.loc }),
                    ),
                },
                Err(er) => run_stmt_spec::<V>(st, cs, fuel) == (st1, Err::<(), EvalError>(er)),
            }
        }),
{
    let d = cs.stmt->Case_0;
    let arms = cs.stmt->Case_1;
    let st0 = st.trace_stmt(cs);
    let (st1, r1) = eval_expr_spec::<V>(st0, d, fuel);
    if r1 is Ok {
        assert(run_case_spec::<V>(st1, r1->Ok_0, arms@, 1, fuel) == (st1, Ok::<(), EvalError>(())));
    }
}

} // verus!
