//! The concrete execution domain: values are signed integers, heap
//! addresses, tuples and vectors; operators compute exact results (with
//! two's-complement wrap-around) and relational results as 1/0.
use vstd::prelude::*;

use std::rc::Rc;

use crate::ast::{BinOp, FnDecl, Lit, LiteralKind, Loc, Module, PatternKind, Statement, Symbol};
use crate::interpret::{run_stmt, Evaluator};
use crate::semantics::{frame_store, run_stmt_spec, ErrorKind, EvalError, MachineView};

verus! {

/// A heap location: an index into the heap, shared by every domain.
pub type SimpleAddr = usize;

/// The capability contract a value representation must satisfy to be
/// evaluated by the shared engine. Each operation has a specification
/// twin that the engine's own semantics is stated over; the domain only
/// decides what the operations mean.
pub trait ValCompute: Sized {
    /// The domain's zero: what a fresh heap cell holds.
    spec fn spec_zero() -> Self;

    /// Whether a value counts as true when it discriminates a case.
    spec fn spec_is_true(v: Self) -> bool;

    /// The denotation of a binary operator in this domain.
    spec fn spec_op(o: BinOp, e1: Self, e2: Self) -> Result<Self, ErrorKind>;

    /// The injection of a literal.
    spec fn spec_from_lit(l: Lit) -> Self;

    /// The injection of a location as a pointer value.
    spec fn spec_from_loc(l: SimpleAddr) -> Self;

    /// The location a pointer value designates, if it is one.
    spec fn spec_unwrap_loc(v: Self) -> Result<SimpleAddr, ErrorKind>;

    /// Unwrapping an injected location gives that location back: taking
    /// a variable's address and dereferencing it reaches the same cell.
    proof fn lemma_loc_roundtrip(l: SimpleAddr)
        ensures
            Self::spec_unwrap_loc(Self::spec_from_loc(l)) == Ok::<SimpleAddr, ErrorKind>(l),
    ;

    fn zero() -> (r: Self)
        ensures
            r == Self::spec_zero(),
    ;

    fn is_true(v: &Self) -> (r: bool)
        ensures
            r == Self::spec_is_true(*v),
    ;

    fn op(o: &BinOp, e1: Self, e2: Self) -> (r: Result<Self, ErrorKind>)
        ensures
            r == Self::spec_op(*o, e1, e2),
    ;

    fn from_lit(l: &Lit) -> (r: Self)
        ensures
            r == Self::spec_from_lit(*l),
    ;

    fn from_loc(l: &SimpleAddr) -> (r: Self)
        ensures
            r == Self::spec_from_loc(*l),
    ;

    fn unwrap_loc(v: Self) -> (r: Result<SimpleAddr, ErrorKind>)
        ensures
            r == Self::spec_unwrap_loc(v),
    ;

    /// An exact copy: the engine snapshots and re-reads values.
    fn dup(v: &Self) -> (r: Self)
        ensures
            r == *v,
    ;
}

/// A concrete runtime value: a signed integer, a heap address, a tuple,
/// or a vector. Relational and logical results are represented as the
/// integers 1 and 0.
#[derive(Debug, PartialEq, Eq)]
pub enum SimpleValue {
    VInt(i64),
    VAddr(SimpleAddr),
    VTuple(Box<ValueList>),
    VVector(Box<ValueList>),
}

/// The elements of a tuple or vector value, as an inductive list: a
/// shape whose equality is structural, so that copying a value yields a
/// value equal to it.
#[derive(Debug, PartialEq, Eq)]
pub enum ValueList {
    Nil,
    Cons(SimpleValue, Box<ValueList>),
}

/// The elements of a list, in order, as a sequence.
pub open spec fn vlist_view(l: ValueList) -> Seq<SimpleValue>
    decreases l,
{
    match l {
        ValueList::Nil => Seq::empty(),
        ValueList::Cons(v, rest) => seq![v] + vlist_view(*rest),
    }
}

/// The `i`th element of a list, if it has one.
fn vlist_get(l: &ValueList, i: i64) -> (r: Option<&SimpleValue>)
    requires
        i >= 0,
    ensures
        0 <= i < vlist_view(*l).len() ==> (r matches Some(v) && *v == vlist_view(*l)[i as int]),
        i >= vlist_view(*l).len() ==> r is None,
    decreases *l,
{
    match l {
        ValueList::Nil => None,
        ValueList::Cons(v, rest) => {
            if i == 0 {
                Some(v)
            } else {
                vlist_get(rest, i - 1)
            }
        },
    }
}

/// Truncating integer division (rounding toward zero), the semantics of
/// the concrete domain's division operator.
pub open spec fn tdiv(x: int, d: int) -> int {
    if x == 0 {
        0
    } else if x > 0 && d > 0 {
        x / d
    } else if x < 0 && d < 0 {
        (x * -1) / (d * -1)
    } else if x < 0 {
        ((x * -1) / d) * -1
    } else {
        (x / (d * -1)) * -1
    }
}

/// Truncating division on 64-bit integers with two's-complement
/// wrap-around on the one overflowing case.
pub open spec fn div_wrap(a: i64, b: i64) -> i64 {
    let q = tdiv(a as int, b as int);
    if q < i64::MIN || q > i64::MAX {
        i64::MIN
    } else {
        q as i64
    }
}

/// Projection of `vs[i]`, the semantics of the `Proj` operator.
pub open spec fn proj_spec(vs: Seq<SimpleValue>, i: i64) -> Result<SimpleValue, ErrorKind> {
    if 0 <= i < vs.len() {
        Ok(vs[i as int])
    } else {
        Err(ErrorKind::IndexOutOfRange)
    }
}

/// An exact copy of a concrete value.
fn dup_value(v: &SimpleValue) -> (r: SimpleValue)
    ensures
        r == *v,
    decreases *v, 0int,
{
    match v {
        SimpleValue::VInt(x) => SimpleValue::VInt(*x),
        SimpleValue::VAddr(a) => SimpleValue::VAddr(*a),
        SimpleValue::VTuple(vs) => SimpleValue::VTuple(Box::new(dup_list(vs))),
        SimpleValue::VVector(vs) => SimpleValue::VVector(Box::new(dup_list(vs))),
    }
}

/// An exact elementwise copy of a list of concrete values.
fn dup_list(l: &ValueList) -> (r: ValueList)
    ensures
        r == *l,
    decreases *l, 1int,
{
    match l {
        ValueList::Nil => ValueList::Nil,
        ValueList::Cons(v, rest) => ValueList::Cons(dup_value(v), Box::new(dup_list(rest))),
    }
}

impl ValCompute for SimpleValue {
    open spec fn spec_zero() -> Self {
        SimpleValue::VInt(0)
    }

    open spec fn spec_is_true(v: Self) -> bool {
        match v {
            SimpleValue::VInt(x) => x == 1,
            _ => false,
        }
    }

    open spec fn spec_op(o: BinOp, e1: Self, e2: Self) -> Result<Self, ErrorKind> {
        match (o, e1, e2) {
            (BinOp::Proj, SimpleValue::VTuple(vs), SimpleValue::VInt(i)) => proj_spec(
                vlist_view(*vs),
                i,
            ),
            (BinOp::Proj, SimpleValue::VVector(vs), SimpleValue::VInt(i)) => proj_spec(
                vlist_view(*vs),
                i,
            ),
            (BinOp::Add, SimpleValue::VInt(a), SimpleValue::VInt(b)) => Ok(
                SimpleValue::VInt(vstd::wrapping::i64_specs::wrapping_add(a, b)),
            ),
            (BinOp::Sub, SimpleValue::VInt(a), SimpleValue::VInt(b)) => Ok(
                SimpleValue::VInt(vstd::wrapping::i64_specs::wrapping_sub(a, b)),
            ),
            (BinOp::Mul, SimpleValue::VInt(a), SimpleValue::VInt(b)) => Ok(
                SimpleValue::VInt(vstd::wrapping::i64_specs::wrapping_mul(a, b)),
            ),
            (BinOp::Div, SimpleValue::VInt(a), SimpleValue::VInt(b)) => if b == 0 {
                Err(ErrorKind::DivisionByZero)
            } else {
                Ok(SimpleValue::VInt(div_wrap(a, b)))
            },
            (BinOp::Eq, SimpleValue::VInt(a), SimpleValue::VInt(b)) => Ok(
                SimpleValue::VInt(if a == b { 1i64 } else { 0i64 }),
            ),
            (BinOp::Neq, SimpleValue::VInt(a), SimpleValue::VInt(b)) => Ok(
                SimpleValue::VInt(if a != b { 1i64 } else { 0i64 }),
            ),
            (BinOp::Lt, SimpleValue::VInt(a), SimpleValue::VInt(b)) => Ok(
                SimpleValue::VInt(if a < b { 1i64 } else { 0i64 }),
            ),
            (BinOp::Gt, SimpleValue::VInt(a), SimpleValue::VInt(b)) => Ok(
                SimpleValue::VInt(if a > b { 1i64 } else { 0i64 }),
            ),
            (BinOp::Lte, SimpleValue::VInt(a), SimpleValue::VInt(b)) => Ok(
                SimpleValue::VInt(if a <= b { 1i64 } else { 0i64 }),
            ),
            (BinOp::Gte, SimpleValue::VInt(a), SimpleValue::VInt(b)) => Ok(
                SimpleValue::VInt(if a >= b { 1i64 } else { 0i64 }),
            ),
            (BinOp::And, SimpleValue::VInt(a), SimpleValue::VInt(b)) => Ok(
                SimpleValue::VInt(if a == 1 && b == 1 { 1i64 } else { 0i64 }),
            ),
            (BinOp::Or, SimpleValue::VInt(a), SimpleValue::VInt(b)) => Ok(
                SimpleValue::VInt(if a == 1 || b == 1 { 1i64 } else { 0i64 }),
            ),
            _ => Err(ErrorKind::TypeMismatch),
        }
    }

    open spec fn spec_from_lit(l: Lit) -> Self {
        match l.lit {
            LiteralKind::LInt(v) => SimpleValue::VInt(v),
            LiteralKind::LBool(true) => SimpleValue::VInt(1),
            LiteralKind::LBool(false) => SimpleValue::VInt(0),
        }
    }

    open spec fn spec_from_loc(l: SimpleAddr) -> Self {
        SimpleValue::VAddr(l)
    }

    open spec fn spec_unwrap_loc(v: Self) -> Result<SimpleAddr, ErrorKind> {
        match v {
            SimpleValue::VAddr(a) => Ok(a),
            _ => Err(ErrorKind::TypeMismatch),
        }
    }

    proof fn lemma_loc_roundtrip(l: SimpleAddr) {
    }

    fn zero() -> (r: Self) {
        SimpleValue::VInt(0)
    }

    fn is_true(v: &Self) -> (r: bool) {
        match v {
            SimpleValue::VInt(x) => *x == 1,
            _ => false,
        }
    }

    fn op(o: &BinOp, e1: Self, e2: Self) -> (r: Result<Self, ErrorKind>) {
        match (*o, e1, e2) {
            (BinOp::Proj, SimpleValue::VTuple(vs), SimpleValue::VInt(i)) => {
                if i >= 0 {
                    match vlist_get(&vs, i) {
                        Some(v) => Ok(dup_value(v)),
                        None => Err(ErrorKind::IndexOutOfRange),
                    }
                } else {
                    Err(ErrorKind::IndexOutOfRange)
                }
            },
            (BinOp::Proj, SimpleValue::VVector(vs), SimpleValue::VInt(i)) => {
                if i >= 0 {
                    match vlist_get(&vs, i) {
                        Some(v) => Ok(dup_value(v)),
                        None => Err(ErrorKind::IndexOutOfRange),
                    }
                } else {
                    Err(ErrorKind::IndexOutOfRange)
                }
            },
            (BinOp::Add, SimpleValue::VInt(a), SimpleValue::VInt(b)) => Ok(
                SimpleValue::VInt(a.wrapping_add(b)),
            ),
            (BinOp::Sub, SimpleValue::VInt(a), SimpleValue::VInt(b)) => Ok(
                SimpleValue::VInt(a.wrapping_sub(b)),
            ),
            (BinOp::Mul, SimpleValue::VInt(a), SimpleValue::VInt(b)) => Ok(
                SimpleValue::VInt(a.wrapping_mul(b)),
            ),
            (BinOp::Div, SimpleValue::VInt(a), SimpleValue::VInt(b)) => {
                if b == 0 {
                    Err(ErrorKind::DivisionByZero)
                } else {
                    match a.checked_div(b) {
                        Some(q) => Ok(SimpleValue::VInt(q)),
                        None => Ok(SimpleValue::VInt(i64::MIN)),
                    }
                }
            },
            (BinOp::Eq, SimpleValue::VInt(a), SimpleValue::VInt(b)) => Ok(
                SimpleValue::VInt(if a == b { 1i64 } else { 0i64 }),
            ),
            (BinOp::Neq, SimpleValue::VInt(a), SimpleValue::VInt(b)) => Ok(
                SimpleValue::VInt(if a != b { 1i64 } else { 0i64 }),
            ),
            (BinOp::Lt, SimpleValue::VInt(a), SimpleValue::VInt(b)) => Ok(
                SimpleValue::VInt(if a < b { 1i64 } else { 0i64 }),
            ),
            (BinOp::Gt, SimpleValue::VInt(a), SimpleValue::VInt(b)) => Ok(
                SimpleValue::VInt(if a > b { 1i64 } else { 0i64 }),
            ),
            (BinOp::Lte, SimpleValue::VInt(a), SimpleValue::VInt(b)) => Ok(
                SimpleValue::VInt(if a <= b { 1i64 } else { 0i64 }),
            ),
            (BinOp::Gte, SimpleValue::VInt(a), SimpleValue::VInt(b)) => Ok(
                SimpleValue::VInt(if a >= b { 1i64 } else { 0i64 }),
            ),
            (BinOp::And, SimpleValue::VInt(a), SimpleValue::VInt(b)) => Ok(
                SimpleValue::VInt(if a == 1 && b == 1 { 1i64 } else { 0i64 }),
            ),
            (BinOp::Or, SimpleValue::VInt(a), SimpleValue::VInt(b)) => Ok(
                SimpleValue::VInt(if a == 1 || b == 1 { 1i64 } else { 0i64 }),
            ),
            _ => Err(ErrorKind::TypeMismatch),
        }
    }

    fn from_lit(l: &Lit) -> (r: Self) {
        match l.lit {
            LiteralKind::LInt(v) => SimpleValue::VInt(v),
            LiteralKind::LBool(true) => SimpleValue::VInt(1),
            LiteralKind::LBool(false) => SimpleValue::VInt(0),
        }
    }

    fn from_loc(l: &SimpleAddr) -> (r: Self) {
        SimpleValue::VAddr(*l)
    }

    fn unwrap_loc(v: Self) -> (r: Result<SimpleAddr, ErrorKind>) {
        match v {
            SimpleValue::VAddr(a) => Ok(a),
            _ => Err(ErrorKind::TypeMismatch),
        }
    }

    fn dup(v: &Self) -> (r: Self) {
        dup_value(v)
    }
}

/// The bindings of one frame, newest last: a name bound again shadows
/// its earlier binding. Viewed as a map from names to locations.
#[derive(Debug)]
pub struct Store {
    binds: Vec<(Symbol, SimpleAddr)>,
}

/// The map a binding list denotes: later entries win.
pub open spec fn store_map(s: Seq<(Symbol, SimpleAddr)>) -> Map<Seq<char>, SimpleAddr>
    decreases s.len(),
{
    if s.len() == 0 {
        Map::empty()
    } else {
        store_map(s.drop_last()).insert(s.last().0@, s.last().1)
    }
}

impl View for Store {
    type V = Map<Seq<char>, SimpleAddr>;

    closed spec fn view(&self) -> Map<Seq<char>, SimpleAddr> {
        store_map(self.binds@)
    }
}

/// Resolve `x` in the newest `i` bindings, newest first.
fn store_lookup_at(binds: &Vec<(Symbol, SimpleAddr)>, i: usize, x: &Symbol) -> (r: Option<
    SimpleAddr,
>)
    requires
        i <= binds@.len(),
    ensures
        ({
            let m = store_map(binds@.take(i as int));
            r == if m.contains_key(x@) {
                Some(m[x@])
            } else {
                None::<SimpleAddr>
            }
        }),
    decreases i,
{
    if i == 0 {
        None
    } else {
        proof {
            assert(binds@.take(i as int).drop_last() =~= binds@.take(i as int - 1));
            assert(binds@.take(i as int).last() == binds@[i as int - 1]);
        }
        let p = &binds[i - 1];
        if p.0.name == x.name {
            Some(p.1)
        } else {
            store_lookup_at(binds, i - 1, x)
        }
    }
}

impl Store {
    /// A store with no bindings.
    pub fn new() -> (r: Store)
        ensures
            r@ == Map::<Seq<char>, SimpleAddr>::empty(),
    {
        Store { binds: Vec::new() }
    }

    /// Bind (or silently rebind) `x` to `l`.
    pub fn bind(&mut self, x: Symbol, l: SimpleAddr)
        ensures
            final(self)@ == old(self)@.insert(x@, l),
    {
        proof {
            assert(self.binds@.push((x, l)).drop_last() =~= self.binds@);
        }
        self.binds.push((x, l));
    }

    /// The location `x` is bound to, if any.
    pub fn lookup(&self, x: &Symbol) -> (r: Option<SimpleAddr>)
        ensures
            r == if self@.contains_key(x@) {
                Some(self@[x@])
            } else {
                None::<SimpleAddr>
            },
    {
        proof {
            assert(self.binds@.take(self.binds@.len() as int) =~= self.binds@);
        }
        store_lookup_at(&self.binds, self.binds.len(), x)
    }

    /// An exact copy of this store.
    pub fn dup(&self) -> (r: Store)
        ensures
            r@ == self@,
    {
        let mut bs: Vec<(Symbol, SimpleAddr)> = Vec::new();
        let mut i: usize = 0;
        while i < self.binds.len()
            invariant
                i <= self.binds.len(),
                bs@ =~= self.binds@.take(i as int),
            decreases self.binds.len() - i,
        {
            let p = &self.binds[i];
            bs.push((p.0.dup(), p.1));
            proof {
                assert(bs@ =~= self.binds@.take(i + 1 as int));
            }
            i = i + 1;
        }
        proof {
            assert(bs@ =~= self.binds@);
        }
        Store { binds: bs }
    }

    /// The bindings in the order they were made, newest last.
    pub fn bindings(&self) -> (r: &Vec<(Symbol, SimpleAddr)>)
        ensures
            store_map(r@) == self@,
    {
        &self.binds
    }
}

/// Relies on `Rc::clone`: the clone is a new handle to the very same
/// shared value.
#[verifier::external_body]
fn rc_dup<T>(v: &Rc<T>) -> (r: Rc<T>)
    ensures
        r == *v,
{
    Rc::clone(v)
}

/// The module's declared functions, keyed by name; the entry point is
/// held separately and never appears here. Viewed as a map from names
/// to declarations.
#[derive(Debug)]
pub struct DeclTable {
    decls: Vec<(Symbol, Rc<FnDecl>)>,
}

/// The map a declaration list denotes: later entries win.
pub open spec fn decl_map(s: Seq<(Symbol, Rc<FnDecl>)>) -> Map<Seq<char>, FnDecl>
    decreases s.len(),
{
    if s.len() == 0 {
        Map::empty()
    } else {
        decl_map(s.drop_last()).insert(s.last().0@, *s.last().1)
    }
}

impl View for DeclTable {
    type V = Map<Seq<char>, FnDecl>;

    closed spec fn view(&self) -> Map<Seq<char>, FnDecl> {
        decl_map(self.decls@)
    }
}

/// Look for `f` among the newest `i` declarations, newest first.
fn decl_lookup_at(decls: &Vec<(Symbol, Rc<FnDecl>)>, i: usize, f: &Symbol) -> (r: Option<
    Rc<FnDecl>,
>)
    requires
        i <= decls@.len(),
    ensures
        ({
            let m = decl_map(decls@.take(i as int));
            match r {
                Some(d) => m.contains_key(f@) && *d == m[f@],
                None => !m.contains_key(f@),
            }
        }),
    decreases i,
{
    if i == 0 {
        None
    } else {
        proof {
            assert(decls@.take(i as int).drop_last() =~= decls@.take(i as int - 1));
            assert(decls@.take(i as int).last() == decls@[i as int - 1]);
        }
        let p = &decls[i - 1];
        if p.0.name == f.name {
            Some(rc_dup(&p.1))
        } else {
            decl_lookup_at(decls, i - 1, f)
        }
    }
}

impl DeclTable {
    /// A table with no declarations.
    pub fn new() -> (r: DeclTable)
        ensures
            r@ == Map::<Seq<char>, FnDecl>::empty(),
    {
        DeclTable { decls: Vec::new() }
    }

    /// Add a declaration under its name; a name declared again silently
    /// shadows its earlier declaration.
    pub fn add(&mut self, name: Symbol, d: FnDecl)
        ensures
            final(self)@ == old(self)@.insert(name@, d),
    {
        proof {
            assert(self.decls@.push((name, Rc::new(d))).drop_last() =~= self.decls@);
        }
        self.decls.push((name, Rc::new(d)));
    }

    /// The declaration under `f`, if any.
    pub fn find(&self, f: &Symbol) -> (r: Option<Rc<FnDecl>>)
        ensures
            match r {
                Some(d) => self@.contains_key(f@) && *d == self@[f@],
                None => !self@.contains_key(f@),
            },
    {
        proof {
            assert(self.decls@.take(self.decls@.len() as int) =~= self.decls@);
        }
        decl_lookup_at(&self.decls, self.decls.len(), f)
    }
}

/// An exact elementwise copy of a heap.
fn dup_vals<Val: ValCompute>(vs: &Vec<Val>) -> (r: Vec<Val>)
    ensures
        r@ == vs@,
{
    let mut r: Vec<Val> = Vec::new();
    let mut i: usize = 0;
    while i < vs.len()
        invariant
            i <= vs.len(),
            r@ =~= vs@.take(i as int),
        decreases vs.len() - i,
    {
        r.push(Val::dup(&vs[i]));
        proof {
            assert(r@ =~= vs@.take(i + 1 as int));
        }
        i = i + 1;
    }
    proof {
        assert(r@ =~= vs@);
    }
    r
}

/// One recorded snapshot: the whole heap, the current frame's store,
/// and the span of the statement that was about to execute.
#[derive(Debug)]
pub struct TraceEntry<Val> {
    pub heap: Vec<Val>,
    pub store: Store,
    pub loc: Loc,
}

/// The concrete machine: a heap of values, a stack of frames, the
/// execution trace, and the module's function declarations. It serves
/// any value domain; the trace records only when tracing is switched
/// on.
#[derive(Debug)]
pub struct ConcreteEvaluator<Val> {
    heap: Vec<Val>,
    frames: Vec<Store>,
    trace: Vec<TraceEntry<Val>>,
    decls: DeclTable,
    tracing: bool,
}

impl<Val: ValCompute> Evaluator for ConcreteEvaluator<Val> {
    type V = Val;

    closed spec fn model(&self) -> MachineView<Val> {
        MachineView {
            heap: self.heap@,
            frames: self.frames@.map_values(|st: Store| st@),
            decls: self.decls@,
            tracing: self.tracing,
            trace: self.trace@.map_values(|t: TraceEntry<Val>| (t.heap@, t.store@, t.loc)),
        }
    }

    fn find_store(&self, s: &Symbol) -> (r: Result<SimpleAddr, ErrorKind>) {
        let n = self.frames.len();
        if n == 0 {
            Err(ErrorKind::UnboundName)
        } else {
            proof {
                assert(self.model().cur_store() == self.frames@[n - 1]@);
            }
            match self.frames[n - 1].lookup(s) {
                Some(l) => Ok(l),
                None => Err(ErrorKind::UnboundName),
            }
        }
    }

    fn find_heap(&self, l: SimpleAddr) -> (r: Result<Val, ErrorKind>) {
        if l < self.heap.len() {
            Ok(Val::dup(&self.heap[l]))
        } else {
            Err(ErrorKind::InvalidLocation)
        }
    }

    fn allocate(&mut self) -> (r: SimpleAddr) {
        self.heap.push(Val::zero());
        let l = self.heap.len() - 1;
        proof {
            assert(self.model() =~= old(self).model().allocate(Val::spec_zero()).0);
        }
        l
    }

    fn update_store(&mut self, x: &Symbol, l: SimpleAddr) {
        let n = self.frames.len();
        if n > 0 {
            let mut st = self.frames.pop().unwrap();
            st.bind(x.dup(), l);
            self.frames.push(st);
            proof {
                assert(self.model().frames =~= old(self).model().frames.update(
                    n - 1,
                    old(self).model().cur_store().insert(x@, l),
                ));
                assert(self.model() =~= old(self).model().update_store(x@, l));
            }
        }
    }

    fn update_heap(&mut self, l: SimpleAddr, v: Val) -> (r: Result<(), ErrorKind>) {
        if l < self.heap.len() {
            self.heap.set(l, v);
            proof {
                assert(self.model() =~= old(self).model().update_heap(l, v).0);
            }
            Ok(())
        } else {
            Err(ErrorKind::InvalidLocation)
        }
    }

    fn push_frame(&mut self, frame: Vec<(Symbol, Val)>) {
        let ghost bs = frame@.map_values(|p: (Symbol, Val)| (p.0@, p.1));
        let ghost base = self.heap@.len() as int;
        let mut st = Store::new();
        let mut i: usize = 0;
        while i < frame.len()
            invariant
                i <= frame.len(),
                bs == frame@.map_values(|p: (Symbol, Val)| (p.0@, p.1)),
                base == old(self).heap@.len() as int,
                self.heap@ =~= old(self).heap@ + bs.take(i as int).map_values(
                    |p: (Seq<char>, Val)| p.1,
                ),
                st@ == frame_store(bs.take(i as int), base),
                self.frames == old(self).frames,
                self.trace == old(self).trace,
                self.decls == old(self).decls,
                self.tracing == old(self).tracing,
            decreases frame.len() - i,
        {
            let p = &frame[i];
            let sym = p.0.dup();
            let v = Val::dup(&p.1);
            self.heap.push(v);
            let l = self.heap.len() - 1;
            st.bind(sym, l);
            proof {
                assert(bs.take(i + 1 as int).drop_last() =~= bs.take(i as int));
                assert(bs.take(i + 1 as int).last() == bs[i as int]);
                assert(self.heap@ =~= old(self).heap@ + bs.take(i + 1 as int).map_values(
                    |p: (Seq<char>, Val)| p.1,
                ));
            }
            i = i + 1;
        }
        self.frames.push(st);
        proof {
            assert(bs.take(bs.len() as int) =~= bs);
            assert(self.model().frames =~= old(self).model().push_frame(bs).frames);
            assert(self.model() =~= old(self).model().push_frame(bs));
        }
    }

    fn pop_frame(&mut self) {
        self.frames.pop();
        proof {
            assert(self.model().frames =~= old(self).model().pop_frame().frames);
            assert(self.model() =~= old(self).model().pop_frame());
        }
    }

    fn return_loc(&self) -> (r: SimpleAddr) {
        0
    }

    fn denote(&self, o: &BinOp, e1: Val, e2: Val) -> (r: Result<Val, ErrorKind>) {
        Val::op(o, e1, e2)
    }

    fn do_match(&self, p: &PatternKind, v: &Val) -> (r: Result<bool, ErrorKind>) {
        match p {
            PatternKind::PLiteral(l) => {
                let lz = Val::from_lit(l);
                match Val::op(&BinOp::Eq, lz, Val::dup(v)) {
                    Ok(b) => Ok(Val::is_true(&b)),
                    Err(k) => Err(k),
                }
            },
            _ => Err(ErrorKind::UnsupportedPattern),
        }
    }

    fn inj_val(&self, l: &Lit) -> (r: Val) {
        Val::from_lit(l)
    }

    fn inj_loc(&self, l: SimpleAddr) -> (r: Val) {
        Val::from_loc(&l)
    }

    fn unwrap_ptr(&self, v: Val) -> (r: Result<SimpleAddr, ErrorKind>) {
        Val::unwrap_loc(v)
    }

    fn fn_decl(&self, f: &Symbol) -> (r: Result<Rc<FnDecl>, ErrorKind>) {
        match self.decls.find(f) {
            Some(d) => Ok(d),
            None => Err(ErrorKind::UnknownFunction),
        }
    }

    fn trace_stmt(&mut self, s: &Statement) {
        if self.tracing {
            let n = self.frames.len();
            if n > 0 {
                let h = dup_vals(&self.heap);
                let st = self.frames[n - 1].dup();
                self.trace.push(TraceEntry { heap: h, store: st, loc: s.loc });
                proof {
                    assert(self.model().trace =~= old(self).model().trace_stmt(*s).trace);
                    assert(self.model() =~= old(self).model().trace_stmt(*s));
                }
            }
        }
    }
}

/// The list holding exactly the elements of `s`, in order.
pub open spec fn list_of(s: Seq<SimpleValue>) -> ValueList
    decreases s.len(),
{
    if s.len() == 0 {
        ValueList::Nil
    } else {
        ValueList::Cons(s[0], Box::new(list_of(s.drop_first())))
    }
}

/// `list_of` and `vlist_view` are inverses.
pub proof fn lemma_list_of_view(s: Seq<SimpleValue>)
    ensures
        vlist_view(list_of(s)) == s,
    decreases s.len(),
{
    if s.len() == 0 {
        assert(vlist_view(list_of(s)) =~= s);
    } else {
        lemma_list_of_view(s.drop_first());
        assert(vlist_view(list_of(s)) =~= s);
    }
}

/// The process arguments as concrete values: one integer value per
/// argument.
pub open spec fn int_values(args: Seq<i64>) -> Seq<SimpleValue> {
    args.map_values(|x: i64| SimpleValue::VInt(x))
}

/// The declaration table a module denotes: every function under its
/// name, in order, except the entry point "main"; a name declared twice
/// keeps its later declaration.
pub open spec fn decls_of(fs: Seq<FnDecl>) -> Map<Seq<char>, FnDecl>
    decreases fs.len(),
{
    if fs.len() == 0 {
        Map::empty()
    } else {
        let prior = decls_of(fs.drop_last());
        let d = fs.last();
        if d.name@ == "main"@ {
            prior
        } else {
            prior.insert(d.name@, d)
        }
    }
}

/// The module's entry point: its last function named "main", if any.
pub open spec fn main_of(fs: Seq<FnDecl>) -> Option<FnDecl>
    decreases fs.len(),
{
    if fs.len() == 0 {
        None
    } else if fs.last().name@ == "main"@ {
        Some(fs.last())
    } else {
        main_of(fs.drop_last())
    }
}

/// The machine a program run starts from: heap cell 0 is the return
/// cell, heap cell 1 holds the argument vector, and the single starting
/// frame binds the entry point's first formal parameter to cell 1.
/// Tracing is off until a runner switches it on.
pub open spec fn initial_model(m: Module, args: Seq<i64>, d: FnDecl) -> MachineView<SimpleValue> {
    MachineView {
        heap: seq![
            SimpleValue::VInt(0),
            SimpleValue::VVector(Box::new(list_of(int_values(args)))),
        ],
        frames: seq![Map::<Seq<char>, SimpleAddr>::empty().insert(d.params@[0].name@, 1usize)],
        decls: decls_of(m.functions@),
        tracing: false,
        trace: Seq::empty(),
    }
}

/// The list of argument values `args[i..]`, each as an integer value.
fn int_list(args: &Vec<i64>, i: usize) -> (r: ValueList)
    requires
        i <= args.len(),
    ensures
        r == list_of(int_values(args@).skip(i as int)),
    decreases args.len() - i,
{
    if i == args.len() {
        proof {
            assert(int_values(args@).skip(i as int).len() == 0);
        }
        ValueList::Nil
    } else {
        let rest = int_list(args, i + 1);
        proof {
            assert(int_values(args@).skip(i as int).drop_first() =~= int_values(args@).skip(
                i + 1 as int,
            ));
            assert(int_values(args@).skip(i as int)[0] == SimpleValue::VInt(args@[i as int]));
        }
        ValueList::Cons(SimpleValue::VInt(args[i]), Box::new(rest))
    }
}

impl<Val: ValCompute> ConcreteEvaluator<Val> {
    /// Switch the recording of execution snapshots on or off.
    pub fn set_tracing(&mut self, on: bool)
        ensures
            final(self).model() == (MachineView { tracing: on, ..old(self).model() }),
    {
        self.tracing = on;
        proof {
            assert(self.model() =~= (MachineView { tracing: on, ..old(self).model() }));
        }
    }

    /// Record one snapshot now (when tracing is on), tagged with `loc`:
    /// used for the final state of a run.
    pub fn snapshot(&mut self, loc: Loc)
        ensures
            final(self).model() == old(self).model().record(loc),
    {
        if self.tracing {
            let n = self.frames.len();
            if n > 0 {
                let h = dup_vals(&self.heap);
                let st = self.frames[n - 1].dup();
                self.trace.push(TraceEntry { heap: h, store: st, loc });
                proof {
                    assert(self.model().trace =~= old(self).model().record(loc).trace);
                    assert(self.model() =~= old(self).model().record(loc));
                }
            }
        }
    }

    /// The recorded snapshots, oldest first.
    pub fn trace(&self) -> (r: &Vec<TraceEntry<Val>>)
        ensures
            r@.len() == self.model().trace.len(),
            forall|j: int|
                0 <= j < r@.len() ==> self.model().trace[j] == ((
                    r@[j].heap@,
                    r@[j].store@,
                    r@[j].loc,
                )),
    {
        &self.trace
    }
}

/// The machine the concrete domain runs on.
pub type SimpleEvaluator = ConcreteEvaluator<SimpleValue>;

/// Build the machine a module starts in: find the entry point "main",
/// file every other declared function under its name, and lay out the
/// starting heap and frame with the argument vector bound to the entry
/// point's first formal parameter. Fails exactly when the module has no
/// entry point.
pub fn initial_state(m: Module, args: Vec<i64>) -> (r: Result<
    (ConcreteEvaluator<SimpleValue>, FnDecl),
    EvalError,
>)
    requires
        main_of(m.functions@) matches Some(md) ==> md.params.len() > 0,
    ensures
        r is Ok <==> main_of(m.functions@) is Some,
        r matches Ok(p) ==> main_of(m.functions@) matches Some(d) && p.1 == d && p.0.model()
            == initial_model(m, args@, d),
        r matches Ok(p) ==> p.0.model().heap[1] matches SimpleValue::VVector(l) && vlist_view(*l)
            == int_values(args@),
        r matches Err(er) ==> er.kind == ErrorKind::NoMainFunction && er.loc == m.loc,
{
    let mainname: String = "main".to_owned();
    let mut decls = DeclTable::new();
    let mut main: Option<FnDecl> = None;
    let mut fns = m.functions;
    let ghost orig = fns@;
    proof {
        assert(orig.len() <= usize::MAX) by {
            assert(fns.len() == orig.len());
        }
    }
    let mut i: usize = 0;
    while fns.len() > 0
        invariant
            orig.len() <= usize::MAX,
            i + fns@.len() == orig.len(),
            fns@ =~= orig.skip(i as int),
            mainname@ == "main"@,
            decls@ == decls_of(orig.take(i as int)),
            match main {
                Some(d) => main_of(orig.take(i as int)) == Some(d),
                None => main_of(orig.take(i as int)) is None,
            },
        decreases fns@.len(),
    {
        proof {
            assert(orig.take(i + 1 as int).drop_last() =~= orig.take(i as int));
            assert(orig.take(i + 1 as int).last() == orig[i as int]);
        }
        let d = fns.remove(0);
        proof {
            assert(fns@ =~= orig.skip(i + 1 as int));
        }
        if d.name.name == mainname {
            main = Some(d);
        } else {
            let nm = d.name.dup();
            decls.add(nm, d);
        }
        i = i + 1;
    }
    proof {
        assert(orig.take(i as int) =~= orig);
    }
    match main {
        Some(d) => {
            let iargs = SimpleValue::VVector(Box::new(int_list(&args, 0)));
            proof {
                assert(int_values(args@).skip(0) =~= int_values(args@));
            }
            let mut frame = Store::new();
            frame.bind(d.params[0].name.dup(), 1);
            let mut heap: Vec<SimpleValue> = Vec::new();
            heap.push(SimpleValue::VInt(0));
            heap.push(iargs);
            let mut frames: Vec<Store> = Vec::new();
            frames.push(frame);
            let ev = ConcreteEvaluator::<SimpleValue> {
                heap,
                frames,
                trace: Vec::new(),
                decls,
                tracing: false,
            };
            proof {
                assert(ev.model().frames =~= initial_model(m, args@, d).frames);
                assert(ev.model().trace =~= initial_model(m, args@, d).trace);
                assert(ev.model() =~= initial_model(m, args@, d));
                lemma_list_of_view(int_values(args@));
            }
            Ok((ev, d))
        },
        None => Err(EvalError { kind: ErrorKind::NoMainFunction, loc: m.loc }),
    }
}

/// Run one statement on the concrete machine with snapshot recording
/// off: the plain interpretation strategy.
pub fn concrete_stmt_cb(eval: &mut SimpleEvaluator, s: &Statement, fuel: u64) -> (r: Result<
    (),
    EvalError,
>)
    ensures
        ({
            let st0 = MachineView { tracing: false, ..old(eval).model() };
            let (st2, r2) = run_stmt_spec::<SimpleValue>(st0, *s, fuel as nat);
            final(eval).model() == st2 && r == r2
        }),
{
    eval.set_tracing(false);
    run_stmt(eval, s, fuel)
}

/// Run one statement on the concrete machine with snapshot recording
/// on: every statement records the heap and the current store
/// immediately before it executes.
pub fn tracing_concrete_stmt_cb(eval: &mut SimpleEvaluator, s: &Statement, fuel: u64) -> (r: Result<
    (),
    EvalError,
>)
    ensures
        ({
            let st0 = MachineView { tracing: true, ..old(eval).model() };
            let (st2, r2) = run_stmt_spec::<SimpleValue>(st0, *s, fuel as nat);
            final(eval).model() == st2 && r == r2
        }),
{
    eval.set_tracing(true);
    run_stmt(eval, s, fuel)
}

/// Run a module's entry point on the concrete domain with tracing on:
/// build the initial machine, execute the body of "main", and record a
/// final snapshot. The returned machine holds the final heap, frame and
/// trace; any abort of the run is returned instead.
pub fn concrete_run(m: Module, args: Vec<i64>, fuel: u64) -> (r: Result<
    ConcreteEvaluator<SimpleValue>,
    EvalError,
>)
    requires
        main_of(m.functions@) matches Some(md) ==> md.params.len() > 0,
    ensures
        r matches Ok(ev) ==> main_of(m.functions@) matches Some(d) && ({
            let st0 = MachineView { tracing: true, ..initial_model(m, args@, d) };
            let (st1, rr) = run_stmt_spec::<SimpleValue>(st0, d.body, fuel as nat);
            rr is Ok && ev.model() == st1.record(d.loc)
        }),
        r matches Err(er) ==> match main_of(m.functions@) {
            Some(d) => {
                let st0 = MachineView { tracing: true, ..initial_model(m, args@, d) };
                run_stmt_spec::<SimpleValue>(st0, d.body, fuel as nat).1 == Err::<(), EvalError>(er)
            },
            None => er.kind == ErrorKind::NoMainFunction,
        },
{
    match initial_state(m, args) {
        Ok((mut ev, d)) => {
            ev.set_tracing(true);
            match run_stmt(&mut ev, &d.body, fuel) {
                Ok(u) => {
                    ev.snapshot(d.loc);
                    Ok(ev)
                },
                Err(er) => Err(er),
            }
        },
        Err(er) => Err(er),
    }
}

} // verus!
