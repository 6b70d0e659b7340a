//! Syntax model: symbols, types, literals, expressions, patterns,
//! statements, and function/module declarations. Pure data; the nodes are
//! built once by a front end and are immutable thereafter.
use vstd::prelude::*;

verus! {

/// A source span: byte offsets of the start and end of a node in the
/// original program text. Carried for diagnostics only.
#[derive(Debug, Clone, Copy, PartialEq, Eq, Structural)]
pub struct Loc {
    pub lo: usize,
    pub hi: usize,
}

impl Loc {
    pub fn new(lo: usize, hi: usize) -> (r: Loc)
        ensures
            r.lo == lo,
            r.hi == hi,
    {
        Loc { lo, hi }
    }
}

/// An interned name; two symbols denote the same variable exactly when
/// their underlying strings are equal.
#[derive(Debug, Clone, PartialEq, Eq, Hash)]
pub struct Symbol {
    pub name: String,
}

impl View for Symbol {
    type V = Seq<char>;

    open spec fn view(&self) -> Seq<char> {
        self.name@
    }
}

impl Symbol {
    pub fn new(nm: String) -> (r: Symbol)
        ensures
            r.name == nm,
    {
        Symbol { name: nm }
    }

    /// A copy of this symbol that denotes the same name.
    pub fn dup(&self) -> (r: Symbol)
        ensures
            r == *self,
    {
        Symbol { name: self.name.clone() }
    }
}

/// Unary operators: address-of, pointer dereference, arithmetic negation.
#[derive(PartialEq, Eq, Debug, Clone, Copy)]
pub enum UnOp {
    Ref,
    Deref,
    Negate,
}

/// Binary operators: arithmetic, relational, logical, and projection
/// (tuple/vector indexing).
#[derive(PartialEq, Eq, Debug, Clone, Copy)]
pub enum BinOp {
    Add,
    Sub,
    Mul,
    Div,
    Eq,
    Neq,
    Gt,
    Lt,
    Gte,
    Lte,
    And,
    Or,
    Proj,
}

/// A syntactic type annotation. Annotations are carried in declarations
/// but never consulted by evaluation: the language has no checker.
#[derive(PartialEq, Eq, Debug)]
pub enum Type {
    I64,
    Bool,
    Ptr(Box<Type>),
    Tuple(Vec<Type>),
    Vector(Box<Type>),
}

/// A tagged constant: boolean or integer.
#[derive(PartialEq, Eq, Debug, Clone, Copy)]
pub enum LiteralKind {
    LBool(bool),
    LInt(i64),
}

/// A literal together with its source span.
#[derive(PartialEq, Eq, Debug, Clone, Copy)]
pub struct Lit {
    pub lit: LiteralKind,
    pub loc: Loc,
}

/// The shape of an expression.
#[derive(Debug)]
pub enum ExprKind {
    Lit(Lit),
    Var(Symbol),
    Unary(UnOp, Box<Expr>),
    Binary(BinOp, Box<Expr>, Box<Expr>),
    FunCall(Symbol, Vec<Expr>),
}

/// An expression node: a shape plus its source span. Owns its
/// subexpressions exclusively.
#[derive(Debug)]
pub struct Expr {
    pub expr: ExprKind,
    pub loc: Loc,
}

/// The shape of an lvalue node, as produced by a front end.
#[derive(Debug, Clone)]
pub enum LValKind {
    VarRef(Symbol),
}

/// An lvalue node with its source span.
#[derive(Debug, Clone)]
pub struct LVal {
    pub lval: LValKind,
    pub loc: Loc,
}

/// A name bound together with its declared type.
#[derive(Debug)]
pub struct TypeBind {
    pub name: Symbol,
    pub bind_type: Type,
    pub loc: Loc,
}

impl TypeBind {
    pub fn new(sym: Symbol, ty: Type, bindloc: Loc) -> (r: TypeBind)
        ensures
            r.name == sym,
            r.bind_type == ty,
            r.loc == bindloc,
    {
        TypeBind { name: sym, bind_type: ty, loc: bindloc }
    }
}

/// A pattern used in case discrimination: wildcard, variable binding, or
/// literal equality. Only literal patterns are driven end to end by the
/// `if` sugar; the other two are declared but not required to evaluate.
#[derive(Debug, Clone)]
pub enum PatternKind {
    PWild,
    PSymbol(Symbol),
    PLiteral(Lit),
}

/// A pattern with its source span.
#[derive(Debug, Clone)]
pub struct Pattern {
    pub pattern: PatternKind,
    pub loc: Loc,
}

/// One arm of a case statement: a pattern and the statement it guards.
#[derive(Debug)]
pub enum CaseBranchKind {
    CaseArm(Pattern, Box<Statement>),
}

/// A case arm with its source span.
#[derive(Debug)]
pub struct CaseBranch {
    pub branch: CaseBranchKind,
    pub loc: Loc,
}

/// The shape of a statement: declaration with optional initializer,
/// assignment, sequential block, or case discrimination.
#[derive(Debug)]
pub enum StatementKind {
    VarDecl(TypeBind, Option<Expr>),
    Assign(Expr, Expr),
    Block(Vec<Statement>),
    Case(Expr, Vec<CaseBranch>),
}

/// `if e then s` is pure sugar: a case on `e` with the single arm whose
/// pattern is the literal `true`.
pub fn if_statement(e: Expr, s: Statement) -> (r: StatementKind)
    ensures
        ({
            let tt = PatternKind::PLiteral(Lit { lit: LiteralKind::LBool(true), loc: s.loc });
            let pat = Pattern { pattern: tt, loc: s.loc };
            let arm = CaseBranch {
                branch: CaseBranchKind::CaseArm(pat, Box::new(s)),
                loc: s.loc,
            };
            r matches StatementKind::Case(d, arms) && d == e && arms@ =~= seq![arm]
        }),
{
    let l = s.loc;
    let tt = PatternKind::PLiteral(Lit { lit: LiteralKind::LBool(true), loc: l });
    let pat = Pattern { pattern: tt, loc: s.loc };
    let branch = CaseBranchKind::CaseArm(pat, Box::new(s));
    let then_branch = CaseBranch { branch, loc: l };
    let mut arms: Vec<CaseBranch> = Vec::new();
    arms.push(then_branch);
    StatementKind::Case(e, arms)
}

impl StatementKind {
    pub fn new_block(ss: Vec<Statement>) -> (r: StatementKind)
        ensures
            r == StatementKind::Block(ss),
    {
        StatementKind::Block(ss)
    }
}

/// A statement node: a shape plus its source span.
#[derive(Debug)]
pub struct Statement {
    pub stmt: StatementKind,
    pub loc: Loc,
}

/// A function declaration: name, ordered formal parameters, and a single
/// body statement.
#[derive(Debug)]
pub struct FnDecl {
    pub name: Symbol,
    pub params: Vec<TypeBind>,
    pub body: Statement,
    pub loc: Loc,
}

/// A module: ordered global bindings and function declarations. The root
/// of an abstract syntax tree.
#[derive(Debug)]
pub struct Module {
    pub globals: Vec<TypeBind>,
    pub functions: Vec<FnDecl>,
    pub loc: Loc,
}

} // verus!
