//! Syntax tree of the language, and its mathematical model.
use vstd::prelude::*;

verus! {

broadcast use {vstd::seq::group_seq_axioms, vstd::std_specs::vec::group_vec_axioms};

/// A name, used both for variables and for functions.
pub type Ident = String;

/// An expression: reduces to a value and changes no binding.
#[derive(Debug, PartialEq)]
pub enum Expr {
    FnCall(FnCall),
    Or(Or),
    And(And),
    Block(Block),
    Value(Value),
}

/// A statement: changes the bindings of the scope it runs in.
#[derive(Debug, PartialEq)]
pub enum Stmt {
    FnDef(FnDef),
    Assign(Assign),
}

/// A user function: its name, its parameters in order, and its body.
#[derive(Debug, PartialEq)]
pub struct FnDef {
    pub name: Ident,
    pub args: Vec<Ident>,
    pub body: Box<Expr>,
}

/// A call of the function bound to `name`.
#[derive(Debug, PartialEq)]
pub struct FnCall {
    pub name: Ident,
    pub args: Vec<Expr>,
}

/// `or(...)`: a call of the function bound to `or`.
#[derive(Debug, PartialEq)]
pub struct Or(pub Vec<Expr>);

/// `and(...)`: a call of the function bound to `and`.
#[derive(Debug, PartialEq)]
pub struct And(pub Vec<Expr>);

/// Statements run in a nested scope, then the value of `return_value` there.
#[derive(Debug, PartialEq)]
pub struct Block {
    pub stmts: Vec<Stmt>,
    pub return_value: Box<Expr>,
}

/// `name = value`.
#[derive(Debug, PartialEq)]
pub struct Assign {
    pub name: Ident,
    pub value: Box<Expr>,
}

/// A bare name: a variable if bound, else a literal leaf.
#[derive(Debug, Clone, PartialEq)]
pub struct Value(pub Ident);

/// Model of an expression.
pub enum ExprV {
    Call(Seq<char>, Seq<ExprV>),
    Or(Seq<ExprV>),
    And(Seq<ExprV>),
    Block(Seq<StmtV>, Box<ExprV>),
    Name(Seq<char>),
}

/// Model of a statement.
pub enum StmtV {
    Def(FnDefV),
    Assign(Seq<char>, Box<ExprV>),
}

/// Model of a function definition.
pub struct FnDefV {
    pub name: Seq<char>,
    pub params: Seq<Seq<char>>,
    pub body: Box<ExprV>,
}

/// Model of a sequence of names.
pub open spec fn names_view(s: Seq<Ident>) -> Seq<Seq<char>> {
    s.map_values(|n: Ident| n@)
}

/// Model of an expression.
pub open spec fn expr_view(e: Expr) -> ExprV
    decreases e,
{
    match e {
        Expr::FnCall(c) => ExprV::Call(c.name@, exprs_view(c.args@)),
        Expr::Or(o) => ExprV::Or(exprs_view(o.0@)),
        Expr::And(a) => ExprV::And(exprs_view(a.0@)),
        Expr::Block(b) => ExprV::Block(stmts_view(b.stmts@), Box::new(expr_view(*b.return_value))),
        Expr::Value(v) => ExprV::Name(v.0@),
    }
}

/// Model of a sequence of expressions.
pub open spec fn exprs_view(s: Seq<Expr>) -> Seq<ExprV>
    decreases s,
{
    if s.len() == 0 {
        Seq::empty()
    } else {
        exprs_view(s.drop_last()).push(expr_view(s.last()))
    }
}

/// Model of a sequence of statements.
pub open spec fn stmts_view(s: Seq<Stmt>) -> Seq<StmtV>
    decreases s,
{
    if s.len() == 0 {
        Seq::empty()
    } else {
        stmts_view(s.drop_last()).push(stmt_view(s.last()))
    }
}

/// Model of a statement.
pub open spec fn stmt_view(s: Stmt) -> StmtV
    decreases s,
{
    match s {
        Stmt::FnDef(d) => StmtV::Def(fn_def_view(d)),
        Stmt::Assign(a) => StmtV::Assign(a.name@, Box::new(expr_view(*a.value))),
    }
}

/// Model of a function definition.
pub open spec fn fn_def_view(d: FnDef) -> FnDefV
    decreases d,
{
    FnDefV { name: d.name@, params: names_view(d.args@), body: Box::new(expr_view(*d.body)) }
}


/// Size of an expression: a measure that every subterm is smaller in.
pub open spec fn expr_size(e: ExprV) -> nat
    decreases e,
{
    match e {
        ExprV::Call(_, args) => exprs_size(args) + 3,
        ExprV::Or(args) => exprs_size(args) + 3,
        ExprV::And(args) => exprs_size(args) + 3,
        ExprV::Block(stmts, ret) => stmts_size(stmts) + expr_size(*ret) + 3,
        ExprV::Name(_) => 1,
    }
}

/// Size of a sequence of expressions.
pub open spec fn exprs_size(s: Seq<ExprV>) -> nat
    decreases s,
{
    if s.len() == 0 {
        0
    } else {
        exprs_size(s.drop_last()) + expr_size(s.last()) + 1
    }
}

/// Size of a statement.
pub open spec fn stmt_size(s: StmtV) -> nat
    decreases s,
{
    match s {
        StmtV::Def(_) => 1,
        StmtV::Assign(_, e) => expr_size(*e) + 2,
    }
}

/// Size of a sequence of statements.
pub open spec fn stmts_size(s: Seq<StmtV>) -> nat
    decreases s,
{
    if s.len() == 0 {
        0
    } else {
        stmts_size(s.drop_last()) + stmt_size(s.last()) + 1
    }
}

impl View for Expr {
    type V = ExprV;

    open spec fn view(&self) -> ExprV {
        expr_view(*self)
    }
}

impl View for Stmt {
    type V = StmtV;

    open spec fn view(&self) -> StmtV {
        stmt_view(*self)
    }
}

impl View for FnDef {
    type V = FnDefV;

    open spec fn view(&self) -> FnDefV {
        fn_def_view(*self)
    }
}

fn copy_names(v: &Vec<Ident>) -> (r: Vec<Ident>)
    ensures
        names_view(r@) == names_view(v@),
{
    let mut r: Vec<Ident> = Vec::new();
    let mut i: usize = 0;
    while i < v.len()
        invariant
            i <= v@.len(),
            r@ == v@.take(i as int),
        decreases v@.len() - i,
    {
        r.push(v[i].clone());
        assert(r@ =~= v@.take(i + 1));
        i = i + 1;
    }
    assert(v@.take(i as int) =~= v@);
    r
}

fn copy_exprs(v: &Vec<Expr>) -> (r: Vec<Expr>)
    ensures
        exprs_view(r@) == exprs_view(v@),
    decreases v, 0nat,
{
    let mut r: Vec<Expr> = Vec::new();
    let mut i: usize = 0;
    while i < v.len()
        invariant
            i <= v@.len(),
            exprs_view(r@) == exprs_view(v@.take(i as int)),
        decreases v@.len() - i,
    {
        let ghost before = r@;
        r.push(copy_expr(&v[i]));
        assert(r@.drop_last() =~= before);
        assert(v@.take(i + 1).drop_last() =~= v@.take(i as int));
        i = i + 1;
    }
    assert(v@.take(i as int) =~= v@);
    r
}

fn copy_stmts(v: &Vec<Stmt>) -> (r: Vec<Stmt>)
    ensures
        stmts_view(r@) == stmts_view(v@),
    decreases v, 0nat,
{
    let mut r: Vec<Stmt> = Vec::new();
    let mut i: usize = 0;
    while i < v.len()
        invariant
            i <= v@.len(),
            stmts_view(r@) == stmts_view(v@.take(i as int)),
        decreases v@.len() - i,
    {
        let ghost before = r@;
        r.push(copy_stmt(&v[i]));
        assert(r@.drop_last() =~= before);
        assert(v@.take(i + 1).drop_last() =~= v@.take(i as int));
        i = i + 1;
    }
    assert(v@.take(i as int) =~= v@);
    r
}

/// A copy of an expression, equal to it in the model.
pub fn copy_expr(e: &Expr) -> (r: Expr)
    ensures
        r@ == e@,
    decreases e, 1nat,
{
    match e {
        Expr::FnCall(c) => Expr::FnCall(FnCall { name: c.name.clone(), args: copy_exprs(&c.args) }),
        Expr::Or(o) => Expr::Or(Or(copy_exprs(&o.0))),
        Expr::And(a) => Expr::And(And(copy_exprs(&a.0))),
        Expr::Block(b) => Expr::Block(
            Block { stmts: copy_stmts(&b.stmts), return_value: Box::new(copy_expr(&b.return_value)) },
        ),
        Expr::Value(v) => Expr::Value(Value(v.0.clone())),
    }
}

/// A copy of a statement, equal to it in the model.
pub fn copy_stmt(s: &Stmt) -> (r: Stmt)
    ensures
        r@ == s@,
    decreases s, 1nat,
{
    match s {
        Stmt::FnDef(d) => Stmt::FnDef(copy_fn_def(d)),
        Stmt::Assign(a) => Stmt::Assign(Assign { name: a.name.clone(), value: Box::new(copy_expr(&a.value)) }),
    }
}

/// A copy of a function definition, equal to it in the model.
pub fn copy_fn_def(d: &FnDef) -> (r: FnDef)
    ensures
        r@ == d@,
    decreases d, 1nat,
{
    FnDef { name: d.name.clone(), args: copy_names(&d.args), body: Box::new(copy_expr(&d.body)) }
}


impl Clone for Expr {
    fn clone(&self) -> (r: Self)
        ensures
            r@ == self@,
    {
        copy_expr(self)
    }
}

impl Clone for Stmt {
    fn clone(&self) -> (r: Self)
        ensures
            r@ == self@,
    {
        copy_stmt(self)
    }
}

impl Clone for FnDef {
    fn clone(&self) -> (r: Self)
        ensures
            r@ == self@,
    {
        copy_fn_def(self)
    }
}

} // verus!
