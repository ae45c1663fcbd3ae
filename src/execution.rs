//! Evaluation of expressions and execution of statements.
use vstd::prelude::*;
use crate::ast::{
    self, copy_fn_def, expr_size, expr_view, exprs_size, exprs_view, stmt_size, stmt_view, stmts_size, fn_def_view, names_view, stmts_view, And, Assign, Block,
    Expr, ExprV, FnCall, FnDef, FnDefV, Ident, Or, Stmt, StmtV,
};
use crate::error::{Error, ErrorV};
use crate::policy::{copy_policy, policies_view, Policy, PolicyV};
use crate::scope::Scope;

verus! {

/// A runtime value: what arguments, results and variables hold.
#[derive(Debug, PartialEq)]
pub enum Value {
    Policy(Policy),
    FnDef(FnDef),
    FnNative(Ident),
}

/// Model of a runtime value.
pub enum ValueV {
    Policy(PolicyV),
    FnDef(FnDefV),
    FnNative(Seq<char>),
}

impl View for Value {
    type V = ValueV;

    open spec fn view(&self) -> ValueV {
        match self {
            Value::Policy(p) => ValueV::Policy(p@),
            Value::FnDef(d) => ValueV::FnDef(ast::fn_def_view(*d)),
            Value::FnNative(n) => ValueV::FnNative(n@),
        }
    }
}

/// The bindings visible at a point of evaluation.
pub type Env = Map<Seq<char>, ValueV>;

/// Model of a sequence of values.
pub open spec fn values_view(s: Seq<Value>) -> Seq<ValueV> {
    s.map_values(|v: Value| v@)
}

/// How deeply calls of user functions may nest under `Evaluate::eval` and
/// `Run::run`: more than any machine can hold, so the call stack is the only
/// bound in practice.
pub const MAX_DEPTH: u64 = 0xffff_ffff_ffff_ffff;

/// Evaluate an expression. Expressions have no side effects and return a value.
pub trait Evaluate {
    /// The expression, in the model.
    spec fn expr_model(&self) -> ExprV;

    fn eval(&self, scope: &Scope) -> (r: Result<Value, Error>)
        ensures
            outcome(r) == eval_spec(self.expr_model(), scope.env(), MAX_DEPTH as nat),
    ;
}

/// Run a statement. Statements change the scope they run in and return no value.
pub trait Run {
    /// The statement, in the model.
    spec fn stmt_model(&self) -> StmtV;

    fn run(&self, scope: &mut Scope) -> (r: Result<(), Error>)
        ensures
            match r {
                Ok(_) => step_spec(self.stmt_model(), old(scope).env(), MAX_DEPTH as nat)
                    == Ok::<Env, ErrorV>(final(scope).env()),
                Err(e) => step_spec(self.stmt_model(), old(scope).env(), MAX_DEPTH as nat)
                    == Err::<Env, ErrorV>(e@) && final(scope).env() == old(scope).env(),
            },
    ;
}

/// Model of the outcome of an evaluation.
pub open spec fn outcome(r: Result<Value, Error>) -> Result<ValueV, ErrorV> {
    match r {
        Ok(v) => Ok(v@),
        Err(e) => Err(e@),
    }
}

/// Model of the outcome of several evaluations.
pub open spec fn outcomes(r: Result<Vec<Value>, Error>) -> Result<Seq<ValueV>, ErrorV> {
    match r {
        Ok(vs) => Ok(values_view(vs@)),
        Err(e) => Err(e@),
    }
}

/// Model of the outcome of a narrowing.
pub open spec fn narrowed(r: Result<Vec<Policy>, Error>) -> Result<Seq<PolicyV>, ErrorV> {
    match r {
        Ok(ps) => Ok(policies_view(ps@)),
        Err(e) => Err(e@),
    }
}

/// Whether every value is a policy.
pub open spec fn all_policies(vals: Seq<ValueV>) -> bool {
    forall|i: int| 0 <= i < vals.len() ==> (#[trigger] vals[i]) is Policy
}

/// The policies inside values that are all policies.
pub open spec fn policies_of(vals: Seq<ValueV>) -> Seq<PolicyV> {
    vals.map_values(|v: ValueV| v->Policy_0)
}

/// Narrowing of a value to a policy.
pub open spec fn narrow(v: ValueV) -> Result<PolicyV, ErrorV> {
    match v {
        ValueV::Policy(p) => Ok(p),
        _ => Err(ErrorV::NotMiniscriptRepresentable),
    }
}

/// Narrowing of values to policies: fails if any of them is a function.
pub open spec fn narrow_all(vals: Seq<ValueV>) -> Result<Seq<PolicyV>, ErrorV> {
    if all_policies(vals) {
        Ok(policies_of(vals))
    } else {
        Err(ErrorV::NotMiniscriptRepresentable)
    }
}

/// `env` with each parameter bound, in order, to the argument at its position.
pub open spec fn bind_params(env: Env, params: Seq<Seq<char>>, vals: Seq<ValueV>) -> Env
    decreases params.len(),
{
    if params.len() == 0 || vals.len() == 0 {
        env
    } else {
        bind_params(env, params.drop_last(), vals.drop_last()).insert(params.last(), vals.last())
    }
}

/// Value of an expression in `env`. Each call of a user function spends one
/// unit of `fuel`; a call with none left fails.
pub open spec fn eval_spec(e: ExprV, env: Env, fuel: nat) -> Result<ValueV, ErrorV>
    decreases fuel, expr_size(e),
{
    match e {
        ExprV::Call(n, args) => call_spec(n, args, env, fuel),
        ExprV::Or(args) => call_spec("or"@, args, env, fuel),
        ExprV::And(args) => call_spec("and"@, args, env, fuel),
        ExprV::Name(n) => if env.contains_key(n) {
            Ok(env[n])
        } else {
            Ok(ValueV::Policy(PolicyV::Leaf(n)))
        },
        ExprV::Block(stmts, ret) => match run_spec(stmts, env, fuel) {
            Ok(inner) => eval_spec(*ret, inner, fuel),
            Err(err) => Err(err),
        },
    }
}

/// Values of expressions evaluated left to right; the first error aborts.
pub open spec fn eval_list(args: Seq<ExprV>, env: Env, fuel: nat) -> Result<Seq<ValueV>, ErrorV>
    decreases fuel, exprs_size(args) + 1,
{
    if args.len() == 0 {
        Ok(Seq::empty())
    } else {
        match eval_list(args.drop_last(), env, fuel) {
            Err(err) => Err(err),
            Ok(vals) => match eval_spec(args.last(), env, fuel) {
                Err(err) => Err(err),
                Ok(v) => Ok(vals.push(v)),
            },
        }
    }
}

/// A call of the function bound to `name`: the name is resolved, then the
/// arguments are evaluated in the caller's bindings, then the function applied.
pub open spec fn call_spec(name: Seq<char>, args: Seq<ExprV>, env: Env, fuel: nat) -> Result<ValueV, ErrorV>
    decreases fuel, exprs_size(args) + 2,
{
    if !env.contains_key(name) {
        Err(ErrorV::FnNotFound(name))
    } else {
        match eval_list(args, env, fuel) {
            Err(err) => Err(err),
            Ok(vals) => match env[name] {
                ValueV::FnDef(d) => apply_spec(d, vals, env, fuel),
                ValueV::FnNative(native) => match narrow_all(vals) {
                    Ok(ps) => Ok(ValueV::Policy(PolicyV::Call(native, ps))),
                    Err(err) => Err(err),
                },
                ValueV::Policy(_) => Err(ErrorV::NotFn(name)),
            },
        }
    }
}

/// A user function applied to values, in a frame nested in the caller's
/// bindings; the body is evaluated with one unit of `fuel` less.
pub open spec fn apply_spec(d: FnDefV, vals: Seq<ValueV>, env: Env, fuel: nat) -> Result<ValueV, ErrorV>
    decreases fuel, 0nat,
{
    if d.params.len() != vals.len() {
        Err(ErrorV::ArgumentMismatch(d.name, d.params.len(), vals.len()))
    } else if fuel == 0 {
        Err(ErrorV::DepthExceeded)
    } else {
        eval_spec(*d.body, bind_params(env, d.params, vals), (fuel - 1) as nat)
    }
}

/// Bindings after one statement.
pub open spec fn step_spec(s: StmtV, env: Env, fuel: nat) -> Result<Env, ErrorV>
    decreases fuel, stmt_size(s),
{
    match s {
        StmtV::Def(d) => Ok(env.insert(d.name, ValueV::FnDef(d))),
        StmtV::Assign(n, e) => match eval_spec(*e, env, fuel) {
            Ok(v) => Ok(env.insert(n, v)),
            Err(err) => Err(err),
        },
    }
}

/// Bindings after statements run in order; the first error aborts.
pub open spec fn run_spec(stmts: Seq<StmtV>, env: Env, fuel: nat) -> Result<Env, ErrorV>
    decreases fuel, stmts_size(stmts) + 1,
{
    if stmts.len() == 0 {
        Ok(env)
    } else {
        match run_spec(stmts.drop_last(), env, fuel) {
            Err(err) => Err(err),
            Ok(e1) => step_spec(stmts.last(), e1, fuel),
        }
    }
}


impl Value {
    /// The policy this value holds; a function value is no policy.
    pub fn into_policy(self) -> (r: Result<Policy, Error>)
        ensures
            match r {
                Ok(p) => narrow(self@) == Ok::<PolicyV, ErrorV>(p@),
                Err(e) => narrow(self@) == Err::<PolicyV, ErrorV>(e@),
            },
    {
        Policy::try_from(self)
    }
}

impl TryFrom<Value> for Policy {
    type Error = Error;

    fn try_from(value: Value) -> (r: Result<Policy, Error>) {
        match value {
            Value::Policy(policy) => Ok(policy),
            _ => Err(Error::NotMiniscriptRepresentable),
        }
    }
}

impl vstd::std_specs::convert::TryFromSpecImpl<Value> for Policy {
    open spec fn obeys_try_from_spec() -> bool {
        true
    }

    open spec fn try_from_spec(value: Value) -> Result<Policy, Error> {
        match value {
            Value::Policy(policy) => Ok(policy),
            _ => Err(Error::NotMiniscriptRepresentable),
        }
    }
}

impl From<Policy> for Value {
    fn from(policy: Policy) -> (r: Value) {
        Value::Policy(policy)
    }
}

impl vstd::std_specs::convert::FromSpecImpl<Policy> for Value {
    open spec fn obeys_from_spec() -> bool {
        true
    }

    open spec fn from_spec(policy: Policy) -> Value {
        Value::Policy(policy)
    }
}

impl From<FnDef> for Value {
    fn from(def: FnDef) -> (r: Value) {
        Value::FnDef(def)
    }
}

impl vstd::std_specs::convert::FromSpecImpl<FnDef> for Value {
    open spec fn obeys_from_spec() -> bool {
        true
    }

    open spec fn from_spec(def: FnDef) -> Value {
        Value::FnDef(def)
    }
}

impl Clone for Value {
    fn clone(&self) -> (r: Self)
        ensures
            r@ == self@,
    {
        match self {
            Value::Policy(p) => Value::Policy(copy_policy(p)),
            Value::FnDef(d) => Value::FnDef(copy_fn_def(d)),
            Value::FnNative(n) => Value::FnNative(n.clone()),
        }
    }
}

/// Narrows values to policies, in order; fails if any is a function.
pub fn map_policy(list: Vec<Value>) -> (r: Result<Vec<Policy>, Error>)
    ensures
        narrowed(r) == narrow_all(values_view(list@)),
{
    let ghost vals = values_view(list@);
    let mut out: Vec<Policy> = Vec::new();
    let mut i: usize = 0;
    let n = list.len();
    while i < n
        invariant
            n == list@.len(),
            i <= n,
            vals == values_view(list@),
            forall|j: int| 0 <= j < i ==> (#[trigger] vals[j]) is Policy,
            policies_view(out@) == policies_of(vals.take(i as int)),
        decreases n - i,
    {
        match &list[i] {
            Value::Policy(p) => {
                let ghost before = out@;
                out.push(copy_policy(p));
                assert(out@.drop_last() =~= before);
                assert(policies_of(vals.take(i + 1)) =~= policies_of(vals.take(i as int)).push(vals[i as int]->Policy_0));
            },
            _ => {
                assert(!all_policies(vals));
                assert(narrow_all(vals) == Err::<Seq<PolicyV>, ErrorV>(ErrorV::NotMiniscriptRepresentable));
                return Err(Error::NotMiniscriptRepresentable);
            },
        }
        i = i + 1;
    }
    assert(vals.take(i as int) =~= vals);
    Ok(out)
}


proof fn lemma_eval_list_prefix_err(s: Seq<ExprV>, k: int, env: Env, fuel: nat)
    requires
        0 <= k <= s.len(),
        eval_list(s.take(k), env, fuel) is Err,
    ensures
        eval_list(s, env, fuel) == eval_list(s.take(k), env, fuel),
    decreases s.len(),
{
    if k < s.len() {
        assert(s.drop_last().take(k) =~= s.take(k));
        lemma_eval_list_prefix_err(s.drop_last(), k, env, fuel);
    } else {
        assert(s.take(k) =~= s);
    }
}

proof fn lemma_run_prefix_err(s: Seq<StmtV>, k: int, env: Env, fuel: nat)
    requires
        0 <= k <= s.len(),
        run_spec(s.take(k), env, fuel) is Err,
    ensures
        run_spec(s, env, fuel) == run_spec(s.take(k), env, fuel),
    decreases s.len(),
{
    if k < s.len() {
        assert(s.drop_last().take(k) =~= s.take(k));
        lemma_run_prefix_err(s.drop_last(), k, env, fuel);
    } else {
        assert(s.take(k) =~= s);
    }
}

/// Evaluates an expression with a budget of `fuel` nested calls of user functions.
pub fn eval_expr(e: &Expr, scope: &Scope, fuel: u64) -> (r: Result<Value, Error>)
    ensures
        outcome(r) == eval_spec(e@, scope.env(), fuel as nat),
    decreases fuel, expr_size(e@),
{
    match e {
        Expr::FnCall(c) => eval_call(&c.name, &c.args, scope, fuel),
        Expr::Or(o) => {
            let name = String::from_str("or");
            eval_call(&name, &o.0, scope, fuel)
        },
        Expr::And(a) => {
            let name = String::from_str("and");
            eval_call(&name, &a.0, scope, fuel)
        },
        Expr::Block(b) => eval_block(b, scope, fuel),
        Expr::Value(v) => match scope.get(&v.0) {
            Some(binding) => Ok(binding.clone()),
            None => Ok(Value::Policy(Policy::Value(v.0.clone()))),
        },
    }
}

/// Evaluates a call of the function bound to `name` on `args`.
fn eval_call(name: &Ident, args: &Vec<Expr>, scope: &Scope, fuel: u64) -> (r: Result<Value, Error>)
    ensures
        outcome(r) == call_spec(name@, exprs_view(args@), scope.env(), fuel as nat),
    decreases fuel, exprs_size(exprs_view(args@)) + 2,
{
    let func = match scope.get(name) {
        Some(func) => func,
        None => return Err(Error::FnNotFound(name.clone())),
    };
    let vals = match eval_exprs(scope, args, fuel) {
        Ok(vals) => vals,
        Err(e) => return Err(e),
    };
    match func {
        Value::FnDef(d) => d.call(vals, scope, fuel),
        Value::FnNative(native) => match map_policy(vals) {
            Ok(ps) => Ok(Value::Policy(Policy::FnCall(native.clone(), ps))),
            Err(e) => Err(e),
        },
        Value::Policy(_) => Err(Error::NotFn(name.clone())),
    }
}

/// Evaluates expressions left to right; the first error aborts.
pub fn eval_exprs(scope: &Scope, list: &Vec<Expr>, fuel: u64) -> (r: Result<Vec<Value>, Error>)
    ensures
        outcomes(r) == eval_list(exprs_view(list@), scope.env(), fuel as nat),
    decreases fuel, exprs_size(exprs_view(list@)) + 1,
{
    let ghost env = scope.env();
    let mut out: Vec<Value> = Vec::new();
    let mut i: usize = 0;
    assert(list@.take(0) =~= Seq::<Expr>::empty());
    assert(values_view(out@) =~= Seq::<ValueV>::empty());
    while i < list.len()
        invariant
            i <= list@.len(),
            env == scope.env(),
            eval_list(exprs_view(list@.take(i as int)), env, fuel as nat) == Ok::<Seq<ValueV>, ErrorV>(values_view(out@)),
        decreases list@.len() - i,
    {
        assert(list@.take(i + 1).drop_last() =~= list@.take(i as int));
        let ghost vs = exprs_view(list@.take(i + 1));
        assert(vs.drop_last() == exprs_view(list@.take(i as int)));
        proof {
            lemma_expr_elem_size(list@, i as int);
        }
        match eval_expr(&list[i], scope, fuel) {
            Ok(v) => {
                let ghost before = out@;
                out.push(v);
                assert(values_view(out@) =~= values_view(before).push(v@));
            },
            Err(e) => {
                proof {
                    lemma_exprs_view_take(list@, i + 1);
                    lemma_eval_list_prefix_err(exprs_view(list@), i + 1, env, fuel as nat);
                }
                return Err(e);
            },
        }
        i = i + 1;
    }
    assert(list@.take(i as int) =~= list@);
    Ok(out)
}

proof fn lemma_exprs_view_take(s: Seq<Expr>, k: int)
    requires
        0 <= k <= s.len(),
    ensures
        exprs_view(s).take(k) == exprs_view(s.take(k)),
        exprs_view(s).len() == s.len(),
    decreases s.len(),
{
    if k < s.len() {
        assert(s.drop_last().take(k) =~= s.take(k));
        lemma_exprs_view_take(s.drop_last(), k);
        assert(exprs_view(s).take(k) =~= exprs_view(s.drop_last()).take(k));
    } else {
        assert(s.take(k) =~= s);
        if s.len() > 0 {
            lemma_exprs_view_take(s.drop_last(), 0);
        }
        assert(exprs_view(s).take(k) =~= exprs_view(s));
    }
}

proof fn lemma_expr_elem_size(s: Seq<Expr>, i: int)
    requires
        0 <= i < s.len(),
    ensures
        expr_size(expr_view(s[i])) < exprs_size(exprs_view(s)),
    decreases s.len(),
{
    let v = exprs_view(s);
    assert(v.drop_last() =~= exprs_view(s.drop_last()));
    if i < s.len() - 1 {
        lemma_expr_elem_size(s.drop_last(), i);
    }
}

proof fn lemma_stmt_elem_size(s: Seq<Stmt>, i: int)
    requires
        0 <= i < s.len(),
    ensures
        stmt_size(stmt_view(s[i])) < stmts_size(stmts_view(s)),
    decreases s.len(),
{
    let v = stmts_view(s);
    assert(v.drop_last() =~= stmts_view(s.drop_last()));
    if i < s.len() - 1 {
        lemma_stmt_elem_size(s.drop_last(), i);
    }
}

proof fn lemma_stmts_view_take(s: Seq<Stmt>, k: int)
    requires
        0 <= k <= s.len(),
    ensures
        stmts_view(s).take(k) == stmts_view(s.take(k)),
        stmts_view(s).len() == s.len(),
    decreases s.len(),
{
    if k < s.len() {
        assert(s.drop_last().take(k) =~= s.take(k));
        lemma_stmts_view_take(s.drop_last(), k);
        assert(stmts_view(s).take(k) =~= stmts_view(s.drop_last()).take(k));
    } else {
        assert(s.take(k) =~= s);
        if s.len() > 0 {
            lemma_stmts_view_take(s.drop_last(), 0);
        }
        assert(stmts_view(s).take(k) =~= stmts_view(s));
    }
}

/// Runs a block's statements in a nested scope, then evaluates its result there.
fn eval_block(b: &Block, scope: &Scope, fuel: u64) -> (r: Result<Value, Error>)
    ensures
        outcome(r) == (match run_spec(stmts_view(b.stmts@), scope.env(), fuel as nat) {
            Ok(inner) => eval_spec((*b.return_value)@, inner, fuel as nat),
            Err(err) => Err(err),
        }),
    decreases fuel, stmts_size(stmts_view(b.stmts@)) + expr_size((*b.return_value)@) + 2,
{
    let ghost env = scope.env();
    let mut inner = Scope::derive(scope);
    let mut i: usize = 0;
    assert(b.stmts@.take(0) =~= Seq::<Stmt>::empty());
    while i < b.stmts.len()
        invariant
            i <= b.stmts@.len(),
            env == scope.env(),
            run_spec(stmts_view(b.stmts@.take(i as int)), env, fuel as nat) == Ok::<Env, ErrorV>(inner.env()),
        decreases b.stmts@.len() - i,
    {
        assert(b.stmts@.take(i + 1).drop_last() =~= b.stmts@.take(i as int));
        let ghost ss = stmts_view(b.stmts@.take(i + 1));
        assert(ss.drop_last() == stmts_view(b.stmts@.take(i as int)));
        proof {
            lemma_stmt_elem_size(b.stmts@, i as int);
        }
        match run_stmt(&b.stmts[i], &mut inner, fuel) {
            Ok(()) => {},
            Err(e) => {
                proof {
                    lemma_stmts_view_take(b.stmts@, i + 1);
                    lemma_run_prefix_err(stmts_view(b.stmts@), i + 1, env, fuel as nat);
                }
                return Err(e);
            },
        }
        i = i + 1;
    }
    assert(b.stmts@.take(i as int) =~= b.stmts@);
    eval_expr(&b.return_value, &inner, fuel)
}

/// Runs one statement in `scope`; on failure the scope is left as it was.
pub fn run_stmt(s: &Stmt, scope: &mut Scope, fuel: u64) -> (r: Result<(), Error>)
    ensures
        match r {
            Ok(_) => step_spec(s@, old(scope).env(), fuel as nat) == Ok::<Env, ErrorV>(final(scope).env()),
            Err(e) => step_spec(s@, old(scope).env(), fuel as nat) == Err::<Env, ErrorV>(e@)
                && final(scope).env() == old(scope).env(),
        },
    decreases fuel, stmt_size(s@),
{
    match s {
        Stmt::FnDef(d) => {
            scope.set(d.name.clone(), Value::FnDef(copy_fn_def(d)));
            Ok(())
        },
        Stmt::Assign(a) => match eval_expr(&a.value, scope, fuel) {
            Ok(v) => {
                scope.set(a.name.clone(), v);
                Ok(())
            },
            Err(e) => Err(e),
        },
    }
}

impl FnDef {
    /// Applies this function to `args`: parameters are bound in a frame nested
    /// in the caller's `scope`, where the body is then evaluated with one unit
    /// of `fuel` less.
    pub fn call(&self, args: Vec<Value>, scope: &Scope, fuel: u64) -> (r: Result<Value, Error>)
        ensures
            outcome(r) == apply_spec(self@, values_view(args@), scope.env(), fuel as nat),
        decreases fuel, 0nat,
    {
        if self.args.len() != args.len() {
            return Err(Error::ArgumentMismatch(self.name.clone(), self.args.len(), args.len()));
        }
        if fuel == 0 {
            return Err(Error::DepthExceeded);
        }
        let ghost env = scope.env();
        let ghost ps = names_view(self.args@);
        let ghost vs = values_view(args@);
        let mut inner = scope.child();
        let mut i: usize = 0;
        assert(ps.take(0) =~= Seq::<Seq<char>>::empty());
        while i < args.len()
            invariant
                i <= args@.len(),
                args@.len() == self.args@.len(),
                ps == names_view(self.args@),
                vs == values_view(args@),
                inner.env() == bind_params(env, ps.take(i as int), vs.take(i as int)),
            decreases args@.len() - i,
        {
            assert(ps.take(i + 1).drop_last() =~= ps.take(i as int));
            assert(vs.take(i + 1).drop_last() =~= vs.take(i as int));
            inner.set(self.args[i].clone(), args[i].clone());
            i = i + 1;
        }
        assert(ps.take(i as int) =~= ps);
        assert(vs.take(i as int) =~= vs);
        eval_expr(&self.body, &inner, fuel - 1)
    }
}


impl Evaluate for Expr {
    open spec fn expr_model(&self) -> ExprV {
        self@
    }

    fn eval(&self, scope: &Scope) -> (r: Result<Value, Error>) {
        eval_expr(self, scope, MAX_DEPTH)
    }
}

impl Evaluate for FnCall {
    open spec fn expr_model(&self) -> ExprV {
        ExprV::Call(self.name@, exprs_view(self.args@))
    }

    fn eval(&self, scope: &Scope) -> (r: Result<Value, Error>) {
        eval_call(&self.name, &self.args, scope, MAX_DEPTH)
    }
}

impl Evaluate for Or {
    open spec fn expr_model(&self) -> ExprV {
        ExprV::Or(exprs_view(self.0@))
    }

    fn eval(&self, scope: &Scope) -> (r: Result<Value, Error>) {
        let name = String::from_str("or");
        eval_call(&name, &self.0, scope, MAX_DEPTH)
    }
}

impl Evaluate for And {
    open spec fn expr_model(&self) -> ExprV {
        ExprV::And(exprs_view(self.0@))
    }

    fn eval(&self, scope: &Scope) -> (r: Result<Value, Error>) {
        let name = String::from_str("and");
        eval_call(&name, &self.0, scope, MAX_DEPTH)
    }
}

impl Evaluate for Block {
    open spec fn expr_model(&self) -> ExprV {
        ExprV::Block(stmts_view(self.stmts@), Box::new(expr_view(*self.return_value)))
    }

    fn eval(&self, scope: &Scope) -> (r: Result<Value, Error>) {
        eval_block(self, scope, MAX_DEPTH)
    }
}

impl Evaluate for ast::Value {
    open spec fn expr_model(&self) -> ExprV {
        ExprV::Name(self.0@)
    }

    fn eval(&self, scope: &Scope) -> (r: Result<Value, Error>) {
        match scope.get(&self.0) {
            Some(binding) => Ok(binding.clone()),
            None => Ok(Value::Policy(Policy::Value(self.0.clone()))),
        }
    }
}

impl Run for Stmt {
    open spec fn stmt_model(&self) -> StmtV {
        self@
    }

    fn run(&self, scope: &mut Scope) -> (r: Result<(), Error>) {
        run_stmt(self, scope, MAX_DEPTH)
    }
}

impl Run for Assign {
    open spec fn stmt_model(&self) -> StmtV {
        StmtV::Assign(self.name@, Box::new(expr_view(*self.value)))
    }

    fn run(&self, scope: &mut Scope) -> (r: Result<(), Error>) {
        match eval_expr(&self.value, scope, MAX_DEPTH) {
            Ok(v) => {
                scope.set(self.name.clone(), v);
                Ok(())
            },
            Err(e) => Err(e),
        }
    }
}

impl Run for FnDef {
    open spec fn stmt_model(&self) -> StmtV {
        StmtV::Def(fn_def_view(*self))
    }

    fn run(&self, scope: &mut Scope) -> (r: Result<(), Error>) {
        scope.set(self.name.clone(), Value::FnDef(copy_fn_def(self)));
        Ok(())
    }
}

} // verus!
