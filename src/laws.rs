//! Properties of evaluation, proved over the model.
use vstd::prelude::*;
use crate::ast::{ExprV, FnDefV, StmtV};
use crate::error::ErrorV;
use crate::execution::{
    all_policies, apply_spec, bind_params, call_spec, eval_list, eval_spec, step_spec, Env, ValueV,
};
use crate::scope::Scope;

verus! {

/// Evaluating an expression depends on nothing but the bindings in view: in
/// two scopes that bind the same names to the same values, it has the same
/// outcome.
pub proof fn lemma_eval_deterministic(e: ExprV, s1: &Scope, s2: &Scope, fuel: nat)
    requires
        s1.env() == s2.env(),
    ensures
        eval_spec(e, s1.env(), fuel) == eval_spec(e, s2.env(), fuel),
{
}

/// Evaluating expressions that all succeed gives one value per expression.
pub proof fn lemma_eval_list_len(args: Seq<ExprV>, env: Env, fuel: nat)
    ensures
        eval_list(args, env, fuel) matches Ok(vals) ==> vals.len() == args.len(),
    decreases args.len(),
{
    if args.len() > 0 {
        lemma_eval_list_len(args.drop_last(), env, fuel);
    }
}

/// Calling a name that is not bound fails with `FnNotFound`, whatever the arguments.
pub proof fn lemma_unbound_call_fails(name: Seq<char>, args: Seq<ExprV>, env: Env, fuel: nat)
    requires
        !env.contains_key(name),
    ensures
        eval_spec(ExprV::Call(name, args), env, fuel) == Err::<ValueV, ErrorV>(ErrorV::FnNotFound(name)),
{
    assert(eval_spec(ExprV::Call(name, args), env, fuel) == call_spec(name, args, env, fuel));
}

/// Calling a user function with more or fewer arguments than it has
/// parameters fails with `ArgumentMismatch`, carrying its name, the number of
/// parameters and the number of arguments.
pub proof fn lemma_arity_mismatch(name: Seq<char>, args: Seq<ExprV>, d: FnDefV, env: Env, fuel: nat)
    requires
        env.contains_key(name),
        env[name] == ValueV::FnDef(d),
        eval_list(args, env, fuel) is Ok,
        args.len() != d.params.len(),
    ensures
        eval_spec(ExprV::Call(name, args), env, fuel) == Err::<ValueV, ErrorV>(
            ErrorV::ArgumentMismatch(d.name, d.params.len(), args.len()),
        ),
{
    lemma_eval_list_len(args, env, fuel);
    let vals = eval_list(args, env, fuel)->Ok_0;
    assert(eval_spec(ExprV::Call(name, args), env, fuel) == call_spec(name, args, env, fuel));
    assert(call_spec(name, args, env, fuel) == apply_spec(d, vals, env, fuel));
}

/// Bindings made inside a block stay there: after `n = { ... }` every other
/// name is bound exactly as before.
pub proof fn lemma_block_bindings_stay_inside(
    n: Seq<char>,
    stmts: Seq<StmtV>,
    ret: ExprV,
    env: Env,
    fuel: nat,
)
    ensures
        step_spec(StmtV::Assign(n, Box::new(ExprV::Block(stmts, Box::new(ret)))), env, fuel) matches Ok(after)
            ==> forall|k: Seq<char>| k != n ==> {
                &&& after.contains_key(k) == env.contains_key(k)
                &&& (env.contains_key(k) ==> after[k] == env[k])
            },
{
}

/// `or(...)` and `and(...)` are calls of the functions bound to `or` and `and`.
pub proof fn lemma_or_and_are_calls(args: Seq<ExprV>, env: Env, fuel: nat)
    ensures
        eval_spec(ExprV::Or(args), env, fuel) == eval_spec(ExprV::Call("or"@, args), env, fuel),
        eval_spec(ExprV::And(args), env, fuel) == eval_spec(ExprV::Call("and"@, args), env, fuel),
{
}

/// A function body sees the bindings at the call site: with `f() = x`
/// defined and `x` bound again afterwards, `f()` gives the newer value.
pub proof fn lemma_body_sees_call_site(d: FnDefV, x: Seq<char>, v: ValueV, env: Env, fuel: nat)
    requires
        d.params.len() == 0,
        *d.body == ExprV::Name(x),
        x != d.name,
        fuel >= 1,
    ensures
        eval_spec(
            ExprV::Call(d.name, Seq::empty()),
            env.insert(d.name, ValueV::FnDef(d)).insert(x, v),
            fuel,
        ) == Ok::<ValueV, ErrorV>(v),
{
    let env1 = env.insert(d.name, ValueV::FnDef(d)).insert(x, v);
    let f = (fuel - 1) as nat;
    assert(eval_list(Seq::empty(), env1, fuel) == Ok::<Seq<ValueV>, ErrorV>(Seq::empty()));
    assert(bind_params(env1, d.params, Seq::empty()) == env1);
    assert(eval_spec(ExprV::Call(d.name, Seq::empty()), env1, fuel) == call_spec(d.name, Seq::empty(), env1, fuel));
    assert(call_spec(d.name, Seq::empty(), env1, fuel) == apply_spec(d, Seq::empty(), env1, fuel));
    assert(apply_spec(d, Seq::empty(), env1, fuel) == eval_spec(ExprV::Name(x), env1, f));
    assert(eval_spec(ExprV::Name(x), env1, f) == Ok::<ValueV, ErrorV>(v));
}

/// A function that calls itself resolves its own name at every level: the
/// evaluation never fails with `FnNotFound` and runs until the budget of
/// nested calls is spent.
pub proof fn lemma_self_call_resolves(d: FnDefV, env: Env, fuel: nat)
    requires
        d.params.len() == 0,
        *d.body == ExprV::Call(d.name, Seq::empty()),
        env.contains_key(d.name),
        env[d.name] == ValueV::FnDef(d),
    ensures
        eval_spec(ExprV::Call(d.name, Seq::empty()), env, fuel) == Err::<ValueV, ErrorV>(ErrorV::DepthExceeded),
    decreases fuel,
{
    assert(eval_list(Seq::empty(), env, fuel) == Ok::<Seq<ValueV>, ErrorV>(Seq::empty()));
    assert(bind_params(env, d.params, Seq::empty()) == env);
    assert(eval_spec(ExprV::Call(d.name, Seq::empty()), env, fuel) == call_spec(d.name, Seq::empty(), env, fuel));
    assert(call_spec(d.name, Seq::empty(), env, fuel) == apply_spec(d, Seq::empty(), env, fuel));
    if fuel > 0 {
        lemma_self_call_resolves(d, env, (fuel - 1) as nat);
    }
}

/// A function value passed to a native function fails the call with
/// `NotMiniscriptRepresentable`.
pub proof fn lemma_function_argument_to_native(
    name: Seq<char>,
    native: Seq<char>,
    args: Seq<ExprV>,
    env: Env,
    fuel: nat,
    i: int,
)
    requires
        env.contains_key(name),
        env[name] == ValueV::FnNative(native),
        eval_list(args, env, fuel) matches Ok(vals) && 0 <= i < vals.len() && !(vals[i] is Policy),
    ensures
        eval_spec(ExprV::Call(name, args), env, fuel) == Err::<ValueV, ErrorV>(ErrorV::NotMiniscriptRepresentable),
{
    let vals = eval_list(args, env, fuel)->Ok_0;
    assert(!all_policies(vals));
    assert(eval_spec(ExprV::Call(name, args), env, fuel) == call_spec(name, args, env, fuel));
}

/// Binding parameters changes no other name.
pub proof fn lemma_bind_params_keeps_others(env: Env, params: Seq<Seq<char>>, vals: Seq<ValueV>, k: Seq<char>)
    requires
        !params.contains(k),
    ensures
        bind_params(env, params, vals).contains_key(k) == env.contains_key(k),
        env.contains_key(k) ==> bind_params(env, params, vals)[k] == env[k],
    decreases params.len(),
{
    if params.len() > 0 && vals.len() > 0 {
        assert(!params.drop_last().contains(k)) by {
            if params.drop_last().contains(k) {
                let j = choose|j: int| 0 <= j < params.drop_last().len() && params.drop_last()[j] == k;
                assert(params[j] == k);
            }
        }
        assert(params.last() != k) by {
            assert(params[params.len() - 1] == params.last());
        }
        lemma_bind_params_keeps_others(env, params.drop_last(), vals.drop_last(), k);
    }
}

/// A function's body sees the function under its own name, wherever it is
/// called from, unless a parameter has that name: a body that is just its own
/// name gives the function itself.
pub proof fn lemma_own_name_in_body(d: FnDefV, vals: Seq<ValueV>, env: Env, fuel: nat)
    requires
        env.contains_key(d.name),
        env[d.name] == ValueV::FnDef(d),
        !d.params.contains(d.name),
        d.params.len() == vals.len(),
        fuel > 0,
    ensures
        bind_params(env, d.params, vals).contains_key(d.name),
        bind_params(env, d.params, vals)[d.name] == ValueV::FnDef(d),
        *d.body == ExprV::Name(d.name) ==> apply_spec(d, vals, env, fuel) == Ok::<ValueV, ErrorV>(ValueV::FnDef(d)),
{
    lemma_bind_params_keeps_others(env, d.params, vals, d.name);
    let inner = bind_params(env, d.params, vals);
    if *d.body == ExprV::Name(d.name) {
        assert(apply_spec(d, vals, env, fuel) == eval_spec(ExprV::Name(d.name), inner, (fuel - 1) as nat));
    }
}

} // verus!
