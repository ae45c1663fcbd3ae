use minsc::ast::{self, And, Assign, Block, Expr, FnCall, FnDef, Or, Stmt};
use minsc::error::Error;
use minsc::execution::{eval_expr, eval_exprs, map_policy, Evaluate, Run, Value, MAX_DEPTH};
use minsc::policy::Policy;
use minsc::scope::Scope;

fn s(x: &str) -> String {
    x.to_string()
}

fn name(x: &str) -> Expr {
    Expr::Value(ast::Value(s(x)))
}

fn call(f: &str, args: Vec<Expr>) -> Expr {
    Expr::FnCall(FnCall { name: s(f), args })
}

fn leaf(x: &str) -> Policy {
    Policy::Value(s(x))
}

fn natives<'a>() -> Scope<'a> {
    let mut scope = Scope::new();
    scope.set(s("or"), Value::FnNative(s("or")));
    scope.set(s("and"), Value::FnNative(s("and")));
    scope
}

fn fn_def(n: &str, params: &[&str], body: Expr) -> FnDef {
    FnDef { name: s(n), args: params.iter().map(|p| s(p)).collect(), body: Box::new(body) }
}

#[test]
fn or_of_unbound_names_is_a_policy_call() {
    let scope = natives();
    let e = Or(vec![name("a"), name("b")]);
    assert_eq!(
        e.eval(&scope),
        Ok(Value::Policy(Policy::FnCall(s("or"), vec![leaf("a"), leaf("b")])))
    );
}

#[test]
fn double_applies_and_to_its_argument_twice() {
    let mut scope = natives();
    let double = fn_def("double", &["x"], call("and", vec![name("x"), name("x")]));
    double.run(&mut scope).unwrap();
    let expected = Ok(Value::Policy(Policy::FnCall(s("and"), vec![leaf("p"), leaf("p")])));
    assert_eq!(call("double", vec![name("p")]).eval(&scope), expected);
    assert_eq!(double.call(vec![Value::Policy(leaf("p"))], &scope, MAX_DEPTH), expected);
}

#[test]
fn same_expression_twice_gives_equal_values() {
    let build = || {
        let mut scope = natives();
        scope.set(s("k"), Value::Policy(leaf("pk")));
        scope
    };
    let first = build();
    let second = build();
    let e = And(vec![name("k"), Expr::Or(Or(vec![name("k"), name("z")]))]);
    let a = e.eval(&first);
    let b = e.eval(&second);
    assert!(a.is_ok());
    assert_eq!(a, b);
    assert_eq!(e.eval(&first), a);
}

#[test]
fn undefined_function_is_not_found() {
    let scope = natives();
    assert_eq!(call("nope", vec![]).eval(&scope), Err(Error::FnNotFound(s("nope"))));
    assert_eq!(
        call("nope", vec![name("a"), name("b")]).eval(&scope),
        Err(Error::FnNotFound(s("nope")))
    );
}

#[test]
fn or_without_native_is_not_found() {
    let scope = Scope::new();
    assert_eq!(Or(vec![name("a")]).eval(&scope), Err(Error::FnNotFound(s("or"))));
    assert_eq!(And(vec![name("a")]).eval(&scope), Err(Error::FnNotFound(s("and"))));
}

#[test]
fn callee_is_resolved_before_arguments() {
    let scope = natives();
    let e = call("nope", vec![call("missing", vec![])]);
    assert_eq!(e.eval(&scope), Err(Error::FnNotFound(s("nope"))));
}

#[test]
fn too_few_arguments_is_a_mismatch() {
    let mut scope = natives();
    fn_def("pair", &["a", "b"], call("and", vec![name("a"), name("b")])).run(&mut scope).unwrap();
    assert_eq!(
        call("pair", vec![name("x")]).eval(&scope),
        Err(Error::ArgumentMismatch(s("pair"), 2, 1))
    );
}

#[test]
fn too_many_arguments_is_a_mismatch() {
    let mut scope = natives();
    fn_def("pair", &["a", "b"], call("and", vec![name("a"), name("b")])).run(&mut scope).unwrap();
    assert_eq!(
        call("pair", vec![name("x"), name("y"), name("z")]).eval(&scope),
        Err(Error::ArgumentMismatch(s("pair"), 2, 3))
    );
}

#[test]
fn mismatch_names_the_definition() {
    let mut scope = natives();
    let f = fn_def("f", &[], name("a"));
    scope.set(s("alias"), Value::FnDef(f));
    assert_eq!(
        call("alias", vec![name("x")]).eval(&scope),
        Err(Error::ArgumentMismatch(s("f"), 0, 1))
    );
}

#[test]
fn argument_errors_come_before_arity() {
    let mut scope = natives();
    fn_def("one", &["a"], name("a")).run(&mut scope).unwrap();
    let e = call("one", vec![call("g", vec![]), call("h", vec![])]);
    assert_eq!(e.eval(&scope), Err(Error::FnNotFound(s("g"))));
}

#[test]
fn block_assignments_stay_inside() {
    let mut outer = natives();
    outer.set(s("y"), Value::Policy(leaf("why")));
    let block = Block {
        stmts: vec![Stmt::Assign(Assign { name: s("x"), value: Box::new(name("1")) })],
        return_value: Box::new(name("y")),
    };
    assert_eq!(block.eval(&outer), Ok(Value::Policy(leaf("why"))));
    assert!(outer.get(&s("x")).is_none());
    assert_eq!(name("x").eval(&outer), Ok(Value::Policy(leaf("x"))));
    let stmt = Assign { name: s("z"), value: Box::new(Expr::Block(block)) };
    stmt.run(&mut outer).unwrap();
    assert!(outer.get(&s("x")).is_none());
    assert_eq!(outer.get(&s("z")), Some(&Value::Policy(leaf("why"))));
}

#[test]
fn block_value_sees_its_own_assignments() {
    let scope = natives();
    let block = Block {
        stmts: vec![Stmt::Assign(Assign { name: s("x"), value: Box::new(name("1")) })],
        return_value: Box::new(name("x")),
    };
    assert_eq!(block.eval(&scope), Ok(Value::Policy(leaf("1"))));
}

#[test]
fn block_stops_at_first_failing_statement() {
    let scope = natives();
    let block = Block {
        stmts: vec![
            Stmt::Assign(Assign { name: s("x"), value: Box::new(call("bad", vec![])) }),
            Stmt::Assign(Assign { name: s("y"), value: Box::new(call("worse", vec![])) }),
        ],
        return_value: Box::new(call("worst", vec![])),
    };
    assert_eq!(block.eval(&scope), Err(Error::FnNotFound(s("bad"))));
}

#[test]
fn or_and_match_native_calls() {
    let mut scope = natives();
    scope.set(s("k"), Value::Policy(leaf("key")));
    let args = || vec![name("k"), name("b")];
    assert_eq!(Or(args()).eval(&scope), call("or", args()).eval(&scope));
    assert_eq!(And(args()).eval(&scope), call("and", args()).eval(&scope));
    assert_eq!(
        And(args()).eval(&scope),
        Ok(Value::Policy(Policy::FnCall(s("and"), vec![leaf("key"), leaf("b")])))
    );
}

#[test]
fn body_sees_bindings_at_call_site() {
    let mut scope = natives();
    scope.set(s("x"), Value::Policy(leaf("old")));
    let block = Block {
        stmts: vec![
            Stmt::FnDef(fn_def("f", &[], name("x"))),
            Stmt::Assign(Assign { name: s("x"), value: Box::new(name("new")) }),
        ],
        return_value: Box::new(call("f", vec![])),
    };
    assert_eq!(block.eval(&scope), Ok(Value::Policy(leaf("new"))));
}

#[test]
fn body_does_not_see_definition_site_frame() {
    let mut scope = natives();
    let inner = Block {
        stmts: vec![Stmt::Assign(Assign { name: s("secret"), value: Box::new(name("s1")) })],
        return_value: Box::new(name("secret")),
    };
    fn_def("g", &[], name("secret")).run(&mut scope).unwrap();
    assert_eq!(Expr::Block(inner).eval(&scope), Ok(Value::Policy(leaf("s1"))));
    assert_eq!(call("g", vec![]).eval(&scope), Ok(Value::Policy(leaf("secret"))));
}

#[test]
fn self_call_resolves_until_depth_runs_out() {
    let mut scope = natives();
    fn_def("loop_", &[], call("loop_", vec![])).run(&mut scope).unwrap();
    assert_eq!(eval_expr(&call("loop_", vec![]), &scope, 64), Err(Error::DepthExceeded));
}

#[test]
fn own_name_is_visible_in_body() {
    let mut scope = natives();
    let f = fn_def("f", &[], name("f"));
    f.run(&mut scope).unwrap();
    assert_eq!(call("f", vec![]).eval(&scope), Ok(Value::FnDef(f.clone())));
    let inner = Scope::derive(&scope);
    assert_eq!(call("f", vec![]).eval(&inner), Ok(Value::FnDef(f)));
}

#[test]
fn deep_nesting_of_natives_evaluates() {
    let scope = natives();
    let mut e = name("a");
    let mut expected = leaf("a");
    for _ in 0..300 {
        e = Expr::Or(Or(vec![e]));
        expected = Policy::FnCall(s("or"), vec![expected]);
    }
    assert_eq!(e.eval(&scope), Ok(Value::Policy(expected)));
}

#[test]
fn function_argument_to_native_is_not_representable() {
    let mut scope = natives();
    fn_def("f", &[], name("a")).run(&mut scope).unwrap();
    assert_eq!(
        Or(vec![name("a"), name("f")]).eval(&scope),
        Err(Error::NotMiniscriptRepresentable)
    );
    assert_eq!(
        call("and", vec![name("or")]).eval(&scope),
        Err(Error::NotMiniscriptRepresentable)
    );
}

#[test]
fn calling_a_policy_is_not_a_function() {
    let mut scope = natives();
    scope.set(s("k"), Value::Policy(leaf("key")));
    assert_eq!(call("k", vec![]).eval(&scope), Err(Error::NotFn(s("k"))));
}

#[test]
fn native_call_uses_the_native_name() {
    let mut scope = natives();
    scope.set(s("either"), Value::FnNative(s("or")));
    assert_eq!(
        call("either", vec![name("a")]).eval(&scope),
        Ok(Value::Policy(Policy::FnCall(s("or"), vec![leaf("a")])))
    );
    assert_eq!(
        call("either", vec![]).eval(&scope),
        Ok(Value::Policy(Policy::FnCall(s("or"), vec![])))
    );
}

#[test]
fn bound_name_evaluates_to_its_value() {
    let mut scope = natives();
    let f = fn_def("f", &["a"], name("a"));
    scope.set(s("h"), Value::FnDef(f.clone()));
    assert_eq!(name("h").eval(&scope), Ok(Value::FnDef(f)));
    assert_eq!(name("or").eval(&scope), Ok(Value::FnNative(s("or"))));
}

#[test]
fn repeated_parameter_takes_last_argument() {
    let mut scope = natives();
    fn_def("f", &["a", "a"], name("a")).run(&mut scope).unwrap();
    assert_eq!(
        call("f", vec![name("p"), name("q")]).eval(&scope),
        Ok(Value::Policy(leaf("q")))
    );
}

#[test]
fn function_values_pass_through_user_functions() {
    let mut scope = natives();
    fn_def("apply", &["g", "v"], call("g", vec![name("v")])).run(&mut scope).unwrap();
    fn_def("twice", &["x"], call("and", vec![name("x"), name("x")])).run(&mut scope).unwrap();
    assert_eq!(
        call("apply", vec![name("twice"), name("k")]).eval(&scope),
        Ok(Value::Policy(Policy::FnCall(s("and"), vec![leaf("k"), leaf("k")])))
    );
}

#[test]
fn into_policy_narrows() {
    assert_eq!(Value::Policy(leaf("a")).into_policy(), Ok(leaf("a")));
    assert_eq!(Value::FnNative(s("or")).into_policy(), Err(Error::NotMiniscriptRepresentable));
    assert_eq!(
        Value::FnDef(fn_def("f", &[], name("a"))).into_policy(),
        Err(Error::NotMiniscriptRepresentable)
    );
}

#[test]
fn map_policy_keeps_order_or_fails() {
    let ok = map_policy(vec![Value::Policy(leaf("a")), Value::Policy(leaf("b"))]);
    assert_eq!(ok, Ok(vec![leaf("a"), leaf("b")]));
    assert_eq!(map_policy(vec![]), Ok(vec![]));
    let bad = map_policy(vec![Value::Policy(leaf("a")), Value::FnNative(s("or"))]);
    assert_eq!(bad, Err(Error::NotMiniscriptRepresentable));
}

#[test]
fn eval_exprs_in_order() {
    let mut scope = natives();
    scope.set(s("k"), Value::Policy(leaf("key")));
    assert_eq!(
        eval_exprs(&scope, &vec![name("k"), name("j")], MAX_DEPTH),
        Ok(vec![Value::Policy(leaf("key")), Value::Policy(leaf("j"))])
    );
    assert_eq!(
        eval_exprs(&scope, &vec![name("k"), call("g", vec![]), call("h", vec![])], MAX_DEPTH),
        Err(Error::FnNotFound(s("g")))
    );
}

#[test]
fn no_depth_left_fails_only_user_calls() {
    let mut scope = natives();
    assert_eq!(eval_expr(&name("a"), &scope, 0), Ok(Value::Policy(leaf("a"))));
    let nested = Expr::Or(Or(vec![Expr::And(And(vec![name("a")]))]));
    assert_eq!(
        eval_expr(&nested, &scope, 0),
        Ok(Value::Policy(Policy::FnCall(s("or"), vec![Policy::FnCall(s("and"), vec![leaf("a")])])))
    );
    fn_def("id", &["x"], name("x")).run(&mut scope).unwrap();
    assert_eq!(eval_expr(&call("id", vec![name("p")]), &scope, 0), Err(Error::DepthExceeded));
    assert_eq!(eval_expr(&call("id", vec![name("p")]), &scope, 1), Ok(Value::Policy(leaf("p"))));
    assert_eq!(
        eval_expr(&call("id", vec![]), &scope, 0),
        Err(Error::ArgumentMismatch(s("id"), 1, 0))
    );
    let twice = call("id", vec![call("id", vec![name("p")])]);
    assert_eq!(eval_expr(&twice, &scope, 1), Ok(Value::Policy(leaf("p"))));
    let inside = fn_def("outer", &["x"], call("id", vec![name("x")]));
    inside.run(&mut scope).unwrap();
    assert_eq!(eval_expr(&call("outer", vec![name("p")]), &scope, 1), Err(Error::DepthExceeded));
    assert_eq!(eval_expr(&call("outer", vec![name("p")]), &scope, 2), Ok(Value::Policy(leaf("p"))));
}

#[test]
fn inner_frame_shadows_without_changing_parent() {
    let mut root = natives();
    root.set(s("v"), Value::Policy(leaf("outer")));
    {
        let mut inner = Scope::derive(&root);
        assert_eq!(inner.get(&s("v")), Some(&Value::Policy(leaf("outer"))));
        inner.set(s("v"), Value::Policy(leaf("inner")));
        assert_eq!(inner.get(&s("v")), Some(&Value::Policy(leaf("inner"))));
        let deeper = inner.child();
        assert_eq!(deeper.get(&s("v")), Some(&Value::Policy(leaf("inner"))));
    }
    assert_eq!(root.get(&s("v")), Some(&Value::Policy(leaf("outer"))));
    root.set(s("v"), Value::Policy(leaf("again")));
    assert_eq!(root.get(&s("v")), Some(&Value::Policy(leaf("again"))));
}

#[test]
fn failed_assignment_leaves_scope_unchanged() {
    let mut scope = natives();
    let stmt = Stmt::Assign(Assign { name: s("x"), value: Box::new(call("nope", vec![])) });
    assert_eq!(stmt.run(&mut scope), Err(Error::FnNotFound(s("nope"))));
    assert!(scope.get(&s("x")).is_none());
}

#[test]
fn clones_are_equal() {
    let p = Policy::FnCall(s("or"), vec![leaf("a"), Policy::FnCall(s("and"), vec![leaf("b")])]);
    assert_eq!(p.clone(), p);
    let e = Expr::Block(Block {
        stmts: vec![Stmt::FnDef(fn_def("f", &["x"], name("x")))],
        return_value: Box::new(call("f", vec![name("y")])),
    });
    assert_eq!(e.clone(), e);
    let v = Value::FnDef(fn_def("f", &["x"], e));
    assert_eq!(v.clone(), v);
}

#[test]
fn conversions_between_values_and_policies() {
    assert_eq!(Value::from(leaf("a")), Value::Policy(leaf("a")));
    let f = fn_def("f", &[], name("a"));
    assert_eq!(Value::from(f.clone()), Value::FnDef(f.clone()));
    assert_eq!(Policy::try_from(Value::Policy(leaf("b"))), Ok(leaf("b")));
    assert_eq!(Policy::try_from(Value::FnDef(f)), Err(Error::NotMiniscriptRepresentable));
}
