use term_rewrite::{clone_expr, eq_expr, replace, Bindings, Expr, Pattern, Rule};

fn sym(name: &str) -> Expr {
    Expr::Sym(name.to_string())
}

fn fun(name: &str, args: Vec<Expr>) -> Expr {
    Expr::Fun(name.to_string(), args)
}

#[test]
fn match_is_deterministic() {
    let pattern = fun("f", vec![sym("x"), sym("y")]);
    let ground = fun("f", vec![sym("a"), fun("g", vec![sym("b")])]);
    let r1 = Pattern::new().pattern_match(clone_expr(&pattern), clone_expr(&ground));
    let r2 = Pattern::new().pattern_match(clone_expr(&pattern), clone_expr(&ground));
    let b1 = r1.expect("first attempt must succeed");
    let b2 = r2.expect("second attempt must succeed");
    for name in ["x", "y"] {
        let key = name.to_string();
        let e1 = b1.get(&key).expect("bound in first attempt");
        let e2 = b2.get(&key).expect("bound in second attempt");
        assert!(eq_expr(e1, e2));
    }
}

#[test]
fn atom_matches_any_ground() {
    let ground = fun("f", vec![sym("a"), fun("g", vec![])]);
    let r = Pattern::new().pattern_match(sym("x"), clone_expr(&ground));
    let bindings = r.expect("an atomic pattern matches any ground expression");
    let bound = bindings.get(&"x".to_string()).expect("x must be bound");
    assert!(eq_expr(bound, &ground));
}

#[test]
fn name_mismatch_fails() {
    let pattern = fun("f", vec![sym("a")]);
    let ground = fun("g", vec![sym("a")]);
    assert!(Pattern::new().pattern_match(pattern, ground).is_none());
}

#[test]
fn arity_mismatch_fails() {
    let pattern = fun("f", vec![sym("a")]);
    let ground = fun("f", vec![sym("a"), sym("b")]);
    assert!(Pattern::new().pattern_match(pattern, ground).is_none());
}

#[test]
fn shape_mismatch_fails() {
    let pattern = fun("f", vec![sym("x")]);
    let ground = sym("a");
    assert!(Pattern::new().pattern_match(pattern, ground).is_none());
}

#[test]
fn nonlinear_consistent_succeeds() {
    let pattern = fun("f", vec![sym("x"), sym("x")]);
    let ground = fun("f", vec![sym("a"), sym("a")]);
    let r = Pattern::new().pattern_match(pattern, ground);
    let bindings = r.expect("equal arguments satisfy a repeated variable");
    let bound = bindings.get(&"x".to_string()).expect("x must be bound");
    assert!(eq_expr(bound, &sym("a")));
}

#[test]
fn nonlinear_conflict_fails() {
    let pattern = fun("f", vec![sym("x"), sym("x")]);
    let ground = fun("f", vec![sym("a"), sym("b")]);
    assert!(Pattern::new().pattern_match(pattern, ground).is_none());
}

#[test]
fn zero_arity_match_succeeds() {
    let r = Pattern::new().pattern_match(fun("f", vec![]), fun("f", vec![]));
    let bindings = r.expect("equal nullary terms match");
    assert!(bindings.get(&"x".to_string()).is_none());
}

#[test]
fn first_binding_is_authoritative() {
    let mut attempt = Pattern::new();
    assert!(attempt.pattern_match(sym("x"), sym("a")).is_some());
    assert!(attempt.pattern_match(sym("x"), sym("b")).is_none());
    assert!(attempt.pattern_match(sym("x"), sym("a")).is_some());
}

#[test]
fn substitute_unbound_symbol_unchanged() {
    let mut bindings = Bindings::new();
    bindings.insert("x".to_string(), sym("a"));
    let r = replace(sym("z"), bindings);
    assert!(eq_expr(&r, &sym("z")));
}

#[test]
fn substitute_is_structural_and_total() {
    let mut bindings = Bindings::new();
    bindings.insert("x".to_string(), fun("h", vec![sym("c")]));
    bindings.insert("y".to_string(), sym("b"));
    let template = fun("f", vec![sym("x"), sym("y")]);
    let r = replace(template, bindings);
    let expected = fun("f", vec![fun("h", vec![sym("c")]), sym("b")]);
    assert!(eq_expr(&r, &expected));
}

#[test]
fn substitution_is_single_pass() {
    let mut bindings = Bindings::new();
    bindings.insert("x".to_string(), sym("y"));
    bindings.insert("y".to_string(), sym("z"));
    let r = replace(sym("x"), bindings);
    assert!(eq_expr(&r, &sym("y")));
}

#[test]
fn end_to_end_swap_pair() {
    let head = fun("swap", vec![fun("pair", vec![sym("X"), sym("Y")])]);
    let body = fun("pair", vec![sym("Y"), sym("X")]);
    let rule = Rule::new(head, body);
    let query = fun("swap", vec![fun("pair", vec![sym("a"), sym("b")])]);
    let bindings = Pattern::new()
        .pattern_match(rule.head, query)
        .expect("the query instance matches the rule head");
    let x = bindings.get(&"X".to_string()).expect("X must be bound");
    assert!(eq_expr(x, &sym("a")));
    let y = bindings.get(&"Y".to_string()).expect("Y must be bound");
    assert!(eq_expr(y, &sym("b")));
    let rewritten = replace(rule.body, bindings);
    assert!(eq_expr(&rewritten, &fun("pair", vec![sym("b"), sym("a")])));
    assert_eq!(rewritten.render(), "pair(b, a)");
}

#[test]
fn render_symbol_and_function() {
    assert_eq!(sym("a").render(), "a");
    assert_eq!(fun("f", vec![]).render(), "f()");
    assert_eq!(
        fun("f", vec![fun("g", vec![sym("a")]), sym("b")]).render(),
        "f(g(a), b)"
    );
}

#[test]
fn render_rule_uses_turnstile() {
    let rule = Rule::new(
        fun("swap", vec![fun("pair", vec![sym("X"), sym("Y")])]),
        fun("pair", vec![sym("Y"), sym("X")]),
    );
    assert_eq!(rule.render(), "swap(pair(X, Y)) :- pair(Y, X)");
}

#[test]
fn render_is_stable() {
    let e = fun("f", vec![fun("g", vec![sym("a"), sym("b")]), sym("c")]);
    assert_eq!(e.render(), e.render());
    assert_eq!(e.render(), "f(g(a, b), c)");
}

#[test]
fn failed_match_yields_no_bindings() {
    let pattern = fun("f", vec![sym("x"), sym("x")]);
    let ground = fun("f", vec![sym("a"), sym("b")]);
    let r = Pattern::new().pattern_match(pattern, ground);
    assert!(r.is_none());
}
