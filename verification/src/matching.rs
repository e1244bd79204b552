use vstd::prelude::*;

use crate::bindings::Bindings;
use crate::expr::{clone_expr, eq_expr, Expr, ExprModel};

verus! {

/// The outcome of matching a pattern against a ground expression, starting
/// from the store `b`. A symbol on the pattern side is a variable: already
/// bound, it must be bound to an expression equal to the ground one; fresh,
/// it is bound to the ground one. A compound pattern requires a compound
/// ground expression with the same name and arity, and the arguments are
/// matched in order, each seeing the bindings the previous ones made. There
/// is no backtracking: the first binding of a variable is authoritative.
pub open spec fn match_model(
    p: ExprModel,
    e: ExprModel,
    b: Map<Seq<char>, ExprModel>,
) -> Option<Map<Seq<char>, ExprModel>>
    decreases p, 0int,
{
    match p {
        ExprModel::Sym(s) => if b.contains_key(s) {
            if b[s] == e {
                Some(b)
            } else {
                None
            }
        } else {
            Some(b.insert(s, e))
        },
        ExprModel::Fun(f, ps) => match e {
            ExprModel::Sym(_) => None,
            ExprModel::Fun(g, es) => if f == g && ps.len() == es.len() {
                match_args_model(ps, es, 0, b)
            } else {
                None
            },
        },
    }
}

/// Matching the argument pairs from position `i` on, threading the store
/// left to right.
pub open spec fn match_args_model(
    ps: Seq<ExprModel>,
    es: Seq<ExprModel>,
    i: int,
    b: Map<Seq<char>, ExprModel>,
) -> Option<Map<Seq<char>, ExprModel>>
    decreases ps, 1int, ps.len() - i,
{
    if i < 0 || i >= ps.len() || ps.len() != es.len() {
        Some(b)
    } else {
        match match_model(ps[i], es[i], b) {
            None => None,
            Some(b2) => match_args_model(ps, es, i + 1, b2),
        }
    }
}

/// One match attempt: a binding store grown while a pattern is walked.
pub struct Pattern {
    pub bindings: Bindings,
}

impl Pattern {
    /// A fresh attempt with no bindings yet.
    pub fn new() -> (r: Pattern)
        ensures
            r.bindings.wf(),
            r.bindings@ == Map::<Seq<char>, ExprModel>::empty(),
    {
        Pattern { bindings: Bindings::new() }
    }

    /// Matches `pattern` against the ground `expr`, growing this attempt's
    /// store in place. Returns whether the match succeeded; on success the
    /// store holds exactly the bindings of one left-to-right scan.
    fn match_into(&mut self, pattern: &Expr, expr: &Expr) -> (ok: bool)
        requires
            old(self).bindings.wf(),
        ensures
            final(self).bindings.wf(),
            ok == (match_model(pattern.model(), expr.model(), old(self).bindings@) is Some),
            ok ==> Some(final(self).bindings@) == match_model(
                pattern.model(),
                expr.model(),
                old(self).bindings@,
            ),
        decreases *pattern,
    {
        match (pattern, expr) {
            (Expr::Sym(s), _) => {
                let bound = self.bindings.get(s);
                match bound {
                    Some(prev) => eq_expr(prev, expr),
                    None => {
                        let name = s.clone();
                        let value = clone_expr(expr);
                        self.bindings.insert(name, value);
                        true
                    },
                }
            },
            (Expr::Fun(f1, args1), Expr::Fun(f2, args2)) => {
                if *f1 == *f2 && args1.len() == args2.len() {
                    let ghost pm = pattern.model()->Fun_1;
                    let ghost em = expr.model()->Fun_1;
                    let ghost b0 = self.bindings@;
                    proof {
                        assert(pm.len() == args1@.len());
                        assert(em.len() == args2@.len());
                        assert(match_model(pattern.model(), expr.model(), b0)
                            == match_args_model(pm, em, 0, b0));
                    }
                    let mut i: usize = 0;
                    while i < args1.len()
                        invariant
                            self.bindings.wf(),
                            i <= args1@.len(),
                            args1@.len() == args2@.len(),
                            pattern == Expr::Fun(*f1, *args1),
                            expr == Expr::Fun(*f2, *args2),
                            pm == pattern.model()->Fun_1,
                            em == expr.model()->Fun_1,
                            pm.len() == args1@.len(),
                            em.len() == args2@.len(),
                            b0 == old(self).bindings@,
                            match_model(pattern.model(), expr.model(), b0)
                                == match_args_model(pm, em, 0, b0),
                            match_args_model(pm, em, i as int, self.bindings@)
                                == match_args_model(pm, em, 0, b0),
                        decreases args1@.len() - i,
                    {
                        proof {
                            assert(decreases_to!(*pattern => pattern->Fun_1));
                            assert(pattern->Fun_1 == *args1);
                            assert(decreases_to!(*args1 => args1@[i as int]));
                            assert(pm[i as int] == args1@[i as int].model());
                            assert(em[i as int] == args2@[i as int].model());
                        }
                        let ghost bpre = self.bindings@;
                        if !self.match_into(&args1[i], &args2[i]) {
                            proof {
                                assert(match_args_model(pm, em, i as int, bpre) is None);
                            }
                            return false;
                        }
                        i += 1;
                    }
                    true
                } else {
                    proof {
                        assert(pattern.model()->Fun_1.len() == args1@.len());
                        assert(expr.model()->Fun_1.len() == args2@.len());
                    }
                    false
                }
            },
            _ => false,
        }
    }

    /// Matches `pattern` against the ground `expr`. On success, the
    /// resulting store is returned and holds exactly the bindings implied
    /// by one consistent left-to-right scan; on failure, only the absence
    /// of a result is observable.
    pub fn pattern_match(&mut self, pattern: Expr, expr: Expr) -> (r: Option<Bindings>)
        requires
            old(self).bindings.wf(),
        ensures
            final(self).bindings.wf(),
            match match_model(pattern.model(), expr.model(), old(self).bindings@) {
                Some(m) => {
                    &&& r matches Some(out)
                    &&& out@ == m
                    &&& out.wf()
                    &&& final(self).bindings@ == m
                },
                None => r is None,
            },
    {
        if self.match_into(&pattern, &expr) {
            Some(self.bindings.duplicate())
        } else {
            None
        }
    }
}

} // verus!
