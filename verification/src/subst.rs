use vstd::prelude::*;

use crate::bindings::Bindings;
use crate::expr::{clone_expr, Expr, ExprModel};

verus! {

/// One-shot substitution: a bound symbol becomes its bound expression, an
/// unbound symbol stays, and a compound keeps its name while each argument
/// is substituted. Expressions brought in by a binding are not walked
/// again: there is no fixpoint iteration.
pub open spec fn subst_model(e: ExprModel, b: Map<Seq<char>, ExprModel>) -> ExprModel
    decreases e,
{
    match e {
        ExprModel::Sym(s) => if b.contains_key(s) {
            b[s]
        } else {
            ExprModel::Sym(s)
        },
        ExprModel::Fun(f, args) => ExprModel::Fun(
            f,
            Seq::new(args.len(), |i: int| if 0 <= i < args.len() {
                subst_model(args[i], b)
            } else {
                e
            }),
        ),
    }
}

/// `replace` on a borrowed expression.
fn replace_in(e: &Expr, bindings: &Bindings) -> (r: Expr)
    requires
        bindings.wf(),
    ensures
        r.model() == subst_model(e.model(), bindings@),
    decreases *e,
{
    match e {
        Expr::Sym(s) => {
            let bound = bindings.get(s);
            match bound {
                Some(t) => clone_expr(t),
                None => Expr::Sym(s.clone()),
            }
        },
        Expr::Fun(f, args) => {
            let mut out: Vec<Expr> = Vec::new();
            let mut i: usize = 0;
            while i < args.len()
                invariant
                    bindings.wf(),
                    i <= args@.len(),
                    e == Expr::Fun(*f, *args),
                    out@.len() == i,
                    forall|j: int| #![trigger out@[j]]
                        0 <= j < i ==> out@[j].model() == subst_model(args@[j].model(), bindings@),
                decreases args@.len() - i,
            {
                proof {
                    assert(decreases_to!(*e => e->Fun_1));
                    assert(e->Fun_1 == *args);
                    assert(decreases_to!(*args => args@[i as int]));
                }
                let sub = replace_in(&args[i], bindings);
                out.push(sub);
                i += 1;
            }
            let r = Expr::Fun(f.clone(), out);
            proof {
                assert(r.model()->Fun_1 =~= subst_model(e.model(), bindings@)->Fun_1);
            }
            r
        },
    }
}

/// Applies a completed binding store to an expression, replacing each bound
/// symbol by the expression it is bound to, in a single structural pass.
/// Substitution never fails: an unbound symbol is left as it is.
pub fn replace(expr: Expr, bindings: Bindings) -> (r: Expr)
    requires
        bindings.wf(),
    ensures
        r.model() == subst_model(expr.model(), bindings@),
{
    replace_in(&expr, &bindings)
}

} // verus!
