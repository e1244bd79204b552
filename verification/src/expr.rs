use vstd::prelude::*;

verus! {

/// The abstract value of an expression: names are character sequences,
/// argument lists are sequences of abstract expressions.
#[verifier::ext_equal]
pub enum ExprModel {
    Sym(Seq<char>),
    Fun(Seq<char>, Seq<ExprModel>),
}

/// A symbolic term: an atomic symbol, or a named function applied to an
/// ordered list of sub-expressions. Expressions are immutable once built;
/// matching and substitution produce new expressions.
pub enum Expr {
    Sym(String),
    Fun(String, Vec<Expr>),
}

impl Expr {
    /// The abstract value of this expression.
    pub open spec fn model(self) -> ExprModel
        decreases self,
    {
        match self {
            Expr::Sym(s) => ExprModel::Sym(s@),
            Expr::Fun(f, args) => ExprModel::Fun(
                f@,
                Seq::new(args@.len(), |i: int| if 0 <= i < args@.len() {
                    args@[i].model()
                } else {
                    ExprModel::Sym(Seq::empty())
                }),
            ),
        }
    }
}

/// Structural equality: same shape, same names, and arguments pairwise
/// structurally equal.
pub fn eq_expr(a: &Expr, b: &Expr) -> (r: bool)
    ensures
        r == (a.model() == b.model()),
    decreases *a,
{
    match (a, b) {
        (Expr::Sym(s1), Expr::Sym(s2)) => *s1 == *s2,
        (Expr::Fun(f1, args1), Expr::Fun(f2, args2)) => {
            if *f1 != *f2 {
                return false;
            }
            if args1.len() != args2.len() {
                proof {
                    assert(a.model()->Fun_1.len() == args1@.len());
                    assert(b.model()->Fun_1.len() == args2@.len());
                }
                return false;
            }
            let ghost am = a.model();
            let ghost bm = b.model();
            let mut i: usize = 0;
            while i < args1.len()
                invariant
                    i <= args1@.len(),
                    args1@.len() == args2@.len(),
                    am == a.model(),
                    bm == b.model(),
                    a == Expr::Fun(*f1, *args1),
                    b == Expr::Fun(*f2, *args2),
                    forall|j: int| 0 <= j < i ==> args1@[j].model() == args2@[j].model(),
                decreases args1@.len() - i,
            {
                if !eq_expr(&args1[i], &args2[i]) {
                    proof {
                        assert(am->Fun_1[i as int] == args1@[i as int].model());
                        assert(bm->Fun_1[i as int] == args2@[i as int].model());
                    }
                    return false;
                }
                i += 1;
            }
            proof {
                assert(am->Fun_1 =~= bm->Fun_1);
            }
            true
        },
        _ => false,
    }
}

/// A structurally equal copy of an expression.
pub fn clone_expr(e: &Expr) -> (r: Expr)
    ensures
        r.model() == e.model(),
    decreases *e,
{
    match e {
        Expr::Sym(s) => Expr::Sym(s.clone()),
        Expr::Fun(f, args) => {
            let mut out: Vec<Expr> = Vec::new();
            let mut i: usize = 0;
            while i < args.len()
                invariant
                    i <= args@.len(),
                    e == Expr::Fun(*f, *args),
                    out@.len() == i,
                    forall|j: int| 0 <= j < i ==> out@[j].model() == args@[j].model(),
                decreases args@.len() - i,
            {
                proof {
                    assert(decreases_to!(*e => e->Fun_1));
                    assert(e->Fun_1 == *args);
                    assert(decreases_to!(*args => args@[i as int]));
                }
                let c = clone_expr(&args[i]);
                out.push(c);
                i += 1;
            }
            let r = Expr::Fun(f.clone(), out);
            proof {
                assert(r.model()->Fun_1 =~= e.model()->Fun_1);
            }
            r
        },
    }
}

} // verus!
