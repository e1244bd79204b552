use vstd::prelude::*;
use vstd::string::StringExecFns;

use crate::expr::{Expr, ExprModel};
use crate::rule::Rule;

verus! {

/// The text of an expression: a symbol is its bare name; a compound is its
/// name, an opening parenthesis, the arguments separated by ", ", and a
/// closing parenthesis.
pub open spec fn render_model(e: ExprModel) -> Seq<char>
    decreases e, 0int,
{
    match e {
        ExprModel::Sym(s) => s,
        ExprModel::Fun(f, args) => f + seq!['('] + render_args_to(args, args.len() as int)
            + seq![')'],
    }
}

/// The text of the first `i` arguments, separated by ", ".
pub open spec fn render_args_to(args: Seq<ExprModel>, i: int) -> Seq<char>
    decreases args, 1int, i,
{
    if i <= 0 || i > args.len() {
        Seq::empty()
    } else {
        render_args_to(args, i - 1) + (if i > 1 {
            seq![',', ' ']
        } else {
            Seq::<char>::empty()
        }) + render_model(args[i - 1])
    }
}

impl Expr {
    /// The textual form of this expression.
    pub fn render(&self) -> (r: String)
        ensures
            r@ == render_model(self.model()),
        decreases *self,
    {
        match self {
            Expr::Sym(s) => s.clone(),
            Expr::Fun(f, args) => {
                let ghost am = self.model()->Fun_1;
                let mut out = f.clone();
                out.append("(");
                proof {
                    reveal_strlit("(");
                    assert(am.len() == args@.len());
                    assert(out@ =~= f@ + seq!['('] + render_args_to(am, 0));
                }
                let mut i: usize = 0;
                while i < args.len()
                    invariant
                        i <= args@.len(),
                        self == Expr::Fun(*f, *args),
                        am == self.model()->Fun_1,
                        am.len() == args@.len(),
                        out@ == f@ + seq!['('] + render_args_to(am, i as int),
                    decreases args@.len() - i,
                {
                    if i > 0 {
                        out.append(", ");
                        proof {
                            reveal_strlit(", ");
                            assert(", "@ =~= seq![',', ' ']);
                        }
                    }
                    proof {
                        assert(decreases_to!(*self => self->Fun_1));
                        assert(self->Fun_1 == *args);
                        assert(decreases_to!(*args => args@[i as int]));
                        assert(am[i as int] == args@[i as int].model());
                    }
                    let sub = args[i].render();
                    out.append(sub.as_str());
                    proof {
                        assert(out@ =~= f@ + seq!['('] + render_args_to(am, i as int + 1));
                    }
                    i += 1;
                }
                out.append(")");
                proof {
                    reveal_strlit(")");
                    assert(out@ =~= render_model(self.model()));
                }
                out
            },
        }
    }
}

impl Rule {
    /// The textual form of this rule: its head, " :- ", then its body.
    pub fn render(&self) -> (r: String)
        ensures
            r@ == render_model(self.head.model()) + seq![' ', ':', '-', ' '] + render_model(
                self.body.model(),
            ),
    {
        let mut out = self.head.render();
        out.append(" :- ");
        let body = self.body.render();
        out.append(body.as_str());
        proof {
            reveal_strlit(" :- ");
            assert(" :- "@ =~= seq![' ', ':', '-', ' ']);
            assert(out@ =~= render_model(self.head.model()) + seq![' ', ':', '-', ' ']
                + render_model(self.body.model()));
        }
        out
    }
}

} // verus!
