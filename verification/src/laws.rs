use vstd::prelude::*;

use crate::expr::ExprModel;
use crate::matching::{match_args_model, match_model};
use crate::render::render_model;
use crate::subst::subst_model;

verus! {

/// Matching is deterministic: for a fixed pattern, ground expression and
/// initial store, every attempt has the same outcome.
pub proof fn lemma_match_deterministic(
    p: ExprModel,
    e: ExprModel,
    b: Map<Seq<char>, ExprModel>,
    r1: Option<Map<Seq<char>, ExprModel>>,
    r2: Option<Map<Seq<char>, ExprModel>>,
)
    requires
        r1 == match_model(p, e, b),
        r2 == match_model(p, e, b),
    ensures
        r1 == r2,
{
}

/// An atomic pattern matches any ground expression under an empty store,
/// binding its name to that expression.
pub proof fn lemma_atom_matches_all(s: Seq<char>, e: ExprModel)
    ensures
        match_model(ExprModel::Sym(s), e, Map::empty()) == Some(
            Map::<Seq<char>, ExprModel>::empty().insert(s, e),
        ),
{
}

/// Compound terms with different names or different arities never match,
/// whatever the store holds.
pub proof fn lemma_mismatch_fails(
    f: Seq<char>,
    g: Seq<char>,
    ps: Seq<ExprModel>,
    es: Seq<ExprModel>,
    b: Map<Seq<char>, ExprModel>,
)
    requires
        f != g || ps.len() != es.len(),
    ensures
        match_model(ExprModel::Fun(f, ps), ExprModel::Fun(g, es), b) is None,
{
}

/// A compound pattern never matches an atomic ground expression.
pub proof fn lemma_shape_mismatch_fails(
    f: Seq<char>,
    ps: Seq<ExprModel>,
    s: Seq<char>,
    b: Map<Seq<char>, ExprModel>,
)
    ensures
        match_model(ExprModel::Fun(f, ps), ExprModel::Sym(s), b) is None,
{
}

/// A repeated variable must meet equal ground expressions: matching
/// `f(x, x)` against `f(e1, e2)` from an empty store succeeds exactly when
/// `e1` and `e2` are equal, and then binds `x` to that expression.
pub proof fn lemma_nonlinear_consistency(
    f: Seq<char>,
    x: Seq<char>,
    e1: ExprModel,
    e2: ExprModel,
)
    ensures
        e1 == e2 ==> match_model(
            ExprModel::Fun(f, seq![ExprModel::Sym(x), ExprModel::Sym(x)]),
            ExprModel::Fun(f, seq![e1, e2]),
            Map::empty(),
        ) == Some(Map::<Seq<char>, ExprModel>::empty().insert(x, e1)),
        e1 != e2 ==> match_model(
            ExprModel::Fun(f, seq![ExprModel::Sym(x), ExprModel::Sym(x)]),
            ExprModel::Fun(f, seq![e1, e2]),
            Map::empty(),
        ) is None,
{
    let ps = seq![ExprModel::Sym(x), ExprModel::Sym(x)];
    let es = seq![e1, e2];
    let b0 = Map::<Seq<char>, ExprModel>::empty();
    let b1 = b0.insert(x, e1);
    reveal_with_fuel(match_args_model, 4);
    assert(ps.len() == 2 && es.len() == 2);
    assert(match_model(ps[0], es[0], b0) == Some(b1));
    if e1 == e2 {
        assert(match_model(ps[1], es[1], b1) == Some(b1));
        assert(match_args_model(ps, es, 2, b1) == Some(b1));
        assert(match_args_model(ps, es, 1, b1) == Some(b1));
        assert(match_args_model(ps, es, 0, b0) == Some(b1));
    } else {
        assert(match_model(ps[1], es[1], b1) is None);
        assert(match_args_model(ps, es, 1, b1) is None);
        assert(match_args_model(ps, es, 0, b0) is None);
    }
}

/// Substitution leaves an unbound symbol unchanged.
pub proof fn lemma_subst_unbound(s: Seq<char>, b: Map<Seq<char>, ExprModel>)
    requires
        !b.contains_key(s),
    ensures
        subst_model(ExprModel::Sym(s), b) == ExprModel::Sym(s),
{
}

/// Substitution is structural and total: a compound keeps its name, and
/// every argument is substituted in place.
pub proof fn lemma_subst_structural(
    f: Seq<char>,
    args: Seq<ExprModel>,
    b: Map<Seq<char>, ExprModel>,
)
    ensures
        subst_model(ExprModel::Fun(f, args), b) == ExprModel::Fun(
            f,
            args.map_values(|a: ExprModel| subst_model(a, b)),
        ),
{
    assert(subst_model(ExprModel::Fun(f, args), b)->Fun_1 =~= args.map_values(
        |a: ExprModel| subst_model(a, b),
    ));
}

/// Rendering is stable: the same abstract expression always has the same
/// text.
pub proof fn lemma_render_stable(e: ExprModel, r1: Seq<char>, r2: Seq<char>)
    requires
        r1 == render_model(e),
        r2 == render_model(e),
    ensures
        r1 == r2,
{
}

} // verus!
