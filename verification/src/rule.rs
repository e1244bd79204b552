use vstd::prelude::*;

use crate::expr::Expr;

verus! {

/// A rewrite rule: a head pattern paired with a body template. A driver
/// matches a candidate against `head` and applies the bindings to `body`.
pub struct Rule {
    pub head: Expr,
    pub body: Expr,
}

impl Rule {
    /// Pairs a head pattern with a body template.
    pub fn new(head: Expr, body: Expr) -> (r: Rule)
        ensures
            r.head == head,
            r.body == body,
    {
        Rule { head, body }
    }
}

} // verus!
