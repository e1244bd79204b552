use vstd::prelude::*;

use crate::expr::{clone_expr, eq_expr, Expr, ExprModel};

verus! {

/// The mapping that a sequence of (name, expression) entries stands for:
/// later entries win, though a well-formed store never repeats a name.
pub open spec fn entries_map(s: Seq<(String, Expr)>) -> Map<Seq<char>, ExprModel>
    decreases s.len(),
{
    if s.len() == 0 {
        Map::empty()
    } else {
        entries_map(s.drop_last()).insert(s.last().0@, s.last().1.model())
    }
}

/// A binding store: a mapping from variable name to the expression it is
/// bound to, grown monotonically during one match attempt. Keys are unique.
pub struct Bindings {
    pub entries: Vec<(String, Expr)>,
}

impl View for Bindings {
    type V = Map<Seq<char>, ExprModel>;

    open spec fn view(&self) -> Map<Seq<char>, ExprModel> {
        entries_map(self.entries@)
    }
}

impl Bindings {
    /// Well-formedness: no variable name occurs twice.
    pub open spec fn wf(self) -> bool {
        forall|i: int, j: int|
            0 <= i < j < self.entries@.len() ==> self.entries@[i].0@ != self.entries@[j].0@
    }

    /// An empty store.
    pub fn new() -> (r: Bindings)
        ensures
            r.wf(),
            r@ == Map::<Seq<char>, ExprModel>::empty(),
    {
        Bindings { entries: Vec::new() }
    }

    /// The expression bound to `name`, if any.
    pub fn get(&self, name: &String) -> (r: Option<&Expr>)
        requires
            self.wf(),
        ensures
            match r {
                Some(e) => self@.contains_key(name@) && e.model() == self@[name@],
                None => !self@.contains_key(name@),
            },
    {
        let mut i: usize = 0;
        while i < self.entries.len()
            invariant
                self.wf(),
                i <= self.entries@.len(),
                forall|j: int| 0 <= j < i ==> self.entries@[j].0@ != name@,
            decreases self.entries@.len() - i,
        {
            if self.entries[i].0 == *name {
                proof {
                    lemma_entries_map_at(self.entries@, i as int);
                }
                return Some(&self.entries[i].1);
            }
            i += 1;
        }
        proof {
            lemma_entries_map_keys(self.entries@, name@);
        }
        None
    }

    /// Bind `name` to `e`. The name must be fresh: bindings are added,
    /// never overwritten.
    pub fn insert(&mut self, name: String, e: Expr)
        requires
            old(self).wf(),
            !old(self)@.contains_key(name@),
        ensures
            final(self).wf(),
            final(self)@ == old(self)@.insert(name@, e.model()),
    {
        proof {
            lemma_entries_map_keys(old(self).entries@, name@);
        }
        let ghost before = self.entries@;
        self.entries.push((name, e));
        proof {
            assert(self.entries@.drop_last() =~= before);
        }
    }

    /// A store with the same bindings, sharing nothing with this one.
    pub fn duplicate(&self) -> (r: Bindings)
        ensures
            r@ == self@,
            self.wf() ==> r.wf(),
    {
        let mut out: Vec<(String, Expr)> = Vec::new();
        let mut i: usize = 0;
        while i < self.entries.len()
            invariant
                i <= self.entries@.len(),
                out@.len() == i,
                forall|j: int| #![trigger out@[j]]
                    0 <= j < i ==> out@[j].0@ == self.entries@[j].0@
                        && out@[j].1.model() == self.entries@[j].1.model(),
            decreases self.entries@.len() - i,
        {
            let name = self.entries[i].0.clone();
            let e = clone_expr(&self.entries[i].1);
            out.push((name, e));
            i += 1;
        }
        proof {
            lemma_entries_map_congruent(out@, self.entries@);
        }
        Bindings { entries: out }
    }
}

/// A name is a key of the mapping exactly when some entry carries it.
proof fn lemma_entries_map_keys(s: Seq<(String, Expr)>, k: Seq<char>)
    ensures
        entries_map(s).contains_key(k) <==> exists|i: int| 0 <= i < s.len() && s[i].0@ == k,
    decreases s.len(),
{
    if s.len() > 0 {
        lemma_entries_map_keys(s.drop_last(), k);
        if exists|i: int| 0 <= i < s.drop_last().len() && s.drop_last()[i].0@ == k {
            let i = choose|i: int| 0 <= i < s.drop_last().len() && s.drop_last()[i].0@ == k;
            assert(s[i].0@ == k);
        }
        if exists|i: int| 0 <= i < s.len() && s[i].0@ == k {
            let i = choose|i: int| 0 <= i < s.len() && s[i].0@ == k;
            if i < s.len() - 1 {
                assert(s.drop_last()[i].0@ == k);
            }
        }
    }
}

/// With unique names, the mapping carries each entry's expression under
/// that entry's name.
proof fn lemma_entries_map_at(s: Seq<(String, Expr)>, i: int)
    requires
        0 <= i < s.len(),
        forall|p: int, q: int| 0 <= p < q < s.len() ==> s[p].0@ != s[q].0@,
    ensures
        entries_map(s).contains_key(s[i].0@),
        entries_map(s)[s[i].0@] == s[i].1.model(),
    decreases s.len(),
{
    if i < s.len() - 1 {
        lemma_entries_map_at(s.drop_last(), i);
    }
}

/// Entry sequences with the same names and structurally equal expressions
/// stand for the same mapping.
proof fn lemma_entries_map_congruent(s1: Seq<(String, Expr)>, s2: Seq<(String, Expr)>)
    requires
        s1.len() == s2.len(),
        forall|i: int| #![trigger s1[i]]
            0 <= i < s1.len() ==> s1[i].0@ == s2[i].0@ && s1[i].1.model() == s2[i].1.model(),
    ensures
        entries_map(s1) == entries_map(s2),
    decreases s1.len(),
{
    if s1.len() > 0 {
        lemma_entries_map_congruent(s1.drop_last(), s2.drop_last());
    }
}

} // verus!
