//! Result filters: an ordered collection of raw filter-expression strings.
//!
//! Each entry is expected to have the documented form
//! `<column> <operator> <literal>`, but no syntactic validation happens here:
//! the strings are passed through verbatim and the server is the sole
//! validator. When more than one filter is present they are joined with
//! a literal ` AND ` between them, in insertion order; an empty collection
//! serializes to no filter at all.

use vstd::prelude::*;
use vstd::string::StringExecFns;

verus! {

/// The ` AND `-join of a sequence of filter expressions.
pub open spec fn spec_join_and(fs: Seq<Seq<char>>) -> Seq<char>
    decreases fs.len(),
{
    if fs.len() == 0 {
        Seq::empty()
    } else if fs.len() == 1 {
        fs[0]
    } else {
        spec_join_and(fs.drop_last()) + " AND "@ + fs.last()
    }
}

/// An ordered collection of raw filter-expression strings.
#[derive(Debug, Clone)]
pub struct QueryResultsFilter(pub Vec<String>);

impl View for QueryResultsFilter {
    type V = Seq<Seq<char>>;

    open spec fn view(&self) -> Seq<Seq<char>> {
        self.0@.map_values(|s: String| s@)
    }
}

impl QueryResultsFilter {
    /// An empty collection.
    pub fn new() -> (r: Self)
        ensures
            r@ == Seq::<Seq<char>>::empty(),
    {
        let r = QueryResultsFilter(Vec::new());
        proof {
            assert(r@ =~= Seq::<Seq<char>>::empty());
        }
        r
    }

    /// Append one filter expression, keeping insertion order.
    pub fn add_filter(self, filter: String) -> (r: Self)
        ensures
            r@ == self@.push(filter@),
    {
        let mut new = QueryResultsFilter(self.0);
        new.0.push(filter);
        proof {
            assert(new@ =~= self@.push(filter@));
        }
        new
    }

    /// The serialized form: `None` for an empty collection, otherwise the
    /// ` AND `-join of the expressions in insertion order.
    pub fn to_option_string(&self) -> (r: Option<String>)
        ensures
            self@.len() == 0 ==> r is None,
            self@.len() > 0 ==> (r matches Some(s) && s@ == spec_join_and(self@)),
    {
        if self.0.is_empty() {
            return None;
        }
        let mut s: String = self.0[0].clone();
        let mut i: usize = 1;
        proof {
            assert(self@.subrange(0, 1) =~= seq![self@[0]]);
        }
        while i < self.0.len()
            invariant
                1 <= i <= self.0.len(),
                self.0.len() == self@.len(),
                s@ == spec_join_and(self@.subrange(0, i as int)),
            decreases self.0.len() - i,
        {
            let ghost prev = self@.subrange(0, i as int);
            let ghost next = self@.subrange(0, i + 1 as int);
            s.append(" AND ");
            s.append(self.0[i].as_str());
            proof {
                assert(next.drop_last() =~= prev);
                assert(next.last() == self@[i as int]);
            }
            i = i + 1;
        }
        proof {
            assert(self@.subrange(0, self@.len() as int) =~= self@);
        }
        Some(s)
    }
}

/// Law: one filter serializes verbatim.
pub proof fn lemma_join_single(f: Seq<char>)
    ensures
        spec_join_and(seq![f]) == f,
{
}

/// Law: adding a filter to a non-empty collection appends a literal ` AND `
/// and then the new expression, so two or more filters are joined in
/// insertion order.
pub proof fn lemma_join_append(fs: Seq<Seq<char>>, g: Seq<char>)
    requires
        fs.len() >= 1,
    ensures
        spec_join_and(fs.push(g)) == spec_join_and(fs) + " AND "@ + g,
{
    assert(fs.push(g).drop_last() =~= fs);
    assert(fs.push(g).last() == g);
}

} // verus!
