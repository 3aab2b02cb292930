//! Ordering of named items by name.
use crate::text::{chars_lt, lex_lt};
use vstd::prelude::*;

verus! {

/// An item that is shown, and ordered, by a name.
pub trait Named {
    spec fn name_view(&self) -> Seq<char>;

    fn name_chars(&self) -> (r: Vec<char>)
        ensures
            r@ == self.name_view(),
    ;
}

/// No item of `s` has a name that orders before the name of an earlier item.
pub open spec fn sorted_by_name<T: Named>(s: Seq<T>) -> bool {
    forall|i: int, j: int|
        0 <= i < j < s.len() ==> !lex_lt(#[trigger] s[j].name_view(), #[trigger] s[i].name_view())
}

/// Index of an item of `v` whose name orders before no other.
fn min_name_index<T: Named>(v: &Vec<T>) -> (r: usize)
    requires
        v.len() > 0,
    ensures
        r < v.len(),
        forall|j: int| 0 <= j < v.len() ==> !lex_lt(#[trigger] v@[j].name_view(), v@[r as int].name_view()),
{
    let mut best: usize = 0;
    let mut best_name = v[0].name_chars();
    let mut i: usize = 1;
    proof {
        crate::text::lemma_lex_lt_irreflexive(v@[0].name_view());
    }
    while i < v.len()
        invariant
            0 < i <= v.len(),
            best < v.len(),
            best_name@ == v@[best as int].name_view(),
            forall|j: int| 0 <= j < i ==> !lex_lt(#[trigger] v@[j].name_view(), v@[best as int].name_view()),
        decreases v.len() - i,
    {
        let name = v[i].name_chars();
        if chars_lt(&name, &best_name) {
            proof {
                assert forall|j: int| 0 <= j <= i implies !lex_lt(#[trigger] v@[j].name_view(), v@[i as int].name_view()) by {
                    if j < i && lex_lt(v@[j].name_view(), v@[i as int].name_view()) {
                        crate::text::lemma_lex_lt_transitive(
                            v@[j].name_view(),
                            v@[i as int].name_view(),
                            v@[best as int].name_view(),
                        );
                    }
                    if j == i {
                        crate::text::lemma_lex_lt_irreflexive(v@[j].name_view());
                    }
                }
            }
            best = i;
            best_name = name;
        }
        i = i + 1;
    }
    best
}

/// The items of `v`, ordered by name.
pub fn sort_by_name<T: Named>(v: Vec<T>) -> (r: Vec<T>)
    ensures
        sorted_by_name(r@),
        r@.to_multiset() == v@.to_multiset(),
{
    let mut rest = v;
    let mut out: Vec<T> = Vec::new();
    proof {
        out@.to_multiset_ensures();
        assert(out@.to_multiset().add(rest@.to_multiset()) =~= v@.to_multiset());
    }
    while rest.len() > 0
        invariant
            sorted_by_name(out@),
            out@.to_multiset().add(rest@.to_multiset()) == v@.to_multiset(),
            forall|a: int, b: int|
                0 <= a < out.len() && 0 <= b < rest.len() ==> !lex_lt(
                    #[trigger] rest@[b].name_view(),
                    #[trigger] out@[a].name_view(),
                ),
        decreases rest.len(),
    {
        let k = min_name_index(&rest);
        let ghost before_rest = rest@;
        let ghost before_out = out@;
        let x = rest.remove(k);
        assert(rest@ == before_rest.remove(k as int));
        out.push(x);
        assert(out@ == before_out.push(x));
        proof {
            assert forall|b: int| 0 <= b < rest.len() implies rest@[b] == before_rest[if b < k {
                b
            } else {
                b + 1
            }] by {}
            before_rest.to_multiset_ensures();
            before_out.to_multiset_ensures();
            assert(before_rest.contains(x));
            assert(before_rest.to_multiset().count(x) > 0);
            assert(rest@.to_multiset() =~= before_rest.to_multiset().remove(x));
            assert(out@.to_multiset() =~= before_out.to_multiset().insert(x));
            assert(out@.to_multiset().add(rest@.to_multiset()) =~= before_out.to_multiset().add(
                before_rest.to_multiset(),
            ));
        }
    }
    assert(out@.to_multiset().add(rest@.to_multiset()) =~= out@.to_multiset()) by {
        rest@.to_multiset_ensures();
    }
    out
}

} // verus!
