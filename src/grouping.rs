//! Grouping of items into named buckets, listed in order of name.
use crate::text::{chars_lt, chars_of, lemma_lex_lt_total, lemma_lex_lt_transitive, lex_lt};
use vstd::prelude::*;

verus! {

/// An item that belongs to a bucket, named by the item.
pub trait Bucketed: Sized {
    spec fn bucket_view(&self) -> Seq<char>;

    fn bucket_name(&self) -> (r: String)
        ensures
            r@ == self.bucket_view(),
    ;
}

/// The items of `s` whose bucket is `name`, in order.
pub open spec fn in_bucket<T: Bucketed>(s: Seq<T>, name: Seq<char>) -> Seq<T>
    decreases s.len(),
{
    if s.len() == 0 {
        Seq::empty()
    } else if s.last().bucket_view() == name {
        in_bucket(s.drop_last(), name).push(s.last())
    } else {
        in_bucket(s.drop_last(), name)
    }
}

/// `groups` holds the items of `items` by bucket: the names strictly ascending,
/// each group the items of its bucket in their order, no group empty, and a group
/// for the bucket of every item.
pub open spec fn is_bucketing<T: Bucketed>(groups: Seq<(String, Vec<T>)>, items: Seq<T>) -> bool {
    &&& forall|i: int, j: int|
        0 <= i < j < groups.len() ==> lex_lt(#[trigger] groups[i].0@, #[trigger] groups[j].0@)
    &&& forall|i: int|
        0 <= i < groups.len() ==> (#[trigger] groups[i]).1@ == in_bucket(items, groups[i].0@)
            && groups[i].1.len() > 0
    &&& forall|k: int|
        0 <= k < items.len() ==> exists|i: int|
            0 <= i < groups.len() && (#[trigger] groups[i]).0@ == (#[trigger] items[k]).bucket_view()
}

proof fn lemma_in_bucket_absent<T: Bucketed>(s: Seq<T>, name: Seq<char>)
    requires
        forall|k: int| 0 <= k < s.len() ==> (#[trigger] s[k]).bucket_view() != name,
    ensures
        in_bucket(s, name).len() == 0,
    decreases s.len(),
{
    if s.len() > 0 {
        lemma_in_bucket_absent(s.drop_last(), name);
    }
}

/// Index of the group named `name`, if any.
fn find_group<T>(groups: &Vec<(String, Vec<T>)>, name: &String) -> (r: Option<usize>)
    ensures
        r matches Some(i) ==> i < groups.len() && groups@[i as int].0@ == name@,
        r is None ==> forall|i: int| 0 <= i < groups.len() ==> groups@[i].0@ != name@,
{
    let mut i: usize = 0;
    while i < groups.len()
        invariant
            i <= groups.len(),
            forall|j: int| 0 <= j < i ==> groups@[j].0@ != name@,
        decreases groups.len() - i,
    {
        if groups[i].0 == *name {
            return Some(i);
        }
        i = i + 1;
    }
    None
}

/// Where a group named `name` goes so that the names stay ascending.
fn insert_position<T>(groups: &Vec<(String, Vec<T>)>, name: &String) -> (r: usize)
    ensures
        r <= groups.len(),
        forall|j: int| 0 <= j < r ==> !lex_lt(name@, #[trigger] groups@[j].0@),
        r < groups.len() ==> lex_lt(name@, groups@[r as int].0@),
{
    let key = chars_of(name.as_str());
    let mut i: usize = 0;
    while i < groups.len()
        invariant
            i <= groups.len(),
            key@ == name@,
            forall|j: int| 0 <= j < i ==> !lex_lt(name@, #[trigger] groups@[j].0@),
        decreases groups.len() - i,
    {
        let other = chars_of(groups[i].0.as_str());
        if chars_lt(&key, &other) {
            return i;
        }
        i = i + 1;
    }
    i
}

/// The items grouped by bucket, the groups in ascending order of name.
pub fn group_by_bucket<T: Bucketed>(items: Vec<T>) -> (r: Vec<(String, Vec<T>)>)
    ensures
        is_bucketing(r@, items@),
{
    let ghost all = items@;
    let n = items.len();
    assert(all.len() == n);
    let mut rest = items;
    let mut groups: Vec<(String, Vec<T>)> = Vec::new();
    let mut k: usize = 0;
    assert(all.skip(0) =~= all);
    assert(all.take(0) =~= Seq::<T>::empty());
    while rest.len() > 0
        invariant
            k + rest.len() == all.len(),
            all.len() <= usize::MAX,
            rest@ == all.skip(k as int),
            is_bucketing(groups@, all.take(k as int)),
        decreases rest.len(),
    {
        let ghost done = all.take(k as int);
        let ghost next = all.take(k + 1);
        assert(next.drop_last() =~= done);
        assert(rest@[0] == all[k as int]);
        let x = rest.remove(0);
        assert(rest@ =~= all.skip(k + 1));
        assert(next.last() == x);
        let name = x.bucket_name();
        let ghost old_groups = groups@;
        match find_group(&groups, &name) {
            Some(i) => {
                let mut g = groups.remove(i);
                g.1.push(x);
                groups.insert(i, g);
                proof {
                    assert(groups@ =~= old_groups.update(i as int, g));
                    assert forall|j: int| 0 <= j < groups@.len() implies (#[trigger] groups@[j]).1@
                        == in_bucket(next, groups@[j].0@) && groups@[j].1.len() > 0 by {
                        if j != i {
                            assert(groups@[j] == old_groups[j]);
                            assert(old_groups[j].0@ != name@) by {
                                assert(old_groups[i as int].0@ == name@);
                                if old_groups[j].0@ == name@ {
                                    let a = if j < i { j } else { i as int };
                                    let b = if j < i { i as int } else { j };
                                    assert(lex_lt(old_groups[a].0@, old_groups[b].0@));
                                    crate::text::lemma_lex_lt_irreflexive(name@);
                                }
                            }
                        }
                    }
                    assert forall|q: int| 0 <= q < next.len() implies exists|j: int|
                        0 <= j < groups@.len() && (#[trigger] groups@[j]).0@ == (
                        #[trigger] next[q]).bucket_view() by {
                        if q < k {
                            assert(next[q] == done[q]);
                            let j = choose|j: int|
                                0 <= j < old_groups.len() && (#[trigger] old_groups[j]).0@ == (
                                #[trigger] done[q]).bucket_view();
                            assert(groups@[j].0@ == old_groups[j].0@);
                        } else {
                            assert(groups@[i as int].0@ == next[q].bucket_view());
                        }
                    }
                }
            },
            None => {
                let pos = insert_position(&groups, &name);
                let mut v: Vec<T> = Vec::new();
                v.push(x);
                groups.insert(pos, (name, v));
                proof {
                    let ng = groups@;
                    old_groups.insert_ensures(pos as int, ng[pos as int]);
                    assert(ng =~= old_groups.insert(pos as int, ng[pos as int]));
                    assert forall|q: int| 0 <= q < done.len() implies (#[trigger] done[q]).bucket_view()
                        != name@ by {
                        let j = choose|j: int|
                            0 <= j < old_groups.len() && (#[trigger] old_groups[j]).0@ == (
                            #[trigger] done[q]).bucket_view();
                    }
                    lemma_in_bucket_absent(done, name@);
                    assert(in_bucket(done, name@) =~= Seq::<T>::empty());
                    assert(v@ =~= in_bucket(next, name@));
                    assert forall|a: int, b: int|
                        0 <= a < b < ng.len() implies lex_lt(#[trigger] ng[a].0@, #[trigger] ng[b].0@) by {
                        let oa = if a < pos { a } else { a - 1 };
                        let ob = if b <= pos { b } else { b - 1 };
                        if a == pos {
                            assert(ng[b] == old_groups[ob]);
                            if ob > pos {
                                assert(lex_lt(old_groups[pos as int].0@, old_groups[ob].0@));
                                lemma_lex_lt_transitive(
                                    name@,
                                    old_groups[pos as int].0@,
                                    old_groups[ob].0@,
                                );
                            }
                        } else if b == pos {
                            assert(!lex_lt(name@, old_groups[a].0@));
                            lemma_lex_lt_total(name@, old_groups[a].0@);
                        } else {
                            assert(ng[a] == old_groups[oa]);
                            assert(ng[b] == old_groups[ob]);
                        }
                    }
                    assert forall|j: int| 0 <= j < ng.len() implies (#[trigger] ng[j]).1@ == in_bucket(
                        next,
                        ng[j].0@,
                    ) && ng[j].1.len() > 0 by {
                        if j != pos {
                            let oj = if j < pos { j } else { j - 1 };
                            assert(ng[j] == old_groups[oj]);
                            assert(old_groups[oj].0@ != name@);
                        }
                    }
                    assert forall|q: int| 0 <= q < next.len() implies exists|j: int|
                        0 <= j < ng.len() && (#[trigger] ng[j]).0@ == (#[trigger] next[q]).bucket_view() by {
                        if q < k {
                            assert(next[q] == done[q]);
                            let j = choose|j: int|
                                0 <= j < old_groups.len() && (#[trigger] old_groups[j]).0@ == (
                                #[trigger] done[q]).bucket_view();
                            let nj = if j < pos { j } else { j + 1 };
                            assert(ng[nj] == old_groups[j]);
                        } else {
                            assert(ng[pos as int].0@ == next[q].bucket_view());
                        }
                    }
                }
            },
        }
        k = k + 1;
    }
    assert(all.take(k as int) =~= all);
    groups
}

} // verus!
