use vstd::prelude::*;

use crate::text::{str_eq, str_eq_chars};

verus! {

/// A list of keyed entries read as a map from key to value; where a key
/// repeats, its last entry counts.
pub open spec fn last_map<V>(e: Seq<(String, V)>) -> Map<Seq<char>, V>
    decreases e.len(),
{
    if e.len() == 0 {
        Map::empty()
    } else {
        last_map(e.drop_last()).insert(e.last().0@, e.last().1)
    }
}

/// Whether entry `i` is the last one with its key.
pub open spec fn is_last<V>(e: Seq<(String, V)>, i: int) -> bool {
    forall|j: int| i < j < e.len() ==> #[trigger] e[j].0@ != e[i].0@
}

/// The map holds a key exactly where an entry has it, and its value is that of
/// the last such entry.
pub proof fn lemma_last_map<V>(e: Seq<(String, V)>)
    ensures
        forall|k: Seq<char>|
            #[trigger] last_map(e).contains_key(k) <==> exists|i: int|
                0 <= i < e.len() && #[trigger] e[i].0@ == k,
        forall|k: Seq<char>|
            #[trigger] last_map(e).contains_key(k) ==> exists|i: int|
                0 <= i < e.len() && #[trigger] e[i].0@ == k && is_last(e, i),
        forall|i: int|
            0 <= i < e.len() && is_last(e, i) ==> #[trigger] last_map(e)[e[i].0@] == e[i].1,
    decreases e.len(),
{
    if e.len() > 0 {
        let p = e.drop_last();
        lemma_last_map(p);
        assert(last_map(e) == last_map(p).insert(e.last().0@, e.last().1));
        assert forall|k: Seq<char>|
            #[trigger] last_map(e).contains_key(k) implies exists|i: int|
                0 <= i < e.len() && #[trigger] e[i].0@ == k && is_last(e, i) by {
            if k == e.last().0@ {
                assert(is_last(e, e.len() - 1));
            } else {
                assert(last_map(p).contains_key(k));
                let i = choose|i: int| 0 <= i < p.len() && #[trigger] p[i].0@ == k && is_last(p, i);
                assert(e[i].0@ == k);
                assert forall|j: int| i < j < e.len() implies #[trigger] e[j].0@ != e[i].0@ by {
                    if j < p.len() {
                        assert(p[j].0@ != p[i].0@);
                    }
                }
            }
        }
        assert forall|k: Seq<char>|
            #[trigger] last_map(e).contains_key(k) <==> exists|i: int|
                0 <= i < e.len() && #[trigger] e[i].0@ == k by {
            if last_map(e).contains_key(k) && k != e.last().0@ {
                assert(last_map(p).contains_key(k));
                let i = choose|i: int| 0 <= i < p.len() && #[trigger] p[i].0@ == k;
                assert(e[i].0@ == k);
            }
            if exists|i: int| 0 <= i < e.len() && #[trigger] e[i].0@ == k {
                let i = choose|i: int| 0 <= i < e.len() && #[trigger] e[i].0@ == k;
                if i < p.len() {
                    assert(p[i].0@ == k);
                    assert(last_map(p).contains_key(k));
                } else {
                    assert(e.last().0@ == k);
                }
            }
        }
        assert forall|i: int| 0 <= i < e.len() && is_last(e, i) implies #[trigger] last_map(
            e,
        )[e[i].0@] == e[i].1 by {
            if i < p.len() {
                assert(e[e.len() - 1].0@ != e[i].0@);
                assert(is_last(p, i)) by {
                    assert forall|j: int| i < j < p.len() implies #[trigger] p[j].0@ != p[i].0@ by {
                        assert(e[j].0@ != e[i].0@);
                    }
                }
            }
        }
    }
}

/// The index of the last entry for `key`, if any.
pub fn find_last<V>(e: &Vec<(String, V)>, key: &Vec<char>) -> (r: Option<usize>)
    ensures
        r is None ==> !last_map(e@).contains_key(key@),
        r matches Some(i) ==> i < e.len() && e@[i as int].0@ == key@ && is_last(e@, i as int)
            && last_map(e@).contains_key(key@) && last_map(e@)[key@] == e@[i as int].1,
{
    let mut i: usize = e.len();
    while i > 0
        invariant
            i <= e.len(),
            forall|j: int| i <= j < e.len() ==> #[trigger] e@[j].0@ != key@,
        decreases i,
    {
        i = i - 1;
        if str_eq_chars(e[i].0.as_str(), key) {
            proof {
                lemma_last_map(e@);
                assert(is_last(e@, i as int));
            }
            return Some(i);
        }
    }
    proof {
        lemma_last_map(e@);
    }
    None
}

/// Whether entry `i` is the last one with its key.
pub fn is_last_entry<V>(e: &Vec<(String, V)>, i: usize) -> (r: bool)
    requires
        i < e.len(),
    ensures
        r == is_last(e@, i as int),
{
    let mut j: usize = i + 1;
    while j < e.len()
        invariant
            i < j <= e.len(),
            forall|t: int| i < t < j ==> #[trigger] e@[t].0@ != e@[i as int].0@,
        decreases e.len() - j,
    {
        if str_eq(e[j].0.as_str(), e[i].0.as_str()) {
            return false;
        }
        j = j + 1;
    }
    true
}

} // verus!
