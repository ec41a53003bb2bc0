//! Texts in dictionary order: sorting a list of names and dropping the
//! repeated ones.

use vstd::prelude::*;
use vstd::string::*;
use crate::utils::text::{chars_of, text_views};

verus! {

/// `a` comes before `b` in dictionary order: characters are compared by
/// their code points, and a text comes after each of its proper prefixes.
pub open spec fn text_before(a: Seq<char>, b: Seq<char>) -> bool
    decreases a.len(),
{
    if b.len() == 0 {
        false
    } else if a.len() == 0 {
        true
    } else if a[0] != b[0] {
        (a[0] as int) < (b[0] as int)
    } else {
        text_before(a.drop_first(), b.drop_first())
    }
}

/// The list is in strictly ascending dictionary order, so no text occurs
/// twice.
pub open spec fn strictly_ascending(names: Seq<Seq<char>>) -> bool {
    forall|i: int, j: int| 0 <= i < j < names.len() ==> text_before(names[i], names[j])
}

/// Of two different texts, one comes before the other.
pub proof fn lemma_text_order_total(a: Seq<char>, b: Seq<char>)
    ensures
        a == b || text_before(a, b) || text_before(b, a),
        !(text_before(a, b) && text_before(b, a)),
        !text_before(a, a),
    decreases a.len(),
{
    if a.len() > 0 && b.len() > 0 {
        if a[0] == b[0] {
            lemma_text_order_total(a.drop_first(), b.drop_first());
            if a.drop_first() == b.drop_first() {
                assert(a =~= seq![a[0]] + a.drop_first());
                assert(b =~= seq![b[0]] + b.drop_first());
            }
            assert(text_before(b, a) == text_before(b.drop_first(), a.drop_first()));
        } else {
            assert(text_before(b, a) == ((b[0] as int) < (a[0] as int)));
        }
    } else if a.len() == 0 && b.len() == 0 {
        assert(a =~= b);
    } else if a.len() == 0 {
        assert(text_before(a, b));
    } else {
        assert(text_before(b, a));
    }
    if a.len() > 0 {
        lemma_text_order_total(a.drop_first(), a.drop_first());
    }
}

/// Dictionary order is transitive.
pub proof fn lemma_text_order_transitive(a: Seq<char>, b: Seq<char>, c: Seq<char>)
    requires
        text_before(a, b),
        text_before(b, c),
    ensures
        text_before(a, c),
    decreases a.len(),
{
    if a.len() > 0 && b.len() > 0 && c.len() > 0 && a[0] == b[0] && b[0] == c[0] {
        lemma_text_order_transitive(a.drop_first(), b.drop_first(), c.drop_first());
    }
}

/// A list in strictly ascending order holds no text twice.
pub proof fn lemma_ascending_has_no_repeats(names: Seq<Seq<char>>)
    requires
        strictly_ascending(names),
    ensures
        names.no_duplicates(),
{
    assert forall|i: int, j: int| 0 <= i < names.len() && 0 <= j < names.len() && i != j implies
        names[i] != names[j] by {
        lemma_text_order_total(names[i], names[j]);
        if i < j {
            assert(text_before(names[i], names[j]));
        } else {
            assert(text_before(names[j], names[i]));
        }
    }
}

/// Two lists in strictly ascending order that hold the same texts are the
/// same list: sorting and dropping repeats has one result.
pub proof fn lemma_ascending_is_unique(a: Seq<Seq<char>>, b: Seq<Seq<char>>)
    requires
        strictly_ascending(a),
        strictly_ascending(b),
        a.to_set() == b.to_set(),
    ensures
        a == b,
    decreases a.len(),
{
    if a.len() == 0 {
        if b.len() > 0 {
            assert(b.contains(b[0]));
            assert(b.to_set().contains(b[0]));
            assert(a.contains(b[0]));
        }
        assert(a =~= b);
    } else if b.len() == 0 {
        assert(a.contains(a[0]));
        assert(a.to_set().contains(a[0]));
        assert(b.contains(a[0]));
    } else {
        // The first of each list is the least text of the common set.
        assert(a.contains(a[0]) && b.contains(b[0]));
        assert(a.to_set().contains(a[0]) && b.to_set().contains(b[0]));
        assert(b.contains(a[0]) && a.contains(b[0]));
        let i = choose|i: int| 0 <= i < b.len() && b[i] == a[0];
        let j = choose|j: int| 0 <= j < a.len() && a[j] == b[0];
        lemma_text_order_total(a[0], b[0]);
        if i > 0 && j > 0 {
            assert(text_before(b[0], b[i]));
            assert(text_before(a[0], a[j]));
        } else if i > 0 {
            assert(text_before(b[0], b[i]));
        } else if j > 0 {
            assert(text_before(a[0], a[j]));
        }
        assert(a[0] == b[0]);
        let ra = a.drop_first();
        let rb = b.drop_first();
        assert forall|x: Seq<char>| ra.to_set().contains(x) <==> rb.to_set().contains(x) by {
            lemma_text_order_total(x, a[0]);
            if ra.contains(x) {
                let k = choose|k: int| 0 <= k < ra.len() && ra[k] == x;
                assert(a[k + 1] == x);
                assert(text_before(a[0], a[k + 1]));
                assert(a.contains(x));
                assert(a.to_set().contains(x));
                assert(b.contains(x));
                let m = choose|m: int| 0 <= m < b.len() && b[m] == x;
                assert(m > 0);
                assert(rb[m - 1] == x);
            }
            if rb.contains(x) {
                let k = choose|k: int| 0 <= k < rb.len() && rb[k] == x;
                assert(b[k + 1] == x);
                assert(text_before(b[0], b[k + 1]));
                assert(b.contains(x));
                assert(b.to_set().contains(x));
                assert(a.contains(x));
                let m = choose|m: int| 0 <= m < a.len() && a[m] == x;
                assert(m > 0);
                assert(ra[m - 1] == x);
            }
        }
        assert(ra.to_set() =~= rb.to_set());
        assert forall|p: int, q: int| 0 <= p < q < ra.len() implies text_before(ra[p], ra[q]) by {
            assert(ra[p] == a[p + 1] && ra[q] == a[q + 1]);
        }
        assert forall|p: int, q: int| 0 <= p < q < rb.len() implies text_before(rb[p], rb[q]) by {
            assert(rb[p] == b[p + 1] && rb[q] == b[q + 1]);
        }
        lemma_ascending_is_unique(ra, rb);
        assert(a =~= seq![a[0]] + ra);
        assert(b =~= seq![b[0]] + rb);
    }
}

/// Whether `a` comes before `b` in dictionary order.
pub fn chars_before(a: &Vec<char>, b: &Vec<char>) -> (r: bool)
    ensures
        r == text_before(a@, b@),
{
    let mut i: usize = 0;
    assert(a@.skip(0) =~= a@ && b@.skip(0) =~= b@);
    while i < a.len() && i < b.len()
        invariant
            i <= a.len(),
            i <= b.len(),
            text_before(a@, b@) == text_before(a@.skip(i as int), b@.skip(i as int)),
        decreases a.len() - i,
    {
        let ghost x = a@.skip(i as int);
        let ghost y = b@.skip(i as int);
        assert(x[0] == a@[i as int] && y[0] == b@[i as int]);
        if a[i] != b[i] {
            return a[i] < b[i];
        }
        assert(x.drop_first() =~= a@.skip(i as int + 1));
        assert(y.drop_first() =~= b@.skip(i as int + 1));
        i += 1;
    }
    i < b.len()
}

/// Sorts the names in dictionary order and keeps one of each.
pub fn sorted_unique(names: Vec<String>) -> (r: Vec<String>)
    ensures
        strictly_ascending(text_views(r@)),
        text_views(r@).to_set() == text_views(names@).to_set(),
{
    let ghost all = text_views(names@);
    let mut out: Vec<String> = Vec::new();
    assert(text_views(out@).to_set() =~= all.take(0).to_set());
    for name in it: names
        invariant
            text_views(it.seq()) == all,
            strictly_ascending(text_views(out@)),
            text_views(out@).to_set() == all.take(it.index() as int).to_set(),
    {
        let ghost n = it.index() as int;
        let ghost before = text_views(out@);
        assert(all[n] == name@);
        let key = chars_of(name.as_str());
        let mut at: usize = 0;
        while at < out.len() && chars_before(&chars_of(out[at].as_str()), &key)
            invariant
                at <= out.len(),
                key@ == name@,
                forall|k: int| 0 <= k < at ==> text_before(#[trigger] out@[k]@, name@),
            decreases out.len() - at,
        {
            at += 1;
        }
        let present = at < out.len() && out[at] == name;
        proof {
            assert forall|k: int| 0 <= k < before.len() implies before[k] == out@[k]@ by {}
            if at < out.len() && !present {
                lemma_text_order_total(out@[at as int]@, name@);
            }
            let prev = all.take(n);
            let upto = all.take(n + 1);
            assert(upto =~= prev.push(name@));
            assert forall|x: Seq<char>|
                upto.to_set().contains(x) <==> (before.to_set().contains(x) || x == name@) by {
                if upto.contains(x) {
                    let k = choose|k: int| 0 <= k < upto.len() && upto[k] == x;
                    if k < n {
                        assert(prev[k] == x);
                        assert(prev.to_set().contains(x));
                    }
                }
                if before.to_set().contains(x) {
                    assert(prev.contains(x));
                    let k = choose|k: int| 0 <= k < prev.len() && prev[k] == x;
                    assert(upto[k] == x);
                }
                if x == name@ {
                    assert(upto[n] == x);
                }
            }
        }
        if present {
            proof {
                assert(before[at as int] == name@);
                assert(before.contains(name@));
                assert(before.to_set() =~= all.take(n + 1).to_set());
            }
        } else {
            out.insert(at, name);
            proof {
                let after = text_views(out@);
                assert(after =~= before.insert(at as int, name@));
                assert forall|i: int, j: int| 0 <= i < j < after.len() implies text_before(
                    after[i],
                    after[j],
                ) by {
                    if j < at {
                        assert(after[i] == before[i] && after[j] == before[j]);
                    } else if j == at {
                        assert(after[i] == before[i]);
                    } else if i == at {
                        assert(after[j] == before[j - 1]);
                        if j - 1 > at {
                            assert(text_before(before[at as int], before[j - 1]));
                            lemma_text_order_transitive(name@, before[at as int], before[j - 1]);
                        }
                    } else if i < at {
                        assert(after[i] == before[i] && after[j] == before[j - 1]);
                    } else {
                        assert(after[i] == before[i - 1] && after[j] == before[j - 1]);
                    }
                }
                assert forall|x: Seq<char>|
                    after.to_set().contains(x) <==> (before.to_set().contains(x) || x
                        == name@) by {
                    if after.contains(x) {
                        let k = choose|k: int| 0 <= k < after.len() && after[k] == x;
                        if k < at {
                            assert(before[k] == x);
                            assert(before.contains(x));
                        } else if k > at {
                            assert(before[k - 1] == x);
                            assert(before.contains(x));
                        }
                    }
                    if before.contains(x) {
                        let k = choose|k: int| 0 <= k < before.len() && before[k] == x;
                        if k < at {
                            assert(after[k] == x);
                        } else {
                            assert(after[k + 1] == x);
                        }
                    }
                    if x == name@ {
                        assert(after[at as int] == x);
                    }
                }
                assert(after.to_set() =~= all.take(n + 1).to_set());
            }
        }
    }
    assert(all.take(all.len() as int) =~= all);
    out
}

} // verus!
