//! Helpers shared by the enumeration techniques.

use vstd::prelude::*;
use vstd::std_specs::cmp::PartialEqSpec;
use vstd::string::*;
use crate::utils::validation::is_alphanumeric;

pub mod cidr;
pub mod order;
pub mod text;
pub mod validation;

verus! {

/// `x` is equal to one of the items of `s`.
pub open spec fn holds_equal<T: PartialEq>(s: Seq<T>, x: T) -> bool {
    exists|k: int| 0 <= k < s.len() && (#[trigger] s[k]).eq_spec(&x)
}

/// The items of `s` in order, each left out if an equal item was kept
/// before it.
pub open spec fn distinct<T: PartialEq>(s: Seq<T>) -> Seq<T>
    decreases s.len(),
{
    if s.len() == 0 {
        Seq::empty()
    } else if holds_equal(distinct(s.drop_last()), s.last()) {
        distinct(s.drop_last())
    } else {
        distinct(s.drop_last()).push(s.last())
    }
}

/// Whether `x` is equal to one of the items of `v`.
fn holds<T: PartialEq>(v: &Vec<T>, x: &T) -> (r: bool)
    ensures
        T::obeys_eq_spec() ==> r == holds_equal(v@, *x),
{
    let mut i: usize = 0;
    while i < v.len()
        invariant
            i <= v.len(),
            T::obeys_eq_spec() ==> forall|k: int| 0 <= k < i ==> !(#[trigger] v@[k]).eq_spec(x),
        decreases v.len() - i,
    {
        if v[i] == *x {
            return true;
        }
        i += 1;
    }
    false
}

/// Remove duplicates from a vector while preserving order
pub fn unique<T: Clone + Eq + std::hash::Hash>(vec: Vec<T>) -> (result: Vec<T>)
    ensures
        T::obeys_eq_spec() ==> result@ == distinct(vec@),
{
    let ghost all = vec@;
    let mut result: Vec<T> = Vec::new();
    for item in it: vec
        invariant
            it.seq() == all,
            T::obeys_eq_spec() ==> result@ == distinct(all.take(it.index() as int)),
    {
        proof {
            let upto = all.take(it.index() as int + 1);
            assert(upto.drop_last() =~= all.take(it.index() as int));
            assert(upto.last() == item);
        }
        if !holds(&result, &item) {
            result.push(item);
        }
    }
    assert(all.take(all.len() as int) =~= all);
    result
}

/// A label of `length` letters and digits.
pub open spec fn is_random_label(label: Seq<char>, length: nat) -> bool {
    label.len() == length && forall|i: int|
        0 <= i < label.len() ==> is_alphanumeric(#[trigger] label[i])
}

/// Draws one character through `rand::Rng::sample` from
/// `rand::thread_rng` with `rand::distributions::Alphanumeric`, which
/// gives an ASCII letter or digit. Which one is a matter of chance.
#[verifier::external_body]
fn random_alphanumeric() -> (c: char)
    ensures
        is_alphanumeric(c),
{
    char::from(rand::Rng::sample(&mut rand::thread_rng(), rand::distributions::Alphanumeric))
}

/// A random label of `length` letters and digits.
pub fn random_label(length: usize) -> (r: String)
    ensures
        is_random_label(r@, length as nat),
{
    let mut label = String::new();
    let mut i: usize = 0;
    while i < length
        invariant
            i <= length,
            is_random_label(label@, i as nat),
        decreases length - i,
    {
        label.push(random_alphanumeric());
        i += 1;
    }
    label
}

/// The test name for a label: the label, a dot, the suffix.
pub open spec fn testname(label: Seq<char>, suffix: Seq<char>) -> Seq<char> {
    label + seq!['.'] + suffix
}

/// The test name for a label.
pub fn testname_from(label: &str, suffix: &str) -> (r: String)
    ensures
        r@ == testname(label@, suffix@),
{
    let mut name = String::from_str(label);
    name.append(".");
    name.append(suffix);
    proof {
        reveal_strlit(".");
        assert("."@ =~= seq!['.']);
    }
    name
}

/// Generate a random test name for wildcard detection: a random label of
/// `length` letters and digits, a dot, the suffix.
pub fn generate_testname(length: usize, suffix: &str) -> (r: String)
    ensures
        exists|label: Seq<char>|
            is_random_label(label, length as nat) && r@ == #[trigger] testname(label, suffix@),
{
    let label = random_label(length);
    testname_from(label.as_str(), suffix)
}

} // verus!
