use vstd::prelude::*;
use vstd::std_specs::cmp::PartialEqSpec;

verus! {

/// Whether two different positions of `s` hold equal elements.
pub open spec fn has_duplicates<T: PartialEqSpec>(s: Seq<T>) -> bool {
    exists|i: int, j: int| 0 <= i < j < s.len() && s[i].eq_spec(&s[j])
}

/// Whether two different positions of `vec` hold equal elements.
pub fn contains_duplicates<T: PartialEq + PartialEqSpec>(vec: &Vec<T>) -> (r: bool)
    requires
        T::obeys_eq_spec(),
    ensures
        r == has_duplicates(vec@),
{
    let n = vec.len();
    let mut i: usize = 0;
    while i < n
        invariant
            T::obeys_eq_spec(),
            n == vec@.len(),
            i <= n,
            forall|a: int, b: int| 0 <= a < i && a < b < n ==> !vec@[a].eq_spec(&vec@[b]),
        decreases n - i,
    {
        let mut j: usize = i + 1;
        while j < n
            invariant
                T::obeys_eq_spec(),
                n == vec@.len(),
                i < n,
                i < j <= n,
                forall|a: int, b: int| 0 <= a < i && a < b < n ==> !vec@[a].eq_spec(&vec@[b]),
                forall|b: int| i < b < j ==> !vec@[i as int].eq_spec(&vec@[b]),
            decreases n - j,
        {
            if vec[i].eq(&vec[j]) {
                return true;
            }
            j = j + 1;
        }
        i = i + 1;
    }
    false
}

} // verus!
