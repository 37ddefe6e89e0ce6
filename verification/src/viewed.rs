//! Comparison and copying of values by their views.

use vstd::prelude::*;

verus! {

/// A value that can be compared and copied exactly as its view says.
pub trait ViewEq: View + Sized {
    /// Whether two values have the same view.
    fn view_eq(&self, other: &Self) -> (r: bool)
        ensures
            r == (self@ == other@);

    /// A copy with the same view.
    fn view_clone(&self) -> (r: Self)
        ensures
            r@ == self@;
}

/// The views of the elements of a sequence.
pub open spec fn seq_view<T: View>(s: Seq<T>) -> Seq<T::V> {
    s.map_values(|x: T| x@)
}

/// Element-wise comparison of two vectors by view.
pub fn vec_view_eq<T: ViewEq>(a: &Vec<T>, b: &Vec<T>) -> (r: bool)
    ensures
        r == (seq_view(a@) == seq_view(b@)),
{
    if a.len() != b.len() {
        assert(seq_view(a@).len() != seq_view(b@).len());
        return false;
    }
    let mut i: usize = 0;
    while i < a.len()
        invariant
            a.len() == b.len(),
            i <= a.len(),
            forall|j: int| 0 <= j < i ==> a@[j]@ == b@[j]@,
        decreases a.len() - i,
    {
        if !a[i].view_eq(&b[i]) {
            assert(seq_view(a@)[i as int] != seq_view(b@)[i as int]);
            return false;
        }
        i = i + 1;
    }
    assert(seq_view(a@) =~= seq_view(b@));
    true
}

/// Element-wise copy of a vector, preserving views.
pub fn vec_view_clone<T: ViewEq>(a: &Vec<T>) -> (r: Vec<T>)
    ensures
        seq_view(r@) == seq_view(a@),
{
    let mut r: Vec<T> = Vec::new();
    let mut i: usize = 0;
    while i < a.len()
        invariant
            i <= a.len(),
            r@.len() == i,
            forall|j: int| 0 <= j < i ==> r@[j]@ == a@[j]@,
        decreases a.len() - i,
    {
        let x = a[i].view_clone();
        r.push(x);
        i = i + 1;
    }
    assert(seq_view(r@) =~= seq_view(a@));
    r
}

/// The view of an optional string.
pub open spec fn opt_str_view(o: Option<String>) -> Option<Seq<char>> {
    match o {
        Some(s) => Some(s@),
        None => None,
    }
}

/// Compares two optional strings by view.
pub fn opt_str_eq(a: &Option<String>, b: &Option<String>) -> (r: bool)
    ensures
        r == (opt_str_view(*a) == opt_str_view(*b)),
{
    match (a, b) {
        (Some(x), Some(y)) => *x == *y,
        (None, None) => true,
        _ => false,
    }
}

/// Copies an optional string.
pub fn opt_str_clone(a: &Option<String>) -> (r: Option<String>)
    ensures
        opt_str_view(r) == opt_str_view(*a),
{
    match a {
        Some(x) => Some(x.clone()),
        None => None,
    }
}

} // verus!

verus! {

impl ViewEq for String {
    fn view_eq(&self, other: &Self) -> (r: bool) {
        *self == *other
    }

    fn view_clone(&self) -> (r: Self) {
        self.clone()
    }
}

} // verus!

verus! {

impl ViewEq for Vec<char> {
    fn view_eq(&self, other: &Self) -> (r: bool) {
        crate::text::chars_eq(self.as_slice(), other.as_slice())
    }

    fn view_clone(&self) -> (r: Self) {
        let mut r: Vec<char> = Vec::new();
        let mut i: usize = 0;
        while i < self.len()
            invariant
                i <= self.len(),
                r@ == self@.take(i as int),
            decreases self.len() - i,
        {
            r.push(self[i]);
            i = i + 1;
            assert(r@ =~= self@.take(i as int));
        }
        assert(self@.take(self@.len() as int) =~= self@);
        r
    }
}

} // verus!
