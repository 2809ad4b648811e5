use vstd::prelude::*;

verus! {

/// The mathematical values of the items of a list, in order.
pub open spec fn views<T: View>(items: Seq<T>) -> Seq<T::V> {
    Seq::new(items.len(), |i: int| items[i]@)
}

/// The mathematical value of an optional item.
pub open spec fn opt_view<T: View>(item: Option<T>) -> Option<T::V> {
    match item {
        Some(x) => Some(x@),
        None => None,
    }
}

/// The mathematical value of a list of pairs.
pub open spec fn pair_views<A: View, B: View>(items: Seq<(A, B)>) -> Seq<(A::V, B::V)> {
    Seq::new(items.len(), |i: int| (items[i].0@, items[i].1@))
}

/// The mathematical value of an optional list of pairs.
pub open spec fn opt_pair_views<A: View, B: View>(items: Option<Vec<(A, B)>>) -> Option<
    Seq<(A::V, B::V)>,
> {
    match items {
        Some(v) => Some(pair_views(v@)),
        None => None,
    }
}

/// A value of which an independent copy with the same mathematical value can
/// be made.
pub trait Copyable: View + Sized {
    fn duplicate(&self) -> (r: Self)
        ensures
            r@ == self@,
    ;
}

impl Copyable for Vec<u8> {
    fn duplicate(&self) -> (r: Self) {
        copy_plain(self)
    }
}

impl Copyable for String {
    fn duplicate(&self) -> (r: Self) {
        self.clone()
    }
}

/// A copy of an optional item.
pub fn copy_opt<T: Copyable>(item: &Option<T>) -> (r: Option<T>)
    ensures
        opt_view(r) == opt_view(*item),
{
    match item {
        Some(x) => Some(x.duplicate()),
        None => None,
    }
}

/// A copy of a list, item by item.
pub fn copy_list<T: Copyable>(items: &Vec<T>) -> (r: Vec<T>)
    ensures
        views(r@) == views(items@),
{
    let mut r: Vec<T> = Vec::new();
    let mut i: usize = 0;
    while i < items.len()
        invariant
            i <= items.len(),
            r@.len() == i,
            forall|j: int| 0 <= j < i ==> (#[trigger] r@[j])@ == items@[j]@,
        decreases items.len() - i,
    {
        r.push(items[i].duplicate());
        i = i + 1;
    }
    assert(views(r@) =~= views(items@));
    r
}

/// A copy of a list of plain values.
pub fn copy_plain<T: Copy>(items: &Vec<T>) -> (r: Vec<T>)
    ensures
        r@ == items@,
{
    let mut r: Vec<T> = Vec::new();
    let mut i: usize = 0;
    while i < items.len()
        invariant
            i <= items.len(),
            r@.len() == i,
            forall|j: int| 0 <= j < i ==> r@[j] == items@[j],
        decreases items.len() - i,
    {
        r.push(items[i]);
        i = i + 1;
    }
    assert(r@ =~= items@);
    r
}

/// A copy of an optional list of pairs.
pub fn copy_pairs<A: Copyable, B: Copyable>(items: &Option<Vec<(A, B)>>) -> (r: Option<Vec<(A, B)>>)
    ensures
        opt_pair_views(r) == opt_pair_views(*items),
{
    match items {
        Some(v) => {
            let mut r: Vec<(A, B)> = Vec::new();
            let mut i: usize = 0;
            while i < v.len()
                invariant
                    i <= v.len(),
                    r@.len() == i,
                    forall|j: int|
                        0 <= j < i ==> (#[trigger] r@[j]).0@ == v@[j].0@ && r@[j].1@ == v@[j].1@,
                decreases v.len() - i,
            {
                r.push((v[i].0.duplicate(), v[i].1.duplicate()));
                i = i + 1;
            }
            assert(pair_views(r@) =~= pair_views(v@));
            Some(r)
        },
        None => None,
    }
}

} // verus!
