use vstd::prelude::*;
use vstd::std_specs::iter::IteratorSpec;

verus! {

/// The number that follows `n` when counting in `usize`: the counter wraps
/// to zero after `usize::MAX`, as an atomic `fetch_add` does.
pub open spec fn successor(n: usize) -> usize {
    if n == usize::MAX {
        0
    } else {
        (n + 1) as usize
    }
}

/// The source of fresh item ids: it hands out its counter and advances it.
pub struct IdAllocator {
    next: usize,
}

impl View for IdAllocator {
    type V = usize;

    open spec fn view(&self) -> usize {
        self.next_spec()
    }
}

impl IdAllocator {
    /// The id that the next allocation hands out.
    pub closed spec fn next_spec(&self) -> usize {
        self.next
    }

    /// A counter that starts at zero.
    pub fn new() -> (r: Self)
        ensures
            r@ == 0,
    {
        IdAllocator { next: 0 }
    }

    /// The id that the next allocation hands out.
    pub fn peek(&self) -> (r: usize)
        ensures
            r == self@,
    {
        self.next
    }
}

/// An id.
#[derive(Debug, Clone, Copy)]
pub struct Id(pub usize);

impl Id {
    /// Takes the next id from `counter`, which then moves on by one.
    pub fn allocate(counter: &mut IdAllocator) -> (r: Id)
        ensures
            r.0 == old(counter)@,
            final(counter)@ == successor(old(counter)@),
    {
        let n = counter.next;
        counter.next = n.wrapping_add(1);
        Id(n)
    }
}

impl core::ops::Deref for Id {
    type Target = usize;

    fn deref(&self) -> (r: &usize)
        ensures
            *r == self.0,
    {
        &self.0
    }
}


/// The id that the counter, started at `start`, hands out at its `k`-th
/// allocation (counting from zero).
pub open spec fn nth_allocation(start: usize, k: nat) -> usize
    decreases k,
{
    if k == 0 {
        start
    } else {
        successor(nth_allocation(start, (k - 1) as nat))
    }
}

/// Successive allocations count up from the start, modulo the size of `usize`.
pub proof fn lemma_nth_allocation(start: usize, k: nat)
    ensures
        nth_allocation(start, k) as int == (start + k) % (usize::MAX + 1),
    decreases k,
{
    if k == 0 {
        vstd::arithmetic::div_mod::lemma_small_mod(start as nat, (usize::MAX + 1) as nat);
    } else {
        lemma_nth_allocation(start, (k - 1) as nat);
        let m: int = usize::MAX + 1;
        let a: int = start + (k - 1);
        let q = a / m;
        let r = a % m;
        vstd::arithmetic::div_mod::lemma_fundamental_div_mod(a, m);
        vstd::arithmetic::div_mod::lemma_mod_bound(a, m);
        assert(m * q == q * m) by (nonlinear_arith);
        if r + 1 < m {
            vstd::arithmetic::div_mod::lemma_fundamental_div_mod_converse(a + 1, m, q, r + 1);
        } else {
            assert((q + 1) * m == q * m + m) by (nonlinear_arith);
            vstd::arithmetic::div_mod::lemma_fundamental_div_mod_converse(a + 1, m, q + 1, 0);
        }
    }
}

/// A counter never hands out the same id twice before it has wrapped
/// around: the ids of any two of its first `usize::MAX + 1` allocations differ.
pub proof fn lemma_allocations_distinct(start: usize, i: nat, j: nat)
    requires
        i < j <= usize::MAX,
    ensures
        nth_allocation(start, i) != nth_allocation(start, j),
{
    lemma_nth_allocation(start, i);
    lemma_nth_allocation(start, j);
    let m = usize::MAX + 1;
    assert((start + i) % m != (start + j) % m) by (nonlinear_arith)
        requires
            0 <= i < j < m,
            0 <= start < m,
    {
        vstd::arithmetic::div_mod::lemma_fundamental_div_mod(start + i, m);
        vstd::arithmetic::div_mod::lemma_fundamental_div_mod(start + j, m);
    }
}

/// An item id.
///
/// This is basically an [`Id`] with type info.
#[derive(Debug)]
pub struct ItemId<T> {
    id: Id,
    _phantom: core::marker::PhantomData<T>,
}

impl<T> ItemId<T> {
    /// The plain id inside.
    pub closed spec fn id_spec(&self) -> Id {
        self.id
    }

    /// Get the inner [`Id`].
    pub fn inner(&self) -> (r: Id)
        ensures
            r == self.id_spec(),
    {
        self.id
    }

    /// Wraps `id` with the type of the item it names.
    pub fn new(id: Id) -> (r: Self)
        ensures
            r.id_spec() == id,
    {
        Self { id, _phantom: core::marker::PhantomData }
    }

    /// Takes the next id from `counter` for a new item.
    pub fn allocate(counter: &mut IdAllocator) -> (r: Self)
        ensures
            r.id_spec().0 == old(counter)@,
            final(counter)@ == successor(old(counter)@),
    {
        Self::new(Id::allocate(counter))
    }
}

impl<T> core::ops::Deref for ItemId<T> {
    type Target = usize;

    fn deref(&self) -> (r: &usize)
        ensures
            *r == self.id_spec().0,
    {
        &self.id.0
    }
}

/// A Group of type `T`.
///
/// Just like a [`Vec`]
#[derive(Debug, Default, Clone)]
pub struct Group<T>(pub Vec<T>);

impl<T> core::ops::Deref for Group<T> {
    type Target = Vec<T>;

    fn deref(&self) -> (r: &Vec<T>)
        ensures
            r@ == self.0@,
    {
        &self.0
    }
}

impl<T> core::ops::DerefMut for Group<T> {
    fn deref_mut(&mut self) -> (r: &mut Vec<T>)
        ensures
            *r == old(self).0,
            final(self).0 == *final(r),
    {
        &mut self.0
    }
}

/// A mutable iterator over a slice, declared so that a group can hand one out.
#[verifier::external_type_specification]
#[verifier::external_body]
#[verifier::reject_recursive_types(Elem)]
pub struct ExIterMut<'a, Elem: 'a>(std::slice::IterMut<'a, Elem>);

impl<T> IntoIterator for Group<T> {
    type IntoIter = std::vec::IntoIter<T>;
    type Item = T;

    /// Hands out the items, in order.
    fn into_iter(self) -> (r: Self::IntoIter)
        ensures
            r.remaining() == self.0@,
    {
        broadcast use vstd::std_specs::vec::group_vec_axioms;
        self.0.into_iter()
    }
}

impl<'a, T> IntoIterator for &'a Group<T> {
    type IntoIter = std::slice::Iter<'a, T>;
    type Item = &'a T;

    /// Hands out references to the items, in order.
    fn into_iter(self) -> (r: Self::IntoIter)
        ensures
            r.remaining() == self.0@.map_values(|x: T| &x),
    {
        broadcast use vstd::std_specs::slice::group_slice_axioms;
        self.0.iter()
    }
}

impl<'a, T> IntoIterator for &'a mut Group<T> {
    type IntoIter = std::slice::IterMut<'a, T>;
    type Item = &'a mut T;

    /// Calls `<[T]>::iter_mut` on the items; nothing is claimed of the iterator.
    #[verifier::external_body]
    fn into_iter(self) -> Self::IntoIter {
        self.0.iter_mut()
    }
}

} // verus!
