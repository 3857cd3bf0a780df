//! Implementations of [`Empty`] for the usual standard-library types: the
//! natural zero-element, zero-length or absent-value instance of each.

use vstd::prelude::*;

use crate::Empty;

verus! {

impl Empty for () {
    open spec fn is_empty_value(&self) -> bool {
        true
    }

    fn empty() -> (r: Self) {
    }
}

impl<T: ?Sized> Empty for core::marker::PhantomData<T> {
    open spec fn is_empty_value(&self) -> bool {
        true
    }

    fn empty() -> (r: Self) {
        core::marker::PhantomData
    }
}

impl<T> Empty for Option<T> {
    open spec fn is_empty_value(&self) -> bool {
        *self is None
    }

    fn empty() -> (r: Self) {
        None
    }
}

impl Empty for String {
    open spec fn is_empty_value(&self) -> bool {
        self@ == Seq::<char>::empty()
    }

    fn empty() -> (r: Self) {
        String::new()
    }
}

impl<T> Empty for Vec<T> {
    open spec fn is_empty_value(&self) -> bool {
        self@ == Seq::<T>::empty()
    }

    fn empty() -> (r: Self) {
        Vec::new()
    }
}

impl<T: Ord> Empty for std::collections::BTreeSet<T> {
    open spec fn is_empty_value(&self) -> bool {
        self@ == Set::<T>::empty()
    }

    fn empty() -> (r: Self) {
        std::collections::BTreeSet::new()
    }
}

impl<T: Eq + std::hash::Hash> Empty for std::collections::HashSet<T> {
    open spec fn is_empty_value(&self) -> bool {
        self@ == Set::<T>::empty()
    }

    fn empty() -> (r: Self) {
        std::collections::HashSet::new()
    }
}

impl<T> Empty for std::collections::VecDeque<T> {
    open spec fn is_empty_value(&self) -> bool {
        self@ == Seq::<T>::empty()
    }

    fn empty() -> (r: Self) {
        std::collections::VecDeque::new()
    }
}

impl<K: Ord, V> Empty for std::collections::BTreeMap<K, V> {
    open spec fn is_empty_value(&self) -> bool {
        self@ == Map::<K, V>::empty()
    }

    fn empty() -> (r: Self) {
        std::collections::BTreeMap::new()
    }
}

impl<K: Eq + std::hash::Hash, V> Empty for std::collections::HashMap<K, V> {
    open spec fn is_empty_value(&self) -> bool {
        self@ == Map::<K, V>::empty()
    }

    fn empty() -> (r: Self) {
        std::collections::HashMap::new()
    }
}

impl<T: Empty> Empty for Box<T> {
    open spec fn is_empty_value(&self) -> bool {
        (**self).is_empty_value()
    }

    fn empty() -> (r: Self) {
        Box::new(T::empty())
    }
}

impl<A: Empty> Empty for (A,) {
    open spec fn is_empty_value(&self) -> bool {
        self.0.is_empty_value()
    }

    fn empty() -> (r: Self) {
        (A::empty(),)
    }
}

impl<A: Empty, B: Empty> Empty for (A, B) {
    open spec fn is_empty_value(&self) -> bool {
        self.0.is_empty_value() && self.1.is_empty_value()
    }

    fn empty() -> (r: Self) {
        (A::empty(), B::empty())
    }
}

impl<A: Empty, B: Empty, C: Empty> Empty for (A, B, C) {
    open spec fn is_empty_value(&self) -> bool {
        self.0.is_empty_value() && self.1.is_empty_value() && self.2.is_empty_value()
    }

    fn empty() -> (r: Self) {
        (A::empty(), B::empty(), C::empty())
    }
}

impl<A: Empty, B: Empty, C: Empty, D: Empty> Empty for (A, B, C, D) {
    open spec fn is_empty_value(&self) -> bool {
        self.0.is_empty_value() && self.1.is_empty_value() && self.2.is_empty_value()
            && self.3.is_empty_value()
    }

    fn empty() -> (r: Self) {
        (A::empty(), B::empty(), C::empty(), D::empty())
    }
}

/// Relies on `core::array::from_fn`: each element of the returned array is
/// the value produced by the closure, here the empty value of `T`.
#[verifier::external_body]
fn empty_array<T: Empty, const N: usize>() -> (r: [T; N])
    ensures
        forall|i: int| 0 <= i < N ==> (#[trigger] r@[i]).is_empty_value(),
{
    core::array::from_fn(|_| T::empty())
}

impl<T: Empty, const N: usize> Empty for [T; N] {
    open spec fn is_empty_value(&self) -> bool {
        forall|i: int| 0 <= i < N ==> (#[trigger] self@[i]).is_empty_value()
    }

    fn empty() -> (r: Self) {
        empty_array()
    }
}

/// Law: the empty value of `Option<T>` is unique. Any two empty options are
/// the same value, `None`, so two invocations of `empty` yield
/// equal-by-value instances.
pub proof fn lemma_option_empty_unique<T>(a: Option<T>, b: Option<T>)
    requires
        a.is_empty_value(),
        b.is_empty_value(),
    ensures
        a == b,
{
}

/// Law: the empty value of `String` is unique up to its character content.
/// Any two empty strings hold the same (zero-length) character sequence, so
/// two invocations of `empty` yield equal-by-value instances.
pub proof fn lemma_string_empty_unique(a: String, b: String)
    requires
        a.is_empty_value(),
        b.is_empty_value(),
    ensures
        a@ == b@,
{
}

/// Law: the empty value of `Vec<T>` is unique up to its contents. Any two
/// empty vectors hold the same (zero-length) element sequence, so two
/// invocations of `empty` yield equal-by-value instances.
pub proof fn lemma_vec_empty_unique<T>(a: Vec<T>, b: Vec<T>)
    requires
        a.is_empty_value(),
        b.is_empty_value(),
    ensures
        a@ == b@,
{
}

/// Law: the empty value of `VecDeque<T>` is unique up to its contents, so
/// two invocations of `empty` yield equal-by-value instances.
pub proof fn lemma_vec_deque_empty_unique<T>(
    a: std::collections::VecDeque<T>,
    b: std::collections::VecDeque<T>,
)
    requires
        a.is_empty_value(),
        b.is_empty_value(),
    ensures
        a@ == b@,
{
}

/// Law: the empty value of `BTreeSet<T>` is unique up to its contents, so
/// two invocations of `empty` yield equal-by-value instances.
pub proof fn lemma_btree_set_empty_unique<T: Ord>(
    a: std::collections::BTreeSet<T>,
    b: std::collections::BTreeSet<T>,
)
    requires
        a.is_empty_value(),
        b.is_empty_value(),
    ensures
        a@ == b@,
{
}

/// Law: the empty value of `HashSet<T>` is unique up to its contents, so
/// two invocations of `empty` yield equal-by-value instances.
pub proof fn lemma_hash_set_empty_unique<T: Eq + std::hash::Hash>(
    a: std::collections::HashSet<T>,
    b: std::collections::HashSet<T>,
)
    requires
        a.is_empty_value(),
        b.is_empty_value(),
    ensures
        a@ == b@,
{
}

/// Law: the empty value of `BTreeMap<K, V>` is unique up to its contents, so
/// two invocations of `empty` yield equal-by-value instances.
pub proof fn lemma_btree_map_empty_unique<K: Ord, V>(
    a: std::collections::BTreeMap<K, V>,
    b: std::collections::BTreeMap<K, V>,
)
    requires
        a.is_empty_value(),
        b.is_empty_value(),
    ensures
        a@ == b@,
{
}

/// Law: the empty value of `HashMap<K, V>` is unique up to its contents, so
/// two invocations of `empty` yield equal-by-value instances.
pub proof fn lemma_hash_map_empty_unique<K: Eq + std::hash::Hash, V>(
    a: std::collections::HashMap<K, V>,
    b: std::collections::HashMap<K, V>,
)
    requires
        a.is_empty_value(),
        b.is_empty_value(),
    ensures
        a@ == b@,
{
}

/// Law: a unit struct has a sole instance, so an empty `()` is the unique
/// value of its type.
pub proof fn lemma_unit_empty_unique(a: (), b: ())
    ensures
        a == b,
{
}

} // verus!
