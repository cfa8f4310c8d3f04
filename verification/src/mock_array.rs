//! A read-mostly array that remembers a single element.
use core::marker::PhantomData;
use vstd::prelude::*;

verus! {

/// An array of unlimited size in which every index holds the same value.
///
/// Indexing with different keys reaches the same element, for reading and for
/// writing, so two machines that are given equal mocks see equal reads whatever
/// they ask for.
#[derive(Debug)]
pub struct MockRead<K, V> {
    pub value: V,
    pub key: PhantomData<K>,
}

impl<K, V> MockRead<K, V> {
    /// The array that answers `value` at every index.
    pub fn new(value: V) -> (array: Self)
        ensures
            array.value == value,
    {
        MockRead { value, key: PhantomData }
    }

    /// The element at `index`.
    pub fn get(&self, index: K) -> (element: &V)
        ensures
            *element == self.value,
    {
        &self.value
    }

    /// The element at `index`, for writing: what is stored through it is what
    /// every index holds afterwards.
    pub fn get_mut(&mut self, index: K) -> (element: &mut V)
        ensures
            *element == old(self).value,
            final(self).value == *final(element),
    {
        &mut self.value
    }
}

impl<K, V: Clone> Clone for MockRead<K, V> {
    /// An array that answers with a clone of this one's value.
    fn clone(&self) -> (array: Self)
        ensures
            cloned(self.value, array.value),
    {
        MockRead::new(self.value.clone())
    }
}

/// An array made of a value answers with that value at every index.
pub proof fn lemma_every_index_holds_the_value<K, V>(
    value: V,
    array: MockRead<K, V>,
    index: K,
    element: &V,
)
    requires
        call_ensures(MockRead::<K, V>::new, (value,), array),
        call_ensures(MockRead::<K, V>::get, (&array, index), element),
    ensures
        *element == value,
{
}

} // verus!
