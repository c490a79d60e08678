use vstd::prelude::*;
use std::collections::HashMap;
use std::hash::Hash;
use vstd::std_specs::hash::{builds_valid_hashers, obeys_key_model};

verus! {

/// Memoizes a single-argument calculation: each argument is computed once,
/// and later calls with it return the stored value.
#[verifier::reject_recursive_types(T)]
#[verifier::reject_recursive_types(U)]
#[verifier::reject_recursive_types(V)]
pub struct Cacher<T, U, V> where T: Fn(U) -> V, U: Copy + Eq + Hash, V: Clone {
    pub calculation: T,
    pub values: HashMap<U, V>,
}

impl<T, U, V> Cacher<T, U, V> where T: Fn(U) -> V, U: Copy + Eq + Hash, V: Clone {
    /// A cache over `calculation` with nothing stored yet.
    pub fn new(calculation: T) -> (r: Cacher<T, U, V>)
        ensures
            r.calculation == calculation,
            r.values@ == Map::<U, V>::empty(),
    {
        Cacher { calculation, values: HashMap::new() }
    }

    /// The value of the calculation at `arg`: the stored one where `arg` was
    /// seen before, else a fresh one, which is then stored.
    pub fn value(&mut self, arg: U) -> (r: &V)
        requires
            obeys_key_model::<U>(),
            builds_valid_hashers::<std::collections::hash_map::RandomState>(),
            !old(self).values@.contains_key(arg) ==> call_requires(
                old(self).calculation,
                (arg,),
            ),
        ensures
            final(self).calculation == old(self).calculation,
            old(self).values@.contains_key(arg) ==> final(self).values@ == old(self).values@ && *r
                == old(self).values@[arg],
            !old(self).values@.contains_key(arg) ==> call_ensures(
                old(self).calculation,
                (arg,),
                *r,
            ) && final(self).values@ == old(self).values@.insert(arg, *r),
    {
        broadcast use vstd::std_specs::hash::group_hash_axioms;
        if !self.values.contains_key(&arg) {
            let v = (self.calculation)(arg);
            self.values.insert(arg, v);
        }
        self.values.get(&arg).unwrap()
    }
}

} // verus!
