//! Registry resolution: keyed lookup of named definitions, and the key-set
//! measure that bounds how many reference resolutions can be in flight at
//! once during code generation.
//!
//! A registry is an association vector; lookup returns the first entry whose
//! key matches, which under unique keys is the only one. A missing key is a
//! content-reference error that aborts the enclosing compilation.

use vstd::prelude::*;
use vstd::seq_lib::*;
use vstd::set::axiom_set_remove_len;
use crate::schema::{DensityFunction, Noise, WorldGen};
use crate::ir::CompileError;

verus! {

/// First-match keyed lookup in an association sequence.
pub open spec fn lookup<T>(entries: Seq<(String, T)>, key: Seq<char>) -> Option<T>
    decreases entries.len(),
{
    if entries.len() == 0 {
        Option::None
    } else if entries[0].0@ == key {
        Option::Some(entries[0].1)
    } else {
        lookup(entries.drop_first(), key)
    }
}

/// The set of keys of an association sequence.
pub open spec fn reg_keys<T>(entries: Seq<(String, T)>) -> Set<Seq<char>> {
    entries.map_values(|e: (String, T)| e.0@).to_set()
}

/// The keys of `entries` not currently under resolution: the measure that
/// shrinks each time code generation enters a referenced definition.
pub open spec fn avail_keys<T>(entries: Seq<(String, T)>, stack: Seq<Seq<char>>) -> Set<
    Seq<char>,
> {
    reg_keys(entries).difference(stack.to_set())
}

/// A successful lookup names an entry of the sequence; a failed one matches
/// no entry.
pub proof fn lemma_lookup_index<T>(entries: Seq<(String, T)>, key: Seq<char>)
    ensures
        match lookup(entries, key) {
            Option::Some(v) => exists|i: int|
                0 <= i < entries.len() && #[trigger] entries[i].0@ == key && entries[i].1 == v,
            Option::None => forall|i: int|
                0 <= i < entries.len() ==> #[trigger] entries[i].0@ != key,
        },
    decreases entries.len(),
{
    if entries.len() > 0 && entries[0].0@ != key {
        lemma_lookup_index(entries.drop_first(), key);
        match lookup(entries, key) {
            Option::Some(v) => {
                let j = choose|j: int|
                    0 <= j < entries.drop_first().len()
                        && #[trigger] entries.drop_first()[j].0@ == key
                        && entries.drop_first()[j].1 == v;
                assert(entries[j + 1].0@ == key && entries[j + 1].1 == v);
            },
            Option::None => {
                assert forall|i: int| 0 <= i < entries.len() implies #[trigger] entries[i].0@
                    != key by {
                    if i > 0 {
                        assert(entries.drop_first()[i - 1].0@ != key);
                    }
                }
            },
        }
    }
}

/// Skipping entries that do not match leaves the lookup result unchanged.
pub proof fn lemma_lookup_skip<T>(entries: Seq<(String, T)>, key: Seq<char>, i: int)
    requires
        0 <= i <= entries.len(),
        forall|j: int| 0 <= j < i ==> #[trigger] entries[j].0@ != key,
    ensures
        lookup(entries, key) == lookup(entries.skip(i), key),
    decreases i,
{
    if i > 0 {
        assert(entries[0].0@ != key);
        assert forall|j: int| 0 <= j < i - 1 implies #[trigger] entries.drop_first()[j].0@
            != key by {
            assert(entries[j + 1].0@ != key);
        }
        lemma_lookup_skip(entries.drop_first(), key, i - 1);
        assert(entries.drop_first().skip(i - 1) =~= entries.skip(i));
    } else {
        assert(entries.skip(0) =~= entries);
    }
}

/// Under unique keys, lookup returns the entry holding the key, wherever it
/// stands: insertion order carries no meaning for a well-formed registry.
pub proof fn lemma_lookup_unique<T>(entries: Seq<(String, T)>, i: int)
    requires
        crate::schema::keys_unique(entries),
        0 <= i < entries.len(),
    ensures
        lookup(entries, entries[i].0@) == Option::Some(entries[i].1),
{
    let key = entries[i].0@;
    lemma_lookup_skip(entries, key, i);
    assert(entries.skip(i)[0] == entries[i]);
}

/// Entering a resolvable definition that is not already under resolution
/// strictly shrinks the set of available keys: the termination argument of
/// recursive code generation.
pub proof fn lemma_avail_decreases<T>(
    entries: Seq<(String, T)>,
    stack: Seq<Seq<char>>,
    key: Seq<char>,
)
    requires
        !stack.contains(key),
        lookup(entries, key) is Some,
    ensures
        avail_keys(entries, stack.push(key)).finite(),
        avail_keys(entries, stack.push(key)).len() < avail_keys(entries, stack).len(),
{
    broadcast use vstd::set::group_set_axioms, seq_to_set_is_finite;

    let keys = reg_keys(entries);
    lemma_lookup_index(entries, key);
    let i = choose|i: int|
        0 <= i < entries.len() && #[trigger] entries[i].0@ == key
            && entries[i].1 == lookup(entries, key)->Some_0;
    let mapped = entries.map_values(|e: (String, T)| e.0@);
    assert(mapped[i] == key);
    assert(mapped.contains(key));
    assert(keys.contains(key));
    assert(stack.push(key).to_set() =~= stack.to_set().insert(key)) by {
        assert forall|x: Seq<char>| #[trigger] stack.push(key).contains(x) implies stack.to_set()
            .insert(key).contains(x) by {
            let j = choose|j: int| 0 <= j < stack.push(key).len() && stack.push(key)[j] == x;
            if j < stack.len() {
                assert(stack[j] == x);
            }
        }
        assert forall|x: Seq<char>| stack.to_set().insert(key).contains(x) implies #[trigger] stack
            .push(key).contains(x) by {
            if x == key {
                assert(stack.push(key)[stack.len() as int] == x);
            } else {
                let j = choose|j: int| 0 <= j < stack.len() && stack[j] == x;
                assert(stack.push(key)[j] == x);
            }
        }
    }
    assert(avail_keys(entries, stack.push(key)) =~= avail_keys(entries, stack).remove(key));
    assert(avail_keys(entries, stack).contains(key));
    axiom_set_remove_len(avail_keys(entries, stack), key);
}

impl WorldGen {
    /// Resolve an identifier in the density-function registry.
    ///
    /// Returns a borrow of the stored definition; when the key is absent,
    /// fails with [`CompileError::DensityFunctionNotFound`] carrying that
    /// exact key.
    pub fn resolve_density_function<'a>(&'a self, name: &String) -> (r: Result<
        &'a DensityFunction,
        CompileError,
    >)
        ensures
            match r {
                Ok(d) => lookup(self.density_function@, name@) == Option::Some(*d),
                Err(e) => {
                    &&& lookup(self.density_function@, name@) is None
                    &&& e == (CompileError::DensityFunctionNotFound { key: *name })
                },
            },
    {
        let n = self.density_function.len();
        let mut i: usize = 0;
        while i < n
            invariant
                i <= n,
                n == self.density_function@.len(),
                forall|j: int| 0 <= j < i ==> #[trigger] self.density_function@[j].0@ != name@,
            decreases n - i,
        {
            if self.density_function[i].0 == *name {
                proof {
                    lemma_lookup_skip(self.density_function@, name@, i as int);
                    assert(self.density_function@.skip(i as int)[0] == self.density_function@[
                        i as int]);
                }
                return Ok(&self.density_function[i].1);
            }
            i += 1;
        }
        proof {
            lemma_lookup_skip(self.density_function@, name@, n as int);
            assert(self.density_function@.skip(n as int).len() == 0);
        }
        Err(CompileError::DensityFunctionNotFound { key: name.clone() })
    }

    /// Resolve an identifier in the noise registry.
    ///
    /// Returns a borrow of the stored descriptor; when the key is absent,
    /// fails with [`CompileError::NoiseNotFound`] carrying that exact key.
    pub fn resolve_noise<'a>(&'a self, name: &String) -> (r: Result<&'a Noise, CompileError>)
        ensures
            match r {
                Ok(d) => lookup(self.noise@, name@) == Option::Some(*d),
                Err(e) => {
                    &&& lookup(self.noise@, name@) is None
                    &&& e == (CompileError::NoiseNotFound { key: *name })
                },
            },
    {
        let n = self.noise.len();
        let mut i: usize = 0;
        while i < n
            invariant
                i <= n,
                n == self.noise@.len(),
                forall|j: int| 0 <= j < i ==> #[trigger] self.noise@[j].0@ != name@,
            decreases n - i,
        {
            if self.noise[i].0 == *name {
                proof {
                    lemma_lookup_skip(self.noise@, name@, i as int);
                    assert(self.noise@.skip(i as int)[0] == self.noise@[i as int]);
                }
                return Ok(&self.noise[i].1);
            }
            i += 1;
        }
        proof {
            lemma_lookup_skip(self.noise@, name@, n as int);
            assert(self.noise@.skip(n as int).len() == 0);
        }
        Err(CompileError::NoiseNotFound { key: name.clone() })
    }
}

} // verus!
