//! The hash collections of `rustc_hash`, as far as this library uses them.
//!
//! Nothing in this file is proved. Each item states what the named
//! operation of the standard hash map or hash set does when its hasher is
//! the Fx hasher, which is deterministic and unseeded, so that the
//! collection behaves as the finite map or set of its entries.

use vstd::prelude::*;
use rustc_hash::{FxHashMap, FxHashSet};

verus! {

/// `rustc_hash::FxBuildHasher`, the hasher parameter of `FxHashMap` and
/// `FxHashSet`. Opaque here.
#[verifier::external_type_specification]
#[verifier::external_body]
pub struct ExFxBuildHasher(rustc_hash::FxBuildHasher);

/// `HashMap::insert` on an `FxHashMap` from pairs of integers to positions:
/// afterwards the map holds `v` under `k`, and every other entry as before.
#[verifier::external_body]
pub(crate) fn index_insert(m: &mut FxHashMap<(u64, u64), usize>, k: (u64, u64), v: usize)
    ensures
        final(m)@ == old(m)@.insert(k, v),
{
    m.insert(k, v);
}

/// `HashMap::get` on an `FxHashMap` from pairs of integers to positions: the
/// position stored under `k`, or `None` when the map has no such key.
#[verifier::external_body]
pub(crate) fn index_get(m: &FxHashMap<(u64, u64), usize>, k: (u64, u64)) -> (r: Option<usize>)
    ensures
        r == (if m@.contains_key(k) {
            Some(m@[k])
        } else {
            None
        }),
{
    m.get(&k).copied()
}

/// `HashSet::insert` on an `FxHashSet` of coordinate pairs: afterwards the
/// set holds `p` besides what it held.
#[verifier::external_body]
pub(crate) fn points_insert(s: &mut FxHashSet<(usize, usize)>, p: (usize, usize))
    ensures
        final(s)@ == old(s)@.insert(p),
{
    s.insert(p);
}

/// `HashSet::remove` on an `FxHashSet` of coordinate pairs: afterwards the
/// set holds what it held, except `p`.
#[verifier::external_body]
pub(crate) fn points_remove(s: &mut FxHashSet<(usize, usize)>, p: (usize, usize))
    ensures
        final(s)@ == old(s)@.remove(p),
{
    s.remove(&p);
}

/// `HashSet::contains` on an `FxHashSet` of coordinate pairs.
#[verifier::external_body]
pub(crate) fn points_contains(s: &FxHashSet<(usize, usize)>, p: (usize, usize)) -> (r: bool)
    ensures
        r == s@.contains(p),
{
    s.contains(&p)
}

/// What an `FxHashMap` from names to positions holds: the position stored
/// under each name, the names taken as their characters.
pub uninterp spec fn name_positions(m: FxHashMap<String, usize>) -> Map<Seq<char>, usize>;

/// `FxHashMap::default`, for a map from names to positions: a map without
/// entries.
#[verifier::external_body]
pub(crate) fn names_new() -> (index: FxHashMap<String, usize>)
    ensures
        name_positions(index) =~= Map::empty(),
{
    FxHashMap::default()
}

/// `HashMap::insert` on an `FxHashMap` from names to positions: afterwards
/// the map holds `at` under `name`, and every other entry as before.
#[verifier::external_body]
pub(crate) fn names_insert(m: &mut FxHashMap<String, usize>, name: String, at: usize)
    ensures
        name_positions(*final(m)) == name_positions(*old(m)).insert(name@, at),
{
    m.insert(name, at);
}

/// `HashMap::get` on an `FxHashMap` from names to positions: the position
/// stored under `name`, or `None` when the map has no such name.
#[verifier::external_body]
pub(crate) fn names_get(m: &FxHashMap<String, usize>, name: &str) -> (r: Option<usize>)
    ensures
        r == (if name_positions(*m).contains_key(name@) {
            Some(name_positions(*m)[name@])
        } else {
            None
        }),
{
    m.get(name).copied()
}

} // verus!
