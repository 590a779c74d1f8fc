//! Simple typed store lookups over an ordered list of keys.
//!
//! These drive the options that need no builtin value-function detour:
//! the keys come from key expansion, and the first key the store
//! answers wins. A miss on every key means the layer below (the
//! compiled-in default) stands.

use vstd::prelude::*;
use vstd::string::*;
use crate::store::{opt_store_view, GitConfig, StoreView};

verus! {

/// The value of the first key present among the string entries.
pub open spec fn first_string(keys: Seq<Seq<char>>, store: StoreView) -> Option<Seq<char>>
    decreases keys.len(),
{
    if keys.len() == 0 {
        None
    } else if store.strings.contains_key(keys[0]) {
        Some(store.strings[keys[0]])
    } else {
        first_string(keys.drop_first(), store)
    }
}

/// The value of the first key present among the bool entries.
pub open spec fn first_bool(keys: Seq<Seq<char>>, store: StoreView) -> Option<bool>
    decreases keys.len(),
{
    if keys.len() == 0 {
        None
    } else if store.bools.contains_key(keys[0]) {
        Some(store.bools[keys[0]])
    } else {
        first_bool(keys.drop_first(), store)
    }
}

/// The value of the first key present among the integer entries.
pub open spec fn first_i64(keys: Seq<Seq<char>>, store: StoreView) -> Option<i64>
    decreases keys.len(),
{
    if keys.len() == 0 {
        None
    } else if store.ints.contains_key(keys[0]) {
        Some(store.ints[keys[0]])
    } else {
        first_i64(keys.drop_first(), store)
    }
}

/// Against an absent store, every string lookup misses.
proof fn lemma_first_string_empty(keys: Seq<Seq<char>>)
    ensures
        first_string(keys, StoreView::empty()) is None,
    decreases keys.len(),
{
    if keys.len() > 0 {
        lemma_first_string_empty(keys.drop_first());
    }
}

/// Against an absent store, every bool lookup misses.
proof fn lemma_first_bool_empty(keys: Seq<Seq<char>>)
    ensures
        first_bool(keys, StoreView::empty()) is None,
    decreases keys.len(),
{
    if keys.len() > 0 {
        lemma_first_bool_empty(keys.drop_first());
    }
}

/// Against an absent store, every integer lookup misses.
proof fn lemma_first_i64_empty(keys: Seq<Seq<char>>)
    ensures
        first_i64(keys, StoreView::empty()) is None,
    decreases keys.len(),
{
    if keys.len() > 0 {
        lemma_first_i64_empty(keys.drop_first());
    }
}

/// Gets the first string value the store holds under the given keys.
pub fn _string(keys: &Vec<String>, git_config: &Option<GitConfig>) -> (r: Option<String>)
    ensures
        r.deep_view() == first_string(keys.deep_view(), opt_store_view(*git_config)),
{
    let ghost ks = keys.deep_view();
    let ghost store = opt_store_view(*git_config);
    match git_config {
        Some(c) => {
            let n = keys.len();
            let mut i: usize = 0;
            assert(ks.skip(0) =~= ks);
            while i < n
                invariant
                    n == keys@.len(),
                    i <= n,
                    ks == keys.deep_view(),
                    store == opt_store_view(*git_config),
                    c@ == store,
                    first_string(ks, store) == first_string(ks.skip(i as int), store),
                decreases n - i,
            {
                assert(ks.skip(i as int)[0] == ks[i as int]);
                assert(ks[i as int] == keys@[i as int]@);
                if let Some(v) = c.get_string(keys[i].as_str()) {
                    return Some(v);
                }
                assert(ks.skip(i as int).drop_first() =~= ks.skip(i + 1));
                i = i + 1;
            }
            assert(ks.skip(n as int) =~= Seq::<Seq<char>>::empty());
            None
        },
        None => {
            proof {
                lemma_first_string_empty(ks);
            }
            None
        },
    }
}

/// Gets the first bool value the store holds under the given keys.
pub fn _bool(keys: &Vec<String>, git_config: &Option<GitConfig>) -> (r: Option<bool>)
    ensures
        r == first_bool(keys.deep_view(), opt_store_view(*git_config)),
{
    let ghost ks = keys.deep_view();
    let ghost store = opt_store_view(*git_config);
    match git_config {
        Some(c) => {
            let n = keys.len();
            let mut i: usize = 0;
            assert(ks.skip(0) =~= ks);
            while i < n
                invariant
                    n == keys@.len(),
                    i <= n,
                    ks == keys.deep_view(),
                    store == opt_store_view(*git_config),
                    c@ == store,
                    first_bool(ks, store) == first_bool(ks.skip(i as int), store),
                decreases n - i,
            {
                assert(ks.skip(i as int)[0] == ks[i as int]);
                assert(ks[i as int] == keys@[i as int]@);
                if let Some(v) = c.get_bool(keys[i].as_str()) {
                    return Some(v);
                }
                assert(ks.skip(i as int).drop_first() =~= ks.skip(i + 1));
                i = i + 1;
            }
            assert(ks.skip(n as int) =~= Seq::<Seq<char>>::empty());
            None
        },
        None => {
            proof {
                lemma_first_bool_empty(ks);
            }
            None
        },
    }
}

/// Gets the first integer value the store holds under the given keys.
pub fn _i64(keys: &Vec<String>, git_config: &Option<GitConfig>) -> (r: Option<i64>)
    ensures
        r == first_i64(keys.deep_view(), opt_store_view(*git_config)),
{
    let ghost ks = keys.deep_view();
    let ghost store = opt_store_view(*git_config);
    match git_config {
        Some(c) => {
            let n = keys.len();
            let mut i: usize = 0;
            assert(ks.skip(0) =~= ks);
            while i < n
                invariant
                    n == keys@.len(),
                    i <= n,
                    ks == keys.deep_view(),
                    store == opt_store_view(*git_config),
                    c@ == store,
                    first_i64(ks, store) == first_i64(ks.skip(i as int), store),
                decreases n - i,
            {
                assert(ks.skip(i as int)[0] == ks[i as int]);
                assert(ks[i as int] == keys@[i as int]@);
                if let Some(v) = c.get_i64(keys[i].as_str()) {
                    return Some(v);
                }
                assert(ks.skip(i as int).drop_first() =~= ks.skip(i + 1));
                i = i + 1;
            }
            assert(ks.skip(n as int) =~= Seq::<Seq<char>>::empty());
            None
        },
        None => {
            proof {
                lemma_first_i64_empty(ks);
            }
            None
        },
    }
}

} // verus!
