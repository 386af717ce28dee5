//! What a cache of keys and values takes.

use crate::array::{Array, concat};
use crate::kv_cache::KVCacheState;
use crate::shape::Shape;
use vstd::prelude::*;

verus! {

/// Four extents that are there: batch, heads, positions, features.
pub open spec fn is_cached_shape(x: Array, batch: i32, heads: i32, n: i32, features: i32) -> bool {
    x.fits && x.shape == Shape::D4(batch, heads, n, features)
}

/// Extents that differ at most in the number of positions.
pub open spec fn same_but_positions(past: Shape, new: Shape) -> bool {
    match (past, new) {
        (Shape::D4(b, h, _, d), Shape::D4(b2, h2, _, d2)) => b == b2 && h == h2 && d == d2,
        _ => past.dims().len() == new.dims().len(),
    }
}

/// A layer of the cache takes keys and values of any number of positions; what it returns is what
/// it then holds, and the other layers stay as they are.
pub proof fn law_cache_takes(
    cache: KVCacheState,
    layer: int,
    k: Array,
    v: Array,
    past_k: Array,
    past_v: Array,
    batch: i32,
    heads: i32,
    past: i32,
    n: i32,
    d: i32,
    e: i32,
)
    requires
        0 <= layer < cache.entries.len(),
        batch >= 0 && heads >= 0 && d >= 0 && e >= 0,
        0 <= past && 0 <= n && past + n <= i32::MAX,
        is_cached_shape(k, batch, heads, n, d),
        is_cached_shape(v, batch, heads, n, e),
        cache.entries[layer] matches Some(held) ==> held == (past_k, past_v) && is_cached_shape(
            past_k,
            batch,
            heads,
            past,
            d,
        ) && is_cached_shape(past_v, batch, heads, past, e),
        cache.entries[layer] is None ==> past == 0,
    ensures
        cache.accepts(layer, k, v),
        ({
            let after = cache.extended(layer, k, v);
            let both = cache.joined(layer, k, v);
            &&& after.entries[layer] == Some(both)
            &&& after.entries.len() == cache.entries.len()
            &&& after.config == cache.config
            &&& is_cached_shape(both.0, batch, heads, (past + n) as i32, d)
            &&& is_cached_shape(both.1, batch, heads, (past + n) as i32, e)
            &&& layer == cache.entries.len() - 1 ==> after.offset == past + n
            &&& layer != cache.entries.len() - 1 ==> after.offset == cache.offset
            &&& forall|j: int|
                0 <= j < cache.entries.len() && j != layer ==> #[trigger] after.entries[j]
                    == cache.entries[j]
        }),
{
    reveal(concat);
}

/// A layer that the cache does not have is refused, and so are keys of another batch, of other
/// heads or of other features than the past ones; the cache stays as it is.
pub proof fn law_cache_refuses(cache: KVCacheState, layer: int, k: Array, v: Array)
    requires
        0 <= layer < cache.entries.len() ==> (cache.entries[layer] matches Some(held)
            && !same_but_positions(held.0.shape, k.shape)),
    ensures
        !cache.accepts(layer, k, v),
        cache.extended(layer, k, v) == cache,
{
    reveal(concat);
}

} // verus!
