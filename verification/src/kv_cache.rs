//! What attention and state-space layers keep between steps of generation.

use crate::array::{Array, concat, extent, extent_at};
use crate::error::{LoraError, misfit};
use vstd::prelude::*;

verus! {

/// The extents that a cache is made for.
#[derive(Clone, Copy, PartialEq, Eq, Structural, Debug)]
pub struct KVCacheConfig {
    pub num_layers: usize,
    pub max_seq_len: usize,
    pub num_kv_heads: usize,
    pub head_dim: usize,
}

/// Keys and values of past positions, layer by layer.
#[derive(Debug)]
pub struct KVCache {
    config: KVCacheConfig,
    offset: i32,
    entries: Vec<Option<(Array, Array)>>,
}

/// A cache as a mathematical value.
pub struct KVCacheState {
    pub config: KVCacheConfig,
    /// The number of positions that all layers have seen.
    pub offset: i32,
    /// Keys and values `[batch, heads, positions, features]` of each layer.
    pub entries: Seq<Option<(Array, Array)>>,
}

impl View for KVCache {
    type V = KVCacheState;

    closed spec fn view(&self) -> KVCacheState {
        KVCacheState { config: self.config, offset: self.offset, entries: self.entries@ }
    }
}

impl KVCacheState {
    /// No layer has seen a position.
    pub open spec fn fresh(config: KVCacheConfig) -> KVCacheState {
        KVCacheState {
            config,
            offset: 0,
            entries: Seq::new(config.num_layers as nat, |i: int| None),
        }
    }

    /// The keys and values of a layer with new ones behind them.
    pub open spec fn joined(self, layer: int, k: Array, v: Array) -> (Array, Array) {
        match self.entries[layer] {
            Some((past_k, past_v)) => (concat(past_k, k, 1), concat(past_v, v, 1)),
            None => (k, v),
        }
    }

    /// New keys and values of a layer are accepted.
    pub open spec fn accepts(self, layer: int, k: Array, v: Array) -> bool {
        &&& 0 <= layer < self.entries.len()
        &&& self.joined(layer, k, v).0.fits
        &&& self.joined(layer, k, v).1.fits
    }

    /// The cache after new keys and values of a layer. The offset moves with the last layer.
    pub open spec fn extended(self, layer: int, k: Array, v: Array) -> KVCacheState {
        if self.accepts(layer, k, v) {
            let both = self.joined(layer, k, v);
            KVCacheState {
                offset: if layer == self.entries.len() - 1 {
                    extent_at(both.0.shape, 1)
                } else {
                    self.offset
                },
                entries: self.entries.update(layer, Some(both)),
                ..self
            }
        } else {
            self
        }
    }
}

impl KVCacheConfig {
    pub fn new(num_layers: usize, max_seq_len: usize, num_kv_heads: usize, head_dim: usize) -> (r:
        KVCacheConfig)
        ensures
            r == (KVCacheConfig { num_layers, max_seq_len, num_kv_heads, head_dim }),
    {
        KVCacheConfig { num_layers, max_seq_len, num_kv_heads, head_dim }
    }
}

impl KVCache {
    /// An empty cache.
    pub fn new(config: KVCacheConfig) -> (r: KVCache)
        ensures
            r@ == KVCacheState::fresh(config),
    {
        let mut entries: Vec<Option<(Array, Array)>> = Vec::new();
        let mut i: usize = 0;
        while i < config.num_layers
            invariant
                i <= config.num_layers,
                entries@.len() == i,
                forall|j: int| 0 <= j < i ==> #[trigger] entries@[j] is None,
            decreases config.num_layers - i,
        {
            entries.push(None);
            i = i + 1;
        }
        let r = KVCache { config, offset: 0, entries };
        assert(r@.entries =~= KVCacheState::fresh(config).entries);
        r
    }

    /// The number of positions that all layers have seen.
    pub fn rope_offset(&self) -> (r: i32)
        ensures
            r == self@.offset,
    {
        self.offset
    }

    /// Puts new keys and values of a layer behind the past ones, and returns all of them.
    /// Refused, with nothing changed, for a layer that the cache does not have and for extents
    /// other than those of the past ones.
    pub fn update_and_fetch(&mut self, layer: usize, k: &Array, v: &Array) -> (r: Result<
        (Array, Array),
        LoraError,
    >)
        ensures
            final(self)@ == old(self)@.extended(layer as int, *k, *v),
            match r {
                Ok(both) => old(self)@.accepts(layer as int, *k, *v) && both == old(self)@.joined(
                    layer as int,
                    *k,
                    *v,
                ),
                Err(e) => e is Mlx && !old(self)@.accepts(layer as int, *k, *v),
            },
    {
        if layer >= self.entries.len() {
            return Err(misfit());
        }
        let (keys, values) = match &self.entries[layer] {
            Some((past_k, past_v)) => (past_k.concat(k, 1), past_v.concat(v, 1)),
            None => (k.clone(), v.clone()),
        };
        if !keys.fits || !values.fits {
            return Err(misfit());
        }
        let length = extent(&keys.shape, 1);
        if layer == self.entries.len() - 1 {
            self.offset = length;
        }
        let kept = Some((keys.clone(), values.clone()));
        self.entries.set(layer, kept);
        Ok((keys, values))
    }
}

/// What a state-space layer keeps.
#[derive(Debug)]
pub struct MambaCacheEntry {
    /// The last inputs of the convolution.
    pub conv_state: Option<Array>,
    /// The state of the recurrence.
    pub ssm_state: Option<Array>,
}

impl MambaCacheEntry {
    /// Nothing is kept yet.
    pub open spec fn empty() -> MambaCacheEntry {
        MambaCacheEntry { conv_state: None, ssm_state: None }
    }

    pub fn new() -> (r: MambaCacheEntry)
        ensures
            r == MambaCacheEntry::empty(),
    {
        MambaCacheEntry { conv_state: None, ssm_state: None }
    }
}

/// What state-space layers keep, layer by layer.
#[derive(Debug)]
pub struct MambaCache {
    entries: Vec<MambaCacheEntry>,
}

impl View for MambaCache {
    type V = Seq<MambaCacheEntry>;

    closed spec fn view(&self) -> Seq<MambaCacheEntry> {
        self.entries@
    }
}

impl MambaCache {
    /// A cache in which no layer keeps anything.
    pub fn new(num_layers: usize) -> (r: MambaCache)
        ensures
            r@.len() == num_layers,
            forall|i: int| 0 <= i < num_layers ==> #[trigger] r@[i] == MambaCacheEntry::empty(),
    {
        let mut entries: Vec<MambaCacheEntry> = Vec::new();
        let mut i: usize = 0;
        while i < num_layers
            invariant
                i <= num_layers,
                entries@.len() == i,
                forall|j: int| 0 <= j < i ==> #[trigger] entries@[j] == MambaCacheEntry::empty(),
            decreases num_layers - i,
        {
            entries.push(MambaCacheEntry::new());
            i = i + 1;
        }
        MambaCache { entries }
    }

    pub fn len(&self) -> (r: usize)
        ensures
            r == self@.len(),
    {
        self.entries.len()
    }

    /// What a layer keeps, open to change.
    pub fn get_mut(&mut self, layer: usize) -> (r: Option<&mut MambaCacheEntry>)
        ensures
            r is Some <==> layer < old(self)@.len(),
            match r {
                Some(e) => *e == old(self)@[layer as int] && final(self)@ == old(self)@.update(
                    layer as int,
                    *final(e),
                ),
                None => final(self)@ == old(self)@,
            },
    {
        if layer < self.entries.len() {
            Some(&mut self.entries[layer])
        } else {
            None
        }
    }
}

} // verus!
