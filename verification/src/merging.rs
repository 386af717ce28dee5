//! Merging adapters into the weights of a stack of layers.

use crate::error::{LoraError, misfit};
use vstd::prelude::*;

verus! {

/// What merging does to a layer.
pub trait MergeSteps: Sized {
    /// The number of adapters.
    spec fn merge_steps(self) -> nat;

    /// Adapter `k` can be merged.
    spec fn can_merge(self, k: int) -> bool;

    /// The layer with its first `k` adapters merged.
    spec fn merged_first(self, k: int) -> Self;
}

/// A layer whose adapters are merged one after the other.
pub trait MergeLayer: MergeSteps {
    /// Merges the adapters in turn, up to the first that cannot be.
    fn merge_all(&mut self) -> (r: Result<(), LoraError>)
        ensures
            match r {
                Ok(_) => all_mergeable(*old(self)) && *final(self) == merged(*old(self)),
                Err(e) => e is Mlx && exists|k: int|
                    #[trigger] stops_at(*old(self), k) && *final(self) == old(self).merged_first(k),
            },
    ;
}

/// All adapters of the layer can be merged.
pub open spec fn all_mergeable<T: MergeSteps>(layer: T) -> bool {
    forall|k: int| 0 <= k < layer.merge_steps() ==> #[trigger] layer.can_merge(k)
}

/// The layer with all its adapters merged.
pub open spec fn merged<T: MergeSteps>(layer: T) -> T {
    layer.merged_first(layer.merge_steps() as int)
}

/// Adapter `k` is the first of the layer that cannot be merged.
pub open spec fn stops_at<T: MergeSteps>(layer: T, k: int) -> bool {
    &&& 0 <= k < layer.merge_steps()
    &&& !layer.can_merge(k)
    &&& forall|j: int| 0 <= j < k ==> #[trigger] layer.can_merge(j)
}

/// All adapters of the layer could be merged, and are.
pub open spec fn is_merged<T: MergeSteps>(before: T, after: T) -> bool {
    all_mergeable(before) && after == merged(before)
}

/// All adapters of all layers could be merged, and are.
pub open spec fn stack_merged<T: MergeSteps>(before: Seq<T>, after: Seq<T>) -> bool {
    &&& after.len() == before.len()
    &&& forall|i: int| 0 <= i < before.len() ==> #[trigger] is_merged(before[i], after[i])
}

/// Merging stopped at adapter `k` of layer `i`: the layers before are merged, those behind are
/// as they were.
pub open spec fn merge_stopped<T: MergeSteps>(
    before: Seq<T>,
    after: Seq<T>,
    i: int,
    k: int,
) -> bool {
    &&& 0 <= i < before.len()
    &&& after.len() == before.len()
    &&& stops_at(before[i], k)
    &&& after[i] == before[i].merged_first(k)
    &&& forall|j: int| 0 <= j < i ==> #[trigger] is_merged(before[j], after[j])
    &&& forall|j: int| i < j < before.len() ==> #[trigger] after[j] == before[j]
}

/// Merging stopped at the first adapter that could not be merged.
pub open spec fn stack_merge_stopped<T: MergeSteps>(before: Seq<T>, after: Seq<T>) -> bool {
    exists|i: int, k: int| merge_stopped(before, after, i, k)
}

pub(crate) fn merge_layers<T: MergeLayer>(layers: &mut Vec<T>) -> (r: Result<(), LoraError>)
    ensures
        match r {
            Ok(_) => stack_merged(old(layers)@, final(layers)@),
            Err(e) => e is Mlx && stack_merge_stopped(old(layers)@, final(layers)@),
        },
{
    let ghost before = layers@;
    let mut i: usize = 0;
    while i < layers.len()
        invariant
            i <= layers.len(),
            layers@.len() == before.len(),
            before == old(layers)@,
            forall|j: int| 0 <= j < i ==> #[trigger] is_merged(before[j], layers@[j]),
            forall|j: int| i <= j < before.len() ==> #[trigger] layers@[j] == before[j],
        decreases layers.len() - i,
    {
        let ghost now = layers@;
        let r = layers[i].merge_all();
        assert(forall|j: int| 0 <= j < now.len() && j != i ==> #[trigger] layers@[j] == now[j]);
        assert(forall|j: int| 0 <= j < i ==> #[trigger] is_merged(before[j], now[j]));
        if r.is_err() {
            proof {
                let k = choose|k: int|
                    #[trigger] stops_at(before[i as int], k) && layers@[i as int]
                        == before[i as int].merged_first(k);
                assert(merge_stopped(before, layers@, i as int, k));
            }
            return Err(misfit());
        }
        assert(is_merged(before[i as int], layers@[i as int]));
        i = i + 1;
    }
    Ok(())
}

} // verus!
