//! How many bytes layers take.

use vstd::prelude::*;

verus! {

/// Bytes of quantized weights, of adapters, and of all that is counted.
pub struct Memory {
    pub quantized: nat,
    pub lora: nat,
    pub total: nat,
}

impl Memory {
    pub open spec fn zero() -> Memory {
        Memory { quantized: 0, lora: 0, total: 0 }
    }

    pub open spec fn plus(self, other: Memory) -> Memory {
        Memory {
            quantized: self.quantized + other.quantized,
            lora: self.lora + other.lora,
            total: self.total + other.total,
        }
    }

    /// Each number fits a machine word.
    pub open spec fn fits(self) -> bool {
        self.quantized <= usize::MAX && self.lora <= usize::MAX && self.total <= usize::MAX
    }

    pub open spec fn is(self, r: (usize, usize, usize)) -> bool {
        self.quantized == r.0 && self.lora == r.1 && self.total == r.2
    }
}

/// A layer whose bytes are counted.
pub trait MeasuredLayer: Sized {
    /// Bytes of its quantized weights, of its adapters, and of both and the biases.
    spec fn memory(self) -> Memory;

    /// Bytes that its frozen elements would take in single precision.
    spec fn full_bytes(self) -> nat;

    /// The bytes can be counted.
    spec fn measurable(self) -> bool;

    fn measure(&self) -> (r: (usize, usize, usize))
        requires
            self.measurable(),
            self.memory().fits(),
        ensures
            self.memory().is(r),
    ;

    fn count_full_bytes(&self) -> (r: usize)
        requires
            self.measurable(),
            self.full_bytes() <= usize::MAX,
        ensures
            r == self.full_bytes(),
    ;
}

/// The bytes of the first `n` layers.
pub open spec fn memory_upto<T: MeasuredLayer>(layers: Seq<T>, n: nat) -> Memory
    decreases n,
{
    if n == 0 {
        Memory::zero()
    } else {
        memory_upto(layers, (n - 1) as nat).plus(layers[n - 1].memory())
    }
}

/// The bytes that the frozen elements of the first `n` layers would take in single precision.
pub open spec fn full_bytes_upto<T: MeasuredLayer>(layers: Seq<T>, n: nat) -> nat
    decreases n,
{
    if n == 0 {
        0
    } else {
        full_bytes_upto(layers, (n - 1) as nat) + layers[n - 1].full_bytes()
    }
}

/// The bytes of a stack of layers.
pub open spec fn stack_memory<T: MeasuredLayer>(layers: Seq<T>) -> Memory {
    memory_upto(layers, layers.len())
}

/// The bytes of a stack of layers can be counted.
pub open spec fn stack_measurable<T: MeasuredLayer>(layers: Seq<T>) -> bool {
    &&& forall|i: int| 0 <= i < layers.len() ==> (#[trigger] layers[i]).measurable()
    &&& stack_memory(layers).fits()
}

/// The bytes of a stack of layers in single precision can be counted, the adapters' among them.
pub open spec fn stack_comparable<T: MeasuredLayer>(layers: Seq<T>) -> bool {
    full_bytes_upto(layers, layers.len()) + stack_memory(layers).lora <= usize::MAX
}

proof fn lemma_memory_monotonic<T: MeasuredLayer>(layers: Seq<T>, m: nat, n: nat)
    requires
        m <= n,
    ensures
        memory_upto(layers, m).quantized <= memory_upto(layers, n).quantized,
        memory_upto(layers, m).lora <= memory_upto(layers, n).lora,
        memory_upto(layers, m).total <= memory_upto(layers, n).total,
        full_bytes_upto(layers, m) <= full_bytes_upto(layers, n),
    decreases n,
{
    if m < n {
        lemma_memory_monotonic(layers, m, (n - 1) as nat);
    }
}

pub(crate) fn measure_layers<T: MeasuredLayer>(layers: &Vec<T>) -> (r: (usize, usize, usize))
    requires
        stack_measurable(layers@),
    ensures
        stack_memory(layers@).is(r),
{
    let mut quantized: usize = 0;
    let mut lora: usize = 0;
    let mut total: usize = 0;
    let mut i: usize = 0;
    while i < layers.len()
        invariant
            i <= layers@.len(),
            stack_measurable(layers@),
            memory_upto(layers@, i as nat).is((quantized, lora, total)),
        decreases layers.len() - i,
    {
        proof {
            lemma_memory_monotonic(layers@, (i + 1) as nat, layers@.len());
        }
        let (q, l, t) = layers[i].measure();
        quantized = quantized + q;
        lora = lora + l;
        total = total + t;
        i = i + 1;
    }
    (quantized, lora, total)
}

/// The bytes of frozen elements in single precision.
pub(crate) fn count_full<T: MeasuredLayer>(layers: &Vec<T>) -> (r: usize)
    requires
        stack_measurable(layers@),
        full_bytes_upto(layers@, layers@.len()) <= usize::MAX,
    ensures
        r == full_bytes_upto(layers@, layers@.len()),
{
    let mut full: usize = 0;
    let mut i: usize = 0;
    while i < layers.len()
        invariant
            i <= layers@.len(),
            stack_measurable(layers@),
            full_bytes_upto(layers@, layers@.len()) <= usize::MAX,
            full == full_bytes_upto(layers@, i as nat),
        decreases layers.len() - i,
    {
        proof {
            lemma_memory_monotonic(layers@, (i + 1) as nat, layers@.len());
        }
        full = full + layers[i].count_full_bytes();
        i = i + 1;
    }
    full
}

/// The bytes of the layers, and those that they would have with their weights in single precision.
pub(crate) fn compare_layers<T: MeasuredLayer>(layers: &Vec<T>) -> (r: (usize, usize))
    requires
        stack_measurable(layers@),
        stack_comparable(layers@),
    ensures
        r.0 == stack_memory(layers@).total,
        r.1 == full_bytes_upto(layers@, layers@.len()) + stack_memory(layers@).lora,
{
    let (_, lora, total) = measure_layers(layers);
    (total, count_full(layers) + lora)
}

} // verus!
