//! Linear layers with a quantized weight and a full-precision adapter.

use crate::array::{Array, Function, NF4Config, Source, apply, dequantize, matmul, plus, source};
use crate::attention::given;
use crate::config::LoraConfig;
use crate::error::{LoraError, checked, misfit, outcome};
use crate::lora::{
    Adapter, LoraLinear, adapted, area, count_pair, initial_a, initial_b, initial_bias,
    lemma_matrix_count, make_initial_bias, pair_countable, run_adapted,
};
use crate::memory::Memory;
use crate::params::LoraLayer;
use crate::quantization::{
    QuantScheme, QuantizedTensor, blocks, packed_len, quantizable, quantize, quantized, stored_len,
};
use crate::scalar::{Scale, adapter_scale, make_adapter_scale};
use crate::shape::Shape;
use vstd::prelude::*;

verus! {

/// Settings of adapters on quantized weights.
#[derive(Clone, Copy, PartialEq, Eq, Structural, Debug)]
pub struct QLoraConfig {
    pub lora: LoraConfig,
    /// How the weights are stored.
    pub quant_scheme: QuantScheme,
    /// The number of elements that share a scale.
    pub block_size: usize,
    /// Store the scales in fewer bits too.
    pub double_quant: bool,
    /// A wish for restored weights in half precision. The runtime computes in the precision of its
    /// operands.
    pub compute_in_half: bool,
}

impl QLoraConfig {
    pub open spec fn of(lora: LoraConfig) -> QLoraConfig {
        QLoraConfig {
            lora,
            quant_scheme: QuantScheme::NF4,
            block_size: 64,
            double_quant: true,
            compute_in_half: true,
        }
    }

    pub open spec fn nf4(self) -> NF4Config {
        NF4Config { block_size: self.block_size, double_quant: self.double_quant }
    }

    /// The settings with another rank.
    pub open spec fn with_rank(self, r: usize) -> QLoraConfig {
        QLoraConfig { lora: LoraConfig { r, ..self.lora }, ..self }
    }

    /// The default quantization for the given adapters.
    pub fn from_lora(lora: LoraConfig) -> (r: QLoraConfig)
        ensures
            r == QLoraConfig::of(lora),
    {
        QLoraConfig {
            lora,
            quant_scheme: QuantScheme::NF4,
            block_size: 64,
            double_quant: true,
            compute_in_half: true,
        }
    }

    /// Another way to store the weights.
    pub fn with_scheme(self, scheme: QuantScheme) -> (r: QLoraConfig)
        ensures
            r == (QLoraConfig { quant_scheme: scheme, ..self }),
    {
        QLoraConfig { quant_scheme: scheme, ..self }
    }

    pub fn with_block_size(self, block_size: usize) -> (r: QLoraConfig)
        ensures
            r == (QLoraConfig { block_size, ..self }),
    {
        QLoraConfig { block_size, ..self }
    }

    pub fn with_double_quant(self, double_quant: bool) -> (r: QLoraConfig)
        ensures
            r == (QLoraConfig { double_quant, ..self }),
    {
        QLoraConfig { double_quant, ..self }
    }
}

impl Default for QLoraConfig {
    fn default() -> (r: QLoraConfig)
        ensures
            r == QLoraConfig::of(r.lora),
            r.lora.valid(),
            r.lora.r == 16,
    {
        QLoraConfig::from_lora(LoraConfig::default())
    }
}

/// A linear layer with a quantized weight and a trainable adapter.
#[derive(Debug)]
pub struct QLoraLinear {
    pub in_features: i32,
    pub out_features: i32,
    pub rank: i32,
    pub scale: Scale,
    pub use_bias: bool,
    pub quantized_weight: QuantizedTensor,
    /// `[out_features]`, in full precision.
    pub bias: Option<Array>,
    /// `[rank, in_features]`, trainable.
    pub lora_a: Array,
    /// `[out_features, rank]`, trainable.
    pub lora_b: Array,
    /// The restored weight, where it is kept.
    pub weight_cache: Option<Array>,
    /// Whether the restored weight is kept once computed.
    pub cache_enabled: bool,
}

impl QLoraLinear {
    /// A fresh adapter on the quantized form of a matrix.
    pub open spec fn on(weight: Array, bias: Option<Array>, config: QLoraConfig) -> QLoraLinear {
        let d = weight.shape.padded();
        let r = config.lora.r as i32;
        QLoraLinear {
            in_features: d.4,
            out_features: d.3,
            rank: r,
            scale: adapter_scale(config.lora.alpha, r, config.lora.use_rslora),
            use_bias: bias is Some,
            quantized_weight: quantized(weight, config.nf4(), config.quant_scheme),
            bias,
            lora_a: initial_a(r, d.4),
            lora_b: initial_b(d.3, r),
            weight_cache: None,
            cache_enabled: false,
        }
    }

    /// A random matrix.
    pub open spec fn random_weight(in_features: i32, out_features: i32) -> Array {
        source(Source::Uniform { fan_in: in_features }, Shape::D2(out_features, in_features))
    }

    /// A fresh adapter on the quantized form of a random matrix.
    pub open spec fn fresh(
        in_features: i32,
        out_features: i32,
        config: QLoraConfig,
        use_bias: bool,
    ) -> QLoraLinear {
        QLoraLinear::on(
            QLoraLinear::random_weight(in_features, out_features),
            initial_bias(out_features, use_bias),
            config,
        )
    }

    /// A layer of these extents can be made.
    pub open spec fn makeable(in_features: i32, out_features: i32, config: QLoraConfig) -> bool {
        quantizable(QLoraLinear::random_weight(in_features, out_features), config.nf4())
    }

    /// The restored weight, computed anew.
    pub open spec fn restored(self) -> Array {
        self.quantized_weight.restored(self.out_features, self.in_features)
    }

    /// The restored weight: the one that is kept, where keeping is switched on and there is one.
    pub open spec fn weight(self) -> Array {
        match self.weight_cache {
            Some(w) => if self.cache_enabled {
                w
            } else {
                self.restored()
            },
            None => self.restored(),
        }
    }

    /// The layer after its weight was restored: kept, where keeping is switched on.
    pub open spec fn warmed(self) -> QLoraLinear {
        if self.cache_enabled && self.weight_cache is None && self.restored().fits {
            QLoraLinear { weight_cache: Some(self.restored()), ..self }
        } else {
            self
        }
    }

    /// `x @ W.T + scale * (x @ A.T) @ B.T` with the restored weight, and the bias on top.
    pub open spec fn output(self, x: Array) -> Array {
        adapted(x, self.weight(), self.lora_a, self.lora_b, self.scale, self.bias)
    }

    /// Quantizes a weight and puts a fresh adapter on it. Refused for what is no matrix, and for
    /// empty blocks.
    pub fn from_weight(weight: &Array, bias: Option<&Array>, config: &QLoraConfig) -> (r: Result<
        QLoraLinear,
        LoraError,
    >)
        requires
            config.lora.valid(),
        ensures
            match r {
                Ok(l) => quantizable(*weight, config.nf4()) && l == QLoraLinear::on(
                    *weight,
                    given(bias),
                    *config,
                ),
                Err(e) => e is Mlx && !quantizable(*weight, config.nf4()),
            },
    {
        let nf4 = NF4Config { block_size: config.block_size, double_quant: config.double_quant };
        let quantized_weight = match quantize(weight, nf4, config.quant_scheme) {
            Ok(q) => q,
            Err(e) => {
                return Err(e);
            },
        };
        let d = weight.shape.pad();
        let in_features = d.4;
        let out_features = d.3;
        let rank: i32 = config.lora.r as i32;
        let use_bias = bias.is_some();
        let bias = match bias {
            Some(b) => Some(b.clone()),
            None => None,
        };
        Ok(
            QLoraLinear {
                in_features,
                out_features,
                rank,
                scale: make_adapter_scale(config.lora.alpha, rank, config.lora.use_rslora),
                use_bias,
                quantized_weight,
                bias,
                lora_a: Array::from_source(
                    Source::Uniform { fan_in: in_features },
                    Shape::D2(rank, in_features),
                ),
                lora_b: Array::from_source(Source::Zeros, Shape::D2(out_features, rank)),
                weight_cache: None,
                cache_enabled: false,
            },
        )
    }

    /// A fresh adapter on the quantized form of a random matrix.
    pub fn new(in_features: i32, out_features: i32, config: &QLoraConfig, use_bias: bool) -> (r:
        Result<QLoraLinear, LoraError>)
        requires
            config.lora.valid(),
        ensures
            match r {
                Ok(l) => QLoraLinear::makeable(in_features, out_features, *config) && l
                    == QLoraLinear::fresh(in_features, out_features, *config, use_bias),
                Err(e) => e is Mlx && !QLoraLinear::makeable(in_features, out_features, *config),
            },
    {
        let weight = Array::from_source(
            Source::Uniform { fan_in: in_features },
            Shape::D2(out_features, in_features),
        );
        let bias = make_initial_bias(out_features, use_bias);
        match &bias {
            Some(b) => QLoraLinear::from_weight(&weight, Some(b), config),
            None => QLoraLinear::from_weight(&weight, None, config),
        }
    }

    pub(crate) fn run_weight(&mut self) -> (r: Array)
        ensures
            r == old(self).weight(),
            *final(self) == old(self).warmed(),
    {
        if self.cache_enabled {
            match &self.weight_cache {
                Some(w) => {
                    return w.clone();
                },
                None => {},
            }
        }
        let weight = self.quantized_weight.weight.dequantize(
            self.quantized_weight.config,
            self.quantized_weight.scheme,
            self.out_features,
            self.in_features,
        );
        if self.cache_enabled && weight.fits {
            self.weight_cache = Some(weight.clone());
        }
        weight
    }

    /// The restored weight. It is kept where keeping is switched on.
    pub fn dequantize_weight(&mut self) -> (r: Result<Array, LoraError>)
        ensures
            outcome(r, old(self).weight()),
            *final(self) == old(self).warmed(),
    {
        checked(self.run_weight())
    }

    /// From now on, the restored weight is kept.
    pub fn enable_weight_cache(&mut self)
        ensures
            *final(self) == (QLoraLinear { cache_enabled: true, ..*old(self) }),
    {
        self.cache_enabled = true;
    }

    /// From now on, the restored weight is not kept; what is kept goes, if wished.
    pub fn disable_weight_cache(&mut self, clear: bool)
        ensures
            *final(self) == (QLoraLinear {
                cache_enabled: false,
                weight_cache: if clear {
                    None
                } else {
                    old(self).weight_cache
                },
                ..*old(self)
            }),
    {
        self.cache_enabled = false;
        if clear {
            self.clear_weight_cache();
        }
    }

    /// Lets go of the kept weight.
    pub fn clear_weight_cache(&mut self)
        ensures
            *final(self) == (QLoraLinear { weight_cache: None, ..*old(self) }),
    {
        self.weight_cache = None;
    }

    pub fn is_cache_enabled(&self) -> (r: bool)
        ensures
            r == self.cache_enabled,
    {
        self.cache_enabled
    }

    pub fn is_weight_cached(&self) -> (r: bool)
        ensures
            r == self.weight_cache is Some,
    {
        self.weight_cache.is_some()
    }

    /// Restores the weight ahead of its first use, where it is to be kept.
    pub fn warm_cache(&mut self) -> (r: Result<(), LoraError>)
        ensures
            *final(self) == old(self).warmed(),
            match r {
                Ok(_) => !(old(self).cache_enabled && old(self).weight_cache is None) || old(
                    self,
                ).restored().fits,
                Err(e) => e is Mlx && old(self).cache_enabled && old(self).weight_cache is None
                    && !old(self).restored().fits,
            },
    {
        if self.cache_enabled && self.weight_cache.is_none() {
            let w = self.run_weight();
            if !w.fits {
                return Err(misfit());
            }
        }
        Ok(())
    }

    pub(crate) fn run(&mut self, x: &Array) -> (r: Array)
        ensures
            r == old(self).output(*x),
            *final(self) == old(self).warmed(),
    {
        let weight = self.run_weight();
        run_adapted(x, &weight, &self.lora_a, &self.lora_b, self.scale, &self.bias)
    }

    /// The layer's output.
    pub fn forward(&mut self, x: &Array) -> (r: Result<Array, LoraError>)
        ensures
            outcome(r, old(self).output(*x)),
            *final(self) == old(self).warmed(),
    {
        checked(self.run(x))
    }

    pub fn lora_a_params(&self) -> (r: &Array)
        ensures
            *r == self.lora_a,
    {
        &self.lora_a
    }

    pub fn lora_b_params(&self) -> (r: &Array)
        ensures
            *r == self.lora_b,
    {
        &self.lora_b
    }

    pub fn set_lora_a(&mut self, a: Array)
        ensures
            *final(self) == (QLoraLinear { lora_a: a, ..*old(self) }),
    {
        self.lora_a = a;
    }

    pub fn set_lora_b(&mut self, b: Array)
        ensures
            *final(self) == (QLoraLinear { lora_b: b, ..*old(self) }),
    {
        self.lora_b = b;
    }

    /// The number of trainable elements: `rank * in_features + out_features * rank`.
    pub fn num_trainable_params(&self) -> (r: usize)
        requires
            self.countable(),
        ensures
            r == self.trainable(),
    {
        count_pair(self.in_features, self.out_features, self.rank)
    }

    /// The number of frozen elements: those of the weight, and of the bias where there is one.
    pub open spec fn frozen(self) -> nat {
        (self.out_features * self.in_features + if self.use_bias {
            self.out_features as int
        } else {
            0
        }) as nat
    }

    /// The number of frozen elements.
    pub fn num_frozen_params(&self) -> (r: usize)
        requires
            self.out_features >= 0,
            self.in_features >= 0,
            self.frozen() <= usize::MAX,
        ensures
            r == self.frozen(),
    {
        assert(self.out_features * self.in_features >= 0) by (nonlinear_arith)
            requires
                self.out_features >= 0,
                self.in_features >= 0,
        ;
        let bias: usize = if self.use_bias {
            self.out_features as usize
        } else {
            0
        };
        area(self.out_features, self.in_features) + bias
    }

    /// Bytes of the quantized weight, of the adapter, and of both and the bias.
    pub open spec fn memory(self) -> Memory {
        let lora = self.trainable() * 4;
        Memory {
            quantized: self.quantized_weight.bytes(),
            lora,
            total: self.quantized_weight.bytes() + lora + if self.use_bias {
                (self.out_features * 4) as nat
            } else {
                0
            },
        }
    }

    /// The bytes can be counted.
    pub open spec fn measurable(self) -> bool {
        self.countable() && self.memory().total <= usize::MAX
    }

    /// Bytes of the quantized weight, of the adapter, and of both and the bias.
    pub fn memory_usage(&self) -> (r: (usize, usize, usize))
        requires
            self.measurable(),
        ensures
            self.memory().is(r),
    {
        let quantized_bytes = self.quantized_weight.data_len + self.quantized_weight.absmax_len * 4;
        let lora_bytes = self.num_trainable_params() * 4;
        let bias_bytes: usize = if self.use_bias {
            self.out_features as usize * 4
        } else {
            0
        };
        (quantized_bytes, lora_bytes, quantized_bytes + lora_bytes + bias_bytes)
    }

    /// The bytes of the layer, and those that it would have with its weight in full precision.
    /// Their ratio is what quantization saves.
    pub fn memory_savings(&self) -> (r: (usize, usize))
        requires
            self.measurable(),
            self.frozen() * 4 + self.memory().lora <= usize::MAX,
        ensures
            r.0 == self.memory().total,
            r.1 == self.frozen() * 4 + self.memory().lora,
    {
        let (_, lora_bytes, total) = self.memory_usage();
        (total, self.num_frozen_params() * 4 + lora_bytes)
    }

    /// The restored weight with the adapter's product on top.
    pub open spec fn merged_weight(self) -> Array {
        plus(
            self.weight(),
            apply(Function::Scaled(self.scale), matmul(self.lora_b, self.lora_a)),
        )
    }

    /// Merging is not refused.
    pub open spec fn mergeable(self) -> bool {
        quantizable(self.merged_weight(), self.quantized_weight.config)
    }

    /// The layer with the adapter's product in its weight, quantized anew, and with an adapter
    /// that adds nothing more.
    pub open spec fn merge_result(self) -> QLoraLinear {
        QLoraLinear {
            quantized_weight: quantized(
                self.merged_weight(),
                self.quantized_weight.config,
                self.quantized_weight.scheme,
            ),
            lora_b: initial_b(self.out_features, self.rank),
            weight_cache: None,
            ..self
        }
    }

    /// Adds the adapter's product to the restored weight and quantizes the sum. Refused, with
    /// nothing changed, where the sum is no matrix to quantize.
    pub fn merge(&mut self) -> (r: Result<(), LoraError>)
        ensures
            match r {
                Ok(_) => old(self).mergeable() && *final(self) == old(self).merge_result(),
                Err(e) => e is Mlx && !old(self).mergeable() && *final(self) == *old(self),
            },
    {
        let restored = self.quantized_weight.weight.dequantize(
            self.quantized_weight.config,
            self.quantized_weight.scheme,
            self.out_features,
            self.in_features,
        );
        let weight = match &self.weight_cache {
            Some(w) => if self.cache_enabled {
                w.clone()
            } else {
                restored
            },
            None => restored,
        };
        let product = self.lora_b.matmul(&self.lora_a);
        let sum = weight.add(&product.apply(Function::Scaled(self.scale)));
        match quantize(&sum, self.quantized_weight.config, self.quantized_weight.scheme) {
            Ok(q) => {
                self.quantized_weight = q;
                self.lora_b = Array::from_source(
                    Source::Zeros,
                    Shape::D2(self.out_features, self.rank),
                );
                self.weight_cache = None;
                Ok(())
            },
            Err(e) => Err(e),
        }
    }

    /// How the weight is stored.
    pub fn quant_scheme(&self) -> (r: QuantScheme)
        ensures
            r == self.quantized_weight.scheme,
    {
        self.quantized_weight.scheme
    }
}

/// The quantized form of a layer's weight, with a fresh adapter.
pub fn quantize_lora_layer(lora: &LoraLinear, config: &QLoraConfig) -> (r: Result<
    QLoraLinear,
    LoraError,
>)
    requires
        config.lora.valid(),
    ensures
        match r {
            Ok(l) => quantizable(lora.weight, config.nf4()) && l == QLoraLinear::on(
                lora.weight,
                lora.bias,
                *config,
            ),
            Err(e) => e is Mlx && !quantizable(lora.weight, config.nf4()),
        },
{
    match &lora.bias {
        Some(b) => QLoraLinear::from_weight(&lora.weight, Some(b), config),
        None => QLoraLinear::from_weight(&lora.weight, None, config),
    }
}

impl Adapter for QLoraLinear {
    open spec fn a(self) -> Array {
        self.lora_a
    }

    open spec fn b(self) -> Array {
        self.lora_b
    }

    open spec fn with(self, a: Array, b: Array) -> QLoraLinear {
        QLoraLinear { lora_a: a, lora_b: b, ..self }
    }

    open spec fn trainable(self) -> nat {
        (self.rank * self.in_features + self.out_features * self.rank) as nat
    }

    open spec fn countable(self) -> bool {
        pair_countable(self.in_features, self.out_features, self.rank)
    }

    proof fn lemma_with(self, a: Array, b: Array) {
    }

    fn matrix_a(&self) -> (r: &Array) {
        &self.lora_a
    }

    fn matrix_b(&self) -> (r: &Array) {
        &self.lora_b
    }

    fn put(&mut self, a: Array, b: Array) {
        self.lora_a = a;
        self.lora_b = b;
    }

    fn matrices_mut<'a>(&'a mut self) -> (r: (&'a mut Array, &'a mut Array)) {
        (&mut self.lora_a, &mut self.lora_b)
    }

    fn count(&self) -> (r: usize) {
        self.num_trainable_params()
    }
}

/// The scheme of the settings is the one that the weight is stored under and restored from, and
/// merging and keeping the restored weight leave it so.
pub proof fn law_scheme_as_set(weight: Array, bias: Option<Array>, config: QLoraConfig)
    ensures
        ({
            let l = QLoraLinear::on(weight, bias, config);
            &&& l.quantized_weight.scheme == config.quant_scheme
            &&& l.restored() == dequantize(
                apply(Function::ToFloat32, weight),
                config.nf4(),
                config.quant_scheme,
                l.out_features,
                l.in_features,
            )
            &&& l.warmed().quantized_weight.scheme == config.quant_scheme
            &&& l.merge_result().quantized_weight.scheme == config.quant_scheme
        }),
{
}

/// Elements of eight bits take a byte each, elements of four bits half of one; the scales are the
/// same, and so is everything else but the weight that comes back.
pub proof fn law_scheme_sizes(
    weight: Array,
    bias: Option<Array>,
    config: QLoraConfig,
    scheme: QuantScheme,
)
    requires
        quantizable(weight, config.nf4()),
    ensures
        ({
            let l = QLoraLinear::on(weight, bias, QLoraConfig { quant_scheme: scheme, ..config });
            let n = l.out_features * l.in_features;
            let scales = 4 * blocks(n, config.block_size as int);
            &&& scheme is Int8 ==> l.memory().quantized == n + scales
            &&& !(scheme is Int8) ==> l.memory().quantized == packed_len(n) + scales
            &&& l == QLoraLinear {
                quantized_weight: l.quantized_weight,
                ..QLoraLinear::on(weight, bias, config)
            }
        }),
{
    let n = weight.shape.count();
    let k = config.block_size as int;
    match weight.shape {
        Shape::D2(o, i) => {
            lemma_matrix_count(o, i);
        },
        _ => {},
    }
    assert(0 <= n / k && n / k + (if n % k == 0 {
        0int
    } else {
        1int
    }) <= n) by (nonlinear_arith)
        requires
            k >= 1,
            n >= 0,
    ;
}

/// Keeping the restored weight changes no result: once it was restored, the next output is the
/// same.
pub proof fn law_cache_transparent(l: QLoraLinear, x: Array)
    ensures
        l.warmed().output(x) == l.output(x),
        l.warmed().warmed() == l.warmed(),
        l.warmed().memory() == l.memory(),
{
}

/// A fresh layer keeps nothing; switched on, it keeps its weight from the first use on; cleared,
/// it restores the weight again.
pub proof fn law_cache_cycle(weight: Array, bias: Option<Array>, config: QLoraConfig)
    requires
        quantizable(weight, config.nf4()),
    ensures
        ({
            let fresh = QLoraLinear::on(weight, bias, config);
            let on = QLoraLinear { cache_enabled: true, ..fresh };
            &&& !fresh.cache_enabled && fresh.weight_cache is None
            &&& fresh.warmed() == fresh
            &&& on.warmed().weight_cache == Some(fresh.restored())
            &&& QLoraLinear { weight_cache: None, ..on.warmed() } == on
        }),
{
    reveal(dequantize);
    reveal(apply);
}

/// The bytes in total are those of the weight, of the adapter and of the bias.
pub proof fn law_memory_total(l: QLoraLinear)
    requires
        l.out_features >= 0,
    ensures
        l.memory().total == l.memory().quantized + l.memory().lora + (if l.use_bias {
            l.out_features * 4
        } else {
            0int
        }),
        l.memory().lora == 4 * l.trainable(),
{
}

/// Quantization saves memory wherever blocks hold at least four elements and at least one block
/// is full: under every scheme, the elements and the scales take less than single precision.
pub proof fn law_quantization_saves(weight: Array, bias: Option<Array>, config: QLoraConfig)
    requires
        quantizable(weight, config.nf4()),
        config.block_size >= 4,
        weight.shape.count() >= config.block_size,
    ensures
        ({
            let l = QLoraLinear::on(weight, bias, config);
            l.memory().quantized < 4 * l.frozen()
        }),
{
    let n = weight.shape.count();
    let k = config.block_size as int;
    match weight.shape {
        Shape::D2(o, i) => {
            lemma_matrix_count(o, i);
        },
        _ => {},
    }
    assert(0 <= n / k && n / k * 4 <= n) by (nonlinear_arith)
        requires
            k >= 4,
            n >= 0,
    ;
    assert(stored_len(n, config.quant_scheme) <= n && blocks(n, k) <= n / k + 1);
    assert(n / k >= 1) by (nonlinear_arith)
        requires
            n >= k,
            k >= 4,
    ;
}

} // verus!
