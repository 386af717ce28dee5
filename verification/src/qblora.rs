//! Linear layers with a quantized weight and an adapter of higher rank between narrow
//! projections.
//!
//! `y = x @ W.T + scale * ((x @ P_in) @ A.T) @ B.T @ P_out`

use crate::array::{
    Arithmetic, Array, Function, NF4Config, Source, apply, combine, dequantize, matmul, plus,
    source, sum_axis,
};
use crate::attention::given;
use crate::config::LoraConfig;
use crate::error::{LoraError, checked, outcome};
use crate::lora::{
    Adapter, biased, dense, initial_a, initial_b, initial_bias, make_initial_bias, run_biased,
    run_dense,
};
use crate::memory::Memory;
use crate::params::LoraLayer;
use crate::quantization::{QuantScheme, QuantizedTensor, quantizable, quantize, quantized};
use crate::scalar::{F32, ONE_BITS, Scale, TWO_BITS, adapter_scale, make_adapter_scale};
use crate::shape::Shape;
use vstd::prelude::*;

verus! {

/// Settings of balanced adapters on quantized weights.
#[derive(Clone, Copy, PartialEq, Eq, Structural, Debug)]
pub struct QBLoraConfig {
    pub lora: LoraConfig,
    /// How the weights are stored.
    pub quant_scheme: QuantScheme,
    /// The number of elements that share a scale.
    pub block_size: usize,
    /// Store the scales in fewer bits too.
    pub double_quant: bool,
    /// The width to which the adapter's input is projected; none where not given.
    pub input_proj_dim: Option<usize>,
    /// The width from which the adapter's output is projected; none where not given.
    pub output_proj_dim: Option<usize>,
    pub rank_multiplier: F32,
    /// The rank times the multiplier, rounded: given by whoever sets either.
    pub multiplied_rank: usize,
    /// Train the projections too.
    pub learnable_projections: bool,
    /// The factor on the adapter's gradients.
    pub gradient_scale: F32,
}

/// A width fits the arrays' extents.
pub open spec fn width_valid(width: Option<usize>) -> bool {
    width matches Some(w) ==> w <= i32::MAX
}

impl QBLoraConfig {
    /// Twice the rank, no projection.
    pub open spec fn of(lora: LoraConfig) -> QBLoraConfig {
        QBLoraConfig {
            lora,
            quant_scheme: QuantScheme::NF4,
            block_size: 64,
            double_quant: true,
            input_proj_dim: None,
            output_proj_dim: None,
            rank_multiplier: F32 { bits: TWO_BITS },
            multiplied_rank: (2 * lora.r) as usize,
            learnable_projections: true,
            gradient_scale: F32 { bits: ONE_BITS },
        }
    }

    pub open spec fn nf4(self) -> NF4Config {
        NF4Config { block_size: self.block_size, double_quant: self.double_quant }
    }

    /// Ranks and widths fit the arrays' extents.
    pub open spec fn valid(self) -> bool {
        &&& self.multiplied_rank <= i32::MAX
        &&& width_valid(self.input_proj_dim)
        &&& width_valid(self.output_proj_dim)
    }

    /// Twice the rank, no projection.
    pub fn from_lora(lora: LoraConfig) -> (r: QBLoraConfig)
        requires
            2 * lora.r <= usize::MAX,
        ensures
            r == QBLoraConfig::of(lora),
    {
        QBLoraConfig {
            lora,
            quant_scheme: QuantScheme::NF4,
            block_size: 64,
            double_quant: true,
            input_proj_dim: None,
            output_proj_dim: None,
            rank_multiplier: F32 { bits: TWO_BITS },
            multiplied_rank: 2 * lora.r,
            learnable_projections: true,
            gradient_scale: F32 { bits: ONE_BITS },
        }
    }

    pub fn with_input_proj(self, dim: usize) -> (r: QBLoraConfig)
        ensures
            r == (QBLoraConfig { input_proj_dim: Some(dim), ..self }),
    {
        QBLoraConfig { input_proj_dim: Some(dim), ..self }
    }

    pub fn with_output_proj(self, dim: usize) -> (r: QBLoraConfig)
        ensures
            r == (QBLoraConfig { output_proj_dim: Some(dim), ..self }),
    {
        QBLoraConfig { output_proj_dim: Some(dim), ..self }
    }

    /// Another multiplier, and the rank that it gives.
    pub fn with_rank_multiplier(self, multiplier: F32, multiplied_rank: usize) -> (r: QBLoraConfig)
        ensures
            r == (QBLoraConfig { rank_multiplier: multiplier, multiplied_rank, ..self }),
    {
        QBLoraConfig { rank_multiplier: multiplier, multiplied_rank, ..self }
    }

    pub fn with_fixed_projections(self) -> (r: QBLoraConfig)
        ensures
            r == (QBLoraConfig { learnable_projections: false, ..self }),
    {
        QBLoraConfig { learnable_projections: false, ..self }
    }

    pub fn with_gradient_scale(self, scale: F32) -> (r: QBLoraConfig)
        ensures
            r == (QBLoraConfig { gradient_scale: scale, ..self }),
    {
        QBLoraConfig { gradient_scale: scale, ..self }
    }

    /// The rank times the multiplier, rounded.
    pub fn effective_rank(&self) -> (r: usize)
        ensures
            r == self.multiplied_rank,
    {
        self.multiplied_rank
    }
}

impl Default for QBLoraConfig {
    fn default() -> (r: QBLoraConfig)
        ensures
            r == QBLoraConfig::of(r.lora),
            r.lora.r == 16,
            r.valid(),
    {
        QBLoraConfig::from_lora(LoraConfig::default())
    }
}

/// A linear layer with a quantized weight and a balanced adapter.
#[derive(Debug)]
pub struct QBLoraLinear {
    pub in_features: i32,
    pub out_features: i32,
    pub rank: i32,
    pub scale: Scale,
    pub use_bias: bool,
    pub quantized_weight: QuantizedTensor,
    pub bias: Option<Array>,
    /// `[rank, input width]`.
    pub lora_a: Array,
    /// `[output width, rank]`.
    pub lora_b: Array,
    /// `[in_features, input width]`.
    pub input_proj: Option<Array>,
    /// `[output width, out_features]`.
    pub output_proj: Option<Array>,
    pub learnable_projections: bool,
    /// The factor on the adapter's gradients.
    pub gradient_scale: F32,
    /// The restored weight, where it is kept.
    pub weight_cache: Option<Array>,
    /// Whether the restored weight is kept once computed.
    pub cache_enabled: bool,
}

/// A projection to train: small random numbers.
pub open spec fn learnable_projection(rows: i32, columns: i32, fan_in: i32) -> Array {
    source(Source::Uniform { fan_in }, Shape::D2(rows, columns))
}

/// A fixed projection: normal random numbers over their norm along one axis.
pub open spec fn fixed_projection(rows: i32, columns: i32, depth: u8) -> Array {
    let x = source(Source::Normal, Shape::D2(rows, columns));
    combine(
        Arithmetic::Divide,
        x,
        apply(Function::Sqrt, sum_axis(apply(Function::Square, x), depth)),
    )
}

fn make_learnable_projection(rows: i32, columns: i32, fan_in: i32) -> (r: Array)
    ensures
        r == learnable_projection(rows, columns, fan_in),
{
    Array::from_source(Source::Uniform { fan_in }, Shape::D2(rows, columns))
}

fn make_fixed_projection(rows: i32, columns: i32, depth: u8) -> (r: Array)
    ensures
        r == fixed_projection(rows, columns, depth),
{
    let x = Array::from_source(Source::Normal, Shape::D2(rows, columns));
    let norm = x.apply(Function::Square).sum_axis(depth).apply(Function::Sqrt);
    x.combine(Arithmetic::Divide, &norm)
}

/// The product, where there is a projection.
pub open spec fn projected(x: Array, p: Option<Array>) -> Array {
    match p {
        Some(p) => matmul(x, p),
        None => x,
    }
}

fn run_projected(x: &Array, p: &Option<Array>) -> (r: Array)
    ensures
        r == projected(*x, *p),
{
    match p {
        Some(p) => x.matmul(p),
        None => x.clone(),
    }
}

/// The number of elements of an array that is there.
pub open spec fn elements(x: Option<Array>) -> int {
    match x {
        Some(x) => x.shape.count(),
        None => 0,
    }
}

/// The elements of an array that is there can be counted.
pub open spec fn elements_countable(x: Option<Array>) -> bool {
    x matches Some(x) ==> x.shape.countable() && x.shape.count() <= usize::MAX
}

fn count_elements(x: &Array) -> (r: usize)
    requires
        x.shape.countable(),
        x.shape.count() <= usize::MAX,
    ensures
        r == x.shape.count(),
{
    match x.shape.num_elements() {
        Some(n) => n as usize,
        None => 0,
    }
}

impl QBLoraLinear {
    /// The projection of the adapter's input of a fresh layer.
    pub open spec fn fresh_input_proj(n: i32, config: QBLoraConfig) -> Option<Array> {
        match config.input_proj_dim {
            Some(w) => Some(
                if config.learnable_projections {
                    learnable_projection(n, w as i32, n)
                } else {
                    fixed_projection(n, w as i32, 1)
                },
            ),
            None => None,
        }
    }

    /// The projection of the adapter's output of a fresh layer.
    pub open spec fn fresh_output_proj(n: i32, config: QBLoraConfig) -> Option<Array> {
        match config.output_proj_dim {
            Some(w) => Some(
                if config.learnable_projections {
                    learnable_projection(w as i32, n, w as i32)
                } else {
                    fixed_projection(w as i32, n, 0)
                },
            ),
            None => None,
        }
    }

    /// The given width, or that of the layer.
    pub open spec fn width(given: Option<usize>, n: i32) -> i32 {
        match given {
            Some(w) => w as i32,
            None => n,
        }
    }

    /// A fresh adapter on the quantized form of a matrix.
    pub open spec fn on(weight: Array, bias: Option<Array>, config: QBLoraConfig) -> QBLoraLinear {
        let d = weight.shape.padded();
        let r = config.multiplied_rank as i32;
        QBLoraLinear {
            in_features: d.4,
            out_features: d.3,
            rank: r,
            scale: adapter_scale(config.lora.alpha, r, config.lora.use_rslora),
            use_bias: bias is Some,
            quantized_weight: quantized(weight, config.nf4(), config.quant_scheme),
            bias,
            lora_a: initial_a(r, QBLoraLinear::width(config.input_proj_dim, d.4)),
            lora_b: initial_b(QBLoraLinear::width(config.output_proj_dim, d.3), r),
            input_proj: QBLoraLinear::fresh_input_proj(d.4, config),
            output_proj: QBLoraLinear::fresh_output_proj(d.3, config),
            learnable_projections: config.learnable_projections,
            gradient_scale: config.gradient_scale,
            weight_cache: None,
            cache_enabled: false,
        }
    }

    /// A random matrix.
    pub open spec fn random_weight(in_features: i32, out_features: i32) -> Array {
        source(Source::Uniform { fan_in: in_features }, Shape::D2(out_features, in_features))
    }

    /// The restored weight, computed anew.
    pub open spec fn restored(self) -> Array {
        self.quantized_weight.restored(self.out_features, self.in_features)
    }

    /// The restored weight: the one that is kept, where keeping is switched on and there is one.
    pub open spec fn weight(self) -> Array {
        match self.weight_cache {
            Some(w) => if self.cache_enabled {
                w
            } else {
                self.restored()
            },
            None => self.restored(),
        }
    }

    /// The layer after its weight was restored: kept, where keeping is switched on.
    pub open spec fn warmed(self) -> QBLoraLinear {
        if self.cache_enabled && self.weight_cache is None && self.restored().fits {
            QBLoraLinear { weight_cache: Some(self.restored()), ..self }
        } else {
            self
        }
    }

    /// `x @ W.T + scale * ((x @ P_in) @ A.T) @ B.T @ P_out` with the restored weight, and the
    /// bias on top.
    pub open spec fn output(self, x: Array) -> Array {
        let narrow = projected(x, self.input_proj);
        let wide = projected(
            dense(dense(narrow, self.lora_a), self.lora_b),
            self.output_proj,
        );
        biased(
            plus(
                dense(x, self.weight()),
                apply(Function::Scaled(self.scale), wide),
            ),
            self.bias,
        )
    }

    /// Quantizes a weight and puts a fresh adapter on it. Refused for what is no matrix, and for
    /// empty blocks.
    pub fn from_weight(weight: &Array, bias: Option<&Array>, config: &QBLoraConfig) -> (r: Result<
        QBLoraLinear,
        LoraError,
    >)
        requires
            config.valid(),
        ensures
            match r {
                Ok(l) => quantizable(*weight, config.nf4()) && l == QBLoraLinear::on(
                    *weight,
                    given(bias),
                    *config,
                ),
                Err(e) => e is Mlx && !quantizable(*weight, config.nf4()),
            },
    {
        let nf4 = NF4Config { block_size: config.block_size, double_quant: config.double_quant };
        let quantized_weight = match quantize(weight, nf4, config.quant_scheme) {
            Ok(q) => q,
            Err(e) => {
                return Err(e);
            },
        };
        let d = weight.shape.pad();
        let in_features = d.4;
        let out_features = d.3;
        let rank: i32 = config.effective_rank() as i32;
        let scale = make_adapter_scale(config.lora.alpha, rank, config.lora.use_rslora);
        let (input_proj, a_width) = match config.input_proj_dim {
            Some(w) => {
                let w: i32 = w as i32;
                let p = if config.learnable_projections {
                    make_learnable_projection(in_features, w, in_features)
                } else {
                    make_fixed_projection(in_features, w, 1)
                };
                (Some(p), w)
            },
            None => (None, in_features),
        };
        let (output_proj, b_width) = match config.output_proj_dim {
            Some(w) => {
                let w: i32 = w as i32;
                let p = if config.learnable_projections {
                    make_learnable_projection(w, out_features, w)
                } else {
                    make_fixed_projection(w, out_features, 0)
                };
                (Some(p), w)
            },
            None => (None, out_features),
        };
        let lora_a = Array::from_source(
            Source::Uniform { fan_in: a_width },
            Shape::D2(rank, a_width),
        );
        let lora_b = Array::from_source(Source::Zeros, Shape::D2(b_width, rank));
        let use_bias = bias.is_some();
        let bias = match bias {
            Some(b) => Some(b.clone()),
            None => None,
        };
        Ok(
            QBLoraLinear {
                in_features,
                out_features,
                rank,
                scale,
                use_bias,
                quantized_weight,
                bias,
                lora_a,
                lora_b,
                input_proj,
                output_proj,
                learnable_projections: config.learnable_projections,
                gradient_scale: config.gradient_scale,
                weight_cache: None,
                cache_enabled: false,
            },
        )
    }

    /// A fresh adapter on the quantized form of a random matrix.
    pub fn new(in_features: i32, out_features: i32, config: &QBLoraConfig, use_bias: bool) -> (r:
        Result<QBLoraLinear, LoraError>)
        requires
            config.valid(),
        ensures
            match r {
                Ok(l) => quantizable(
                    QBLoraLinear::random_weight(in_features, out_features),
                    config.nf4(),
                ) && l == QBLoraLinear::on(
                    QBLoraLinear::random_weight(in_features, out_features),
                    initial_bias(out_features, use_bias),
                    *config,
                ),
                Err(e) => e is Mlx && !quantizable(
                    QBLoraLinear::random_weight(in_features, out_features),
                    config.nf4(),
                ),
            },
    {
        let weight = Array::from_source(
            Source::Uniform { fan_in: in_features },
            Shape::D2(out_features, in_features),
        );
        let bias = make_initial_bias(out_features, use_bias);
        match &bias {
            Some(b) => QBLoraLinear::from_weight(&weight, Some(b), config),
            None => QBLoraLinear::from_weight(&weight, None, config),
        }
    }

    /// The restored weight. It is kept where keeping is switched on.
    fn dequantize_weight(&mut self) -> (r: Array)
        ensures
            r == old(self).weight(),
            *final(self) == old(self).warmed(),
    {
        if self.cache_enabled {
            match &self.weight_cache {
                Some(w) => {
                    return w.clone();
                },
                None => {},
            }
        }
        let weight = self.quantized_weight.weight.dequantize(
            self.quantized_weight.config,
            self.quantized_weight.scheme,
            self.out_features,
            self.in_features,
        );
        if self.cache_enabled && weight.fits {
            self.weight_cache = Some(weight.clone());
        }
        weight
    }

    /// From now on, the restored weight is kept.
    pub fn enable_weight_cache(&mut self)
        ensures
            *final(self) == (QBLoraLinear { cache_enabled: true, ..*old(self) }),
    {
        self.cache_enabled = true;
    }

    /// From now on, the restored weight is not kept; what is kept goes, if wished.
    pub fn disable_weight_cache(&mut self, clear: bool)
        ensures
            *final(self) == (QBLoraLinear {
                cache_enabled: false,
                weight_cache: if clear {
                    None
                } else {
                    old(self).weight_cache
                },
                ..*old(self)
            }),
    {
        self.cache_enabled = false;
        if clear {
            self.weight_cache = None;
        }
    }

    /// The layer's output.
    pub fn forward(&mut self, x: &Array) -> (r: Result<Array, LoraError>)
        ensures
            outcome(r, old(self).output(*x)),
            *final(self) == old(self).warmed(),
    {
        let weight = self.dequantize_weight();
        let base = run_dense(x, &weight);
        let narrow = run_projected(x, &self.input_proj);
        let xa = run_dense(&narrow, &self.lora_a);
        let xab = run_dense(&xa, &self.lora_b);
        let wide = run_projected(&xab, &self.output_proj);
        let y = base.add(&wide.apply(Function::Scaled(self.scale)));
        checked(run_biased(y, &self.bias))
    }

    /// The two matrices of the adapter, and the projections where they are trained.
    pub fn trainable_params<'a>(&'a self) -> (r: (
        &'a Array,
        &'a Array,
        Option<&'a Array>,
        Option<&'a Array>,
    ))
        ensures
            *r.0 == self.lora_a,
            *r.1 == self.lora_b,
            given(r.2) == (if self.learnable_projections {
                self.input_proj
            } else {
                None
            }),
            given(r.3) == (if self.learnable_projections {
                self.output_proj
            } else {
                None
            }),
    {
        if self.learnable_projections {
            (&self.lora_a, &self.lora_b, self.input_proj.as_ref(), self.output_proj.as_ref())
        } else {
            (&self.lora_a, &self.lora_b, None, None)
        }
    }

    /// The elements of the two matrices, and of the projections where they are trained.
    pub open spec fn trainable(self) -> nat {
        (self.lora_a.shape.count() + self.lora_b.shape.count() + if self.learnable_projections {
            elements(self.input_proj) + elements(self.output_proj)
        } else {
            0
        }) as nat
    }

    /// The trainable elements can be counted.
    pub open spec fn countable(self) -> bool {
        &&& self.lora_a.shape.countable()
        &&& self.lora_b.shape.countable()
        &&& elements_countable(self.input_proj)
        &&& elements_countable(self.output_proj)
        &&& self.trainable() <= usize::MAX
    }

    /// The number of trainable elements.
    pub fn num_trainable_params(&self) -> (r: usize)
        requires
            self.countable(),
        ensures
            r == self.trainable(),
    {
        proof {
            lemma_count_nonnegative(self.lora_a.shape);
            lemma_count_nonnegative(self.lora_b.shape);
            if self.input_proj is Some {
                lemma_count_nonnegative(self.input_proj->0.shape);
            }
            if self.output_proj is Some {
                lemma_count_nonnegative(self.output_proj->0.shape);
            }
        }
        let lora = count_elements(&self.lora_a) + count_elements(&self.lora_b);
        let proj: usize = if self.learnable_projections {
            let inp: usize = match &self.input_proj {
                Some(p) => count_elements(p),
                None => 0,
            };
            let out: usize = match &self.output_proj {
                Some(p) => count_elements(p),
                None => 0,
            };
            inp + out
        } else {
            0
        };
        lora + proj
    }

    /// Bytes of the quantized weight, of the adapter, and of both and the bias.
    pub open spec fn memory(self) -> Memory {
        let lora = self.trainable() * 4;
        Memory {
            quantized: self.quantized_weight.bytes(),
            lora,
            total: self.quantized_weight.bytes() + lora + if self.use_bias {
                (self.out_features * 4) as nat
            } else {
                0
            },
        }
    }

    /// Bytes of the quantized weight, of the adapter, and of both and the bias.
    pub fn memory_usage(&self) -> (r: (usize, usize, usize))
        requires
            self.countable(),
            self.out_features >= 0,
            self.memory().total <= usize::MAX,
        ensures
            self.memory().is(r),
    {
        let quantized_bytes = self.quantized_weight.data_len + self.quantized_weight.absmax_len * 4;
        let lora_bytes = self.num_trainable_params() * 4;
        let bias_bytes: usize = if self.use_bias {
            self.out_features as usize * 4
        } else {
            0
        };
        (quantized_bytes, lora_bytes, quantized_bytes + lora_bytes + bias_bytes)
    }

    pub fn has_input_proj(&self) -> (r: bool)
        ensures
            r == self.input_proj is Some,
    {
        self.input_proj.is_some()
    }

    pub fn has_output_proj(&self) -> (r: bool)
        ensures
            r == self.output_proj is Some,
    {
        self.output_proj.is_some()
    }
}

/// Extents that are not negative have a product that is not.
pub proof fn lemma_count_nonnegative(s: Shape)
    requires
        s.nonnegative(),
    ensures
        s.count() >= 0,
{
    let d = s.padded();
    let a = d.0 * d.1;
    let b = a * d.2;
    let c = b * d.3;
    assert(a >= 0) by (nonlinear_arith)
        requires
            a == d.0 * d.1,
            d.0 >= 0,
            d.1 >= 0,
    ;
    assert(b >= 0) by (nonlinear_arith)
        requires
            b == a * d.2,
            a >= 0,
            d.2 >= 0,
    ;
    assert(c >= 0) by (nonlinear_arith)
        requires
            c == b * d.3,
            b >= 0,
            d.3 >= 0,
    ;
    assert(c * d.4 >= 0) by (nonlinear_arith)
        requires
            c >= 0,
            d.4 >= 0,
    ;
}

/// Without projections, the layer adds what an adapter on a quantized weight adds.
pub proof fn law_plain_without_projections(l: QBLoraLinear, x: Array)
    requires
        l.input_proj is None,
        l.output_proj is None,
    ensures
        l.output(x) == biased(
            plus(
                dense(x, l.weight()),
                apply(Function::Scaled(l.scale), dense(dense(x, l.lora_a), l.lora_b)),
            ),
            l.bias,
        ),
{
}

/// The scheme of the settings is the one that the weight is stored under and restored from.
pub proof fn law_balanced_scheme_as_set(weight: Array, bias: Option<Array>, config: QBLoraConfig)
    ensures
        ({
            let l = QBLoraLinear::on(weight, bias, config);
            &&& l.quantized_weight.scheme == config.quant_scheme
            &&& l.restored() == dequantize(
                apply(Function::ToFloat32, weight),
                config.nf4(),
                config.quant_scheme,
                l.out_features,
                l.in_features,
            )
            &&& l.warmed().quantized_weight.scheme == config.quant_scheme
        }),
{
}

/// Keeping the restored weight changes no result.
pub proof fn law_balanced_cache_transparent(l: QBLoraLinear, x: Array)
    ensures
        l.warmed().output(x) == l.output(x),
        l.warmed().warmed() == l.warmed(),
{
}

} // verus!
