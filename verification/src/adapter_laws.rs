//! What linear layers with adapters give for inputs of fitting shapes.

use crate::array::{Arithmetic, Array, Function, apply, combine, dequantize, matmul, plus, sum_axis};
use crate::lora::{dense, initial_bias};
use crate::qblora::{QBLoraConfig, QBLoraLinear, projected};
use crate::qlora::{QLoraConfig, QLoraLinear};
use crate::scalar::F32;
use crate::shape::Shape;
use crate::shapes::{
    is_of, lemma_apply_shape, lemma_biased_shape, lemma_combine_same, lemma_dense_shape,
    lemma_fresh_qlora, lemma_qlora_shape,
};
use vstd::prelude::*;

verus! {

/// A layer with a quantized weight maps `[.., inputs]` to `[.., outputs]`, whatever axes come
/// before.
pub proof fn law_qlora_forward_shape(l: QLoraLinear, x: Array, inputs: i32, outputs: i32)
    requires
        l.maps(inputs, outputs),
        x.fits,
        x.shape.rank() >= 1,
        x.shape.inner() == inputs,
    ensures
        is_of(l.output(x), x.shape.with_inner(outputs)),
        l.warmed().maps(inputs, outputs),
{
    lemma_qlora_shape(l, x);
}

/// A fresh layer has fitting extents.
pub proof fn law_qlora_fresh_shaped(inputs: i32, outputs: i32, config: QLoraConfig, bias: bool)
    requires
        config.lora.valid(),
        inputs >= 0,
        outputs >= 0,
    ensures
        QLoraLinear::fresh(inputs, outputs, config, bias).maps(inputs, outputs),
{
    lemma_fresh_qlora(inputs, outputs, config, bias);
}

impl QBLoraLinear {
    /// The extents are those of the arrays, the widths of the adapter are those that the
    /// projections lead to and from, and these extents in particular.
    pub open spec fn maps(self, inputs: i32, outputs: i32) -> bool {
        let narrow = self.lora_a.shape.inner();
        let wide = self.lora_b.shape.outer();
        &&& self.in_features == inputs && self.out_features == outputs
        &&& is_of(self.weight(), Shape::D2(outputs, inputs))
        &&& is_of(self.lora_a, Shape::D2(self.rank, narrow))
        &&& is_of(self.lora_b, Shape::D2(wide, self.rank))
        &&& match self.input_proj {
            Some(p) => is_of(p, Shape::D2(inputs, narrow)),
            None => narrow == inputs,
        }
        &&& match self.output_proj {
            Some(p) => is_of(p, Shape::D2(wide, outputs)),
            None => wide == outputs,
        }
        &&& self.bias matches Some(c) ==> is_of(c, Shape::D1(outputs))
    }
}

/// A balanced layer maps `[.., inputs]` to `[.., outputs]`, whatever axes come before and whatever
/// projections it has.
pub proof fn law_qblora_forward_shape(l: QBLoraLinear, x: Array, inputs: i32, outputs: i32)
    requires
        l.maps(inputs, outputs),
        x.fits,
        x.shape.rank() >= 1,
        x.shape.inner() == inputs,
    ensures
        is_of(l.output(x), x.shape.with_inner(outputs)),
        l.warmed().maps(inputs, outputs),
{
    reveal(matmul);
    lemma_dense_shape(x, l.weight());
    let narrow = projected(x, l.input_proj);
    lemma_dense_shape(narrow, l.lora_a);
    lemma_dense_shape(dense(narrow, l.lora_a), l.lora_b);
    let wide = projected(dense(dense(narrow, l.lora_a), l.lora_b), l.output_proj);
    let f = Function::Scaled(l.scale);
    lemma_apply_shape(f, wide);
    lemma_combine_same(Arithmetic::Add, dense(x, l.weight()), apply(f, wide));
    lemma_biased_shape(plus(dense(x, l.weight()), apply(f, wide)), l.bias);
}

/// The factor on the adapter's gradients has no part in the output: layers that differ in it
/// alone give the same and keep the same behind it, and a layer that is made with it maps
/// `[.., inputs]` to `[.., outputs]` as one that is made without.
pub proof fn law_gradient_scale_not_in_output(
    l: QBLoraLinear,
    gradient_scale: F32,
    x: Array,
    inputs: i32,
    outputs: i32,
)
    ensures
        ({
            let other = QBLoraLinear { gradient_scale, ..l };
            &&& other.output(x) == l.output(x)
            &&& other.warmed() == (QBLoraLinear { gradient_scale, ..l.warmed() })
            &&& other.maps(inputs, outputs) == l.maps(inputs, outputs)
            &&& l.maps(inputs, outputs) && x.fits && x.shape.rank() >= 1 && x.shape.inner()
                == inputs ==> is_of(other.output(x), x.shape.with_inner(outputs))
        }),
{
    if l.maps(inputs, outputs) && x.fits && x.shape.rank() >= 1 && x.shape.inner() == inputs {
        law_qblora_forward_shape(l, x, inputs, outputs);
    }
}

/// A fresh balanced layer has fitting extents.
pub proof fn law_qblora_fresh_shaped(inputs: i32, outputs: i32, config: QBLoraConfig, bias: bool)
    requires
        config.valid(),
        inputs >= 0,
        outputs >= 0,
    ensures
        QBLoraLinear::on(
            QBLoraLinear::random_weight(inputs, outputs),
            initial_bias(outputs, bias),
            config,
        ).maps(inputs, outputs),
{
    reveal(apply);
    reveal(dequantize);
    reveal(combine);
    reveal(sum_axis);
}

} // verus!
