use pmetal_lora::array::{Array, Node};
use pmetal_lora::attention::create_causal_mask;
use pmetal_lora::config::{LoraConfig, TargetModules};
use pmetal_lora::phi_lora::{PhiActivation, PhiConfig, PhiLoraAttention, PhiLoraForCausalLM};
use pmetal_lora::scalar::F32;
use pmetal_lora::shape::Shape;

fn f32_of(x: f32) -> F32 {
    F32 { bits: x.to_bits() }
}

fn ids(batch: i32, length: i32) -> Array {
    Array::held(1, Shape::D2(batch, length))
}

fn key(name: &str) -> String {
    String::from(name)
}

fn small_config() -> PhiConfig {
    PhiConfig {
        vocab_size: 1000,
        hidden_size: 64,
        intermediate_size: 128,
        num_hidden_layers: 2,
        num_attention_heads: 4,
        num_key_value_heads: 4,
        rope_theta: f32_of(10000.0),
        // Half of the features of a head.
        rope_dim: 8,
        rms_norm_eps: f32_of(1e-5),
        qkv_bias: false,
        hidden_act: PhiActivation::SwiGLU,
    }
}

fn small_lora_config() -> LoraConfig {
    LoraConfig {
        r: 8,
        alpha: f32_of(16.0),
        use_rslora: false,
        target_modules: TargetModules::from_names(&vec![
            String::from("q_proj"),
            String::from("k_proj"),
            String::from("v_proj"),
            String::from("o_proj"),
        ]),
        use_dora: false,
    }
}

fn model() -> PhiLoraForCausalLM {
    PhiLoraForCausalLM::new(small_config(), small_lora_config()).unwrap()
}

#[test]
fn test_phi_lora_attention() {
    let attn = PhiLoraAttention::new(&small_config(), &small_lora_config()).unwrap();
    let x = Array::held(1, Shape::D3(1, 4, 64));
    assert_eq!(attn.forward(&x, None).unwrap().shape(), vec![1, 4, 64]);
}

#[test]
fn test_phi_lora_model() {
    let config = small_config();
    let logits = model().forward(&ids(1, 4), None).unwrap();
    assert_eq!(logits.shape(), vec![1, 4, config.vocab_size]);
}

#[test]
fn test_phi_lora_param_count() {
    let model = model();
    assert!(model.num_trainable_params() > 0);
    assert!(!model.lora_parameters().is_empty());
}

#[test]
fn test_phi_partial_rope() {
    let config = small_config();
    assert_eq!(config.head_dim(), 16);
    assert_eq!(config.rope_dim, 8);
    let attn = PhiLoraAttention::new(&config, &small_lora_config()).unwrap();
    assert_eq!(attn.rope_dim, 8);
    assert_eq!(attn.rope.dims, 8);
}

#[test]
fn test_phi_kv_cache() {
    let model = model();
    assert!(model.supports_kv_cache());
    let mut cache = model.create_cache(128);
    assert_eq!(cache.rope_offset(), 0);
    let logits = model.forward_with_cache(&ids(1, 4), None, Some(&mut cache)).unwrap();
    assert_eq!(logits.shape(), vec![1, 4, 1000]);
    assert_eq!(cache.rope_offset(), 4);
    let next = model.forward_with_cache(&ids(1, 1), None, Some(&mut cache)).unwrap();
    assert_eq!(next.shape(), vec![1, 1, 1000]);
    assert_eq!(cache.rope_offset(), 5);
}

#[test]
fn phi_gelu_needs_one_input_only() {
    let config = PhiConfig { hidden_act: PhiActivation::GeluExact, ..small_config() };
    let model = PhiLoraForCausalLM::new(config, small_lora_config()).unwrap();
    assert_eq!(model.model.layers[0].mlp.gate_up_proj.out_features, 128);
    assert_eq!(model.forward(&ids(1, 4), None).unwrap().shape(), vec![1, 4, 1000]);
    let swiglu = PhiLoraForCausalLM::new(small_config(), small_lora_config()).unwrap();
    assert_eq!(swiglu.model.layers[0].mlp.gate_up_proj.out_features, 256);
}

/// The shapes of the arrays that are rotated below a node.
fn rotated_shapes(x: &Array, out: &mut Vec<Vec<i32>>) {
    match &*x.node {
        Node::Rope { x, .. } => {
            out.push(x.shape());
            rotated_shapes(x, out);
        },
        Node::Apply(_, a)
        | Node::Transpose(a)
        | Node::SwapMiddle(a)
        | Node::SwapInner(a)
        | Node::Reshape(a)
        | Node::BroadcastTo(a) => rotated_shapes(a, out),
        Node::Combine(_, a, b) | Node::Matmul(a, b) | Node::Concat { a, b, .. } => {
            rotated_shapes(a, out);
            rotated_shapes(b, out);
        },
        Node::Attend { q, k, v, .. } => {
            rotated_shapes(q, out);
            rotated_shapes(k, out);
            rotated_shapes(v, out);
        },
        _ => {},
    }
}

#[test]
fn phi_rotates_by_position_with_and_without_a_cache() {
    let attn = PhiLoraAttention::new(&small_config(), &small_lora_config()).unwrap();
    let x = Array::held(1, Shape::D3(1, 3, 64));
    let mut plain = Vec::new();
    rotated_shapes(&attn.forward(&x, None).unwrap(), &mut plain);
    let mut fused = Vec::new();
    rotated_shapes(&attn.forward_with_cache(&x, None, None).unwrap(), &mut fused);
    // Queries and keys of four heads over three positions, the first eight features of each.
    assert!(!plain.is_empty());
    assert!(plain.iter().all(|s| *s == vec![1, 4, 3, 8]));
    assert_eq!(fused, plain);
}

#[test]
fn phi_attention_under_the_causal_mask_has_the_shape_of_fused_attention() {
    let attn = PhiLoraAttention::new(&small_config(), &small_lora_config()).unwrap();
    let x = Array::held(1, Shape::D3(1, 3, 64));
    let causal = create_causal_mask(3);
    let plain = attn.forward(&x, Some(&causal)).unwrap();
    let fused = attn.forward_with_cache(&x, None, None).unwrap();
    assert_eq!(plain.shape(), vec![1, 3, 64]);
    assert_eq!(fused.shape(), plain.shape());
    let (mut p, mut f) = (Vec::new(), Vec::new());
    rotated_shapes(&plain, &mut p);
    rotated_shapes(&fused, &mut f);
    assert_eq!(f, p);
}
