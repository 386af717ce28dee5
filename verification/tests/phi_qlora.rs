use pmetal_lora::array::Array;
use pmetal_lora::config::{LoraConfig, TargetModules};
use pmetal_lora::phi_lora::{PhiActivation, PhiConfig};
use pmetal_lora::phi_qlora::PhiQloraForCausalLM;
use pmetal_lora::qlora::QLoraConfig;
use pmetal_lora::quantization::QuantScheme;
use pmetal_lora::scalar::F32;
use pmetal_lora::shape::Shape;

fn f32_of(x: f32) -> F32 {
    F32 { bits: x.to_bits() }
}

fn ids(batch: i32, length: i32) -> Array {
    Array::held(1, Shape::D2(batch, length))
}

fn small_config() -> PhiConfig {
    PhiConfig {
        vocab_size: 512,
        hidden_size: 64,
        intermediate_size: 128,
        num_hidden_layers: 2,
        num_attention_heads: 4,
        num_key_value_heads: 4,
        rope_theta: f32_of(10000.0),
        // Half of the features of a head.
        rope_dim: 8,
        rms_norm_eps: f32_of(1e-5),
        qkv_bias: false,
        hidden_act: PhiActivation::SwiGLU,
    }
}

fn small_lora_config() -> LoraConfig {
    LoraConfig {
        r: 4,
        alpha: f32_of(8.0),
        use_rslora: false,
        target_modules: TargetModules::from_names(&vec![
            String::from("q_proj"),
            String::from("k_proj"),
            String::from("v_proj"),
            String::from("o_proj"),
            String::from("gate_proj"),
            String::from("down_proj"),
        ]),
        use_dora: false,
    }
}

fn small_qlora_config() -> QLoraConfig {
    QLoraConfig { lora: small_lora_config(), ..Default::default() }
}

fn model() -> PhiQloraForCausalLM {
    PhiQloraForCausalLM::with_qlora_config(small_config(), small_qlora_config()).unwrap()
}

#[test]
fn test_phi_qlora_construction() {
    assert!(PhiQloraForCausalLM::with_qlora_config(small_config(), small_qlora_config()).is_ok());
}

#[test]
fn test_phi_qlora_trainable_params_nonzero() {
    let model = model();
    assert!(model.num_trainable_params() > 0);
    let lora_params = model.lora_parameters();
    assert!(!lora_params.is_empty());
    for key in lora_params.keys() {
        assert!(
            key.contains("lora_a") || key.contains("lora_b"),
            "unexpected key: {}",
            key
        );
    }
}

#[test]
fn test_phi_qlora_forward() {
    let config = small_config();
    let mut model = model();
    let logits = model.forward(&ids(1, 4), None).unwrap();
    assert_eq!(logits.shape(), vec![1, 4, config.vocab_size]);
}

#[test]
fn test_phi_qlora_supports_kv_cache() {
    let config = small_config();
    let mut model = model();
    assert!(model.supports_kv_cache());
    let mut cache = model.create_cache(128);
    assert_eq!(cache.rope_offset(), 0);
    let logits = model.forward_with_cache(&ids(1, 4), None, Some(&mut cache)).unwrap();
    assert_eq!(logits.shape(), vec![1, 4, config.vocab_size]);
    assert_eq!(cache.rope_offset(), 4);
}

#[test]
fn test_phi_qlora_memory_savings() {
    let (quantized, full) = model().memory_savings();
    let savings = quantized as f32 / full as f32;
    assert!(savings < 0.5, "expected significant memory savings, got {}", savings);
}

#[test]
fn test_phi_qlora_merge_returns_error() {
    let mut model = model();
    assert!(model.merge_lora().is_err());
    assert!(model.unmerge_lora().is_err());
}

#[test]
fn test_phi_qlora_set_parameters_roundtrip() {
    let mut model = model();
    let params = model.lora_parameters();
    model.set_lora_parameters(&params);
    let params2 = model.lora_parameters();
    assert_eq!(params.len(), params2.len());
}

#[test]
fn phi_qlora_uses_the_scheme_of_the_settings() {
    let config = small_qlora_config().with_scheme(QuantScheme::Int8);
    let model = PhiQloraForCausalLM::with_qlora_config(small_config(), config).unwrap();
    assert_eq!(model.model.layers[0].self_attn.q_proj.quant_scheme(), QuantScheme::Int8);
    assert_eq!(model.model.layers[0].mlp.down_proj.quant_scheme(), QuantScheme::Int8);
}
