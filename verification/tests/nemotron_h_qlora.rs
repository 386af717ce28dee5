use pmetal_lora::array::{Array, MambaConfig};
use pmetal_lora::config::{LoraConfig, TargetModules};
use pmetal_lora::nemotron_h_lora::{NemotronHConfig, NemotronHDims};
use pmetal_lora::nemotron_h_qlora::{NemotronHQloraForCausalLM, NemotronHQloraMixer};
use pmetal_lora::qlora::QLoraConfig;
use pmetal_lora::scalar::F32;
use pmetal_lora::shape::Shape;

fn f32_of(x: f32) -> F32 {
    F32 { bits: x.to_bits() }
}

fn ids(batch: i32, length: i32) -> Array {
    Array::held(1, Shape::D2(batch, length))
}

fn key(name: &str) -> String {
    String::from(name)
}

fn tiny_config() -> NemotronHConfig {
    NemotronHConfig {
        dims: NemotronHDims {
            vocab_size: 64,
            hidden_size: 32,
            intermediate_size: 64,
            num_attention_heads: 2,
            num_key_value_heads: 1,
            head_dim: Some(16),
            mamba: MambaConfig {
                num_heads: 4,
                head_dim: 8,
                state_size: 8,
                conv_kernel: 4,
                n_groups: 1,
                time_step_min: f32_of(0.001),
                time_step_max: f32_of(0.1),
                eps: f32_of(1e-5),
            },
            mamba_proj_bias: false,
            use_conv_bias: true,
            mlp_bias: false,
            layer_norm_epsilon: f32_of(1e-5),
            rope_theta: f32_of(10000.0),
            tie_word_embeddings: true,
            n_routed_experts: None,
            num_experts_per_tok: None,
            n_group: None,
            topk_group: None,
            norm_topk_prob: None,
            moe_intermediate_size: None,
            moe_shared_expert_intermediate_size: None,
            n_shared_experts: None,
            routed_scaling_factor: None,
        },
        // A state-space mixer, attention, an MLP.
        layer_types: vec!['M', '*', '-'],
    }
}

fn tiny_lora_config() -> LoraConfig {
    LoraConfig {
        r: 4,
        alpha: f32_of(8.0),
        use_rslora: false,
        target_modules: TargetModules::from_names(&vec![
            String::from("q_proj"),
            String::from("k_proj"),
            String::from("v_proj"),
            String::from("o_proj"),
            String::from("up_proj"),
            String::from("down_proj"),
        ]),
        use_dora: false,
    }
}

fn model() -> NemotronHQloraForCausalLM {
    NemotronHQloraForCausalLM::new(tiny_config(), tiny_lora_config()).unwrap()
}

#[test]
fn nemotron_h_qlora_test_layer_type_dispatch() {
    let model = model();
    assert!(matches!(model.model.layers[0].mixer, NemotronHQloraMixer::Mamba(_)));
    assert!(matches!(model.model.layers[1].mixer, NemotronHQloraMixer::Attention(_)));
    assert!(matches!(model.model.layers[2].mixer, NemotronHQloraMixer::Mlp(_)));
}

#[test]
fn nemotron_h_qlora_test_mamba_layers_have_no_lora_params() {
    let params = model().lora_parameters();
    let keys = params.keys();
    let mamba_keys: Vec<&String> = keys.iter().filter(|k| k.starts_with("layers.0.")).collect();
    assert!(mamba_keys.is_empty());
    assert_eq!(keys.len(), 12);
}

#[test]
fn nemotron_h_qlora_test_attention_lora_param_keys() {
    let params = model().lora_parameters();
    for proj in ["q_proj", "k_proj", "v_proj", "o_proj"] {
        for ab in ["lora_a", "lora_b"] {
            assert!(params.contains_key(&format!("layers.1.mixer.{}.{}", proj, ab)));
        }
    }
}

#[test]
fn nemotron_h_qlora_test_mlp_lora_param_keys() {
    let params = model().lora_parameters();
    for proj in ["up_proj", "down_proj"] {
        for ab in ["lora_a", "lora_b"] {
            assert!(params.contains_key(&format!("layers.2.mixer.{}.{}", proj, ab)));
        }
    }
    assert!(!params.contains_key(&key("layers.2.mixer.gate_proj.lora_a")));
}

#[test]
fn nemotron_h_qlora_test_lora_param_roundtrip() {
    let mut model = model();
    let original = model.lora_parameters();
    model.set_lora_parameters(&original);
    let restored = model.lora_parameters();
    assert_eq!(original.len(), restored.len());
}

#[test]
fn nemotron_h_qlora_test_supports_kv_cache_is_false() {
    assert!(!model().supports_kv_cache());
}

#[test]
fn test_nemotron_h_qlora_builds() {
    let model =
        NemotronHQloraForCausalLM::with_qlora_config(tiny_config(), QLoraConfig::default());
    assert!(model.is_ok());
    assert!(model.unwrap().num_trainable_params() > 0);
}

#[test]
fn test_nemotron_h_qlora_from_lora_config() {
    assert!(NemotronHQloraForCausalLM::new(tiny_config(), tiny_lora_config()).is_ok());
}

#[test]
fn test_nemotron_h_qlora_forward() {
    let mut model = model();
    let logits = model.forward(&ids(1, 4), None).unwrap();
    assert_eq!(logits.shape(), vec![1, 4, 64]);
    let again = model.forward(&ids(1, 4), None).unwrap();
    assert_eq!(again.shape(), vec![1, 4, 64]);
}

#[test]
fn test_memory_savings_in_range() {
    let model =
        NemotronHQloraForCausalLM::with_qlora_config(tiny_config(), QLoraConfig::default())
            .unwrap();
    let (quantized, full) = model.memory_savings();
    let savings = quantized as f32 / full as f32;
    assert!(savings > 0.0 && savings <= 1.0);
}

#[test]
fn nemotron_h_qlora_counts_bytes() {
    let model = model();
    // Attention: q and o 32x32, k and v 16x32; MLP: 64x32 and 32x64. Two elements to a byte, a
    // scale to a block of 64; matrices of rank 16 in single precision without the listed targets.
    let (quantized, lora, total) = model.memory_usage();
    let elements: usize = 2 * 1024 + 2 * 512 + 2 * 2048;
    assert_eq!(quantized, elements / 2 + elements / 64 * 4);
    assert_eq!(lora, 4 * model.num_trainable_params());
    assert_eq!(total, quantized + lora);
}
