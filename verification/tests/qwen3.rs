use pmetal_lora::array::Array;
use pmetal_lora::config::{LoraConfig, TargetModules};
use pmetal_lora::layer_ids::LayerIds;
use pmetal_lora::qwen3_lora::{
    Qwen3Config, Qwen3LoraAttention, Qwen3LoraForCausalLM, reset_layer_ids,
};
use pmetal_lora::scalar::F32;
use pmetal_lora::shape::Shape;

fn f32_of(x: f32) -> F32 {
    F32 { bits: x.to_bits() }
}

fn ids(batch: i32, length: i32) -> Array {
    Array::held(1, Shape::D2(batch, length))
}

fn small_config() -> Qwen3Config {
    Qwen3Config {
        vocab_size: 1000,
        hidden_size: 64,
        intermediate_size: 128,
        num_hidden_layers: 2,
        num_attention_heads: 4,
        num_key_value_heads: Some(2),
        head_dim: 16,
        rms_norm_eps: f32_of(1e-6),
        rope_theta: f32_of(1_000_000.0),
        tie_word_embeddings: false,
    }
}

fn small_lora_config() -> LoraConfig {
    LoraConfig {
        r: 8,
        alpha: f32_of(16.0),
        use_rslora: false,
        target_modules: TargetModules::from_names(&vec![
            String::from("q_proj"),
            String::from("k_proj"),
            String::from("v_proj"),
            String::from("o_proj"),
        ]),
        use_dora: false,
    }
}

fn model() -> Qwen3LoraForCausalLM {
    let mut numbers = LayerIds::new();
    Qwen3LoraForCausalLM::new(small_config(), small_lora_config(), &mut numbers).unwrap()
}

#[test]
fn test_qwen3_lora_attention() {
    let mut numbers = LayerIds::new();
    let attn =
        Qwen3LoraAttention::new(&small_config(), &small_lora_config(), &mut numbers).unwrap();
    let x = Array::held(1, Shape::D3(1, 4, 64));
    let output = attn.forward(&x, None, None, false).unwrap();
    assert_eq!(output.shape(), vec![1, 4, 64]);
}

#[test]
fn test_qwen3_lora_model() {
    let logits = model().forward(&ids(1, 4), None, None, false).unwrap();
    assert_eq!(logits.shape(), vec![1, 4, 1000]);
}

#[test]
fn test_lora_param_count() {
    let model = model();
    assert!(model.num_trainable_params() > 0);
    assert!(!model.lora_parameters().is_empty());
}

#[test]
fn qwen3_layers_are_numbered_in_order() {
    let mut numbers = LayerIds::new();
    let one =
        Qwen3LoraForCausalLM::new(small_config(), small_lora_config(), &mut numbers).unwrap();
    assert_eq!(one.model.layers[0].self_attn.layer_id, 0);
    assert_eq!(one.model.layers[1].self_attn.layer_id, 1);
    reset_layer_ids(&mut numbers);
    assert_eq!(numbers.next, 0);
}

#[test]
fn qwen3_long_training_inputs_take_the_kernel_that_saves_memory() {
    let model = model();
    for length in [2047, 2048] {
        let logits = model.forward(&ids(1, length), None, None, true).unwrap();
        assert_eq!(logits.shape(), vec![1, length, 1000]);
    }
}
