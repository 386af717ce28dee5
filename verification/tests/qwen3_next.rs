use pmetal_lora::array::Array;
use pmetal_lora::config::{LoraConfig, TargetModules};
use pmetal_lora::layer_ids::LayerIds;
use pmetal_lora::name_map::NameMap;
use pmetal_lora::qwen3_next_lora::{
    Qwen3NextConfig, Qwen3NextLoraFeedForward, Qwen3NextLoraForCausalLM,
    reset_qwen3_next_layer_ids,
};
use pmetal_lora::scalar::F32;
use pmetal_lora::shape::Shape;

fn f32_of(x: f32) -> F32 {
    F32 { bits: x.to_bits() }
}

fn ids(batch: i32, length: i32) -> Array {
    Array::held(1, Shape::D2(batch, length))
}

fn key(name: &str) -> String {
    String::from(name)
}

fn tiny_config() -> Qwen3NextConfig {
    Qwen3NextConfig {
        hidden_size: 32,
        intermediate_size: 64,
        num_hidden_layers: 4,
        num_attention_heads: 2,
        num_key_value_heads: Some(1),
        head_dim: Some(16),
        vocab_size: 100,
        linear_num_value_heads: 2,
        linear_num_key_heads: 1,
        linear_key_head_dim: 16,
        linear_value_head_dim: 16,
        linear_conv_kernel_dim: 4,
        full_attention_interval: 4,
        num_experts: 0,
        num_experts_per_tok: 0,
        decoder_sparse_step: 1,
        moe_intermediate_size: 16,
        shared_expert_intermediate_size: 32,
        mlp_only_layers: vec![],
        norm_topk_prob: false,
        tie_word_embeddings: true,
        rms_norm_eps: f32_of(1e-6),
        rope_dims: 4,
        effective_base: f32_of(10000.0),
        rope_scale: f32_of(1.0),
    }
}

fn tiny_lora_config() -> LoraConfig {
    LoraConfig {
        r: 4,
        alpha: f32_of(8.0),
        use_rslora: false,
        target_modules: TargetModules::from_names(&vec![
            String::from("q_proj"),
            String::from("k_proj"),
            String::from("v_proj"),
            String::from("o_proj"),
            String::from("in_proj_qkv"),
            String::from("in_proj_z"),
            String::from("out_proj"),
            String::from("gate_proj"),
            String::from("up_proj"),
            String::from("down_proj"),
        ]),
        use_dora: false,
    }
}

fn build(config: Qwen3NextConfig) -> Qwen3NextLoraForCausalLM {
    let mut numbers = LayerIds::new();
    Qwen3NextLoraForCausalLM::new(config, tiny_lora_config(), &mut numbers).unwrap()
}

#[test]
fn test_qwen3_next_lora_construction() {
    let mut numbers = LayerIds::new();
    let model = Qwen3NextLoraForCausalLM::new(tiny_config(), tiny_lora_config(), &mut numbers);
    assert!(model.is_ok());
    assert!(model.unwrap().num_trainable_params() > 0);
    assert_eq!(numbers.next, 1);
}

#[test]
fn test_lora_param_keys() {
    let params = build(tiny_config()).lora_parameters();
    assert!(params.contains_key(&key("layers.0.linear_attn.in_proj_qkv.lora_a")));
    assert!(params.contains_key(&key("layers.3.self_attn.q_proj.lora_a")));
    assert_eq!(params.len(), 2 * (3 * 6 + 7));
}

#[test]
fn qwen3_next_lora_test_layer_type_dispatch() {
    let config = tiny_config();
    assert!(config.is_linear_layer(0));
    assert!(config.is_linear_layer(1));
    assert!(config.is_linear_layer(2));
    assert!(!config.is_linear_layer(3));
}

#[test]
fn test_qwen3_next_lora_forward() {
    let model = build(tiny_config());
    let logits = model.forward(&ids(1, 4), None, false).unwrap();
    assert_eq!(logits.shape(), vec![1, 4, 100]);
}

#[test]
fn test_set_lora_parameters_roundtrip() {
    let mut model = build(tiny_config());
    let original_params = model.lora_parameters();
    model.set_lora_parameters(&original_params);
    assert_eq!(original_params.len(), model.lora_parameters().len());
}

#[test]
fn qwen3_next_numbers_start_again() {
    let mut numbers = LayerIds::new();
    numbers.take();
    numbers.take();
    reset_qwen3_next_layer_ids(&mut numbers);
    assert_eq!(numbers.next, 0);
    let mut config = tiny_config();
    config.num_hidden_layers = 8;
    let model =
        Qwen3NextLoraForCausalLM::new(config, tiny_lora_config(), &mut numbers).unwrap();
    assert_eq!(model.model.layers[3].self_attn.as_ref().unwrap().layer_id, 0);
    assert_eq!(model.model.layers[7].self_attn.as_ref().unwrap().layer_id, 1);
}

#[test]
fn qwen3_next_steps_over_caches() {
    let model = build(tiny_config());
    assert!(model.supports_kv_cache());
    let mut kv = model.create_cache(64);
    let mut states = model.create_mamba_cache();
    assert_eq!(states.len(), 4);
    let logits = model
        .forward_with_cache(&ids(1, 4), None, Some(&mut kv), Some(&mut states))
        .unwrap();
    assert_eq!(logits.shape(), vec![1, 4, 100]);
    assert_eq!(kv.rope_offset(), 4);
    let entry = states.get_mut(0).unwrap();
    // Two widths of keys and one of values, over the steps that the kernel looks back.
    assert_eq!(entry.conv_state.as_ref().unwrap().shape(), vec![1, 3, 64]);
    assert_eq!(entry.ssm_state.as_ref().unwrap().shape(), vec![1, 2, 16, 16]);
    let next = model
        .forward_with_cache(&ids(1, 1), None, Some(&mut kv), Some(&mut states))
        .unwrap();
    assert_eq!(next.shape(), vec![1, 1, 100]);
    assert_eq!(kv.rope_offset(), 5);
}

#[test]
fn qwen3_next_experts() {
    let mut config = tiny_config();
    config.num_experts = 4;
    config.num_experts_per_tok = 2;
    config.norm_topk_prob = true;
    config.mlp_only_layers = vec![1];
    assert!(config.use_moe_at(0));
    assert!(!config.use_moe_at(1));
    let mut model = build(config);
    assert!(matches!(model.model.layers[0].mlp, Qwen3NextLoraFeedForward::MoE(_)));
    assert!(matches!(model.model.layers[1].mlp, Qwen3NextLoraFeedForward::Dense(_)));
    let params = model.lora_parameters();
    assert!(params.contains_key(&key("layers.0.mlp.shared_expert.gate_proj.lora_a")));
    assert!(params.contains_key(&key("layers.1.mlp.gate_proj.lora_a")));
    assert_eq!(model.forward(&ids(2, 3), None, false).unwrap().shape(), vec![2, 3, 100]);
    model.merge_lora().unwrap();
    assert_eq!(model.forward(&ids(2, 3), None, true).unwrap().shape(), vec![2, 3, 100]);
}

#[test]
fn qwen3_next_loads_by_name() {
    let mut model = build(tiny_config());
    let mut weights: NameMap<Array> = NameMap::new();
    weights.insert(key("model.layers.0.linear_attn.dt_bias"), Array::held(3, Shape::D1(9)));
    weights.insert(
        key("model.layers.3.self_attn.q_norm.weight"),
        Array::held(3, Shape::D1(8)),
    );
    model.load_base_weights(&weights).unwrap();
    assert_eq!(model.model.layers[0].linear_attn.as_ref().unwrap().dt_bias.shape(), vec![9]);
    let attention = model.model.layers[3].self_attn.as_ref().unwrap();
    assert_eq!(attention.q_norm.weight.shape(), vec![8]);
    assert!(model.forward(&ids(1, 4), None, false).is_err());
}

#[test]
fn qwen3_next_numbers_when_refused() {
    let mut numbers = LayerIds::new();
    let mut config = tiny_config();
    config.num_hidden_layers = 8;
    config.num_key_value_heads = Some(-1);
    // The first layer with full attention takes a number and is refused.
    assert!(Qwen3NextLoraForCausalLM::new(config, tiny_lora_config(), &mut numbers).is_err());
    assert_eq!(numbers.next, 1);
    let mut config = tiny_config();
    config.vocab_size = -1;
    assert!(Qwen3NextLoraForCausalLM::new(config, tiny_lora_config(), &mut numbers).is_err());
    assert_eq!(numbers.next, 0);
}
