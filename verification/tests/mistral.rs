use pmetal_lora::array::Array;
use pmetal_lora::config::LoraConfig;
use pmetal_lora::error::LoraError;
use pmetal_lora::mistral_lora::{
    MistralConfig, MistralLoraAttention, MistralLoraForCausalLM, MistralLoraMLP,
};
use pmetal_lora::name_map::NameMap;
use pmetal_lora::scalar::F32;
use pmetal_lora::shape::Shape;

fn f32_of(x: f32) -> F32 {
    F32 { bits: x.to_bits() }
}

fn ids(batch: i32, length: i32) -> Array {
    Array::held(1, Shape::D2(batch, length))
}

fn key(name: &str) -> String {
    String::from(name)
}

fn small_config() -> MistralConfig {
    MistralConfig {
        vocab_size: 1000,
        hidden_size: 64,
        intermediate_size: 128,
        num_hidden_layers: 2,
        num_attention_heads: 4,
        num_key_value_heads: Some(2),
        head_dim: None,
        sliding_window: Some(128),
        rms_norm_eps: f32_of(1e-5),
        rope_theta: f32_of(10000.0),
        tie_word_embeddings: false,
    }
}

fn small_lora_config() -> LoraConfig {
    LoraConfig { r: 4, alpha: f32_of(8.0), use_rslora: false, ..Default::default() }
}

fn model() -> MistralLoraForCausalLM {
    MistralLoraForCausalLM::new(small_config(), small_lora_config()).unwrap()
}

#[test]
fn test_mistral_lora_attention() {
    let attn = MistralLoraAttention::new(&small_config(), &small_lora_config()).unwrap();
    let x = Array::held(1, Shape::D3(1, 4, 64));
    let output = attn.forward(&x, None).unwrap();
    assert_eq!(output.shape(), vec![1, 4, 64]);
}

#[test]
fn test_mistral_lora_mlp() {
    let mlp = MistralLoraMLP::new(&small_config(), &small_lora_config()).unwrap();
    let x = Array::held(1, Shape::D3(1, 4, 64));
    let output = mlp.forward(&x).unwrap();
    assert_eq!(output.shape(), vec![1, 4, 64]);
}

#[test]
fn test_mistral_lora_model() {
    let logits = model().forward(&ids(1, 4), None).unwrap();
    assert_eq!(logits.shape(), vec![1, 4, 1000]);
}

#[test]
fn test_mistral_lora_trainable_params() {
    let model = model();
    assert!(model.num_trainable_params() > 0);
    // q, o: 4 * (64 + 64); k, v: 4 * (64 + 32); gate, up, down: 4 * (64 + 128).
    let layer: usize = 2 * 4 * 128 + 2 * 4 * 96 + 3 * 4 * 192;
    assert_eq!(model.num_trainable_params(), 2 * layer);
    assert_eq!(model.num_parameters(), 2 * layer);
}

#[test]
fn test_lora_parameters() {
    // 2 layers x 7 projections x 2 matrices.
    assert_eq!(model().lora_parameters().len(), 28);
}

#[test]
fn test_kv_cache_support() {
    let model = model();
    assert!(model.supports_kv_cache());

    let mut cache = model.create_cache(128);
    assert_eq!(cache.rope_offset(), 0);

    let logits = model.forward_with_cache(&ids(1, 4), None, Some(&mut cache)).unwrap();
    assert_eq!(logits.shape(), vec![1, 4, 1000]);
    assert_eq!(cache.rope_offset(), 4);

    let next = model.forward_with_cache(&ids(1, 1), None, Some(&mut cache)).unwrap();
    assert_eq!(next.shape(), vec![1, 1, 1000]);
    assert_eq!(cache.rope_offset(), 5);
}

#[test]
fn mistral_parameters_are_listed_layer_by_layer() {
    let model = model();
    let listed = model.parameters();
    assert_eq!(listed.len(), 2);
    assert_eq!(listed[0].layer, 0);
    assert_eq!(listed[1].layer, 1);
    assert_eq!(listed[0].entries.len(), 14);
    assert_eq!(listed[1].entries.len(), 14);
}

#[test]
fn mistral_parameters_can_be_replaced_in_place() {
    let mut model = model();
    let other = Array::held(77, Shape::D2(4, 64));
    for layer in model.parameters_mut() {
        for entry in layer.entries {
            *entry.value = other.clone();
        }
    }
    let a = model.lora_parameters();
    let got = a.get(&key("model.layers.1.mlp.down_proj.lora_B.weight")).unwrap();
    assert_eq!(got.shape(), vec![4, 64]);
}

#[test]
fn mistral_parameters_that_are_not_named_stay() {
    let mut model = model();
    let mut params: NameMap<Array> = NameMap::new();
    params.insert(key("model.layers.0.self_attn.q_proj.lora_A.weight"), Array::held(9, Shape::D2(7, 64)));
    params.insert(key("model.layers.5.self_attn.q_proj.lora_A.weight"), Array::held(9, Shape::D2(8, 64)));
    model.set_lora_parameters(&params);
    let all = model.lora_parameters();
    assert_eq!(all.len(), 28);
    assert_eq!(
        all.get(&key("model.layers.0.self_attn.q_proj.lora_A.weight")).unwrap().shape(),
        vec![7, 64]
    );
    assert_eq!(
        all.get(&key("model.layers.1.self_attn.q_proj.lora_A.weight")).unwrap().shape(),
        vec![4, 64]
    );
    assert!(!all.contains_key(&key("model.layers.5.self_attn.q_proj.lora_A.weight")));
}

#[test]
fn mistral_refuses_matrices_that_do_not_fit() {
    let mut model = model();
    let mut params: NameMap<Array> = NameMap::new();
    params.insert(key("model.layers.0.self_attn.q_proj.lora_A.weight"), Array::held(9, Shape::D2(4, 63)));
    model.set_lora_parameters(&params);
    assert!(matches!(model.forward(&ids(1, 4), None), Err(LoraError::Mlx(_))));
    assert!(matches!(model.merge_lora(), Err(LoraError::Mlx(_))));
}

#[test]
fn mistral_merges_and_does_not_unmerge() {
    let mut model = model();
    model.merge_lora().unwrap();
    assert!(model.model.layers[0].self_attn.q_proj.merged);
    assert!(model.model.layers[1].mlp.down_proj.merged);
    let logits = model.forward(&ids(1, 4), None).unwrap();
    assert_eq!(logits.shape(), vec![1, 4, 1000]);
    match model.unmerge_lora() {
        Err(LoraError::InvalidState(what)) => assert_eq!(
            what,
            "unmerge_lora is not supported: reload base model weights to undo a merge"
        ),
        _ => panic!("a merge was undone"),
    }
}

#[test]
fn mistral_loads_frozen_weights_by_name() {
    let mut model = model();
    let before = model.lora_parameters();
    let mut weights: NameMap<Array> = NameMap::new();
    weights.insert(
        key("model.layers.1.self_attn.k_proj.weight"),
        Array::held(5, Shape::D2(31, 64)),
    );
    weights.insert(key("model.norm.weight"), Array::held(6, Shape::D1(3)));
    weights.insert(key("lm_head.weight"), Array::held(7, Shape::D2(2, 64)));
    weights.insert(key("model.embed_tokens.weight"), Array::held(8, Shape::D2(9, 64)));
    model.load_base_weights(&weights).unwrap();
    assert_eq!(model.model.layers[1].self_attn.k_proj.weight.shape(), vec![31, 64]);
    assert_eq!(model.model.layers[0].self_attn.k_proj.weight.shape(), vec![32, 64]);
    assert_eq!(model.model.norm.weight.shape(), vec![3]);
    assert_eq!(model.lm_head.as_ref().unwrap().weight.shape(), vec![2, 64]);
    assert_eq!(model.model.embed_tokens.weight.shape(), vec![9, 64]);
    assert_eq!(model.lora_parameters().len(), before.len());
}

#[test]
fn mistral_refuses_negative_extents() {
    let config = MistralConfig { intermediate_size: -1, ..small_config() };
    assert!(matches!(
        MistralLoraForCausalLM::new(config, small_lora_config()),
        Err(LoraError::Mlx(_))
    ));
}

#[test]
fn mistral_checkpointing_is_switched() {
    let mut model = model();
    assert!(model.supports_gradient_checkpointing());
    assert!(model.checkpoint_config.is_none());
    model.enable_gradient_checkpointing(3);
    let config = model.checkpoint_config.unwrap();
    assert!(config.enabled && config.eval_at_boundaries);
    assert_eq!(config.layers_per_block, 3);
    let mut model = MistralLoraForCausalLM::new(small_config(), small_lora_config()).unwrap();
    model.enable_gradient_checkpointing(1);
    model.disable_gradient_checkpointing();
    assert!(model.checkpoint_config.is_none());
}

#[test]
fn mistral_tied_embeddings_serve_as_head() {
    let config = MistralConfig { tie_word_embeddings: true, ..small_config() };
    let model = MistralLoraForCausalLM::new(config, small_lora_config()).unwrap();
    assert!(model.lm_head.is_none());
    let logits = model.forward(&ids(2, 3), None).unwrap();
    assert_eq!(logits.shape(), vec![2, 3, 1000]);
}
