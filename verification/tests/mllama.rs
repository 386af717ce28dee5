use pmetal_lora::array::Array;
use pmetal_lora::config::{LoraConfig, TargetModules};
use pmetal_lora::mllama_lora::{
    LlamaConfig, MllamaConfig, MllamaLoraCrossAttention, MllamaLoraForCausalLM,
    MllamaLoraSelfAttention,
};
use pmetal_lora::name_map::NameMap;
use pmetal_lora::names::Half;
use pmetal_lora::scalar::F32;
use pmetal_lora::shape::Shape;

fn f32_of(x: f32) -> F32 {
    F32 { bits: x.to_bits() }
}

fn ids(batch: i32, length: i32) -> Array {
    Array::held(1, Shape::D2(batch, length))
}

fn key(name: &str) -> String {
    String::from(name)
}

fn small_config() -> MllamaConfig {
    MllamaConfig {
        text_config: LlamaConfig {
            vocab_size: 512,
            hidden_size: 64,
            intermediate_size: 128,
            num_hidden_layers: 4,
            num_attention_heads: 4,
            num_key_value_heads: Some(2),
            head_dim: None,
            rms_norm_eps: f32_of(1e-5),
            rope_theta: f32_of(10000.0),
            tie_word_embeddings: false,
        },
        // Layers 1 and 3 have cross-attention.
        cross_attention_layers: vec![1, 3],
    }
}

fn small_lora_config() -> LoraConfig {
    LoraConfig {
        r: 4,
        alpha: f32_of(8.0),
        use_rslora: false,
        target_modules: TargetModules::from_names(&vec![
            String::from("q_proj"),
            String::from("k_proj"),
            String::from("v_proj"),
            String::from("o_proj"),
        ]),
        use_dora: false,
    }
}

fn dora_config() -> LoraConfig {
    LoraConfig {
        r: 4,
        alpha: f32_of(8.0),
        use_rslora: false,
        target_modules: TargetModules::from_names(&vec![
            String::from("q_proj"),
            String::from("v_proj"),
        ]),
        use_dora: true,
    }
}

fn elements(params: &NameMap<Array>) -> usize {
    params
        .keys()
        .iter()
        .map(|k| params.get(k).unwrap().shape().iter().map(|d| *d as usize).product::<usize>())
        .sum()
}

fn model() -> MllamaLoraForCausalLM {
    MllamaLoraForCausalLM::new(small_config(), small_lora_config()).unwrap()
}

#[test]
fn test_mllama_lora_self_attn() {
    let config = small_config();
    let attn = MllamaLoraSelfAttention::new(&config.text_config, &small_lora_config()).unwrap();
    let x = Array::held(1, Shape::D3(1, 4, 64));
    assert_eq!(attn.forward(&x, None).unwrap().shape(), vec![1, 4, 64]);
}

#[test]
fn test_mllama_lora_cross_attn() {
    let config = small_config();
    let ca = MllamaLoraCrossAttention::new(&config.text_config, &small_lora_config()).unwrap();
    let x = Array::held(1, Shape::D3(1, 4, 64));
    let cross = Array::held(2, Shape::D3(1, 8, 64));
    assert_eq!(ca.forward(&x, &cross).unwrap().shape(), vec![1, 4, 64]);
}

#[test]
fn test_mllama_lora_text_only_forward() {
    assert_eq!(model().forward(&ids(1, 4), None).unwrap().shape(), vec![1, 4, 512]);
}

#[test]
fn test_mllama_lora_with_cross_states() {
    let cross_states = Array::held(2, Shape::D3(1, 16, 64));
    let logits = model().forward_multimodal(&ids(1, 4), None, Some(&cross_states)).unwrap();
    assert_eq!(logits.shape(), vec![1, 4, 512]);
}

#[test]
fn test_mllama_lora_param_count() {
    let model = model();
    assert!(model.num_trainable_params() > 0);
    let params = model.lora_parameters();
    assert!(!params.is_empty());
    // Cross-attention matrices are there for layers 1 and 3.
    assert!(params.contains_key(&key("layers.1.cross_attn.q_proj.lora_a")));
    assert!(params.contains_key(&key("layers.3.cross_attn.v_proj.lora_b")));
    // Layer 0 has no cross-attention.
    assert!(!params.contains_key(&key("layers.0.cross_attn.q_proj.lora_a")));
    // 4 layers x 7 projections and 2 layers x 4 projections, 2 matrices each.
    assert_eq!(params.len(), 2 * (4 * 7 + 2 * 4));
}

#[test]
fn test_mllama_lora_dora() {
    let model = MllamaLoraForCausalLM::new(small_config(), dora_config()).unwrap();
    assert!(model.num_trainable_params() > 0);
}

#[test]
fn mllama_dora_trains_magnitudes_too() {
    let mut model = MllamaLoraForCausalLM::new(small_config(), dora_config()).unwrap();
    assert_eq!(model.forward(&ids(1, 4), None).unwrap().shape(), vec![1, 4, 512]);
    let layers = model.parameters_mut();
    assert_eq!(layers.len(), 4);
    assert_eq!(layers[0].adapters.len(), 7);
    assert_eq!(layers[1].adapters.len(), 11);
    assert_eq!(layers[0].adapters[0].entries.len(), 3);
    assert_eq!(layers[0].adapters[0].entries[2].half, Half::Magnitude);
    assert_eq!(layers[0].adapters[0].entries[2].value.shape(), vec![64]);
    assert_eq!(layers[0].adapters[6].entries.len(), 2);
}

#[test]
fn mllama_cross_attention_is_counted_and_comes_back() {
    let model = model();
    assert_eq!(model.num_trainable_params(), model.num_parameters());
    assert_eq!(model.num_trainable_params(), model.model.num_trainable_params());
    let saved = model.lora_parameters();
    assert_eq!(elements(&saved), model.num_trainable_params());
    assert!(saved.contains_key(&key("layers.1.cross_attn.q_proj.lora_a")));
    let mut params: NameMap<Array> = NameMap::new();
    params.insert(key("layers.1.cross_attn.q_proj.lora_a"), Array::held(3, Shape::D2(9, 64)));
    let mut other = MllamaLoraForCausalLM::new(small_config(), small_lora_config()).unwrap();
    other.set_lora_parameters(&params);
    let all = other.lora_parameters();
    assert_eq!(
        all.get(&key("layers.1.cross_attn.q_proj.lora_a")).unwrap().shape(),
        vec![9, 64]
    );
    other.set_lora_parameters(&saved);
    let back = other.lora_parameters();
    assert_eq!(back.len(), saved.len());
    assert_eq!(
        back.get(&key("layers.1.cross_attn.q_proj.lora_a")).unwrap().shape(),
        vec![4, 64]
    );
}

#[test]
fn mllama_writing_one_leaf_changes_one_name() {
    let mut model = model();
    let before = model.lora_parameters();
    {
        let mut layers = model.parameters_mut();
        *layers[1].adapters[7].entries[1].value = Array::held(5, Shape::D2(2, 3));
    }
    let after = model.lora_parameters();
    assert_eq!(after.len(), before.len());
    for k in before.keys() {
        let same = format!("{:?}", before.get(&k)) == format!("{:?}", after.get(&k));
        assert_eq!(same, k != "layers.1.cross_attn.q_proj.lora_b");
    }
}

#[test]
fn mllama_leaves_out_images_that_are_not_projected() {
    let model = model();
    let raw = Array::held(2, Shape::D4(1, 3, 28, 28));
    let logits = model.forward_with_images(&ids(1, 4), None, Some(&raw)).unwrap();
    assert_eq!(logits.shape(), vec![1, 4, 512]);
    let projected = Array::held(2, Shape::D3(1, 16, 64));
    let logits = model.forward_with_images(&ids(1, 4), None, Some(&projected)).unwrap();
    assert_eq!(logits.shape(), vec![1, 4, 512]);
    assert!(model.is_multimodal());
}

#[test]
fn mllama_positions_and_cache() {
    let model = model();
    let positions = Array::held(4, Shape::D2(1, 4));
    let logits = model.forward_with_positions(&ids(1, 4), None, &positions).unwrap();
    assert_eq!(logits.shape(), vec![1, 4, 512]);
    let mut cache = model.create_cache(64);
    model.forward_with_cache(&ids(1, 4), None, None, Some(&mut cache)).unwrap();
    assert_eq!(cache.rope_offset(), 4);
    let hidden = model.forward_hidden_states(&ids(1, 4), None).unwrap();
    assert_eq!(hidden.shape(), vec![1, 4, 64]);
}

#[test]
fn mllama_merges_cross_attention_too() {
    let mut model = model();
    model.merge_lora().unwrap();
    assert!(model.unmerge_lora().is_err());
    let features = Array::held(2, Shape::D3(1, 16, 64));
    let logits = model.forward_multimodal(&ids(1, 4), None, Some(&features)).unwrap();
    assert_eq!(logits.shape(), vec![1, 4, 512]);
}

#[test]
fn mllama_loads_frozen_weights_by_name() {
    let mut model = model();
    let mut weights: NameMap<Array> = NameMap::new();
    weights.insert(
        key("language_model.model.layers.1.cross_attn.q_proj.weight"),
        Array::held(5, Shape::D2(11, 64)),
    );
    weights.insert(key("language_model.lm_head.weight"), Array::held(6, Shape::D2(12, 64)));
    model.load_base_weights(&weights).unwrap();
    let ca = model.model.layers[1].cross_attn.as_ref().unwrap();
    assert_eq!(ca.q_proj.weight().shape(), vec![11, 64]);
    assert_eq!(model.lm_head.as_ref().unwrap().weight.shape(), vec![12, 64]);
}
