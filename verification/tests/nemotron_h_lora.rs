use pmetal_lora::array::{Array, MambaConfig};
use pmetal_lora::config::{LoraConfig, TargetModules};
use pmetal_lora::nemotron_h_lora::{NemotronHConfig, NemotronHDims, NemotronHLoraForCausalLM, NemotronHLoraMixer};
use pmetal_lora::kv_cache::{KVCache, KVCacheConfig, MambaCache};
use pmetal_lora::name_map::NameMap;
use pmetal_lora::scalar::F32;
use pmetal_lora::shape::Shape;

fn f32_of(x: f32) -> F32 {
    F32 { bits: x.to_bits() }
}

fn ids(batch: i32, length: i32) -> Array {
    Array::held(1, Shape::D2(batch, length))
}

fn key(name: &str) -> String {
    String::from(name)
}

fn tiny_config() -> NemotronHConfig {
    NemotronHConfig {
        dims: NemotronHDims {
            vocab_size: 64,
            hidden_size: 32,
            intermediate_size: 64,
            num_attention_heads: 2,
            num_key_value_heads: 1,
            head_dim: Some(16),
            mamba: MambaConfig {
                num_heads: 4,
                head_dim: 8,
                state_size: 8,
                conv_kernel: 4,
                n_groups: 1,
                time_step_min: f32_of(0.001),
                time_step_max: f32_of(0.1),
                eps: f32_of(1e-5),
            },
            mamba_proj_bias: false,
            use_conv_bias: true,
            mlp_bias: false,
            layer_norm_epsilon: f32_of(1e-5),
            rope_theta: f32_of(10000.0),
            tie_word_embeddings: true,
            n_routed_experts: None,
            num_experts_per_tok: None,
            n_group: None,
            topk_group: None,
            norm_topk_prob: None,
            moe_intermediate_size: None,
            moe_shared_expert_intermediate_size: None,
            n_shared_experts: None,
            routed_scaling_factor: None,
        },
        // A state-space mixer, attention, an MLP.
        layer_types: vec!['M', '*', '-'],
    }
}

fn tiny_lora_config() -> LoraConfig {
    LoraConfig {
        r: 4,
        alpha: f32_of(8.0),
        use_rslora: false,
        target_modules: TargetModules::from_names(&vec![
            String::from("q_proj"),
            String::from("k_proj"),
            String::from("v_proj"),
            String::from("o_proj"),
            String::from("up_proj"),
            String::from("down_proj"),
        ]),
        use_dora: false,
    }
}

fn elements(params: &NameMap<Array>) -> usize {
    params
        .keys()
        .iter()
        .map(|k| params.get(k).unwrap().shape().iter().map(|d| *d as usize).product::<usize>())
        .sum()
}

fn model() -> NemotronHLoraForCausalLM {
    NemotronHLoraForCausalLM::new(tiny_config(), tiny_lora_config()).unwrap()
}

#[test]
fn nemotron_h_lora_test_layer_type_dispatch() {
    let model = model();
    assert!(matches!(model.model.layers[0].mixer, NemotronHLoraMixer::Mamba(_)));
    assert!(matches!(model.model.layers[1].mixer, NemotronHLoraMixer::Attention(_)));
    assert!(matches!(model.model.layers[2].mixer, NemotronHLoraMixer::Mlp(_)));
}

#[test]
fn nemotron_h_lora_test_mamba_layers_have_no_lora_params() {
    let params = model().lora_parameters();
    let keys = params.keys();
    let mamba_keys: Vec<&String> = keys.iter().filter(|k| k.starts_with("layers.0.")).collect();
    assert!(mamba_keys.is_empty());
    assert_eq!(keys.len(), 12);
}

#[test]
fn nemotron_h_lora_test_attention_lora_param_keys() {
    let params = model().lora_parameters();
    for proj in ["q_proj", "k_proj", "v_proj", "o_proj"] {
        for ab in ["lora_a", "lora_b"] {
            assert!(params.contains_key(&format!("layers.1.mixer.{}.{}", proj, ab)));
        }
    }
}

#[test]
fn nemotron_h_lora_test_mlp_lora_param_keys() {
    let params = model().lora_parameters();
    for proj in ["up_proj", "down_proj"] {
        for ab in ["lora_a", "lora_b"] {
            assert!(params.contains_key(&format!("layers.2.mixer.{}.{}", proj, ab)));
        }
    }
    assert!(!params.contains_key(&key("layers.2.mixer.gate_proj.lora_a")));
}

#[test]
fn nemotron_h_lora_test_lora_param_roundtrip() {
    let mut model = model();
    let original = model.lora_parameters();
    model.set_lora_parameters(&original);
    let restored = model.lora_parameters();
    assert_eq!(original.len(), restored.len());
}

#[test]
fn nemotron_h_lora_test_supports_kv_cache_is_false() {
    assert!(!model().supports_kv_cache());
}

#[test]
fn test_nemotron_h_lora_construction() {
    let model = NemotronHLoraForCausalLM::new(tiny_config(), tiny_lora_config());
    assert!(model.is_ok());
    assert!(model.unwrap().num_trainable_params() > 0);
}

#[test]
fn test_nemotron_h_lora_forward() {
    let logits = model().forward(&ids(1, 4), None).unwrap();
    assert_eq!(logits.shape(), vec![1, 4, 64]);
}

#[test]
fn nemotron_h_lora_steps_over_caches() {
    let model = model();
    let mut kv = KVCache::new(KVCacheConfig::new(3, 64, 1, 16));
    let mut states = MambaCache::new(3);
    let logits = model
        .forward_with_cache(&ids(1, 4), None, Some(&mut kv), Some(&mut states))
        .unwrap();
    assert_eq!(logits.shape(), vec![1, 4, 64]);
    let entry = states.get_mut(0).unwrap();
    assert_eq!(entry.conv_state.as_ref().unwrap().shape(), vec![1, 3, 48]);
    assert_eq!(entry.ssm_state.as_ref().unwrap().shape(), vec![1, 4, 8, 8]);
    assert!(states.get_mut(1).unwrap().conv_state.is_none());
    let next = model
        .forward_with_cache(&ids(1, 1), None, Some(&mut kv), Some(&mut states))
        .unwrap();
    assert_eq!(next.shape(), vec![1, 1, 64]);
}

#[test]
fn nemotron_h_lora_experts() {
    let mut config = tiny_config();
    config.layer_types = vec!['E', '?'];
    config.dims.n_shared_experts = Some(1);
    let model = NemotronHLoraForCausalLM::new(config, tiny_lora_config()).unwrap();
    assert!(matches!(model.model.layers[0].mixer, NemotronHLoraMixer::MoE(_)));
    // An unknown kind counts as attention.
    assert!(matches!(model.model.layers[1].mixer, NemotronHLoraMixer::Attention(_)));
    let params = model.lora_parameters();
    assert!(params.contains_key(&key("layers.0.mixer.shared_expert.up_proj.lora_a")));
    assert_eq!(params.len(), 2 * (2 + 4));
    assert_eq!(model.forward(&ids(2, 3), None).unwrap().shape(), vec![2, 3, 64]);
}

#[test]
fn nemotron_h_lora_loads_by_name() {
    let mut model = model();
    let mut weights: NameMap<Array> = NameMap::new();
    weights.insert(
        key("backbone.layers.1.mixer.q_proj.weight"),
        Array::held(3, Shape::D2(7, 32)),
    );
    weights.insert(key("backbone.layers.0.norm.weight"), Array::held(3, Shape::D1(5)));
    model.load_base_weights(&weights).unwrap();
    match &model.model.layers[1].mixer {
        NemotronHLoraMixer::Attention(a) => assert_eq!(a.q_proj.weight.shape(), vec![7, 32]),
        _ => panic!("no attention"),
    }
    assert_eq!(model.model.layers[0].norm.weight.shape(), vec![5]);
}

#[test]
fn nemotron_h_lora_loads_blocks_of_unknown_kind() {
    let mut config = tiny_config();
    config.layer_types = vec!['X', 'M'];
    let mut model = NemotronHLoraForCausalLM::new(config, tiny_lora_config()).unwrap();
    let mut weights: NameMap<Array> = NameMap::new();
    weights.insert(
        key("backbone.layers.0.mixer.q_proj.weight"),
        Array::held(3, Shape::D2(7, 32)),
    );
    model.load_base_weights(&weights).unwrap();
    match &model.model.layers[0].mixer {
        NemotronHLoraMixer::Attention(a) => assert_eq!(a.q_proj.weight.shape(), vec![7, 32]),
        _ => panic!("no attention"),
    }
}

#[test]
fn nemotron_h_lora_shapes_sum_to_the_count() {
    let mut config = tiny_config();
    config.layer_types = vec!['M', '*', '-', 'E'];
    config.dims.n_shared_experts = Some(1);
    let model = NemotronHLoraForCausalLM::new(config, tiny_lora_config()).unwrap();
    let params = model.lora_parameters();
    assert_eq!(elements(&params), model.num_trainable_params());
    let of = |i: usize| {
        params.keys().iter().filter(|k| k.starts_with(&format!("layers.{}.", i))).count()
    };
    assert_eq!((of(0), of(1), of(2), of(3)), (0, 8, 4, 4));
    for k in params.keys() {
        let other = if k.ends_with(".lora_a") {
            k.replace(".lora_a", ".lora_b")
        } else {
            assert!(k.ends_with(".lora_b"));
            k.replace(".lora_b", ".lora_a")
        };
        assert!(params.contains_key(&other));
    }
}

#[test]
fn nemotron_h_lora_writing_one_leaf_changes_one_name() {
    let mut model = model();
    let before = model.lora_parameters();
    {
        let mut layers = model.parameters_mut();
        // The state-space block has no entry; the first is attention.
        assert_eq!(layers.len(), 2);
        assert_eq!(layers[0].layer, 1);
        *layers[0].entries[2].value = Array::held(5, Shape::D2(2, 3));
    }
    let after = model.lora_parameters();
    for k in before.keys() {
        let same = format!("{:?}", before.get(&k)) == format!("{:?}", after.get(&k));
        assert_eq!(same, k != "layers.1.mixer.k_proj.lora_a");
    }
}

#[test]
fn nemotron_h_lora_exchanges_the_inner_axes_of_convolution_weights() {
    let mut model = model();
    let mut weights: NameMap<Array> = NameMap::new();
    let name = "backbone.layers.0.mixer.conv1d.weight";
    weights.insert(key(name), Array::held(3, Shape::D3(48, 1, 4)));
    model.load_base_weights(&weights).unwrap();
    match &model.model.layers[0].mixer {
        NemotronHLoraMixer::Mamba(m) => {
            let w = &m.conv1d.as_ref().unwrap().weight;
            assert_eq!(w.shape(), vec![48, 4, 1]);
            assert!(w.fits);
        },
        _ => panic!("no state-space mixer"),
    }
    weights.insert(key(name), Array::held(3, Shape::D2(48, 4)));
    model.load_base_weights(&weights).unwrap();
    match &model.model.layers[0].mixer {
        NemotronHLoraMixer::Mamba(m) => assert!(!m.conv1d.as_ref().unwrap().weight.fits),
        _ => panic!("no state-space mixer"),
    }
}
