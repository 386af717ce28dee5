use pmetal_lora::array::Array;
use pmetal_lora::config::{LoraConfig, TargetModules};
use pmetal_lora::qlora::QLoraConfig;
use pmetal_lora::qwen3_moe::{Qwen3MoE, Qwen3MoEConfig, Qwen3MoEFeedForward};
use pmetal_lora::qwen3_moe_lora::{Qwen3MoELoraFeedForward, Qwen3MoELoraForCausalLM};
use pmetal_lora::qwen3_moe_qlora::{Qwen3MoEQLoraFeedForward, Qwen3MoEQLoraForCausalLM};
use pmetal_lora::scalar::F32;
use pmetal_lora::shape::Shape;

fn f32_of(x: f32) -> F32 {
    F32 { bits: x.to_bits() }
}

fn tiny_config() -> Qwen3MoEConfig {
    Qwen3MoEConfig {
        vocab_size: 128,
        hidden_size: 32,
        intermediate_size: 64,
        moe_intermediate_size: Some(16),
        num_hidden_layers: 2,
        num_attention_heads: 4,
        num_key_value_heads: Some(2),
        head_dim: 8,
        num_experts: 4,
        num_experts_per_tok: 2,
        decoder_sparse_step: 1,
        mlp_only_layers: vec![],
        norm_topk_prob: true,
        rms_norm_eps: f32_of(1e-6),
        effective_base: f32_of(1_000_000.0),
        rope_scale: f32_of(1.0),
        tie_word_embeddings: false,
    }
}

fn ids(batch: i32, length: i32) -> Array {
    Array::held(1, Shape::D2(batch, length))
}

fn lora_config() -> LoraConfig {
    LoraConfig { r: 4, alpha: f32_of(8.0), ..Default::default() }
}

#[test]
fn qwen3_moe_lora_builds_router_params() {
    let model = Qwen3MoELoraForCausalLM::new(tiny_config(), lora_config()).unwrap();
    assert!(model.num_trainable_params() > 0);
    assert!(
        model
            .lora_parameters()
            .keys()
            .iter()
            .any(|k| k.contains("layers.0.mlp.gate.lora_a"))
    );
}

#[test]
fn qwen3_moe_eval_all_materializes_stacked_experts() {
    let mut model = Qwen3MoELoraForCausalLM::new(tiny_config(), lora_config()).unwrap();
    let arrays = model.eval_all();
    let block = match &model.model.layers[0].ffn {
        Qwen3MoELoraFeedForward::MoE(block) => block,
        _ => panic!("expected MoE layer"),
    };
    assert!(block.stacked_gate_proj.is_some());
    assert!(block.stacked_up_proj.is_some());
    assert!(block.stacked_down_proj.is_some());
    assert_eq!(block.stacked_gate_proj.as_ref().unwrap().shape(), vec![4, 32, 16]);
    assert_eq!(block.stacked_down_proj.as_ref().unwrap().shape(), vec![4, 16, 32]);
    // The embeddings, the norm and the head; per layer 16 arrays of norms and attention, three
    // stacks and three of the router.
    assert_eq!(arrays.len(), 3 + 2 * (16 + 3 + 3));
}

#[test]
fn qwen3_moe_qlora_builds() {
    let model =
        Qwen3MoEQLoraForCausalLM::with_qlora_config(tiny_config(), QLoraConfig::default()).unwrap();
    assert!(model.num_trainable_params() > 0);
}

#[test]
fn qwen3_moe_forward_and_cache() {
    let mut model = Qwen3MoELoraForCausalLM::new(tiny_config(), lora_config()).unwrap();
    assert_eq!(model.forward(&ids(2, 3), None).unwrap().shape(), vec![2, 3, 128]);
    let mut cache = model.create_cache(32);
    model.forward_with_cache(&ids(1, 4), None, Some(&mut cache)).unwrap();
    model.forward_with_cache(&ids(1, 1), None, Some(&mut cache)).unwrap();
    assert_eq!(cache.rope_offset(), 5);
    assert!(!model.supports_gradient_checkpointing());
    let mut quantized =
        Qwen3MoEQLoraForCausalLM::with_qlora_config(tiny_config(), QLoraConfig::default()).unwrap();
    assert_eq!(quantized.forward(&ids(2, 3), None).unwrap().shape(), vec![2, 3, 128]);
    let (small, full) = quantized.memory_savings();
    assert!(small < full);
}

#[test]
fn qwen3_moe_sparse_layers() {
    let mut config = tiny_config();
    config.num_hidden_layers = 4;
    config.decoder_sparse_step = 2;
    config.mlp_only_layers = vec![3];
    assert!(!config.is_sparse(0));
    assert!(config.is_sparse(1));
    assert!(!config.is_sparse(2));
    assert!(!config.is_sparse(3));
    let mut model = Qwen3MoELoraForCausalLM::new(config, lora_config()).unwrap();
    assert!(matches!(model.model.layers[0].ffn, Qwen3MoELoraFeedForward::Dense(_)));
    assert!(matches!(model.model.layers[1].ffn, Qwen3MoELoraFeedForward::MoE(_)));
    // Three dense layers with seven adapters, a sparse one with five.
    assert_eq!(model.lora_parameters().len(), 2 * (3 * 7 + 5));
    assert_eq!(model.forward(&ids(1, 4), None).unwrap().shape(), vec![1, 4, 128]);
    model.merge_lora().unwrap();
    assert_eq!(model.forward(&ids(1, 4), None).unwrap().shape(), vec![1, 4, 128]);
}

#[test]
fn qwen3_moe_stacks_follow_the_weights() {
    let mut model = Qwen3MoELoraForCausalLM::new(tiny_config(), lora_config()).unwrap();
    model.forward(&ids(1, 2), None).unwrap();
    match &mut model.model.layers[0].ffn {
        Qwen3MoELoraFeedForward::MoE(b) => {
            for e in &mut b.experts {
                e.w1.weight = Array::held(7, Shape::D2(24, 32));
                e.w3.weight = Array::held(8, Shape::D2(24, 32));
                e.w2.weight = Array::held(9, Shape::D2(32, 24));
            }
            b.ensure_stacked_moe();
            assert_eq!(b.stacked_gate_proj.as_ref().unwrap().shape(), vec![4, 32, 24]);
        },
        _ => panic!("expected MoE layer"),
    }
    assert_eq!(model.forward(&ids(1, 2), None).unwrap().shape(), vec![1, 2, 128]);
}

#[test]
fn qwen3_moe_takes_a_loaded_base() {
    let mut base = Qwen3MoE::new(tiny_config()).unwrap();
    base.model.layers[0].self_attn.q_proj.weight = Array::held(3, Shape::D2(32, 32));
    let mut model = Qwen3MoELoraForCausalLM::new(tiny_config(), lora_config()).unwrap();
    model.load_base(base).unwrap();
    match &model.model.layers[1].ffn {
        Qwen3MoELoraFeedForward::MoE(b) => assert!(b.stacked_gate_proj.is_some()),
        _ => panic!("expected MoE layer"),
    }
    let mut bad = Qwen3MoE::new(tiny_config()).unwrap();
    bad.model.layers[0].self_attn.q_proj.weight = Array::held(3, Shape::D1(32));
    assert!(model.load_base(bad).is_err());
    let mut quantized =
        Qwen3MoEQLoraForCausalLM::with_qlora_config(tiny_config(), QLoraConfig::default()).unwrap();
    let base = Qwen3MoE::new(tiny_config()).unwrap();
    assert!(matches!(base.model.layers[0].ffn, Qwen3MoEFeedForward::MoE(_)));
    quantized.load_and_quantize(base).unwrap();
    assert!(matches!(quantized.model.layers[0].ffn, Qwen3MoEQLoraFeedForward::MoE(_)));
}

#[test]
fn qwen3_moe_router_gets_an_adapter_where_listed() {
    let lora = LoraConfig {
        target_modules: TargetModules::from_names(&vec![String::from("gate")]),
        ..lora_config()
    };
    let model = Qwen3MoELoraForCausalLM::new(tiny_config(), lora).unwrap();
    // Rank four on routers from 32 to 4, rank zero elsewhere.
    assert_eq!(model.num_trainable_params(), 2 * 4 * (32 + 4));
}
