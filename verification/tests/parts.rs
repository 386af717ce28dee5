use pmetal_lora::array::Array;
use pmetal_lora::config::{LoraConfig, TargetModules, effective_rank};
use pmetal_lora::error::LoraError;
use pmetal_lora::kv_cache::{KVCache, KVCacheConfig, MambaCache};
use pmetal_lora::lora::LoraLinear;
use pmetal_lora::name_map::NameMap;
use pmetal_lora::names::{Half, NameStyle, Proj, Section, make_lora_name, to_decimal};
use pmetal_lora::params::{Place, make_tree_path};
use pmetal_lora::scalar::F32;
use pmetal_lora::shape::Shape;
use pmetal_lora::weights::{WeightFiles, adapter_file, add_shard, find_qwen3_next_weight_files, find_weight_files, shard_files};

#[test]
fn names_of_matrices() {
    assert_eq!(
        make_lora_name(NameStyle::Plain, 10, Section::SelfAttn, Proj::Q, Half::A),
        "layers.10.self_attn.q_proj.lora_a"
    );
    assert_eq!(
        make_lora_name(NameStyle::Plain, 0, Section::Mlp, Proj::Router, Half::B),
        "layers.0.mlp.gate.lora_b"
    );
    assert_eq!(to_decimal(0), "0");
    assert_eq!(to_decimal(10203), "10203");
}

#[test]
fn paths_in_the_tree() {
    let place = Place { section: Section::MlpSharedExpert, proj: Proj::Up };
    assert_eq!(
        make_tree_path(7, place, Half::A),
        vec!["layers.7", "mlp", "shared_expert", "up_proj", "lora_a"]
    );
}

#[test]
fn ranks_of_listed_projections() {
    let config = LoraConfig {
        target_modules: TargetModules::from_names(&vec![String::from("q_proj")]),
        ..Default::default()
    };
    assert_eq!(effective_rank(&config, Proj::Q), 16);
    assert_eq!(effective_rank(&config, Proj::V), 0);
}

#[test]
fn a_map_keeps_the_last_value() {
    let mut m: NameMap<u64> = NameMap::new();
    assert!(m.is_empty());
    m.insert(String::from("b"), 1);
    m.insert(String::from("a"), 2);
    m.insert(String::from("b"), 3);
    assert_eq!(m.len(), 2);
    assert_eq!(m.get(&String::from("b")), Some(&3));
    assert_eq!(m.get(&String::from("c")), None);
}

#[test]
fn shards_are_listed_once_and_joined() {
    let index = vec![
        (String::from("x"), String::from("one")),
        (String::from("y"), String::from("two")),
        (String::from("z"), String::from("one")),
    ];
    let mut files = shard_files(&index);
    files.sort();
    assert_eq!(files, vec!["one", "two"]);
    let mut all: NameMap<Array> = NameMap::new();
    let mut shard: NameMap<Array> = NameMap::new();
    all.insert(String::from("x"), Array::held(1, Shape::D1(1)));
    shard.insert(String::from("x"), Array::held(2, Shape::D1(2)));
    shard.insert(String::from("y"), Array::held(3, Shape::D1(3)));
    add_shard(&mut all, &shard);
    assert_eq!(all.len(), 2);
    assert_eq!(all.get(&String::from("x")).unwrap().shape(), vec![2]);
}

#[test]
fn one_file_goes_before_an_index() {
    assert!(matches!(find_weight_files(true, true), Ok(WeightFiles::Single)));
    assert!(matches!(find_weight_files(false, true), Ok(WeightFiles::Sharded)));
    match find_weight_files(false, false) {
        Err(LoraError::Mlx(e)) => assert_eq!(
            e.what,
            "No model.safetensors or model.safetensors.index.json found"
        ),
        _ => panic!("weights were found"),
    }
    assert!(matches!(find_qwen3_next_weight_files(true, false), Ok(WeightFiles::Single)));
    match find_qwen3_next_weight_files(false, false) {
        Err(LoraError::Mlx(e)) => assert_eq!(
            e.what,
            "No model.safetensors or model.safetensors.index.json found in model directory"
        ),
        _ => panic!("weights were found"),
    }
    assert_eq!(adapter_file(true), Some(String::from("lora_weights.safetensors")));
    assert_eq!(adapter_file(false), None);
}

#[test]
fn a_cache_refuses_what_does_not_fit() {
    let mut cache = KVCache::new(KVCacheConfig::new(1, 16, 2, 8));
    let k = Array::held(1, Shape::D4(1, 2, 3, 8));
    let (keys, _) = cache.update_and_fetch(0, &k, &k).unwrap();
    assert_eq!(keys.shape(), vec![1, 2, 3, 8]);
    let other = Array::held(1, Shape::D4(1, 3, 1, 8));
    assert!(cache.update_and_fetch(0, &other, &other).is_err());
    assert!(cache.update_and_fetch(1, &k, &k).is_err());
    assert_eq!(cache.rope_offset(), 3);
    let mut states = MambaCache::new(2);
    assert!(states.get_mut(2).is_none());
}

#[test]
fn a_merge_is_undone_by_the_weight() {
    let alpha = F32 { bits: 8.0f32.to_bits() };
    let mut l = LoraLinear::new(8, 6, 2, alpha, false, false).unwrap();
    assert_eq!(l.num_trainable_params(), 2 * 8 + 6 * 2);
    let x = Array::held(1, Shape::D3(1, 2, 8));
    assert_eq!(l.forward(&x).unwrap().shape(), vec![1, 2, 6]);
    l.merge().unwrap();
    assert!(l.merged);
    l.merge().unwrap();
    assert_eq!(l.forward(&x).unwrap().shape(), vec![1, 2, 6]);
    let narrow = Array::held(1, Shape::D3(1, 2, 7));
    assert!(l.forward(&narrow).is_err());
}

#[test]
fn refused_operands_say_so() {
    let a = Array::held(1, Shape::D2(2, 3));
    let b = Array::held(2, Shape::D2(4, 3));
    assert!(!a.add(&b).fits);
    assert!(a.matmul(&b.t()).fits);
    assert_eq!(a.matmul(&b.t()).shape(), vec![2, 4]);
    assert!(!a.matmul(&b).fits);
    assert!(!a.reshape(Shape::D2(3, 3)).fits);
    assert!(a.reshape(Shape::D3(1, 3, 2)).fits);
    assert!(a.fits && a.add(&a).fits);
}
