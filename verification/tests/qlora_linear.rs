use pmetal_lora::array::{Arithmetic, Array, Function, Node, Source};
use pmetal_lora::config::LoraConfig;
use pmetal_lora::error::LoraError;
use pmetal_lora::qlora::{QLoraConfig, QLoraLinear};
use pmetal_lora::quantization::QuantScheme;
use pmetal_lora::scalar::{F32, Scale};
use pmetal_lora::shape::Shape;

fn f32_of(x: f32) -> F32 {
    F32 { bits: x.to_bits() }
}

fn default_config() -> QLoraConfig {
    QLoraConfig {
        lora: LoraConfig { r: 8, alpha: f32_of(16.0), use_rslora: false, ..Default::default() },
        quant_scheme: QuantScheme::NF4,
        block_size: 64,
        double_quant: true,
        compute_in_half: false,
    }
}

fn number(scale: &Scale) -> f32 {
    match *scale {
        Scale::AlphaOverRank { alpha, rank } => f32::from_bits(alpha.bits) / rank as f32,
        Scale::AlphaOverSqrtRank { alpha, rank } => {
            f32::from_bits(alpha.bits) / (rank as f32).sqrt()
        },
        Scale::InverseSqrt { n } => 1.0 / (n as f32).sqrt(),
        Scale::InverseSqrtSquared { n } => 1.0 / n as f32,
        Scale::Value { value } => f32::from_bits(value.bits),
    }
}

/// The elements of a matrix made of the operations that a linear layer uses. Random and held
/// arrays get some numbers that depend on the place; few bits are taken to give back what they
/// were given.
fn eval(x: &Array) -> Vec<Vec<f32>> {
    let dims = x.shape();
    let (rows, columns) = match dims.len() {
        2 => (dims[0] as usize, dims[1] as usize),
        3 => ((dims[0] * dims[1]) as usize, dims[2] as usize),
        _ => panic!("no matrix"),
    };
    match &*x.node {
        Node::Source(Source::Zeros) => vec![vec![0.0; columns]; rows],
        Node::Source(_) => (0..rows)
            .map(|r| (0..columns).map(|c| ((r * 31 + c * 17) % 13) as f32 / 13.0 - 0.5).collect())
            .collect(),
        Node::Apply(Function::Scaled(s), y) => {
            let k = number(s);
            eval(y).iter().map(|row| row.iter().map(|v| v * k).collect()).collect()
        },
        Node::Apply(Function::ToFloat32, y) => eval(y),
        Node::Dequantize { weight, .. } => eval(weight),
        Node::Transpose(y) => {
            let m = eval(y);
            (0..rows).map(|r| (0..columns).map(|c| m[c][r]).collect()).collect()
        },
        Node::Matmul(a, b) => {
            let (a, b) = (eval(a), eval(b));
            a.iter()
                .map(|row| {
                    (0..columns)
                        .map(|c| row.iter().zip(b.iter()).map(|(p, q)| p * q[c]).sum())
                        .collect()
                })
                .collect()
        },
        Node::Combine(Arithmetic::Add, a, b) => {
            let (a, b) = (eval(a), eval(b));
            a.iter()
                .zip(b.iter())
                .map(|(p, q)| p.iter().zip(q.iter()).map(|(v, w)| v + w).collect())
                .collect()
        },
        _ => panic!("unexpected operation"),
    }
}

fn greatest_difference(a: &Array, b: &Array) -> f32 {
    let (a, b) = (eval(a), eval(b));
    assert_eq!(a.len(), b.len());
    let mut most: f32 = 0.0;
    for (p, q) in a.iter().zip(b.iter()) {
        assert_eq!(p.len(), q.len());
        for (v, w) in p.iter().zip(q.iter()) {
            most = most.max((v - w).abs());
        }
    }
    most
}

#[test]
fn test_qlora_linear_creation() {
    let qlora = QLoraLinear::new(64, 128, &default_config(), false).unwrap();
    assert_eq!(qlora.in_features, 64);
    assert_eq!(qlora.out_features, 128);
    assert_eq!(qlora.rank, 8);
    // alpha / rank = 16 / 8 = 2.
    assert!((number(&qlora.scale) - 2.0).abs() < 1e-6);
}

#[test]
fn test_qlora_forward() {
    let mut qlora = QLoraLinear::new(32, 64, &default_config(), false).unwrap();
    let x = Array::held(1, Shape::D3(2, 4, 32));
    assert_eq!(qlora.forward(&x).unwrap().shape(), vec![2, 4, 64]);
}

#[test]
fn test_qlora_with_bias() {
    let mut qlora = QLoraLinear::new(32, 64, &default_config(), true).unwrap();
    let x = Array::held(1, Shape::D3(2, 4, 32));
    assert_eq!(qlora.forward(&x).unwrap().shape(), vec![2, 4, 64]);
    assert!(qlora.bias.is_some());
}

#[test]
fn test_qlora_zero_lora_contribution() {
    let mut qlora = QLoraLinear::new(32, 64, &default_config(), false).unwrap();
    let x = Array::held(1, Shape::D3(1, 4, 32));
    let output = qlora.forward(&x).unwrap();
    let weight = qlora.dequantize_weight().unwrap();
    let base_output = x.matmul(&weight.t());
    // B is zeros, so the adapter adds nothing.
    assert!(greatest_difference(&output, &base_output) < 1e-5);
    qlora.set_lora_b(Array::held(2, Shape::D2(64, 8)));
    let moved = qlora.forward(&x).unwrap();
    assert!(greatest_difference(&moved, &base_output) > 1e-3);
}

#[test]
fn test_qlora_memory_savings() {
    let qlora = QLoraLinear::new(512, 1024, &default_config(), false).unwrap();
    let (quantized, full) = qlora.memory_savings();
    let savings = quantized as f32 / full as f32;
    assert!(savings < 0.3, "Expected significant memory savings, got {}", savings);
}

#[test]
fn test_qlora_param_count() {
    let qlora = QLoraLinear::new(512, 1024, &default_config(), false).unwrap();
    // A (8 * 512) + B (1024 * 8).
    assert_eq!(qlora.num_trainable_params(), 12288);
    // W (1024 * 512).
    assert_eq!(qlora.num_frozen_params(), 524288);
}

#[test]
fn test_qlora_weight_caching() {
    let mut qlora = QLoraLinear::new(64, 128, &default_config(), false).unwrap();
    assert!(!qlora.is_cache_enabled());
    assert!(!qlora.is_weight_cached());

    qlora.enable_weight_cache();
    assert!(qlora.is_cache_enabled());

    let x = Array::held(1, Shape::D3(1, 4, 64));
    let output1 = qlora.forward(&x).unwrap();
    assert!(qlora.is_weight_cached());

    let output2 = qlora.forward(&x).unwrap();
    assert!(greatest_difference(&output1, &output2) < 1e-10);

    qlora.clear_weight_cache();
    assert!(!qlora.is_weight_cached());
    assert!(qlora.is_cache_enabled());

    qlora.disable_weight_cache(true);
    assert!(!qlora.is_cache_enabled());
}

#[test]
fn test_qlora_warm_cache() {
    let mut qlora = QLoraLinear::new(64, 128, &default_config(), false).unwrap();
    qlora.enable_weight_cache();
    assert!(!qlora.is_weight_cached());
    qlora.warm_cache().unwrap();
    assert!(qlora.is_weight_cached());
}

#[test]
fn qlora_counts_bytes() {
    let qlora = QLoraLinear::new(512, 1024, &default_config(), true).unwrap();
    let (quantized, lora, total) = qlora.memory_usage();
    assert_eq!(quantized, 524288 / 2 + 524288 / 64 * 4);
    assert_eq!(lora, 12288 * 4);
    assert_eq!(total, quantized + lora + 1024 * 4);
}

#[test]
fn qlora_packs_odd_weights() {
    let weight = Array::held(1, Shape::D2(3, 23));
    let qlora = QLoraLinear::from_weight(&weight, None, &default_config()).unwrap();
    // 69 elements: 35 bytes and two scales.
    assert_eq!(qlora.memory_usage().0, 35 + 2 * 4);
}

#[test]
fn qlora_refuses_what_is_no_matrix() {
    let weight = Array::held(1, Shape::D3(2, 3, 4));
    assert!(matches!(
        QLoraLinear::from_weight(&weight, None, &default_config()),
        Err(LoraError::Mlx(_))
    ));
    let config = default_config().with_block_size(0);
    assert!(QLoraLinear::new(8, 8, &config, false).is_err());
}

#[test]
fn qlora_rank_stabilized_scale() {
    let mut config = default_config();
    config.lora.use_rslora = true;
    config.lora.r = 16;
    let qlora = QLoraLinear::new(64, 64, &config, false).unwrap();
    assert!((number(&qlora.scale) - 4.0).abs() < 1e-6);
}

#[test]
fn qlora_merge_moves_the_adapter_into_the_weight() {
    let mut qlora = QLoraLinear::new(32, 64, &default_config(), false).unwrap();
    qlora.set_lora_b(Array::held(2, Shape::D2(64, 8)));
    let x = Array::held(1, Shape::D3(1, 4, 32));
    let before = qlora.forward(&x).unwrap();
    qlora.merge().unwrap();
    let after = qlora.forward(&x).unwrap();
    assert!(greatest_difference(&before, &after) < 1e-3);
}

#[test]
fn qlora_savings_count_the_bias_on_both_sides() {
    let qlora = QLoraLinear::new(512, 1024, &default_config(), true).unwrap();
    let (quantized, lora, total) = qlora.memory_usage();
    assert_eq!(lora, 49152);
    assert_eq!(total, quantized + lora + 4096);
    assert_eq!(qlora.memory_savings(), (total, 4 * qlora.num_frozen_params() + lora));
}

#[test]
fn qlora_counts_weights_beyond_an_extent() {
    let qlora = QLoraLinear::new(32768, 65536, &default_config(), false).unwrap();
    assert_eq!(qlora.num_frozen_params(), 2147483648);
    assert_eq!(qlora.num_trainable_params(), 8 * 32768 + 65536 * 8);
}

#[test]
fn qlora_uses_the_scheme_of_the_settings() {
    let weight = Array::held(1, Shape::D2(64, 64));
    let config = QLoraConfig::default().with_scheme(QuantScheme::Int8);
    let mut int8 = QLoraLinear::from_weight(&weight, None, &config).unwrap();
    assert_eq!(int8.quant_scheme(), QuantScheme::Int8);
    match &*int8.dequantize_weight().unwrap().node {
        Node::Dequantize { scheme, .. } => assert_eq!(*scheme, QuantScheme::Int8),
        _ => panic!("no restored weight"),
    }
    let nf4 = QLoraLinear::from_weight(&weight, None, &QLoraConfig::default()).unwrap();
    assert_eq!(nf4.quant_scheme(), QuantScheme::NF4);
    let fp4 = QLoraLinear::new(64, 64, &config.with_scheme(QuantScheme::FP4), false).unwrap();
    assert_eq!(fp4.quant_scheme(), QuantScheme::FP4);
}

#[test]
fn qlora_merge_keeps_the_scheme() {
    let config = default_config().with_scheme(QuantScheme::Int8);
    let mut qlora = QLoraLinear::new(32, 64, &config, false).unwrap();
    qlora.merge().unwrap();
    assert_eq!(qlora.quant_scheme(), QuantScheme::Int8);
    assert_eq!(qlora.memory_usage().0, 2048 + 2048 / 64 * 4);
}

#[test]
fn qlora_counts_bytes_by_scheme() {
    let weight = Array::held(1, Shape::D2(3, 23));
    // 69 elements and two scales.
    for (scheme, bytes) in
        [(QuantScheme::NF4, 35 + 8), (QuantScheme::FP4, 35 + 8), (QuantScheme::Int8, 69 + 8)]
    {
        let config = default_config().with_scheme(scheme);
        let qlora = QLoraLinear::from_weight(&weight, None, &config).unwrap();
        assert_eq!(qlora.memory_usage().0, bytes);
    }
}

#[test]
fn qlora_maps_the_innermost_of_any_axes() {
    let mut qlora = QLoraLinear::new(32, 64, &default_config(), true).unwrap();
    for (shape, out) in [
        (Shape::D1(32), vec![64]),
        (Shape::D2(5, 32), vec![5, 64]),
        (Shape::D4(2, 3, 5, 32), vec![2, 3, 5, 64]),
    ] {
        assert_eq!(qlora.forward(&Array::held(1, shape)).unwrap().shape(), out);
    }
    assert!(qlora.forward(&Array::held(1, Shape::D1(31))).is_err());
}
