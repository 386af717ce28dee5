use pmetal_lora::array::Array;
use pmetal_lora::config::LoraConfig;
use pmetal_lora::qblora::{QBLoraConfig, QBLoraLinear};
use pmetal_lora::quantization::QuantScheme;
use pmetal_lora::scalar::{F32, Scale};
use pmetal_lora::shape::Shape;

fn f32_of(x: f32) -> F32 {
    F32 { bits: x.to_bits() }
}

fn times(r: usize, multiplier: f32) -> usize {
    (r as f32 * multiplier).round() as usize
}

fn default_config() -> QBLoraConfig {
    QBLoraConfig {
        lora: LoraConfig { r: 8, alpha: f32_of(16.0), use_rslora: false, ..Default::default() },
        quant_scheme: QuantScheme::NF4,
        block_size: 64,
        double_quant: true,
        input_proj_dim: None,
        output_proj_dim: None,
        rank_multiplier: f32_of(2.0),
        multiplied_rank: times(8, 2.0),
        learnable_projections: true,
        gradient_scale: f32_of(1.0),
    }
}

#[test]
fn test_qblora_creation() {
    let qblora = QBLoraLinear::new(64, 128, &default_config(), false).unwrap();
    assert_eq!(qblora.in_features, 64);
    assert_eq!(qblora.out_features, 128);
    assert_eq!(qblora.rank, 16);
    match qblora.scale {
        Scale::AlphaOverRank { alpha, rank } => {
            assert!((f32::from_bits(alpha.bits) / rank as f32 - 1.0).abs() < 1e-6)
        },
        _ => panic!("unexpected scale"),
    }
}

#[test]
fn test_qblora_forward() {
    let mut qblora = QBLoraLinear::new(32, 64, &default_config(), false).unwrap();
    let x = Array::held(1, Shape::D3(2, 4, 32));
    assert_eq!(qblora.forward(&x).unwrap().shape(), vec![2, 4, 64]);
}

#[test]
fn test_qblora_with_input_proj() {
    let config = default_config().with_input_proj(16);
    let mut qblora = QBLoraLinear::new(64, 128, &config, false).unwrap();
    assert!(qblora.has_input_proj());
    assert!(!qblora.has_output_proj());
    let x = Array::held(1, Shape::D3(2, 4, 64));
    assert_eq!(qblora.forward(&x).unwrap().shape(), vec![2, 4, 128]);
}

#[test]
fn test_qblora_with_output_proj() {
    let config = default_config().with_output_proj(32);
    let mut qblora = QBLoraLinear::new(64, 128, &config, false).unwrap();
    assert!(!qblora.has_input_proj());
    assert!(qblora.has_output_proj());
    let x = Array::held(1, Shape::D3(2, 4, 64));
    assert_eq!(qblora.forward(&x).unwrap().shape(), vec![2, 4, 128]);
}

#[test]
fn test_qblora_with_both_projections() {
    let config = default_config().with_input_proj(16).with_output_proj(32);
    let mut qblora = QBLoraLinear::new(64, 128, &config, false).unwrap();
    assert!(qblora.has_input_proj());
    assert!(qblora.has_output_proj());
    let x = Array::held(1, Shape::D3(2, 4, 64));
    assert_eq!(qblora.forward(&x).unwrap().shape(), vec![2, 4, 128]);
}

#[test]
fn test_qblora_higher_rank() {
    let config = default_config().with_rank_multiplier(f32_of(4.0), times(8, 4.0));
    let qblora = QBLoraLinear::new(64, 128, &config, false).unwrap();
    assert_eq!(qblora.rank, 32);
    let standard = QBLoraLinear::new(64, 128, &default_config(), false).unwrap();
    assert!(qblora.num_trainable_params() > standard.num_trainable_params());
}

#[test]
fn test_qblora_fixed_projections() {
    let config = default_config().with_input_proj(16).with_fixed_projections();
    let qblora = QBLoraLinear::new(64, 128, &config, false).unwrap();
    let (_, _, p_in, p_out) = qblora.trainable_params();
    assert!(p_in.is_none());
    assert!(p_out.is_none());
}

#[test]
fn test_qblora_param_count() {
    let qblora = QBLoraLinear::new(512, 1024, &default_config(), false).unwrap();
    // A (16 * 512) + B (1024 * 16).
    assert_eq!(qblora.num_trainable_params(), 24576);
}

#[test]
fn test_qblora_vs_standard_qlora() {
    assert_eq!(default_config().effective_rank(), 16);
}

#[test]
fn test_effective_rank_computation() {
    let config = QBLoraConfig {
        lora: LoraConfig { r: 8, ..Default::default() },
        rank_multiplier: f32_of(2.5),
        multiplied_rank: times(8, 2.5),
        ..Default::default()
    };
    assert_eq!(config.effective_rank(), 20);
}

#[test]
fn qblora_learnable_projections_count() {
    let config = default_config().with_input_proj(16).with_output_proj(32);
    let qblora = QBLoraLinear::new(64, 128, &config, false).unwrap();
    // A (16 * 16), B (32 * 16), and projections of 64 * 16 and 32 * 128 elements.
    assert_eq!(qblora.num_trainable_params(), 16 * 16 + 32 * 16 + 64 * 16 + 128 * 32);
    let fixed = QBLoraLinear::new(64, 128, &config.with_fixed_projections(), false).unwrap();
    assert_eq!(fixed.num_trainable_params(), 16 * 16 + 32 * 16);
}

#[test]
fn qblora_gradient_scale_is_not_in_the_output() {
    let config = default_config().with_input_proj(16);
    let mut one = QBLoraLinear::new(64, 128, &config, false).unwrap();
    let mut half =
        QBLoraLinear::new(64, 128, &config.with_gradient_scale(f32_of(0.5)), false).unwrap();
    let x = Array::held(1, Shape::D3(2, 4, 64));
    assert_eq!(
        format!("{:?}", one.forward(&x).unwrap()),
        format!("{:?}", half.forward(&x).unwrap())
    );
}

#[test]
fn qblora_uses_the_scheme_of_the_settings() {
    let config = QBLoraConfig { quant_scheme: QuantScheme::Int8, ..default_config() };
    let qblora = QBLoraLinear::new(64, 128, &config, false).unwrap();
    assert_eq!(qblora.quantized_weight.scheme, QuantScheme::Int8);
    // 8192 elements of a byte each, and 128 scales.
    assert_eq!(qblora.memory_usage().0, 8192 + 128 * 4);
    let nf4 = QBLoraLinear::new(64, 128, &default_config(), false).unwrap();
    assert_eq!(nf4.memory_usage().0, 4096 + 128 * 4);
}

#[test]
fn qblora_maps_the_innermost_of_any_axes() {
    let config = default_config().with_input_proj(16).with_output_proj(32);
    let mut qblora = QBLoraLinear::new(64, 128, &config, true).unwrap();
    assert_eq!(qblora.forward(&Array::held(1, Shape::D1(64))).unwrap().shape(), vec![128]);
    assert_eq!(qblora.forward(&Array::held(1, Shape::D2(5, 64))).unwrap().shape(), vec![5, 128]);
}
