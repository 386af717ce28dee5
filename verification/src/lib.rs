//! Low-rank adapters for language models, over lazily evaluated arrays.
//!
//! A model is a value. Its forward pass builds an [`array::Array`], whose shape is known and whose
//! elements a tensor runtime computes later. Every function states what it returns or changes.

pub mod adapter_laws;
pub mod adapter_name_laws;
pub mod array;
pub mod attention;
pub mod attention_reading;
pub mod balanced_laws;
pub mod cache_laws;
pub mod config;
pub mod count_laws;
pub mod dora;
pub mod error;
pub mod evaluation;
pub mod evaluation_laws;
pub mod kernels;
pub mod kv_cache;
pub mod layer_ids;
pub mod layer_reading;
pub mod listing_laws;
pub mod loaded_name_laws;
pub mod loading_laws;
pub mod lora;
pub mod mamba;
pub mod memory;
pub mod memory_laws;
pub mod merging;
pub mod merging_laws;
pub mod mistral_laws;
pub mod mistral_lora;
pub mod mixed_starting_laws;
pub mod mllama_laws;
pub mod mllama_lora;
pub mod mllama_reading;
pub mod model_name_laws;
pub mod moe;
pub mod moe_reading;
pub mod name_map;
pub mod names;
pub mod naming_laws;
pub mod nemotron_h_lora;
pub mod nemotron_h_lora_laws;
pub mod nemotron_h_qlora;
pub mod nemotron_h_qlora_laws;
pub mod nn;
pub mod params;
pub mod params_laws;
pub mod phi_laws;
pub mod phi_lora;
pub mod phi_qlora;
pub mod phi_qlora_laws;
pub mod phi_reading;
pub mod position_laws;
pub mod qblora;
pub mod qlora;
pub mod quantization;
pub mod qwen3_laws;
pub mod qwen3_lora;
pub mod qwen3_moe;
pub mod qwen3_moe_lora;
pub mod qwen3_moe_lora_laws;
pub mod qwen3_moe_qlora;
pub mod qwen3_moe_qlora_laws;
pub mod qwen3_next_laws;
pub mod qwen3_next_lora;
pub mod qwen3_next_reading;
pub mod reading;
pub mod scalar;
pub mod shape;
pub mod shape_laws;
pub mod shapes;
pub mod starting_laws;
pub mod use_laws;
pub mod weights;
