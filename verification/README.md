# pmetal_lora

Low-rank adapters for language models, with the rules of the library verified by Verus. Rules that
compute with floating-point numbers, such as the rounding of a multiplied rank, stand in `app/`.

The library builds computations over lazily evaluated arrays: an `Array` is a node with a shape, and
a model's forward pass is a node that a tensor runtime evaluates later. What the library decides is
proved: which operation meets which operand, which shapes fit, which matrix has which name, what
loading, merging and caching change and what they leave alone, and how many elements and bytes
there are. Floating-point settings travel as bits and as formulas.

- `array`, `shape`, `scalar`, `kernels`: arrays, their shapes and their operations.
- `lora`, `dora`, `qlora`, `qblora`, `quantization`: linear layers with adapters.
- `params`, `names`, `name_map`, `weights`, `merging`, `evaluation`, `memory`: what models have in
  common.
- `nn`, `attention`, `kv_cache`, `mamba`, `moe`, `qwen3_moe`: frozen parts and caches.
- `mistral_lora`, `qwen3_lora`, `phi_lora`, `phi_qlora`, `mllama_lora`, `nemotron_h_lora`,
  `nemotron_h_qlora`, `qwen3_moe_lora`, `qwen3_moe_qlora`, `qwen3_next_lora`: the models.
- `shapes` and the modules that end in `_laws`: what holds of all of them, such as that token
  indices `[b, l]` give logits `[b, l, vocab]`.

`app/` evaluates arrays with MLX and reads and writes files.
