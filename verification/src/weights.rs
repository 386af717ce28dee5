//! Frozen weights by name, and the files that hold them.

use crate::array::Array;
use crate::attention::given;
use crate::config::{holds, lists};
use crate::dora::LinearAdapter;
use crate::error::{Exception, LoraError};
use crate::lora::LoraLinear;
use crate::name_map::NameMap;
use crate::names::{
    Proj, Section, dotted, join, layer_name, make_layer_name, make_module_name, module_name,
};
use crate::nn::{Embedding, Linear, RmsNorm};
use crate::params::lookup;
use crate::qlora::{QLoraConfig, QLoraLinear};
use crate::quantization::quantizable;
use vstd::prelude::*;
use vstd::string::*;

verus! {

/// `{root}.{rest}.weight`.
pub open spec fn weight_name(root: Seq<char>, rest: Seq<char>) -> Seq<char> {
    dotted(root, dotted(rest, "weight"@))
}

/// `{root}.layers.{layer}.{part}`.
pub open spec fn part_name(root: Seq<char>, layer: nat, part: Seq<char>) -> Seq<char> {
    dotted(root, dotted(layer_name(layer), part))
}

/// `{root}.layers.{layer}.{section}.{proj}.weight`.
pub open spec fn base_name(root: Seq<char>, layer: nat, section: Section, proj: Proj) -> Seq<char> {
    weight_name(root, module_name(layer, section, proj))
}

pub(crate) fn make_part_name(root: &str, layer: usize, part: &str) -> (r: String)
    ensures
        r@ == part_name(root@, layer as nat, part@),
{
    let tail = join(make_layer_name(layer).as_str(), part);
    join(root, tail.as_str())
}

pub(crate) fn make_base_name(root: &str, layer: usize, section: Section, proj: Proj) -> (r: String)
    ensures
        r@ == base_name(root@, layer as nat, section, proj),
{
    let tail = join(make_module_name(layer, section, proj).as_str(), "weight");
    join(root, tail.as_str())
}

/// The layer with the weight of that name, where there is one.
pub open spec fn loaded(
    l: LoraLinear,
    weights: Map<Seq<char>, Array>,
    name: Seq<char>,
) -> LoraLinear {
    if weights.contains_key(name) {
        l.with_weight(weights[name])
    } else {
        l
    }
}

/// The normalization with the weight of that name, where there is one.
pub open spec fn loaded_norm(
    n: RmsNorm,
    weights: Map<Seq<char>, Array>,
    name: Seq<char>,
) -> RmsNorm {
    RmsNorm { weight: lookup(weights, name, n.weight), ..n }
}

/// The table with the weight of that name, where there is one.
pub open spec fn loaded_table(
    e: Embedding,
    weights: Map<Seq<char>, Array>,
    name: Seq<char>,
) -> Embedding {
    Embedding { weight: lookup(weights, name, e.weight) }
}

/// The head, where there is one, with the weight of that name, where there is one.
pub open spec fn loaded_head(
    h: Option<Linear>,
    weights: Map<Seq<char>, Array>,
    name: Seq<char>,
) -> Option<Linear> {
    match h {
        Some(l) => Some(loaded_linear(l, weights, name)),
        None => None,
    }
}

/// The linear layer with the weight of that name, where there is one.
pub open spec fn loaded_linear(
    l: Linear,
    weights: Map<Seq<char>, Array>,
    name: Seq<char>,
) -> Linear {
    Linear { weight: lookup(weights, name, l.weight), ..l }
}

pub(crate) fn load_array(dst: &mut Array, weights: &NameMap<Array>, name: &String)
    ensures
        *final(dst) == lookup(weights@, name@, *old(dst)),
{
    match weights.get(name) {
        Some(w) => {
            *dst = w.clone();
        },
        None => {},
    }
}

pub(crate) fn load_lora(l: &mut LoraLinear, weights: &NameMap<Array>, name: &String)
    ensures
        *final(l) == loaded(*old(l), weights@, name@),
{
    match weights.get(name) {
        Some(w) => {
            l.put_weight(w.clone());
        },
        None => {},
    }
}

/// The layer with the weight of that name, where there is one.
pub open spec fn loaded_adapter(
    l: LinearAdapter,
    weights: Map<Seq<char>, Array>,
    name: Seq<char>,
) -> LinearAdapter {
    if weights.contains_key(name) {
        l.with_weight(weights[name])
    } else {
        l
    }
}

pub(crate) fn load_adapter(l: &mut LinearAdapter, weights: &NameMap<Array>, name: &String)
    ensures
        *final(l) == loaded_adapter(*old(l), weights@, name@),
{
    match weights.get(name) {
        Some(w) => {
            l.put_weight(w.clone());
        },
        None => {},
    }
}

/// The layer with the weight and the bias of those names, where there are such.
pub open spec fn loaded_biased(
    l: LoraLinear,
    weights: Map<Seq<char>, Array>,
    name: Seq<char>,
    bias_name: Seq<char>,
) -> LoraLinear {
    let with_weight = loaded(l, weights, name);
    if weights.contains_key(bias_name) {
        LoraLinear { bias: Some(weights[bias_name]), ..with_weight }
    } else {
        with_weight
    }
}

pub(crate) fn load_biased(
    l: &mut LoraLinear,
    weights: &NameMap<Array>,
    name: &String,
    bias_name: &String,
)
    ensures
        *final(l) == loaded_biased(*old(l), weights@, name@, bias_name@),
{
    load_lora(l, weights, name);
    match weights.get(bias_name) {
        Some(b) => {
            l.bias = Some(b.clone());
        },
        None => {},
    }
}

pub(crate) fn load_norm(n: &mut RmsNorm, weights: &NameMap<Array>, name: &String)
    ensures
        *final(n) == loaded_norm(*old(n), weights@, name@),
{
    load_array(&mut n.weight, weights, name);
}

pub(crate) fn load_table(e: &mut Embedding, weights: &NameMap<Array>, name: &str)
    ensures
        *final(e) == loaded_table(*old(e), weights@, name@),
{
    load_array(&mut e.weight, weights, &String::from_str(name));
}

pub(crate) fn load_linear(l: &mut Linear, weights: &NameMap<Array>, name: &String)
    ensures
        *final(l) == loaded_linear(*old(l), weights@, name@),
{
    load_array(&mut l.weight, weights, name);
}

pub(crate) fn load_head(h: &mut Option<Linear>, weights: &NameMap<Array>, name: &str)
    ensures
        *final(h) == loaded_head(*old(h), weights@, name@),
{
    match h {
        Some(l) => {
            load_array(&mut l.weight, weights, &String::from_str(name));
        },
        None => {},
    }
}

/// The array of that name, where there is one.
pub open spec fn found(weights: Map<Seq<char>, Array>, name: Seq<char>) -> Option<Array> {
    if weights.contains_key(name) {
        Some(weights[name])
    } else {
        None
    }
}

/// The weight of that name, where there is one, can be quantized.
pub open spec fn can_requantize(
    weights: Map<Seq<char>, Array>,
    name: Seq<char>,
    config: QLoraConfig,
) -> bool {
    weights.contains_key(name) ==> quantizable(weights[name], config.nf4())
}

/// A fresh layer on the quantized weight of that name, where there is one.
pub open spec fn requantized(
    l: QLoraLinear,
    weights: Map<Seq<char>, Array>,
    name: Seq<char>,
    bias: Option<Array>,
    config: QLoraConfig,
) -> QLoraLinear {
    if weights.contains_key(name) {
        QLoraLinear::on(weights[name], bias, config)
    } else {
        l
    }
}

pub(crate) fn requantize(
    l: &mut QLoraLinear,
    weights: &NameMap<Array>,
    name: &String,
    bias: Option<&Array>,
    config: &QLoraConfig,
) -> (r: Result<(), LoraError>)
    requires
        config.lora.valid(),
    ensures
        match r {
            Ok(_) => can_requantize(weights@, name@, *config) && *final(l) == requantized(
                *old(l),
                weights@,
                name@,
                given(bias),
                *config,
            ),
            Err(e) => e is Mlx && !can_requantize(weights@, name@, *config) && *final(l) == *old(l),
        },
{
    match weights.get(name) {
        Some(w) => match QLoraLinear::from_weight(w, bias, config) {
            Ok(fresh) => {
                *l = fresh;
                Ok(())
            },
            Err(e) => Err(e),
        },
        None => Ok(()),
    }
}

/// A weight index says that some weight is in the file.
pub open spec fn mentions(weight_map: Seq<(String, String)>, file: Seq<char>) -> bool {
    exists|i: int| 0 <= i < weight_map.len() && (#[trigger] weight_map[i]).1@ == file
}

/// The files that a weight index mentions, each once, in the order of their first mention.
pub fn shard_files(weight_map: &Vec<(String, String)>) -> (r: Vec<String>)
    ensures
        forall|file: Seq<char>| #[trigger] lists(r@, file) <==> mentions(weight_map@, file),
        forall|j: int, k: int|
            0 <= j < k < r@.len() ==> (#[trigger] r@[j])@ != (#[trigger] r@[k])@,
{
    let mut r: Vec<String> = Vec::new();
    let mut i: usize = 0;
    while i < weight_map.len()
        invariant
            i <= weight_map@.len(),
            forall|a: int| 0 <= a < i ==> lists(r@, (#[trigger] weight_map@[a]).1@),
            forall|j: int| 0 <= j < r@.len() ==> mentions(weight_map@, (#[trigger] r@[j])@),
            forall|j: int, k: int|
                0 <= j < k < r@.len() ==> (#[trigger] r@[j])@ != (#[trigger] r@[k])@,
        decreases weight_map.len() - i,
    {
        let ghost before = r@;
        if !holds(&r, weight_map[i].1.as_str()) {
            r.push(weight_map[i].1.clone());
            proof {
                assert(r@[before.len() as int]@ == weight_map@[i as int].1@);
                assert forall|a: int| 0 <= a < i + 1 implies lists(
                    r@,
                    (#[trigger] weight_map@[a]).1@,
                ) by {
                    if lists(before, weight_map@[a].1@) {
                        let k = choose|k: int|
                            0 <= k < before.len() && (#[trigger] before[k])@ == weight_map@[a].1@;
                        assert(r@[k]@ == weight_map@[a].1@);
                    }
                }
            }
        }
        i = i + 1;
    }
    r
}

/// Adds the weights of a file to those of the files before it; of two weights of one name the
/// later one stays.
pub fn add_shard(all: &mut NameMap<Array>, shard: &NameMap<Array>)
    ensures
        final(all)@ == old(all)@.union_prefer_right(shard@),
{
    let keys = shard.keys();
    let ghost before = all@;
    let mut i: usize = 0;
    while i < keys.len()
        invariant
            i <= keys@.len(),
            forall|j: int| 0 <= j < keys@.len() ==> shard@.contains_key(#[trigger] keys@[j]@),
            forall|k: Seq<char>|
                before.contains_key(k) ==> #[trigger] all@.contains_key(k),
            forall|k: Seq<char>| #[trigger]
                all@.contains_key(k) ==> (before.contains_key(k) || shard@.contains_key(k))
                    && (all@[k]
                    == before[k] && before.contains_key(k) || shard@.contains_key(k)
                        && all@[k] == shard@[k]),
            forall|j: int|
                0 <= j < i ==> all@.contains_key((#[trigger] keys@[j])@) && all@[keys@[j]@]
                    == shard@[keys@[j]@],
        decreases keys.len() - i,
    {
        match shard.get(&keys[i]) {
            Some(x) => {
                all.insert(keys[i].clone(), x.clone());
            },
            None => {},
        }
        i = i + 1;
    }
    proof {
        let u = before.union_prefer_right(shard@);
        assert forall|k: Seq<char>| all@.contains_key(k) <==> u.contains_key(k) by {
            if shard@.contains_key(k) {
                let j = choose|j: int| 0 <= j < keys@.len() && #[trigger] keys@[j]@ == k;
                assert(all@.contains_key(keys@[j]@));
            }
        }
        assert forall|k: Seq<char>| u.contains_key(k) implies all@[k] == u[k] by {
            if shard@.contains_key(k) {
                let j = choose|j: int| 0 <= j < keys@.len() && #[trigger] keys@[j]@ == k;
                assert(all@[keys@[j]@] == shard@[keys@[j]@]);
            }
        }
        assert(all@ =~= u);
    }
}

/// How the frozen weights of a model directory are stored.
#[derive(Clone, Copy, PartialEq, Eq, Structural, Debug)]
pub enum WeightFiles {
    /// In `model.safetensors`.
    Single,
    /// In the files that `model.safetensors.index.json` names.
    Sharded,
}

/// The one file, where it is there, else the files of the index; refused where neither is there.
pub open spec fn weight_files_outcome(
    r: Result<WeightFiles, LoraError>,
    single_exists: bool,
    index_exists: bool,
    what: Seq<char>,
) -> bool {
    match r {
        Ok(WeightFiles::Single) => single_exists,
        Ok(WeightFiles::Sharded) => !single_exists && index_exists,
        Err(e) => !single_exists && !index_exists && (e matches LoraError::Mlx(x) && x.what@
            == what),
    }
}

fn choose_weight_files(single_exists: bool, index_exists: bool, what: &str) -> (r: Result<
    WeightFiles,
    LoraError,
>)
    ensures
        weight_files_outcome(r, single_exists, index_exists, what@),
{
    if single_exists {
        Ok(WeightFiles::Single)
    } else if index_exists {
        Ok(WeightFiles::Sharded)
    } else {
        Err(LoraError::Mlx(Exception { what: String::from_str(what) }))
    }
}

/// Where the weights of a model directory are.
pub fn find_weight_files(
    single_exists: bool,
    index_exists: bool,
) -> (r: Result<WeightFiles, LoraError>)
    ensures
        weight_files_outcome(
            r,
            single_exists,
            index_exists,
            "No model.safetensors or model.safetensors.index.json found"@,
        ),
{
    choose_weight_files(
        single_exists,
        index_exists,
        "No model.safetensors or model.safetensors.index.json found",
    )
}

/// Where the weights of a Qwen3-Next model directory are.
pub fn find_qwen3_next_weight_files(
    single_exists: bool,
    index_exists: bool,
) -> (r: Result<WeightFiles, LoraError>)
    ensures
        weight_files_outcome(
            r,
            single_exists,
            index_exists,
            "No model.safetensors or model.safetensors.index.json found in model directory"@,
        ),
{
    choose_weight_files(
        single_exists,
        index_exists,
        "No model.safetensors or model.safetensors.index.json found in model directory",
    )
}

/// The file of adapters below a path: a directory holds one of this name, a file is one itself.
pub fn adapter_file(is_dir: bool) -> (r: Option<String>)
    ensures
        match r {
            Some(name) => is_dir && name@ == "lora_weights.safetensors"@,
            None => !is_dir,
        },
{
    if is_dir {
        Some(String::from_str("lora_weights.safetensors"))
    } else {
        None
    }
}

/// Shards that share no name can be added in any order.
pub proof fn law_shard_order(
    all: Map<Seq<char>, Array>,
    a: Map<Seq<char>, Array>,
    b: Map<Seq<char>, Array>,
)
    requires
        a.dom().disjoint(b.dom()),
    ensures
        all.union_prefer_right(a).union_prefer_right(b) == all.union_prefer_right(
            b,
        ).union_prefer_right(a),
{
    let ab = all.union_prefer_right(a).union_prefer_right(b);
    let ba = all.union_prefer_right(b).union_prefer_right(a);
    assert forall|k: Seq<char>| #[trigger] ab.contains_key(k) implies ba.contains_key(k) && ab[k]
        == ba[k] by {
        assert(!(a.dom().contains(k) && b.dom().contains(k)));
    }
    assert forall|k: Seq<char>| #[trigger] ba.contains_key(k) implies ab.contains_key(k) by {
        assert(!(a.dom().contains(k) && b.dom().contains(k)));
    }
    assert(ab =~= ba);
}

} // verus!
