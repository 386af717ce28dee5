//! Names of weights and of adapters, spelled out.

use crate::array::Array;
use crate::names::{Half, NameStyle, Proj, Section, decimal, dotted, lora_name, module_name};
use crate::weights::{base_name, part_name, weight_name};
use vstd::prelude::*;
use vstd::string::*;

verus! {

/// `{root}{layer}.{tail}`, such as `model.layers.` with a number and `mlp.up_proj.weight` behind
/// it.
pub open spec fn spelled(root: Seq<char>, layer: nat, tail: Seq<char>) -> Seq<char> {
    root + decimal(layer) + "."@ + tail
}

/// What the map holds under the name; the other array where it holds nothing there.
pub open spec fn held_under(m: Map<Seq<char>, Array>, name: Seq<char>, other: Array) -> Array {
    if m.contains_key(name) {
        m[name]
    } else {
        other
    }
}

pub proof fn lemma_roots()
    ensures
        "model"@ + ".layers."@ == "model.layers."@,
        "backbone"@ + ".layers."@ == "backbone.layers."@,
        "language_model.model"@ + ".layers."@ == "language_model.model.layers."@,
{
    reveal_strlit("model");
    reveal_strlit("backbone");
    reveal_strlit("language_model.model");
    reveal_strlit(".layers.");
    reveal_strlit("model.layers.");
    reveal_strlit("backbone.layers.");
    reveal_strlit("language_model.model.layers.");
    assert("model"@ + ".layers."@ =~= "model.layers."@);
    assert("backbone"@ + ".layers."@ =~= "backbone.layers."@);
    assert("language_model.model"@ + ".layers."@ =~= "language_model.model.layers."@);
}

proof fn lemma_dots()
    ensures
        "."@ + "layers"@ + "."@ == ".layers."@,
        "layers"@ + "."@ == "layers."@,
{
    reveal_strlit(".");
    reveal_strlit("layers");
    reveal_strlit("layers.");
    reveal_strlit(".layers.");
    assert("."@ + "layers"@ + "."@ =~= ".layers."@);
    assert("layers"@ + "."@ =~= "layers."@);
}

/// A part of a layer is named by the root, the number of the layer and the part.
pub proof fn law_part_name_spelled(root: Seq<char>, layer: nat, part: Seq<char>)
    ensures
        part_name(root, layer, part) == spelled(root + ".layers."@, layer, part),
{
    lemma_dots();
    assert(part_name(root, layer, part) =~= root + ("."@ + "layers"@ + "."@) + decimal(layer)
        + "."@ + part);
}

proof fn lemma_module_spelled(
    root: Seq<char>,
    layer: nat,
    section: Section,
    proj: Proj,
    end: Seq<char>,
)
    ensures
        weight_name(root, module_name(layer, section, proj)) == spelled(
            root + ".layers."@,
            layer,
            section.name() + "."@ + proj.name() + "."@ + "weight"@,
        ),
        dotted(module_name(layer, section, proj), end) == spelled(
            "layers."@,
            layer,
            section.name() + "."@ + proj.name() + "."@ + end,
        ),
        dotted(root, dotted(module_name(layer, section, proj), end)) == spelled(
            root + ".layers."@,
            layer,
            section.name() + "."@ + proj.name() + "."@ + end,
        ),
{
    lemma_dots();
    let s = section.name();
    let p = proj.name();
    let d = decimal(layer);
    assert(weight_name(root, module_name(layer, section, proj)) =~= root + ("."@ + "layers"@
        + "."@) + d + "."@ + (s + "."@ + p + "."@ + "weight"@));
    assert(dotted(module_name(layer, section, proj), end) =~= ("layers"@ + "."@) + d + "."@ + (s
        + "."@ + p + "."@ + end));
    assert(dotted(root, dotted(module_name(layer, section, proj), end)) =~= root + ("."@
        + "layers"@ + "."@) + d + "."@ + (s + "."@ + p + "."@ + end));
}

/// `self_attn.q_proj` of a layer: the frozen weight, and the adapter's matrices in either style.
pub proof fn law_self_attn_q_spelled(root: Seq<char>, layer: nat)
    ensures
        base_name(root, layer, Section::SelfAttn, Proj::Q) == spelled(
            root + ".layers."@,
            layer,
            "self_attn.q_proj.weight"@,
        ),
        lora_name(NameStyle::Plain, layer, Section::SelfAttn, Proj::Q, Half::A) == spelled(
            "layers."@,
            layer,
            "self_attn.q_proj.lora_a"@,
        ),
        lora_name(NameStyle::Plain, layer, Section::SelfAttn, Proj::Q, Half::B) == spelled(
            "layers."@,
            layer,
            "self_attn.q_proj.lora_b"@,
        ),
        lora_name(NameStyle::Prefixed, layer, Section::SelfAttn, Proj::Q, Half::A) == spelled(
            "model.layers."@,
            layer,
            "self_attn.q_proj.lora_A.weight"@,
        ),
        lora_name(NameStyle::Prefixed, layer, Section::SelfAttn, Proj::Q, Half::B) == spelled(
            "model.layers."@,
            layer,
            "self_attn.q_proj.lora_B.weight"@,
        ),
{
    lemma_roots();
    lemma_module_spelled(root, layer, Section::SelfAttn, Proj::Q, "lora_a"@);
    lemma_module_spelled(root, layer, Section::SelfAttn, Proj::Q, "lora_b"@);
    lemma_module_spelled("model"@, layer, Section::SelfAttn, Proj::Q, "lora_A.weight"@);
    lemma_module_spelled("model"@, layer, Section::SelfAttn, Proj::Q, "lora_B.weight"@);
    reveal_strlit(".");
    reveal_strlit("self_attn");
    reveal_strlit("q_proj");
    reveal_strlit("weight");
    reveal_strlit("self_attn.q_proj.weight");
    assert("self_attn"@ + "."@ + "q_proj"@ + "."@ + "weight"@ =~= "self_attn.q_proj.weight"@);
    reveal_strlit("lora_a");
    reveal_strlit("self_attn.q_proj.lora_a");
    assert("self_attn"@ + "."@ + "q_proj"@ + "."@ + "lora_a"@ =~= "self_attn.q_proj.lora_a"@);
    reveal_strlit("lora_b");
    reveal_strlit("self_attn.q_proj.lora_b");
    assert("self_attn"@ + "."@ + "q_proj"@ + "."@ + "lora_b"@ =~= "self_attn.q_proj.lora_b"@);
    reveal_strlit("lora_A.weight");
    reveal_strlit("self_attn.q_proj.lora_A.weight");
    assert(
        "self_attn"@ + "."@ + "q_proj"@ + "."@
            + "lora_A.weight"@ =~= "self_attn.q_proj.lora_A.weight"@
    );
    reveal_strlit("lora_B.weight");
    reveal_strlit("self_attn.q_proj.lora_B.weight");
    assert(
        "self_attn"@ + "."@ + "q_proj"@ + "."@
            + "lora_B.weight"@ =~= "self_attn.q_proj.lora_B.weight"@
    );
}

/// `self_attn.k_proj` of a layer: the frozen weight, and the adapter's matrices in either style.
pub proof fn law_self_attn_k_spelled(root: Seq<char>, layer: nat)
    ensures
        base_name(root, layer, Section::SelfAttn, Proj::K) == spelled(
            root + ".layers."@,
            layer,
            "self_attn.k_proj.weight"@,
        ),
        lora_name(NameStyle::Plain, layer, Section::SelfAttn, Proj::K, Half::A) == spelled(
            "layers."@,
            layer,
            "self_attn.k_proj.lora_a"@,
        ),
        lora_name(NameStyle::Plain, layer, Section::SelfAttn, Proj::K, Half::B) == spelled(
            "layers."@,
            layer,
            "self_attn.k_proj.lora_b"@,
        ),
        lora_name(NameStyle::Prefixed, layer, Section::SelfAttn, Proj::K, Half::A) == spelled(
            "model.layers."@,
            layer,
            "self_attn.k_proj.lora_A.weight"@,
        ),
        lora_name(NameStyle::Prefixed, layer, Section::SelfAttn, Proj::K, Half::B) == spelled(
            "model.layers."@,
            layer,
            "self_attn.k_proj.lora_B.weight"@,
        ),
{
    lemma_roots();
    lemma_module_spelled(root, layer, Section::SelfAttn, Proj::K, "lora_a"@);
    lemma_module_spelled(root, layer, Section::SelfAttn, Proj::K, "lora_b"@);
    lemma_module_spelled("model"@, layer, Section::SelfAttn, Proj::K, "lora_A.weight"@);
    lemma_module_spelled("model"@, layer, Section::SelfAttn, Proj::K, "lora_B.weight"@);
    reveal_strlit(".");
    reveal_strlit("self_attn");
    reveal_strlit("k_proj");
    reveal_strlit("weight");
    reveal_strlit("self_attn.k_proj.weight");
    assert("self_attn"@ + "."@ + "k_proj"@ + "."@ + "weight"@ =~= "self_attn.k_proj.weight"@);
    reveal_strlit("lora_a");
    reveal_strlit("self_attn.k_proj.lora_a");
    assert("self_attn"@ + "."@ + "k_proj"@ + "."@ + "lora_a"@ =~= "self_attn.k_proj.lora_a"@);
    reveal_strlit("lora_b");
    reveal_strlit("self_attn.k_proj.lora_b");
    assert("self_attn"@ + "."@ + "k_proj"@ + "."@ + "lora_b"@ =~= "self_attn.k_proj.lora_b"@);
    reveal_strlit("lora_A.weight");
    reveal_strlit("self_attn.k_proj.lora_A.weight");
    assert(
        "self_attn"@ + "."@ + "k_proj"@ + "."@
            + "lora_A.weight"@ =~= "self_attn.k_proj.lora_A.weight"@
    );
    reveal_strlit("lora_B.weight");
    reveal_strlit("self_attn.k_proj.lora_B.weight");
    assert(
        "self_attn"@ + "."@ + "k_proj"@ + "."@
            + "lora_B.weight"@ =~= "self_attn.k_proj.lora_B.weight"@
    );
}

/// `self_attn.v_proj` of a layer: the frozen weight, and the adapter's matrices in either style.
pub proof fn law_self_attn_v_spelled(root: Seq<char>, layer: nat)
    ensures
        base_name(root, layer, Section::SelfAttn, Proj::V) == spelled(
            root + ".layers."@,
            layer,
            "self_attn.v_proj.weight"@,
        ),
        lora_name(NameStyle::Plain, layer, Section::SelfAttn, Proj::V, Half::A) == spelled(
            "layers."@,
            layer,
            "self_attn.v_proj.lora_a"@,
        ),
        lora_name(NameStyle::Plain, layer, Section::SelfAttn, Proj::V, Half::B) == spelled(
            "layers."@,
            layer,
            "self_attn.v_proj.lora_b"@,
        ),
        lora_name(NameStyle::Prefixed, layer, Section::SelfAttn, Proj::V, Half::A) == spelled(
            "model.layers."@,
            layer,
            "self_attn.v_proj.lora_A.weight"@,
        ),
        lora_name(NameStyle::Prefixed, layer, Section::SelfAttn, Proj::V, Half::B) == spelled(
            "model.layers."@,
            layer,
            "self_attn.v_proj.lora_B.weight"@,
        ),
{
    lemma_roots();
    lemma_module_spelled(root, layer, Section::SelfAttn, Proj::V, "lora_a"@);
    lemma_module_spelled(root, layer, Section::SelfAttn, Proj::V, "lora_b"@);
    lemma_module_spelled("model"@, layer, Section::SelfAttn, Proj::V, "lora_A.weight"@);
    lemma_module_spelled("model"@, layer, Section::SelfAttn, Proj::V, "lora_B.weight"@);
    reveal_strlit(".");
    reveal_strlit("self_attn");
    reveal_strlit("v_proj");
    reveal_strlit("weight");
    reveal_strlit("self_attn.v_proj.weight");
    assert("self_attn"@ + "."@ + "v_proj"@ + "."@ + "weight"@ =~= "self_attn.v_proj.weight"@);
    reveal_strlit("lora_a");
    reveal_strlit("self_attn.v_proj.lora_a");
    assert("self_attn"@ + "."@ + "v_proj"@ + "."@ + "lora_a"@ =~= "self_attn.v_proj.lora_a"@);
    reveal_strlit("lora_b");
    reveal_strlit("self_attn.v_proj.lora_b");
    assert("self_attn"@ + "."@ + "v_proj"@ + "."@ + "lora_b"@ =~= "self_attn.v_proj.lora_b"@);
    reveal_strlit("lora_A.weight");
    reveal_strlit("self_attn.v_proj.lora_A.weight");
    assert(
        "self_attn"@ + "."@ + "v_proj"@ + "."@
            + "lora_A.weight"@ =~= "self_attn.v_proj.lora_A.weight"@
    );
    reveal_strlit("lora_B.weight");
    reveal_strlit("self_attn.v_proj.lora_B.weight");
    assert(
        "self_attn"@ + "."@ + "v_proj"@ + "."@
            + "lora_B.weight"@ =~= "self_attn.v_proj.lora_B.weight"@
    );
}

/// `self_attn.o_proj` of a layer: the frozen weight, and the adapter's matrices in either style.
pub proof fn law_self_attn_o_spelled(root: Seq<char>, layer: nat)
    ensures
        base_name(root, layer, Section::SelfAttn, Proj::O) == spelled(
            root + ".layers."@,
            layer,
            "self_attn.o_proj.weight"@,
        ),
        lora_name(NameStyle::Plain, layer, Section::SelfAttn, Proj::O, Half::A) == spelled(
            "layers."@,
            layer,
            "self_attn.o_proj.lora_a"@,
        ),
        lora_name(NameStyle::Plain, layer, Section::SelfAttn, Proj::O, Half::B) == spelled(
            "layers."@,
            layer,
            "self_attn.o_proj.lora_b"@,
        ),
        lora_name(NameStyle::Prefixed, layer, Section::SelfAttn, Proj::O, Half::A) == spelled(
            "model.layers."@,
            layer,
            "self_attn.o_proj.lora_A.weight"@,
        ),
        lora_name(NameStyle::Prefixed, layer, Section::SelfAttn, Proj::O, Half::B) == spelled(
            "model.layers."@,
            layer,
            "self_attn.o_proj.lora_B.weight"@,
        ),
{
    lemma_roots();
    lemma_module_spelled(root, layer, Section::SelfAttn, Proj::O, "lora_a"@);
    lemma_module_spelled(root, layer, Section::SelfAttn, Proj::O, "lora_b"@);
    lemma_module_spelled("model"@, layer, Section::SelfAttn, Proj::O, "lora_A.weight"@);
    lemma_module_spelled("model"@, layer, Section::SelfAttn, Proj::O, "lora_B.weight"@);
    reveal_strlit(".");
    reveal_strlit("self_attn");
    reveal_strlit("o_proj");
    reveal_strlit("weight");
    reveal_strlit("self_attn.o_proj.weight");
    assert("self_attn"@ + "."@ + "o_proj"@ + "."@ + "weight"@ =~= "self_attn.o_proj.weight"@);
    reveal_strlit("lora_a");
    reveal_strlit("self_attn.o_proj.lora_a");
    assert("self_attn"@ + "."@ + "o_proj"@ + "."@ + "lora_a"@ =~= "self_attn.o_proj.lora_a"@);
    reveal_strlit("lora_b");
    reveal_strlit("self_attn.o_proj.lora_b");
    assert("self_attn"@ + "."@ + "o_proj"@ + "."@ + "lora_b"@ =~= "self_attn.o_proj.lora_b"@);
    reveal_strlit("lora_A.weight");
    reveal_strlit("self_attn.o_proj.lora_A.weight");
    assert(
        "self_attn"@ + "."@ + "o_proj"@ + "."@
            + "lora_A.weight"@ =~= "self_attn.o_proj.lora_A.weight"@
    );
    reveal_strlit("lora_B.weight");
    reveal_strlit("self_attn.o_proj.lora_B.weight");
    assert(
        "self_attn"@ + "."@ + "o_proj"@ + "."@
            + "lora_B.weight"@ =~= "self_attn.o_proj.lora_B.weight"@
    );
}

/// `cross_attn.q_proj` of a layer: the frozen weight, and the adapter's matrices in either style.
pub proof fn law_cross_attn_q_spelled(root: Seq<char>, layer: nat)
    ensures
        base_name(root, layer, Section::CrossAttn, Proj::Q) == spelled(
            root + ".layers."@,
            layer,
            "cross_attn.q_proj.weight"@,
        ),
        lora_name(NameStyle::Plain, layer, Section::CrossAttn, Proj::Q, Half::A) == spelled(
            "layers."@,
            layer,
            "cross_attn.q_proj.lora_a"@,
        ),
        lora_name(NameStyle::Plain, layer, Section::CrossAttn, Proj::Q, Half::B) == spelled(
            "layers."@,
            layer,
            "cross_attn.q_proj.lora_b"@,
        ),
        lora_name(NameStyle::Prefixed, layer, Section::CrossAttn, Proj::Q, Half::A) == spelled(
            "model.layers."@,
            layer,
            "cross_attn.q_proj.lora_A.weight"@,
        ),
        lora_name(NameStyle::Prefixed, layer, Section::CrossAttn, Proj::Q, Half::B) == spelled(
            "model.layers."@,
            layer,
            "cross_attn.q_proj.lora_B.weight"@,
        ),
{
    lemma_roots();
    lemma_module_spelled(root, layer, Section::CrossAttn, Proj::Q, "lora_a"@);
    lemma_module_spelled(root, layer, Section::CrossAttn, Proj::Q, "lora_b"@);
    lemma_module_spelled("model"@, layer, Section::CrossAttn, Proj::Q, "lora_A.weight"@);
    lemma_module_spelled("model"@, layer, Section::CrossAttn, Proj::Q, "lora_B.weight"@);
    reveal_strlit(".");
    reveal_strlit("cross_attn");
    reveal_strlit("q_proj");
    reveal_strlit("weight");
    reveal_strlit("cross_attn.q_proj.weight");
    assert("cross_attn"@ + "."@ + "q_proj"@ + "."@ + "weight"@ =~= "cross_attn.q_proj.weight"@);
    reveal_strlit("lora_a");
    reveal_strlit("cross_attn.q_proj.lora_a");
    assert("cross_attn"@ + "."@ + "q_proj"@ + "."@ + "lora_a"@ =~= "cross_attn.q_proj.lora_a"@);
    reveal_strlit("lora_b");
    reveal_strlit("cross_attn.q_proj.lora_b");
    assert("cross_attn"@ + "."@ + "q_proj"@ + "."@ + "lora_b"@ =~= "cross_attn.q_proj.lora_b"@);
    reveal_strlit("lora_A.weight");
    reveal_strlit("cross_attn.q_proj.lora_A.weight");
    assert(
        "cross_attn"@ + "."@ + "q_proj"@ + "."@
            + "lora_A.weight"@ =~= "cross_attn.q_proj.lora_A.weight"@
    );
    reveal_strlit("lora_B.weight");
    reveal_strlit("cross_attn.q_proj.lora_B.weight");
    assert(
        "cross_attn"@ + "."@ + "q_proj"@ + "."@
            + "lora_B.weight"@ =~= "cross_attn.q_proj.lora_B.weight"@
    );
}

/// `cross_attn.k_proj` of a layer: the frozen weight, and the adapter's matrices in either style.
pub proof fn law_cross_attn_k_spelled(root: Seq<char>, layer: nat)
    ensures
        base_name(root, layer, Section::CrossAttn, Proj::K) == spelled(
            root + ".layers."@,
            layer,
            "cross_attn.k_proj.weight"@,
        ),
        lora_name(NameStyle::Plain, layer, Section::CrossAttn, Proj::K, Half::A) == spelled(
            "layers."@,
            layer,
            "cross_attn.k_proj.lora_a"@,
        ),
        lora_name(NameStyle::Plain, layer, Section::CrossAttn, Proj::K, Half::B) == spelled(
            "layers."@,
            layer,
            "cross_attn.k_proj.lora_b"@,
        ),
        lora_name(NameStyle::Prefixed, layer, Section::CrossAttn, Proj::K, Half::A) == spelled(
            "model.layers."@,
            layer,
            "cross_attn.k_proj.lora_A.weight"@,
        ),
        lora_name(NameStyle::Prefixed, layer, Section::CrossAttn, Proj::K, Half::B) == spelled(
            "model.layers."@,
            layer,
            "cross_attn.k_proj.lora_B.weight"@,
        ),
{
    lemma_roots();
    lemma_module_spelled(root, layer, Section::CrossAttn, Proj::K, "lora_a"@);
    lemma_module_spelled(root, layer, Section::CrossAttn, Proj::K, "lora_b"@);
    lemma_module_spelled("model"@, layer, Section::CrossAttn, Proj::K, "lora_A.weight"@);
    lemma_module_spelled("model"@, layer, Section::CrossAttn, Proj::K, "lora_B.weight"@);
    reveal_strlit(".");
    reveal_strlit("cross_attn");
    reveal_strlit("k_proj");
    reveal_strlit("weight");
    reveal_strlit("cross_attn.k_proj.weight");
    assert("cross_attn"@ + "."@ + "k_proj"@ + "."@ + "weight"@ =~= "cross_attn.k_proj.weight"@);
    reveal_strlit("lora_a");
    reveal_strlit("cross_attn.k_proj.lora_a");
    assert("cross_attn"@ + "."@ + "k_proj"@ + "."@ + "lora_a"@ =~= "cross_attn.k_proj.lora_a"@);
    reveal_strlit("lora_b");
    reveal_strlit("cross_attn.k_proj.lora_b");
    assert("cross_attn"@ + "."@ + "k_proj"@ + "."@ + "lora_b"@ =~= "cross_attn.k_proj.lora_b"@);
    reveal_strlit("lora_A.weight");
    reveal_strlit("cross_attn.k_proj.lora_A.weight");
    assert(
        "cross_attn"@ + "."@ + "k_proj"@ + "."@
            + "lora_A.weight"@ =~= "cross_attn.k_proj.lora_A.weight"@
    );
    reveal_strlit("lora_B.weight");
    reveal_strlit("cross_attn.k_proj.lora_B.weight");
    assert(
        "cross_attn"@ + "."@ + "k_proj"@ + "."@
            + "lora_B.weight"@ =~= "cross_attn.k_proj.lora_B.weight"@
    );
}

/// `cross_attn.v_proj` of a layer: the frozen weight, and the adapter's matrices in either style.
pub proof fn law_cross_attn_v_spelled(root: Seq<char>, layer: nat)
    ensures
        base_name(root, layer, Section::CrossAttn, Proj::V) == spelled(
            root + ".layers."@,
            layer,
            "cross_attn.v_proj.weight"@,
        ),
        lora_name(NameStyle::Plain, layer, Section::CrossAttn, Proj::V, Half::A) == spelled(
            "layers."@,
            layer,
            "cross_attn.v_proj.lora_a"@,
        ),
        lora_name(NameStyle::Plain, layer, Section::CrossAttn, Proj::V, Half::B) == spelled(
            "layers."@,
            layer,
            "cross_attn.v_proj.lora_b"@,
        ),
        lora_name(NameStyle::Prefixed, layer, Section::CrossAttn, Proj::V, Half::A) == spelled(
            "model.layers."@,
            layer,
            "cross_attn.v_proj.lora_A.weight"@,
        ),
        lora_name(NameStyle::Prefixed, layer, Section::CrossAttn, Proj::V, Half::B) == spelled(
            "model.layers."@,
            layer,
            "cross_attn.v_proj.lora_B.weight"@,
        ),
{
    lemma_roots();
    lemma_module_spelled(root, layer, Section::CrossAttn, Proj::V, "lora_a"@);
    lemma_module_spelled(root, layer, Section::CrossAttn, Proj::V, "lora_b"@);
    lemma_module_spelled("model"@, layer, Section::CrossAttn, Proj::V, "lora_A.weight"@);
    lemma_module_spelled("model"@, layer, Section::CrossAttn, Proj::V, "lora_B.weight"@);
    reveal_strlit(".");
    reveal_strlit("cross_attn");
    reveal_strlit("v_proj");
    reveal_strlit("weight");
    reveal_strlit("cross_attn.v_proj.weight");
    assert("cross_attn"@ + "."@ + "v_proj"@ + "."@ + "weight"@ =~= "cross_attn.v_proj.weight"@);
    reveal_strlit("lora_a");
    reveal_strlit("cross_attn.v_proj.lora_a");
    assert("cross_attn"@ + "."@ + "v_proj"@ + "."@ + "lora_a"@ =~= "cross_attn.v_proj.lora_a"@);
    reveal_strlit("lora_b");
    reveal_strlit("cross_attn.v_proj.lora_b");
    assert("cross_attn"@ + "."@ + "v_proj"@ + "."@ + "lora_b"@ =~= "cross_attn.v_proj.lora_b"@);
    reveal_strlit("lora_A.weight");
    reveal_strlit("cross_attn.v_proj.lora_A.weight");
    assert(
        "cross_attn"@ + "."@ + "v_proj"@ + "."@
            + "lora_A.weight"@ =~= "cross_attn.v_proj.lora_A.weight"@
    );
    reveal_strlit("lora_B.weight");
    reveal_strlit("cross_attn.v_proj.lora_B.weight");
    assert(
        "cross_attn"@ + "."@ + "v_proj"@ + "."@
            + "lora_B.weight"@ =~= "cross_attn.v_proj.lora_B.weight"@
    );
}

/// `cross_attn.o_proj` of a layer: the frozen weight, and the adapter's matrices in either style.
pub proof fn law_cross_attn_o_spelled(root: Seq<char>, layer: nat)
    ensures
        base_name(root, layer, Section::CrossAttn, Proj::O) == spelled(
            root + ".layers."@,
            layer,
            "cross_attn.o_proj.weight"@,
        ),
        lora_name(NameStyle::Plain, layer, Section::CrossAttn, Proj::O, Half::A) == spelled(
            "layers."@,
            layer,
            "cross_attn.o_proj.lora_a"@,
        ),
        lora_name(NameStyle::Plain, layer, Section::CrossAttn, Proj::O, Half::B) == spelled(
            "layers."@,
            layer,
            "cross_attn.o_proj.lora_b"@,
        ),
        lora_name(NameStyle::Prefixed, layer, Section::CrossAttn, Proj::O, Half::A) == spelled(
            "model.layers."@,
            layer,
            "cross_attn.o_proj.lora_A.weight"@,
        ),
        lora_name(NameStyle::Prefixed, layer, Section::CrossAttn, Proj::O, Half::B) == spelled(
            "model.layers."@,
            layer,
            "cross_attn.o_proj.lora_B.weight"@,
        ),
{
    lemma_roots();
    lemma_module_spelled(root, layer, Section::CrossAttn, Proj::O, "lora_a"@);
    lemma_module_spelled(root, layer, Section::CrossAttn, Proj::O, "lora_b"@);
    lemma_module_spelled("model"@, layer, Section::CrossAttn, Proj::O, "lora_A.weight"@);
    lemma_module_spelled("model"@, layer, Section::CrossAttn, Proj::O, "lora_B.weight"@);
    reveal_strlit(".");
    reveal_strlit("cross_attn");
    reveal_strlit("o_proj");
    reveal_strlit("weight");
    reveal_strlit("cross_attn.o_proj.weight");
    assert("cross_attn"@ + "."@ + "o_proj"@ + "."@ + "weight"@ =~= "cross_attn.o_proj.weight"@);
    reveal_strlit("lora_a");
    reveal_strlit("cross_attn.o_proj.lora_a");
    assert("cross_attn"@ + "."@ + "o_proj"@ + "."@ + "lora_a"@ =~= "cross_attn.o_proj.lora_a"@);
    reveal_strlit("lora_b");
    reveal_strlit("cross_attn.o_proj.lora_b");
    assert("cross_attn"@ + "."@ + "o_proj"@ + "."@ + "lora_b"@ =~= "cross_attn.o_proj.lora_b"@);
    reveal_strlit("lora_A.weight");
    reveal_strlit("cross_attn.o_proj.lora_A.weight");
    assert(
        "cross_attn"@ + "."@ + "o_proj"@ + "."@
            + "lora_A.weight"@ =~= "cross_attn.o_proj.lora_A.weight"@
    );
    reveal_strlit("lora_B.weight");
    reveal_strlit("cross_attn.o_proj.lora_B.weight");
    assert(
        "cross_attn"@ + "."@ + "o_proj"@ + "."@
            + "lora_B.weight"@ =~= "cross_attn.o_proj.lora_B.weight"@
    );
}

/// `linear_attn.in_proj_qkv` of a layer: the frozen weight, and the adapter's matrices in either
/// style.
pub proof fn law_linear_attn_in_qkv_spelled(root: Seq<char>, layer: nat)
    ensures
        base_name(root, layer, Section::LinearAttn, Proj::InQkv) == spelled(
            root + ".layers."@,
            layer,
            "linear_attn.in_proj_qkv.weight"@,
        ),
        lora_name(NameStyle::Plain, layer, Section::LinearAttn, Proj::InQkv, Half::A) == spelled(
            "layers."@,
            layer,
            "linear_attn.in_proj_qkv.lora_a"@,
        ),
        lora_name(NameStyle::Plain, layer, Section::LinearAttn, Proj::InQkv, Half::B) == spelled(
            "layers."@,
            layer,
            "linear_attn.in_proj_qkv.lora_b"@,
        ),
        lora_name(NameStyle::Prefixed, layer, Section::LinearAttn, Proj::InQkv, Half::A) == spelled(
            "model.layers."@,
            layer,
            "linear_attn.in_proj_qkv.lora_A.weight"@,
        ),
        lora_name(NameStyle::Prefixed, layer, Section::LinearAttn, Proj::InQkv, Half::B) == spelled(
            "model.layers."@,
            layer,
            "linear_attn.in_proj_qkv.lora_B.weight"@,
        ),
{
    lemma_roots();
    lemma_module_spelled(root, layer, Section::LinearAttn, Proj::InQkv, "lora_a"@);
    lemma_module_spelled(root, layer, Section::LinearAttn, Proj::InQkv, "lora_b"@);
    lemma_module_spelled("model"@, layer, Section::LinearAttn, Proj::InQkv, "lora_A.weight"@);
    lemma_module_spelled("model"@, layer, Section::LinearAttn, Proj::InQkv, "lora_B.weight"@);
    reveal_strlit(".");
    reveal_strlit("linear_attn");
    reveal_strlit("in_proj_qkv");
    reveal_strlit("weight");
    reveal_strlit("linear_attn.in_proj_qkv.weight");
    assert(
        "linear_attn"@ + "."@ + "in_proj_qkv"@ + "."@
            + "weight"@ =~= "linear_attn.in_proj_qkv.weight"@
    );
    reveal_strlit("lora_a");
    reveal_strlit("linear_attn.in_proj_qkv.lora_a");
    assert(
        "linear_attn"@ + "."@ + "in_proj_qkv"@ + "."@
            + "lora_a"@ =~= "linear_attn.in_proj_qkv.lora_a"@
    );
    reveal_strlit("lora_b");
    reveal_strlit("linear_attn.in_proj_qkv.lora_b");
    assert(
        "linear_attn"@ + "."@ + "in_proj_qkv"@ + "."@
            + "lora_b"@ =~= "linear_attn.in_proj_qkv.lora_b"@
    );
    reveal_strlit("lora_A.weight");
    reveal_strlit("linear_attn.in_proj_qkv.lora_A.weight");
    assert(
        "linear_attn"@ + "."@ + "in_proj_qkv"@ + "."@
            + "lora_A.weight"@ =~= "linear_attn.in_proj_qkv.lora_A.weight"@
    );
    reveal_strlit("lora_B.weight");
    reveal_strlit("linear_attn.in_proj_qkv.lora_B.weight");
    assert(
        "linear_attn"@ + "."@ + "in_proj_qkv"@ + "."@
            + "lora_B.weight"@ =~= "linear_attn.in_proj_qkv.lora_B.weight"@
    );
}

/// `linear_attn.in_proj_z` of a layer: the frozen weight, and the adapter's matrices in either
/// style.
pub proof fn law_linear_attn_in_z_spelled(root: Seq<char>, layer: nat)
    ensures
        base_name(root, layer, Section::LinearAttn, Proj::InZ) == spelled(
            root + ".layers."@,
            layer,
            "linear_attn.in_proj_z.weight"@,
        ),
        lora_name(NameStyle::Plain, layer, Section::LinearAttn, Proj::InZ, Half::A) == spelled(
            "layers."@,
            layer,
            "linear_attn.in_proj_z.lora_a"@,
        ),
        lora_name(NameStyle::Plain, layer, Section::LinearAttn, Proj::InZ, Half::B) == spelled(
            "layers."@,
            layer,
            "linear_attn.in_proj_z.lora_b"@,
        ),
        lora_name(NameStyle::Prefixed, layer, Section::LinearAttn, Proj::InZ, Half::A) == spelled(
            "model.layers."@,
            layer,
            "linear_attn.in_proj_z.lora_A.weight"@,
        ),
        lora_name(NameStyle::Prefixed, layer, Section::LinearAttn, Proj::InZ, Half::B) == spelled(
            "model.layers."@,
            layer,
            "linear_attn.in_proj_z.lora_B.weight"@,
        ),
{
    lemma_roots();
    lemma_module_spelled(root, layer, Section::LinearAttn, Proj::InZ, "lora_a"@);
    lemma_module_spelled(root, layer, Section::LinearAttn, Proj::InZ, "lora_b"@);
    lemma_module_spelled("model"@, layer, Section::LinearAttn, Proj::InZ, "lora_A.weight"@);
    lemma_module_spelled("model"@, layer, Section::LinearAttn, Proj::InZ, "lora_B.weight"@);
    reveal_strlit(".");
    reveal_strlit("linear_attn");
    reveal_strlit("in_proj_z");
    reveal_strlit("weight");
    reveal_strlit("linear_attn.in_proj_z.weight");
    assert(
        "linear_attn"@ + "."@ + "in_proj_z"@ + "."@ + "weight"@ =~= "linear_attn.in_proj_z.weight"@
    );
    reveal_strlit("lora_a");
    reveal_strlit("linear_attn.in_proj_z.lora_a");
    assert(
        "linear_attn"@ + "."@ + "in_proj_z"@ + "."@ + "lora_a"@ =~= "linear_attn.in_proj_z.lora_a"@
    );
    reveal_strlit("lora_b");
    reveal_strlit("linear_attn.in_proj_z.lora_b");
    assert(
        "linear_attn"@ + "."@ + "in_proj_z"@ + "."@ + "lora_b"@ =~= "linear_attn.in_proj_z.lora_b"@
    );
    reveal_strlit("lora_A.weight");
    reveal_strlit("linear_attn.in_proj_z.lora_A.weight");
    assert(
        "linear_attn"@ + "."@ + "in_proj_z"@ + "."@
            + "lora_A.weight"@ =~= "linear_attn.in_proj_z.lora_A.weight"@
    );
    reveal_strlit("lora_B.weight");
    reveal_strlit("linear_attn.in_proj_z.lora_B.weight");
    assert(
        "linear_attn"@ + "."@ + "in_proj_z"@ + "."@
            + "lora_B.weight"@ =~= "linear_attn.in_proj_z.lora_B.weight"@
    );
}

/// `linear_attn.out_proj` of a layer: the frozen weight, and the adapter's matrices in either
/// style.
pub proof fn law_linear_attn_out_spelled(root: Seq<char>, layer: nat)
    ensures
        base_name(root, layer, Section::LinearAttn, Proj::Out) == spelled(
            root + ".layers."@,
            layer,
            "linear_attn.out_proj.weight"@,
        ),
        lora_name(NameStyle::Plain, layer, Section::LinearAttn, Proj::Out, Half::A) == spelled(
            "layers."@,
            layer,
            "linear_attn.out_proj.lora_a"@,
        ),
        lora_name(NameStyle::Plain, layer, Section::LinearAttn, Proj::Out, Half::B) == spelled(
            "layers."@,
            layer,
            "linear_attn.out_proj.lora_b"@,
        ),
        lora_name(NameStyle::Prefixed, layer, Section::LinearAttn, Proj::Out, Half::A) == spelled(
            "model.layers."@,
            layer,
            "linear_attn.out_proj.lora_A.weight"@,
        ),
        lora_name(NameStyle::Prefixed, layer, Section::LinearAttn, Proj::Out, Half::B) == spelled(
            "model.layers."@,
            layer,
            "linear_attn.out_proj.lora_B.weight"@,
        ),
{
    lemma_roots();
    lemma_module_spelled(root, layer, Section::LinearAttn, Proj::Out, "lora_a"@);
    lemma_module_spelled(root, layer, Section::LinearAttn, Proj::Out, "lora_b"@);
    lemma_module_spelled("model"@, layer, Section::LinearAttn, Proj::Out, "lora_A.weight"@);
    lemma_module_spelled("model"@, layer, Section::LinearAttn, Proj::Out, "lora_B.weight"@);
    reveal_strlit(".");
    reveal_strlit("linear_attn");
    reveal_strlit("out_proj");
    reveal_strlit("weight");
    reveal_strlit("linear_attn.out_proj.weight");
    assert(
        "linear_attn"@ + "."@ + "out_proj"@ + "."@ + "weight"@ =~= "linear_attn.out_proj.weight"@
    );
    reveal_strlit("lora_a");
    reveal_strlit("linear_attn.out_proj.lora_a");
    assert(
        "linear_attn"@ + "."@ + "out_proj"@ + "."@ + "lora_a"@ =~= "linear_attn.out_proj.lora_a"@
    );
    reveal_strlit("lora_b");
    reveal_strlit("linear_attn.out_proj.lora_b");
    assert(
        "linear_attn"@ + "."@ + "out_proj"@ + "."@ + "lora_b"@ =~= "linear_attn.out_proj.lora_b"@
    );
    reveal_strlit("lora_A.weight");
    reveal_strlit("linear_attn.out_proj.lora_A.weight");
    assert(
        "linear_attn"@ + "."@ + "out_proj"@ + "."@
            + "lora_A.weight"@ =~= "linear_attn.out_proj.lora_A.weight"@
    );
    reveal_strlit("lora_B.weight");
    reveal_strlit("linear_attn.out_proj.lora_B.weight");
    assert(
        "linear_attn"@ + "."@ + "out_proj"@ + "."@
            + "lora_B.weight"@ =~= "linear_attn.out_proj.lora_B.weight"@
    );
}

/// `mlp.gate_proj` of a layer: the frozen weight, and the adapter's matrices in either style.
pub proof fn law_mlp_gate_spelled(root: Seq<char>, layer: nat)
    ensures
        base_name(root, layer, Section::Mlp, Proj::Gate) == spelled(
            root + ".layers."@,
            layer,
            "mlp.gate_proj.weight"@,
        ),
        lora_name(NameStyle::Plain, layer, Section::Mlp, Proj::Gate, Half::A) == spelled(
            "layers."@,
            layer,
            "mlp.gate_proj.lora_a"@,
        ),
        lora_name(NameStyle::Plain, layer, Section::Mlp, Proj::Gate, Half::B) == spelled(
            "layers."@,
            layer,
            "mlp.gate_proj.lora_b"@,
        ),
        lora_name(NameStyle::Prefixed, layer, Section::Mlp, Proj::Gate, Half::A) == spelled(
            "model.layers."@,
            layer,
            "mlp.gate_proj.lora_A.weight"@,
        ),
        lora_name(NameStyle::Prefixed, layer, Section::Mlp, Proj::Gate, Half::B) == spelled(
            "model.layers."@,
            layer,
            "mlp.gate_proj.lora_B.weight"@,
        ),
{
    lemma_roots();
    lemma_module_spelled(root, layer, Section::Mlp, Proj::Gate, "lora_a"@);
    lemma_module_spelled(root, layer, Section::Mlp, Proj::Gate, "lora_b"@);
    lemma_module_spelled("model"@, layer, Section::Mlp, Proj::Gate, "lora_A.weight"@);
    lemma_module_spelled("model"@, layer, Section::Mlp, Proj::Gate, "lora_B.weight"@);
    reveal_strlit(".");
    reveal_strlit("mlp");
    reveal_strlit("gate_proj");
    reveal_strlit("weight");
    reveal_strlit("mlp.gate_proj.weight");
    assert("mlp"@ + "."@ + "gate_proj"@ + "."@ + "weight"@ =~= "mlp.gate_proj.weight"@);
    reveal_strlit("lora_a");
    reveal_strlit("mlp.gate_proj.lora_a");
    assert("mlp"@ + "."@ + "gate_proj"@ + "."@ + "lora_a"@ =~= "mlp.gate_proj.lora_a"@);
    reveal_strlit("lora_b");
    reveal_strlit("mlp.gate_proj.lora_b");
    assert("mlp"@ + "."@ + "gate_proj"@ + "."@ + "lora_b"@ =~= "mlp.gate_proj.lora_b"@);
    reveal_strlit("lora_A.weight");
    reveal_strlit("mlp.gate_proj.lora_A.weight");
    assert(
        "mlp"@ + "."@ + "gate_proj"@ + "."@ + "lora_A.weight"@ =~= "mlp.gate_proj.lora_A.weight"@
    );
    reveal_strlit("lora_B.weight");
    reveal_strlit("mlp.gate_proj.lora_B.weight");
    assert(
        "mlp"@ + "."@ + "gate_proj"@ + "."@ + "lora_B.weight"@ =~= "mlp.gate_proj.lora_B.weight"@
    );
}

/// `mlp.up_proj` of a layer: the frozen weight, and the adapter's matrices in either style.
pub proof fn law_mlp_up_spelled(root: Seq<char>, layer: nat)
    ensures
        base_name(root, layer, Section::Mlp, Proj::Up) == spelled(
            root + ".layers."@,
            layer,
            "mlp.up_proj.weight"@,
        ),
        lora_name(NameStyle::Plain, layer, Section::Mlp, Proj::Up, Half::A) == spelled(
            "layers."@,
            layer,
            "mlp.up_proj.lora_a"@,
        ),
        lora_name(NameStyle::Plain, layer, Section::Mlp, Proj::Up, Half::B) == spelled(
            "layers."@,
            layer,
            "mlp.up_proj.lora_b"@,
        ),
        lora_name(NameStyle::Prefixed, layer, Section::Mlp, Proj::Up, Half::A) == spelled(
            "model.layers."@,
            layer,
            "mlp.up_proj.lora_A.weight"@,
        ),
        lora_name(NameStyle::Prefixed, layer, Section::Mlp, Proj::Up, Half::B) == spelled(
            "model.layers."@,
            layer,
            "mlp.up_proj.lora_B.weight"@,
        ),
{
    lemma_roots();
    lemma_module_spelled(root, layer, Section::Mlp, Proj::Up, "lora_a"@);
    lemma_module_spelled(root, layer, Section::Mlp, Proj::Up, "lora_b"@);
    lemma_module_spelled("model"@, layer, Section::Mlp, Proj::Up, "lora_A.weight"@);
    lemma_module_spelled("model"@, layer, Section::Mlp, Proj::Up, "lora_B.weight"@);
    reveal_strlit(".");
    reveal_strlit("mlp");
    reveal_strlit("up_proj");
    reveal_strlit("weight");
    reveal_strlit("mlp.up_proj.weight");
    assert("mlp"@ + "."@ + "up_proj"@ + "."@ + "weight"@ =~= "mlp.up_proj.weight"@);
    reveal_strlit("lora_a");
    reveal_strlit("mlp.up_proj.lora_a");
    assert("mlp"@ + "."@ + "up_proj"@ + "."@ + "lora_a"@ =~= "mlp.up_proj.lora_a"@);
    reveal_strlit("lora_b");
    reveal_strlit("mlp.up_proj.lora_b");
    assert("mlp"@ + "."@ + "up_proj"@ + "."@ + "lora_b"@ =~= "mlp.up_proj.lora_b"@);
    reveal_strlit("lora_A.weight");
    reveal_strlit("mlp.up_proj.lora_A.weight");
    assert("mlp"@ + "."@ + "up_proj"@ + "."@ + "lora_A.weight"@ =~= "mlp.up_proj.lora_A.weight"@);
    reveal_strlit("lora_B.weight");
    reveal_strlit("mlp.up_proj.lora_B.weight");
    assert("mlp"@ + "."@ + "up_proj"@ + "."@ + "lora_B.weight"@ =~= "mlp.up_proj.lora_B.weight"@);
}

/// `mlp.down_proj` of a layer: the frozen weight, and the adapter's matrices in either style.
pub proof fn law_mlp_down_spelled(root: Seq<char>, layer: nat)
    ensures
        base_name(root, layer, Section::Mlp, Proj::Down) == spelled(
            root + ".layers."@,
            layer,
            "mlp.down_proj.weight"@,
        ),
        lora_name(NameStyle::Plain, layer, Section::Mlp, Proj::Down, Half::A) == spelled(
            "layers."@,
            layer,
            "mlp.down_proj.lora_a"@,
        ),
        lora_name(NameStyle::Plain, layer, Section::Mlp, Proj::Down, Half::B) == spelled(
            "layers."@,
            layer,
            "mlp.down_proj.lora_b"@,
        ),
        lora_name(NameStyle::Prefixed, layer, Section::Mlp, Proj::Down, Half::A) == spelled(
            "model.layers."@,
            layer,
            "mlp.down_proj.lora_A.weight"@,
        ),
        lora_name(NameStyle::Prefixed, layer, Section::Mlp, Proj::Down, Half::B) == spelled(
            "model.layers."@,
            layer,
            "mlp.down_proj.lora_B.weight"@,
        ),
{
    lemma_roots();
    lemma_module_spelled(root, layer, Section::Mlp, Proj::Down, "lora_a"@);
    lemma_module_spelled(root, layer, Section::Mlp, Proj::Down, "lora_b"@);
    lemma_module_spelled("model"@, layer, Section::Mlp, Proj::Down, "lora_A.weight"@);
    lemma_module_spelled("model"@, layer, Section::Mlp, Proj::Down, "lora_B.weight"@);
    reveal_strlit(".");
    reveal_strlit("mlp");
    reveal_strlit("down_proj");
    reveal_strlit("weight");
    reveal_strlit("mlp.down_proj.weight");
    assert("mlp"@ + "."@ + "down_proj"@ + "."@ + "weight"@ =~= "mlp.down_proj.weight"@);
    reveal_strlit("lora_a");
    reveal_strlit("mlp.down_proj.lora_a");
    assert("mlp"@ + "."@ + "down_proj"@ + "."@ + "lora_a"@ =~= "mlp.down_proj.lora_a"@);
    reveal_strlit("lora_b");
    reveal_strlit("mlp.down_proj.lora_b");
    assert("mlp"@ + "."@ + "down_proj"@ + "."@ + "lora_b"@ =~= "mlp.down_proj.lora_b"@);
    reveal_strlit("lora_A.weight");
    reveal_strlit("mlp.down_proj.lora_A.weight");
    assert(
        "mlp"@ + "."@ + "down_proj"@ + "."@ + "lora_A.weight"@ =~= "mlp.down_proj.lora_A.weight"@
    );
    reveal_strlit("lora_B.weight");
    reveal_strlit("mlp.down_proj.lora_B.weight");
    assert(
        "mlp"@ + "."@ + "down_proj"@ + "."@ + "lora_B.weight"@ =~= "mlp.down_proj.lora_B.weight"@
    );
}

/// `mlp.gate_up_proj` of a layer: the frozen weight, and the adapter's matrices in either style.
pub proof fn law_mlp_gate_up_spelled(root: Seq<char>, layer: nat)
    ensures
        base_name(root, layer, Section::Mlp, Proj::GateUp) == spelled(
            root + ".layers."@,
            layer,
            "mlp.gate_up_proj.weight"@,
        ),
        lora_name(NameStyle::Plain, layer, Section::Mlp, Proj::GateUp, Half::A) == spelled(
            "layers."@,
            layer,
            "mlp.gate_up_proj.lora_a"@,
        ),
        lora_name(NameStyle::Plain, layer, Section::Mlp, Proj::GateUp, Half::B) == spelled(
            "layers."@,
            layer,
            "mlp.gate_up_proj.lora_b"@,
        ),
        lora_name(NameStyle::Prefixed, layer, Section::Mlp, Proj::GateUp, Half::A) == spelled(
            "model.layers."@,
            layer,
            "mlp.gate_up_proj.lora_A.weight"@,
        ),
        lora_name(NameStyle::Prefixed, layer, Section::Mlp, Proj::GateUp, Half::B) == spelled(
            "model.layers."@,
            layer,
            "mlp.gate_up_proj.lora_B.weight"@,
        ),
{
    lemma_roots();
    lemma_module_spelled(root, layer, Section::Mlp, Proj::GateUp, "lora_a"@);
    lemma_module_spelled(root, layer, Section::Mlp, Proj::GateUp, "lora_b"@);
    lemma_module_spelled("model"@, layer, Section::Mlp, Proj::GateUp, "lora_A.weight"@);
    lemma_module_spelled("model"@, layer, Section::Mlp, Proj::GateUp, "lora_B.weight"@);
    reveal_strlit(".");
    reveal_strlit("mlp");
    reveal_strlit("gate_up_proj");
    reveal_strlit("weight");
    reveal_strlit("mlp.gate_up_proj.weight");
    assert("mlp"@ + "."@ + "gate_up_proj"@ + "."@ + "weight"@ =~= "mlp.gate_up_proj.weight"@);
    reveal_strlit("lora_a");
    reveal_strlit("mlp.gate_up_proj.lora_a");
    assert("mlp"@ + "."@ + "gate_up_proj"@ + "."@ + "lora_a"@ =~= "mlp.gate_up_proj.lora_a"@);
    reveal_strlit("lora_b");
    reveal_strlit("mlp.gate_up_proj.lora_b");
    assert("mlp"@ + "."@ + "gate_up_proj"@ + "."@ + "lora_b"@ =~= "mlp.gate_up_proj.lora_b"@);
    reveal_strlit("lora_A.weight");
    reveal_strlit("mlp.gate_up_proj.lora_A.weight");
    assert(
        "mlp"@ + "."@ + "gate_up_proj"@ + "."@
            + "lora_A.weight"@ =~= "mlp.gate_up_proj.lora_A.weight"@
    );
    reveal_strlit("lora_B.weight");
    reveal_strlit("mlp.gate_up_proj.lora_B.weight");
    assert(
        "mlp"@ + "."@ + "gate_up_proj"@ + "."@
            + "lora_B.weight"@ =~= "mlp.gate_up_proj.lora_B.weight"@
    );
}

/// `mlp.gate` of a layer: the frozen weight, and the adapter's matrices in either style.
pub proof fn law_mlp_router_spelled(root: Seq<char>, layer: nat)
    ensures
        base_name(root, layer, Section::Mlp, Proj::Router) == spelled(
            root + ".layers."@,
            layer,
            "mlp.gate.weight"@,
        ),
        lora_name(NameStyle::Plain, layer, Section::Mlp, Proj::Router, Half::A) == spelled(
            "layers."@,
            layer,
            "mlp.gate.lora_a"@,
        ),
        lora_name(NameStyle::Plain, layer, Section::Mlp, Proj::Router, Half::B) == spelled(
            "layers."@,
            layer,
            "mlp.gate.lora_b"@,
        ),
        lora_name(NameStyle::Prefixed, layer, Section::Mlp, Proj::Router, Half::A) == spelled(
            "model.layers."@,
            layer,
            "mlp.gate.lora_A.weight"@,
        ),
        lora_name(NameStyle::Prefixed, layer, Section::Mlp, Proj::Router, Half::B) == spelled(
            "model.layers."@,
            layer,
            "mlp.gate.lora_B.weight"@,
        ),
{
    lemma_roots();
    lemma_module_spelled(root, layer, Section::Mlp, Proj::Router, "lora_a"@);
    lemma_module_spelled(root, layer, Section::Mlp, Proj::Router, "lora_b"@);
    lemma_module_spelled("model"@, layer, Section::Mlp, Proj::Router, "lora_A.weight"@);
    lemma_module_spelled("model"@, layer, Section::Mlp, Proj::Router, "lora_B.weight"@);
    reveal_strlit(".");
    reveal_strlit("mlp");
    reveal_strlit("gate");
    reveal_strlit("weight");
    reveal_strlit("mlp.gate.weight");
    assert("mlp"@ + "."@ + "gate"@ + "."@ + "weight"@ =~= "mlp.gate.weight"@);
    reveal_strlit("lora_a");
    reveal_strlit("mlp.gate.lora_a");
    assert("mlp"@ + "."@ + "gate"@ + "."@ + "lora_a"@ =~= "mlp.gate.lora_a"@);
    reveal_strlit("lora_b");
    reveal_strlit("mlp.gate.lora_b");
    assert("mlp"@ + "."@ + "gate"@ + "."@ + "lora_b"@ =~= "mlp.gate.lora_b"@);
    reveal_strlit("lora_A.weight");
    reveal_strlit("mlp.gate.lora_A.weight");
    assert("mlp"@ + "."@ + "gate"@ + "."@ + "lora_A.weight"@ =~= "mlp.gate.lora_A.weight"@);
    reveal_strlit("lora_B.weight");
    reveal_strlit("mlp.gate.lora_B.weight");
    assert("mlp"@ + "."@ + "gate"@ + "."@ + "lora_B.weight"@ =~= "mlp.gate.lora_B.weight"@);
}

/// `mlp.shared_expert.gate_proj` of a layer: the frozen weight, and the adapter's matrices in
/// either style.
pub proof fn law_mlp_shared_expert_gate_spelled(root: Seq<char>, layer: nat)
    ensures
        base_name(root, layer, Section::MlpSharedExpert, Proj::Gate) == spelled(
            root + ".layers."@,
            layer,
            "mlp.shared_expert.gate_proj.weight"@,
        ),
        lora_name(
            NameStyle::Plain,
            layer,
            Section::MlpSharedExpert,
            Proj::Gate,
            Half::A,
        ) == spelled(
            "layers."@,
            layer,
            "mlp.shared_expert.gate_proj.lora_a"@,
        ),
        lora_name(
            NameStyle::Plain,
            layer,
            Section::MlpSharedExpert,
            Proj::Gate,
            Half::B,
        ) == spelled(
            "layers."@,
            layer,
            "mlp.shared_expert.gate_proj.lora_b"@,
        ),
        lora_name(
            NameStyle::Prefixed,
            layer,
            Section::MlpSharedExpert,
            Proj::Gate,
            Half::A,
        ) == spelled(
            "model.layers."@,
            layer,
            "mlp.shared_expert.gate_proj.lora_A.weight"@,
        ),
        lora_name(
            NameStyle::Prefixed,
            layer,
            Section::MlpSharedExpert,
            Proj::Gate,
            Half::B,
        ) == spelled(
            "model.layers."@,
            layer,
            "mlp.shared_expert.gate_proj.lora_B.weight"@,
        ),
{
    lemma_roots();
    lemma_module_spelled(root, layer, Section::MlpSharedExpert, Proj::Gate, "lora_a"@);
    lemma_module_spelled(root, layer, Section::MlpSharedExpert, Proj::Gate, "lora_b"@);
    lemma_module_spelled("model"@, layer, Section::MlpSharedExpert, Proj::Gate, "lora_A.weight"@);
    lemma_module_spelled("model"@, layer, Section::MlpSharedExpert, Proj::Gate, "lora_B.weight"@);
    reveal_strlit(".");
    reveal_strlit("mlp.shared_expert");
    reveal_strlit("gate_proj");
    reveal_strlit("weight");
    reveal_strlit("mlp.shared_expert.gate_proj.weight");
    assert(
        "mlp.shared_expert"@ + "."@ + "gate_proj"@ + "."@
            + "weight"@ =~= "mlp.shared_expert.gate_proj.weight"@
    );
    reveal_strlit("lora_a");
    reveal_strlit("mlp.shared_expert.gate_proj.lora_a");
    assert(
        "mlp.shared_expert"@ + "."@ + "gate_proj"@ + "."@
            + "lora_a"@ =~= "mlp.shared_expert.gate_proj.lora_a"@
    );
    reveal_strlit("lora_b");
    reveal_strlit("mlp.shared_expert.gate_proj.lora_b");
    assert(
        "mlp.shared_expert"@ + "."@ + "gate_proj"@ + "."@
            + "lora_b"@ =~= "mlp.shared_expert.gate_proj.lora_b"@
    );
    reveal_strlit("lora_A.weight");
    reveal_strlit("mlp.shared_expert.gate_proj.lora_A.weight");
    assert(
        "mlp.shared_expert"@ + "."@ + "gate_proj"@ + "."@
            + "lora_A.weight"@ =~= "mlp.shared_expert.gate_proj.lora_A.weight"@
    );
    reveal_strlit("lora_B.weight");
    reveal_strlit("mlp.shared_expert.gate_proj.lora_B.weight");
    assert(
        "mlp.shared_expert"@ + "."@ + "gate_proj"@ + "."@
            + "lora_B.weight"@ =~= "mlp.shared_expert.gate_proj.lora_B.weight"@
    );
}

/// `mlp.shared_expert.up_proj` of a layer: the frozen weight, and the adapter's matrices in either
/// style.
pub proof fn law_mlp_shared_expert_up_spelled(root: Seq<char>, layer: nat)
    ensures
        base_name(root, layer, Section::MlpSharedExpert, Proj::Up) == spelled(
            root + ".layers."@,
            layer,
            "mlp.shared_expert.up_proj.weight"@,
        ),
        lora_name(NameStyle::Plain, layer, Section::MlpSharedExpert, Proj::Up, Half::A) == spelled(
            "layers."@,
            layer,
            "mlp.shared_expert.up_proj.lora_a"@,
        ),
        lora_name(NameStyle::Plain, layer, Section::MlpSharedExpert, Proj::Up, Half::B) == spelled(
            "layers."@,
            layer,
            "mlp.shared_expert.up_proj.lora_b"@,
        ),
        lora_name(
            NameStyle::Prefixed,
            layer,
            Section::MlpSharedExpert,
            Proj::Up,
            Half::A,
        ) == spelled(
            "model.layers."@,
            layer,
            "mlp.shared_expert.up_proj.lora_A.weight"@,
        ),
        lora_name(
            NameStyle::Prefixed,
            layer,
            Section::MlpSharedExpert,
            Proj::Up,
            Half::B,
        ) == spelled(
            "model.layers."@,
            layer,
            "mlp.shared_expert.up_proj.lora_B.weight"@,
        ),
{
    lemma_roots();
    lemma_module_spelled(root, layer, Section::MlpSharedExpert, Proj::Up, "lora_a"@);
    lemma_module_spelled(root, layer, Section::MlpSharedExpert, Proj::Up, "lora_b"@);
    lemma_module_spelled("model"@, layer, Section::MlpSharedExpert, Proj::Up, "lora_A.weight"@);
    lemma_module_spelled("model"@, layer, Section::MlpSharedExpert, Proj::Up, "lora_B.weight"@);
    reveal_strlit(".");
    reveal_strlit("mlp.shared_expert");
    reveal_strlit("up_proj");
    reveal_strlit("weight");
    reveal_strlit("mlp.shared_expert.up_proj.weight");
    assert(
        "mlp.shared_expert"@ + "."@ + "up_proj"@ + "."@
            + "weight"@ =~= "mlp.shared_expert.up_proj.weight"@
    );
    reveal_strlit("lora_a");
    reveal_strlit("mlp.shared_expert.up_proj.lora_a");
    assert(
        "mlp.shared_expert"@ + "."@ + "up_proj"@ + "."@
            + "lora_a"@ =~= "mlp.shared_expert.up_proj.lora_a"@
    );
    reveal_strlit("lora_b");
    reveal_strlit("mlp.shared_expert.up_proj.lora_b");
    assert(
        "mlp.shared_expert"@ + "."@ + "up_proj"@ + "."@
            + "lora_b"@ =~= "mlp.shared_expert.up_proj.lora_b"@
    );
    reveal_strlit("lora_A.weight");
    reveal_strlit("mlp.shared_expert.up_proj.lora_A.weight");
    assert(
        "mlp.shared_expert"@ + "."@ + "up_proj"@ + "."@
            + "lora_A.weight"@ =~= "mlp.shared_expert.up_proj.lora_A.weight"@
    );
    reveal_strlit("lora_B.weight");
    reveal_strlit("mlp.shared_expert.up_proj.lora_B.weight");
    assert(
        "mlp.shared_expert"@ + "."@ + "up_proj"@ + "."@
            + "lora_B.weight"@ =~= "mlp.shared_expert.up_proj.lora_B.weight"@
    );
}

/// `mlp.shared_expert.down_proj` of a layer: the frozen weight, and the adapter's matrices in
/// either style.
pub proof fn law_mlp_shared_expert_down_spelled(root: Seq<char>, layer: nat)
    ensures
        base_name(root, layer, Section::MlpSharedExpert, Proj::Down) == spelled(
            root + ".layers."@,
            layer,
            "mlp.shared_expert.down_proj.weight"@,
        ),
        lora_name(
            NameStyle::Plain,
            layer,
            Section::MlpSharedExpert,
            Proj::Down,
            Half::A,
        ) == spelled(
            "layers."@,
            layer,
            "mlp.shared_expert.down_proj.lora_a"@,
        ),
        lora_name(
            NameStyle::Plain,
            layer,
            Section::MlpSharedExpert,
            Proj::Down,
            Half::B,
        ) == spelled(
            "layers."@,
            layer,
            "mlp.shared_expert.down_proj.lora_b"@,
        ),
        lora_name(
            NameStyle::Prefixed,
            layer,
            Section::MlpSharedExpert,
            Proj::Down,
            Half::A,
        ) == spelled(
            "model.layers."@,
            layer,
            "mlp.shared_expert.down_proj.lora_A.weight"@,
        ),
        lora_name(
            NameStyle::Prefixed,
            layer,
            Section::MlpSharedExpert,
            Proj::Down,
            Half::B,
        ) == spelled(
            "model.layers."@,
            layer,
            "mlp.shared_expert.down_proj.lora_B.weight"@,
        ),
{
    lemma_roots();
    lemma_module_spelled(root, layer, Section::MlpSharedExpert, Proj::Down, "lora_a"@);
    lemma_module_spelled(root, layer, Section::MlpSharedExpert, Proj::Down, "lora_b"@);
    lemma_module_spelled("model"@, layer, Section::MlpSharedExpert, Proj::Down, "lora_A.weight"@);
    lemma_module_spelled("model"@, layer, Section::MlpSharedExpert, Proj::Down, "lora_B.weight"@);
    reveal_strlit(".");
    reveal_strlit("mlp.shared_expert");
    reveal_strlit("down_proj");
    reveal_strlit("weight");
    reveal_strlit("mlp.shared_expert.down_proj.weight");
    assert(
        "mlp.shared_expert"@ + "."@ + "down_proj"@ + "."@
            + "weight"@ =~= "mlp.shared_expert.down_proj.weight"@
    );
    reveal_strlit("lora_a");
    reveal_strlit("mlp.shared_expert.down_proj.lora_a");
    assert(
        "mlp.shared_expert"@ + "."@ + "down_proj"@ + "."@
            + "lora_a"@ =~= "mlp.shared_expert.down_proj.lora_a"@
    );
    reveal_strlit("lora_b");
    reveal_strlit("mlp.shared_expert.down_proj.lora_b");
    assert(
        "mlp.shared_expert"@ + "."@ + "down_proj"@ + "."@
            + "lora_b"@ =~= "mlp.shared_expert.down_proj.lora_b"@
    );
    reveal_strlit("lora_A.weight");
    reveal_strlit("mlp.shared_expert.down_proj.lora_A.weight");
    assert(
        "mlp.shared_expert"@ + "."@ + "down_proj"@ + "."@
            + "lora_A.weight"@ =~= "mlp.shared_expert.down_proj.lora_A.weight"@
    );
    reveal_strlit("lora_B.weight");
    reveal_strlit("mlp.shared_expert.down_proj.lora_B.weight");
    assert(
        "mlp.shared_expert"@ + "."@ + "down_proj"@ + "."@
            + "lora_B.weight"@ =~= "mlp.shared_expert.down_proj.lora_B.weight"@
    );
}

/// `mixer.q_proj` of a layer: the frozen weight, and the adapter's matrices in either style.
pub proof fn law_mixer_q_spelled(root: Seq<char>, layer: nat)
    ensures
        base_name(root, layer, Section::Mixer, Proj::Q) == spelled(
            root + ".layers."@,
            layer,
            "mixer.q_proj.weight"@,
        ),
        lora_name(NameStyle::Plain, layer, Section::Mixer, Proj::Q, Half::A) == spelled(
            "layers."@,
            layer,
            "mixer.q_proj.lora_a"@,
        ),
        lora_name(NameStyle::Plain, layer, Section::Mixer, Proj::Q, Half::B) == spelled(
            "layers."@,
            layer,
            "mixer.q_proj.lora_b"@,
        ),
        lora_name(NameStyle::Prefixed, layer, Section::Mixer, Proj::Q, Half::A) == spelled(
            "model.layers."@,
            layer,
            "mixer.q_proj.lora_A.weight"@,
        ),
        lora_name(NameStyle::Prefixed, layer, Section::Mixer, Proj::Q, Half::B) == spelled(
            "model.layers."@,
            layer,
            "mixer.q_proj.lora_B.weight"@,
        ),
{
    lemma_roots();
    lemma_module_spelled(root, layer, Section::Mixer, Proj::Q, "lora_a"@);
    lemma_module_spelled(root, layer, Section::Mixer, Proj::Q, "lora_b"@);
    lemma_module_spelled("model"@, layer, Section::Mixer, Proj::Q, "lora_A.weight"@);
    lemma_module_spelled("model"@, layer, Section::Mixer, Proj::Q, "lora_B.weight"@);
    reveal_strlit(".");
    reveal_strlit("mixer");
    reveal_strlit("q_proj");
    reveal_strlit("weight");
    reveal_strlit("mixer.q_proj.weight");
    assert("mixer"@ + "."@ + "q_proj"@ + "."@ + "weight"@ =~= "mixer.q_proj.weight"@);
    reveal_strlit("lora_a");
    reveal_strlit("mixer.q_proj.lora_a");
    assert("mixer"@ + "."@ + "q_proj"@ + "."@ + "lora_a"@ =~= "mixer.q_proj.lora_a"@);
    reveal_strlit("lora_b");
    reveal_strlit("mixer.q_proj.lora_b");
    assert("mixer"@ + "."@ + "q_proj"@ + "."@ + "lora_b"@ =~= "mixer.q_proj.lora_b"@);
    reveal_strlit("lora_A.weight");
    reveal_strlit("mixer.q_proj.lora_A.weight");
    assert("mixer"@ + "."@ + "q_proj"@ + "."@ + "lora_A.weight"@ =~= "mixer.q_proj.lora_A.weight"@);
    reveal_strlit("lora_B.weight");
    reveal_strlit("mixer.q_proj.lora_B.weight");
    assert("mixer"@ + "."@ + "q_proj"@ + "."@ + "lora_B.weight"@ =~= "mixer.q_proj.lora_B.weight"@);
}

/// `mixer.k_proj` of a layer: the frozen weight, and the adapter's matrices in either style.
pub proof fn law_mixer_k_spelled(root: Seq<char>, layer: nat)
    ensures
        base_name(root, layer, Section::Mixer, Proj::K) == spelled(
            root + ".layers."@,
            layer,
            "mixer.k_proj.weight"@,
        ),
        lora_name(NameStyle::Plain, layer, Section::Mixer, Proj::K, Half::A) == spelled(
            "layers."@,
            layer,
            "mixer.k_proj.lora_a"@,
        ),
        lora_name(NameStyle::Plain, layer, Section::Mixer, Proj::K, Half::B) == spelled(
            "layers."@,
            layer,
            "mixer.k_proj.lora_b"@,
        ),
        lora_name(NameStyle::Prefixed, layer, Section::Mixer, Proj::K, Half::A) == spelled(
            "model.layers."@,
            layer,
            "mixer.k_proj.lora_A.weight"@,
        ),
        lora_name(NameStyle::Prefixed, layer, Section::Mixer, Proj::K, Half::B) == spelled(
            "model.layers."@,
            layer,
            "mixer.k_proj.lora_B.weight"@,
        ),
{
    lemma_roots();
    lemma_module_spelled(root, layer, Section::Mixer, Proj::K, "lora_a"@);
    lemma_module_spelled(root, layer, Section::Mixer, Proj::K, "lora_b"@);
    lemma_module_spelled("model"@, layer, Section::Mixer, Proj::K, "lora_A.weight"@);
    lemma_module_spelled("model"@, layer, Section::Mixer, Proj::K, "lora_B.weight"@);
    reveal_strlit(".");
    reveal_strlit("mixer");
    reveal_strlit("k_proj");
    reveal_strlit("weight");
    reveal_strlit("mixer.k_proj.weight");
    assert("mixer"@ + "."@ + "k_proj"@ + "."@ + "weight"@ =~= "mixer.k_proj.weight"@);
    reveal_strlit("lora_a");
    reveal_strlit("mixer.k_proj.lora_a");
    assert("mixer"@ + "."@ + "k_proj"@ + "."@ + "lora_a"@ =~= "mixer.k_proj.lora_a"@);
    reveal_strlit("lora_b");
    reveal_strlit("mixer.k_proj.lora_b");
    assert("mixer"@ + "."@ + "k_proj"@ + "."@ + "lora_b"@ =~= "mixer.k_proj.lora_b"@);
    reveal_strlit("lora_A.weight");
    reveal_strlit("mixer.k_proj.lora_A.weight");
    assert("mixer"@ + "."@ + "k_proj"@ + "."@ + "lora_A.weight"@ =~= "mixer.k_proj.lora_A.weight"@);
    reveal_strlit("lora_B.weight");
    reveal_strlit("mixer.k_proj.lora_B.weight");
    assert("mixer"@ + "."@ + "k_proj"@ + "."@ + "lora_B.weight"@ =~= "mixer.k_proj.lora_B.weight"@);
}

/// `mixer.v_proj` of a layer: the frozen weight, and the adapter's matrices in either style.
pub proof fn law_mixer_v_spelled(root: Seq<char>, layer: nat)
    ensures
        base_name(root, layer, Section::Mixer, Proj::V) == spelled(
            root + ".layers."@,
            layer,
            "mixer.v_proj.weight"@,
        ),
        lora_name(NameStyle::Plain, layer, Section::Mixer, Proj::V, Half::A) == spelled(
            "layers."@,
            layer,
            "mixer.v_proj.lora_a"@,
        ),
        lora_name(NameStyle::Plain, layer, Section::Mixer, Proj::V, Half::B) == spelled(
            "layers."@,
            layer,
            "mixer.v_proj.lora_b"@,
        ),
        lora_name(NameStyle::Prefixed, layer, Section::Mixer, Proj::V, Half::A) == spelled(
            "model.layers."@,
            layer,
            "mixer.v_proj.lora_A.weight"@,
        ),
        lora_name(NameStyle::Prefixed, layer, Section::Mixer, Proj::V, Half::B) == spelled(
            "model.layers."@,
            layer,
            "mixer.v_proj.lora_B.weight"@,
        ),
{
    lemma_roots();
    lemma_module_spelled(root, layer, Section::Mixer, Proj::V, "lora_a"@);
    lemma_module_spelled(root, layer, Section::Mixer, Proj::V, "lora_b"@);
    lemma_module_spelled("model"@, layer, Section::Mixer, Proj::V, "lora_A.weight"@);
    lemma_module_spelled("model"@, layer, Section::Mixer, Proj::V, "lora_B.weight"@);
    reveal_strlit(".");
    reveal_strlit("mixer");
    reveal_strlit("v_proj");
    reveal_strlit("weight");
    reveal_strlit("mixer.v_proj.weight");
    assert("mixer"@ + "."@ + "v_proj"@ + "."@ + "weight"@ =~= "mixer.v_proj.weight"@);
    reveal_strlit("lora_a");
    reveal_strlit("mixer.v_proj.lora_a");
    assert("mixer"@ + "."@ + "v_proj"@ + "."@ + "lora_a"@ =~= "mixer.v_proj.lora_a"@);
    reveal_strlit("lora_b");
    reveal_strlit("mixer.v_proj.lora_b");
    assert("mixer"@ + "."@ + "v_proj"@ + "."@ + "lora_b"@ =~= "mixer.v_proj.lora_b"@);
    reveal_strlit("lora_A.weight");
    reveal_strlit("mixer.v_proj.lora_A.weight");
    assert("mixer"@ + "."@ + "v_proj"@ + "."@ + "lora_A.weight"@ =~= "mixer.v_proj.lora_A.weight"@);
    reveal_strlit("lora_B.weight");
    reveal_strlit("mixer.v_proj.lora_B.weight");
    assert("mixer"@ + "."@ + "v_proj"@ + "."@ + "lora_B.weight"@ =~= "mixer.v_proj.lora_B.weight"@);
}

/// `mixer.o_proj` of a layer: the frozen weight, and the adapter's matrices in either style.
pub proof fn law_mixer_o_spelled(root: Seq<char>, layer: nat)
    ensures
        base_name(root, layer, Section::Mixer, Proj::O) == spelled(
            root + ".layers."@,
            layer,
            "mixer.o_proj.weight"@,
        ),
        lora_name(NameStyle::Plain, layer, Section::Mixer, Proj::O, Half::A) == spelled(
            "layers."@,
            layer,
            "mixer.o_proj.lora_a"@,
        ),
        lora_name(NameStyle::Plain, layer, Section::Mixer, Proj::O, Half::B) == spelled(
            "layers."@,
            layer,
            "mixer.o_proj.lora_b"@,
        ),
        lora_name(NameStyle::Prefixed, layer, Section::Mixer, Proj::O, Half::A) == spelled(
            "model.layers."@,
            layer,
            "mixer.o_proj.lora_A.weight"@,
        ),
        lora_name(NameStyle::Prefixed, layer, Section::Mixer, Proj::O, Half::B) == spelled(
            "model.layers."@,
            layer,
            "mixer.o_proj.lora_B.weight"@,
        ),
{
    lemma_roots();
    lemma_module_spelled(root, layer, Section::Mixer, Proj::O, "lora_a"@);
    lemma_module_spelled(root, layer, Section::Mixer, Proj::O, "lora_b"@);
    lemma_module_spelled("model"@, layer, Section::Mixer, Proj::O, "lora_A.weight"@);
    lemma_module_spelled("model"@, layer, Section::Mixer, Proj::O, "lora_B.weight"@);
    reveal_strlit(".");
    reveal_strlit("mixer");
    reveal_strlit("o_proj");
    reveal_strlit("weight");
    reveal_strlit("mixer.o_proj.weight");
    assert("mixer"@ + "."@ + "o_proj"@ + "."@ + "weight"@ =~= "mixer.o_proj.weight"@);
    reveal_strlit("lora_a");
    reveal_strlit("mixer.o_proj.lora_a");
    assert("mixer"@ + "."@ + "o_proj"@ + "."@ + "lora_a"@ =~= "mixer.o_proj.lora_a"@);
    reveal_strlit("lora_b");
    reveal_strlit("mixer.o_proj.lora_b");
    assert("mixer"@ + "."@ + "o_proj"@ + "."@ + "lora_b"@ =~= "mixer.o_proj.lora_b"@);
    reveal_strlit("lora_A.weight");
    reveal_strlit("mixer.o_proj.lora_A.weight");
    assert("mixer"@ + "."@ + "o_proj"@ + "."@ + "lora_A.weight"@ =~= "mixer.o_proj.lora_A.weight"@);
    reveal_strlit("lora_B.weight");
    reveal_strlit("mixer.o_proj.lora_B.weight");
    assert("mixer"@ + "."@ + "o_proj"@ + "."@ + "lora_B.weight"@ =~= "mixer.o_proj.lora_B.weight"@);
}

/// `mixer.up_proj` of a layer: the frozen weight, and the adapter's matrices in either style.
pub proof fn law_mixer_up_spelled(root: Seq<char>, layer: nat)
    ensures
        base_name(root, layer, Section::Mixer, Proj::Up) == spelled(
            root + ".layers."@,
            layer,
            "mixer.up_proj.weight"@,
        ),
        lora_name(NameStyle::Plain, layer, Section::Mixer, Proj::Up, Half::A) == spelled(
            "layers."@,
            layer,
            "mixer.up_proj.lora_a"@,
        ),
        lora_name(NameStyle::Plain, layer, Section::Mixer, Proj::Up, Half::B) == spelled(
            "layers."@,
            layer,
            "mixer.up_proj.lora_b"@,
        ),
        lora_name(NameStyle::Prefixed, layer, Section::Mixer, Proj::Up, Half::A) == spelled(
            "model.layers."@,
            layer,
            "mixer.up_proj.lora_A.weight"@,
        ),
        lora_name(NameStyle::Prefixed, layer, Section::Mixer, Proj::Up, Half::B) == spelled(
            "model.layers."@,
            layer,
            "mixer.up_proj.lora_B.weight"@,
        ),
{
    lemma_roots();
    lemma_module_spelled(root, layer, Section::Mixer, Proj::Up, "lora_a"@);
    lemma_module_spelled(root, layer, Section::Mixer, Proj::Up, "lora_b"@);
    lemma_module_spelled("model"@, layer, Section::Mixer, Proj::Up, "lora_A.weight"@);
    lemma_module_spelled("model"@, layer, Section::Mixer, Proj::Up, "lora_B.weight"@);
    reveal_strlit(".");
    reveal_strlit("mixer");
    reveal_strlit("up_proj");
    reveal_strlit("weight");
    reveal_strlit("mixer.up_proj.weight");
    assert("mixer"@ + "."@ + "up_proj"@ + "."@ + "weight"@ =~= "mixer.up_proj.weight"@);
    reveal_strlit("lora_a");
    reveal_strlit("mixer.up_proj.lora_a");
    assert("mixer"@ + "."@ + "up_proj"@ + "."@ + "lora_a"@ =~= "mixer.up_proj.lora_a"@);
    reveal_strlit("lora_b");
    reveal_strlit("mixer.up_proj.lora_b");
    assert("mixer"@ + "."@ + "up_proj"@ + "."@ + "lora_b"@ =~= "mixer.up_proj.lora_b"@);
    reveal_strlit("lora_A.weight");
    reveal_strlit("mixer.up_proj.lora_A.weight");
    assert(
        "mixer"@ + "."@ + "up_proj"@ + "."@ + "lora_A.weight"@ =~= "mixer.up_proj.lora_A.weight"@
    );
    reveal_strlit("lora_B.weight");
    reveal_strlit("mixer.up_proj.lora_B.weight");
    assert(
        "mixer"@ + "."@ + "up_proj"@ + "."@ + "lora_B.weight"@ =~= "mixer.up_proj.lora_B.weight"@
    );
}

/// `mixer.down_proj` of a layer: the frozen weight, and the adapter's matrices in either style.
pub proof fn law_mixer_down_spelled(root: Seq<char>, layer: nat)
    ensures
        base_name(root, layer, Section::Mixer, Proj::Down) == spelled(
            root + ".layers."@,
            layer,
            "mixer.down_proj.weight"@,
        ),
        lora_name(NameStyle::Plain, layer, Section::Mixer, Proj::Down, Half::A) == spelled(
            "layers."@,
            layer,
            "mixer.down_proj.lora_a"@,
        ),
        lora_name(NameStyle::Plain, layer, Section::Mixer, Proj::Down, Half::B) == spelled(
            "layers."@,
            layer,
            "mixer.down_proj.lora_b"@,
        ),
        lora_name(NameStyle::Prefixed, layer, Section::Mixer, Proj::Down, Half::A) == spelled(
            "model.layers."@,
            layer,
            "mixer.down_proj.lora_A.weight"@,
        ),
        lora_name(NameStyle::Prefixed, layer, Section::Mixer, Proj::Down, Half::B) == spelled(
            "model.layers."@,
            layer,
            "mixer.down_proj.lora_B.weight"@,
        ),
{
    lemma_roots();
    lemma_module_spelled(root, layer, Section::Mixer, Proj::Down, "lora_a"@);
    lemma_module_spelled(root, layer, Section::Mixer, Proj::Down, "lora_b"@);
    lemma_module_spelled("model"@, layer, Section::Mixer, Proj::Down, "lora_A.weight"@);
    lemma_module_spelled("model"@, layer, Section::Mixer, Proj::Down, "lora_B.weight"@);
    reveal_strlit(".");
    reveal_strlit("mixer");
    reveal_strlit("down_proj");
    reveal_strlit("weight");
    reveal_strlit("mixer.down_proj.weight");
    assert("mixer"@ + "."@ + "down_proj"@ + "."@ + "weight"@ =~= "mixer.down_proj.weight"@);
    reveal_strlit("lora_a");
    reveal_strlit("mixer.down_proj.lora_a");
    assert("mixer"@ + "."@ + "down_proj"@ + "."@ + "lora_a"@ =~= "mixer.down_proj.lora_a"@);
    reveal_strlit("lora_b");
    reveal_strlit("mixer.down_proj.lora_b");
    assert("mixer"@ + "."@ + "down_proj"@ + "."@ + "lora_b"@ =~= "mixer.down_proj.lora_b"@);
    reveal_strlit("lora_A.weight");
    reveal_strlit("mixer.down_proj.lora_A.weight");
    assert(
        "mixer"@ + "."@ + "down_proj"@ + "."@
            + "lora_A.weight"@ =~= "mixer.down_proj.lora_A.weight"@
    );
    reveal_strlit("lora_B.weight");
    reveal_strlit("mixer.down_proj.lora_B.weight");
    assert(
        "mixer"@ + "."@ + "down_proj"@ + "."@
            + "lora_B.weight"@ =~= "mixer.down_proj.lora_B.weight"@
    );
}

/// `mixer.shared_expert.up_proj` of a layer: the frozen weight, and the adapter's matrices in
/// either style.
pub proof fn law_mixer_shared_expert_up_spelled(root: Seq<char>, layer: nat)
    ensures
        base_name(root, layer, Section::MixerSharedExpert, Proj::Up) == spelled(
            root + ".layers."@,
            layer,
            "mixer.shared_expert.up_proj.weight"@,
        ),
        lora_name(
            NameStyle::Plain,
            layer,
            Section::MixerSharedExpert,
            Proj::Up,
            Half::A,
        ) == spelled(
            "layers."@,
            layer,
            "mixer.shared_expert.up_proj.lora_a"@,
        ),
        lora_name(
            NameStyle::Plain,
            layer,
            Section::MixerSharedExpert,
            Proj::Up,
            Half::B,
        ) == spelled(
            "layers."@,
            layer,
            "mixer.shared_expert.up_proj.lora_b"@,
        ),
        lora_name(
            NameStyle::Prefixed,
            layer,
            Section::MixerSharedExpert,
            Proj::Up,
            Half::A,
        ) == spelled(
            "model.layers."@,
            layer,
            "mixer.shared_expert.up_proj.lora_A.weight"@,
        ),
        lora_name(
            NameStyle::Prefixed,
            layer,
            Section::MixerSharedExpert,
            Proj::Up,
            Half::B,
        ) == spelled(
            "model.layers."@,
            layer,
            "mixer.shared_expert.up_proj.lora_B.weight"@,
        ),
{
    lemma_roots();
    lemma_module_spelled(root, layer, Section::MixerSharedExpert, Proj::Up, "lora_a"@);
    lemma_module_spelled(root, layer, Section::MixerSharedExpert, Proj::Up, "lora_b"@);
    lemma_module_spelled("model"@, layer, Section::MixerSharedExpert, Proj::Up, "lora_A.weight"@);
    lemma_module_spelled("model"@, layer, Section::MixerSharedExpert, Proj::Up, "lora_B.weight"@);
    reveal_strlit(".");
    reveal_strlit("mixer.shared_expert");
    reveal_strlit("up_proj");
    reveal_strlit("weight");
    reveal_strlit("mixer.shared_expert.up_proj.weight");
    assert(
        "mixer.shared_expert"@ + "."@ + "up_proj"@ + "."@
            + "weight"@ =~= "mixer.shared_expert.up_proj.weight"@
    );
    reveal_strlit("lora_a");
    reveal_strlit("mixer.shared_expert.up_proj.lora_a");
    assert(
        "mixer.shared_expert"@ + "."@ + "up_proj"@ + "."@
            + "lora_a"@ =~= "mixer.shared_expert.up_proj.lora_a"@
    );
    reveal_strlit("lora_b");
    reveal_strlit("mixer.shared_expert.up_proj.lora_b");
    assert(
        "mixer.shared_expert"@ + "."@ + "up_proj"@ + "."@
            + "lora_b"@ =~= "mixer.shared_expert.up_proj.lora_b"@
    );
    reveal_strlit("lora_A.weight");
    reveal_strlit("mixer.shared_expert.up_proj.lora_A.weight");
    assert(
        "mixer.shared_expert"@ + "."@ + "up_proj"@ + "."@
            + "lora_A.weight"@ =~= "mixer.shared_expert.up_proj.lora_A.weight"@
    );
    reveal_strlit("lora_B.weight");
    reveal_strlit("mixer.shared_expert.up_proj.lora_B.weight");
    assert(
        "mixer.shared_expert"@ + "."@ + "up_proj"@ + "."@
            + "lora_B.weight"@ =~= "mixer.shared_expert.up_proj.lora_B.weight"@
    );
}

/// `mixer.shared_expert.down_proj` of a layer: the frozen weight, and the adapter's matrices in
/// either style.
pub proof fn law_mixer_shared_expert_down_spelled(root: Seq<char>, layer: nat)
    ensures
        base_name(root, layer, Section::MixerSharedExpert, Proj::Down) == spelled(
            root + ".layers."@,
            layer,
            "mixer.shared_expert.down_proj.weight"@,
        ),
        lora_name(
            NameStyle::Plain,
            layer,
            Section::MixerSharedExpert,
            Proj::Down,
            Half::A,
        ) == spelled(
            "layers."@,
            layer,
            "mixer.shared_expert.down_proj.lora_a"@,
        ),
        lora_name(
            NameStyle::Plain,
            layer,
            Section::MixerSharedExpert,
            Proj::Down,
            Half::B,
        ) == spelled(
            "layers."@,
            layer,
            "mixer.shared_expert.down_proj.lora_b"@,
        ),
        lora_name(
            NameStyle::Prefixed,
            layer,
            Section::MixerSharedExpert,
            Proj::Down,
            Half::A,
        ) == spelled(
            "model.layers."@,
            layer,
            "mixer.shared_expert.down_proj.lora_A.weight"@,
        ),
        lora_name(
            NameStyle::Prefixed,
            layer,
            Section::MixerSharedExpert,
            Proj::Down,
            Half::B,
        ) == spelled(
            "model.layers."@,
            layer,
            "mixer.shared_expert.down_proj.lora_B.weight"@,
        ),
{
    lemma_roots();
    lemma_module_spelled(root, layer, Section::MixerSharedExpert, Proj::Down, "lora_a"@);
    lemma_module_spelled(root, layer, Section::MixerSharedExpert, Proj::Down, "lora_b"@);
    lemma_module_spelled("model"@, layer, Section::MixerSharedExpert, Proj::Down, "lora_A.weight"@);
    lemma_module_spelled("model"@, layer, Section::MixerSharedExpert, Proj::Down, "lora_B.weight"@);
    reveal_strlit(".");
    reveal_strlit("mixer.shared_expert");
    reveal_strlit("down_proj");
    reveal_strlit("weight");
    reveal_strlit("mixer.shared_expert.down_proj.weight");
    assert(
        "mixer.shared_expert"@ + "."@ + "down_proj"@ + "."@
            + "weight"@ =~= "mixer.shared_expert.down_proj.weight"@
    );
    reveal_strlit("lora_a");
    reveal_strlit("mixer.shared_expert.down_proj.lora_a");
    assert(
        "mixer.shared_expert"@ + "."@ + "down_proj"@ + "."@
            + "lora_a"@ =~= "mixer.shared_expert.down_proj.lora_a"@
    );
    reveal_strlit("lora_b");
    reveal_strlit("mixer.shared_expert.down_proj.lora_b");
    assert(
        "mixer.shared_expert"@ + "."@ + "down_proj"@ + "."@
            + "lora_b"@ =~= "mixer.shared_expert.down_proj.lora_b"@
    );
    reveal_strlit("lora_A.weight");
    reveal_strlit("mixer.shared_expert.down_proj.lora_A.weight");
    assert(
        "mixer.shared_expert"@ + "."@ + "down_proj"@ + "."@
            + "lora_A.weight"@ =~= "mixer.shared_expert.down_proj.lora_A.weight"@
    );
    reveal_strlit("lora_B.weight");
    reveal_strlit("mixer.shared_expert.down_proj.lora_B.weight");
    assert(
        "mixer.shared_expert"@ + "."@ + "down_proj"@ + "."@
            + "lora_B.weight"@ =~= "mixer.shared_expert.down_proj.lora_B.weight"@
    );
}

} // verus!
