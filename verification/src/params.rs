//! The trainable parameters of a stack of layers, by name.

use crate::array::Array;
use crate::lora::Adapter;
use crate::name_map::NameMap;
use crate::names::{
    Half, NameStyle, Proj, Section, layer_name, lora_name, make_layer_name, make_lora_name,
};
use vstd::prelude::*;

verus! {

/// Where in its layer an adapter sits.
#[derive(Clone, Copy, PartialEq, Eq, Structural, Debug)]
pub struct Place {
    pub section: Section,
    pub proj: Proj,
}

pub open spec fn at(section: Section, proj: Proj) -> Place {
    Place { section, proj }
}

/// No two adapters of a layer share a place.
pub open spec fn distinct_places(places: Seq<Place>) -> bool {
    forall|i: int, j: int|
        0 <= i < j < places.len() ==> #[trigger] places[i] != #[trigger] places[j]
}

/// Matrices alternate: `A` and `B` of the first adapter, `A` and `B` of the second, and so on.
pub open spec fn half_of(j: int) -> Half {
    if j % 2 == 0 {
        Half::A
    } else {
        Half::B
    }
}

/// The name of matrix `j` of a layer.
pub open spec fn name_at(style: NameStyle, layer: nat, places: Seq<Place>, j: int) -> Seq<char> {
    lora_name(style, layer, places[j / 2].section, places[j / 2].proj, half_of(j))
}

/// The map with the first `n` matrices of a layer under their names.
pub open spec fn with_named(
    m: Map<Seq<char>, Array>,
    style: NameStyle,
    layer: nat,
    places: Seq<Place>,
    matrices: Seq<Array>,
    n: nat,
) -> Map<Seq<char>, Array>
    decreases n,
{
    if n == 0 {
        m
    } else {
        with_named(m, style, layer, places, matrices, (n - 1) as nat).insert(
            name_at(style, layer, places, n - 1),
            matrices[n - 1],
        )
    }
}

/// The value of a name, or what stands in for one.
pub open spec fn lookup(m: Map<Seq<char>, Array>, name: Seq<char>, other: Array) -> Array {
    if m.contains_key(name) {
        m[name]
    } else {
        other
    }
}

/// The matrices of a layer, each replaced where the map has its name.
pub open spec fn looked_up(
    m: Map<Seq<char>, Array>,
    style: NameStyle,
    layer: nat,
    places: Seq<Place>,
    matrices: Seq<Array>,
) -> Seq<Array> {
    Seq::new(
        matrices.len(),
        |j: int| lookup(m, name_at(style, layer, places, j), matrices[j]),
    )
}

/// A trainable matrix, where it sits and what it is.
pub struct ParamRef<'a> {
    pub place: Place,
    pub half: Half,
    pub value: &'a Array,
}

/// A trainable matrix that can be replaced.
pub struct ParamMut<'a> {
    pub place: Place,
    pub half: Half,
    pub value: &'a mut Array,
}

/// The trainable matrices of one layer.
pub struct LayerParamRef<'a> {
    pub layer: usize,
    pub entries: Vec<ParamRef<'a>>,
}

/// The trainable matrices of one layer, open to replacement.
pub struct LayerParamMut<'a> {
    pub layer: usize,
    pub entries: Vec<ParamMut<'a>>,
}

/// The keys that lead from the root of the parameter tree to a matrix.
pub open spec fn tree_path(layer: nat, place: Place, half: Half) -> Seq<Seq<char>> {
    let end = match half {
        Half::A => "lora_a"@,
        Half::B => "lora_b"@,
        Half::Magnitude => "magnitude"@,
    };
    match place.section {
        Section::MlpSharedExpert => seq![
            layer_name(layer),
            "mlp"@,
            "shared_expert"@,
            place.proj.name(),
            end,
        ],
        Section::MixerSharedExpert => seq![
            layer_name(layer),
            "mixer"@,
            "shared_expert"@,
            place.proj.name(),
            end,
        ],
        _ => seq![layer_name(layer), place.section.name(), place.proj.name(), end],
    }
}

/// The keys that lead from the root of the parameter tree to a matrix.
pub fn make_tree_path(layer: usize, place: Place, half: Half) -> (r: Vec<String>)
    ensures
        r@.len() == tree_path(layer as nat, place, half).len(),
        forall|i: int|
            0 <= i < r@.len() ==> (#[trigger] r@[i])@ == tree_path(layer as nat, place, half)[i],
{
    let mut r: Vec<String> = Vec::new();
    r.push(make_layer_name(layer));
    match place.section {
        Section::MlpSharedExpert => {
            r.push(String::from_str("mlp"));
            r.push(String::from_str("shared_expert"));
        },
        Section::MixerSharedExpert => {
            r.push(String::from_str("mixer"));
            r.push(String::from_str("shared_expert"));
        },
        _ => {
            r.push(String::from_str(place.section.as_str()));
        },
    }
    r.push(String::from_str(place.proj.as_str()));
    match half {
        Half::A => r.push(String::from_str("lora_a")),
        Half::B => r.push(String::from_str("lora_b")),
        Half::Magnitude => r.push(String::from_str("magnitude")),
    }
    r
}

/// A layer with adapters.
pub trait LoraLayer: Sized {
    /// Where the adapters sit.
    spec fn places(self) -> Seq<Place>;

    /// The matrices of the adapters.
    spec fn matrices(self) -> Seq<Array>;

    /// The layer with other matrices.
    spec fn with_matrices(self, m: Seq<Array>) -> Self;

    /// The number of trainable elements.
    spec fn trainable(self) -> nat;

    /// The trainable elements can be counted.
    spec fn countable(self) -> bool;

    /// Replacing the matrices of a layer replaces them and nothing else.
    proof fn lemma_layer(self, m: Seq<Array>)
        requires
            m.len() == self.matrices().len(),
        ensures
            self.matrices().len() == 2 * self.places().len(),
            distinct_places(self.places()),
            self.with_matrices(m).matrices() == m,
            self.with_matrices(m).places() == self.places(),
            self.with_matrices(self.matrices()) == self,
            forall|n: Seq<Array>| #[trigger]
                self.with_matrices(m).with_matrices(n) == self.with_matrices(n),
    ;

    fn collect(&self, params: &mut NameMap<Array>, style: NameStyle, layer: usize)
        ensures
            final(params)@ == with_named(
                old(params)@,
                style,
                layer as nat,
                self.places(),
                self.matrices(),
                self.matrices().len(),
            ),
    ;

    fn assign(&mut self, params: &NameMap<Array>, style: NameStyle, layer: usize)
        ensures
            *final(self) == old(self).with_matrices(
                looked_up(
                    params@,
                    style,
                    layer as nat,
                    old(self).places(),
                    old(self).matrices(),
                ),
            ),
    ;

    fn refs<'a>(&'a self) -> (r: Vec<ParamRef<'a>>)
        ensures
            r@.len() == self.matrices().len(),
            forall|j: int|
                0 <= j < r@.len() ==> {
                    &&& (#[trigger] r@[j]).place == self.places()[j / 2]
                    &&& r@[j].half == half_of(j)
                    &&& *r@[j].value == self.matrices()[j]
                },
    ;

    fn refs_mut<'a>(&'a mut self) -> (r: Vec<ParamMut<'a>>)
        ensures
            r@.len() == old(self).matrices().len(),
            forall|j: int|
                0 <= j < r@.len() ==> {
                    &&& (#[trigger] r@[j]).place == old(self).places()[j / 2]
                    &&& r@[j].half == half_of(j)
                    &&& *r@[j].value == old(self).matrices()[j]
                },
            *final(self) == old(self).with_matrices(
                Seq::new(r@.len(), |j: int| *final(r@[j].value)),
            ),
    ;

    fn count(&self) -> (r: usize)
        requires
            self.countable(),
            self.trainable() <= usize::MAX,
        ensures
            r == self.trainable(),
    ;
}

/// All trainable matrices of a stack of layers, under their names.
pub open spec fn parameter_map<T: LoraLayer>(style: NameStyle, layers: Seq<T>) -> Map<
    Seq<char>,
    Array,
>
    decreases layers.len(),
{
    if layers.len() == 0 {
        Map::empty()
    } else {
        let last = layers.last();
        with_named(
            parameter_map(style, layers.drop_last()),
            style,
            (layers.len() - 1) as nat,
            last.places(),
            last.matrices(),
            last.matrices().len(),
        )
    }
}

/// A layer whose matrices are replaced where the map has their names.
pub open spec fn refreshed<T: LoraLayer>(
    style: NameStyle,
    layer: T,
    i: nat,
    params: Map<Seq<char>, Array>,
) -> T {
    layer.with_matrices(looked_up(params, style, i, layer.places(), layer.matrices()))
}

/// The layers, each with its matrices replaced where the map has their names.
pub open spec fn assigned<T: LoraLayer>(
    style: NameStyle,
    layers: Seq<T>,
    params: Map<Seq<char>, Array>,
) -> Seq<T> {
    Seq::new(layers.len(), |i: int| refreshed(style, layers[i], i as nat, params))
}

/// The number of trainable elements of the first `n` layers.
pub open spec fn trainable_upto<T: LoraLayer>(layers: Seq<T>, n: nat) -> nat
    decreases n,
{
    if n == 0 {
        0
    } else {
        trainable_upto(layers, (n - 1) as nat) + layers[n - 1].trainable()
    }
}

/// The number of trainable elements of a stack of layers.
pub open spec fn trainable_total<T: LoraLayer>(layers: Seq<T>) -> nat {
    trainable_upto(layers, layers.len())
}

/// The trainable elements of a stack of layers can be counted.
pub open spec fn stack_countable<T: LoraLayer>(layers: Seq<T>) -> bool {
    &&& forall|i: int| 0 <= i < layers.len() ==> (#[trigger] layers[i]).countable()
    &&& trainable_total(layers) <= usize::MAX
}

/// The number of layers with adapters among the first `n`.
pub open spec fn adapted_before<T: LoraLayer>(layers: Seq<T>, n: nat) -> nat
    decreases n,
{
    if n == 0 {
        0
    } else {
        adapted_before(layers, (n - 1) as nat) + if layers[n - 1].matrices().len() > 0 {
            1nat
        } else {
            0nat
        }
    }
}

pub(crate) fn collect_parameters<T: LoraLayer>(layers: &Vec<T>, style: NameStyle) -> (r: NameMap<
    Array,
>)
    ensures
        r@ == parameter_map(style, layers@),
{
    let mut params: NameMap<Array> = NameMap::new();
    let mut i: usize = 0;
    proof {
        assert(layers@.take(0) =~= Seq::<T>::empty());
    }
    while i < layers.len()
        invariant
            i <= layers.len(),
            params@ == parameter_map(style, layers@.take(i as int)),
        decreases layers.len() - i,
    {
        layers[i].collect(&mut params, style, i);
        proof {
            assert(layers@.take(i + 1).drop_last() =~= layers@.take(i as int));
        }
        i = i + 1;
    }
    proof {
        assert(layers@.take(i as int) =~= layers@);
    }
    params
}

pub(crate) fn assign_parameters<T: LoraLayer>(
    layers: &mut Vec<T>,
    params: &NameMap<Array>,
    style: NameStyle,
)
    ensures
        final(layers)@ == assigned(style, old(layers)@, params@),
{
    let ghost before = layers@;
    let mut i: usize = 0;
    while i < layers.len()
        invariant
            i <= layers.len(),
            layers@.len() == before.len(),
            forall|j: int|
                0 <= j < i ==> #[trigger] layers@[j] == refreshed(
                    style,
                    before[j],
                    j as nat,
                    params@,
                ),
            forall|j: int| i <= j < before.len() ==> #[trigger] layers@[j] == before[j],
        decreases layers.len() - i,
    {
        layers[i].assign(params, style, i);
        i = i + 1;
    }
    proof {
        assert(layers@ =~= assigned(style, before, params@));
    }
}

proof fn lemma_trainable_monotonic<T: LoraLayer>(layers: Seq<T>, m: nat, n: nat)
    requires
        m <= n,
    ensures
        trainable_upto(layers, m) <= trainable_upto(layers, n),
    decreases n,
{
    if m < n {
        lemma_trainable_monotonic(layers, m, (n - 1) as nat);
    }
}

pub(crate) fn count_trainable<T: LoraLayer>(layers: &Vec<T>) -> (r: usize)
    requires
        stack_countable(layers@),
    ensures
        r == trainable_total(layers@),
{
    let mut total: usize = 0;
    let mut i: usize = 0;
    while i < layers.len()
        invariant
            i <= layers.len(),
            stack_countable(layers@),
            total == trainable_upto(layers@, i as nat),
        decreases layers.len() - i,
    {
        proof {
            lemma_trainable_monotonic(layers@, (i + 1) as nat, layers@.len());
        }
        total = total + layers[i].count();
        i = i + 1;
    }
    total
}

/// Group `g` lists the matrices of layer `i`.
pub open spec fn lists_layer<T: LoraLayer>(g: LayerParamRef, layer: T, i: int) -> bool {
    &&& g.layer == i
    &&& g.entries@.len() == layer.matrices().len()
    &&& forall|j: int|
        0 <= j < g.entries@.len() ==> {
            &&& (#[trigger] g.entries@[j]).place == layer.places()[j / 2]
            &&& g.entries@[j].half == half_of(j)
            &&& *g.entries@[j].value == layer.matrices()[j]
        }
}

/// The groups list the matrices of the layers that have any, in order.
pub open spec fn lists_stack<T: LoraLayer>(groups: Seq<LayerParamRef>, layers: Seq<T>) -> bool {
    &&& groups.len() == adapted_before(layers, layers.len())
    &&& forall|i: int|
        0 <= i < layers.len() && (#[trigger] layers[i]).matrices().len() > 0 ==> lists_layer(
            groups[adapted_before(layers, i as nat) as int],
            layers[i],
            i,
        )
}

proof fn lemma_adapted_monotonic<T: LoraLayer>(layers: Seq<T>, m: nat, n: nat)
    requires
        m <= n,
    ensures
        adapted_before(layers, m) <= adapted_before(layers, n) <= adapted_before(layers, m) + (n
            - m),
    decreases n,
{
    if m < n {
        lemma_adapted_monotonic(layers, m, (n - 1) as nat);
    }
}

pub(crate) fn parameter_refs<'a, T: LoraLayer>(layers: &'a Vec<T>) -> (r: Vec<LayerParamRef<'a>>)
    ensures
        lists_stack(r@, layers@),
{
    let mut r: Vec<LayerParamRef<'a>> = Vec::new();
    let mut i: usize = 0;
    while i < layers.len()
        invariant
            i <= layers.len(),
            r@.len() == adapted_before(layers@, i as nat),
            forall|k: int|
                0 <= k < i && (#[trigger] layers@[k]).matrices().len() > 0 ==> lists_layer(
                    r@[adapted_before(layers@, k as nat) as int],
                    layers@[k],
                    k,
                ),
        decreases layers.len() - i,
    {
        let ghost before = r@;
        let entries = layers[i].refs();
        if entries.len() > 0 {
            r.push(LayerParamRef { layer: i, entries });
        }
        proof {
            assert forall|k: int|
                0 <= k < i + 1 && (#[trigger] layers@[k]).matrices().len() > 0 implies lists_layer(
                r@[adapted_before(layers@, k as nat) as int],
                layers@[k],
                k,
            ) by {
                if k < i {
                    lemma_adapted_monotonic(layers@, (k + 1) as nat, i as nat);
                }
            }
        }
        i = i + 1;
    }
    r
}

proof fn lemma_adapted_front<T: LoraLayer>(layers: Seq<T>, n: nat)
    requires
        1 <= n <= layers.len(),
    ensures
        adapted_before(layers, n) == adapted_before(layers, 1) + adapted_before(
            layers.subrange(1, layers.len() as int),
            (n - 1) as nat,
        ),
    decreases n,
{
    if n > 1 {
        lemma_adapted_front(layers, (n - 1) as nat);
        assert(layers.subrange(1, layers.len() as int)[n - 2] == layers[n - 1]);
    }
}

fn parameter_refs_mut<'a, T: LoraLayer>(layers: &'a mut [T], base: usize) -> (r: Vec<
    LayerParamMut<'a>,
>)
    requires
        base + layers@.len() <= usize::MAX,
    ensures
        r@.len() == adapted_before(old(layers)@, old(layers)@.len()),
        final(layers)@.len() == old(layers)@.len(),
        forall|i: int|
            0 <= i < old(layers)@.len() && (#[trigger] old(layers)@[i]).matrices().len() > 0 ==> {
                let g = r@[adapted_before(old(layers)@, i as nat) as int];
                &&& g.layer == base + i
                &&& g.entries@.len() == old(layers)@[i].matrices().len()
                &&& forall|j: int|
                    0 <= j < g.entries@.len() ==> {
                        &&& (#[trigger] g.entries@[j]).place == old(layers)@[i].places()[j / 2]
                        &&& g.entries@[j].half == half_of(j)
                        &&& *g.entries@[j].value == old(layers)@[i].matrices()[j]
                    }
            },
        forall|i: int|
            #![trigger final(layers)@[i]]
            0 <= i < old(layers)@.len() ==> {
                let was = old(layers)@[i];
                let k = adapted_before(old(layers)@, i as nat) as int;
                &&& was.matrices().len() == 0 ==> final(layers)@[i] == was
                &&& was.matrices().len() > 0 ==> final(layers)@[i] == was.with_matrices(
                    Seq::new(r@[k].entries@.len(), |j: int| *final(r@[k].entries@[j].value)),
                )
            },
    decreases old(layers)@.len(),
{
    let mut v: Vec<LayerParamMut<'a>> = Vec::new();
    let ghost before = layers@;
    if layers.len() > 0 {
        let (head, tail) = layers.split_at_mut(1);
        let ghost rest = tail@;
        let ghost first = head@[0];
        let entries = head[0].refs_mut();
        proof {
            assert(rest =~= before.subrange(1, before.len() as int));
            first.lemma_layer(first.matrices());
            assert forall|n: nat| 1 <= n <= before.len() implies #[trigger] adapted_before(
                before,
                n,
            ) == adapted_before(before, 1) + adapted_before(rest, (n - 1) as nat) by {
                lemma_adapted_front(before, n);
            }
            reveal_with_fuel(adapted_before, 2);
        }
        if entries.len() > 0 {
            v.push(LayerParamMut { layer: base, entries });
        } else {
            assert(Seq::new(entries@.len(), |j: int| *final(entries@[j].value))
                =~= first.matrices());
        }
        let ghost skip = v@.len();
        let mut w = parameter_refs_mut(tail, base + 1);
        let ghost added = w@;
        v.append(&mut w);
        proof {
            assert forall|i: int|
                1 <= i < before.len() && (#[trigger] before[i]).matrices().len() > 0 implies {
                let k = adapted_before(rest, (i - 1) as nat) as int;
                &&& rest[i - 1] == before[i]
                &&& 0 <= k < added.len()
                &&& adapted_before(before, i as nat) == skip + k
                &&& v@[skip + k] == added[k]
            } by {
                assert(rest[i - 1] == before[i]);
                lemma_adapted_monotonic(rest, i as nat, rest.len());
            }
            assert forall|i: int| 1 <= i < before.len() implies {
                let k = adapted_before(rest, (i - 1) as nat) as int;
                &&& #[trigger] before[i] == rest[i - 1]
                &&& before[i].matrices().len() > 0 ==> Seq::new(
                    v@[skip + k].entries@.len(),
                    |j: int| *final(v@[skip + k].entries@[j].value),
                ) == Seq::new(added[k].entries@.len(), |j: int| *final(added[k].entries@[j].value))
            } by {
                let k = adapted_before(rest, (i - 1) as nat) as int;
                if before[i].matrices().len() > 0 {
                    assert(v@[skip + k] == added[k]);
                    assert(Seq::new(
                        v@[skip + k].entries@.len(),
                        |j: int| *final(v@[skip + k].entries@[j].value),
                    ) =~= Seq::new(
                        added[k].entries@.len(),
                        |j: int| *final(added[k].entries@[j].value),
                    ));
                }
            }
        }
    }
    v
}

pub(crate) fn stack_refs_mut<'a, T: LoraLayer>(layers: &'a mut Vec<T>) -> (r: Vec<
    LayerParamMut<'a>,
>)
    ensures
        r@.len() == adapted_before(old(layers)@, old(layers)@.len()),
        final(layers)@.len() == old(layers)@.len(),
        forall|i: int|
            0 <= i < old(layers)@.len() && (#[trigger] old(layers)@[i]).matrices().len() > 0 ==> {
                let g = r@[adapted_before(old(layers)@, i as nat) as int];
                &&& g.layer == i
                &&& g.entries@.len() == old(layers)@[i].matrices().len()
                &&& forall|j: int|
                    0 <= j < g.entries@.len() ==> {
                        &&& (#[trigger] g.entries@[j]).place == old(layers)@[i].places()[j / 2]
                        &&& g.entries@[j].half == half_of(j)
                        &&& *g.entries@[j].value == old(layers)@[i].matrices()[j]
                    }
            },
        forall|i: int|
            #![trigger final(layers)@[i]]
            0 <= i < old(layers)@.len() ==> {
                let was = old(layers)@[i];
                let k = adapted_before(old(layers)@, i as nat) as int;
                &&& was.matrices().len() == 0 ==> final(layers)@[i] == was
                &&& was.matrices().len() > 0 ==> final(layers)@[i] == was.with_matrices(
                    Seq::new(r@[k].entries@.len(), |j: int| *final(r@[k].entries@[j].value)),
                )
            },
{
    let n = layers.len();
    assert(n <= usize::MAX);
    parameter_refs_mut(layers.as_mut_slice(), 0)
}

/// An adapter with its matrices replaced where the map has their names.
pub open spec fn renewed<L: Adapter>(
    l: L,
    params: Map<Seq<char>, Array>,
    style: NameStyle,
    layer: nat,
    section: Section,
    proj: Proj,
) -> L {
    l.with(
        lookup(params, lora_name(style, layer, section, proj, Half::A), l.a()),
        lookup(params, lora_name(style, layer, section, proj, Half::B), l.b()),
    )
}

pub(crate) fn collect_adapter<L: Adapter>(
    l: &L,
    params: &mut NameMap<Array>,
    style: NameStyle,
    layer: usize,
    section: Section,
    proj: Proj,
)
    ensures
        final(params)@ == old(params)@.insert(
            lora_name(style, layer as nat, section, proj, Half::A),
            l.a(),
        ).insert(lora_name(style, layer as nat, section, proj, Half::B), l.b()),
{
    params.insert(make_lora_name(style, layer, section, proj, Half::A), l.matrix_a().clone());
    params.insert(make_lora_name(style, layer, section, proj, Half::B), l.matrix_b().clone());
}

fn find(params: &NameMap<Array>, name: &String, other: &Array) -> (r: Array)
    ensures
        r == lookup(params@, name@, *other),
{
    match params.get(name) {
        Some(x) => x.clone(),
        None => other.clone(),
    }
}

pub(crate) fn assign_adapter<L: Adapter>(
    l: &mut L,
    params: &NameMap<Array>,
    style: NameStyle,
    layer: usize,
    section: Section,
    proj: Proj,
)
    ensures
        *final(l) == renewed(*old(l), params@, style, layer as nat, section, proj),
{
    let a = find(params, &make_lora_name(style, layer, section, proj, Half::A), l.matrix_a());
    let b = find(params, &make_lora_name(style, layer, section, proj, Half::B), l.matrix_b());
    l.put(a, b);
}

pub(crate) fn push_refs<'a, L: Adapter>(
    l: &'a L,
    section: Section,
    proj: Proj,
    out: &mut Vec<ParamRef<'a>>,
)
    ensures
        final(out)@ == old(out)@.push(
            ParamRef { place: at(section, proj), half: Half::A, value: &l.a() },
        ).push(ParamRef { place: at(section, proj), half: Half::B, value: &l.b() }),
{
    let place = Place { section, proj };
    out.push(ParamRef { place, half: Half::A, value: l.matrix_a() });
    out.push(ParamRef { place, half: Half::B, value: l.matrix_b() });
}

pub(crate) fn adapter_refs_mut<'a, L: Adapter>(l: &'a mut L, section: Section, proj: Proj) -> (r: (
    ParamMut<'a>,
    ParamMut<'a>,
))
    ensures
        r.0.place == at(section, proj),
        r.1.place == at(section, proj),
        r.0.half == Half::A,
        r.1.half == Half::B,
        *r.0.value == old(l).a(),
        *r.1.value == old(l).b(),
        *final(l) == old(l).with(*final(r.0.value), *final(r.1.value)),
{
    let place = Place { section, proj };
    let (a, b) = l.matrices_mut();
    (
        ParamMut { place, half: Half::A, value: a },
        ParamMut { place, half: Half::B, value: b },
    )
}

} // verus!
