//! What holds of the named parameters of every stack of layers.

use crate::array::Array;
use crate::names::{
    Half, NameStyle, Section, dotted, layer_name, lemma_lora_name_injective, lora_name,
};
use crate::params::{
    LoraLayer, Place, assigned, distinct_places, half_of, looked_up, lookup, name_at, parameter_map,
    refreshed, trainable_total, trainable_upto, tree_path, with_named,
};
use vstd::prelude::*;

verus! {

proof fn lemma_name_at_injective(
    style: NameStyle,
    l1: nat,
    p1: Seq<Place>,
    j1: int,
    l2: nat,
    p2: Seq<Place>,
    j2: int,
)
    requires
        name_at(style, l1, p1, j1) == name_at(style, l2, p2, j2),
    ensures
        l1 == l2,
        p1[j1 / 2] == p2[j2 / 2],
        half_of(j1) == half_of(j2),
{
    lemma_lora_name_injective(
        style,
        l1,
        p1[j1 / 2].section,
        p1[j1 / 2].proj,
        half_of(j1),
        l2,
        p2[j2 / 2].section,
        p2[j2 / 2].proj,
        half_of(j2),
    );
}

proof fn lemma_same_index(style: NameStyle, layer: nat, places: Seq<Place>, j: int, k: int)
    requires
        distinct_places(places),
        0 <= j < 2 * places.len(),
        0 <= k < 2 * places.len(),
        name_at(style, layer, places, j) == name_at(style, layer, places, k),
    ensures
        j == k,
{
    lemma_name_at_injective(style, layer, places, j, layer, places, k);
    if j / 2 < k / 2 {
        assert(places[j / 2] != places[k / 2]);
    }
    if k / 2 < j / 2 {
        assert(places[k / 2] != places[j / 2]);
    }
}

proof fn lemma_with_named_hit(
    m: Map<Seq<char>, Array>,
    style: NameStyle,
    layer: nat,
    places: Seq<Place>,
    matrices: Seq<Array>,
    n: nat,
    j: int,
)
    requires
        distinct_places(places),
        0 <= j < n <= 2 * places.len(),
    ensures
        with_named(m, style, layer, places, matrices, n).contains_key(
            name_at(style, layer, places, j),
        ),
        with_named(m, style, layer, places, matrices, n)[name_at(style, layer, places, j)]
            == matrices[j],
    decreases n,
{
    if j < n - 1 {
        lemma_with_named_hit(m, style, layer, places, matrices, (n - 1) as nat, j);
        if name_at(style, layer, places, j) == name_at(style, layer, places, n - 1) {
            lemma_same_index(style, layer, places, j, n - 1);
        }
    }
}

/// A name that none of the matrices has keeps what it had.
proof fn lemma_with_named_miss(
    m: Map<Seq<char>, Array>,
    style: NameStyle,
    layer: nat,
    places: Seq<Place>,
    matrices: Seq<Array>,
    n: nat,
    key: Seq<char>,
)
    requires
        forall|j: int| 0 <= j < n ==> #[trigger] name_at(style, layer, places, j) != key,
    ensures
        with_named(m, style, layer, places, matrices, n).contains_key(key) == m.contains_key(key),
        m.contains_key(key) ==> with_named(m, style, layer, places, matrices, n)[key] == m[key],
    decreases n,
{
    if n > 0 {
        lemma_with_named_miss(m, style, layer, places, matrices, (n - 1) as nat, key);
        assert(name_at(style, layer, places, n - 1) != key);
    }
}

proof fn lemma_with_named_count(
    m: Map<Seq<char>, Array>,
    style: NameStyle,
    layer: nat,
    places: Seq<Place>,
    matrices: Seq<Array>,
    n: nat,
)
    requires
        distinct_places(places),
        n <= 2 * places.len(),
        m.dom().finite(),
        forall|j: int|
            0 <= j < 2 * places.len() ==> !m.contains_key(
                #[trigger] name_at(style, layer, places, j),
            ),
    ensures
        with_named(m, style, layer, places, matrices, n).dom().finite(),
        with_named(m, style, layer, places, matrices, n).dom().len() == m.dom().len() + n,
    decreases n,
{
    if n > 0 {
        let before = with_named(m, style, layer, places, matrices, (n - 1) as nat);
        let key = name_at(style, layer, places, n - 1);
        lemma_with_named_count(m, style, layer, places, matrices, (n - 1) as nat);
        assert forall|j: int| 0 <= j < n - 1 implies #[trigger] name_at(style, layer, places, j)
            != key by {
            if name_at(style, layer, places, j) == key {
                lemma_same_index(style, layer, places, j, n - 1);
            }
        }
        lemma_with_named_miss(m, style, layer, places, matrices, (n - 1) as nat, key);
        assert(!m.contains_key(key));
        assert(!before.contains_key(key));
        assert(with_named(m, style, layer, places, matrices, n).dom() =~= before.dom().insert(
            key,
        ));
    }
}

/// Matrix `j` of layer `i` stands in the map under its name.
pub proof fn law_parameter_lookup<T: LoraLayer>(
    style: NameStyle,
    layers: Seq<T>,
    i: int,
    j: int,
)
    requires
        0 <= i < layers.len(),
        0 <= j < layers[i].matrices().len(),
    ensures
        parameter_map(style, layers).contains_key(name_at(style, i as nat, layers[i].places(), j)),
        parameter_map(style, layers)[name_at(style, i as nat, layers[i].places(), j)]
            == layers[i].matrices()[j],
    decreases layers.len(),
{
    let last = layers.last();
    let n = (layers.len() - 1) as nat;
    let rest = layers.drop_last();
    let key = name_at(style, i as nat, layers[i].places(), j);
    last.lemma_layer(last.matrices());
    if i < n {
        law_parameter_lookup(style, rest, i, j);
        assert(rest[i] == layers[i]);
        assert forall|k: int| 0 <= k < last.matrices().len() implies #[trigger] name_at(
            style,
            n,
            last.places(),
            k,
        ) != key by {
            if name_at(style, n, last.places(), k) == key {
                lemma_name_at_injective(
                    style,
                    n,
                    last.places(),
                    k,
                    i as nat,
                    layers[i].places(),
                    j,
                );
            }
        }
        lemma_with_named_miss(
            parameter_map(style, rest),
            style,
            n,
            last.places(),
            last.matrices(),
            last.matrices().len(),
            key,
        );
    } else {
        lemma_with_named_hit(
            parameter_map(style, rest),
            style,
            n,
            last.places(),
            last.matrices(),
            last.matrices().len(),
            j,
        );
    }
}

/// The name is that of a matrix of one of the layers.
pub open spec fn names_matrix<T: LoraLayer>(
    style: NameStyle,
    layers: Seq<T>,
    key: Seq<char>,
) -> bool {
    exists|i: int, j: int|
        0 <= i < layers.len() && 0 <= j < layers[i].matrices().len() && #[trigger] name_at(
            style,
            i as nat,
            layers[i].places(),
            j,
        ) == key
}

/// The map has the names of the layers' matrices and no others.
pub proof fn law_parameter_names<T: LoraLayer>(style: NameStyle, layers: Seq<T>, key: Seq<char>)
    ensures
        parameter_map(style, layers).contains_key(key) <==> names_matrix(style, layers, key),
    decreases layers.len(),
{
    if names_matrix(style, layers, key) {
        let (i, j) = choose|i: int, j: int|
            0 <= i < layers.len() && 0 <= j < layers[i].matrices().len() && #[trigger] name_at(
                style,
                i as nat,
                layers[i].places(),
                j,
            ) == key;
        law_parameter_lookup(style, layers, i, j);
    } else if layers.len() > 0 {
        let last = layers.last();
        let n = (layers.len() - 1) as nat;
        let rest = layers.drop_last();
        law_parameter_names(style, rest, key);
        assert(!names_matrix(style, rest, key)) by {
            if names_matrix(style, rest, key) {
                let (i, j) = choose|i: int, j: int|
                    0 <= i < rest.len() && 0 <= j < rest[i].matrices().len() && #[trigger] name_at(
                        style,
                        i as nat,
                        rest[i].places(),
                        j,
                    ) == key;
                assert(name_at(style, i as nat, layers[i].places(), j) == key);
            }
        }
        assert forall|j: int| 0 <= j < last.matrices().len() implies #[trigger] name_at(
            style,
            n,
            last.places(),
            j,
        ) != key by {
            assert(layers[n as int] == last);
        }
        lemma_with_named_miss(
            parameter_map(style, rest),
            style,
            n,
            last.places(),
            last.matrices(),
            last.matrices().len(),
            key,
        );
    }
}

/// The number of matrices of the first `n` layers.
pub open spec fn matrices_upto<T: LoraLayer>(layers: Seq<T>, n: nat) -> nat
    decreases n,
{
    if n == 0 {
        0
    } else {
        matrices_upto(layers, (n - 1) as nat) + layers[n - 1].matrices().len()
    }
}

proof fn lemma_matrices_upto_agree<T: LoraLayer>(a: Seq<T>, b: Seq<T>, n: nat)
    requires
        forall|i: int| 0 <= i < n ==> a[i] == b[i],
    ensures
        matrices_upto(a, n) == matrices_upto(b, n),
    decreases n,
{
    if n > 0 {
        lemma_matrices_upto_agree(a, b, (n - 1) as nat);
    }
}

/// The map has as many entries as the layers have matrices: no name is used twice.
pub proof fn law_parameter_count<T: LoraLayer>(style: NameStyle, layers: Seq<T>)
    ensures
        parameter_map(style, layers).dom().finite(),
        parameter_map(style, layers).dom().len() == matrices_upto(layers, layers.len()),
    decreases layers.len(),
{
    if layers.len() > 0 {
        let last = layers.last();
        let n = (layers.len() - 1) as nat;
        let rest = layers.drop_last();
        law_parameter_count(style, rest);
        lemma_matrices_upto_agree(layers, rest, n);
        last.lemma_layer(last.matrices());
        assert forall|j: int| 0 <= j < 2 * last.places().len() implies !parameter_map(
            style,
            rest,
        ).contains_key(#[trigger] name_at(style, n, last.places(), j)) by {
            let key = name_at(style, n, last.places(), j);
            law_parameter_names(style, rest, key);
            if names_matrix(style, rest, key) {
                let (i, k) = choose|i: int, k: int|
                    0 <= i < rest.len() && 0 <= k < rest[i].matrices().len() && #[trigger] name_at(
                        style,
                        i as nat,
                        rest[i].places(),
                        k,
                    ) == key;
                lemma_name_at_injective(style, i as nat, rest[i].places(), k, n, last.places(), j);
            }
        }
        lemma_with_named_count(
            parameter_map(style, rest),
            style,
            n,
            last.places(),
            last.matrices(),
            last.matrices().len(),
        );
    }
}

/// Giving layers their own parameters back changes nothing.
pub proof fn law_assign_own<T: LoraLayer>(style: NameStyle, layers: Seq<T>)
    ensures
        assigned(style, layers, parameter_map(style, layers)) == layers,
{
    let params = parameter_map(style, layers);
    assert forall|i: int| 0 <= i < layers.len() implies refreshed(
        style,
        layers[i],
        i as nat,
        params,
    ) == layers[i] by {
        let l = layers[i];
        assert forall|j: int| 0 <= j < l.matrices().len() implies looked_up(
            params,
            style,
            i as nat,
            l.places(),
            l.matrices(),
        )[j] == l.matrices()[j] by {
            law_parameter_lookup(style, layers, i, j);
        }
        assert(looked_up(params, style, i as nat, l.places(), l.matrices()) =~= l.matrices());
        l.lemma_layer(l.matrices());
    }
    assert(assigned(style, layers, params) =~= layers);
}

/// Parameters of which none is named leave the layers as they are.
pub proof fn law_assign_unnamed<T: LoraLayer>(
    style: NameStyle,
    layers: Seq<T>,
    params: Map<Seq<char>, Array>,
)
    requires
        forall|key: Seq<char>|
            names_matrix(style, layers, key) ==> !#[trigger] params.contains_key(key),
    ensures
        assigned(style, layers, params) == layers,
{
    assert forall|i: int| 0 <= i < layers.len() implies refreshed(
        style,
        layers[i],
        i as nat,
        params,
    ) == layers[i] by {
        let l = layers[i];
        assert forall|j: int| 0 <= j < l.matrices().len() implies looked_up(
            params,
            style,
            i as nat,
            l.places(),
            l.matrices(),
        )[j] == l.matrices()[j] by {
            let key = name_at(style, i as nat, l.places(), j);
            assert(names_matrix(style, layers, key));
        }
        assert(looked_up(params, style, i as nat, l.places(), l.matrices()) =~= l.matrices());
        l.lemma_layer(l.matrices());
    }
    assert(assigned(style, layers, params) =~= layers);
}

/// After parameters were set, reading them back gives, under each of the layers' names, what was
/// set under it, or what stood there before where nothing was.
pub proof fn law_assign_then_collect<T: LoraLayer>(
    style: NameStyle,
    layers: Seq<T>,
    params: Map<Seq<char>, Array>,
    key: Seq<char>,
)
    ensures
        parameter_map(style, assigned(style, layers, params)).contains_key(key) == parameter_map(
            style,
            layers,
        ).contains_key(key),
        parameter_map(style, layers).contains_key(key) ==> parameter_map(
            style,
            assigned(style, layers, params),
        )[key] == lookup(params, key, parameter_map(style, layers)[key]),
{
    let after = assigned(style, layers, params);
    law_parameter_names(style, layers, key);
    law_parameter_names(style, after, key);
    assert forall|i: int| 0 <= i < layers.len() implies (#[trigger] after[i]).places()
        == layers[i].places() && after[i].matrices() == looked_up(
        params,
        style,
        i as nat,
        layers[i].places(),
        layers[i].matrices(),
    ) by {
        let l = layers[i];
        l.lemma_layer(looked_up(params, style, i as nat, l.places(), l.matrices()));
    }
    if names_matrix(style, layers, key) {
        let (i, j) = choose|i: int, j: int|
            0 <= i < layers.len() && 0 <= j < layers[i].matrices().len() && #[trigger] name_at(
                style,
                i as nat,
                layers[i].places(),
                j,
            ) == key;
        assert(after[i].places() == layers[i].places());
        assert(name_at(style, i as nat, after[i].places(), j) == key);
        law_parameter_lookup(style, layers, i, j);
        law_parameter_lookup(style, after, i, j);
    }
    if names_matrix(style, after, key) {
        let (i, j) = choose|i: int, j: int|
            0 <= i < after.len() && 0 <= j < after[i].matrices().len() && #[trigger] name_at(
                style,
                i as nat,
                after[i].places(),
                j,
            ) == key;
        assert(after[i].places() == layers[i].places());
        assert(name_at(style, i as nat, layers[i].places(), j) == key);
    }
}

/// Setting the same parameters twice is setting them once; of two settings the later one wins.
pub proof fn law_assign_twice<T: LoraLayer>(
    style: NameStyle,
    layers: Seq<T>,
    params: Map<Seq<char>, Array>,
    later: Map<Seq<char>, Array>,
)
    ensures
        assigned(style, assigned(style, layers, params), later) == assigned(
            style,
            layers,
            params.union_prefer_right(later),
        ),
{
    let once = assigned(style, layers, params);
    let both = params.union_prefer_right(later);
    assert forall|i: int| 0 <= i < layers.len() implies refreshed(style, once[i], i as nat, later)
        == refreshed(style, layers[i], i as nat, both) by {
        let l = layers[i];
        let m = looked_up(params, style, i as nat, l.places(), l.matrices());
        l.lemma_layer(m);
        assert(looked_up(later, style, i as nat, l.places(), m) =~= looked_up(
            both,
            style,
            i as nat,
            l.places(),
            l.matrices(),
        ));
    }
    assert(assigned(style, once, later) =~= assigned(style, layers, both));
}

/// The keys of a path, one behind the other with dots between.
pub open spec fn joined_path(path: Seq<Seq<char>>) -> Seq<char>
    decreases path.len(),
{
    if path.len() == 0 {
        seq![]
    } else if path.len() == 1 {
        path[0]
    } else {
        dotted(joined_path(path.drop_last()), path.last())
    }
}

proof fn lemma_dotted_again(a: Seq<char>, b: Seq<char>, c: Seq<char>)
    ensures
        dotted(a, dotted(b, c)) == dotted(dotted(a, b), c),
{
    assert(dotted(a, dotted(b, c)) =~= dotted(dotted(a, b), c));
}

proof fn lemma_joined_four(a: Seq<char>, b: Seq<char>, c: Seq<char>, d: Seq<char>)
    ensures
        joined_path(seq![a, b, c, d]) == dotted(dotted(dotted(a, b), c), d),
{
    assert(seq![a, b, c, d].drop_last() =~= seq![a, b, c]);
    assert(seq![a, b, c].drop_last() =~= seq![a, b]);
    assert(seq![a, b].drop_last() =~= seq![a]);
    reveal_with_fuel(joined_path, 4);
}

proof fn lemma_joined_five(a: Seq<char>, b: Seq<char>, c: Seq<char>, d: Seq<char>, e: Seq<char>)
    ensures
        joined_path(seq![a, b, c, d, e]) == dotted(dotted(dotted(dotted(a, b), c), d), e),
{
    assert(seq![a, b, c, d, e].drop_last() =~= seq![a, b, c, d]);
    lemma_joined_four(a, b, c, d);
    reveal_with_fuel(joined_path, 2);
}

/// The tree of parameters and the flat map agree: the keys that lead to a matrix, with dots
/// between, are its plain name.
pub proof fn law_tree_path_is_name(layer: nat, place: Place, half: Half)
    ensures
        joined_path(tree_path(layer, place, half)) == lora_name(
            NameStyle::Plain,
            layer,
            place.section,
            place.proj,
            half,
        ),
{
    let end = match half {
        Half::A => "lora_a"@,
        Half::B => "lora_b"@,
        Half::Magnitude => "magnitude"@,
    };
    let first = layer_name(layer);
    let proj = place.proj.name();
    let section = place.section.name();
    match place.section {
        Section::MlpSharedExpert => {
            reveal_strlit("mlp.shared_expert");
            reveal_strlit("mlp");
            reveal_strlit("shared_expert");
            reveal_strlit(".");
            assert(section =~= dotted("mlp"@, "shared_expert"@));
            lemma_joined_five(first, "mlp"@, "shared_expert"@, proj, end);
            lemma_dotted_again(first, "mlp"@, "shared_expert"@);
        },
        Section::MixerSharedExpert => {
            reveal_strlit("mixer.shared_expert");
            reveal_strlit("mixer");
            reveal_strlit("shared_expert");
            reveal_strlit(".");
            assert(section =~= dotted("mixer"@, "shared_expert"@));
            lemma_joined_five(first, "mixer"@, "shared_expert"@, proj, end);
            lemma_dotted_again(first, "mixer"@, "shared_expert"@);
        },
        _ => {
            lemma_joined_four(first, section, proj, end);
        },
    }
    lemma_dotted_again(first, section, proj);
}

/// The number of elements of all arrays of a map together.
pub open spec fn map_elements(m: Map<Seq<char>, Array>) -> int
    decreases m.dom().len(),
    via map_elements_decreases
{
    if m.dom().finite() && m.dom().len() > 0 {
        let k = m.dom().choose();
        m[k].shape.count() + map_elements(m.remove(k))
    } else {
        0
    }
}

#[via_fn]
proof fn map_elements_decreases(m: Map<Seq<char>, Array>) {
    if m.dom().finite() && m.dom().len() > 0 {
        let k = m.dom().choose();
        lemma_chosen(m.dom());
        assert(m.remove(k).dom() =~= m.dom().remove(k));
    }
}

proof fn lemma_chosen(s: Set<Seq<char>>)
    requires
        s.finite(),
        s.len() > 0,
    ensures
        s.contains(s.choose()),
{
    if forall|k: Seq<char>| !s.contains(k) {
        assert(s =~= Set::<Seq<char>>::empty());
    }
}

proof fn lemma_map_elements_insert(m: Map<Seq<char>, Array>, key: Seq<char>, v: Array)
    requires
        m.dom().finite(),
        !m.contains_key(key),
    ensures
        map_elements(m.insert(key, v)) == map_elements(m) + v.shape.count(),
    decreases m.dom().len(),
{
    let more = m.insert(key, v);
    assert(more.dom() =~= m.dom().insert(key));
    let c = more.dom().choose();
    lemma_chosen(more.dom());
    if c == key {
        assert(more.remove(key) =~= m);
    } else {
        let rest = m.remove(c);
        assert(rest.dom() =~= m.dom().remove(c));
        assert(more.remove(c) =~= rest.insert(key, v));
        assert(rest.insert(c, m[c]) =~= m);
        lemma_map_elements_insert(rest, key, v);
        lemma_map_elements_insert(rest, c, m[c]);
    }
}

/// The number of elements of the first `n` arrays.
pub open spec fn elements_upto(matrices: Seq<Array>, n: nat) -> int
    decreases n,
{
    if n == 0 {
        0
    } else {
        elements_upto(matrices, (n - 1) as nat) + matrices[n - 1].shape.count()
    }
}

proof fn lemma_with_named_elements(
    m: Map<Seq<char>, Array>,
    style: NameStyle,
    layer: nat,
    places: Seq<Place>,
    matrices: Seq<Array>,
    n: nat,
)
    requires
        distinct_places(places),
        n <= 2 * places.len(),
        m.dom().finite(),
        forall|j: int|
            0 <= j < 2 * places.len() ==> !m.contains_key(
                #[trigger] name_at(style, layer, places, j),
            ),
    ensures
        map_elements(with_named(m, style, layer, places, matrices, n)) == map_elements(m)
            + elements_upto(matrices, n),
    decreases n,
{
    if n > 0 {
        let before = with_named(m, style, layer, places, matrices, (n - 1) as nat);
        let key = name_at(style, layer, places, n - 1);
        lemma_with_named_elements(m, style, layer, places, matrices, (n - 1) as nat);
        lemma_with_named_count(m, style, layer, places, matrices, (n - 1) as nat);
        assert forall|j: int| 0 <= j < n - 1 implies #[trigger] name_at(style, layer, places, j)
            != key by {
            if name_at(style, layer, places, j) == key {
                lemma_same_index(style, layer, places, j, n - 1);
            }
        }
        lemma_with_named_miss(m, style, layer, places, matrices, (n - 1) as nat, key);
        assert(!m.contains_key(key));
        lemma_map_elements_insert(before, key, matrices[n - 1]);
    }
}

/// The trainable elements of the layer are those of its matrices.
pub open spec fn counts_matrices<T: LoraLayer>(layer: T) -> bool {
    layer.trainable() == elements_upto(layer.matrices(), layer.matrices().len())
}

proof fn lemma_trainable_agree<T: LoraLayer>(a: Seq<T>, b: Seq<T>, n: nat)
    requires
        forall|i: int| 0 <= i < n ==> a[i] == b[i],
    ensures
        trainable_upto(a, n) == trainable_upto(b, n),
    decreases n,
{
    if n > 0 {
        lemma_trainable_agree(a, b, (n - 1) as nat);
    }
}

/// The shapes of all arrays of the parameter map together give the number of trainable elements,
/// where each layer's count is that of its matrices.
pub proof fn law_parameter_elements<T: LoraLayer>(style: NameStyle, layers: Seq<T>)
    requires
        forall|i: int| 0 <= i < layers.len() ==> counts_matrices(#[trigger] layers[i]),
    ensures
        map_elements(parameter_map(style, layers)) == trainable_total(layers),
    decreases layers.len(),
{
    if layers.len() > 0 {
        let last = layers.last();
        let n = (layers.len() - 1) as nat;
        let rest = layers.drop_last();
        law_parameter_elements(style, rest);
        law_parameter_count(style, rest);
        lemma_trainable_agree(layers, rest, n);
        last.lemma_layer(last.matrices());
        assert forall|j: int| 0 <= j < 2 * last.places().len() implies !parameter_map(
            style,
            rest,
        ).contains_key(#[trigger] name_at(style, n, last.places(), j)) by {
            let key = name_at(style, n, last.places(), j);
            law_parameter_names(style, rest, key);
            if names_matrix(style, rest, key) {
                let (i, k) = choose|i: int, k: int|
                    0 <= i < rest.len() && 0 <= k < rest[i].matrices().len() && #[trigger] name_at(
                        style,
                        i as nat,
                        rest[i].places(),
                        k,
                    ) == key;
                lemma_name_at_injective(style, i as nat, rest[i].places(), k, n, last.places(), j);
            }
        }
        lemma_with_named_elements(
            parameter_map(style, rest),
            style,
            n,
            last.places(),
            last.matrices(),
            last.matrices().len(),
        );
        assert(counts_matrices(layers[n as int]));
    } else {
        assert(parameter_map(style, layers).dom() =~= Set::<Seq<char>>::empty());
    }
}

/// The name is that of a half of the adapter at place `k` of layer `i`, and the map has both
/// halves.
pub open spec fn paired<T: LoraLayer>(
    style: NameStyle,
    layers: Seq<T>,
    key: Seq<char>,
    i: int,
    k: int,
) -> bool {
    &&& 0 <= i < layers.len()
    &&& 0 <= k < layers[i].places().len()
    &&& ({
        let p = layers[i].places()[k];
        let a = lora_name(style, i as nat, p.section, p.proj, Half::A);
        let b = lora_name(style, i as nat, p.section, p.proj, Half::B);
        &&& key == a || key == b
        &&& parameter_map(style, layers).contains_key(a)
        &&& parameter_map(style, layers).contains_key(b)
    })
}

/// Every name of the map is that of the one or the other matrix of an adapter, and the other has
/// its name there too.
pub proof fn law_parameter_halves<T: LoraLayer>(style: NameStyle, layers: Seq<T>, key: Seq<char>)
    requires
        parameter_map(style, layers).contains_key(key),
    ensures
        exists|i: int, k: int| paired(style, layers, key, i, k),
{
    law_parameter_names(style, layers, key);
    let (i, j) = choose|i: int, j: int|
        0 <= i < layers.len() && 0 <= j < layers[i].matrices().len() && #[trigger] name_at(
            style,
            i as nat,
            layers[i].places(),
            j,
        ) == key;
    layers[i].lemma_layer(layers[i].matrices());
    let k = j / 2;
    assert((2 * k) / 2 == k && (2 * k + 1) / 2 == k);
    law_parameter_lookup(style, layers, i, 2 * k);
    law_parameter_lookup(style, layers, i, 2 * k + 1);
    assert(paired(style, layers, key, i, k));
}

/// Writing one matrix through the list of trainable matrices changes the parameter map under
/// that matrix's name and nowhere else, and the layers in that matrix and in nothing else.
pub proof fn law_write_one_leaf<T: LoraLayer>(
    style: NameStyle,
    layers: Seq<T>,
    after: Seq<T>,
    leaves: Seq<Seq<Array>>,
    i: int,
    j: int,
    v: Array,
)
    requires
        0 <= i < layers.len(),
        0 <= j < layers[i].matrices().len(),
        after.len() == layers.len(),
        leaves.len() == layers.len(),
        forall|k: int|
            0 <= k < layers.len() && k != i ==> #[trigger] leaves[k] == layers[k].matrices(),
        leaves[i] == layers[i].matrices().update(j, v),
        forall|k: int|
            0 <= k < layers.len() ==> #[trigger] after[k] == layers[k].with_matrices(leaves[k]),
    ensures
        parameter_map(style, after) == parameter_map(style, layers).insert(
            name_at(style, i as nat, layers[i].places(), j),
            v,
        ),
        forall|k: int| 0 <= k < layers.len() && k != i ==> #[trigger] after[k] == layers[k],
        after[i].with_matrices(layers[i].matrices()) == layers[i],
{
    let name = name_at(style, i as nat, layers[i].places(), j);
    let was = parameter_map(style, layers);
    let now = parameter_map(style, after);
    assert forall|k: int| 0 <= k < layers.len() && k != i implies #[trigger] after[k]
        == layers[k] by {
        assert(leaves[k] == layers[k].matrices());
        layers[k].lemma_layer(layers[k].matrices());
    }
    layers[i].lemma_layer(layers[i].matrices());
    layers[i].lemma_layer(leaves[i]);
    assert(after[i] == layers[i].with_matrices(leaves[i]));
    assert forall|key: Seq<char>| #[trigger] now.contains_key(key) == was.insert(
        name,
        v,
    ).contains_key(key) by {
        law_parameter_names(style, layers, key);
        law_parameter_names(style, after, key);
        if names_matrix(style, layers, key) {
            let (l, k) = choose|l: int, k: int|
                0 <= l < layers.len() && 0 <= k < layers[l].matrices().len() && #[trigger] name_at(
                    style,
                    l as nat,
                    layers[l].places(),
                    k,
                ) == key;
            assert(after[l].places() == layers[l].places());
            assert(name_at(style, l as nat, after[l].places(), k) == key);
        }
        if names_matrix(style, after, key) {
            let (l, k) = choose|l: int, k: int|
                0 <= l < after.len() && 0 <= k < after[l].matrices().len() && #[trigger] name_at(
                    style,
                    l as nat,
                    after[l].places(),
                    k,
                ) == key;
            assert(after[l].places() == layers[l].places());
            assert(name_at(style, l as nat, layers[l].places(), k) == key);
        }
        law_parameter_lookup(style, layers, i, j);
    }
    assert forall|key: Seq<char>| #[trigger] now.contains_key(key) implies now[key] == was.insert(
        name,
        v,
    )[key] by {
        law_parameter_names(style, after, key);
        let (l, k) = choose|l: int, k: int|
            0 <= l < after.len() && 0 <= k < after[l].matrices().len() && #[trigger] name_at(
                style,
                l as nat,
                after[l].places(),
                k,
            ) == key;
        assert(after[l].places() == layers[l].places());
        law_parameter_lookup(style, after, l, k);
        law_parameter_lookup(style, layers, l, k);
        if key == name {
            lemma_name_at_injective(
                style,
                l as nat,
                layers[l].places(),
                k,
                i as nat,
                layers[i].places(),
                j,
            );
            lemma_same_index(style, i as nat, layers[i].places(), k, j);
        }
    }
    assert(now =~= was.insert(name, v));
}

/// The path of matrix `j` of layer `i` in the tree of parameters, with dots between its keys.
pub open spec fn leaf_path<T: LoraLayer>(layers: Seq<T>, i: int, j: int) -> Seq<char> {
    joined_path(tree_path(i as nat, layers[i].places()[j / 2], half_of(j)))
}

/// The paths of the matrices are the names of the parameter map, each once.
pub proof fn law_leaf_paths<T: LoraLayer>(layers: Seq<T>, i: int, j: int, l: int, k: int)
    requires
        0 <= i < layers.len(),
        0 <= j < layers[i].matrices().len(),
        0 <= l < layers.len(),
        0 <= k < layers[l].matrices().len(),
    ensures
        leaf_path(layers, i, j) == name_at(NameStyle::Plain, i as nat, layers[i].places(), j),
        parameter_map(NameStyle::Plain, layers).contains_key(leaf_path(layers, i, j)),
        parameter_map(NameStyle::Plain, layers)[leaf_path(layers, i, j)] == layers[i].matrices()[j],
        leaf_path(layers, i, j) == leaf_path(layers, l, k) ==> i == l && j == k,
{
    let style = NameStyle::Plain;
    let p = layers[i].places();
    let q = layers[l].places();
    law_tree_path_is_name(i as nat, p[j / 2], half_of(j));
    law_tree_path_is_name(l as nat, q[k / 2], half_of(k));
    law_parameter_lookup(style, layers, i, j);
    if leaf_path(layers, i, j) == leaf_path(layers, l, k) {
        lemma_name_at_injective(style, i as nat, p, j, l as nat, q, k);
        layers[i].lemma_layer(layers[i].matrices());
        lemma_same_index(style, i as nat, p, j, k);
    }
}

/// The map has no name but the paths of the matrices.
pub proof fn law_every_name_is_a_path<T: LoraLayer>(layers: Seq<T>, key: Seq<char>)
    requires
        parameter_map(NameStyle::Plain, layers).contains_key(key),
    ensures
        exists|i: int, j: int|
            0 <= i < layers.len() && 0 <= j < layers[i].matrices().len() && #[trigger] leaf_path(
                layers,
                i,
                j,
            ) == key,
{
    let style = NameStyle::Plain;
    law_parameter_names(style, layers, key);
    let (i, j) = choose|i: int, j: int|
        0 <= i < layers.len() && 0 <= j < layers[i].matrices().len() && #[trigger] name_at(
            style,
            i as nat,
            layers[i].places(),
            j,
        ) == key;
    law_leaf_paths(layers, i, j, i, j);
}

/// Layers with the same matrices in the same places have the same parameter map.
pub proof fn lemma_same_map<T: LoraLayer>(style: NameStyle, a: Seq<T>, b: Seq<T>)
    requires
        a.len() == b.len(),
        forall|i: int|
            0 <= i < a.len() ==> (#[trigger] a[i]).matrices() == b[i].matrices() && a[i].places()
                == b[i].places(),
    ensures
        parameter_map(style, a) == parameter_map(style, b),
    decreases a.len(),
{
    if a.len() > 0 {
        let n = a.len() - 1;
        assert(a[n].matrices() == b[n].matrices() && a[n].places() == b[n].places());
        assert forall|i: int| 0 <= i < n implies (#[trigger] a.drop_last()[i]).matrices()
            == b.drop_last()[i].matrices() && a.drop_last()[i].places()
            == b.drop_last()[i].places() by {
            assert(a[i].matrices() == b[i].matrices());
        }
        lemma_same_map(style, a.drop_last(), b.drop_last());
    }
}

} // verus!
