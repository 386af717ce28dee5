//! The dotted names of modules and parameters.

use crate::moe::Router;
use vstd::prelude::*;
use vstd::string::*;

verus! {

/// The character of a decimal digit.
pub open spec fn digit_char(d: nat) -> char {
    if d == 0 {
        '0'
    } else if d == 1 {
        '1'
    } else if d == 2 {
        '2'
    } else if d == 3 {
        '3'
    } else if d == 4 {
        '4'
    } else if d == 5 {
        '5'
    } else if d == 6 {
        '6'
    } else if d == 7 {
        '7'
    } else if d == 8 {
        '8'
    } else {
        '9'
    }
}

/// A number in decimal notation.
pub open spec fn decimal(n: nat) -> Seq<char>
    decreases n,
{
    if n < 10 {
        seq![digit_char(n)]
    } else {
        decimal(n / 10).push(digit_char(n % 10))
    }
}

/// `head.tail`.
pub open spec fn dotted(head: Seq<char>, tail: Seq<char>) -> Seq<char> {
    head + "."@ + tail
}

/// The part of a decoder layer that holds a projection.
#[derive(Clone, Copy, PartialEq, Eq, Structural, Debug)]
pub enum Section {
    SelfAttn,
    CrossAttn,
    LinearAttn,
    Mlp,
    MlpSharedExpert,
    Mixer,
    MixerSharedExpert,
}

/// A projection with an adapter.
#[derive(Clone, Copy, PartialEq, Eq, Structural, Debug)]
pub enum Proj {
    Q,
    K,
    V,
    O,
    Gate,
    Up,
    Down,
    GateUp,
    InQkv,
    InZ,
    Out,
    Router,
}

/// A trainable array of an adapter: one of its two matrices, or the magnitudes of its rows.
#[derive(Clone, Copy, PartialEq, Eq, Structural, Debug)]
pub enum Half {
    A,
    B,
    Magnitude,
}

/// How the matrices of an adapter are named.
#[derive(Clone, Copy, PartialEq, Eq, Structural, Debug)]
pub enum NameStyle {
    /// `layers.0.self_attn.q_proj.lora_a`.
    Plain,
    /// `model.layers.0.self_attn.q_proj.lora_A.weight`.
    Prefixed,
}

impl Section {
    pub open spec fn name(self) -> Seq<char> {
        match self {
            Section::SelfAttn => "self_attn"@,
            Section::CrossAttn => "cross_attn"@,
            Section::LinearAttn => "linear_attn"@,
            Section::Mlp => "mlp"@,
            Section::MlpSharedExpert => "mlp.shared_expert"@,
            Section::Mixer => "mixer"@,
            Section::MixerSharedExpert => "mixer.shared_expert"@,
        }
    }

    pub fn as_str(&self) -> (r: &'static str)
        ensures
            r@ == self.name(),
    {
        match *self {
            Section::SelfAttn => "self_attn",
            Section::CrossAttn => "cross_attn",
            Section::LinearAttn => "linear_attn",
            Section::Mlp => "mlp",
            Section::MlpSharedExpert => "mlp.shared_expert",
            Section::Mixer => "mixer",
            Section::MixerSharedExpert => "mixer.shared_expert",
        }
    }
}

impl Proj {
    pub open spec fn name(self) -> Seq<char> {
        match self {
            Proj::Q => "q_proj"@,
            Proj::K => "k_proj"@,
            Proj::V => "v_proj"@,
            Proj::O => "o_proj"@,
            Proj::Gate => "gate_proj"@,
            Proj::Up => "up_proj"@,
            Proj::Down => "down_proj"@,
            Proj::GateUp => "gate_up_proj"@,
            Proj::InQkv => "in_proj_qkv"@,
            Proj::InZ => "in_proj_z"@,
            Proj::Out => "out_proj"@,
            Proj::Router => "gate"@,
        }
    }

    pub fn as_str(&self) -> (r: &'static str)
        ensures
            r@ == self.name(),
    {
        match *self {
            Proj::Q => "q_proj",
            Proj::K => "k_proj",
            Proj::V => "v_proj",
            Proj::O => "o_proj",
            Proj::Gate => "gate_proj",
            Proj::Up => "up_proj",
            Proj::Down => "down_proj",
            Proj::GateUp => "gate_up_proj",
            Proj::InQkv => "in_proj_qkv",
            Proj::InZ => "in_proj_z",
            Proj::Out => "out_proj",
            Proj::Router => "gate",
        }
    }
}

/// `layers.{layer}`.
pub open spec fn layer_name(layer: nat) -> Seq<char> {
    dotted("layers"@, decimal(layer))
}

/// `layers.{layer}.{section}.{proj}`.
pub open spec fn module_name(layer: nat, section: Section, proj: Proj) -> Seq<char> {
    dotted(layer_name(layer), dotted(section.name(), proj.name()))
}

/// The name of one matrix of the adapter of a projection.
pub open spec fn lora_name(
    style: NameStyle,
    layer: nat,
    section: Section,
    proj: Proj,
    half: Half,
) -> Seq<char> {
    let module = module_name(layer, section, proj);
    match (style, half) {
        (NameStyle::Plain, Half::A) => dotted(module, "lora_a"@),
        (NameStyle::Plain, Half::B) => dotted(module, "lora_b"@),
        (NameStyle::Plain, Half::Magnitude) => dotted(module, "magnitude"@),
        (NameStyle::Prefixed, Half::A) => dotted(
            "model"@,
            dotted(module, "lora_A.weight"@),
        ),
        (NameStyle::Prefixed, Half::B) => dotted(
            "model"@,
            dotted(module, "lora_B.weight"@),
        ),
        (NameStyle::Prefixed, Half::Magnitude) => dotted(
            "model"@,
            dotted(module, "magnitude.weight"@),
        ),
    }
}

fn digit_str(d: usize) -> (r: &'static str)
    requires
        d < 10,
    ensures
        r@ == seq![digit_char(d as nat)],
{
    proof {
        reveal_strlit("0");
        reveal_strlit("1");
        reveal_strlit("2");
        reveal_strlit("3");
        reveal_strlit("4");
        reveal_strlit("5");
        reveal_strlit("6");
        reveal_strlit("7");
        reveal_strlit("8");
        reveal_strlit("9");
    }
    let r = if d == 0 {
        "0"
    } else if d == 1 {
        "1"
    } else if d == 2 {
        "2"
    } else if d == 3 {
        "3"
    } else if d == 4 {
        "4"
    } else if d == 5 {
        "5"
    } else if d == 6 {
        "6"
    } else if d == 7 {
        "7"
    } else if d == 8 {
        "8"
    } else {
        "9"
    };
    assert(r@ =~= seq![digit_char(d as nat)]);
    r
}

/// A number in decimal notation.
pub fn to_decimal(n: usize) -> (r: String)
    ensures
        r@ == decimal(n as nat),
    decreases n,
{
    if n < 10 {
        String::from_str(digit_str(n))
    } else {
        let mut s = to_decimal(n / 10);
        s.append(digit_str(n % 10));
        assert(s@ =~= decimal(n as nat));
        s
    }
}

/// `head.tail`.
pub fn join(head: &str, tail: &str) -> (r: String)
    ensures
        r@ == dotted(head@, tail@),
{
    let mut s = String::from_str(head);
    s.append(".");
    s.append(tail);
    s
}

/// `layers.{layer}`.
pub fn make_layer_name(layer: usize) -> (r: String)
    ensures
        r@ == layer_name(layer as nat),
{
    let index = to_decimal(layer);
    join("layers", index.as_str())
}

/// `layers.{layer}.{section}.{proj}`.
pub fn make_module_name(layer: usize, section: Section, proj: Proj) -> (r: String)
    ensures
        r@ == module_name(layer as nat, section, proj),
{
    let head = make_layer_name(layer);
    let tail = join(section.as_str(), proj.as_str());
    join(head.as_str(), tail.as_str())
}

/// The name of one matrix of the adapter of a projection.
pub fn make_lora_name(
    style: NameStyle,
    layer: usize,
    section: Section,
    proj: Proj,
    half: Half,
) -> (r: String)
    ensures
        r@ == lora_name(style, layer as nat, section, proj, half),
{
    let module = make_module_name(layer, section, proj);
    match (style, half) {
        (NameStyle::Plain, Half::A) => join(module.as_str(), "lora_a"),
        (NameStyle::Plain, Half::B) => join(module.as_str(), "lora_b"),
        (NameStyle::Plain, Half::Magnitude) => join(module.as_str(), "magnitude"),
        (NameStyle::Prefixed, Half::A) => {
            let tail = join(module.as_str(), "lora_A.weight");
            join("model", tail.as_str())
        },
        (NameStyle::Prefixed, Half::B) => {
            let tail = join(module.as_str(), "lora_B.weight");
            join("model", tail.as_str())
        },
        (NameStyle::Prefixed, Half::Magnitude) => {
            let tail = join(module.as_str(), "magnitude.weight");
            join("model", tail.as_str())
        },
    }
}

/// No character is a dot.
pub open spec fn dotless(s: Seq<char>) -> bool {
    forall|i: int| 0 <= i < s.len() ==> s[i] != '.'
}

proof fn lemma_decimal_dotless(n: nat)
    ensures
        dotless(decimal(n)),
        decimal(n).len() >= 1,
    decreases n,
{
    if n >= 10 {
        lemma_decimal_dotless(n / 10);
    }
}

proof fn lemma_decimal_injective(m: nat, n: nat)
    requires
        decimal(m) == decimal(n),
    ensures
        m == n,
    decreases m,
{
    lemma_decimal_dotless(m / 10);
    lemma_decimal_dotless(n / 10);
    let a = decimal(m);
    let b = decimal(n);
    assert(a.len() == b.len());
    assert(a.last() == b.last());
    assert(a.last() == digit_char(m % 10));
    assert(b.last() == digit_char(n % 10));
    assert(m % 10 == n % 10);
    if m >= 10 && n >= 10 {
        assert(a.drop_last() =~= decimal(m / 10));
        assert(b.drop_last() =~= decimal(n / 10));
        lemma_decimal_injective(m / 10, n / 10);
    }
}

/// A dotted name has one head without a dot.
proof fn lemma_head_unique(h1: Seq<char>, t1: Seq<char>, h2: Seq<char>, t2: Seq<char>)
    requires
        dotless(h1),
        dotless(h2),
        dotted(h1, t1) == dotted(h2, t2),
    ensures
        h1 == h2,
        t1 == t2,
{
    reveal_strlit(".");
    let s = dotted(h1, t1);
    let r = dotted(h2, t2);
    assert(s[h1.len() as int] == '.');
    assert(r[h2.len() as int] == '.');
    if h1.len() < h2.len() {
        assert(r[h1.len() as int] == h2[h1.len() as int]);
        assert(false);
    }
    if h2.len() < h1.len() {
        assert(s[h2.len() as int] == h1[h2.len() as int]);
        assert(false);
    }
    assert(h1 =~= s.subrange(0, h1.len() as int));
    assert(h2 =~= r.subrange(0, h1.len() as int));
    assert(t1 =~= s.subrange(h1.len() as int + 1, s.len() as int));
    assert(t2 =~= r.subrange(h1.len() as int + 1, r.len() as int));
}

/// A dotted name has one tail without a dot.
proof fn lemma_tail_unique(h1: Seq<char>, t1: Seq<char>, h2: Seq<char>, t2: Seq<char>)
    requires
        dotless(t1),
        dotless(t2),
        dotted(h1, t1) == dotted(h2, t2),
    ensures
        h1 == h2,
        t1 == t2,
{
    reveal_strlit(".");
    let s = dotted(h1, t1);
    let r = dotted(h2, t2);
    assert(s.len() == h1.len() + 1 + t1.len());
    assert(r.len() == h2.len() + 1 + t2.len());
    assert(s[h1.len() as int] == '.');
    assert(r[h2.len() as int] == '.');
    if h1.len() < h2.len() {
        assert(s[h2.len() as int] == t1[h2.len() - h1.len() - 1]);
        assert(false);
    }
    if h2.len() < h1.len() {
        assert(r[h1.len() as int] == t2[h1.len() - h2.len() - 1]);
        assert(false);
    }
    assert(h1 =~= s.subrange(0, h1.len() as int));
    assert(h2 =~= r.subrange(0, h1.len() as int));
    assert(t1 =~= s.subrange(h1.len() as int + 1, s.len() as int));
    assert(t2 =~= r.subrange(h1.len() as int + 1, r.len() as int));
}

proof fn lemma_section_injective(s1: Section, s2: Section)
    requires
        s1.name() == s2.name(),
    ensures
        s1 == s2,
{
    reveal_strlit("self_attn");
    reveal_strlit("cross_attn");
    reveal_strlit("linear_attn");
    reveal_strlit("mlp");
    reveal_strlit("mlp.shared_expert");
    reveal_strlit("mixer");
    reveal_strlit("mixer.shared_expert");
    assert("self_attn"@.len() == 9);
    assert("cross_attn"@.len() == 10);
    assert("linear_attn"@.len() == 11);
    assert("mlp"@.len() == 3);
    assert("mlp.shared_expert"@.len() == 17);
    assert("mixer"@.len() == 5);
    assert("mixer.shared_expert"@.len() == 19);
}

proof fn lemma_proj_injective(p1: Proj, p2: Proj)
    requires
        p1.name() == p2.name(),
    ensures
        p1 == p2,
{
    lemma_proj_literals();
    assert(p1.name().len() == p2.name().len());
    assert(p1.name()[0] == p2.name()[0]);
}

proof fn lemma_proj_literals()
    ensures
        forall|p: Proj| dotless(#[trigger] p.name()),
        "q_proj"@.len() == 6 && "q_proj"@[0] == 'q',
        "k_proj"@.len() == 6 && "k_proj"@[0] == 'k',
        "v_proj"@.len() == 6 && "v_proj"@[0] == 'v',
        "o_proj"@.len() == 6 && "o_proj"@[0] == 'o',
        "gate_proj"@.len() == 9 && "gate_proj"@[0] == 'g',
        "up_proj"@.len() == 7 && "up_proj"@[0] == 'u',
        "down_proj"@.len() == 9 && "down_proj"@[0] == 'd',
        "gate_up_proj"@.len() == 12 && "gate_up_proj"@[0] == 'g',
        "in_proj_qkv"@.len() == 11 && "in_proj_qkv"@[0] == 'i',
        "in_proj_z"@.len() == 9 && "in_proj_z"@[0] == 'i',
        "out_proj"@.len() == 8 && "out_proj"@[0] == 'o',
        "gate"@.len() == 4 && "gate"@[0] == 'g',
{
    reveal_strlit("q_proj");
    reveal_strlit("k_proj");
    reveal_strlit("v_proj");
    reveal_strlit("o_proj");
    reveal_strlit("gate_proj");
    reveal_strlit("up_proj");
    reveal_strlit("down_proj");
    reveal_strlit("gate_up_proj");
    reveal_strlit("in_proj_qkv");
    reveal_strlit("in_proj_z");
    reveal_strlit("out_proj");
    reveal_strlit("gate");
}

/// A module name tells its layer, its section and its projection.
pub proof fn lemma_module_name_injective(
    l1: nat,
    s1: Section,
    p1: Proj,
    l2: nat,
    s2: Section,
    p2: Proj,
)
    requires
        module_name(l1, s1, p1) == module_name(l2, s2, p2),
    ensures
        l1 == l2,
        s1 == s2,
        p1 == p2,
{
    lemma_proj_literals();
    let r1 = dotted(s1.name(), p1.name());
    let r2 = dotted(s2.name(), p2.name());
    assert(module_name(l1, s1, p1) =~= dotted("layers"@, dotted(decimal(l1), r1)));
    assert(module_name(l2, s2, p2) =~= dotted("layers"@, dotted(decimal(l2), r2)));
    assert(dotless("layers"@)) by {
        reveal_strlit("layers");
    }
    lemma_head_unique("layers"@, dotted(decimal(l1), r1), "layers"@, dotted(decimal(l2), r2));
    lemma_decimal_dotless(l1);
    lemma_decimal_dotless(l2);
    lemma_head_unique(decimal(l1), r1, decimal(l2), r2);
    lemma_decimal_injective(l1, l2);
    lemma_tail_unique(s1.name(), p1.name(), s2.name(), p2.name());
    lemma_section_injective(s1, s2);
    lemma_proj_injective(p1, p2);
}

/// The name of an adapter's matrix tells which matrix of which projection it is.
pub proof fn lemma_lora_name_injective(
    style: NameStyle,
    l1: nat,
    s1: Section,
    p1: Proj,
    h1: Half,
    l2: nat,
    s2: Section,
    p2: Proj,
    h2: Half,
)
    requires
        lora_name(style, l1, s1, p1, h1) == lora_name(style, l2, s2, p2, h2),
    ensures
        l1 == l2,
        s1 == s2,
        p1 == p2,
        h1 == h2,
{
    let m1 = module_name(l1, s1, p1);
    let m2 = module_name(l2, s2, p2);
    reveal_strlit("lora_a");
    reveal_strlit("lora_b");
    reveal_strlit("magnitude");
    reveal_strlit("magnitude.weight");
    reveal_strlit("weight");
    reveal_strlit("lora_A");
    reveal_strlit("lora_B");
    reveal_strlit("lora_A.weight");
    reveal_strlit("lora_B.weight");
    reveal_strlit("model");
    reveal_strlit(".");
    match style {
        NameStyle::Plain => {
            let t1 = match h1 {
                Half::A => "lora_a"@,
                Half::B => "lora_b"@,
                Half::Magnitude => "magnitude"@,
            };
            let t2 = match h2 {
                Half::A => "lora_a"@,
                Half::B => "lora_b"@,
                Half::Magnitude => "magnitude"@,
            };
            lemma_tail_unique(m1, t1, m2, t2);
            assert(t1.len() == t2.len());
            assert(t1[5] == t2[5]);
        },
        NameStyle::Prefixed => {
            let t1 = match h1 {
                Half::A => "lora_A"@,
                Half::B => "lora_B"@,
                Half::Magnitude => "magnitude"@,
            };
            let t2 = match h2 {
                Half::A => "lora_A"@,
                Half::B => "lora_B"@,
                Half::Magnitude => "magnitude"@,
            };
            let n1 = lora_name(style, l1, s1, p1, h1);
            let n2 = lora_name(style, l2, s2, p2, h2);
            assert("lora_A.weight"@ =~= dotted("lora_A"@, "weight"@));
            assert("lora_B.weight"@ =~= dotted("lora_B"@, "weight"@));
            assert("magnitude.weight"@ =~= dotted("magnitude"@, "weight"@));
            assert(n1 =~= dotted("model"@, dotted(m1, dotted(t1, "weight"@))));
            assert(n2 =~= dotted("model"@, dotted(m2, dotted(t2, "weight"@))));
            lemma_head_unique(
                "model"@,
                dotted(m1, dotted(t1, "weight"@)),
                "model"@,
                dotted(m2, dotted(t2, "weight"@)),
            );
            assert(dotted(m1, dotted(t1, "weight"@)) =~= dotted(dotted(m1, t1), "weight"@));
            assert(dotted(m2, dotted(t2, "weight"@)) =~= dotted(dotted(m2, t2), "weight"@));
            lemma_tail_unique(dotted(m1, t1), "weight"@, dotted(m2, t2), "weight"@);
            lemma_tail_unique(m1, t1, m2, t2);
            assert(t1.len() == t2.len());
            assert(t1[5] == t2[5]);
        },
    }
    lemma_module_name_injective(l1, s1, p1, l2, s2, p2);
}

} // verus!
