//! Settings of adapters and of training.

use crate::names::Proj;
use crate::scalar::F32;
use vstd::prelude::*;
use vstd::string::*;

verus! {

/// The projections that get an adapter.
#[derive(Clone, Copy, PartialEq, Eq, Structural, Debug)]
pub struct TargetModules {
    pub q_proj: bool,
    pub k_proj: bool,
    pub v_proj: bool,
    pub o_proj: bool,
    pub gate_proj: bool,
    pub up_proj: bool,
    pub down_proj: bool,
    pub gate_up_proj: bool,
    pub in_proj_qkv: bool,
    pub in_proj_z: bool,
    pub out_proj: bool,
    pub gate: bool,
}

/// The list holds the name.
pub open spec fn lists(names: Seq<String>, name: Seq<char>) -> bool {
    exists|i: int| 0 <= i < names.len() && (#[trigger] names[i])@ == name
}

/// Whether the list holds the name.
pub(crate) fn holds(names: &Vec<String>, name: &str) -> (r: bool)
    ensures
        r == lists(names@, name@),
{
    let key = String::from_str(name);
    let mut i: usize = 0;
    while i < names.len()
        invariant
            i <= names.len(),
            key@ == name@,
            forall|j: int| 0 <= j < i ==> (#[trigger] names[j])@ != name@,
        decreases names.len() - i,
    {
        if names[i] == key {
            return true;
        }
        i = i + 1;
    }
    false
}

/// The list holds the number.
pub open spec fn lists_number(numbers: Seq<i32>, n: int) -> bool {
    exists|i: int| 0 <= i < numbers.len() && #[trigger] numbers[i] == n
}

pub(crate) fn find_number(numbers: &Vec<i32>, n: i32) -> (r: bool)
    ensures
        r == lists_number(numbers@, n as int),
{
    let mut i: usize = 0;
    while i < numbers.len()
        invariant
            i <= numbers@.len(),
            forall|j: int| 0 <= j < i ==> #[trigger] numbers@[j] != n,
        decreases numbers.len() - i,
    {
        if numbers[i] == n {
            return true;
        }
        i = i + 1;
    }
    false
}

impl TargetModules {
    pub open spec fn has(self, p: Proj) -> bool {
        match p {
            Proj::Q => self.q_proj,
            Proj::K => self.k_proj,
            Proj::V => self.v_proj,
            Proj::O => self.o_proj,
            Proj::Gate => self.gate_proj,
            Proj::Up => self.up_proj,
            Proj::Down => self.down_proj,
            Proj::GateUp => self.gate_up_proj,
            Proj::InQkv => self.in_proj_qkv,
            Proj::InZ => self.in_proj_z,
            Proj::Out => self.out_proj,
            Proj::Router => self.gate,
        }
    }

    /// The projections that the list names.
    pub fn from_names(names: &Vec<String>) -> (r: TargetModules)
        ensures
            forall|p: Proj| #[trigger] r.has(p) <==> lists(names@, p.name()),
    {
        TargetModules {
            q_proj: holds(names, "q_proj"),
            k_proj: holds(names, "k_proj"),
            v_proj: holds(names, "v_proj"),
            o_proj: holds(names, "o_proj"),
            gate_proj: holds(names, "gate_proj"),
            up_proj: holds(names, "up_proj"),
            down_proj: holds(names, "down_proj"),
            gate_up_proj: holds(names, "gate_up_proj"),
            in_proj_qkv: holds(names, "in_proj_qkv"),
            in_proj_z: holds(names, "in_proj_z"),
            out_proj: holds(names, "out_proj"),
            gate: holds(names, "gate"),
        }
    }

    fn contains(&self, p: Proj) -> (r: bool)
        ensures
            r == self.has(p),
    {
        match p {
            Proj::Q => self.q_proj,
            Proj::K => self.k_proj,
            Proj::V => self.v_proj,
            Proj::O => self.o_proj,
            Proj::Gate => self.gate_proj,
            Proj::Up => self.up_proj,
            Proj::Down => self.down_proj,
            Proj::GateUp => self.gate_up_proj,
            Proj::InQkv => self.in_proj_qkv,
            Proj::InZ => self.in_proj_z,
            Proj::Out => self.out_proj,
            Proj::Router => self.gate,
        }
    }
}

/// Settings of the adapters.
#[derive(Clone, Copy, PartialEq, Eq, Structural, Debug)]
pub struct LoraConfig {
    /// The rank of an adapter.
    pub r: usize,
    pub alpha: F32,
    /// Divide alpha by the square root of the rank in place of the rank.
    pub use_rslora: bool,
    pub target_modules: TargetModules,
    /// Decompose weights into magnitude and direction.
    pub use_dora: bool,
}

impl LoraConfig {
    /// The rank fits the arrays' extents.
    pub open spec fn valid(self) -> bool {
        self.r <= i32::MAX
    }

    /// The rank of a projection's adapter: zero for one that gets none.
    pub open spec fn rank_of(self, p: Proj) -> i32 {
        if self.target_modules.has(p) {
            self.r as i32
        } else {
            0
        }
    }
}

impl Default for LoraConfig {
    /// Rank sixteen, alpha thirty-two, on the projections of attention and MLP.
    fn default() -> (r: LoraConfig)
        ensures
            r.valid(),
            r.r == 16,
            r.alpha == (F32 { bits: 0x4200_0000 }),
            !r.use_rslora,
            !r.use_dora,
            forall|p: Proj| #[trigger]
                r.target_modules.has(p) <==> (p == Proj::Q || p == Proj::K || p == Proj::V || p
                    == Proj::O || p == Proj::Gate || p == Proj::Up || p == Proj::Down),
    {
        LoraConfig {
            r: 16,
            alpha: F32 { bits: 0x4200_0000 },
            use_rslora: false,
            target_modules: TargetModules {
                q_proj: true,
                k_proj: true,
                v_proj: true,
                o_proj: true,
                gate_proj: true,
                up_proj: true,
                down_proj: true,
                gate_up_proj: false,
                in_proj_qkv: false,
                in_proj_z: false,
                out_proj: false,
                gate: false,
            },
            use_dora: false,
        }
    }
}

/// The rank of a projection's adapter: zero for one that gets none.
pub fn effective_rank(config: &LoraConfig, p: Proj) -> (r: i32)
    requires
        config.valid(),
    ensures
        r == config.rank_of(p),
{
    if config.target_modules.contains(p) {
        config.r as i32
    } else {
        0
    }
}

/// Settings of gradient checkpointing.
#[derive(Clone, Copy, PartialEq, Eq, Structural, Debug)]
pub struct CheckpointConfig {
    pub enabled: bool,
    /// After how many layers a block ends.
    pub layers_per_block: usize,
    pub eval_at_boundaries: bool,
}

/// The settings that a model gets when checkpointing is switched on.
pub open spec fn checkpointing(layers_per_block: usize) -> CheckpointConfig {
    CheckpointConfig { enabled: true, layers_per_block, eval_at_boundaries: true }
}

pub(crate) fn make_checkpointing(layers_per_block: usize) -> (r: CheckpointConfig)
    ensures
        r == checkpointing(layers_per_block),
{
    CheckpointConfig { enabled: true, layers_per_block, eval_at_boundaries: true }
}

} // verus!
