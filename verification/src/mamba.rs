//! The frozen state-space mixer of hybrid models.

use crate::array::{Args, Array, Kernel, MambaConfig, Source, arg, kernel, make_arg, source};
use crate::attention::given;
use crate::kv_cache::MambaCacheEntry;
use crate::lora::{initial_bias, make_initial_bias};
use crate::nn::{Linear, RmsNorm, initial_linear};
use crate::shape::Shape;
use vstd::prelude::*;

verus! {

/// A frozen convolution along the sequence.
#[derive(Debug)]
pub struct Conv1d {
    /// `[channels, kernel, 1]`.
    pub weight: Array,
    /// `[channels]`.
    pub bias: Option<Array>,
}

/// A state-space mixer: all of it is frozen.
#[derive(Debug)]
pub struct NemotronHMixer {
    pub config: MambaConfig,
    pub in_proj: Option<Linear>,
    pub conv1d: Option<Conv1d>,
    pub out_proj: Option<Linear>,
    pub a_log: Option<Array>,
    pub d: Option<Array>,
    pub dt_bias: Option<Array>,
    pub gated_norm: Option<RmsNorm>,
}

impl MambaConfig {
    /// The width of the mixed features.
    pub open spec fn inner(self) -> int {
        self.num_heads * self.head_dim
    }

    /// The number of channels of the convolution: the features, and the inputs and outputs of the
    /// state of each group.
    pub open spec fn channels(self) -> int {
        self.inner() + 2 * (self.n_groups * self.state_size)
    }

    /// The width of the first projection: a gate, the channels, and a step for each head.
    pub open spec fn projected(self) -> int {
        self.inner() + self.channels() + self.num_heads
    }

    /// No extent is negative, and each fits a machine word.
    pub open spec fn valid(self) -> bool {
        &&& self.num_heads >= 0 && self.head_dim >= 0 && self.state_size >= 0 && self.n_groups >= 0
        &&& self.conv_kernel >= 1
        &&& self.inner() <= i32::MAX
        &&& self.n_groups * self.state_size <= i32::MAX
        &&& self.channels() <= i32::MAX
        &&& self.projected() <= i32::MAX
    }
}

pub open spec fn linear_weight(l: Option<Linear>) -> Option<Array> {
    match l {
        Some(l) => Some(l.weight),
        None => None,
    }
}

pub open spec fn linear_bias(l: Option<Linear>) -> Option<Array> {
    match l {
        Some(l) => l.bias,
        None => None,
    }
}

pub open spec fn conv_weight(c: Option<Conv1d>) -> Option<Array> {
    match c {
        Some(c) => Some(c.weight),
        None => None,
    }
}

pub open spec fn conv_bias(c: Option<Conv1d>) -> Option<Array> {
    match c {
        Some(c) => c.bias,
        None => None,
    }
}

pub open spec fn norm_weight(n: Option<RmsNorm>) -> Option<Array> {
    match n {
        Some(n) => Some(n.weight),
        None => None,
    }
}

impl NemotronHMixer {
    /// The mixer of a fresh model.
    pub open spec fn fresh(
        config: MambaConfig,
        hidden: i32,
        proj_bias: bool,
        use_conv_bias: bool,
    ) -> NemotronHMixer {
        let channels = config.channels() as i32;
        let k = config.conv_kernel;
        NemotronHMixer {
            config,
            in_proj: Some(Linear::fresh(hidden, config.projected() as i32, proj_bias)),
            conv1d: Some(
                Conv1d {
                    weight: initial_linear(Shape::D3(channels, k, 1), k),
                    bias: initial_bias(channels, use_conv_bias),
                },
            ),
            out_proj: Some(Linear::fresh(config.inner() as i32, hidden, proj_bias)),
            a_log: Some(source(Source::Ones, Shape::D1(config.num_heads))),
            d: Some(source(Source::Ones, Shape::D1(config.num_heads))),
            dt_bias: Some(source(Source::Ones, Shape::D1(config.num_heads))),
            gated_norm: Some(RmsNorm::fresh(config.inner() as i32, config.eps)),
        }
    }

    /// What the mixing depends on: the input, the mask, what is kept, and the weights.
    pub open spec fn args(self, x: Array, mask: Option<Array>, state: MambaCacheEntry) -> Args {
        arg(
            Some(x),
            arg(
                mask,
                arg(
                    state.conv_state,
                    arg(
                        state.ssm_state,
                        arg(
                            linear_weight(self.in_proj),
                            arg(
                                linear_bias(self.in_proj),
                                arg(
                                    conv_weight(self.conv1d),
                                    arg(
                                        conv_bias(self.conv1d),
                                        arg(
                                            linear_weight(self.out_proj),
                                            arg(
                                                linear_bias(self.out_proj),
                                                arg(
                                                    self.a_log,
                                                    arg(
                                                        self.d,
                                                        arg(
                                                            self.dt_bias,
                                                            arg(
                                                                norm_weight(self.gated_norm),
                                                                Args::Nil,
                                                            ),
                                                        ),
                                                    ),
                                                ),
                                            ),
                                        ),
                                    ),
                                ),
                            ),
                        ),
                    ),
                ),
            ),
        )
    }

    /// The mixed input, of the same shape.
    pub open spec fn output(self, x: Array, mask: Option<Array>, state: MambaCacheEntry) -> Array {
        kernel(
            Kernel::Mamba(self.config),
            self.args(x, mask, state),
            x.shape,
            x.shape.rank() >= 2,
        )
    }

    /// What is kept behind the input. An input that does not fit changes nothing.
    pub open spec fn after(
        self,
        x: Array,
        mask: Option<Array>,
        state: MambaCacheEntry,
    ) -> MambaCacheEntry {
        if self.output(x, mask, state).fits {
            let args = self.args(x, mask, state);
            let batch = x.shape.outer();
            MambaCacheEntry {
                conv_state: Some(
                    kernel(
                        Kernel::MambaConvState(self.config),
                        args,
                        Shape::D3(
                            batch,
                            (self.config.conv_kernel - 1) as i32,
                            self.config.channels() as i32,
                        ),
                        true,
                    ),
                ),
                ssm_state: Some(
                    kernel(
                        Kernel::MambaSsmState(self.config),
                        args,
                        Shape::D4(
                            batch,
                            self.config.num_heads,
                            self.config.head_dim,
                            self.config.state_size,
                        ),
                        true,
                    ),
                ),
            }
        } else {
            state
        }
    }

    pub fn new_mamba(config: MambaConfig, hidden: i32, proj_bias: bool, use_conv_bias: bool) -> (r:
        NemotronHMixer)
        requires
            config.valid(),
        ensures
            r == NemotronHMixer::fresh(config, hidden, proj_bias, use_conv_bias),
    {
        proof {
            lemma_mamba_extents(config);
        }
        let inner: i32 = config.num_heads * config.head_dim;
        let group: i32 = config.n_groups * config.state_size;
        let channels: i32 = inner + 2 * group;
        let projected: i32 = inner + channels + config.num_heads;
        let k = config.conv_kernel;
        NemotronHMixer {
            config,
            in_proj: Some(Linear::new(hidden, projected, proj_bias)),
            conv1d: Some(
                Conv1d {
                    weight: Array::from_source(
                        Source::UniformInverseSqrt { n: k },
                        Shape::D3(channels, k, 1),
                    ),
                    bias: make_initial_bias(channels, use_conv_bias),
                },
            ),
            out_proj: Some(Linear::new(inner, hidden, proj_bias)),
            a_log: Some(Array::from_source(Source::Ones, Shape::D1(config.num_heads))),
            d: Some(Array::from_source(Source::Ones, Shape::D1(config.num_heads))),
            dt_bias: Some(Array::from_source(Source::Ones, Shape::D1(config.num_heads))),
            gated_norm: Some(RmsNorm::new(inner, config.eps)),
        }
    }

    fn make_args(&self, x: &Array, mask: Option<&Array>, state: &MambaCacheEntry) -> (r: Args)
        ensures
            r == self.args(*x, given(mask), *state),
    {
        let r = Args::Nil;
        let r = match &self.gated_norm {
            Some(n) => make_arg(Some(&n.weight), r),
            None => make_arg(None, r),
        };
        let r = make_arg(self.dt_bias.as_ref(), r);
        let r = make_arg(self.d.as_ref(), r);
        let r = make_arg(self.a_log.as_ref(), r);
        let r = match &self.out_proj {
            Some(l) => make_arg(Some(&l.weight), make_arg(l.bias.as_ref(), r)),
            None => make_arg(None, make_arg(None, r)),
        };
        let r = match &self.conv1d {
            Some(c) => make_arg(Some(&c.weight), make_arg(c.bias.as_ref(), r)),
            None => make_arg(None, make_arg(None, r)),
        };
        let r = match &self.in_proj {
            Some(l) => make_arg(Some(&l.weight), make_arg(l.bias.as_ref(), r)),
            None => make_arg(None, make_arg(None, r)),
        };
        let r = make_arg(state.ssm_state.as_ref(), r);
        let r = make_arg(state.conv_state.as_ref(), r);
        let r = make_arg(mask, r);
        make_arg(Some(x), r)
    }

    pub(crate) fn run(&self, x: &Array, mask: Option<&Array>, state: &MambaCacheEntry) -> (r: Array)
        ensures
            r == self.output(*x, given(mask), *state),
    {
        let args = self.make_args(x, mask, state);
        Array::kernel(Kernel::Mamba(self.config), args, x.shape, x.shape.num_axes() >= 2)
    }

    pub(crate) fn run_keeping(
        &self,
        x: &Array,
        mask: Option<&Array>,
        state: &mut MambaCacheEntry,
    ) -> (r: Array)
        requires
            self.config.valid(),
            x.shape.rank() >= 2,
        ensures
            r == self.output(*x, given(mask), *old(state)),
            *final(state) == self.after(*x, given(mask), *old(state)),
    {
        proof {
            lemma_mamba_extents(self.config);
        }
        let out = self.run(x, mask, state);
        if out.fits {
            let (batch, _) = x.shape.outer_two();
            let inner: i32 = self.config.num_heads * self.config.head_dim;
            let group: i32 = self.config.n_groups * self.config.state_size;
            let channels: i32 = inner + 2 * group;
            let conv_state = Array::kernel(
                Kernel::MambaConvState(self.config),
                self.make_args(x, mask, state),
                Shape::D3(batch, self.config.conv_kernel - 1, channels),
                true,
            );
            let ssm_state = Array::kernel(
                Kernel::MambaSsmState(self.config),
                self.make_args(x, mask, state),
                Shape::D4(
                    batch,
                    self.config.num_heads,
                    self.config.head_dim,
                    self.config.state_size,
                ),
                true,
            );
            state.conv_state = Some(conv_state);
            state.ssm_state = Some(ssm_state);
        }
        out
    }
}

proof fn lemma_mamba_extents(config: MambaConfig)
    requires
        config.valid(),
    ensures
        0 <= config.inner(),
        0 <= config.n_groups * config.state_size,
        config.inner() <= config.channels(),
        2 * (config.n_groups * config.state_size) <= i32::MAX,
        config.inner() + config.channels() <= i32::MAX,
{
    assert(config.num_heads * config.head_dim >= 0) by (nonlinear_arith)
        requires
            config.num_heads >= 0,
            config.head_dim >= 0,
    ;
    assert(config.n_groups * config.state_size >= 0) by (nonlinear_arith)
        requires
            config.n_groups >= 0,
            config.state_size >= 0,
    ;
}

} // verus!
