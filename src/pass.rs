use vstd::prelude::*;

use crate::topology::{layer_end, layer_start, Topology};

verus! {

/// What a pass does at one non-input layer: which node range it reads
/// activations from, which node range it evaluates or backpropagates, and
/// (on the backward walk) whether the layer hands requested activations on
/// to the layer before it.
#[derive(Debug, Clone, Copy, PartialEq, Eq, Structural)]
pub struct LayerStep {
    pub layer: usize,
    pub input_start: usize,
    pub input_end: usize,
    pub start: usize,
    pub end: usize,
    pub sets_targets: bool,
}

/// The step for layer `k >= 1` of a network with boundaries `b`. Only a
/// layer whose predecessor is not the input layer sets targets.
pub open spec fn step_of(b: Seq<usize>, k: int) -> LayerStep {
    LayerStep {
        layer: k as usize,
        input_start: layer_start(b, k - 1) as usize,
        input_end: layer_end(b, k - 1) as usize,
        start: layer_start(b, k) as usize,
        end: layer_end(b, k) as usize,
        sets_targets: k > 1,
    }
}

impl Topology {
    fn step(&self, k: usize) -> (r: LayerStep)
        requires
            self.wf(),
            1 <= k < self@.len(),
        ensures
            r == step_of(self@, k as int),
    {
        let (input_start, input_end) = self.get_layer(k - 1);
        let (start, end) = self.get_layer(k);
        LayerStep { layer: k, input_start, input_end, start, end, sets_targets: k > 1 }
    }

    /// The forward walk: every layer after the input layer, first to last.
    pub fn forward_plan(&self) -> (r: Vec<LayerStep>)
        requires
            self.wf(),
        ensures
            r@ == Seq::new((self@.len() - 1) as nat, |i: int| step_of(self@, i + 1)),
    {
        let n: usize = self.layer_count();
        let mut r: Vec<LayerStep> = Vec::new();
        let mut k: usize = 1;
        while k < n
            invariant
                self.wf(),
                n == self@.len(),
                1 <= k <= n,
                r@ == Seq::new((k - 1) as nat, |i: int| step_of(self@, i + 1)),
            decreases n - k,
        {
            r.push(self.step(k));
            k = k + 1;
        }
        r
    }

    /// The backward walk: from the output layer down to the layer next to
    /// the inputs. The input layer gets no step.
    pub fn backward_plan(&self) -> (r: Vec<LayerStep>)
        requires
            self.wf(),
        ensures
            r@ == Seq::new(
                (self@.len() - 1) as nat,
                |i: int| step_of(self@, self@.len() - 1 - i),
            ),
    {
        let n: usize = self.layer_count();
        let mut r: Vec<LayerStep> = Vec::new();
        let mut k: usize = n;
        while k > 1
            invariant
                self.wf(),
                n == self@.len(),
                1 <= k <= n,
                r@ == Seq::new((n - k) as nat, |i: int| step_of(self@, n - 1 - i)),
            decreases k,
        {
            k = k - 1;
            r.push(self.step(k));
        }
        r
    }
}

} // verus!
