use vstd::prelude::*;

use crate::error::{check_shape, NetworkError};

verus! {

/// Exclusive end index of each layer in the network's node sequence.
///
/// Layer 0 (the inputs) occupies `[0, layers[0])`; layer `k >= 1` occupies
/// `[layers[k - 1], layers[k])`. Layers are only ever appended.
pub struct Topology {
    layers: Vec<usize>,
}

/// Boundaries that describe a layered network: at least the input layer,
/// which is not empty, and each layer strictly after the one before it.
pub open spec fn boundaries_wf(b: Seq<usize>) -> bool {
    &&& b.len() >= 1
    &&& b[0] > 0
    &&& forall|i: int, j: int| 0 <= i < j < b.len() ==> b[i] < b[j]
}

/// First node index of layer `k`.
pub open spec fn layer_start(b: Seq<usize>, k: int) -> int {
    if k == 0 { 0 } else { b[k - 1] as int }
}

/// One past the last node index of layer `k`.
pub open spec fn layer_end(b: Seq<usize>, k: int) -> int {
    b[k] as int
}

/// Number of nodes in layer `k`.
pub open spec fn layer_size(b: Seq<usize>, k: int) -> int {
    layer_end(b, k) - layer_start(b, k)
}

/// The node indexes `start, start + 1, ..., end - 1`.
pub open spec fn index_range(start: int, end: int) -> Seq<usize> {
    Seq::new((end - start) as nat, |i: int| (start + i) as usize)
}

impl View for Topology {
    type V = Seq<usize>;

    closed spec fn view(&self) -> Seq<usize> {
        self.layers@
    }
}

impl Topology {
    pub open spec fn wf(&self) -> bool {
        boundaries_wf(self@)
    }

    /// A network of `input_size` input nodes and no other layer.
    pub fn new(input_size: usize) -> (r: Topology)
        requires
            input_size > 0,
        ensures
            r.wf(),
            r@ == seq![input_size],
    {
        Topology { layers: vec![input_size] }
    }

    /// Number of layers, the input layer included.
    pub fn layer_count(&self) -> (r: usize)
        ensures
            r == self@.len(),
    {
        self.layers.len()
    }

    /// Number of input nodes.
    pub fn input_size(&self) -> (r: usize)
        requires
            self.wf(),
        ensures
            r == self@[0],
    {
        self.layers[0]
    }

    /// Number of nodes over all layers.
    pub fn node_count(&self) -> (r: usize)
        requires
            self.wf(),
        ensures
            r == self@.last(),
    {
        self.layers[self.layers.len() - 1]
    }

    /// The index range `(start, end)` of layer `layer` in the node sequence.
    pub fn get_layer(&self, layer: usize) -> (r: (usize, usize))
        requires
            self.wf(),
            layer < self@.len(),
        ensures
            r.0 == layer_start(self@, layer as int),
            r.1 == layer_end(self@, layer as int),
            r.0 < r.1,
    {
        let start: usize = if layer == 0 { 0 } else { self.layers[layer - 1] };
        proof {
            if layer > 0 {
                assert(self@[layer - 1] < self@[layer as int]);
            }
        }
        (start, self.layers[layer])
    }

    /// The node indexes that a node of a layer appended now reads: the
    /// whole of the current last layer, in order.
    pub fn input_indexes(&self) -> (r: Vec<usize>)
        requires
            self.wf(),
        ensures
            r@ == index_range(
                layer_start(self@, self@.len() - 1),
                layer_end(self@, self@.len() - 1),
            ),
            r@.len() == layer_size(self@, self@.len() - 1),
    {
        let (start, end) = self.get_layer(self.layers.len() - 1);
        let mut r: Vec<usize> = Vec::new();
        let mut i: usize = start;
        while i < end
            invariant
                start <= i <= end,
                r@ == index_range(start as int, i as int),
            decreases end - i,
        {
            r.push(i);
            i = i + 1;
        }
        r
    }

    /// Appends a layer of `size` nodes after the current last layer.
    pub fn add_layer(&mut self, size: usize)
        requires
            old(self).wf(),
            size > 0,
            old(self)@.last() + size <= usize::MAX,
        ensures
            final(self).wf(),
            final(self)@ == old(self)@.push((old(self)@.last() + size) as usize),
    {
        let end: usize = self.layers[self.layers.len() - 1] + size;
        self.layers.push(end);
    }

    /// Checks that a vector handed to the input layer has one value per
    /// input node.
    pub fn check_input(&self, len: usize) -> (r: Result<(), NetworkError>)
        requires
            self.wf(),
        ensures
            len == self@[0] ==> r == Ok::<(), NetworkError>(()),
            len != self@[0] ==> r == Err::<(), NetworkError>(
                NetworkError::ShapeMismatch { expected: self@[0], found: len },
            ),
    {
        check_shape(self.layers[0], len)
    }

    /// Checks that a vector of expected outputs has one value per node of
    /// the last layer.
    pub fn check_output(&self, len: usize) -> (r: Result<(), NetworkError>)
        requires
            self.wf(),
        ensures
            len == layer_size(self@, self@.len() - 1) ==> r == Ok::<(), NetworkError>(()),
            len != layer_size(self@, self@.len() - 1) ==> r == Err::<(), NetworkError>(
                NetworkError::ShapeMismatch {
                    expected: layer_size(self@, self@.len() - 1) as usize,
                    found: len,
                },
            ),
    {
        let (start, end) = self.get_layer(self.layers.len() - 1);
        check_shape(end - start, len)
    }
}

} // verus!

verus! {

/// Boundaries, as integers, after `new(input_size)` and one `add_layer` per
/// entry of `sizes`, in order.
pub open spec fn built(input_size: int, sizes: Seq<int>) -> Seq<int>
    decreases sizes.len(),
{
    if sizes.len() == 0 {
        seq![input_size]
    } else {
        let b = built(input_size, sizes.drop_last());
        b.push(b.last() + sizes.last())
    }
}

/// A network built from a positive input size and positive layer sizes has
/// one boundary per layer, strictly increasing, the first being the input
/// size.
pub proof fn lemma_built_boundaries(input_size: int, sizes: Seq<int>)
    requires
        input_size > 0,
        forall|i: int| 0 <= i < sizes.len() ==> sizes[i] > 0,
    ensures
        built(input_size, sizes).len() == sizes.len() + 1,
        built(input_size, sizes)[0] == input_size,
        forall|i: int, j: int|
            0 <= i < j < built(input_size, sizes).len() ==> built(input_size, sizes)[i]
                < built(input_size, sizes)[j],
    decreases sizes.len(),
{
    if sizes.len() > 0 {
        let s = sizes.drop_last();
        lemma_built_boundaries(input_size, s);
        let b = built(input_size, s);
        assert(sizes.last() > 0);
        assert forall|i: int, j: int|
            0 <= i < j < built(input_size, sizes).len() implies built(input_size, sizes)[i]
                < built(input_size, sizes)[j] by {
            if j == b.len() {
                assert(b[i] <= b.last());
            }
        }
    }
}

/// Appending a layer keeps the boundaries well formed, and the nodes of the
/// new layer read exactly the layer before it: as many indexes as that layer
/// has nodes, which is the number of weights each new node carries.
pub proof fn lemma_new_layer_reads_previous(before: Seq<usize>, after: Seq<usize>, size: usize)
    requires
        boundaries_wf(before),
        size > 0,
        before.last() + size <= usize::MAX,
        after == before.push((before.last() + size) as usize),
    ensures
        boundaries_wf(after),
        index_range(layer_start(before, before.len() - 1), layer_end(before, before.len() - 1))
            == index_range(layer_start(after, after.len() - 2), layer_end(after, after.len() - 2)),
        index_range(
            layer_start(before, before.len() - 1),
            layer_end(before, before.len() - 1),
        ).len() == layer_size(after, after.len() - 2),
        layer_size(after, after.len() - 1) == size,
{
    let n = before.len();
    assert forall|i: int, j: int| 0 <= i < j < after.len() implies after[i] < after[j] by {
        if j == n {
            assert(before[i] <= before[n - 1]);
        }
    }
    if n >= 2 {
        assert(after[n - 2] == before[n - 2]);
    }
    assert(after[n - 1] == before[n - 1]);
}

} // verus!
