use vstd::prelude::*;

verus! {

/// Why a network operation was refused.
#[derive(Clone, Copy, Debug, PartialEq, Eq, Structural)]
pub enum NetworkError {
    /// A topology with fewer than two layers.
    InvalidTopology,
    /// Crossover of two networks whose layer counts differ.
    ShapeMismatch,
    /// Inference on an input whose length the first layer does not accept.
    DimensionMismatch,
}

/// Shape `(rows, cols)` of the weight matrix of each layer transition:
/// transition `i` maps `sizes[i]` values onto `sizes[i + 1]`.
pub open spec fn layer_shapes(sizes: Seq<usize>) -> Seq<(usize, usize)> {
    Seq::new((sizes.len() - 1) as nat, |i: int| (sizes[i + 1], sizes[i]))
}

/// Length of the activation after feeding a vector of length `len` through
/// weight matrices of the given shapes, or the error of the first matrix
/// whose column count does not match.
pub open spec fn propagate(shapes: Seq<(usize, usize)>, len: usize) -> Result<usize, NetworkError>
    decreases shapes.len(),
{
    if shapes.len() == 0 {
        Ok(len)
    } else if shapes[0].1 != len {
        Err(NetworkError::DimensionMismatch)
    } else {
        propagate(shapes.drop_first(), shapes[0].0)
    }
}

/// Walks an input length through weight matrices of the given shapes, as
/// inference does: each matrix needs as many columns as the incoming
/// activation has entries and yields as many entries as it has rows.
pub fn propagate_len(shapes: &Vec<(usize, usize)>, input_len: usize) -> (r: Result<usize, NetworkError>)
    ensures
        r == propagate(shapes@, input_len),
{
    let mut cur: usize = input_len;
    let mut i: usize = 0;
    assert(shapes@.subrange(0, shapes@.len() as int) =~= shapes@);
    while i < shapes.len()
        invariant
            i <= shapes@.len(),
            propagate(shapes@, input_len) == propagate(shapes@.subrange(i as int, shapes@.len() as int), cur),
        decreases shapes@.len() - i,
    {
        let (rows, cols) = shapes[i];
        let ghost rest = shapes@.subrange(i as int, shapes@.len() as int);
        assert(rest.drop_first() =~= shapes@.subrange(i + 1, shapes@.len() as int));
        if cols != cur {
            return Err(NetworkError::DimensionMismatch);
        }
        cur = rows;
        i += 1;
    }
    assert(shapes@.subrange(i as int, shapes@.len() as int).len() == 0);
    Ok(cur)
}

/// Refuses crossover of two networks unless they have as many weight
/// matrices and as many bias vectors as each other.
pub fn check_crossover(weights1: usize, biases1: usize, weights2: usize, biases2: usize) -> (r: Result<(), NetworkError>)
    ensures
        r is Ok <==> (weights1 == weights2 && biases1 == biases2),
        r is Err ==> r == Err::<(), NetworkError>(NetworkError::ShapeMismatch),
{
    if weights1 != weights2 || biases1 != biases2 {
        Err(NetworkError::ShapeMismatch)
    } else {
        Ok(())
    }
}

/// The layer widths of a feedforward network, input layer first.
pub struct Topology {
    sizes: Vec<usize>,
}

impl Topology {
    pub closed spec fn spec_sizes(&self) -> Seq<usize> {
        self.sizes@
    }

    /// An input and an output layer at least.
    pub open spec fn wf(&self) -> bool {
        self.spec_sizes().len() >= 2
    }

    /// Accepts `sizes` as a topology when it names at least two layers.
    pub fn new(sizes: &[usize]) -> (r: Result<Topology, NetworkError>)
        ensures
            r is Ok <==> sizes@.len() >= 2,
            r matches Ok(t) ==> t.wf() && t.spec_sizes() == sizes@,
            r is Err ==> r matches Err(NetworkError::InvalidTopology),
    {
        if sizes.len() < 2 {
            return Err(NetworkError::InvalidTopology);
        }
        let mut v: Vec<usize> = Vec::new();
        let mut i: usize = 0;
        while i < sizes.len()
            invariant
                i <= sizes@.len(),
                v@ == sizes@.subrange(0, i as int),
            decreases sizes@.len() - i,
        {
            v.push(sizes[i]);
            i += 1;
            assert(v@ =~= sizes@.subrange(0, i as int));
        }
        assert(v@ =~= sizes@);
        Ok(Topology { sizes: v })
    }

    /// The layer widths.
    pub fn sizes(&self) -> (r: &[usize])
        ensures
            r@ == self.spec_sizes(),
    {
        self.sizes.as_slice()
    }

    /// Number of layer transitions, each with one weight matrix and one bias vector.
    pub fn layer_count(&self) -> (r: usize)
        requires
            self.wf(),
        ensures
            r == self.spec_sizes().len() - 1,
    {
        self.sizes.len() - 1
    }

    /// Width of the input layer.
    pub fn input_len(&self) -> (r: usize)
        requires
            self.wf(),
        ensures
            r == self.spec_sizes()[0],
    {
        self.sizes[0]
    }

    /// Width of the output layer.
    pub fn output_len(&self) -> (r: usize)
        requires
            self.wf(),
        ensures
            r == self.spec_sizes().last(),
    {
        self.sizes[self.sizes.len() - 1]
    }

    /// Shape `(rows, cols)` of each weight matrix.
    pub fn weight_shapes(&self) -> (r: Vec<(usize, usize)>)
        requires
            self.wf(),
        ensures
            r@ == layer_shapes(self.spec_sizes()),
    {
        let n = self.sizes.len();
        let mut out: Vec<(usize, usize)> = Vec::new();
        let mut i: usize = 0;
        while i + 1 < n
            invariant
                n == self.spec_sizes().len(),
                n >= 2,
                i + 1 <= n,
                out@ == layer_shapes(self.spec_sizes()).subrange(0, i as int),
            decreases n - i,
        {
            out.push((self.sizes[i + 1], self.sizes[i]));
            i += 1;
            assert(out@ =~= layer_shapes(self.spec_sizes()).subrange(0, i as int));
        }
        assert(out@ =~= layer_shapes(self.spec_sizes()));
        out
    }

    /// Length of each bias vector: the widths of all layers but the input.
    pub fn bias_lengths(&self) -> (r: Vec<usize>)
        requires
            self.wf(),
        ensures
            r@ == self.spec_sizes().drop_first(),
    {
        let n = self.sizes.len();
        let mut out: Vec<usize> = Vec::new();
        let mut i: usize = 1;
        while i < n
            invariant
                n == self.spec_sizes().len(),
                1 <= i <= n,
                out@ == self.spec_sizes().subrange(1, i as int),
            decreases n - i,
        {
            out.push(self.sizes[i]);
            i += 1;
            assert(out@ =~= self.spec_sizes().subrange(1, i as int));
        }
        assert(out@ =~= self.spec_sizes().drop_first());
        out
    }

    /// Length of the output of inference on an input of length `input_len`:
    /// the output layer's width when the input fits the input layer.
    pub fn forward_len(&self, input_len: usize) -> (r: Result<usize, NetworkError>)
        requires
            self.wf(),
        ensures
            r == (if input_len == self.spec_sizes()[0] {
                Ok::<usize, NetworkError>(self.spec_sizes().last())
            } else {
                Err(NetworkError::DimensionMismatch)
            }),
    {
        let shapes = self.weight_shapes();
        proof {
            lemma_output_len(self.spec_sizes());
        }
        propagate_len(&shapes, input_len)
    }
}

/// Inference through the weight matrices of a topology succeeds exactly on
/// inputs as long as its first layer, and then yields a vector as long as its
/// last layer.
pub proof fn lemma_output_len(sizes: Seq<usize>)
    requires
        sizes.len() >= 1,
    ensures
        propagate(layer_shapes(sizes), sizes[0]) == Ok::<usize, NetworkError>(sizes.last()),
        forall|n: usize|
            n != sizes[0] && sizes.len() >= 2 ==> #[trigger] propagate(layer_shapes(sizes), n) == Err::<
                usize,
                NetworkError,
            >(NetworkError::DimensionMismatch),
    decreases sizes.len(),
{
    if sizes.len() >= 2 {
        let tail = sizes.drop_first();
        assert(layer_shapes(sizes).drop_first() =~= layer_shapes(tail));
        lemma_output_len(tail);
    } else {
        assert(layer_shapes(sizes).len() == 0);
    }
}

} // verus!
