//! Builder for multi-variable computation graphs.
//!
//! The builder appends `(operation, predecessor indices)` pairs and tracks
//! the index the next appended operation's result will occupy, so that a
//! caller never manages positions by hand.  `build` hands the finished node
//! list to the planner.

use crate::multi::MultiAD;
use crate::plan::graph_view;
use vstd::prelude::*;

verus! {

/// Builder for constructing multi-variable computation graphs.
///
/// Every appended operation advances `next_index` by one, starting from the
/// number of inputs, mirroring the tape layout: inputs first, then one slot
/// per appended operation.
#[derive(Debug, Clone)]
pub struct GraphBuilder {
    /// Number of input variables
    num_inputs: usize,
    /// Operations in the computation graph
    operations: Vec<(MultiAD, Vec<usize>)>,
    /// Next available index for new operations
    next_index: usize,
}

impl GraphBuilder {
    /// The nodes appended so far, each as its operation and predecessor indices.
    pub closed spec fn graph(&self) -> Seq<(MultiAD, Seq<usize>)> {
        graph_view(self.operations@)
    }

    /// The number of input variables the graph is built over.
    pub closed spec fn input_count(&self) -> nat {
        self.num_inputs as nat
    }

    /// The index the next appended operation will be assigned.
    pub closed spec fn next(&self) -> nat {
        self.next_index as nat
    }

    /// The builder's invariant: the next index always equals the input count
    /// plus the number of operations appended so far.
    pub open spec fn wf(&self) -> bool {
        self.next() == self.input_count() + self.graph().len()
    }

    /// Creates a new graph builder with the specified number of inputs
    /// (indices `0` to `num_inputs - 1`).
    pub fn new(num_inputs: usize) -> (r: Self)
        ensures
            r.wf(),
            r.graph() == Seq::<(MultiAD, Seq<usize>)>::empty(),
            r.input_count() == num_inputs,
    {
        let r = Self { num_inputs, operations: Vec::new(), next_index: num_inputs };
        proof {
            assert(r.graph() =~= Seq::<(MultiAD, Seq<usize>)>::empty());
        }
        r
    }

    /// Appends one node; every public builder method funnels through here.
    fn push_node(&mut self, op: MultiAD, indices: Vec<usize>)
        requires
            old(self).wf(),
            old(self).next() < usize::MAX,
        ensures
            final(self).wf(),
            final(self).input_count() == old(self).input_count(),
            final(self).graph() == old(self).graph().push((op, indices@)),
    {
        self.operations.push((op, indices));
        self.next_index = self.next_index + 1;
        proof {
            assert(final(self).graph() =~= old(self).graph().push(
                (op, final(self).operations@.last().1@),
            ));
        }
    }

    /// Adds an input placeholder operation referencing input `input_index`.
    ///
    /// Inputs are available without this; a placeholder only documents the
    /// reference and never occupies a tape position of its own.
    pub fn input(&mut self, input_index: usize)
        requires
            old(self).wf(),
            old(self).next() < usize::MAX,
        ensures
            final(self).wf(),
            final(self).input_count() == old(self).input_count(),
            final(self).graph() == old(self).graph().push(
                (MultiAD::Inp, seq![input_index]),
            ),
    {
        self.push_node(MultiAD::Inp, args1(input_index));
    }

    /// Adds a sine operation reading the value at `arg_index`.
    pub fn sin(&mut self, arg_index: usize)
        requires
            old(self).wf(),
            old(self).next() < usize::MAX,
        ensures
            final(self).wf(),
            final(self).input_count() == old(self).input_count(),
            final(self).graph() == old(self).graph().push((MultiAD::Sin, seq![arg_index])),
    {
        self.push_node(MultiAD::Sin, args1(arg_index));
    }

    /// Adds a cosine operation reading the value at `arg_index`.
    pub fn cos(&mut self, arg_index: usize)
        requires
            old(self).wf(),
            old(self).next() < usize::MAX,
        ensures
            final(self).wf(),
            final(self).input_count() == old(self).input_count(),
            final(self).graph() == old(self).graph().push((MultiAD::Cos, seq![arg_index])),
    {
        self.push_node(MultiAD::Cos, args1(arg_index));
    }

    /// Adds a tangent operation reading the value at `arg_index`.
    pub fn tan(&mut self, arg_index: usize)
        requires
            old(self).wf(),
            old(self).next() < usize::MAX,
        ensures
            final(self).wf(),
            final(self).input_count() == old(self).input_count(),
            final(self).graph() == old(self).graph().push((MultiAD::Tan, seq![arg_index])),
    {
        self.push_node(MultiAD::Tan, args1(arg_index));
    }

    /// Adds an exponential operation reading the value at `arg_index`.
    pub fn exp(&mut self, arg_index: usize)
        requires
            old(self).wf(),
            old(self).next() < usize::MAX,
        ensures
            final(self).wf(),
            final(self).input_count() == old(self).input_count(),
            final(self).graph() == old(self).graph().push((MultiAD::Exp, seq![arg_index])),
    {
        self.push_node(MultiAD::Exp, args1(arg_index));
    }

    /// Adds a natural logarithm operation reading the value at `arg_index`.
    pub fn ln(&mut self, arg_index: usize)
        requires
            old(self).wf(),
            old(self).next() < usize::MAX,
        ensures
            final(self).wf(),
            final(self).input_count() == old(self).input_count(),
            final(self).graph() == old(self).graph().push((MultiAD::Ln, seq![arg_index])),
    {
        self.push_node(MultiAD::Ln, args1(arg_index));
    }

    /// Adds a square root operation reading the value at `arg_index`.
    pub fn sqrt(&mut self, arg_index: usize)
        requires
            old(self).wf(),
            old(self).next() < usize::MAX,
        ensures
            final(self).wf(),
            final(self).input_count() == old(self).input_count(),
            final(self).graph() == old(self).graph().push((MultiAD::Sqrt, seq![arg_index])),
    {
        self.push_node(MultiAD::Sqrt, args1(arg_index));
    }

    /// Adds an absolute value operation reading the value at `arg_index`.
    pub fn abs(&mut self, arg_index: usize)
        requires
            old(self).wf(),
            old(self).next() < usize::MAX,
        ensures
            final(self).wf(),
            final(self).input_count() == old(self).input_count(),
            final(self).graph() == old(self).graph().push((MultiAD::Abs, seq![arg_index])),
    {
        self.push_node(MultiAD::Abs, args1(arg_index));
    }

    /// Adds an addition operation over the values at the two given indices.
    pub fn add(&mut self, left_index: usize, right_index: usize)
        requires
            old(self).wf(),
            old(self).next() < usize::MAX,
        ensures
            final(self).wf(),
            final(self).input_count() == old(self).input_count(),
            final(self).graph() == old(self).graph().push(
                (MultiAD::Add, seq![left_index, right_index]),
            ),
    {
        self.push_node(MultiAD::Add, args2(left_index, right_index));
    }

    /// Adds a subtraction operation over the values at the two given indices.
    pub fn sub(&mut self, left_index: usize, right_index: usize)
        requires
            old(self).wf(),
            old(self).next() < usize::MAX,
        ensures
            final(self).wf(),
            final(self).input_count() == old(self).input_count(),
            final(self).graph() == old(self).graph().push(
                (MultiAD::Sub, seq![left_index, right_index]),
            ),
    {
        self.push_node(MultiAD::Sub, args2(left_index, right_index));
    }

    /// Adds a multiplication operation over the values at the two given indices.
    pub fn mul(&mut self, left_index: usize, right_index: usize)
        requires
            old(self).wf(),
            old(self).next() < usize::MAX,
        ensures
            final(self).wf(),
            final(self).input_count() == old(self).input_count(),
            final(self).graph() == old(self).graph().push(
                (MultiAD::Mul, seq![left_index, right_index]),
            ),
    {
        self.push_node(MultiAD::Mul, args2(left_index, right_index));
    }

    /// Adds a division operation: numerator at `left_index`, denominator at
    /// `right_index`.
    pub fn div(&mut self, left_index: usize, right_index: usize)
        requires
            old(self).wf(),
            old(self).next() < usize::MAX,
        ensures
            final(self).wf(),
            final(self).input_count() == old(self).input_count(),
            final(self).graph() == old(self).graph().push(
                (MultiAD::Div, seq![left_index, right_index]),
            ),
    {
        self.push_node(MultiAD::Div, args2(left_index, right_index));
    }

    /// Adds a power operation: base at `base_index`, exponent at `exp_index`.
    pub fn pow(&mut self, base_index: usize, exp_index: usize)
        requires
            old(self).wf(),
            old(self).next() < usize::MAX,
        ensures
            final(self).wf(),
            final(self).input_count() == old(self).input_count(),
            final(self).graph() == old(self).graph().push(
                (MultiAD::Pow, seq![base_index, exp_index]),
            ),
    {
        self.push_node(MultiAD::Pow, args2(base_index, exp_index));
    }

    /// Adds a custom operation with explicit argument indices, for operations
    /// not covered by the fluent methods.
    pub fn custom(&mut self, op: MultiAD, indices: Vec<usize>)
        requires
            old(self).wf(),
            old(self).next() < usize::MAX,
        ensures
            final(self).wf(),
            final(self).input_count() == old(self).input_count(),
            final(self).graph() == old(self).graph().push((op, indices@)),
    {
        self.push_node(op, indices);
    }

    /// Builds the final computation graph: a copy of the appended
    /// `(operation, indices)` pairs, ready for the planner.
    pub fn build(&self) -> (r: Vec<(MultiAD, Vec<usize>)>)
        ensures
            graph_view(r@) == self.graph(),
    {
        let mut r: Vec<(MultiAD, Vec<usize>)> = Vec::new();
        let mut k: usize = 0;
        while k < self.operations.len()
            invariant
                k <= self.operations@.len(),
                r@.len() == k,
                forall|i: int|
                    0 <= i < k ==> (#[trigger] r@[i]).0 == self.operations@[i].0 && r@[i].1@
                        == self.operations@[i].1@,
            decreases self.operations@.len() - k,
        {
            let (op, args) = &self.operations[k];
            let copied: Vec<usize> = vstd::slice::slice_to_vec(args.as_slice());
            r.push((*op, copied));
            k = k + 1;
        }
        proof {
            assert forall|i: int| 0 <= i < r@.len() implies graph_view(r@)[i] == self.graph()[i] by {
                assert(graph_view(r@)[i] == (r@[i].0, r@[i].1@));
                assert(self.graph()[i] == (self.operations@[i].0, self.operations@[i].1@));
            }
            assert(graph_view(r@) =~= self.graph());
        }
        r
    }

    /// Returns the current number of operations in the graph.
    pub fn len(&self) -> (r: usize)
        ensures
            r == self.graph().len(),
    {
        self.operations.len()
    }

    /// Returns true if the graph has no operations.
    pub fn is_empty(&self) -> (r: bool)
        ensures
            r == (self.graph().len() == 0),
    {
        self.operations.len() == 0
    }

    /// Returns the index that the next appended operation will be assigned.
    pub fn next_index(&self) -> (r: usize)
        ensures
            r == self.next(),
    {
        self.next_index
    }
}

/// A one-element index list.
fn args1(a: usize) -> (r: Vec<usize>)
    ensures
        r@ == seq![a],
{
    let mut r: Vec<usize> = Vec::new();
    r.push(a);
    proof {
        assert(r@ =~= seq![a]);
    }
    r
}

/// A two-element index list.
fn args2(a: usize, b: usize) -> (r: Vec<usize>)
    ensures
        r@ == seq![a, b],
{
    let mut r: Vec<usize> = Vec::new();
    r.push(a);
    r.push(b);
    proof {
        assert(r@ =~= seq![a, b]);
    }
    r
}

} // verus!
