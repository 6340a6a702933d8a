//! The verified core of the engine: turning a node list into a tape layout.
//!
//! A graph is an ordered list of `(operation, predecessor indices)` pairs
//! over a flat tape: positions `0 .. num_inputs - 1` hold the raw inputs,
//! and each non-placeholder node appends one result slot in evaluation
//! order.  An input placeholder never occupies a slot; its indices are a
//! documentation-only reference back into the input range and are not
//! validated.
//!
//! [`forward_plan`] validates the graph (arity first, then index bounds,
//! node by node in evaluation order) and produces one [`Step`] per
//! non-placeholder node: which operation to apply, which tape positions to
//! read, and the position its result occupies.  The backward sweep walks
//! the same steps in reverse ([`backward_schedule`]), reading the cotangent
//! accumulated at each step's `dst` and adding contributions into the slots
//! named by its `args`.  An executor that follows the plan performs only
//! scalar arithmetic; every position it touches is fixed and bounded here.

use crate::error::AutodiffError;
use crate::multi::MultiAD;
use crate::multi::is_placeholder;
use crate::multi::spec_arity;
use crate::multi::spec_op_name;
use vstd::prelude::*;

verus! {

/// One recorded operation of a forward pass.
///
/// During the forward sweep, step `i` reads the tape at `args`, applies
/// `op`'s forward formula, and writes the result at `dst` (always the next
/// free slot, `num_inputs + i`).  During the backward sweep the same step,
/// visited in reverse order, reads the cotangent at `dst`, applies `op`'s
/// local-gradient rule to the values at `args`, and adds one contribution
/// per argument into the slot that argument names.
#[derive(Debug, Clone, PartialEq)]
pub struct Step {
    /// The operation this node applies.
    pub op: MultiAD,
    /// Tape positions of the operation's arguments, in order.
    pub args: Vec<usize>,
    /// Tape position the operation's result occupies.
    pub dst: usize,
}

/// A graph as the specifications see it: each node's operation and the
/// mathematical sequence of its predecessor indices.
pub open spec fn graph_view(g: Seq<(MultiAD, Vec<usize>)>) -> Seq<(MultiAD, Seq<usize>)> {
    g.map_values(|p: (MultiAD, Vec<usize>)| (p.0, p.1@))
}

/// A step as the specifications see it.
pub open spec fn step_view(s: Step) -> (MultiAD, Seq<usize>, int) {
    (s.op, s.args@, s.dst as int)
}

/// A plan as the specifications see it.
pub open spec fn plan_view(p: Seq<Step>) -> Seq<(MultiAD, Seq<usize>, int)> {
    p.map_values(|s: Step| step_view(s))
}

/// How many tape slots the graph's nodes produce: one per non-placeholder
/// node.
pub open spec fn output_count(g: Seq<(MultiAD, Seq<usize>)>) -> int
    decreases g.len(),
{
    if g.len() == 0 {
        0
    } else {
        output_count(g.drop_last()) + if is_placeholder(g.last().0) {
            0int
        } else {
            1int
        }
    }
}

/// The tape position the node at `k` would write, by the index-space
/// invariant: the input count plus the number of non-placeholder nodes
/// before it.  For a node under validation this is also the first tape
/// position that does not yet hold a value, so its arguments must lie
/// strictly below it.
pub open spec fn position_bound(g: Seq<(MultiAD, Seq<usize>)>, n: int, k: int) -> int {
    n + output_count(g.take(k))
}

/// A single node is well formed when its argument count matches its
/// operation's declared arity and every argument lies strictly below
/// `bound`, the tape position the node itself writes.
pub open spec fn node_ok(op: MultiAD, args: Seq<usize>, bound: int) -> bool {
    &&& args.len() == spec_arity(op)
    &&& forall|j: int| 0 <= j < args.len() ==> (args[j] as int) < bound
}

/// A graph is well formed over `n` inputs when every non-placeholder node
/// is well formed at its own position bound.  Placeholders are
/// documentation-only and not validated.
pub open spec fn graph_ok(g: Seq<(MultiAD, Seq<usize>)>, n: int) -> bool {
    forall|k: int|
        0 <= k < g.len() && !is_placeholder(#[trigger] g[k].0) ==> node_ok(
            g[k].0,
            g[k].1,
            position_bound(g, n, k),
        )
}

/// The forward plan of a graph over `n` inputs: one entry per
/// non-placeholder node, in evaluation order, as
/// `(operation, argument positions, destination position)`.
pub open spec fn plan_spec(g: Seq<(MultiAD, Seq<usize>)>, n: int) -> Seq<
    (MultiAD, Seq<usize>, int),
>
    decreases g.len(),
{
    if g.len() == 0 {
        Seq::empty()
    } else {
        let rest = plan_spec(g.drop_last(), n);
        if is_placeholder(g.last().0) {
            rest
        } else {
            rest.push((g.last().0, g.last().1, n + rest.len()))
        }
    }
}

/// The earliest faulty node at or after `k`, or `g.len()` when there is
/// none.
pub open spec fn first_fault_from(g: Seq<(MultiAD, Seq<usize>)>, n: int, k: int) -> int
    decreases g.len() - k,
{
    if k < 0 || k >= g.len() {
        g.len() as int
    } else if !is_placeholder(g[k].0) && !node_ok(g[k].0, g[k].1, position_bound(g, n, k)) {
        k
    } else {
        first_fault_from(g, n, k + 1)
    }
}

/// The earliest faulty node of the graph, or `g.len()` when the graph is
/// well formed.
pub open spec fn first_fault(g: Seq<(MultiAD, Seq<usize>)>, n: int) -> int {
    first_fault_from(g, n, 0)
}

/// The earliest argument position in `args` at or after `j` that is not
/// strictly below `bound`, or `args.len()` when there is none.
pub open spec fn first_oob_from(args: Seq<usize>, bound: int, j: int) -> int
    decreases args.len() - j,
{
    if j < 0 || j >= args.len() {
        args.len() as int
    } else if args[j] as int >= bound {
        j
    } else {
        first_oob_from(args, bound, j + 1)
    }
}

/// The earliest out-of-bounds argument position, or `args.len()` when all
/// arguments are in range.
pub open spec fn first_oob(args: Seq<usize>, bound: int) -> int {
    first_oob_from(args, bound, 0)
}

/// The error reported for the faulty node `(op, args)` whose position bound
/// is `bound`: the arity mismatch if there is one, otherwise the first
/// out-of-range index together with the largest valid index.
pub open spec fn fault_error(e: AutodiffError, op: MultiAD, args: Seq<usize>, bound: int) -> bool {
    if args.len() != spec_arity(op) {
        e matches AutodiffError::ArityError { operation, expected, actual } && operation@
            == spec_op_name(op) && expected == spec_arity(op) && actual == args.len()
    } else {
        e matches AutodiffError::IndexOutOfBounds { index, max_index } && {
            let j = first_oob(args, bound);
            &&& 0 <= j < args.len()
            &&& index == args[j]
            &&& max_index == if bound > 0 {
                bound - 1
            } else {
                0
            }
        }
    }
}

/// A plan has as many steps as the graph has non-placeholder nodes.
pub proof fn lemma_plan_len(g: Seq<(MultiAD, Seq<usize>)>, n: int)
    ensures
        plan_spec(g, n).len() == output_count(g),
    decreases g.len(),
{
    if g.len() != 0 {
        lemma_plan_len(g.drop_last(), n);
    }
}

/// Validate a graph and lay out its forward pass.
///
/// Returns one step per non-placeholder node, in evaluation order, with the
/// tape positions it reads and the position it writes.  Nodes are checked
/// in evaluation order, arity before bounds; the first violation is
/// reported and nothing else is observable.  Placeholder nodes are skipped
/// unchecked.
pub fn forward_plan(graph: &Vec<(MultiAD, Vec<usize>)>, num_inputs: usize) -> (r: Result<
    Vec<Step>,
    AutodiffError,
>)
    requires
        num_inputs + graph@.len() <= usize::MAX,
    ensures
        match r {
            Ok(plan) => {
                &&& graph_ok(graph_view(graph@), num_inputs as int)
                &&& plan_view(plan@) == plan_spec(graph_view(graph@), num_inputs as int)
            },
            Err(e) => {
                let g = graph_view(graph@);
                let n = num_inputs as int;
                let k = first_fault(g, n);
                &&& !graph_ok(g, n)
                &&& 0 <= k < g.len()
                &&& fault_error(e, g[k].0, g[k].1, position_bound(g, n, k))
            },
        },
{
    let ghost g = graph_view(graph@);
    let ghost n = num_inputs as int;
    let mut plan: Vec<Step> = Vec::new();
    let mut k: usize = 0;
    proof {
        assert(plan_view(plan@) =~= plan_spec(g.take(0), n));
    }
    while k < graph.len()
        invariant
            k <= graph@.len(),
            num_inputs + graph@.len() <= usize::MAX,
            g == graph_view(graph@),
            n == num_inputs as int,
            plan_view(plan@) == plan_spec(g.take(k as int), n),
            plan@.len() == output_count(g.take(k as int)),
            plan@.len() <= k,
            forall|k2: int|
                0 <= k2 < k && !is_placeholder(#[trigger] g[k2].0) ==> node_ok(
                    g[k2].0,
                    g[k2].1,
                    position_bound(g, n, k2),
                ),
        decreases graph@.len() - k,
    {
        let (op, args) = &graph[k];
        proof {
            assert(g[k as int] == (*op, args@));
            assert(g.take(k as int + 1).drop_last() =~= g.take(k as int));
            assert(g.take(k as int + 1).last() == g[k as int]);
        }
        if !op.is_input() {
            let arity = op.expected_arity();
            let bound = num_inputs + plan.len();
            match AutodiffError::check_arity(op.op_name(), arity, args.len()) {
                Ok(()) => {},
                Err(e) => {
                    proof {
                        lemma_first_fault_settles(g, n, k as int);
                    }
                    return Err(e);
                },
            }
            let mut j: usize = 0;
            while j < args.len()
                invariant
                    j <= args@.len(),
                    bound == n + output_count(g.take(k as int)),
                    bound <= usize::MAX,
                    g == graph_view(graph@),
                    n == num_inputs as int,
                    k < graph@.len(),
                    g[k as int] == (*op, args@),
                    !is_placeholder(*op),
                    args@.len() == spec_arity(*op),
                    forall|k2: int|
                        0 <= k2 < k && !is_placeholder(#[trigger] g[k2].0) ==> node_ok(
                            g[k2].0,
                            g[k2].1,
                            position_bound(g, n, k2),
                        ),
                    forall|j2: int| 0 <= j2 < j ==> (args@[j2] as int) < bound,
                decreases args@.len() - j,
            {
                if args[j] >= bound {
                    let e = AutodiffError::IndexOutOfBounds {
                        index: args[j],
                        max_index: if bound > 0 {
                            bound - 1
                        } else {
                            0
                        },
                    };
                    proof {
                        lemma_first_fault_settles(g, n, k as int);
                        lemma_first_oob_settles(args@, bound as int, j as int);
                    }
                    return Err(e);
                }
                j = j + 1;
            }
            let copied: Vec<usize> = vstd::slice::slice_to_vec(args.as_slice());
            plan.push(Step { op: *op, args: copied, dst: bound });
            proof {
                assert(output_count(g.take(k as int + 1)) == output_count(g.take(k as int)) + 1);
                assert(plan_spec(g.take(k as int + 1), n) == plan_spec(g.take(k as int), n).push(
                    (*op, args@, n + plan_spec(g.take(k as int), n).len()),
                ));
                lemma_plan_len(g.take(k as int), n);
                assert(plan_view(plan@) =~= plan_spec(g.take(k as int + 1), n));
            }
        } else {
            proof {
                assert(output_count(g.take(k as int + 1)) == output_count(g.take(k as int)));
                assert(plan_spec(g.take(k as int + 1), n) == plan_spec(g.take(k as int), n));
            }
        }
        k = k + 1;
    }
    proof {
        assert(g.take(graph@.len() as int) =~= g);
    }
    Ok(plan)
}

/// Lay out the backward sweep: the forward steps in reverse evaluation
/// order.
///
/// An executor seeds the cotangent buffer (one slot per tape position, all
/// zero) with the caller's cotangent at the last tape position, then, for
/// each returned step in order, reads the cotangent at `dst`, applies the
/// operation's local-gradient rule to the values read at `args` during the
/// forward pass, and adds each resulting contribution into the slot its
/// argument names; a slot feeding several consumers sums all of them.  The
/// gradient is the first `num_inputs` slots.
pub fn backward_schedule(plan: Vec<Step>) -> (r: Vec<Step>)
    ensures
        r@.len() == plan@.len(),
        forall|i: int| 0 <= i < r@.len() ==> r@[i] == plan@[plan@.len() - 1 - i],
{
    let ghost full = plan@;
    let mut rest = plan;
    let mut r: Vec<Step> = Vec::new();
    while rest.len() > 0
        invariant
            rest@.len() + r@.len() == full.len(),
            rest@ == full.take(rest@.len() as int),
            forall|i: int| 0 <= i < r@.len() ==> r@[i] == full[full.len() - 1 - i],
        decreases rest@.len(),
    {
        let s = rest.pop().unwrap();
        proof {
            assert(full.take(rest@.len() as int + 1).drop_last() =~= full.take(
                rest@.len() as int,
            ));
            assert(s == full[rest@.len() as int]);
        }
        r.push(s);
    }
    r
}

/// The tape position whose value a forward pass returns: the last slot of a
/// tape holding `num_inputs` inputs and `n_steps` planned results, or `None`
/// when the tape is empty.  With no operations at all the result position is
/// the last input: the pass returns the input unchanged.
pub fn result_position(num_inputs: usize, n_steps: usize) -> (r: Option<usize>)
    requires
        num_inputs + n_steps <= usize::MAX,
    ensures
        num_inputs + n_steps > 0 ==> r == Some((num_inputs + n_steps - 1) as usize),
        num_inputs + n_steps == 0 ==> r is None,
{
    let total = num_inputs + n_steps;
    if total > 0 {
        Some(total - 1)
    } else {
        None
    }
}

/// The index-space invariant of a well-formed graph's plan: the step at
/// position `i` writes tape position `num_inputs + i` (the input count plus
/// the number of operations evaluated before it), matches its operation's
/// declared arity, and reads only positions strictly below the one it
/// writes.  An executor that allocates `n + plan.len()` slots therefore
/// never touches a slot out of range, and every value a step reads was
/// already written.
pub proof fn lemma_plan_positions(g: Seq<(MultiAD, Seq<usize>)>, n: int)
    requires
        graph_ok(g, n),
    ensures
        plan_spec(g, n).len() == output_count(g),
        forall|i: int|
            0 <= i < plan_spec(g, n).len() ==> {
                let s = #[trigger] plan_spec(g, n)[i];
                &&& s.2 == n + i
                &&& s.1.len() == spec_arity(s.0)
                &&& forall|j: int| 0 <= j < s.1.len() ==> (s.1[j] as int) < s.2
            },
    decreases g.len(),
{
    lemma_plan_len(g, n);
    if g.len() != 0 {
        let rest = g.drop_last();
        assert forall|k: int|
            0 <= k < rest.len() && !is_placeholder(#[trigger] rest[k].0) implies node_ok(
            rest[k].0,
            rest[k].1,
            position_bound(rest, n, k),
        ) by {
            assert(rest.take(k) =~= g.take(k));
            assert(rest[k] == g[k]);
        }
        lemma_plan_positions(rest, n);
        lemma_plan_len(rest, n);
        if !is_placeholder(g.last().0) {
            let i = plan_spec(rest, n).len();
            assert(g.take(g.len() - 1) =~= rest);
            assert(node_ok(g.last().0, g.last().1, position_bound(g, n, g.len() - 1)));
        }
    }
}

/// An empty node list is well formed over any input count and plans no
/// steps: a forward pass leaves the tape at the bare inputs, so an executor
/// returns the input unchanged, and a backward sweep with seed `s` does
/// nothing beyond seeding, leaving `s` in the final input slot.
pub proof fn lemma_empty_graph(n: int)
    ensures
        graph_ok(Seq::<(MultiAD, Seq<usize>)>::empty(), n),
        plan_spec(Seq::<(MultiAD, Seq<usize>)>::empty(), n) == Seq::<(
            MultiAD,
            Seq<usize>,
            int,
        )>::empty(),
{
}

/// No node before `k` is faulty and node `k` is: then `k` is the first
/// fault.
proof fn lemma_first_fault_settles(g: Seq<(MultiAD, Seq<usize>)>, n: int, k: int)
    requires
        0 <= k < g.len(),
        !is_placeholder(g[k].0),
        !node_ok(g[k].0, g[k].1, position_bound(g, n, k)),
        forall|k2: int|
            0 <= k2 < k && !is_placeholder(#[trigger] g[k2].0) ==> node_ok(
                g[k2].0,
                g[k2].1,
                position_bound(g, n, k2),
            ),
    ensures
        first_fault(g, n) == k,
        !graph_ok(g, n),
{
    lemma_first_fault_from_settles(g, n, 0, k);
}

proof fn lemma_first_fault_from_settles(g: Seq<(MultiAD, Seq<usize>)>, n: int, i: int, k: int)
    requires
        0 <= i <= k < g.len(),
        !is_placeholder(g[k].0),
        !node_ok(g[k].0, g[k].1, position_bound(g, n, k)),
        forall|k2: int|
            i <= k2 < k && !is_placeholder(#[trigger] g[k2].0) ==> node_ok(
                g[k2].0,
                g[k2].1,
                position_bound(g, n, k2),
            ),
    ensures
        first_fault_from(g, n, i) == k,
    decreases k - i,
{
    if i < k {
        lemma_first_fault_from_settles(g, n, i + 1, k);
    }
}

/// No argument before `j` is out of range and the one at `j` is: then `j`
/// is the first out-of-range argument.
proof fn lemma_first_oob_settles(args: Seq<usize>, bound: int, j: int)
    requires
        0 <= j < args.len(),
        args[j] as int >= bound,
        forall|j2: int| 0 <= j2 < j ==> (args[j2] as int) < bound,
    ensures
        first_oob(args, bound) == j,
{
    lemma_first_oob_from_settles(args, bound, 0, j);
}

proof fn lemma_first_oob_from_settles(args: Seq<usize>, bound: int, i: int, j: int)
    requires
        0 <= i <= j < args.len(),
        args[j] as int >= bound,
        forall|j2: int| i <= j2 < j ==> (args[j2] as int) < bound,
    ensures
        first_oob_from(args, bound, i) == j,
    decreases j - i,
{
    if i < j {
        lemma_first_oob_from_settles(args, bound, i + 1, j);
    }
}

} // verus!
