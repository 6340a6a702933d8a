//! Reverse-mode automatic differentiation over small, explicitly built
//! computation graphs.
//!
//! The crate separates the engine into a verified structural core and an
//! unverified numeric shell.  The core owns everything that can be stated
//! over plain values: the operation catalogs with their declared arities,
//! the error taxonomy, the graph builder, and the planner that turns a node
//! list into a validated tape layout (which slot each operation reads and
//! writes, and in which order the backward sweep visits them).  A thin
//! executor may then carry out the scalar arithmetic step by step; every
//! index it touches is pinned down here.

mod builder;
mod error;
mod math_op;
mod mono;
mod multi;
mod plan;

pub use builder::GraphBuilder;
pub use error::AutodiffError;
pub use error::decimal;
pub use error::digit_char;
pub use error::spec_message;
pub use math_op::MathOp;
pub use mono::MonoAD;
pub use multi::MultiAD;
pub use multi::is_placeholder;
pub use multi::spec_arity;
pub use multi::spec_op_name;
pub use plan::Step;
pub use plan::backward_schedule;
pub use plan::fault_error;
pub use plan::first_fault;
pub use plan::first_oob;
pub use plan::forward_plan;
pub use plan::graph_ok;
pub use plan::graph_view;
pub use plan::lemma_empty_graph;
pub use plan::lemma_plan_len;
pub use plan::lemma_plan_positions;
pub use plan::node_ok;
pub use plan::output_count;
pub use plan::plan_spec;
pub use plan::plan_view;
pub use plan::position_bound;
pub use plan::result_position;
pub use plan::step_view;
