use petite_ad::AutodiffError;
use petite_ad::MultiAD;
use petite_ad::forward_plan;

#[test]
fn test_check_arity_ok() {
    assert_eq!(AutodiffError::check_arity("Add", 2, 2), Ok(()));
    assert_eq!(AutodiffError::check_arity("Sin", 1, 1), Ok(()));
}

#[test]
fn test_check_arity_err() {
    assert_eq!(
        AutodiffError::check_arity("Add", 2, 1),
        Err(AutodiffError::ArityError { operation: "Add", expected: 2, actual: 1 })
    );
    assert_eq!(
        AutodiffError::check_arity("Sin", 1, 3),
        Err(AutodiffError::ArityError { operation: "Sin", expected: 1, actual: 3 })
    );
}

#[test]
fn test_arity_constructor() {
    assert_eq!(
        AutodiffError::arity("Mul", 2, 0),
        AutodiffError::ArityError { operation: "Mul", expected: 2, actual: 0 }
    );
}

#[test]
fn test_plan_arity_violation() {
    // Add given a single index must fail with the exact arity error.
    let graph = vec![(MultiAD::Add, vec![0])];
    let r = forward_plan(&graph, 1);
    assert_eq!(
        r,
        Err(AutodiffError::ArityError { operation: "Add", expected: 2, actual: 1 })
    );
}

#[test]
fn test_plan_reports_first_violation() {
    // The second node is the first faulty one; the third is never reached.
    let graph = vec![
        (MultiAD::Sin, vec![0]),
        (MultiAD::Mul, vec![0, 1, 1]),
        (MultiAD::Add, vec![9]),
    ];
    let r = forward_plan(&graph, 1);
    assert_eq!(
        r,
        Err(AutodiffError::ArityError { operation: "Mul", expected: 2, actual: 3 })
    );
}

#[test]
fn test_plan_index_out_of_bounds() {
    // A node may only read tape positions written before it.
    let graph = vec![(MultiAD::Sin, vec![5])];
    let r = forward_plan(&graph, 1);
    assert_eq!(r, Err(AutodiffError::IndexOutOfBounds { index: 5, max_index: 0 }));

    // A node must not read its own position or a later one.
    let graph = vec![(MultiAD::Sin, vec![0]), (MultiAD::Add, vec![1, 2])];
    let r = forward_plan(&graph, 1);
    assert_eq!(r, Err(AutodiffError::IndexOutOfBounds { index: 2, max_index: 1 }));
}

#[test]
fn test_plan_arity_checked_before_bounds() {
    // Arity is validated before any index is dereferenced.
    let graph = vec![(MultiAD::Add, vec![7])];
    let r = forward_plan(&graph, 1);
    assert_eq!(
        r,
        Err(AutodiffError::ArityError { operation: "Add", expected: 2, actual: 1 })
    );
}

#[test]
fn test_message_arity() {
    let e = AutodiffError::ArityError { operation: "Add", expected: 2, actual: 1 };
    assert_eq!(e.message().as_str(), "Arity error in Add: expected 2, got 1");
}

#[test]
fn test_message_empty_graph() {
    assert_eq!(AutodiffError::EmptyGraph.message().as_str(), "Computation graph is empty");
}

#[test]
fn test_message_index_out_of_bounds() {
    let e = AutodiffError::IndexOutOfBounds { index: 12, max_index: 4 };
    assert_eq!(e.message().as_str(), "Index 12 is out of bounds (max: 4)");
}

#[test]
fn test_message_large_numbers() {
    let e = AutodiffError::IndexOutOfBounds { index: 1000, max_index: 999 };
    assert_eq!(e.message().as_str(), "Index 1000 is out of bounds (max: 999)");
    let e = AutodiffError::ArityError { operation: "Pow", expected: 2, actual: 305 };
    assert_eq!(e.message().as_str(), "Arity error in Pow: expected 2, got 305");
}
