//! Heuristic workload classes, decided by an ordered chain of predicates.
use vstd::prelude::*;

use crate::features::StaticFeatureSet;
use crate::size::BinaryMetrics;

verus! {

/// Kind of work a binary is judged to do, which decides how much buffer it gets.
#[derive(Debug, Clone, Copy, PartialEq, Eq, Structural)]
pub enum WorkloadClass {
    MLInference,
    MatrixOperations,
    SimpleComputation,
    Unclassified,
}

/// Signs of a machine-learning inference workload.
pub open spec fn ml_inference_signals(size: int, functions: int, data_sections: int) -> bool {
    ||| size > 600_000
    ||| (functions > 500 && data_sections > 2)
    ||| (size > 300_000 && functions > 400)
    ||| (size > 200_000 && functions > 500)
}

/// Signs of a matrix-operations workload.
pub open spec fn matrix_signals(size: int, functions: int) -> bool {
    150_000 < size <= 600_000 && 200 < functions <= 500
}

/// Signs of a simple computational workload.
pub open spec fn simple_signals(size: int, functions: int) -> bool {
    size <= 150_000 || functions <= 200
}

/// The first class whose predicate holds, tried in the order ML inference, matrix
/// operations, simple computation; unclassified when none holds.
pub open spec fn class_of(size: int, functions: int, data_sections: int) -> WorkloadClass {
    if ml_inference_signals(size, functions, data_sections) {
        WorkloadClass::MLInference
    } else if matrix_signals(size, functions) {
        WorkloadClass::MatrixOperations
    } else if simple_signals(size, functions) {
        WorkloadClass::SimpleComputation
    } else {
        WorkloadClass::Unclassified
    }
}

/// Classifies a binary from its size, its function count and its data segment count.
pub fn classify(metrics: &BinaryMetrics, features: &StaticFeatureSet) -> (r: WorkloadClass)
    ensures
        r == class_of(
            metrics.size_bytes as int,
            features.function_count as int,
            features.data_section_count as int,
        ),
{
    let size = metrics.size_bytes;
    let functions = features.function_count;
    let data_sections = features.data_section_count;
    if size > 600_000 || (functions > 500 && data_sections > 2) || (size > 300_000 && functions
        > 400) || (size > 200_000 && functions > 500) {
        WorkloadClass::MLInference
    } else if size > 150_000 && size <= 600_000 && functions > 200 && functions <= 500 {
        WorkloadClass::MatrixOperations
    } else if size <= 150_000 || functions <= 200 {
        WorkloadClass::SimpleComputation
    } else {
        WorkloadClass::Unclassified
    }
}

/// Classification depends on the size, the function count and the data segment count
/// alone, so equal inputs always get the same class; and the predicates take precedence in
/// their order: a later one decides only when every earlier one fails, even where two of
/// them hold at once.
pub proof fn lemma_classification_is_ordered(
    size: int,
    functions: int,
    data_sections: int,
    other_size: int,
    other_functions: int,
    other_data_sections: int,
)
    ensures
        (size == other_size && functions == other_functions && data_sections
            == other_data_sections) ==> class_of(size, functions, data_sections) == class_of(
            other_size,
            other_functions,
            other_data_sections,
        ),
        ml_inference_signals(size, functions, data_sections) ==> class_of(
            size,
            functions,
            data_sections,
        ) == WorkloadClass::MLInference,
        !ml_inference_signals(size, functions, data_sections) && matrix_signals(size, functions)
            ==> class_of(size, functions, data_sections) == WorkloadClass::MatrixOperations,
        !ml_inference_signals(size, functions, data_sections) && !matrix_signals(size, functions)
            && simple_signals(size, functions) ==> class_of(size, functions, data_sections)
            == WorkloadClass::SimpleComputation,
        !ml_inference_signals(size, functions, data_sections) && !matrix_signals(size, functions)
            && !simple_signals(size, functions) ==> class_of(size, functions, data_sections)
            == WorkloadClass::Unclassified,
{
}

} // verus!
