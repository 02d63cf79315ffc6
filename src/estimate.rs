//! Minimum and peak memory estimates from binary size, features and workload class.
use vstd::prelude::*;

use crate::classify::{class_of, classify, WorkloadClass};
use crate::features::{
    extract_features, extraction_error, features_of, ParseError, StaticFeatureSet,
};
use crate::size::BinaryMetrics;

verus! {

pub const MIB: u64 = 1_048_576;

/// Runtime overhead of a binary: `floor(size_bytes * 0.15)`.
pub open spec fn overhead_of(size_bytes: int) -> int {
    (size_bytes * 15) / 100
}

/// Headroom above the minimum granted to each workload class.
pub open spec fn buffer_of(class: WorkloadClass, size_bytes: int, function_references: int) -> int {
    match class {
        WorkloadClass::MLInference => if size_bytes > 500_000 {
            15 * MIB
        } else {
            12 * MIB
        },
        WorkloadClass::MatrixOperations => if size_bytes > 200_000 {
            8 * MIB
        } else {
            6 * MIB
        },
        WorkloadClass::SimpleComputation => if function_references > 50 {
            3 * MIB
        } else {
            2 * MIB
        },
        WorkloadClass::Unclassified => 5 * MIB,
    }
}

/// Estimated memory needs of one binary. Byte counts are `u128`, wide enough that no sum of
/// a 64-bit stack offset, linear memory, overhead and buffer can overflow.
#[derive(Debug, Clone, Copy, PartialEq, Eq, Structural)]
pub struct MemoryEstimate {
    pub minimum_bytes: u128,
    pub peak_bytes: u128,
    pub buffer_bytes: u128,
    pub basis_class: WorkloadClass,
}

impl MemoryEstimate {
    /// The peak is the minimum plus a buffer of at least the smallest tier.
    pub open spec fn wf(&self) -> bool {
        &&& self.peak_bytes == self.minimum_bytes + self.buffer_bytes
        &&& self.buffer_bytes >= 2 * MIB
    }
}

/// `e` is the estimate that the formula gives for these inputs.
pub open spec fn estimate_for(
    e: MemoryEstimate,
    metrics: BinaryMetrics,
    features: StaticFeatureSet,
    class: WorkloadClass,
) -> bool {
    &&& e.minimum_bytes == features.linear_memory_bytes + features.stack_pointer_offset_bytes
        + overhead_of(metrics.size_bytes as int)
    &&& e.buffer_bytes == buffer_of(
        class,
        metrics.size_bytes as int,
        features.total_function_references as int,
    )
    &&& e.peak_bytes == e.minimum_bytes + e.buffer_bytes
    &&& e.basis_class == class
}

/// Every buffer tier is at least 2 MiB, so every estimate's peak lies at least 2 MiB above
/// its minimum.
pub proof fn lemma_peak_exceeds_minimum(
    e: MemoryEstimate,
    metrics: BinaryMetrics,
    features: StaticFeatureSet,
    class: WorkloadClass,
)
    requires
        estimate_for(e, metrics, features, class),
    ensures
        e.peak_bytes - e.minimum_bytes >= 2 * MIB,
        e.peak_bytes > e.minimum_bytes,
        e.wf(),
{
}

/// Combines size, features and class into minimum and peak byte estimates.
pub fn estimate_memory(
    metrics: &BinaryMetrics,
    features: &StaticFeatureSet,
    class: WorkloadClass,
) -> (r: MemoryEstimate)
    ensures
        estimate_for(r, *metrics, *features, class),
        r.wf(),
{
    let size = metrics.size_bytes;
    let base: u128 = features.linear_memory_bytes as u128
        + features.stack_pointer_offset_bytes as u128;
    let overhead: u128 = (size as u128 * 15) / 100;
    let minimum = base + overhead;
    let buffer: u64 = match class {
        WorkloadClass::MLInference => if size > 500_000 {
            15 * MIB
        } else {
            12 * MIB
        },
        WorkloadClass::MatrixOperations => if size > 200_000 {
            8 * MIB
        } else {
            6 * MIB
        },
        WorkloadClass::SimpleComputation => if features.total_function_references > 50 {
            3 * MIB
        } else {
            2 * MIB
        },
        WorkloadClass::Unclassified => 5 * MIB,
    };
    MemoryEstimate {
        minimum_bytes: minimum,
        peak_bytes: minimum + buffer as u128,
        buffer_bytes: buffer as u128,
        basis_class: class,
    }
}

/// Static analysis of one binary: its size, its features, its class and its estimate.
#[derive(Debug, Clone)]
pub struct MemoryInfoEstimator {
    pub metrics: BinaryMetrics,
    pub features: StaticFeatureSet,
    pub workload: WorkloadClass,
    pub estimate: MemoryEstimate,
}

impl MemoryInfoEstimator {
    /// The parts agree: the class and the estimate are those of the size and features.
    pub open spec fn wf(&self) -> bool {
        &&& self.metrics.wf()
        &&& self.features.wf()
        &&& self.workload == class_of(
            self.metrics.size_bytes as int,
            self.features.function_count as int,
            self.features.data_section_count as int,
        )
        &&& estimate_for(self.estimate, self.metrics, self.features, self.workload)
    }

    /// The analysis of an empty binary in whose text no pattern occurs.
    pub fn new() -> (r: MemoryInfoEstimator)
        ensures
            r.wf(),
            r.metrics.size_bytes == 0,
            r.features.linear_memory_pages == 0,
            r.features.stack_pointer_offset_bytes == 0,
            r.features.function_table_sizes@.len() == 0,
            r.features.function_count == 0,
            r.features.data_section_count == 0,
            r.features.global_count == 0,
    {
        let metrics = BinaryMetrics::from_size(0);
        let features = StaticFeatureSet::new();
        let workload = classify(&metrics, &features);
        let estimate = estimate_memory(&metrics, &features, workload);
        MemoryInfoEstimator { metrics, features, workload, estimate }
    }
}

/// Analyses a binary of `size_bytes` bytes whose text format is `disassembly`: extracts its
/// features, classifies it and estimates its memory. Fails when a captured numeral in the
/// text cannot be read.
pub fn build_memory_info(size_bytes: u64, disassembly: &str) -> (r: Result<
    MemoryInfoEstimator,
    ParseError,
>)
    ensures
        match r {
            Ok(info) => {
                &&& extraction_error(disassembly@) is None
                &&& info.wf()
                &&& info.metrics.size_bytes == size_bytes
                &&& features_of(info.features, disassembly@)
            },
            Err(e) => extraction_error(disassembly@) == Some(e),
        },
{
    let metrics = BinaryMetrics::from_size(size_bytes);
    let features = match extract_features(disassembly) {
        Ok(f) => f,
        Err(e) => return Err(e),
    };
    let workload = classify(&metrics, &features);
    let estimate = estimate_memory(&metrics, &features, workload);
    Ok(MemoryInfoEstimator { metrics, features, workload, estimate })
}

} // verus!
