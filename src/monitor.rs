//! Resident memory readings taken around one job run, and how the measurement is reconciled
//! with the static estimate.
use vstd::prelude::*;

use crate::classify::WorkloadClass;
use crate::estimate::MemoryEstimate;
use crate::text::{
    chars_of, copy_range, field, field_at, numeral_value, parse_numeral, trim, trim_bounds,
};

verus! {

/// Reading reported when no source of resident memory is available. It is a placeholder,
/// not a measurement.
pub const FALLBACK_RESIDENT_BYTES: u64 = 50 * 1024 * 1024;

/// Bytes in a unit of the process-status tool's resident size, which it reports in KiB.
pub const PS_UNIT_BYTES: u64 = 1024;

/// Resident bytes read from a process memory statistics file: its second field is the
/// resident page count, times the page size; `None` when the field is missing, is no
/// numeral, or the product does not fit a `u64`.
pub open spec fn statm_reading(statm: Seq<char>, page_size: int) -> Option<int> {
    match field(statm, 1) {
        Some(f) => match numeral_value(f, 0xffff_ffff_ffff_ffff) {
            Some(pages) => if pages * page_size <= 0xffff_ffff_ffff_ffff {
                Some(pages * page_size)
            } else {
                None
            },
            None => None,
        },
        None => None,
    }
}

/// Resident bytes read from the process-status tool's output, a size in KiB once trimmed;
/// `None` when it is no numeral or the bytes do not fit a `u64`.
pub open spec fn ps_reading(output: Seq<char>) -> Option<int> {
    match numeral_value(trim(output), 0xffff_ffff_ffff_ffff) {
        Some(kib) => if kib * PS_UNIT_BYTES <= 0xffff_ffff_ffff_ffff {
            Some(kib * PS_UNIT_BYTES)
        } else {
            None
        },
        None => None,
    }
}

/// `a * b` when it fits a `u64`.
fn checked_product(a: u64, b: u64) -> (r: Option<u64>)
    ensures
        match r {
            Some(p) => p == a * b,
            None => a * b > 0xffff_ffff_ffff_ffff,
        },
{
    assert(a as int * b as int <= 0xffff_ffff_ffff_ffff * 0xffff_ffff_ffff_ffffint)
        by (nonlinear_arith)
        requires
            a <= 0xffff_ffff_ffff_ffffint,
            b <= 0xffff_ffff_ffff_ffffint,
    ;
    let p: u128 = a as u128 * b as u128;
    if p > 0xffff_ffff_ffff_ffff {
        None
    } else {
        Some(p as u64)
    }
}

/// Resident bytes from the contents of a process memory statistics file.
pub fn resident_bytes_from_statm(statm: &str, page_size: u64) -> (r: Option<u64>)
    ensures
        match r {
            Some(v) => statm_reading(statm@, page_size as int) == Some(v as int),
            None => statm_reading(statm@, page_size as int) is None,
        },
{
    let chars = chars_of(statm);
    let (a, b) = match field_at(&chars, 1) {
        Some(bounds) => bounds,
        None => return None,
    };
    let pages = match parse_numeral(&copy_range(&chars, a, b), 0xffff_ffff_ffff_ffff) {
        Some(v) => v,
        None => return None,
    };
    checked_product(pages, page_size)
}

/// Resident bytes from the output of the process-status tool.
pub fn resident_bytes_from_ps(output: &str) -> (r: Option<u64>)
    ensures
        match r {
            Some(v) => ps_reading(output@) == Some(v as int),
            None => ps_reading(output@) is None,
        },
{
    let chars = chars_of(output);
    let (a, b) = trim_bounds(&chars, 0, chars.len());
    assert(chars@.subrange(0, chars@.len() as int) =~= chars@);
    let kib = match parse_numeral(&copy_range(&chars, a, b), 0xffff_ffff_ffff_ffff) {
        Some(v) => v,
        None => return None,
    };
    checked_product(kib, PS_UNIT_BYTES)
}

/// The reading of the first source that yields one: the statistics file, then the
/// process-status tool, then the placeholder.
pub open spec fn resident_reading(
    statm: Option<Seq<char>>,
    ps_output: Option<Seq<char>>,
    page_size: int,
) -> int {
    let from_statm = match statm {
        Some(s) => statm_reading(s, page_size),
        None => None,
    };
    let from_ps = match ps_output {
        Some(o) => ps_reading(o),
        None => None,
    };
    match from_statm {
        Some(v) => v,
        None => match from_ps {
            Some(v) => v,
            None => FALLBACK_RESIDENT_BYTES as int,
        },
    }
}

/// Resident memory from whichever sources could be read, in order of priority. Never fails:
/// with no usable source it returns the placeholder.
pub fn resolve_resident_bytes(
    statm: Option<&str>,
    ps_output: Option<&str>,
    page_size: u64,
) -> (r: u64)
    ensures
        r == resident_reading(
            match statm {
                Some(s) => Some(s@),
                None => None,
            },
            match ps_output {
                Some(o) => Some(o@),
                None => None,
            },
            page_size as int,
        ),
{
    if let Some(s) = statm {
        if let Some(v) = resident_bytes_from_statm(s, page_size) {
            return v;
        }
    }
    if let Some(o) = ps_output {
        if let Some(v) = resident_bytes_from_ps(o) {
            return v;
        }
    }
    FALLBACK_RESIDENT_BYTES
}

/// Resident memory sampled before and after one job, and the time it took. The peak is
/// the larger endpoint: a peak reached and released during the run goes unseen.
#[derive(Debug, Clone, Copy, PartialEq, Eq, Structural)]
pub struct MemorySample {
    pub initial_bytes: u64,
    pub final_bytes: u64,
    pub peak_bytes: u64,
    pub elapsed_ms: u64,
}

impl MemorySample {
    pub open spec fn wf(&self) -> bool {
        self.peak_bytes == if self.initial_bytes >= self.final_bytes {
            self.initial_bytes
        } else {
            self.final_bytes
        }
    }

    /// The sample of a run that started at `initial_bytes`, ended at `final_bytes` and took
    /// `elapsed_ms` milliseconds.
    pub fn from_readings(initial_bytes: u64, final_bytes: u64, elapsed_ms: u64) -> (r:
        MemorySample)
        ensures
            r.wf(),
            r.initial_bytes == initial_bytes,
            r.final_bytes == final_bytes,
            r.elapsed_ms == elapsed_ms,
    {
        let peak_bytes = if initial_bytes >= final_bytes {
            initial_bytes
        } else {
            final_bytes
        };
        MemorySample { initial_bytes, final_bytes, peak_bytes, elapsed_ms }
    }
}

/// What one job run comes to: its output, and the memory figures that stand for it.
#[derive(Debug, Clone, PartialEq, Eq)]
pub struct JobResult {
    pub succeeded: bool,
    /// The job's output after a successful run, its error after a failed one.
    pub output: String,
    pub sample: Option<MemorySample>,
    pub minimum_bytes: u128,
    pub peak_bytes: u128,
    pub basis_class: WorkloadClass,
    pub execution_confirmed: bool,
    pub fallback_used: bool,
}

/// Merges a run into the static estimate. After a successful run the measured initial and
/// peak bytes replace the estimate's minimum and peak; after a failed one the estimate
/// stands untouched and the fallback is flagged. Never a mix of the two.
pub fn reconcile(
    estimate: &MemoryEstimate,
    succeeded: bool,
    output: String,
    sample: MemorySample,
) -> (r: JobResult)
    ensures
        r.succeeded == succeeded,
        r.output == output,
        r.basis_class == estimate.basis_class,
        succeeded ==> {
            &&& r.minimum_bytes == sample.initial_bytes
            &&& r.peak_bytes == sample.peak_bytes
            &&& r.sample == Some(sample)
            &&& r.execution_confirmed
            &&& !r.fallback_used
        },
        !succeeded ==> {
            &&& r.minimum_bytes == estimate.minimum_bytes
            &&& r.peak_bytes == estimate.peak_bytes
            &&& r.sample is None
            &&& !r.execution_confirmed
            &&& r.fallback_used
        },
{
    if succeeded {
        JobResult {
            succeeded,
            output,
            sample: Some(sample),
            minimum_bytes: sample.initial_bytes as u128,
            peak_bytes: sample.peak_bytes as u128,
            basis_class: estimate.basis_class,
            execution_confirmed: true,
            fallback_used: false,
        }
    } else {
        JobResult {
            succeeded,
            output,
            sample: None,
            minimum_bytes: estimate.minimum_bytes,
            peak_bytes: estimate.peak_bytes,
            basis_class: estimate.basis_class,
            execution_confirmed: false,
            fallback_used: true,
        }
    }
}

} // verus!
