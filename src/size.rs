use vstd::prelude::*;

verus! {

/// Inclusive upper bound, in bytes, of each size category but the last.
pub const TINY_MAX_BYTES: u64 = 50_000;
pub const SMALL_MAX_BYTES: u64 = 100_000;
pub const MEDIUM_MAX_BYTES: u64 = 200_000;
pub const LARGE_MAX_BYTES: u64 = 500_000;
pub const VERY_LARGE_MAX_BYTES: u64 = 1_000_000;

/// Coarse size class of a binary artifact.
#[derive(Debug, Clone, Copy, PartialEq, Eq, Structural)]
pub enum SizeCategory {
    Tiny,
    Small,
    Medium,
    Large,
    VeryLarge,
    Huge,
}

/// The category of a binary of `size_bytes` bytes, from the ordered boundary table.
pub open spec fn category_of(size_bytes: u64) -> SizeCategory {
    if size_bytes <= TINY_MAX_BYTES {
        SizeCategory::Tiny
    } else if size_bytes <= SMALL_MAX_BYTES {
        SizeCategory::Small
    } else if size_bytes <= MEDIUM_MAX_BYTES {
        SizeCategory::Medium
    } else if size_bytes <= LARGE_MAX_BYTES {
        SizeCategory::Large
    } else if size_bytes <= VERY_LARGE_MAX_BYTES {
        SizeCategory::VeryLarge
    } else {
        SizeCategory::Huge
    }
}

/// Human-readable label of each category.
pub open spec fn category_label(c: SizeCategory) -> Seq<char> {
    match c {
        SizeCategory::Tiny => "Tiny (< 50KB)"@,
        SizeCategory::Small => "Small (50-100KB)"@,
        SizeCategory::Medium => "Medium (100-200KB)"@,
        SizeCategory::Large => "Large (200-500KB)"@,
        SizeCategory::VeryLarge => "Very Large (500KB-1MB)"@,
        SizeCategory::Huge => "Huge (> 1MB)"@,
    }
}

/// Places a binary size in its category.
pub fn categorize(size_bytes: u64) -> (r: SizeCategory)
    ensures
        r == category_of(size_bytes),
{
    if size_bytes <= TINY_MAX_BYTES {
        SizeCategory::Tiny
    } else if size_bytes <= SMALL_MAX_BYTES {
        SizeCategory::Small
    } else if size_bytes <= MEDIUM_MAX_BYTES {
        SizeCategory::Medium
    } else if size_bytes <= LARGE_MAX_BYTES {
        SizeCategory::Large
    } else if size_bytes <= VERY_LARGE_MAX_BYTES {
        SizeCategory::VeryLarge
    } else {
        SizeCategory::Huge
    }
}

impl SizeCategory {
    /// The label printed for this category.
    pub fn label(&self) -> (r: &'static str)
        ensures
            r@ == category_label(*self),
    {
        match self {
            SizeCategory::Tiny => "Tiny (< 50KB)",
            SizeCategory::Small => "Small (50-100KB)",
            SizeCategory::Medium => "Medium (100-200KB)",
            SizeCategory::Large => "Large (200-500KB)",
            SizeCategory::VeryLarge => "Very Large (500KB-1MB)",
            SizeCategory::Huge => "Huge (> 1MB)",
        }
    }
}

/// The label of the category that a binary of `size_bytes` bytes falls in.
pub fn categorize_binary_size(size_bytes: u64) -> (r: &'static str)
    ensures
        r@ == category_label(category_of(size_bytes)),
{
    categorize(size_bytes).label()
}

/// Size facts of one binary artifact.
#[derive(Debug, Clone, Copy, PartialEq, Eq, Structural)]
pub struct BinaryMetrics {
    pub size_bytes: u64,
    pub size_category: SizeCategory,
}

impl BinaryMetrics {
    /// Well formed: the category is the one the size falls in.
    pub open spec fn wf(&self) -> bool {
        self.size_category == category_of(self.size_bytes)
    }

    /// The metrics of a binary whose length is `size_bytes`.
    pub fn from_size(size_bytes: u64) -> (r: BinaryMetrics)
        ensures
            r.size_bytes == size_bytes,
            r.wf(),
    {
        BinaryMetrics { size_bytes, size_category: categorize(size_bytes) }
    }
}

} // verus!
