use memory_estimator::{
    build_memory_info, categorize, categorize_binary_size, classify, convert_wasm_to_wat,
    estimate_memory, extract_features, features_from_captures, pages_to_bytes, BinaryMetrics,
    MemoryInfoEstimator, ParseError, SizeCategory, StaticFeatureSet, WorkloadClass,
};

const MIB: u128 = 1_048_576;

fn features_with(functions: usize, data_sections: usize) -> StaticFeatureSet {
    let mut f = StaticFeatureSet::new();
    f.function_count = functions;
    f.data_section_count = data_sections;
    f
}

fn module_text(functions: usize, data_sections: usize) -> String {
    let mut text = String::from("(module\n");
    for i in 0..functions {
        text.push_str(&format!("  (func $f{} (;{};) (type 0)\n  )\n", i, i));
    }
    for i in 0..data_sections {
        text.push_str(&format!("  (data (;{};) (i32.const {}) \"x\")\n", i, 1024 + i));
    }
    text.push_str(")\n");
    text
}

#[test]
fn test_binary_size_categorization() {
    // Test tiny files
    assert_eq!(categorize_binary_size(25_000), "Tiny (< 50KB)");

    // Test small files
    assert_eq!(categorize_binary_size(75_000), "Small (50-100KB)");

    // Test medium files
    assert_eq!(categorize_binary_size(150_000), "Medium (100-200KB)");

    // Test large files
    assert_eq!(categorize_binary_size(300_000), "Large (200-500KB)");

    // Test very large files
    assert_eq!(categorize_binary_size(750_000), "Very Large (500KB-1MB)");

    // Test huge files
    assert_eq!(categorize_binary_size(2_000_000), "Huge (> 1MB)");
}

#[test]
fn test_memory_calculations() {
    // Test memory page calculations
    let pages = 17;
    let expected_bytes = pages as u64 * 65536; // 64KB per page
    assert_eq!(expected_bytes, 1_114_112); // 1.06 MB
    assert_eq!(pages_to_bytes(pages), 1_114_112);

    // Test buffer calculations
    let base_memory = 1_114_112; // 1.06 MB
    let stack_memory = 1_048_576; // 1 MB
    let buffer = 1_048_576; // 1 MB

    let total_memory = base_memory + stack_memory + buffer;
    assert_eq!(total_memory, 3_211_264); // ~3.06 MB
}

#[test]
fn size_category_boundaries_are_inclusive() {
    assert_eq!(categorize(0), SizeCategory::Tiny);
    assert_eq!(categorize(50_000), SizeCategory::Tiny);
    assert_eq!(categorize(50_001), SizeCategory::Small);
    assert_eq!(categorize(100_000), SizeCategory::Small);
    assert_eq!(categorize(200_000), SizeCategory::Medium);
    assert_eq!(categorize(500_000), SizeCategory::Large);
    assert_eq!(categorize(1_000_000), SizeCategory::VeryLarge);
    assert_eq!(categorize(1_000_001), SizeCategory::Huge);
    assert_eq!(categorize(u64::MAX), SizeCategory::Huge);
    let m = BinaryMetrics::from_size(344_000);
    assert_eq!(m.size_bytes, 344_000);
    assert_eq!(m.size_category, SizeCategory::Large);
}

#[test]
fn features_are_read_from_module_text() {
    let text = [
        "(module",
        "  (type (;0;) (func))",
        "  (memory (;0;) 17)",
        "  (global $__stack_pointer (;0;) (mut i32) i32.const 1048576)",
        "  (global (;1;) i32 i32.const 0)",
        "  (table (;0;) 5 5 funcref)",
        "  (table (;1;) 70 funcref)",
        "  (func $a (;0;) (type 0)",
        "  )",
        "  (func $b (;1;) (type 0)",
        "  )",
        "  (data (;0;) (i32.const 1024) \"abc\")",
        ")",
        "",
    ]
    .join("\n");
    let f = extract_features(&text).unwrap();
    assert_eq!(f.linear_memory_pages, 17);
    assert_eq!(f.linear_memory_bytes, 1_114_112);
    assert_eq!(f.stack_pointer_offset_bytes, 1_048_576);
    assert_eq!(f.function_table_sizes, vec![5, 70]);
    assert_eq!(f.total_function_references, 75);
    assert_eq!(f.function_count, 2);
    assert_eq!(f.data_section_count, 1);
    assert_eq!(f.global_count, 2);
}

#[test]
fn absent_patterns_leave_features_at_zero() {
    let f = extract_features("(module)\n").unwrap();
    assert_eq!(f.linear_memory_pages, 0);
    assert_eq!(f.linear_memory_bytes, 0);
    assert_eq!(f.stack_pointer_offset_bytes, 0);
    assert!(f.function_table_sizes.is_empty());
    assert_eq!(f.total_function_references, 0);
    assert_eq!(f.function_count, 0);
    assert_eq!(f.data_section_count, 0);
    assert_eq!(f.global_count, 0);
    let empty = extract_features("").unwrap();
    assert_eq!(empty.function_count, 0);
}

#[test]
fn lines_count_only_when_they_open_a_definition() {
    let text = "\t(func $a\n   (func\n(func \n  ;; (func $b\n\r(func $c)\r\n(funcref x)\n(func $d)";
    let f = extract_features(text).unwrap();
    // "\t(func $a", "\r(func $c)\r" and "(func $d)" open with "(func "; "(func" and
    // "(func " lose the space to trimming.
    assert_eq!(f.function_count, 3);
}

#[test]
fn malformed_numerals_fail_the_extraction() {
    assert_eq!(
        extract_features("(memory 99999999999)").unwrap_err(),
        ParseError::MemoryPages
    );
    // Unicode digits match the pattern but are no decimal numeral.
    assert_eq!(
        extract_features("(memory \u{0661}\u{0667})").unwrap_err(),
        ParseError::MemoryPages
    );
    assert_eq!(
        extract_features("(global $__stack_pointer (mut i32) i32.const 99999999999999999999)")
            .unwrap_err(),
        ParseError::StackPointerOffset
    );
    assert_eq!(
        extract_features("(table (;0;) 4294967296 funcref)").unwrap_err(),
        ParseError::TableSize
    );
    // The page count is read first.
    assert_eq!(
        extract_features("(memory 99999999999)\n(table 4294967296 funcref)").unwrap_err(),
        ParseError::MemoryPages
    );
}

#[test]
fn largest_numerals_that_fit_are_read() {
    let f = extract_features(
        &[
            "(memory 4294967295)",
            "(global $__stack_pointer (mut i32) i32.const 18446744073709551615)",
            "(table 4294967295 funcref)",
            "(table 4294967295 funcref)",
        ]
        .join("\n"),
    )
    .unwrap();
    assert_eq!(f.linear_memory_pages, u32::MAX);
    assert_eq!(f.linear_memory_bytes, u32::MAX as u64 * 65536);
    assert_eq!(f.stack_pointer_offset_bytes, u64::MAX);
    assert_eq!(f.total_function_references, 2 * u32::MAX as u128);
}

#[test]
fn classification_follows_predicate_order() {
    let m = |s: u64| BinaryMetrics::from_size(s);
    assert_eq!(classify(&m(600_001), &features_with(0, 0)), WorkloadClass::MLInference);
    assert_eq!(classify(&m(10), &features_with(501, 3)), WorkloadClass::MLInference);
    assert_eq!(classify(&m(300_001), &features_with(401, 0)), WorkloadClass::MLInference);
    assert_eq!(classify(&m(200_001), &features_with(501, 0)), WorkloadClass::MLInference);
    assert_eq!(classify(&m(150_001), &features_with(201, 0)), WorkloadClass::MatrixOperations);
    assert_eq!(classify(&m(600_000), &features_with(400, 0)), WorkloadClass::MatrixOperations);
    assert_eq!(classify(&m(150_000), &features_with(300, 0)), WorkloadClass::SimpleComputation);
    assert_eq!(classify(&m(400_000), &features_with(200, 0)), WorkloadClass::SimpleComputation);
    assert_eq!(classify(&m(160_000), &features_with(600, 0)), WorkloadClass::Unclassified);
    // Equal inputs, equal classes.
    assert_eq!(
        classify(&m(250_000), &features_with(300, 1)),
        classify(&m(250_000), &features_with(300, 1))
    );
}

#[test]
fn estimate_follows_the_formula() {
    let m = BinaryMetrics::from_size(1_000);
    let mut f = StaticFeatureSet::new();
    f.linear_memory_pages = 1;
    f.linear_memory_bytes = 65_536;
    f.stack_pointer_offset_bytes = 100;
    let e = estimate_memory(&m, &f, WorkloadClass::SimpleComputation);
    assert_eq!(e.minimum_bytes, 65_536 + 100 + 150);
    assert_eq!(e.buffer_bytes, 2 * MIB);
    assert_eq!(e.peak_bytes, e.minimum_bytes + 2 * MIB);
    assert_eq!(e.basis_class, WorkloadClass::SimpleComputation);

    // floor(7 * 0.15) = 1
    let small = estimate_memory(
        &BinaryMetrics::from_size(7),
        &StaticFeatureSet::new(),
        WorkloadClass::Unclassified,
    );
    assert_eq!(small.minimum_bytes, 1);
    assert_eq!(small.buffer_bytes, 5 * MIB);

    let big = BinaryMetrics::from_size(500_001);
    assert_eq!(estimate_memory(&big, &f, WorkloadClass::MLInference).buffer_bytes, 15 * MIB);
    assert_eq!(estimate_memory(&m, &f, WorkloadClass::MLInference).buffer_bytes, 12 * MIB);
    assert_eq!(estimate_memory(&big, &f, WorkloadClass::MatrixOperations).buffer_bytes, 8 * MIB);
    assert_eq!(estimate_memory(&m, &f, WorkloadClass::MatrixOperations).buffer_bytes, 6 * MIB);
    f.total_function_references = 51;
    assert_eq!(estimate_memory(&m, &f, WorkloadClass::SimpleComputation).buffer_bytes, 3 * MIB);
    f.total_function_references = 50;
    assert_eq!(estimate_memory(&m, &f, WorkloadClass::SimpleComputation).buffer_bytes, 2 * MIB);
}

#[test]
fn peak_is_at_least_two_mib_above_minimum() {
    let f = features_with(0, 0);
    for class in [
        WorkloadClass::MLInference,
        WorkloadClass::MatrixOperations,
        WorkloadClass::SimpleComputation,
        WorkloadClass::Unclassified,
    ] {
        for size in [0u64, 150_000, 200_001, 500_001, u64::MAX] {
            let e = estimate_memory(&BinaryMetrics::from_size(size), &f, class);
            assert!(e.peak_bytes > e.minimum_bytes);
            assert!(e.peak_bytes - e.minimum_bytes >= 2 * MIB);
        }
    }
}

#[test]
fn matrix_scenario_gets_six_mib() {
    let info = build_memory_info(195_000, &module_text(250, 0)).unwrap();
    assert_eq!(info.features.function_count, 250);
    assert_eq!(info.features.data_section_count, 0);
    assert_eq!(info.features.global_count, 0);
    assert_eq!(info.metrics.size_category, SizeCategory::Medium);
    assert_eq!(info.workload, WorkloadClass::MatrixOperations);
    assert_eq!(info.estimate.buffer_bytes, 6 * MIB);
    assert_eq!(info.estimate.minimum_bytes, 29_250);
    assert_eq!(info.estimate.peak_bytes, 29_250 + 6 * MIB);
}

#[test]
fn ml_scenario_gets_twelve_mib() {
    let info = build_memory_info(344_000, &module_text(520, 3)).unwrap();
    assert_eq!(info.features.function_count, 520);
    assert_eq!(info.features.data_section_count, 3);
    assert_eq!(info.workload, WorkloadClass::MLInference);
    assert_eq!(info.estimate.buffer_bytes, 12 * MIB);
    assert_eq!(info.estimate.minimum_bytes, 51_600);
}

#[test]
fn build_memory_info_reports_malformed_numerals() {
    assert_eq!(
        build_memory_info(1_000, "(memory 99999999999)").unwrap_err(),
        ParseError::MemoryPages
    );
}

#[test]
fn empty_analysis_is_at_zero_defaults() {
    let info = MemoryInfoEstimator::new();
    assert_eq!(info.metrics.size_bytes, 0);
    assert_eq!(info.features.linear_memory_bytes, 0);
    assert_eq!(info.workload, WorkloadClass::SimpleComputation);
    assert_eq!(info.estimate.minimum_bytes, 0);
    assert_eq!(info.estimate.peak_bytes, 2 * MIB);
}

#[test]
fn wasm_binary_converts_to_text() {
    let empty_module: Vec<u8> = vec![0x00, 0x61, 0x73, 0x6d, 0x01, 0x00, 0x00, 0x00];
    let text = convert_wasm_to_wat(&empty_module).unwrap();
    assert!(text.starts_with("(module"));
    assert!(convert_wasm_to_wat(&[1, 2, 3]).is_err());
}

#[test]
fn captures_are_read_as_numerals() {
    let some = |s: &str| Some(s.to_string());
    let f = features_from_captures(&some("17"), &None, &vec![some("5"), some("+7")], "(func $a\n")
        .unwrap();
    assert_eq!(f.linear_memory_pages, 17);
    assert_eq!(f.linear_memory_bytes, 1_114_112);
    assert_eq!(f.stack_pointer_offset_bytes, 0);
    assert_eq!(f.function_table_sizes, vec![5, 7]);
    assert_eq!(f.total_function_references, 12);
    assert_eq!(f.function_count, 1);
    assert_eq!(
        features_from_captures(&some("17"), &some("x"), &vec![], "").unwrap_err(),
        ParseError::StackPointerOffset
    );
    assert_eq!(
        features_from_captures(&None, &None, &vec![some("1"), None], "").unwrap_err(),
        ParseError::TableSize
    );
    assert_eq!(
        features_from_captures(&some("4294967296"), &None, &vec![], "").unwrap_err(),
        ParseError::MemoryPages
    );
    assert_eq!(
        features_from_captures(&some(""), &None, &vec![], "").unwrap_err(),
        ParseError::MemoryPages
    );
}
