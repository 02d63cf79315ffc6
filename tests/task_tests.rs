use std::io::Write;

use memory_estimator::{
    parse_invocation, reconcile, resolve_payload, resolve_resident_bytes, task_file_path,
    worker_arguments, worker_environment, worker_outcome, Invocation, MemoryEstimate,
    MemorySample, PayloadError, WasmJobRequest, WorkloadClass,
};
use memory_estimator::monitor::{resident_bytes_from_ps, resident_bytes_from_statm};

fn gzip_base64(text: &str) -> String {
    let mut encoder = flate2::write::GzEncoder::new(Vec::new(), flate2::Compression::default());
    encoder.write_all(text.as_bytes()).unwrap();
    let bytes = encoder.finish().unwrap();
    base64::Engine::encode(&base64::engine::general_purpose::STANDARD, bytes)
}

fn request(task_id: usize, payload: &str, compressed: bool) -> WasmJobRequest {
    WasmJobRequest {
        binary_name: "matrix.wasm".to_string(),
        func_name: "run".to_string(),
        payload: payload.to_string(),
        payload_compressed: compressed,
        task_id,
        model_folder_name: "models".to_string(),
        cwasm_file: "matrix.cwasm".to_string(),
        wat_file: "matrix.wat".to_string(),
    }
}

#[test]
fn task_files_are_named_by_task_id() {
    assert_eq!(task_file_path(0), "/tmp/wasm_task_0.json");
    assert_eq!(task_file_path(42), "/tmp/wasm_task_42.json");
    assert_eq!(task_file_path(1_000_007), "/tmp/wasm_task_1000007.json");
    assert_ne!(task_file_path(1), task_file_path(10));
    assert_eq!(request(9, "", false).task_file(), "/tmp/wasm_task_9.json");
}

#[test]
fn request_paths_are_in_the_module_directory() {
    let r = request(1, "", false);
    assert_eq!(r.binary_path(), "wasm-modules/matrix.wasm");
    assert_eq!(r.cwasm_path(), "wasm-modules/matrix.cwasm");
    assert_eq!(r.wat_path(), "wasm-modules/matrix.wat");
}

#[test]
fn worker_environment_pins_every_backend() {
    let env = worker_environment();
    assert_eq!(env.len(), 13);
    assert_eq!(env[0], ("OMP_NUM_THREADS".to_string(), "1".to_string()));
    assert_eq!(
        env[9],
        ("ORT_EXECUTION_PROVIDER".to_string(), "CPUExecutionProvider".to_string())
    );
    assert_eq!(env[12], ("OPENBLAS_DYNAMIC".to_string(), "FALSE".to_string()));
}

#[test]
fn invocation_is_read_from_arguments() {
    let args = |a: &[&str]| a.iter().map(|s| s.to_string()).collect::<Vec<String>>();
    assert_eq!(parse_invocation(&args(&["server"])), Invocation::Server);
    assert_eq!(parse_invocation(&args(&["server", "other"])), Invocation::Server);
    assert_eq!(
        parse_invocation(&args(&["server", "child"])),
        Invocation::WorkerMissingTaskFile
    );
    assert_eq!(
        parse_invocation(&args(&["server", "child", "/tmp/wasm_task_3.json"])),
        Invocation::Worker { task_file: "/tmp/wasm_task_3.json".to_string() }
    );
    let mut spawned = vec!["server".to_string()];
    spawned.extend(worker_arguments(&"/tmp/wasm_task_5.json".to_string()));
    assert_eq!(
        parse_invocation(&spawned),
        Invocation::Worker { task_file: "/tmp/wasm_task_5.json".to_string() }
    );
}

#[test]
fn payloads_are_decoded_when_compressed() {
    assert_eq!(resolve_payload("{\"n\": 3}", false).unwrap(), "{\"n\": 3}");
    assert_eq!(resolve_payload(&gzip_base64("{\"n\": 3}"), true).unwrap(), "{\"n\": 3}");
    assert_eq!(resolve_payload("not base64!", true).unwrap_err(), PayloadError::InvalidBase64);
    assert_eq!(resolve_payload("aGVsbG8=", true).unwrap_err(), PayloadError::InvalidGzip);
    assert_eq!(request(1, &gzip_base64("abc"), true).job_payload().unwrap(), "abc");
}

#[test]
fn resident_memory_is_read_in_priority_order() {
    assert_eq!(resident_bytes_from_statm("12345 678 90 1 0 2 0\n", 4096), Some(678 * 4096));
    assert_eq!(resident_bytes_from_statm("12345", 4096), None);
    assert_eq!(resident_bytes_from_statm("1 x 3", 4096), None);
    assert_eq!(resident_bytes_from_ps("  2048\n"), Some(2048 * 1024));
    assert_eq!(resident_bytes_from_ps("RSS"), None);
    assert_eq!(resolve_resident_bytes(Some("1 2 3"), Some("5"), 4096), 8192);
    assert_eq!(resolve_resident_bytes(Some("1"), Some("5"), 4096), 5120);
    assert_eq!(resolve_resident_bytes(None, Some("5"), 4096), 5120);
    assert_eq!(resolve_resident_bytes(None, Some(""), 4096), 50 * 1024 * 1024);
    assert_eq!(resolve_resident_bytes(None, None, 4096), 50 * 1024 * 1024);
}

#[test]
fn sample_peak_is_the_larger_endpoint() {
    let s = MemorySample::from_readings(100, 300, 7);
    assert_eq!(s.peak_bytes, 300);
    assert_eq!(s.elapsed_ms, 7);
    assert_eq!(MemorySample::from_readings(500, 300, 1).peak_bytes, 500);
}

#[test]
fn reconciliation_is_all_measured_or_all_static() {
    let estimate = MemoryEstimate {
        minimum_bytes: 1_000,
        peak_bytes: 1_000 + 2 * 1_048_576,
        buffer_bytes: 2 * 1_048_576,
        basis_class: WorkloadClass::SimpleComputation,
    };
    let sample = MemorySample::from_readings(4_000, 9_000, 12);
    let ok = reconcile(&estimate, true, "42".to_string(), sample);
    assert_eq!(ok.minimum_bytes, 4_000);
    assert_eq!(ok.peak_bytes, 9_000);
    assert!(ok.execution_confirmed);
    assert!(!ok.fallback_used);
    assert_eq!(ok.sample, Some(sample));
    let failed = reconcile(&estimate, false, "trap".to_string(), sample);
    assert_eq!(failed.minimum_bytes, 1_000);
    assert_eq!(failed.peak_bytes, 1_000 + 2 * 1_048_576);
    assert!(!failed.execution_confirmed);
    assert!(failed.fallback_used);
    assert_eq!(failed.sample, None);
    assert_eq!(failed.output, "trap");
}

#[test]
fn worker_outcome_is_typed() {
    assert_eq!(
        worker_outcome(true, Some(0), "out".to_string(), "".to_string()),
        Ok("out".to_string())
    );
    let failure = worker_outcome(false, Some(3), "o".to_string(), "e".to_string()).unwrap_err();
    assert_eq!(failure.exit_code, Some(3));
    assert_eq!(failure.stdout, "o");
    assert_eq!(failure.stderr, "e");
}
