//! What is read of the machine, and how the worker's answers are taken.
use vidioai::host::{parse_cuda_version, parse_nvidia_csv_line};
use vidioai::json::{parse, Json, Real};
use vidioai::system::{detail_value, is_nvidia_gpu};
use vidioai::worker::{
    decode_ready, default_compatibility_status, WorkerCompatibility, WorkerReady,
};

fn bits(field: &str) -> Option<u64> {
    field.parse::<f64>().ok().map(f64::to_bits)
}

#[test]
fn parses_nvidia_metrics_without_inventing_values() {
    let gpu = parse_nvidia_csv_line(
        "NVIDIA H100 PCIe, 81559, 12698, 15, 62, 535.154.05, 0",
        Some("12.4"),
        bits,
    )
    .expect("valid NVIDIA row");

    assert_eq!(gpu.model.as_deref(), Some("NVIDIA H100 PCIe"));
    assert_eq!(gpu.vram_total_bytes, Some(81_559 * 1024 * 1024));
    assert_eq!(gpu.vram_used_bytes, Some(12_698 * 1024 * 1024));
    assert_eq!(gpu.vram_available_bytes, Some((81_559 - 12_698) * 1024 * 1024));
    assert_eq!(gpu.temperature_celsius, Some(Real::Bits(62.0f64.to_bits())));
    assert_eq!(gpu.utilization_percent, Some(Real::Bits(15.0f64.to_bits())));
    assert_eq!(gpu.runtime_version.as_deref(), Some("12.4"));
    assert_eq!(gpu.driver_version.as_deref(), Some("535.154.05"));
}

#[test]
fn zero_temperature_is_unknown() {
    let gpu = parse_nvidia_csv_line("GPU, N/A, N/A, N/A, 0, 550.1, 0", None, bits)
        .expect("structurally valid row");
    assert_eq!(gpu.temperature_celsius, None);
    assert_eq!(gpu.vram_total_bytes, None);
}

#[test]
fn short_rows_are_no_cards() {
    assert!(parse_nvidia_csv_line("GPU, 1, 2, 3", None, bits).is_none());
}

#[test]
fn extracts_cuda_version_from_standard_output() {
    assert_eq!(
        parse_cuda_version("Driver Version: 550.54.15    CUDA Version: 12.4     |"),
        Some("12.4".to_owned())
    );
}

#[test]
fn no_cuda_version_is_none() {
    assert_eq!(parse_cuda_version("Driver Version: 550.54.15"), None);
}

#[test]
fn detects_nvidia_from_cuda_backend() {
    let details = vec![("lib_name".to_string(), "CUDA".to_string())];

    assert!(is_nvidia_gpu("GeForce RTX 4090", &details));
}

#[test]
fn reads_the_first_valid_detail_value() {
    let details = vec![
        ("CUDA Version".to_string(), "0.0".to_string()),
        ("lib_version".to_string(), "12.8".to_string()),
    ];

    assert_eq!(
        detail_value(&details, &["CUDA Version", "lib_version"]),
        Some("12.8".to_string())
    );
}

const READY: &str = r#"{
    "ready":true,
    "profile":"GPU_PRODUCTION",
    "runtime_available":true,
    "cuda_available":true,
    "gpu_required":true,
    "scratch_mount_ok":true,
    "scratch_filesystem":"device:contract",
    "scratch_total_bytes":1500000000000,
    "scratch_available_bytes":1400000000000,
    "errors":[]
}"#;

fn flag(document: &Json, key: &str) -> bool {
    document.get(key).unwrap().as_flag().unwrap()
}

fn read_ready(body: &str) -> Result<WorkerReady, String> {
    let document = parse(body.as_bytes()).ok_or("expected ident".to_string())?;
    Ok(WorkerReady {
        ready: flag(&document, "ready"),
        profile: document.text_member("profile").unwrap().to_string(),
        runtime_available: flag(&document, "runtime_available"),
        cuda_available: flag(&document, "cuda_available"),
        gpu_required: flag(&document, "gpu_required"),
        scratch_mount_ok: flag(&document, "scratch_mount_ok"),
        scratch_filesystem: document.text_member("scratch_filesystem").map(str::to_string),
        scratch_total_bytes: document.get("scratch_total_bytes").unwrap().as_integer().unwrap(),
        scratch_available_bytes: document
            .get("scratch_available_bytes")
            .unwrap()
            .as_integer()
            .unwrap(),
        errors: vec![],
    })
}

#[test]
fn readiness_contract_accepts_200() {
    let ready = decode_ready(200, read_ready(READY)).unwrap();
    assert!(ready.ready);
    assert!(ready.cuda_available);
    assert_eq!(ready.scratch_total_bytes, 1_500_000_000_000);
}

#[test]
fn readiness_contract_preserves_structured_503() {
    let payload = READY.replace("\"ready\":true", "\"ready\":false");
    let ready = decode_ready(503, read_ready(&payload)).unwrap();
    assert!(!ready.ready);
    assert!(ready.runtime_available);
}

#[test]
fn readiness_contract_rejects_malformed_json() {
    let error = decode_ready(503, read_ready("not-json")).unwrap_err();
    assert!(error.contains("WORKER_READY_INVALID_JSON"));
}

#[test]
fn readiness_contract_names_other_statuses() {
    let error = decode_ready(404, read_ready(READY)).unwrap_err();
    assert_eq!(error, "WORKER_READY_HTTP_ERROR: worker HTTP 404 Not Found");
}

fn read_compatibility(body: &str) -> WorkerCompatibility {
    let document = parse(body.as_bytes()).unwrap();
    WorkerCompatibility {
        compatibility_status: document
            .text_member("compatibility_status")
            .map(str::to_string)
            .unwrap_or_else(default_compatibility_status),
        runtime_supported: flag(&document, "runtime_supported"),
        runtime_capabilities: vec![],
        pipeline_class: None,
        runtime_reason: document.text_member("runtime_reason").unwrap().to_string(),
        error_code: None,
        dependency: None,
        model_pack_id: None,
    }
}

#[test]
fn compatibility_contract_preserves_supported_unknown_and_unsupported() {
    for expected in ["SUPPORTED", "UNKNOWN", "UNSUPPORTED"] {
        let payload = format!(
            r#"{{
                "compatibility_status":"{expected}",
                "runtime_supported":{},
                "runtime_capabilities":[],
                "pipeline_class":null,
                "runtime_reason":"contract",
                "error_code":null
            }}"#,
            expected == "SUPPORTED"
        );
        let parsed = read_compatibility(&payload);
        assert_eq!(parsed.compatibility_status, expected);
        assert_eq!(parsed.runtime_supported, expected == "SUPPORTED");
    }
}

#[test]
fn compatibility_contract_defaults_legacy_payload_to_unknown() {
    let parsed = read_compatibility(
        r#"{
            "runtime_supported":false,
            "runtime_capabilities":[],
            "pipeline_class":null,
            "runtime_reason":"legacy",
            "error_code":null
        }"#,
    );
    assert_eq!(parsed.compatibility_status, "UNKNOWN");
}

#[test]
fn memory_that_cannot_be_counted_is_unknown() {
    let gpu = parse_nvidia_csv_line("GPU, 17592186044416, 1, 10, 50, 550.1, 0", None, bits)
        .expect("structurally valid row");
    assert_eq!(gpu.vram_total_bytes, None);
    assert_eq!(gpu.vram_used_bytes, Some(1024 * 1024));
    assert_eq!(gpu.vram_available_bytes, None);
    let most = parse_nvidia_csv_line("GPU, 17592186044415, 1, 10, 50, 550.1, 0", None, bits)
        .expect("structurally valid row");
    assert_eq!(most.vram_total_bytes, Some(17592186044415 * 1024 * 1024));
}
