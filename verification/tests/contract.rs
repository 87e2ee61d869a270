//! The contract of the service with its clients, its worker and its stores.
use vidioai::backup::BackupCancellationRegistry;
use vidioai::browse::local_runtime_models;
use vidioai::canvas::CanvasEngine;
use vidioai::capability::{
    image_endpoint, is_valid_image_capability_for_mode, is_valid_video_capability_for_mode,
    procedural_video_dimensions, video_endpoint, GenerationMode, ModelCapability,
};
use vidioai::catalog::worker_reports_ready_for_known_pack;
use vidioai::cloud::{
    cloud_model, restore_identity, seed_restore_staging, select_cloud_manifests,
    snapshot_matches_manifest, CloudModelView, CloudRestoreSelection, FileFacts, PromoteAction,
    PromoteEvent, Promotion, SnapshotFile, SnapshotManifest,
};
use vidioai::digest::snapshot_file_sha256;
use vidioai::error::structured_error_body;
use vidioai::generation::{AssetKind, Generation, GenerationStatus};
use vidioai::job::{
    apply_cloud_backup_status, CloudBackupStatus, Job, JobKind, JobStatus, Jobs,
};
use vidioai::json::Json;
use vidioai::pack::{public_model_status, CatalogModelStatus, ModelPack};
use vidioai::preflight::{validate_preflight_contract, PreflightResult};
use vidioai::readiness::worker_runtime_flags;
use vidioai::runtime::{validate_worker_unload_response, RuntimeEntry, Runtimes};
use vidioai::settings::{AppSettings, Found};
use vidioai::worker::{
    worker_reports_ready, WorkerModelStatus, WorkerReady, WorkerUnloadAllResponse,
};

fn generation_contract_fixture() -> Generation {
    Generation {
        id: 0,
        job_id: None,
        kind: AssetKind::Image,
        mode: GenerationMode::TextToImage,
        capability: Some(ModelCapability::TextToImage),
        prompt: "fixture".into(),
        negative_prompt: None,
        model_id: "fixture".into(),
        model_pack_id: Some("flux-t2i-v1".into()),
        engine: Some("comfyui".into()),
        workflow: Some("flux_t2i.json".into()),
        input_asset_id: None,
        mask_asset_id: None,
        control_asset_id: None,
        input_images: vec![],
        output_asset_id: None,
        status: GenerationStatus::Queued,
        progress: 0,
        error: None,
        error_code: None,
        error_retryable: false,
        created_at: 1,
        updated_at: 1,
        duration_seconds: None,
        requested_duration_seconds: None,
        resolution: None,
        requested_quality: None,
        requested_preset: None,
        advanced_parameters: Json::Object(vec![]),
        requested_aspect_ratio: None,
        requested_fps: None,
        requested_frames: None,
        inference_frames: None,
        actual_width: None,
        actual_height: None,
        actual_fps: None,
        actual_frames: None,
        actual_duration: None,
        audio: false,
        actual_audio: false,
        audio_codec: None,
        audio_channels: None,
        audio_sample_rate: None,
    }
}

fn ready_preflight_fixture() -> PreflightResult {
    PreflightResult {
        model_id: "fixture".into(),
        model_pack_id: Some("flux-t2i-v1".into()),
        engine: Some("comfyui".into()),
        workflow: Some("flux_t2i.json".into()),
    }
}

fn worker_status(model_id: &str, state: &str) -> WorkerModelStatus {
    WorkerModelStatus {
        model_id: model_id.into(),
        state: state.into(),
        repository: Some("Wan-AI/Wan2.2-TI2V-5B-Diffusers".into()),
        revision: Some("rev".into()),
        installed: true,
        loaded: true,
        ready: true,
        weights_valid: true,
        runtime_available: true,
        runtime_compatible: true,
        validation_test: true,
        error: None,
        benchmark: None,
        runtime_dependencies: vec![],
        precision_plan: None,
        memory_plan: None,
        bundle: None,
        capabilities: vec![],
        capability: None,
        pipeline_class: None,
        device: None,
        stage: None,
        model_pack: None,
        model_pack_id: None,
        engine: None,
        model_pack_status: None,
        workflow: None,
        advanced_parameters: vec![],
        presets: Json::Object(vec![]),
        experimental: false,
        load_allowed: true,
        generation_allowed: true,
    }
}

fn completed_install(id: u128, message: &str) -> Job {
    Job {
        id,
        kind: JobKind::InstallModel,
        target_id: "owner/model".into(),
        model_id: Some("owner/model".into()),
        capability: None,
        status: JobStatus::Completed,
        stage: "installed".into(),
        progress: 100,
        message: message.into(),
        transfer: None,
        dependency: None,
        cache_status: Some("CACHE_UPLOADING".into()),
        cache_error: None,
        cloud_backup_status: CloudBackupStatus::Uploading,
        started_at: Some(1),
        completed_at: Some(2),
        error: None,
        result: None,
        created_at: 1,
        updated_at: 2,
    }
}

#[test]
fn api_errors_keep_legacy_error_and_add_structured_fields() {
    let body = structured_error_body(409, "MODEL_NOT_READY: modèle non chargé".into());
    assert_eq!(body.error, "MODEL_NOT_READY: modèle non chargé");
    assert_eq!(body.message, body.error);
    assert_eq!(body.code, "MODEL_NOT_READY");
    assert!(!body.retryable);

    let unknown =
        structured_error_body(409, "FAKE_PREFIX: ne doit pas devenir un code public".into());
    assert_eq!(unknown.code, "CONFLICT");

    let unavailable = structured_error_body(503, "Worker momentanément absent".into());
    assert_eq!(unavailable.code, "SERVICE_UNAVAILABLE");
    assert!(unavailable.retryable);
}

#[test]
fn preflight_must_match_the_persisted_rust_execution_contract() {
    let generation = generation_contract_fixture();
    let valid = ready_preflight_fixture();
    assert!(validate_preflight_contract(Ok(()), &valid, &generation, "fixture").is_ok());

    let mut wrong_pack = ready_preflight_fixture();
    wrong_pack.model_pack_id = Some("worker-invented-pack".into());
    let error =
        validate_preflight_contract(Ok(()), &wrong_pack, &generation, "fixture").unwrap_err();
    assert_eq!(error.code, "PREFLIGHT_IDENTITY_MISMATCH");

    let mut wrong_engine = ready_preflight_fixture();
    wrong_engine.engine = Some("diffusers".into());
    assert_eq!(
        validate_preflight_contract(Ok(()), &wrong_engine, &generation, "fixture")
            .unwrap_err()
            .code,
        "PREFLIGHT_IDENTITY_MISMATCH"
    );
}

#[test]
fn a_local_model_without_an_explicit_pack_is_never_catalogued_ready() {
    let grade = |_: CatalogModelStatus, _: bool, _: bool| CatalogModelStatus::Ready;
    assert_eq!(
        public_model_status(None, true, true, &grade),
        CatalogModelStatus::Unsupported
    );
}

fn manifest(repository: &str) -> SnapshotManifest {
    SnapshotManifest {
        repository: repository.into(),
        revision: "revision-1".into(),
        files: vec![SnapshotFile {
            path: "model.safetensors".into(),
            size: 42,
            sha256: Some("a".repeat(64)),
        }],
        total_size: 42,
        created_at: 1,
        schema_version: 1,
        capabilities: vec!["IMAGE_TO_VIDEO".into()],
    }
}

#[test]
fn cloud_catalog_exposes_valid_manifest_and_restores_only_selection() {
    let selected = select_cloud_manifests(
        &vec![manifest("owner/first"), manifest("owner/second")],
        &vec![CloudRestoreSelection {
            repository: "owner/second".into(),
            revision: "revision-1".into(),
        }],
    )
    .unwrap();
    assert_eq!(selected.len(), 1);
    assert_eq!(selected[0].repository, "owner/second");

    let view: CloudModelView = cloud_model(
        &selected[0],
        "owner--second",
        None,
        &vec![],
        &Jobs::new(),
        "s3://bucket/models/owner/second/revision-1".into(),
    );
    assert_eq!(view.cloud_state, "AVAILABLE");
    assert_eq!(view.local_state, "ABSENT");
    assert_eq!(view.name, "second");
    assert!(!view.local);
    assert_eq!(view.files, 1);
    assert_eq!(view.size_bytes, 42);
}

#[test]
fn cloud_restore_lock_identity_includes_the_exact_revision() {
    assert_eq!(
        restore_identity("owner/model", "revision-1"),
        "owner/model@revision-1"
    );
    assert_ne!(
        restore_identity("owner/model", "revision-1"),
        restore_identity("owner/model", "revision-2")
    );
}

#[test]
fn cloud_backup_status_contract_uses_the_canonical_vocabulary() {
    let statuses = [
        CloudBackupStatus::NotRequested,
        CloudBackupStatus::Pending,
        CloudBackupStatus::Uploading,
        CloudBackupStatus::Completed,
        CloudBackupStatus::Failed,
        CloudBackupStatus::Cancelled,
    ];
    let values = statuses
        .into_iter()
        .map(|status| status.api_name())
        .collect::<Vec<_>>();
    assert_eq!(
        values,
        [
            "NOT_REQUESTED",
            "PENDING",
            "UPLOADING",
            "COMPLETED",
            "FAILED",
            "CANCELLED",
        ]
    );
}

#[test]
fn backup_registry_cancels_only_the_requested_model() {
    let mut registry = BackupCancellationRegistry::new();
    let target_job = uuid::Uuid::new_v4().as_u128();
    let other_job = uuid::Uuid::new_v4().as_u128();
    registry.register(target_job, "owner/model".into());
    registry.register(other_job, "owner/other".into());

    assert_eq!(registry.cancel_model("owner/model"), [target_job]);
    assert!(registry.is_cancelled(target_job));
    assert!(!registry.is_cancelled(other_job));
    registry.finish(target_job);
    assert!(registry.cancel_model("owner/model").is_empty());
}

#[test]
fn cancellable_storage_keeps_local_install_completed_when_backup_is_cancelled() {
    let mut registry = BackupCancellationRegistry::new();
    let job_id = uuid::Uuid::new_v4().as_u128();
    registry.register(job_id, "owner/model".into());
    assert_eq!(registry.cancel_model("owner/model"), [job_id]);

    let mut job = completed_install(job_id, "Modèle installé; sauvegarde cloud en cours");
    apply_cloud_backup_status(&mut job, CloudBackupStatus::Cancelled, None, 3);
    assert_eq!(job.status, JobStatus::Completed);
    assert_eq!(job.cloud_backup_status, CloudBackupStatus::Cancelled);
    assert_ne!(job.status, JobStatus::Failed);
}

#[test]
fn completed_install_remains_completed_when_cloud_backup_is_cancelled() {
    let mut job = completed_install(
        uuid::Uuid::new_v4().as_u128(),
        "Modèle installé localement; sauvegarde cloud en cours",
    );
    apply_cloud_backup_status(&mut job, CloudBackupStatus::Cancelled, None, 3);
    assert_eq!(job.status, JobStatus::Completed);
    assert_eq!(job.stage, "installed");
    assert_eq!(job.progress, 100);
    assert_eq!(job.cloud_backup_status, CloudBackupStatus::Cancelled);
    assert_eq!(job.cache_status.as_deref(), Some("CACHE_CANCELLED"));
}

#[test]
fn global_unload_succeeds_without_worker_or_cuda_and_purges_runtime() {
    let mut runtime = Runtimes::new();
    runtime.insert(RuntimeEntry {
        model_id: "procedural/model".into(),
        state: "ready".into(),
        device: "CPU".into(),
        ram_bytes: 1024,
        vram_bytes: 0,
        last_used_at: 1,
    });
    let response = runtime.perform_runtime_unload(None).unwrap();
    assert!(response.success);
    assert_eq!(response.models_unloaded, ["procedural/model"]);
    let before = response.before_memory.unwrap();
    assert_eq!(before.get("cuda_available").unwrap().as_flag(), Some(false));
    assert_eq!(before.get("tracked_ram_bytes").unwrap().as_integer(), Some(1024));
    let after = response.after_memory.unwrap();
    assert_eq!(after.get("loaded_models").unwrap().as_integer(), Some(0));
    assert!(runtime.list.is_empty());
}

#[test]
fn global_unload_rejects_worker_and_comfyui_cleanup_failures() {
    let unavailable = validate_worker_unload_response(Err("connexion refusée".into()))
        .expect_err("configured worker failure must be visible");
    assert!(unavailable.starts_with("WORKER_UNLOAD_FAILED:"));

    let comfy_failure = validate_worker_unload_response(Ok(WorkerUnloadAllResponse {
        success: true,
        models_unloaded: vec!["fixture".into()],
        before_memory: None,
        after_memory: None,
        message: "nettoyage partiel".into(),
        comfyui_error: Some("free endpoint indisponible".into()),
    }))
    .expect_err("ComfyUI cleanup failure must be visible");
    assert!(comfy_failure.contains("free endpoint indisponible"));
}

#[test]
fn cloud_restore_staging_is_unique_and_promoted_only_when_complete() {
    let expected = snapshot_file_sha256(b"new-valid-weights");
    let restored = SnapshotManifest {
        repository: "owner/model".into(),
        revision: "revision".into(),
        files: vec![SnapshotFile {
            path: "model.safetensors".into(),
            size: 17,
            sha256: Some(expected),
        }],
        total_size: 17,
        created_at: 1,
        schema_version: 1,
        capabilities: vec![],
    };
    assert_eq!(seed_restore_staging(true, true), Ok(true));
    let old = FileFacts {
        allowed: true,
        size: Some(3),
        content: Some(b"old".to_vec()),
    };
    assert!(!snapshot_matches_manifest(&restored, &vec![old]));
    let new = FileFacts {
        allowed: true,
        size: Some(17),
        content: Some(b"new-valid-weights".to_vec()),
    };
    assert!(snapshot_matches_manifest(&restored, &vec![new]));

    let mut promotion = Promotion::new();
    assert!(matches!(
        promotion.step(PromoteEvent::Checked(false, true)),
        PromoteAction::SetAside
    ));
    assert!(matches!(promotion.step(PromoteEvent::Done(Ok(()))), PromoteAction::Move));
    assert!(matches!(promotion.step(PromoteEvent::Done(Ok(()))), PromoteAction::Remove));
    assert!(matches!(
        promotion.step(PromoteEvent::Done(Ok(()))),
        PromoteAction::Finish(Ok(()))
    ));
}

#[test]
fn generation_modes_have_stable_json_names() {
    assert_eq!(GenerationMode::TextToImage.api_name(), "TEXT_TO_IMAGE");
}

#[test]
fn local_catalog_only_contains_builtin_runtimes() {
    let repositories: Vec<_> = local_runtime_models()
        .into_iter()
        .map(|entry| entry.repository)
        .collect();
    assert_eq!(repositories, ["local/vidio-canvas", "local/vidio-motion"]);
}

#[test]
fn video_modes_have_stable_json_names() {
    assert_eq!(GenerationMode::ImageToVideo.api_name(), "IMAGE_TO_VIDEO");
    assert_eq!(GenerationMode::VideoToVideo.api_name(), "VIDEO_TO_VIDEO");
}

#[test]
fn procedural_video_dimensions_cover_required_qualities_and_ratios() {
    assert_eq!(procedural_video_dimensions("480p", "16:9"), (854, 480));
    assert_eq!(procedural_video_dimensions("720p", "9:16"), (720, 1280));
    assert_eq!(procedural_video_dimensions("480p", "1:1"), (480, 480));
}

#[test]
fn canvas_palette_is_deterministic() {
    assert_eq!(
        CanvasEngine::palette("ville futuriste"),
        CanvasEngine::palette("ville futuriste")
    );
    assert_ne!(
        CanvasEngine::palette("ville futuriste"),
        CanvasEngine::palette("forêt")
    );
}

#[test]
fn backend_routes_all_image_capabilities_to_expected_worker_endpoints() {
    assert_eq!(
        image_endpoint(&ModelCapability::TextToImage),
        "/v1/generate/text-to-image"
    );
    assert_eq!(
        image_endpoint(&ModelCapability::ImageToImage),
        "/v1/generate/image-to-image"
    );
    assert_eq!(
        image_endpoint(&ModelCapability::Inpainting),
        "/v1/generate/inpainting"
    );
    assert_eq!(
        image_endpoint(&ModelCapability::Outpainting),
        "/v1/generate/outpainting"
    );
    assert_eq!(
        image_endpoint(&ModelCapability::ImageVariation),
        "/v1/generate/image-variation"
    );
    assert_eq!(
        image_endpoint(&ModelCapability::ImageUpscale),
        "/v1/generate/image-upscale"
    );
    assert_eq!(
        image_endpoint(&ModelCapability::ControlledImageGeneration),
        "/v1/generate/controlled-image-generation"
    );
}

#[test]
fn backend_routes_all_video_capabilities_to_expected_worker_endpoints() {
    assert_eq!(
        video_endpoint(&ModelCapability::TextToVideo),
        "/v1/generate/text-to-video"
    );
    assert_eq!(
        video_endpoint(&ModelCapability::ImageToVideo),
        "/v1/generate/image-to-video"
    );
    assert_eq!(
        video_endpoint(&ModelCapability::MultiImageToVideo),
        "/v1/generate/multi-image-to-video"
    );
    assert_eq!(
        video_endpoint(&ModelCapability::StartEndImageToVideo),
        "/v1/generate/start-end-image-to-video"
    );
    assert_eq!(
        video_endpoint(&ModelCapability::KeyframesToVideo),
        "/v1/generate/keyframes-to-video"
    );
    assert_eq!(
        video_endpoint(&ModelCapability::VideoToVideo),
        "/v1/generate/video-to-video"
    );
    assert_eq!(
        video_endpoint(&ModelCapability::VideoInpainting),
        "/v1/generate/video-inpainting"
    );
    assert_eq!(
        video_endpoint(&ModelCapability::VideoUpscale),
        "/v1/generate/video-upscale"
    );
}

#[test]
fn backend_validates_image_mode_capability_families() {
    assert!(is_valid_image_capability_for_mode(
        &GenerationMode::TextToImage,
        &ModelCapability::TextToImage
    ));
    for capability in [
        ModelCapability::ImageToImage,
        ModelCapability::Inpainting,
        ModelCapability::Outpainting,
        ModelCapability::ImageVariation,
        ModelCapability::ImageUpscale,
        ModelCapability::ControlledImageGeneration,
    ] {
        assert!(is_valid_image_capability_for_mode(
            &GenerationMode::ImageToImage,
            &capability
        ));
    }
    assert!(!is_valid_image_capability_for_mode(
        &GenerationMode::TextToImage,
        &ModelCapability::ImageToImage
    ));
    assert!(!is_valid_image_capability_for_mode(
        &GenerationMode::ImageToImage,
        &ModelCapability::TextToImage
    ));
}

#[test]
fn backend_validates_video_mode_capability_families() {
    assert!(is_valid_video_capability_for_mode(
        &GenerationMode::TextToVideo,
        &ModelCapability::TextToVideo
    ));
    for capability in [
        ModelCapability::ImageToVideo,
        ModelCapability::MultiImageToVideo,
        ModelCapability::StartEndImageToVideo,
        ModelCapability::KeyframesToVideo,
    ] {
        assert!(is_valid_video_capability_for_mode(
            &GenerationMode::ImageToVideo,
            &capability
        ));
    }
    for capability in [
        ModelCapability::VideoToVideo,
        ModelCapability::VideoInpainting,
        ModelCapability::VideoUpscale,
    ] {
        assert!(is_valid_video_capability_for_mode(
            &GenerationMode::VideoToVideo,
            &capability
        ));
    }
    assert!(!is_valid_video_capability_for_mode(
        &GenerationMode::VideoToVideo,
        &ModelCapability::ImageToVideo
    ));
    assert!(!is_valid_video_capability_for_mode(
        &GenerationMode::ImageToVideo,
        &ModelCapability::VideoUpscale
    ));
}

#[test]
fn invalid_settings_reject_a_file_instead_of_a_directory() {
    let settings = AppSettings {
        models_dir: "/tmp/root/not-a-directory".into(),
        outputs_dir: "/tmp/root/outputs".into(),
        cache_dir: "/tmp/root/cache".into(),
        work_dir: "/tmp/root/work".into(),
        auto_unload_minutes: 15,
        automatic_optimization: true,
    };
    let found = vec![Found::File, Found::Directory, Found::Directory, Found::Directory];
    let refusal = settings.ensure_directories(&found).unwrap_err();
    assert_eq!(refusal.status, 400);
    assert_eq!(
        refusal.message,
        "Le chemin /tmp/root/not-a-directory désigne un fichier, pas un dossier."
    );
}

#[test]
fn backend_ready_is_false_when_worker_not_ready() {
    let mut status = worker_status("wan", "INSTALLED");
    status.loaded = false;
    status.ready = false;
    status.validation_test = false;
    status.load_allowed = false;
    status.generation_allowed = false;
    assert!(!worker_reports_ready(&status));
}

#[test]
fn backend_ready_is_true_only_when_worker_confirms_ready() {
    let mut status = worker_status("wan", "READY");
    assert!(worker_reports_ready(&status));

    let matching = vec![ModelPack {
        id: "flux-t2i-v1".into(),
        status: CatalogModelStatus::Ready,
        engine_name: "comfyui".into(),
        workflow_by_capability: vec![("TEXT_TO_IMAGE".into(), "flux_t2i.json".into())],
        inputs: Json::Object(vec![]),
        presets: Json::Object(vec![]),
    }];
    status.model_pack_id = Some("worker-invented-pack".into());
    assert!(!worker_reports_ready_for_known_pack(&status, &matching));
    status.model_pack_id = Some("flux-t2i-v1".into());
    assert!(worker_reports_ready_for_known_pack(&status, &matching));
}

#[test]
fn backend_ready_does_not_require_a_hidden_inference_during_load() {
    let mut status = worker_status("video-model", "READY");
    status.repository = Some("example/video-model".into());
    status.validation_test = false;
    assert!(worker_reports_ready(&status));
}

#[test]
fn worker_cuda_and_runtime_flags_map_without_contradiction() {
    let status = WorkerReady {
        ready: true,
        profile: "GPU_PRODUCTION".into(),
        runtime_available: true,
        cuda_available: true,
        gpu_required: true,
        scratch_mount_ok: true,
        scratch_filesystem: Some("device:contract".into()),
        scratch_total_bytes: 1_500_000_000_000,
        scratch_available_bytes: 1_400_000_000_000,
        errors: vec![],
    };
    assert_eq!(worker_runtime_flags(Some(&status)), (true, true, true));
}
