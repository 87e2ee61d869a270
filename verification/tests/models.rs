//! The catalogue, installations, loaded models, the cloud store and the laboratory.
use vidioai::backup::BackupCancellationRegistry;
use vidioai::browse::{
    choose_page, entry_matches_query, is_local_engine, resolved_model, route_model, CatalogQuery,
};
use vidioai::capability::{from_api_names, model_input_profile, ModelCapability};
use vidioai::catalog::{
    answer_key, asks_worker, is_fresh, is_modular, machine_context, model_view, CatalogEntry,
    HardwareEstimate, HostFacts, Knowledge, ModelMachineContext, ModelVariant, ModelView,
    RepositoryFile,
};
use vidioai::cloud::{
    admit_restore, needs_content, new_restore_job, plan_restores, ready_models, report_fetching,
    seed_restore_staging, select_cloud_manifests, snapshot_matches_manifest, CloudRestoreSelection,
    FileFacts, PromoteAction, PromoteEvent, Promotion, RestoreAction, RestoreClaims, RestoreEvent,
    RestorePhase, RestoreRun, SnapshotFile, SnapshotManifest,
};
use vidioai::digest::snapshot_file_sha256;
use vidioai::install::{
    admit_copy, admit_install, auto_cache_models_enabled, cache_model, check_presence,
    choose_copied_revision, finish_copy, new_copy_job, place_install, prepare_install, settle_entry,
    start_model_install, Fetched, InstallAction, InstallEvent, InstallModelInput, InstallPhase,
    InstallRun, UploadFailure,
};
use vidioai::installed::{
    canonical_pack, declared_size, describe, directory_size, identify, installed_revision,
    installed_storage_id, is_staged_download, list_installed_models, may_hold_model,
    pointer_document, recorded_model, InstalledPointer, ModelDirectory,
};
use vidioai::job::{CloudBackupStatus, JobKind, JobStatus, Jobs, TransferReport};
use vidioai::json::Json;
use vidioai::lab::{
    admit_analysis, admit_lifecycle, admit_promotion, admit_trial, analysis_versions,
    analyzed_model, check_attestation, check_revision, choose_promoted_pack, is_commit_revision,
    lab_storage_id, name_store, required_version, watch_trial, watched_repositories, LabLifecycle,
    TrialWatch,
};
use vidioai::note::{record, JobNote};
use vidioai::pack::{CatalogModelStatus, ModelPack};
use vidioai::runtime::{needs_memory, LoadPlan, LoadRequest, RuntimeEntry, Runtimes};
use vidioai::worker::{WorkerModelStatus, WorkerUnloadAllResponse};

const COMMIT: &str = "0123456789abcdef0123456789abcdef01234567";

fn estimate(compatible: bool) -> HardwareEstimate {
    HardwareEstimate {
        compatible_with_current_machine: Some(compatible),
        compatibility_level: "GOOD".into(),
        notes: vec![],
    }
}

fn entry(id: &str, local: bool) -> CatalogEntry {
    CatalogEntry {
        id: id.into(),
        storage_id: id.replace('/', "--"),
        name: id.into(),
        description: "Un modèle".into(),
        kind: "Image".into(),
        capabilities: vec![ModelCapability::TextToImage],
        runtime_capabilities: vec![],
        variants: vec![ModelVariant { id: "builtin".into(), ram_required: 10, vram_required: 0 }],
        local,
        repository: if local { format!("local/{id}") } else { id.into() },
        revision: "r1".into(),
        license: None,
        runtime_name: None,
        runtime_reason: String::new(),
        pipeline_class: Some("FluxPipeline".into()),
        pipeline_tag: None,
        library: None,
        architecture: None,
        tags: vec![],
        files: vec![],
        source_available: true,
        accessibility: "PUBLIC".into(),
        access_authorized: true,
        access_checked: true,
        gated: false,
        private: false,
        author: Some("Owner".into()),
        last_modified: None,
        estimated_size_bytes: Some(100),
        downloads: Some(5),
        likes: None,
        quality_valid: true,
        hardware: estimate(true),
    }
}

fn machine() -> ModelMachineContext {
    ModelMachineContext {
        runtime_available: true,
        cuda_available: true,
        available_ram_bytes: 64,
        available_vram_bytes: 64,
        storage_available_bytes: Some(1000),
    }
}

fn status(state: &str) -> WorkerModelStatus {
    WorkerModelStatus {
        model_id: "owner--model".into(),
        state: state.into(),
        repository: Some("owner/model".into()),
        revision: Some("r1".into()),
        installed: true,
        loaded: state == "READY",
        ready: state == "READY",
        weights_valid: true,
        runtime_available: true,
        runtime_compatible: true,
        validation_test: true,
        error: None,
        benchmark: None,
        runtime_dependencies: vec![],
        precision_plan: None,
        memory_plan: None,
        capabilities: vec!["TEXT_TO_IMAGE".into()],
        capability: None,
        pipeline_class: None,
        device: None,
        stage: None,
        bundle: None,
        model_pack: None,
        model_pack_id: Some("pack".into()),
        engine: None,
        model_pack_status: None,
        workflow: None,
        advanced_parameters: vec![],
        presets: Json::Object(vec![]),
        experimental: false,
        load_allowed: true,
        generation_allowed: false,
    }
}

fn pack() -> ModelPack {
    ModelPack {
        id: "pack".into(),
        status: CatalogModelStatus::Ready,
        engine_name: "comfyui".into(),
        workflow_by_capability: vec![("TEXT_TO_IMAGE".into(), "flow.json".into())],
        inputs: Json::Object(vec![]),
        presets: Json::Object(vec![]),
    }
}

fn view(
    entry: &CatalogEntry,
    status: Option<&WorkerModelStatus>,
    matching: &Vec<ModelPack>,
    lab_status: Option<CatalogModelStatus>,
    loaded: bool,
) -> ModelView {
    let known = Knowledge {
        check: None,
        status,
        installed_revision: status.map(|_| "r1"),
        matching,
        resolved: matching.first(),
        lab_status,
        storage_enabled: false,
        auto_cache: false,
        loaded,
        vram_gigabytes: "1.0",
        ram_gigabytes: "1.0",
    };
    let grade = |kept: CatalogModelStatus, _: bool, _: bool| kept;
    model_view(entry, &machine(), &known, estimate(true), &vec![], &grade)
}

#[test]
fn a_model_without_a_pack_is_never_supported() {
    let remote = entry("owner/model", false);
    let bare = view(&remote, Some(&status("READY")), &vec![], None, false);
    assert!(!bare.runtime_ready);
    assert!(!bare.vidioai_supported);
    assert!(!bare.installable);
    assert_eq!(bare.model_status, CatalogModelStatus::Unsupported);
    assert_eq!(bare.engine, "Non supporté");
    let known = view(&remote, Some(&status("READY")), &vec![pack()], None, false);
    assert!(known.runtime_ready);
    assert!(known.installed);
    assert_eq!(known.installation_state, "READY");
    assert_eq!(known.engine, "comfyui");
    assert_eq!(known.workflow.as_deref(), Some("flow.json"));
    assert_eq!(known.model_pack_id.as_deref(), Some("pack"));
    assert_eq!(known.repository_url, "https://huggingface.co/owner/model");
    let broken = view(&remote, Some(&status("failed")), &vec![pack()], None, false);
    assert_eq!(broken.installation_state, "FAILED");
}

#[test]
fn what_a_machine_has_is_read_from_the_host_and_the_worker() {
    let host = HostFacts {
        ram_available_bytes: Some(7),
        ram_total_bytes: Some(9),
        storage_available_bytes: Some(11),
        nvidia: true,
        vram_available_bytes: Some(3),
        vram_total_bytes: Some(4),
    };
    let seen = machine_context(host, None, None);
    assert_eq!(seen.available_ram_bytes, 7);
    assert_eq!(seen.available_vram_bytes, 3);
    assert_eq!(seen.storage_available_bytes, Some(11));
    assert!(!seen.runtime_available);
    assert!(!asks_worker(&entry("owner/model", false), &seen));
    assert!(!asks_worker(&entry("canvas", true), &machine()));
    assert!(is_fresh(100, 100));
    assert!(!is_fresh(100, 10_000));
    assert!(answer_key(&entry("owner/model", false)).contains("owner/model"));
    let file = |path: &str| RepositoryFile { path: path.into(), size: None };
    assert!(!is_modular(&vec![file("model_index.json")]));
}

#[test]
fn capabilities_say_which_images_a_model_takes() {
    let profile = model_input_profile(&vec![ModelCapability::StartEndImageToVideo]);
    assert!(profile.supports_start_end_frames);
    assert!(profile.min_input_images <= profile.max_input_images);
    let none = model_input_profile(&vec![ModelCapability::Chat]);
    assert_eq!(none.max_input_images, 0);
    assert_eq!(
        from_api_names(&vec!["TEXT_TO_VIDEO".into(), "INVENTED".into()]),
        vec![ModelCapability::TextToVideo]
    );
}

fn query() -> CatalogQuery {
    CatalogQuery {
        search: None,
        author: None,
        category: None,
        task: None,
        installed: None,
        compatible: None,
        sort: None,
    }
}

#[test]
fn a_query_is_matched_part_by_part() {
    let each = entry("owner/flux", false);
    assert!(entry_matches_query(&each, &query()));
    let search = |words: &str| CatalogQuery { search: Some(words.into()), ..query() };
    assert!(entry_matches_query(&each, &search(" https://huggingface.co/Owner/FLUX ")));
    assert!(!entry_matches_query(&each, &search("autre")));
    assert!(entry_matches_query(&each, &search("  ")));
    assert!(entry_matches_query(&each, &CatalogQuery { author: Some("OWNER".into()), ..query() }));
    assert!(!entry_matches_query(&each, &CatalogQuery { author: Some("own".into()), ..query() }));
    assert!(entry_matches_query(&each, &CatalogQuery { category: Some("image".into()), ..query() }));
    assert!(entry_matches_query(&each, &CatalogQuery { task: Some("text_to_image".into()), ..query() }));
    assert!(!entry_matches_query(&each, &CatalogQuery { task: Some("CHAT".into()), ..query() }));
}

fn listed(names: &[(&str, u64)]) -> Vec<ModelView> {
    names
        .iter()
        .map(|(name, downloads)| {
            let mut each = entry(name, true);
            each.downloads = Some(*downloads);
            view(&each, None, &vec![], Some(CatalogModelStatus::Ready), false)
        })
        .collect()
}

#[test]
fn models_are_sorted_and_cut_into_pages() {
    let views = listed(&[("b", 1), ("A", 9), ("c", 9)]);
    let by = |sort: &str| CatalogQuery { sort: Some(sort.into()), ..query() };
    assert_eq!(choose_page(&views, &by("name"), 1, 10).positions, vec![1, 0, 2]);
    assert_eq!(choose_page(&views, &by("downloads"), 1, 10).positions, vec![1, 2, 0]);
    assert_eq!(choose_page(&views, &by("recommended"), 1, 10).positions, vec![1, 2, 0]);
    assert_eq!(choose_page(&views, &by("trending"), 1, 10).positions, vec![0, 1, 2]);
    let first = choose_page(&views, &query(), 1, 2);
    assert_eq!((first.positions, first.total, first.has_more), (vec![0, 1], 3, true));
    let second = choose_page(&views, &query(), 2, 2);
    assert_eq!((second.positions, second.has_more), (vec![2], false));
    assert!(choose_page(&views, &query(), usize::MAX, 2).positions.is_empty());
    let absent = CatalogQuery { installed: Some(false), ..query() };
    assert_eq!(choose_page(&views, &absent, 1, 10).total, 0);
}

#[test]
fn the_best_model_is_chosen_and_the_last_of_equals() {
    let remote = entry("owner/model", false);
    let ready = status("READY");
    let mut views = listed(&[("a", 1), ("b", 1)]);
    let text = ModelCapability::TextToImage;
    assert_eq!(route_model(&views, &text, "balanced").unwrap(), (1, 75));
    views.push(view(&remote, Some(&ready), &vec![pack()], None, true));
    assert_eq!(route_model(&views, &text, "Quality").unwrap(), (2, 95));
    assert_eq!(route_model(&views, &text, "balanced").unwrap(), (1, 75));
    assert_eq!(
        route_model(&views, &ModelCapability::Chat, "quality").unwrap_err().message,
        "Aucun modèle installé et compatible pour cette capacité."
    );
    assert!(is_local_engine("vidio-canvas-local"));
    assert!(!is_local_engine("owner/model"));
    assert!(resolved_model(Ok(vec![])).is_err());
    assert_eq!(resolved_model(Ok(vec![remote])).unwrap().id, "owner/model");
}

fn input() -> InstallModelInput {
    InstallModelInput {
        model_id: "owner/model".into(),
        revision: None,
        loras: None,
        recipe: None,
        candidate: None,
    }
}

#[test]
fn an_installation_is_prepared_at_a_known_revision() {
    let remote = || entry("owner/model", false);
    assert_eq!(prepare_install(remote(), &input(), None).unwrap().revision, "r1");
    let other = InstallModelInput { revision: Some("r0".into()), ..input() };
    assert_eq!(prepare_install(remote(), &other, Some("r0")).unwrap_err().status, 409);
    let bundle =
        InstallModelInput { revision: Some("r0".into()), recipe: Some(Json::Null), ..input() };
    assert_eq!(prepare_install(remote(), &bundle, Some("r0")).unwrap().revision, "r0");
    let store = |name: &str| InstallModelInput {
        candidate: Some(Json::Object(vec![("lab_storage_id".into(), Json::Text(name.into()))])),
        ..input()
    };
    let kept = lab_storage_id("owner--model", COMMIT);
    assert_eq!(prepare_install(remote(), &store(&kept), None).unwrap().storage_id, kept);
    assert_eq!(place_install(remote(), &store(&kept)).unwrap().storage_id, kept);
    assert_eq!(place_install(remote(), &input()).unwrap().storage_id, remote().storage_id);
    assert!(prepare_install(remote(), &store("../x"), None)
        .unwrap_err()
        .message
        .starts_with("MODEL_LAB_STORAGE_INVALID"));
}

#[test]
fn installations_are_refused_for_a_reason() {
    let mut remote = entry("owner/model", false);
    let ready = view(&remote, Some(&status("READY")), &vec![pack()], None, true);
    assert_eq!(check_presence(&ready, &input()).unwrap_err().message, "Ce modèle est déjà installé.");
    let bundle = InstallModelInput { loras: Some(vec![]), ..input() };
    assert!(check_presence(&ready, &bundle).unwrap());
    let bare = view(&remote, None, &vec![], None, false);
    assert!(admit_install(&remote, &bare, false).unwrap_err().message.contains("compatibility_checks"));
    assert!(admit_install(&remote, &bare, true).is_ok());
    remote.gated = true;
    remote.access_authorized = false;
    assert_eq!(admit_install(&remote, &bare, true).unwrap_err().status, 401);
    remote.gated = false;
    remote.quality_valid = false;
    assert!(admit_install(&remote, &bare, false).unwrap_err().message.contains("fichiers requis"));
    let settled = settle_entry(entry("owner/model", false), &ready);
    assert_eq!(settled.runtime_capabilities, ready.runtime_capabilities);
    assert!(auto_cache_models_enabled(Some(" TRUE ")));
    assert!(!auto_cache_models_enabled(Some("0")));
    assert!(!auto_cache_models_enabled(None));
}

fn note_all(jobs: &mut Jobs, id: u128, notes: &[JobNote]) {
    for note in notes {
        assert!(record(jobs, id, note, 50));
    }
}

#[test]
fn an_installation_runs_to_its_end_and_its_copy_after_it() {
    let mut jobs = Jobs::new();
    let mut registry = BackupCancellationRegistry::new();
    let job = start_model_install(&mut jobs, &mut registry, "owner/model", true, true);
    assert_eq!(job.cloud_backup_status, CloudBackupStatus::Pending);
    let remote = entry("owner/model", false);
    let mut run = InstallRun::new(job.id, &remote, &input(), true, true, true);
    let (notes, action) = run.step(InstallEvent::Begin, &jobs, &registry);
    assert!(matches!(action, InstallAction::Restore));
    note_all(&mut jobs, job.id, &notes);
    let (notes, action) = run.step(InstallEvent::Restored, &jobs, &registry);
    note_all(&mut jobs, job.id, &notes);
    match action {
        InstallAction::Install(body) => {
            assert_eq!(body.text_member("repository"), Some("owner/model"));
            assert!(body.get("loras").is_none());
        }
        _ => panic!("a request"),
    }
    let fetched = Fetched { bytes: 50, share: 27, received: "0.1".into(), expected: "0.2".into() };
    let (notes, action) = run.step(InstallEvent::Fetched(fetched), &jobs, &registry);
    assert!(matches!(action, InstallAction::Wait));
    note_all(&mut jobs, job.id, &notes);
    let shown = jobs.get(job.id).unwrap();
    assert_eq!(shown.progress, 47);
    assert_eq!(shown.message, "Snapshot Hugging Face : 0.1 / 0.2 Go reçus");
    let (notes, _) =
        run.step(InstallEvent::Polled(status("INSTALLING_DEPENDENCIES")), &jobs, &registry);
    assert_eq!(notes.len(), 1);
    let (notes, action) =
        run.step(InstallEvent::Installed(Ok(status("INSTALLED"))), &jobs, &registry);
    assert!(matches!(action, InstallAction::Upload(revision) if revision == "r1"));
    note_all(&mut jobs, job.id, &notes);
    assert_eq!(jobs.get(job.id).unwrap().status, JobStatus::Completed);
    assert_eq!(run.phase, InstallPhase::Uploading);
    registry.cancel_model("owner/model");
    let (notes, action) = run.step(InstallEvent::Uploaded(Ok(())), &jobs, &registry);
    assert!(matches!(action, InstallAction::End));
    note_all(&mut jobs, job.id, &notes);
    let ended = jobs.get(job.id).unwrap();
    assert_eq!(ended.status, JobStatus::Completed);
    assert_eq!(ended.cloud_backup_status, CloudBackupStatus::Cancelled);
    assert_eq!(
        ended.message,
        "Modèle installé localement; sauvegarde cloud annulée indépendamment"
    );
    let (notes, action) = run.step(InstallEvent::Begin, &jobs, &registry);
    assert!(notes.is_empty());
    assert!(matches!(action, InstallAction::Ignore));
}

#[test]
fn weights_that_are_not_valid_are_not_installed() {
    let mut jobs = Jobs::new();
    let mut registry = BackupCancellationRegistry::new();
    let job = start_model_install(&mut jobs, &mut registry, "owner/model", true, true);
    let bundle = InstallModelInput { loras: Some(vec![Json::Text("l".into())]), ..input() };
    let mut run = InstallRun::new(job.id, &entry("owner/model", false), &bundle, true, true, true);
    let (notes, action) = run.step(InstallEvent::Begin, &jobs, &registry);
    assert!(matches!(action, InstallAction::Install(body) if body.get("loras").is_some()));
    note_all(&mut jobs, job.id, &notes);
    let mut broken = status("INSTALLED");
    broken.weights_valid = false;
    let (notes, _) = run.step(InstallEvent::Installed(Ok(broken)), &jobs, &registry);
    note_all(&mut jobs, job.id, &notes);
    let ended = jobs.get(job.id).unwrap();
    assert_eq!(ended.status, JobStatus::Failed);
    assert_eq!(
        ended.message,
        "Installation échouée à 20% · Le worker n'a pas validé les poids téléchargés."
    );
    assert_eq!(ended.cloud_backup_status, CloudBackupStatus::Failed);
    assert_eq!(
        ended.cache_error.as_deref(),
        Some("CLOUD_BACKUP_FAILED: installation locale incomplète: Le worker n'a pas validé les poids téléchargés.")
    );
    let mut alone = InstallRun::new(1, &entry("owner/model", false), &input(), false, false, false);
    let (notes, action) = alone.step(InstallEvent::Begin, &jobs, &registry);
    assert!(matches!(action, InstallAction::End));
    assert_eq!(notes.len(), 1);
}

#[test]
fn a_copy_is_made_of_what_is_installed() {
    assert_eq!(admit_copy(false, false, true).unwrap_err().status, 409);
    assert!(admit_copy(true, false, true).is_ok());
    assert!(admit_copy(true, true, true).is_err());
    assert!(admit_copy(true, false, false).is_err());
    assert_eq!(choose_copied_revision(Ok(status("INSTALLED")), Some("r9")).unwrap(), "r1");
    let mut nameless = status("INSTALLED");
    nameless.revision = None;
    assert_eq!(choose_copied_revision(Ok(nameless.copy()), Some("r9")).unwrap(), "r9");
    assert_eq!(
        choose_copied_revision(Ok(nameless), None).unwrap_err().message,
        "Le snapshot local validé est absent."
    );
    assert!(choose_copied_revision(Err("coupé".into()), Some("r9")).is_err());
    let directories = vec![
        ModelDirectory { name: "other".into(), pointer: None },
        ModelDirectory {
            name: "store".into(),
            pointer: Some(InstalledPointer {
                revision: "r2".into(),
                repository: Some("owner/model".into()),
            }),
        },
    ];
    let found = recorded_model(&directories, "owner--model", "owner/model");
    assert_eq!((found.storage_id.as_str(), found.repository.as_str()), ("store", "owner/model"));
    assert_eq!(found.revision.as_deref(), Some("r2"));
    let unknown = recorded_model(&directories, "a--b", "a/b");
    assert_eq!((unknown.storage_id.as_str(), unknown.repository.as_str()), ("a--b", "a/b"));
    assert!(unknown.revision.is_none());
    let mut jobs = Jobs::new();
    let mut registry = BackupCancellationRegistry::new();
    assert!(cache_model(&mut jobs, &mut registry, "owner/model", false).is_err());
    let job = cache_model(&mut jobs, &mut registry, "owner/model", true).unwrap();
    assert_eq!(job.kind, JobKind::CacheModel);
    assert_eq!(new_copy_job(3, "m", 4).created_at, 4);
    let failure = UploadFailure { stopped: false, cause: "plein".into() };
    let notes = finish_copy(job.id, Err(failure), &jobs, &registry);
    note_all(&mut jobs, job.id, &notes);
    let after = jobs.get(job.id).unwrap();
    assert_eq!(after.status, JobStatus::Failed);
    assert_eq!(after.cloud_backup_status, CloudBackupStatus::Failed);
}

#[test]
fn models_are_found_on_the_disk() {
    let pointer = |repository: &str| {
        Some(InstalledPointer { revision: "r1".into(), repository: Some(repository.into()) })
    };
    let directories = vec![
        ModelDirectory { name: "x".into(), pointer: None },
        ModelDirectory { name: "store".into(), pointer: pointer("owner/model") },
        ModelDirectory { name: "owner--other".into(), pointer: pointer("zzz") },
    ];
    let found = |store: &str, id: &str| installed_storage_id(&directories, store, id);
    assert_eq!(found("owner--model", "owner/model"), Some(("store".into(), "r1".into())));
    assert_eq!(found("owner--other", "owner/other"), Some(("owner--other".into(), "r1".into())));
    assert_eq!(found("none", "none"), None);
    assert_eq!(installed_revision(true, "r5", None).as_deref(), Some("r5"));
    assert_eq!(installed_revision(false, "r5", None), None);
    assert!(!may_hold_model(".downloads"));
    assert!(is_staged_download("download-owner--model-7", "owner--model"));
    assert!(!is_staged_download("download-owner--model", "owner--model"));
    assert_eq!(directory_size(&vec![u64::MAX, 5]), u64::MAX);
    assert_eq!(directory_size(&vec![4, 5]), 9);
    let document = pointer_document("m", "o/m", "r");
    assert_eq!(document.text_member("revision"), Some("r"));
}

#[test]
fn installed_models_are_described() {
    let pointer = InstalledPointer { revision: "r1".into(), repository: None };
    let manifest = Json::Object(vec![
        ("repository".into(), Json::Text("owner/model".into())),
        ("class_name".into(), Json::Text("FluxPipeline".into())),
        ("model_pack".into(), Json::Object(vec![("id".into(), Json::Text("pack".into()))])),
        (
            "files".into(),
            Json::List(vec![
                Json::Object(vec![("size".into(), Json::Integer(40))]),
                Json::Object(vec![("size".into(), Json::Integer(2))]),
            ]),
        ),
    ]);
    let identity = identify("owner--model", &pointer, &manifest, None);
    assert_eq!(identity.repository, "owner/model");
    assert_eq!(identity.pipeline_class.as_deref(), Some("FluxPipeline"));
    assert_eq!(identity.pack_id.as_deref(), Some("pack"));
    let packs = vec![pack()];
    assert!(canonical_pack(&identity, &packs, None).is_some());
    assert!(canonical_pack(&identity, &vec![], None).is_none());
    assert_eq!(declared_size(&manifest), Some(42));
    let ready = status("READY");
    let known = describe(&identity, Some(&packs[0]), None, Some(&ready), &Jobs::new(), 42, 7);
    assert_eq!((known.state.as_str(), known.loaded, known.size_bytes), ("READY", true, 42));
    let bare = describe(&identity, None, None, Some(&ready), &Jobs::new(), 0, 7);
    assert_eq!((bare.state.as_str(), bare.loaded, bare.size_bytes), ("INSTALLED", false, 7));
    assert_eq!(bare.precision, "AUTO");
    assert_eq!(known.model_pack_id.as_deref(), Some("pack"));
    let response = list_installed_models(&vec![known, bare], None, None, None, None);
    assert_eq!(response.items.len(), 2);
    assert_eq!(response.loaded, 1);
}

#[test]
fn a_pack_that_nobody_told_is_not_shown() {
    let pointer = InstalledPointer { revision: "r1".into(), repository: Some("o/m".into()) };
    let identity = identify("o--m", &pointer, &Json::Object(vec![]), None);
    assert!(!identity.told);
    let packs = vec![pack()];
    let resolved = canonical_pack(&identity, &packs, Some(&packs[0]));
    assert!(resolved.is_some());
    let view = describe(&identity, resolved, Some(Json::Bool(true)), None, &Jobs::new(), 1, 1);
    let listed = list_installed_models(&vec![view], None, None, None, None);
    let item = &listed.items[0];
    assert!(item.model_pack.is_none() && item.model_pack_id.is_none());
    assert!(item.model_pack_status.is_none() && item.engine.is_none() && item.workflow.is_none());
    let named = Json::Object(vec![("pack_id".into(), Json::Text("pack".into()))]);
    let told = identify("o--m", &pointer, &named, None);
    assert!(told.told);
    let view = describe(&told, Some(&packs[0]), Some(Json::Bool(true)), None, &Jobs::new(), 1, 1);
    assert_eq!(view.model_pack_id.as_deref(), Some("pack"));
    assert!(view.model_pack.is_some() && view.engine.is_some());
}

fn request() -> LoadRequest {
    LoadRequest { local: false, installed: true, compatible: true }
}

fn loaded(id: &str, used: u64) -> RuntimeEntry {
    RuntimeEntry {
        model_id: id.into(),
        state: "ready".into(),
        device: "GPU".into(),
        ram_bytes: 3,
        vram_bytes: 4,
        last_used_at: used,
    }
}

#[test]
fn models_are_loaded_by_the_worker_and_unloaded() {
    let mut runtimes = Runtimes::new();
    assert!(matches!(runtimes.plan_load("m", &request(), true), LoadPlan::AskWorker));
    let done = runtimes.finish_installed_load("m", "r1", Ok(status("READY")), 9).unwrap();
    assert_eq!(done.entry.device, "GPU");
    assert!(runtimes.contains("m"));
    assert!(matches!(runtimes.plan_load("m", &request(), true), LoadPlan::CheckStatus));
    assert!(matches!(runtimes.recheck("m", Ok(status("READY"))), LoadPlan::Keep(_)));
    assert!(matches!(runtimes.recheck("m", Ok(status("INSTALLED"))), LoadPlan::AskWorker));
    assert!(!runtimes.contains("m"));
    let refused = runtimes.finish_installed_load("m", "r1", Ok(status("INSTALLED")), 9).unwrap_err();
    assert_eq!(refused.message, "Le runtime worker n'a pas atteint READY.");
    let variants = vec![ModelVariant { id: "v".into(), ram_required: 1, vram_required: 8 }];
    let made =
        runtimes.finish_catalog_load("m", "owner/model", "r1", &variants, Ok(status("READY")), 9);
    assert_eq!(made.unwrap().entry.vram_bytes, 8);
    assert!(runtimes.unload("m", Some(Err("coupé".into()))).is_err());
    assert!(runtimes.unload("m", Some(Ok(()))).is_ok());
    assert!(!runtimes.contains("m"));
}

#[test]
fn models_that_do_not_fit_are_not_loaded() {
    let mut runtimes = Runtimes::new();
    let plan = |runtimes: &mut Runtimes, request: LoadRequest, worker| {
        match runtimes.plan_load("m", &request, worker) {
            LoadPlan::Refuse(refusal) => refusal.message,
            other => panic!("a refusal, not {other:?}"),
        }
    };
    assert_eq!(
        plan(&mut runtimes, LoadRequest { installed: false, ..request() }, true),
        "Installez le modèle avant de le charger."
    );
    assert_eq!(
        plan(&mut runtimes, LoadRequest { compatible: false, ..request() }, true),
        "La mémoire disponible est insuffisante."
    );
    assert_eq!(plan(&mut runtimes, request(), false), "Le worker GPU n'est pas configuré.");
}

#[test]
fn an_engine_is_warmed_up_once() {
    let mut runtimes = Runtimes::new();
    let own = LoadRequest { local: true, ..request() };
    assert!(matches!(runtimes.plan_load("canvas", &own, false), LoadPlan::WarmUp));
    let variants = vec![
        ModelVariant { id: "small".into(), ram_required: 1, vram_required: 0 },
        ModelVariant { id: "builtin".into(), ram_required: 2, vram_required: 5 },
    ];
    runtimes.begin_warming("canvas", &variants, None, 9);
    let ready = runtimes.finish_warming("canvas");
    assert_eq!((ready.state.as_str(), ready.device.as_str(), ready.ram_bytes), ("ready", "GPU", 2));
    assert!(matches!(runtimes.plan_load("canvas", &own, false), LoadPlan::Keep(_)));
    assert!(runtimes.delete_model("canvas", true, true).is_err());
}

#[test]
fn idle_models_are_unloaded() {
    let mut runtimes = Runtimes::new();
    runtimes.insert(loaded("old", 100));
    runtimes.insert(loaded("new", 950));
    assert_eq!(runtimes.expire(5, 1000), vec!["old"]);
    assert!(!runtimes.contains("old"));
    assert!(runtimes.contains("new"));
    let memory = runtimes.tracked_runtime_memory(Some(true));
    assert!(matches!(memory, Json::Object(_)));
    let answer = WorkerUnloadAllResponse {
        success: true,
        models_unloaded: vec!["new".into()],
        before_memory: None,
        after_memory: None,
        message: "fait".into(),
        comfyui_error: None,
    };
    let told = WorkerUnloadAllResponse { before_memory: Some(Json::Null), ..answer.copy() };
    assert!(needs_memory(&None));
    assert!(!needs_memory(&Some(Ok(told))));
    assert!(!needs_memory(&Some(Err("coupé".into()))));
    let answer = Some(Ok(answer));
    assert!(needs_memory(&answer));
    assert!(runtimes.perform_runtime_unload(answer).is_ok());
    assert!(!runtimes.contains("new"));
    assert!(!runtimes.remove("new"));
}

fn manifest(revision: &str) -> SnapshotManifest {
    SnapshotManifest {
        repository: "owner/model".into(),
        revision: revision.into(),
        files: vec![SnapshotFile {
            path: "a.bin".into(),
            size: 3,
            sha256: Some(snapshot_file_sha256(b"abc")),
        }],
        total_size: 3,
        created_at: 1,
        schema_version: 1,
        capabilities: vec!["TEXT_TO_IMAGE".into()],
    }
}

#[test]
fn snapshots_are_selected_exactly() {
    let wanted = |revision: &str| CloudRestoreSelection {
        repository: "owner/model".into(),
        revision: revision.into(),
    };
    let available = vec![manifest("r1"), manifest("r2")];
    let chosen = select_cloud_manifests(&available, &vec![wanted("r2")]).unwrap();
    assert_eq!(chosen[0].revision, "r2");
    assert_eq!(
        select_cloud_manifests(&available, &vec![wanted("r3")]).unwrap_err(),
        "CLOUD_SNAPSHOT_NOT_FOUND: snapshot S3 valide inconnu"
    );
    assert_eq!(
        select_cloud_manifests(&available, &vec![wanted("r1"), wanted("r1")]).unwrap_err(),
        "CLOUD_SELECTION_DUPLICATE: snapshot sélectionné plusieurs fois"
    );
    assert_eq!(admit_restore(false, 1).unwrap_err().message, "Le stockage S3 est désactivé.");
    assert!(admit_restore(true, 0).is_err());
    assert!(admit_restore(true, 20).is_ok());
    assert!(admit_restore(true, 21).is_err());
    let told = vec![
        Json::Object(vec![
            ("model_id".into(), Json::Text("a".into())),
            ("state".into(), Json::Text("READY".into())),
        ]),
        Json::Object(vec![("model_id".into(), Json::Text("b".into()))]),
    ];
    assert_eq!(ready_models(&told), vec!["a"]);
}

#[test]
fn a_snapshot_is_restored_once_at_a_time() {
    let jobs = plan_restores(&vec![manifest("r1"), manifest("r2")]);
    assert_eq!(jobs[0].target_id, "owner/model@r1");
    assert_ne!(jobs[0].id, jobs[1].id);
    let mut claims = RestoreClaims::new();
    claims.claim_all(&jobs).unwrap();
    let again = vec![new_restore_job(9, &manifest("r2"), 1)];
    assert!(claims.claim_all(&again).unwrap_err().message.starts_with("RESTORE_ALREADY_RUNNING"));
    claims.release("owner/model@r2");
    assert!(claims.claim_all(&again).is_ok());
    claims.release("owner/model@r1");
    claims.release("owner/model@r2");
    claims.release("owner/model@r2");
    assert!(claims.held.is_empty());
}

#[test]
fn files_are_held_against_their_manifest() {
    let facts = |size: u64, content: &[u8]| {
        vec![FileFacts { allowed: true, size: Some(size), content: Some(content.to_vec()) }]
    };
    let told = manifest("r1");
    assert!(snapshot_matches_manifest(&told, &facts(3, b"abc")));
    assert!(!snapshot_matches_manifest(&told, &facts(3, b"abd")));
    assert!(!snapshot_matches_manifest(&told, &facts(4, b"abc")));
    assert!(needs_content(&told.files[0], true, Some(3)));
    assert!(!needs_content(&told.files[0], true, Some(4)));
    assert!(!needs_content(&told.files[0], false, Some(3)));
    assert_eq!(seed_restore_staging(true, true), Ok(true));
    assert_eq!(
        seed_restore_staging(false, true).unwrap_err(),
        "S3_MANIFEST_PATH_INVALID: chemin de fichier invalide"
    );
}

#[test]
fn a_failed_replacement_is_undone() {
    let mut promotion = Promotion::new();
    assert!(matches!(promotion.step(PromoteEvent::Checked(false, true)), PromoteAction::SetAside));
    assert!(matches!(promotion.step(PromoteEvent::Done(Ok(()))), PromoteAction::Move));
    let failed = promotion.step(PromoteEvent::Done(Err("plein".into())));
    assert!(matches!(failed, PromoteAction::MoveBack));
    let ended = promotion.step(PromoteEvent::Done(Ok(())));
    assert!(matches!(ended, PromoteAction::Finish(Err(cause)) if cause == "plein"));
}

#[test]
fn a_restoration_runs_to_its_end() {
    let mut jobs = Jobs::new();
    jobs.insert_job(new_restore_job(7, &manifest("r1"), 1));
    let transfer = TransferReport {
        current_file: None,
        files_skipped: 0,
        percent: "50.0".into(),
        document: Json::Object(vec![("bytes_received".into(), Json::Integer(5))]),
    };
    assert!(report_fetching(&mut jobs, 7, transfer, 50, 2));
    assert_eq!(jobs.get(7).unwrap().message, "Restauration S3 · 50.0%");
    assert!(jobs.get(7).unwrap().transfer.as_ref().unwrap().get("bytes_received").is_some());
    let mut run = RestoreRun::new(7, &manifest("r1"), "owner--model".into(), true);
    let (notes, action) = run.step(RestoreEvent::Begin, &jobs);
    note_all(&mut jobs, 7, &notes);
    assert!(matches!(action, RestoreAction::Seed));
    assert!(matches!(run.step(RestoreEvent::Seeded(Ok(())), &jobs).1, RestoreAction::Fetch));
    assert!(matches!(run.step(RestoreEvent::Fetched(Ok(true)), &jobs).1, RestoreAction::Promote));
    match run.step(RestoreEvent::Promoted(Ok(())), &jobs).1 {
        RestoreAction::Point(pointer) => {
            assert_eq!(pointer.text_member("model_id"), Some("owner--model"))
        }
        _ => panic!("a pointer"),
    }
    match run.step(RestoreEvent::Pointed(Ok(())), &jobs).1 {
        RestoreAction::Validate(body) => {
            assert_eq!(body.text_member("revision"), Some("r1"));
            assert!(body.get("experimental").is_none());
        }
        _ => panic!("a request"),
    }
    let (notes, action) = run.step(RestoreEvent::Validated(Ok(status("INSTALLED"))), &jobs);
    assert!(matches!(action, RestoreAction::End));
    note_all(&mut jobs, 7, &notes);
    let ended = jobs.get(7).unwrap();
    assert_eq!(ended.message, "Snapshot restauré et validé");
    assert_eq!(ended.result.as_ref().unwrap().text_member("cloud_state"), Some("READY"));
    assert_eq!(run.phase, RestorePhase::Ended);
}

#[test]
fn a_refused_snapshot_is_put_back() {
    let mut jobs = Jobs::new();
    jobs.insert_job(new_restore_job(7, &manifest("r1"), 1));
    let mut run = RestoreRun::new(7, &manifest("r1"), "owner--model".into(), true);
    run.step(RestoreEvent::Begin, &jobs);
    run.step(RestoreEvent::Seeded(Ok(())), &jobs);
    run.step(RestoreEvent::Fetched(Ok(true)), &jobs);
    run.step(RestoreEvent::Promoted(Ok(())), &jobs);
    run.step(RestoreEvent::Pointed(Ok(())), &jobs);
    let mut broken = status("INSTALLED");
    broken.weights_valid = false;
    let (notes, action) = run.step(RestoreEvent::Validated(Ok(broken)), &jobs);
    assert!(notes.is_empty());
    assert!(matches!(action, RestoreAction::PutBack));
    let (notes, _) = run.step(RestoreEvent::PutBack(Ok(())), &jobs);
    note_all(&mut jobs, 7, &notes);
    assert_eq!(
        jobs.get(7).unwrap().message,
        "SNAPSHOT_INVALID: le worker a refusé les poids restaurés"
    );
    let mut absent = RestoreRun::new(7, &manifest("r1"), "owner--model".into(), false);
    absent.step(RestoreEvent::Begin, &jobs);
    absent.step(RestoreEvent::Seeded(Ok(())), &jobs);
    let (notes, _) = absent.step(RestoreEvent::Fetched(Ok(false)), &jobs);
    assert!(matches!(
        &notes[0],
        JobNote::Report(report) if report.message == "S3_SNAPSHOT_NOT_FOUND: manifeste absent"
    ));
}

#[test]
fn trials_are_pinned_to_a_commit() {
    assert!(is_commit_revision(COMMIT));
    assert!(is_commit_revision(&"a".repeat(64)));
    assert!(!is_commit_revision("main"));
    assert!(!is_commit_revision(&"g".repeat(40)));
    assert_eq!(analyzed_model(" owner/model ").unwrap(), "owner/model");
    assert_eq!(analyzed_model(" ").unwrap_err().message, "model_id est obligatoire.");
    assert!(admit_analysis(false, COMMIT).is_ok());
    assert!(admit_analysis(true, COMMIT).unwrap_err().message.starts_with("MODEL_LAB_INVALID"));
    assert!(admit_analysis(false, "main").unwrap_err().message.starts_with("MODEL_REVISION_NOT_PINNED"));
    assert!(admit_trial("m", COMMIT).is_ok());
    assert_eq!(
        admit_trial("m", " ").unwrap_err().message,
        "model_id et revision commit sont obligatoires."
    );
    assert!(admit_trial("m", "main").is_err());
    assert!(admit_lifecycle(Some(LabLifecycle::Analyzed)).is_ok());
    assert!(admit_lifecycle(Some(LabLifecycle::Ready)).is_err());
    assert!(admit_lifecycle(None).unwrap_err().message.starts_with("MODEL_LAB_ANALYSIS_REQUIRED"));
    assert!(check_revision("a", "a").is_ok());
    assert!(check_revision("a", "b").is_err());
    assert_eq!(analysis_versions(None, None), ("0.1.0-lab".to_owned(), "1".to_owned()));
    assert_eq!(analysis_versions(Some(3), None), ("3".to_owned(), "1".to_owned()));
    assert_eq!(
        analysis_versions(Some(3), Some(("4".into(), "5".into()))),
        ("4".to_owned(), "5".to_owned())
    );
}

#[test]
fn a_trial_has_its_own_store() {
    assert_eq!(lab_storage_id("owner--model", COMMIT), "lab-owner--model-0123456789ab");
    let members = vec![
        ("lab_storage_id".to_owned(), Json::Text("old".into())),
        ("family".to_owned(), Json::Text("flux".into())),
    ];
    let named = name_store(members, "new");
    assert_eq!(named.text_member("lab_storage_id"), Some("new"));
    assert_eq!(named.text_member("family"), Some("flux"));
    assert_eq!(watch_trial(Some(JobStatus::Completed)), TrialWatch::MarkExperimental);
    assert_eq!(watch_trial(Some(JobStatus::Running)), TrialWatch::Wait);
    assert_eq!(watch_trial(Some(JobStatus::Failed)), TrialWatch::Stop);
    assert_eq!(watch_trial(None), TrialWatch::Stop);
    let items = vec![
        ("a".to_owned(), LabLifecycle::Validated),
        ("b".to_owned(), LabLifecycle::Analyzed),
        ("a".to_owned(), LabLifecycle::Ready),
    ];
    assert_eq!(watched_repositories(&items), vec!["a"]);
}

#[test]
fn a_promotion_must_be_attested_exactly() {
    assert_eq!(choose_promoted_pack(Some("pack"), "flux", Some("flux")).unwrap(), "pack");
    assert!(choose_promoted_pack(None, "flux", None).is_err());
    assert!(choose_promoted_pack(Some("pack"), "flux", None)
        .unwrap_err()
        .message
        .starts_with("MODEL_PACK_NOT_ACTIVE"));
    assert!(choose_promoted_pack(Some("pack"), "flux", Some("wan"))
        .unwrap_err()
        .message
        .starts_with("MODEL_PACK_IDENTITY_MISMATCH"));
    assert!(admit_promotion(true, true, true).is_ok());
    assert_eq!(admit_promotion(false, true, true).unwrap_err().status, 503);
    assert!(admit_promotion(true, false, true).is_err());
    assert!(admit_promotion(true, true, false).is_err());
    let exact = status("INSTALLED");
    assert!(check_attestation(&exact, "owner--model", "r1", "pack").is_ok());
    assert!(check_attestation(&exact, "owner--model", "r2", "pack").is_err());
    assert!(check_attestation(&exact, "owner--model", "r1", "other").is_err());
    assert!(check_attestation(&status("READY"), "owner--model", "r1", "pack").is_err());
    assert_eq!(required_version(Some(" 1.2 ")).unwrap(), "1.2");
    assert_eq!(required_version(None).unwrap_err().message, "version est obligatoire.");
}
