//! The settings, the machine, the readiness and the figures of the service.
use vidioai::dashboard::{add_up, get_dashboard, StoredFile};
use vidioai::generation::Generations;
use vidioai::host::{
    apple_gpu, authorize, average_frequency, collect_snapshot, collect_storage, cpu_temperature,
    non_empty, percentage, temperature, DiskReading, MachineReadings, ResourceSource, Sensor,
};
use vidioai::job::{new_job, ApplicationMode, JobKind, Jobs};
use vidioai::json::Real;
use vidioai::readiness::{
    authorize_admin, get_ready, is_known_worker, is_weak_token, job_counts, set_application_mode,
    worker_part, Observations, WorkerProbe,
};
use vidioai::settings::{
    base_directory, config_path, is_absolute, path_below, starting_settings, AppSettings,
    ApplicationProfile, Environment, Found, Mounts, SettingsStore, Stored,
};
use vidioai::system::{
    check_pc, normalized_percentage, normalized_temperature, CpuReading, GpuReading, PcReadings,
};
use vidioai::worker::{
    base_address, compatibility_payload, job_status_path, model_status_path, WorkerHealth,
    WorkerReady,
};

fn mounts() -> Mounts {
    Mounts { models_dir: None, outputs_dir: None, cache_dir: None, work_dir: None }
}

fn environment() -> Environment {
    Environment {
        state_dir: None,
        data_dir: None,
        config_path: None,
        current_dir: Some("/srv".into()),
        mounts: mounts(),
    }
}

#[test]
fn settings_are_kept_below_the_data_directory() {
    assert_eq!(base_directory(&environment()), "/srv/data");
    assert_eq!(config_path(&environment()), "/srv/data/settings.json");
    let set = Environment { data_dir: Some("/d/".into()), ..environment() };
    assert_eq!(config_path(&set), "/d/settings.json");
    let state = Environment { state_dir: Some("/s".into()), data_dir: Some("/d".into()), ..environment() };
    assert_eq!(base_directory(&state), "/s");
    let named = Environment { config_path: Some("/c.json".into()), ..environment() };
    assert_eq!(config_path(&named), "/c.json");
    assert_eq!(path_below("", "x"), "x");
    let unknown = Environment { current_dir: None, ..environment() };
    assert_eq!(base_directory(&unknown), "./data");
}

fn there() -> Vec<Found> {
    vec![Found::Directory, Found::Directory, Found::Directory, Found::Directory]
}

#[test]
fn paths_are_kept_absolute() {
    let mut given = AppSettings::defaults("data", &mounts());
    given.cache_dir = "/cache".into();
    let mut store = SettingsStore::initialize(&environment(), Stored::Missing, &there()).unwrap();
    let kept = store.replace(given.copy(), Some("/srv"), &there()).unwrap();
    assert_eq!(kept.models_dir, "/srv/data/models");
    assert_eq!(kept.cache_dir, "/cache");
    assert_eq!(store.value.work_dir, "/srv/data/work");
    let elsewhere = Environment { current_dir: Some("/other".into()), ..environment() };
    let again = SettingsStore::initialize(&elsewhere, Stored::Settings(kept), &there()).unwrap();
    assert_eq!(again.value.models_dir, "/srv/data/models");
    assert_eq!(again.value.outputs_dir, "/srv/data/outputs");
    let refused = store.replace(given.copy(), None, &there()).unwrap_err();
    assert_eq!(refused.status, 400);
    assert_eq!(refused.message, "Le dossier modèles doit être un chemin absolu.");
    let relative = Environment { state_dir: Some("state".into()), ..environment() };
    let first = SettingsStore::initialize(&relative, Stored::Missing, &there()).unwrap();
    assert_eq!(first.value.models_dir, "/srv/state/models");
    let lost = Environment { current_dir: None, ..environment() };
    assert!(SettingsStore::initialize(&lost, Stored::Missing, &there()).is_err());
    let read = SettingsStore::initialize(&environment(), Stored::Settings(given), &there());
    assert_eq!(read.unwrap().value.outputs_dir, "/srv/data/outputs");
    assert!(is_absolute("/a") && !is_absolute("a") && !is_absolute(""));
}

#[test]
fn a_start_judges_the_directories_as_a_change_does() {
    let mut found = there();
    found[1] = Found::File;
    let refused = SettingsStore::initialize(&environment(), Stored::Missing, &found).unwrap_err();
    assert_eq!(
        refused.message,
        "Le chemin /srv/data/outputs désigne un fichier, pas un dossier."
    );
    let starting = starting_settings(&environment(), &Stored::Missing).unwrap();
    assert_eq!(starting.outputs_dir, "/srv/data/outputs");
    let mut store = SettingsStore::initialize(&environment(), Stored::Missing, &there()).unwrap();
    let changed = store.replace(starting, Some("/srv"), &found).unwrap_err();
    assert_eq!(changed.message, refused.message);
}

#[test]
fn directories_of_the_environment_win() {
    let mut given = mounts();
    given.work_dir = Some("/w".into());
    let set = Environment { mounts: given, ..environment() };
    let first = SettingsStore::initialize(&set, Stored::Missing, &there()).unwrap();
    assert_eq!(first.value.models_dir, "/srv/data/models");
    assert_eq!(first.value.work_dir, "/w");
    assert_eq!(first.value.auto_unload_minutes, 15);
    let mut read = AppSettings::defaults("/old", &mounts());
    read.auto_unload_minutes = 3;
    let store = SettingsStore::initialize(&set, Stored::Settings(read), &there()).unwrap();
    assert_eq!(store.value.models_dir, "/old/models");
    assert_eq!(store.value.work_dir, "/w");
    assert_eq!(store.get().auto_unload_minutes, 3);
    let unreadable = SettingsStore::initialize(&set, Stored::Unreadable, &there());
    assert_eq!(unreadable.unwrap_err().status, 500);
}

#[test]
fn settings_are_replaced_only_where_all_directories_are_there() {
    let mut store = SettingsStore::initialize(&environment(), Stored::Missing, &there()).unwrap();
    let found = |last: Found| vec![Found::Directory, Found::Directory, Found::Directory, last];
    let next = || AppSettings::defaults("/new", &mounts());
    let refused = store.replace(next(), Some("/srv"), &found(Found::Failed("refusé".into()))).unwrap_err();
    assert_eq!(refused.message, "Impossible de créer le dossier /new/work : refusé");
    assert_eq!(store.value.models_dir, "/srv/data/models");
    let mut empty = next();
    empty.cache_dir = String::new();
    assert_eq!(
        store.replace(empty, Some("/srv"), &found(Found::Directory)).unwrap_err().message,
        "Le dossier cache ne peut pas être vide."
    );
    assert!(store.replace(next(), Some("/srv"), &found(Found::Directory)).is_ok());
    assert_eq!(store.value.work_dir, "/new/work");
    assert_eq!(
        ApplicationProfile::from_setting(Some("gpu_production")),
        ApplicationProfile::GpuProduction
    );
    assert_eq!(ApplicationProfile::from_setting(None), ApplicationProfile::Local);
}

fn sensor(label: &str, degrees: f64) -> Sensor {
    Sensor { label: label.into(), temperature: Some(degrees.to_bits()) }
}

#[test]
fn readings_that_make_no_sense_are_left_out() {
    assert_eq!(percentage(42.0f64.to_bits()), Some(42.0f64.to_bits()));
    assert_eq!(percentage(140.0f64.to_bits()), Some(100.0f64.to_bits()));
    assert_eq!(percentage(f64::NAN.to_bits()), None);
    assert_eq!(temperature(0.0f64.to_bits()), None);
    assert_eq!(temperature(55.5f64.to_bits()), Some(55.5f64.to_bits()));
    assert_eq!(temperature(250.0f64.to_bits()), None);
    assert_eq!(normalized_percentage((-3.0f64).to_bits()), 0.0f64.to_bits());
    assert_eq!(normalized_percentage(f64::INFINITY.to_bits()), 0.0f64.to_bits());
    assert_eq!(normalized_temperature(f64::NAN.to_bits()), None);
    assert_eq!(non_empty(Some("  a ")), Some("a".to_owned()));
    assert_eq!(non_empty(Some("  ")), None);
    let sensors = vec![sensor("CPU Package", 40.0), sensor("cpu core", 61.0), sensor("nvme", 80.0)];
    assert_eq!(cpu_temperature(&sensors), Some(61.0f64.to_bits()));
    assert_eq!(average_frequency(&vec![1000, 2001]), Some(1500));
    assert_eq!(average_frequency(&vec![]), None);
}

fn disk(name: &str, mount: &str, total: u64, available: u64) -> DiskReading {
    DiskReading {
        name: name.into(),
        mount_point: mount.into(),
        filesystem: "apfs".into(),
        kind: "SSD".into(),
        total,
        available,
    }
}

#[test]
fn a_pool_with_two_mounts_is_counted_once() {
    let disks = vec![
        disk("disk3", "/", 100, 40),
        disk("disk3", "/System/Volumes/Data", 100, 40),
        disk("empty", "/x", 0, 0),
        disk("disk4", "/m", 50, 60),
    ];
    let storage = collect_storage(&disks);
    assert_eq!(storage.total_bytes, Some(150));
    assert_eq!(storage.available_bytes, Some(90));
    assert_eq!(storage.used_bytes, Some(60));
    let full = vec![disk("a", "/a", u64::MAX, 1), disk("b", "/b", 5, 1)];
    assert_eq!(collect_storage(&full).total_bytes, Some(u64::MAX));
}

fn machine_readings() -> MachineReadings {
    MachineReadings {
        agent_version: "1.0".into(),
        macos: true,
        os: Some("macOS".into()),
        os_version: None,
        kernel: Some(" ".into()),
        hostname: None,
        architecture: "arm64".into(),
        uptime_seconds: 9,
        brand_string: Some("Apple M3".into()),
        brands: vec![],
        frequencies: vec![2000, 3000],
        physical_cores: Some(8),
        utilization: 12.5f64.to_bits(),
        sensors: vec![],
        total_ram: 64,
        available_ram: 16,
        disks: vec![],
    }
}

#[test]
fn a_snapshot_of_the_machine_is_put_together() {
    let snapshot = collect_snapshot(&machine_readings(), vec![], 77);
    assert_eq!(snapshot.source, ResourceSource::Host);
    assert_eq!(snapshot.system.measured_at_unix, 77);
    assert_eq!(snapshot.cpu.model.as_deref(), Some("Apple M3"));
    assert_eq!(snapshot.cpu.frequency_mhz, Some(2500));
    assert_eq!(snapshot.cpu.logical_cpus, Some(2));
    assert_eq!(snapshot.cpu.utilization_percent, Some(Real::Bits(12.5f64.to_bits())));
    assert_eq!(snapshot.ram.used_bytes, Some(48));
    assert_eq!(snapshot.gpus.len(), 1);
    assert_eq!(snapshot.gpus[0].model.as_deref(), Some("Apple M3"));
    assert!(apple_gpu(false, &Some("arm64".into()), &Some("Apple M3".into())).is_none());
}

#[test]
fn callers_of_the_agent_need_its_token() {
    let token = Some("secret".to_owned());
    assert!(authorize(&None, None, None));
    assert!(authorize(&token, Some("Bearer secret"), None));
    assert!(authorize(&token, None, Some("secret")));
    assert!(!authorize(&token, Some("Bearer autre"), None));
    assert!(!authorize(&token, None, None));
}

fn gpu(name: &str, detail: &[(&str, &str)]) -> GpuReading {
    GpuReading {
        name: name.into(),
        detail: detail.iter().map(|(key, value)| (key.to_string(), value.to_string())).collect(),
        total_memory: 100,
        used_memory: 130,
        utilization: 30.0f64.to_bits(),
        temperature: 50.0f64.to_bits(),
    }
}

#[test]
fn the_card_for_inference_is_the_one_of_nvidia() {
    let readings = PcReadings {
        os: None,
        kernel: Some("6.1".into()),
        architecture: "x86_64".into(),
        hostname: None,
        uptime_seconds: 4,
        backend_version: "0.1".into(),
        cpu: Some(CpuReading {
            model: "  ".into(),
            total_cores: 4,
            total_threads: 0,
            base_frequency_mhz: 0,
            utilization: 200.0f64.to_bits(),
            temperature: None,
            apple_silicon: true,
        }),
        brands: vec![" Ryzen ".into()],
        frequencies: vec![3000, 3000, 3300],
        physical_cores: None,
        utilization: 0,
        sensors: vec![],
        ram_total: 8,
        ram_available: 3,
        gpus: vec![
            gpu("Intel Arc", &[("lib_name", "level-zero")]),
            gpu("NVIDIA L4", &[("lib_name", "CUDA"), ("Driver Version", "550.1"), ("CUDA Version", "12.4")]),
        ],
        disks: vec![disk("d", "/", 10, 4)],
    };
    let profile = check_pc(&readings, 5);
    assert_eq!(profile.os, "Inconnu");
    assert_eq!(profile.cpu, "Ryzen");
    assert_eq!((profile.cpu_coeurs, profile.cpu_threads), (4, 3));
    assert_eq!(profile.cpu_frequence_mhz, 3100);
    assert_eq!(profile.cpu_utilisation, 100.0f64.to_bits());
    assert_eq!(profile.ram_type.as_deref(), Some("Mémoire unifiée"));
    assert_eq!(profile.name_carte, "NVIDIA L4");
    assert!(profile.gpu_est_nvidia && profile.cuda_disponible);
    assert_eq!(profile.cuda_version.as_deref(), Some("12.4"));
    assert_eq!(profile.gpu_driver_version.as_deref(), Some("550.1"));
    assert_eq!((profile.vram_total, profile.vram_utilisee, profile.vram_disponible), (100, 100, 0));
    assert_eq!(profile.nbrs_total_gpu, 2);
    assert_eq!((profile.stockage_total, profile.taille_storage), (10, 4));
    let bare = PcReadings { gpus: vec![], cpu: None, ..readings };
    let profile = check_pc(&bare, 5);
    assert_eq!(profile.name_carte, "Aucun GPU");
    assert_eq!(profile.gpu_backend, "CPU");
    assert_eq!(profile.cpu_coeurs, 3);
}

fn worker() -> WorkerProbe {
    WorkerProbe {
        health: Ok(WorkerHealth { status: "ok".into(), service: "vidioai-gpu-worker".into() }),
        ready: Ok(WorkerReady {
            ready: true,
            profile: "GPU_PRODUCTION".into(),
            runtime_available: true,
            cuda_available: true,
            gpu_required: true,
            scratch_mount_ok: true,
            scratch_filesystem: Some("xfs".into()),
            scratch_total_bytes: 9,
            scratch_available_bytes: 7,
            errors: vec![],
        }),
    }
}

fn production() -> Observations {
    Observations {
        profile: ApplicationProfile::GpuProduction,
        mode: ApplicationMode::AcceptingJobs,
        storage_writable: true,
        scratch_writable: true,
        ffmpeg: true,
        queue: true,
        host_agent: Some(Ok(())),
        system_source: ResourceSource::Host,
        system_error: None,
        host_nvidia: true,
        worker: Some(worker()),
        object_storage: Some(Ok(())),
        admin_token: Some("x".repeat(32)),
    }
}

#[test]
fn a_service_without_a_fault_is_ready() {
    let (status, told) = get_ready(&production());
    assert_eq!(status, 200);
    assert!(told.ready);
    assert!(told.errors.is_empty());
    assert_eq!(told.scratch_filesystem.as_deref(), Some("xfs"));
    assert_eq!(told.catalog_models, 2);
    assert_eq!(told.message, "VidioAI est prêt à accepter des jobs.");
}

#[test]
fn every_fault_is_told_in_order() {
    let seen = Observations {
        storage_writable: false,
        ffmpeg: false,
        worker: None,
        object_storage: Some(Err("coupé".into())),
        host_agent: Some(Err("muet".into())),
        admin_token: None,
        ..production()
    };
    let (status, told) = get_ready(&seen);
    assert_eq!(status, 503);
    assert_eq!(
        told.errors,
        vec![
            "muet",
            "Stockage objet indisponible : coupé",
            "Le volume de sorties n'est pas inscriptible.",
            "FFmpeg est absent ou inutilisable.",
            "Le worker GPU de production n'est pas prêt.",
            "CUDA/NVIDIA est obligatoire dans GPU_PRODUCTION.",
            "Le Worker n'atteste pas le filesystem Scratch dédié.",
            "Le Host Agent natif est obligatoire dans GPU_PRODUCTION.",
            "GPU détecté sur l'hôte mais non exposé au GPU Worker.",
            "VIDIOAI_ADMIN_TOKEN doit être un secret aléatoire d'au moins 32 caractères.",
        ]
    );
}

#[test]
fn another_service_is_not_the_worker() {
    let health = WorkerHealth { status: "ok".into(), service: "autre".into() };
    assert!(!is_known_worker(&health));
    let probe = WorkerProbe { health: Ok(health), ..worker() };
    let (_, told) = get_ready(&Observations { worker: Some(probe), ..production() });
    assert!(!told.ready);
    assert_eq!(told.errors[0], "Le service worker a répondu avec une identité inattendue.");
    let silent = WorkerProbe { health: Err("coupé".into()), ..worker() };
    let (_, told) = get_ready(&Observations { worker: Some(silent), ..production() });
    assert_eq!(told.errors[0], "Worker indisponible : coupé");
    let unready = WorkerProbe { ready: Err("démarre".into()), ..worker() };
    let (_, told) = get_ready(&Observations { worker: Some(unready), ..production() });
    assert_eq!(told.errors[0], "Worker non prêt : démarre");
}

#[test]
fn the_service_is_steered_with_its_token() {
    let token = Some("t".repeat(32));
    assert!(!is_weak_token(&token));
    assert!(is_weak_token(&Some("replace-with-a-long-random-secret-value".into())));
    let header = format!("Bearer {}", "t".repeat(32));
    let mut mode = ApplicationMode::AcceptingJobs;
    let mut jobs = Jobs::new();
    jobs.insert_job(new_job(1, JobKind::GenerateImage, "t".into(), None, None, "queued", "m", 1));
    let refused = set_application_mode(
        &mut mode,
        ApplicationMode::Draining,
        ApplicationProfile::Local,
        &token,
        Some("Bearer autre"),
        &jobs,
    );
    assert_eq!(refused.unwrap_err().status, 401);
    assert_eq!(mode, ApplicationMode::AcceptingJobs);
    let answer = set_application_mode(
        &mut mode,
        ApplicationMode::Draining,
        ApplicationProfile::Local,
        &token,
        Some(&header),
        &jobs,
    )
    .unwrap();
    assert_eq!(answer, (ApplicationMode::Draining, 1));
    assert_eq!(mode, ApplicationMode::Draining);
    assert!(authorize_admin(ApplicationProfile::Local, &None, None).is_ok());
    assert_eq!(job_counts(&jobs), (1, 1));
}

#[test]
fn the_part_of_the_worker_tells_why_it_is_missing() {
    assert_eq!(worker_part(Some(Ok(5))), (Some(5), Some(ResourceSource::Worker), None));
    assert_eq!(worker_part::<u8>(Some(Err("x".into()))), (None, None, Some("x".to_owned())));
    assert_eq!(
        worker_part::<u8>(None).2.as_deref(),
        Some("VIDIOAI_WORKER_URL non configurée")
    );
}

#[test]
fn the_figures_add_up() {
    let files = vec![
        StoredFile { extension: Some("png".into()), bytes: 5 },
        StoredFile { extension: Some("json".into()), bytes: 100 },
        StoredFile { extension: None, bytes: 2 },
    ];
    let figures = get_dashboard(&Generations::new(), &files, 3, 1);
    assert_eq!(figures.storage_bytes, 7);
    assert_eq!(figures.installed_models, 5);
    assert_eq!(figures.loaded_models, 1);
    assert_eq!(figures.generations_total, 0);
    assert!(figures.recent_generations.is_empty());
    let huge = |extension: &str| StoredFile { extension: Some(extension.into()), bytes: u64::MAX };
    assert_eq!(add_up(&vec![huge("json"), huge("png")]), Some(u64::MAX));
    assert_eq!(add_up(&vec![huge("mp4"), huge("png")]), None);
}

#[test]
fn the_worker_is_addressed_by_its_paths() {
    assert_eq!(base_address("http://w:8000//").as_deref(), Some("http://w:8000"));
    assert_eq!(base_address("  "), None);
    assert_eq!(model_status_path("m"), "/v1/models/m/status");
    assert_eq!(job_status_path("j"), "/v1/jobs/j");
    let body = compatibility_payload(Some("FluxPipeline"), None, None, &vec!["t".into()]);
    assert_eq!(body.text_member("pipeline_class"), Some("FluxPipeline"));
    assert!(body.get("architectures").is_some());
}
