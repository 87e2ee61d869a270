//! Jobs, what is noted of them, and the cloud copies that belong to them.
use vidioai::backup::{cancel_cloud_backup_by_model, BackupCancellationRegistry};
use vidioai::event::{emit, model_event, unload_event};
use vidioai::job::{
    ensure_accepting_jobs, is_active, new_job, report, report_dependencies, report_upload,
    ApplicationMode, CloudBackupStatus, Job, JobKind, JobStatus, Jobs, TransferReport,
};
use vidioai::json::Json;
use vidioai::note::{put_backup, put_dependencies, put_outcome, put_report, record, JobNote};
use vidioai::worker::WorkerUnloadAllResponse;

fn job(id: u128, kind: JobKind, created_at: u64) -> Job {
    new_job(
        id,
        kind,
        "owner/model".into(),
        Some("owner/model".into()),
        None,
        "queued",
        "En attente",
        created_at,
    )
}

fn transfer() -> TransferReport {
    TransferReport {
        current_file: Some("a.bin".into()),
        files_skipped: 2,
        percent: "40.5".into(),
        document: Json::Object(vec![("bytes_sent".into(), Json::Integer(81))]),
    }
}

#[test]
fn reports_move_a_job_and_keep_its_bounds() {
    let mut each = job(1, JobKind::GenerateImage, 10);
    report(&mut each, JobStatus::Running, "generating", 38, "En cours", 20);
    assert_eq!(each.started_at, Some(20));
    assert_eq!(each.progress, 38);
    report(&mut each, JobStatus::SavingOutput, "saving_output", 200, "Enregistrement", 30);
    assert_eq!(each.progress, 100);
    assert_eq!(each.started_at, Some(20));
    assert_eq!(each.completed_at, None);
    report(&mut each, JobStatus::Failed, "failed", 100, "WORKER_LOST: parti", 40);
    let failure = each.error.as_ref().unwrap();
    assert_eq!(failure.text_member("code"), Some("WORKER_LOST"));
    assert_eq!(failure.text_member("message"), Some("WORKER_LOST: parti"));
    assert_eq!(failure.get("retryable").unwrap().as_flag(), Some(true));
    assert_eq!(each.completed_at, Some(40));
    assert_eq!(each.created_at, 10);
}

#[test]
fn jobs_are_found_and_changed_alone() {
    let mut jobs = Jobs::new();
    jobs.insert_job(job(1, JobKind::InstallModel, 10));
    jobs.insert_job(job(2, JobKind::CacheModel, 20));
    assert_eq!(
        jobs.update_job(1, JobStatus::Completed, "installed", 100, "Fini", 30),
        Some("model.install.completed")
    );
    assert_eq!(
        jobs.update_job(2, JobStatus::Running, "saving_cache", 5, "Copie", 30),
        Some("model.cache.progress")
    );
    assert_eq!(jobs.update_job(3, JobStatus::Running, "x", 1, "y", 30), None);
    assert_eq!(jobs.get(1).unwrap().status, JobStatus::Completed);
    assert_eq!(jobs.get(2).unwrap().progress, 5);
    assert!(jobs.set_job_result(2, Json::Bool(true), 40));
    assert!(!jobs.set_job_result(3, Json::Bool(true), 40));
    assert!(jobs.get(1).unwrap().result.is_none());
}

#[test]
fn the_queue_holds_active_jobs_in_order() {
    let mut jobs = Jobs::new();
    for (id, at) in [(1, 30), (2, 10), (3, 20)] {
        jobs.insert_job(job(id, JobKind::GenerateVideo, at));
    }
    jobs.update_job(3, JobStatus::Cancelled, "cancelled", 0, "Annulée", 40);
    let queue: Vec<u128> = jobs.queue().iter().map(|each| each.id).collect();
    assert_eq!(queue, vec![2, 1]);
    assert!(is_active(&JobStatus::PendingRetry));
    assert!(!is_active(&JobStatus::Interrupted));
}

#[test]
fn failures_are_classified_by_where_the_job_stands() {
    let mut jobs = Jobs::new();
    jobs.insert_job(job(1, JobKind::GenerateImage, 1));
    assert_eq!(jobs.classify_generation_error(1, false, "plein"), "GENERATION_FAILED: plein");
    jobs.update_job(1, JobStatus::SavingOutput, "saving_output", 82, "…", 2);
    assert!(jobs.saving_output(1));
    assert_eq!(jobs.classify_generation_error(1, false, "plein"), "OUTPUT_WRITE_FAILED: plein");
}

#[test]
fn older_names_are_read_back() {
    for status in [
        CloudBackupStatus::Pending,
        CloudBackupStatus::Uploading,
        CloudBackupStatus::Completed,
        CloudBackupStatus::Failed,
        CloudBackupStatus::Cancelled,
    ] {
        assert_eq!(CloudBackupStatus::from_legacy(status.legacy_alias()), status);
    }
    assert_eq!(CloudBackupStatus::NotRequested.legacy_alias(), None);
    assert_eq!(CloudBackupStatus::from_legacy(Some("AUTRE")), CloudBackupStatus::NotRequested);
}

#[test]
fn older_records_are_migrated_once() {
    let mut jobs = Jobs::new();
    let mut old = job(1, JobKind::CacheModel, 1);
    old.cache_status = Some("CACHE_READY".into());
    jobs.insert_job(old);
    jobs.migrate();
    assert_eq!(jobs.get(1).unwrap().cloud_backup_status, CloudBackupStatus::Completed);
    let once = format!("{jobs:?}");
    jobs.migrate();
    assert_eq!(format!("{jobs:?}"), once);
}

#[test]
fn uploads_move_a_copy_but_not_an_installation() {
    let mut copy = job(1, JobKind::CacheModel, 1);
    assert!(report_upload(&mut copy, transfer(), 40, 5));
    assert_eq!(copy.progress, 90);
    assert_eq!(copy.status, JobStatus::Running);
    let kept = copy.transfer.as_ref().unwrap();
    assert_eq!(kept.get("bytes_sent").unwrap().as_integer(), Some(81));
    assert_eq!(
        copy.message,
        "Sauvegarde dans le cache S3 · a.bin · 40.5% · 2 fichier(s) déjà présent(s)"
    );
    let mut install = job(2, JobKind::InstallModel, 1);
    assert!(report_upload(&mut install, transfer(), 95, 5));
    assert_eq!(install.status, JobStatus::Queued);
    assert_eq!(install.progress, 0);
    assert_eq!(install.cloud_backup_status, CloudBackupStatus::Uploading);
    let mut stopped = job(3, JobKind::CacheModel, 1);
    stopped.cloud_backup_status = CloudBackupStatus::Cancelled;
    assert!(!report_upload(&mut stopped, transfer(), 95, 5));
    assert_eq!(stopped.updated_at, 1);
}

#[test]
fn dependencies_are_told_by_their_package() {
    let mut each = job(1, JobKind::InstallModel, 1);
    let package = Json::Object(vec![("package".into(), Json::Text("torch".into()))]);
    report_dependencies(&mut each, "DOWNLOADING_DEPENDENCY", &vec![package], 2);
    assert_eq!(each.message, "Préparation du runtime · torch — téléchargement en cours");
    assert_eq!((each.stage.as_str(), each.progress), ("installing_dependencies", 85));
    report_dependencies(&mut each, "INSTALLING_DEPENDENCIES", &vec![], 3);
    assert_eq!(each.message, "Préparation du runtime · dépendances runtime — installation");
    assert_eq!(each.progress, 87);
    assert!(each.dependency.is_none());
    report_dependencies(&mut each, "AUTRE", &vec![], 4);
    assert_eq!((each.stage.as_str(), each.progress), ("resolving_dependencies", 84));
}

#[test]
fn new_jobs_are_refused_while_the_service_drains() {
    assert!(ensure_accepting_jobs(ApplicationMode::AcceptingJobs).is_ok());
    assert_eq!(ensure_accepting_jobs(ApplicationMode::Draining).unwrap_err().status, 503);
    assert_eq!(ensure_accepting_jobs(ApplicationMode::Stopping).unwrap_err().status, 503);
}

#[test]
fn notes_change_the_job_that_they_are_of() {
    let mut jobs = Jobs::new();
    jobs.insert_job(job(1, JobKind::InstallModel, 1));
    let mut notes: Vec<JobNote> = vec![];
    put_report(&mut notes, JobStatus::Running, "downloading", 20, "Téléchargement");
    put_dependencies(&mut notes, "INSTALLING_DEPENDENCIES", &vec![]);
    put_backup(&mut notes, CloudBackupStatus::Failed, Some("plein".into()));
    put_outcome(&mut notes, Json::Integer(4));
    for note in &notes {
        assert!(record(&mut jobs, 1, note, 9));
        assert!(!record(&mut jobs, 2, note, 9));
    }
    let after = jobs.get(1).unwrap();
    assert_eq!(after.progress, 87);
    assert_eq!(after.cloud_backup_status, CloudBackupStatus::Failed);
    assert_eq!(after.cache_error.as_deref(), Some("plein"));
    assert_eq!(after.result.as_ref().and_then(|value| value.as_integer()), Some(4));
    assert_eq!((after.id, after.kind), (1, JobKind::InstallModel));
}

#[test]
fn copies_are_stopped_by_the_name_of_their_model() {
    let mut jobs = Jobs::new();
    let mut registry = BackupCancellationRegistry::new();
    jobs.insert_job(job(1, JobKind::CacheModel, 1));
    jobs.insert_job(job(2, JobKind::CacheModel, 1));
    registry.register(1, "owner/model".into());
    registry.register(2, "other/model".into());
    let empty = cancel_cloud_backup_by_model(&mut registry, &mut jobs, "  ", 5).unwrap_err();
    assert_eq!(empty.message, "model_id est obligatoire.");
    let answer =
        cancel_cloud_backup_by_model(&mut registry, &mut jobs, " owner/model ", 5).unwrap();
    assert_eq!(answer.jobs_cancelled, vec![1]);
    assert!(registry.is_cancelled(1));
    assert!(!registry.is_cancelled(2));
    assert_eq!(jobs.get(1).unwrap().cloud_backup_status, CloudBackupStatus::Cancelled);
    assert_eq!(jobs.get(1).unwrap().status, JobStatus::Queued);
    assert_eq!(jobs.get(2).unwrap().cloud_backup_status, CloudBackupStatus::NotRequested);
    registry.finish(1);
    assert!(!registry.is_cancelled(1));
    let again = cancel_cloud_backup_by_model(&mut registry, &mut jobs, "owner/model", 6).unwrap();
    assert_eq!(again.message, "La sauvegarde cloud est déjà annulée.");
    assert!(again.jobs_cancelled.is_empty());
    let none = cancel_cloud_backup_by_model(&mut registry, &mut jobs, "third/model", 6).unwrap_err();
    assert!(none.message.starts_with("CLOUD_BACKUP_NOT_ACTIVE"));
    assert_eq!(none.status, 409);
}

#[test]
fn events_carry_what_happened() {
    let envelope = emit("job.updated", Json::Integer(3));
    assert_eq!(envelope.event, "job.updated");
    assert_eq!(envelope.data.as_integer(), Some(3));
    let told = model_event("owner/model", "READY");
    assert_eq!(told.text_member("model_id"), Some("owner/model"));
    assert_eq!(told.text_member("state"), Some("READY"));
    let response = WorkerUnloadAllResponse {
        success: true,
        models_unloaded: vec!["owner/model".into()],
        before_memory: None,
        after_memory: None,
        message: "vide".into(),
        comfyui_error: None,
    };
    assert!(matches!(unload_event(&response), Json::Object(_)));
}
