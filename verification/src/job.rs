//! Jobs: their states, how work on them is reported, and the queue.
use crate::error;
use crate::error::ApiError;
use crate::json;
use crate::json::{Json, JsonView};
use crate::lookup;
use crate::order;
use crate::text;
use vstd::prelude::*;
use vstd::string::*;

verus! {

// ---------------------------------------------------------------------------
// States
// ---------------------------------------------------------------------------

/// What a job does.
#[derive(Clone, Copy, Debug, PartialEq, Eq, Structural)]
pub enum JobKind {
    InstallModel,
    RestoreModel,
    CacheModel,
    GenerateImage,
    GenerateVideo,
}

impl JobKind {
    /// The name of the value in documents.
    pub open spec fn name(self) -> Seq<char> {
        match self {
            JobKind::InstallModel => "INSTALL_MODEL"@,
            JobKind::RestoreModel => "RESTORE_MODEL"@,
            JobKind::CacheModel => "CACHE_MODEL"@,
            JobKind::GenerateImage => "GENERATE_IMAGE"@,
            JobKind::GenerateVideo => "GENERATE_VIDEO"@,
        }
    }

    /// The name of the value in documents.
    pub fn api_name(&self) -> (name: &'static str)
        ensures
            name@ == self.name(),
    {
        match self {
            JobKind::InstallModel => "INSTALL_MODEL",
            JobKind::RestoreModel => "RESTORE_MODEL",
            JobKind::CacheModel => "CACHE_MODEL",
            JobKind::GenerateImage => "GENERATE_IMAGE",
            JobKind::GenerateVideo => "GENERATE_VIDEO",
        }
    }
}

/// How far a job is.
#[derive(Clone, Copy, Debug, PartialEq, Eq, Structural)]
pub enum JobStatus {
    Queued,
    Dispatching,
    Running,
    SavingOutput,
    Completed,
    Failed,
    Cancelled,
    /// The service stopped while the job was active.
    Interrupted,
    /// The job had not started when the service stopped, and can be started again.
    PendingRetry,
}

impl JobStatus {
    /// The name of the value in documents.
    pub open spec fn name(self) -> Seq<char> {
        match self {
            JobStatus::Queued => "queued"@,
            JobStatus::Dispatching => "dispatching"@,
            JobStatus::Running => "running"@,
            JobStatus::SavingOutput => "saving_output"@,
            JobStatus::Completed => "completed"@,
            JobStatus::Failed => "failed"@,
            JobStatus::Cancelled => "cancelled"@,
            JobStatus::Interrupted => "interrupted"@,
            JobStatus::PendingRetry => "pending_retry"@,
        }
    }

    /// The name of the value in documents.
    pub fn api_name(&self) -> (name: &'static str)
        ensures
            name@ == self.name(),
    {
        match self {
            JobStatus::Queued => "queued",
            JobStatus::Dispatching => "dispatching",
            JobStatus::Running => "running",
            JobStatus::SavingOutput => "saving_output",
            JobStatus::Completed => "completed",
            JobStatus::Failed => "failed",
            JobStatus::Cancelled => "cancelled",
            JobStatus::Interrupted => "interrupted",
            JobStatus::PendingRetry => "pending_retry",
        }
    }
}

/// How far the copy of a model to the cloud is, apart from the job that asked for it.
#[derive(Clone, Copy, Debug, PartialEq, Eq, Structural)]
pub enum CloudBackupStatus {
    NotRequested,
    Pending,
    Uploading,
    Completed,
    Failed,
    Cancelled,
}

impl CloudBackupStatus {
    /// The name of the value in documents.
    pub open spec fn name(self) -> Seq<char> {
        match self {
            CloudBackupStatus::NotRequested => "NOT_REQUESTED"@,
            CloudBackupStatus::Pending => "PENDING"@,
            CloudBackupStatus::Uploading => "UPLOADING"@,
            CloudBackupStatus::Completed => "COMPLETED"@,
            CloudBackupStatus::Failed => "FAILED"@,
            CloudBackupStatus::Cancelled => "CANCELLED"@,
        }
    }

    /// The name of the value in documents.
    pub fn api_name(&self) -> (name: &'static str)
        ensures
            name@ == self.name(),
    {
        match self {
            CloudBackupStatus::NotRequested => "NOT_REQUESTED",
            CloudBackupStatus::Pending => "PENDING",
            CloudBackupStatus::Uploading => "UPLOADING",
            CloudBackupStatus::Completed => "COMPLETED",
            CloudBackupStatus::Failed => "FAILED",
            CloudBackupStatus::Cancelled => "CANCELLED",
        }
    }
}

/// Whether new jobs are taken.
#[derive(Clone, Copy, Debug, PartialEq, Eq, Structural)]
pub enum ApplicationMode {
    AcceptingJobs,
    Draining,
    Stopping,
}

impl ApplicationMode {
    /// The name of the value in documents.
    pub open spec fn name(self) -> Seq<char> {
        match self {
            ApplicationMode::AcceptingJobs => "ACCEPTING_JOBS"@,
            ApplicationMode::Draining => "DRAINING"@,
            ApplicationMode::Stopping => "STOPPING"@,
        }
    }

    /// The name of the value in documents.
    pub fn api_name(&self) -> (name: &'static str)
        ensures
            name@ == self.name(),
    {
        match self {
            ApplicationMode::AcceptingJobs => "ACCEPTING_JOBS",
            ApplicationMode::Draining => "DRAINING",
            ApplicationMode::Stopping => "STOPPING",
        }
    }
}

/// Whether a job waits or is being worked on.
pub open spec fn active(status: JobStatus) -> bool {
    status == JobStatus::Queued || status == JobStatus::Dispatching || status == JobStatus::Running
        || status == JobStatus::SavingOutput || status == JobStatus::PendingRetry
}

/// Whether a status says that work has begun.
pub open spec fn begun(status: JobStatus) -> bool {
    status == JobStatus::Dispatching || status == JobStatus::Running || status
        == JobStatus::SavingOutput
}

/// Whether a status says that work has ended.
pub open spec fn ended(status: JobStatus) -> bool {
    status == JobStatus::Completed || status == JobStatus::Failed || status == JobStatus::Cancelled
}

/// Whether a job waits or is being worked on.
pub fn is_active(status: &JobStatus) -> (yes: bool)
    ensures
        yes == active(*status),
{
    matches!(
        status,
        JobStatus::Queued | JobStatus::Dispatching | JobStatus::Running | JobStatus::SavingOutput
            | JobStatus::PendingRetry
    )
}

impl CloudBackupStatus {
    /// The status that an older name stands for.
    pub open spec fn of_legacy(value: Option<Seq<char>>) -> CloudBackupStatus {
        match value {
            Some(name) => if name == "CACHE_PENDING"@ {
                CloudBackupStatus::Pending
            } else if name == "CACHE_UPLOADING"@ {
                CloudBackupStatus::Uploading
            } else if name == "CACHE_READY"@ {
                CloudBackupStatus::Completed
            } else if name == "CACHE_FAILED"@ {
                CloudBackupStatus::Failed
            } else if name == "CACHE_CANCELLED"@ {
                CloudBackupStatus::Cancelled
            } else {
                CloudBackupStatus::NotRequested
            },
            None => CloudBackupStatus::NotRequested,
        }
    }

    /// The older name of a status.
    pub open spec fn alias(self) -> Option<Seq<char>> {
        match self {
            CloudBackupStatus::NotRequested => None,
            CloudBackupStatus::Pending => Some("CACHE_PENDING"@),
            CloudBackupStatus::Uploading => Some("CACHE_UPLOADING"@),
            CloudBackupStatus::Completed => Some("CACHE_READY"@),
            CloudBackupStatus::Failed => Some("CACHE_FAILED"@),
            CloudBackupStatus::Cancelled => Some("CACHE_CANCELLED"@),
        }
    }

    /// Reads an older name.
    pub fn from_legacy(value: Option<&str>) -> (status: Self)
        ensures
            status == Self::of_legacy(text::opt_str(value)),
    {
        match value {
            Some(name) => if *name == *"CACHE_PENDING" {
                CloudBackupStatus::Pending
            } else if *name == *"CACHE_UPLOADING" {
                CloudBackupStatus::Uploading
            } else if *name == *"CACHE_READY" {
                CloudBackupStatus::Completed
            } else if *name == *"CACHE_FAILED" {
                CloudBackupStatus::Failed
            } else if *name == *"CACHE_CANCELLED" {
                CloudBackupStatus::Cancelled
            } else {
                CloudBackupStatus::NotRequested
            },
            None => CloudBackupStatus::NotRequested,
        }
    }

    /// The older name of a status, where it has one.
    pub fn legacy_alias(self) -> (name: Option<&'static str>)
        ensures
            text::opt_str(name) == self.alias(),
    {
        match self {
            CloudBackupStatus::NotRequested => None,
            CloudBackupStatus::Pending => Some("CACHE_PENDING"),
            CloudBackupStatus::Uploading => Some("CACHE_UPLOADING"),
            CloudBackupStatus::Completed => Some("CACHE_READY"),
            CloudBackupStatus::Failed => Some("CACHE_FAILED"),
            CloudBackupStatus::Cancelled => Some("CACHE_CANCELLED"),
        }
    }
}

// ---------------------------------------------------------------------------
// Jobs
// ---------------------------------------------------------------------------

/// How far a transfer is: what a job says of it in words, and all that is known
/// of it.
#[derive(Debug)]
pub struct TransferReport {
    pub current_file: Option<String>,
    pub files_skipped: u64,
    /// The share done in percent, with two decimals.
    pub percent: String,
    /// All that is known, as the job keeps it.
    pub document: Json,
}

/// What [`TransferReport`] says.
#[verifier::ext_equal]
pub struct TransferView {
    pub current_file: Option<Seq<char>>,
    pub files_skipped: u64,
    pub percent: Seq<char>,
    pub document: JsonView,
}

impl View for TransferReport {
    type V = TransferView;

    open spec fn view(&self) -> TransferView {
        TransferView {
            current_file: text::opt(self.current_file),
            files_skipped: self.files_skipped,
            percent: self.percent@,
            document: self.document@,
        }
    }
}

impl TransferReport {
    /// A copy of the value.
    pub fn copy(&self) -> (copy: Self)
        ensures
            copy@ == self@,
    {
        TransferReport {
            current_file: text::copy_opt(&self.current_file),
            files_skipped: self.files_skipped,
            percent: self.percent.clone(),
            document: self.document.copy(),
        }
    }
}

/// A unit of work that is followed from the queue to its end.
#[derive(Debug)]
pub struct Job {
    pub id: u128,
    pub kind: JobKind,
    pub target_id: String,
    pub model_id: Option<String>,
    pub capability: Option<String>,
    pub status: JobStatus,
    pub stage: String,
    pub progress: u8,
    pub message: String,
    pub transfer: Option<Json>,
    pub dependency: Option<Json>,
    pub cache_status: Option<String>,
    pub cache_error: Option<String>,
    pub cloud_backup_status: CloudBackupStatus,
    pub started_at: Option<u64>,
    pub completed_at: Option<u64>,
    pub error: Option<Json>,
    pub result: Option<Json>,
    pub created_at: u64,
    pub updated_at: u64,
}

/// What [`Job`] says.
#[verifier::ext_equal]
pub struct JobView {
    pub id: u128,
    pub kind: JobKind,
    pub target_id: Seq<char>,
    pub model_id: Option<Seq<char>>,
    pub capability: Option<Seq<char>>,
    pub status: JobStatus,
    pub stage: Seq<char>,
    pub progress: u8,
    pub message: Seq<char>,
    pub transfer: Option<JsonView>,
    pub dependency: Option<JsonView>,
    pub cache_status: Option<Seq<char>>,
    pub cache_error: Option<Seq<char>>,
    pub cloud_backup_status: CloudBackupStatus,
    pub started_at: Option<u64>,
    pub completed_at: Option<u64>,
    pub error: Option<JsonView>,
    pub result: Option<JsonView>,
    pub created_at: u64,
    pub updated_at: u64,
}

impl View for Job {
    type V = JobView;

    open spec fn view(&self) -> JobView {
        JobView {
            id: self.id,
            kind: self.kind,
            target_id: self.target_id@,
            model_id: text::opt(self.model_id),
            capability: text::opt(self.capability),
            status: self.status,
            stage: self.stage@,
            progress: self.progress,
            message: self.message@,
            transfer: json::opt_view(self.transfer),
            dependency: json::opt_view(self.dependency),
            cache_status: text::opt(self.cache_status),
            cache_error: text::opt(self.cache_error),
            cloud_backup_status: self.cloud_backup_status,
            started_at: self.started_at,
            completed_at: self.completed_at,
            error: json::opt_view(self.error),
            result: json::opt_view(self.result),
            created_at: self.created_at,
            updated_at: self.updated_at,
        }
    }
}

impl Job {
    /// A copy of the value.
    pub fn copy(&self) -> (copy: Self)
        ensures
            copy@ == self@,
    {
        Job {
            id: self.id,
            kind: self.kind,
            target_id: self.target_id.clone(),
            model_id: text::copy_opt(&self.model_id),
            capability: text::copy_opt(&self.capability),
            status: self.status,
            stage: self.stage.clone(),
            progress: self.progress,
            message: self.message.clone(),
            transfer: json::copy_opt(&self.transfer),
            dependency: json::copy_opt(&self.dependency),
            cache_status: text::copy_opt(&self.cache_status),
            cache_error: text::copy_opt(&self.cache_error),
            cloud_backup_status: self.cloud_backup_status,
            started_at: self.started_at,
            completed_at: self.completed_at,
            error: json::copy_opt(&self.error),
            result: json::copy_opt(&self.result),
            created_at: self.created_at,
            updated_at: self.updated_at,
        }
    }
}

/// The state of the cloud copy, with older records read as they were written.
pub open spec fn backup_status(job: JobView) -> CloudBackupStatus {
    if job.cloud_backup_status == CloudBackupStatus::NotRequested {
        CloudBackupStatus::of_legacy(job.cache_status)
    } else {
        job.cloud_backup_status
    }
}

/// A job after its cloud copy has reached a state.
pub open spec fn with_backup_status(
    job: JobView,
    status: CloudBackupStatus,
    error: Option<Seq<char>>,
    now: u64,
) -> JobView {
    JobView {
        cloud_backup_status: status,
        cache_status: if status.alias() is Some {
            status.alias()
        } else {
            job.cache_status
        },
        cache_error: error,
        updated_at: now,
        ..job
    }
}

/// Records the state of the cloud copy of a job. The job's own status stays.
pub fn apply_cloud_backup_status(
    job: &mut Job,
    status: CloudBackupStatus,
    error: Option<String>,
    now: u64,
)
    ensures
        final(job)@ == with_backup_status(old(job)@, status, text::opt(error), now),
{
    job.cloud_backup_status = status;
    match status.legacy_alias() {
        Some(alias) => {
            job.cache_status = Some(alias.to_owned());
        },
        None => {},
    }
    job.cache_error = error;
    job.updated_at = now;
}

impl Job {
    /// The state of the cloud copy, with older records read as they were written.
    pub fn effective_cloud_backup_status(&self) -> (status: CloudBackupStatus)
        ensures
            status == backup_status(self@),
    {
        if self.cloud_backup_status == CloudBackupStatus::NotRequested {
            match &self.cache_status {
                Some(name) => CloudBackupStatus::from_legacy(Some(name.as_str())),
                None => CloudBackupStatus::NotRequested,
            }
        } else {
            self.cloud_backup_status
        }
    }
}

/// A record of an older form with the state of its cloud copy written out.
pub open spec fn migrated(job: JobView) -> JobView {
    JobView { cloud_backup_status: backup_status(job), ..job }
}

/// A new job in the queue.
pub open spec fn queued_job(
    id: u128,
    kind: JobKind,
    target_id: Seq<char>,
    model_id: Option<Seq<char>>,
    capability: Option<Seq<char>>,
    stage: Seq<char>,
    message: Seq<char>,
    now: u64,
) -> JobView {
    JobView {
        id,
        kind,
        target_id,
        model_id,
        capability,
        status: JobStatus::Queued,
        stage,
        progress: 0,
        message,
        transfer: None,
        dependency: None,
        cache_status: None,
        cache_error: None,
        cloud_backup_status: CloudBackupStatus::NotRequested,
        started_at: None,
        completed_at: None,
        error: None,
        result: None,
        created_at: now,
        updated_at: now,
    }
}

/// Makes a new job for the queue.
pub fn new_job(
    id: u128,
    kind: JobKind,
    target_id: String,
    model_id: Option<String>,
    capability: Option<String>,
    stage: &str,
    message: &str,
    now: u64,
) -> (job: Job)
    ensures
        job@ == queued_job(
            id,
            kind,
            target_id@,
            text::opt(model_id),
            text::opt(capability),
            stage@,
            message@,
            now,
        ),
{
    Job {
        id,
        kind,
        target_id,
        model_id,
        capability,
        status: JobStatus::Queued,
        stage: stage.to_owned(),
        progress: 0,
        message: message.to_owned(),
        transfer: None,
        dependency: None,
        cache_status: None,
        cache_error: None,
        cloud_backup_status: CloudBackupStatus::NotRequested,
        started_at: None,
        completed_at: None,
        error: None,
        result: None,
        created_at: now,
        updated_at: now,
    }
}

// ---------------------------------------------------------------------------
// Reports on a job
// ---------------------------------------------------------------------------

/// The members of the failure that a message tells of.
pub open spec fn failure_members(message: Seq<char>) -> Seq<(Seq<char>, JsonView)> {
    seq![
        ("code"@, JsonView::Text(error::job_code(message))),
        ("message"@, JsonView::Text(message)),
        ("retryable"@, JsonView::Bool(error::retryable_job(error::job_code(message)))),
    ]
}

/// The failure that a message tells of: its code, the message, and whether another
/// try may succeed.
pub open spec fn failure_of(message: Seq<char>) -> JsonView {
    JsonView::Object(failure_members(message))
}

fn failure_document(message: &str) -> (document: Json)
    ensures
        document@ == failure_of(message@),
{
    let (code, retryable) = error::job_failure(message);
    let mut members: Vec<(String, Json)> = Vec::new();
    json::put(&mut members, "code", json::text_json(code.as_str()));
    json::put(&mut members, "message", json::text_json(message));
    json::put(&mut members, "retryable", Json::Bool(retryable));
    assert(json::members_view(members@) =~= failure_members(message@));
    json::object(members)
}

/// A job after a report on it.
pub open spec fn reported(
    job: JobView,
    status: JobStatus,
    stage: Seq<char>,
    progress: u8,
    message: Seq<char>,
    now: u64,
) -> JobView {
    JobView {
        started_at: if begun(status) && job.started_at is None {
            Some(now)
        } else {
            job.started_at
        },
        completed_at: if ended(status) {
            Some(now)
        } else {
            job.completed_at
        },
        error: if status == JobStatus::Failed {
            Some(failure_of(message))
        } else {
            job.error
        },
        status,
        stage,
        progress: if progress < 100 {
            progress
        } else {
            100
        },
        message,
        updated_at: now,
        ..job
    }
}

/// Records a report on a job: where the work stands, when it began and ended,
/// and why it failed.
pub fn report(
    job: &mut Job,
    status: JobStatus,
    stage: &str,
    progress: u8,
    message: &str,
    now: u64,
)
    ensures
        final(job)@ == reported(old(job)@, status, stage@, progress, message@, now),
{
    if matches!(status, JobStatus::Dispatching | JobStatus::Running | JobStatus::SavingOutput)
        && job.started_at.is_none() {
        job.started_at = Some(now);
    }
    if matches!(status, JobStatus::Completed | JobStatus::Failed | JobStatus::Cancelled) {
        job.completed_at = Some(now);
    }
    if status == JobStatus::Failed {
        job.error = Some(failure_document(message));
    }
    job.status = status;
    job.stage = stage.to_owned();
    job.progress = if progress < 100 {
        progress
    } else {
        100
    };
    job.message = message.to_owned();
    job.updated_at = now;
}

/// The event that tells of a report on a job.
pub open spec fn event_of(kind: JobKind, status: JobStatus) -> Seq<char> {
    if kind == JobKind::InstallModel {
        if status == JobStatus::Completed {
            "model.install.completed"@
        } else if status == JobStatus::Failed {
            "model.install.failed"@
        } else {
            "model.install.progress"@
        }
    } else if kind == JobKind::CacheModel {
        "model.cache.progress"@
    } else {
        "job.updated"@
    }
}

/// The event that tells of a report on a job.
pub fn event_name(kind: &JobKind, status: &JobStatus) -> (event: &'static str)
    ensures
        event@ == event_of(*kind, *status),
{
    match (kind, status) {
        (JobKind::InstallModel, JobStatus::Completed) => "model.install.completed",
        (JobKind::InstallModel, JobStatus::Failed) => "model.install.failed",
        (JobKind::InstallModel, _) => "model.install.progress",
        (JobKind::CacheModel, _) => "model.cache.progress",
        _ => "job.updated",
    }
}

/// The share of a job that an upload stands for, kept within its part.
pub open spec fn upload_progress(rounded: u8) -> u8 {
    if rounded < 90 {
        90
    } else if rounded > 99 {
        99
    } else {
        rounded
    }
}

/// What a job says while its files are uploaded.
pub open spec fn upload_message(transfer: TransferView) -> Seq<char> {
    "Sauvegarde dans le cache S3 · "@ + (match transfer.current_file {
        Some(file) => file,
        None => "validation du cache"@,
    }) + " · "@ + transfer.percent + "% · "@ + text::decimal(transfer.files_skipped as nat)
        + " fichier(s) déjà présent(s)"@
}

/// A job after a report on an upload; a cancelled copy stays as it is.
pub open spec fn uploading(
    job: JobView,
    transfer: TransferView,
    rounded: u8,
    now: u64,
) -> JobView {
    if backup_status(job) == CloudBackupStatus::Cancelled {
        job
    } else {
        let shown = if job.kind == JobKind::InstallModel {
            job
        } else {
            JobView {
                status: JobStatus::Running,
                started_at: if job.started_at is None {
                    Some(now)
                } else {
                    job.started_at
                },
                stage: "saving_cache"@,
                progress: upload_progress(rounded),
                message: upload_message(transfer),
                ..job
            }
        };
        JobView {
            transfer: Some(transfer.document),
            cache_status: Some("CACHE_UPLOADING"@),
            cache_error: None,
            cloud_backup_status: CloudBackupStatus::Uploading,
            updated_at: now,
            ..shown
        }
    }
}

/// Records how far an upload is, unless the copy was cancelled. An installation
/// keeps its own status: only its cloud copy moves. `rounded` is the share of
/// the whole job that the upload has reached, in whole percent.
pub fn report_upload(job: &mut Job, transfer: TransferReport, rounded: u8, now: u64) -> (changed:
    bool)
    ensures
        final(job)@ == uploading(old(job)@, transfer@, rounded, now),
        changed == (backup_status(old(job)@) != CloudBackupStatus::Cancelled),
{
    if job.effective_cloud_backup_status() == CloudBackupStatus::Cancelled {
        return false;
    }
    if job.kind != JobKind::InstallModel {
        job.status = JobStatus::Running;
        if job.started_at.is_none() {
            job.started_at = Some(now);
        }
        job.stage = "saving_cache".to_owned();
        job.progress = if rounded < 90 {
            90
        } else if rounded > 99 {
            99
        } else {
            rounded
        };
        let mut message = "Sauvegarde dans le cache S3 · ".to_owned();
        match &transfer.current_file {
            Some(file) => message.append(file.as_str()),
            None => message.append("validation du cache"),
        }
        message.append(" · ");
        message.append(transfer.percent.as_str());
        message.append("% · ");
        message.append(text::decimal_text(transfer.files_skipped).as_str());
        message.append(" fichier(s) déjà présent(s)");
        job.message = message;
    }
    job.transfer = Some(transfer.document);
    job.cache_status = Some("CACHE_UPLOADING".to_owned());
    job.cache_error = None;
    job.cloud_backup_status = CloudBackupStatus::Uploading;
    job.updated_at = now;
    true
}

/// The stage, the progress and the wording for a state of the worker while it
/// prepares a runtime.
pub open spec fn dependency_step(worker_state: Seq<char>) -> (Seq<char>, u8, Seq<char>) {
    if worker_state == "DOWNLOADING_DEPENDENCY"@ {
        ("installing_dependencies"@, 85, "téléchargement en cours"@)
    } else if worker_state == "INSTALLING_DEPENDENCIES"@ {
        ("installing_dependencies"@, 87, "installation"@)
    } else {
        ("resolving_dependencies"@, 84, "résolution"@)
    }
}

/// The package that the first of a list of dependencies names.
pub open spec fn dependency_label(dependencies: Seq<JsonView>) -> Seq<char> {
    if dependencies.len() > 0 && dependencies[0].text_member("package"@) is Some {
        dependencies[0].text_member("package"@)->0
    } else {
        "dépendances runtime"@
    }
}

/// A job after a report on the dependencies of its runtime.
pub open spec fn preparing(
    job: JobView,
    worker_state: Seq<char>,
    dependencies: Seq<JsonView>,
    now: u64,
) -> JobView {
    let step = dependency_step(worker_state);
    JobView {
        status: JobStatus::Running,
        stage: step.0,
        progress: step.1,
        message: "Préparation du runtime · "@ + dependency_label(dependencies) + " — "@ + step.2,
        dependency: if dependencies.len() > 0 {
            Some(dependencies[0])
        } else {
            None
        },
        updated_at: now,
        ..job
    }
}

/// Records what the worker says of the dependencies that it prepares.
pub fn report_dependencies(job: &mut Job, worker_state: &str, dependencies: &Vec<Json>, now: u64)
    ensures
        final(job)@ == preparing(
            old(job)@,
            worker_state@,
            json::items_view(dependencies@),
            now,
        ),
{
    let (stage, progress, action): (&str, u8, &str) = if *worker_state
        == *"DOWNLOADING_DEPENDENCY" {
        ("installing_dependencies", 85, "téléchargement en cours")
    } else if *worker_state == *"INSTALLING_DEPENDENCIES" {
        ("installing_dependencies", 87, "installation")
    } else {
        ("resolving_dependencies", 84, "résolution")
    };
    let mut message = "Préparation du runtime · ".to_owned();
    let mut dependency: Option<Json> = None;
    if dependencies.len() > 0 {
        match dependencies[0].text_member("package") {
            Some(label) => message.append(label),
            None => message.append("dépendances runtime"),
        }
        dependency = Some(dependencies[0].copy());
    } else {
        message.append("dépendances runtime");
    }
    message.append(" — ");
    message.append(action);
    job.status = JobStatus::Running;
    job.stage = stage.to_owned();
    job.progress = progress;
    job.message = message;
    job.dependency = dependency;
    job.updated_at = now;
}

// ---------------------------------------------------------------------------
// All jobs
// ---------------------------------------------------------------------------

/// The jobs of a service, each under its own identifier.
#[derive(Debug)]
pub struct Jobs {
    pub list: Vec<Job>,
}

/// The identifiers of jobs.
pub open spec fn ids(jobs: Seq<JobView>) -> Seq<u128> {
    Seq::new(jobs.len(), |i: int| jobs[i].id)
}

/// Where a job stands.
pub open spec fn place(jobs: Seq<JobView>, id: u128) -> Option<int> {
    lookup::place(ids(jobs), id)
}

/// Jobs with one of them replaced; all of them as they are where it is unknown.
pub open spec fn revised(
    jobs: Seq<JobView>,
    id: u128,
    change: spec_fn(JobView) -> JobView,
) -> Seq<JobView> {
    match place(jobs, id) {
        Some(at) => jobs.update(at, change(jobs[at])),
        None => jobs,
    }
}

/// Jobs after one was entered: in place of the one with its identifier, or last.
pub open spec fn entered(jobs: Seq<JobView>, job: JobView) -> Seq<JobView> {
    match place(jobs, job.id) {
        Some(at) => jobs.update(at, job),
        None => jobs.push(job),
    }
}

/// The active ones among jobs, in their order.
pub open spec fn active_jobs(jobs: Seq<JobView>) -> Seq<JobView> {
    jobs.filter(|job: JobView| active(job.status))
}

/// When jobs were created.
pub open spec fn creations(jobs: Seq<JobView>) -> Seq<u64> {
    Seq::new(jobs.len(), |i: int| jobs[i].created_at)
}

/// Whether a list is the queue: the active jobs, the older first, and those of
/// one time in the order in which they were entered.
pub open spec fn is_queue(queue: Seq<JobView>, jobs: Seq<JobView>) -> bool {
    exists|order: Seq<usize>|
        #![trigger order::picked(active_jobs(jobs), order)]
        order::stable(order, active_jobs(jobs).len(), order::rising(creations(active_jobs(jobs))))
            && queue == order::picked(active_jobs(jobs), order)
}

impl View for Jobs {
    type V = Seq<JobView>;

    open spec fn view(&self) -> Seq<JobView> {
        Seq::new(self.list@.len(), |i: int| self.list@[i]@)
    }
}

impl Jobs {
    /// No two jobs have one identifier.
    pub open spec fn wf(&self) -> bool {
        lookup::distinct(ids(self@))
    }

    /// No jobs.
    pub fn new() -> (jobs: Self)
        ensures
            jobs.wf(),
            jobs@ == Seq::<JobView>::empty(),
    {
        let jobs = Jobs { list: Vec::new() };
        assert(jobs@ =~= Seq::<JobView>::empty());
        jobs
    }

    /// Where a job stands.
    pub fn find(&self, id: u128) -> (at: Option<usize>)
        ensures
            match at {
                Some(k) => k < self@.len() && place(self@, id) == Some(k as int),
                None => place(self@, id) is None,
            },
    {
        for k in 0..self.list.len()
            invariant
                forall|j: int| 0 <= j < k ==> (#[trigger] self.list@[j])@.id != id,
        {
            if self.list[k].id == id {
                proof {
                    lookup::lemma_place_is(ids(self@), id, k as int);
                }
                return Some(k);
            }
        }
        proof {
            lookup::lemma_no_place(ids(self@), id);
        }
        None
    }

    /// A job by its identifier.
    pub fn get(&self, id: u128) -> (job: Option<&Job>)
        ensures
            match job {
                Some(found) => place(self@, id) is Some && found@ == self@[place(self@, id)->0],
                None => place(self@, id) is None,
            },
    {
        match self.find(id) {
            Some(at) => Some(&self.list[at]),
            None => None,
        }
    }

    /// Enters a job, in place of one with the same identifier.
    pub fn insert_job(&mut self, job: Job)
        requires
            old(self).wf(),
        ensures
            final(self).wf(),
            final(self)@ == entered(old(self)@, job@),
    {
        let ghost before = self@;
        let ghost entry = job@;
        proof {
            lookup::lemma_place(ids(before), entry.id);
        }
        match self.find(job.id) {
            Some(at) => {
                self.list.set(at, job);
                assert(self@ =~= before.update(at as int, entry));
                assert(ids(self@) =~= ids(before));
            },
            None => {
                self.list.push(job);
                assert(self@ =~= before.push(entry));
                assert forall|i: int| 0 <= i < before.len() implies before[i].id != entry.id by {
                    assert(ids(before)[i] == before[i].id);
                    assert(ids(before).contains(ids(before)[i]));
                }
                assert forall|i: int, j: int| 0 <= i < j < ids(self@).len() implies ids(self@)[i]
                    != ids(self@)[j] by {
                    assert(ids(before)[i] == before[i].id);
                    if j < before.len() {
                        assert(ids(before)[j] == before[j].id);
                    }
                }
            },
        }
    }

    /// Writes the state of every cloud copy out in the present form.
    pub fn migrate(&mut self)
        requires
            old(self).wf(),
        ensures
            final(self).wf(),
            final(self)@.len() == old(self)@.len(),
            forall|i: int|
                0 <= i < old(self)@.len() ==> #[trigger] final(self)@[i] == migrated(old(self)@[i]),
    {
        let ghost before = self@;
        let count: usize = self.list.len();
        for k in 0..count
            invariant
                count == self.list@.len() == before.len(),
                forall|i: int| 0 <= i < k ==> (#[trigger] self.list@[i])@ == migrated(before[i]),
                forall|i: int| k <= i < count ==> (#[trigger] self.list@[i])@ == before[i],
        {
            let status = self.list[k].effective_cloud_backup_status();
            self.list[k].cloud_backup_status = status;
        }
        assert(ids(self@) =~= ids(before));
    }

    /// Records a report on a job and returns the event that tells of it, `None`
    /// where the job is unknown.
    pub fn update_job(
        &mut self,
        id: u128,
        status: JobStatus,
        stage: &str,
        progress: u8,
        message: &str,
        now: u64,
    ) -> (event: Option<&'static str>)
        requires
            old(self).wf(),
        ensures
            final(self).wf(),
            final(self)@ == revised(
                old(self)@,
                id,
                |job: JobView| reported(job, status, stage@, progress, message@, now),
            ),
            match place(old(self)@, id) {
                Some(at) => text::opt_str(event) == Some(event_of(old(self)@[at].kind, status)),
                None => event is None,
            },
    {
        let ghost before = self@;
        match self.find(id) {
            Some(at) => {
                report(&mut self.list[at], status, stage, progress, message, now);
                assert(self@ =~= before.update(
                    at as int,
                    reported(before[at as int], status, stage@, progress, message@, now),
                ));
                assert(ids(self@) =~= ids(before));
                Some(event_name(&self.list[at].kind, &status))
            },
            None => None,
        }
    }

    /// Records the result of a job; `false` where the job is unknown.
    pub fn set_job_result(&mut self, id: u128, result: Json, now: u64) -> (known: bool)
        requires
            old(self).wf(),
        ensures
            final(self).wf(),
            known == (place(old(self)@, id) is Some),
            final(self)@ == revised(
                old(self)@,
                id,
                |job: JobView| JobView { result: Some(result@), updated_at: now, ..job },
            ),
    {
        let ghost before = self@;
        let ghost outcome = result@;
        match self.find(id) {
            Some(at) => {
                self.list[at].result = Some(result);
                self.list[at].updated_at = now;
                assert(self@ =~= before.update(
                    at as int,
                    JobView { result: Some(outcome), updated_at: now, ..before[at as int] },
                ));
                assert(ids(self@) =~= ids(before));
                true
            },
            None => false,
        }
    }

    /// Whether the output of a job is being saved.
    pub fn saving_output(&self, id: u128) -> (yes: bool)
        ensures
            yes == (place(self@, id) is Some && self@[place(self@, id)->0].status
                == JobStatus::SavingOutput),
    {
        match self.find(id) {
            Some(at) => self.list[at].status == JobStatus::SavingOutput,
            None => false,
        }
    }

    /// The message of a failed generation with the code of its failure in front,
    /// by the state that its job is in.
    pub fn classify_generation_error(&self, id: u128, video: bool, message: &str) -> (result: String)
        ensures
            result@ == error::classified(
                place(self@, id) is Some && self@[place(self@, id)->0].status
                    == JobStatus::SavingOutput,
                video,
                message@,
            ),
    {
        error::classify_generation_error(self.saving_output(id), video, message)
    }

    /// Records how far the upload of a job is; `false` where the job is unknown
    /// or its copy was cancelled.
    pub fn update_cache_progress(
        &mut self,
        id: u128,
        transfer: TransferReport,
        rounded: u8,
        now: u64,
    ) -> (changed: bool)
        requires
            old(self).wf(),
        ensures
            final(self).wf(),
            final(self)@ == revised(
                old(self)@,
                id,
                |job: JobView| uploading(job, transfer@, rounded, now),
            ),
            changed == (place(old(self)@, id) is Some && backup_status(
                old(self)@[place(old(self)@, id)->0],
            ) != CloudBackupStatus::Cancelled),
    {
        let ghost before = self@;
        let ghost shown = transfer@;
        match self.find(id) {
            Some(at) => {
                let changed = report_upload(&mut self.list[at], transfer, rounded, now);
                assert(self@ =~= before.update(
                    at as int,
                    uploading(before[at as int], shown, rounded, now),
                ));
                assert(ids(self@) =~= ids(before));
                changed
            },
            None => false,
        }
    }

    /// Records the state of the cloud copy of a job; `false` where the job is
    /// unknown.
    pub fn update_cloud_backup_status(
        &mut self,
        id: u128,
        status: CloudBackupStatus,
        error: Option<String>,
        now: u64,
    ) -> (known: bool)
        requires
            old(self).wf(),
        ensures
            final(self).wf(),
            known == (place(old(self)@, id) is Some),
            final(self)@ == revised(
                old(self)@,
                id,
                |job: JobView| with_backup_status(job, status, text::opt(error), now),
            ),
    {
        let ghost before = self@;
        let ghost cause = text::opt(error);
        match self.find(id) {
            Some(at) => {
                apply_cloud_backup_status(&mut self.list[at], status, error, now);
                assert(self@ =~= before.update(
                    at as int,
                    with_backup_status(before[at as int], status, cause, now),
                ));
                assert(ids(self@) =~= ids(before));
                true
            },
            None => false,
        }
    }

    /// Records what the worker says of the dependencies of a job; `false` where
    /// the job is unknown.
    pub fn update_dependency_progress(
        &mut self,
        id: u128,
        worker_state: &str,
        dependencies: &Vec<Json>,
        now: u64,
    ) -> (known: bool)
        requires
            old(self).wf(),
        ensures
            final(self).wf(),
            known == (place(old(self)@, id) is Some),
            final(self)@ == revised(
                old(self)@,
                id,
                |job: JobView|
                    preparing(job, worker_state@, json::items_view(dependencies@), now),
            ),
    {
        let ghost before = self@;
        match self.find(id) {
            Some(at) => {
                report_dependencies(&mut self.list[at], worker_state, dependencies, now);
                assert(self@ =~= before.update(
                    at as int,
                    preparing(
                        before[at as int],
                        worker_state@,
                        json::items_view(dependencies@),
                        now,
                    ),
                ));
                assert(ids(self@) =~= ids(before));
                true
            },
            None => false,
        }
    }

    /// The queue: copies of the active jobs, the older first.
    pub fn queue(&self) -> (queue: Vec<Job>)
        ensures
            is_queue(Seq::new(queue@.len(), |i: int| queue@[i]@), self@),
    {
        let ghost wanted = |job: JobView| active(job.status);
        let mut positions: Vec<usize> = Vec::new();
        let mut keys: Vec<u64> = Vec::new();
        for k in 0..self.list.len()
            invariant
                wanted == (|job: JobView| active(job.status)),
                positions@.len() == keys@.len(),
                positions@.len() == self@.take(k as int).filter(wanted).len(),
                forall|i: int|
                    0 <= i < positions@.len() ==> #[trigger] positions@[i] < self@.len()
                        && self@[positions@[i] as int] == self@.take(k as int).filter(wanted)[i]
                        && keys@[i] == self@[positions@[i] as int].created_at,
        {
            assert(self@.take(k + 1).drop_last() =~= self@.take(k as int));
            assert(self@.take(k + 1).last() == self@[k as int]);
            reveal(Seq::filter);
            if is_active(&self.list[k].status) {
                positions.push(k);
                keys.push(self.list[k].created_at);
            }
        }
        assert(self@.take(self@.len() as int) =~= self@);
        let order = order::rising_order(&keys);
        assert forall|i: int| 0 <= i < keys@.len() implies keys@[i] == creations(
            active_jobs(self@),
        )[i] by {
            assert(positions@[i] < self@.len());
        }
        assert(keys@ =~= creations(active_jobs(self@)));
        let mut queue: Vec<Job> = Vec::new();
        for n in 0..order.len()
            invariant
                order@.len() == positions@.len() == active_jobs(self@).len(),
                order::permutes(order@, positions@.len()),
                queue@.len() == n,
                forall|i: int|
                    0 <= i < positions@.len() ==> #[trigger] positions@[i] < self@.len()
                        && self@[positions@[i] as int] == active_jobs(self@)[i],
                forall|i: int|
                    0 <= i < n ==> (#[trigger] queue@[i])@ == active_jobs(
                        self@,
                    )[order@[i] as int],
        {
            let chosen: usize = order[n];
            let at: usize = positions[chosen];
            queue.push(self.list[at].copy());
        }
        proof {
            assert(Seq::new(queue@.len(), |i: int| queue@[i]@) =~= order::picked(
                active_jobs(self@),
                order@,
            ));
        }
        queue
    }
}

/// Refuses new jobs while the service drains.
pub fn ensure_accepting_jobs(mode: ApplicationMode) -> (result: Result<(), ApiError>)
    ensures
        result is Ok <==> mode == ApplicationMode::AcceptingJobs,
        result matches Err(refusal) ==> error::is_error(
            refusal,
            error::SERVICE_UNAVAILABLE,
            "VidioAI est en drainage et n'accepte plus de nouveaux jobs."@,
        ),
{
    if mode == ApplicationMode::AcceptingJobs {
        Ok(())
    } else {
        Err(
            ApiError::unavailable(
                "VidioAI est en drainage et n'accepte plus de nouveaux jobs.".to_owned(),
            ),
        )
    }
}

// ---------------------------------------------------------------------------
// Laws
// ---------------------------------------------------------------------------

/// The older name of a state of the cloud copy is read back as that state.
pub proof fn law_legacy_names_read_back(status: CloudBackupStatus)
    ensures
        CloudBackupStatus::of_legacy(status.alias()) == status,
{
    reveal_strlit("CACHE_PENDING");
    reveal_strlit("CACHE_UPLOADING");
    reveal_strlit("CACHE_READY");
    reveal_strlit("CACHE_FAILED");
    reveal_strlit("CACHE_CANCELLED");
    assert("CACHE_PENDING"@.len() == 13 && "CACHE_UPLOADING"@.len() == 15);
    assert("CACHE_READY"@.len() == 11 && "CACHE_FAILED"@.len() == 12);
    assert("CACHE_CANCELLED"@.len() == 15);
    assert("CACHE_UPLOADING"@[6] != "CACHE_CANCELLED"@[6]);
}

/// Whatever becomes of its cloud copy, a job keeps its own status, stage,
/// progress, message, result and failure.
pub proof fn law_backup_leaves_the_job(
    job: JobView,
    status: CloudBackupStatus,
    error: Option<Seq<char>>,
    now: u64,
)
    ensures
        ({
            let after = with_backup_status(job, status, error, now);
            &&& after.status == job.status
            &&& after.stage == job.stage
            &&& after.progress == job.progress
            &&& after.message == job.message
            &&& after.result == job.result
            &&& after.error == job.error
            &&& after.completed_at == job.completed_at
            &&& status != CloudBackupStatus::NotRequested ==> backup_status(after) == status
        }),
{
}

/// A report on an upload that is still on its way does not bring a cancelled
/// copy back, and never changes how far an installation is.
pub proof fn law_uploads_respect_the_job(
    job: JobView,
    transfer: TransferView,
    rounded: u8,
    now: u64,
)
    ensures
        backup_status(job) == CloudBackupStatus::Cancelled ==> uploading(job, transfer, rounded, now)
            == job,
        job.kind == JobKind::InstallModel ==> uploading(job, transfer, rounded, now).status
            == job.status && uploading(job, transfer, rounded, now).progress == job.progress,
{
}

/// Writing the state of a cloud copy out in the present form changes nothing of
/// what the record says, and doing so again changes nothing at all.
pub proof fn law_migration_is_stable(job: JobView)
    ensures
        backup_status(migrated(job)) == backup_status(job),
        migrated(migrated(job)) == migrated(job),
{
}

/// Reports keep the progress within a hundred, and the time at which a job
/// began does not move once it is known.
pub proof fn law_reports_keep_bounds(
    job: JobView,
    status: JobStatus,
    stage: Seq<char>,
    progress: u8,
    message: Seq<char>,
    now: u64,
)
    ensures
        ({
            let after = reported(job, status, stage, progress, message, now);
            &&& after.progress <= 100
            &&& job.started_at is Some ==> after.started_at == job.started_at
            &&& begun(status) ==> after.started_at is Some
            &&& ended(status) ==> after.completed_at == Some(now)
            &&& after.id == job.id && after.kind == job.kind
            &&& after.cloud_backup_status == job.cloud_backup_status
        }),
{
}

/// The queue holds active jobs only, each job of it one of the service, and no
/// job that was created before the one in front of it.
pub proof fn law_queue_holds_the_active(queue: Seq<JobView>, jobs: Seq<JobView>)
    requires
        is_queue(queue, jobs),
    ensures
        queue.len() == active_jobs(jobs).len(),
        forall|i: int|
            0 <= i < queue.len() ==> active((#[trigger] queue[i]).status) && jobs.contains(
                queue[i],
            ),
        forall|i: int, j: int|
            0 <= i < j < queue.len() ==> queue[i].created_at <= queue[j].created_at,
{
    let wanted = |job: JobView| active(job.status);
    let chosen = active_jobs(jobs);
    let order = choose|order: Seq<usize>|
        #![trigger order::picked(chosen, order)]
        order::stable(order, chosen.len(), order::rising(creations(chosen))) && queue
            == order::picked(chosen, order);
    assert forall|i: int, j: int| 0 <= i < j < queue.len() implies queue[i].created_at
        <= queue[j].created_at by {
        let (a, b) = (order[i] as int, order[j] as int);
        assert(order[i] < chosen.len() && order[j] < chosen.len());
        assert(creations(chosen)[a] == chosen[a].created_at);
        assert(creations(chosen)[b] == chosen[b].created_at);
    }
    assert forall|i: int| 0 <= i < queue.len() implies active((#[trigger] queue[i]).status)
        && jobs.contains(queue[i]) by {
        assert(order[i] < chosen.len());
        assert(queue[i] == chosen[order[i] as int]);
        lookup::lemma_filtered(jobs, wanted, order[i] as int);
    }
}

/// A change of one job leaves every other job as it was.
pub proof fn law_changes_are_local(
    jobs: Seq<JobView>,
    id: u128,
    change: spec_fn(JobView) -> JobView,
    i: int,
)
    requires
        0 <= i < jobs.len(),
        jobs[i].id != id,
    ensures
        revised(jobs, id, change)[i] == jobs[i],
{
    lookup::lemma_place(ids(jobs), id);
}

/// A report says what the job says afterwards: its state, its stage, its message
/// and its progress. A failure is kept with its code and its words, a job that had
/// failed before keeps that, and when it began and ended is kept too.
pub proof fn law_reports_are_what_the_job_says(
    job: JobView,
    status: JobStatus,
    stage: Seq<char>,
    progress: u8,
    message: Seq<char>,
    now: u64,
)
    ensures
        ({
            let after = reported(job, status, stage, progress, message, now);
            &&& after.status == status && after.stage == stage && after.message == message
            &&& progress <= 100 ==> after.progress == progress
            &&& progress > 100 ==> after.progress == 100
            &&& after.updated_at == now && after.created_at == job.created_at
            &&& after.target_id == job.target_id && after.model_id == job.model_id
                && after.capability == job.capability
            &&& after.result == job.result && after.transfer == job.transfer
            &&& status == JobStatus::Completed || status == JobStatus::Failed || status
                == JobStatus::Cancelled ==> after.completed_at == Some(now)
            &&& status == JobStatus::Queued || status == JobStatus::Dispatching || status
                == JobStatus::Running || status == JobStatus::SavingOutput ==> after.completed_at
                == job.completed_at
            &&& (status == JobStatus::Dispatching || status == JobStatus::Running || status
                == JobStatus::SavingOutput) && job.started_at is None ==> after.started_at == Some(
                now,
            )
            &&& status == JobStatus::Queued ==> after.started_at == job.started_at
            &&& status != JobStatus::Failed ==> after.error == job.error
            &&& status == JobStatus::Failed ==> (after.error matches Some(told)
                && told.text_member("message"@) == Some(message) && told.text_member("code"@)
                == Some(error::job_code(message)) && told.member("retryable"@) == Some(
                JsonView::Bool(error::retryable_job(error::job_code(message))),
            ))
        }),
{
    let members = failure_members(message);
    crate::member::lemma_members(members);
    reveal_with_fuel(crate::member::first_named, 5);
    assert(members.len() == 3);
    reveal_strlit("code");
    reveal_strlit("message");
    reveal_strlit("retryable");
    assert("code"@.len() == 4 && "message"@.len() == 7 && "retryable"@.len() == 9);
}

/// Jobs that wait, are dispatched, run, save or wait to be tried again are active;
/// those that ended are not.
pub proof fn law_active_jobs_are_those_that_go_on(status: JobStatus)
    ensures
        active(status) <==> status == JobStatus::Queued || status == JobStatus::Dispatching
            || status == JobStatus::Running || status == JobStatus::SavingOutput || status
            == JobStatus::PendingRetry,
        ended(status) ==> !active(status),
        begun(status) ==> active(status),
        ended(status) <==> status == JobStatus::Completed || status == JobStatus::Failed || status
            == JobStatus::Cancelled,
{
}

/// The states, kinds and modes have the names by which they are told, and no two
/// states have one name.
pub proof fn law_states_have_their_names(one: JobStatus, other: JobStatus)
    ensures
        one.name() == other.name() <==> one == other,
        JobStatus::Queued.name() == "queued"@ && JobStatus::Running.name() == "running"@
            && JobStatus::Completed.name() == "completed"@ && JobStatus::Failed.name() == "failed"@
            && JobStatus::Cancelled.name() == "cancelled"@,
        JobStatus::Dispatching.name() == "dispatching"@ && JobStatus::SavingOutput.name()
            == "saving_output"@ && JobStatus::Interrupted.name() == "interrupted"@
            && JobStatus::PendingRetry.name() == "pending_retry"@,
        JobKind::InstallModel.name() == "INSTALL_MODEL"@ && JobKind::RestoreModel.name()
            == "RESTORE_MODEL"@ && JobKind::CacheModel.name() == "CACHE_MODEL"@
            && JobKind::GenerateImage.name() == "GENERATE_IMAGE"@ && JobKind::GenerateVideo.name()
            == "GENERATE_VIDEO"@,
        ApplicationMode::AcceptingJobs.name() == "ACCEPTING_JOBS"@
            && ApplicationMode::Draining.name() == "DRAINING"@ && ApplicationMode::Stopping.name()
            == "STOPPING"@,
        CloudBackupStatus::NotRequested.name() == "NOT_REQUESTED"@
            && CloudBackupStatus::Pending.name() == "PENDING"@
            && CloudBackupStatus::Uploading.name() == "UPLOADING"@
            && CloudBackupStatus::Completed.name() == "COMPLETED"@
            && CloudBackupStatus::Failed.name() == "FAILED"@ && CloudBackupStatus::Cancelled.name()
            == "CANCELLED"@,
        CloudBackupStatus::Pending.alias() == Some("CACHE_PENDING"@)
            && CloudBackupStatus::Uploading.alias() == Some("CACHE_UPLOADING"@)
            && CloudBackupStatus::Completed.alias() == Some("CACHE_READY"@)
            && CloudBackupStatus::Failed.alias() == Some("CACHE_FAILED"@)
            && CloudBackupStatus::Cancelled.alias() == Some("CACHE_CANCELLED"@)
            && CloudBackupStatus::NotRequested.alias() is None,
{
    reveal_strlit("queued");
    reveal_strlit("dispatching");
    reveal_strlit("running");
    reveal_strlit("saving_output");
    reveal_strlit("completed");
    reveal_strlit("failed");
    reveal_strlit("cancelled");
    reveal_strlit("interrupted");
    reveal_strlit("pending_retry");
    assert("queued"@.len() == 6 && "dispatching"@.len() == 11 && "running"@.len() == 7
        && "saving_output"@.len() == 13 && "completed"@.len() == 9 && "failed"@.len() == 6
        && "cancelled"@.len() == 9 && "interrupted"@.len() == 11 && "pending_retry"@.len() == 13);
    assert("queued"@[0] == 'q' && "failed"@[0] == 'f' && "dispatching"@[0] == 'd'
        && "interrupted"@[0] == 'i' && "saving_output"@[0] == 's' && "pending_retry"@[0] == 'p'
        && "completed"@[1] == 'o' && "cancelled"@[1] == 'a');
}

/// The event of an installation tells how it ended; that of another job, that it
/// was changed.
pub proof fn law_events_tell_of_the_job(kind: JobKind, status: JobStatus)
    ensures
        kind == JobKind::InstallModel && status == JobStatus::Completed ==> event_of(kind, status)
            == "model.install.completed"@,
        kind == JobKind::InstallModel && status == JobStatus::Failed ==> event_of(kind, status)
            == "model.install.failed"@,
        kind == JobKind::InstallModel && status != JobStatus::Completed && status
            != JobStatus::Failed ==> event_of(kind, status) == "model.install.progress"@,
        kind == JobKind::CacheModel ==> event_of(kind, status) == "model.cache.progress"@,
        kind == JobKind::RestoreModel || kind == JobKind::GenerateImage || kind
            == JobKind::GenerateVideo ==> event_of(kind, status) == "job.updated"@,
{
}

/// A copy to the cloud that goes on is told: the transfer, that it is under way,
/// and for a job of its own how far it is, between 90 and 99 percent.
pub proof fn law_uploads_are_told(job: JobView, transfer: TransferView, rounded: u8, now: u64)
    requires
        backup_status(job) != CloudBackupStatus::Cancelled,
    ensures
        ({
            let after = uploading(job, transfer, rounded, now);
            &&& after.transfer == Some(transfer.document)
            &&& after.cloud_backup_status == CloudBackupStatus::Uploading
            &&& after.cache_status == Some("CACHE_UPLOADING"@) && after.cache_error is None
            &&& after.updated_at == now && after.id == job.id
            &&& job.kind != JobKind::InstallModel ==> after.status == JobStatus::Running
                && after.stage == "saving_cache"@ && 90 <= after.progress <= 99 && (90 <= rounded
                <= 99 ==> after.progress == rounded) && (rounded < 90 ==> after.progress == 90) && (
            rounded > 99 ==> after.progress == 99)
            &&& job.kind != JobKind::InstallModel ==> (job.started_at is None ==> after.started_at
                == Some(now)) && (job.started_at is Some ==> after.started_at == job.started_at)
            &&& job.kind == JobKind::InstallModel ==> after.stage == job.stage && after.message
                == job.message && after.started_at == job.started_at
        }),
{
}

/// The state of the copy of a job is its own where it has one, else the one that an
/// older record names.
pub proof fn law_copies_stand_where_the_job_says(job: JobView)
    ensures
        job.cloud_backup_status != CloudBackupStatus::NotRequested ==> backup_status(job)
            == job.cloud_backup_status,
        job.cloud_backup_status == CloudBackupStatus::NotRequested && job.cache_status == Some(
            "CACHE_READY"@,
        ) ==> backup_status(job) == CloudBackupStatus::Completed,
        job.cloud_backup_status == CloudBackupStatus::NotRequested && job.cache_status == Some(
            "CACHE_FAILED"@,
        ) ==> backup_status(job) == CloudBackupStatus::Failed,
        job.cloud_backup_status == CloudBackupStatus::NotRequested && job.cache_status is None
            ==> backup_status(job) == CloudBackupStatus::NotRequested,
        migrated(job).cloud_backup_status == backup_status(job),
        migrated(job).status == job.status && migrated(job).cache_status == job.cache_status,
{
    law_legacy_names_read_back(CloudBackupStatus::Completed);
    law_legacy_names_read_back(CloudBackupStatus::Failed);
}

/// A change of a copy keeps the cause and the time, and the older name where the
/// state has one.
pub proof fn law_copies_keep_their_cause(
    job: JobView,
    status: CloudBackupStatus,
    error: Option<Seq<char>>,
    now: u64,
)
    ensures
        ({
            let after = with_backup_status(job, status, error, now);
            &&& after.cloud_backup_status == status && after.cache_error == error
                && after.updated_at == now
            &&& status == CloudBackupStatus::NotRequested ==> after.cache_status
                == job.cache_status
            &&& status == CloudBackupStatus::Completed ==> after.cache_status == Some(
                "CACHE_READY"@,
            )
            &&& status == CloudBackupStatus::Failed ==> after.cache_status == Some("CACHE_FAILED"@)
        }),
{
}

/// What the worker prepares is told: the job runs, names the dependency, and is
/// further on while it is installed than while it is fetched or looked for.
pub proof fn law_preparations_are_told(
    job: JobView,
    state: Seq<char>,
    dependencies: Seq<JsonView>,
    now: u64,
)
    ensures
        ({
            let after = preparing(job, state, dependencies, now);
            &&& after.status == JobStatus::Running && after.updated_at == now
            &&& dependencies.len() > 0 ==> after.dependency == Some(dependencies[0])
            &&& dependencies.len() == 0 ==> after.dependency is None
            &&& state == "DOWNLOADING_DEPENDENCY"@ ==> after.progress == 85 && after.stage
                == "installing_dependencies"@
            &&& state == "INSTALLING_DEPENDENCIES"@ ==> after.progress == 87 && after.stage
                == "installing_dependencies"@
            &&& state != "DOWNLOADING_DEPENDENCY"@ && state != "INSTALLING_DEPENDENCIES"@
                ==> after.progress == 84 && after.stage == "resolving_dependencies"@
            &&& after.id == job.id && after.kind == job.kind && after.error == job.error
            &&& dependencies.len() > 0 ==> (dependencies[0].text_member("package"@) matches Some(
                package,
            ) ==> text::opens(after.message, "Préparation du runtime · "@ + package))
        }),
{
    reveal_strlit("DOWNLOADING_DEPENDENCY");
    reveal_strlit("INSTALLING_DEPENDENCIES");
    assert("DOWNLOADING_DEPENDENCY"@[0] == 'D' && "INSTALLING_DEPENDENCIES"@[0] == 'I');
    if dependencies.len() > 0 && dependencies[0].text_member("package"@) is Some {
        let head = "Préparation du runtime · "@ + dependencies[0].text_member("package"@)->0;
        let told = preparing(job, state, dependencies, now).message;
        assert(told.take(head.len() as int) =~= head);
    }
}

/// A job that is entered is found under its identifier, in the place of the one
/// that had it before, and every other job stays.
pub proof fn law_entered_jobs_are_found(jobs: Seq<JobView>, job: JobView, other: int)
    requires
        lookup::distinct(ids(jobs)),
        0 <= other < jobs.len(),
    ensures
        entered(jobs, job).contains(job),
        jobs[other].id != job.id ==> entered(jobs, job)[other] == jobs[other],
        jobs[other].id == job.id ==> entered(jobs, job)[other] == job && entered(jobs, job).len()
            == jobs.len(),
{
    lookup::lemma_place(ids(jobs), job.id);
    match place(jobs, job.id) {
        Some(at) => {
            assert(entered(jobs, job)[at] == job);
            assert(ids(jobs)[at] == job.id);
            if jobs[other].id == job.id && at != other {
                assert(ids(jobs)[other] == ids(jobs)[at]);
            }
        },
        None => {
            assert(entered(jobs, job)[jobs.len() as int] == job);
            assert(ids(jobs)[other] == jobs[other].id);
        },
    }
}

/// A new job waits, has done nothing and says what it is for.
pub proof fn law_new_jobs_wait(
    id: u128,
    kind: JobKind,
    target: Seq<char>,
    model: Option<Seq<char>>,
    capability: Option<Seq<char>>,
    stage: Seq<char>,
    message: Seq<char>,
    now: u64,
)
    ensures
        ({
            let job = queued_job(id, kind, target, model, capability, stage, message, now);
            &&& job.id == id && job.kind == kind && job.target_id == target && job.model_id == model
                && job.capability == capability && job.stage == stage && job.message == message
            &&& job.status == JobStatus::Queued && job.progress == 0
            &&& job.created_at == now && job.updated_at == now && job.started_at is None
                && job.completed_at is None
            &&& job.error is None && job.result is None && job.transfer is None
            &&& job.cloud_backup_status == CloudBackupStatus::NotRequested
        }),
{
}

} // verus!
