//! Installing a model: what is asked, what is refused, and the run of an
//! installation with the cloud copy that may follow it.
use crate::backup;
use crate::backup::BackupCancellationRegistry;
use crate::capability;
use crate::catalog::{CatalogEntry, EntryView, ModelView};
use crate::error;
use crate::error::ApiError;
use crate::identity;
use crate::job;
use crate::job::{CloudBackupStatus, Job, JobKind, JobStatus, JobView, Jobs};
use crate::json;
use crate::json::{Json, JsonView};
use crate::note;
use crate::note::{JobNote, NoteView};
use crate::pack;
use crate::run;
use crate::text;
use crate::worker;
use crate::worker::{
    InstallOptionsView, ModelStatusView, WorkerInstallOptions, WorkerModelStatus,
};
use vstd::prelude::*;
use vstd::string::*;

verus! {

// ---------------------------------------------------------------------------
// What is asked
// ---------------------------------------------------------------------------

/// What an installation is to be.
#[derive(Debug)]
pub struct InstallModelInput {
    pub model_id: String,
    pub revision: Option<String>,
    /// What is to be added to the model.
    pub loras: Option<Vec<Json>>,
    pub recipe: Option<Json>,
    /// The pack under trial that the installation is for.
    pub candidate: Option<Json>,
}

/// Whether an installation changes what is added to a model.
pub open spec fn reconfigures(input: InstallModelInput) -> bool {
    input.loras is Some || input.recipe is Some
}

/// What an installation adds to the model.
pub open spec fn asked_options(input: InstallModelInput) -> InstallOptionsView {
    InstallOptionsView {
        loras: match input.loras {
            Some(list) => Some(JsonView::List(json::items_view(list@))),
            None => None,
        },
        recipe: json::opt_view(input.recipe),
        model_pack_candidate: json::opt_view(input.candidate),
    }
}

/// Whether models are to be copied to the cloud once they are installed.
pub open spec fn copies_by_itself(setting: Option<Seq<char>>) -> bool {
    match setting {
        Some(value) => {
            let word = text::lower(text::trimmed(value));
            word == "1"@ || word == "true"@ || word == "yes"@ || word == "on"@
        },
        None => false,
    }
}

/// Whether models are to be copied to the cloud once they are installed.
pub fn auto_cache_models_enabled(setting: Option<&str>) -> (yes: bool)
    ensures
        yes == copies_by_itself(text::opt_str(setting)),
{
    match setting {
        Some(value) => {
            let word = text::ascii_lowercase(text::trim(value));
            *word.as_str() == *"1" || *word.as_str() == *"true" || *word.as_str() == *"yes"
                || *word.as_str() == *"on"
        },
        None => false,
    }
}

/// Whether a character may stand in the name of a store.
pub open spec fn store_char(c: char) -> bool {
    text::ascii_lower_letter(c) || text::ascii_upper_letter(c) || text::ascii_digit(c) || c == '-'
        || c == '_'
}

/// Whether a text is the name of a store of the laboratory.
pub open spec fn lab_store(name: Seq<char>) -> bool {
    text::opens(name, "lab-"@) && forall|i: int| 0 <= i < name.len() ==> store_char(#[trigger] name[i])
}

fn is_lab_store(name: &str) -> (yes: bool)
    ensures
        yes == lab_store(name@),
{
    if !text::starts_with(name, "lab-") {
        return false;
    }
    let characters = text::chars_of(name);
    for i in 0..characters.len()
        invariant
            characters@ == name@,
            forall|j: int| 0 <= j < i ==> store_char(#[trigger] name@[j]),
    {
        let c = characters[i];
        let plain = ('a' <= c && c <= 'z') || ('A' <= c && c <= 'Z') || ('0' <= c && c <= '9') || c
            == '-' || c == '_';
        if !plain {
            return false;
        }
    }
    true
}

/// The store that a candidate names.
pub open spec fn named_store(candidate: Option<JsonView>) -> Option<Seq<char>> {
    match candidate {
        Some(document) => document.text_member("lab_storage_id"@),
        None => None,
    }
}

/// The model that is to be installed, in the store of the candidate where it names
/// one.
pub open spec fn placed(entry: EntryView, input: InstallModelInput) -> Result<
    EntryView,
    (u16, Seq<char>),
> {
    match named_store(json::opt_view(input.candidate)) {
        None => Ok(entry),
        Some(name) => if lab_store(name) {
            Ok(EntryView { storage_id: name, ..entry })
        } else {
            Err(
                (
                    error::BAD_REQUEST,
                    "MODEL_LAB_STORAGE_INVALID: identifiant de stockage invalide."@,
                ),
            )
        },
    }
}

/// The model that is to be installed: in the store of the candidate and at the
/// revision that was asked for, which must be that of the catalogue or, where
/// only what is added to the model changes, the installed one.
pub open spec fn prepared(
    entry: EntryView,
    input: InstallModelInput,
    installed: Option<Seq<char>>,
) -> Result<EntryView, (u16, Seq<char>)> {
    match placed(entry, input) {
        Err(refusal) => Err(refusal),
        Ok(stored) => match text::opt(input.revision) {
            None => Ok(stored),
            Some(revision) => if revision == entry.revision || (reconfigures(input) && installed
                == Some(revision)) {
                Ok(EntryView { revision, ..stored })
            } else {
                Err(
                    (
                        error::CONFLICT,
                        "La révision demandée n'est ni la révision publiée ni la révision locale installée."@,
                    ),
                )
            },
        },
    }
}

/// What a model that is to be installed, or its refusal, says.
pub open spec fn entry_outcome(result: Result<CatalogEntry, ApiError>) -> Result<
    EntryView,
    (u16, Seq<char>),
> {
    match result {
        Ok(entry) => Ok(entry@),
        Err(refusal) => Err(error::says(refusal)),
    }
}

/// Puts a model that is to be installed in the store of the candidate.
pub fn place_install(entry: CatalogEntry, input: &InstallModelInput) -> (result: Result<
    CatalogEntry,
    ApiError,
>)
    ensures
        entry_outcome(result) == placed(entry@, *input),
{
    let mut entry = entry;
    let store = match &input.candidate {
        Some(document) => document.text_member("lab_storage_id"),
        None => None,
    };
    match store {
        Some(name) => {
            if !is_lab_store(name) {
                return Err(
                    ApiError::bad_request(
                        "MODEL_LAB_STORAGE_INVALID: identifiant de stockage invalide.".to_owned(),
                    ),
                );
            }
            entry.storage_id = name.to_owned();
        },
        None => {},
    }
    Ok(entry)
}

/// Prepares a model for its installation. `installed` is the revision that is on
/// the disk, in the store where the model is put.
pub fn prepare_install(entry: CatalogEntry, input: &InstallModelInput, installed: Option<&str>) -> (result:
    Result<CatalogEntry, ApiError>)
    ensures
        entry_outcome(result) == prepared(entry@, *input, text::opt_str(installed)),
{
    let mut entry = match place_install(entry, input) {
        Ok(stored) => stored,
        Err(refusal) => {
            return Err(refusal);
        },
    };
    match &input.revision {
        None => {},
        Some(revision) => {
            let bundle = input.loras.is_some() || input.recipe.is_some();
            let present = match installed {
                Some(found) => bundle && *found == *revision.as_str(),
                None => false,
            };
            if *revision.as_str() != *entry.revision.as_str() && !present {
                return Err(
                    ApiError::conflict(
                        "La révision demandée n'est ni la révision publiée ni la révision locale installée.".to_owned(),
                    ),
                );
            }
            entry.revision = revision.clone();
        },
    }
    Ok(entry)
}

/// What is said of a model that is installed as it is asked for.
pub open spec fn presence_refusal(view: ModelView, input: InstallModelInput) -> Option<
    (u16, Seq<char>),
> {
    if view.installed && !view.update_available && !reconfigures(input) {
        Some((error::CONFLICT, "Ce modèle est déjà installé."@))
    } else {
        None
    }
}

/// Refuses a model that is installed as it is asked for, and says whether the
/// model has to be unloaded first.
pub fn check_presence(view: &ModelView, input: &InstallModelInput) -> (result: Result<
    bool,
    ApiError,
>)
    ensures
        match result {
            Ok(unload) => presence_refusal(*view, *input) is None && unload == (reconfigures(*input)
                && view.loaded),
            Err(refusal) => presence_refusal(*view, *input) == Some(error::says(refusal)),
        },
{
    let bundle = input.loras.is_some() || input.recipe.is_some();
    if view.installed && !view.update_available && !bundle {
        return Err(ApiError::conflict("Ce modèle est déjà installé.".to_owned()));
    }
    Ok(bundle && view.loaded)
}

/// Why a model cannot be installed, if it cannot. A candidate may be tried
/// whatever is known of it, but not without access to it.
pub open spec fn install_refusal(entry: EntryView, view: ModelView, trial: bool) -> Option<
    (u16, Seq<char>),
> {
    if (entry.gated || entry.private) && entry.access_checked && !entry.access_authorized {
        Some(
            (
                error::UNAUTHORIZED,
                "Ce modèle nécessite un accès Hugging Face autorisé via HF_TOKEN."@,
            ),
        )
    } else if !trial && (view.runtime_compatibility@ == "UNSUPPORTED"@ || !entry.quality_valid) {
        Some(
            (
                error::CONFLICT,
                "Le modèle ne possède pas les fichiers requis par un runtime VidioAI validé."@,
            ),
        )
    } else if !trial && !view.compatible {
        Some(
            (
                error::CONFLICT,
                "Ce modèle n'est pas installable ; consultez compatibility_checks pour la cause précise."@,
            ),
        )
    } else {
        None
    }
}

/// Refuses a model that cannot be installed.
pub fn admit_install(entry: &CatalogEntry, view: &ModelView, trial: bool) -> (result: Result<
    (),
    ApiError,
>)
    ensures
        pack::refused(result) == install_refusal(entry@, *view, trial),
{
    if (entry.gated || entry.private) && entry.access_checked && !entry.access_authorized {
        return Err(
            ApiError::unauthorized(
                "Ce modèle nécessite un accès Hugging Face autorisé via HF_TOKEN.".to_owned(),
            ),
        );
    }
    if !trial && (*view.runtime_compatibility.as_str() == *"UNSUPPORTED" || !entry.quality_valid) {
        return Err(
            ApiError::conflict(
                "Le modèle ne possède pas les fichiers requis par un runtime VidioAI validé.".to_owned(),
            ),
        );
    }
    if !trial && !view.compatible {
        return Err(
            ApiError::conflict(
                "Ce modèle n'est pas installable ; consultez compatibility_checks pour la cause précise.".to_owned(),
            ),
        );
    }
    Ok(())
}

/// The job of an installation. `storage` tells whether there is a cloud store,
/// `automatic` whether models are copied to it by themselves.
pub open spec fn install_job(
    id: u128,
    model_id: Seq<char>,
    storage: bool,
    automatic: bool,
    now: u64,
) -> JobView {
    JobView {
        cache_status: if storage && automatic {
            Some("CACHE_PENDING"@)
        } else if storage {
            Some("CACHE_MANUAL"@)
        } else {
            None
        },
        cloud_backup_status: if storage && automatic {
            CloudBackupStatus::Pending
        } else {
            CloudBackupStatus::NotRequested
        },
        ..job::queued_job(
            id,
            JobKind::InstallModel,
            model_id,
            Some(model_id),
            None,
            "checking"@,
            "Vérification du modèle"@,
            now,
        )
    }
}

/// The job of an installation.
pub fn new_install_job(id: u128, model_id: &str, storage: bool, automatic: bool, now: u64) -> (job: Job)
    ensures
        job@ == install_job(id, model_id@, storage, automatic, now),
{
    let mut job = job::new_job(
        id,
        JobKind::InstallModel,
        model_id.to_owned(),
        Some(model_id.to_owned()),
        None,
        "checking",
        "Vérification du modèle",
        now,
    );
    if storage && automatic {
        job.cache_status = Some("CACHE_PENDING".to_owned());
        job.cloud_backup_status = CloudBackupStatus::Pending;
    } else if storage {
        job.cache_status = Some("CACHE_MANUAL".to_owned());
    }
    job
}

/// Enters the job of an installation now, under a fresh identifier, and returns
/// it; a cloud copy that is to follow can be stopped from then on.
pub fn start_model_install(
    jobs: &mut Jobs,
    registry: &mut BackupCancellationRegistry,
    model_id: &str,
    storage: bool,
    automatic: bool,
) -> (job: Job)
    requires
        old(jobs).wf(),
        old(registry).wf(),
    ensures
        final(jobs).wf(),
        final(registry).wf(),
        job@ == install_job(job.id, model_id@, storage, automatic, job.created_at),
        final(jobs)@ == job::entered(old(jobs)@, job@),
        final(registry)@ == if storage && automatic {
            backup::registered(old(registry)@, job.id, model_id@)
        } else {
            old(registry)@
        },
{
    let id: u128 = identity::new_id();
    let now: u64 = identity::unix_now();
    let job = new_install_job(id, model_id, storage, automatic, now);
    let copy = job.copy();
    jobs.insert_job(copy);
    if storage && automatic {
        registry.register(id, model_id.to_owned());
    }
    job
}

/// The model with what the worker can do with it.
pub fn settle_entry(entry: CatalogEntry, view: &ModelView) -> (settled: CatalogEntry)
    ensures
        settled@ == (EntryView {
            runtime_capabilities: view.runtime_capabilities@,
            pipeline_class: text::opt(view.pipeline_class),
            ..entry@
        }),
{
    let mut settled = entry;
    settled.runtime_capabilities = capability::copy_list(&view.runtime_capabilities);
    settled.pipeline_class = text::copy_opt(&view.pipeline_class);
    settled
}

// ---------------------------------------------------------------------------
// The run of an installation
// ---------------------------------------------------------------------------

/// Where a run stands.
#[derive(Clone, Copy, Debug, PartialEq, Eq, Structural)]
pub enum InstallPhase {
    /// Nothing was done yet.
    Ready,
    /// The files are being looked for in the cloud store.
    Restoring,
    /// The worker fetches the files.
    Installing,
    /// The model is installed; its files are being copied to the cloud store.
    Uploading,
    /// The run is over.
    Ended,
}

/// A run of an installation.
#[derive(Debug)]
pub struct InstallRun {
    pub phase: InstallPhase,
    pub job_id: u128,
    pub storage_id: String,
    pub repository: String,
    pub revision: String,
    /// The API names of what the model is to be installed for.
    pub capabilities: Vec<String>,
    /// How large the model is said to be.
    pub size: Option<u64>,
    /// What is added to the model.
    pub options: WorkerInstallOptions,
    /// Whether only what is added to the model changes.
    pub reconfigures: bool,
    /// Whether a cloud copy is to follow.
    pub copies: bool,
    /// Whether there is a cloud store.
    pub storage: bool,
    /// Whether there is a worker.
    pub worker: bool,
}

/// What [`InstallRun`] says.
#[verifier::ext_equal]
pub struct InstallRunView {
    pub phase: InstallPhase,
    pub job_id: u128,
    pub storage_id: Seq<char>,
    pub repository: Seq<char>,
    pub revision: Seq<char>,
    pub capabilities: Seq<Seq<char>>,
    pub size: Option<u64>,
    pub options: InstallOptionsView,
    pub reconfigures: bool,
    pub copies: bool,
    pub storage: bool,
    pub worker: bool,
}

impl View for InstallRun {
    type V = InstallRunView;

    open spec fn view(&self) -> InstallRunView {
        InstallRunView {
            phase: self.phase,
            job_id: self.job_id,
            storage_id: self.storage_id@,
            repository: self.repository@,
            revision: self.revision@,
            capabilities: text::texts(self.capabilities@),
            size: self.size,
            options: self.options@,
            reconfigures: self.reconfigures,
            copies: self.copies,
            storage: self.storage,
            worker: self.worker,
        }
    }
}

/// What was fetched so far: the bytes, the part of the way to the expected size
/// in fifty-fourths, rounded down, and the numbers of gibibytes as they are shown.
#[derive(Debug)]
pub struct Fetched {
    pub bytes: u64,
    pub share: u8,
    pub received: String,
    pub expected: String,
}

/// Why a cloud copy was not made.
#[derive(Debug)]
pub struct UploadFailure {
    /// Whether the transfer ended because it was asked to.
    pub stopped: bool,
    pub cause: String,
}

/// What happened outside.
#[derive(Debug)]
pub enum InstallEvent {
    /// The run may begin.
    Begin,
    /// The cloud store was asked for the files, whatever came of it.
    Restored,
    /// Some of the files were fetched.
    Fetched(Fetched),
    /// The worker said where the model stands.
    Polled(WorkerModelStatus),
    /// The worker installed the model, or not.
    Installed(Result<WorkerModelStatus, String>),
    /// The files were copied to the cloud store, or not.
    Uploaded(Result<(), UploadFailure>),
}

/// What is to be done outside.
#[derive(Debug)]
pub enum InstallAction {
    /// Look for the files in the cloud store.
    Restore,
    /// Ask the worker to install the model.
    Install(Json),
    /// Go on waiting for the worker.
    Wait,
    /// Copy the files of a revision to the cloud store.
    Upload(String),
    /// The run is over.
    End,
    /// Nothing: the event does not fit the phase.
    Ignore,
}

/// What [`InstallAction`] says.
pub enum InstallActionView {
    Restore,
    Install(JsonView),
    Wait,
    Upload(Seq<char>),
    End,
    Ignore,
}

impl View for InstallAction {
    type V = InstallActionView;

    open spec fn view(&self) -> InstallActionView {
        match self {
            InstallAction::Restore => InstallActionView::Restore,
            InstallAction::Install(body) => InstallActionView::Install(body@),
            InstallAction::Wait => InstallActionView::Wait,
            InstallAction::Upload(revision) => InstallActionView::Upload(revision@),
            InstallAction::End => InstallActionView::End,
            InstallAction::Ignore => InstallActionView::Ignore,
        }
    }
}

/// A step of a run: the run after it, what is noted, and what is to be done.
#[verifier::ext_equal]
pub struct InstallStepView {
    pub run: InstallRunView,
    pub notes: Seq<NoteView>,
    pub action: InstallActionView,
}

/// What is noted where the work goes on.
pub open spec fn working(stage: Seq<char>, progress: u8, message: Seq<char>) -> NoteView {
    NoteView::Report(run::report_of(JobStatus::Running, stage, progress, message))
}

/// What is noted where the model is installed.
pub open spec fn done(message: Seq<char>) -> NoteView {
    NoteView::Report(run::report_of(JobStatus::Completed, "installed"@, 100, message))
}

/// How far a failed run stands: where its job was, but never at the end.
pub open spec fn last_progress(jobs: Seq<JobView>, job_id: u128) -> u8 {
    match job::place(jobs, job_id) {
        Some(at) => if jobs[at].progress < 99 {
            jobs[at].progress
        } else {
            99
        },
        None => 0,
    }
}

/// The end of a run that failed before the model was installed.
pub open spec fn install_failed(
    run: InstallRunView,
    cause: Seq<char>,
    progress: u8,
    stopped: bool,
) -> InstallStepView {
    let copy_note = if !run.copies {
        Seq::empty()
    } else if stopped {
        seq![NoteView::Backup(CloudBackupStatus::Cancelled, None)]
    } else {
        seq![
            NoteView::Backup(
                CloudBackupStatus::Failed,
                Some("CLOUD_BACKUP_FAILED: installation locale incomplète: "@ + cause),
            ),
        ]
    };
    InstallStepView {
        run: InstallRunView { phase: InstallPhase::Ended, ..run },
        notes: copy_note.push(
            NoteView::Report(
                run::report_of(
                    JobStatus::Failed,
                    "failed"@,
                    progress,
                    "Installation échouée à "@ + text::decimal(progress as nat) + "% · "@ + cause,
                ),
            ),
        ),
        action: InstallActionView::End,
    }
}

/// The body of the request to install the model.
pub open spec fn install_body(run: InstallRunView) -> JsonView {
    worker::install_body(
        run.storage_id,
        run.repository,
        run.revision,
        run.capabilities,
        run.options,
    )
}

/// What is noted where the worker begins to fetch the files.
pub open spec fn fetching() -> NoteView {
    working("downloading"@, 20, "Téléchargement atomique du snapshot Hugging Face"@)
}

/// The step of a run in the phase [`InstallPhase::Ready`].
#[verifier::opaque]
pub open spec fn on_ready(
    run: InstallRunView,
    event: InstallEvent,
    progress: u8,
    stopped: bool,
) -> InstallStepView {
    match event {
        InstallEvent::Begin => {
            let looking = working(
                "restoring_cache"@,
                5,
                "Recherche du snapshot dans le cache S3"@,
            );
            if !run.worker {
                install_failed(
                    run,
                    "VIDIOAI_WORKER_URL est obligatoire pour installer des poids IA."@,
                    progress,
                    stopped,
                )
            } else if run.storage && !run.reconfigures {
                InstallStepView {
                    run: InstallRunView { phase: InstallPhase::Restoring, ..run },
                    notes: seq![looking],
                    action: InstallActionView::Restore,
                }
            } else {
                InstallStepView {
                    run: InstallRunView { phase: InstallPhase::Installing, ..run },
                    notes: seq![looking, fetching()],
                    action: InstallActionView::Install(install_body(run)),
                }
            }
        },
        _ => ignored(run),
    }
}

/// A step that changes nothing.
pub open spec fn ignored(run: InstallRunView) -> InstallStepView {
    InstallStepView { run, notes: Seq::empty(), action: InstallActionView::Ignore }
}

/// The step of a run in the phase [`InstallPhase::Restoring`].
#[verifier::opaque]
pub open spec fn on_restoring(run: InstallRunView, event: InstallEvent) -> InstallStepView {
    match event {
        InstallEvent::Restored => InstallStepView {
            run: InstallRunView { phase: InstallPhase::Installing, ..run },
            notes: seq![fetching()],
            action: InstallActionView::Install(install_body(run)),
        },
        _ => ignored(run),
    }
}

/// How far the fetching of the files stands.
pub open spec fn fetch_progress(size: Option<u64>, share: u8) -> u8 {
    match size {
        Some(total) => if total == 0 {
            35
        } else if share < 54 {
            (20 + share) as u8
        } else {
            74
        },
        None => 35,
    }
}

/// What is noted of files that were fetched.
pub open spec fn fetch_notes(size: Option<u64>, fetched: Fetched) -> Seq<NoteView> {
    if fetched.bytes == 0 {
        Seq::empty()
    } else {
        seq![
            working(
                "downloading"@,
                fetch_progress(size, fetched.share),
                match size {
                    Some(_) => "Snapshot Hugging Face : "@ + fetched.received@ + " / "@
                        + fetched.expected@ + " Go reçus"@,
                    None => "Snapshot Hugging Face : "@ + fetched.received@
                        + " Go reçus (taille totale inconnue)"@,
                },
            ),
        ]
    }
}

/// Whether the worker prepares what a model needs.
pub open spec fn prepares(state: Seq<char>) -> bool {
    state == "RESOLVING_DEPENDENCIES"@ || state == "DOWNLOADING_DEPENDENCY"@ || state
        == "INSTALLING_DEPENDENCIES"@
}

/// What is noted where the worker has validated the files.
pub open spec fn validated_notes(status: ModelStatusView) -> Seq<NoteView> {
    let checked = seq![
        working(
            "validating_snapshot"@,
            80,
            "Snapshot et poids validés; aucun chargement GPU pendant l'installation"@,
        ),
        working(
            "resolving_dependencies"@,
            84,
            "Vérification des dépendances runtime déclarées par le snapshot"@,
        ),
    ];
    if status.runtime_dependencies.len() == 0 {
        checked
    } else {
        checked.push(
            NoteView::Dependencies("RESOLVING_DEPENDENCIES"@, status.runtime_dependencies),
        )
    }
}

/// The revision that was installed.
pub open spec fn resolved_revision(run: InstallRunView, status: ModelStatusView) -> Seq<char> {
    match status.revision {
        Some(revision) => revision,
        None => run.revision,
    }
}

/// The step of a run in the phase [`InstallPhase::Installing`].
#[verifier::opaque]
pub open spec fn on_installing(
    run: InstallRunView,
    event: InstallEvent,
    progress: u8,
    stopped: bool,
) -> InstallStepView {
    match event {
        InstallEvent::Fetched(fetched) => InstallStepView {
            run,
            notes: fetch_notes(run.size, fetched),
            action: InstallActionView::Wait,
        },
        InstallEvent::Polled(status) => InstallStepView {
            run,
            notes: if prepares(status@.state) {
                seq![NoteView::Dependencies(status@.state, status@.runtime_dependencies)]
            } else {
                Seq::empty()
            },
            action: InstallActionView::Wait,
        },
        InstallEvent::Installed(Err(cause)) => install_failed(run, cause@, progress, stopped),
        InstallEvent::Installed(Ok(status)) => if !status.installed || !status.weights_valid {
            install_failed(
                run,
                "Le worker n'a pas validé les poids téléchargés."@,
                progress,
                stopped,
            )
        } else if run.copies {
            InstallStepView {
                run: InstallRunView { phase: InstallPhase::Uploading, ..run },
                notes: validated_notes(status@).push(
                    done("Modèle installé localement; sauvegarde cloud en cours"@),
                ),
                action: InstallActionView::Upload(resolved_revision(run, status@)),
            }
        } else {
            InstallStepView {
                run: InstallRunView { phase: InstallPhase::Ended, ..run },
                notes: validated_notes(status@).push(
                    done("Modèle installé; chargement runtime disponible séparément"@),
                ),
                action: InstallActionView::End,
            }
        },
        _ => ignored(run),
    }
}

/// What became of a cloud copy: its state and why it failed.
pub open spec fn copy_outcome(result: Result<(), UploadFailure>, stopped: bool) -> (
    CloudBackupStatus,
    Option<Seq<char>>,
) {
    match result {
        Ok(_) => if stopped {
            (CloudBackupStatus::Cancelled, None)
        } else {
            (CloudBackupStatus::Completed, None)
        },
        Err(failure) => if failure.stopped {
            (CloudBackupStatus::Cancelled, None)
        } else {
            (CloudBackupStatus::Failed, Some(failure.cause@))
        },
    }
}

/// How the end of an installation with a cloud copy is told.
pub open spec fn copy_message(outcome: (CloudBackupStatus, Option<Seq<char>>)) -> Seq<char> {
    match outcome {
        (CloudBackupStatus::Completed, _) => "Modèle installé localement et sauvegarde cloud terminée"@,
        (CloudBackupStatus::Failed, Some(cause)) => {
            "Modèle installé localement; CLOUD_BACKUP_FAILED retryable: "@ + cause
                + ". La sauvegarde S3 peut être relancée séparément"@
        },
        _ => "Modèle installé localement; sauvegarde cloud annulée indépendamment"@,
    }
}

/// The step of a run in the phase [`InstallPhase::Uploading`].
#[verifier::opaque]
pub open spec fn on_uploading(run: InstallRunView, event: InstallEvent, stopped: bool) -> InstallStepView {
    match event {
        InstallEvent::Uploaded(result) => {
            let outcome = copy_outcome(result, stopped);
            InstallStepView {
                run: InstallRunView { phase: InstallPhase::Ended, ..run },
                notes: seq![
                    NoteView::Backup(outcome.0, outcome.1),
                    done(copy_message(outcome)),
                ],
                action: InstallActionView::End,
            }
        },
        _ => ignored(run),
    }
}

/// The step that follows from an event. An event that does not fit the phase
/// changes nothing.
pub open spec fn next(
    run: InstallRunView,
    event: InstallEvent,
    progress: u8,
    stopped: bool,
) -> InstallStepView {
    match run.phase {
        InstallPhase::Ready => on_ready(run, event, progress, stopped),
        InstallPhase::Restoring => on_restoring(run, event),
        InstallPhase::Installing => on_installing(run, event, progress, stopped),
        InstallPhase::Uploading => on_uploading(run, event, stopped),
        InstallPhase::Ended => ignored(run),
    }
}

/// What a run and what it says to note and to do amount to.
pub open spec fn step_of(run: InstallRun, step: (Vec<JobNote>, InstallAction)) -> InstallStepView {
    InstallStepView { run: run@, notes: note::notes_view(step.0@), action: step.1@ }
}

impl InstallRun {
    /// A run that has not begun. A model is installed for what the worker can do
    /// with it, or for what it declares where that is not known.
    pub fn new(
        job_id: u128,
        entry: &CatalogEntry,
        input: &InstallModelInput,
        copies: bool,
        storage: bool,
        worker: bool,
    ) -> (run: Self)
        ensures
            run@ == (InstallRunView {
                phase: InstallPhase::Ready,
                job_id,
                storage_id: entry@.storage_id,
                repository: entry@.repository,
                revision: entry@.revision,
                capabilities: capability::names_of(
                    if entry@.runtime_capabilities.len() == 0 {
                        entry@.capabilities
                    } else {
                        entry@.runtime_capabilities
                    },
                ),
                size: entry@.estimated_size_bytes,
                options: asked_options(*input),
                reconfigures: reconfigures(*input),
                copies,
                storage,
                worker,
            }),
    {
        let capabilities = if entry.runtime_capabilities.len() == 0 {
            capability::api_names(&entry.capabilities)
        } else {
            capability::api_names(&entry.runtime_capabilities)
        };
        InstallRun {
            phase: InstallPhase::Ready,
            job_id,
            storage_id: entry.storage_id.clone(),
            repository: entry.repository.clone(),
            revision: entry.revision.clone(),
            capabilities,
            size: entry.estimated_size_bytes,
            options: WorkerInstallOptions {
                loras: match &input.loras {
                    Some(list) => Some(json::list(json::copy_items(list))),
                    None => None,
                },
                recipe: json::copy_opt(&input.recipe),
                model_pack_candidate: json::copy_opt(&input.candidate),
            },
            reconfigures: input.loras.is_some() || input.recipe.is_some(),
            copies,
            storage,
            worker,
        }
    }

    fn body(&self) -> (body: Json)
        ensures
            body@ == install_body(self@),
    {
        worker::install_payload(
            self.storage_id.as_str(),
            self.repository.as_str(),
            self.revision.as_str(),
            &self.capabilities,
            &self.options,
        )
    }

    fn fail(&mut self, cause: &str, progress: u8, stopped: bool) -> (step: (Vec<JobNote>, InstallAction))
        ensures
            step_of(*final(self), step) == install_failed(old(self)@, cause@, progress, stopped),
    {
        let mut notes: Vec<JobNote> = Vec::new();
        assert(note::notes_view(notes@) =~= Seq::<NoteView>::empty());
        if self.copies {
            if stopped {
                note::put_backup(&mut notes, CloudBackupStatus::Cancelled, None);
            } else {
                let told = text::concat(
                    "CLOUD_BACKUP_FAILED: installation locale incomplète: ",
                    cause,
                );
                note::put_backup(&mut notes, CloudBackupStatus::Failed, Some(told));
            }
        }
        let number = text::decimal_text(progress as u64);
        let message = text::concat4("Installation échouée à ", number.as_str(), "% · ", cause);
        note::put_report(&mut notes, JobStatus::Failed, "failed", progress, message.as_str());
        self.phase = InstallPhase::Ended;
        assert(note::notes_view(notes@) =~= install_failed(
            old(self)@,
            cause@,
            progress,
            stopped,
        ).notes);
        (notes, InstallAction::End)
    }

    fn ready(&mut self, event: InstallEvent, progress: u8, stopped: bool) -> (step: (
        Vec<JobNote>,
        InstallAction,
    ))
        requires
            old(self).phase == InstallPhase::Ready,
        ensures
            step_of(*final(self), step) == on_ready(old(self)@, event, progress, stopped),
    {
        reveal(on_ready);
        let mut notes: Vec<JobNote> = Vec::new();
        assert(note::notes_view(notes@) =~= Seq::<NoteView>::empty());
        match event {
            InstallEvent::Begin => {
                if !self.worker {
                    return self.fail(
                        "VIDIOAI_WORKER_URL est obligatoire pour installer des poids IA.",
                        progress,
                        stopped,
                    );
                }
                note::put_report(
                    &mut notes,
                    JobStatus::Running,
                    "restoring_cache",
                    5,
                    "Recherche du snapshot dans le cache S3",
                );
                if self.storage && !self.reconfigures {
                    self.phase = InstallPhase::Restoring;
                    return (notes, InstallAction::Restore);
                }
                note::put_report(
                    &mut notes,
                    JobStatus::Running,
                    "downloading",
                    20,
                    "Téléchargement atomique du snapshot Hugging Face",
                );
                let body = self.body();
                self.phase = InstallPhase::Installing;
                (notes, InstallAction::Install(body))
            },
            _ => (notes, InstallAction::Ignore),
        }
    }

    fn restoring(&mut self, event: InstallEvent) -> (step: (Vec<JobNote>, InstallAction))
        requires
            old(self).phase == InstallPhase::Restoring,
        ensures
            step_of(*final(self), step) == on_restoring(old(self)@, event),
    {
        reveal(on_restoring);
        let mut notes: Vec<JobNote> = Vec::new();
        assert(note::notes_view(notes@) =~= Seq::<NoteView>::empty());
        match event {
            InstallEvent::Restored => {
                note::put_report(
                    &mut notes,
                    JobStatus::Running,
                    "downloading",
                    20,
                    "Téléchargement atomique du snapshot Hugging Face",
                );
                let body = self.body();
                self.phase = InstallPhase::Installing;
                (notes, InstallAction::Install(body))
            },
            _ => (notes, InstallAction::Ignore),
        }
    }

    fn note_fetched(&self, fetched: &Fetched) -> (notes: Vec<JobNote>)
        ensures
            note::notes_view(notes@) == fetch_notes(self@.size, *fetched),
    {
        let mut notes: Vec<JobNote> = Vec::new();
        assert(note::notes_view(notes@) =~= Seq::<NoteView>::empty());
        if fetched.bytes > 0 {
            let progress: u8 = match self.size {
                Some(total) => if total == 0 {
                    35
                } else if fetched.share < 54 {
                    20 + fetched.share
                } else {
                    74
                },
                None => 35,
            };
            let message = match self.size {
                Some(_) => {
                    let head = text::concat3(
                        "Snapshot Hugging Face : ",
                        fetched.received.as_str(),
                        " / ",
                    );
                    text::concat3(head.as_str(), fetched.expected.as_str(), " Go reçus")
                },
                None => text::concat3(
                    "Snapshot Hugging Face : ",
                    fetched.received.as_str(),
                    " Go reçus (taille totale inconnue)",
                ),
            };
            note::put_report(
                &mut notes,
                JobStatus::Running,
                "downloading",
                progress,
                message.as_str(),
            );
        }
        notes
    }

    fn note_validated(&self, status: &WorkerModelStatus) -> (notes: Vec<JobNote>)
        ensures
            note::notes_view(notes@) == validated_notes(status@),
    {
        let mut notes: Vec<JobNote> = Vec::new();
        assert(note::notes_view(notes@) =~= Seq::<NoteView>::empty());
        note::put_report(
            &mut notes,
            JobStatus::Running,
            "validating_snapshot",
            80,
            "Snapshot et poids validés; aucun chargement GPU pendant l'installation",
        );
        note::put_report(
            &mut notes,
            JobStatus::Running,
            "resolving_dependencies",
            84,
            "Vérification des dépendances runtime déclarées par le snapshot",
        );
        if status.runtime_dependencies.len() > 0 {
            note::put_dependencies(
                &mut notes,
                "RESOLVING_DEPENDENCIES",
                &status.runtime_dependencies,
            );
        }
        assert(note::notes_view(notes@) =~= validated_notes(status@));
        notes
    }

    fn installing(&mut self, event: InstallEvent, progress: u8, stopped: bool) -> (step: (
        Vec<JobNote>,
        InstallAction,
    ))
        requires
            old(self).phase == InstallPhase::Installing,
        ensures
            step_of(*final(self), step) == on_installing(old(self)@, event, progress, stopped),
    {
        reveal(on_installing);
        let mut notes: Vec<JobNote> = Vec::new();
        assert(note::notes_view(notes@) =~= Seq::<NoteView>::empty());
        match event {
            InstallEvent::Fetched(fetched) => (self.note_fetched(&fetched), InstallAction::Wait),
            InstallEvent::Polled(status) => {
                if *status.state.as_str() == *"RESOLVING_DEPENDENCIES" || *status.state.as_str()
                    == *"DOWNLOADING_DEPENDENCY" || *status.state.as_str()
                    == *"INSTALLING_DEPENDENCIES" {
                    note::put_dependencies(
                        &mut notes,
                        status.state.as_str(),
                        &status.runtime_dependencies,
                    );
                }
                (notes, InstallAction::Wait)
            },
            InstallEvent::Installed(outcome) => match outcome {
                Err(cause) => self.fail(cause.as_str(), progress, stopped),
                Ok(status) => {
                    if !status.installed || !status.weights_valid {
                        return self.fail(
                            "Le worker n'a pas validé les poids téléchargés.",
                            progress,
                            stopped,
                        );
                    }
                    let mut told = self.note_validated(&status);
                    if self.copies {
                        note::put_report(
                            &mut told,
                            JobStatus::Completed,
                            "installed",
                            100,
                            "Modèle installé localement; sauvegarde cloud en cours",
                        );
                        let revision = match &status.revision {
                            Some(found) => found.clone(),
                            None => self.revision.clone(),
                        };
                        self.phase = InstallPhase::Uploading;
                        return (told, InstallAction::Upload(revision));
                    }
                    note::put_report(
                        &mut told,
                        JobStatus::Completed,
                        "installed",
                        100,
                        "Modèle installé; chargement runtime disponible séparément",
                    );
                    self.phase = InstallPhase::Ended;
                    (told, InstallAction::End)
                },
            },
            _ => (notes, InstallAction::Ignore),
        }
    }

    fn uploading(&mut self, event: InstallEvent, stopped: bool) -> (step: (
        Vec<JobNote>,
        InstallAction,
    ))
        requires
            old(self).phase == InstallPhase::Uploading,
        ensures
            step_of(*final(self), step) == on_uploading(old(self)@, event, stopped),
    {
        reveal(on_uploading);
        let mut notes: Vec<JobNote> = Vec::new();
        assert(note::notes_view(notes@) =~= Seq::<NoteView>::empty());
        match event {
            InstallEvent::Uploaded(result) => {
                let message = match result {
                    Ok(_) => {
                        if stopped {
                            note::put_backup(&mut notes, CloudBackupStatus::Cancelled, None);
                            "Modèle installé localement; sauvegarde cloud annulée indépendamment".to_owned()
                        } else {
                            note::put_backup(&mut notes, CloudBackupStatus::Completed, None);
                            "Modèle installé localement et sauvegarde cloud terminée".to_owned()
                        }
                    },
                    Err(failure) => {
                        if failure.stopped {
                            note::put_backup(&mut notes, CloudBackupStatus::Cancelled, None);
                            "Modèle installé localement; sauvegarde cloud annulée indépendamment".to_owned()
                        } else {
                            let told = text::concat3(
                                "Modèle installé localement; CLOUD_BACKUP_FAILED retryable: ",
                                failure.cause.as_str(),
                                ". La sauvegarde S3 peut être relancée séparément",
                            );
                            note::put_backup(
                                &mut notes,
                                CloudBackupStatus::Failed,
                                Some(failure.cause),
                            );
                            told
                        }
                    },
                };
                note::put_report(
                    &mut notes,
                    JobStatus::Completed,
                    "installed",
                    100,
                    message.as_str(),
                );
                self.phase = InstallPhase::Ended;
                (notes, InstallAction::End)
            },
            _ => (notes, InstallAction::Ignore),
        }
    }

    /// Takes the step that follows from an event.
    pub fn step(&mut self, event: InstallEvent, jobs: &Jobs, registry: &BackupCancellationRegistry) -> (step:
        (Vec<JobNote>, InstallAction))
        ensures
            step_of(*final(self), step) == next(
                old(self)@,
                event,
                last_progress(jobs@, old(self).job_id),
                backup::asked_to_stop(registry@, old(self).job_id),
            ),
    {
        let progress: u8 = match jobs.find(self.job_id) {
            Some(at) => {
                let reached: u8 = jobs.list[at].progress;
                if reached < 99 {
                    reached
                } else {
                    99
                }
            },
            None => 0,
        };
        let stopped = registry.is_cancelled(self.job_id);
        match self.phase {
            InstallPhase::Ready => self.ready(event, progress, stopped),
            InstallPhase::Restoring => self.restoring(event),
            InstallPhase::Installing => self.installing(event, progress, stopped),
            InstallPhase::Uploading => self.uploading(event, stopped),
            InstallPhase::Ended => {
                let notes: Vec<JobNote> = Vec::new();
                assert(note::notes_view(notes@) =~= Seq::<NoteView>::empty());
                (notes, InstallAction::Ignore)
            },
        }
    }
}

// ---------------------------------------------------------------------------
// Copying an installed model to the cloud store
// ---------------------------------------------------------------------------

/// Why an installed model cannot be copied to the cloud store before the worker
/// is asked, if it cannot: there is no store, it is an engine of this service, or
/// there is no worker.
pub open spec fn copy_refusal(storage: bool, local: bool, worker: bool) -> Option<(u16, Seq<char>)> {
    if !storage {
        Some((error::CONFLICT, "Le cache S3 est désactivé."@))
    } else if local {
        Some(
            (
                error::CONFLICT,
                "Les moteurs procéduraux ne possèdent pas de snapshot à publier."@,
            ),
        )
    } else if !worker {
        Some((error::SERVICE_UNAVAILABLE, "Le worker GPU n'est pas configuré."@))
    } else {
        None
    }
}

/// Refuses to copy a model that cannot be.
pub fn admit_copy(storage: bool, local: bool, worker: bool) -> (result: Result<(), ApiError>)
    ensures
        pack::refused(result) == copy_refusal(storage, local, worker),
{
    if !storage {
        return Err(ApiError::conflict("Le cache S3 est désactivé.".to_owned()));
    }
    if local {
        return Err(
            ApiError::conflict(
                "Les moteurs procéduraux ne possèdent pas de snapshot à publier.".to_owned(),
            ),
        );
    }
    if !worker {
        return Err(ApiError::unavailable("Le worker GPU n'est pas configuré.".to_owned()));
    }
    Ok(())
}

/// The revision of an installed model that is to be copied, or why there is none.
pub open spec fn copied_revision(
    answer: Result<ModelStatusView, Seq<char>>,
    recorded: Option<Seq<char>>,
) -> Result<Seq<char>, (u16, Seq<char>)> {
    match answer {
        Err(cause) => Err((error::SERVICE_UNAVAILABLE, cause)),
        Ok(status) => if !status.installed || !status.weights_valid {
            Err(
                (
                    error::CONFLICT,
                    "Le snapshot local doit être installé et validé avant sa sauvegarde S3."@,
                ),
            )
        } else {
            match status.revision {
                Some(revision) => Ok(revision),
                None => match recorded {
                    Some(revision) => Ok(revision),
                    None => Err(absent_refusal()),
                },
            }
        },
    }
}

/// What a revision, or its refusal, says.
pub open spec fn revision_outcome(result: Result<String, ApiError>) -> Result<
    Seq<char>,
    (u16, Seq<char>),
> {
    match result {
        Ok(revision) => Ok(revision@),
        Err(refusal) => Err(error::says(refusal)),
    }
}

/// The revision of an installed model that is to be copied: the one that the worker
/// tells, else the one that the disk records. The catalogue is not asked.
pub fn choose_copied_revision(
    answer: Result<WorkerModelStatus, String>,
    recorded: Option<&str>,
) -> (result: Result<String, ApiError>)
    ensures
        revision_outcome(result) == copied_revision(
            match answer {
                Ok(status) => Ok(status@),
                Err(cause) => Err(cause@),
            },
            text::opt_str(recorded),
        ),
{
    match answer {
        Err(cause) => Err(ApiError::unavailable(cause)),
        Ok(status) => {
            if !status.installed || !status.weights_valid {
                return Err(
                    ApiError::conflict(
                        "Le snapshot local doit être installé et validé avant sa sauvegarde S3.".to_owned(),
                    ),
                );
            }
            match status.revision {
                Some(revision) => Ok(revision),
                None => match recorded {
                    Some(revision) => Ok(revision.to_owned()),
                    None => Err(
                        ApiError::conflict("Le snapshot local validé est absent.".to_owned()),
                    ),
                },
            }
        },
    }
}

/// The job of a cloud copy.
pub open spec fn copy_job(id: u128, model_id: Seq<char>, now: u64) -> JobView {
    JobView {
        progress: 90,
        cache_status: Some("CACHE_PENDING"@),
        cloud_backup_status: CloudBackupStatus::Pending,
        ..job::queued_job(
            id,
            JobKind::CacheModel,
            model_id,
            Some(model_id),
            None,
            "saving_cache"@,
            "Sauvegarde dans le cache S3"@,
            now,
        )
    }
}

/// The job of a cloud copy.
pub fn new_copy_job(id: u128, model_id: &str, now: u64) -> (job: Job)
    ensures
        job@ == copy_job(id, model_id@, now),
{
    let mut job = job::new_job(
        id,
        JobKind::CacheModel,
        model_id.to_owned(),
        Some(model_id.to_owned()),
        None,
        "saving_cache",
        "Sauvegarde dans le cache S3",
        now,
    );
    job.progress = 90;
    job.cache_status = Some("CACHE_PENDING".to_owned());
    job.cloud_backup_status = CloudBackupStatus::Pending;
    job
}

/// What is said where the files of a model are not there.
pub open spec fn absent_refusal() -> (u16, Seq<char>) {
    (error::CONFLICT, "Le snapshot local validé est absent."@)
}

/// Enters the job of a cloud copy now, under a fresh identifier, and returns it;
/// the copy can be stopped from then on. `present` tells whether the files of the
/// model are there.
pub fn cache_model(
    jobs: &mut Jobs,
    registry: &mut BackupCancellationRegistry,
    model_id: &str,
    present: bool,
) -> (result: Result<Job, ApiError>)
    requires
        old(jobs).wf(),
        old(registry).wf(),
    ensures
        final(jobs).wf(),
        final(registry).wf(),
        match result {
            Ok(job) => {
                &&& present
                &&& job@ == copy_job(job.id, model_id@, job.created_at)
                &&& final(jobs)@ == job::entered(old(jobs)@, job@)
                &&& final(registry)@ == backup::registered(old(registry)@, job.id, model_id@)
            },
            Err(refusal) => !present && *final(jobs) == *old(jobs) && *final(registry) == *old(
                registry,
            ) && error::says(refusal) == absent_refusal(),
        },
{
    if !present {
        return Err(ApiError::conflict("Le snapshot local validé est absent.".to_owned()));
    }
    let id: u128 = identity::new_id();
    let now: u64 = identity::unix_now();
    let job = new_copy_job(id, model_id, now);
    let copy = job.copy();
    jobs.insert_job(copy);
    registry.register(id, model_id.to_owned());
    Ok(job)
}

/// How far a failed copy stands: where its job was, but never at the end.
pub open spec fn copy_progress(jobs: Seq<JobView>, job_id: u128) -> u8 {
    match job::place(jobs, job_id) {
        Some(at) => if jobs[at].progress < 99 {
            jobs[at].progress
        } else {
            99
        },
        None => 90,
    }
}

/// What is noted at the end of a cloud copy.
pub open spec fn copy_notes(result: Result<(), UploadFailure>, stopped: bool, progress: u8) -> Seq<
    NoteView,
> {
    let outcome = copy_outcome(result, stopped);
    let told = match outcome {
        (CloudBackupStatus::Completed, _) => run::report_of(
            JobStatus::Completed,
            "installed"@,
            100,
            "Cache S3 validé; aucun téléchargement Hugging Face n'a été relancé"@,
        ),
        (CloudBackupStatus::Failed, Some(cause)) => run::report_of(
            JobStatus::Failed,
            "saving_cache"@,
            progress,
            "CACHE_FAILED retryable: "@ + cause,
        ),
        _ => run::report_of(
            JobStatus::Cancelled,
            "cloud_backup_cancelled"@,
            100,
            "Sauvegarde cloud annulée; le snapshot local reste valide"@,
        ),
    };
    seq![NoteView::Backup(outcome.0, outcome.1), NoteView::Report(told)]
}

/// Says what is to be noted at the end of a cloud copy.
pub fn finish_copy(
    job_id: u128,
    result: Result<(), UploadFailure>,
    jobs: &Jobs,
    registry: &BackupCancellationRegistry,
) -> (notes: Vec<JobNote>)
    ensures
        note::notes_view(notes@) == copy_notes(
            result,
            backup::asked_to_stop(registry@, job_id),
            copy_progress(jobs@, job_id),
        ),
{
    let mut notes: Vec<JobNote> = Vec::new();
    assert(note::notes_view(notes@) =~= Seq::<NoteView>::empty());
    let stopped = match &result {
        Ok(_) => registry.is_cancelled(job_id),
        Err(failure) => failure.stopped,
    };
    if stopped {
        note::put_backup(&mut notes, CloudBackupStatus::Cancelled, None);
        note::put_report(
            &mut notes,
            JobStatus::Cancelled,
            "cloud_backup_cancelled",
            100,
            "Sauvegarde cloud annulée; le snapshot local reste valide",
        );
        return notes;
    }
    match result {
        Ok(_) => {
            note::put_backup(&mut notes, CloudBackupStatus::Completed, None);
            note::put_report(
                &mut notes,
                JobStatus::Completed,
                "installed",
                100,
                "Cache S3 validé; aucun téléchargement Hugging Face n'a été relancé",
            );
        },
        Err(failure) => {
            let message = text::concat("CACHE_FAILED retryable: ", failure.cause.as_str());
            let progress: u8 = match jobs.find(job_id) {
                Some(at) => {
                    let reached: u8 = jobs.list[at].progress;
                    if reached < 99 {
                        reached
                    } else {
                        99
                    }
                },
                None => 90,
            };
            note::put_backup(&mut notes, CloudBackupStatus::Failed, Some(failure.cause));
            note::put_report(
                &mut notes,
                JobStatus::Failed,
                "saving_cache",
                progress,
                message.as_str(),
            );
        },
    }
    notes
}

// ---------------------------------------------------------------------------
// Laws
// ---------------------------------------------------------------------------

/// A model that is installed stays installed whatever becomes of its cloud copy:
/// once the files are being copied, no step of the run takes its job out of the
/// completed state, and the run ends with the job completed.
pub proof fn law_cloud_copies_never_undo_an_installation(
    run: InstallRunView,
    event: InstallEvent,
    progress: u8,
    stopped: bool,
    job: JobView,
    now: u64,
)
    requires
        run.phase == InstallPhase::Uploading,
        job.status == JobStatus::Completed,
    ensures
        ({
            let step = next(run, event, progress, stopped);
            let after = note::noted_all(job, step.notes, now);
            &&& after.status == JobStatus::Completed
            &&& step.run.phase == InstallPhase::Ended ==> after.progress == 100 && after.stage
                == "installed"@
        }),
{
    reveal(on_uploading);
    let step = next(run, event, progress, stopped);
    match event {
        InstallEvent::Uploaded(_) => {
            assert(step.notes.len() == 2);
            assert(step.notes.drop_last().drop_last() =~= Seq::<NoteView>::empty());
            reveal_with_fuel(note::noted_all, 3);
        },
        _ => {
            assert(step.notes =~= Seq::<NoteView>::empty());
        },
    }
}

/// A run says that a model is installed only where the worker has validated its
/// files: no other event completes the job.
pub proof fn law_only_validated_models_are_installed(
    run: InstallRunView,
    event: InstallEvent,
    progress: u8,
    stopped: bool,
    i: int,
)
    requires
        run.phase != InstallPhase::Uploading,
        0 <= i < next(run, event, progress, stopped).notes.len(),
        next(run, event, progress, stopped).notes[i] matches NoteView::Report(report)
            && report.status == JobStatus::Completed,
    ensures
        event matches InstallEvent::Installed(Ok(status)) && status.installed
            && status.weights_valid,
{
    reveal(on_ready);
    reveal(on_restoring);
    reveal(on_installing);
}

/// A run that is over stays over, and a run begins once.
pub proof fn law_runs_go_forward(
    run: InstallRunView,
    event: InstallEvent,
    progress: u8,
    stopped: bool,
)
    ensures
        ({
            let after = next(run, event, progress, stopped).run;
            &&& run.phase == InstallPhase::Ended ==> after == run
            &&& run.phase != InstallPhase::Ready ==> after.phase != InstallPhase::Ready
            &&& run.phase == InstallPhase::Uploading ==> after.phase == InstallPhase::Uploading
                || after.phase == InstallPhase::Ended
            &&& after.job_id == run.job_id && after.storage_id == run.storage_id
                && after.repository == run.repository && after.revision == run.revision
        }),
{
    reveal(on_ready);
    reveal(on_restoring);
    reveal(on_installing);
    reveal(on_uploading);
}

/// While the files are fetched, the job stands between a fifth and three
/// quarters of the way.
pub proof fn law_fetching_is_bounded(size: Option<u64>, share: u8)
    ensures
        20 <= fetch_progress(size, share) <= 74,
{
}

/// A failed installation never stands at the end.
pub proof fn law_failures_stand_before_the_end(jobs: Seq<JobView>, job_id: u128)
    ensures
        last_progress(jobs, job_id) <= 99,
        copy_progress(jobs, job_id) <= 99,
{
}

/// A model is installed at the revision that was asked for, which is the published
/// one unless only what is added to an installed one changes, and in the store of
/// the trial where there is one; the rest of it stays.
pub proof fn law_installations_are_those_asked_for(
    entry: EntryView,
    input: InstallModelInput,
    installed: Option<Seq<char>>,
)
    ensures
        prepared(entry, input, installed) matches Ok(model) ==> {
            &&& input.revision matches Some(asked) ==> model.revision == asked@ && (asked@
                == entry.revision || ((input.loras is Some || input.recipe is Some) && installed
                == Some(asked@)))
            &&& input.revision is None ==> model.revision == entry.revision
            &&& input.candidate is None ==> model.storage_id == entry.storage_id
            &&& input.candidate matches Some(trial) ==> (trial@.text_member("lab_storage_id"@)
                matches Some(name) ==> model.storage_id == name && text::opens(name, "lab-"@))
            &&& model.id == entry.id && model.repository == entry.repository && model.capabilities
                == entry.capabilities
        },
        input.revision is None && input.candidate is None ==> prepared(entry, input, installed)
            is Ok,
        input.revision is Some && input.revision->0@ != entry.revision && input.loras is None
            && input.recipe is None ==> prepared(entry, input, installed) is Err,
        input.candidate matches Some(trial) ==> (trial@.text_member("lab_storage_id"@) matches Some(
            name,
        ) ==> !text::opens(name, "lab-"@) ==> (prepared(entry, input, installed) matches Err(
            refusal,
        ) && refusal.0 == 400)),
{
}

/// A model that is installed and up to date is not installed again, unless what is
/// added to it changes.
pub proof fn law_installed_models_are_left_alone(view: ModelView, input: InstallModelInput)
    ensures
        presence_refusal(view, input) is Some <==> view.installed && !view.update_available
            && input.loras is None && input.recipe is None,
        presence_refusal(view, input) matches Some(refusal) ==> refusal.0 == 409,
{
}

/// A model is refused where its files may not be read, and outside of a trial where
/// it cannot be run or does not fit.
pub proof fn law_installations_are_refused_for_a_reason(
    entry: EntryView,
    view: ModelView,
    trial: bool,
)
    ensures
        install_refusal(entry, view, trial) is None <==> {
            &&& !((entry.gated || entry.private) && entry.access_checked
                && !entry.access_authorized)
            &&& trial || (view.runtime_compatibility@ != "UNSUPPORTED"@ && entry.quality_valid
                && view.compatible)
        },
        (entry.gated || entry.private) && entry.access_checked && !entry.access_authorized ==> (
        install_refusal(entry, view, trial) matches Some(refusal) && refusal.0 == 401),
{
}

/// A copy follows an installation by itself where the setting says so.
pub proof fn law_the_setting_decides_on_copies(setting: Option<Seq<char>>)
    ensures
        setting is None ==> !copies_by_itself(setting),
        setting matches Some(value) ==> (copies_by_itself(setting) <==> {
            let word = text::lower(text::trimmed(value));
            word == "1"@ || word == "true"@ || word == "yes"@ || word == "on"@
        }),
{
}

/// The job of an installation names the model and waits, and says whether a copy
/// is to follow.
pub proof fn law_installations_name_their_model(
    id: u128,
    model_id: Seq<char>,
    storage: bool,
    automatic: bool,
    now: u64,
)
    ensures
        ({
            let job = install_job(id, model_id, storage, automatic, now);
            &&& job.id == id && job.kind == JobKind::InstallModel && job.target_id == model_id
                && job.model_id == Some(model_id)
            &&& job.status == JobStatus::Queued && job.progress == 0 && job.created_at == now
            &&& storage && automatic ==> job.cloud_backup_status == CloudBackupStatus::Pending
                && job.cache_status == Some("CACHE_PENDING"@)
            &&& !(storage && automatic) ==> job.cloud_backup_status
                == CloudBackupStatus::NotRequested
            &&& storage && !automatic ==> job.cache_status == Some("CACHE_MANUAL"@)
            &&& !storage ==> job.cache_status is None
        }),
        ({
            let job = copy_job(id, model_id, now);
            &&& job.id == id && job.kind == JobKind::CacheModel && job.target_id == model_id
                && job.model_id == Some(model_id)
            &&& job.status == JobStatus::Queued && job.progress == 90
            &&& job.cloud_backup_status == CloudBackupStatus::Pending
        }),
{
}

/// An installation asks the worker for the model, its revision and what is added to
/// it, after it has looked in the cloud store where there is one; without a worker
/// it fails.
#[verifier::spinoff_prover]
pub proof fn law_installations_ask_the_worker(
    run: InstallRunView,
    event: InstallEvent,
    progress: u8,
    stopped: bool,
)
    ensures
        ({
            let step = next(run, event, progress, stopped);
            &&& run.phase == InstallPhase::Ready && event is Begin ==> {
                &&& !run.worker ==> step.run.phase == InstallPhase::Ended && step.action is End
                &&& run.worker && run.storage && !run.reconfigures ==> step.action is Restore
                    && step.run.phase == InstallPhase::Restoring
                &&& run.worker && (!run.storage || run.reconfigures) ==> step.action is Install
                    && step.run.phase == InstallPhase::Installing
            }
            &&& run.phase == InstallPhase::Restoring && event is Restored ==> step.action is Install
                && step.run.phase == InstallPhase::Installing
            &&& step.action matches InstallActionView::Install(body) ==> body.text_member(
                "model_id"@,
            ) == Some(run.storage_id) && body.text_member("repository"@) == Some(run.repository)
                && body.text_member("revision"@) == Some(run.revision) && body.member("loras"@)
                == run.options.loras && body.member("recipe"@) == run.options.recipe
                && body.member("model_pack_candidate"@) == run.options.model_pack_candidate
            &&& step.action is Ignore ==> step.run == run && step.notes.len() == 0
            &&& step.run.repository == run.repository && step.run.revision == run.revision
                && step.run.storage_id == run.storage_id && step.run.copies == run.copies
        }),
{
    reveal(on_ready);
    reveal(on_restoring);
    reveal(on_installing);
    reveal(on_uploading);
    worker::law_installations_are_told_in_full(
        run.storage_id,
        run.repository,
        run.revision,
        run.capabilities,
        run.options,
    );
}

/// A model has been installed where the worker says so and found its weights valid;
/// then it is copied where a copy is to follow, at the revision that the worker
/// names. Anything else is told as a failure, with its cause and where it stood.
#[verifier::spinoff_prover]
pub proof fn law_installations_tell_how_they_end(
    run: InstallRunView,
    status: WorkerModelStatus,
    cause: String,
    progress: u8,
    stopped: bool,
)
    requires
        run.phase == InstallPhase::Installing,
    ensures
        ({
            let step = next(run, InstallEvent::Installed(Ok(status)), progress, stopped);
            let valid = status.installed && status.weights_valid;
            &&& valid ==> (step.notes.last() matches NoteView::Report(report) && report.status
                == JobStatus::Completed && report.progress == 100)
            &&& valid && !run.copies ==> step.action is End && step.run.phase == InstallPhase::Ended
            &&& valid && run.copies ==> step.run.phase == InstallPhase::Uploading && (
            status@.revision matches Some(found) ==> step.action == InstallActionView::Upload(
                found,
            )) && (status@.revision is None ==> step.action == InstallActionView::Upload(
                run.revision,
            ))
            &&& !valid ==> step.run.phase == InstallPhase::Ended && (step.notes.last()
                matches NoteView::Report(report) && report.status == JobStatus::Failed)
        }),
        ({
            let step = next(run, InstallEvent::Installed(Err(cause)), progress, stopped);
            &&& step.run.phase == InstallPhase::Ended && step.action is End
            &&& step.notes.last() matches NoteView::Report(report) && report.status
                == JobStatus::Failed && report.progress == progress && report.message
                == "Installation échouée à "@ + text::decimal(progress as nat) + "% · "@ + cause@
            &&& run.copies && stopped ==> step.notes.len() == 2 && (step.notes[0]
                matches NoteView::Backup(state, none) && state == CloudBackupStatus::Cancelled)
            &&& run.copies && !stopped ==> step.notes.len() == 2 && (step.notes[0]
                matches NoteView::Backup(state, none) && state == CloudBackupStatus::Failed)
            &&& !run.copies ==> step.notes.len() == 1
        }),
{
    reveal(on_installing);
}

/// A copy that succeeds is complete, unless it was told to stop; one that fails has
/// failed with its cause, unless it was told to stop. The installation has completed
/// either way.
#[verifier::spinoff_prover]
pub proof fn law_copies_tell_how_they_end(
    run: InstallRunView,
    result: Result<(), UploadFailure>,
    progress: u8,
    stopped: bool,
)
    ensures
        ({
            let (state, told) = copy_outcome(result, stopped);
            &&& result is Ok && !stopped ==> state == CloudBackupStatus::Completed && told is None
            &&& result is Ok && stopped ==> state == CloudBackupStatus::Cancelled && told is None
            &&& result matches Err(failure) ==> (failure.stopped ==> state
                == CloudBackupStatus::Cancelled && told is None) && (!failure.stopped ==> state
                == CloudBackupStatus::Failed && told == Some(failure.cause@))
        }),
        run.phase == InstallPhase::Uploading ==> {
            let step = next(run, InstallEvent::Uploaded(result), progress, stopped);
            &&& step.run.phase == InstallPhase::Ended && step.notes.len() == 2
            &&& step.notes[0] == NoteView::Backup(
                copy_outcome(result, stopped).0,
                copy_outcome(result, stopped).1,
            )
            &&& step.notes[1] matches NoteView::Report(report) && report.status
                == JobStatus::Completed && report.progress == 100
        },
{
    reveal(on_uploading);
}

/// While the worker fetches files the progress is the share that is there, from 20
/// to 74 percent, and 35 where the whole is not known; nothing is told before there
/// is something.
pub proof fn law_fetching_is_told(size: Option<u64>, share: u8, fetched: Fetched)
    ensures
        size is None ==> fetch_progress(size, share) == 35,
        size matches Some(total) ==> total > 0 ==> (share <= 54 ==> fetch_progress(size, share) == 20
            + share) && (share > 54 ==> fetch_progress(size, share) == 74),
        fetched.bytes == 0 ==> fetch_notes(size, fetched).len() == 0,
        fetched.bytes > 0 ==> fetch_notes(size, fetched).len() == 1 && (fetch_notes(size, fetched)[0]
            matches NoteView::Report(report) && report.status == JobStatus::Running
            && report.progress == fetch_progress(size, fetched.share)),
{
}

/// A copy is taken on for a store that is in use, of a model that is not an engine
/// of this service, and with a worker.
pub proof fn law_copies_are_admitted(storage: bool, local: bool, worker: bool)
    ensures
        copy_refusal(storage, local, worker) is None <==> storage && !local && worker,
        storage && !local && !worker ==> (copy_refusal(storage, local, worker) matches Some(refusal)
            && refusal.0 == 503),
        !storage || local ==> (copy_refusal(storage, local, worker) matches Some(refusal)
            && refusal.0 == 409),
{
}

/// What is copied is what is there: the revision that the worker names, else the
/// recorded one, of a model whose weights it found valid.
pub proof fn law_what_is_installed_is_copied(
    answer: Result<ModelStatusView, Seq<char>>,
    recorded: Option<Seq<char>>,
)
    ensures
        copied_revision(answer, recorded) matches Ok(revision) ==> (answer matches Ok(status)
            && status.installed && status.weights_valid && (status.revision matches Some(named)
            ==> revision == named) && (status.revision is None ==> recorded == Some(revision))),
        answer matches Err(cause) ==> (copied_revision(answer, recorded) matches Err(refusal)
            && refusal.0 == 503 && refusal.1 == cause),
        answer is Ok && answer->Ok_0.installed && answer->Ok_0.weights_valid && (
        answer->Ok_0.revision is Some || recorded is Some) ==> copied_revision(answer, recorded)
            is Ok,
{
}

/// A copy of its own ends completed, failed with its cause where it stood, or
/// cancelled, and its job says the same of the copy.
pub proof fn law_copies_of_their_own_tell_how_they_end(
    result: Result<(), UploadFailure>,
    stopped: bool,
    progress: u8,
)
    ensures
        ({
            let notes = copy_notes(result, stopped, progress);
            &&& notes.len() == 2
            &&& result is Ok && !stopped ==> notes[0] == NoteView::Backup(
                CloudBackupStatus::Completed,
                None,
            ) && (notes[1] matches NoteView::Report(report) && report.status == JobStatus::Completed
                && report.progress == 100)
            &&& result matches Err(failure) ==> !failure.stopped ==> notes[0] == NoteView::Backup(
                CloudBackupStatus::Failed,
                Some(failure.cause@),
            ) && (notes[1] matches NoteView::Report(report) && report.status == JobStatus::Failed
                && report.progress == progress && report.message == "CACHE_FAILED retryable: "@
                + failure.cause@)
            &&& (result is Ok && stopped) || (result is Err && result->Err_0.stopped) ==> notes[0]
                == NoteView::Backup(CloudBackupStatus::Cancelled, None) && (notes[1]
                matches NoteView::Report(report) && report.status == JobStatus::Cancelled)
        }),
{
}

} // verus!
