//! The models of the cloud store: which there are, and restoring them.
use crate::digest;
use crate::error;
use crate::error::ApiError;
use crate::identity;
use crate::installed;
use crate::job;
use crate::job::{Job, JobKind, JobStatus, JobView, Jobs, TransferReport, TransferView};
use crate::json;
use crate::json::{Json, JsonView};
use crate::note;
use crate::note::{JobNote, NoteView};
use crate::pack;
use crate::run;
use crate::text;
use crate::worker;
use crate::worker::{WorkerInstallOptions, WorkerModelStatus};
use vstd::prelude::*;
use vstd::string::*;

verus! {

/// A file of a snapshot.
#[derive(Debug)]
pub struct SnapshotFile {
    pub path: String,
    pub size: u64,
    pub sha256: Option<String>,
}

/// What [`SnapshotFile`] says.
#[verifier::ext_equal]
pub struct SnapshotFileView {
    pub path: Seq<char>,
    pub size: u64,
    pub sha256: Option<Seq<char>>,
}

impl View for SnapshotFile {
    type V = SnapshotFileView;

    open spec fn view(&self) -> SnapshotFileView {
        SnapshotFileView {
            path: self.path@,
            size: self.size,
            sha256: text::opt(self.sha256),
        }
    }
}

impl SnapshotFile {
    /// A copy of the value.
    pub fn copy(&self) -> (copy: Self)
        ensures
            copy@ == self@,
    {
        SnapshotFile {
            path: self.path.clone(),
            size: self.size,
            sha256: text::copy_opt(&self.sha256),
        }
    }
}

/// What a list of files says.
pub open spec fn files_view(files: Seq<SnapshotFile>) -> Seq<SnapshotFileView> {
    Seq::new(files.len(), |i: int| files[i]@)
}

fn copy_files(files: &Vec<SnapshotFile>) -> (copy: Vec<SnapshotFile>)
    ensures
        files_view(copy@) == files_view(files@),
{
    let mut copy: Vec<SnapshotFile> = Vec::new();
    for i in 0..files.len()
        invariant
            copy@.len() == i,
            forall|j: int| 0 <= j < i ==> (#[trigger] copy@[j])@ == files@[j]@,
    {
        copy.push(files[i].copy());
    }
    assert(files_view(copy@) =~= files_view(files@));
    copy
}

/// What a snapshot in the cloud store holds.
#[derive(Debug)]
pub struct SnapshotManifest {
    pub repository: String,
    pub revision: String,
    pub files: Vec<SnapshotFile>,
    pub total_size: u64,
    pub created_at: u64,
    pub schema_version: u32,
    pub capabilities: Vec<String>,
}

/// What [`SnapshotManifest`] says.
#[verifier::ext_equal]
pub struct ManifestView {
    pub repository: Seq<char>,
    pub revision: Seq<char>,
    pub files: Seq<SnapshotFileView>,
    pub total_size: u64,
    pub created_at: u64,
    pub schema_version: u32,
    pub capabilities: Seq<Seq<char>>,
}

impl View for SnapshotManifest {
    type V = ManifestView;

    open spec fn view(&self) -> ManifestView {
        ManifestView {
            repository: self.repository@,
            revision: self.revision@,
            files: files_view(self.files@),
            total_size: self.total_size,
            created_at: self.created_at,
            schema_version: self.schema_version,
            capabilities: text::texts(self.capabilities@),
        }
    }
}

impl SnapshotManifest {
    /// A copy of the value.
    pub fn copy(&self) -> (copy: Self)
        ensures
            copy@ == self@,
    {
        SnapshotManifest {
            repository: self.repository.clone(),
            revision: self.revision.clone(),
            files: copy_files(&self.files),
            total_size: self.total_size,
            created_at: self.created_at,
            schema_version: self.schema_version,
            capabilities: text::copy_texts(&self.capabilities),
        }
    }
}

/// A snapshot that is to be restored.
#[derive(Debug)]
pub struct CloudRestoreSelection {
    pub repository: String,
    pub revision: String,
}

/// What [`CloudRestoreSelection`] says.
#[verifier::ext_equal]
pub struct SelectionView {
    pub repository: Seq<char>,
    pub revision: Seq<char>,
}

impl View for CloudRestoreSelection {
    type V = SelectionView;

    open spec fn view(&self) -> SelectionView {
        SelectionView {
            repository: self.repository@,
            revision: self.revision@,
        }
    }
}

impl CloudRestoreSelection {
    /// A copy of the value.
    pub fn copy(&self) -> (copy: Self)
        ensures
            copy@ == self@,
    {
        CloudRestoreSelection {
            repository: self.repository.clone(),
            revision: self.revision.clone(),
        }
    }
}

// ---------------------------------------------------------------------------
// Choosing snapshots
// ---------------------------------------------------------------------------

/// The identity of a snapshot, by which its restorations exclude each other.
pub open spec fn identity_of(repository: Seq<char>, revision: Seq<char>) -> Seq<char> {
    repository + "@"@ + revision
}

/// The identity of a snapshot.
pub fn restore_identity(repository: &str, revision: &str) -> (identity: String)
    ensures
        identity@ == identity_of(repository@, revision@),
{
    text::concat3(repository, "@", revision)
}

/// The last of some snapshots that is of a repository and a revision.
pub open spec fn manifest_for(
    available: Seq<ManifestView>,
    wanted: SelectionView,
) -> Option<ManifestView>
    decreases available.len(),
{
    if available.len() == 0 {
        None
    } else if available.last().repository == wanted.repository && available.last().revision
        == wanted.revision {
        Some(available.last())
    } else {
        manifest_for(available.drop_last(), wanted)
    }
}

/// Whether a selection stands among some others.
pub open spec fn repeats(earlier: Seq<SelectionView>, wanted: SelectionView) -> bool {
    exists|i: int| 0 <= i < earlier.len() && #[trigger] earlier[i] == wanted
}

/// The snapshots that were selected, or why they cannot be restored together:
/// the first that is selected again or is not in the store.
pub open spec fn selected(available: Seq<ManifestView>, requested: Seq<SelectionView>) -> Result<
    Seq<ManifestView>,
    Seq<char>,
>
    decreases requested.len(),
{
    if requested.len() == 0 {
        Ok(Seq::empty())
    } else {
        match selected(available, requested.drop_last()) {
            Err(cause) => Err(cause),
            Ok(found) => if repeats(requested.drop_last(), requested.last()) {
                Err("CLOUD_SELECTION_DUPLICATE: snapshot sélectionné plusieurs fois"@)
            } else {
                match manifest_for(available, requested.last()) {
                    Some(manifest) => Ok(found.push(manifest)),
                    None => Err("CLOUD_SNAPSHOT_NOT_FOUND: snapshot S3 valide inconnu"@),
                }
            },
        }
    }
}

/// What a list of snapshots says.
pub open spec fn manifests_view(list: Seq<SnapshotManifest>) -> Seq<ManifestView> {
    Seq::new(list.len(), |i: int| list[i]@)
}

/// What a list of selections says.
pub open spec fn selections_view(list: Seq<CloudRestoreSelection>) -> Seq<SelectionView> {
    Seq::new(list.len(), |i: int| list[i]@)
}

/// What a selection, or the refusal of one, says.
pub open spec fn selection_outcome(result: Result<Vec<SnapshotManifest>, String>) -> Result<
    Seq<ManifestView>,
    Seq<char>,
> {
    match result {
        Ok(list) => Ok(manifests_view(list@)),
        Err(cause) => Err(cause@),
    }
}

fn find_manifest<'a>(available: &'a Vec<SnapshotManifest>, wanted: &CloudRestoreSelection) -> (found:
    Option<&'a SnapshotManifest>)
    ensures
        (match found {
            Some(manifest) => Some(manifest@),
            None => None,
        }) == manifest_for(manifests_view(available@), wanted@),
{
    let ghost all = manifests_view(available@);
    let mut k: usize = available.len();
    assert(all.take(k as int) =~= all);
    while k > 0
        invariant
            k <= available@.len(),
            all == manifests_view(available@),
            manifest_for(all, wanted@) == manifest_for(all.take(k as int), wanted@),
        decreases k,
    {
        k = k - 1;
        assert(all.take(k + 1).drop_last() =~= all.take(k as int));
        assert(all.take(k + 1).last() == available@[k as int]@);
        if *available[k].repository.as_str() == *wanted.repository.as_str()
            && *available[k].revision.as_str() == *wanted.revision.as_str() {
            return Some(&available[k]);
        }
    }
    None
}

fn is_repeated(requested: &Vec<CloudRestoreSelection>, count: usize) -> (yes: bool)
    requires
        count < requested@.len(),
    ensures
        yes == repeats(
            selections_view(requested@).take(count as int),
            selections_view(requested@)[count as int],
        ),
{
    let ghost all = selections_view(requested@);
    for i in 0..count
        invariant
            count < requested@.len(),
            all == selections_view(requested@),
            forall|j: int| 0 <= j < i ==> all[j] != all[count as int],
    {
        if *requested[i].repository.as_str() == *requested[count].repository.as_str()
            && *requested[i].revision.as_str() == *requested[count].revision.as_str() {
            assert(all.take(count as int)[i as int] == all[count as int]);
            return true;
        }
        assert(all[i as int] != all[count as int]);
    }
    false
}

/// Selects snapshots among those of the store.
pub fn select_cloud_manifests(
    available: &Vec<SnapshotManifest>,
    requested: &Vec<CloudRestoreSelection>,
) -> (result: Result<Vec<SnapshotManifest>, String>)
    ensures
        selection_outcome(result) == selected(
            manifests_view(available@),
            selections_view(requested@),
        ),
{
    let ghost store = manifests_view(available@);
    let ghost all = selections_view(requested@);
    let mut found: Vec<SnapshotManifest> = Vec::new();
    assert(manifests_view(found@) =~= Seq::<ManifestView>::empty());
    for i in 0..requested.len()
        invariant
            store == manifests_view(available@),
            all == selections_view(requested@),
            selected(store, all.take(i as int)) == Ok::<Seq<ManifestView>, Seq<char>>(
                manifests_view(found@),
            ),
    {
        let ghost earlier = manifests_view(found@);
        proof {
            assert(all.take(i + 1).drop_last() =~= all.take(i as int));
            assert(all.take(i + 1).last() == all[i as int]);
        }
        if is_repeated(requested, i) {
            proof {
                lemma_refusal_stays(store, all, i + 1);
            }
            return Err(
                "CLOUD_SELECTION_DUPLICATE: snapshot sélectionné plusieurs fois".to_owned(),
            );
        }
        match find_manifest(available, &requested[i]) {
            Some(manifest) => {
                found.push(manifest.copy());
                assert(manifests_view(found@) =~= earlier.push(manifest@));
            },
            None => {
                proof {
                    lemma_refusal_stays(store, all, i + 1);
                }
                return Err("CLOUD_SNAPSHOT_NOT_FOUND: snapshot S3 valide inconnu".to_owned());
            },
        }
    }
    assert(all.take(all.len() as int) =~= all);
    Ok(found)
}

proof fn lemma_refusal_stays(available: Seq<ManifestView>, requested: Seq<SelectionView>, count: int)
    requires
        0 <= count <= requested.len(),
        selected(available, requested.take(count)) is Err,
    ensures
        selected(available, requested) == selected(available, requested.take(count)),
    decreases requested.len(),
{
    if count < requested.len() {
        assert(requested.drop_last().take(count) =~= requested.take(count));
        lemma_refusal_stays(available, requested.drop_last(), count);
    } else {
        assert(requested.take(count) =~= requested);
    }
}

// ---------------------------------------------------------------------------
// The models of the store
// ---------------------------------------------------------------------------

/// A model of the cloud store, as it is shown.
#[derive(Debug)]
pub struct CloudModelView {
    pub repository: String,
    pub revision: String,
    pub name: String,
    pub size_bytes: u64,
    pub files: usize,
    pub created_at: u64,
    pub capabilities: Vec<String>,
    pub cloud_state: &'static str,
    pub local_state: &'static str,
    pub local: bool,
    pub cloud: bool,
    pub valid: bool,
    pub manifest_uri: String,
}

/// The models that the worker has ready.
pub open spec fn ready_among(models: Seq<JsonView>) -> Seq<Seq<char>>
    decreases models.len(),
{
    if models.len() == 0 {
        Seq::empty()
    } else {
        let rest = ready_among(models.drop_last());
        if models.last().text_member("state"@) == Some("READY"@) && models.last().text_member(
            "model_id"@,
        ) is Some {
            rest.push(models.last().text_member("model_id"@)->0)
        } else {
            rest
        }
    }
}

/// The models that the worker has ready, by the names of their stores.
pub fn ready_models(models: &Vec<Json>) -> (names: Vec<String>)
    ensures
        text::texts(names@) == ready_among(json::items_view(models@)),
{
    let ghost all = json::items_view(models@);
    let mut names: Vec<String> = Vec::new();
    assert(text::texts(names@) =~= Seq::<Seq<char>>::empty());
    for i in 0..models.len()
        invariant
            all == json::items_view(models@),
            text::texts(names@) == ready_among(all.take(i as int)),
    {
        proof {
            assert(all.take(i + 1).drop_last() =~= all.take(i as int));
            assert(all.take(i + 1).last() == models@[i as int]@);
        }
        let ready = match models[i].text_member("state") {
            Some(state) => *state == *"READY",
            None => false,
        };
        if ready {
            match models[i].text_member("model_id") {
                Some(name) => {
                    let ghost earlier = text::texts(names@);
                    names.push(name.to_owned());
                    assert(text::texts(names@) =~= earlier.push(name@));
                },
                None => {},
            }
        }
    }
    assert(all.take(all.len() as int) =~= all);
    names
}

/// Whether a job restores a snapshot.
pub open spec fn restores(target: Seq<char>) -> spec_fn(JobView) -> bool {
    |job: JobView| job.kind == JobKind::RestoreModel && job.target_id == target
}

/// What is said of a snapshot in the store: whether it is being restored, and
/// what came of the last time.
pub open spec fn cloud_word(job: Option<JobView>) -> Seq<char> {
    match job {
        Some(found) => match found.status {
            JobStatus::Queued
            | JobStatus::Dispatching
            | JobStatus::Running
            | JobStatus::SavingOutput => "RESTORING"@,
            JobStatus::Completed => "READY"@,
            JobStatus::Failed | JobStatus::Interrupted => "FAILED"@,
            JobStatus::Cancelled | JobStatus::PendingRetry => "AVAILABLE"@,
        },
        None => "AVAILABLE"@,
    }
}

/// What is said of a snapshot on the disk.
pub open spec fn local_word(ready: bool, active: Option<Seq<char>>, revision: Seq<char>) -> Seq<char> {
    if ready {
        "READY"@
    } else if active == Some(revision) {
        "INSTALLED"@
    } else {
        "ABSENT"@
    }
}

fn find_restore<'a>(jobs: &'a Jobs, target: &str) -> (found: Option<&'a Job>)
    ensures
        installed::opt_job(found) == installed::latest(jobs@, restores(target@)),
{
    let mut found: Option<&'a Job> = None;
    let ghost wanted = restores(target@);
    for i in 0..jobs.list.len()
        invariant
            wanted == restores(target@),
            installed::opt_job(found) == installed::latest(jobs@.take(i as int), wanted),
    {
        assert(jobs@.take(i + 1).drop_last() =~= jobs@.take(i as int));
        assert(jobs@.take(i + 1).last() == jobs.list@[i as int]@);
        let job = &jobs.list[i];
        if job.kind == JobKind::RestoreModel && *job.target_id.as_str() == *target {
            let later = match found {
                Some(before) => before.updated_at <= job.updated_at,
                None => true,
            };
            if later {
                found = Some(job);
            }
        }
    }
    assert(jobs@.take(jobs@.len() as int) =~= jobs@);
    found
}

/// Shows a model of the cloud store. `storage_id` is the name of its store on the
/// disk, `active` the revision that is in use there, `ready` the models that the
/// worker has ready, and `uri` where the manifest stands.
pub fn cloud_model(
    manifest: &SnapshotManifest,
    storage_id: &str,
    active: Option<&str>,
    ready: &Vec<String>,
    jobs: &Jobs,
    uri: String,
) -> (view: CloudModelView)
    ensures
        view.repository@ == manifest@.repository,
        view.revision@ == manifest@.revision,
        view.name@ == text::after_last(manifest@.repository, '/'),
        view.size_bytes == manifest@.total_size,
        view.files == manifest@.files.len(),
        view.created_at == manifest@.created_at,
        text::texts(view.capabilities@) == manifest@.capabilities,
        view.cloud_state@ == cloud_word(
            installed::latest(
                jobs@,
                restores(identity_of(manifest@.repository, manifest@.revision)),
            ),
        ),
        view.local_state@ == local_word(
            text::texts(ready@).contains(storage_id@),
            text::opt_str(active),
            manifest@.revision,
        ),
        view.local == (view.local_state@ != "ABSENT"@),
        view.cloud,
        view.valid,
        view.manifest_uri@ == uri@,
{
    proof {
        reveal_strlit("READY");
        reveal_strlit("INSTALLED");
        reveal_strlit("ABSENT");
        assert("READY"@.len() == 5 && "INSTALLED"@.len() == 9 && "ABSENT"@.len() == 6);
    }
    let same = match active {
        Some(revision) => *revision == *manifest.revision.as_str(),
        None => false,
    };
    let (local_state, local): (&'static str, bool) = if text::any_is(ready, storage_id) {
        ("READY", true)
    } else if same {
        ("INSTALLED", true)
    } else {
        ("ABSENT", false)
    };
    let target = restore_identity(manifest.repository.as_str(), manifest.revision.as_str());
    let cloud_state: &'static str = match find_restore(jobs, target.as_str()) {
        Some(job) => match job.status {
            JobStatus::Queued
            | JobStatus::Dispatching
            | JobStatus::Running
            | JobStatus::SavingOutput => "RESTORING",
            JobStatus::Completed => "READY",
            JobStatus::Failed | JobStatus::Interrupted => "FAILED",
            JobStatus::Cancelled | JobStatus::PendingRetry => "AVAILABLE",
        },
        None => "AVAILABLE",
    };
    CloudModelView {
        repository: manifest.repository.clone(),
        revision: manifest.revision.clone(),
        name: text::last_piece(manifest.repository.as_str(), '/').to_owned(),
        size_bytes: manifest.total_size,
        files: manifest.files.len(),
        created_at: manifest.created_at,
        capabilities: text::copy_texts(&manifest.capabilities),
        cloud_state,
        local_state,
        local,
        cloud: true,
        valid: true,
        manifest_uri: uri,
    }
}

// ---------------------------------------------------------------------------
// Asking for restorations
// ---------------------------------------------------------------------------

/// Why restorations cannot be asked for, if they cannot.
pub open spec fn restore_refusal(storage: bool, count: nat) -> Option<(u16, Seq<char>)> {
    if !storage {
        Some((error::CONFLICT, "Le stockage S3 est désactivé."@))
    } else if count == 0 || count > 20 {
        Some((error::BAD_REQUEST, "Sélectionnez entre 1 et 20 snapshots."@))
    } else {
        None
    }
}

/// Refuses restorations that cannot be asked for. `storage` tells whether there
/// is a cloud store, `count` how many snapshots were selected.
pub fn admit_restore(storage: bool, count: usize) -> (result: Result<(), ApiError>)
    ensures
        pack::refused(result) == restore_refusal(storage, count as nat),
{
    if !storage {
        return Err(ApiError::conflict("Le stockage S3 est désactivé.".to_owned()));
    }
    if count == 0 || count > 20 {
        return Err(ApiError::bad_request("Sélectionnez entre 1 et 20 snapshots.".to_owned()));
    }
    Ok(())
}

/// The job of a restoration.
pub open spec fn restore_job(id: u128, manifest: ManifestView, now: u64) -> JobView {
    JobView {
        cache_status: Some("CLOUD_AVAILABLE"@),
        ..job::queued_job(
            id,
            JobKind::RestoreModel,
            identity_of(manifest.repository, manifest.revision),
            Some(manifest.repository),
            None,
            "queued"@,
            "Restauration S3 ajoutée à la file"@,
            now,
        )
    }
}

/// The job of a restoration.
pub fn new_restore_job(id: u128, manifest: &SnapshotManifest, now: u64) -> (job: Job)
    ensures
        job@ == restore_job(id, manifest@, now),
{
    let mut job = job::new_job(
        id,
        JobKind::RestoreModel,
        restore_identity(manifest.repository.as_str(), manifest.revision.as_str()),
        Some(manifest.repository.clone()),
        None,
        "queued",
        "Restauration S3 ajoutée à la file",
        now,
    );
    job.cache_status = Some("CLOUD_AVAILABLE".to_owned());
    job
}

/// The jobs of restorations, now and under fresh identifiers.
pub fn plan_restores(manifests: &Vec<SnapshotManifest>) -> (jobs: Vec<Job>)
    ensures
        jobs@.len() == manifests@.len(),
        forall|i: int|
            0 <= i < jobs@.len() ==> (#[trigger] jobs@[i])@ == restore_job(
                jobs@[i].id,
                manifests@[i]@,
                jobs@[i].created_at,
            ),
{
    let mut jobs: Vec<Job> = Vec::new();
    for i in 0..manifests.len()
        invariant
            jobs@.len() == i,
            forall|j: int|
                0 <= j < i ==> (#[trigger] jobs@[j])@ == restore_job(
                    jobs@[j].id,
                    manifests@[j]@,
                    jobs@[j].created_at,
                ),
    {
        let id: u128 = identity::new_id();
        let now: u64 = identity::unix_now();
        jobs.push(new_restore_job(id, &manifests[i], now));
    }
    jobs
}

/// The snapshots that are being restored, by the jobs that restore them.
#[derive(Debug)]
pub struct RestoreClaims {
    pub held: Vec<(String, u128)>,
}

/// The identities of the snapshots that are being restored.
pub open spec fn held_names(held: Seq<(Seq<char>, u128)>) -> Seq<Seq<char>> {
    Seq::new(held.len(), |i: int| held[i].0)
}

/// Whether a snapshot is being restored.
pub open spec fn is_held(held: Seq<(Seq<char>, u128)>, name: Seq<char>) -> bool {
    held_names(held).contains(name)
}

/// The claims after a snapshot was claimed for a job.
pub open spec fn claimed(held: Seq<(Seq<char>, u128)>, name: Seq<char>, job_id: u128) -> Seq<
    (Seq<char>, u128),
> {
    match held_names(held).index_of_first(name) {
        Some(at) => held.update(at, (name, job_id)),
        None => held.push((name, job_id)),
    }
}

/// The claims after snapshots were claimed for jobs, one after the other.
pub open spec fn all_claimed(held: Seq<(Seq<char>, u128)>, jobs: Seq<JobView>) -> Seq<
    (Seq<char>, u128),
>
    decreases jobs.len(),
{
    if jobs.len() == 0 {
        held
    } else {
        claimed(all_claimed(held, jobs.drop_last()), jobs.last().target_id, jobs.last().id)
    }
}

/// The claims without that on a snapshot.
pub open spec fn released(held: Seq<(Seq<char>, u128)>, name: Seq<char>) -> Seq<(Seq<char>, u128)> {
    match held_names(held).index_of_first(name) {
        Some(at) => held.remove(at),
        None => held,
    }
}

/// Whether one of some jobs restores a snapshot that is being restored.
pub open spec fn busy(held: Seq<(Seq<char>, u128)>, jobs: Seq<JobView>) -> bool {
    exists|i: int| 0 <= i < jobs.len() && is_held(held, (#[trigger] jobs[i]).target_id)
}

/// What a list of jobs says.
pub open spec fn jobs_view(jobs: Seq<Job>) -> Seq<JobView> {
    Seq::new(jobs.len(), |i: int| jobs[i]@)
}

/// What is said where a snapshot is being restored.
pub open spec fn busy_refusal() -> (u16, Seq<char>) {
    (
        error::CONFLICT,
        "RESTORE_ALREADY_RUNNING: une restauration est déjà active pour ce repository@revision."@,
    )
}

impl View for RestoreClaims {
    type V = Seq<(Seq<char>, u128)>;

    open spec fn view(&self) -> Seq<(Seq<char>, u128)> {
        Seq::new(self.held@.len(), |i: int| (self.held@[i].0@, self.held@[i].1))
    }
}

proof fn lemma_claims_stay_apart(held: Seq<(Seq<char>, u128)>, name: Seq<char>, job_id: u128)
    requires
        held_names(held).no_duplicates(),
    ensures
        held_names(claimed(held, name, job_id)).no_duplicates(),
{
    let names = held_names(held);
    names.index_of_first_ensures(name);
    match names.index_of_first(name) {
        Some(at) => {
            assert(held_names(claimed(held, name, job_id)) =~= names);
        },
        None => {
            assert(held_names(claimed(held, name, job_id)) =~= names.push(name));
            assert forall|i: int| 0 <= i < names.len() implies names[i] != name by {
                assert(names.contains(names[i]));
            }
        },
    }
}

impl RestoreClaims {
    /// No snapshot is claimed twice.
    pub open spec fn wf(&self) -> bool {
        held_names(self@).no_duplicates()
    }

    /// No claim.
    pub fn new() -> (claims: Self)
        ensures
            claims.wf(),
            claims@ == Seq::<(Seq<char>, u128)>::empty(),
    {
        let claims = RestoreClaims { held: Vec::new() };
        assert(claims@ =~= Seq::<(Seq<char>, u128)>::empty());
        claims
    }

    fn find(&self, name: &str) -> (at: Option<usize>)
        ensures
            match at {
                Some(k) => k < self.held@.len() && held_names(self@).index_of_first(name@) == Some(
                    k as int,
                ),
                None => held_names(self@).index_of_first(name@) is None,
            },
    {
        let ghost names = held_names(self@);
        for k in 0..self.held.len()
            invariant
                names == held_names(self@),
                forall|j: int| 0 <= j < k ==> #[trigger] names[j] != name@,
        {
            assert(names[k as int] == self.held@[k as int].0@);
            if *self.held[k].0.as_str() == *name {
                proof {
                    names.index_of_first_ensures(name@);
                    assert(names.contains(names[k as int]));
                }
                return Some(k);
            }
        }
        proof {
            names.index_of_first_ensures(name@);
        }
        None
    }

    /// Claims the snapshots of jobs, all of them or, where one is being restored,
    /// none.
    pub fn claim_all(&mut self, jobs: &Vec<Job>) -> (result: Result<(), ApiError>)
        requires
            old(self).wf(),
        ensures
            final(self).wf(),
            if busy(old(self)@, jobs_view(jobs@)) {
                *final(self) == *old(self) && pack::refused(result) == Some(busy_refusal())
            } else {
                final(self)@ == all_claimed(old(self)@, jobs_view(jobs@)) && result is Ok
            },
    {
        let ghost before = self@;
        let ghost all = jobs_view(jobs@);
        for i in 0..jobs.len()
            invariant
                self.wf(),
                before == self@,
                all == jobs_view(jobs@),
                forall|j: int| 0 <= j < i ==> !is_held(before, (#[trigger] all[j]).target_id),
        {
            let taken = self.find(jobs[i].target_id.as_str()).is_some();
            proof {
                assert(all[i as int] == jobs@[i as int]@);
                held_names(before).index_of_first_ensures(all[i as int].target_id);
            }
            if taken {
                assert(is_held(before, all[i as int].target_id));
                return Err(
                    ApiError::conflict(
                        "RESTORE_ALREADY_RUNNING: une restauration est déjà active pour ce repository@revision.".to_owned(),
                    ),
                );
            }
        }
        for i in 0..jobs.len()
            invariant
                self.wf(),
                all == jobs_view(jobs@),
                self@ == all_claimed(before, all.take(i as int)),
        {
            let ghost earlier = self@;
            proof {
                assert(all.take(i + 1).drop_last() =~= all.take(i as int));
                assert(all.take(i + 1).last() == jobs@[i as int]@);
                held_names(earlier).index_of_first_ensures(all[i as int].target_id);
            }
            let entry = (jobs[i].target_id.clone(), jobs[i].id);
            match self.find(jobs[i].target_id.as_str()) {
                Some(at) => {
                    self.held.set(at, entry);
                },
                None => {
                    self.held.push(entry);
                },
            }
            assert(self@ =~= claimed(earlier, jobs@[i as int]@.target_id, jobs@[i as int].id));
            proof {
                lemma_claims_stay_apart(
                    earlier,
                    jobs@[i as int]@.target_id,
                    jobs@[i as int].id,
                );
            }
        }
        assert(all.take(all.len() as int) =~= all);
        Ok(())
    }

    /// Gives up the claim on a snapshot.
    pub fn release(&mut self, name: &str)
        requires
            old(self).wf(),
        ensures
            final(self).wf(),
            final(self)@ == released(old(self)@, name@),
            !is_held(final(self)@, name@),
    {
        let ghost before = self@;
        proof {
            law_released_snapshots_are_free(before, name@);
        }
        match self.find(name) {
            Some(at) => {
                self.held.remove(at);
                assert(self@ =~= before.remove(at as int));
            },
            None => {},
        }
    }
}

// ---------------------------------------------------------------------------
// The files of a snapshot
// ---------------------------------------------------------------------------

/// What is found of a file of a snapshot on the disk.
#[derive(Debug)]
pub struct FileFacts {
    /// Whether a snapshot may hold a file at this path.
    pub allowed: bool,
    /// The size of the file, where one is there.
    pub size: Option<u64>,
    /// The content of the file, where it could be read.
    pub content: Option<Vec<u8>>,
}

/// Whether a file on the disk is the one of the manifest.
pub open spec fn file_matches(file: SnapshotFileView, facts: FileFacts) -> bool {
    &&& facts.allowed
    &&& facts.size == Some(file.size)
    &&& match file.sha256 {
        Some(expected) => facts.content is Some && digest::hex_form(
            digest::sha256(facts.content->0@),
        ) == expected,
        None => true,
    }
}

/// Whether the content of a file has to be read to tell whether it is the one of
/// the manifest.
pub fn needs_content(file: &SnapshotFile, allowed: bool, size: Option<u64>) -> (yes: bool)
    ensures
        yes == (allowed && size == Some(file@.size) && file@.sha256 is Some),
{
    let same = match size {
        Some(found) => found == file.size,
        None => false,
    };
    allowed && same && file.sha256.is_some()
}

/// Whether the files on the disk are those of a manifest. `facts` are what is
/// found of each.
pub fn snapshot_matches_manifest(manifest: &SnapshotManifest, facts: &Vec<FileFacts>) -> (yes: bool)
    requires
        facts@.len() == manifest@.files.len(),
    ensures
        yes <==> forall|i: int|
            0 <= i < facts@.len() ==> file_matches(manifest@.files[i], #[trigger] facts@[i]),
{
    for i in 0..manifest.files.len()
        invariant
            facts@.len() == manifest@.files.len(),
            manifest@.files.len() == manifest.files@.len(),
            forall|j: int|
                0 <= j < i ==> file_matches(manifest@.files[j], #[trigger] facts@[j]),
    {
        let file = &manifest.files[i];
        assert(manifest@.files[i as int] == file@);
        let found = &facts[i];
        let same = match found.size {
            Some(size) => size == file.size,
            None => false,
        };
        let genuine = match &file.sha256 {
            Some(expected) => match &found.content {
                Some(content) => {
                    let digest = digest::snapshot_file_sha256(content.as_slice());
                    *digest.as_str() == *expected.as_str()
                },
                None => false,
            },
            None => true,
        };
        if !found.allowed || !same || !genuine {
            assert(!file_matches(manifest@.files[i as int], facts@[i as int]));
            return false;
        }
    }
    true
}

/// Whether a file that is on the disk already is to be used again for a
/// restoration; a path that no snapshot may hold stops it.
pub fn seed_restore_staging(allowed: bool, present: bool) -> (result: Result<bool, String>)
    ensures
        match result {
            Ok(copies) => allowed && copies == present,
            Err(cause) => !allowed && cause@
                == "S3_MANIFEST_PATH_INVALID: chemin de fichier invalide"@,
        },
{
    if !allowed {
        return Err("S3_MANIFEST_PATH_INVALID: chemin de fichier invalide".to_owned());
    }
    Ok(present)
}

// ---------------------------------------------------------------------------
// Putting a restored snapshot in its place
// ---------------------------------------------------------------------------

/// Where the replacement of a snapshot stands.
#[derive(Clone, Copy, Debug, PartialEq, Eq, Structural)]
pub enum PromotePhase {
    /// Whether the snapshot in place is the one of the manifest is asked.
    Checking,
    /// The restored files are not needed and are being removed.
    Discarding,
    /// The snapshot in place is being set aside.
    SettingAside,
    /// The restored snapshot is being moved into place; nothing was there.
    Moving,
    /// The restored snapshot is being moved into place; the previous one stands
    /// aside.
    Replacing,
    /// The previous snapshot is being moved back.
    MovingBack,
    /// The previous snapshot is being removed.
    Removing,
    /// The replacement is over.
    Ended,
}

/// What happened on the disk.
#[derive(Debug)]
pub enum PromoteEvent {
    /// Whether the snapshot in place is the one of the manifest, and whether there
    /// is one.
    Checked(bool, bool),
    /// What was to be done was done, or not.
    Done(Result<(), String>),
}

/// What is to be done on the disk.
#[derive(Debug)]
pub enum PromoteAction {
    /// Remove the restored files.
    Discard,
    /// Move the snapshot in place aside.
    SetAside,
    /// Move the restored snapshot into place.
    Move,
    /// Move the previous snapshot back.
    MoveBack,
    /// Remove the previous snapshot.
    Remove,
    /// Nothing: the replacement is over.
    Finish(Result<(), String>),
    /// Nothing: the event does not fit the phase.
    Ignore,
}

/// What [`PromoteAction`] says.
pub enum PromoteActionView {
    Discard,
    SetAside,
    Move,
    MoveBack,
    Remove,
    Finish(Result<(), Seq<char>>),
    Ignore,
}

impl View for PromoteAction {
    type V = PromoteActionView;

    open spec fn view(&self) -> PromoteActionView {
        match self {
            PromoteAction::Discard => PromoteActionView::Discard,
            PromoteAction::SetAside => PromoteActionView::SetAside,
            PromoteAction::Move => PromoteActionView::Move,
            PromoteAction::MoveBack => PromoteActionView::MoveBack,
            PromoteAction::Remove => PromoteActionView::Remove,
            PromoteAction::Finish(Ok(_)) => PromoteActionView::Finish(Ok(())),
            PromoteAction::Finish(Err(cause)) => PromoteActionView::Finish(Err(cause@)),
            PromoteAction::Ignore => PromoteActionView::Ignore,
        }
    }
}

/// The replacement of a snapshot by a restored one.
#[derive(Debug)]
pub struct Promotion {
    pub phase: PromotePhase,
    /// Why the restored snapshot could not be moved.
    pub cause: String,
}

/// The replacement of a snapshot by a restored one.
#[verifier::ext_equal]
pub struct PromotionView {
    pub phase: PromotePhase,
    pub cause: Seq<char>,
}

impl View for Promotion {
    type V = PromotionView;

    open spec fn view(&self) -> PromotionView {
        PromotionView { phase: self.phase, cause: self.cause@ }
    }
}

/// The end of a replacement.
pub open spec fn promotion_over(run: PromotionView, result: Result<(), Seq<char>>) -> (
    PromotionView,
    PromoteActionView,
) {
    (PromotionView { phase: PromotePhase::Ended, ..run }, PromoteActionView::Finish(result))
}

/// The step of a replacement that follows from an event. A snapshot in place
/// that is the one of the manifest stays; one that could not be replaced is moved
/// back.
pub open spec fn promote_next(run: PromotionView, event: PromoteEvent) -> (
    PromotionView,
    PromoteActionView,
) {
    match (run.phase, event) {
        (PromotePhase::Checking, PromoteEvent::Checked(matches, present)) => if matches {
            (
                PromotionView { phase: PromotePhase::Discarding, ..run },
                PromoteActionView::Discard,
            )
        } else if present {
            (
                PromotionView { phase: PromotePhase::SettingAside, ..run },
                PromoteActionView::SetAside,
            )
        } else {
            (PromotionView { phase: PromotePhase::Moving, ..run }, PromoteActionView::Move)
        },
        (PromotePhase::Discarding, PromoteEvent::Done(Ok(_))) => promotion_over(run, Ok(())),
        (PromotePhase::Discarding, PromoteEvent::Done(Err(cause))) => promotion_over(
            run,
            Err(cause@),
        ),
        (PromotePhase::SettingAside, PromoteEvent::Done(Ok(_))) => (
            PromotionView { phase: PromotePhase::Replacing, ..run },
            PromoteActionView::Move,
        ),
        (PromotePhase::SettingAside, PromoteEvent::Done(Err(cause))) => promotion_over(
            run,
            Err(cause@),
        ),
        (PromotePhase::Moving, PromoteEvent::Done(Ok(_))) => promotion_over(run, Ok(())),
        (PromotePhase::Moving, PromoteEvent::Done(Err(cause))) => promotion_over(run, Err(cause@)),
        (PromotePhase::Replacing, PromoteEvent::Done(Ok(_))) => (
            PromotionView { phase: PromotePhase::Removing, ..run },
            PromoteActionView::Remove,
        ),
        (PromotePhase::Replacing, PromoteEvent::Done(Err(cause))) => (
            PromotionView { phase: PromotePhase::MovingBack, cause: cause@ },
            PromoteActionView::MoveBack,
        ),
        (PromotePhase::MovingBack, PromoteEvent::Done(_)) => promotion_over(run, Err(run.cause)),
        (PromotePhase::Removing, PromoteEvent::Done(_)) => promotion_over(run, Ok(())),
        _ => (run, PromoteActionView::Ignore),
    }
}

fn as_finish(result: Result<(), String>) -> (action: PromoteAction)
    ensures
        action@ == PromoteActionView::Finish(
            match result {
                Ok(_) => Ok(()),
                Err(cause) => Err(cause@),
            },
        ),
{
    PromoteAction::Finish(result)
}

impl Promotion {
    /// A replacement that has not begun.
    pub fn new() -> (run: Self)
        ensures
            run@ == (PromotionView { phase: PromotePhase::Checking, cause: Seq::empty() }),
    {
        let run = Promotion { phase: PromotePhase::Checking, cause: String::new() };
        assert(run@.cause =~= Seq::<char>::empty());
        run
    }

    /// Takes the step that follows from an event.
    pub fn step(&mut self, event: PromoteEvent) -> (action: PromoteAction)
        ensures
            (final(self)@, action@) == promote_next(old(self)@, event),
    {
        match event {
            PromoteEvent::Checked(matches, present) => match self.phase {
                PromotePhase::Checking => {
                    if matches {
                        self.phase = PromotePhase::Discarding;
                        PromoteAction::Discard
                    } else if present {
                        self.phase = PromotePhase::SettingAside;
                        PromoteAction::SetAside
                    } else {
                        self.phase = PromotePhase::Moving;
                        PromoteAction::Move
                    }
                },
                _ => PromoteAction::Ignore,
            },
            PromoteEvent::Done(result) => match self.phase {
                PromotePhase::Discarding | PromotePhase::Moving => {
                    self.phase = PromotePhase::Ended;
                    as_finish(result)
                },
                PromotePhase::SettingAside => match result {
                    Ok(_) => {
                        self.phase = PromotePhase::Replacing;
                        PromoteAction::Move
                    },
                    Err(cause) => {
                        self.phase = PromotePhase::Ended;
                        PromoteAction::Finish(Err(cause))
                    },
                },
                PromotePhase::Replacing => match result {
                    Ok(_) => {
                        self.phase = PromotePhase::Removing;
                        PromoteAction::Remove
                    },
                    Err(cause) => {
                        self.phase = PromotePhase::MovingBack;
                        self.cause = cause;
                        PromoteAction::MoveBack
                    },
                },
                PromotePhase::MovingBack => {
                    self.phase = PromotePhase::Ended;
                    PromoteAction::Finish(Err(self.cause.clone()))
                },
                PromotePhase::Removing => {
                    self.phase = PromotePhase::Ended;
                    PromoteAction::Finish(Ok(()))
                },
                _ => PromoteAction::Ignore,
            },
        }
    }
}

/// What stands in the three places of a replacement: in place, aside, and what
/// was restored. A number stands for the files of a snapshot.
pub struct Places {
    pub in_place: Option<int>,
    pub aside: Option<int>,
    pub restored: Option<int>,
}

/// The places after an action of a replacement that succeeded.
pub open spec fn after_action(places: Places, action: PromoteActionView) -> Places {
    match action {
        PromoteActionView::Discard => Places { restored: None, ..places },
        PromoteActionView::SetAside => Places {
            in_place: None,
            aside: places.in_place,
            ..places
        },
        PromoteActionView::Move => Places {
            in_place: places.restored,
            restored: None,
            ..places
        },
        PromoteActionView::MoveBack => Places {
            in_place: places.aside,
            aside: None,
            ..places
        },
        PromoteActionView::Remove => Places { aside: None, ..places },
        _ => places,
    }
}

/// A restored snapshot takes its place: where nothing fails on the disk, the
/// replacement ends with the restored files in place and nothing aside.
pub proof fn law_restored_snapshots_take_their_place(previous: Option<int>, restored: int)
    ensures
        ({
            let start = PromotionView { phase: PromotePhase::Checking, cause: Seq::empty() };
            let places = Places { in_place: previous, aside: None, restored: Some(restored) };
            let (first, one) = promote_next(
                start,
                PromoteEvent::Checked(false, previous is Some),
            );
            let after_one = after_action(places, one);
            let (second, two) = promote_next(first, PromoteEvent::Done(Ok(())));
            let after_two = after_action(after_one, two);
            let (third, three) = promote_next(second, PromoteEvent::Done(Ok(())));
            let after_three = after_action(after_two, three);
            let (last, four) = promote_next(third, PromoteEvent::Done(Ok(())));
            match previous {
                None => two == PromoteActionView::Finish(Ok(())) && after_one.in_place == Some(
                    restored,
                ) && after_one.aside is None,
                Some(_) => four == PromoteActionView::Finish(Ok(())) && after_three.in_place
                    == Some(restored) && after_three.aside is None && after_three.restored is None,
            }
        }),
{
}

/// A snapshot that could not be replaced is put back: where the restored files
/// cannot be moved, the replacement moves the previous ones back and fails with
/// the cause.
pub proof fn law_failed_replacements_are_undone(previous: int, restored: int, cause: String)
    ensures
        ({
            let start = PromotionView { phase: PromotePhase::Checking, cause: Seq::empty() };
            let places = Places {
                in_place: Some(previous),
                aside: None,
                restored: Some(restored),
            };
            let (first, one) = promote_next(start, PromoteEvent::Checked(false, true));
            let after_one = after_action(places, one);
            let (second, two) = promote_next(first, PromoteEvent::Done(Ok(())));
            let (third, three) = promote_next(second, PromoteEvent::Done(Err(cause)));
            let after_three = after_action(after_one, three);
            let (last, four) = promote_next(third, PromoteEvent::Done(Ok(())));
            &&& two == PromoteActionView::Move
            &&& after_three.in_place == Some(previous)
            &&& after_three.restored == Some(restored)
            &&& four == PromoteActionView::Finish(Err(cause@))
        }),
{
}

// ---------------------------------------------------------------------------
// The run of a restoration
// ---------------------------------------------------------------------------

/// Where a restoration stands.
#[derive(Clone, Copy, Debug, PartialEq, Eq, Structural)]
pub enum RestorePhase {
    /// Nothing was done yet.
    Ready,
    /// The files that are on the disk already are being made available.
    Seeding,
    /// The files are being fetched from the cloud store.
    Fetching,
    /// The restored snapshot is being put in its place.
    Promoting,
    /// The file that names the revision in use is being written.
    Pointing,
    /// The worker validates the files.
    Validating,
    /// The file that names the revision in use is being put back.
    PuttingBack,
    /// The run is over.
    Ended,
}

/// A run of a restoration.
#[derive(Debug)]
pub struct RestoreRun {
    pub phase: RestorePhase,
    pub job_id: u128,
    /// The name of the store of the model on the disk.
    pub storage_id: String,
    pub repository: String,
    pub revision: String,
    pub capabilities: Vec<String>,
    /// Whether there is a worker.
    pub worker: bool,
    /// Why the worker refused the files.
    pub cause: String,
}

/// What [`RestoreRun`] says.
#[verifier::ext_equal]
pub struct RestoreRunView {
    pub phase: RestorePhase,
    pub job_id: u128,
    pub storage_id: Seq<char>,
    pub repository: Seq<char>,
    pub revision: Seq<char>,
    pub capabilities: Seq<Seq<char>>,
    pub worker: bool,
    pub cause: Seq<char>,
}

impl View for RestoreRun {
    type V = RestoreRunView;

    open spec fn view(&self) -> RestoreRunView {
        RestoreRunView {
            phase: self.phase,
            job_id: self.job_id,
            storage_id: self.storage_id@,
            repository: self.repository@,
            revision: self.revision@,
            capabilities: text::texts(self.capabilities@),
            worker: self.worker,
            cause: self.cause@,
        }
    }
}

/// What happened outside.
#[derive(Debug)]
pub enum RestoreEvent {
    /// The run may begin.
    Begin,
    /// The files that are on the disk were made available, or not.
    Seeded(Result<(), String>),
    /// The files were fetched; or the store does not hold the snapshot; or the
    /// transfer failed.
    Fetched(Result<bool, String>),
    /// The restored snapshot was put in its place, or not.
    Promoted(Result<(), String>),
    /// The file that names the revision in use was written, or not.
    Pointed(Result<(), String>),
    /// The worker validated the files, or not.
    Validated(Result<WorkerModelStatus, String>),
    /// The file that names the revision in use was put back, or not.
    PutBack(Result<(), String>),
}

/// What is to be done outside.
#[derive(Debug)]
pub enum RestoreAction {
    /// Make the files available that are on the disk already.
    Seed,
    /// Fetch the files from the cloud store.
    Fetch,
    /// Put the restored snapshot in its place.
    Promote,
    /// Write the file that names the revision in use, and keep the one before.
    Point(Json),
    /// Ask the worker to validate the files.
    Validate(Json),
    /// Put back the file that names the revision in use, or remove it where there
    /// was none.
    PutBack,
    /// The run is over: remove what is left of it and give up its claim.
    End,
    /// Nothing: the event does not fit the phase.
    Ignore,
}

/// What [`RestoreAction`] says.
pub enum RestoreActionView {
    Seed,
    Fetch,
    Promote,
    Point(JsonView),
    Validate(JsonView),
    PutBack,
    End,
    Ignore,
}

impl View for RestoreAction {
    type V = RestoreActionView;

    open spec fn view(&self) -> RestoreActionView {
        match self {
            RestoreAction::Seed => RestoreActionView::Seed,
            RestoreAction::Fetch => RestoreActionView::Fetch,
            RestoreAction::Promote => RestoreActionView::Promote,
            RestoreAction::Point(document) => RestoreActionView::Point(document@),
            RestoreAction::Validate(body) => RestoreActionView::Validate(body@),
            RestoreAction::PutBack => RestoreActionView::PutBack,
            RestoreAction::End => RestoreActionView::End,
            RestoreAction::Ignore => RestoreActionView::Ignore,
        }
    }
}

/// A step of a restoration: the run after it, what is noted, and what is to be
/// done.
#[verifier::ext_equal]
pub struct RestoreStepView {
    pub run: RestoreRunView,
    pub notes: Seq<NoteView>,
    pub action: RestoreActionView,
}

/// A step that notes nothing.
pub open spec fn moved(
    run: RestoreRunView,
    phase: RestorePhase,
    action: RestoreActionView,
) -> RestoreStepView {
    RestoreStepView { run: RestoreRunView { phase, ..run }, notes: Seq::empty(), action }
}

/// How far a failed restoration stands: where its job was, but never at the end.
pub open spec fn restore_progress(jobs: Seq<JobView>, job_id: u128) -> u8 {
    match job::place(jobs, job_id) {
        Some(at) => if jobs[at].progress < 99 {
            jobs[at].progress
        } else {
            99
        },
        None => 0,
    }
}

/// The end of a restoration that failed.
pub open spec fn restore_failed(run: RestoreRunView, cause: Seq<char>, progress: u8) -> RestoreStepView {
    RestoreStepView {
        run: RestoreRunView { phase: RestorePhase::Ended, ..run },
        notes: seq![
            NoteView::Report(run::report_of(JobStatus::Failed, "failed"@, progress, cause)),
        ],
        action: RestoreActionView::End,
    }
}

/// The members of the result of a restoration.
pub open spec fn result_members(run: RestoreRunView) -> Seq<(Seq<char>, JsonView)> {
    seq![
        ("repository"@, JsonView::Text(run.repository)),
        ("revision"@, JsonView::Text(run.revision)),
        ("model_id"@, JsonView::Text(run.storage_id)),
        ("local_state"@, JsonView::Text("INSTALLED"@)),
        ("cloud_state"@, JsonView::Text("READY"@)),
    ]
}

/// The body of the request to validate the files.
pub open spec fn validation_body(run: RestoreRunView) -> JsonView {
    worker::install_body(
        run.storage_id,
        run.repository,
        run.revision,
        run.capabilities,
        worker::no_options(),
    )
}

/// The step of a restoration up to the writing of the file that names the
/// revision in use.
#[verifier::opaque]
pub open spec fn on_files(run: RestoreRunView, event: RestoreEvent, progress: u8) -> RestoreStepView {
    match (run.phase, event) {
        (RestorePhase::Ready, RestoreEvent::Begin) => RestoreStepView {
            run: RestoreRunView { phase: RestorePhase::Seeding, ..run },
            notes: seq![
                NoteView::Report(
                    run::report_of(
                        JobStatus::Dispatching,
                        "dispatching"@,
                        2,
                        "Validation du manifeste S3"@,
                    ),
                ),
            ],
            action: RestoreActionView::Seed,
        },
        (RestorePhase::Seeding, RestoreEvent::Seeded(Err(cause))) => restore_failed(
            run,
            cause@,
            progress,
        ),
        (RestorePhase::Seeding, RestoreEvent::Seeded(Ok(_))) => moved(
            run,
            RestorePhase::Fetching,
            RestoreActionView::Fetch,
        ),
        (RestorePhase::Fetching, RestoreEvent::Fetched(Err(cause))) => restore_failed(
            run,
            cause@,
            progress,
        ),
        (RestorePhase::Fetching, RestoreEvent::Fetched(Ok(false))) => restore_failed(
            run,
            "S3_SNAPSHOT_NOT_FOUND: manifeste absent"@,
            progress,
        ),
        (RestorePhase::Fetching, RestoreEvent::Fetched(Ok(true))) => moved(
            run,
            RestorePhase::Promoting,
            RestoreActionView::Promote,
        ),
        (RestorePhase::Promoting, RestoreEvent::Promoted(Err(cause))) => restore_failed(
            run,
            cause@,
            progress,
        ),
        (RestorePhase::Promoting, RestoreEvent::Promoted(Ok(_))) => moved(
            run,
            RestorePhase::Pointing,
            RestoreActionView::Point(
                JsonView::Object(
                    installed::pointer_members(run.storage_id, run.repository, run.revision),
                ),
            ),
        ),
        _ => moved(run, run.phase, RestoreActionView::Ignore),
    }
}

/// The step of a restoration from the writing of the file that names the
/// revision in use.
#[verifier::opaque]
pub open spec fn on_validation(run: RestoreRunView, event: RestoreEvent, progress: u8) -> RestoreStepView {
    match (run.phase, event) {
        (RestorePhase::Pointing, RestoreEvent::Pointed(Err(cause))) => restore_failed(
            run,
            cause@,
            progress,
        ),
        (RestorePhase::Pointing, RestoreEvent::Pointed(Ok(_))) => if !run.worker {
            restore_failed(run, "WORKER_UNAVAILABLE: worker GPU absent"@, progress)
        } else {
            RestoreStepView {
                run: RestoreRunView { phase: RestorePhase::Validating, ..run },
                notes: seq![
                    NoteView::Report(
                        run::report_of(
                            JobStatus::Running,
                            "validating"@,
                            90,
                            "Validation locale du snapshot"@,
                        ),
                    ),
                ],
                action: RestoreActionView::Validate(validation_body(run)),
            }
        },
        (RestorePhase::Validating, RestoreEvent::Validated(Err(cause))) => RestoreStepView {
            run: RestoreRunView { phase: RestorePhase::PuttingBack, cause: cause@, ..run },
            notes: Seq::empty(),
            action: RestoreActionView::PutBack,
        },
        (RestorePhase::Validating, RestoreEvent::Validated(Ok(status))) => if status.installed
            && status.weights_valid {
            RestoreStepView {
                run: RestoreRunView { phase: RestorePhase::Ended, ..run },
                notes: seq![
                    NoteView::Outcome(JsonView::Object(result_members(run))),
                    NoteView::Report(
                        run::report_of(
                            JobStatus::Completed,
                            "completed"@,
                            100,
                            "Snapshot restauré et validé"@,
                        ),
                    ),
                ],
                action: RestoreActionView::End,
            }
        } else {
            RestoreStepView {
                run: RestoreRunView {
                    phase: RestorePhase::PuttingBack,
                    cause: "SNAPSHOT_INVALID: le worker a refusé les poids restaurés"@,
                    ..run
                },
                notes: Seq::empty(),
                action: RestoreActionView::PutBack,
            }
        },
        (RestorePhase::PuttingBack, RestoreEvent::PutBack(Err(cause))) => restore_failed(
            run,
            cause@,
            progress,
        ),
        (RestorePhase::PuttingBack, RestoreEvent::PutBack(Ok(_))) => restore_failed(
            run,
            run.cause,
            progress,
        ),
        _ => moved(run, run.phase, RestoreActionView::Ignore),
    }
}

/// The step that follows from an event. An event that does not fit the phase
/// changes nothing.
pub open spec fn restore_next(run: RestoreRunView, event: RestoreEvent, progress: u8) -> RestoreStepView {
    match run.phase {
        RestorePhase::Ready
        | RestorePhase::Seeding
        | RestorePhase::Fetching
        | RestorePhase::Promoting => on_files(run, event, progress),
        _ => on_validation(run, event, progress),
    }
}

/// What a run and what it says to note and to do amount to.
pub open spec fn restore_step_of(run: RestoreRun, step: (Vec<JobNote>, RestoreAction)) -> RestoreStepView {
    RestoreStepView { run: run@, notes: note::notes_view(step.0@), action: step.1@ }
}

impl RestoreRun {
    /// A run that has not begun.
    pub fn new(job_id: u128, manifest: &SnapshotManifest, storage_id: String, worker: bool) -> (run: Self)
        ensures
            run@ == (RestoreRunView {
                phase: RestorePhase::Ready,
                job_id,
                storage_id: storage_id@,
                repository: manifest@.repository,
                revision: manifest@.revision,
                capabilities: manifest@.capabilities,
                worker,
                cause: Seq::empty(),
            }),
    {
        let run = RestoreRun {
            phase: RestorePhase::Ready,
            job_id,
            storage_id,
            repository: manifest.repository.clone(),
            revision: manifest.revision.clone(),
            capabilities: text::copy_texts(&manifest.capabilities),
            worker,
            cause: String::new(),
        };
        assert(run@.cause =~= Seq::<char>::empty());
        run
    }

    fn go(&mut self, phase: RestorePhase, action: RestoreAction) -> (step: (
        Vec<JobNote>,
        RestoreAction,
    ))
        ensures
            restore_step_of(*final(self), step) == moved(old(self)@, phase, action@),
    {
        self.phase = phase;
        let notes: Vec<JobNote> = Vec::new();
        assert(note::notes_view(notes@) =~= Seq::<NoteView>::empty());
        (notes, action)
    }

    fn fail(&mut self, cause: &str, progress: u8) -> (step: (Vec<JobNote>, RestoreAction))
        ensures
            restore_step_of(*final(self), step) == restore_failed(old(self)@, cause@, progress),
    {
        let mut notes: Vec<JobNote> = Vec::new();
        assert(note::notes_view(notes@) =~= Seq::<NoteView>::empty());
        note::put_report(&mut notes, JobStatus::Failed, "failed", progress, cause);
        self.phase = RestorePhase::Ended;
        (notes, RestoreAction::End)
    }

    fn files_step(&mut self, event: RestoreEvent, progress: u8) -> (step: (
        Vec<JobNote>,
        RestoreAction,
    ))
        ensures
            restore_step_of(*final(self), step) == on_files(old(self)@, event, progress),
    {
        reveal(on_files);
        let phase = self.phase;
        match event {
            RestoreEvent::Begin => {
                if phase != RestorePhase::Ready {
                    return self.go(phase, RestoreAction::Ignore);
                }
                let mut notes: Vec<JobNote> = Vec::new();
                assert(note::notes_view(notes@) =~= Seq::<NoteView>::empty());
                note::put_report(
                    &mut notes,
                    JobStatus::Dispatching,
                    "dispatching",
                    2,
                    "Validation du manifeste S3",
                );
                self.phase = RestorePhase::Seeding;
                (notes, RestoreAction::Seed)
            },
            RestoreEvent::Seeded(result) => {
                if phase != RestorePhase::Seeding {
                    return self.go(phase, RestoreAction::Ignore);
                }
                match result {
                    Err(cause) => self.fail(cause.as_str(), progress),
                    Ok(_) => self.go(RestorePhase::Fetching, RestoreAction::Fetch),
                }
            },
            RestoreEvent::Fetched(result) => {
                if phase != RestorePhase::Fetching {
                    return self.go(phase, RestoreAction::Ignore);
                }
                match result {
                    Err(cause) => self.fail(cause.as_str(), progress),
                    Ok(found) => {
                        if found {
                            self.go(RestorePhase::Promoting, RestoreAction::Promote)
                        } else {
                            self.fail("S3_SNAPSHOT_NOT_FOUND: manifeste absent", progress)
                        }
                    },
                }
            },
            RestoreEvent::Promoted(result) => {
                if phase != RestorePhase::Promoting {
                    return self.go(phase, RestoreAction::Ignore);
                }
                match result {
                    Err(cause) => self.fail(cause.as_str(), progress),
                    Ok(_) => {
                        let document = installed::pointer_document(
                            self.storage_id.as_str(),
                            self.repository.as_str(),
                            self.revision.as_str(),
                        );
                        self.go(RestorePhase::Pointing, RestoreAction::Point(document))
                    },
                }
            },
            _ => self.go(phase, RestoreAction::Ignore),
        }
    }

    fn outcome(&self) -> (document: Json)
        ensures
            document@ == JsonView::Object(result_members(self@)),
    {
        let mut members: Vec<(String, Json)> = Vec::new();
        json::put(&mut members, "repository", json::text_json(self.repository.as_str()));
        json::put(&mut members, "revision", json::text_json(self.revision.as_str()));
        json::put(&mut members, "model_id", json::text_json(self.storage_id.as_str()));
        json::put(&mut members, "local_state", json::text_json("INSTALLED"));
        json::put(&mut members, "cloud_state", json::text_json("READY"));
        assert(json::members_view(members@) =~= result_members(self@));
        json::object(members)
    }

    fn validation_step(&mut self, event: RestoreEvent, progress: u8) -> (step: (
        Vec<JobNote>,
        RestoreAction,
    ))
        ensures
            restore_step_of(*final(self), step) == on_validation(old(self)@, event, progress),
    {
        reveal(on_validation);
        let phase = self.phase;
        let mut notes: Vec<JobNote> = Vec::new();
        assert(note::notes_view(notes@) =~= Seq::<NoteView>::empty());
        match event {
            RestoreEvent::Pointed(result) => {
                if phase != RestorePhase::Pointing {
                    return self.go(phase, RestoreAction::Ignore);
                }
                match result {
                    Err(cause) => self.fail(cause.as_str(), progress),
                    Ok(_) => {
                        if !self.worker {
                            return self.fail("WORKER_UNAVAILABLE: worker GPU absent", progress);
                        }
                        note::put_report(
                            &mut notes,
                            JobStatus::Running,
                            "validating",
                            90,
                            "Validation locale du snapshot",
                        );
                        let body = worker::install_payload(
                            self.storage_id.as_str(),
                            self.repository.as_str(),
                            self.revision.as_str(),
                            &self.capabilities,
                            &WorkerInstallOptions::none(),
                        );
                        self.phase = RestorePhase::Validating;
                        (notes, RestoreAction::Validate(body))
                    },
                }
            },
            RestoreEvent::Validated(result) => {
                if phase != RestorePhase::Validating {
                    return self.go(phase, RestoreAction::Ignore);
                }
                match result {
                    Err(cause) => {
                        self.cause = cause;
                        self.phase = RestorePhase::PuttingBack;
                        (notes, RestoreAction::PutBack)
                    },
                    Ok(status) => {
                        if !status.installed || !status.weights_valid {
                            self.cause =
                            "SNAPSHOT_INVALID: le worker a refusé les poids restaurés".to_owned();
                            self.phase = RestorePhase::PuttingBack;
                            return (notes, RestoreAction::PutBack);
                        }
                        let document = self.outcome();
                        note::put_outcome(&mut notes, document);
                        note::put_report(
                            &mut notes,
                            JobStatus::Completed,
                            "completed",
                            100,
                            "Snapshot restauré et validé",
                        );
                        self.phase = RestorePhase::Ended;
                        (notes, RestoreAction::End)
                    },
                }
            },
            RestoreEvent::PutBack(result) => {
                if phase != RestorePhase::PuttingBack {
                    return self.go(phase, RestoreAction::Ignore);
                }
                match result {
                    Err(cause) => self.fail(cause.as_str(), progress),
                    Ok(_) => {
                        let cause = self.cause.clone();
                        self.fail(cause.as_str(), progress)
                    },
                }
            },
            _ => self.go(phase, RestoreAction::Ignore),
        }
    }

    /// Takes the step that follows from an event.
    pub fn step(&mut self, event: RestoreEvent, jobs: &Jobs) -> (step: (Vec<JobNote>, RestoreAction))
        ensures
            restore_step_of(*final(self), step) == restore_next(
                old(self)@,
                event,
                restore_progress(jobs@, old(self).job_id),
            ),
    {
        let progress: u8 = match jobs.find(self.job_id) {
            Some(at) => {
                let reached: u8 = jobs.list[at].progress;
                if reached < 99 {
                    reached
                } else {
                    99
                }
            },
            None => 0,
        };
        match self.phase {
            RestorePhase::Ready
            | RestorePhase::Seeding
            | RestorePhase::Fetching
            | RestorePhase::Promoting => self.files_step(event, progress),
            _ => self.validation_step(event, progress),
        }
    }
}

/// How far the fetching of a snapshot stands. `rounded` is four fifths of the
/// share done in percent, and five, rounded.
pub open spec fn fetch_progress(rounded: u8) -> u8 {
    if rounded < 5 {
        5
    } else if rounded > 85 {
        85
    } else {
        rounded
    }
}

/// A job after a report on the fetching of its snapshot.
pub open spec fn fetching(job: JobView, transfer: TransferView, rounded: u8, now: u64) -> JobView {
    JobView {
        status: JobStatus::Running,
        stage: "restoring"@,
        progress: fetch_progress(rounded),
        message: "Restauration S3 · "@ + transfer.percent + "%"@,
        transfer: Some(transfer.document),
        started_at: if job.started_at is Some {
            job.started_at
        } else {
            Some(now)
        },
        updated_at: now,
        ..job
    }
}

/// Records how far the fetching of a snapshot stands; `false` where the job is
/// unknown.
pub fn report_fetching(jobs: &mut Jobs, id: u128, transfer: TransferReport, rounded: u8, now: u64) -> (known:
    bool)
    requires
        old(jobs).wf(),
    ensures
        final(jobs).wf(),
        known == (job::place(old(jobs)@, id) is Some),
        final(jobs)@ == job::revised(
            old(jobs)@,
            id,
            |job: JobView| fetching(job, transfer@, rounded, now),
        ),
{
    let ghost before = jobs@;
    let ghost told = transfer@;
    match jobs.find(id) {
        Some(at) => {
            let message = text::concat3("Restauration S3 · ", transfer.percent.as_str(), "%");
            jobs.list[at].status = JobStatus::Running;
            jobs.list[at].stage = "restoring".to_owned();
            jobs.list[at].progress = if rounded < 5 {
                5
            } else if rounded > 85 {
                85
            } else {
                rounded
            };
            jobs.list[at].message = message;
            jobs.list[at].transfer = Some(transfer.document);
            if jobs.list[at].started_at.is_none() {
                jobs.list[at].started_at = Some(now);
            }
            jobs.list[at].updated_at = now;
            assert(jobs@ =~= before.update(
                at as int,
                fetching(before[at as int], told, rounded, now),
            ));
            assert(job::ids(jobs@) =~= job::ids(before));
            true
        },
        None => false,
    }
}

// ---------------------------------------------------------------------------
// Laws
// ---------------------------------------------------------------------------

/// The identity of a snapshot tells revisions of one repository apart, and tells
/// all snapshots apart of repositories without an at sign.
pub proof fn law_identities_tell_snapshots_apart(
    left: Seq<char>,
    left_revision: Seq<char>,
    right: Seq<char>,
    right_revision: Seq<char>,
)
    requires
        identity_of(left, left_revision) == identity_of(right, right_revision),
        left == right || (!left.contains('@') && !right.contains('@')),
    ensures
        left == right,
        left_revision == right_revision,
{
    reveal_strlit("@");
    let one = identity_of(left, left_revision);
    let two = identity_of(right, right_revision);
    if left.len() < right.len() {
        assert(one[left.len() as int] == '@');
        assert(two[left.len() as int] == right[left.len() as int]);
        assert(right.contains('@'));
    }
    if right.len() < left.len() {
        assert(two[right.len() as int] == '@');
        assert(one[right.len() as int] == left[right.len() as int]);
        assert(left.contains('@'));
    }
    assert forall|i: int| 0 <= i < left.len() implies left[i] == right[i] by {
        assert(one[i] == left[i]);
        assert(two[i] == right[i]);
    }
    assert(left =~= right);
    assert(one.len() == left.len() + 1 + left_revision.len());
    assert(two.len() == right.len() + 1 + right_revision.len());
    assert forall|i: int| 0 <= i < left_revision.len() implies left_revision[i]
        == right_revision[i] by {
        assert(one[left.len() + 1 + i] == left_revision[i]);
        assert(two[left.len() + 1 + i] == right_revision[i]);
    }
    assert(left_revision =~= right_revision);
}

/// A selection gives exactly what was asked for: as many snapshots as were
/// selected, each of the repository and the revision that was selected.
pub proof fn law_selections_are_exact(
    available: Seq<ManifestView>,
    requested: Seq<SelectionView>,
    i: int,
)
    requires
        selected(available, requested) is Ok,
        0 <= i < requested.len(),
    ensures
        ({
            let found = selected(available, requested)->Ok_0;
            &&& found.len() == requested.len()
            &&& found[i].repository == requested[i].repository
            &&& found[i].revision == requested[i].revision
            &&& available.contains(found[i])
        }),
    decreases requested.len(),
{
    let rest = requested.drop_last();
    lemma_selected_length(available, rest);
    if i < rest.len() {
        law_selections_are_exact(available, rest, i);
        assert(rest[i] == requested[i]);
    } else {
        lemma_manifest_for(available, requested.last());
    }
}

proof fn lemma_selected_length(available: Seq<ManifestView>, requested: Seq<SelectionView>)
    ensures
        selected(available, requested) matches Ok(found) ==> found.len() == requested.len(),
    decreases requested.len(),
{
    if requested.len() > 0 {
        lemma_selected_length(available, requested.drop_last());
    }
}

proof fn lemma_manifest_for(available: Seq<ManifestView>, wanted: SelectionView)
    ensures
        manifest_for(available, wanted) matches Some(found) ==> found.repository
            == wanted.repository && found.revision == wanted.revision && available.contains(found),
    decreases available.len(),
{
    if available.len() > 0 {
        let rest = available.drop_last();
        lemma_manifest_for(rest, wanted);
        match manifest_for(rest, wanted) {
            Some(found) => {
                let k = choose|k: int| 0 <= k < rest.len() && rest[k] == found;
                assert(available[k] == found);
            },
            None => {},
        }
        assert(available[available.len() - 1] == available.last());
    }
}

/// A restoration succeeds only where the worker has validated the files, and one
/// whose files the worker refused puts the revision in use back before it fails.
pub proof fn law_refused_snapshots_are_put_back(
    run: RestoreRunView,
    event: RestoreEvent,
    progress: u8,
)
    ensures
        ({
            let step = restore_next(run, event, progress);
            &&& run.phase == RestorePhase::Validating && step.run.phase == RestorePhase::Ended
                ==> (event matches RestoreEvent::Validated(Ok(status)) && status.installed
                && status.weights_valid)
            &&& run.phase == RestorePhase::Validating && step.run.phase != run.phase
                && step.run.phase != RestorePhase::Ended ==> step.action
                == RestoreActionView::PutBack
            &&& run.phase == RestorePhase::PuttingBack && step.run.phase == RestorePhase::Ended
                ==> step.notes.len() == 1 && (step.notes[0] matches NoteView::Report(report)
                && report.status == JobStatus::Failed)
        }),
{
    reveal(on_files);
    reveal(on_validation);
}

/// A restoration that is over stays over, and it is over exactly where it says so.
pub proof fn law_restorations_end_once(run: RestoreRunView, event: RestoreEvent, progress: u8)
    ensures
        ({
            let step = restore_next(run, event, progress);
            &&& run.phase == RestorePhase::Ended ==> step.run == run && step.notes.len() == 0
            &&& run.phase != RestorePhase::Ended ==> (step.run.phase == RestorePhase::Ended
                <==> step.action is End)
        }),
{
    reveal(on_files);
    reveal(on_validation);
}

/// Once a snapshot is claimed, no other job can claim it until it is released.
pub proof fn law_claims_exclude(held: Seq<(Seq<char>, u128)>, job: JobView, other: JobView)
    requires
        job.target_id == other.target_id,
    ensures
        busy(all_claimed(held, seq![job]), seq![other]),
{
    let after = all_claimed(held, seq![job]);
    reveal_with_fuel(all_claimed, 2);
    assert(seq![job].drop_last() =~= Seq::<JobView>::empty());
    let names = held_names(held);
    names.index_of_first_ensures(job.target_id);
    match names.index_of_first(job.target_id) {
        Some(at) => {
            assert(held_names(after)[at] == job.target_id);
        },
        None => {
            assert(held_names(after)[held.len() as int] == job.target_id);
        },
    }
    assert(is_held(after, seq![other][0].target_id));
}

/// A snapshot that was released is no longer held, and every other claim stands.
pub proof fn law_released_snapshots_are_free(held: Seq<(Seq<char>, u128)>, name: Seq<char>)
    requires
        held_names(held).no_duplicates(),
    ensures
        held_names(released(held, name)).no_duplicates(),
        !is_held(released(held, name), name),
        forall|other: Seq<char>|
            other != name ==> #[trigger] is_held(released(held, name), other) == is_held(
                held,
                other,
            ),
{
    let names = held_names(held);
    names.index_of_first_ensures(name);
    match names.index_of_first(name) {
        Some(at) => {
            let left = held_names(released(held, name));
            assert(left =~= names.remove(at));
            assert forall|i: int| 0 <= i < left.len() implies left[i] != name by {
                let k = if i < at {
                    i
                } else {
                    i + 1
                };
                assert(left[i] == names[k]);
            }
            assert forall|other: Seq<char>| other != name implies #[trigger] is_held(
                released(held, name),
                other,
            ) == is_held(held, other) by {
                if names.contains(other) {
                    let k = choose|k: int| 0 <= k < names.len() && names[k] == other;
                    assert(left[if k < at {
                        k
                    } else {
                        k - 1
                    }] == other);
                }
                if left.contains(other) {
                    let i = choose|i: int| 0 <= i < left.len() && left[i] == other;
                    assert(names[if i < at {
                        i
                    } else {
                        i + 1
                    }] == other);
                }
            }
        },
        None => {},
    }
}

/// What is said of a snapshot in the cloud is how its latest restoration stands:
/// ready only where that has completed, failed where it failed or was cut off,
/// restoring while it goes on, and available where there was none or it was called
/// off.
pub proof fn law_cloud_states_tell_the_latest_restoration(
    jobs: Seq<JobView>,
    repository: Seq<char>,
    revision: Seq<char>,
    other: int,
)
    requires
        0 <= other < jobs.len(),
    ensures
        ({
            let target = repository + "@"@ + revision;
            let found = installed::latest(jobs, restores(target));
            let word = cloud_word(found);
            let restored = jobs[other].kind == JobKind::RestoreModel && jobs[other].target_id
                == identity_of(repository, revision);
            &&& found matches Some(job) ==> job.kind == JobKind::RestoreModel && job.target_id
                == target && jobs.contains(job) && (restored ==> jobs[other].updated_at
                <= job.updated_at)
            &&& restored ==> found is Some
            &&& word == "READY"@ <==> (found matches Some(job) && job.status
                == JobStatus::Completed)
            &&& word == "FAILED"@ <==> (found matches Some(job) && (job.status == JobStatus::Failed
                || job.status == JobStatus::Interrupted))
            &&& word == "RESTORING"@ <==> (found matches Some(job) && (job.status
                == JobStatus::Queued || job.status == JobStatus::Dispatching || job.status
                == JobStatus::Running || job.status == JobStatus::SavingOutput))
            &&& word == "AVAILABLE"@ <==> (found is None || found->0.status
                == JobStatus::Cancelled || found->0.status == JobStatus::PendingRetry)
        }),
{
    let target = repository + "@"@ + revision;
    installed::law_the_latest_job_is_found(jobs, restores(target), other);
    reveal_strlit("READY");
    reveal_strlit("FAILED");
    reveal_strlit("RESTORING");
    reveal_strlit("AVAILABLE");
    assert("READY"@.len() == 5 && "FAILED"@.len() == 6 && "RESTORING"@.len() == 9
        && "AVAILABLE"@.len() == 9);
    assert("RESTORING"@[0] == 'R' && "AVAILABLE"@[0] == 'A');
}

/// A model on the disk is ready where the worker says so, installed where the
/// revision in use is this one, and absent otherwise.
pub proof fn law_local_states_tell_the_disk(
    ready: bool,
    active: Option<Seq<char>>,
    revision: Seq<char>,
)
    ensures
        local_word(ready, active, revision) == "READY"@ <==> ready,
        local_word(ready, active, revision) == "INSTALLED"@ <==> !ready && active is Some
            && active->0 == revision,
        local_word(ready, active, revision) == "ABSENT"@ <==> !ready && (active is None || active->0
            != revision),
{
    reveal_strlit("READY");
    reveal_strlit("INSTALLED");
    reveal_strlit("ABSENT");
    assert("READY"@.len() == 5 && "INSTALLED"@.len() == 9 && "ABSENT"@.len() == 6);
}

/// A model counts as ready exactly where the worker names it with the state READY.
pub proof fn law_ready_models_are_those_the_worker_names(models: Seq<JsonView>, name: Seq<char>)
    ensures
        ready_among(models).contains(name) <==> exists|i: int|
            0 <= i < models.len() && (#[trigger] models[i]).text_member("state"@) == Some("READY"@)
                && models[i].text_member("model_id"@) == Some(name),
    decreases models.len(),
{
    let all = ready_among(models);
    if models.len() > 0 {
        let rest = models.drop_last();
        let before = ready_among(rest);
        law_ready_models_are_those_the_worker_names(rest, name);
        assert forall|i: int| 0 <= i < rest.len() implies rest[i] == models[i] by {}
        if all.contains(name) {
            let k = choose|k: int| 0 <= k < all.len() && all[k] == name;
            if k < before.len() {
                assert(before[k] == name);
                assert(before.contains(name));
                let i = choose|i: int|
                    0 <= i < rest.len() && (#[trigger] rest[i]).text_member("state"@) == Some(
                        "READY"@,
                    ) && rest[i].text_member("model_id"@) == Some(name);
                assert(models[i] == rest[i]);
            } else {
                assert(models[models.len() - 1] == models.last());
            }
        }
        if exists|i: int|
            0 <= i < models.len() && (#[trigger] models[i]).text_member("state"@) == Some("READY"@)
                && models[i].text_member("model_id"@) == Some(name) {
            let i = choose|i: int|
                0 <= i < models.len() && (#[trigger] models[i]).text_member("state"@) == Some(
                    "READY"@,
                ) && models[i].text_member("model_id"@) == Some(name);
            if i < rest.len() {
                assert(rest[i] == models[i]);
                let k = choose|k: int| 0 <= k < before.len() && before[k] == name;
                assert(all[k] == name);
            } else {
                assert(all[all.len() - 1] == name);
            }
        }
    }
}

/// A restoration is taken on for 1 to 20 snapshots of a store that is in use.
pub proof fn law_restorations_are_admitted(storage: bool, count: nat)
    ensures
        restore_refusal(storage, count) is None <==> storage && 1 <= count <= 20,
        !storage ==> (restore_refusal(storage, count) matches Some(refusal) && refusal.0 == 409),
        storage && (count == 0 || count > 20) ==> (restore_refusal(storage, count) matches Some(
            refusal,
        ) && refusal.0 == 400),
{
}

/// A selection is refused where a snapshot is named twice or is not there, and
/// only then.
pub proof fn law_selections_are_refused_for_a_reason(
    available: Seq<ManifestView>,
    requested: Seq<SelectionView>,
)
    ensures
        selected(available, requested) is Err ==> (exists|i: int, j: int|
            0 <= i < j < requested.len() && #[trigger] requested[i] == #[trigger] requested[j]) || (
        exists|i: int|
            0 <= i < requested.len() && manifest_for(available, #[trigger] requested[i]) is None),
    decreases requested.len(),
{
    if requested.len() > 0 {
        let rest = requested.drop_last();
        law_selections_are_refused_for_a_reason(available, rest);
        assert forall|i: int| 0 <= i < rest.len() implies rest[i] == requested[i] by {}
        let last = requested.len() - 1;
        if selected(available, rest) is Err {
            if exists|i: int, j: int|
                0 <= i < j < rest.len() && #[trigger] rest[i] == #[trigger] rest[j] {
                let (i, j) = choose|i: int, j: int|
                    0 <= i < j < rest.len() && #[trigger] rest[i] == #[trigger] rest[j];
                assert(requested[i] == requested[j]);
            } else {
                let i = choose|i: int|
                    0 <= i < rest.len() && manifest_for(available, #[trigger] rest[i]) is None;
                assert(requested[i] == rest[i]);
            }
        } else if selected(available, requested) is Err {
            if repeats(rest, requested.last()) {
                let i = choose|i: int| 0 <= i < rest.len() && #[trigger] rest[i] == requested.last();
                assert(requested[i] == requested[last]);
            } else {
                assert(manifest_for(available, requested[last]) is None);
            }
        }
    }
}

/// The job of a restoration names the snapshot and waits.
pub proof fn law_restorations_name_their_snapshot(id: u128, manifest: ManifestView, now: u64)
    ensures
        ({
            let job = restore_job(id, manifest, now);
            &&& job.id == id && job.kind == JobKind::RestoreModel
            &&& job.target_id == manifest.repository + "@"@ + manifest.revision
            &&& job.model_id == Some(manifest.repository)
            &&& job.status == JobStatus::Queued && job.progress == 0
            &&& job.created_at == now && job.updated_at == now
            &&& job.error is None && job.result is None
        }),
{
}

/// A restored file is right where it may be there, has the size that the manifest
/// gives and, where the manifest gives one, the digest.
pub proof fn law_restored_files_are_those_of_the_manifest(file: SnapshotFileView, facts: FileFacts)
    ensures
        file_matches(file, facts) ==> facts.allowed && facts.size == Some(file.size) && (
        file.sha256 matches Some(expected) ==> (facts.content matches Some(content)
            && digest::hex_form(digest::sha256(content@)) == expected)),
        facts.allowed && facts.size == Some(file.size) && file.sha256 is None ==> file_matches(
            file,
            facts,
        ),
        file.sha256 is Some && facts.content is Some && digest::hex_form(
            digest::sha256(facts.content->0@),
        ) == file.sha256->0 && facts.allowed && facts.size == Some(file.size) ==> file_matches(
            file,
            facts,
        ),
{
}

/// A snapshot that is right already is kept and the restored copy thrown away; one
/// that is wrong is set aside before the restored one takes its place, and where
/// nothing is in place the restored one is moved at once.
pub proof fn law_the_snapshot_in_place_decides(cause: Seq<char>, right: bool, present: bool)
    ensures
        ({
            let run = PromotionView { phase: PromotePhase::Checking, cause };
            let (after, action) = promote_next(run, PromoteEvent::Checked(right, present));
            &&& right ==> action is Discard
            &&& !right && present ==> action is SetAside
            &&& !right && !present ==> action is Move
            &&& after.phase != PromotePhase::Checking && after.phase != PromotePhase::Ended
        }),
{
}

/// A step of a replacement that fails is told, and one that succeeds leads on; what
/// is left over at the end does not matter.
pub proof fn law_failed_steps_are_told(run: PromotionView, cause: String)
    ensures
        ({
            let failed = promote_next(run, PromoteEvent::Done(Err(cause)));
            let done = promote_next(run, PromoteEvent::Done(Ok(())));
            &&& run.phase == PromotePhase::Discarding || run.phase == PromotePhase::SettingAside
                || run.phase == PromotePhase::Moving ==> failed.1 == PromoteActionView::Finish(
                Err(cause@),
            )
            &&& run.phase == PromotePhase::Discarding || run.phase == PromotePhase::Moving
                || run.phase == PromotePhase::Removing ==> done.1 == PromoteActionView::Finish(
                Ok(()),
            )
            &&& run.phase == PromotePhase::Removing ==> failed.1 == PromoteActionView::Finish(
                Ok(()),
            )
            &&& run.phase == PromotePhase::MovingBack ==> done.1 == PromoteActionView::Finish(
                Err(run.cause),
            ) && failed.1 == PromoteActionView::Finish(Err(run.cause))
            &&& run.phase == PromotePhase::Replacing ==> failed.1 is MoveBack && failed.0.cause
                == cause@ && done.1 is Remove
            &&& run.phase == PromotePhase::SettingAside ==> done.1 is Move
        }),
{
}

/// A restoration makes available what is on the disk, fetches the rest, puts the
/// snapshot in its place, points at it, and has the worker validate it, in that
/// order; it has only completed where the worker found the weights valid.
#[verifier::spinoff_prover]
pub proof fn law_restorations_go_step_by_step(
    run: RestoreRunView,
    event: RestoreEvent,
    progress: u8,
)
    ensures
        ({
            let step = restore_next(run, event, progress);
            &&& run.phase == RestorePhase::Ready && event is Begin ==> step.action is Seed
                && step.run.phase == RestorePhase::Seeding
            &&& run.phase == RestorePhase::Seeding ==> (event matches RestoreEvent::Seeded(Ok(_))
                ==> step.action is Fetch && step.run.phase == RestorePhase::Fetching)
            &&& run.phase == RestorePhase::Fetching ==> (event matches RestoreEvent::Fetched(
                Ok(found),
            ) ==> (found ==> step.action is Promote && step.run.phase == RestorePhase::Promoting)
                && (!found ==> step.run.phase == RestorePhase::Ended))
            &&& run.phase == RestorePhase::Promoting ==> (event matches RestoreEvent::Promoted(
                Ok(_),
            ) ==> step.run.phase == RestorePhase::Pointing && (step.action
                matches RestoreActionView::Point(document) && document.text_member("model_id"@)
                == Some(run.storage_id) && document.text_member("repository"@) == Some(
                run.repository,
            ) && document.text_member("revision"@) == Some(run.revision)))
            &&& run.phase == RestorePhase::Pointing && run.worker ==> (event
                matches RestoreEvent::Pointed(Ok(_)) ==> step.run.phase == RestorePhase::Validating
                && (step.action matches RestoreActionView::Validate(body) && body.text_member(
                "model_id"@,
            ) == Some(run.storage_id) && body.text_member("repository"@) == Some(run.repository)
                && body.text_member("revision"@) == Some(run.revision)))
            &&& run.phase == RestorePhase::Pointing && !run.worker && event is Pointed
                ==> step.run.phase == RestorePhase::Ended && step.action is End
        }),
{
    reveal(on_files);
    reveal(on_validation);
    let pointer = installed::pointer_members(run.storage_id, run.repository, run.revision);
    crate::member::lemma_members(pointer);
    reveal_with_fuel(crate::member::first_named, 5);
    assert(pointer.len() == 3);
    worker::lemma_names_of_members();
    worker::law_installations_are_told_in_full(
        run.storage_id,
        run.repository,
        run.revision,
        run.capabilities,
        worker::no_options(),
    );
}

/// What goes wrong in a restoration is told as the failure of its job, with its
/// cause; what succeeds is told with the snapshot that it put in place.
#[verifier::spinoff_prover]
pub proof fn law_restorations_tell_how_they_end(
    run: RestoreRunView,
    event: RestoreEvent,
    cause: String,
    progress: u8,
)
    ensures
        ({
            let step = restore_next(run, event, progress);
            let broken = {
                ||| run.phase == RestorePhase::Seeding && event == RestoreEvent::Seeded(Err(cause))
                ||| run.phase == RestorePhase::Fetching && event == RestoreEvent::Fetched(
                    Err(cause),
                )
                ||| run.phase == RestorePhase::Promoting && event == RestoreEvent::Promoted(
                    Err(cause),
                )
                ||| run.phase == RestorePhase::Pointing && event == RestoreEvent::Pointed(
                    Err(cause),
                )
                ||| run.phase == RestorePhase::PuttingBack && event == RestoreEvent::PutBack(
                    Err(cause),
                )
            };
            &&& broken ==> step.run.phase == RestorePhase::Ended && step.notes.len() == 1 && (
            step.notes[0] matches NoteView::Report(report) && report.status == JobStatus::Failed
                && report.message == cause@)
            &&& run.phase == RestorePhase::Validating && event == RestoreEvent::Validated(
                Err(cause),
            ) ==> step.action is PutBack && step.run.cause == cause@
            &&& run.phase == RestorePhase::PuttingBack && event == RestoreEvent::PutBack(Ok(()))
                ==> step.notes.len() == 1 && (step.notes[0] matches NoteView::Report(report)
                && report.status == JobStatus::Failed && report.message == run.cause)
            &&& run.phase == RestorePhase::Validating ==> (event matches RestoreEvent::Validated(
                Ok(status),
            ) ==> status.installed && status.weights_valid ==> step.notes.len() == 2 && (
            step.notes[0] matches NoteView::Outcome(result) && result.text_member("repository"@)
                == Some(run.repository) && result.text_member("revision"@) == Some(run.revision)
                && result.text_member("model_id"@) == Some(run.storage_id)
                && result.text_member("local_state"@) == Some("INSTALLED"@)
                && result.text_member("cloud_state"@) == Some("READY"@)) && (step.notes[1]
                matches NoteView::Report(report) && report.status == JobStatus::Completed
                && report.progress == 100))
        }),
{
    reveal(on_files);
    reveal(on_validation);
    let members = result_members(run);
    crate::member::lemma_members(members);
    reveal_with_fuel(crate::member::first_named, 7);
    assert(members.len() == 5);
    worker::lemma_names_of_members();
    reveal_strlit("local_state");
    reveal_strlit("cloud_state");
    assert("local_state"@.len() == 11 && "cloud_state"@.len() == 11 && "local_state"@[0] == 'l'
        && "cloud_state"@[0] == 'c');
}

/// While files are fetched the job runs, between 5 and 85 percent, and says how far
/// the transfer is; it began when it was first reported.
pub proof fn law_fetching_is_reported(
    job: JobView,
    transfer: TransferView,
    rounded: u8,
    now: u64,
)
    ensures
        ({
            let after = fetching(job, transfer, rounded, now);
            &&& after.status == JobStatus::Running && after.updated_at == now
            &&& 5 <= after.progress <= 85
            &&& 5 <= rounded <= 85 ==> after.progress == rounded
            &&& after.transfer == Some(transfer.document)
            &&& job.started_at is Some ==> after.started_at == job.started_at
            &&& job.started_at is None ==> after.started_at == Some(now)
            &&& after.id == job.id && after.target_id == job.target_id && after.kind == job.kind
        }),
{
}

/// The failure of a restoration is reported where its job stood, and below the end.
pub proof fn law_failures_keep_the_progress(jobs: Seq<JobView>, job_id: u128)
    ensures
        restore_progress(jobs, job_id) <= 99,
        job::place(jobs, job_id) matches Some(at) ==> jobs[at].progress <= 99 ==> restore_progress(
            jobs,
            job_id,
        ) == jobs[at].progress,
{
}

} // verus!
