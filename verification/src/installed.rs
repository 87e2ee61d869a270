//! The models that are on the disk.
use crate::job;
use crate::job::{CloudBackupStatus, Job, JobView, Jobs};
use crate::json;
use crate::json::{Json, JsonView};
use crate::order;
use crate::pack;
use crate::pack::{CatalogModelStatus, ModelPack, PackView};
use crate::text;
use crate::worker::{ModelStatusView, WorkerModelStatus};
use vstd::prelude::*;
use vstd::string::*;

verus! {

/// What the file in the directory of a model says of the revision that is in use.
#[derive(Debug)]
pub struct InstalledPointer {
    pub revision: String,
    pub repository: Option<String>,
}

/// What [`InstalledPointer`] says.
#[verifier::ext_equal]
pub struct PointerView {
    pub revision: Seq<char>,
    pub repository: Option<Seq<char>>,
}

impl View for InstalledPointer {
    type V = PointerView;

    open spec fn view(&self) -> PointerView {
        PointerView {
            revision: self.revision@,
            repository: text::opt(self.repository),
        }
    }
}

impl InstalledPointer {
    /// A copy of the value.
    pub fn copy(&self) -> (copy: Self)
        ensures
            copy@ == self@,
    {
        InstalledPointer {
            revision: self.revision.clone(),
            repository: text::copy_opt(&self.repository),
        }
    }
}

/// What is known of a model on the disk before a pack is looked for.
#[derive(Debug)]
pub struct InstalledIdentity {
    pub storage_id: String,
    pub repository: String,
    pub revision: String,
    pub capabilities: Vec<String>,
    pub pipeline_class: Option<String>,
    pub architectures: Vec<String>,
    pub pack_id: Option<String>,
    /// Whether the worker or the manifest tells of a pack.
    pub told: bool,
}

/// What [`InstalledIdentity`] says.
#[verifier::ext_equal]
pub struct IdentityView {
    pub storage_id: Seq<char>,
    pub repository: Seq<char>,
    pub revision: Seq<char>,
    pub capabilities: Seq<Seq<char>>,
    pub pipeline_class: Option<Seq<char>>,
    pub architectures: Seq<Seq<char>>,
    pub pack_id: Option<Seq<char>>,
    pub told: bool,
}

impl View for InstalledIdentity {
    type V = IdentityView;

    open spec fn view(&self) -> IdentityView {
        IdentityView {
            storage_id: self.storage_id@,
            repository: self.repository@,
            revision: self.revision@,
            capabilities: text::texts(self.capabilities@),
            pipeline_class: text::opt(self.pipeline_class),
            architectures: text::texts(self.architectures@),
            pack_id: text::opt(self.pack_id),
            told: self.told,
        }
    }
}

impl InstalledIdentity {
    /// A copy of the value.
    pub fn copy(&self) -> (copy: Self)
        ensures
            copy@ == self@,
    {
        InstalledIdentity {
            storage_id: self.storage_id.clone(),
            repository: self.repository.clone(),
            revision: self.revision.clone(),
            capabilities: text::copy_texts(&self.capabilities),
            pipeline_class: text::copy_opt(&self.pipeline_class),
            architectures: text::copy_texts(&self.architectures),
            pack_id: text::copy_opt(&self.pack_id),
            told: self.told,
        }
    }
}

/// A model on the disk, as it is shown.
#[derive(Debug)]
pub struct InstalledModelView {
    pub id: String,
    pub storage_id: String,
    pub repository: String,
    pub revision: String,
    pub state: String,
    pub stage: Option<String>,
    pub loaded: bool,
    pub capabilities: Vec<String>,
    pub precision: String,
    pub precision_plan: Option<Json>,
    pub pipeline_class: Option<String>,
    pub model_pack: Option<Json>,
    pub model_pack_id: Option<String>,
    pub model_pack_status: Option<CatalogModelStatus>,
    pub engine: Option<String>,
    pub workflow: Option<String>,
    pub cloud_backup_status: CloudBackupStatus,
    pub cloud_backup_error: Option<String>,
    pub size_bytes: u64,
    pub device: Option<String>,
    pub memory_strategy: Option<String>,
    pub memory_plan: Option<Json>,
    pub vram_bytes: u64,
    pub vram_peak_bytes: u64,
    pub ram_peak_bytes: u64,
    pub cpu_offload: bool,
    pub disk_offload: bool,
    pub error: Option<String>,
}

/// What [`InstalledModelView`] says.
#[verifier::ext_equal]
pub struct InstalledView {
    pub id: Seq<char>,
    pub storage_id: Seq<char>,
    pub repository: Seq<char>,
    pub revision: Seq<char>,
    pub state: Seq<char>,
    pub stage: Option<Seq<char>>,
    pub loaded: bool,
    pub capabilities: Seq<Seq<char>>,
    pub precision: Seq<char>,
    pub precision_plan: Option<JsonView>,
    pub pipeline_class: Option<Seq<char>>,
    pub model_pack: Option<JsonView>,
    pub model_pack_id: Option<Seq<char>>,
    pub model_pack_status: Option<CatalogModelStatus>,
    pub engine: Option<Seq<char>>,
    pub workflow: Option<Seq<char>>,
    pub cloud_backup_status: CloudBackupStatus,
    pub cloud_backup_error: Option<Seq<char>>,
    pub size_bytes: u64,
    pub device: Option<Seq<char>>,
    pub memory_strategy: Option<Seq<char>>,
    pub memory_plan: Option<JsonView>,
    pub vram_bytes: u64,
    pub vram_peak_bytes: u64,
    pub ram_peak_bytes: u64,
    pub cpu_offload: bool,
    pub disk_offload: bool,
    pub error: Option<Seq<char>>,
}

impl View for InstalledModelView {
    type V = InstalledView;

    open spec fn view(&self) -> InstalledView {
        InstalledView {
            id: self.id@,
            storage_id: self.storage_id@,
            repository: self.repository@,
            revision: self.revision@,
            state: self.state@,
            stage: text::opt(self.stage),
            loaded: self.loaded,
            capabilities: text::texts(self.capabilities@),
            precision: self.precision@,
            precision_plan: json::opt_view(self.precision_plan),
            pipeline_class: text::opt(self.pipeline_class),
            model_pack: json::opt_view(self.model_pack),
            model_pack_id: text::opt(self.model_pack_id),
            model_pack_status: self.model_pack_status,
            engine: text::opt(self.engine),
            workflow: text::opt(self.workflow),
            cloud_backup_status: self.cloud_backup_status,
            cloud_backup_error: text::opt(self.cloud_backup_error),
            size_bytes: self.size_bytes,
            device: text::opt(self.device),
            memory_strategy: text::opt(self.memory_strategy),
            memory_plan: json::opt_view(self.memory_plan),
            vram_bytes: self.vram_bytes,
            vram_peak_bytes: self.vram_peak_bytes,
            ram_peak_bytes: self.ram_peak_bytes,
            cpu_offload: self.cpu_offload,
            disk_offload: self.disk_offload,
            error: text::opt(self.error),
        }
    }
}

impl InstalledModelView {
    /// A copy of the value.
    pub fn copy(&self) -> (copy: Self)
        ensures
            copy@ == self@,
    {
        InstalledModelView {
            id: self.id.clone(),
            storage_id: self.storage_id.clone(),
            repository: self.repository.clone(),
            revision: self.revision.clone(),
            state: self.state.clone(),
            stage: text::copy_opt(&self.stage),
            loaded: self.loaded,
            capabilities: text::copy_texts(&self.capabilities),
            precision: self.precision.clone(),
            precision_plan: json::copy_opt(&self.precision_plan),
            pipeline_class: text::copy_opt(&self.pipeline_class),
            model_pack: json::copy_opt(&self.model_pack),
            model_pack_id: text::copy_opt(&self.model_pack_id),
            model_pack_status: self.model_pack_status,
            engine: text::copy_opt(&self.engine),
            workflow: text::copy_opt(&self.workflow),
            cloud_backup_status: self.cloud_backup_status,
            cloud_backup_error: text::copy_opt(&self.cloud_backup_error),
            size_bytes: self.size_bytes,
            device: text::copy_opt(&self.device),
            memory_strategy: text::copy_opt(&self.memory_strategy),
            memory_plan: json::copy_opt(&self.memory_plan),
            vram_bytes: self.vram_bytes,
            vram_peak_bytes: self.vram_peak_bytes,
            ram_peak_bytes: self.ram_peak_bytes,
            cpu_offload: self.cpu_offload,
            disk_offload: self.disk_offload,
            error: text::copy_opt(&self.error),
        }
    }
}

// ---------------------------------------------------------------------------
// Finding a model on the disk
// ---------------------------------------------------------------------------

/// A directory of models and what its file says.
#[derive(Debug)]
pub struct ModelDirectory {
    pub name: String,
    pub pointer: Option<InstalledPointer>,
}

/// Whether a directory holds a model, by the name of its store or by its
/// repository.
pub open spec fn holds(directory: ModelDirectory, storage_id: Seq<char>, id: Seq<char>) -> bool {
    match directory.pointer {
        Some(pointer) => directory.name@ == storage_id || pointer@.repository == Some(id),
        None => false,
    }
}

/// Finds a model on the disk: the name of its directory and its revision.
/// `storage_id` is the name under which a model with this identifier is stored.
pub fn installed_storage_id(directories: &Vec<ModelDirectory>, storage_id: &str, id: &str) -> (found:
    Option<(String, String)>)
    ensures
        match found {
            Some((name, revision)) => exists|k: int|
                0 <= k < directories@.len() && holds(
                    #[trigger] directories@[k],
                    storage_id@,
                    id@,
                ) && name@ == directories@[k].name@ && revision@
                    == directories@[k].pointer->0@.revision && forall|j: int|
                    0 <= j < k ==> !holds(#[trigger] directories@[j], storage_id@, id@),
            None => forall|k: int|
                0 <= k < directories@.len() ==> !holds(
                    #[trigger] directories@[k],
                    storage_id@,
                    id@,
                ),
        },
{
    for k in 0..directories.len()
        invariant
            forall|j: int| 0 <= j < k ==> !holds(#[trigger] directories@[j], storage_id@, id@),
    {
        match &directories[k].pointer {
            Some(pointer) => {
                if *directories[k].name.as_str() == *storage_id || text::opt_is(
                    &pointer.repository,
                    id,
                ) {
                    let found = (directories[k].name.clone(), pointer.revision.clone());
                    assert(holds(directories@[k as int], storage_id@, id@));
                    return Some(found);
                }
            },
            None => {},
        }
    }
    None
}

/// A model as the disk records it.
#[derive(Debug)]
pub struct StoredModel {
    pub storage_id: String,
    pub repository: String,
    pub revision: Option<String>,
}

/// What [`StoredModel`] says.
#[verifier::ext_equal]
pub struct StoredView {
    pub storage_id: Seq<char>,
    pub repository: Seq<char>,
    pub revision: Option<Seq<char>>,
}

impl View for StoredModel {
    type V = StoredView;

    open spec fn view(&self) -> StoredView {
        StoredView {
            storage_id: self.storage_id@,
            repository: self.repository@,
            revision: text::opt(self.revision),
        }
    }
}

/// A model as the directories record it, from one of them on: the first that holds
/// it says under which name, from which repository and at which revision; where
/// none does, only the names are known by which it was asked for.
pub open spec fn recorded(
    directories: Seq<ModelDirectory>,
    storage_id: Seq<char>,
    id: Seq<char>,
) -> StoredView
    decreases directories.len(),
{
    if directories.len() == 0 {
        StoredView { storage_id, repository: id, revision: None }
    } else if holds(directories[0], storage_id, id) {
        StoredView {
            storage_id: directories[0].name@,
            repository: match directories[0].pointer->0@.repository {
                Some(repository) => repository,
                None => id,
            },
            revision: Some(directories[0].pointer->0@.revision),
        }
    } else {
        recorded(directories.skip(1), storage_id, id)
    }
}

/// A model as the disk records it.
pub fn recorded_model(directories: &Vec<ModelDirectory>, storage_id: &str, id: &str) -> (found:
    StoredModel)
    ensures
        found@ == recorded(directories@, storage_id@, id@),
{
    assert(directories@.skip(0) =~= directories@);
    for k in 0..directories.len()
        invariant
            recorded(directories@, storage_id@, id@) == recorded(
                directories@.skip(k as int),
                storage_id@,
                id@,
            ),
    {
        assert(directories@.skip(k as int).skip(1) =~= directories@.skip(k + 1));
        match &directories[k].pointer {
            Some(pointer) => {
                if *directories[k].name.as_str() == *storage_id || text::opt_is(
                    &pointer.repository,
                    id,
                ) {
                    let found = StoredModel {
                        storage_id: directories[k].name.clone(),
                        repository: match &pointer.repository {
                            Some(repository) => repository.clone(),
                            None => id.to_owned(),
                        },
                        revision: Some(pointer.revision.clone()),
                    };
                    assert(found@ =~= recorded(directories@, storage_id@, id@));
                    return found;
                }
            },
            None => {},
        }
    }
    let found = StoredModel {
        storage_id: storage_id.to_owned(),
        repository: id.to_owned(),
        revision: None,
    };
    assert(found@ =~= recorded(directories@, storage_id@, id@));
    found
}

/// The revision of a model that is on the disk: that of an engine of this service
/// is its own, that of another model the one that the file in its directory names.
pub fn installed_revision(local: bool, revision: &str, pointer: Option<&InstalledPointer>) -> (found:
    Option<String>)
    ensures
        text::opt(found) == if local {
            Some(revision@)
        } else {
            match pointer {
                Some(file) => Some(file@.revision),
                None => None,
            }
        },
{
    if local {
        return Some(revision.to_owned());
    }
    match pointer {
        Some(file) => Some(file.revision.clone()),
        None => None,
    }
}

/// Whether a directory may hold a model: those with a dot in front are kept for
/// other purposes.
pub fn may_hold_model(name: &str) -> (yes: bool)
    ensures
        yes == !text::opens(name@, "."@),
{
    !text::starts_with(name, ".")
}

/// The members of the file that names the revision in use.
pub open spec fn pointer_members(
    model_id: Seq<char>,
    repository: Seq<char>,
    revision: Seq<char>,
) -> Seq<(Seq<char>, JsonView)> {
    seq![
        ("model_id"@, JsonView::Text(model_id)),
        ("repository"@, JsonView::Text(repository)),
        ("revision"@, JsonView::Text(revision)),
    ]
}

/// The file that names the revision in use.
pub fn pointer_document(model_id: &str, repository: &str, revision: &str) -> (document: Json)
    ensures
        document@ == JsonView::Object(pointer_members(model_id@, repository@, revision@)),
{
    let mut members: Vec<(String, Json)> = Vec::new();
    json::put(&mut members, "model_id", json::text_json(model_id));
    json::put(&mut members, "repository", json::text_json(repository));
    json::put(&mut members, "revision", json::text_json(revision));
    assert(json::members_view(members@) =~= pointer_members(model_id@, repository@, revision@));
    json::object(members)
}

/// Whether a directory of downloads is one for a store.
pub open spec fn staged_for(name: Seq<char>, storage_id: Seq<char>) -> bool {
    text::opens(name, "download-"@ + storage_id + "-"@)
}

/// Whether a directory of downloads is one for a store.
pub fn is_staged_download(name: &str, storage_id: &str) -> (yes: bool)
    ensures
        yes == staged_for(name@, storage_id@),
{
    let prefix = text::concat3("download-", storage_id, "-");
    text::starts_with(name, prefix.as_str())
}

/// The sum of sizes.
pub open spec fn sum_of(sizes: Seq<u64>) -> nat
    decreases sizes.len(),
{
    if sizes.len() == 0 {
        0
    } else {
        sum_of(sizes.drop_last()) + sizes.last() as nat
    }
}

/// The sizes of files together, at most the largest number.
pub fn directory_size(sizes: &Vec<u64>) -> (total: u64)
    ensures
        total == if sum_of(sizes@) <= u64::MAX {
            sum_of(sizes@)
        } else {
            u64::MAX as nat
        },
{
    let mut total: u64 = 0;
    for i in 0..sizes.len()
        invariant
            total == if sum_of(sizes@.take(i as int)) <= u64::MAX {
                sum_of(sizes@.take(i as int))
            } else {
                u64::MAX as nat
            },
    {
        assert(sizes@.take(i + 1).drop_last() =~= sizes@.take(i as int));
        total = match total.checked_add(sizes[i]) {
            Some(sum) => sum,
            None => u64::MAX,
        };
    }
    assert(sizes@.take(sizes@.len() as int) =~= sizes@);
    total
}

// ---------------------------------------------------------------------------
// What a model on the disk is
// ---------------------------------------------------------------------------

/// What an optional answer of the worker says.
pub open spec fn opt_status(status: Option<&WorkerModelStatus>) -> Option<ModelStatusView> {
    match status {
        Some(answer) => Some(answer@),
        None => None,
    }
}

/// The text of an optional document.
pub open spec fn text_in(value: Option<JsonView>) -> Option<Seq<char>> {
    match value {
        Some(document) => document.text(),
        None => None,
    }
}

/// What was found first.
pub open spec fn first<T>(one: Option<T>, other: Option<T>) -> Option<T> {
    if one is Some {
        one
    } else {
        other
    }
}

/// The repository of a model on the disk.
pub open spec fn repository_of(storage_id: Seq<char>, pointer: PointerView, manifest: JsonView) -> Seq<
    char,
> {
    match first(pointer.repository, manifest.text_member("repository"@)) {
        Some(repository) => repository,
        None => storage_id,
    }
}

/// What a model on the disk can do: what the worker says, or else what its
/// manifest says.
pub open spec fn capabilities_of(manifest: JsonView, status: Option<ModelStatusView>) -> Seq<
    Seq<char>,
> {
    if status is Some && status->0.capabilities.len() > 0 {
        status->0.capabilities
    } else {
        json::texts_of(manifest.member_or("capabilities"@, "requested_capabilities"@))
    }
}

/// The pack that the worker or the manifest tells of.
pub open spec fn told_pack(manifest: JsonView, status: Option<ModelStatusView>) -> Option<JsonView> {
    first(
        match status {
            Some(answer) => answer.model_pack,
            None => None,
        },
        manifest.member("model_pack"@),
    )
}

/// The identifier of the pack that the worker or the manifest tells of: by
/// itself, as a member of the pack, or as the pack.
pub open spec fn told_pack_id(manifest: JsonView, status: Option<ModelStatusView>) -> Option<
    Seq<char>,
> {
    let pack = told_pack(manifest, status);
    first(
        match status {
            Some(answer) => answer.model_pack_id,
            None => None,
        },
        first(
            text_in(manifest.member_or("model_pack_id"@, "pack_id"@)),
            first(
                match pack {
                    Some(document) => document.text_member("id"@),
                    None => None,
                },
                text_in(pack),
            ),
        ),
    )
}

/// What is known of a model on the disk before a pack is looked for.
pub open spec fn identity_of(
    storage_id: Seq<char>,
    pointer: PointerView,
    manifest: JsonView,
    status: Option<ModelStatusView>,
) -> IdentityView {
    IdentityView {
        storage_id,
        repository: repository_of(storage_id, pointer, manifest),
        revision: pointer.revision,
        capabilities: capabilities_of(manifest, status),
        pipeline_class: first(
            match status {
                Some(answer) => answer.pipeline_class,
                None => None,
            },
            text_in(manifest.member_or("pipeline_class"@, "class_name"@)),
        ),
        architectures: match text_in(manifest.member_or("architecture"@, "class_name"@)) {
            Some(name) => seq![name],
            None => Seq::empty(),
        },
        pack_id: told_pack_id(manifest, status),
        told: told_pack(manifest, status) is Some || told_pack_id(manifest, status) is Some,
    }
}

fn text_or(manifest: &Json, key: &str, other: &str) -> (found: Option<String>)
    ensures
        text::opt(found) == text_in(manifest@.member_or(key@, other@)),
{
    match manifest.get_or(key, other) {
        Some(value) => match value.as_text() {
            Some(name) => Some(name.to_owned()),
            None => None,
        },
        None => None,
    }
}

fn find_told_pack<'a>(manifest: &'a Json, status: Option<&'a WorkerModelStatus>) -> (pack: Option<
    &'a Json,
>)
    ensures
        json::opt_ref_view(pack) == told_pack(manifest@, opt_status(status)),
{
    match status {
        Some(answer) => match &answer.model_pack {
            Some(pack) => Some(pack),
            None => manifest.get("model_pack"),
        },
        None => manifest.get("model_pack"),
    }
}

fn find_pack_id(manifest: &Json, status: Option<&WorkerModelStatus>) -> (id: Option<String>)
    ensures
        text::opt(id) == told_pack_id(manifest@, opt_status(status)),
{
    match status {
        Some(answer) => match &answer.model_pack_id {
            Some(id) => {
                return Some(id.clone());
            },
            None => {},
        },
        None => {},
    }
    match text_or(manifest, "model_pack_id", "pack_id") {
        Some(id) => {
            return Some(id);
        },
        None => {},
    }
    match find_told_pack(manifest, status) {
        Some(pack) => match pack.text_member("id") {
            Some(id) => Some(id.to_owned()),
            None => match pack.as_text() {
                Some(id) => Some(id.to_owned()),
                None => None,
            },
        },
        None => None,
    }
}

/// Finds out what a model on the disk is, from the file that names its revision,
/// its manifest and what the worker says of it.
pub fn identify(
    storage_id: &str,
    pointer: &InstalledPointer,
    manifest: &Json,
    status: Option<&WorkerModelStatus>,
) -> (identity: InstalledIdentity)
    ensures
        identity@ == identity_of(storage_id@, pointer@, manifest@, opt_status(status)),
{
    let repository = match &pointer.repository {
        Some(name) => name.clone(),
        None => match manifest.text_member("repository") {
            Some(name) => name.to_owned(),
            None => storage_id.to_owned(),
        },
    };
    let reported = match status {
        Some(answer) => text::copy_texts(&answer.capabilities),
        None => Vec::new(),
    };
    let capabilities = if reported.len() > 0 {
        reported
    } else {
        json::collect_texts(manifest.get_or("capabilities", "requested_capabilities"))
    };
    let from_status = match status {
        Some(answer) => text::copy_opt(&answer.pipeline_class),
        None => None,
    };
    let pipeline_class = match from_status {
        Some(name) => Some(name),
        None => text_or(manifest, "pipeline_class", "class_name"),
    };
    let mut architectures: Vec<String> = Vec::new();
    match text_or(manifest, "architecture", "class_name") {
        Some(name) => {
            architectures.push(name);
        },
        None => {},
    }
    let pack_id = find_pack_id(manifest, status);
    let told = pack_id.is_some() || find_told_pack(manifest, status).is_some();
    let identity = InstalledIdentity {
        storage_id: storage_id.to_owned(),
        repository,
        revision: pointer.revision.clone(),
        capabilities,
        pipeline_class,
        architectures,
        pack_id,
        told,
    };
    assert(identity@ =~= identity_of(storage_id@, pointer@, manifest@, opt_status(status)));
    identity
}

/// The pack of a model on the disk: the one that is told of, where it matches,
/// else the one that the registry chooses.
pub open spec fn canonical(
    pack_id: Option<Seq<char>>,
    matching: Seq<ModelPack>,
    resolved: Option<PackView>,
) -> Option<PackView> {
    match pack_id {
        Some(id) => first(pack::pack_named(matching, id), resolved),
        None => resolved,
    }
}

/// The pack of a model on the disk. `matching` are the packs that match it, and
/// `resolved` the one that the registry chooses for it.
pub fn canonical_pack<'a>(
    identity: &InstalledIdentity,
    matching: &'a Vec<ModelPack>,
    resolved: Option<&'a ModelPack>,
) -> (pack: Option<&'a ModelPack>)
    ensures
        pack::opt_pack(pack) == canonical(
            identity@.pack_id,
            matching@,
            pack::opt_pack(resolved),
        ),
{
    match &identity.pack_id {
        Some(id) => match pack::find_pack(matching, id.as_str()) {
            Some(found) => Some(found),
            None => resolved,
        },
        None => resolved,
    }
}

/// The last of the jobs on a model that was updated latest.
pub open spec fn latest(jobs: Seq<JobView>, wanted: spec_fn(JobView) -> bool) -> Option<JobView>
    decreases jobs.len(),
{
    if jobs.len() == 0 {
        None
    } else {
        let before = latest(jobs.drop_last(), wanted);
        if wanted(jobs.last()) && (before is None || before->0.updated_at
            <= jobs.last().updated_at) {
            Some(jobs.last())
        } else {
            before
        }
    }
}

/// Whether a job concerns a model on the disk.
pub open spec fn concerns(repository: Seq<char>, storage_id: Seq<char>) -> spec_fn(JobView) -> bool {
    |job: JobView|
        job.target_id == repository || job.target_id == storage_id || job.model_id == Some(
            repository,
        )
}

/// What an optional job says.
pub open spec fn opt_job(job: Option<&Job>) -> Option<JobView> {
    match job {
        Some(found) => Some(found@),
        None => None,
    }
}

fn find_job<'a>(jobs: &'a Jobs, repository: &str, storage_id: &str) -> (found: Option<&'a Job>)
    ensures
        opt_job(found) == latest(jobs@, concerns(repository@, storage_id@)),
{
    let mut found: Option<&'a Job> = None;
    let ghost wanted = concerns(repository@, storage_id@);
    for i in 0..jobs.list.len()
        invariant
            wanted == concerns(repository@, storage_id@),
            opt_job(found) == latest(jobs@.take(i as int), wanted),
    {
        assert(jobs@.take(i + 1).drop_last() =~= jobs@.take(i as int));
        assert(jobs@.take(i + 1).last() == jobs.list@[i as int]@);
        let job = &jobs.list[i];
        if *job.target_id.as_str() == *repository || *job.target_id.as_str() == *storage_id
            || text::opt_is(&job.model_id, repository) {
            let later = match found {
                Some(before) => before.updated_at <= job.updated_at,
                None => true,
            };
            if later {
                found = Some(job);
            }
        }
    }
    assert(jobs@.take(jobs@.len() as int) =~= jobs@);
    found
}

/// The sizes that files of a manifest declare.
pub open spec fn declared_sizes(files: Seq<JsonView>) -> Seq<u64>
    decreases files.len(),
{
    if files.len() == 0 {
        Seq::empty()
    } else {
        let rest = declared_sizes(files.drop_last());
        match files.last().member("size"@) {
            Some(JsonView::Integer(size)) => rest.push(size),
            _ => rest,
        }
    }
}

/// The bytes that a manifest declares.
pub open spec fn declared_bytes(manifest: JsonView) -> nat {
    match manifest.member("files"@) {
        Some(JsonView::List(files)) => sum_of(declared_sizes(files)),
        _ => 0,
    }
}

proof fn lemma_declared_grows(files: Seq<JsonView>, count: int)
    requires
        0 <= count <= files.len(),
    ensures
        sum_of(declared_sizes(files.take(count))) <= sum_of(declared_sizes(files)),
    decreases files.len() - count,
{
    if count < files.len() {
        lemma_declared_grows(files, count + 1);
        let longer = files.take(count + 1);
        assert(longer.drop_last() =~= files.take(count));
        let rest = declared_sizes(files.take(count));
        match longer.last().member("size"@) {
            Some(JsonView::Integer(size)) => {
                assert(rest.push(size).drop_last() =~= rest);
            },
            _ => {},
        }
    } else {
        assert(files.take(count) =~= files);
    }
}

/// The bytes that a manifest declares; `None` where their sum is too large.
pub fn declared_size(manifest: &Json) -> (size: Option<u64>)
    ensures
        match size {
            Some(bytes) => bytes == declared_bytes(manifest@),
            None => declared_bytes(manifest@) > u64::MAX,
        },
{
    match manifest.get("files") {
        Some(document) => match document {
            Json::List(files) => {
                let ghost all = json::items_view(files@);
                proof {
                    json::lemma_parts(*document);
                    assert(all.take(0) =~= Seq::<JsonView>::empty());
                }
                let mut total: u64 = 0;
                for i in 0..files.len()
                    invariant
                        all == json::items_view(files@),
                        manifest@.member("files"@) == Some(JsonView::List(all)),
                        total == sum_of(declared_sizes(all.take(i as int))),
                {
                    let ghost rest = declared_sizes(all.take(i as int));
                    proof {
                        assert(all.take(i + 1).drop_last() =~= all.take(i as int));
                        assert(all.take(i + 1).last() == files@[i as int]@);
                    }
                    let size = match files[i].get("size") {
                        Some(value) => value.as_integer(),
                        None => None,
                    };
                    match size {
                        Some(bytes) => {
                            proof {
                                assert(rest.push(bytes).drop_last() =~= rest);
                                lemma_declared_grows(all, i + 1);
                            }
                            match total.checked_add(bytes) {
                                Some(sum) => {
                                    total = sum;
                                },
                                None => {
                                    return None;
                                },
                            }
                        },
                        None => {},
                    }
                }
                assert(all.take(all.len() as int) =~= all);
                Some(total)
            },
            _ => Some(0),
        },
        None => Some(0),
    }
}

/// The pack that is shown of a model on the disk: none where neither the worker nor
/// the manifest tells of one.
pub open spec fn shown_pack(identity: IdentityView, pack: Option<PackView>) -> Option<PackView> {
    if identity.told {
        pack
    } else {
        None
    }
}

/// How a model on the disk is shown. `document` is the pack as a document,
/// `declared` the size that its manifest tells, and `measured` the size of its
/// files.
pub open spec fn shown(
    identity: IdentityView,
    pack: Option<PackView>,
    document: Option<JsonView>,
    status: Option<ModelStatusView>,
    jobs: Seq<JobView>,
    declared: u64,
    measured: u64,
) -> InstalledView {
    let job = latest(jobs, concerns(identity.repository, identity.storage_id));
    let exposed = shown_pack(identity, pack);
    let precision_plan = match status {
        Some(answer) => answer.precision_plan,
        None => None,
    };
    let memory_plan = match status {
        Some(answer) => answer.memory_plan,
        None => None,
    };
    let strategy = match memory_plan {
        Some(plan) => plan.text_member("strategy"@),
        None => None,
    };
    let benchmark = match status {
        Some(answer) => answer.benchmark,
        None => None,
    };
    InstalledView {
        id: identity.repository,
        storage_id: identity.storage_id,
        repository: identity.repository,
        revision: identity.revision,
        state: if status is Some && (status->0.state != "READY"@ || pack is Some) {
            status->0.state
        } else {
            "INSTALLED"@
        },
        stage: match status {
            Some(answer) => answer.stage,
            None => None,
        },
        loaded: pack is Some && status is Some && status->0.ready,
        capabilities: identity.capabilities,
        precision: match precision_plan {
            Some(plan) => match plan.text_member("resolved"@) {
                Some(name) => name,
                None => "AUTO"@,
            },
            None => "AUTO"@,
        },
        precision_plan,
        pipeline_class: identity.pipeline_class,
        model_pack: if exposed is Some {
            document
        } else {
            None
        },
        model_pack_id: match exposed {
            Some(found) => Some(found.id),
            None => None,
        },
        model_pack_status: match exposed {
            Some(found) => Some(found.status),
            None => None,
        },
        engine: match exposed {
            Some(found) => Some(found.engine_name),
            None => None,
        },
        workflow: match exposed {
            Some(found) => pack::first_workflow(found, identity.capabilities),
            None => None,
        },
        cloud_backup_status: match job {
            Some(found) => job::backup_status(found),
            None => CloudBackupStatus::NotRequested,
        },
        cloud_backup_error: match job {
            Some(found) => found.cache_error,
            None => None,
        },
        size_bytes: if declared > 0 {
            declared
        } else {
            measured
        },
        device: match status {
            Some(answer) => answer.device,
            None => None,
        },
        memory_strategy: strategy,
        memory_plan,
        vram_bytes: match benchmark {
            Some(measure) => measure.vram_after_load_bytes,
            None => 0,
        },
        vram_peak_bytes: match benchmark {
            Some(measure) => measure.vram_peak_bytes,
            None => 0,
        },
        ram_peak_bytes: match benchmark {
            Some(measure) => match measure.ram_peak_bytes {
                Some(bytes) => bytes,
                None => 0,
            },
            None => 0,
        },
        cpu_offload: match benchmark {
            Some(measure) => measure.cpu_offload,
            None => false,
        },
        disk_offload: strategy == Some("DISK_OFFLOAD"@),
        error: match status {
            Some(answer) => answer.error,
            None => None,
        },
    }
}

fn member_copy(plan: &Option<Json>, key: &str) -> (found: Option<String>)
    ensures
        text::opt(found) == match json::opt_view(*plan) {
            Some(document) => document.text_member(key@),
            None => None,
        },
{
    match plan {
        Some(document) => match document.text_member(key) {
            Some(name) => Some(name.to_owned()),
            None => None,
        },
        None => None,
    }
}

/// Shows a model on the disk.
pub fn describe(
    identity: &InstalledIdentity,
    pack: Option<&ModelPack>,
    document: Option<Json>,
    status: Option<&WorkerModelStatus>,
    jobs: &Jobs,
    declared: u64,
    measured: u64,
) -> (view: InstalledModelView)
    ensures
        view@ == shown(
            identity@,
            pack::opt_pack(pack),
            json::opt_view(document),
            opt_status(status),
            jobs@,
            declared,
            measured,
        ),
        !identity.told ==> view.model_pack is None && view.model_pack_id is None
            && view.model_pack_status is None && view.engine is None && view.workflow is None,
{
    let job = find_job(jobs, identity.repository.as_str(), identity.storage_id.as_str());
    let precision_plan = match status {
        Some(answer) => json::copy_opt(&answer.precision_plan),
        None => None,
    };
    let memory_plan = match status {
        Some(answer) => json::copy_opt(&answer.memory_plan),
        None => None,
    };
    let memory_strategy = member_copy(&memory_plan, "strategy");
    let precision = match member_copy(&precision_plan, "resolved") {
        Some(name) => name,
        None => "AUTO".to_owned(),
    };
    let disk_offload = text::opt_is(&memory_strategy, "DISK_OFFLOAD");
    let state = match status {
        Some(answer) => if *answer.state.as_str() != *"READY" || pack.is_some() {
            answer.state.clone()
        } else {
            "INSTALLED".to_owned()
        },
        None => "INSTALLED".to_owned(),
    };
    let (vram_bytes, vram_peak_bytes, ram_peak_bytes, cpu_offload): (u64, u64, u64, bool) =
        match status {
        Some(answer) => match &answer.benchmark {
            Some(measure) => (
                measure.vram_after_load_bytes,
                measure.vram_peak_bytes,
                match measure.ram_peak_bytes {
                    Some(bytes) => bytes,
                    None => 0,
                },
                measure.cpu_offload,
            ),
            None => (0, 0, 0, false),
        },
        None => (0, 0, 0, false),
    };
    let exposed = if identity.told {
        pack
    } else {
        None
    };
    InstalledModelView {
        id: identity.repository.clone(),
        storage_id: identity.storage_id.clone(),
        repository: identity.repository.clone(),
        revision: identity.revision.clone(),
        state,
        stage: match status {
            Some(answer) => text::copy_opt(&answer.stage),
            None => None,
        },
        loaded: match status {
            Some(answer) => pack.is_some() && answer.ready,
            None => false,
        },
        capabilities: text::copy_texts(&identity.capabilities),
        precision,
        precision_plan,
        pipeline_class: text::copy_opt(&identity.pipeline_class),
        model_pack: if exposed.is_some() {
            document
        } else {
            None
        },
        model_pack_id: match exposed {
            Some(found) => Some(found.id.clone()),
            None => None,
        },
        model_pack_status: match exposed {
            Some(found) => Some(found.status),
            None => None,
        },
        engine: match exposed {
            Some(found) => Some(found.engine_name.clone()),
            None => None,
        },
        workflow: match exposed {
            Some(found) => pack::find_workflow(found, &identity.capabilities),
            None => None,
        },
        cloud_backup_status: match job {
            Some(found) => found.effective_cloud_backup_status(),
            None => CloudBackupStatus::NotRequested,
        },
        cloud_backup_error: match job {
            Some(found) => text::copy_opt(&found.cache_error),
            None => None,
        },
        size_bytes: if declared > 0 {
            declared
        } else {
            measured
        },
        device: match status {
            Some(answer) => text::copy_opt(&answer.device),
            None => None,
        },
        memory_strategy,
        memory_plan,
        vram_bytes,
        vram_peak_bytes,
        ram_peak_bytes,
        cpu_offload,
        disk_offload,
        error: match status {
            Some(answer) => text::copy_opt(&answer.error),
            None => None,
        },
    }
}

// ---------------------------------------------------------------------------
// All models on the disk
// ---------------------------------------------------------------------------

/// The models on the disk, and what the worker has in use.
#[derive(Debug)]
pub struct InstalledModelsResponse {
    pub items: Vec<InstalledModelView>,
    pub loaded: usize,
    pub gpu: Option<Json>,
    pub memory: Option<Json>,
    pub telemetry: Option<Json>,
}

/// What a list of models on the disk says.
pub open spec fn items_view(items: Seq<InstalledModelView>) -> Seq<InstalledView> {
    Seq::new(items.len(), |i: int| items[i]@)
}

/// The order of models on the disk: by repository.
pub open spec fn by_repository(items: Seq<InstalledView>) -> spec_fn(int, int) -> bool {
    |i: int, j: int| text::before(items[i].repository, items[j].repository)
}

/// How many models are loaded.
pub open spec fn loaded_among(items: Seq<InstalledView>) -> nat
    decreases items.len(),
{
    if items.len() == 0 {
        0
    } else {
        loaded_among(items.drop_last()) + if items.last().loaded {
            1nat
        } else {
            0
        }
    }
}

/// Whether a list holds all of some models in the order of their repositories.
pub open spec fn is_sorted(listed: Seq<InstalledView>, items: Seq<InstalledView>) -> bool {
    exists|order: Seq<usize>|
        order::stable(order, items.len(), by_repository(items)) && listed
            == #[trigger] order::picked(items, order)
}

proof fn lemma_by_repository(items: Seq<InstalledView>)
    ensures
        order::sorts(by_repository(items)),
{
    let less = by_repository(items);
    assert forall|i: int| !#[trigger] less(i, i) by {
        text::lemma_before_is_total(items[i].repository, items[i].repository);
    }
    assert forall|i: int, j: int, k: int|
        !#[trigger] less(j, i) && !#[trigger] less(k, j) implies !less(k, i) by {
        text::lemma_before_is_transitive(
            items[i].repository,
            items[j].repository,
            items[k].repository,
        );
    }
    assert forall|i: int, j: int| #[trigger] less(i, j) implies !less(j, i) by {
        text::lemma_before_is_total(items[i].repository, items[j].repository);
    }
}

/// The models on the disk, by repository, and what the worker has in use. `gpu`,
/// `memory`, `hardware` and `diagnostics` are what the worker says of itself.
pub fn list_installed_models(
    items: &Vec<InstalledModelView>,
    gpu: Option<Json>,
    memory: Option<Json>,
    hardware: Option<Json>,
    diagnostics: Option<Json>,
) -> (response: InstalledModelsResponse)
    ensures
        is_sorted(items_view(response.items@), items_view(items@)),
        response.loaded == loaded_among(items_view(response.items@)),
        json::opt_view(response.gpu) == if json::opt_view(gpu) == Some(JsonView::Null) {
            None
        } else {
            json::opt_view(gpu)
        },
        json::opt_view(response.memory) == json::opt_view(memory),
        json::opt_view(response.telemetry) == first(
            json::opt_view(hardware),
            json::opt_view(diagnostics),
        ),
{
    let ghost all = items_view(items@);
    proof {
        lemma_by_repository(all);
    }
    let less = |i: usize, j: usize| -> (answer: bool)
        requires
            i < items@.len(),
            j < items@.len(),
        ensures
            answer == text::before(
                items_view(items@)[i as int].repository,
                items_view(items@)[j as int].repository,
            ),
        { text::sorts_before(items[i].repository.as_str(), items[j].repository.as_str()) };
    let count: usize = items.len();
    let order = order::stable_order(count, less, Ghost(by_repository(all)));
    let mut listed: Vec<InstalledModelView> = Vec::new();
    for n in 0..order.len()
        invariant
            all == items_view(items@),
            order::permutes(order@, all.len()),
            listed@.len() == n,
            forall|i: int| 0 <= i < n ==> (#[trigger] listed@[i])@ == all[order@[i] as int],
    {
        let at: usize = order[n];
        listed.push(items[at].copy());
    }
    assert(items_view(listed@) =~= order::picked(all, order@));
    let mut loaded: usize = 0;
    for n in 0..listed.len()
        invariant
            loaded <= n,
            loaded == loaded_among(items_view(listed@).take(n as int)),
    {
        proof {
            assert(items_view(listed@).take(n + 1).drop_last() =~= items_view(listed@).take(
                n as int,
            ));
            assert(items_view(listed@).take(n + 1).last() == listed@[n as int]@);
        }
        if listed[n].loaded {
            loaded = loaded + 1;
        }
    }
    assert(items_view(listed@).take(listed@.len() as int) =~= items_view(listed@));
    let shown_gpu = match gpu {
        Some(document) => match document {
            Json::Null => None,
            _ => {
                proof {
                    json::lemma_shape(document);
                }
                Some(document)
            },
        },
        None => None,
    };
    let telemetry = match hardware {
        Some(document) => Some(document),
        None => diagnostics,
    };
    InstalledModelsResponse { items: listed, loaded, gpu: shown_gpu, memory, telemetry }
}

// ---------------------------------------------------------------------------
// Laws
// ---------------------------------------------------------------------------

/// Of a model of which neither the worker nor the manifest tells a pack, none is
/// shown, whatever the registry chooses.
pub proof fn law_untold_packs_are_not_shown(
    storage_id: Seq<char>,
    pointer: PointerView,
    manifest: JsonView,
    status: Option<ModelStatusView>,
    pack: Option<PackView>,
    document: Option<JsonView>,
    jobs: Seq<JobView>,
    declared: u64,
    measured: u64,
)
    requires
        status matches Some(answer) ==> answer.model_pack is None && answer.model_pack_id is None,
        manifest.member("model_pack"@) is None,
        manifest.member("model_pack_id"@) is None,
        manifest.member("pack_id"@) is None,
    ensures
        ({
            let identity = identity_of(storage_id, pointer, manifest, status);
            let view = shown(identity, pack, document, status, jobs, declared, measured);
            &&& view.model_pack is None && view.model_pack_id is None
            &&& view.model_pack_status is None && view.engine is None && view.workflow is None
        }),
{
}

/// A model without a pack is never shown as ready or loaded, whatever the worker
/// says of it.
pub proof fn law_no_pack_is_never_ready(
    identity: IdentityView,
    document: Option<JsonView>,
    status: Option<ModelStatusView>,
    jobs: Seq<JobView>,
    declared: u64,
    measured: u64,
)
    ensures
        ({
            let view = shown(identity, None, document, status, jobs, declared, measured);
            &&& !view.loaded
            &&& view.state != "READY"@
            &&& view.model_pack is None && view.model_pack_id is None && view.engine is None
                && view.workflow is None
        }),
{
    reveal_strlit("READY");
    reveal_strlit("INSTALLED");
    assert("READY"@.len() == 5 && "INSTALLED"@.len() == 9);
}

/// The latest of the jobs that are looked for is one of them, no other of them was
/// changed after it, and there is none only where there is no such job.
pub proof fn law_the_latest_job_is_found(
    jobs: Seq<JobView>,
    wanted: spec_fn(JobView) -> bool,
    other: int,
)
    requires
        0 <= other < jobs.len(),
    ensures
        latest(jobs, wanted) matches Some(found) ==> {
            &&& wanted(found) && jobs.contains(found)
            &&& wanted(jobs[other]) ==> jobs[other].updated_at <= found.updated_at
        },
        latest(jobs, wanted) is None ==> !wanted(jobs[other]),
    decreases jobs.len(),
{
    let rest = jobs.drop_last();
    assert(jobs[jobs.len() - 1] == jobs.last());
    if other < rest.len() {
        law_the_latest_job_is_found(rest, wanted, other);
        assert(rest[other] == jobs[other]);
    } else if rest.len() > 0 {
        law_the_latest_job_is_found(rest, wanted, 0);
    }
    match latest(rest, wanted) {
        Some(found) => {
            let i = choose|i: int| 0 <= i < rest.len() && rest[i] == found;
            assert(jobs[i] == found);
        },
        None => {},
    }
}

/// An installed model is shown as it is on the disk: under its repository, at the
/// revision in use, with what the worker says of it where it says something.
pub proof fn law_installed_models_are_shown_as_they_are(
    identity: IdentityView,
    pack: Option<PackView>,
    document: Option<JsonView>,
    status: Option<ModelStatusView>,
    jobs: Seq<JobView>,
    declared: u64,
    measured: u64,
)
    ensures
        ({
            let view = shown(identity, pack, document, status, jobs, declared, measured);
            &&& view.id == identity.repository && view.repository == identity.repository
                && view.storage_id == identity.storage_id && view.revision == identity.revision
            &&& view.capabilities == identity.capabilities && view.pipeline_class
                == identity.pipeline_class
            &&& declared > 0 ==> view.size_bytes == declared
            &&& declared == 0 ==> view.size_bytes == measured
            &&& status is None ==> view.state == "INSTALLED"@ && !view.loaded && view.error is None
                && view.device is None && view.vram_bytes == 0 && view.precision == "AUTO"@
            &&& status matches Some(told) ==> {
                &&& pack is Some ==> view.state == told.state && view.loaded == told.ready
                &&& pack is None && told.state != "READY"@ ==> view.state == told.state
                &&& pack is None && told.state == "READY"@ ==> view.state == "INSTALLED"@
                &&& view.error == told.error && view.device == told.device && view.stage
                    == told.stage
                &&& view.precision_plan == told.precision_plan && view.memory_plan
                    == told.memory_plan
                &&& told.benchmark matches Some(measure) ==> view.vram_bytes
                    == measure.vram_after_load_bytes && view.vram_peak_bytes
                    == measure.vram_peak_bytes && view.cpu_offload == measure.cpu_offload && (
                measure.ram_peak_bytes matches Some(bytes) ==> view.ram_peak_bytes == bytes)
                &&& told.memory_plan matches Some(plan) ==> view.memory_strategy
                    == plan.text_member("strategy"@) && (view.disk_offload <==> plan.text_member(
                    "strategy"@,
                ) == Some("DISK_OFFLOAD"@))
                &&& told.precision_plan matches Some(plan) ==> (plan.text_member("resolved"@)
                    matches Some(name) ==> view.precision == name)
            }
            &&& identity.told ==> (pack matches Some(known) ==> view.model_pack_id == Some(known.id)
                && view.model_pack_status == Some(known.status) && view.engine == Some(
                known.engine_name,
            ) && view.model_pack == document)
        }),
{
}

/// The copy of an installed model stands where the latest job that concerns the
/// model says.
pub proof fn law_copies_are_shown_from_the_latest_job(
    identity: IdentityView,
    pack: Option<PackView>,
    document: Option<JsonView>,
    status: Option<ModelStatusView>,
    jobs: Seq<JobView>,
    declared: u64,
    measured: u64,
    other: int,
)
    requires
        0 <= other < jobs.len(),
        jobs[other].target_id == identity.repository || jobs[other].target_id
            == identity.storage_id || jobs[other].model_id == Some(identity.repository),
    ensures
        exists|k: int|
            0 <= k < jobs.len() && (#[trigger] jobs[k]).updated_at >= jobs[other].updated_at && shown(
                identity,
                pack,
                document,
                status,
                jobs,
                declared,
                measured,
            ).cloud_backup_status == job::backup_status(jobs[k]) && shown(
                identity,
                pack,
                document,
                status,
                jobs,
                declared,
                measured,
            ).cloud_backup_error == jobs[k].cache_error,
{
    let wanted = concerns(identity.repository, identity.storage_id);
    law_the_latest_job_is_found(jobs, wanted, other);
    let found = latest(jobs, wanted)->0;
    let k = choose|k: int| 0 <= k < jobs.len() && jobs[k] == found;
    assert(jobs[k].updated_at >= jobs[other].updated_at);
}

/// A model on the disk is known by its repository, which the file in its directory
/// names, else its manifest, else its directory; what the worker says of it comes
/// before what the manifest says.
pub proof fn law_models_on_the_disk_are_identified(
    storage_id: Seq<char>,
    pointer: PointerView,
    manifest: JsonView,
    status: Option<ModelStatusView>,
)
    ensures
        ({
            let known = identity_of(storage_id, pointer, manifest, status);
            &&& known.storage_id == storage_id && known.revision == pointer.revision
            &&& pointer.repository matches Some(named) ==> known.repository == named
            &&& pointer.repository is None ==> (manifest.text_member("repository"@) matches Some(
                named,
            ) ==> known.repository == named)
            &&& pointer.repository is None && manifest.text_member("repository"@) is None
                ==> known.repository == storage_id
            &&& status matches Some(told) ==> {
                &&& told.capabilities.len() > 0 ==> known.capabilities == told.capabilities
                &&& told.pipeline_class is Some ==> known.pipeline_class == told.pipeline_class
                &&& told.model_pack_id is Some ==> known.pack_id == told.model_pack_id
                    && known.told
                &&& told.model_pack is Some ==> known.told
            }
            &&& status is None ==> known.capabilities == json::texts_of(
                manifest.member_or("capabilities"@, "requested_capabilities"@),
            )
            &&& manifest.member("model_pack"@) is Some ==> known.told
            &&& status is None ==> (manifest.text_member("model_pack_id"@) matches Some(named)
                ==> known.pack_id == Some(named))
        }),
{
}

/// The pack of a model is the one that it names, where that is among those that
/// match, else the one that was worked out for it.
pub proof fn law_named_packs_come_first(
    pack_id: Option<Seq<char>>,
    matching: Seq<ModelPack>,
    resolved: Option<PackView>,
)
    ensures
        pack_id is None ==> canonical(pack_id, matching, resolved) == resolved,
        pack_id matches Some(id) ==> (pack::pack_named(matching, id) matches Some(named)
            ==> canonical(pack_id, matching, resolved) == Some(named) && named.id == id),
        pack_id matches Some(id) ==> pack::pack_named(matching, id) is None ==> canonical(
            pack_id,
            matching,
            resolved,
        ) == resolved,
{
    match pack_id {
        Some(id) => {
            pack::law_packs_are_found_by_name(matching, id, 0);
        },
        None => {},
    }
}

/// Installed models are listed by their repositories, each of them once, and as
/// many are loaded as say so.
pub proof fn law_installed_models_are_listed_by_repository(
    listed: Seq<InstalledView>,
    items: Seq<InstalledView>,
    i: int,
    j: int,
)
    requires
        is_sorted(listed, items),
        items.len() <= usize::MAX,
        0 <= i < j < listed.len(),
    ensures
        listed.len() == items.len(),
        items.contains(listed[i]),
        listed.contains(items[i]),
        !text::before(listed[j].repository, listed[i].repository),
        loaded_among(items) <= items.len(),
        loaded_among(items.push(listed[i])) == loaded_among(items) + if listed[i].loaded {
            1nat
        } else {
            0
        },
{
    let order = choose|order: Seq<usize>|
        order::stable(order, items.len(), by_repository(items)) && listed
            == #[trigger] order::picked(items, order);
    order::lemma_picked_are_all(items, order);
    lemma_by_repository(items);
    let less = by_repository(items);
    let (a, b) = (order[i] as int, order[j] as int);
    assert(less(a, b) || !less(b, a));
    assert(!less(b, a));
    assert(items.push(listed[i]).drop_last() =~= items);
    lemma_loaded_bounded(items);
}

proof fn lemma_loaded_bounded(items: Seq<InstalledView>)
    ensures
        loaded_among(items) <= items.len(),
    decreases items.len(),
{
    if items.len() > 0 {
        lemma_loaded_bounded(items.drop_last());
    }
}

/// What is recorded of a model is what the first directory that holds it says, and
/// what was asked for where none does.
pub proof fn law_records_are_those_of_the_directory(
    directories: Seq<ModelDirectory>,
    storage_id: Seq<char>,
    id: Seq<char>,
)
    ensures
        ({
            let known = recorded(directories, storage_id, id);
            &&& known.revision is None ==> known.storage_id == storage_id && known.repository == id
            &&& known.revision matches Some(revision) ==> exists|i: int|
                0 <= i < directories.len() && (#[trigger] directories[i]).name@ == known.storage_id
                    && (directories[i].pointer matches Some(file) && file@.revision == revision && (
                directories[i].name@ == storage_id || file@.repository == Some(id)))
        }),
    decreases directories.len(),
{
    if directories.len() > 0 {
        if !holds(directories[0], storage_id, id) {
            let rest = directories.skip(1);
            law_records_are_those_of_the_directory(rest, storage_id, id);
            let known = recorded(rest, storage_id, id);
            if known.revision is Some {
                let i = choose|i: int|
                    0 <= i < rest.len() && (#[trigger] rest[i]).name@ == known.storage_id && (
                    rest[i].pointer matches Some(file) && file@.revision == known.revision->0 && (
                    rest[i].name@ == storage_id || file@.repository == Some(id)));
                assert(directories[i + 1] == rest[i]);
            }
        } else {
            assert(directories[0].name@ == recorded(directories, storage_id, id).storage_id);
        }
    }
}

/// What a model declares of its size is the sum of what its files declare.
pub proof fn law_declared_sizes_add_up(files: Seq<JsonView>, next: JsonView, sizes: Seq<u64>, size: u64)
    ensures
        sum_of(declared_sizes(files.push(next))) == sum_of(declared_sizes(files)) + (match next.member(
            "size"@,
        ) {
            Some(JsonView::Integer(bytes)) => bytes as nat,
            _ => 0,
        }),
        sum_of(sizes.push(size)) == sum_of(sizes) + size,
        sum_of(Seq::empty()) == 0,
        declared_sizes(Seq::empty()).len() == 0,
{
    assert(files.push(next).drop_last() =~= files);
    assert(sizes.push(size).drop_last() =~= sizes);
    match next.member("size"@) {
        Some(JsonView::Integer(bytes)) => {
            let before = declared_sizes(files);
            assert(declared_sizes(files.push(next)) == before.push(bytes));
            assert(before.push(bytes).drop_last() =~= before);
        },
        _ => {},
    }
}

/// The file in the directory of a model names the model, its repository and the
/// revision in use.
pub proof fn law_pointers_name_what_is_in_use(
    model_id: Seq<char>,
    repository: Seq<char>,
    revision: Seq<char>,
)
    ensures
        ({
            let file = JsonView::Object(pointer_members(model_id, repository, revision));
            &&& file.text_member("model_id"@) == Some(model_id)
            &&& file.text_member("repository"@) == Some(repository)
            &&& file.text_member("revision"@) == Some(revision)
        }),
{
    let members = pointer_members(model_id, repository, revision);
    crate::member::lemma_members(members);
    reveal_with_fuel(crate::member::first_named, 5);
    assert(members.len() == 3);
    crate::worker::lemma_names_of_members();
}

} // verus!
