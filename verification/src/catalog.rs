//! The catalogue: what is known of models, and what is said of each on this
//! machine.
use crate::capability;
use crate::capability::{ModelCapability, ModelInputProfile};
use crate::job::{Job, JobView};
use crate::json;
use crate::json::{Json, JsonView};
use crate::pack;
use crate::pack::{CatalogModelStatus, ModelPack, PackView};
use crate::text;
use crate::worker;
use crate::worker::{
    CompatibilityView, ModelStatusView, WorkerCompatibility, WorkerModelStatus, WorkerReady,
    WorkerResources,
};
use vstd::prelude::*;
use vstd::string::*;

verus! {

// ---------------------------------------------------------------------------
// Entries
// ---------------------------------------------------------------------------

/// A form in which a model can be run, and the memory that it takes.
#[derive(Debug)]
pub struct ModelVariant {
    pub id: String,
    pub ram_required: u64,
    pub vram_required: u64,
}

/// What [`ModelVariant`] says.
#[verifier::ext_equal]
pub struct VariantView {
    pub id: Seq<char>,
    pub ram_required: u64,
    pub vram_required: u64,
}

impl View for ModelVariant {
    type V = VariantView;

    open spec fn view(&self) -> VariantView {
        VariantView {
            id: self.id@,
            ram_required: self.ram_required,
            vram_required: self.vram_required,
        }
    }
}

impl ModelVariant {
    /// A copy of the value.
    pub fn copy(&self) -> (copy: Self)
        ensures
            copy@ == self@,
    {
        ModelVariant {
            id: self.id.clone(),
            ram_required: self.ram_required,
            vram_required: self.vram_required,
        }
    }
}

/// What a list says.
pub open spec fn variants_view(list: Seq<ModelVariant>) -> Seq<VariantView> {
    Seq::new(list.len(), |i: int| list[i]@)
}

/// A copy of a list.
pub fn copy_variants(list: &Vec<ModelVariant>) -> (copy: Vec<ModelVariant>)
    ensures
        variants_view(copy@) == variants_view(list@),
{
    let mut copy: Vec<ModelVariant> = Vec::new();
    for i in 0..list.len()
        invariant
            copy@.len() == i,
            forall|j: int| 0 <= j < i ==> (#[trigger] copy@[j])@ == list@[j]@,
    {
        copy.push(list[i].copy());
    }
    assert(variants_view(copy@) =~= variants_view(list@));
    copy
}

/// A file of a repository.
#[derive(Debug)]
pub struct RepositoryFile {
    pub path: String,
    pub size: Option<u64>,
}

/// What [`RepositoryFile`] says.
#[verifier::ext_equal]
pub struct FileView {
    pub path: Seq<char>,
    pub size: Option<u64>,
}

impl View for RepositoryFile {
    type V = FileView;

    open spec fn view(&self) -> FileView {
        FileView {
            path: self.path@,
            size: self.size,
        }
    }
}

impl RepositoryFile {
    /// A copy of the value.
    pub fn copy(&self) -> (copy: Self)
        ensures
            copy@ == self@,
    {
        RepositoryFile {
            path: self.path.clone(),
            size: self.size,
        }
    }
}

/// What a list says.
pub open spec fn files_view(list: Seq<RepositoryFile>) -> Seq<FileView> {
    Seq::new(list.len(), |i: int| list[i]@)
}

/// A copy of a list.
pub fn copy_files(list: &Vec<RepositoryFile>) -> (copy: Vec<RepositoryFile>)
    ensures
        files_view(copy@) == files_view(list@),
{
    let mut copy: Vec<RepositoryFile> = Vec::new();
    for i in 0..list.len()
        invariant
            copy@.len() == i,
            forall|j: int| 0 <= j < i ==> (#[trigger] copy@[j])@ == list@[j]@,
    {
        copy.push(list[i].copy());
    }
    assert(files_view(copy@) =~= files_view(list@));
    copy
}

/// What is estimated of a model on this machine.
#[derive(Debug)]
pub struct HardwareEstimate {
    pub compatible_with_current_machine: Option<bool>,
    pub compatibility_level: String,
    pub notes: Vec<String>,
}

/// What [`HardwareEstimate`] says.
#[verifier::ext_equal]
pub struct EstimateView {
    pub compatible_with_current_machine: Option<bool>,
    pub compatibility_level: Seq<char>,
    pub notes: Seq<Seq<char>>,
}

impl View for HardwareEstimate {
    type V = EstimateView;

    open spec fn view(&self) -> EstimateView {
        EstimateView {
            compatible_with_current_machine: self.compatible_with_current_machine,
            compatibility_level: self.compatibility_level@,
            notes: text::texts(self.notes@),
        }
    }
}

impl HardwareEstimate {
    /// A copy of the value.
    pub fn copy(&self) -> (copy: Self)
        ensures
            copy@ == self@,
    {
        HardwareEstimate {
            compatible_with_current_machine: self.compatible_with_current_machine,
            compatibility_level: self.compatibility_level.clone(),
            notes: text::copy_texts(&self.notes),
        }
    }
}

/// What the catalogue knows of a model.
#[derive(Debug)]
pub struct CatalogEntry {
    pub id: String,
    pub storage_id: String,
    pub name: String,
    pub description: String,
    /// The name of the kind of model.
    pub kind: String,
    pub capabilities: Vec<ModelCapability>,
    pub runtime_capabilities: Vec<ModelCapability>,
    pub variants: Vec<ModelVariant>,
    /// Whether the model is an engine of this service.
    pub local: bool,
    pub repository: String,
    pub revision: String,
    pub license: Option<String>,
    pub runtime_name: Option<String>,
    pub runtime_reason: String,
    pub pipeline_class: Option<String>,
    pub pipeline_tag: Option<String>,
    pub library: Option<String>,
    pub architecture: Option<String>,
    pub tags: Vec<String>,
    pub files: Vec<RepositoryFile>,
    pub source_available: bool,
    pub accessibility: String,
    pub access_authorized: bool,
    pub access_checked: bool,
    pub gated: bool,
    pub private: bool,
    pub author: Option<String>,
    pub last_modified: Option<String>,
    pub estimated_size_bytes: Option<u64>,
    pub downloads: Option<u64>,
    pub likes: Option<u64>,
    pub quality_valid: bool,
    pub hardware: HardwareEstimate,
}

/// What [`CatalogEntry`] says.
#[verifier::ext_equal]
pub struct EntryView {
    pub id: Seq<char>,
    pub storage_id: Seq<char>,
    pub name: Seq<char>,
    pub description: Seq<char>,
    pub kind: Seq<char>,
    pub capabilities: Seq<ModelCapability>,
    pub runtime_capabilities: Seq<ModelCapability>,
    pub variants: Seq<VariantView>,
    pub local: bool,
    pub repository: Seq<char>,
    pub revision: Seq<char>,
    pub license: Option<Seq<char>>,
    pub runtime_name: Option<Seq<char>>,
    pub runtime_reason: Seq<char>,
    pub pipeline_class: Option<Seq<char>>,
    pub pipeline_tag: Option<Seq<char>>,
    pub library: Option<Seq<char>>,
    pub architecture: Option<Seq<char>>,
    pub tags: Seq<Seq<char>>,
    pub files: Seq<FileView>,
    pub source_available: bool,
    pub accessibility: Seq<char>,
    pub access_authorized: bool,
    pub access_checked: bool,
    pub gated: bool,
    pub private: bool,
    pub author: Option<Seq<char>>,
    pub last_modified: Option<Seq<char>>,
    pub estimated_size_bytes: Option<u64>,
    pub downloads: Option<u64>,
    pub likes: Option<u64>,
    pub quality_valid: bool,
    pub hardware: EstimateView,
}

impl View for CatalogEntry {
    type V = EntryView;

    open spec fn view(&self) -> EntryView {
        EntryView {
            id: self.id@,
            storage_id: self.storage_id@,
            name: self.name@,
            description: self.description@,
            kind: self.kind@,
            capabilities: self.capabilities@,
            runtime_capabilities: self.runtime_capabilities@,
            variants: variants_view(self.variants@),
            local: self.local,
            repository: self.repository@,
            revision: self.revision@,
            license: text::opt(self.license),
            runtime_name: text::opt(self.runtime_name),
            runtime_reason: self.runtime_reason@,
            pipeline_class: text::opt(self.pipeline_class),
            pipeline_tag: text::opt(self.pipeline_tag),
            library: text::opt(self.library),
            architecture: text::opt(self.architecture),
            tags: text::texts(self.tags@),
            files: files_view(self.files@),
            source_available: self.source_available,
            accessibility: self.accessibility@,
            access_authorized: self.access_authorized,
            access_checked: self.access_checked,
            gated: self.gated,
            private: self.private,
            author: text::opt(self.author),
            last_modified: text::opt(self.last_modified),
            estimated_size_bytes: self.estimated_size_bytes,
            downloads: self.downloads,
            likes: self.likes,
            quality_valid: self.quality_valid,
            hardware: self.hardware@,
        }
    }
}

impl CatalogEntry {
    /// A copy of the value.
    pub fn copy(&self) -> (copy: Self)
        ensures
            copy@ == self@,
    {
        CatalogEntry {
            id: self.id.clone(),
            storage_id: self.storage_id.clone(),
            name: self.name.clone(),
            description: self.description.clone(),
            kind: self.kind.clone(),
            capabilities: capability::copy_list(&self.capabilities),
            runtime_capabilities: capability::copy_list(&self.runtime_capabilities),
            variants: copy_variants(&self.variants),
            local: self.local,
            repository: self.repository.clone(),
            revision: self.revision.clone(),
            license: text::copy_opt(&self.license),
            runtime_name: text::copy_opt(&self.runtime_name),
            runtime_reason: self.runtime_reason.clone(),
            pipeline_class: text::copy_opt(&self.pipeline_class),
            pipeline_tag: text::copy_opt(&self.pipeline_tag),
            library: text::copy_opt(&self.library),
            architecture: text::copy_opt(&self.architecture),
            tags: text::copy_texts(&self.tags),
            files: copy_files(&self.files),
            source_available: self.source_available,
            accessibility: self.accessibility.clone(),
            access_authorized: self.access_authorized,
            access_checked: self.access_checked,
            gated: self.gated,
            private: self.private,
            author: text::copy_opt(&self.author),
            last_modified: text::copy_opt(&self.last_modified),
            estimated_size_bytes: self.estimated_size_bytes,
            downloads: self.downloads,
            likes: self.likes,
            quality_valid: self.quality_valid,
            hardware: self.hardware.copy(),
        }
    }
}

/// Whether a repository describes its pipeline by modules.
pub open spec fn modular(files: Seq<FileView>) -> bool {
    exists|i: int|
        0 <= i < files.len() && text::after_last((#[trigger] files[i]).path, '/')
            == "modular_model_index.json"@
}

/// Whether a repository describes its pipeline by modules.
pub fn is_modular(files: &Vec<RepositoryFile>) -> (yes: bool)
    ensures
        yes == modular(files_view(files@)),
{
    let ghost all = files_view(files@);
    for i in 0..files.len()
        invariant
            all == files_view(files@),
            forall|j: int|
                0 <= j < i ==> text::after_last((#[trigger] all[j]).path, '/')
                    != "modular_model_index.json"@,
    {
        assert(all[i as int].path == files@[i as int].path@);
        if *text::last_piece(files[i].path.as_str(), '/') == *"modular_model_index.json" {
            return true;
        }
    }
    false
}

// ---------------------------------------------------------------------------
// The machine
// ---------------------------------------------------------------------------

/// What the host says of its memory and its disk.
#[derive(Clone, Copy, Debug)]
pub struct HostFacts {
    pub ram_available_bytes: Option<u64>,
    pub ram_total_bytes: Option<u64>,
    pub storage_available_bytes: Option<u64>,
    /// Whether there is a card of NVIDIA.
    pub nvidia: bool,
    pub vram_available_bytes: Option<u64>,
    pub vram_total_bytes: Option<u64>,
}

/// What all models of one answer are held against.
#[derive(Clone, Copy, Debug)]
pub struct ModelMachineContext {
    pub runtime_available: bool,
    pub cuda_available: bool,
    pub available_ram_bytes: u64,
    pub available_vram_bytes: u64,
    pub storage_available_bytes: Option<u64>,
}

/// The first value that is there, or another.
pub open spec fn first_of(first: Option<u64>, second: Option<u64>, other: u64) -> u64 {
    match first {
        Some(value) => value,
        None => match second {
            Some(value) => value,
            None => other,
        },
    }
}

fn pick_first(first: Option<u64>, second: Option<u64>, other: u64) -> (value: u64)
    ensures
        value == first_of(first, second, other),
{
    match first {
        Some(value) => value,
        None => match second {
            Some(value) => value,
            None => other,
        },
    }
}

/// The graphics memory that is free: what the worker says of its card, else what
/// the host says of a card of NVIDIA, else none.
pub open spec fn free_vram(host: HostFacts, resources: Option<worker::ResourcesView>) -> u64 {
    match resources {
        Some(worker::ResourcesView { gpu: Some(gpu), .. }) => if gpu.vram_total_bytes
            >= gpu.vram_used_bytes {
            (gpu.vram_total_bytes - gpu.vram_used_bytes) as u64
        } else {
            0
        },
        _ => if host.nvidia {
            first_of(host.vram_available_bytes, host.vram_total_bytes, 0)
        } else {
            0
        },
    }
}

/// Gathers what models are held against. Whether CUDA can be used is the
/// worker's to say: a card alone does not run a model.
pub fn machine_context(
    host: HostFacts,
    ready: Option<&WorkerReady>,
    resources: Option<&WorkerResources>,
) -> (machine: ModelMachineContext)
    ensures
        machine.runtime_available == (ready is Some && ready->0.runtime_available),
        machine.cuda_available == (ready is Some && ready->0.ready && ready->0.cuda_available),
        machine.available_ram_bytes == first_of(
            host.ram_available_bytes,
            host.ram_total_bytes,
            u64::MAX,
        ),
        machine.available_vram_bytes == free_vram(
            host,
            match resources {
                Some(found) => Some(found@),
                None => None,
            },
        ),
        machine.storage_available_bytes == host.storage_available_bytes,
{
    let (runtime_available, cuda_available) = match ready {
        Some(status) => (status.runtime_available, status.ready && status.cuda_available),
        None => (false, false),
    };
    let host_vram: u64 = if host.nvidia {
        pick_first(host.vram_available_bytes, host.vram_total_bytes, 0)
    } else {
        0
    };
    let available_vram_bytes: u64 = match resources {
        Some(found) => match &found.gpu {
            Some(gpu) => if gpu.vram_total_bytes >= gpu.vram_used_bytes {
                gpu.vram_total_bytes - gpu.vram_used_bytes
            } else {
                0
            },
            None => host_vram,
        },
        None => host_vram,
    };
    ModelMachineContext {
        runtime_available,
        cuda_available,
        available_ram_bytes: pick_first(host.ram_available_bytes, host.ram_total_bytes, u64::MAX),
        available_vram_bytes,
        storage_available_bytes: host.storage_available_bytes,
    }
}

// ---------------------------------------------------------------------------
// What the worker said of a pipeline, remembered for a while
// ---------------------------------------------------------------------------

/// How long an answer of the worker on a pipeline is used again, in seconds.
pub const ANSWER_SECONDS: u64 = 300;

/// Whether an answer of a time may be used again.
pub open spec fn fresh(created_at: u64, now: u64) -> bool {
    now - created_at < ANSWER_SECONDS
}

/// Whether an answer of a time may be used again.
pub fn is_fresh(created_at: u64, now: u64) -> (yes: bool)
    ensures
        yes == fresh(created_at, now),
{
    now < created_at || now - created_at < ANSWER_SECONDS
}

/// The key under which the answer on a model is remembered: the model and the
/// exact revision.
pub fn answer_key(entry: &CatalogEntry) -> (key: String)
    ensures
        key@ == entry@.id + "@"@ + entry@.revision,
{
    text::concat3(entry.id.as_str(), "@", entry.revision.as_str())
}

/// Whether the worker is asked about a model at all.
pub fn asks_worker(entry: &CatalogEntry, machine: &ModelMachineContext) -> (yes: bool)
    ensures
        yes == (!entry@.local && machine.runtime_available),
{
    !entry.local && machine.runtime_available
}

// ---------------------------------------------------------------------------
// What is said of one model
// ---------------------------------------------------------------------------

/// What is known of a model beyond the catalogue.
pub struct Knowledge<'a> {
    /// What the worker says of the pipeline.
    pub check: Option<&'a WorkerCompatibility>,
    /// What the worker says of the model.
    pub status: Option<&'a WorkerModelStatus>,
    /// The revision on the disk.
    pub installed_revision: Option<&'a str>,
    /// The packs that match the architecture, the pipeline and the capabilities.
    pub matching: &'a Vec<ModelPack>,
    /// The one of them that the registry chooses.
    pub resolved: Option<&'a ModelPack>,
    /// What the lab says of the model.
    pub lab_status: Option<CatalogModelStatus>,
    /// Whether models are copied to the cloud, and by themselves.
    pub storage_enabled: bool,
    pub auto_cache: bool,
    /// Whether the model is loaded.
    pub loaded: bool,
    /// The free memory in gigabytes, with one decimal.
    pub vram_gigabytes: &'a str,
    pub ram_gigabytes: &'a str,
}

/// What an optional answer on a pipeline says.
pub open spec fn opt_check(check: Option<&WorkerCompatibility>) -> Option<CompatibilityView> {
    match check {
        Some(found) => Some(found@),
        None => None,
    }
}

/// What an optional answer on a model says.
pub open spec fn opt_status(status: Option<&WorkerModelStatus>) -> Option<ModelStatusView> {
    match status {
        Some(found) => Some(found@),
        None => None,
    }
}

/// Whether the runtime supports a model: what the worker says in a word that is
/// known, else whether it says that it does.
pub open spec fn compatibility_word(local: bool, check: Option<CompatibilityView>) -> Seq<char> {
    if local {
        "SUPPORTED"@
    } else {
        match check {
            Some(answer) => {
                let word = answer.compatibility_status;
                if word == "SUPPORTED"@ || word == "UNKNOWN"@ || word == "UNSUPPORTED"@ {
                    word
                } else if answer.runtime_supported {
                    "SUPPORTED"@
                } else {
                    "UNKNOWN"@
                }
            },
            None => "UNKNOWN"@,
        }
    }
}

fn runtime_compatibility(local: bool, check: Option<&WorkerCompatibility>) -> (word: String)
    ensures
        word@ == compatibility_word(local, opt_check(check)),
{
    if local {
        return "SUPPORTED".to_owned();
    }
    match check {
        Some(answer) => {
            let word = answer.compatibility_status.as_str();
            if *word == *"SUPPORTED" || *word == *"UNKNOWN" || *word == *"UNSUPPORTED" {
                word.to_owned()
            } else if answer.runtime_supported {
                "SUPPORTED".to_owned()
            } else {
                "UNKNOWN".to_owned()
            }
        },
        None => "UNKNOWN".to_owned(),
    }
}

/// What a model can do here: its own capabilities for a local one, else those
/// that the worker names for the model, else those it names for the pipeline.
pub open spec fn usable_capabilities(
    entry: EntryView,
    check: Option<CompatibilityView>,
    status: Option<ModelStatusView>,
) -> Seq<ModelCapability> {
    let actual = match status {
        Some(answer) => capability::all_named(answer.capabilities),
        None => Seq::empty(),
    };
    if actual.len() > 0 {
        actual
    } else if entry.local {
        entry.runtime_capabilities
    } else {
        match check {
            Some(answer) => capability::all_named(answer.runtime_capabilities),
            None => Seq::empty(),
        }
    }
}

fn runtime_capabilities(
    entry: &CatalogEntry,
    check: Option<&WorkerCompatibility>,
    status: Option<&WorkerModelStatus>,
) -> (list: Vec<ModelCapability>)
    ensures
        list@ == usable_capabilities(entry@, opt_check(check), opt_status(status)),
{
    match status {
        Some(answer) => {
            let actual = capability::from_api_names(&answer.capabilities);
            if actual.len() > 0 {
                return actual;
            }
        },
        None => {},
    }
    if entry.local {
        return capability::copy_list(&entry.runtime_capabilities);
    }
    match check {
        Some(answer) => capability::from_api_names(&answer.runtime_capabilities),
        None => Vec::new(),
    }
}

/// Why the runtime supports a model or not.
pub open spec fn reason_of(entry: EntryView, check: Option<CompatibilityView>, runtime_available: bool) -> Seq<
    char,
> {
    if entry.local {
        entry.runtime_reason
    } else {
        match check {
            Some(answer) => answer.runtime_reason,
            None => if !runtime_available {
                "RUNTIME_UNAVAILABLE: le Worker Diffusers n'est pas disponible."@
            } else {
                "PIPELINE_CLASS_NOT_AVAILABLE: compatibility check Worker impossible."@
            },
        }
    }
}

fn runtime_reason(
    entry: &CatalogEntry,
    check: Option<&WorkerCompatibility>,
    runtime_available: bool,
) -> (reason: String)
    ensures
        reason@ == reason_of(entry@, opt_check(check), runtime_available),
{
    if entry.local {
        return entry.runtime_reason.clone();
    }
    match check {
        Some(answer) => answer.runtime_reason.clone(),
        None => if !runtime_available {
            "RUNTIME_UNAVAILABLE: le Worker Diffusers n'est pas disponible.".to_owned()
        } else {
            "PIPELINE_CLASS_NOT_AVAILABLE: compatibility check Worker impossible.".to_owned()
        },
    }
}

/// The class of the pipeline of a model, as the worker or else the catalogue
/// says.
pub open spec fn class_of(entry: EntryView, check: Option<CompatibilityView>) -> Option<Seq<char>> {
    match check {
        Some(answer) => if answer.pipeline_class is Some {
            answer.pipeline_class
        } else {
            entry.pipeline_class
        },
        None => entry.pipeline_class,
    }
}

/// The class of the pipeline of a model, by which packs are matched.
pub fn pipeline_class(entry: &CatalogEntry, check: Option<&WorkerCompatibility>) -> (class: Option<
    String,
>)
    ensures
        text::opt(class) == class_of(entry@, opt_check(check)),
{
    match check {
        Some(answer) => if answer.pipeline_class.is_some() {
            return text::copy_opt(&answer.pipeline_class);
        },
        None => {},
    }
    text::copy_opt(&entry.pipeline_class)
}

/// The revision on the disk; that of the catalogue for a local model.
pub open spec fn present_revision(entry: EntryView, revision: Option<Seq<char>>) -> Option<Seq<char>> {
    if entry.local {
        Some(entry.revision)
    } else {
        revision
    }
}

/// Whether a model is installed: the worker must say that its weights are whole.
pub open spec fn is_installed(
    entry: EntryView,
    revision: Option<Seq<char>>,
    status: Option<ModelStatusView>,
) -> bool {
    entry.local || (revision is Some && status is Some && status->0.installed
        && status->0.weights_valid)
}

/// The pack that the worker names for a model.
pub open spec fn reported_pack_id(
    check: Option<CompatibilityView>,
    status: Option<ModelStatusView>,
) -> Option<Seq<char>> {
    match status {
        Some(ModelStatusView { model_pack_id: Some(id), .. }) => Some(id),
        _ => match check {
            Some(answer) => answer.model_pack_id,
            None => None,
        },
    }
}

/// The pack of a model: the one that the worker names, where it matches, else the
/// one that the registry chooses. A local model has none.
pub open spec fn chosen_pack(
    entry: EntryView,
    check: Option<CompatibilityView>,
    status: Option<ModelStatusView>,
    matching: Seq<ModelPack>,
    resolved: Option<PackView>,
) -> Option<PackView> {
    if entry.local {
        None
    } else {
        let reported = match reported_pack_id(check, status) {
            Some(id) => pack::pack_named(matching, id),
            None => None,
        };
        if reported is Some {
            reported
        } else {
            resolved
        }
    }
}

fn choose_pack<'a>(entry: &CatalogEntry, known: &Knowledge<'a>) -> (pack: Option<&'a ModelPack>)
    ensures
        pack::opt_pack(pack) == chosen_pack(
            entry@,
            opt_check(known.check),
            opt_status(known.status),
            known.matching@,
            pack::opt_pack(known.resolved),
        ),
{
    if entry.local {
        return None;
    }
    let from_status: Option<&str> = match known.status {
        Some(answer) => text::borrow(&answer.model_pack_id),
        None => None,
    };
    let reported: Option<&str> = match from_status {
        Some(id) => Some(id),
        None => match known.check {
            Some(answer) => text::borrow(&answer.model_pack_id),
            None => None,
        },
    };
    match reported {
        Some(id) => match pack::find_pack(known.matching, id) {
            Some(found) => Some(found),
            None => known.resolved,
        },
        None => known.resolved,
    }
}

/// Whether the worker attests a model for a pack that is known here.
pub open spec fn attested(status: Option<ModelStatusView>, matching: Seq<ModelPack>) -> bool {
    match status {
        Some(answer) => worker::attests_ready(answer) && answer.model_pack_id is Some
            && pack::pack_named(matching, answer.model_pack_id->0) is Some,
        None => false,
    }
}

/// Whether the worker says that a model can be used, for a pack that matches it
/// here: a pack that is not known, or none, makes no model ready.
pub fn worker_reports_ready_for_known_pack(
    status: &WorkerModelStatus,
    matching: &Vec<ModelPack>,
) -> (ready: bool)
    ensures
        ready == attested(Some(status@), matching@),
{
    worker::worker_reports_ready(status) && match &status.model_pack_id {
        Some(id) => pack::find_pack(matching, id.as_str()).is_some(),
        None => false,
    }
}

/// Whether a model can be used here.
pub open spec fn usable(entry: EntryView, status: Option<ModelStatusView>, matching: Seq<ModelPack>) -> bool {
    entry.local || attested(status, matching)
}

/// The status of the pack of a model, as the lab or else the pack says.
pub open spec fn pack_standing(
    lab_status: Option<CatalogModelStatus>,
    pack: Option<PackView>,
) -> Option<CatalogModelStatus> {
    match lab_status {
        Some(status) => Some(status),
        None => match pack {
            Some(known) => Some(known.status),
            None => None,
        },
    }
}

/// Whether a model has a pack that may serve.
pub open spec fn served(standing: Option<CatalogModelStatus>) -> bool {
    standing is Some && standing->0 != CatalogModelStatus::Unsupported
}

/// The last of the jobs on a model with a state of its copy that was updated
/// latest.
pub open spec fn latest_copy(jobs: Seq<JobView>, model_id: Seq<char>) -> Option<JobView>
    decreases jobs.len(),
{
    if jobs.len() == 0 {
        None
    } else {
        let job = jobs.last();
        let before = latest_copy(jobs.drop_last(), model_id);
        if job.target_id == model_id && job.cache_status is Some && (before is None
            || before->0.updated_at <= job.updated_at) {
            Some(job)
        } else {
            before
        }
    }
}

/// Finds the job that tells of the copy of a model.
pub fn find_latest_copy<'a>(jobs: &'a Vec<Job>, model_id: &str) -> (found: Option<&'a Job>)
    ensures
        (match found {
            Some(job) => Some(job@),
            None => None,
        }) == latest_copy(Seq::new(jobs@.len(), |i: int| jobs@[i]@), model_id@),
{
    let ghost all = Seq::new(jobs@.len(), |i: int| jobs@[i]@);
    let mut found: Option<&'a Job> = None;
    assert(all.take(0) =~= Seq::<JobView>::empty());
    for i in 0..jobs.len()
        invariant
            all == Seq::new(jobs@.len(), |i: int| jobs@[i]@),
            (match found {
                Some(job) => Some(job@),
                None => None,
            }) == latest_copy(all.take(i as int), model_id@),
    {
        assert(all.take(i + 1).drop_last() =~= all.take(i as int));
        assert(all.take(i + 1).last() == jobs@[i as int]@);
        let job = &jobs[i];
        if *job.target_id.as_str() == *model_id && job.cache_status.is_some() {
            let later = match found {
                Some(before) => before.updated_at <= job.updated_at,
                None => true,
            };
            if later {
                found = Some(job);
            }
        }
    }
    assert(all.take(all.len() as int) =~= all);
    found
}

/// What is said of the copy of a model.
pub open spec fn copy_word(job: Option<JobView>, storage_enabled: bool, installed: bool, auto_cache: bool) -> Seq<
    char,
> {
    match job {
        Some(JobView { cache_status: Some(word), .. }) => word,
        _ => if storage_enabled && installed && auto_cache {
            "CACHE_UNKNOWN"@
        } else if storage_enabled && installed {
            "CACHE_MANUAL"@
        } else {
            "CACHE_DISABLED"@
        },
    }
}

fn cache_word(job: Option<&Job>, storage_enabled: bool, installed: bool, auto_cache: bool) -> (word: String)
    ensures
        word@ == copy_word(
            match job {
                Some(found) => Some(found@),
                None => None,
            },
            storage_enabled,
            installed,
            auto_cache,
        ),
{
    match job {
        Some(found) => match &found.cache_status {
            Some(word) => {
                return word.clone();
            },
            None => {},
        },
        None => {},
    }
    if storage_enabled && installed && auto_cache {
        "CACHE_UNKNOWN".to_owned()
    } else if storage_enabled && installed {
        "CACHE_MANUAL".to_owned()
    } else {
        "CACHE_DISABLED".to_owned()
    }
}

/// What a model is made of where the worker does not say: the repository alone.
pub open spec fn plain_bundle(entry: EntryView) -> JsonView {
    JsonView::Object(
        seq![
            ("schema_version"@, JsonView::Integer(1)),
            (
                "base_model"@,
                JsonView::Object(
                    seq![
                        ("repository"@, JsonView::Text(entry.repository)),
                        ("revision"@, JsonView::Text(entry.revision)),
                    ],
                ),
            ),
            ("loras"@, JsonView::List(Seq::empty())),
            (
                "recipe"@,
                JsonView::Object(seq![("quality_mode"@, JsonView::Text("native"@))]),
            ),
        ],
    )
}

/// What a model is made of.
pub open spec fn bundle_of(entry: EntryView, status: Option<ModelStatusView>) -> JsonView {
    match status {
        Some(ModelStatusView { bundle: Some(bundle), .. }) => bundle,
        _ => plain_bundle(entry),
    }
}

fn bundle(entry: &CatalogEntry, status: Option<&WorkerModelStatus>) -> (document: Json)
    ensures
        document@ == bundle_of(entry@, opt_status(status)),
{
    match status {
        Some(answer) => match &answer.bundle {
            Some(found) => {
                return found.copy();
            },
            None => {},
        },
        None => {},
    }
    let mut base: Vec<(String, Json)> = Vec::new();
    json::put(&mut base, "repository", json::text_json(entry.repository.as_str()));
    json::put(&mut base, "revision", json::text_json(entry.revision.as_str()));
    assert(json::members_view(base@) =~= seq![
        ("repository"@, JsonView::Text(entry@.repository)),
        ("revision"@, JsonView::Text(entry@.revision)),
    ]);
    let mut recipe: Vec<(String, Json)> = Vec::new();
    json::put(&mut recipe, "quality_mode", json::text_json("native"));
    assert(json::members_view(recipe@) =~= seq![("quality_mode"@, JsonView::Text("native"@))]);
    let none: Vec<Json> = Vec::new();
    assert(json::items_view(none@) =~= Seq::<JsonView>::empty());
    let mut members: Vec<(String, Json)> = Vec::new();
    json::put(&mut members, "schema_version", Json::Integer(1));
    json::put(&mut members, "base_model", json::object(base));
    json::put(&mut members, "loras", json::list(none));
    json::put(&mut members, "recipe", json::object(recipe));
    assert(json::members_view(members@) =~= plain_bundle(entry@)->Object_0);
    json::object(members)
}

// ---------------------------------------------------------------------------
// Hardware
// ---------------------------------------------------------------------------

/// Whether the disk has room: twice the size of a model, for the files and for
/// their check, where both are known.
pub open spec fn room_on_disk(size: Option<u64>, available: Option<u64>) -> bool {
    match (available, size) {
        (Some(free), Some(bytes)) => bytes * 2 <= free || free == u64::MAX,
        _ => true,
    }
}

fn has_room(size: Option<u64>, available: Option<u64>) -> (yes: bool)
    ensures
        yes == room_on_disk(size, available),
{
    match available {
        Some(free) => match size {
            Some(bytes) => match bytes.checked_mul(2) {
                Some(needed) => needed <= free,
                None => free == u64::MAX,
            },
            None => true,
        },
        None => true,
    }
}

/// What the worker planned for the memory of a model: whether it can, and how.
pub open spec fn memory_plan(status: Option<ModelStatusView>) -> Option<(bool, Option<Seq<char>>)> {
    match status {
        Some(ModelStatusView { memory_plan: Some(plan), .. }) => match plan.member("feasible"@) {
            Some(JsonView::Bool(feasible)) => Some((feasible, plan.text_member("strategy"@))),
            _ => None,
        },
        _ => None,
    }
}

/// An estimate after the worker's own plan for the memory.
pub open spec fn planned(estimate: EstimateView, plan: Option<(bool, Option<Seq<char>>)>) -> EstimateView {
    match plan {
        Some((feasible, strategy)) => EstimateView {
            compatible_with_current_machine: Some(feasible),
            notes: match strategy {
                Some(name) => estimate.notes.push("Plan mémoire Worker réel: "@ + name + "."@),
                None => estimate.notes,
            },
            ..estimate
        },
        None => estimate,
    }
}

/// An estimate after the look at the disk.
pub open spec fn with_room(estimate: EstimateView, room: bool) -> EstimateView {
    if room {
        estimate
    } else {
        EstimateView {
            compatible_with_current_machine: Some(false),
            compatibility_level: "UNSUPPORTED"@,
            notes: estimate.notes.push(
                "Espace disque insuffisant pour le snapshot et sa validation atomique."@,
            ),
        }
    }
}

/// The estimate for a model on this machine.
pub open spec fn estimate_of(
    estimate: EstimateView,
    status: Option<ModelStatusView>,
    room: bool,
) -> EstimateView {
    with_room(planned(estimate, memory_plan(status)), room)
}

/// Whether the machine suits a model, in a word.
pub open spec fn hardware_word(compatible: Option<bool>) -> Seq<char> {
    match compatible {
        Some(true) => "COMPATIBLE"@,
        Some(false) => "UNSUPPORTED"@,
        None => "UNKNOWN"@,
    }
}

fn hardware_name(compatible: Option<bool>) -> (word: String)
    ensures
        word@ == hardware_word(compatible),
{
    match compatible {
        Some(true) => "COMPATIBLE".to_owned(),
        Some(false) => "UNSUPPORTED".to_owned(),
        None => "UNKNOWN".to_owned(),
    }
}

fn adjust(given: HardwareEstimate, status: Option<&WorkerModelStatus>, room: bool) -> (result:
    HardwareEstimate)
    ensures
        result@ == estimate_of(given@, opt_status(status), room),
{
    let ghost before_all = given@;
    let ghost told = opt_status(status);
    let mut estimate = given;
    match status {
        Some(answer) => match &answer.memory_plan {
            Some(plan) => match plan.get("feasible") {
                Some(value) => match value.as_flag() {
                    Some(feasible) => {
                        estimate.compatible_with_current_machine = Some(feasible);
                        match plan.text_member("strategy") {
                            Some(strategy) => {
                                let ghost before = estimate.notes@;
                                estimate.notes.push(
                                    text::concat3("Plan mémoire Worker réel: ", strategy, "."),
                                );
                                assert(text::texts(estimate.notes@) =~= text::texts(before).push(
                                    "Plan mémoire Worker réel: "@ + strategy@ + "."@,
                                ));
                            },
                            None => {},
                        }
                    },
                    None => {},
                },
                None => {},
            },
            None => {},
        },
        None => {},
    }
    assert(estimate@ =~= planned(before_all, memory_plan(told)));
    if !room {
        let ghost before = estimate.notes@;
        estimate.compatible_with_current_machine = Some(false);
        estimate.compatibility_level = "UNSUPPORTED".to_owned();
        estimate.notes.push(
            "Espace disque insuffisant pour le snapshot et sa validation atomique.".to_owned(),
        );
        assert(text::texts(estimate.notes@) =~= text::texts(before).push(
            "Espace disque insuffisant pour le snapshot et sa validation atomique."@,
        ));
    }
    estimate
}

/// Whether a variant fits into the free memory.
pub open spec fn fits(variant: VariantView, ram: u64, vram: u64) -> bool {
    variant.ram_required <= ram && (variant.vram_required == 0 || variant.vram_required <= vram)
}

/// The first variant that fits.
pub open spec fn fitting(variants: Seq<VariantView>, ram: u64, vram: u64) -> Option<Seq<char>>
    decreases variants.len(),
{
    if variants.len() == 0 {
        None
    } else if fits(variants[0], ram, vram) {
        Some(variants[0].id)
    } else {
        fitting(variants.drop_first(), ram, vram)
    }
}

fn recommended(variants: &Vec<ModelVariant>, ram: u64, vram: u64) -> (id: Option<String>)
    ensures
        text::opt(id) == fitting(variants_view(variants@), ram, vram),
{
    let ghost all = variants_view(variants@);
    assert(all.skip(0) =~= all);
    for i in 0..variants.len()
        invariant
            all == variants_view(variants@),
            fitting(all, ram, vram) == fitting(all.skip(i as int), ram, vram),
    {
        assert(all.skip(i as int)[0] == all[i as int]);
        assert(all.skip(i as int).drop_first() =~= all.skip(i + 1));
        let variant = &variants[i];
        if variant.ram_required <= ram && (variant.vram_required == 0 || variant.vram_required
            <= vram) {
            return Some(variant.id.clone());
        }
    }
    assert(all.skip(all.len() as int).len() == 0);
    None
}

// ---------------------------------------------------------------------------
// States and checks
// ---------------------------------------------------------------------------

/// How far the installation of a model is, in a word.
pub open spec fn installation_word(
    entry: EntryView,
    word: Seq<char>,
    revision: Option<Seq<char>>,
    status: Option<ModelStatusView>,
    matching: Seq<ModelPack>,
) -> Seq<char> {
    if entry.local {
        "READY"@
    } else if word == "UNSUPPORTED"@ {
        "RUNTIME_UNAVAILABLE"@
    } else if word == "UNKNOWN"@ && revision is None {
        "COMPATIBILITY_UNKNOWN"@
    } else if attested(status, matching) {
        "READY"@
    } else if status is Some && text::lower(status->0.state) == text::lower("FAILED"@) {
        "FAILED"@
    } else if is_installed(entry, revision, status) {
        if status->0.state == "READY"@ {
            "INSTALLED"@
        } else {
            status->0.state
        }
    } else if revision is Some {
        "DOWNLOADED"@
    } else {
        "NOT_INSTALLED"@
    }
}

fn installation_state(
    entry: &CatalogEntry,
    word: &str,
    revision: Option<&str>,
    status: Option<&WorkerModelStatus>,
    ready: bool,
    installed: bool,
    matching: Ghost<Seq<ModelPack>>,
) -> (state: String)
    requires
        !entry.local ==> ready == attested(opt_status(status), matching@),
        installed == is_installed(entry@, text::opt_str(revision), opt_status(status)),
    ensures
        state@ == installation_word(
            entry@,
            word@,
            text::opt_str(revision),
            opt_status(status),
            matching@,
        ),
{
    if entry.local {
        return "READY".to_owned();
    }
    if *word == *"UNSUPPORTED" {
        return "RUNTIME_UNAVAILABLE".to_owned();
    }
    if *word == *"UNKNOWN" && revision.is_none() {
        return "COMPATIBILITY_UNKNOWN".to_owned();
    }
    if ready {
        return "READY".to_owned();
    }
    match status {
        Some(answer) => {
            if text::same_ignoring_ascii_case(answer.state.as_str(), "FAILED") {
                return "FAILED".to_owned();
            }
            if installed {
                if *answer.state.as_str() == *"READY" {
                    return "INSTALLED".to_owned();
                }
                return answer.state.clone();
            }
        },
        None => {},
    }
    if revision.is_some() {
        "DOWNLOADED".to_owned()
    } else {
        "NOT_INSTALLED".to_owned()
    }
}

/// One thing that a model is held against, and how it fares.
#[derive(Debug)]
pub struct CompatibilityCheck {
    pub key: &'static str,
    pub label: &'static str,
    pub ok: bool,
    pub detail: String,
}

/// One thing that a model is held against, and how it fares.
#[verifier::ext_equal]
pub struct CheckView {
    pub key: Seq<char>,
    pub label: Seq<char>,
    pub ok: bool,
    pub detail: Seq<char>,
}

impl View for CompatibilityCheck {
    type V = CheckView;

    open spec fn view(&self) -> CheckView {
        CheckView {
            key: self.key@,
            label: self.label@,
            ok: self.ok,
            detail: self.detail@,
        }
    }
}

/// What a list of checks says.
pub open spec fn checks_view(list: Seq<CompatibilityCheck>) -> Seq<CheckView> {
    Seq::new(list.len(), |i: int| list[i]@)
}

/// Whether the files may be fetched: they may, unless a look showed that they
/// may not.
pub open spec fn accessible(entry: EntryView) -> bool {
    entry.access_authorized || !entry.access_checked
}

/// What is said of the right to fetch the files.
pub open spec fn access_detail(entry: EntryView) -> Seq<char> {
    if entry.access_authorized && (entry.gated || entry.private) {
        "HF_TOKEN autorisé : les fichiers de configuration sont accessibles."@
    } else if !entry.access_checked && (entry.gated || entry.private) {
        "Accès gated/privé non vérifié dans la liste ; contrôle exact avant téléchargement."@
    } else if entry.gated {
        "Repository gated : HF_TOKEN doit disposer de l'autorisation."@
    } else if entry.private {
        "Repository privé : HF_TOKEN autorisé requis."@
    } else {
        "Repository public."@
    }
}

fn access_text(entry: &CatalogEntry) -> (detail: &'static str)
    ensures
        detail@ == access_detail(entry@),
{
    let restricted = entry.gated || entry.private;
    if entry.access_authorized && restricted {
        "HF_TOKEN autorisé : les fichiers de configuration sont accessibles."
    } else if !entry.access_checked && restricted {
        "Accès gated/privé non vérifié dans la liste ; contrôle exact avant téléchargement."
    } else if entry.gated {
        "Repository gated : HF_TOKEN doit disposer de l'autorisation."
    } else if entry.private {
        "Repository privé : HF_TOKEN autorisé requis."
    } else {
        "Repository public."
    }
}

/// All that a model is held against.
pub open spec fn checks_of(
    entry: EntryView,
    hardware_compatible: bool,
    room: bool,
    runtime_ok: bool,
    reason: Seq<char>,
    vram: Seq<char>,
    ram: Seq<char>,
) -> Seq<CheckView> {
    seq![
        CheckView {
            key: "source"@,
            label: "Source Hugging Face"@,
            ok: entry.source_available,
            detail: if entry.source_available {
                "Repository "@ + entry.repository + " accessible."@
            } else {
                "Métadonnées ou fichiers sources indisponibles."@
            },
        },
        CheckView {
            key: "access"@,
            label: "Droits d'accès"@,
            ok: accessible(entry),
            detail: access_detail(entry),
        },
        CheckView {
            key: "hardware"@,
            label: "Configuration matérielle"@,
            ok: hardware_compatible,
            detail: "VRAM disponible "@ + vram + " Go · RAM disponible "@ + ram + " Go"@ + (
            if room {
                ""@
            } else {
                " · espace disque insuffisant"@
            }) + "."@,
        },
        CheckView {
            key: "runtime"@,
            label: "Pipeline VidioAI"@,
            ok: runtime_ok,
            detail: reason,
        },
        CheckView {
            key: "files"@,
            label: "Fichiers requis"@,
            ok: entry.quality_valid,
            detail: if entry.quality_valid {
                "Manifest standard/modular et composants ou références de poids détectés."@
            } else {
                "Manifest Diffusers/ModularPipeline incomplet ou non téléchargeable."@
            },
        },
    ]
}

fn checks(
    entry: &CatalogEntry,
    hardware_compatible: bool,
    room: bool,
    runtime_ok: bool,
    reason: &str,
    vram: &str,
    ram: &str,
) -> (list: Vec<CompatibilityCheck>)
    ensures
        checks_view(list@) == checks_of(
            entry@,
            hardware_compatible,
            room,
            runtime_ok,
            reason@,
            vram@,
            ram@,
        ),
{
    let mut list: Vec<CompatibilityCheck> = Vec::new();
    list.push(
        CompatibilityCheck {
            key: "source",
            label: "Source Hugging Face",
            ok: entry.source_available,
            detail: if entry.source_available {
                text::concat3("Repository ", entry.repository.as_str(), " accessible.")
            } else {
                "Métadonnées ou fichiers sources indisponibles.".to_owned()
            },
        },
    );
    list.push(
        CompatibilityCheck {
            key: "access",
            label: "Droits d'accès",
            ok: entry.access_authorized || !entry.access_checked,
            detail: access_text(entry).to_owned(),
        },
    );
    let mut memory = "VRAM disponible ".to_owned();
    memory.append(vram);
    memory.append(" Go · RAM disponible ");
    memory.append(ram);
    memory.append(" Go");
    memory.append(
        if room {
            ""
        } else {
            " · espace disque insuffisant"
        },
    );
    memory.append(".");
    list.push(
        CompatibilityCheck {
            key: "hardware",
            label: "Configuration matérielle",
            ok: hardware_compatible,
            detail: memory,
        },
    );
    list.push(
        CompatibilityCheck {
            key: "runtime",
            label: "Pipeline VidioAI",
            ok: runtime_ok,
            detail: reason.to_owned(),
        },
    );
    list.push(
        CompatibilityCheck {
            key: "files",
            label: "Fichiers requis",
            ok: entry.quality_valid,
            detail: if entry.quality_valid {
                "Manifest standard/modular et composants ou références de poids détectés.".to_owned()
            } else {
                "Manifest Diffusers/ModularPipeline incomplet ou non téléchargeable.".to_owned()
            },
        },
    );
    assert(checks_view(list@) =~= checks_of(
        entry@,
        hardware_compatible,
        room,
        runtime_ok,
        reason@,
        vram@,
        ram@,
    ));
    list
}

// ---------------------------------------------------------------------------
// The view of a model
// ---------------------------------------------------------------------------

/// What is said of a model on this machine.
#[derive(Debug)]
pub struct ModelView {
    /// What the catalogue knows of the model.
    pub entry: CatalogEntry,
    /// What is shown as its capabilities: those that can be used, or else those
    /// that are declared.
    pub capabilities: Vec<ModelCapability>,
    pub installed: bool,
    pub cache_status: String,
    pub cache_error: Option<String>,
    pub runtime_dependencies: Vec<Json>,
    pub runtime_precision: Option<Json>,
    /// The model, what is added to it, and the recipe.
    pub bundle: Json,
    /// Whether a runtime was shown to work for the model.
    pub runtime_ready: bool,
    pub model_status: CatalogModelStatus,
    pub model_pack_id: Option<String>,
    pub model_pack_status: Option<CatalogModelStatus>,
    pub workflow: Option<String>,
    pub advanced_parameters: Vec<String>,
    pub presets: Json,
    pub installation_state: String,
    pub compatible: bool,
    pub recommended_variant: Option<String>,
    pub loaded: bool,
    pub repository_url: String,
    pub license: String,
    pub engine: String,
    /// Whether the engine is one of this service or a model with weights.
    pub engine_type: &'static str,
    pub runtime_supported: bool,
    pub runtime_compatibility: String,
    pub runtime_reason: String,
    pub pipeline_class: Option<String>,
    pub runtime_capabilities: Vec<ModelCapability>,
    pub input_profile: ModelInputProfile,
    pub vidioai_supported: bool,
    pub discovered: bool,
    pub downloadable: bool,
    pub hardware_compatible: bool,
    pub hardware_compatibility: String,
    pub available_ram_bytes: u64,
    pub available_vram_bytes: u64,
    pub installable: bool,
    pub compatibility_checks: Vec<CompatibilityCheck>,
    pub update_available: bool,
    pub installed_revision: Option<String>,
    pub compatibility_level: String,
    pub hardware: HardwareEstimate,
}

/// Whether the runtime may be used for a model: one that is not known to be
/// supported may be tried.
pub open spec fn runtime_allowed(entry: EntryView, check: Option<CompatibilityView>) -> bool {
    compatibility_word(entry.local, check) != "UNSUPPORTED"@
}

/// Whether the files of a model can be fetched.
pub open spec fn fetchable(entry: EntryView) -> bool {
    entry.source_available && entry.quality_valid && accessible(entry)
}

/// What the parts of the view of a model that concern its runtime are.
pub open spec fn runtime_part(view: ModelView, entry: EntryView, known: Knowledge, machine: ModelMachineContext) -> bool {
    let check = opt_check(known.check);
    let status = opt_status(known.status);
    let pack = chosen_pack(
        entry,
        check,
        status,
        known.matching@,
        pack::opt_pack(known.resolved),
    );
    let standing = pack_standing(known.lab_status, pack);
    let word = compatibility_word(entry.local, check);
    let usable_list = usable_capabilities(entry, check, status);
    &&& view.runtime_compatibility@ == word
    &&& view.runtime_reason@ == reason_of(entry, check, machine.runtime_available)
    &&& text::opt(view.pipeline_class) == class_of(entry, check)
    &&& view.runtime_capabilities@ == usable_list
    &&& view.capabilities@ == (if usable_list.len() == 0 {
        entry.capabilities
    } else {
        usable_list
    })
    &&& capability::profiles(view.input_profile, usable_list)
    &&& view.runtime_ready == usable(entry, status, known.matching@)
    &&& text::opt(view.model_pack_id) == (match pack {
        Some(found) => Some(found.id),
        None => None,
    })
    &&& view.model_pack_status == standing
    &&& text::opt(view.workflow) == (match pack {
        Some(found) => pack::first_workflow(found, capability::names_of(entry.capabilities)),
        None => None,
    })
    &&& text::texts(view.advanced_parameters@) == (match pack {
        Some(found) => json::texts_of(found.inputs.member("advanced_parameters"@)),
        None => Seq::empty(),
    })
    &&& view.presets@ == (match pack {
        Some(found) => found.presets,
        None => JsonView::Object(Seq::empty()),
    })
    &&& view.engine@ == (if entry.local {
        match entry.runtime_name {
            Some(name) => name,
            None => "procedural"@,
        }
    } else {
        match pack {
            Some(found) => found.engine_name,
            None => "Non supporté"@,
        }
    })
    &&& view.engine_type@ == (if entry.local {
        "procedural"@
    } else {
        "ai"@
    })
    &&& view.runtime_supported == (word == "SUPPORTED"@ && served(standing))
    &&& view.vidioai_supported == view.runtime_supported
}

/// What the parts of the view of a model that concern its files are.
pub open spec fn files_part(view: ModelView, entry: EntryView, known: Knowledge, copy_job: Option<JobView>) -> bool {
    let check = opt_check(known.check);
    let status = opt_status(known.status);
    let revision = text::opt_str(known.installed_revision);
    let installed = is_installed(entry, revision, status);
    &&& view.entry@ == entry
    &&& view.installed == installed
    &&& view.cache_status@ == copy_word(
        copy_job,
        known.storage_enabled,
        installed,
        known.auto_cache,
    )
    &&& text::opt(view.cache_error) == (match copy_job {
        Some(found) => found.cache_error,
        None => None,
    })
    &&& json::items_view(view.runtime_dependencies@) == (match status {
        Some(answer) => answer.runtime_dependencies,
        None => Seq::empty(),
    })
    &&& json::opt_view(view.runtime_precision) == (match status {
        Some(answer) => answer.precision_plan,
        None => None,
    })
    &&& view.bundle@ == bundle_of(entry, status)
    &&& view.installation_state@ == installation_word(
        entry,
        compatibility_word(entry.local, check),
        revision,
        status,
        known.matching@,
    )
    &&& view.loaded == known.loaded
    &&& view.repository_url@ == (if entry.local {
        Seq::empty()
    } else {
        "https://huggingface.co/"@ + entry.repository
    })
    &&& view.license@ == (match entry.license {
        Some(name) => name,
        None => "Non renseignée"@,
    })
    &&& text::opt(view.installed_revision) == present_revision(entry, revision)
    &&& view.update_available == (present_revision(entry, revision) is Some && present_revision(
        entry,
        revision,
    )->0 != entry.revision)
}

/// What the parts of the view of a model that concern the machine are.
pub open spec fn machine_part(view: ModelView, entry: EntryView, known: Knowledge, machine: ModelMachineContext, given: EstimateView) -> bool {
    let check = opt_check(known.check);
    let status = opt_status(known.status);
    let pack = chosen_pack(
        entry,
        check,
        status,
        known.matching@,
        pack::opt_pack(known.resolved),
    );
    let standing = pack_standing(known.lab_status, pack);
    let room = room_on_disk(entry.estimated_size_bytes, machine.storage_available_bytes);
    let estimated = estimate_of(given, status, room);
    let suits = estimated.compatible_with_current_machine == Some(true);
    let runs = entry.local || machine.runtime_available;
    &&& view.hardware@ == estimated
    &&& view.compatibility_level@ == estimated.compatibility_level
    &&& view.hardware_compatible == suits
    &&& view.hardware_compatibility@ == hardware_word(estimated.compatible_with_current_machine)
    &&& text::opt(view.recommended_variant) == fitting(
        entry.variants,
        machine.available_ram_bytes,
        machine.available_vram_bytes,
    )
    &&& view.available_ram_bytes == machine.available_ram_bytes
    &&& view.available_vram_bytes == machine.available_vram_bytes
    &&& checks_view(view.compatibility_checks@) == checks_of(
        entry,
        suits,
        room,
        runtime_allowed(entry, check) && runs,
        reason_of(entry, check, machine.runtime_available),
        known.vram_gigabytes@,
        known.ram_gigabytes@,
    )
    &&& view.compatible == (suits && runtime_allowed(entry, check) && served(standing)
        && entry.source_available && entry.quality_valid && runs)
    &&& view.discovered == entry.source_available
    &&& view.downloadable == fetchable(entry)
    &&& view.installable == (fetchable(entry) && runtime_allowed(entry, check) && served(standing)
        && estimated.compatible_with_current_machine != Some(false) && runs)
}

/// Says of a model what holds on this machine. `hardware` is the estimate for the
/// machine, `jobs` are those of the service, and `grade` says what the catalogue
/// shows of a model with a pack.
pub fn model_view<G: Fn(CatalogModelStatus, bool, bool) -> CatalogModelStatus>(
    entry: &CatalogEntry,
    machine: &ModelMachineContext,
    known: &Knowledge,
    hardware: HardwareEstimate,
    jobs: &Vec<Job>,
    grade: &G,
) -> (view: ModelView)
    requires
        forall|known_status: CatalogModelStatus, installed: bool, ready: bool| #[trigger]
            grade.requires((known_status, installed, ready)),
    ensures
        runtime_part(view, entry@, *known, *machine),
        files_part(
            view,
            entry@,
            *known,
            latest_copy(Seq::new(jobs@.len(), |i: int| jobs@[i]@), entry@.id),
        ),
        machine_part(view, entry@, *known, *machine, hardware@),
        match view.model_pack_status {
            Some(standing) => grade.ensures(
                (standing, view.installed, view.runtime_ready),
                view.model_status,
            ),
            None => view.model_status == CatalogModelStatus::Unsupported,
        },
{
    let word = runtime_compatibility(entry.local, known.check);
    let allowed = *word.as_str() != *"UNSUPPORTED";
    let runs = entry.local || machine.runtime_available;
    let usable_list = runtime_capabilities(entry, known.check, known.status);
    let reason = runtime_reason(entry, known.check, machine.runtime_available);
    let class = pipeline_class(entry, known.check);
    let installed = entry.local || (known.installed_revision.is_some() && match known.status {
        Some(answer) => answer.installed && answer.weights_valid,
        None => false,
    });
    let chosen = choose_pack(entry, known);
    let pack_ready = match known.status {
        Some(answer) => worker_reports_ready_for_known_pack(answer, known.matching),
        None => false,
    };
    let ready = entry.local || pack_ready;
    let standing: Option<CatalogModelStatus> = match known.lab_status {
        Some(status) => Some(status),
        None => match chosen {
            Some(found) => Some(found.status),
            None => None,
        },
    };
    let known_pack = match standing {
        Some(status) => status != CatalogModelStatus::Unsupported,
        None => false,
    };
    let model_status = pack::public_model_status(standing, installed, ready, grade);
    let copy_job = find_latest_copy(jobs, entry.id.as_str());
    let cache_status = cache_word(copy_job, known.storage_enabled, installed, known.auto_cache);
    let cache_error = match copy_job {
        Some(found) => text::copy_opt(&found.cache_error),
        None => None,
    };
    let (runtime_dependencies, runtime_precision) = match known.status {
        Some(answer) => (
            json::copy_items(&answer.runtime_dependencies),
            json::copy_opt(&answer.precision_plan),
        ),
        None => {
            let none: Vec<Json> = Vec::new();
            assert(json::items_view(none@) =~= Seq::<JsonView>::empty());
            (none, None)
        },
    };
    let (model_pack_id, workflow, advanced_parameters, presets) = match chosen {
        Some(found) => (
            Some(found.id.clone()),
            pack::find_workflow(found, &capability::api_names(&entry.capabilities)),
            found.advanced_parameters(),
            found.presets.copy(),
        ),
        None => {
            let names: Vec<String> = Vec::new();
            let members: Vec<(String, Json)> = Vec::new();
            assert(text::texts(names@) =~= Seq::<Seq<char>>::empty());
            assert(json::members_view(members@) =~= Seq::<(Seq<char>, JsonView)>::empty());
            (None, None, names, json::object(members))
        },
    };
    let room = has_room(entry.estimated_size_bytes, machine.storage_available_bytes);
    let estimated = adjust(hardware, known.status, room);
    let suits = match estimated.compatible_with_current_machine {
        Some(flag) => flag,
        None => false,
    };
    let blocked = match estimated.compatible_with_current_machine {
        Some(flag) => !flag,
        None => false,
    };
    let state = installation_state(
        entry,
        word.as_str(),
        known.installed_revision,
        known.status,
        ready,
        installed,
        Ghost(known.matching@),
    );
    let list = checks(
        entry,
        suits,
        room,
        allowed && runs,
        reason.as_str(),
        known.vram_gigabytes,
        known.ram_gigabytes,
    );
    let downloadable = entry.source_available && entry.quality_valid && (entry.access_authorized
        || !entry.access_checked);
    let installed_revision = if entry.local {
        Some(entry.revision.clone())
    } else {
        match known.installed_revision {
            Some(revision) => Some(revision.to_owned()),
            None => None,
        }
    };
    let update_available = match &installed_revision {
        Some(revision) => *revision.as_str() != *entry.revision.as_str(),
        None => false,
    };
    let engine = if entry.local {
        match &entry.runtime_name {
            Some(name) => name.clone(),
            None => "procedural".to_owned(),
        }
    } else {
        match chosen {
            Some(found) => found.engine_name.clone(),
            None => "Non supporté".to_owned(),
        }
    };
    let repository_url = if entry.local {
        let none = String::new();
        assert(none@ =~= Seq::<char>::empty());
        none
    } else {
        text::concat("https://huggingface.co/", entry.repository.as_str())
    };
    let supported = *word.as_str() == *"SUPPORTED" && known_pack;
    ModelView {
        entry: entry.copy(),
        capabilities: if usable_list.len() == 0 {
            capability::copy_list(&entry.capabilities)
        } else {
            capability::copy_list(&usable_list)
        },
        installed,
        cache_status,
        cache_error,
        runtime_dependencies,
        runtime_precision,
        bundle: bundle(entry, known.status),
        runtime_ready: ready,
        model_status,
        model_pack_id,
        model_pack_status: standing,
        workflow,
        advanced_parameters,
        presets,
        installation_state: state,
        compatible: suits && allowed && known_pack && entry.source_available
            && entry.quality_valid && runs,
        recommended_variant: recommended(
            &entry.variants,
            machine.available_ram_bytes,
            machine.available_vram_bytes,
        ),
        loaded: known.loaded,
        repository_url,
        license: match &entry.license {
            Some(name) => name.clone(),
            None => "Non renseignée".to_owned(),
        },
        engine,
        engine_type: if entry.local {
            "procedural"
        } else {
            "ai"
        },
        runtime_supported: supported,
        runtime_compatibility: word,
        runtime_reason: reason,
        pipeline_class: class,
        input_profile: capability::model_input_profile(&usable_list),
        runtime_capabilities: usable_list,
        vidioai_supported: supported,
        discovered: entry.source_available,
        downloadable,
        hardware_compatible: suits,
        hardware_compatibility: hardware_name(estimated.compatible_with_current_machine),
        available_ram_bytes: machine.available_ram_bytes,
        available_vram_bytes: machine.available_vram_bytes,
        installable: downloadable && allowed && known_pack && !blocked && runs,
        compatibility_checks: list,
        update_available,
        installed_revision,
        compatibility_level: estimated.compatibility_level.clone(),
        hardware: estimated,
    }
}

// ---------------------------------------------------------------------------
// Laws
// ---------------------------------------------------------------------------

/// A model without a pack is shown as unsupported by the runtime, and can neither
/// be installed nor counted as compatible, whatever else is known of it.
pub proof fn law_no_pack_no_support(
    view: ModelView,
    entry: EntryView,
    known: Knowledge,
    machine: ModelMachineContext,
    given: EstimateView,
)
    requires
        runtime_part(view, entry, known, machine),
        machine_part(view, entry, known, machine, given),
        view.model_pack_status is None,
    ensures
        !view.runtime_supported,
        !view.compatible,
        !view.installable,
{
}

/// A model of the worker is ready only where the worker attests it for a pack that
/// is known here and that matches it.
pub proof fn law_ready_needs_a_known_pack(
    view: ModelView,
    entry: EntryView,
    known: Knowledge,
    machine: ModelMachineContext,
)
    requires
        runtime_part(view, entry, known, machine),
        view.runtime_ready,
        !entry.local,
    ensures
        known.status is Some,
        worker::attests_ready(known.status->0@),
        known.status->0@.model_pack_id is Some,
        pack::pack_named(known.matching@, known.status->0@.model_pack_id->0) is Some,
{
}

/// A model that does not fit on the disk, or that the runtime refuses, cannot be
/// installed, and a model is compatible only where the machine suits it.
pub proof fn law_installable_models_fit(
    view: ModelView,
    entry: EntryView,
    known: Knowledge,
    machine: ModelMachineContext,
    given: EstimateView,
)
    requires
        machine_part(view, entry, known, machine, given),
    ensures
        view.installable ==> room_on_disk(
            entry.estimated_size_bytes,
            machine.storage_available_bytes,
        ) && runtime_allowed(entry, opt_check(known.check)) && fetchable(entry),
        view.compatible ==> view.hardware_compatible,
        view.hardware_compatible ==> room_on_disk(
            entry.estimated_size_bytes,
            machine.storage_available_bytes,
        ),
{
}

/// What is said of the compatibility of a model is what the worker answers; an
/// engine of this service is always supported, and without an answer it is unknown.
pub proof fn law_compatibility_is_what_the_worker_answers(
    local: bool,
    check: Option<CompatibilityView>,
)
    ensures
        local ==> compatibility_word(local, check) == "SUPPORTED"@,
        !local && check is None ==> compatibility_word(local, check) == "UNKNOWN"@,
        !local ==> (check matches Some(answer) ==> {
            let told = answer.compatibility_status;
            &&& told == "SUPPORTED"@ || told == "UNKNOWN"@ || told == "UNSUPPORTED"@
                ==> compatibility_word(local, check) == told
            &&& told != "SUPPORTED"@ && told != "UNKNOWN"@ && told != "UNSUPPORTED"@ ==> (
            answer.runtime_supported ==> compatibility_word(local, check) == "SUPPORTED"@) && (
            !answer.runtime_supported ==> compatibility_word(local, check) == "UNKNOWN"@)
        }),
{
}

/// What a model can be used for is what the worker says of it, else what it is
/// declared or checked for.
pub proof fn law_capabilities_are_those_that_can_be_used(
    entry: EntryView,
    check: Option<CompatibilityView>,
    status: Option<ModelStatusView>,
)
    ensures
        status is None && entry.local ==> usable_capabilities(entry, check, status)
            == entry.runtime_capabilities,
        status is None && !entry.local && check is None ==> usable_capabilities(
            entry,
            check,
            status,
        ).len() == 0,
        status is None && !entry.local && check is Some ==> usable_capabilities(
            entry,
            check,
            status,
        ) == capability::all_named(check->0.runtime_capabilities),
        status matches Some(told) ==> capability::all_named(told.capabilities).len() > 0
            ==> usable_capabilities(entry, check, status) == capability::all_named(
            told.capabilities,
        ),
        check matches Some(answer) ==> (answer.pipeline_class is Some ==> class_of(entry, check)
            == answer.pipeline_class),
        check is None ==> class_of(entry, check) == entry.pipeline_class,
{
}

/// A model is installed where it is an engine of this service, or where a revision
/// is on the disk and the worker found its weights valid.
pub proof fn law_installed_models_are_valid(
    entry: EntryView,
    revision: Option<Seq<char>>,
    status: Option<ModelStatusView>,
)
    ensures
        entry.local ==> is_installed(entry, revision, status),
        !entry.local ==> (is_installed(entry, revision, status) <==> revision is Some && (status
            matches Some(told) && told.installed && told.weights_valid)),
        entry.local ==> present_revision(entry, revision) == Some(entry.revision),
        !entry.local ==> present_revision(entry, revision) == revision,
{
}

/// A model is attested where the worker says that it is ready under a pack that
/// matches it.
pub proof fn law_ready_models_are_attested(
    entry: EntryView,
    status: Option<ModelStatusView>,
    matching: Seq<ModelPack>,
)
    ensures
        attested(status, matching) ==> (status matches Some(told) && told.state == "READY"@
            && told.weights_valid && told.runtime_available && told.runtime_compatible && (
        told.model_pack_id matches Some(id) && pack::pack_named(matching, id) is Some)),
        status is None ==> !attested(status, matching),
        usable(entry, status, matching) <==> entry.local || attested(status, matching),
{
}

/// The pack of a model is the one that the worker reports where that matches, else
/// the one that the registry chooses; an engine of this service has none.
pub proof fn law_packs_are_those_reported(
    entry: EntryView,
    check: Option<CompatibilityView>,
    status: Option<ModelStatusView>,
    matching: Seq<ModelPack>,
    resolved: Option<PackView>,
)
    ensures
        entry.local ==> chosen_pack(entry, check, status, matching, resolved) is None,
        !entry.local && status is None && check is None ==> chosen_pack(
            entry,
            check,
            status,
            matching,
            resolved,
        ) == resolved,
        !entry.local ==> (status matches Some(told) ==> (told.model_pack_id matches Some(id) ==> (
        pack::pack_named(matching, id) matches Some(named) ==> chosen_pack(
            entry,
            check,
            status,
            matching,
            resolved,
        ) == Some(named)))),
        !entry.local ==> (status is None || status->0.model_pack_id is None) ==> (check
            matches Some(answer) ==> (answer.model_pack_id matches Some(id) ==> (pack::pack_named(
            matching,
            id,
        ) matches Some(named) ==> chosen_pack(entry, check, status, matching, resolved) == Some(
            named,
        )))),
{
}

/// What the lab says of a model comes before what its pack says; a model is served
/// where one of them says something, and not that it is unsupported.
pub proof fn law_the_lab_comes_first(
    lab: Option<CatalogModelStatus>,
    pack: Option<PackView>,
)
    ensures
        lab is Some ==> pack_standing(lab, pack) == lab,
        lab is None ==> (pack matches Some(known) ==> pack_standing(lab, pack) == Some(
            known.status,
        )),
        lab is None && pack is None ==> pack_standing(lab, pack) is None,
        served(pack_standing(lab, pack)) <==> (pack_standing(lab, pack) == Some(
            CatalogModelStatus::Ready,
        ) || pack_standing(lab, pack) == Some(CatalogModelStatus::Experimental)),
{
}

/// The copy of a model stands where the latest job that speaks of its copy says.
pub proof fn law_copies_stand_where_the_latest_job_says(
    jobs: Seq<JobView>,
    model_id: Seq<char>,
    other: int,
)
    requires
        0 <= other < jobs.len(),
    ensures
        latest_copy(jobs, model_id) matches Some(found) ==> jobs.contains(found) && found.target_id
            == model_id && found.cache_status is Some && (jobs[other].target_id == model_id
            && jobs[other].cache_status is Some ==> jobs[other].updated_at <= found.updated_at),
        jobs[other].target_id == model_id && jobs[other].cache_status is Some ==> latest_copy(
            jobs,
            model_id,
        ) is Some,
    decreases jobs.len(),
{
    let rest = jobs.drop_last();
    assert(jobs[jobs.len() - 1] == jobs.last());
    if other < rest.len() {
        law_copies_stand_where_the_latest_job_says(rest, model_id, other);
        assert(rest[other] == jobs[other]);
    } else if rest.len() > 0 {
        law_copies_stand_where_the_latest_job_says(rest, model_id, 0);
    }
    match latest_copy(rest, model_id) {
        Some(found) => {
            let i = choose|i: int| 0 <= i < rest.len() && rest[i] == found;
            assert(jobs[i] == found);
        },
        None => {},
    }
}

/// What is said of a copy is what its job says; without one, that it is off, left
/// to the user, or not known.
pub proof fn law_copies_are_told(
    job: Option<JobView>,
    storage: bool,
    installed: bool,
    automatic: bool,
)
    ensures
        job matches Some(found) ==> (found.cache_status matches Some(word) ==> copy_word(
            job,
            storage,
            installed,
            automatic,
        ) == word),
        job is None && (!storage || !installed) ==> copy_word(job, storage, installed, automatic)
            == "CACHE_DISABLED"@,
        job is None && storage && installed && automatic ==> copy_word(
            job,
            storage,
            installed,
            automatic,
        ) == "CACHE_UNKNOWN"@,
        job is None && storage && installed && !automatic ==> copy_word(
            job,
            storage,
            installed,
            automatic,
        ) == "CACHE_MANUAL"@,
{
}

/// There is room on the disk for a model where twice its size is free, and where
/// one of the two is not known.
pub proof fn law_models_need_room_twice(size: Option<u64>, available: Option<u64>)
    ensures
        size is None || available is None ==> room_on_disk(size, available),
        size is Some && available is Some && available->0 < u64::MAX ==> (room_on_disk(
            size,
            available,
        ) <==> 2 * size->0 <= available->0),
{
}

/// What the worker plans for the memory decides whether the machine suits; without
/// room on the disk it never does. Without a plan the estimate stands.
pub proof fn law_the_machine_suits_as_planned(
    estimate: EstimateView,
    status: Option<ModelStatusView>,
    room: bool,
)
    ensures
        ({
            let judged = estimate_of(estimate, status, room);
            &&& !room ==> judged.compatible_with_current_machine == Some(false)
                && judged.compatibility_level == "UNSUPPORTED"@
            &&& room && status is None ==> judged == estimate
            &&& room ==> (status matches Some(told) ==> (told.memory_plan matches Some(plan) ==> (
            plan.member("feasible"@) matches Some(JsonView::Bool(feasible))
                ==> judged.compatible_with_current_machine == Some(feasible)
                && judged.compatibility_level == estimate.compatibility_level)))
        }),
        hardware_word(Some(true)) == "COMPATIBLE"@,
        hardware_word(Some(false)) == "UNSUPPORTED"@,
        hardware_word(None) == "UNKNOWN"@,
{
}

/// The variant that is recommended is the first that fits the memory of the
/// machine.
pub proof fn law_recommended_variants_fit(
    variants: Seq<VariantView>,
    ram: u64,
    vram: u64,
    other: int,
)
    requires
        0 <= other < variants.len(),
    ensures
        fitting(variants, ram, vram) matches Some(id) ==> exists|i: int|
            0 <= i < variants.len() && (#[trigger] variants[i]).id == id && variants[i].ram_required
                <= ram && (variants[i].vram_required == 0 || variants[i].vram_required <= vram),
        variants[other].ram_required <= ram && (variants[other].vram_required == 0
            || variants[other].vram_required <= vram) ==> fitting(variants, ram, vram) is Some,
        variants[0].ram_required <= ram && (variants[0].vram_required == 0
            || variants[0].vram_required <= vram) ==> fitting(variants, ram, vram) == Some(
            variants[0].id,
        ),
    decreases variants.len(),
{
    let rest = variants.drop_first();
    if !fits(variants[0], ram, vram) {
        if rest.len() > 0 {
            law_recommended_variants_fit(
                rest,
                ram,
                vram,
                if other > 0 {
                    other - 1
                } else {
                    0
                },
            );
            assert(other > 0 ==> rest[other - 1] == variants[other]);
            if fitting(rest, ram, vram) is Some {
                let i = choose|i: int|
                    0 <= i < rest.len() && (#[trigger] rest[i]).id == fitting(rest, ram, vram)->0
                        && rest[i].ram_required <= ram && (rest[i].vram_required == 0
                        || rest[i].vram_required <= vram);
                assert(variants[i + 1] == rest[i]);
            }
        }
    }
}

/// How far a model is installed is told in one word: ready only where it is an
/// engine of this service or attested, and not installed only where no revision is
/// on the disk.
pub proof fn law_installations_are_told_in_a_word(
    entry: EntryView,
    word: Seq<char>,
    revision: Option<Seq<char>>,
    status: Option<ModelStatusView>,
    matching: Seq<ModelPack>,
)
    requires
        status matches Some(told) ==> told.state != "NOT_INSTALLED"@,
    ensures
        ({
            let told = installation_word(entry, word, revision, status, matching);
            &&& entry.local ==> told == "READY"@
            &&& !entry.local && word == "UNSUPPORTED"@ ==> told == "RUNTIME_UNAVAILABLE"@
            &&& !entry.local && word == "UNKNOWN"@ && revision is None ==> told
                == "COMPATIBILITY_UNKNOWN"@
            &&& !entry.local && word == "SUPPORTED"@ && attested(status, matching) ==> told
                == "READY"@
            &&& told == "READY"@ ==> entry.local || attested(status, matching)
            &&& !entry.local && word == "SUPPORTED"@ && status is None && revision is Some ==> told
                == "DOWNLOADED"@
            &&& !entry.local && word == "SUPPORTED"@ && status is None && revision is None ==> told
                == "NOT_INSTALLED"@
            &&& told == "NOT_INSTALLED"@ ==> revision is None
            &&& !entry.local && word == "SUPPORTED"@ && !attested(status, matching) && status
                is Some && status->0.state == "FAILED"@ ==> told == "FAILED"@
        }),
{
    reveal_strlit("READY");
    reveal_strlit("RUNTIME_UNAVAILABLE");
    reveal_strlit("COMPATIBILITY_UNKNOWN");
    reveal_strlit("FAILED");
    reveal_strlit("INSTALLED");
    reveal_strlit("DOWNLOADED");
    reveal_strlit("NOT_INSTALLED");
    reveal_strlit("SUPPORTED");
    reveal_strlit("UNSUPPORTED");
    reveal_strlit("UNKNOWN");
    assert("READY"@.len() == 5 && "RUNTIME_UNAVAILABLE"@.len() == 19 && "COMPATIBILITY_UNKNOWN"@.len()
        == 21 && "FAILED"@.len() == 6 && "INSTALLED"@.len() == 9 && "DOWNLOADED"@.len() == 10
        && "NOT_INSTALLED"@.len() == 13 && "SUPPORTED"@.len() == 9 && "UNSUPPORTED"@.len() == 11
        && "UNKNOWN"@.len() == 7);
}

/// A repository may be read where it is open, or where access to it was granted or
/// not refused yet; a model can be fetched where it may be read and its files are
/// there.
pub proof fn law_models_can_be_fetched(entry: EntryView)
    ensures
        accessible(entry) <==> entry.access_authorized || !entry.access_checked,
        fetchable(entry) <==> entry.source_available && entry.quality_valid && (
        entry.access_authorized || !entry.access_checked),
{
}

/// The checks of a model are its source, its access, the machine, the runtime and
/// its files, each with what was found.
pub proof fn law_checks_say_what_was_found(
    entry: EntryView,
    suits: bool,
    room: bool,
    runtime_ok: bool,
    reason: Seq<char>,
    vram: Seq<char>,
    ram: Seq<char>,
)
    ensures
        ({
            let checks = checks_of(entry, suits, room, runtime_ok, reason, vram, ram);
            &&& checks.len() == 5
            &&& checks[0].key == "source"@ && checks[0].ok == entry.source_available
            &&& checks[1].key == "access"@ && checks[1].ok == (entry.access_authorized
                || !entry.access_checked)
            &&& checks[2].key == "hardware"@ && checks[2].ok == suits
            &&& checks[3].key == "runtime"@ && checks[3].ok == runtime_ok && checks[3].detail
                == reason
            &&& checks[4].key == "files"@ && checks[4].ok == entry.quality_valid
        }),
{
}

/// What is shown of the files of a model is what is on the disk: whether it is
/// installed and at which revision, whether there is a newer one, and where its
/// repository and its licence are.
pub proof fn law_views_show_the_files(
    view: ModelView,
    entry: EntryView,
    known: Knowledge,
    copy_job: Option<JobView>,
)
    requires
        files_part(view, entry, known, copy_job),
    ensures
        view.entry@ == entry,
        view.loaded == known.loaded,
        entry.local ==> view.installed && !view.update_available && text::opt(
            view.installed_revision,
        ) == Some(entry.revision) && view.repository_url@.len() == 0,
        !entry.local ==> view.repository_url@ == "https://huggingface.co/"@ + entry.repository,
        !entry.local && known.installed_revision is None ==> !view.installed
            && !view.update_available && view.installed_revision is None,
        !entry.local ==> (known.installed_revision matches Some(found) ==> text::opt(
            view.installed_revision,
        ) == Some(found@) && (view.update_available <==> found@ != entry.revision)),
        entry.license matches Some(name) ==> view.license@ == name,
        copy_job matches Some(job) ==> text::opt(view.cache_error) == job.cache_error && (
        job.cache_status matches Some(word) ==> view.cache_status@ == word),
        known.status matches Some(status) ==> json::opt_view(view.runtime_precision)
            == status@.precision_plan && json::items_view(view.runtime_dependencies@)
            == status@.runtime_dependencies && (status@.bundle matches Some(bundle)
            ==> view.bundle@ == bundle),
{
}

/// What is shown of the runtime of a model is what its pack and the worker say: the
/// engine and the parameters of the pack, and what the model can be used for.
pub proof fn law_views_show_the_runtime(
    view: ModelView,
    entry: EntryView,
    known: Knowledge,
    machine: ModelMachineContext,
)
    requires
        runtime_part(view, entry, known, machine),
    ensures
        view.vidioai_supported == view.runtime_supported,
        view.runtime_supported ==> view.runtime_compatibility@ == "SUPPORTED"@ && (
        view.model_pack_status == Some(CatalogModelStatus::Ready) || view.model_pack_status == Some(
            CatalogModelStatus::Experimental,
        )),
        entry.local ==> view.engine_type@ == "procedural"@ && view.model_pack_id is None
            && view.runtime_ready && (entry.runtime_name matches Some(name) ==> view.engine@
            == name),
        !entry.local ==> view.engine_type@ == "ai"@,
        !entry.local && known.status is None && known.check is None ==> {
            &&& known.resolved matches Some(pack) ==> text::opt(view.model_pack_id) == Some(
                pack@.id,
            ) && view.engine@ == pack@.engine_name && view.presets@ == pack@.presets
            &&& known.resolved is None ==> view.model_pack_id is None && view.engine@
                == "Non supporté"@
            &&& !view.runtime_ready
        },
        known.lab_status is Some ==> view.model_pack_status == known.lab_status,
        view.runtime_capabilities@.len() == 0 ==> view.capabilities@ == entry.capabilities,
        view.runtime_capabilities@.len() > 0 ==> view.capabilities@ == view.runtime_capabilities@,
{
}

/// A model is compatible only where the machine suits it, its runtime is there and
/// does not rule it out, it is served, and its files are there; what the machine
/// has free is told with it.
pub proof fn law_views_show_the_machine(
    view: ModelView,
    entry: EntryView,
    known: Knowledge,
    machine: ModelMachineContext,
    given: EstimateView,
)
    requires
        machine_part(view, entry, known, machine, given),
    ensures
        view.available_ram_bytes == machine.available_ram_bytes,
        view.available_vram_bytes == machine.available_vram_bytes,
        view.compatible ==> view.hardware_compatible && entry.source_available
            && entry.quality_valid && (entry.local || machine.runtime_available)
            && compatibility_word(entry.local, opt_check(known.check)) != "UNSUPPORTED"@,
        view.hardware_compatible ==> view.hardware_compatibility@ == "COMPATIBLE"@,
        view.discovered == entry.source_available,
        view.downloadable ==> entry.source_available && entry.quality_valid,
        entry.source_available && entry.quality_valid && entry.access_authorized
            ==> view.downloadable,
        view.hardware_compatible <==> view.hardware@.compatible_with_current_machine == Some(true),
        known.status is None && room_on_disk(
            entry.estimated_size_bytes,
            machine.storage_available_bytes,
        ) ==> view.hardware@ == given && view.compatibility_level@ == given.compatibility_level,
        checks_view(view.compatibility_checks@).len() == 5,
{
}

/// The memory that is free on a card is what the worker has left, else what the
/// host says of a card of NVIDIA.
pub proof fn law_free_memory_is_what_is_left(
    host: HostFacts,
    resources: Option<worker::ResourcesView>,
)
    ensures
        resources matches Some(told) ==> (told.gpu matches Some(card) ==> (card.vram_used_bytes
            <= card.vram_total_bytes ==> free_vram(host, resources) + card.vram_used_bytes
            == card.vram_total_bytes) && (card.vram_used_bytes > card.vram_total_bytes
            ==> free_vram(host, resources) == 0)),
        resources is None && !host.nvidia ==> free_vram(host, resources) == 0,
        resources is None && host.nvidia ==> (host.vram_available_bytes matches Some(bytes)
            ==> free_vram(host, resources) == bytes),
        resources is None && host.nvidia && host.vram_available_bytes is None ==> (
        host.vram_total_bytes matches Some(bytes) ==> free_vram(host, resources) == bytes),
{
}

/// An answer of the worker is kept for five minutes.
pub proof fn law_answers_grow_old(created_at: u64, now: u64)
    ensures
        fresh(created_at, now) <==> now < created_at + 300,
{
}

} // verus!
