//! The models that are loaded: loading, unloading and what they occupy.
use crate::catalog;
use crate::catalog::{ModelVariant, VariantView};
use crate::error;
use crate::error::ApiError;
use crate::json;
use crate::json::{Json, JsonView};
use crate::pack;
use crate::text;
use crate::worker;
use crate::worker::{
    HardwareBenchmark, ModelStatusView, UnloadAllView, WorkerModelStatus, WorkerUnloadAllResponse,
};
use vstd::prelude::*;
use vstd::string::*;

verus! {

/// A model that is loaded.
#[derive(Debug)]
pub struct RuntimeEntry {
    pub model_id: String,
    pub state: String,
    pub device: String,
    pub ram_bytes: u64,
    pub vram_bytes: u64,
    pub last_used_at: u64,
}

/// What [`RuntimeEntry`] says.
#[verifier::ext_equal]
pub struct RuntimeView {
    pub model_id: Seq<char>,
    pub state: Seq<char>,
    pub device: Seq<char>,
    pub ram_bytes: u64,
    pub vram_bytes: u64,
    pub last_used_at: u64,
}

impl View for RuntimeEntry {
    type V = RuntimeView;

    open spec fn view(&self) -> RuntimeView {
        RuntimeView {
            model_id: self.model_id@,
            state: self.state@,
            device: self.device@,
            ram_bytes: self.ram_bytes,
            vram_bytes: self.vram_bytes,
            last_used_at: self.last_used_at,
        }
    }
}

impl RuntimeEntry {
    /// A copy of the value.
    pub fn copy(&self) -> (copy: Self)
        ensures
            copy@ == self@,
    {
        RuntimeEntry {
            model_id: self.model_id.clone(),
            state: self.state.clone(),
            device: self.device.clone(),
            ram_bytes: self.ram_bytes,
            vram_bytes: self.vram_bytes,
            last_used_at: self.last_used_at,
        }
    }
}

/// The models that are loaded, each once.
#[derive(Debug)]
pub struct Runtimes {
    pub list: Vec<RuntimeEntry>,
}

/// The names of loaded models.
pub open spec fn names(list: Seq<RuntimeView>) -> Seq<Seq<char>> {
    Seq::new(list.len(), |i: int| list[i].model_id)
}

/// Where a model stands among those that are loaded.
pub open spec fn place(list: Seq<RuntimeView>, id: Seq<char>) -> Option<int> {
    names(list).index_of_first(id)
}

/// Whether no model is named twice.
pub open spec fn distinct(list: Seq<RuntimeView>) -> bool {
    forall|i: int, j: int|
        0 <= i < j < list.len() ==> (#[trigger] list[i]).model_id != (#[trigger] list[j]).model_id
}

/// The loaded models after one was loaded: in place of itself, or last.
pub open spec fn entered(list: Seq<RuntimeView>, entry: RuntimeView) -> Seq<RuntimeView> {
    match place(list, entry.model_id) {
        Some(at) => list.update(at, entry),
        None => list.push(entry),
    }
}

/// The loaded models without one of them.
pub open spec fn without(list: Seq<RuntimeView>, id: Seq<char>) -> Seq<RuntimeView> {
    match place(list, id) {
        Some(at) => list.remove(at),
        None => list,
    }
}

proof fn lemma_place(list: Seq<RuntimeView>, id: Seq<char>)
    ensures
        match place(list, id) {
            Some(at) => 0 <= at < list.len() && list[at].model_id == id && forall|j: int|
                0 <= j < at ==> (#[trigger] list[j]).model_id != id,
            None => forall|j: int| 0 <= j < list.len() ==> (#[trigger] list[j]).model_id != id,
        },
{
    names(list).index_of_first_ensures(id);
    match place(list, id) {
        Some(at) => {
            assert forall|j: int| 0 <= j < at implies (#[trigger] list[j]).model_id != id by {
                assert(names(list)[j] == list[j].model_id);
            }
        },
        None => {
            assert forall|j: int| 0 <= j < list.len() implies (#[trigger] list[j]).model_id
                != id by {
                assert(names(list)[j] == list[j].model_id);
                assert(names(list).contains(names(list)[j]));
            }
        },
    }
}

proof fn lemma_place_is(list: Seq<RuntimeView>, id: Seq<char>, at: int)
    requires
        0 <= at < list.len(),
        list[at].model_id == id,
        forall|j: int| 0 <= j < at ==> (#[trigger] list[j]).model_id != id,
    ensures
        place(list, id) == Some(at),
{
    lemma_place(list, id);
    assert(names(list)[at] == id);
    assert(names(list).contains(id));
}

// ---------------------------------------------------------------------------
// What the models occupy
// ---------------------------------------------------------------------------

/// The memory that models occupy.
pub open spec fn ram_of(list: Seq<RuntimeView>) -> nat
    decreases list.len(),
{
    if list.len() == 0 {
        0
    } else {
        ram_of(list.drop_last()) + list.last().ram_bytes as nat
    }
}

/// The video memory that models occupy.
pub open spec fn vram_of(list: Seq<RuntimeView>) -> nat
    decreases list.len(),
{
    if list.len() == 0 {
        0
    } else {
        vram_of(list.drop_last()) + list.last().vram_bytes as nat
    }
}

/// Whether the memory that models occupy can be told.
pub open spec fn countable(list: Seq<RuntimeView>) -> bool {
    ram_of(list) <= u64::MAX && vram_of(list) <= u64::MAX
}

proof fn lemma_sums_grow(list: Seq<RuntimeView>, count: int)
    requires
        0 <= count <= list.len(),
    ensures
        ram_of(list.take(count)) <= ram_of(list),
        vram_of(list.take(count)) <= vram_of(list),
    decreases list.len() - count,
{
    if count < list.len() {
        lemma_sums_grow(list, count + 1);
        assert(list.take(count + 1).drop_last() =~= list.take(count));
    } else {
        assert(list.take(count) =~= list);
    }
}

/// The members of the document that tells what models occupy.
pub open spec fn memory_members(
    count: u64,
    ram: u64,
    vram: u64,
    cuda_available: Option<bool>,
) -> Seq<(Seq<char>, JsonView)> {
    seq![
        ("source"@, JsonView::Text("backend_runtime_registry"@)),
        (
            "cuda_available"@,
            match cuda_available {
                Some(flag) => JsonView::Bool(flag),
                None => JsonView::Null,
            },
        ),
        ("loaded_models"@, JsonView::Integer(count)),
        ("tracked_ram_bytes"@, JsonView::Integer(ram)),
        ("tracked_vram_bytes"@, JsonView::Integer(vram)),
    ]
}

/// The document that tells what the models occupy.
pub open spec fn memory_of(list: Seq<RuntimeView>, cuda_available: Option<bool>) -> JsonView {
    JsonView::Object(
        memory_members(
            list.len() as u64,
            ram_of(list) as u64,
            vram_of(list) as u64,
            cuda_available,
        ),
    )
}

fn memory_document(count: u64, ram: u64, vram: u64, cuda_available: Option<bool>) -> (document: Json)
    ensures
        document@ == JsonView::Object(memory_members(count, ram, vram, cuda_available)),
{
    let mut members: Vec<(String, Json)> = Vec::new();
    json::put(&mut members, "source", json::text_json("backend_runtime_registry"));
    let available = match cuda_available {
        Some(flag) => Json::Bool(flag),
        None => Json::Null,
    };
    json::put(&mut members, "cuda_available", available);
    json::put(&mut members, "loaded_models", Json::Integer(count));
    json::put(&mut members, "tracked_ram_bytes", Json::Integer(ram));
    json::put(&mut members, "tracked_vram_bytes", Json::Integer(vram));
    assert(json::members_view(members@) =~= memory_members(count, ram, vram, cuda_available));
    json::object(members)
}

// ---------------------------------------------------------------------------
// Sorted names
// ---------------------------------------------------------------------------

/// Whether texts stand in strictly rising order.
pub open spec fn ascending(list: Seq<Seq<char>>) -> bool {
    forall|i: int, j: int|
        0 <= i < j < list.len() ==> text::before(#[trigger] list[i], #[trigger] list[j])
}

fn insert_sorted(sorted: &mut Vec<String>, name: String)
    requires
        ascending(text::texts(old(sorted)@)),
    ensures
        ascending(text::texts(final(sorted)@)),
        forall|other: Seq<char>| #[trigger]
            text::texts(final(sorted)@).contains(other) <==> other == name@ || text::texts(
                old(sorted)@,
            ).contains(other),
{
    let ghost before = text::texts(sorted@);
    let ghost added = name@;
    let mut at: usize = 0;
    while at < sorted.len() && text::sorts_before(sorted[at].as_str(), name.as_str())
        invariant
            text::texts(sorted@) == before,
            added == name@,
            at <= before.len(),
            forall|j: int| 0 <= j < at ==> text::before(#[trigger] before[j], added),
        ensures
            at <= before.len(),
            forall|j: int| 0 <= j < at ==> text::before(#[trigger] before[j], added),
            at < before.len() ==> !text::before(before[at as int], added),
        decreases before.len() - at,
    {
        assert(before[at as int] == sorted@[at as int]@);
        at = at + 1;
    }
    if at < sorted.len() && *sorted[at].as_str() == *name.as_str() {
        assert(before[at as int] == added);
        assert(before.contains(added));
        return;
    }
    sorted.insert(at, name);
    let ghost after = text::texts(sorted@);
    proof {
        assert(after =~= before.insert(at as int, added));
        assert forall|i: int, j: int| 0 <= i < j < after.len() implies text::before(
            #[trigger] after[i],
            #[trigger] after[j],
        ) by {
            if j == at {
                assert(after[i] == before[i]);
            } else if i == at {
                assert(after[j] == before[j - 1]);
                text::lemma_before_is_total(before[at as int], added);
                if j - 1 > at {
                    assert(text::before(before[at as int], before[j - 1]));
                    text::lemma_before_is_transitive(added, before[at as int], before[j - 1]);
                }
            } else {
                let a = if i < at {
                    i
                } else {
                    i - 1
                };
                let b = if j < at {
                    j
                } else {
                    j - 1
                };
                assert(text::before(before[a], before[b]));
            }
        }
        assert forall|other: Seq<char>| #[trigger] after.contains(other) <==> other == added
            || before.contains(other) by {
            if before.contains(other) {
                let k = choose|k: int| 0 <= k < before.len() && before[k] == other;
                assert(after[if k < at {
                    k
                } else {
                    k + 1
                }] == other);
            }
            if other == added {
                assert(after[at as int] == other);
            }
            if after.contains(other) {
                let k = choose|k: int| 0 <= k < after.len() && after[k] == other;
                if k < at {
                    assert(before[k] == other);
                } else if k > at {
                    assert(before[k - 1] == other);
                }
            }
        }
    }
}

// ---------------------------------------------------------------------------
// The worker's answer to a general unload
// ---------------------------------------------------------------------------

/// Whether the worker unloaded everything.
pub open spec fn unloaded_all(response: UnloadAllView) -> bool {
    response.success && response.comfyui_error is None
}

/// What is said where the worker did not unload everything.
pub open spec fn unload_failure(response: Result<UnloadAllView, Seq<char>>) -> Seq<char> {
    "WORKER_UNLOAD_FAILED: "@ + match response {
        Ok(answer) => match answer.comfyui_error {
            Some(cause) => if cause.len() > 0 {
                cause
            } else {
                answer.message
            },
            None => answer.message,
        },
        Err(cause) => cause,
    }
}

/// What an answer of the worker, or the lack of one, says.
pub open spec fn answer_of(response: Result<WorkerUnloadAllResponse, String>) -> Result<
    UnloadAllView,
    Seq<char>,
> {
    match response {
        Ok(answer) => Ok(answer@),
        Err(cause) => Err(cause@),
    }
}

/// Refuses an answer of the worker that does not tell of a complete unload.
pub fn validate_worker_unload_response(response: Result<WorkerUnloadAllResponse, String>) -> (result:
    Result<WorkerUnloadAllResponse, String>)
    ensures
        match result {
            Ok(answer) => response == Ok::<WorkerUnloadAllResponse, String>(answer) && unloaded_all(
                answer@,
            ),
            Err(message) => !(response matches Ok(answer) && unloaded_all(answer@)) && message@
                == unload_failure(answer_of(response)),
        },
{
    match response {
        Ok(answer) => {
            if answer.success && answer.comfyui_error.is_none() {
                return Ok(answer);
            }
            let cause = match &answer.comfyui_error {
                Some(cause) => if text::chars_of(cause.as_str()).len() > 0 {
                    cause.as_str()
                } else {
                    answer.message.as_str()
                },
                None => answer.message.as_str(),
            };
            Err(text::concat("WORKER_UNLOAD_FAILED: ", cause))
        },
        Err(cause) => Err(text::concat("WORKER_UNLOAD_FAILED: ", cause.as_str())),
    }
}

/// What is said of a general unload without a worker.
pub open spec fn local_message() -> Seq<char> {
    "Runtime local purgé; aucun worker CUDA n'est configuré sur cette machine."@
}

/// Whether an answer tells of a general unload: the models that the worker and
/// the service had loaded, once and in order, and what was occupied before and
/// after.
pub open spec fn tells_unload(
    answer: UnloadAllView,
    list: Seq<RuntimeView>,
    worker: Option<UnloadAllView>,
) -> bool {
    let cuda = if worker is None {
        Some(false)
    } else {
        None
    };
    &&& answer.success
    &&& answer.comfyui_error is None
    &&& answer.message == match worker {
        Some(given) => given.message,
        None => local_message(),
    }
    &&& ascending(answer.models_unloaded)
    &&& forall|name: Seq<char>| #[trigger]
        answer.models_unloaded.contains(name) <==> (names(list).contains(name) || (worker matches Some(
            given,
        ) && given.models_unloaded.contains(name)))
    &&& answer.before_memory == Some(
        match worker {
            Some(given) => match given.before_memory {
                Some(told) => told,
                None => memory_of(list, cuda),
            },
            None => memory_of(list, cuda),
        },
    )
    &&& answer.after_memory == Some(
        match worker {
            Some(given) => match given.after_memory {
                Some(told) => told,
                None => memory_of(Seq::empty(), cuda),
            },
            None => memory_of(Seq::empty(), cuda),
        },
    )
}

/// Whether the answer to a general unload tells what the models occupied.
pub open spec fn tells_memory(worker: Option<Result<UnloadAllView, Seq<char>>>) -> bool {
    match worker {
        None => true,
        Some(Ok(answer)) => unloaded_all(answer) && answer.before_memory is None,
        Some(Err(_)) => false,
    }
}

/// Whether the answer to a general unload tells what the models occupied, which
/// then has to be counted.
pub fn needs_memory(worker: &Option<Result<WorkerUnloadAllResponse, String>>) -> (yes: bool)
    ensures
        yes == tells_memory(opt_answer(*worker)),
{
    match worker {
        None => true,
        Some(Ok(answer)) => answer.success && answer.comfyui_error.is_none()
            && answer.before_memory.is_none(),
        Some(Err(_)) => false,
    }
}

/// What the worker answered, where there is one.
pub open spec fn opt_answer(worker: Option<Result<WorkerUnloadAllResponse, String>>) -> Option<
    Result<UnloadAllView, Seq<char>>,
> {
    match worker {
        Some(response) => Some(answer_of(response)),
        None => None,
    }
}

// ---------------------------------------------------------------------------
// Loading
// ---------------------------------------------------------------------------

/// Whether a model was not used for a time.
pub open spec fn idle(entry: RuntimeView, now: u64, seconds: int) -> bool {
    (if now >= entry.last_used_at {
        now - entry.last_used_at
    } else {
        0
    }) >= seconds
}

/// The names of the models that were not used for a time.
pub open spec fn idle_names(list: Seq<RuntimeView>, now: u64, seconds: int) -> Seq<Seq<char>> {
    names(list.filter(|entry: RuntimeView| idle(entry, now, seconds)))
}

/// The entry of an installed model that the worker has loaded.
pub open spec fn installed_entry(id: Seq<char>, status: ModelStatusView, now: u64) -> RuntimeView {
    RuntimeView {
        model_id: id,
        state: "ready"@,
        device: match status.device {
            Some(device) => device,
            None => "GPU"@,
        },
        ram_bytes: match status.benchmark {
            Some(observation) => match observation.ram_peak_bytes {
                Some(bytes) => bytes,
                None => 0,
            },
            None => 0,
        },
        vram_bytes: match status.benchmark {
            Some(observation) => observation.vram_after_load_bytes,
            None => 0,
        },
        last_used_at: now,
    }
}

/// The entry of a model of the catalog that the worker has loaded.
pub open spec fn catalog_entry(id: Seq<char>, variants: Seq<VariantView>, now: u64) -> RuntimeView {
    RuntimeView {
        model_id: id,
        state: "ready"@,
        device: "GPU"@,
        ram_bytes: 0,
        vram_bytes: if variants.len() > 0 {
            variants[0].vram_required
        } else {
            0
        },
        last_used_at: now,
    }
}

/// The variant that an engine of this service runs as: the recommended one where
/// it is listed, else the first.
pub open spec fn engine_variant(variants: Seq<VariantView>, recommended: Option<Seq<char>>) -> VariantView {
    let wanted = match recommended {
        Some(id) => id,
        None => "builtin"@,
    };
    match variant_place(variants, wanted) {
        Some(at) => variants[at],
        None => variants[0],
    }
}

/// Where a variant stands.
pub open spec fn variant_place(variants: Seq<VariantView>, id: Seq<char>) -> Option<int> {
    Seq::new(variants.len(), |i: int| variants[i].id).index_of_first(id)
}

/// The entry of an engine of this service.
pub open spec fn engine_entry(
    id: Seq<char>,
    variant: VariantView,
    state: Seq<char>,
    now: u64,
) -> RuntimeView {
    RuntimeView {
        model_id: id,
        state,
        device: if variant.vram_required > 0 {
            "GPU"@
        } else {
            "CPU"@
        },
        ram_bytes: variant.ram_required,
        vram_bytes: variant.vram_required,
        last_used_at: now,
    }
}

/// What the catalog says of a model that is to be loaded.
#[derive(Debug)]
pub struct LoadRequest {
    /// Whether it is an engine of this service.
    pub local: bool,
    pub installed: bool,
    pub compatible: bool,
}

/// What is to be done to load a model.
#[derive(Debug)]
pub enum LoadPlan {
    /// Nothing: it is loaded.
    Keep(RuntimeEntry),
    /// Ask the worker whether it still holds the model.
    CheckStatus,
    /// Ask the worker to load it.
    AskWorker,
    /// Warm up the engine.
    WarmUp,
    Refuse(ApiError),
}

/// What is said where a model has no worker to run on.
pub open spec fn no_worker() -> (u16, Seq<char>) {
    (error::SERVICE_UNAVAILABLE, "Le worker GPU n'est pas configuré."@)
}

/// What is said where the worker did not get a model ready.
pub open spec fn not_ready() -> (u16, Seq<char>) {
    (error::SERVICE_UNAVAILABLE, "Le runtime worker n'a pas atteint READY."@)
}

/// What is to be done to load a model of the catalog, and the loaded models then.
pub open spec fn load_step(
    list: Seq<RuntimeView>,
    id: Seq<char>,
    request: LoadRequest,
    worker: bool,
) -> (PlanView, Seq<RuntimeView>) {
    if !request.installed {
        (
            PlanView::Refuse(
                (error::CONFLICT, "Installez le modèle avant de le charger."@),
            ),
            list,
        )
    } else if !request.compatible {
        (
            PlanView::Refuse((error::CONFLICT, "La mémoire disponible est insuffisante."@)),
            list,
        )
    } else if request.local {
        match place(list, id) {
            Some(at) => (PlanView::Keep(list[at]), list),
            None => (PlanView::WarmUp, list),
        }
    } else if worker {
        match place(list, id) {
            Some(at) => (PlanView::CheckStatus, list),
            None => (PlanView::AskWorker, list),
        }
    } else {
        (PlanView::Refuse(no_worker()), without(list, id))
    }
}

/// What [`LoadPlan`] says.
pub enum PlanView {
    Keep(RuntimeView),
    CheckStatus,
    AskWorker,
    WarmUp,
    Refuse((u16, Seq<char>)),
}

impl View for LoadPlan {
    type V = PlanView;

    open spec fn view(&self) -> PlanView {
        match self {
            LoadPlan::Keep(entry) => PlanView::Keep(entry@),
            LoadPlan::CheckStatus => PlanView::CheckStatus,
            LoadPlan::AskWorker => PlanView::AskWorker,
            LoadPlan::WarmUp => PlanView::WarmUp,
            LoadPlan::Refuse(refusal) => PlanView::Refuse(error::says(*refusal)),
        }
    }
}

/// Whether the worker still holds a model.
pub open spec fn still_held(status: ModelStatusView) -> bool {
    status.state == "READY"@ && status.runtime_compatible && status.weights_valid
}

/// What is to be done once the worker was asked whether it still holds a model,
/// and the loaded models then.
pub open spec fn status_step(
    list: Seq<RuntimeView>,
    id: Seq<char>,
    answer: Result<ModelStatusView, Seq<char>>,
) -> (PlanView, Seq<RuntimeView>) {
    match answer {
        Err(cause) => (PlanView::Refuse((error::SERVICE_UNAVAILABLE, cause)), list),
        Ok(status) => match place(list, id) {
            Some(at) => if still_held(status) {
                (PlanView::Keep(list[at]), list)
            } else {
                (PlanView::AskWorker, list.remove(at))
            },
            None => (PlanView::AskWorker, list),
        },
    }
}

/// What the worker answered to a request to load a model.
pub open spec fn status_of(answer: Result<WorkerModelStatus, String>) -> Result<
    ModelStatusView,
    Seq<char>,
> {
    match answer {
        Ok(status) => Ok(status@),
        Err(cause) => Err(cause@),
    }
}

/// A loaded model, and the measure of its loading.
#[derive(Debug)]
pub struct Loaded {
    pub entry: RuntimeEntry,
    pub benchmark: Option<HardwareBenchmark>,
}

/// The measure of the loading of a model, where the worker took one.
pub open spec fn measure_of(
    id: Seq<char>,
    revision: Seq<char>,
    status: ModelStatusView,
    now: u64,
) -> Option<worker::BenchmarkView> {
    match status.benchmark {
        Some(observation) => Some(worker::measured(id, revision, observation, now)),
        None => None,
    }
}

/// What a measure, where there is one, says.
pub open spec fn opt_measure(benchmark: Option<HardwareBenchmark>) -> Option<worker::BenchmarkView> {
    match benchmark {
        Some(measure) => Some(measure@),
        None => None,
    }
}

fn take_measure(id: &str, revision: &str, status: &WorkerModelStatus, now: u64) -> (measure: Option<
    HardwareBenchmark,
>)
    ensures
        opt_measure(measure) == measure_of(id@, revision@, status@, now),
{
    match &status.benchmark {
        Some(observation) => Some(worker::benchmark_of(id, revision, observation, now)),
        None => None,
    }
}

/// How the loading of an installed model is refused, if it is.
pub open spec fn installed_refusal(answer: Result<ModelStatusView, Seq<char>>) -> Option<
    (u16, Seq<char>),
> {
    match answer {
        Err(cause) => Some((error::SERVICE_UNAVAILABLE, cause)),
        Ok(status) => if status.state != "READY"@ || !status.ready || !status.runtime_compatible {
            match status.error {
                Some(cause) => Some((error::SERVICE_UNAVAILABLE, cause)),
                None => Some(not_ready()),
            }
        } else {
            None
        },
    }
}

/// How the loading of a model of the catalog is refused, if it is.
pub open spec fn catalog_refusal(answer: Result<ModelStatusView, Seq<char>>) -> Option<
    (u16, Seq<char>),
> {
    match answer {
        Err(cause) => Some((error::SERVICE_UNAVAILABLE, cause)),
        Ok(status) => if status.state != "READY"@ || !status.runtime_compatible {
            Some(not_ready())
        } else {
            None
        },
    }
}

impl View for Runtimes {
    type V = Seq<RuntimeView>;

    open spec fn view(&self) -> Seq<RuntimeView> {
        Seq::new(self.list@.len(), |i: int| self.list@[i]@)
    }
}

impl Runtimes {
    /// No model is loaded twice.
    pub open spec fn wf(&self) -> bool {
        distinct(self@)
    }

    /// Nothing loaded.
    pub fn new() -> (runtimes: Self)
        ensures
            runtimes.wf(),
            runtimes@ == Seq::<RuntimeView>::empty(),
    {
        let runtimes = Runtimes { list: Vec::new() };
        assert(runtimes@ =~= Seq::<RuntimeView>::empty());
        runtimes
    }

    fn find(&self, id: &str) -> (at: Option<usize>)
        ensures
            match at {
                Some(k) => k < self@.len() && place(self@, id@) == Some(k as int),
                None => place(self@, id@) is None,
            },
    {
        for k in 0..self.list.len()
            invariant
                forall|j: int| 0 <= j < k ==> (#[trigger] self@[j]).model_id != id@,
        {
            assert(self@[k as int] == self.list@[k as int]@);
            if *self.list[k].model_id.as_str() == *id {
                proof {
                    lemma_place_is(self@, id@, k as int);
                }
                return Some(k);
            }
        }
        proof {
            lemma_place(self@, id@);
        }
        None
    }

    /// Whether a model is loaded.
    pub fn contains(&self, id: &str) -> (yes: bool)
        ensures
            yes == (place(self@, id@) is Some),
    {
        self.find(id).is_some()
    }

    /// Enters a model, in place of itself where it was loaded before.
    pub fn insert(&mut self, entry: RuntimeEntry)
        requires
            old(self).wf(),
        ensures
            final(self).wf(),
            final(self)@ == entered(old(self)@, entry@),
    {
        let ghost before = self@;
        let ghost added = entry@;
        proof {
            lemma_place(before, added.model_id);
        }
        match self.find(entry.model_id.as_str()) {
            Some(at) => {
                self.list.set(at, entry);
                assert(self@ =~= before.update(at as int, added));
                assert forall|i: int, j: int| 0 <= i < j < self@.len() implies (
                #[trigger] self@[i]).model_id != (#[trigger] self@[j]).model_id by {
                    assert(before[i].model_id != before[j].model_id);
                }
            },
            None => {
                self.list.push(entry);
                assert(self@ =~= before.push(added));
            },
        }
    }

    /// Forgets a model; `false` where it was not loaded.
    pub fn remove(&mut self, id: &str) -> (known: bool)
        requires
            old(self).wf(),
        ensures
            final(self).wf(),
            final(self)@ == without(old(self)@, id@),
            known == (place(old(self)@, id@) is Some),
    {
        let ghost before = self@;
        match self.find(id) {
            Some(at) => {
                self.list.remove(at);
                assert(self@ =~= before.remove(at as int));
                assert forall|i: int, j: int| 0 <= i < j < self@.len() implies (
                #[trigger] self@[i]).model_id != (#[trigger] self@[j]).model_id by {
                    let a = if i < at {
                        i
                    } else {
                        i + 1
                    };
                    let b = if j < at {
                        j
                    } else {
                        j + 1
                    };
                    assert(before[a].model_id != before[b].model_id);
                }
                true
            },
            None => false,
        }
    }

    /// Forgets the models that were not used for some minutes, and returns their
    /// names.
    pub fn expire(&mut self, minutes: u64, now: u64) -> (removed: Vec<String>)
        requires
            old(self).wf(),
            minutes * 60 <= u64::MAX,
        ensures
            final(self).wf(),
            final(self)@ == old(self)@.filter(
                |entry: RuntimeView| !idle(entry, now, minutes * 60),
            ),
            text::texts(removed@) == idle_names(old(self)@, now, minutes * 60),
    {
        let ghost before = self@;
        let seconds: u64 = minutes * 60;
        let ghost stale = |entry: RuntimeView| idle(entry, now, seconds as int);
        let ghost fresh = |entry: RuntimeView| !idle(entry, now, seconds as int);
        let mut kept: Vec<RuntimeEntry> = Vec::new();
        let mut removed: Vec<String> = Vec::new();
        let ghost mut gone: Seq<RuntimeView> = Seq::empty();
        let ghost mut stays: Seq<RuntimeView> = Seq::empty();
        proof {
            reveal(Seq::filter);
            assert(before.take(0).filter(stale) =~= Seq::empty());
            assert(before.take(0).filter(fresh) =~= Seq::empty());
        }
        for k in 0..self.list.len()
            invariant
                before == self@,
                stale == |entry: RuntimeView| idle(entry, now, seconds as int),
                fresh == |entry: RuntimeView| !idle(entry, now, seconds as int),
                gone == before.take(k as int).filter(stale),
                stays == before.take(k as int).filter(fresh),
                text::texts(removed@) == names(gone),
                kept@.len() == stays.len(),
                forall|j: int| 0 <= j < stays.len() ==> (#[trigger] kept@[j])@ == stays[j],
        {
            let entry = &self.list[k];
            proof {
                reveal(Seq::filter);
                assert(before.take(k + 1).drop_last() =~= before.take(k as int));
                assert(before[k as int] == entry@);
                assert(before.take(k + 1).last() == entry@);
            }
            let age: u64 = if now >= entry.last_used_at {
                now - entry.last_used_at
            } else {
                0
            };
            if age >= seconds {
                let ghost earlier = text::texts(removed@);
                removed.push(entry.model_id.clone());
                proof {
                    assert(text::texts(removed@) =~= earlier.push(entry@.model_id));
                    assert(names(gone.push(entry@)) =~= names(gone).push(entry@.model_id));
                    gone = gone.push(entry@);
                }
            } else {
                kept.push(entry.copy());
                proof {
                    stays = stays.push(entry@);
                }
            }
        }
        assert(before.take(before.len() as int) =~= before);
        self.list = kept;
        proof {
            assert(self@ =~= stays);
            assert(gone == before.filter(|entry: RuntimeView| idle(entry, now, minutes * 60)));
            assert(stays == before.filter(|entry: RuntimeView| !idle(entry, now, minutes * 60)));
            lemma_filter_keeps_distinct(before, fresh);
        }
        removed
    }

    /// Says what is to be done to load a model of the catalog.
    pub fn plan_load(&mut self, id: &str, request: &LoadRequest, worker: bool) -> (plan: LoadPlan)
        requires
            old(self).wf(),
        ensures
            final(self).wf(),
            (plan@, final(self)@) == load_step(old(self)@, id@, *request, worker),
    {
        if !request.installed {
            return LoadPlan::Refuse(
                ApiError::conflict("Installez le modèle avant de le charger.".to_owned()),
            );
        }
        if !request.compatible {
            return LoadPlan::Refuse(
                ApiError::conflict("La mémoire disponible est insuffisante.".to_owned()),
            );
        }
        if request.local {
            return match self.find(id) {
                Some(at) => LoadPlan::Keep(self.list[at].copy()),
                None => LoadPlan::WarmUp,
            };
        }
        if worker {
            return if self.contains(id) {
                LoadPlan::CheckStatus
            } else {
                LoadPlan::AskWorker
            };
        }
        self.remove(id);
        LoadPlan::Refuse(ApiError::unavailable("Le worker GPU n'est pas configuré.".to_owned()))
    }

    /// Says what is to be done once the worker was asked whether it still holds a
    /// model.
    pub fn recheck(&mut self, id: &str, answer: Result<WorkerModelStatus, String>) -> (plan: LoadPlan)
        requires
            old(self).wf(),
        ensures
            final(self).wf(),
            (plan@, final(self)@) == status_step(old(self)@, id@, status_of(answer)),
    {
        match answer {
            Err(cause) => LoadPlan::Refuse(ApiError::unavailable(cause)),
            Ok(status) => match self.find(id) {
                Some(at) => {
                    if *status.state.as_str() == *"READY" && status.runtime_compatible
                        && status.weights_valid {
                        LoadPlan::Keep(self.list[at].copy())
                    } else {
                        self.remove(id);
                        LoadPlan::AskWorker
                    }
                },
                None => LoadPlan::AskWorker,
            },
        }
    }

    /// Enters an installed model that the worker was asked to load.
    pub fn finish_installed_load(
        &mut self,
        id: &str,
        revision: &str,
        answer: Result<WorkerModelStatus, String>,
        now: u64,
    ) -> (result: Result<Loaded, ApiError>)
        requires
            old(self).wf(),
        ensures
            final(self).wf(),
            match result {
                Ok(loaded) => installed_refusal(status_of(answer)) is None && ({
                    let status = status_of(answer)->Ok_0;
                    &&& loaded.entry@ == installed_entry(id@, status, now)
                    &&& opt_measure(loaded.benchmark) == measure_of(id@, revision@, status, now)
                    &&& final(self)@ == entered(old(self)@, loaded.entry@)
                }),
                Err(refusal) => installed_refusal(status_of(answer)) == Some(error::says(refusal))
                    && *final(self) == *old(self),
            },
    {
        match answer {
            Err(cause) => Err(ApiError::unavailable(cause)),
            Ok(status) => {
                if *status.state.as_str() != *"READY" || !status.ready
                    || !status.runtime_compatible {
                    return Err(
                        match status.error {
                            Some(cause) => ApiError::unavailable(cause),
                            None => ApiError::unavailable(
                                "Le runtime worker n'a pas atteint READY.".to_owned(),
                            ),
                        },
                    );
                }
                let ram_bytes: u64 = match &status.benchmark {
                    Some(observation) => match observation.ram_peak_bytes {
                        Some(bytes) => bytes,
                        None => 0,
                    },
                    None => 0,
                };
                let vram_bytes: u64 = match &status.benchmark {
                    Some(observation) => observation.vram_after_load_bytes,
                    None => 0,
                };
                let entry = RuntimeEntry {
                    model_id: id.to_owned(),
                    state: "ready".to_owned(),
                    device: match &status.device {
                        Some(device) => device.clone(),
                        None => "GPU".to_owned(),
                    },
                    ram_bytes,
                    vram_bytes,
                    last_used_at: now,
                };
                let benchmark = take_measure(id, revision, &status, now);
                self.insert(entry.copy());
                Ok(Loaded { entry, benchmark })
            },
        }
    }

    /// Enters a model of the catalog that the worker was asked to load.
    pub fn finish_catalog_load(
        &mut self,
        id: &str,
        entry_id: &str,
        revision: &str,
        variants: &Vec<ModelVariant>,
        answer: Result<WorkerModelStatus, String>,
        now: u64,
    ) -> (result: Result<Loaded, ApiError>)
        requires
            old(self).wf(),
        ensures
            final(self).wf(),
            match result {
                Ok(loaded) => catalog_refusal(status_of(answer)) is None && ({
                    let status = status_of(answer)->Ok_0;
                    &&& loaded.entry@ == catalog_entry(
                        id@,
                        catalog::variants_view(variants@),
                        now,
                    )
                    &&& opt_measure(loaded.benchmark) == measure_of(
                        entry_id@,
                        revision@,
                        status,
                        now,
                    )
                    &&& final(self)@ == entered(old(self)@, loaded.entry@)
                }),
                Err(refusal) => catalog_refusal(status_of(answer)) == Some(error::says(refusal))
                    && *final(self) == *old(self),
            },
    {
        match answer {
            Err(cause) => Err(ApiError::unavailable(cause)),
            Ok(status) => {
                if *status.state.as_str() != *"READY" || !status.runtime_compatible {
                    return Err(
                        ApiError::unavailable("Le runtime worker n'a pas atteint READY.".to_owned()),
                    );
                }
                let vram_bytes: u64 = if variants.len() > 0 {
                    variants[0].vram_required
                } else {
                    0
                };
                let entry = RuntimeEntry {
                    model_id: id.to_owned(),
                    state: "ready".to_owned(),
                    device: "GPU".to_owned(),
                    ram_bytes: 0,
                    vram_bytes,
                    last_used_at: now,
                };
                let benchmark = take_measure(entry_id, revision, &status, now);
                self.insert(entry.copy());
                Ok(Loaded { entry, benchmark })
            },
        }
    }

    /// Enters an engine of this service that warms up.
    pub fn begin_warming(
        &mut self,
        id: &str,
        variants: &Vec<ModelVariant>,
        recommended: Option<&str>,
        now: u64,
    )
        requires
            old(self).wf(),
            variants@.len() > 0,
        ensures
            final(self).wf(),
            final(self)@ == entered(
                old(self)@,
                engine_entry(
                    id@,
                    engine_variant(
                        catalog::variants_view(variants@),
                        text::opt_str(recommended),
                    ),
                    "warming_up"@,
                    now,
                ),
            ),
    {
        let wanted = match recommended {
            Some(name) => name,
            None => "builtin",
        };
        let at = find_variant(variants, wanted);
        let variant = &variants[at];
        assert(variant@ == catalog::variants_view(variants@)[at as int]);
        let entry = RuntimeEntry {
            model_id: id.to_owned(),
            state: "warming_up".to_owned(),
            device: if variant.vram_required > 0 {
                "GPU".to_owned()
            } else {
                "CPU".to_owned()
            },
            ram_bytes: variant.ram_required,
            vram_bytes: variant.vram_required,
            last_used_at: now,
        };
        self.insert(entry);
    }

    /// Records that an engine is warm, and returns its entry.
    pub fn finish_warming(&mut self, id: &str) -> (ready: RuntimeEntry)
        requires
            old(self).wf(),
            place(old(self)@, id@) is Some,
        ensures
            final(self).wf(),
            ({
                let at = place(old(self)@, id@)->0;
                &&& ready@ == (RuntimeView { state: "ready"@, ..old(self)@[at] })
                &&& final(self)@ == old(self)@.update(at, ready@)
            }),
    {
        let ghost before = self@;
        proof {
            lemma_place(before, id@);
        }
        let at = match self.find(id) {
            Some(k) => k,
            None => 0,
        };
        self.list[at].state = "ready".to_owned();
        let ready = self.list[at].copy();
        proof {
            assert(self@ =~= before.update(at as int, ready@));
            assert forall|i: int, j: int| 0 <= i < j < self@.len() implies (
            #[trigger] self@[i]).model_id != (#[trigger] self@[j]).model_id by {
                assert(before[i].model_id != before[j].model_id);
            }
        }
        ready
    }

    /// Unloads a model. `worker` is what the worker answered, where there is one:
    /// its refusal stands, and what it unloaded need not have been known here.
    pub fn unload(&mut self, id: &str, worker: Option<Result<(), String>>) -> (result: Result<
        (),
        ApiError,
    >)
        requires
            old(self).wf(),
        ensures
            final(self).wf(),
            match worker {
                Some(Err(cause)) => *final(self) == *old(self) && pack::refused(result) == Some(
                    (error::SERVICE_UNAVAILABLE, cause@),
                ),
                Some(Ok(_)) => final(self)@ == without(old(self)@, id@) && result is Ok,
                None => final(self)@ == without(old(self)@, id@) && pack::refused(result)
                    == if place(old(self)@, id@) is Some {
                    None
                } else {
                    Some((error::NOT_FOUND, "Ce modèle n'est pas chargé."@))
                },
            },
    {
        let handled = match worker {
            Some(Ok(_)) => true,
            Some(Err(cause)) => {
                return Err(ApiError::unavailable(cause));
            },
            None => false,
        };
        let removed = self.remove(id);
        if !removed && !handled {
            return Err(ApiError::not_found("Ce modèle n'est pas chargé.".to_owned()));
        }
        Ok(())
    }

    /// Forgets a model whose files are to be removed. An engine of this service
    /// cannot be removed, and a model without files was not installed.
    pub fn delete_model(&mut self, id: &str, local: bool, present: bool) -> (result: Result<
        (),
        ApiError,
    >)
        requires
            old(self).wf(),
        ensures
            final(self).wf(),
            if local {
                *final(self) == *old(self) && pack::refused(result) == Some(
                    (error::CONFLICT, "Le moteur intégré ne peut pas être supprimé."@),
                )
            } else {
                final(self)@ == without(old(self)@, id@) && pack::refused(result) == if present {
                    None
                } else {
                    Some((error::NOT_FOUND, "Ce modèle n'est pas installé."@))
                }
            },
    {
        if local {
            return Err(
                ApiError::conflict("Le moteur intégré ne peut pas être supprimé.".to_owned()),
            );
        }
        self.remove(id);
        if present {
            Ok(())
        } else {
            Err(ApiError::not_found("Ce modèle n'est pas installé.".to_owned()))
        }
    }

    /// The document that tells what the loaded models occupy.
    pub fn tracked_runtime_memory(&self, cuda_available: Option<bool>) -> (document: Json)
        requires
            countable(self@),
        ensures
            document@ == memory_of(self@, cuda_available),
    {
        let mut ram: u64 = 0;
        let mut vram: u64 = 0;
        for k in 0..self.list.len()
            invariant
                countable(self@),
                ram == ram_of(self@.take(k as int)),
                vram == vram_of(self@.take(k as int)),
        {
            proof {
                lemma_sums_grow(self@, k + 1);
                assert(self@.take(k + 1).drop_last() =~= self@.take(k as int));
                assert(self@[k as int] == self.list@[k as int]@);
            }
            ram = ram + self.list[k].ram_bytes;
            vram = vram + self.list[k].vram_bytes;
        }
        assert(self@.take(self@.len() as int) =~= self@);
        memory_document(self.list.len() as u64, ram, vram, cuda_available)
    }

    /// Unloads everything. `worker` is what the worker answered, where there is
    /// one. Whatever it answered, nothing is held to be loaded any more.
    pub fn perform_runtime_unload(
        &mut self,
        worker: Option<Result<WorkerUnloadAllResponse, String>>,
    ) -> (result: Result<WorkerUnloadAllResponse, String>)
        requires
            old(self).wf(),
            tells_memory(opt_answer(worker)) ==> countable(old(self)@),
        ensures
            final(self).wf(),
            final(self)@ == Seq::<RuntimeView>::empty(),
            match opt_answer(worker) {
                None => result matches Ok(answer) && tells_unload(answer@, old(self)@, None),
                Some(given) => match result {
                    Ok(answer) => given matches Ok(told) && unloaded_all(told) && tells_unload(
                        answer@,
                        old(self)@,
                        Some(told),
                    ),
                    Err(message) => !(given matches Ok(told) && unloaded_all(told)) && message@
                        == unload_failure(given),
                },
            },
    {
        let ghost before = self@;
        let ghost given = opt_answer(worker);
        let told = match &worker {
            None => true,
            Some(Ok(answer)) => answer.success && answer.comfyui_error.is_none()
                && answer.before_memory.is_none(),
            Some(Err(_)) => false,
        };
        let cuda = if worker.is_none() {
            Some(false)
        } else {
            None
        };
        let occupied = if told {
            Some(self.tracked_runtime_memory(cuda))
        } else {
            None
        };
        let mut known: Vec<String> = Vec::new();
        for k in 0..self.list.len()
            invariant
                before == self@,
                known@.len() == k,
                forall|j: int| 0 <= j < k ==> (#[trigger] known@[j])@ == names(before)[j],
        {
            assert(before[k as int] == self.list@[k as int]@);
            known.push(self.list[k].model_id.clone());
        }
        assert(text::texts(known@) =~= names(before));
        self.list = Vec::new();
        assert(self@ =~= Seq::<RuntimeView>::empty());
        let (listed, message, before_told, after_told) = match worker {
            Some(response) => {
                match validate_worker_unload_response(response) {
                    Err(cause) => {
                        return Err(cause);
                    },
                    Ok(answer) => (
                        answer.models_unloaded,
                        answer.message,
                        answer.before_memory,
                        answer.after_memory,
                    ),
                }
            },
            None => (
                Vec::new(),
                "Runtime local purgé; aucun worker CUDA n'est configuré sur cette machine.".to_owned(),
                None,
                None,
            ),
        };
        let ghost from_worker = text::texts(listed@);
        let unloaded = merge_names(&listed, &known);
        let before_memory = match before_told {
            Some(document) => Some(document),
            None => occupied,
        };
        let after_memory = match after_told {
            Some(document) => Some(document),
            None => Some(self.tracked_runtime_memory(cuda)),
        };
        let answer = WorkerUnloadAllResponse {
            success: true,
            models_unloaded: unloaded,
            before_memory,
            after_memory,
            message,
            comfyui_error: None,
        };
        proof {
            match given {
                None => {
                    assert(from_worker =~= Seq::<Seq<char>>::empty());
                    assert(tells_unload(answer@, before, None));
                },
                Some(reply) => {
                    assert(tells_unload(answer@, before, Some(reply->Ok_0)));
                },
            }
        }
        Ok(answer)
    }
}

/// The texts of two lists, each once and in order.
fn merge_names(first: &Vec<String>, second: &Vec<String>) -> (merged: Vec<String>)
    ensures
        ascending(text::texts(merged@)),
        forall|name: Seq<char>| #[trigger]
            text::texts(merged@).contains(name) <==> text::texts(first@).contains(name)
                || text::texts(second@).contains(name),
{
    let mut merged: Vec<String> = Vec::new();
    let ghost (a, b) = (text::texts(first@), text::texts(second@));
    assert(text::texts(merged@) =~= Seq::<Seq<char>>::empty());
    for i in 0..first.len()
        invariant
            a == text::texts(first@),
            ascending(text::texts(merged@)),
            forall|name: Seq<char>| #[trigger]
                text::texts(merged@).contains(name) <==> a.take(i as int).contains(name),
    {
        insert_sorted(&mut merged, first[i].clone());
        proof {
            lemma_taken(a, i as int);
        }
    }
    assert(a.take(a.len() as int) =~= a);
    for i in 0..second.len()
        invariant
            b == text::texts(second@),
            ascending(text::texts(merged@)),
            forall|name: Seq<char>| #[trigger]
                text::texts(merged@).contains(name) <==> a.contains(name) || b.take(
                    i as int,
                ).contains(name),
    {
        insert_sorted(&mut merged, second[i].clone());
        proof {
            lemma_taken(b, i as int);
        }
    }
    assert(b.take(b.len() as int) =~= b);
    merged
}

proof fn lemma_taken(list: Seq<Seq<char>>, count: int)
    requires
        0 <= count < list.len(),
    ensures
        forall|name: Seq<char>| #[trigger]
            list.take(count + 1).contains(name) <==> name == list[count] || list.take(
                count,
            ).contains(name),
{
    assert forall|name: Seq<char>| #[trigger] list.take(count + 1).contains(name) <==> name
        == list[count] || list.take(count).contains(name) by {
        let longer = list.take(count + 1);
        if longer.contains(name) {
            let k = choose|k: int| 0 <= k < longer.len() && longer[k] == name;
            if k < count {
                assert(list.take(count)[k] == name);
            }
        }
        if list.take(count).contains(name) {
            let k = choose|k: int| 0 <= k < count && list.take(count)[k] == name;
            assert(longer[k] == name);
        }
        assert(longer[count] == list[count]);
    }
}

proof fn lemma_filter_keeps_distinct(list: Seq<RuntimeView>, wanted: spec_fn(RuntimeView) -> bool)
    requires
        distinct(list),
    ensures
        distinct(list.filter(wanted)),
        forall|i: int|
            0 <= i < list.filter(wanted).len() ==> list.contains(
                #[trigger] list.filter(wanted)[i],
            ),
    decreases list.len(),
{
    reveal(Seq::filter);
    if list.len() > 0 {
        let rest = list.drop_last();
        lemma_filter_keeps_distinct(rest, wanted);
        let kept = rest.filter(wanted);
        let whole = list.filter(wanted);
        assert forall|i: int| 0 <= i < whole.len() implies list.contains(#[trigger] whole[i]) by {
            if i < kept.len() {
                assert(whole[i] == kept[i]);
                assert(rest.contains(kept[i]));
                let k = choose|k: int| 0 <= k < rest.len() && rest[k] == kept[i];
                assert(list[k] == whole[i]);
            } else {
                assert(list[list.len() - 1] == whole[i]);
            }
        }
        assert forall|i: int, j: int| 0 <= i < j < whole.len() implies (
        #[trigger] whole[i]).model_id != (#[trigger] whole[j]).model_id by {
            assert(whole[i] == kept[i]);
            if j < kept.len() {
                assert(whole[j] == kept[j]);
            } else {
                assert(rest.contains(kept[i]));
                let k = choose|k: int| 0 <= k < rest.len() && rest[k] == kept[i];
                assert(list[k].model_id != list[list.len() - 1].model_id);
            }
        }
    }
}

fn find_variant(variants: &Vec<ModelVariant>, id: &str) -> (at: usize)
    requires
        variants@.len() > 0,
    ensures
        at < variants@.len(),
        match variant_place(catalog::variants_view(variants@), id@) {
            Some(k) => at == k,
            None => at == 0,
        },
{
    let ghost listed = catalog::variants_view(variants@);
    let ghost ids = Seq::new(listed.len(), |i: int| listed[i].id);
    for k in 0..variants.len()
        invariant
            listed == catalog::variants_view(variants@),
            ids == Seq::new(listed.len(), |i: int| listed[i].id),
            forall|j: int| 0 <= j < k ==> (#[trigger] ids[j]) != id@,
    {
        assert(ids[k as int] == variants@[k as int]@.id);
        if *variants[k].id.as_str() == *id {
            proof {
                ids.index_of_first_ensures(id@);
                assert(ids.contains(ids[k as int]));
            }
            return k;
        }
    }
    proof {
        ids.index_of_first_ensures(id@);
    }
    0
}

// ---------------------------------------------------------------------------
// Laws
// ---------------------------------------------------------------------------

/// A model that was used within the time stays loaded, and one that was not is
/// unloaded.
pub proof fn law_idle_models_are_unloaded(
    list: Seq<RuntimeView>,
    now: u64,
    seconds: int,
    entry: RuntimeView,
)
    requires
        list.contains(entry),
    ensures
        list.filter(|other: RuntimeView| !idle(other, now, seconds)).contains(entry) <==> !idle(
            entry,
            now,
            seconds,
        ),
{
    let fresh = |other: RuntimeView| !idle(other, now, seconds);
    broadcast use vstd::seq_lib::group_filter_ensures;

    if !idle(entry, now, seconds) {
        let i = choose|i: int| 0 <= i < list.len() && list[i] == entry;
        assert(fresh(list[i]));
    }
    if list.filter(fresh).contains(entry) {
        let kept = list.filter(fresh);
        let i = choose|i: int| 0 <= i < kept.len() && kept[i] == entry;
        assert(fresh(kept[i]));
    }
}

/// A model that is not installed, or that the machine cannot hold, is never
/// loaded, and asking for it changes nothing.
pub proof fn law_unfit_models_are_refused(
    list: Seq<RuntimeView>,
    id: Seq<char>,
    request: LoadRequest,
    worker: bool,
)
    requires
        !request.installed || !request.compatible,
    ensures
        load_step(list, id, request, worker).0 is Refuse,
        load_step(list, id, request, worker).1 == list,
{
}

/// Unloading a model undoes loading it, where it was not loaded before.
pub proof fn law_unloading_undoes_loading(list: Seq<RuntimeView>, entry: RuntimeView)
    requires
        distinct(list),
        place(list, entry.model_id) is None,
    ensures
        without(entered(list, entry), entry.model_id) == list,
{
    lemma_place(list, entry.model_id);
    let after = list.push(entry);
    lemma_place_is(after, entry.model_id, list.len() as int);
    assert(after.remove(list.len() as int) =~= list);
}

/// A model that is in memory is kept, after the worker was asked where it holds it;
/// one that is not is loaded by the worker, or warmed up where it is an engine of
/// this service. Without a worker a model of its is given up.
pub proof fn law_models_are_loaded_where_they_run(
    list: Seq<RuntimeView>,
    id: Seq<char>,
    request: LoadRequest,
    worker: bool,
)
    requires
        request.installed && request.compatible,
        distinct(list),
    ensures
        ({
            let (plan, after) = load_step(list, id, request, worker);
            let loaded = place(list, id) is Some;
            &&& request.local && loaded ==> (plan matches PlanView::Keep(entry) && entry.model_id
                == id && list.contains(entry)) && after == list
            &&& request.local && !loaded ==> plan is WarmUp && after == list
            &&& !request.local && worker && loaded ==> plan is CheckStatus && after == list
            &&& !request.local && worker && !loaded ==> plan is AskWorker && after == list
            &&& !request.local && !worker ==> (plan matches PlanView::Refuse(refusal) && refusal.0
                == 503) && place(after, id) is None
        }),
{
    lemma_place(list, id);
    match place(list, id) {
        Some(at) => {
            assert(list[at].model_id == id);
            let after = list.remove(at);
            lemma_place(after, id);
            if place(after, id) is Some {
                let k = place(after, id)->0;
                let from = if k < at {
                    k
                } else {
                    k + 1
                };
                assert(after[k] == list[from]);
                assert(list[from].model_id == list[at].model_id);
            }
        },
        None => {},
    }
}

/// A model that the worker still holds is kept, one that it lost is loaded again,
/// and a worker that does not answer changes nothing.
pub proof fn law_lost_models_are_loaded_again(
    list: Seq<RuntimeView>,
    id: Seq<char>,
    answer: Result<ModelStatusView, Seq<char>>,
)
    ensures
        ({
            let (plan, after) = status_step(list, id, answer);
            &&& answer matches Err(cause) ==> plan == PlanView::Refuse((503u16, cause)) && after
                == list
            &&& answer matches Ok(status) ==> place(list, id) is Some ==> {
                &&& status.state == "READY"@ && status.runtime_compatible && status.weights_valid
                    ==> plan is Keep && after == list
                &&& status.state != "READY"@ || !status.runtime_compatible || !status.weights_valid
                    ==> plan is AskWorker && after.len() == list.len() - 1
            }
            &&& answer is Ok && place(list, id) is None ==> plan is AskWorker && after == list
        }),
{
    lemma_place(list, id);
}

/// A model has been loaded where the worker says that it is ready and fits; a
/// worker that says otherwise is quoted.
pub proof fn law_loading_needs_a_ready_worker(answer: Result<ModelStatusView, Seq<char>>)
    ensures
        installed_refusal(answer) is None <==> (answer matches Ok(status) && status.state
            == "READY"@ && status.ready && status.runtime_compatible),
        catalog_refusal(answer) is None <==> (answer matches Ok(status) && status.state == "READY"@
            && status.runtime_compatible),
        answer matches Err(cause) ==> installed_refusal(answer) == Some((503u16, cause))
            && catalog_refusal(answer) == Some((503u16, cause)),
        installed_refusal(answer) matches Some(refusal) ==> refusal.0 == 503,
        catalog_refusal(answer) matches Some(refusal) ==> refusal.0 == 503,
        answer matches Ok(status) ==> (status.error matches Some(cause) ==> status.state
            != "READY"@ ==> installed_refusal(answer) == Some((503u16, cause))),
{
}

/// What is kept of a model in memory is its name, where it runs and what it takes,
/// as the worker measured it, or as the variant of an engine asks for.
pub proof fn law_loaded_models_say_what_they_take(
    id: Seq<char>,
    status: ModelStatusView,
    variant: VariantView,
    variants: Seq<VariantView>,
    state: Seq<char>,
    now: u64,
)
    ensures
        ({
            let entry = installed_entry(id, status, now);
            &&& entry.model_id == id && entry.state == "ready"@ && entry.last_used_at == now
            &&& status.device matches Some(device) ==> entry.device == device
            &&& status.device is None ==> entry.device == "GPU"@
            &&& status.benchmark matches Some(seen) ==> entry.vram_bytes
                == seen.vram_after_load_bytes && (seen.ram_peak_bytes matches Some(bytes)
                ==> entry.ram_bytes == bytes)
            &&& status.benchmark is None ==> entry.vram_bytes == 0 && entry.ram_bytes == 0
        }),
        ({
            let entry = engine_entry(id, variant, state, now);
            &&& entry.model_id == id && entry.state == state && entry.last_used_at == now
            &&& entry.ram_bytes == variant.ram_required && entry.vram_bytes
                == variant.vram_required
            &&& variant.vram_required > 0 ==> entry.device == "GPU"@
            &&& variant.vram_required == 0 ==> entry.device == "CPU"@
        }),
        ({
            let entry = catalog_entry(id, variants, now);
            &&& entry.model_id == id && entry.state == "ready"@ && entry.device == "GPU"@
                && entry.last_used_at == now
            &&& variants.len() > 0 ==> entry.vram_bytes == variants[0].vram_required
        }),
{
}

/// A model is idle where it was not used for as long as is allowed.
pub proof fn law_models_that_are_used_stay(entry: RuntimeView, now: u64, seconds: int)
    requires
        seconds > 0,
    ensures
        entry.last_used_at <= now ==> (idle(entry, now, seconds) <==> entry.last_used_at + seconds
            <= now),
        entry.last_used_at > now ==> !idle(entry, now, seconds),
{
}

/// What the models in memory take is the sum of what each of them takes.
pub proof fn law_memory_adds_up(list: Seq<RuntimeView>, next: RuntimeView)
    ensures
        ram_of(list.push(next)) == ram_of(list) + next.ram_bytes,
        vram_of(list.push(next)) == vram_of(list) + next.vram_bytes,
        ram_of(Seq::empty()) == 0 && vram_of(Seq::empty()) == 0,
{
    assert(list.push(next).drop_last() =~= list);
}

/// The memory that is told names how many models there are and what they take.
pub proof fn law_memory_is_told(list: Seq<RuntimeView>, cuda: Option<bool>)
    requires
        countable(list),
        list.len() <= u64::MAX,
    ensures
        ({
            let told = memory_of(list, cuda);
            &&& told.member("loaded_models"@) == Some(JsonView::Integer(list.len() as u64))
            &&& told.member("tracked_ram_bytes"@) == Some(JsonView::Integer(ram_of(list) as u64))
            &&& told.member("tracked_vram_bytes"@) == Some(JsonView::Integer(vram_of(list) as u64))
            &&& cuda matches Some(flag) ==> told.member("cuda_available"@) == Some(
                JsonView::Bool(flag),
            )
        }),
{
    let members = memory_of(list, cuda)->Object_0;
    crate::member::lemma_members(members);
    reveal_with_fuel(crate::member::first_named, 7);
    assert(members.len() == 5);
    reveal_strlit("source");
    reveal_strlit("cuda_available");
    reveal_strlit("loaded_models");
    reveal_strlit("tracked_ram_bytes");
    reveal_strlit("tracked_vram_bytes");
    assert("source"@.len() == 6 && "cuda_available"@.len() == 14 && "loaded_models"@.len() == 13
        && "tracked_ram_bytes"@.len() == 17 && "tracked_vram_bytes"@.len() == 18);
}

/// Everything was unloaded where the worker says so and its engine does not
/// complain; a complaint, or else the words of the worker, is told.
pub proof fn law_unloading_is_told(response: Result<UnloadAllView, Seq<char>>)
    ensures
        response matches Ok(answer) ==> (unloaded_all(answer) <==> answer.success
            && answer.comfyui_error is None),
        response matches Err(cause) ==> unload_failure(response) == "WORKER_UNLOAD_FAILED: "@
            + cause,
        response matches Ok(answer) ==> (answer.comfyui_error matches Some(cause) ==> cause.len()
            > 0 ==> unload_failure(response) == "WORKER_UNLOAD_FAILED: "@ + cause),
        response matches Ok(answer) ==> answer.comfyui_error is None ==> unload_failure(response)
            == "WORKER_UNLOAD_FAILED: "@ + answer.message,
{
}

/// What is told of an unloading names every model that was in memory here or at the
/// worker, each once and in order.
pub proof fn law_unloaded_models_are_named(
    answer: UnloadAllView,
    list: Seq<RuntimeView>,
    worker: Option<UnloadAllView>,
    name: Seq<char>,
)
    requires
        tells_unload(answer, list, worker),
    ensures
        answer.success && answer.comfyui_error is None,
        (exists|i: int| 0 <= i < list.len() && (#[trigger] list[i]).model_id == name)
            ==> answer.models_unloaded.contains(name),
        worker matches Some(told) ==> (told.models_unloaded.contains(name)
            ==> answer.models_unloaded.contains(name)),
        worker is None ==> (answer.models_unloaded.contains(name) ==> exists|i: int|
            0 <= i < list.len() && (#[trigger] list[i]).model_id == name),
        worker matches Some(told) ==> answer.message == told.message,
        worker matches Some(told) ==> (told.before_memory is Some ==> answer.before_memory
            == told.before_memory) && (told.after_memory is Some ==> answer.after_memory
            == told.after_memory),
        forall|i: int, j: int|
            0 <= i < j < answer.models_unloaded.len() ==> text::before(
                #[trigger] answer.models_unloaded[i],
                #[trigger] answer.models_unloaded[j],
            ),
{
    if exists|i: int| 0 <= i < list.len() && (#[trigger] list[i]).model_id == name {
        let i = choose|i: int| 0 <= i < list.len() && (#[trigger] list[i]).model_id == name;
        assert(names(list)[i] == name);
        assert(names(list).contains(name));
    }
    if worker is None && answer.models_unloaded.contains(name) {
        assert(names(list).contains(name));
        let i = choose|i: int| 0 <= i < names(list).len() && names(list)[i] == name;
        assert(list[i].model_id == name);
    }
}

/// The variant of an engine is the one that is recommended, else the built-in one,
/// else the first.
pub proof fn law_engines_take_the_recommended_variant(
    variants: Seq<VariantView>,
    recommended: Option<Seq<char>>,
    at: int,
)
    requires
        0 <= at < variants.len(),
    ensures
        recommended matches Some(id) ==> (variants[at].id == id ==> engine_variant(
            variants,
            recommended,
        ).id == id),
        recommended is None ==> (variants[at].id == "builtin"@ ==> engine_variant(
            variants,
            recommended,
        ).id == "builtin"@),
        recommended matches Some(id) ==> (forall|i: int|
            0 <= i < variants.len() ==> (#[trigger] variants[i]).id != id) ==> engine_variant(
            variants,
            recommended,
        ) == variants[0],
{
    let wanted = match recommended {
        Some(id) => id,
        None => "builtin"@,
    };
    let ids = Seq::new(variants.len(), |i: int| variants[i].id);
    ids.index_of_first_ensures(wanted);
    assert(ids[at] == variants[at].id);
    if variants[at].id == wanted {
        assert(ids.contains(wanted));
    }
    if ids.contains(wanted) {
        let k = choose|k: int| 0 <= k < ids.len() && ids[k] == wanted;
        assert(variants[k].id == wanted);
    }
}

} // verus!
