//! What is asked of the GPU worker, what it answers, and how answers are read.
use crate::job::JobStatus;
use crate::json;
use crate::json::{Json, JsonView, Real};
use crate::member;
use crate::run;
use crate::run::Report;
use crate::text;
use vstd::prelude::*;
use vstd::string::*;

verus! {

// ---------------------------------------------------------------------------
// Answers
// ---------------------------------------------------------------------------

/// Whether the worker answers.
#[derive(Debug)]
pub struct WorkerHealth {
    pub status: String,
    pub service: String,
}

/// What [`WorkerHealth`] says.
#[verifier::ext_equal]
pub struct WorkerHealthView {
    pub status: Seq<char>,
    pub service: Seq<char>,
}

impl View for WorkerHealth {
    type V = WorkerHealthView;

    open spec fn view(&self) -> WorkerHealthView {
        WorkerHealthView {
            status: self.status@,
            service: self.service@,
        }
    }
}

impl WorkerHealth {
    /// A copy of the value.
    pub fn copy(&self) -> (copy: Self)
        ensures
            copy@ == self@,
    {
        WorkerHealth {
            status: self.status.clone(),
            service: self.service.clone(),
        }
    }
}

/// Whether the worker can run models, and on what.
#[derive(Debug)]
pub struct WorkerReady {
    pub ready: bool,
    pub profile: String,
    pub runtime_available: bool,
    pub cuda_available: bool,
    pub gpu_required: bool,
    pub scratch_mount_ok: bool,
    pub scratch_filesystem: Option<String>,
    pub scratch_total_bytes: u64,
    pub scratch_available_bytes: u64,
    pub errors: Vec<String>,
}

/// What [`WorkerReady`] says.
#[verifier::ext_equal]
pub struct WorkerReadyView {
    pub ready: bool,
    pub profile: Seq<char>,
    pub runtime_available: bool,
    pub cuda_available: bool,
    pub gpu_required: bool,
    pub scratch_mount_ok: bool,
    pub scratch_filesystem: Option<Seq<char>>,
    pub scratch_total_bytes: u64,
    pub scratch_available_bytes: u64,
    pub errors: Seq<Seq<char>>,
}

impl View for WorkerReady {
    type V = WorkerReadyView;

    open spec fn view(&self) -> WorkerReadyView {
        WorkerReadyView {
            ready: self.ready,
            profile: self.profile@,
            runtime_available: self.runtime_available,
            cuda_available: self.cuda_available,
            gpu_required: self.gpu_required,
            scratch_mount_ok: self.scratch_mount_ok,
            scratch_filesystem: text::opt(self.scratch_filesystem),
            scratch_total_bytes: self.scratch_total_bytes,
            scratch_available_bytes: self.scratch_available_bytes,
            errors: text::texts(self.errors@),
        }
    }
}

impl WorkerReady {
    /// A copy of the value.
    pub fn copy(&self) -> (copy: Self)
        ensures
            copy@ == self@,
    {
        WorkerReady {
            ready: self.ready,
            profile: self.profile.clone(),
            runtime_available: self.runtime_available,
            cuda_available: self.cuda_available,
            gpu_required: self.gpu_required,
            scratch_mount_ok: self.scratch_mount_ok,
            scratch_filesystem: text::copy_opt(&self.scratch_filesystem),
            scratch_total_bytes: self.scratch_total_bytes,
            scratch_available_bytes: self.scratch_available_bytes,
            errors: text::copy_texts(&self.errors),
        }
    }
}

/// What the worker measured while it loaded or ran a model.
#[derive(Debug)]
pub struct WorkerBenchmarkObservation {
    pub gpu: String,
    pub vram_idle_bytes: u64,
    pub vram_after_load_bytes: u64,
    pub vram_peak_bytes: u64,
    pub ram_peak_bytes: Option<u64>,
    pub runtime: String,
    pub precision: String,
    pub resolution_width: Option<u32>,
    pub resolution_height: Option<u32>,
    pub frames: Option<u32>,
    pub duration_seconds: Option<Real>,
    pub fps: Option<Real>,
    pub batch: u32,
    pub attention_implementation: Option<String>,
    pub vae_tiling: bool,
    pub cpu_offload: bool,
    pub model_offload: bool,
    pub inference_seconds: Option<Real>,
}

/// What [`WorkerBenchmarkObservation`] says.
#[verifier::ext_equal]
pub struct ObservationView {
    pub gpu: Seq<char>,
    pub vram_idle_bytes: u64,
    pub vram_after_load_bytes: u64,
    pub vram_peak_bytes: u64,
    pub ram_peak_bytes: Option<u64>,
    pub runtime: Seq<char>,
    pub precision: Seq<char>,
    pub resolution_width: Option<u32>,
    pub resolution_height: Option<u32>,
    pub frames: Option<u32>,
    pub duration_seconds: Option<Real>,
    pub fps: Option<Real>,
    pub batch: u32,
    pub attention_implementation: Option<Seq<char>>,
    pub vae_tiling: bool,
    pub cpu_offload: bool,
    pub model_offload: bool,
    pub inference_seconds: Option<Real>,
}

impl View for WorkerBenchmarkObservation {
    type V = ObservationView;

    open spec fn view(&self) -> ObservationView {
        ObservationView {
            gpu: self.gpu@,
            vram_idle_bytes: self.vram_idle_bytes,
            vram_after_load_bytes: self.vram_after_load_bytes,
            vram_peak_bytes: self.vram_peak_bytes,
            ram_peak_bytes: self.ram_peak_bytes,
            runtime: self.runtime@,
            precision: self.precision@,
            resolution_width: self.resolution_width,
            resolution_height: self.resolution_height,
            frames: self.frames,
            duration_seconds: self.duration_seconds,
            fps: self.fps,
            batch: self.batch,
            attention_implementation: text::opt(self.attention_implementation),
            vae_tiling: self.vae_tiling,
            cpu_offload: self.cpu_offload,
            model_offload: self.model_offload,
            inference_seconds: self.inference_seconds,
        }
    }
}

impl WorkerBenchmarkObservation {
    /// A copy of the value.
    pub fn copy(&self) -> (copy: Self)
        ensures
            copy@ == self@,
    {
        WorkerBenchmarkObservation {
            gpu: self.gpu.clone(),
            vram_idle_bytes: self.vram_idle_bytes,
            vram_after_load_bytes: self.vram_after_load_bytes,
            vram_peak_bytes: self.vram_peak_bytes,
            ram_peak_bytes: self.ram_peak_bytes,
            runtime: self.runtime.clone(),
            precision: self.precision.clone(),
            resolution_width: self.resolution_width,
            resolution_height: self.resolution_height,
            frames: self.frames,
            duration_seconds: self.duration_seconds,
            fps: self.fps,
            batch: self.batch,
            attention_implementation: text::copy_opt(&self.attention_implementation),
            vae_tiling: self.vae_tiling,
            cpu_offload: self.cpu_offload,
            model_offload: self.model_offload,
            inference_seconds: self.inference_seconds,
        }
    }
}

/// What an optional observation says.
pub open spec fn opt_observation(value: Option<WorkerBenchmarkObservation>) -> Option<
    ObservationView,
> {
    match value {
        Some(found) => Some(found@),
        None => None,
    }
}

/// A copy of an optional observation.
pub fn copy_observation(value: &Option<WorkerBenchmarkObservation>) -> (copy: Option<
    WorkerBenchmarkObservation,
>)
    ensures
        opt_observation(copy) == opt_observation(*value),
{
    match value {
        Some(found) => Some(found.copy()),
        None => None,
    }
}

/// What the worker says of one model.
#[derive(Debug)]
pub struct WorkerModelStatus {
    pub model_id: String,
    pub state: String,
    pub repository: Option<String>,
    pub revision: Option<String>,
    pub installed: bool,
    pub loaded: bool,
    pub ready: bool,
    pub weights_valid: bool,
    pub runtime_available: bool,
    pub runtime_compatible: bool,
    pub validation_test: bool,
    pub error: Option<String>,
    pub benchmark: Option<WorkerBenchmarkObservation>,
    pub runtime_dependencies: Vec<Json>,
    pub precision_plan: Option<Json>,
    pub memory_plan: Option<Json>,
    pub capabilities: Vec<String>,
    pub capability: Option<String>,
    pub pipeline_class: Option<String>,
    pub device: Option<String>,
    pub stage: Option<String>,
    pub bundle: Option<Json>,
    pub model_pack: Option<Json>,
    pub model_pack_id: Option<String>,
    pub engine: Option<String>,
    pub model_pack_status: Option<String>,
    pub workflow: Option<String>,
    pub advanced_parameters: Vec<String>,
    pub presets: Json,
    pub experimental: bool,
    pub load_allowed: bool,
    pub generation_allowed: bool,
}

/// What [`WorkerModelStatus`] says.
#[verifier::ext_equal]
pub struct ModelStatusView {
    pub model_id: Seq<char>,
    pub state: Seq<char>,
    pub repository: Option<Seq<char>>,
    pub revision: Option<Seq<char>>,
    pub installed: bool,
    pub loaded: bool,
    pub ready: bool,
    pub weights_valid: bool,
    pub runtime_available: bool,
    pub runtime_compatible: bool,
    pub validation_test: bool,
    pub error: Option<Seq<char>>,
    pub benchmark: Option<ObservationView>,
    pub runtime_dependencies: Seq<JsonView>,
    pub precision_plan: Option<JsonView>,
    pub memory_plan: Option<JsonView>,
    pub capabilities: Seq<Seq<char>>,
    pub capability: Option<Seq<char>>,
    pub pipeline_class: Option<Seq<char>>,
    pub device: Option<Seq<char>>,
    pub stage: Option<Seq<char>>,
    pub bundle: Option<JsonView>,
    pub model_pack: Option<JsonView>,
    pub model_pack_id: Option<Seq<char>>,
    pub engine: Option<Seq<char>>,
    pub model_pack_status: Option<Seq<char>>,
    pub workflow: Option<Seq<char>>,
    pub advanced_parameters: Seq<Seq<char>>,
    pub presets: JsonView,
    pub experimental: bool,
    pub load_allowed: bool,
    pub generation_allowed: bool,
}

impl View for WorkerModelStatus {
    type V = ModelStatusView;

    open spec fn view(&self) -> ModelStatusView {
        ModelStatusView {
            model_id: self.model_id@,
            state: self.state@,
            repository: text::opt(self.repository),
            revision: text::opt(self.revision),
            installed: self.installed,
            loaded: self.loaded,
            ready: self.ready,
            weights_valid: self.weights_valid,
            runtime_available: self.runtime_available,
            runtime_compatible: self.runtime_compatible,
            validation_test: self.validation_test,
            error: text::opt(self.error),
            benchmark: opt_observation(self.benchmark),
            runtime_dependencies: json::items_view(self.runtime_dependencies@),
            precision_plan: json::opt_view(self.precision_plan),
            memory_plan: json::opt_view(self.memory_plan),
            capabilities: text::texts(self.capabilities@),
            capability: text::opt(self.capability),
            pipeline_class: text::opt(self.pipeline_class),
            device: text::opt(self.device),
            stage: text::opt(self.stage),
            bundle: json::opt_view(self.bundle),
            model_pack: json::opt_view(self.model_pack),
            model_pack_id: text::opt(self.model_pack_id),
            engine: text::opt(self.engine),
            model_pack_status: text::opt(self.model_pack_status),
            workflow: text::opt(self.workflow),
            advanced_parameters: text::texts(self.advanced_parameters@),
            presets: self.presets@,
            experimental: self.experimental,
            load_allowed: self.load_allowed,
            generation_allowed: self.generation_allowed,
        }
    }
}

impl WorkerModelStatus {
    /// A copy of the value.
    pub fn copy(&self) -> (copy: Self)
        ensures
            copy@ == self@,
    {
        WorkerModelStatus {
            model_id: self.model_id.clone(),
            state: self.state.clone(),
            repository: text::copy_opt(&self.repository),
            revision: text::copy_opt(&self.revision),
            installed: self.installed,
            loaded: self.loaded,
            ready: self.ready,
            weights_valid: self.weights_valid,
            runtime_available: self.runtime_available,
            runtime_compatible: self.runtime_compatible,
            validation_test: self.validation_test,
            error: text::copy_opt(&self.error),
            benchmark: copy_observation(&self.benchmark),
            runtime_dependencies: json::copy_items(&self.runtime_dependencies),
            precision_plan: json::copy_opt(&self.precision_plan),
            memory_plan: json::copy_opt(&self.memory_plan),
            capabilities: text::copy_texts(&self.capabilities),
            capability: text::copy_opt(&self.capability),
            pipeline_class: text::copy_opt(&self.pipeline_class),
            device: text::copy_opt(&self.device),
            stage: text::copy_opt(&self.stage),
            bundle: json::copy_opt(&self.bundle),
            model_pack: json::copy_opt(&self.model_pack),
            model_pack_id: text::copy_opt(&self.model_pack_id),
            engine: text::copy_opt(&self.engine),
            model_pack_status: text::copy_opt(&self.model_pack_status),
            workflow: text::copy_opt(&self.workflow),
            advanced_parameters: text::copy_texts(&self.advanced_parameters),
            presets: self.presets.copy(),
            experimental: self.experimental,
            load_allowed: self.load_allowed,
            generation_allowed: self.generation_allowed,
        }
    }
}

/// What the worker says of a pipeline that it may be asked to run.
#[derive(Debug)]
pub struct WorkerCompatibility {
    pub compatibility_status: String,
    pub runtime_supported: bool,
    pub runtime_capabilities: Vec<String>,
    pub pipeline_class: Option<String>,
    pub runtime_reason: String,
    pub error_code: Option<String>,
    pub dependency: Option<String>,
    pub model_pack_id: Option<String>,
}

/// What [`WorkerCompatibility`] says.
#[verifier::ext_equal]
pub struct CompatibilityView {
    pub compatibility_status: Seq<char>,
    pub runtime_supported: bool,
    pub runtime_capabilities: Seq<Seq<char>>,
    pub pipeline_class: Option<Seq<char>>,
    pub runtime_reason: Seq<char>,
    pub error_code: Option<Seq<char>>,
    pub dependency: Option<Seq<char>>,
    pub model_pack_id: Option<Seq<char>>,
}

impl View for WorkerCompatibility {
    type V = CompatibilityView;

    open spec fn view(&self) -> CompatibilityView {
        CompatibilityView {
            compatibility_status: self.compatibility_status@,
            runtime_supported: self.runtime_supported,
            runtime_capabilities: text::texts(self.runtime_capabilities@),
            pipeline_class: text::opt(self.pipeline_class),
            runtime_reason: self.runtime_reason@,
            error_code: text::opt(self.error_code),
            dependency: text::opt(self.dependency),
            model_pack_id: text::opt(self.model_pack_id),
        }
    }
}

impl WorkerCompatibility {
    /// A copy of the value.
    pub fn copy(&self) -> (copy: Self)
        ensures
            copy@ == self@,
    {
        WorkerCompatibility {
            compatibility_status: self.compatibility_status.clone(),
            runtime_supported: self.runtime_supported,
            runtime_capabilities: text::copy_texts(&self.runtime_capabilities),
            pipeline_class: text::copy_opt(&self.pipeline_class),
            runtime_reason: self.runtime_reason.clone(),
            error_code: text::copy_opt(&self.error_code),
            dependency: text::copy_opt(&self.dependency),
            model_pack_id: text::copy_opt(&self.model_pack_id),
        }
    }
}

/// The graphics card of the worker.
#[derive(Debug)]
pub struct WorkerGpu {
    pub name: String,
    pub backend: String,
    pub vram_total_bytes: u64,
    pub vram_used_bytes: u64,
    pub utilization_percent: Option<Real>,
    pub temperature_celsius: Option<Real>,
}

/// What [`WorkerGpu`] says.
#[verifier::ext_equal]
pub struct WorkerGpuView {
    pub name: Seq<char>,
    pub backend: Seq<char>,
    pub vram_total_bytes: u64,
    pub vram_used_bytes: u64,
    pub utilization_percent: Option<Real>,
    pub temperature_celsius: Option<Real>,
}

impl View for WorkerGpu {
    type V = WorkerGpuView;

    open spec fn view(&self) -> WorkerGpuView {
        WorkerGpuView {
            name: self.name@,
            backend: self.backend@,
            vram_total_bytes: self.vram_total_bytes,
            vram_used_bytes: self.vram_used_bytes,
            utilization_percent: self.utilization_percent,
            temperature_celsius: self.temperature_celsius,
        }
    }
}

impl WorkerGpu {
    /// A copy of the value.
    pub fn copy(&self) -> (copy: Self)
        ensures
            copy@ == self@,
    {
        WorkerGpu {
            name: self.name.clone(),
            backend: self.backend.clone(),
            vram_total_bytes: self.vram_total_bytes,
            vram_used_bytes: self.vram_used_bytes,
            utilization_percent: self.utilization_percent,
            temperature_celsius: self.temperature_celsius,
        }
    }
}

/// What an optional card says.
pub open spec fn opt_gpu(value: Option<WorkerGpu>) -> Option<WorkerGpuView> {
    match value {
        Some(found) => Some(found@),
        None => None,
    }
}

/// A copy of an optional card.
pub fn copy_gpu(value: &Option<WorkerGpu>) -> (copy: Option<WorkerGpu>)
    ensures
        opt_gpu(copy) == opt_gpu(*value),
{
    match value {
        Some(found) => Some(found.copy()),
        None => None,
    }
}

/// What the worker has in use.
#[derive(Debug)]
pub struct WorkerResources {
    pub gpu: Option<WorkerGpu>,
    pub gpu_status: String,
    pub worker_status: String,
    pub loaded_models: Vec<Json>,
    pub memory: Option<Json>,
    pub active_jobs: usize,
}

/// What [`WorkerResources`] says.
#[verifier::ext_equal]
pub struct ResourcesView {
    pub gpu: Option<WorkerGpuView>,
    pub gpu_status: Seq<char>,
    pub worker_status: Seq<char>,
    pub loaded_models: Seq<JsonView>,
    pub memory: Option<JsonView>,
    pub active_jobs: usize,
}

impl View for WorkerResources {
    type V = ResourcesView;

    open spec fn view(&self) -> ResourcesView {
        ResourcesView {
            gpu: opt_gpu(self.gpu),
            gpu_status: self.gpu_status@,
            worker_status: self.worker_status@,
            loaded_models: json::items_view(self.loaded_models@),
            memory: json::opt_view(self.memory),
            active_jobs: self.active_jobs,
        }
    }
}

impl WorkerResources {
    /// A copy of the value.
    pub fn copy(&self) -> (copy: Self)
        ensures
            copy@ == self@,
    {
        WorkerResources {
            gpu: copy_gpu(&self.gpu),
            gpu_status: self.gpu_status.clone(),
            worker_status: self.worker_status.clone(),
            loaded_models: json::copy_items(&self.loaded_models),
            memory: json::copy_opt(&self.memory),
            active_jobs: self.active_jobs,
        }
    }
}

/// How far the worker is with a job.
#[derive(Debug)]
pub struct WorkerJobStatus {
    pub job_id: String,
    pub state: String,
    pub progress: u8,
    pub error: Option<String>,
    pub error_code: Option<String>,
}

/// What [`WorkerJobStatus`] says.
#[verifier::ext_equal]
pub struct WorkerJobView {
    pub job_id: Seq<char>,
    pub state: Seq<char>,
    pub progress: u8,
    pub error: Option<Seq<char>>,
    pub error_code: Option<Seq<char>>,
}

impl View for WorkerJobStatus {
    type V = WorkerJobView;

    open spec fn view(&self) -> WorkerJobView {
        WorkerJobView {
            job_id: self.job_id@,
            state: self.state@,
            progress: self.progress,
            error: text::opt(self.error),
            error_code: text::opt(self.error_code),
        }
    }
}

impl WorkerJobStatus {
    /// A copy of the value.
    pub fn copy(&self) -> (copy: Self)
        ensures
            copy@ == self@,
    {
        WorkerJobStatus {
            job_id: self.job_id.clone(),
            state: self.state.clone(),
            progress: self.progress,
            error: text::copy_opt(&self.error),
            error_code: text::copy_opt(&self.error_code),
        }
    }
}

/// What the worker made of a request.
#[derive(Debug)]
pub struct GenerateResponse {
    pub job_id: String,
    pub state: String,
    pub output_relative_path: String,
    pub width: u32,
    pub height: u32,
    pub requested_quality: Option<String>,
    pub requested_aspect_ratio: Option<String>,
    pub requested_duration_seconds: Option<Real>,
    pub requested_fps: Option<u32>,
    pub requested_frames: Option<u32>,
    pub inference_frames: Option<u32>,
    pub actual_width: Option<u32>,
    pub actual_height: Option<u32>,
    pub actual_fps: Option<Real>,
    pub actual_frames: Option<u32>,
    pub actual_duration: Option<Real>,
    pub actual_audio: bool,
    pub audio_codec: Option<String>,
    pub audio_channels: Option<u32>,
    pub audio_sample_rate: Option<u32>,
    pub sha256: String,
    pub benchmark: Option<WorkerBenchmarkObservation>,
}

/// What [`GenerateResponse`] says.
#[verifier::ext_equal]
pub struct ResponseView {
    pub job_id: Seq<char>,
    pub state: Seq<char>,
    pub output_relative_path: Seq<char>,
    pub width: u32,
    pub height: u32,
    pub requested_quality: Option<Seq<char>>,
    pub requested_aspect_ratio: Option<Seq<char>>,
    pub requested_duration_seconds: Option<Real>,
    pub requested_fps: Option<u32>,
    pub requested_frames: Option<u32>,
    pub inference_frames: Option<u32>,
    pub actual_width: Option<u32>,
    pub actual_height: Option<u32>,
    pub actual_fps: Option<Real>,
    pub actual_frames: Option<u32>,
    pub actual_duration: Option<Real>,
    pub actual_audio: bool,
    pub audio_codec: Option<Seq<char>>,
    pub audio_channels: Option<u32>,
    pub audio_sample_rate: Option<u32>,
    pub sha256: Seq<char>,
    pub benchmark: Option<ObservationView>,
}

impl View for GenerateResponse {
    type V = ResponseView;

    open spec fn view(&self) -> ResponseView {
        ResponseView {
            job_id: self.job_id@,
            state: self.state@,
            output_relative_path: self.output_relative_path@,
            width: self.width,
            height: self.height,
            requested_quality: text::opt(self.requested_quality),
            requested_aspect_ratio: text::opt(self.requested_aspect_ratio),
            requested_duration_seconds: self.requested_duration_seconds,
            requested_fps: self.requested_fps,
            requested_frames: self.requested_frames,
            inference_frames: self.inference_frames,
            actual_width: self.actual_width,
            actual_height: self.actual_height,
            actual_fps: self.actual_fps,
            actual_frames: self.actual_frames,
            actual_duration: self.actual_duration,
            actual_audio: self.actual_audio,
            audio_codec: text::opt(self.audio_codec),
            audio_channels: self.audio_channels,
            audio_sample_rate: self.audio_sample_rate,
            sha256: self.sha256@,
            benchmark: opt_observation(self.benchmark),
        }
    }
}

impl GenerateResponse {
    /// A copy of the value.
    pub fn copy(&self) -> (copy: Self)
        ensures
            copy@ == self@,
    {
        GenerateResponse {
            job_id: self.job_id.clone(),
            state: self.state.clone(),
            output_relative_path: self.output_relative_path.clone(),
            width: self.width,
            height: self.height,
            requested_quality: text::copy_opt(&self.requested_quality),
            requested_aspect_ratio: text::copy_opt(&self.requested_aspect_ratio),
            requested_duration_seconds: self.requested_duration_seconds,
            requested_fps: self.requested_fps,
            requested_frames: self.requested_frames,
            inference_frames: self.inference_frames,
            actual_width: self.actual_width,
            actual_height: self.actual_height,
            actual_fps: self.actual_fps,
            actual_frames: self.actual_frames,
            actual_duration: self.actual_duration,
            actual_audio: self.actual_audio,
            audio_codec: text::copy_opt(&self.audio_codec),
            audio_channels: self.audio_channels,
            audio_sample_rate: self.audio_sample_rate,
            sha256: self.sha256.clone(),
            benchmark: copy_observation(&self.benchmark),
        }
    }
}

/// What the worker freed.
#[derive(Debug)]
pub struct WorkerUnloadAllResponse {
    pub success: bool,
    pub models_unloaded: Vec<String>,
    pub before_memory: Option<Json>,
    pub after_memory: Option<Json>,
    pub message: String,
    pub comfyui_error: Option<String>,
}

/// What [`WorkerUnloadAllResponse`] says.
#[verifier::ext_equal]
pub struct UnloadAllView {
    pub success: bool,
    pub models_unloaded: Seq<Seq<char>>,
    pub before_memory: Option<JsonView>,
    pub after_memory: Option<JsonView>,
    pub message: Seq<char>,
    pub comfyui_error: Option<Seq<char>>,
}

impl View for WorkerUnloadAllResponse {
    type V = UnloadAllView;

    open spec fn view(&self) -> UnloadAllView {
        UnloadAllView {
            success: self.success,
            models_unloaded: text::texts(self.models_unloaded@),
            before_memory: json::opt_view(self.before_memory),
            after_memory: json::opt_view(self.after_memory),
            message: self.message@,
            comfyui_error: text::opt(self.comfyui_error),
        }
    }
}

impl WorkerUnloadAllResponse {
    /// A copy of the value.
    pub fn copy(&self) -> (copy: Self)
        ensures
            copy@ == self@,
    {
        WorkerUnloadAllResponse {
            success: self.success,
            models_unloaded: text::copy_texts(&self.models_unloaded),
            before_memory: json::copy_opt(&self.before_memory),
            after_memory: json::copy_opt(&self.after_memory),
            message: self.message.clone(),
            comfyui_error: text::copy_opt(&self.comfyui_error),
        }
    }
}

/// How the worker refuses a request.
#[derive(Debug)]
pub struct WorkerErrorPayload {
    pub error: String,
    pub code: Option<String>,
    pub retryable: Option<bool>,
}

/// What [`WorkerErrorPayload`] says.
#[verifier::ext_equal]
pub struct WorkerErrorView {
    pub error: Seq<char>,
    pub code: Option<Seq<char>>,
    pub retryable: Option<bool>,
}

impl View for WorkerErrorPayload {
    type V = WorkerErrorView;

    open spec fn view(&self) -> WorkerErrorView {
        WorkerErrorView {
            error: self.error@,
            code: text::opt(self.code),
            retryable: self.retryable,
        }
    }
}

impl WorkerErrorPayload {
    /// A copy of the value.
    pub fn copy(&self) -> (copy: Self)
        ensures
            copy@ == self@,
    {
        WorkerErrorPayload {
            error: self.error.clone(),
            code: text::copy_opt(&self.code),
            retryable: self.retryable,
        }
    }
}

/// The compatibility that an answer without one stands for.
pub fn default_compatibility_status() -> (status: String)
    ensures
        status@ == "UNKNOWN"@,
{
    "UNKNOWN".to_owned()
}

/// The batch that an observation without one stands for.
pub fn default_batch() -> (batch: u32)
    ensures
        batch == 1,
{
    1
}

// ---------------------------------------------------------------------------
// Addresses
// ---------------------------------------------------------------------------

/// A text without the slashes at its end.
pub open spec fn without_slashes(address: Seq<char>) -> Seq<char>
    decreases address.len(),
{
    if address.len() > 0 && address.last() == '/' {
        without_slashes(address.drop_last())
    } else {
        address
    }
}

/// The address of the worker that a setting gives; none where it is blank.
pub fn base_address(setting: &str) -> (address: Option<String>)
    ensures
        text::opt(address) == if text::trimmed(setting@).len() == 0 {
            None
        } else {
            Some(without_slashes(setting@))
        },
{
    if text::chars_of(text::trim(setting)).len() == 0 {
        return None;
    }
    let characters = text::chars_of(setting);
    let mut length: usize = characters.len();
    assert(setting@.take(length as int) =~= setting@);
    while length > 0 && characters[length - 1] == '/'
        invariant
            length <= characters@.len(),
            characters@ == setting@,
            without_slashes(setting@.take(length as int)) == without_slashes(setting@),
        decreases length,
    {
        assert(setting@.take(length as int).drop_last() == setting@.take(length - 1));
        length = length - 1;
    }
    let mut address = String::new();
    for i in 0..length
        invariant
            length <= characters@.len(),
            characters@ == setting@,
            address@ == setting@.take(i as int),
    {
        address.push(characters[i]);
    }
    Some(address)
}

/// The path at which the worker tells of a model.
pub fn model_status_path(model_id: &str) -> (path: String)
    ensures
        path@ == "/v1/models/"@ + model_id@ + "/status"@,
{
    text::concat3("/v1/models/", model_id, "/status")
}

/// The path at which the worker tells of a job.
pub fn job_status_path(job_id: &str) -> (path: String)
    ensures
        path@ == "/v1/jobs/"@ + job_id@,
{
    text::concat("/v1/jobs/", job_id)
}

// ---------------------------------------------------------------------------
// Reading answers
// ---------------------------------------------------------------------------

/// The name given to the line that the HTTP library writes for a status.
pub uninterp spec fn status_line(status: u16) -> Seq<char>;

/// `reqwest::StatusCode::to_string` on `reqwest::StatusCode::from_u16`: the
/// number and its reason. Numbers outside of 100 to 999 are no statuses.
#[verifier::external_body]
fn status_text(status: u16) -> (line: String)
    requires
        100 <= status <= 999,
    ensures
        line@ == status_line(status),
{
    match reqwest::StatusCode::from_u16(status) {
        Ok(code) => code.to_string(),
        Err(error) => error.to_string(),
    }
}

/// Whether a status says that a request was served.
pub open spec fn successful(status: u16) -> bool {
    200 <= status < 300
}

/// Reads the answer to "are you ready": an answer of a worker that is not ready
/// is an answer, any other refusal is not. `parsed` is the body, or why it could
/// not be read.
pub fn decode_ready(status: u16, parsed: Result<WorkerReady, String>) -> (result: Result<
    WorkerReady,
    String,
>)
    requires
        100 <= status <= 999,
    ensures
        match result {
            Ok(ready) => (successful(status) || status == 503) && parsed == Ok::<WorkerReady, String>(
                ready,
            ),
            Err(message) => if successful(status) || status == 503 {
                parsed matches Err(cause) && message@ == "WORKER_READY_INVALID_JSON: "@ + cause@
            } else {
                message@ == "WORKER_READY_HTTP_ERROR: worker HTTP "@ + status_line(status)
            },
        },
{
    if (status >= 200 && status < 300) || status == 503 {
        return match parsed {
            Ok(ready) => Ok(ready),
            Err(cause) => Err(text::concat("WORKER_READY_INVALID_JSON: ", cause.as_str())),
        };
    }
    Err(text::concat("WORKER_READY_HTTP_ERROR: worker HTTP ", status_text(status).as_str()))
}

/// How often a refused request may be tried again.
pub open spec fn retry_word(retryable: Option<bool>) -> Seq<char> {
    match retryable {
        Some(true) => "retryable"@,
        Some(false) => "non-retryable"@,
        None => "unknown"@,
    }
}

/// What is said of a request that the worker refused.
pub open spec fn refusal(status: u16, payload: Option<WorkerErrorView>, body: Seq<char>) -> Seq<
    char,
> {
    match payload {
        Some(told) => (match told.code {
            Some(code) => code,
            None => "WORKER_ERROR"@,
        }) + ": "@ + told.error + " (worker HTTP "@ + status_line(status) + ", "@ + retry_word(
            told.retryable,
        ) + ")"@,
        None => "WORKER_HTTP_ERROR: worker HTTP "@ + status_line(status) + ": "@ + body,
    }
}

/// Says why the worker refused a request: in its own words where its body has
/// the form of a refusal, else with the whole body.
pub fn refusal_text(status: u16, payload: Option<&WorkerErrorPayload>, body: &str) -> (message:
    String)
    requires
        100 <= status <= 999,
    ensures
        message@ == refusal(
            status,
            match payload {
                Some(told) => Some(told@),
                None => None,
            },
            body@,
        ),
{
    match payload {
        Some(told) => {
            let mut message = match &told.code {
                Some(code) => code.clone(),
                None => "WORKER_ERROR".to_owned(),
            };
            message.append(": ");
            message.append(told.error.as_str());
            message.append(" (worker HTTP ");
            message.append(status_text(status).as_str());
            message.append(", ");
            match told.retryable {
                Some(true) => message.append("retryable"),
                Some(false) => message.append("non-retryable"),
                None => message.append("unknown"),
            }
            message.append(")");
            message
        },
        None => {
            let mut message = "WORKER_HTTP_ERROR: worker HTTP ".to_owned();
            message.append(status_text(status).as_str());
            message.append(": ");
            message.append(body);
            message
        },
    }
}

/// Reads the answer to a request to cancel a job: one that the worker does not
/// know needs no cancelling.
pub fn cancel_outcome(status: u16) -> (result: Result<(), String>)
    requires
        100 <= status <= 999,
    ensures
        result is Ok <==> status == 404 || successful(status),
        result matches Err(message) ==> message@ == "annulation worker refusée: "@ + status_line(
            status,
        ),
{
    if status == 404 || (status >= 200 && status < 300) {
        Ok(())
    } else {
        Err(text::concat("annulation worker refusée: ", status_text(status).as_str()))
    }
}

// ---------------------------------------------------------------------------
// Requests
// ---------------------------------------------------------------------------

/// Members of an object with one more, where it has a value.
pub open spec fn with_text(
    members: Seq<(Seq<char>, JsonView)>,
    key: Seq<char>,
    value: Option<Seq<char>>,
) -> Seq<(Seq<char>, JsonView)> {
    match value {
        Some(found) => members.push((key, JsonView::Text(found))),
        None => members,
    }
}

/// Members of an object with one more, where it has a value.
pub open spec fn with_part(
    members: Seq<(Seq<char>, JsonView)>,
    key: Seq<char>,
    value: Option<JsonView>,
) -> Seq<(Seq<char>, JsonView)> {
    match value {
        Some(found) => members.push((key, found)),
        None => members,
    }
}

fn put_text(members: &mut Vec<(String, Json)>, key: &str, value: Option<&str>)
    ensures
        json::members_view(final(members)@) == with_text(
            json::members_view(old(members)@),
            key@,
            text::opt_str(value),
        ),
{
    match value {
        Some(found) => json::put(members, key, json::text_json(found)),
        None => {},
    }
}

fn put_part(members: &mut Vec<(String, Json)>, key: &str, value: Option<&Json>)
    ensures
        json::members_view(final(members)@) == with_part(
            json::members_view(old(members)@),
            key@,
            json::opt_ref_view(value),
        ),
{
    match value {
        Some(found) => json::put(members, key, found.copy()),
        None => {},
    }
}

/// The members that every request for a generation opens with.
pub open spec fn request_head(
    job_id: Seq<char>,
    model_id: Seq<char>,
    prompt: Seq<char>,
    negative_prompt: Option<Seq<char>>,
) -> Seq<(Seq<char>, JsonView)> {
    seq![
        ("job_id"@, JsonView::Text(job_id)),
        ("model_id"@, JsonView::Text(model_id)),
        ("prompt"@, JsonView::Text(prompt)),
        ("negative_prompt"@, json::nullable_text(negative_prompt)),
    ]
}

fn head_members(job_id: &str, model_id: &str, prompt: &str, negative_prompt: Option<&str>) -> (members:
    Vec<(String, Json)>)
    ensures
        json::members_view(members@) == request_head(
            job_id@,
            model_id@,
            prompt@,
            text::opt_str(negative_prompt),
        ),
{
    let mut members: Vec<(String, Json)> = Vec::new();
    json::put(&mut members, "job_id", json::text_json(job_id));
    json::put(&mut members, "model_id", json::text_json(model_id));
    json::put(&mut members, "prompt", json::text_json(prompt));
    json::put(&mut members, "negative_prompt", json::opt_text_json(negative_prompt));
    assert(json::members_view(members@) =~= request_head(
        job_id@,
        model_id@,
        prompt@,
        text::opt_str(negative_prompt),
    ));
    members
}

/// What is asked of the worker for an image.
pub struct ImageRequest<'a> {
    pub job_id: &'a str,
    pub model_id: &'a str,
    pub prompt: &'a str,
    pub negative_prompt: Option<&'a str>,
    pub quality: Option<&'a str>,
    pub output_relative_path: &'a str,
    pub input_path: Option<&'a str>,
    pub mask_path: Option<&'a str>,
    pub control_path: Option<&'a str>,
    pub capability: Option<&'a str>,
    pub preset: Option<&'a str>,
    pub advanced_parameters: Option<&'a Json>,
}

/// The body of a request for an image.
pub open spec fn image_body(request: ImageRequest) -> JsonView {
    let head = request_head(
        request.job_id@,
        request.model_id@,
        request.prompt@,
        text::opt_str(request.negative_prompt),
    ).push(("seed"@, JsonView::Null)).push(
        ("output_relative_path"@, JsonView::Text(request.output_relative_path@)),
    );
    let input = with_text(head, "input_path"@, text::opt_str(request.input_path));
    let mask = with_text(input, "mask_path"@, text::opt_str(request.mask_path));
    let control = with_text(mask, "control_path"@, text::opt_str(request.control_path));
    let capability = with_text(control, "capability"@, text::opt_str(request.capability));
    let quality = with_text(capability, "quality"@, text::opt_str(request.quality));
    let preset = with_text(quality, "preset"@, text::opt_str(request.preset));
    JsonView::Object(
        with_part(
            preset,
            "advanced_parameters"@,
            json::opt_ref_view(request.advanced_parameters),
        ),
    )
}

/// The body of a request for an image.
pub fn image_payload(request: &ImageRequest) -> (body: Json)
    ensures
        body@ == image_body(*request),
{
    let mut members = head_members(
        request.job_id,
        request.model_id,
        request.prompt,
        request.negative_prompt,
    );
    json::put(&mut members, "seed", Json::Null);
    json::put(&mut members, "output_relative_path", json::text_json(request.output_relative_path));
    put_text(&mut members, "input_path", request.input_path);
    put_text(&mut members, "mask_path", request.mask_path);
    put_text(&mut members, "control_path", request.control_path);
    put_text(&mut members, "capability", request.capability);
    put_text(&mut members, "quality", request.quality);
    put_text(&mut members, "preset", request.preset);
    put_part(&mut members, "advanced_parameters", request.advanced_parameters);
    json::object(members)
}

/// What is asked of the worker for a video.
pub struct VideoRequest<'a> {
    pub job_id: &'a str,
    pub model_id: &'a str,
    pub prompt: &'a str,
    pub negative_prompt: Option<&'a str>,
    pub output_relative_path: &'a str,
    pub input_path: Option<&'a str>,
    pub input_images: Option<&'a Json>,
    pub mask_path: Option<&'a str>,
    pub capability: Option<&'a str>,
    pub quality: &'a str,
    pub aspect_ratio: &'a str,
    pub duration_seconds: u32,
    pub fps: u32,
    pub audio: bool,
    pub preset: Option<&'a str>,
    pub advanced_parameters: Option<&'a Json>,
}

/// The body of a request for a video.
pub open spec fn video_body(request: VideoRequest) -> JsonView {
    let head = request_head(
        request.job_id@,
        request.model_id@,
        request.prompt@,
        text::opt_str(request.negative_prompt),
    ) + seq![
        ("quality"@, JsonView::Text(request.quality@)),
        ("aspect_ratio"@, JsonView::Text(request.aspect_ratio@)),
        ("duration_seconds"@, JsonView::Integer(request.duration_seconds as u64)),
        ("fps"@, JsonView::Integer(request.fps as u64)),
        ("seed"@, JsonView::Null),
        ("output_relative_path"@, JsonView::Text(request.output_relative_path@)),
        ("audio"@, JsonView::Bool(request.audio)),
    ];
    let input = with_text(head, "input_path"@, text::opt_str(request.input_path));
    let images = with_part(input, "input_images"@, json::opt_ref_view(request.input_images));
    let mask = with_text(images, "mask_path"@, text::opt_str(request.mask_path));
    let capability = with_text(mask, "capability"@, text::opt_str(request.capability));
    let preset = with_text(capability, "preset"@, text::opt_str(request.preset));
    JsonView::Object(
        with_part(
            preset,
            "advanced_parameters"@,
            json::opt_ref_view(request.advanced_parameters),
        ),
    )
}

/// The body of a request for a video.
pub fn video_payload(request: &VideoRequest) -> (body: Json)
    ensures
        body@ == video_body(*request),
{
    let mut members = head_members(
        request.job_id,
        request.model_id,
        request.prompt,
        request.negative_prompt,
    );
    let ghost head = json::members_view(members@);
    json::put(&mut members, "quality", json::text_json(request.quality));
    json::put(&mut members, "aspect_ratio", json::text_json(request.aspect_ratio));
    json::put(&mut members, "duration_seconds", Json::Integer(request.duration_seconds as u64));
    json::put(&mut members, "fps", Json::Integer(request.fps as u64));
    json::put(&mut members, "seed", Json::Null);
    json::put(&mut members, "output_relative_path", json::text_json(request.output_relative_path));
    json::put(&mut members, "audio", Json::Bool(request.audio));
    assert(json::members_view(members@) =~= head + seq![
        ("quality"@, JsonView::Text(request.quality@)),
        ("aspect_ratio"@, JsonView::Text(request.aspect_ratio@)),
        ("duration_seconds"@, JsonView::Integer(request.duration_seconds as u64)),
        ("fps"@, JsonView::Integer(request.fps as u64)),
        ("seed"@, JsonView::Null),
        ("output_relative_path"@, JsonView::Text(request.output_relative_path@)),
        ("audio"@, JsonView::Bool(request.audio)),
    ]);
    put_text(&mut members, "input_path", request.input_path);
    put_part(&mut members, "input_images", request.input_images);
    put_text(&mut members, "mask_path", request.mask_path);
    put_text(&mut members, "capability", request.capability);
    put_text(&mut members, "preset", request.preset);
    put_part(&mut members, "advanced_parameters", request.advanced_parameters);
    json::object(members)
}

/// The body of a request that names a model only.
pub fn model_payload(model_id: &str) -> (body: Json)
    ensures
        body@ == JsonView::Object(seq![("model_id"@, JsonView::Text(model_id@))]),
{
    let mut members: Vec<(String, Json)> = Vec::new();
    json::put(&mut members, "model_id", json::text_json(model_id));
    assert(json::members_view(members@) =~= seq![("model_id"@, JsonView::Text(model_id@))]);
    json::object(members)
}

/// The JSON form of a list of texts.
pub open spec fn text_list(list: Seq<Seq<char>>) -> JsonView {
    JsonView::List(Seq::new(list.len(), |i: int| JsonView::Text(list[i])))
}

/// The JSON form of a list of texts.
pub fn text_list_json(list: &Vec<String>) -> (value: Json)
    ensures
        value@ == text_list(text::texts(list@)),
{
    let mut items: Vec<Json> = Vec::new();
    for i in 0..list.len()
        invariant
            items@.len() == i,
            forall|j: int| 0 <= j < i ==> (#[trigger] items@[j])@ == JsonView::Text(list@[j]@),
    {
        items.push(json::text_json(list[i].as_str()));
    }
    assert(json::items_view(items@) =~= text_list(text::texts(list@))->List_0);
    json::list(items)
}

/// What is added to a model when it is installed.
#[derive(Debug)]
pub struct WorkerInstallOptions {
    /// A list of adapters.
    pub loras: Option<Json>,
    pub recipe: Option<Json>,
    /// The pack under trial that the installation is for.
    pub model_pack_candidate: Option<Json>,
}

/// What [`WorkerInstallOptions`] says.
#[verifier::ext_equal]
pub struct InstallOptionsView {
    pub loras: Option<JsonView>,
    pub recipe: Option<JsonView>,
    pub model_pack_candidate: Option<JsonView>,
}

impl View for WorkerInstallOptions {
    type V = InstallOptionsView;

    open spec fn view(&self) -> InstallOptionsView {
        InstallOptionsView {
            loras: json::opt_view(self.loras),
            recipe: json::opt_view(self.recipe),
            model_pack_candidate: json::opt_view(self.model_pack_candidate),
        }
    }
}

/// Nothing to add.
pub open spec fn no_options() -> InstallOptionsView {
    InstallOptionsView { loras: None, recipe: None, model_pack_candidate: None }
}

impl WorkerInstallOptions {
    /// Nothing to add.
    pub fn none() -> (options: Self)
        ensures
            options@ == no_options(),
    {
        WorkerInstallOptions { loras: None, recipe: None, model_pack_candidate: None }
    }
}

/// The body of a request to install a model: what it is and, where there is any,
/// what is added to it. An installation for a pack under trial is an experiment.
pub open spec fn install_body(
    model_id: Seq<char>,
    repository: Seq<char>,
    revision: Seq<char>,
    capabilities: Seq<Seq<char>>,
    options: InstallOptionsView,
) -> JsonView {
    let head = seq![
        ("model_id"@, JsonView::Text(model_id)),
        ("repository"@, JsonView::Text(repository)),
        ("revision"@, JsonView::Text(revision)),
        ("capabilities"@, text_list(capabilities)),
    ];
    let with_loras = with_part(head, "loras"@, options.loras);
    let with_recipe = with_part(with_loras, "recipe"@, options.recipe);
    let with_trial = with_part(
        with_recipe,
        "experimental"@,
        if options.model_pack_candidate is Some {
            Some(JsonView::Bool(true))
        } else {
            None
        },
    );
    JsonView::Object(with_part(with_trial, "model_pack_candidate"@, options.model_pack_candidate))
}

/// The body of a request to install a model.
pub fn install_payload(
    model_id: &str,
    repository: &str,
    revision: &str,
    capabilities: &Vec<String>,
    options: &WorkerInstallOptions,
) -> (body: Json)
    ensures
        body@ == install_body(
            model_id@,
            repository@,
            revision@,
            text::texts(capabilities@),
            options@,
        ),
{
    let mut members: Vec<(String, Json)> = Vec::new();
    json::put(&mut members, "model_id", json::text_json(model_id));
    json::put(&mut members, "repository", json::text_json(repository));
    json::put(&mut members, "revision", json::text_json(revision));
    json::put(&mut members, "capabilities", text_list_json(capabilities));
    assert(json::members_view(members@) =~= seq![
        ("model_id"@, JsonView::Text(model_id@)),
        ("repository"@, JsonView::Text(repository@)),
        ("revision"@, JsonView::Text(revision@)),
        ("capabilities"@, text_list(text::texts(capabilities@))),
    ]);
    put_part(&mut members, "loras", options.loras.as_ref());
    put_part(&mut members, "recipe", options.recipe.as_ref());
    if options.model_pack_candidate.is_some() {
        json::put(&mut members, "experimental", Json::Bool(true));
    }
    put_part(&mut members, "model_pack_candidate", options.model_pack_candidate.as_ref());
    json::object(members)
}

/// The body of a question whether a pipeline can run: the class of the pipeline
/// stands for its architecture too.
pub open spec fn compatibility_body(
    pipeline_class: Option<Seq<char>>,
    library_name: Option<Seq<char>>,
    pipeline_tag: Option<Seq<char>>,
    tags: Seq<Seq<char>>,
) -> JsonView {
    JsonView::Object(
        seq![
            ("pipeline_class"@, json::nullable_text(pipeline_class)),
            ("library_name"@, json::nullable_text(library_name)),
            ("pipeline_tag"@, json::nullable_text(pipeline_tag)),
            ("tags"@, text_list(tags)),
            (
                "architectures"@,
                text_list(
                    match pipeline_class {
                        Some(class) => seq![class],
                        None => Seq::empty(),
                    },
                ),
            ),
            ("base_models"@, text_list(Seq::empty())),
        ],
    )
}

/// The body of a question whether a pipeline can run.
pub fn compatibility_payload(
    pipeline_class: Option<&str>,
    library_name: Option<&str>,
    pipeline_tag: Option<&str>,
    tags: &Vec<String>,
) -> (body: Json)
    ensures
        body@ == compatibility_body(
            text::opt_str(pipeline_class),
            text::opt_str(library_name),
            text::opt_str(pipeline_tag),
            text::texts(tags@),
        ),
{
    let mut architectures: Vec<String> = Vec::new();
    match pipeline_class {
        Some(class) => architectures.push(class.to_owned()),
        None => {},
    }
    let none: Vec<String> = Vec::new();
    let ghost classes = match text::opt_str(pipeline_class) {
        Some(class) => seq![class],
        None => Seq::empty(),
    };
    assert(text::texts(architectures@) =~= classes);
    assert(text::texts(none@) =~= Seq::<Seq<char>>::empty());
    let mut members: Vec<(String, Json)> = Vec::new();
    json::put(&mut members, "pipeline_class", json::opt_text_json(pipeline_class));
    json::put(&mut members, "library_name", json::opt_text_json(library_name));
    json::put(&mut members, "pipeline_tag", json::opt_text_json(pipeline_tag));
    json::put(&mut members, "tags", text_list_json(tags));
    json::put(&mut members, "architectures", text_list_json(&architectures));
    json::put(&mut members, "base_models", text_list_json(&none));
    let body = json::object(members);
    assert(json::members_view(members@) =~= compatibility_body(
        text::opt_str(pipeline_class),
        text::opt_str(library_name),
        text::opt_str(pipeline_tag),
        text::texts(tags@),
    )->Object_0);
    body
}

// ---------------------------------------------------------------------------
// Following a job
// ---------------------------------------------------------------------------

/// The patience with which a worker is waited for, in seconds, by its setting.
pub open spec fn start_patience(setting: Option<Seq<char>>) -> u64 {
    let seconds = match setting {
        Some(value) => match text::number_in(value) {
            Some(number) => number,
            None => 30,
        },
        None => 30,
    };
    if seconds < 5 {
        5
    } else if seconds > 300 {
        300
    } else {
        seconds
    }
}

/// How long a worker may take to accept a job, in seconds.
pub fn start_timeout_seconds(setting: Option<&str>) -> (seconds: u64)
    ensures
        seconds == start_patience(text::opt_str(setting)),
{
    let wanted: u64 = match setting {
        Some(value) => match text::parse_u64(value) {
            Some(number) => number,
            None => 30,
        },
        None => 30,
    };
    if wanted < 5 {
        5
    } else if wanted > 300 {
        300
    } else {
        wanted
    }
}

/// What follows from a look at a job of the worker.
pub enum Watch {
    /// The job runs: its progress is reported.
    Report(Report),
    /// The job failed.
    Fail(String),
    /// The worker did not accept the job in time: it is cancelled there.
    GiveUp(String),
    /// Nothing is known yet.
    Wait,
}

/// What a job that the worker could not do is said to have failed of.
pub open spec fn worker_failure(status: WorkerJobView) -> Seq<char> {
    (match status.error_code {
        Some(code) => code,
        None => "GENERATION_FAILED"@,
    }) + ": "@ + (match status.error {
        Some(error) => error,
        None => "Le worker a échoué"@,
    })
}

/// Decides what follows from a look at a job of the worker. Once the worker has
/// told of the job, the job is `accepted` and silence is no longer a refusal.
pub fn watch(
    looked_up: &Result<WorkerJobStatus, String>,
    accepted: bool,
    deadline_passed: bool,
    timeout_seconds: u64,
) -> (step: Watch)
    ensures
        match looked_up {
            Ok(status) => if status@.state == "FAILED"@ {
                step matches Watch::Fail(message) && message@ == worker_failure(status@)
            } else {
                step matches Watch::Report(report) && report@ == run::report_of(
                    JobStatus::Running,
                    "generating"@,
                    if status.progress < 95 {
                        status.progress
                    } else {
                        95
                    },
                    "Inférence mesurée par le Worker"@,
                )
            },
            Err(_) => if !accepted && deadline_passed {
                step matches Watch::GiveUp(message) && message@
                    == "WORKER_START_TIMEOUT: job non accepté après "@ + text::decimal(
                    timeout_seconds as nat,
                ) + " secondes"@
            } else {
                step == Watch::Wait
            },
        },
{
    match looked_up {
        Ok(status) => {
            if *status.state.as_str() == *"FAILED" {
                let mut message = match &status.error_code {
                    Some(code) => code.clone(),
                    None => "GENERATION_FAILED".to_owned(),
                };
                message.append(": ");
                match &status.error {
                    Some(error) => message.append(error.as_str()),
                    None => message.append("Le worker a échoué"),
                }
                Watch::Fail(message)
            } else {
                let progress: u8 = if status.progress < 95 {
                    status.progress
                } else {
                    95
                };
                Watch::Report(
                    run::new_report(
                        JobStatus::Running,
                        "generating",
                        progress,
                        "Inférence mesurée par le Worker",
                    ),
                )
            }
        },
        Err(_) => if !accepted && deadline_passed {
            Watch::GiveUp(
                text::concat3(
                    "WORKER_START_TIMEOUT: job non accepté après ",
                    text::decimal_text(timeout_seconds).as_str(),
                    " secondes",
                ),
            )
        } else {
            Watch::Wait
        },
    }
}

// ---------------------------------------------------------------------------
// What the worker attests
// ---------------------------------------------------------------------------

/// Whether the worker says that a model can be used.
pub open spec fn attests_ready(status: ModelStatusView) -> bool {
    status.state == "READY"@ && status.weights_valid && status.runtime_available
        && status.runtime_compatible
}

/// Whether the worker says that a model can be used.
pub fn worker_reports_ready(status: &WorkerModelStatus) -> (ready: bool)
    ensures
        ready == attests_ready(status@),
{
    *status.state.as_str() == *"READY" && status.weights_valid && status.runtime_available
        && status.runtime_compatible
}

// ---------------------------------------------------------------------------
// Measurements
// ---------------------------------------------------------------------------

/// A measurement, with the model and the revision that it is of.
#[derive(Debug)]
pub struct HardwareBenchmark {
    pub model_id: String,
    pub revision: String,
    pub gpu: String,
    pub vram_idle_bytes: u64,
    pub vram_after_load_bytes: u64,
    pub vram_peak_bytes: u64,
    pub ram_peak_bytes: Option<u64>,
    pub runtime: String,
    pub precision: String,
    pub resolution_width: Option<u32>,
    pub resolution_height: Option<u32>,
    pub frames: Option<u32>,
    pub duration_seconds: Option<Real>,
    pub fps: Option<Real>,
    pub batch: u32,
    pub attention_implementation: Option<String>,
    pub vae_tiling: bool,
    pub cpu_offload: bool,
    pub model_offload: bool,
    pub inference_seconds: Option<Real>,
    pub measured_at: u64,
}

/// What [`HardwareBenchmark`] says.
#[verifier::ext_equal]
pub struct BenchmarkView {
    pub model_id: Seq<char>,
    pub revision: Seq<char>,
    pub gpu: Seq<char>,
    pub vram_idle_bytes: u64,
    pub vram_after_load_bytes: u64,
    pub vram_peak_bytes: u64,
    pub ram_peak_bytes: Option<u64>,
    pub runtime: Seq<char>,
    pub precision: Seq<char>,
    pub resolution_width: Option<u32>,
    pub resolution_height: Option<u32>,
    pub frames: Option<u32>,
    pub duration_seconds: Option<Real>,
    pub fps: Option<Real>,
    pub batch: u32,
    pub attention_implementation: Option<Seq<char>>,
    pub vae_tiling: bool,
    pub cpu_offload: bool,
    pub model_offload: bool,
    pub inference_seconds: Option<Real>,
    pub measured_at: u64,
}

impl View for HardwareBenchmark {
    type V = BenchmarkView;

    open spec fn view(&self) -> BenchmarkView {
        BenchmarkView {
            model_id: self.model_id@,
            revision: self.revision@,
            gpu: self.gpu@,
            vram_idle_bytes: self.vram_idle_bytes,
            vram_after_load_bytes: self.vram_after_load_bytes,
            vram_peak_bytes: self.vram_peak_bytes,
            ram_peak_bytes: self.ram_peak_bytes,
            runtime: self.runtime@,
            precision: self.precision@,
            resolution_width: self.resolution_width,
            resolution_height: self.resolution_height,
            frames: self.frames,
            duration_seconds: self.duration_seconds,
            fps: self.fps,
            batch: self.batch,
            attention_implementation: text::opt(self.attention_implementation),
            vae_tiling: self.vae_tiling,
            cpu_offload: self.cpu_offload,
            model_offload: self.model_offload,
            inference_seconds: self.inference_seconds,
            measured_at: self.measured_at,
        }
    }
}

impl HardwareBenchmark {
    /// A copy of the value.
    pub fn copy(&self) -> (copy: Self)
        ensures
            copy@ == self@,
    {
        HardwareBenchmark {
            model_id: self.model_id.clone(),
            revision: self.revision.clone(),
            gpu: self.gpu.clone(),
            vram_idle_bytes: self.vram_idle_bytes,
            vram_after_load_bytes: self.vram_after_load_bytes,
            vram_peak_bytes: self.vram_peak_bytes,
            ram_peak_bytes: self.ram_peak_bytes,
            runtime: self.runtime.clone(),
            precision: self.precision.clone(),
            resolution_width: self.resolution_width,
            resolution_height: self.resolution_height,
            frames: self.frames,
            duration_seconds: self.duration_seconds,
            fps: self.fps,
            batch: self.batch,
            attention_implementation: text::copy_opt(&self.attention_implementation),
            vae_tiling: self.vae_tiling,
            cpu_offload: self.cpu_offload,
            model_offload: self.model_offload,
            inference_seconds: self.inference_seconds,
            measured_at: self.measured_at,
        }
    }
}

/// An observation as a measurement of a model.
pub open spec fn measured(
    model_id: Seq<char>,
    revision: Seq<char>,
    observation: ObservationView,
    now: u64,
) -> BenchmarkView {
    BenchmarkView {
        model_id,
        revision,
        gpu: observation.gpu,
        vram_idle_bytes: observation.vram_idle_bytes,
        vram_after_load_bytes: observation.vram_after_load_bytes,
        vram_peak_bytes: observation.vram_peak_bytes,
        ram_peak_bytes: observation.ram_peak_bytes,
        runtime: observation.runtime,
        precision: observation.precision,
        resolution_width: observation.resolution_width,
        resolution_height: observation.resolution_height,
        frames: observation.frames,
        duration_seconds: observation.duration_seconds,
        fps: observation.fps,
        batch: observation.batch,
        attention_implementation: observation.attention_implementation,
        vae_tiling: observation.vae_tiling,
        cpu_offload: observation.cpu_offload,
        model_offload: observation.model_offload,
        inference_seconds: observation.inference_seconds,
        measured_at: now,
    }
}

/// Completes what the worker observed with the public identity of the model.
pub fn benchmark_of(
    model_id: &str,
    revision: &str,
    observation: &WorkerBenchmarkObservation,
    now: u64,
) -> (benchmark: HardwareBenchmark)
    ensures
        benchmark@ == measured(model_id@, revision@, observation@, now),
{
    HardwareBenchmark {
        model_id: model_id.to_owned(),
        revision: revision.to_owned(),
        gpu: observation.gpu.clone(),
        vram_idle_bytes: observation.vram_idle_bytes,
        vram_after_load_bytes: observation.vram_after_load_bytes,
        vram_peak_bytes: observation.vram_peak_bytes,
        ram_peak_bytes: observation.ram_peak_bytes,
        runtime: observation.runtime.clone(),
        precision: observation.precision.clone(),
        resolution_width: observation.resolution_width,
        resolution_height: observation.resolution_height,
        frames: observation.frames,
        duration_seconds: observation.duration_seconds,
        fps: observation.fps,
        batch: observation.batch,
        attention_implementation: text::copy_opt(&observation.attention_implementation),
        vae_tiling: observation.vae_tiling,
        cpu_offload: observation.cpu_offload,
        model_offload: observation.model_offload,
        inference_seconds: observation.inference_seconds,
        measured_at: now,
    }
}

pub proof fn lemma_names_of_members()
    ensures
        "job_id"@.len() == 6 && "job_id"@[0] == 'j',
        "model_id"@.len() == 8 && "model_id"@[0] == 'm',
        "prompt"@.len() == 6 && "prompt"@[0] == 'p',
        "negative_prompt"@.len() == 15,
        "seed"@.len() == 4 && "seed"@[0] == 's',
        "output_relative_path"@.len() == 20,
        "input_path"@.len() == 10 && "input_path"@[0] == 'i',
        "mask_path"@.len() == 9 && "mask_path"@[0] == 'm',
        "control_path"@.len() == 12 && "control_path"@[0] == 'c',
        "capability"@.len() == 10 && "capability"@[0] == 'c',
        "quality"@.len() == 7,
        "preset"@.len() == 6 && "preset"@[0] == 'p' && "preset"@[2] == 'e' && "prompt"@[2] == 'o',
        "advanced_parameters"@.len() == 19,
        "aspect_ratio"@.len() == 12 && "aspect_ratio"@[0] == 'a',
        "duration_seconds"@.len() == 16,
        "fps"@.len() == 3,
        "audio"@.len() == 5 && "audio"@[0] == 'a',
        "input_images"@.len() == 12 && "input_images"@[0] == 'i',
        "repository"@.len() == 10 && "repository"@[0] == 'r',
        "revision"@.len() == 8 && "revision"@[0] == 'r',
        "capabilities"@.len() == 12 && "capabilities"@[0] == 'c',
        "loras"@.len() == 5 && "loras"@[0] == 'l',
        "recipe"@.len() == 6 && "recipe"@[0] == 'r',
        "experimental"@.len() == 12 && "experimental"@[0] == 'e',
        "model_pack_candidate"@.len() == 20 && "model_pack_candidate"@[0] == 'm'
            && "output_relative_path"@[0] == 'o',
        "tags"@.len() == 4 && "tags"@[0] == 't',
        "library_name"@.len() == 12 && "library_name"@[0] == 'l',
        "pipeline_tag"@.len() == 12 && "pipeline_tag"@[0] == 'p',
        "pipeline_class"@.len() == 14,
        "architectures"@.len() == 13,
        "base_models"@.len() == 11,
{
    reveal_strlit("job_id");
    reveal_strlit("model_id");
    reveal_strlit("prompt");
    reveal_strlit("negative_prompt");
    reveal_strlit("seed");
    reveal_strlit("output_relative_path");
    reveal_strlit("input_path");
    reveal_strlit("mask_path");
    reveal_strlit("control_path");
    reveal_strlit("capability");
    reveal_strlit("quality");
    reveal_strlit("preset");
    reveal_strlit("advanced_parameters");
    reveal_strlit("aspect_ratio");
    reveal_strlit("duration_seconds");
    reveal_strlit("fps");
    reveal_strlit("audio");
    reveal_strlit("input_images");
    reveal_strlit("repository");
    reveal_strlit("revision");
    reveal_strlit("capabilities");
    reveal_strlit("loras");
    reveal_strlit("recipe");
    reveal_strlit("experimental");
    reveal_strlit("model_pack_candidate");
    reveal_strlit("tags");
    reveal_strlit("library_name");
    reveal_strlit("pipeline_tag");
    reveal_strlit("pipeline_class");
    reveal_strlit("architectures");
    reveal_strlit("base_models");
}

/// What the common part of a request says under a name.
pub proof fn lemma_request_head(
    job_id: Seq<char>,
    model_id: Seq<char>,
    prompt: Seq<char>,
    negative_prompt: Option<Seq<char>>,
    key: Seq<char>,
)
    ensures
        json::lookup(request_head(job_id, model_id, prompt, negative_prompt), key) == if key
            == "job_id"@ {
            Some(JsonView::Text(job_id))
        } else if key == "model_id"@ {
            Some(JsonView::Text(model_id))
        } else if key == "prompt"@ {
            Some(JsonView::Text(prompt))
        } else if key == "negative_prompt"@ {
            Some(json::nullable_text(negative_prompt))
        } else {
            None
        },
{
    let head = request_head(job_id, model_id, prompt, negative_prompt);
    member::lemma_members(head);
    reveal_with_fuel(member::first_named, 6);
    assert(head.len() == 4);
}

/// What a document says under a name once a text may have been added.
pub broadcast proof fn lemma_with_text(
    members: Seq<(Seq<char>, JsonView)>,
    name: Seq<char>,
    value: Option<Seq<char>>,
    key: Seq<char>,
)
    ensures
        #[trigger] json::lookup(with_text(members, name, value), key) == match json::lookup(
            members,
            key,
        ) {
            Some(found) => Some(found),
            None => if name == key && value is Some {
                Some(JsonView::Text(value->0))
            } else {
                None
            },
        },
{
    if value is Some {
        member::lemma_member_added(members, name, JsonView::Text(value->0), key);
    }
}

/// What a document says under a name once a part may have been added.
pub broadcast proof fn lemma_with_part(
    members: Seq<(Seq<char>, JsonView)>,
    name: Seq<char>,
    value: Option<JsonView>,
    key: Seq<char>,
)
    ensures
        #[trigger] json::lookup(with_part(members, name, value), key) == match json::lookup(
            members,
            key,
        ) {
            Some(found) => Some(found),
            None => if name == key {
                value
            } else {
                None
            },
        },
{
    if value is Some {
        member::lemma_member_added(members, name, value->0, key);
    }
}

pub broadcast group group_parts {
    lemma_with_text,
    lemma_with_part,
    member::lemma_member_added,
    member::lemma_members_joined,
}

proof fn lemma_picture_member(request: ImageRequest, key: Seq<char>)
    ensures
        image_body(request).member(key) == if key == "job_id"@ {
            Some(JsonView::Text(request.job_id@))
        } else if key == "model_id"@ {
            Some(JsonView::Text(request.model_id@))
        } else if key == "prompt"@ {
            Some(JsonView::Text(request.prompt@))
        } else if key == "negative_prompt"@ {
            Some(json::nullable_text(text::opt_str(request.negative_prompt)))
        } else if key == "seed"@ {
            Some(JsonView::Null)
        } else if key == "output_relative_path"@ {
            Some(JsonView::Text(request.output_relative_path@))
        } else if key == "input_path"@ && request.input_path is Some {
            Some(JsonView::Text(request.input_path->0@))
        } else if key == "mask_path"@ && request.mask_path is Some {
            Some(JsonView::Text(request.mask_path->0@))
        } else if key == "control_path"@ && request.control_path is Some {
            Some(JsonView::Text(request.control_path->0@))
        } else if key == "capability"@ && request.capability is Some {
            Some(JsonView::Text(request.capability->0@))
        } else if key == "quality"@ && request.quality is Some {
            Some(JsonView::Text(request.quality->0@))
        } else if key == "preset"@ && request.preset is Some {
            Some(JsonView::Text(request.preset->0@))
        } else if key == "advanced_parameters"@ {
            json::opt_ref_view(request.advanced_parameters)
        } else {
            None
        },
{
    broadcast use group_parts;

    lemma_request_head(
        request.job_id@,
        request.model_id@,
        request.prompt@,
        text::opt_str(request.negative_prompt),
        key,
    );
}

/// The body of a request for a picture tells the worker all that the request says,
/// each thing under its name, and names nothing that the request leaves out.
pub proof fn law_picture_requests_are_told_in_full(request: ImageRequest)
    ensures
        ({
            let body = image_body(request);
            &&& body.text_member("job_id"@) == Some(request.job_id@)
            &&& body.text_member("model_id"@) == Some(request.model_id@)
            &&& body.text_member("prompt"@) == Some(request.prompt@)
            &&& body.text_member("negative_prompt"@) == text::opt_str(request.negative_prompt)
            &&& body.text_member("output_relative_path"@) == Some(request.output_relative_path@)
            &&& body.text_member("input_path"@) == text::opt_str(request.input_path)
            &&& body.text_member("mask_path"@) == text::opt_str(request.mask_path)
            &&& body.text_member("control_path"@) == text::opt_str(request.control_path)
            &&& body.text_member("capability"@) == text::opt_str(request.capability)
            &&& body.text_member("quality"@) == text::opt_str(request.quality)
            &&& body.text_member("preset"@) == text::opt_str(request.preset)
            &&& body.member("advanced_parameters"@) == json::opt_ref_view(
                request.advanced_parameters,
            )
        }),
{
    lemma_names_of_members();
    lemma_picture_member(request, "job_id"@);
    lemma_picture_member(request, "model_id"@);
    lemma_picture_member(request, "prompt"@);
    lemma_picture_member(request, "negative_prompt"@);
    lemma_picture_member(request, "output_relative_path"@);
    lemma_picture_member(request, "input_path"@);
    lemma_picture_member(request, "mask_path"@);
    lemma_picture_member(request, "control_path"@);
    lemma_picture_member(request, "capability"@);
    lemma_picture_member(request, "quality"@);
    lemma_picture_member(request, "preset"@);
    lemma_picture_member(request, "advanced_parameters"@);
}

/// What the part of a request that is told of a video says under a name.
pub proof fn lemma_video_part(
    quality: Seq<char>,
    ratio: Seq<char>,
    seconds: u32,
    fps: u32,
    path: Seq<char>,
    audio: bool,
    key: Seq<char>,
)
    ensures
        json::lookup(
            seq![
                ("quality"@, JsonView::Text(quality)),
                ("aspect_ratio"@, JsonView::Text(ratio)),
                ("duration_seconds"@, JsonView::Integer(seconds as u64)),
                ("fps"@, JsonView::Integer(fps as u64)),
                ("seed"@, JsonView::Null),
                ("output_relative_path"@, JsonView::Text(path)),
                ("audio"@, JsonView::Bool(audio)),
            ],
            key,
        ) == if key == "quality"@ {
            Some(JsonView::Text(quality))
        } else if key == "aspect_ratio"@ {
            Some(JsonView::Text(ratio))
        } else if key == "duration_seconds"@ {
            Some(JsonView::Integer(seconds as u64))
        } else if key == "fps"@ {
            Some(JsonView::Integer(fps as u64))
        } else if key == "seed"@ {
            Some(JsonView::Null)
        } else if key == "output_relative_path"@ {
            Some(JsonView::Text(path))
        } else if key == "audio"@ {
            Some(JsonView::Bool(audio))
        } else {
            None
        },
{
    let part = seq![
        ("quality"@, JsonView::Text(quality)),
        ("aspect_ratio"@, JsonView::Text(ratio)),
        ("duration_seconds"@, JsonView::Integer(seconds as u64)),
        ("fps"@, JsonView::Integer(fps as u64)),
        ("seed"@, JsonView::Null),
        ("output_relative_path"@, JsonView::Text(path)),
        ("audio"@, JsonView::Bool(audio)),
    ];
    member::lemma_members(part);
    reveal_with_fuel(member::first_named, 9);
    assert(part.len() == 7);
}

proof fn lemma_video_member(request: VideoRequest, key: Seq<char>)
    ensures
        video_body(request).member(key) == if key == "job_id"@ {
            Some(JsonView::Text(request.job_id@))
        } else if key == "model_id"@ {
            Some(JsonView::Text(request.model_id@))
        } else if key == "prompt"@ {
            Some(JsonView::Text(request.prompt@))
        } else if key == "negative_prompt"@ {
            Some(json::nullable_text(text::opt_str(request.negative_prompt)))
        } else if key == "quality"@ {
            Some(JsonView::Text(request.quality@))
        } else if key == "aspect_ratio"@ {
            Some(JsonView::Text(request.aspect_ratio@))
        } else if key == "duration_seconds"@ {
            Some(JsonView::Integer(request.duration_seconds as u64))
        } else if key == "fps"@ {
            Some(JsonView::Integer(request.fps as u64))
        } else if key == "seed"@ {
            Some(JsonView::Null)
        } else if key == "output_relative_path"@ {
            Some(JsonView::Text(request.output_relative_path@))
        } else if key == "audio"@ {
            Some(JsonView::Bool(request.audio))
        } else if key == "input_path"@ && request.input_path is Some {
            Some(JsonView::Text(request.input_path->0@))
        } else if key == "input_images"@ && request.input_images is Some {
            Some(request.input_images->0@)
        } else if key == "mask_path"@ && request.mask_path is Some {
            Some(JsonView::Text(request.mask_path->0@))
        } else if key == "capability"@ && request.capability is Some {
            Some(JsonView::Text(request.capability->0@))
        } else if key == "preset"@ && request.preset is Some {
            Some(JsonView::Text(request.preset->0@))
        } else if key == "advanced_parameters"@ {
            json::opt_ref_view(request.advanced_parameters)
        } else {
            None
        },
{
    broadcast use group_parts;

    lemma_request_head(
        request.job_id@,
        request.model_id@,
        request.prompt@,
        text::opt_str(request.negative_prompt),
        key,
    );
    lemma_video_part(
        request.quality@,
        request.aspect_ratio@,
        request.duration_seconds,
        request.fps,
        request.output_relative_path@,
        request.audio,
        key,
    );
}

/// The body of a request for a video tells the worker all that the request says,
/// each thing under its name, and names nothing that the request leaves out.
pub proof fn law_video_requests_are_told_in_full(request: VideoRequest)
    ensures
        ({
            let body = video_body(request);
            &&& body.text_member("job_id"@) == Some(request.job_id@)
            &&& body.text_member("model_id"@) == Some(request.model_id@)
            &&& body.text_member("prompt"@) == Some(request.prompt@)
            &&& body.text_member("negative_prompt"@) == text::opt_str(request.negative_prompt)
            &&& body.text_member("quality"@) == Some(request.quality@)
            &&& body.text_member("aspect_ratio"@) == Some(request.aspect_ratio@)
            &&& body.member("duration_seconds"@) == Some(
                JsonView::Integer(request.duration_seconds as u64),
            )
            &&& body.member("fps"@) == Some(JsonView::Integer(request.fps as u64))
            &&& body.member("audio"@) == Some(JsonView::Bool(request.audio))
            &&& body.text_member("output_relative_path"@) == Some(request.output_relative_path@)
            &&& body.text_member("input_path"@) == text::opt_str(request.input_path)
            &&& body.member("input_images"@) == json::opt_ref_view(request.input_images)
            &&& body.text_member("mask_path"@) == text::opt_str(request.mask_path)
            &&& body.text_member("capability"@) == text::opt_str(request.capability)
            &&& body.text_member("preset"@) == text::opt_str(request.preset)
            &&& body.member("advanced_parameters"@) == json::opt_ref_view(
                request.advanced_parameters,
            )
        }),
{
    lemma_names_of_members();
    lemma_video_member(request, "job_id"@);
    lemma_video_member(request, "model_id"@);
    lemma_video_member(request, "prompt"@);
    lemma_video_member(request, "negative_prompt"@);
    lemma_video_member(request, "quality"@);
    lemma_video_member(request, "aspect_ratio"@);
    lemma_video_member(request, "duration_seconds"@);
    lemma_video_member(request, "fps"@);
    lemma_video_member(request, "audio"@);
    lemma_video_member(request, "output_relative_path"@);
    lemma_video_member(request, "input_path"@);
    lemma_video_member(request, "input_images"@);
    lemma_video_member(request, "mask_path"@);
    lemma_video_member(request, "capability"@);
    lemma_video_member(request, "preset"@);
    lemma_video_member(request, "advanced_parameters"@);
}

/// An installation is asked for with the model, the repository, the revision and
/// the capabilities that it is for; what is added to the model is told where there
/// is some, and a candidate makes it a trial.
pub proof fn law_installations_are_told_in_full(
    model_id: Seq<char>,
    repository: Seq<char>,
    revision: Seq<char>,
    capabilities: Seq<Seq<char>>,
    options: InstallOptionsView,
)
    ensures
        ({
            let body = install_body(model_id, repository, revision, capabilities, options);
            &&& body.text_member("model_id"@) == Some(model_id)
            &&& body.text_member("repository"@) == Some(repository)
            &&& body.text_member("revision"@) == Some(revision)
            &&& body.member("capabilities"@) matches Some(JsonView::List(items)) && items.len()
                == capabilities.len() && forall|i: int|
                0 <= i < items.len() ==> #[trigger] items[i] == JsonView::Text(capabilities[i])
            &&& body.member("loras"@) == options.loras
            &&& body.member("recipe"@) == options.recipe
            &&& body.member("model_pack_candidate"@) == options.model_pack_candidate
            &&& options.model_pack_candidate is Some ==> body.member("experimental"@) == Some(
                JsonView::Bool(true),
            )
            &&& options.model_pack_candidate is None ==> body.member("experimental"@) is None
        }),
{
    broadcast use member::group_members;

    lemma_names_of_members();
    reveal_with_fuel(member::first_named, 13);
    member::lemma_members(
        seq![
            ("model_id"@, JsonView::Text(model_id)),
            ("repository"@, JsonView::Text(repository)),
            ("revision"@, JsonView::Text(revision)),
            ("capabilities"@, text_list(capabilities)),
        ],
    );
}

/// What is asked of the compatibility of a model is told under its names.
pub proof fn law_compatibility_is_asked_in_full(
    pipeline_class: Option<Seq<char>>,
    library_name: Option<Seq<char>>,
    pipeline_tag: Option<Seq<char>>,
    tags: Seq<Seq<char>>,
)
    ensures
        ({
            let body = compatibility_body(pipeline_class, library_name, pipeline_tag, tags);
            &&& body.text_member("pipeline_class"@) == pipeline_class
            &&& body.text_member("library_name"@) == library_name
            &&& body.text_member("pipeline_tag"@) == pipeline_tag
            &&& body.member("tags"@) matches Some(JsonView::List(items)) && items.len()
                == tags.len() && forall|i: int|
                0 <= i < items.len() ==> #[trigger] items[i] == JsonView::Text(tags[i])
            &&& body.member("architectures"@) matches Some(JsonView::List(items)) && (
            pipeline_class matches Some(class) ==> items == seq![JsonView::Text(class)]) && (
            pipeline_class is None ==> items.len() == 0)
        }),
{
    broadcast use member::group_members;

    lemma_names_of_members();
    reveal_with_fuel(member::first_named, 13);
    member::lemma_members(
        compatibility_body(pipeline_class, library_name, pipeline_tag, tags)->Object_0,
    );
    let body = compatibility_body(pipeline_class, library_name, pipeline_tag, tags);
    if pipeline_class is Some {
        assert(body.member("architectures"@) == Some(text_list(seq![pipeline_class->0])));
        assert(text_list(seq![pipeline_class->0])->List_0 =~= seq![
            JsonView::Text(pipeline_class->0),
        ]);
    }
}

/// A worker that answers with an error is quoted with its code, its words and the
/// status, and one that says nothing of the kind with the status and its answer.
pub proof fn law_refusals_quote_the_worker(
    status: u16,
    payload: Option<WorkerErrorView>,
    body: Seq<char>,
)
    ensures
        payload matches Some(told) ==> {
            &&& told.code matches Some(code) ==> text::opens(
                refusal(status, payload, body),
                code + ": "@ + told.error,
            )
            &&& told.code is None ==> text::opens(
                refusal(status, payload, body),
                "WORKER_ERROR: "@ + told.error,
            )
        },
        payload is None ==> refusal(status, payload, body) == "WORKER_HTTP_ERROR: worker HTTP "@
            + status_line(status) + ": "@ + body,
        successful(status) <==> status / 100 == 2,
        retry_word(Some(true)) == "retryable"@,
        retry_word(Some(false)) == "non-retryable"@,
        retry_word(None) == "unknown"@,
{
    reveal_strlit("WORKER_ERROR: ");
    reveal_strlit("WORKER_ERROR");
    reveal_strlit(": ");
    match payload {
        Some(told) => {
            let code = match told.code {
                Some(code) => code,
                None => "WORKER_ERROR"@,
            };
            let whole = refusal(status, payload, body);
            assert("WORKER_ERROR"@ + ": "@ =~= "WORKER_ERROR: "@);
            let head = code + ": "@ + told.error;
            assert(whole.take(head.len() as int) =~= head);
        },
        None => {},
    }
}

/// The worker is given at least 5 and at most 300 seconds to begin, as many as are
/// set in between, and 30 where nothing is set.
pub proof fn law_patience_is_bounded(setting: Option<Seq<char>>)
    ensures
        5 <= start_patience(setting) <= 300,
        setting is None ==> start_patience(setting) == 30,
        setting matches Some(value) ==> (text::number_in(value) matches Some(number) ==> (5
            <= number <= 300 ==> start_patience(setting) == number) && (number < 5
            ==> start_patience(setting) == 5) && (number > 300 ==> start_patience(setting) == 300)),
        setting matches Some(value) ==> text::number_in(value) is None ==> start_patience(setting)
            == 30,
{
}

/// A failure of a job is told with the code and the words of the worker.
pub proof fn law_failures_quote_the_worker(status: WorkerJobView)
    ensures
        status.error_code is Some && status.error is Some ==> worker_failure(status)
            == status.error_code->0 + ": "@ + status.error->0,
        status.error_code is None && status.error is Some ==> worker_failure(status)
            == "GENERATION_FAILED"@ + ": "@ + status.error->0,
{
}

/// A model is only attested where the worker says that it is ready, that its
/// weights are valid and that its runtime is there and fits.
pub proof fn law_attestation_needs_all(status: ModelStatusView)
    ensures
        attests_ready(status) <==> status.state == "READY"@ && status.weights_valid
            && status.runtime_available && status.runtime_compatible,
{
}

/// A measurement says of which model and revision it is, when it was made, and
/// what was observed.
pub proof fn law_measurements_keep_what_was_observed(
    model_id: Seq<char>,
    revision: Seq<char>,
    seen: ObservationView,
    now: u64,
)
    ensures
        ({
            let kept = measured(model_id, revision, seen, now);
            &&& kept.model_id == model_id && kept.revision == revision && kept.measured_at == now
            &&& kept.gpu == seen.gpu && kept.runtime == seen.runtime && kept.precision
                == seen.precision
            &&& kept.vram_idle_bytes == seen.vram_idle_bytes
            &&& kept.vram_after_load_bytes == seen.vram_after_load_bytes
            &&& kept.vram_peak_bytes == seen.vram_peak_bytes
            &&& kept.ram_peak_bytes == seen.ram_peak_bytes
            &&& kept.resolution_width == seen.resolution_width && kept.resolution_height
                == seen.resolution_height
            &&& kept.frames == seen.frames && kept.duration_seconds == seen.duration_seconds
                && kept.fps == seen.fps && kept.batch == seen.batch
            &&& kept.attention_implementation == seen.attention_implementation
            &&& kept.vae_tiling == seen.vae_tiling && kept.cpu_offload == seen.cpu_offload
                && kept.model_offload == seen.model_offload
            &&& kept.inference_seconds == seen.inference_seconds
        }),
{
}

} // verus!
