//! Generations: requests for images and videos, and how they are admitted.
use crate::capability;
use crate::capability::{GenerationMode, ModelCapability};
use crate::error;
use crate::error::ApiError;
use crate::identity;
use crate::job;
use crate::job::{ApplicationMode, Job, JobKind, JobView};
use crate::json::{Json, JsonView, Real};
use crate::lookup;
use crate::order;
use crate::pack;
use crate::pack::{ContractView, GenerationRuntimeContract};
use crate::settings::ApplicationProfile;
use crate::text;
use vstd::prelude::*;
use vstd::string::*;

verus! {

// ---------------------------------------------------------------------------
// Records
// ---------------------------------------------------------------------------

/// What an asset is.
#[derive(Clone, Copy, Debug, PartialEq, Eq, Structural)]
pub enum AssetKind {
    Image,
    Video,
    Audio,
}

impl AssetKind {
    /// The name of the value in documents.
    pub open spec fn name(self) -> Seq<char> {
        match self {
            AssetKind::Image => "IMAGE"@,
            AssetKind::Video => "VIDEO"@,
            AssetKind::Audio => "AUDIO"@,
        }
    }

    /// The name of the value in documents.
    pub fn api_name(&self) -> (name: &'static str)
        ensures
            name@ == self.name(),
    {
        match self {
            AssetKind::Image => "IMAGE",
            AssetKind::Video => "VIDEO",
            AssetKind::Audio => "AUDIO",
        }
    }
}

/// How far a generation is.
#[derive(Clone, Copy, Debug, PartialEq, Eq, Structural)]
pub enum GenerationStatus {
    Queued,
    Running,
    Completed,
    Failed,
    Cancelled,
}

impl GenerationStatus {
    /// The name of the value in documents.
    pub open spec fn name(self) -> Seq<char> {
        match self {
            GenerationStatus::Queued => "queued"@,
            GenerationStatus::Running => "running"@,
            GenerationStatus::Completed => "completed"@,
            GenerationStatus::Failed => "failed"@,
            GenerationStatus::Cancelled => "cancelled"@,
        }
    }

    /// The name of the value in documents.
    pub fn api_name(&self) -> (name: &'static str)
        ensures
            name@ == self.name(),
    {
        match self {
            GenerationStatus::Queued => "queued",
            GenerationStatus::Running => "running",
            GenerationStatus::Completed => "completed",
            GenerationStatus::Failed => "failed",
            GenerationStatus::Cancelled => "cancelled",
        }
    }
}

/// An image that a video starts from.
#[derive(Debug)]
pub struct GenerationInputImage {
    pub asset_id: u128,
    pub order: usize,
    pub role: String,
}

/// What [`GenerationInputImage`] says.
pub struct InputImageView {
    pub asset_id: u128,
    pub order: usize,
    pub role: Seq<char>,
}

impl View for GenerationInputImage {
    type V = InputImageView;

    open spec fn view(&self) -> InputImageView {
        InputImageView {
            asset_id: self.asset_id,
            order: self.order,
            role: self.role@,
        }
    }
}

impl GenerationInputImage {
    /// A copy of the value.
    pub fn copy(&self) -> (copy: Self)
        ensures
            copy@ == self@,
    {
        GenerationInputImage {
            asset_id: self.asset_id,
            order: self.order,
            role: self.role.clone(),
        }
    }
}

/// What a list of images says.
pub open spec fn images_view(list: Seq<GenerationInputImage>) -> Seq<InputImageView> {
    Seq::new(list.len(), |i: int| list[i]@)
}

/// A copy of a list of images.
pub fn copy_images(list: &Vec<GenerationInputImage>) -> (copy: Vec<GenerationInputImage>)
    ensures
        images_view(copy@) == images_view(list@),
{
    let mut copy: Vec<GenerationInputImage> = Vec::new();
    for i in 0..list.len()
        invariant
            copy@.len() == i,
            forall|j: int| 0 <= j < i ==> (#[trigger] copy@[j])@ == list@[j]@,
    {
        copy.push(list[i].copy());
    }
    assert(images_view(copy@) =~= images_view(list@));
    copy
}

/// A request for an image or a video, and what became of it.
#[derive(Debug)]
pub struct Generation {
    pub id: u128,
    pub job_id: Option<u128>,
    pub kind: AssetKind,
    pub mode: GenerationMode,
    pub capability: Option<ModelCapability>,
    pub prompt: String,
    pub negative_prompt: Option<String>,
    pub model_id: String,
    pub model_pack_id: Option<String>,
    pub engine: Option<String>,
    pub workflow: Option<String>,
    pub input_asset_id: Option<u128>,
    pub mask_asset_id: Option<u128>,
    pub control_asset_id: Option<u128>,
    pub input_images: Vec<GenerationInputImage>,
    pub output_asset_id: Option<u128>,
    pub status: GenerationStatus,
    pub progress: u8,
    pub error: Option<String>,
    pub error_code: Option<String>,
    pub error_retryable: bool,
    pub created_at: u64,
    pub updated_at: u64,
    pub duration_seconds: Option<u32>,
    pub requested_duration_seconds: Option<Real>,
    pub resolution: Option<String>,
    pub requested_quality: Option<String>,
    pub requested_preset: Option<String>,
    pub advanced_parameters: Json,
    pub requested_aspect_ratio: Option<String>,
    pub requested_fps: Option<u32>,
    pub requested_frames: Option<u32>,
    pub inference_frames: Option<u32>,
    pub actual_width: Option<u32>,
    pub actual_height: Option<u32>,
    pub actual_fps: Option<Real>,
    pub actual_frames: Option<u32>,
    pub actual_duration: Option<Real>,
    pub audio: bool,
    pub actual_audio: bool,
    pub audio_codec: Option<String>,
    pub audio_channels: Option<u32>,
    pub audio_sample_rate: Option<u32>,
}

/// What [`Generation`] says.
pub struct GenerationView {
    pub id: u128,
    pub job_id: Option<u128>,
    pub kind: AssetKind,
    pub mode: GenerationMode,
    pub capability: Option<ModelCapability>,
    pub prompt: Seq<char>,
    pub negative_prompt: Option<Seq<char>>,
    pub model_id: Seq<char>,
    pub model_pack_id: Option<Seq<char>>,
    pub engine: Option<Seq<char>>,
    pub workflow: Option<Seq<char>>,
    pub input_asset_id: Option<u128>,
    pub mask_asset_id: Option<u128>,
    pub control_asset_id: Option<u128>,
    pub input_images: Seq<InputImageView>,
    pub output_asset_id: Option<u128>,
    pub status: GenerationStatus,
    pub progress: u8,
    pub error: Option<Seq<char>>,
    pub error_code: Option<Seq<char>>,
    pub error_retryable: bool,
    pub created_at: u64,
    pub updated_at: u64,
    pub duration_seconds: Option<u32>,
    pub requested_duration_seconds: Option<Real>,
    pub resolution: Option<Seq<char>>,
    pub requested_quality: Option<Seq<char>>,
    pub requested_preset: Option<Seq<char>>,
    pub advanced_parameters: JsonView,
    pub requested_aspect_ratio: Option<Seq<char>>,
    pub requested_fps: Option<u32>,
    pub requested_frames: Option<u32>,
    pub inference_frames: Option<u32>,
    pub actual_width: Option<u32>,
    pub actual_height: Option<u32>,
    pub actual_fps: Option<Real>,
    pub actual_frames: Option<u32>,
    pub actual_duration: Option<Real>,
    pub audio: bool,
    pub actual_audio: bool,
    pub audio_codec: Option<Seq<char>>,
    pub audio_channels: Option<u32>,
    pub audio_sample_rate: Option<u32>,
}

impl View for Generation {
    type V = GenerationView;

    open spec fn view(&self) -> GenerationView {
        GenerationView {
            id: self.id,
            job_id: self.job_id,
            kind: self.kind,
            mode: self.mode,
            capability: self.capability,
            prompt: self.prompt@,
            negative_prompt: text::opt(self.negative_prompt),
            model_id: self.model_id@,
            model_pack_id: text::opt(self.model_pack_id),
            engine: text::opt(self.engine),
            workflow: text::opt(self.workflow),
            input_asset_id: self.input_asset_id,
            mask_asset_id: self.mask_asset_id,
            control_asset_id: self.control_asset_id,
            input_images: images_view(self.input_images@),
            output_asset_id: self.output_asset_id,
            status: self.status,
            progress: self.progress,
            error: text::opt(self.error),
            error_code: text::opt(self.error_code),
            error_retryable: self.error_retryable,
            created_at: self.created_at,
            updated_at: self.updated_at,
            duration_seconds: self.duration_seconds,
            requested_duration_seconds: self.requested_duration_seconds,
            resolution: text::opt(self.resolution),
            requested_quality: text::opt(self.requested_quality),
            requested_preset: text::opt(self.requested_preset),
            advanced_parameters: self.advanced_parameters@,
            requested_aspect_ratio: text::opt(self.requested_aspect_ratio),
            requested_fps: self.requested_fps,
            requested_frames: self.requested_frames,
            inference_frames: self.inference_frames,
            actual_width: self.actual_width,
            actual_height: self.actual_height,
            actual_fps: self.actual_fps,
            actual_frames: self.actual_frames,
            actual_duration: self.actual_duration,
            audio: self.audio,
            actual_audio: self.actual_audio,
            audio_codec: text::opt(self.audio_codec),
            audio_channels: self.audio_channels,
            audio_sample_rate: self.audio_sample_rate,
        }
    }
}

impl Generation {
    /// A copy of the value.
    pub fn copy(&self) -> (copy: Self)
        ensures
            copy@ == self@,
    {
        Generation {
            id: self.id,
            job_id: self.job_id,
            kind: self.kind,
            mode: self.mode,
            capability: self.capability,
            prompt: self.prompt.clone(),
            negative_prompt: text::copy_opt(&self.negative_prompt),
            model_id: self.model_id.clone(),
            model_pack_id: text::copy_opt(&self.model_pack_id),
            engine: text::copy_opt(&self.engine),
            workflow: text::copy_opt(&self.workflow),
            input_asset_id: self.input_asset_id,
            mask_asset_id: self.mask_asset_id,
            control_asset_id: self.control_asset_id,
            input_images: copy_images(&self.input_images),
            output_asset_id: self.output_asset_id,
            status: self.status,
            progress: self.progress,
            error: text::copy_opt(&self.error),
            error_code: text::copy_opt(&self.error_code),
            error_retryable: self.error_retryable,
            created_at: self.created_at,
            updated_at: self.updated_at,
            duration_seconds: self.duration_seconds,
            requested_duration_seconds: self.requested_duration_seconds,
            resolution: text::copy_opt(&self.resolution),
            requested_quality: text::copy_opt(&self.requested_quality),
            requested_preset: text::copy_opt(&self.requested_preset),
            advanced_parameters: self.advanced_parameters.copy(),
            requested_aspect_ratio: text::copy_opt(&self.requested_aspect_ratio),
            requested_fps: self.requested_fps,
            requested_frames: self.requested_frames,
            inference_frames: self.inference_frames,
            actual_width: self.actual_width,
            actual_height: self.actual_height,
            actual_fps: self.actual_fps,
            actual_frames: self.actual_frames,
            actual_duration: self.actual_duration,
            audio: self.audio,
            actual_audio: self.actual_audio,
            audio_codec: text::copy_opt(&self.audio_codec),
            audio_channels: self.audio_channels,
            audio_sample_rate: self.audio_sample_rate,
        }
    }
}

/// A request for an image.
#[derive(Debug)]
pub struct GenerateImageRequest {
    pub mode: GenerationMode,
    pub capability: Option<ModelCapability>,
    pub prompt: String,
    pub negative_prompt: Option<String>,
    pub model_id: Option<String>,
    pub quality: Option<String>,
    pub preset: Option<String>,
    pub advanced_parameters: Json,
    pub input_asset_id: Option<u128>,
    pub mask_asset_id: Option<u128>,
    pub control_asset_id: Option<u128>,
}

/// What [`GenerateImageRequest`] says.
pub struct ImageAskView {
    pub mode: GenerationMode,
    pub capability: Option<ModelCapability>,
    pub prompt: Seq<char>,
    pub negative_prompt: Option<Seq<char>>,
    pub model_id: Option<Seq<char>>,
    pub quality: Option<Seq<char>>,
    pub preset: Option<Seq<char>>,
    pub advanced_parameters: JsonView,
    pub input_asset_id: Option<u128>,
    pub mask_asset_id: Option<u128>,
    pub control_asset_id: Option<u128>,
}

impl View for GenerateImageRequest {
    type V = ImageAskView;

    open spec fn view(&self) -> ImageAskView {
        ImageAskView {
            mode: self.mode,
            capability: self.capability,
            prompt: self.prompt@,
            negative_prompt: text::opt(self.negative_prompt),
            model_id: text::opt(self.model_id),
            quality: text::opt(self.quality),
            preset: text::opt(self.preset),
            advanced_parameters: self.advanced_parameters@,
            input_asset_id: self.input_asset_id,
            mask_asset_id: self.mask_asset_id,
            control_asset_id: self.control_asset_id,
        }
    }
}

impl GenerateImageRequest {
    /// A copy of the value.
    pub fn copy(&self) -> (copy: Self)
        ensures
            copy@ == self@,
    {
        GenerateImageRequest {
            mode: self.mode,
            capability: self.capability,
            prompt: self.prompt.clone(),
            negative_prompt: text::copy_opt(&self.negative_prompt),
            model_id: text::copy_opt(&self.model_id),
            quality: text::copy_opt(&self.quality),
            preset: text::copy_opt(&self.preset),
            advanced_parameters: self.advanced_parameters.copy(),
            input_asset_id: self.input_asset_id,
            mask_asset_id: self.mask_asset_id,
            control_asset_id: self.control_asset_id,
        }
    }
}

/// A request for a video.
#[derive(Debug)]
pub struct GenerateVideoRequest {
    pub mode: GenerationMode,
    pub capability: Option<ModelCapability>,
    pub prompt: String,
    pub negative_prompt: Option<String>,
    pub model_id: Option<String>,
    pub input_asset_id: Option<u128>,
    pub input_images: Vec<GenerationInputImage>,
    pub duration_seconds: Option<u32>,
    pub quality: Option<String>,
    pub preset: Option<String>,
    pub advanced_parameters: Json,
    pub aspect_ratio: Option<String>,
    pub fps: Option<u32>,
    pub audio: bool,
}

/// What [`GenerateVideoRequest`] says.
pub struct VideoAskView {
    pub mode: GenerationMode,
    pub capability: Option<ModelCapability>,
    pub prompt: Seq<char>,
    pub negative_prompt: Option<Seq<char>>,
    pub model_id: Option<Seq<char>>,
    pub input_asset_id: Option<u128>,
    pub input_images: Seq<InputImageView>,
    pub duration_seconds: Option<u32>,
    pub quality: Option<Seq<char>>,
    pub preset: Option<Seq<char>>,
    pub advanced_parameters: JsonView,
    pub aspect_ratio: Option<Seq<char>>,
    pub fps: Option<u32>,
    pub audio: bool,
}

impl View for GenerateVideoRequest {
    type V = VideoAskView;

    open spec fn view(&self) -> VideoAskView {
        VideoAskView {
            mode: self.mode,
            capability: self.capability,
            prompt: self.prompt@,
            negative_prompt: text::opt(self.negative_prompt),
            model_id: text::opt(self.model_id),
            input_asset_id: self.input_asset_id,
            input_images: images_view(self.input_images@),
            duration_seconds: self.duration_seconds,
            quality: text::opt(self.quality),
            preset: text::opt(self.preset),
            advanced_parameters: self.advanced_parameters@,
            aspect_ratio: text::opt(self.aspect_ratio),
            fps: self.fps,
            audio: self.audio,
        }
    }
}

impl GenerateVideoRequest {
    /// A copy of the value.
    pub fn copy(&self) -> (copy: Self)
        ensures
            copy@ == self@,
    {
        GenerateVideoRequest {
            mode: self.mode,
            capability: self.capability,
            prompt: self.prompt.clone(),
            negative_prompt: text::copy_opt(&self.negative_prompt),
            model_id: text::copy_opt(&self.model_id),
            input_asset_id: self.input_asset_id,
            input_images: copy_images(&self.input_images),
            duration_seconds: self.duration_seconds,
            quality: text::copy_opt(&self.quality),
            preset: text::copy_opt(&self.preset),
            advanced_parameters: self.advanced_parameters.copy(),
            aspect_ratio: text::copy_opt(&self.aspect_ratio),
            fps: self.fps,
            audio: self.audio,
        }
    }
}

/// The identifier of the local engine for images.
pub const CANVAS: &'static str = "vidio-canvas-local";

/// The identifier of the local engine for videos.
pub const MOTION: &'static str = "vidio-motion-local";

// ---------------------------------------------------------------------------
// What both kinds of request share
// ---------------------------------------------------------------------------

/// Whether the length of a prompt is refused: fewer than 3 or more than 1000
/// bytes once it is trimmed.
pub open spec fn prompt_refused(prompt: Seq<char>) -> bool {
    text::utf8_len(text::trimmed(prompt)) < 3 || text::utf8_len(text::trimmed(prompt)) > 1000
}

fn is_prompt_refused(prompt: &str) -> (refused: bool)
    ensures
        refused == prompt_refused(prompt@),
{
    let length: usize = text::byte_len(text::trim(prompt));
    length < 3 || length > 1000
}

/// What is said of a prompt of a length that is refused.
pub open spec fn prompt_refusal() -> (u16, Seq<char>) {
    (error::BAD_REQUEST, "Le prompt doit contenir entre 3 et 1000 caractères."@)
}

/// What is known of the model that a request names.
pub struct Standing {
    pub runtime_capabilities: Vec<ModelCapability>,
    pub installed: bool,
    pub runtime_ready: bool,
    pub advanced_parameters: Vec<String>,
}

/// What is said of requests while the service drains.
pub open spec fn drain_refusal() -> (u16, Seq<char>) {
    (
        error::SERVICE_UNAVAILABLE,
        "VidioAI est en drainage et n'accepte plus de nouveaux jobs."@,
    )
}

/// The job that a generation is queued with.
pub open spec fn generation_job(generation: GenerationView, job_id: u128, message: Seq<char>, now: u64) -> JobView {
    job::queued_job(
        job_id,
        if generation.kind == AssetKind::Video {
            JobKind::GenerateVideo
        } else {
            JobKind::GenerateImage
        },
        identity::hyphenated(generation.id),
        Some(generation.model_id),
        match generation.capability {
            Some(capability) => Some(capability.name()),
            None => None,
        },
        "queued"@,
        message,
        now,
    )
}

fn make_job(generation: &Generation, job_id: u128, message: &str, now: u64) -> (queued: Job)
    ensures
        queued@ == generation_job(generation@, job_id, message@, now),
{
    job::new_job(
        job_id,
        if generation.kind == AssetKind::Video {
            JobKind::GenerateVideo
        } else {
            JobKind::GenerateImage
        },
        identity::id_text(generation.id),
        Some(generation.model_id.clone()),
        match &generation.capability {
            Some(capability) => Some(capability.api_name().to_owned()),
            None => None,
        },
        "queued",
        message,
        now,
    )
}

// ---------------------------------------------------------------------------
// Images
// ---------------------------------------------------------------------------

/// The model that a request for an image is for, or why the request is refused
/// before any model is looked up.
pub open spec fn image_model(mode: ApplicationMode, profile: ApplicationProfile, request: ImageAskView) -> Result<
    Seq<char>,
    (u16, Seq<char>),
> {
    if mode != ApplicationMode::AcceptingJobs {
        Err(drain_refusal())
    } else if prompt_refused(request.prompt) {
        Err(prompt_refusal())
    } else if request.mode == GenerationMode::ImageToImage && request.input_asset_id is None {
        Err((error::BAD_REQUEST, "input_asset_id est obligatoire en Image → Image."@))
    } else {
        match request.model_id {
            Some(model_id) => Ok(model_id),
            None => if profile == ApplicationProfile::GpuProduction {
                Err(
                    (
                        error::BAD_REQUEST,
                        "model_id est obligatoire en GPU_PRODUCTION ; aucun moteur procédural ne sera choisi automatiquement."@,
                    ),
                )
            } else {
                Ok(CANVAS@)
            },
        }
    }
}

/// What a choice, or the refusal of one, says.
pub open spec fn choice(result: Result<String, ApiError>) -> Result<Seq<char>, (u16, Seq<char>)> {
    match result {
        Ok(value) => Ok(value@),
        Err(refusal) => Err(error::says(refusal)),
    }
}

/// Chooses the model that a request for an image is for: the one it names, or
/// the local engine, which production does not choose by itself.
pub fn choose_image_model(
    mode: ApplicationMode,
    profile: ApplicationProfile,
    request: &GenerateImageRequest,
) -> (result: Result<String, ApiError>)
    ensures
        choice(result) == image_model(mode, profile, request@),
{
    match job::ensure_accepting_jobs(mode) {
        Ok(_) => {},
        Err(refusal) => {
            return Err(refusal);
        },
    }
    if is_prompt_refused(request.prompt.as_str()) {
        return Err(
            ApiError::bad_request("Le prompt doit contenir entre 3 et 1000 caractères.".to_owned()),
        );
    }
    if request.mode == GenerationMode::ImageToImage && request.input_asset_id.is_none() {
        return Err(
            ApiError::bad_request("input_asset_id est obligatoire en Image → Image.".to_owned()),
        );
    }
    match &request.model_id {
        Some(model_id) => Ok(model_id.clone()),
        None => if profile == ApplicationProfile::GpuProduction {
            Err(
                ApiError::bad_request(
                    "model_id est obligatoire en GPU_PRODUCTION ; aucun moteur procédural ne sera choisi automatiquement.".to_owned(),
                ),
            )
        } else {
            Ok(CANVAS.to_owned())
        },
    }
}

/// The capability that a request for an image asks for, or why the request is
/// refused for the model that was found.
pub open spec fn image_capability(
    profile: ApplicationProfile,
    local: bool,
    request: ImageAskView,
) -> Result<ModelCapability, (u16, Seq<char>)> {
    let asked = match request.capability {
        Some(capability) => Some(capability),
        None => capability::image_default(request.mode),
    };
    if profile == ApplicationProfile::GpuProduction && local {
        Err(
            (
                error::CONFLICT,
                "Les moteurs procéduraux sont désactivés pour la génération d'image GPU_PRODUCTION."@,
            ),
        )
    } else if asked is None {
        Err((error::BAD_REQUEST, "Capacité image invalide."@))
    } else if capability::image_default(request.mode) is None {
        Err((error::BAD_REQUEST, "Utilisez /api/videos/generate pour un mode vidéo."@))
    } else if !capability::image_family(request.mode, asked->0) {
        Err((error::BAD_REQUEST, "Capacité image invalide pour ce mode."@))
    } else {
        Ok(asked->0)
    }
}

/// What a capability, or the refusal of one, says.
pub open spec fn capability_choice(result: Result<ModelCapability, ApiError>) -> Result<
    ModelCapability,
    (u16, Seq<char>),
> {
    match result {
        Ok(value) => Ok(value),
        Err(refusal) => Err(error::says(refusal)),
    }
}

/// Chooses the capability that a request for an image asks for. `local` says
/// whether the model is a local engine.
pub fn choose_image_capability(
    profile: ApplicationProfile,
    local: bool,
    request: &GenerateImageRequest,
) -> (result: Result<ModelCapability, ApiError>)
    ensures
        capability_choice(result) == image_capability(profile, local, request@),
{
    if profile == ApplicationProfile::GpuProduction && local {
        return Err(
            ApiError::conflict(
                "Les moteurs procéduraux sont désactivés pour la génération d'image GPU_PRODUCTION.".to_owned(),
            ),
        );
    }
    let asked = match request.capability {
        Some(capability) => capability,
        None => match capability::image_capability_mode_default(&request.mode) {
            Some(capability) => capability,
            None => {
                return Err(ApiError::bad_request("Capacité image invalide.".to_owned()));
            },
        },
    };
    if capability::image_capability_mode_default(&request.mode).is_none() {
        return Err(
            ApiError::bad_request("Utilisez /api/videos/generate pour un mode vidéo.".to_owned()),
        );
    }
    if !capability::is_valid_image_capability_for_mode(&request.mode, &asked) {
        return Err(ApiError::bad_request("Capacité image invalide pour ce mode.".to_owned()));
    }
    Ok(asked)
}

/// Why a model cannot serve a request for an image.
pub open spec fn image_standing_refusal(
    mode: GenerationMode,
    capability: ModelCapability,
    model_id: Seq<char>,
    standing: Standing,
) -> Option<(u16, Seq<char>)> {
    let expected = if mode == GenerationMode::TextToImage {
        ModelCapability::TextToImage
    } else {
        ModelCapability::ImageToImage
    };
    if !standing.runtime_capabilities@.contains(expected)
        || !standing.runtime_capabilities@.contains(capability) {
        Some((error::CONFLICT, "Ce modèle ne supporte pas ce mode de génération."@))
    } else if !standing.installed {
        Some((error::CONFLICT, "Installez le modèle avant de générer."@))
    } else if model_id != CANVAS@ && !standing.runtime_ready {
        Some(
            (
                error::CONFLICT,
                "Le modèle IA est installé mais son runtime n'est pas READY. Chargez-le avant de générer."@,
            ),
        )
    } else {
        None
    }
}

/// The record of a request for an image.
pub open spec fn image_record(
    request: ImageAskView,
    model_id: Seq<char>,
    capability: ModelCapability,
    contract: ContractView,
    preset: Option<Seq<char>>,
    id: u128,
    job_id: u128,
    now: u64,
) -> GenerationView {
    GenerationView {
        id,
        job_id: Some(job_id),
        kind: AssetKind::Image,
        mode: request.mode,
        capability: Some(capability),
        prompt: text::trimmed(request.prompt),
        negative_prompt: request.negative_prompt,
        model_id,
        model_pack_id: contract.model_pack_id,
        engine: Some(contract.engine),
        workflow: contract.workflow,
        input_asset_id: request.input_asset_id,
        mask_asset_id: request.mask_asset_id,
        control_asset_id: request.control_asset_id,
        input_images: Seq::empty(),
        output_asset_id: None,
        status: GenerationStatus::Queued,
        progress: 0,
        error: None,
        error_code: None,
        error_retryable: false,
        created_at: now,
        updated_at: now,
        duration_seconds: None,
        requested_duration_seconds: None,
        resolution: None,
        requested_quality: request.quality,
        requested_preset: preset,
        advanced_parameters: request.advanced_parameters,
        requested_aspect_ratio: None,
        requested_fps: None,
        requested_frames: None,
        inference_frames: None,
        actual_width: None,
        actual_height: None,
        actual_fps: None,
        actual_frames: None,
        actual_duration: None,
        audio: false,
        actual_audio: false,
        audio_codec: None,
        audio_channels: None,
        audio_sample_rate: None,
    }
}

/// A request for an image as it is queued, or why it is refused: the model must
/// be able to serve it, it must have a contract, and preset and parameters must
/// be known, in this order.
pub open spec fn image_admission(
    request: ImageAskView,
    model_id: Seq<char>,
    capability: ModelCapability,
    standing: Standing,
    contract: Result<ContractView, (u16, Seq<char>)>,
    id: u128,
    job_id: u128,
    now: u64,
) -> Result<(GenerationView, JobView), (u16, Seq<char>)> {
    let preset = pack::preset_choice(request.preset, request.quality);
    let parameters = pack::parameter_refusal(
        text::texts(standing.advanced_parameters@),
        request.advanced_parameters,
    );
    match image_standing_refusal(request.mode, capability, model_id, standing) {
        Some(refusal) => Err(refusal),
        None => match contract {
            Err(refusal) => Err(refusal),
            Ok(known) => match preset {
                Err(refusal) => Err(refusal),
                Ok(name) => match parameters {
                    Some(refusal) => Err(refusal),
                    None => {
                        let record = image_record(
                            request,
                            model_id,
                            capability,
                            known,
                            name,
                            id,
                            job_id,
                            now,
                        );
                        Ok((record, generation_job(record, job_id, "Génération ajoutée à la file"@, now)))
                    },
                },
            },
        },
    }
}

/// What an admission, or the refusal of one, says.
pub open spec fn admission(result: Result<(Generation, Job), ApiError>) -> Result<
    (GenerationView, JobView),
    (u16, Seq<char>),
> {
    match result {
        Ok(queued) => Ok((queued.0@, queued.1@)),
        Err(refusal) => Err(error::says(refusal)),
    }
}

/// Admits a request for an image: makes the generation and its job, or says why
/// the request is refused. `capability` is the one that was chosen for it,
/// `contract` what the registry of packs says.
pub fn admit_image(
    request: &GenerateImageRequest,
    model_id: String,
    capability: ModelCapability,
    standing: &Standing,
    contract: Result<GenerationRuntimeContract, ApiError>,
    id: u128,
    job_id: u128,
    now: u64,
) -> (result: Result<(Generation, Job), ApiError>)
    ensures
        admission(result) == image_admission(
            request@,
            model_id@,
            capability,
            *standing,
            pack::contract_says(contract),
            id,
            job_id,
            now,
        ),
{
    let expected = if request.mode == GenerationMode::TextToImage {
        ModelCapability::TextToImage
    } else {
        ModelCapability::ImageToImage
    };
    if !capability::includes(&standing.runtime_capabilities, expected) || !capability::includes(
        &standing.runtime_capabilities,
        capability,
    ) {
        return Err(
            ApiError::conflict("Ce modèle ne supporte pas ce mode de génération.".to_owned()),
        );
    }
    if !standing.installed {
        return Err(ApiError::conflict("Installez le modèle avant de générer.".to_owned()));
    }
    if *model_id.as_str() != *CANVAS && !standing.runtime_ready {
        return Err(
            ApiError::conflict(
                "Le modèle IA est installé mais son runtime n'est pas READY. Chargez-le avant de générer.".to_owned(),
            ),
        );
    }
    let contract = match contract {
        Ok(known) => known,
        Err(refusal) => {
            return Err(refusal);
        },
    };
    let preset = match pack::normalize_generation_preset(&request.preset, &request.quality) {
        Ok(chosen) => chosen,
        Err(refusal) => {
            return Err(refusal);
        },
    };
    match pack::validate_advanced_parameters(
        &standing.advanced_parameters,
        &request.advanced_parameters,
    ) {
        Ok(_) => {},
        Err(refusal) => {
            return Err(refusal);
        },
    }
    let generation = Generation {
        id,
        job_id: Some(job_id),
        kind: AssetKind::Image,
        mode: request.mode,
        capability: Some(capability),
        prompt: text::trim(request.prompt.as_str()).to_owned(),
        negative_prompt: text::copy_opt(&request.negative_prompt),
        model_id,
        model_pack_id: contract.model_pack_id,
        engine: Some(contract.engine),
        workflow: contract.workflow,
        input_asset_id: request.input_asset_id,
        mask_asset_id: request.mask_asset_id,
        control_asset_id: request.control_asset_id,
        input_images: Vec::new(),
        output_asset_id: None,
        status: GenerationStatus::Queued,
        progress: 0,
        error: None,
        error_code: None,
        error_retryable: false,
        created_at: now,
        updated_at: now,
        duration_seconds: None,
        requested_duration_seconds: None,
        resolution: None,
        requested_quality: text::copy_opt(&request.quality),
        requested_preset: preset,
        advanced_parameters: request.advanced_parameters.copy(),
        requested_aspect_ratio: None,
        requested_fps: None,
        requested_frames: None,
        inference_frames: None,
        actual_width: None,
        actual_height: None,
        actual_fps: None,
        actual_frames: None,
        actual_duration: None,
        audio: false,
        actual_audio: false,
        audio_codec: None,
        audio_channels: None,
        audio_sample_rate: None,
    };
    assert(generation@.input_images =~= Seq::<InputImageView>::empty());
    let queued = make_job(&generation, job_id, "Génération ajoutée à la file", now);
    Ok((generation, queued))
}

/// Admits a request for an image under fresh identifiers, now.
pub fn generate_image(
    request: &GenerateImageRequest,
    model_id: String,
    capability: ModelCapability,
    standing: &Standing,
    contract: Result<GenerationRuntimeContract, ApiError>,
) -> (result: Result<(Generation, Job), ApiError>)
    ensures
        exists|id: u128, job_id: u128, now: u64|
            admission(result) == #[trigger] image_admission(
                request@,
                model_id@,
                capability,
                *standing,
                pack::contract_says(contract),
                id,
                job_id,
                now,
            ),
{
    let job_id: u128 = identity::new_id();
    let id: u128 = identity::new_id();
    let now: u64 = identity::unix_now();
    admit_image(request, model_id, capability, standing, contract, id, job_id, now)
}

// ---------------------------------------------------------------------------
// Videos
// ---------------------------------------------------------------------------

/// What a video is to be like.
pub struct VideoPlan {
    pub duration: u32,
    pub preset: String,
    pub quality: String,
    pub aspect_ratio: String,
    pub fps: u32,
    pub capability: ModelCapability,
    pub model_id: String,
}

/// What a video is to be like.
pub struct PlanView {
    pub duration: u32,
    pub preset: Seq<char>,
    pub quality: Seq<char>,
    pub aspect_ratio: Seq<char>,
    pub fps: u32,
    pub capability: ModelCapability,
    pub model_id: Seq<char>,
}

impl View for VideoPlan {
    type V = PlanView;

    open spec fn view(&self) -> PlanView {
        PlanView {
            duration: self.duration,
            preset: self.preset@,
            quality: self.quality@,
            aspect_ratio: self.aspect_ratio@,
            fps: self.fps,
            capability: self.capability,
            model_id: self.model_id@,
        }
    }
}

/// The duration that is rendered: the one asked for, else 6 seconds, kept
/// between 2 and 15.
pub open spec fn video_duration(asked: Option<u32>) -> u32 {
    let wanted = match asked {
        Some(seconds) => seconds,
        None => 6,
    };
    if wanted < 2 {
        2
    } else if wanted > 15 {
        15
    } else {
        wanted
    }
}

/// The quality that a preset stands for.
pub open spec fn preset_quality(preset: Seq<char>) -> Seq<char> {
    if preset == "FAST"@ {
        "480p"@
    } else if preset == "QUALITY"@ {
        "1080p"@
    } else {
        "720p"@
    }
}

/// The names of qualities.
pub open spec fn known_quality(quality: Seq<char>) -> bool {
    quality == "480p"@ || quality == "720p"@ || quality == "1080p"@
}

/// The names of ratios.
pub open spec fn known_ratio(ratio: Seq<char>) -> bool {
    ratio == "16:9"@ || ratio == "9:16"@ || ratio == "1:1"@
}

/// What a request for a video asks for, or why it is refused before any model is
/// looked up.
pub open spec fn video_plan(mode: ApplicationMode, request: VideoAskView) -> Result<
    PlanView,
    (u16, Seq<char>),
> {
    let preset_choice = pack::preset_choice(request.preset, request.quality);
    if mode != ApplicationMode::AcceptingJobs {
        Err(drain_refusal())
    } else if !capability::video_mode(request.mode) {
        Err((error::BAD_REQUEST, "Le mode demandé n'est pas un mode vidéo."@))
    } else if prompt_refused(request.prompt) {
        Err(prompt_refusal())
    } else if preset_choice is Err {
        Err(preset_choice->Err_0)
    } else {
        let preset = match preset_choice->Ok_0 {
            Some(name) => name,
            None => "BALANCED"@,
        };
        let quality = match request.quality {
            Some(name) => name,
            None => preset_quality(preset),
        };
        let ratio = match request.aspect_ratio {
            Some(name) => name,
            None => "16:9"@,
        };
        let fps = match request.fps {
            Some(number) => number,
            None => 24,
        };
        if !known_quality(quality) {
            Err((error::BAD_REQUEST, "La qualité doit être 480p, 720p ou 1080p."@))
        } else if !known_ratio(ratio) {
            Err((error::BAD_REQUEST, "Le ratio doit être 16:9, 9:16 ou 1:1."@))
        } else if !(1 <= fps <= 60) {
            Err((error::BAD_REQUEST, "Le FPS doit être compris entre 1 et 60."@))
        } else {
            Ok(
                PlanView {
                    duration: video_duration(request.duration_seconds),
                    preset,
                    quality,
                    aspect_ratio: ratio,
                    fps,
                    capability: match request.capability {
                        Some(capability) => capability,
                        None => capability::video_default(request.mode)->0,
                    },
                    model_id: match request.model_id {
                        Some(model_id) => model_id,
                        None => MOTION@,
                    },
                },
            )
        }
    }
}

/// What a plan, or the refusal of one, says.
pub open spec fn plan_choice(result: Result<VideoPlan, ApiError>) -> Result<
    PlanView,
    (u16, Seq<char>),
> {
    match result {
        Ok(plan) => Ok(plan@),
        Err(refusal) => Err(error::says(refusal)),
    }
}

/// Reads what a request for a video asks for.
pub fn plan_video(mode: ApplicationMode, request: &GenerateVideoRequest) -> (result: Result<
    VideoPlan,
    ApiError,
>)
    ensures
        plan_choice(result) == video_plan(mode, request@),
{
    match job::ensure_accepting_jobs(mode) {
        Ok(_) => {},
        Err(refusal) => {
            return Err(refusal);
        },
    }
    let default_capability = match capability::video_capability_mode_default(&request.mode) {
        Some(capability) => capability,
        None => {
            return Err(
                ApiError::bad_request("Le mode demandé n'est pas un mode vidéo.".to_owned()),
            );
        },
    };
    if is_prompt_refused(request.prompt.as_str()) {
        return Err(
            ApiError::bad_request("Le prompt doit contenir entre 3 et 1000 caractères.".to_owned()),
        );
    }
    let wanted: u32 = match request.duration_seconds {
        Some(seconds) => seconds,
        None => 6,
    };
    let duration: u32 = if wanted < 2 {
        2
    } else if wanted > 15 {
        15
    } else {
        wanted
    };
    let preset = match pack::normalize_generation_preset(&request.preset, &request.quality) {
        Ok(Some(name)) => name,
        Ok(None) => "BALANCED".to_owned(),
        Err(refusal) => {
            return Err(refusal);
        },
    };
    let quality = match &request.quality {
        Some(name) => name.clone(),
        None => if *preset.as_str() == *"FAST" {
            "480p".to_owned()
        } else if *preset.as_str() == *"QUALITY" {
            "1080p".to_owned()
        } else {
            "720p".to_owned()
        },
    };
    if *quality.as_str() != *"480p" && *quality.as_str() != *"720p" && *quality.as_str()
        != *"1080p" {
        return Err(ApiError::bad_request("La qualité doit être 480p, 720p ou 1080p.".to_owned()));
    }
    let aspect_ratio = match &request.aspect_ratio {
        Some(name) => name.clone(),
        None => "16:9".to_owned(),
    };
    if *aspect_ratio.as_str() != *"16:9" && *aspect_ratio.as_str() != *"9:16"
        && *aspect_ratio.as_str() != *"1:1" {
        return Err(ApiError::bad_request("Le ratio doit être 16:9, 9:16 ou 1:1.".to_owned()));
    }
    let fps: u32 = match request.fps {
        Some(number) => number,
        None => 24,
    };
    if fps < 1 || fps > 60 {
        return Err(ApiError::bad_request("Le FPS doit être compris entre 1 et 60.".to_owned()));
    }
    let capability = match request.capability {
        Some(capability) => capability,
        None => default_capability,
    };
    let model_id = match &request.model_id {
        Some(model_id) => model_id.clone(),
        None => MOTION.to_owned(),
    };
    Ok(VideoPlan { duration, preset, quality, aspect_ratio, fps, capability, model_id })
}

/// The images that a video starts from: those of the request, or its one asset
/// as the first frame where an image is animated and no list is given.
pub open spec fn video_images(request: VideoAskView) -> Seq<InputImageView> {
    if request.mode == GenerationMode::ImageToVideo && request.input_images.len() == 0
        && request.input_asset_id is Some {
        seq![
            InputImageView {
                asset_id: request.input_asset_id->0,
                order: 0,
                role: "start_frame"@,
            },
        ]
    } else {
        request.input_images
    }
}

/// The assets that images stand for.
pub open spec fn asset_ids(images: Seq<InputImageView>) -> Seq<u128> {
    Seq::new(images.len(), |i: int| images[i].asset_id)
}

/// The orders of images.
pub open spec fn image_orders(images: Seq<InputImageView>) -> Seq<u64> {
    Seq::new(images.len(), |i: int| images[i].order as u64)
}

/// Whether positions are those of images by their order.
pub open spec fn image_order(order: Seq<usize>, images: Seq<InputImageView>) -> bool {
    order::stable(order, images.len(), order::rising(image_orders(images)))
}

/// The first refusal that looking sources up gives: the one of the look-up, or
/// that of a source of another kind.
pub open spec fn source_refusal(
    sources: Seq<Result<AssetKind, (u16, Seq<char>)>>,
    expected: AssetKind,
) -> Option<(u16, Seq<char>)>
    decreases sources.len(),
{
    if sources.len() == 0 {
        None
    } else {
        match sources[0] {
            Err(refusal) => Some(refusal),
            Ok(kind) => if kind != expected {
                Some(
                    (
                        error::BAD_REQUEST,
                        "Le type de l'asset source ne correspond pas au mode."@,
                    ),
                )
            } else {
                source_refusal(sources.drop_first(), expected)
            },
        }
    }
}

/// What looking sources up gave.
pub open spec fn sources_say(sources: Seq<Result<AssetKind, ApiError>>) -> Seq<
    Result<AssetKind, (u16, Seq<char>)>,
> {
    Seq::new(
        sources.len(),
        |i: int|
            match sources[i] {
                Ok(kind) => Ok(kind),
                Err(refusal) => Err(error::says(refusal)),
            },
    )
}

fn check_sources(sources: &Vec<Result<AssetKind, ApiError>>, expected: AssetKind) -> (result: Result<
    (),
    ApiError,
>)
    ensures
        pack::refused(result) == source_refusal(sources_say(sources@), expected),
{
    let ghost all = sources_say(sources@);
    assert(all.skip(0) =~= all);
    for i in 0..sources.len()
        invariant
            all == sources_say(sources@),
            source_refusal(all, expected) == source_refusal(all.skip(i as int), expected),
    {
        assert(all.skip(i as int)[0] == all[i as int]);
        assert(all.skip(i as int).drop_first() =~= all.skip(i + 1));
        match &sources[i] {
            Ok(kind) => if *kind != expected {
                return Err(
                    ApiError::bad_request(
                        "Le type de l'asset source ne correspond pas au mode.".to_owned(),
                    ),
                );
            },
            Err(refusal) => {
                return Err(
                    ApiError { status: refusal.status, message: refusal.message.clone() },
                );
            },
        }
    }
    assert(all.skip(all.len() as int).len() == 0);
    Ok(())
}

/// The assets whose kind must be known before a request for a video is admitted,
/// in the order in which they are looked up.
pub open spec fn is_sources(sources: Seq<u128>, request: VideoAskView) -> bool {
    if request.mode == GenerationMode::ImageToVideo {
        exists|order: Seq<usize>|
            image_order(order, video_images(request)) && sources == asset_ids(
                #[trigger] order::picked(video_images(request), order),
            )
    } else if request.mode == GenerationMode::VideoToVideo && request.input_asset_id is Some {
        sources == seq![request.input_asset_id->0]
    } else {
        sources.len() == 0
    }
}

/// The images of a request for a video.
pub fn images_of(request: &GenerateVideoRequest) -> (images: Vec<GenerationInputImage>)
    ensures
        images_view(images@) == video_images(request@),
{
    let mut images = copy_images(&request.input_images);
    if request.mode == GenerationMode::ImageToVideo && images.len() == 0 {
        match request.input_asset_id {
            Some(asset_id) => {
                images.push(
                    GenerationInputImage { asset_id, order: 0, role: "start_frame".to_owned() },
                );
            },
            None => {},
        }
    }
    assert(request@.input_images.len() == request.input_images@.len());
    assert(images_view(images@) =~= video_images(request@));
    images
}

/// The positions of images by their order.
pub fn order_images(images: &Vec<GenerationInputImage>) -> (order: Vec<usize>)
    ensures
        image_order(order@, images_view(images@)),
{
    let mut keys: Vec<u64> = Vec::new();
    for i in 0..images.len()
        invariant
            keys@.len() == i,
            forall|j: int| 0 <= j < i ==> keys@[j] == #[trigger] images@[j].order,
    {
        keys.push(images[i].order as u64);
    }
    assert(keys@ =~= image_orders(images_view(images@)));
    order::rising_order(&keys)
}

/// The assets whose kind must be known before a request for a video is admitted.
pub fn video_sources(request: &GenerateVideoRequest) -> (sources: Vec<u128>)
    ensures
        is_sources(sources@, request@),
{
    let mut sources: Vec<u128> = Vec::new();
    if request.mode == GenerationMode::ImageToVideo {
        let images = images_of(request);
        let order = order_images(&images);
        for n in 0..order.len()
            invariant
                order::permutes(order@, images@.len()),
                sources@.len() == n,
                forall|i: int|
                    0 <= i < n ==> #[trigger] sources@[i] == images@[order@[i] as int].asset_id,
        {
            let at: usize = order[n];
            sources.push(images[at].asset_id);
        }
        assert(sources@ =~= asset_ids(order::picked(video_images(request@), order@)));
    } else if request.mode == GenerationMode::VideoToVideo {
        match request.input_asset_id {
            Some(id) => sources.push(id),
            None => {},
        }
        assert(request@.input_asset_id is Some ==> sources@ =~= seq![request@.input_asset_id->0]);
    }
    sources
}

/// Why a model cannot serve a request for a video.
pub open spec fn video_standing_refusal(
    mode: GenerationMode,
    plan: PlanView,
    standing: Standing,
) -> Option<(u16, Seq<char>)> {
    if !capability::video_family(mode, plan.capability) {
        Some((error::BAD_REQUEST, "Capacité vidéo invalide pour ce mode."@))
    } else if !standing.runtime_capabilities@.contains(capability::video_default(mode)->0)
        || !standing.runtime_capabilities@.contains(plan.capability) {
        Some((error::CONFLICT, "Ce modèle ne supporte pas le mode vidéo choisi."@))
    } else if !standing.installed {
        Some((error::CONFLICT, "Installez le modèle avant de générer."@))
    } else if plan.model_id != MOTION@ && !standing.runtime_ready {
        Some(
            (
                error::CONFLICT,
                "MODEL_NOT_READY: le modèle est installé mais son runtime worker n'est pas READY."@,
            ),
        )
    } else {
        None
    }
}

/// Why the sources of a request for a video are refused.
pub open spec fn video_source_refusal(
    request: VideoAskView,
    sources: Seq<Result<AssetKind, (u16, Seq<char>)>>,
) -> Option<(u16, Seq<char>)> {
    let images = video_images(request);
    if request.mode == GenerationMode::ImageToVideo {
        if images.len() == 0 {
            Some(
                (
                    error::BAD_REQUEST,
                    "input_images est obligatoire pour le mode IMAGE_TO_VIDEO."@,
                ),
            )
        } else if !lookup::distinct(asset_ids(images)) {
            Some((error::BAD_REQUEST, "Les images d'entrée ne doivent pas être dupliquées."@))
        } else {
            source_refusal(sources, AssetKind::Image)
        }
    } else if request.mode == GenerationMode::VideoToVideo {
        if request.input_asset_id is None {
            Some((error::BAD_REQUEST, "input_asset_id est obligatoire pour ce mode."@))
        } else {
            source_refusal(sources, AssetKind::Video)
        }
    } else {
        None
    }
}

/// How many frames a video of a plan has; as many as can be counted where there
/// would be more.
pub open spec fn frames_of(plan: PlanView) -> u32 {
    if plan.duration * plan.fps > u32::MAX {
        u32::MAX
    } else {
        (plan.duration * plan.fps) as u32
    }
}

/// The record of a request for a video.
pub open spec fn video_record(
    request: VideoAskView,
    plan: PlanView,
    contract: ContractView,
    images: Seq<InputImageView>,
    id: u128,
    job_id: u128,
    now: u64,
) -> GenerationView {
    let model_id = plan.model_id;
    let capability = plan.capability;
    GenerationView {
        id,
        job_id: Some(job_id),
        kind: AssetKind::Video,
        mode: request.mode,
        capability: Some(capability),
        prompt: text::trimmed(request.prompt),
        negative_prompt: request.negative_prompt,
        model_id,
        model_pack_id: contract.model_pack_id,
        engine: Some(contract.engine),
        workflow: contract.workflow,
        input_asset_id: request.input_asset_id,
        mask_asset_id: None,
        control_asset_id: None,
        input_images: images,
        output_asset_id: None,
        status: GenerationStatus::Queued,
        progress: 0,
        error: None,
        error_code: None,
        error_retryable: false,
        created_at: now,
        updated_at: now,
        duration_seconds: Some(plan.duration),
        requested_duration_seconds: Some(Real::Whole(plan.duration)),
        resolution: Some(plan.quality),
        requested_quality: Some(plan.quality),
        requested_preset: Some(plan.preset),
        advanced_parameters: request.advanced_parameters,
        requested_aspect_ratio: Some(plan.aspect_ratio),
        requested_fps: Some(plan.fps),
        requested_frames: Some(frames_of(plan)),
        inference_frames: None,
        actual_width: None,
        actual_height: None,
        actual_fps: None,
        actual_frames: None,
        actual_duration: None,
        audio: request.audio,
        actual_audio: false,
        audio_codec: None,
        audio_channels: None,
        audio_sample_rate: None,
    }
}

/// A request for a video as it is queued, or why it is refused.
pub open spec fn video_admission(
    request: VideoAskView,
    plan: PlanView,
    standing: Standing,
    contract: Result<ContractView, (u16, Seq<char>)>,
    sources: Seq<Result<AssetKind, (u16, Seq<char>)>>,
    id: u128,
    job_id: u128,
    now: u64,
) -> Result<(GenerationView, JobView), (u16, Seq<char>)> {
    let parameters = pack::parameter_refusal(
        text::texts(standing.advanced_parameters@),
        request.advanced_parameters,
    );
    match video_standing_refusal(request.mode, plan, standing) {
        Some(refusal) => Err(refusal),
        None => match contract {
            Err(refusal) => Err(refusal),
            Ok(known) => match parameters {
                Some(refusal) => Err(refusal),
                None => match video_source_refusal(request, sources) {
                    Some(refusal) => Err(refusal),
                    None => {
                        let record = video_record(
                            request,
                            plan,
                            known,
                            video_images(request),
                            id,
                            job_id,
                            now,
                        );
                        Ok((record, generation_job(record, job_id, "Vidéo ajoutée à la file"@, now)))
                    },
                },
            },
        },
    }
}

fn has_duplicates(images: &Vec<GenerationInputImage>) -> (found: bool)
    ensures
        found == !lookup::distinct(asset_ids(images_view(images@))),
{
    let ghost ids = asset_ids(images_view(images@));
    for i in 0..images.len()
        invariant
            ids == asset_ids(images_view(images@)),
            forall|a: int, b: int| 0 <= a < i && a < b < ids.len() ==> ids[a] != ids[b],
    {
        for j in (i + 1)..images.len()
            invariant
                ids == asset_ids(images_view(images@)),
                i < images@.len(),
                forall|b: int| i < b < j ==> ids[i as int] != ids[b],
        {
            if images[i].asset_id == images[j].asset_id {
                assert(ids[i as int] == ids[j as int]);
                return true;
            }
        }
    }
    false
}

/// Admits a request for a video: makes the generation and its job, or says why
/// the request is refused. `plan` is what was read from the request, `sources`
/// what the look-up of its assets gave, in their order.
pub fn admit_video(
    request: &GenerateVideoRequest,
    plan: VideoPlan,
    standing: &Standing,
    contract: Result<GenerationRuntimeContract, ApiError>,
    sources: &Vec<Result<AssetKind, ApiError>>,
    id: u128,
    job_id: u128,
    now: u64,
) -> (result: Result<(Generation, Job), ApiError>)
    requires
        capability::video_mode(request.mode),
    ensures
        admission(result) == video_admission(
            request@,
            plan@,
            *standing,
            pack::contract_says(contract),
            sources_say(sources@),
            id,
            job_id,
            now,
        ),
{
    if !capability::is_valid_video_capability_for_mode(&request.mode, &plan.capability) {
        return Err(ApiError::bad_request("Capacité vidéo invalide pour ce mode.".to_owned()));
    }
    let expected = match request.mode {
        GenerationMode::TextToVideo => ModelCapability::TextToVideo,
        GenerationMode::ImageToVideo => ModelCapability::ImageToVideo,
        _ => ModelCapability::VideoToVideo,
    };
    if !capability::includes(&standing.runtime_capabilities, expected) || !capability::includes(
        &standing.runtime_capabilities,
        plan.capability,
    ) {
        return Err(
            ApiError::conflict("Ce modèle ne supporte pas le mode vidéo choisi.".to_owned()),
        );
    }
    if !standing.installed {
        return Err(ApiError::conflict("Installez le modèle avant de générer.".to_owned()));
    }
    if *plan.model_id.as_str() != *MOTION && !standing.runtime_ready {
        return Err(
            ApiError::conflict(
                "MODEL_NOT_READY: le modèle est installé mais son runtime worker n'est pas READY.".to_owned(),
            ),
        );
    }
    let contract = match contract {
        Ok(known) => known,
        Err(refusal) => {
            return Err(refusal);
        },
    };
    match pack::validate_advanced_parameters(
        &standing.advanced_parameters,
        &request.advanced_parameters,
    ) {
        Ok(_) => {},
        Err(refusal) => {
            return Err(refusal);
        },
    }
    let images = images_of(request);
    if request.mode == GenerationMode::ImageToVideo {
        if images.len() == 0 {
            assert(video_images(request@).len() == 0);
            return Err(
                ApiError::bad_request(
                    "input_images est obligatoire pour le mode IMAGE_TO_VIDEO.".to_owned(),
                ),
            );
        }
        assert(video_images(request@).len() > 0);
        if has_duplicates(&images) {
            return Err(
                ApiError::bad_request(
                    "Les images d'entrée ne doivent pas être dupliquées.".to_owned(),
                ),
            );
        }
        match check_sources(sources, AssetKind::Image) {
            Ok(_) => {},
            Err(refusal) => {
                return Err(refusal);
            },
        }
    } else if request.mode == GenerationMode::VideoToVideo {
        if request.input_asset_id.is_none() {
            return Err(
                ApiError::bad_request("input_asset_id est obligatoire pour ce mode.".to_owned()),
            );
        }
        match check_sources(sources, AssetKind::Video) {
            Ok(_) => {},
            Err(refusal) => {
                return Err(refusal);
            },
        }
    }
    let frames: u32 = match plan.duration.checked_mul(plan.fps) {
        Some(product) => product,
        None => u32::MAX,
    };
    let capability = plan.capability;
    let model_id = plan.model_id;
    let generation = Generation {
        id,
        job_id: Some(job_id),
        kind: AssetKind::Video,
        mode: request.mode,
        capability: Some(capability),
        prompt: text::trim(request.prompt.as_str()).to_owned(),
        negative_prompt: text::copy_opt(&request.negative_prompt),
        model_id,
        model_pack_id: contract.model_pack_id,
        engine: Some(contract.engine),
        workflow: contract.workflow,
        input_asset_id: request.input_asset_id,
        mask_asset_id: None,
        control_asset_id: None,
        input_images: images,
        output_asset_id: None,
        status: GenerationStatus::Queued,
        progress: 0,
        error: None,
        error_code: None,
        error_retryable: false,
        created_at: now,
        updated_at: now,
        duration_seconds: Some(plan.duration),
        requested_duration_seconds: Some(Real::Whole(plan.duration)),
        resolution: Some(plan.quality.clone()),
        requested_quality: Some(plan.quality),
        requested_preset: Some(plan.preset),
        advanced_parameters: request.advanced_parameters.copy(),
        requested_aspect_ratio: Some(plan.aspect_ratio),
        requested_fps: Some(plan.fps),
        requested_frames: Some(frames),
        inference_frames: None,
        actual_width: None,
        actual_height: None,
        actual_fps: None,
        actual_frames: None,
        actual_duration: None,
        audio: request.audio,
        actual_audio: false,
        audio_codec: None,
        audio_channels: None,
        audio_sample_rate: None,
    };
    let queued = make_job(&generation, job_id, "Vidéo ajoutée à la file", now);
    Ok((generation, queued))
}

/// Admits a request for a video under fresh identifiers, now.
pub fn generate_video(
    request: &GenerateVideoRequest,
    plan: VideoPlan,
    standing: &Standing,
    contract: Result<GenerationRuntimeContract, ApiError>,
    sources: &Vec<Result<AssetKind, ApiError>>,
) -> (result: Result<(Generation, Job), ApiError>)
    requires
        capability::video_mode(request.mode),
    ensures
        exists|id: u128, job_id: u128, now: u64|
            admission(result) == #[trigger] video_admission(
                request@,
                plan@,
                *standing,
                pack::contract_says(contract),
                sources_say(sources@),
                id,
                job_id,
                now,
            ),
{
    let job_id: u128 = identity::new_id();
    let id: u128 = identity::new_id();
    let now: u64 = identity::unix_now();
    admit_video(request, plan, standing, contract, sources, id, job_id, now)
}

// ---------------------------------------------------------------------------
// All generations
// ---------------------------------------------------------------------------

/// Whether a generation waits or is being worked on.
pub open spec fn unfinished(status: GenerationStatus) -> bool {
    status == GenerationStatus::Queued || status == GenerationStatus::Running
}

/// A generation that the end of the service interrupted, as a failure that may
/// be tried again; any other as it is.
pub open spec fn interrupted(generation: GenerationView, now: u64) -> GenerationView {
    if unfinished(generation.status) {
        GenerationView {
            status: GenerationStatus::Failed,
            error: Some("Génération interrompue par un redémarrage du backend."@),
            error_code: Some("GENERATION_INTERRUPTED"@),
            error_retryable: true,
            updated_at: now,
            ..generation
        }
    } else {
        generation
    }
}

/// Fails a generation that the end of the service interrupted; says whether it
/// was one.
pub fn interrupt(generation: &mut Generation, now: u64) -> (changed: bool)
    ensures
        changed == unfinished(old(generation)@.status),
        final(generation)@ == interrupted(old(generation)@, now),
{
    if matches!(generation.status, GenerationStatus::Queued | GenerationStatus::Running) {
        generation.status = GenerationStatus::Failed;
        generation.error = Some("Génération interrompue par un redémarrage du backend.".to_owned());
        generation.error_code = Some("GENERATION_INTERRUPTED".to_owned());
        generation.error_retryable = true;
        generation.updated_at = now;
        true
    } else {
        false
    }
}

/// The event that tells of a generation.
pub open spec fn event_of(status: GenerationStatus) -> Seq<char> {
    match status {
        GenerationStatus::Queued | GenerationStatus::Running => "generation.progress"@,
        GenerationStatus::Completed => "generation.completed"@,
        GenerationStatus::Failed => "generation.failed"@,
        GenerationStatus::Cancelled => "generation.cancelled"@,
    }
}

/// The event that tells of a generation.
pub fn event_name(status: &GenerationStatus) -> (event: &'static str)
    ensures
        event@ == event_of(*status),
{
    match status {
        GenerationStatus::Queued | GenerationStatus::Running => "generation.progress",
        GenerationStatus::Completed => "generation.completed",
        GenerationStatus::Failed => "generation.failed",
        GenerationStatus::Cancelled => "generation.cancelled",
    }
}

/// The generations of a service, each under its own identifier, and those that
/// were asked to stop.
pub struct Generations {
    pub list: Vec<Generation>,
    pub cancelled: Vec<u128>,
}

/// The identifiers of generations.
pub open spec fn ids(list: Seq<GenerationView>) -> Seq<u128> {
    Seq::new(list.len(), |i: int| list[i].id)
}

/// Where a generation stands.
pub open spec fn place(list: Seq<GenerationView>, id: u128) -> Option<int> {
    lookup::place(ids(list), id)
}

/// When generations were created.
pub open spec fn creations(list: Seq<GenerationView>) -> Seq<u64> {
    Seq::new(list.len(), |i: int| list[i].created_at)
}

/// Whether a list is that of all generations, the newer first, and those of one
/// time in the order in which they were entered.
pub open spec fn is_listing(listing: Seq<GenerationView>, list: Seq<GenerationView>) -> bool {
    exists|order: Seq<usize>|
        order::stable(order, list.len(), order::falling(creations(list))) && listing
            == #[trigger] order::picked(list, order)
}

/// What is said of a generation that is not known.
pub open spec fn unknown_generation() -> (u16, Seq<char>) {
    (error::NOT_FOUND, "Génération inconnue."@)
}

/// The generations alone: which of them were asked to stop is told by `cancelled`,
/// and contracts speak of that field itself.
impl View for Generations {
    type V = Seq<GenerationView>;

    open spec fn view(&self) -> Seq<GenerationView> {
        Seq::new(self.list@.len(), |i: int| self.list@[i]@)
    }
}

impl Generations {
    /// No two generations have one identifier.
    pub open spec fn wf(&self) -> bool {
        lookup::distinct(ids(self@))
    }

    /// No generations.
    pub fn new() -> (generations: Self)
        ensures
            generations.wf(),
            generations@ == Seq::<GenerationView>::empty(),
            generations.cancelled@ == Seq::<u128>::empty(),
    {
        let generations = Generations { list: Vec::new(), cancelled: Vec::new() };
        assert(generations@ =~= Seq::<GenerationView>::empty());
        generations
    }

    /// Where a generation stands.
    pub fn find(&self, id: u128) -> (at: Option<usize>)
        ensures
            match at {
                Some(k) => k < self@.len() && place(self@, id) == Some(k as int),
                None => place(self@, id) is None,
            },
    {
        for k in 0..self.list.len()
            invariant
                forall|j: int| 0 <= j < k ==> (#[trigger] self.list@[j])@.id != id,
        {
            if self.list[k].id == id {
                proof {
                    lookup::lemma_place_is(ids(self@), id, k as int);
                }
                return Some(k);
            }
        }
        proof {
            lookup::lemma_no_place(ids(self@), id);
        }
        None
    }

    /// Enters a generation, in place of one with the same identifier, and names
    /// the event that tells of it.
    pub fn update_generation(&mut self, generation: Generation) -> (event: &'static str)
        requires
            old(self).wf(),
        ensures
            final(self).wf(),
            final(self).cancelled == old(self).cancelled,
            event@ == event_of(generation@.status),
            final(self)@ == match place(old(self)@, generation@.id) {
                Some(at) => old(self)@.update(at, generation@),
                None => old(self)@.push(generation@),
            },
    {
        let ghost before = self@;
        let ghost entry = generation@;
        let event = event_name(&generation.status);
        proof {
            lookup::lemma_place(ids(before), entry.id);
        }
        match self.find(generation.id) {
            Some(at) => {
                self.list.set(at, generation);
                assert(self@ =~= before.update(at as int, entry));
                assert(ids(self@) =~= ids(before));
            },
            None => {
                self.list.push(generation);
                assert(self@ =~= before.push(entry));
                assert forall|i: int| 0 <= i < before.len() implies before[i].id != entry.id by {
                    assert(ids(before)[i] == before[i].id);
                    assert(ids(before).contains(ids(before)[i]));
                }
                assert forall|i: int, j: int| 0 <= i < j < ids(self@).len() implies ids(self@)[i]
                    != ids(self@)[j] by {
                    assert(ids(before)[i] == before[i].id);
                    if j < before.len() {
                        assert(ids(before)[j] == before[j].id);
                    }
                }
            },
        }
        event
    }

    /// Fails every generation that the end of the service interrupted, and
    /// returns their positions.
    pub fn interrupt_all(&mut self, now: u64) -> (changed: Vec<usize>)
        requires
            old(self).wf(),
        ensures
            final(self).wf(),
            final(self).cancelled == old(self).cancelled,
            final(self)@.len() == old(self)@.len(),
            forall|i: int|
                0 <= i < old(self)@.len() ==> #[trigger] final(self)@[i] == interrupted(
                    old(self)@[i],
                    now,
                ),
            forall|i: int| #![trigger changed@[i]]
                0 <= i < changed@.len() ==> changed@[i] < old(self)@.len() && unfinished(
                    old(self)@[changed@[i] as int].status,
                ),
            forall|k: usize|
                k < old(self)@.len() && unfinished(old(self)@[k as int].status)
                    ==> #[trigger] changed@.contains(k),
    {
        let ghost before = self@;
        let mut changed: Vec<usize> = Vec::new();
        let count: usize = self.list.len();
        for k in 0..count
            invariant
                count == self.list@.len() == before.len(),
                self.cancelled == old(self).cancelled,
                forall|i: int|
                    0 <= i < k ==> (#[trigger] self.list@[i])@ == interrupted(before[i], now),
                forall|i: int| k <= i < count ==> (#[trigger] self.list@[i])@ == before[i],
                forall|i: int| #![trigger changed@[i]]
                    0 <= i < changed@.len() ==> changed@[i] < before.len() && unfinished(
                        before[changed@[i] as int].status,
                    ),
                forall|j: usize|
                    j < k && unfinished(before[j as int].status) ==> #[trigger] changed@.contains(j),
        {
            let ghost listed = changed@;
            if interrupt(&mut self.list[k], now) {
                changed.push(k);
                assert(changed@[listed.len() as int] == k);
            }
            assert forall|j: usize| j < k + 1 && unfinished(before[j as int].status) implies #[trigger]
                changed@.contains(j) by {
                if j < k {
                    assert(listed.contains(j));
                    let at = choose|at: int| 0 <= at < listed.len() && listed[at] == j;
                    assert(changed@[at] == j);
                }
            }
        }
        assert(ids(self@) =~= ids(before));
        changed
    }

    /// Whether a generation was asked to stop.
    pub fn is_cancelled(&self, id: u128) -> (yes: bool)
        ensures
            yes == self.cancelled@.contains(id),
    {
        for i in 0..self.cancelled.len()
            invariant
                forall|j: int| 0 <= j < i ==> self.cancelled@[j] != id,
        {
            if self.cancelled[i] == id {
                return true;
            }
        }
        false
    }

    fn mark_cancelled(&mut self, id: u128)
        ensures
            final(self).list == old(self).list,
            forall|other: u128| #[trigger]
                final(self).cancelled@.contains(other) <==> other == id || old(
                    self,
                ).cancelled@.contains(other),
    {
        let ghost before = self.cancelled@;
        if !self.is_cancelled(id) {
            self.cancelled.push(id);
            assert(self.cancelled@[before.len() as int] == id);
            assert forall|other: u128| before.contains(other) implies self.cancelled@.contains(
                other,
            ) by {
                let at = choose|at: int| 0 <= at < before.len() && before[at] == other;
                assert(self.cancelled@[at] == other);
            }
        }
    }

    /// Copies of all generations, the newer first.
    pub fn list_generations(&self) -> (listing: Vec<Generation>)
        ensures
            is_listing(Seq::new(listing@.len(), |i: int| listing@[i]@), self@),
    {
        let mut keys: Vec<u64> = Vec::new();
        for k in 0..self.list.len()
            invariant
                keys@.len() == k,
                forall|j: int| 0 <= j < k ==> keys@[j] == (#[trigger] self.list@[j])@.created_at,
        {
            keys.push(self.list[k].created_at);
        }
        assert(keys@ =~= creations(self@));
        let order = order::falling_order(&keys);
        let mut listing: Vec<Generation> = Vec::new();
        for n in 0..order.len()
            invariant
                order::permutes(order@, self@.len()),
                listing@.len() == n,
                forall|i: int|
                    0 <= i < n ==> (#[trigger] listing@[i])@ == self@[order@[i] as int],
        {
            let at: usize = order[n];
            listing.push(self.list[at].copy());
        }
        assert(Seq::new(listing@.len(), |i: int| listing@[i]@) =~= order::picked(self@, order@));
        listing
    }

    /// A copy of a generation.
    pub fn get_generation(&self, id: u128) -> (result: Result<Generation, ApiError>)
        ensures
            match result {
                Ok(generation) => place(self@, id) is Some && generation@ == self@[place(
                    self@,
                    id,
                )->0],
                Err(refusal) => place(self@, id) is None && error::says(refusal)
                    == unknown_generation(),
            },
    {
        match self.find(id) {
            Some(at) => Ok(self.list[at].copy()),
            None => Err(ApiError::not_found("Génération inconnue.".to_owned())),
        }
    }

    /// Asks a generation to stop, and returns a copy of it; one that has ended
    /// cannot be stopped.
    pub fn cancel_generation(&mut self, id: u128) -> (result: Result<Generation, ApiError>)
        ensures
            final(self).list == old(self).list,
            match result {
                Ok(generation) => {
                    &&& place(old(self)@, id) is Some
                    &&& generation@ == old(self)@[place(old(self)@, id)->0]
                    &&& unfinished(generation@.status)
                    &&& forall|other: u128| #[trigger]
                        final(self).cancelled@.contains(other) <==> other == id || old(
                            self,
                        ).cancelled@.contains(other)
                },
                Err(refusal) => {
                    &&& final(self).cancelled == old(self).cancelled
                    &&& match place(old(self)@, id) {
                        Some(at) => !unfinished(old(self)@[at].status) && error::says(refusal) == (
                            error::CONFLICT,
                            "Cette génération est déjà terminée."@,
                        ),
                        None => error::says(refusal) == unknown_generation(),
                    }
                },
            },
    {
        match self.find(id) {
            Some(at) => {
                if !matches!(
                    self.list[at].status,
                    GenerationStatus::Queued | GenerationStatus::Running
                ) {
                    return Err(
                        ApiError::conflict("Cette génération est déjà terminée.".to_owned()),
                    );
                }
                let generation = self.list[at].copy();
                self.mark_cancelled(id);
                Ok(generation)
            },
            None => Err(ApiError::not_found("Génération inconnue.".to_owned())),
        }
    }

    /// Forgets a generation; one that is still worked on is asked to stop.
    pub fn delete_generation(&mut self, id: u128) -> (result: Result<(), ApiError>)
        requires
            old(self).wf(),
        ensures
            final(self).wf(),
            match place(old(self)@, id) {
                Some(at) => {
                    &&& result is Ok
                    &&& final(self)@ == old(self)@.remove(at)
                    &&& forall|other: u128| #[trigger]
                        final(self).cancelled@.contains(other) <==> old(self).cancelled@.contains(
                            other,
                        ) || (other == id && unfinished(old(self)@[at].status))
                },
                None => *final(self) == *old(self) && pack::refused(result) == Some(
                    unknown_generation(),
                ),
            },
    {
        match self.find(id) {
            Some(at) => {
                let ghost before = self@;
                let removed = self.list.remove(at);
                assert(self@ =~= before.remove(at as int));
                assert forall|i: int, j: int| 0 <= i < j < ids(self@).len() implies ids(self@)[i]
                    != ids(self@)[j] by {
                    let a = if i < at {
                        i
                    } else {
                        i + 1
                    };
                    let b = if j < at {
                        j
                    } else {
                        j + 1
                    };
                    assert(ids(before)[a] != ids(before)[b]);
                }
                if matches!(
                    removed.status,
                    GenerationStatus::Queued | GenerationStatus::Running
                ) {
                    self.mark_cancelled(id);
                }
                Ok(())
            },
            None => Err(ApiError::not_found("Génération inconnue.".to_owned())),
        }
    }
}

/// The first job whose target is a generation.
pub open spec fn job_for(jobs: Seq<JobView>, id: u128) -> Option<u128>
    decreases jobs.len(),
{
    if jobs.len() == 0 {
        None
    } else if jobs[0].target_id == identity::hyphenated(id) {
        Some(jobs[0].id)
    } else {
        job_for(jobs.drop_first(), id)
    }
}

/// The job that works on a generation, to be cancelled at the worker.
pub fn find_job(jobs: &Vec<Job>, id: u128) -> (job_id: Option<u128>)
    ensures
        job_id == job_for(Seq::new(jobs@.len(), |i: int| jobs@[i]@), id),
{
    let target = identity::id_text(id);
    let ghost all = Seq::new(jobs@.len(), |i: int| jobs@[i]@);
    assert(all.skip(0) =~= all);
    for i in 0..jobs.len()
        invariant
            target@ == identity::hyphenated(id),
            all == Seq::new(jobs@.len(), |i: int| jobs@[i]@),
            job_for(all, id) == job_for(all.skip(i as int), id),
    {
        assert(all.skip(i as int)[0] == all[i as int]);
        assert(all.skip(i as int).drop_first() =~= all.skip(i + 1));
        if *jobs[i].target_id.as_str() == *target.as_str() {
            return Some(jobs[i].id);
        }
    }
    assert(all.skip(all.len() as int).len() == 0);
    None
}

// ---------------------------------------------------------------------------
// Laws
// ---------------------------------------------------------------------------

/// A video that is admitted lasts 2 to 15 seconds at 1 to 60 frames a second, in
/// a quality and a ratio that are known, and its frames are counted exactly.
pub proof fn law_plans_are_bounded(mode: ApplicationMode, request: VideoAskView)
    requires
        video_plan(mode, request) is Ok,
    ensures
        ({
            let plan = video_plan(mode, request)->Ok_0;
            &&& 2 <= plan.duration <= 15
            &&& 1 <= plan.fps <= 60
            &&& known_quality(plan.quality)
            &&& known_ratio(plan.aspect_ratio)
            &&& pack::preset_name(plan.preset)
            &&& frames_of(plan) == plan.duration * plan.fps
        }),
{
    let plan = video_plan(mode, request)->Ok_0;
    assert(plan.duration * plan.fps <= 900) by (nonlinear_arith)
        requires
            plan.duration <= 15,
            plan.fps <= 60,
    ;
}

/// Production neither chooses a local engine for an image nor accepts one.
pub proof fn law_production_runs_no_local_image_engine(mode: ApplicationMode, request: ImageAskView)
    ensures
        request.model_id is None ==> image_model(mode, ApplicationProfile::GpuProduction, request)
            is Err,
        image_capability(ApplicationProfile::GpuProduction, true, request) is Err,
{
}

/// A generation is queued only for a model that is installed, that can run the
/// mode and the capability, and, local engines aside, whose runtime is ready.
pub proof fn law_admitted_models_can_serve(
    request: ImageAskView,
    model_id: Seq<char>,
    capability: ModelCapability,
    standing: Standing,
    contract: Result<ContractView, (u16, Seq<char>)>,
    id: u128,
    job_id: u128,
    now: u64,
)
    requires
        image_admission(request, model_id, capability, standing, contract, id, job_id, now) is Ok,
    ensures
        standing.installed,
        standing.runtime_capabilities@.contains(capability),
        model_id == CANVAS@ || standing.runtime_ready,
        contract is Ok,
        ({
            let queued = image_admission(
                request,
                model_id,
                capability,
                standing,
                contract,
                id,
                job_id,
                now,
            )->Ok_0;
            &&& queued.0.status == GenerationStatus::Queued
            &&& queued.0.job_id == Some(queued.1.id)
            &&& queued.1.target_id == identity::hyphenated(queued.0.id)
        }),
{
}

/// No generation is left unfinished after a restart, and one that had ended is
/// left as it was.
pub proof fn law_restart_finishes_all(generation: GenerationView, now: u64)
    ensures
        !unfinished(interrupted(generation, now).status),
        !unfinished(generation.status) ==> interrupted(generation, now) == generation,
{
}

/// A plan has what was asked for: the ratio, the quality, the rate, the capability
/// and the model that a request names are those that are planned, and so is a
/// duration between 2 and 15 seconds.
pub proof fn law_plans_keep_what_was_asked(
    mode: ApplicationMode,
    request: VideoAskView,
    plan: PlanView,
)
    requires
        video_plan(mode, request) == Ok::<PlanView, (u16, Seq<char>)>(plan),
    ensures
        request.aspect_ratio matches Some(asked) ==> plan.aspect_ratio == asked,
        request.quality matches Some(asked) ==> plan.quality == asked,
        request.fps matches Some(asked) ==> plan.fps == asked,
        request.capability matches Some(asked) ==> plan.capability == asked,
        request.model_id matches Some(asked) ==> plan.model_id == asked,
        request.preset matches Some(asked) ==> plan.preset == text::upper(asked),
        request.duration_seconds matches Some(asked) ==> {
            &&& 2 <= asked <= 15 ==> plan.duration == asked
            &&& asked < 2 ==> plan.duration == 2
            &&& asked > 15 ==> plan.duration == 15
        },
{
}

/// What a request leaves out is filled in: 16:9, six seconds, 24 frames a second,
/// the local engine, the capability of the mode, and the quality of the preset.
pub proof fn law_plans_fill_in_the_rest(
    mode: ApplicationMode,
    request: VideoAskView,
    plan: PlanView,
)
    requires
        video_plan(mode, request) == Ok::<PlanView, (u16, Seq<char>)>(plan),
    ensures
        request.aspect_ratio is None ==> plan.aspect_ratio == "16:9"@,
        request.duration_seconds is None ==> plan.duration == 6,
        request.fps is None ==> plan.fps == 24,
        request.model_id is None ==> plan.model_id == "vidio-motion-local"@,
        request.capability is None ==> {
            &&& request.mode == GenerationMode::TextToVideo ==> plan.capability
                == ModelCapability::TextToVideo
            &&& request.mode == GenerationMode::ImageToVideo ==> plan.capability
                == ModelCapability::ImageToVideo
            &&& request.mode == GenerationMode::VideoToVideo ==> plan.capability
                == ModelCapability::VideoToVideo
        },
        request.preset is None ==> plan.preset == "BALANCED"@,
        request.quality is None ==> {
            &&& plan.preset == "FAST"@ ==> plan.quality == "480p"@
            &&& plan.preset == "BALANCED"@ ==> plan.quality == "720p"@
            &&& plan.preset == "QUALITY"@ ==> plan.quality == "1080p"@
        },
{
    reveal_strlit("FAST");
    reveal_strlit("BALANCED");
    reveal_strlit("QUALITY");
    reveal_strlit("NATIVE");
    reveal_strlit("480p");
    reveal_strlit("720p");
    reveal_strlit("1080p");
    assert("FAST"@.len() == 4 && "BALANCED"@.len() == 8 && "QUALITY"@.len() == 7);
    if request.preset is None && request.quality is Some {
        let shouted = text::upper(request.quality->0);
        let first = request.quality->0[0];
        assert(shouted[0] == text::upper_char(first));
        assert(first == '4' || first == '7' || first == '1');
        assert("FAST"@[0] == 'F' && "BALANCED"@[0] == 'B' && "QUALITY"@[0] == 'Q' && "NATIVE"@[0]
            == 'N');
    }
}

/// A plan is granted exactly where jobs are taken, the mode is one of a video, the
/// prompt has 3 to 1000 bytes once trimmed, and the preset, the quality, the ratio
/// and the rate are ones that are known.
pub proof fn law_plans_are_granted(mode: ApplicationMode, request: VideoAskView)
    ensures
        video_plan(mode, request) is Ok <==> {
            &&& mode == ApplicationMode::AcceptingJobs
            &&& request.mode != GenerationMode::TextToImage
            &&& request.mode != GenerationMode::ImageToImage
            &&& 3 <= text::utf8_len(text::trimmed(request.prompt)) <= 1000
            &&& request.preset matches Some(name) ==> {
                ||| text::upper(name) == "FAST"@
                ||| text::upper(name) == "BALANCED"@
                ||| text::upper(name) == "QUALITY"@
            }
            &&& request.quality matches Some(name) ==> name == "480p"@ || name == "720p"@ || name
                == "1080p"@
            &&& request.aspect_ratio matches Some(name) ==> name == "16:9"@ || name == "9:16"@
                || name == "1:1"@
            &&& request.fps matches Some(number) ==> 1 <= number <= 60
        },
        video_plan(mode, request) matches Err(refusal) ==> refusal.0 == if mode
            != ApplicationMode::AcceptingJobs {
            503u16
        } else {
            400u16
        },
{
}

proof fn lemma_sources_are_right(
    sources: Seq<Result<AssetKind, (u16, Seq<char>)>>,
    expected: AssetKind,
)
    ensures
        source_refusal(sources, expected) is None <==> forall|i: int|
            0 <= i < sources.len() ==> #[trigger] sources[i] == Ok::<AssetKind, (u16, Seq<char>)>(
                expected,
            ),
    decreases sources.len(),
{
    if sources.len() > 0 {
        lemma_sources_are_right(sources.drop_first(), expected);
        let rest = sources.drop_first();
        assert forall|i: int| 0 <= i < rest.len() implies rest[i] == sources[i + 1] by {}
        if source_refusal(sources, expected) is None {
            assert forall|i: int| 0 <= i < sources.len() implies #[trigger] sources[i] == Ok::<
                AssetKind,
                (u16, Seq<char>),
            >(expected) by {
                if i > 0 {
                    assert(rest[i - 1] == sources[i]);
                }
            }
        }
        if forall|i: int|
            0 <= i < sources.len() ==> #[trigger] sources[i] == Ok::<AssetKind, (u16, Seq<char>)>(
                expected,
            ) {
            assert(sources[0] == Ok::<AssetKind, (u16, Seq<char>)>(expected));
            assert forall|i: int| 0 <= i < rest.len() implies #[trigger] rest[i] == Ok::<
                AssetKind,
                (u16, Seq<char>),
            >(expected) by {
                assert(sources[i + 1] == Ok::<AssetKind, (u16, Seq<char>)>(expected));
            }
        }
    }
}

/// A video is only queued where the model has the capability, is installed and,
/// unless it is the local engine, is ready, and where all its sources are there
/// and of the right kind: images, each once, for an animation, and a video for a
/// change of a video.
pub proof fn law_queued_videos_can_be_made(
    request: VideoAskView,
    plan: PlanView,
    standing: Standing,
    contract: Result<ContractView, (u16, Seq<char>)>,
    sources: Seq<Result<AssetKind, (u16, Seq<char>)>>,
    id: u128,
    job_id: u128,
    now: u64,
)
    requires
        video_admission(request, plan, standing, contract, sources, id, job_id, now) is Ok,
    ensures
        contract is Ok,
        standing.installed,
        plan.model_id == "vidio-motion-local"@ || standing.runtime_ready,
        standing.runtime_capabilities@.contains(plan.capability),
        request.advanced_parameters is Object,
        request.mode == GenerationMode::TextToVideo ==> plan.capability
            == ModelCapability::TextToVideo,
        request.mode == GenerationMode::ImageToVideo ==> {
            &&& request.input_images.len() > 0 || request.input_asset_id is Some
            &&& forall|i: int, j: int|
                0 <= i < j < request.input_images.len() ==> (#[trigger] request.input_images[i]).asset_id
                    != (#[trigger] request.input_images[j]).asset_id
            &&& forall|i: int|
                0 <= i < sources.len() ==> #[trigger] sources[i] == Ok::<
                    AssetKind,
                    (u16, Seq<char>),
                >(AssetKind::Image)
        },
        request.mode == GenerationMode::VideoToVideo ==> {
            &&& request.input_asset_id is Some
            &&& forall|i: int|
                0 <= i < sources.len() ==> #[trigger] sources[i] == Ok::<
                    AssetKind,
                    (u16, Seq<char>),
                >(AssetKind::Video)
        },
{
    lemma_sources_are_right(sources, AssetKind::Image);
    lemma_sources_are_right(sources, AssetKind::Video);
    if request.mode == GenerationMode::ImageToVideo && request.input_images.len() > 0 {
        let images = request.input_images;
        assert forall|i: int, j: int| 0 <= i < j < images.len() implies (
        #[trigger] images[i]).asset_id != (#[trigger] images[j]).asset_id by {
            assert(asset_ids(images)[i] != asset_ids(images)[j]);
        }
    }
}

/// A queued video keeps the request word for word beside what was planned, has
/// made nothing yet, and its job speaks of it.
pub proof fn law_queued_videos_keep_the_request(
    request: VideoAskView,
    plan: PlanView,
    standing: Standing,
    contract: Result<ContractView, (u16, Seq<char>)>,
    sources: Seq<Result<AssetKind, (u16, Seq<char>)>>,
    id: u128,
    job_id: u128,
    now: u64,
    video: GenerationView,
    queued: JobView,
)
    requires
        video_admission(request, plan, standing, contract, sources, id, job_id, now) == Ok::<
            (GenerationView, JobView),
            (u16, Seq<char>),
        >((video, queued)),
    ensures
        video.id == id && video.job_id == Some(job_id),
        video.kind == AssetKind::Video && video.mode == request.mode,
        video.prompt == text::trimmed(request.prompt),
        video.negative_prompt == request.negative_prompt,
        video.model_id == plan.model_id && video.capability == Some(plan.capability),
        video.requested_aspect_ratio == Some(plan.aspect_ratio),
        video.requested_quality == Some(plan.quality) && video.resolution == Some(plan.quality),
        video.requested_preset == Some(plan.preset),
        video.requested_fps == Some(plan.fps),
        video.duration_seconds == Some(plan.duration),
        video.requested_duration_seconds == Some(Real::Whole(plan.duration)),
        plan.duration * plan.fps <= u32::MAX ==> video.requested_frames == Some(
            (plan.duration * plan.fps) as u32,
        ),
        video.audio == request.audio && !video.actual_audio,
        video.advanced_parameters == request.advanced_parameters,
        video.input_asset_id == request.input_asset_id,
        request.input_images.len() > 0 ==> video.input_images == request.input_images,
        request.mode != GenerationMode::ImageToVideo ==> video.input_images
            == request.input_images,
        request.mode == GenerationMode::ImageToVideo && request.input_images.len() == 0 ==> {
            &&& video.input_images.len() == 1
            &&& request.input_asset_id == Some(video.input_images[0].asset_id)
            &&& video.input_images[0].role == "start_frame"@
        },
        contract matches Ok(known) && video.model_pack_id == known.model_pack_id && video.engine
            == Some(known.engine) && video.workflow == known.workflow,
        video.status == GenerationStatus::Queued && video.progress == 0,
        video.error is None && video.error_code is None && video.output_asset_id is None,
        video.created_at == now && video.updated_at == now,
        queued.id == job_id && queued.kind == JobKind::GenerateVideo,
        queued.target_id == identity::hyphenated(id),
        queued.model_id == Some(plan.model_id),
        queued.capability == Some(plan.capability.name()),
        queued.status == job::JobStatus::Queued && queued.stage == "queued"@,
        queued.progress == 0 && queued.created_at == now,
{
}

/// A queued picture keeps the request word for word, has made nothing yet, and its
/// job speaks of it.
pub proof fn law_queued_pictures_keep_the_request(
    request: ImageAskView,
    model_id: Seq<char>,
    capability: ModelCapability,
    standing: Standing,
    contract: Result<ContractView, (u16, Seq<char>)>,
    id: u128,
    job_id: u128,
    now: u64,
    picture: GenerationView,
    queued: JobView,
)
    requires
        image_admission(request, model_id, capability, standing, contract, id, job_id, now) == Ok::<
            (GenerationView, JobView),
            (u16, Seq<char>),
        >((picture, queued)),
    ensures
        picture.id == id && picture.job_id == Some(job_id),
        picture.kind == AssetKind::Image && picture.mode == request.mode,
        picture.prompt == text::trimmed(request.prompt),
        picture.negative_prompt == request.negative_prompt,
        picture.model_id == model_id && picture.capability == Some(capability),
        picture.input_asset_id == request.input_asset_id,
        picture.mask_asset_id == request.mask_asset_id,
        picture.control_asset_id == request.control_asset_id,
        picture.requested_quality == request.quality,
        request.preset matches Some(name) ==> picture.requested_preset == Some(text::upper(name)),
        request.preset is None && request.quality is None ==> picture.requested_preset is None,
        picture.advanced_parameters == request.advanced_parameters,
        contract matches Ok(known) && picture.model_pack_id == known.model_pack_id
            && picture.engine == Some(known.engine) && picture.workflow == known.workflow,
        picture.status == GenerationStatus::Queued && picture.progress == 0,
        picture.error is None && picture.error_code is None && picture.output_asset_id is None,
        picture.created_at == now && picture.updated_at == now,
        queued.id == job_id && queued.kind == JobKind::GenerateImage,
        queued.target_id == identity::hyphenated(id),
        queued.model_id == Some(model_id),
        queued.capability == Some(capability.name()),
        queued.status == job::JobStatus::Queued && queued.stage == "queued"@,
        queued.progress == 0 && queued.created_at == now,
{
}

/// A picture is only queued for a model that has the mode and the capability, is
/// installed and, unless it is the local engine, is ready; and it is queued where
/// all that holds and nothing else in the request is refused.
pub proof fn law_pictures_are_admitted(
    request: ImageAskView,
    model_id: Seq<char>,
    capability: ModelCapability,
    standing: Standing,
    contract: Result<ContractView, (u16, Seq<char>)>,
    id: u128,
    job_id: u128,
    now: u64,
)
    ensures
        image_admission(request, model_id, capability, standing, contract, id, job_id, now) is Ok
            <==> {
            &&& standing.installed
            &&& model_id == "vidio-canvas-local"@ || standing.runtime_ready
            &&& standing.runtime_capabilities@.contains(capability)
            &&& standing.runtime_capabilities@.contains(
                if request.mode == GenerationMode::TextToImage {
                    ModelCapability::TextToImage
                } else {
                    ModelCapability::ImageToImage
                },
            )
            &&& contract is Ok
            &&& pack::preset_choice(request.preset, request.quality) is Ok
            &&& pack::parameter_refusal(
                text::texts(standing.advanced_parameters@),
                request.advanced_parameters,
            ) is None
        },
        !standing.installed || (model_id != "vidio-canvas-local"@ && !standing.runtime_ready) ==> (
        image_admission(request, model_id, capability, standing, contract, id, job_id, now)
            matches Err(refusal) && refusal.0 == 409),
{
}

/// A video is queued where the model can serve it, the contract stands, the
/// parameters are declared and the sources are right, and nowhere else.
pub proof fn law_videos_are_admitted(
    request: VideoAskView,
    plan: PlanView,
    standing: Standing,
    contract: Result<ContractView, (u16, Seq<char>)>,
    sources: Seq<Result<AssetKind, (u16, Seq<char>)>>,
    id: u128,
    job_id: u128,
    now: u64,
)
    requires
        request.mode == GenerationMode::TextToVideo,
    ensures
        video_admission(request, plan, standing, contract, sources, id, job_id, now) is Ok <==> {
            &&& plan.capability == ModelCapability::TextToVideo
            &&& standing.runtime_capabilities@.contains(ModelCapability::TextToVideo)
            &&& standing.installed
            &&& plan.model_id == "vidio-motion-local"@ || standing.runtime_ready
            &&& contract is Ok
            &&& pack::parameter_refusal(
                text::texts(standing.advanced_parameters@),
                request.advanced_parameters,
            ) is None
        },
{
}

/// The model of a picture is the one that was asked for; without one it is the
/// local engine, and nothing at all in production. A change of a picture needs a
/// picture.
pub proof fn law_the_model_of_a_picture_is_the_one_asked_for(
    mode: ApplicationMode,
    profile: ApplicationProfile,
    request: ImageAskView,
)
    ensures
        image_model(mode, profile, request) matches Ok(model) ==> {
            &&& request.model_id matches Some(asked) ==> model == asked
            &&& request.model_id is None ==> model == "vidio-canvas-local"@ && profile
                != ApplicationProfile::GpuProduction
        },
        image_model(mode, profile, request) is Ok <==> {
            &&& mode == ApplicationMode::AcceptingJobs
            &&& 3 <= text::utf8_len(text::trimmed(request.prompt)) <= 1000
            &&& request.mode == GenerationMode::ImageToImage ==> request.input_asset_id is Some
            &&& request.model_id is None ==> profile != ApplicationProfile::GpuProduction
        },
        image_model(mode, profile, request) matches Err(refusal) ==> refusal.0 == if mode
            != ApplicationMode::AcceptingJobs {
            503u16
        } else {
            400u16
        },
{
}

/// The capability of a picture is the one that was asked for, or that of the mode,
/// and always one of the mode.
pub proof fn law_the_capability_of_a_picture_fits_its_mode(
    profile: ApplicationProfile,
    local: bool,
    request: ImageAskView,
)
    ensures
        image_capability(profile, local, request) matches Ok(chosen) ==> {
            &&& request.capability matches Some(asked) ==> chosen == asked
            &&& request.capability is None && request.mode == GenerationMode::TextToImage
                ==> chosen == ModelCapability::TextToImage
            &&& request.capability is None && request.mode == GenerationMode::ImageToImage
                ==> chosen == ModelCapability::ImageToImage
            &&& request.mode == GenerationMode::TextToImage ==> chosen
                == ModelCapability::TextToImage
            &&& request.mode == GenerationMode::ImageToImage ==> chosen
                != ModelCapability::TextToImage
            &&& request.mode == GenerationMode::TextToImage || request.mode
                == GenerationMode::ImageToImage
        },
        !local && request.capability is None && (request.mode == GenerationMode::TextToImage
            || request.mode == GenerationMode::ImageToImage) ==> image_capability(
            profile,
            local,
            request,
        ) is Ok,
        local && profile != ApplicationProfile::GpuProduction && request.capability is None
            && request.mode == GenerationMode::TextToImage ==> image_capability(
            profile,
            local,
            request,
        ) is Ok,
{
}

/// A generation that a restart cuts off has failed, may be tried again, and keeps
/// everything else; one that has ended is left alone.
pub proof fn law_cut_off_generations_may_be_tried_again(generation: GenerationView, now: u64)
    ensures
        ({
            let after = interrupted(generation, now);
            &&& after.id == generation.id && after.prompt == generation.prompt
            &&& after.output_asset_id == generation.output_asset_id
            &&& after.progress == generation.progress
            &&& generation.status == GenerationStatus::Queued || generation.status
                == GenerationStatus::Running ==> {
                &&& after.status == GenerationStatus::Failed
                &&& after.error is Some
                &&& after.error_code == Some("GENERATION_INTERRUPTED"@)
                &&& after.error_retryable
                &&& after.updated_at == now
            }
            &&& generation.status == GenerationStatus::Completed || generation.status
                == GenerationStatus::Failed || generation.status == GenerationStatus::Cancelled
                ==> after == generation
        }),
{
}

/// The event of a generation tells how it ended: no two endings have one event,
/// and one that goes on has that of neither.
pub proof fn law_events_tell_how_generations_end(one: GenerationStatus, other: GenerationStatus)
    ensures
        event_of(one) == event_of(other) <==> one == other || (unfinished(one) && unfinished(
            other,
        )),
        event_of(GenerationStatus::Completed) == "generation.completed"@,
        event_of(GenerationStatus::Failed) == "generation.failed"@,
        event_of(GenerationStatus::Cancelled) == "generation.cancelled"@,
        event_of(GenerationStatus::Running) == "generation.progress"@,
        one.name() == other.name() <==> one == other,
        GenerationStatus::Completed.name() == "completed"@,
        GenerationStatus::Failed.name() == "failed"@,
        GenerationStatus::Cancelled.name() == "cancelled"@,
        GenerationStatus::Queued.name() == "queued"@,
        GenerationStatus::Running.name() == "running"@,
{
    reveal_strlit("generation.completed");
    reveal_strlit("generation.failed");
    reveal_strlit("generation.cancelled");
    reveal_strlit("generation.progress");
    reveal_strlit("completed");
    reveal_strlit("failed");
    reveal_strlit("cancelled");
    reveal_strlit("queued");
    reveal_strlit("running");
    assert("generation.completed"@[12] == 'o' && "generation.failed"@[12] == 'a'
        && "generation.cancelled"@[12] == 'a' && "generation.progress"@[12] == 'r');
    assert("generation.failed"@.len() == 17 && "generation.cancelled"@.len() == 20);
    assert("completed"@[1] == 'o' && "failed"@[1] == 'a' && "cancelled"@[1] == 'a' && "queued"@[1]
        == 'u' && "running"@[1] == 'u');
    assert("failed"@.len() == 6 && "cancelled"@.len() == 9 && "queued"@[0] == 'q' && "running"@[0]
        == 'r');
}

/// A list of generations holds each of them once, and none is older than one that
/// stands behind it.
pub proof fn law_newer_generations_come_first(
    listing: Seq<GenerationView>,
    list: Seq<GenerationView>,
)
    requires
        is_listing(listing, list),
        list.len() <= usize::MAX,
    ensures
        listing.len() == list.len(),
        forall|i: int| 0 <= i < listing.len() ==> list.contains(#[trigger] listing[i]),
        forall|i: int| 0 <= i < list.len() ==> listing.contains(#[trigger] list[i]),
        forall|i: int, j: int|
            0 <= i < j < listing.len() ==> (#[trigger] listing[i]).created_at >= (
            #[trigger] listing[j]).created_at,
{
    let order = choose|order: Seq<usize>|
        order::stable(order, list.len(), order::falling(creations(list))) && listing
            == #[trigger] order::picked(list, order);
    order::lemma_picked_are_all(list, order);
    assert forall|i: int, j: int| 0 <= i < j < listing.len() implies (
    #[trigger] listing[i]).created_at >= (#[trigger] listing[j]).created_at by {
        order::law_keys_are_in_order(order, creations(list), i, j);
        assert(order[i] < list.len() && order[j] < list.len());
    }
}

/// The job of a generation is one that names it, and is found where there is one.
pub proof fn law_jobs_are_found_by_what_they_make(jobs: Seq<JobView>, id: u128)
    ensures
        job_for(jobs, id) matches Some(found) ==> exists|i: int|
            0 <= i < jobs.len() && (#[trigger] jobs[i]).id == found && jobs[i].target_id
                == identity::hyphenated(id),
        job_for(jobs, id) is None ==> forall|i: int|
            0 <= i < jobs.len() ==> (#[trigger] jobs[i]).target_id != identity::hyphenated(id),
    decreases jobs.len(),
{
    if jobs.len() > 0 {
        let rest = jobs.drop_first();
        law_jobs_are_found_by_what_they_make(rest, id);
        assert forall|i: int| 0 <= i < rest.len() implies rest[i] == jobs[i + 1] by {}
        if jobs[0].target_id != identity::hyphenated(id) {
            if job_for(jobs, id) is Some {
                let i = choose|i: int|
                    0 <= i < rest.len() && (#[trigger] rest[i]).id == job_for(jobs, id)->0
                        && rest[i].target_id == identity::hyphenated(id);
                assert(jobs[i + 1] == rest[i]);
            } else {
                assert forall|i: int| 0 <= i < jobs.len() implies (#[trigger] jobs[i]).target_id
                    != identity::hyphenated(id) by {
                    if i > 0 {
                        assert(rest[i - 1] == jobs[i]);
                    }
                }
            }
        }
    }
}

} // verus!
