//! Requests for images and videos, and the runs that serve them.
use vidioai::asset::{new_asset, Asset, VideoFacts};
use vidioai::capability::{GenerationMode, ModelCapability};
use vidioai::error::{ApiError, StructuredRuntimeError};
use vidioai::generation::{
    admit_image, admit_video, choose_image_capability, choose_image_model, event_name, find_job,
    generate_image, generate_video, plan_video, video_sources, AssetKind, GenerateImageRequest,
    GenerateVideoRequest, Generation, GenerationInputImage, GenerationStatus, Generations,
    Standing,
};
use vidioai::identity::id_text;
use vidioai::image_run::{
    check_guide, image_result, ImageAction, ImageEvent, ImagePhase, ImageRun, StagedInputs,
};
use vidioai::job::{ApplicationMode, JobKind, JobStatus, Jobs};
use vidioai::json::{Json, Real};
use vidioai::pack::{
    normalize_generation_preset, resolve_generation_runtime_contract, validate_advanced_parameters,
    CatalogModelStatus, GenerationRuntimeContract, ModelPack,
};
use vidioai::preflight::{require_worker_preflight, PreflightAnswer, PreflightResult};
use vidioai::settings::ApplicationProfile;
use vidioai::video_run::{
    check_source, encoded_microseconds, enrich, measured_progress, video_result, EncoderLook,
    ReadOutcome, SavedVideo, VideoAction, VideoEvent, VideoPhase, VideoRun,
};
use vidioai::worker::{
    cancel_outcome, install_payload, refusal_text, start_timeout_seconds, watch, GenerateResponse,
    Watch, WorkerErrorPayload, WorkerInstallOptions, WorkerJobStatus,
};

const LOCAL: ApplicationProfile = ApplicationProfile::Local;
const PRODUCTION: ApplicationProfile = ApplicationProfile::GpuProduction;
const OPEN: ApplicationMode = ApplicationMode::AcceptingJobs;

fn image_request() -> GenerateImageRequest {
    GenerateImageRequest {
        mode: GenerationMode::TextToImage,
        capability: None,
        prompt: "  un phare  ".into(),
        negative_prompt: None,
        model_id: Some("owner/model".into()),
        quality: None,
        preset: None,
        advanced_parameters: Json::Object(vec![]),
        input_asset_id: None,
        mask_asset_id: None,
        control_asset_id: None,
    }
}

fn video_request(mode: GenerationMode) -> GenerateVideoRequest {
    GenerateVideoRequest {
        mode,
        capability: None,
        prompt: "la mer".into(),
        negative_prompt: None,
        model_id: Some("owner/model".into()),
        input_asset_id: None,
        input_images: vec![],
        duration_seconds: Some(40),
        quality: None,
        preset: Some("fast".into()),
        advanced_parameters: Json::Object(vec![]),
        aspect_ratio: None,
        fps: None,
        audio: false,
    }
}

fn standing(capabilities: Vec<ModelCapability>) -> Standing {
    Standing {
        runtime_capabilities: capabilities,
        installed: true,
        runtime_ready: true,
        advanced_parameters: vec!["steps".into()],
    }
}

fn contract() -> Result<GenerationRuntimeContract, ApiError> {
    Ok(GenerationRuntimeContract {
        model_pack_id: Some("pack".into()),
        engine: "comfyui".into(),
        workflow: Some("flow.json".into()),
    })
}

fn answered() -> Result<PreflightAnswer, String> {
    Ok(PreflightAnswer {
        readiness: Ok(()),
        preflight: PreflightResult {
            model_id: "owner--model".into(),
            model_pack_id: Some("pack".into()),
            engine: Some("comfyui".into()),
            workflow: Some("flow.json".into()),
        },
    })
}

fn image_generation(mode: GenerationMode, input: Option<u128>) -> Generation {
    let mut request = image_request();
    request.mode = mode;
    request.input_asset_id = input;
    let capability = choose_image_capability(LOCAL, false, &request).unwrap();
    let all = vec![ModelCapability::TextToImage, ModelCapability::ImageToImage];
    admit_image(&request, "owner/model".into(), capability, &standing(all), contract(), 1, 2, 3)
        .unwrap()
        .0
}

fn video_generation(request: &GenerateVideoRequest, kinds: Vec<AssetKind>) -> Generation {
    let plan = plan_video(OPEN, request).unwrap();
    let all = vec![
        ModelCapability::TextToVideo,
        ModelCapability::ImageToVideo,
        ModelCapability::VideoToVideo,
    ];
    let sources = kinds.into_iter().map(Ok).collect();
    admit_video(request, plan, &standing(all), contract(), &sources, 1, 2, 3).unwrap().0
}

fn response(path: &str) -> GenerateResponse {
    GenerateResponse {
        job_id: id_text(2),
        state: "COMPLETED".into(),
        output_relative_path: path.into(),
        width: 640,
        height: 360,
        requested_quality: None,
        requested_aspect_ratio: None,
        requested_duration_seconds: None,
        requested_fps: None,
        requested_frames: None,
        inference_frames: Some(49),
        actual_width: None,
        actual_height: None,
        actual_fps: None,
        actual_frames: Some(48),
        actual_duration: None,
        actual_audio: false,
        audio_codec: None,
        audio_channels: None,
        audio_sample_rate: None,
        sha256: "a".repeat(64),
        benchmark: None,
    }
}

fn asset(kind: AssetKind) -> Asset {
    new_asset(9, kind, "f".into(), "x/y".into(), 4, Some((640, 360)), 5)
}

#[test]
fn an_image_is_admitted_with_its_job() {
    let mut request = image_request();
    request.advanced_parameters = Json::Object(vec![("steps".into(), Json::Integer(20))]);
    request.preset = Some("quality".into());
    let chosen = choose_image_model(OPEN, LOCAL, &request).unwrap();
    let capability = choose_image_capability(LOCAL, false, &request).unwrap();
    let able = standing(vec![ModelCapability::TextToImage]);
    let (generation, job) =
        admit_image(&request, chosen, capability, &able, contract(), 10, 20, 30).unwrap();
    assert_eq!(generation.prompt, "un phare");
    assert_eq!(generation.requested_preset.as_deref(), Some("QUALITY"));
    assert_eq!(generation.status, GenerationStatus::Queued);
    assert_eq!(generation.job_id, Some(20));
    assert_eq!(generation.engine.as_deref(), Some("comfyui"));
    assert_eq!(job.target_id, id_text(10));
    assert_eq!(job.kind, JobKind::GenerateImage);
    assert_eq!(job.capability.as_deref(), Some("TEXT_TO_IMAGE"));
    assert_eq!(job.message, "Génération ajoutée à la file");
    assert_eq!(job.created_at, 30);
    let (first, _) = generate_image(&request, "m".into(), capability, &able, contract()).unwrap();
    let (second, _) = generate_image(&request, "m".into(), capability, &able, contract()).unwrap();
    assert_ne!(first.id, second.id);
}

#[test]
fn images_are_refused_before_a_model_is_looked_up() {
    let refused = |mode, profile, request: &GenerateImageRequest| {
        choose_image_model(mode, profile, request).unwrap_err().message
    };
    let request = image_request();
    assert!(refused(ApplicationMode::Draining, LOCAL, &request).contains("drainage"));
    let mut short = image_request();
    short.prompt = " a ".into();
    assert_eq!(refused(OPEN, LOCAL, &short), "Le prompt doit contenir entre 3 et 1000 caractères.");
    let mut bare = image_request();
    bare.mode = GenerationMode::ImageToImage;
    assert_eq!(refused(OPEN, LOCAL, &bare), "input_asset_id est obligatoire en Image → Image.");
    let mut nameless = image_request();
    nameless.model_id = None;
    assert!(refused(OPEN, PRODUCTION, &nameless).starts_with("model_id est obligatoire"));
    assert_eq!(choose_image_model(OPEN, LOCAL, &nameless).unwrap(), "vidio-canvas-local");
}

#[test]
fn images_are_refused_for_what_a_model_cannot_do() {
    let mut request = image_request();
    assert_eq!(choose_image_capability(PRODUCTION, true, &request).unwrap_err().status, 409);
    request.mode = GenerationMode::TextToVideo;
    assert_eq!(
        choose_image_capability(LOCAL, false, &request).unwrap_err().message,
        "Capacité image invalide."
    );
    request.capability = Some(ModelCapability::TextToVideo);
    assert_eq!(
        choose_image_capability(LOCAL, false, &request).unwrap_err().message,
        "Utilisez /api/videos/generate pour un mode vidéo."
    );
    request.mode = GenerationMode::TextToImage;
    assert_eq!(
        choose_image_capability(LOCAL, false, &request).unwrap_err().message,
        "Capacité image invalide pour ce mode."
    );
    let asked = image_request();
    let refused = |able: Standing, known| {
        let capability = ModelCapability::TextToImage;
        admit_image(&asked, "owner/model".into(), capability, &able, known, 1, 2, 3)
            .unwrap_err()
            .message
    };
    let able = || standing(vec![ModelCapability::TextToImage]);
    assert_eq!(refused(standing(vec![]), contract()), "Ce modèle ne supporte pas ce mode de génération.");
    let absent = Standing { installed: false, ..able() };
    assert_eq!(refused(absent, contract()), "Installez le modèle avant de générer.");
    let cold = Standing { runtime_ready: false, ..able() };
    assert!(refused(cold, contract()).contains("n'est pas READY"));
    let missing = Err(ApiError::conflict("MODEL_PACK_MISSING: rien".into()));
    assert_eq!(refused(able(), missing), "MODEL_PACK_MISSING: rien");
}

#[test]
fn presets_and_parameters_are_known() {
    let quality = |name: &str| Some(name.to_owned());
    assert_eq!(normalize_generation_preset(&None, &quality("native")).unwrap().as_deref(), Some("QUALITY"));
    assert_eq!(normalize_generation_preset(&None, &quality("720p")).unwrap(), None);
    assert_eq!(
        normalize_generation_preset(&quality("ultra"), &None).unwrap_err().message,
        "Le preset doit être FAST, BALANCED ou QUALITY."
    );
    let declared = vec!["steps".to_owned()];
    let asked = Json::Object(vec![
        ("steps".into(), Json::Integer(1)),
        ("seed".into(), Json::Integer(2)),
        ("cfg".into(), Json::Integer(3)),
    ]);
    assert_eq!(
        validate_advanced_parameters(&declared, &asked).unwrap_err().message,
        "MODEL_PARAMETER_UNSUPPORTED: seed, cfg"
    );
    assert_eq!(
        validate_advanced_parameters(&declared, &Json::Null).unwrap_err().message,
        "advanced_parameters doit être un objet JSON."
    );
}

#[test]
fn a_contract_comes_from_the_pack_of_the_model() {
    let pack = |status, workflow: &str| ModelPack {
        id: "pack".into(),
        status,
        engine_name: "comfyui".into(),
        workflow_by_capability: vec![("TEXT_TO_IMAGE".into(), workflow.into())],
        inputs: Json::Null,
        presets: Json::Null,
    };
    let ready = pack(CatalogModelStatus::Ready, "flow.json");
    let capability = ModelCapability::TextToImage;
    let made =
        resolve_generation_runtime_contract("m", false, &None, Some(&ready), &capability).unwrap();
    assert_eq!(made.workflow.as_deref(), Some("flow.json"));
    assert_eq!(made.model_pack_id.as_deref(), Some("pack"));
    let own = resolve_generation_runtime_contract("m", true, &None, None, &capability).unwrap();
    assert_eq!(own.engine, "procedural");
    let refusal = |known: Option<&ModelPack>, asked: &ModelCapability| {
        resolve_generation_runtime_contract("m", false, &None, known, asked).unwrap_err().message
    };
    assert_eq!(refusal(None, &capability), "MODEL_PACK_MISSING: aucun pack Rust pour m et TEXT_TO_IMAGE");
    let closed = pack(CatalogModelStatus::Unsupported, "flow.json");
    assert_eq!(refusal(Some(&closed), &capability), "MODEL_INCOMPATIBLE: le pack pack n'est pas exécutable");
    assert_eq!(
        refusal(Some(&ready), &ModelCapability::TextToVideo),
        "WORKFLOW_INVALID: le pack pack ne déclare pas TEXT_TO_VIDEO"
    );
    let blank = pack(CatalogModelStatus::Ready, "  ");
    assert_eq!(
        refusal(Some(&blank), &capability),
        "WORKFLOW_INVALID: le pack pack ne déclare pas TEXT_TO_IMAGE"
    );
}

#[test]
fn a_video_is_planned_within_bounds() {
    let plan = plan_video(OPEN, &video_request(GenerationMode::TextToVideo)).unwrap();
    assert_eq!(plan.duration, 15);
    assert_eq!(plan.preset, "FAST");
    assert_eq!(plan.quality, "480p");
    assert_eq!(plan.aspect_ratio, "16:9");
    assert_eq!(plan.fps, 24);
    assert_eq!(plan.capability, ModelCapability::TextToVideo);
    let generation = video_generation(&video_request(GenerationMode::TextToVideo), vec![]);
    assert_eq!(generation.requested_frames, Some(360));
    assert_eq!(generation.requested_duration_seconds, Some(Real::Whole(15)));
    assert_eq!(generation.kind, AssetKind::Video);
}

#[test]
fn videos_are_refused_one_check_after_the_other() {
    let refused = |change: &dyn Fn(&mut GenerateVideoRequest)| {
        let mut request = video_request(GenerationMode::TextToVideo);
        change(&mut request);
        plan_video(OPEN, &request).err().unwrap().message
    };
    assert_eq!(
        refused(&|request| request.mode = GenerationMode::TextToImage),
        "Le mode demandé n'est pas un mode vidéo."
    );
    assert_eq!(
        refused(&|request| request.quality = Some("4k".into())),
        "La qualité doit être 480p, 720p ou 1080p."
    );
    assert_eq!(
        refused(&|request| request.aspect_ratio = Some("4:3".into())),
        "Le ratio doit être 16:9, 9:16 ou 1:1."
    );
    assert_eq!(
        refused(&|request| request.fps = Some(61)),
        "Le FPS doit être compris entre 1 et 60."
    );
    assert_eq!(
        refused(&|request| request.preset = Some("x".into())),
        "Le preset doit être FAST, BALANCED ou QUALITY."
    );
}

fn refused_video(
    request: &GenerateVideoRequest,
    able: &Standing,
    sources: Vec<Result<AssetKind, ApiError>>,
) -> String {
    let plan = plan_video(OPEN, request).unwrap();
    generate_video(request, plan, able, contract(), &sources).unwrap_err().message
}

#[test]
fn the_sources_of_a_video_are_checked() {
    let able = standing(vec![
        ModelCapability::TextToVideo,
        ModelCapability::ImageToVideo,
        ModelCapability::VideoToVideo,
    ]);
    let mut images = video_request(GenerationMode::ImageToVideo);
    assert_eq!(
        refused_video(&images, &able, vec![]),
        "input_images est obligatoire pour le mode IMAGE_TO_VIDEO."
    );
    images.input_images = vec![
        GenerationInputImage { asset_id: 5, order: 2, role: "end_frame".into() },
        GenerationInputImage { asset_id: 4, order: 1, role: "start_frame".into() },
    ];
    assert_eq!(video_sources(&images), vec![4, 5]);
    assert_eq!(
        refused_video(&images, &able, vec![Ok(AssetKind::Image), Ok(AssetKind::Video)]),
        "Le type de l'asset source ne correspond pas au mode."
    );
    let lost = Err(ApiError::not_found("Asset inconnu.".into()));
    assert_eq!(refused_video(&images, &able, vec![lost]), "Asset inconnu.");
    images.input_images[1].asset_id = 5;
    assert_eq!(
        refused_video(&images, &able, vec![]),
        "Les images d'entrée ne doivent pas être dupliquées."
    );
    let video = video_request(GenerationMode::VideoToVideo);
    assert_eq!(
        refused_video(&video, &able, vec![]),
        "input_asset_id est obligatoire pour ce mode."
    );
    let mut odd = video_request(GenerationMode::TextToVideo);
    odd.capability = Some(ModelCapability::VideoUpscale);
    assert_eq!(refused_video(&odd, &able, vec![]), "Capacité vidéo invalide pour ce mode.");
    let plain = video_request(GenerationMode::TextToVideo);
    assert_eq!(
        refused_video(&plain, &standing(vec![]), vec![]),
        "Ce modèle ne supporte pas le mode vidéo choisi."
    );
    let cold = Standing { runtime_ready: false, ..able };
    assert!(refused_video(&plain, &cold, vec![]).starts_with("MODEL_NOT_READY"));
}

#[test]
fn generations_are_kept_stopped_and_interrupted() {
    let mut all = Generations::new();
    assert_eq!(all.update_generation(image_generation(GenerationMode::TextToImage, None)), "generation.progress");
    assert_eq!(all.get_generation(1).unwrap().prompt, "un phare");
    assert_eq!(all.get_generation(8).unwrap_err().message, "Génération inconnue.");
    assert!(all.cancel_generation(1).is_ok());
    assert!(all.is_cancelled(1));
    assert_eq!(all.interrupt_all(50), vec![0]);
    let after = all.get_generation(1).unwrap();
    assert_eq!(after.status, GenerationStatus::Failed);
    assert_eq!(after.error_code.as_deref(), Some("GENERATION_INTERRUPTED"));
    assert!(after.error_retryable);
    assert!(all.interrupt_all(60).is_empty());
    assert_eq!(all.cancel_generation(1).unwrap_err().message, "Cette génération est déjà terminée.");
    assert!(all.delete_generation(1).is_ok());
    assert_eq!(all.delete_generation(1).unwrap_err().status, 404);
    assert!(all.list_generations().is_empty());
    assert_eq!(find_job(&vec![], 1), None);
    assert_eq!(event_name(&GenerationStatus::Completed), "generation.completed");
}

#[test]
fn the_worker_must_run_the_contract_that_was_queued() {
    let generation = image_generation(GenerationMode::TextToImage, None);
    assert!(require_worker_preflight(answered(), &generation, "owner--model").is_ok());
    let mut other = answered().unwrap();
    other.preflight.workflow = None;
    assert_eq!(
        require_worker_preflight(Ok(other), &generation, "owner--model").unwrap_err(),
        "PREFLIGHT_IDENTITY_MISMATCH: Contrat worker différent du choix Rust: model=owner--model pack=Some(\"pack\") engine=Some(\"comfyui\") workflow=None"
    );
    let mut busy = answered().unwrap();
    busy.readiness = Err(StructuredRuntimeError {
        code: "INSUFFICIENT_VRAM".into(),
        message: "trop peu".into(),
        retryable: true,
    });
    assert_eq!(
        require_worker_preflight(Ok(busy), &generation, "owner--model").unwrap_err(),
        "INSUFFICIENT_VRAM: trop peu"
    );
    assert_eq!(
        require_worker_preflight(Err("coupé".into()), &generation, "owner--model").unwrap_err(),
        "coupé"
    );
    let mut bare = image_generation(GenerationMode::TextToImage, None);
    bare.model_pack_id = None;
    assert!(require_worker_preflight(answered(), &bare, "owner--model")
        .unwrap_err()
        .starts_with("MODEL_PACK_MISSING"));
}

#[test]
fn an_image_is_made_by_the_worker() {
    let jobs = Jobs::new();
    let generation = image_generation(GenerationMode::TextToImage, None);
    let mut run = ImageRun::new(generation, 2, "owner--model".into(), true);
    let (report, action) = run.step(ImageEvent::Begin, &jobs, 10);
    assert_eq!(report.unwrap().progress, 12);
    assert!(matches!(action, ImageAction::AskCancellation));
    let (report, action) = run.step(ImageEvent::Cancellation(false), &jobs, 11);
    assert_eq!(report.unwrap().message, "Création de l'image");
    assert!(matches!(action, ImageAction::Record));
    let (_, action) = run.step(ImageEvent::Recorded, &jobs, 12);
    match action {
        ImageAction::Preflight(payload) => {
            assert_eq!(payload.text_member("model_id"), Some("owner--model"));
            assert_eq!(payload.text_member("capability"), Some("TEXT_TO_IMAGE"));
        }
        _ => panic!("a preflight"),
    }
    let (_, action) = run.step(ImageEvent::Preflight(answered()), &jobs, 13);
    let path = format!("generations/{}.png", id_text(1));
    match action {
        ImageAction::Generate(endpoint, body) => {
            assert_eq!(endpoint, "/v1/generate/text-to-image");
            assert_eq!(body.text_member("job_id"), Some(id_text(2).as_str()));
            assert_eq!(body.text_member("prompt"), Some("un phare"));
            assert_eq!(body.text_member("output_relative_path"), Some(path.as_str()));
            assert!(body.get("input_path").is_none());
        }
        _ => panic!("a request"),
    }
    let (_, action) = run.step(ImageEvent::Answered(Ok(response(&path))), &jobs, 14);
    assert!(matches!(action, ImageAction::Read(read, None) if read == path));
    let (_, action) = run.step(ImageEvent::Read(Ok(())), &jobs, 15);
    assert!(matches!(action, ImageAction::AskCancellation));
    let (report, action) = run.step(ImageEvent::Cancellation(false), &jobs, 16);
    assert_eq!(report.unwrap().status, JobStatus::SavingOutput);
    match action {
        ImageAction::Save(name, sides) => {
            assert_eq!(name, format!("generation-{}.png", id_text(1)));
            assert_eq!(sides, (640, 360));
        }
        _ => panic!("saving"),
    }
    let (report, action) = run.step(ImageEvent::Saved(Ok(asset(AssetKind::Image))), &jobs, 17);
    assert_eq!(report.unwrap().message, "Image disponible");
    assert!(matches!(action, ImageAction::Complete));
    assert_eq!(run.generation.status, GenerationStatus::Completed);
    assert_eq!(run.generation.output_asset_id, Some(9));
    assert_eq!(run.generation.actual_width, Some(640));
    let (report, action) = run.step(ImageEvent::Begin, &jobs, 18);
    assert!(report.is_none());
    assert!(matches!(action, ImageAction::Ignore));
    assert_eq!(run.phase, ImagePhase::Ended);
}

#[test]
fn an_image_from_an_image_is_staged_first() {
    let jobs = Jobs::new();
    let generation = image_generation(GenerationMode::ImageToImage, Some(44));
    let mut run = ImageRun::new(generation, 2, "owner--model".into(), true);
    run.step(ImageEvent::Begin, &jobs, 10);
    run.step(ImageEvent::Cancellation(false), &jobs, 11);
    let (_, action) = run.step(ImageEvent::Recorded, &jobs, 12);
    assert!(matches!(action, ImageAction::Stage(44)));
    let staged = StagedInputs { input: Some("/w/in".into()), mask: Some("/w/m".into()), control: None };
    let (_, action) = run.step(ImageEvent::Staged(Ok(staged)), &jobs, 13);
    assert!(matches!(action, ImageAction::Preflight(payload) if payload.text_member("input_path") == Some("/w/in")));
    let (_, action) = run.step(ImageEvent::Preflight(answered()), &jobs, 14);
    match action {
        ImageAction::Generate(_, body) => {
            assert_eq!(body.text_member("input_path"), Some("/w/in"));
            assert_eq!(body.text_member("mask_path"), Some("/w/m"));
            assert!(body.get("control_path").is_none());
        }
        _ => panic!("a request"),
    }
    let mut wrong = response("ailleurs.png");
    wrong.sha256 = "court".into();
    let (report, action) = run.step(ImageEvent::Answered(Ok(wrong)), &jobs, 15);
    assert!(matches!(action, ImageAction::End));
    assert_eq!(
        report.unwrap().message,
        "WORKER_RESULT_INVALID: state=COMPLETED path=ailleurs.png width=640 height=360 sha256_len=5"
    );
    assert_eq!(run.generation.status, GenerationStatus::Failed);
    assert_eq!(run.generation.progress, 100);
    assert_eq!(check_guide(&AssetKind::Video).unwrap_err(), "Le masque/contrôle doit être une image.");
}

#[test]
fn the_local_engine_draws_without_a_worker() {
    let jobs = Jobs::new();
    let mut generation = image_generation(GenerationMode::TextToImage, None);
    generation.model_id = "vidio-canvas-local".into();
    let mut run = ImageRun::new(generation, 2, "vidio-canvas-local".into(), false);
    run.step(ImageEvent::Begin, &jobs, 10);
    run.step(ImageEvent::Cancellation(false), &jobs, 11);
    let (_, action) = run.step(ImageEvent::Recorded, &jobs, 12);
    assert!(matches!(action, ImageAction::RenderText));
    run.step(ImageEvent::Rendered(Ok(())), &jobs, 13);
    let (_, action) = run.step(ImageEvent::Cancellation(false), &jobs, 14);
    assert!(matches!(action, ImageAction::Save(_, (1024, 1024))));
}

#[test]
fn an_image_can_be_stopped_or_lost() {
    let jobs = Jobs::new();
    let begun = || {
        let generation = image_generation(GenerationMode::TextToImage, None);
        let mut run = ImageRun::new(generation, 2, "owner--model".into(), false);
        run.step(ImageEvent::Begin, &jobs, 10);
        run
    };
    let mut stopped = begun();
    let (report, _) = stopped.step(ImageEvent::Cancellation(true), &jobs, 11);
    assert_eq!(report.unwrap().status, JobStatus::Cancelled);
    assert_eq!(stopped.generation.status, GenerationStatus::Cancelled);
    assert_eq!(stopped.generation.progress, 12);
    assert!(stopped.generation.error.is_none());
    let mut lost = begun();
    lost.step(ImageEvent::Cancellation(false), &jobs, 11);
    let (report, _) = lost.step(ImageEvent::Recorded, &jobs, 12);
    assert_eq!(report.unwrap().message, "GENERATION_FAILED: Worker GPU absent");
    assert_eq!(lost.generation.error.as_deref(), Some("Worker GPU absent"));
    assert_eq!(lost.generation.error_code.as_deref(), Some("GENERATION_FAILED"));
}

#[test]
fn results_name_the_asset() {
    let told = image_result(&asset(AssetKind::Image), Json::Null, Json::Null);
    assert_eq!(told.text_member("asset_id"), Some(id_text(9).as_str()));
    assert_eq!(told.get("width").unwrap().as_integer(), Some(640));
    let told = video_result(&asset(AssetKind::Video), Some(12), Json::Null, Json::Null);
    assert_eq!(told.text_member("codec"), Some("h264"));
    assert_eq!(told.get("frames").unwrap().as_integer(), Some(12));
}

#[test]
fn a_video_of_images_is_made_by_the_worker() {
    let jobs = Jobs::new();
    let mut request = video_request(GenerationMode::ImageToVideo);
    request.input_images = vec![
        GenerationInputImage { asset_id: 5, order: 2, role: "end_frame".into() },
        GenerationInputImage { asset_id: 4, order: 1, role: "start_frame".into() },
    ];
    let generation = video_generation(&request, vec![AssetKind::Image, AssetKind::Image]);
    let mut run = VideoRun::new(generation, 2, "owner--model".into(), true);
    let (report, _) = run.step(VideoEvent::Begin, &jobs, 10);
    assert_eq!(report.unwrap().progress, 8);
    let (_, action) = run.step(VideoEvent::Recorded, &jobs, 11);
    assert!(matches!(action, VideoAction::StageImages(ids) if ids == vec![4, 5]));
    let staged = vec!["/w/0.png".to_owned(), "/w/1.png".to_owned()];
    let (report, action) = run.step(VideoEvent::Staged(Ok(staged)), &jobs, 12);
    assert_eq!(report.unwrap().progress, 35);
    match action {
        VideoAction::Preflight(payload) => {
            assert_eq!(payload.text_member("input_path"), Some("/w/0.png"));
            match payload.get("input_images") {
                Some(Json::List(items)) => {
                    assert_eq!(items.len(), 2);
                    assert_eq!(items[1].text_member("role"), Some("end_frame"));
                    assert_eq!(items[1].text_member("source"), Some("/w/1.png"));
                    assert_eq!(items[1].get("order").unwrap().as_integer(), Some(2));
                }
                _ => panic!("a list"),
            }
        }
        _ => panic!("a preflight"),
    }
    let (_, action) = run.step(VideoEvent::Preflight(answered()), &jobs, 13);
    match action {
        VideoAction::Generate(endpoint, body) => {
            assert_eq!(endpoint, "/v1/generate/image-to-video");
            assert_eq!(body.text_member("quality"), Some("480p"));
            assert_eq!(body.get("duration_seconds").unwrap().as_integer(), Some(15));
        }
        _ => panic!("a request"),
    }
    let path = format!("generations/{}.mp4", id_text(1));
    let mut made = response(&path);
    made.requested_quality = Some("1080p".into());
    let (_, action) = run.step(VideoEvent::Answered(Ok(made)), &jobs, 14);
    assert!(matches!(action, VideoAction::Read(read) if read == path));
    assert_eq!(run.generation.requested_quality.as_deref(), Some("1080p"));
    assert_eq!(run.generation.inference_frames, Some(49));
    let (report, action) = run.step(VideoEvent::Read(ReadOutcome::Done), &jobs, 15);
    assert_eq!(report.unwrap().progress, 82);
    assert!(matches!(action, VideoAction::Save(_, (854, 480))));
    let mut saved = asset(AssetKind::Video);
    enrich(
        &mut saved,
        VideoFacts { width: 848, height: 480, duration_seconds: Real::Whole(15), fps: Real::Whole(24) },
    );
    let (report, action) =
        run.step(VideoEvent::Saved(Ok(SavedVideo { asset: saved, frames: Some(360) })), &jobs, 16);
    assert_eq!(report.unwrap().message, "Vidéo disponible");
    assert!(matches!(action, VideoAction::Complete));
    assert_eq!(run.generation.actual_width, Some(848));
    assert_eq!(run.generation.actual_frames, Some(48));
    assert_eq!(run.generation.actual_fps, Some(Real::Whole(24)));
    assert_eq!(run.phase, VideoPhase::Ended);
}

#[test]
fn sound_that_was_asked_for_must_be_there() {
    let jobs = Jobs::new();
    let mut request = video_request(GenerationMode::TextToVideo);
    request.audio = true;
    let mut run =
        VideoRun::new(video_generation(&request, vec![]), 2, "owner--model".into(), true);
    run.step(VideoEvent::Begin, &jobs, 10);
    run.step(VideoEvent::Recorded, &jobs, 11);
    run.step(VideoEvent::Preflight(answered()), &jobs, 12);
    let path = format!("generations/{}.mp4", id_text(1));
    let (report, action) = run.step(VideoEvent::Answered(Ok(response(&path))), &jobs, 13);
    assert!(matches!(action, VideoAction::End));
    assert!(report.unwrap().message.starts_with("NATIVE_AUDIO_NOT_VERIFIED"));
    assert_eq!(run.generation.error_code.as_deref(), Some("NATIVE_AUDIO_NOT_VERIFIED"));
    assert_eq!(run.generation.progress, 35);
}

fn encoding_run() -> VideoRun {
    let jobs = Jobs::new();
    let mut request = video_request(GenerationMode::VideoToVideo);
    request.model_id = None;
    request.input_asset_id = Some(77);
    request.duration_seconds = Some(10);
    let generation = video_generation(&request, vec![AssetKind::Video]);
    let mut run = VideoRun::new(generation, 2, "vidio-motion-local".into(), false);
    run.step(VideoEvent::Begin, &jobs, 10);
    let (_, action) = run.step(VideoEvent::Recorded, &jobs, 11);
    assert!(matches!(action, VideoAction::Locate(77)));
    let (report, action) = run.step(VideoEvent::Located(Ok(())), &jobs, 12);
    assert_eq!(report.unwrap().progress, 24);
    assert!(matches!(action, VideoAction::Encode));
    run
}

fn look(progress: Option<&str>) -> VideoEvent {
    VideoEvent::Encoder(EncoderLook {
        cancelled: false,
        ended: Ok(None),
        progress: progress.map(str::to_owned),
    })
}

#[test]
fn the_local_engine_encodes_and_reports_what_is_measured() {
    let jobs = Jobs::new();
    let mut run = encoding_run();
    let (report, action) = run.step(look(None), &jobs, 13);
    assert!(report.is_none());
    assert!(matches!(action, VideoAction::Watch));
    let (report, _) = run.step(look(Some("frame=1\nout_time_us=5000000\r\nprogress=continue\n")), &jobs, 14);
    let told = report.unwrap();
    assert_eq!((told.progress, told.message.as_str()), (56, "Encodage MP4 mesuré par FFmpeg"));
    let (report, _) = run.step(look(Some("out_time_us=4000000\n")), &jobs, 15);
    assert!(report.is_none());
    assert_eq!(run.generation.progress, 56);
    let ended = EncoderLook { cancelled: false, ended: Ok(Some(true)), progress: None };
    let (_, action) = run.step(VideoEvent::Encoder(ended), &jobs, 16);
    assert!(matches!(action, VideoAction::Collect));
    let (report, action) = run.step(VideoEvent::Collected(Ok(())), &jobs, 17);
    assert_eq!(report.unwrap().progress, 90);
    assert!(matches!(action, VideoAction::Save(..)));
}

#[test]
fn the_encoder_can_be_stopped_or_fail() {
    let jobs = Jobs::new();
    let mut stopped = encoding_run();
    let asked = EncoderLook { cancelled: true, ended: Ok(None), progress: None };
    let (report, action) = stopped.step(VideoEvent::Encoder(asked), &jobs, 13);
    assert!(matches!(action, VideoAction::Kill));
    assert_eq!(report.unwrap().status, JobStatus::Cancelled);
    let mut failed = encoding_run();
    let ended = EncoderLook { cancelled: false, ended: Ok(Some(false)), progress: None };
    let (report, _) = failed.step(VideoEvent::Encoder(ended), &jobs, 13);
    assert_eq!(
        report.unwrap().message,
        "VIDEO_ENCODING_FAILED: FFmpeg n'a pas pu produire la vidéo."
    );
    let mut absent = encoding_run();
    let (report, _) = absent.step(VideoEvent::NotStarted("introuvable".into()), &jobs, 13);
    assert_eq!(
        report.unwrap().message,
        "VIDEO_ENCODING_FAILED: FFmpeg indisponible : introuvable"
    );
}

#[test]
fn the_encoder_is_started_with_what_was_asked_for() {
    let run = encoding_run();
    let arguments = run.encoder_command("in.mp4", "p.txt", "out.mp4");
    assert_eq!(&arguments[..7], &["-y", "-loglevel", "error", "-i", "in.mp4", "-t", "10"]);
    let (wide, high) = run.sides;
    assert_eq!(
        arguments[8],
        format!("scale={wide}:{high}:force_original_aspect_ratio=increase,crop={wide}:{high},eq=contrast=1.04:saturation=1.10")
    );
    assert_eq!(arguments[9], "-an");
    assert_eq!(arguments.last().unwrap(), "out.mp4");
    assert_eq!(arguments[10..12], ["-r", "24"]);
}

#[test]
fn a_picture_that_the_worker_sketched_is_animated_as_it_was_asked_for() {
    let jobs = Jobs::new();
    let mut request = video_request(GenerationMode::TextToVideo);
    request.model_id = None;
    let generation = video_generation(&request, vec![]);
    let mut run = VideoRun::new(generation, 2, "vidio-motion-local".into(), true);
    let before = run.sides;
    run.step(VideoEvent::Begin, &jobs, 10);
    let (_, action) = run.step(VideoEvent::Recorded, &jobs, 11);
    assert!(matches!(action, VideoAction::Generate("/v1/generate/text-to-video", _)));
    let mut made = response(&format!("generations/{}.png", id_text(1)));
    made.requested_quality = Some("1080p".into());
    made.requested_fps = Some(60);
    run.step(VideoEvent::Answered(Ok(made)), &jobs, 12);
    let (_, action) = run.step(VideoEvent::Read(ReadOutcome::Done), &jobs, 13);
    assert!(matches!(action, VideoAction::Encode));
    assert_eq!(run.sides, before);
    let arguments = run.encoder_command("in.png", "p.txt", "out.mp4");
    assert!(arguments.iter().any(|each| each.contains(":fps=24,format=yuv420p")));
}

#[test]
fn progress_is_measured_in_sixty_four_steps() {
    assert_eq!(measured_progress(0, 10), 24);
    assert_eq!(measured_progress(78125, 10), 25);
    assert_eq!(measured_progress(78124, 10), 24);
    assert_eq!(measured_progress(10_000_000, 10), 88);
    assert_eq!(measured_progress(u64::MAX, 10), 88);
    assert_eq!(measured_progress(0, 0), 24);
    assert_eq!(measured_progress(1, 0), 88);
    assert_eq!(encoded_microseconds("out_time_ms=7\nout_time_us=x\n"), 7);
    assert_eq!(encoded_microseconds(""), 0);
    assert_eq!(encoded_microseconds("out_time_us=5\r"), 0);
    assert_eq!(encoded_microseconds("out_time_us=5\r\n"), 5);
    assert!(check_source(&AssetKind::Image, AssetKind::Image).is_ok());
    assert_eq!(
        check_source(&AssetKind::Audio, AssetKind::Image).unwrap_err(),
        "Le type de l'asset source ne correspond pas au mode."
    );
}

#[test]
fn a_job_of_the_worker_is_followed() {
    let status = |state: &str, progress| WorkerJobStatus {
        job_id: "j".into(),
        state: state.into(),
        progress,
        error: None,
        error_code: None,
    };
    match watch(&Ok(status("RUNNING", 99)), false, false, 30) {
        Watch::Report(report) => {
            assert_eq!(report.progress, 95);
            assert_eq!(report.message, "Inférence mesurée par le Worker");
        }
        _ => panic!("a report"),
    }
    assert!(matches!(
        watch(&Ok(status("FAILED", 3)), true, false, 30),
        Watch::Fail(message) if message == "GENERATION_FAILED: Le worker a échoué"
    ));
    let silent = Err("coupé".to_owned());
    assert!(matches!(watch(&silent, false, false, 30), Watch::Wait));
    assert!(matches!(watch(&silent, true, true, 30), Watch::Wait));
    assert!(matches!(
        watch(&silent, false, true, 30),
        Watch::GiveUp(message) if message == "WORKER_START_TIMEOUT: job non accepté après 30 secondes"
    ));
    assert_eq!(start_timeout_seconds(None), 30);
    assert_eq!(start_timeout_seconds(Some("2")), 5);
    assert_eq!(start_timeout_seconds(Some("9999")), 300);
    assert_eq!(start_timeout_seconds(Some("x")), 30);
}

#[test]
fn refusals_of_the_worker_are_told() {
    let payload = WorkerErrorPayload { error: "plein".into(), code: None, retryable: Some(true) };
    assert_eq!(
        refusal_text(503, Some(&payload), "x"),
        "WORKER_ERROR: plein (worker HTTP 503 Service Unavailable, retryable)"
    );
    assert_eq!(
        refusal_text(404, None, "rien"),
        "WORKER_HTTP_ERROR: worker HTTP 404 Not Found: rien"
    );
    assert!(cancel_outcome(404).is_ok());
    assert!(cancel_outcome(204).is_ok());
    assert_eq!(
        cancel_outcome(500).unwrap_err(),
        "annulation worker refusée: 500 Internal Server Error"
    );
}

#[test]
fn an_installation_sends_what_is_added_to_the_model() {
    let plain = install_payload("s", "o/m", "r", &vec!["CHAT".into()], &WorkerInstallOptions::none());
    assert_eq!(plain.text_member("model_id"), Some("s"));
    assert!(plain.get("loras").is_none());
    assert!(plain.get("experimental").is_none());
    let options = WorkerInstallOptions {
        loras: Some(Json::List(vec![Json::Text("l".into())])),
        recipe: None,
        model_pack_candidate: Some(Json::Object(vec![])),
    };
    let full = install_payload("s", "o/m", "r", &vec![], &options);
    assert!(matches!(full.get("loras"), Some(Json::List(items)) if items.len() == 1));
    assert_eq!(full.get("experimental").unwrap().as_flag(), Some(true));
    assert!(full.get("recipe").is_none());
}
