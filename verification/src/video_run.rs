//! The run of a video generation, step by step: what happened outside comes in
//! as an event, and what is to be done outside goes out as an action.
use crate::asset::{Asset, AssetView, VideoFacts};
use crate::capability;
use crate::capability::{GenerationMode, ModelCapability};
use crate::generation;
use crate::generation::{
    AssetKind, Generation, GenerationInputImage, GenerationStatus, GenerationView, InputImageView,
};
use crate::identity;
use crate::job::{JobStatus, Jobs};
use crate::json;
use crate::json::{Json, JsonView};
use crate::order;
use crate::preflight;
use crate::preflight::PreflightAnswer;
use crate::run;
use crate::run::{Report, ReportView};
use crate::text;
use crate::worker;
use crate::worker::{GenerateResponse, ResponseView, VideoRequest};
use vstd::prelude::*;
use vstd::string::*;

verus! {

// ---------------------------------------------------------------------------
// Runs, events and actions
// ---------------------------------------------------------------------------

/// Where a run stands.
#[derive(Clone, Copy, Debug, PartialEq, Eq, Structural)]
pub enum VideoPhase {
    /// Nothing was done yet.
    Ready,
    /// The way is to be chosen.
    Routing,
    /// The inputs are being copied for the worker.
    Staging,
    /// The worker is asked whether it can run the generation.
    Preflight,
    /// The worker makes the video.
    Generating,
    /// What the worker made is being read.
    Reading,
    /// The worker makes the picture that the local engine animates.
    Sketching,
    /// That picture is being read.
    SketchReading,
    /// The asset that the local engine animates is being looked up.
    Locating,
    /// The local engine encodes the video.
    Encoding,
    /// What the local engine made is being read.
    Collecting,
    /// The video is being saved.
    Saving,
    /// The run is over.
    Ended,
}

/// A run of a video generation.
pub struct VideoRun {
    pub phase: VideoPhase,
    pub generation: Generation,
    pub job_id: u128,
    /// The name under which the model is stored.
    pub storage_id: String,
    /// Whether there is a worker.
    pub worker: bool,
    /// The sides that were asked for when the run was made.
    pub sides: (u32, u32),
    /// The rate that was asked for when the run was made.
    pub fps: u32,
    /// The images that the video starts from, in their order.
    pub ordered: Vec<GenerationInputImage>,
    /// Where the inputs were copied to for the worker.
    pub staged: Vec<String>,
}

/// A run of a video generation.
pub struct VideoRunView {
    pub phase: VideoPhase,
    pub generation: GenerationView,
    pub job_id: u128,
    pub storage_id: Seq<char>,
    pub worker: bool,
    pub sides: (u32, u32),
    pub fps: u32,
    pub ordered: Seq<InputImageView>,
    pub staged: Seq<Seq<char>>,
}

impl View for VideoRun {
    type V = VideoRunView;

    open spec fn view(&self) -> VideoRunView {
        VideoRunView {
            phase: self.phase,
            generation: self.generation@,
            job_id: self.job_id,
            storage_id: self.storage_id@,
            worker: self.worker,
            sides: self.sides,
            fps: self.fps,
            ordered: generation::images_view(self.ordered@),
            staged: text::texts(self.staged@),
        }
    }
}

/// How reading what the worker made went.
pub enum ReadOutcome {
    Done,
    /// It is not there.
    Missing(String),
    /// It could not be copied to where it is used.
    NotCopied(String),
}

/// A look at the encoder.
pub struct EncoderLook {
    /// Whether the generation was asked to stop.
    pub cancelled: bool,
    /// Whether the encoder has ended, and if so, well; or why that is not known.
    pub ended: Result<Option<bool>, String>,
    /// What the encoder wrote of its progress.
    pub progress: Option<String>,
}

/// A video that was saved.
pub struct SavedVideo {
    pub asset: Asset,
    /// The frames that its duration and its rate make, where both are known.
    pub frames: Option<u32>,
}

/// What happened outside.
pub enum VideoEvent {
    /// The run may begin.
    Begin,
    /// What was reported is recorded.
    Recorded,
    /// The inputs were copied to these paths, or not.
    Staged(Result<Vec<String>, String>),
    /// The worker answered the preflight.
    Preflight(Result<PreflightAnswer, String>),
    /// The worker did what was asked, or not.
    Answered(Result<GenerateResponse, String>),
    /// What the worker made was read, or not.
    Read(ReadOutcome),
    /// The asset was found, or not.
    Located(Result<(), String>),
    /// The encoder could not be started.
    NotStarted(String),
    /// The encoder was looked at.
    Encoder(EncoderLook),
    /// What the encoder made was read, or not.
    Collected(Result<(), String>),
    /// The video was saved and published, or not.
    Saved(Result<SavedVideo, String>),
}

/// What is to be done outside.
pub enum VideoAction {
    /// Record what was reported, and come back.
    Record,
    /// Copy images for the worker, in this order.
    StageImages(Vec<u128>),
    /// Copy a video for the worker.
    StageVideo(u128),
    /// Ask the worker whether it can run the generation.
    Preflight(Json),
    /// Ask the worker at a path.
    Generate(&'static str, Json),
    /// Read what the worker made.
    Read(String),
    /// Look an asset up.
    Locate(u128),
    /// Start the encoder on the picture or the asset.
    Encode,
    /// Look at the encoder again.
    Watch,
    /// Stop the encoder.
    Kill,
    /// Read what the encoder made.
    Collect,
    /// Save the video under a name, with its sides.
    Save(String, (u32, u32)),
    /// The run ended with an asset.
    Complete,
    /// The run ended without one.
    End,
    /// Nothing: the event does not fit the phase.
    Ignore,
}

/// What is to be done outside.
pub enum VideoActionView {
    Record,
    StageImages(Seq<u128>),
    StageVideo(u128),
    Preflight(JsonView),
    Generate(Seq<char>, JsonView),
    Read(Seq<char>),
    Locate(u128),
    Encode,
    Watch,
    Kill,
    Collect,
    Save(Seq<char>, (u32, u32)),
    Complete,
    End,
    Ignore,
}

impl View for VideoAction {
    type V = VideoActionView;

    open spec fn view(&self) -> VideoActionView {
        match self {
            VideoAction::Record => VideoActionView::Record,
            VideoAction::StageImages(ids) => VideoActionView::StageImages(ids@),
            VideoAction::StageVideo(id) => VideoActionView::StageVideo(*id),
            VideoAction::Preflight(payload) => VideoActionView::Preflight(payload@),
            VideoAction::Generate(path, body) => VideoActionView::Generate(path@, body@),
            VideoAction::Read(path) => VideoActionView::Read(path@),
            VideoAction::Locate(id) => VideoActionView::Locate(*id),
            VideoAction::Encode => VideoActionView::Encode,
            VideoAction::Watch => VideoActionView::Watch,
            VideoAction::Kill => VideoActionView::Kill,
            VideoAction::Collect => VideoActionView::Collect,
            VideoAction::Save(name, sides) => VideoActionView::Save(name@, *sides),
            VideoAction::Complete => VideoActionView::Complete,
            VideoAction::End => VideoActionView::End,
            VideoAction::Ignore => VideoActionView::Ignore,
        }
    }
}

/// A step of a run: the run after it, what is reported, and what is to be done.
pub struct VideoStepView {
    pub run: VideoRunView,
    pub report: Option<ReportView>,
    pub action: VideoActionView,
}

/// A step as it was taken.
pub open spec fn stepped(run: VideoRunView, step: (Option<Report>, VideoAction)) -> VideoStepView {
    VideoStepView { run, report: run::opt_report(step.0), action: step.1@ }
}

// ---------------------------------------------------------------------------
// What the parts of a step are
// ---------------------------------------------------------------------------

/// Whether the local engine makes the video.
pub open spec fn local(generation: GenerationView) -> bool {
    generation.model_id == generation::MOTION@
}

/// The quality that is asked for.
pub open spec fn quality(generation: GenerationView) -> Seq<char> {
    match generation.requested_quality {
        Some(name) => name,
        None => "480p"@,
    }
}

/// The ratio that is asked for.
pub open spec fn ratio(generation: GenerationView) -> Seq<char> {
    match generation.requested_aspect_ratio {
        Some(name) => name,
        None => "16:9"@,
    }
}

/// The seconds that are asked for.
pub open spec fn seconds(generation: GenerationView) -> u32 {
    match generation.duration_seconds {
        Some(number) => number,
        None => 6,
    }
}

/// The rate that is asked for.
pub open spec fn rate(generation: GenerationView) -> u32 {
    match generation.requested_fps {
        Some(number) => number,
        None => 24,
    }
}

/// The sides that are asked for.
pub open spec fn sides(generation: GenerationView) -> (u32, u32) {
    capability::video_dimensions(quality(generation), ratio(generation))
}

/// The capability that the worker is asked for.
pub open spec fn asked_capability(generation: GenerationView) -> Option<ModelCapability> {
    match generation.capability {
        Some(capability) => Some(capability),
        None => capability::video_default(generation.mode),
    }
}

/// The capability that a request to the worker names.
pub open spec fn named_capability(generation: GenerationView) -> ModelCapability {
    match asked_capability(generation) {
        Some(capability) => capability,
        None => ModelCapability::VideoToVideo,
    }
}

/// The form in which the worker is told of one image.
pub open spec fn image_part(image: InputImageView, source: Seq<char>) -> JsonView {
    JsonView::Object(
        seq![
            ("order"@, JsonView::Integer(image.order as u64)),
            ("role"@, JsonView::Text(image.role)),
            ("source"@, JsonView::Text(source)),
        ],
    )
}

/// How many of the images were copied.
pub open spec fn staged_count(run: VideoRunView) -> nat {
    if run.generation.mode != GenerationMode::ImageToVideo {
        0
    } else if run.ordered.len() <= run.staged.len() {
        run.ordered.len()
    } else {
        run.staged.len()
    }
}

/// The form in which the worker is told of the images; nothing where there are none.
pub open spec fn image_parts(run: VideoRunView) -> Option<JsonView> {
    if staged_count(run) == 0 {
        None
    } else {
        Some(
            JsonView::List(
                Seq::new(staged_count(run), |i: int| image_part(run.ordered[i], run.staged[i])),
            ),
        )
    }
}

/// The input that the worker starts from: the first that was copied.
pub open spec fn first_input(run: VideoRunView) -> Option<Seq<char>> {
    if run.staged.len() == 0 {
        None
    } else {
        Some(run.staged[0])
    }
}

/// The members that every request for a video holds, and those that it may hold.
pub open spec fn video_request(
    run: VideoRunView,
    negative_prompt: Option<Seq<char>>,
    path: Seq<char>,
    input: Option<Seq<char>>,
    images: Option<JsonView>,
    capability: Seq<char>,
) -> JsonView {
    let generation = run.generation;
    let head = worker::request_head(
        identity::hyphenated(run.job_id),
        run.storage_id,
        generation.prompt,
        negative_prompt,
    ) + seq![
        ("quality"@, JsonView::Text(quality(generation))),
        ("aspect_ratio"@, JsonView::Text(ratio(generation))),
        ("duration_seconds"@, JsonView::Integer(seconds(generation) as u64)),
        ("fps"@, JsonView::Integer(rate(generation) as u64)),
        ("seed"@, JsonView::Null),
        ("output_relative_path"@, JsonView::Text(path)),
        ("audio"@, JsonView::Bool(generation.audio)),
    ];
    let with_input = worker::with_text(head, "input_path"@, input);
    let with_images = worker::with_part(with_input, "input_images"@, images);
    let with_capability = worker::with_text(with_images, "capability"@, Some(capability));
    let with_preset = worker::with_text(
        with_capability,
        "preset"@,
        generation.requested_preset,
    );
    JsonView::Object(
        worker::with_part(
            with_preset,
            "advanced_parameters"@,
            Some(generation.advanced_parameters),
        ),
    )
}

/// The body of the request for a video of a model of the worker.
#[verifier::opaque]
pub open spec fn request_body(run: VideoRunView) -> JsonView {
    video_request(
        run,
        run.generation.negative_prompt,
        run::output_path(run.generation.id, "mp4"@),
        first_input(run),
        image_parts(run),
        named_capability(run.generation).name(),
    )
}

/// The body of the request for the picture that the local engine animates.
#[verifier::opaque]
pub open spec fn sketch_body(run: VideoRunView) -> JsonView {
    video_request(
        run,
        None,
        run::output_path(run.generation.id, "png"@),
        None,
        None,
        "TEXT_TO_VIDEO"@,
    )
}

/// The end of a run that did not succeed.
pub open spec fn lost(run: VideoRunView, cause: Seq<char>, saving: bool, now: u64) -> VideoStepView {
    let (generation, report) = run::unsuccessful(run.generation, cause, true, saving, now);
    VideoStepView {
        run: VideoRunView { phase: VideoPhase::Ended, generation, ..run },
        report: Some(report),
        action: VideoActionView::End,
    }
}

/// A step that changes nothing.
pub open spec fn ignored(run: VideoRunView) -> VideoStepView {
    VideoStepView { run, report: None, action: VideoActionView::Ignore }
}

/// A step that reports nothing.
pub open spec fn onward(run: VideoRunView, phase: VideoPhase, action: VideoActionView) -> VideoStepView {
    VideoStepView { run: VideoRunView { phase, ..run }, report: None, action }
}

/// The step to the preflight of the worker, with the inputs at hand.
pub open spec fn inferring(run: VideoRunView, now: u64) -> VideoStepView {
    let generation = run::progressed(run.generation, 35, now);
    VideoStepView {
        run: VideoRunView { phase: VideoPhase::Preflight, generation, ..run },
        report: Some(
            run::report_of(
                JobStatus::Running,
                "generating"@,
                35,
                "Inférence vidéo par le runtime Worker"@,
            ),
        ),
        action: VideoActionView::Preflight(
            preflight::payload_of(
                generation,
                run.storage_id,
                run::output_path(generation.id, "mp4"@),
                first_input(run),
                image_parts(run),
            ),
        ),
    }
}

/// The images to start from: those of the generation in their order, or its one
/// asset as the first frame.
pub open spec fn starting_images(generation: GenerationView, ordered: Seq<InputImageView>) -> Seq<
    InputImageView,
> {
    if ordered.len() == 0 && generation.input_asset_id is Some {
        seq![
            InputImageView {
                asset_id: generation.input_asset_id->0,
                order: 0,
                role: "start_frame"@,
            },
        ]
    } else {
        ordered
    }
}

/// The way that a run takes: the worker with its inputs, or the local engine, or
/// why there is none.
pub open spec fn routed(run: VideoRunView, saving: bool, now: u64) -> VideoStepView {
    let generation = run.generation;
    if !local(generation) {
        if !run.worker {
            lost(run, "Worker GPU absent"@, saving, now)
        } else if asked_capability(generation) is None {
            lost(run, "Capacité vidéo invalide"@, saving, now)
        } else {
            match generation.mode {
                GenerationMode::TextToVideo => inferring(run, now),
                GenerationMode::ImageToVideo => onward(
                    run,
                    VideoPhase::Staging,
                    VideoActionView::StageImages(generation::asset_ids(run.ordered)),
                ),
                GenerationMode::VideoToVideo => match generation.input_asset_id {
                    Some(id) => onward(
                        run,
                        VideoPhase::Staging,
                        VideoActionView::StageVideo(id),
                    ),
                    None => lost(run, "Asset source absent"@, saving, now),
                },
                _ => lost(run, "Mode incompatible avec la génération vidéo."@, saving, now),
            }
        }
    } else if generation.mode == GenerationMode::TextToVideo {
        if !run.worker {
            lost(run, "Worker GPU absent"@, saving, now)
        } else {
            onward(
                run,
                VideoPhase::Sketching,
                VideoActionView::Generate("/v1/generate/text-to-video"@, sketch_body(run)),
            )
        }
    } else {
        match generation.input_asset_id {
            Some(id) => onward(run, VideoPhase::Locating, VideoActionView::Locate(id)),
            None => lost(run, "Asset source absent"@, saving, now),
        }
    }
}

/// A generation with what the worker says that the result is.
pub open spec fn noted(generation: GenerationView, response: ResponseView) -> GenerationView {
    GenerationView {
        actual_width: Some(run::answered_sides(response).0),
        actual_height: Some(run::answered_sides(response).1),
        actual_fps: response.actual_fps,
        actual_frames: response.actual_frames,
        actual_duration: response.actual_duration,
        actual_audio: response.actual_audio,
        audio_codec: response.audio_codec,
        audio_channels: response.audio_channels,
        audio_sample_rate: response.audio_sample_rate,
        ..generation
    }
}

/// The first of two values that is there.
pub open spec fn either<T>(first: Option<T>, second: Option<T>) -> Option<T> {
    if first is Some {
        first
    } else {
        second
    }
}

/// A generation with what the worker made of the request too.
pub open spec fn absorbed(generation: GenerationView, response: ResponseView) -> GenerationView {
    GenerationView {
        requested_duration_seconds: either(
            response.requested_duration_seconds,
            generation.requested_duration_seconds,
        ),
        requested_fps: either(response.requested_fps, generation.requested_fps),
        requested_frames: either(response.requested_frames, generation.requested_frames),
        inference_frames: response.inference_frames,
        requested_quality: either(response.requested_quality, generation.requested_quality),
        requested_aspect_ratio: either(
            response.requested_aspect_ratio,
            generation.requested_aspect_ratio,
        ),
        ..noted(generation, response)
    }
}

/// The step that follows from an answer of the worker: the result is read, unless
/// the answer is another one or the sound that was asked for is not there.
pub open spec fn accepted(
    run: VideoRunView,
    response: ResponseView,
    extension: Seq<char>,
    phase: VideoPhase,
    saving: bool,
    now: u64,
) -> VideoStepView {
    let path = run::output_path(run.generation.id, extension);
    if !run::answers(response, run.job_id, path) {
        lost(run, "Le worker a renvoyé un résultat incohérent."@, saving, now)
    } else if run.generation.audio && !response.actual_audio {
        lost(
            VideoRunView { generation: noted(run.generation, response), ..run },
            "NATIVE_AUDIO_NOT_VERIFIED: audio demandé mais le MP4 Worker ne contient pas une piste AAC validée."@,
            saving,
            now,
        )
    } else {
        VideoStepView {
            run: VideoRunView { phase, generation: absorbed(run.generation, response), ..run },
            report: None,
            action: VideoActionView::Read(path),
        }
    }
}

/// The step to the encoder of the local engine.
pub open spec fn encoding(run: VideoRunView, now: u64) -> VideoStepView {
    VideoStepView {
        run: VideoRunView {
            phase: VideoPhase::Encoding,
            generation: run::progressed(run.generation, 24, now),
            ..run
        },
        report: Some(
            run::report_of(JobStatus::Running, "encoding"@, 24, "Encodage MP4 en cours"@),
        ),
        action: VideoActionView::Encode,
    }
}

/// The step to the saving of the video.
pub open spec fn saving_step(run: VideoRunView, progress: u8) -> VideoStepView {
    VideoStepView {
        run: VideoRunView { phase: VideoPhase::Saving, ..run },
        report: Some(
            run::report_of(
                JobStatus::SavingOutput,
                "saving_output"@,
                progress,
                "Enregistrement du MP4 final"@,
            ),
        ),
        action: VideoActionView::Save(
            "generation-"@ + identity::hyphenated(run.generation.id) + ".mp4"@,
            run.sides,
        ),
    }
}

/// The number of microseconds that a line of the encoder gives.
pub open spec fn line_time(line: Seq<char>) -> Option<u64> {
    if text::opens(line, "out_time_us="@) {
        text::number_in(line.skip("out_time_us="@.len() as int))
    } else if text::opens(line, "out_time_ms="@) {
        text::number_in(line.skip("out_time_ms="@.len() as int))
    } else {
        None
    }
}

/// The number that the last of some lines with one gives; zero where none does.
pub open spec fn last_time(lines: Seq<Seq<char>>) -> u64
    decreases lines.len(),
{
    if lines.len() == 0 {
        0
    } else {
        match line_time(lines.last()) {
            Some(time) => time,
            None => last_time(lines.drop_last()),
        }
    }
}

/// The lines of a text, without the marks at their ends: a carriage return belongs
/// to a mark only where a line feed follows it.
pub open spec fn lines_of(content: Seq<char>) -> Seq<Seq<char>> {
    let parts = text::pieces(content, '\n');
    Seq::new(
        parts.len(),
        |i: int|
            if i < parts.len() - 1 && parts[i].len() > 0 && parts[i].last() == '\r' {
                parts[i].drop_last()
            } else {
                parts[i]
            },
    )
}

/// The progress that a time of the encoder stands for: from 24 to 88, by the
/// share of the duration that is encoded, to the nearest whole. Of no duration
/// nothing is encoded until some time is.
pub open spec fn encoder_progress(microseconds: u64, duration: u32) -> u8 {
    let whole = duration * 1_000_000;
    if whole == 0 && microseconds == 0 {
        24
    } else if microseconds >= whole {
        88
    } else {
        (24 + (128 * microseconds + whole) / (2 * whole)) as u8
    }
}

/// The step that follows from a look at the encoder.
pub open spec fn watched(run: VideoRunView, look: EncoderLook, saving: bool, now: u64) -> VideoStepView {
    if look.cancelled {
        VideoStepView { action: VideoActionView::Kill, ..lost(run, run::CANCELLED@, saving, now) }
    } else {
        match look.ended {
            Err(cause) => lost(run, cause@, saving, now),
            Ok(Some(false)) => lost(run, "FFmpeg n'a pas pu produire la vidéo."@, saving, now),
            Ok(Some(true)) => onward(run, VideoPhase::Collecting, VideoActionView::Collect),
            Ok(None) => match look.progress {
                None => onward(run, VideoPhase::Encoding, VideoActionView::Watch),
                Some(written) => {
                    let measured = encoder_progress(
                        last_time(lines_of(written@)),
                        seconds(run.generation),
                    );
                    if measured > run.generation.progress {
                        VideoStepView {
                            run: VideoRunView {
                                generation: run::progressed(run.generation, measured, now),
                                ..run
                            },
                            report: Some(
                                run::report_of(
                                    JobStatus::Running,
                                    "encoding"@,
                                    measured,
                                    "Encodage MP4 mesuré par FFmpeg"@,
                                ),
                            ),
                            action: VideoActionView::Watch,
                        }
                    } else {
                        onward(run, VideoPhase::Encoding, VideoActionView::Watch)
                    }
                },
            },
        }
    }
}

/// The generation with the video that was saved for it.
pub open spec fn completed(
    generation: GenerationView,
    asset: AssetView,
    frames: Option<u32>,
    now: u64,
) -> GenerationView {
    GenerationView {
        actual_width: either(asset.width, generation.actual_width),
        actual_height: either(asset.height, generation.actual_height),
        actual_fps: either(asset.fps, generation.actual_fps),
        actual_duration: either(asset.duration_seconds, generation.actual_duration),
        actual_frames: either(generation.actual_frames, frames),
        output_asset_id: Some(asset.id),
        status: GenerationStatus::Completed,
        progress: 100,
        updated_at: now,
        ..generation
    }
}

// ---------------------------------------------------------------------------
// Steps
// ---------------------------------------------------------------------------

/// The step of a run in the phase [`VideoPhase::Ready`].
#[verifier::opaque]
pub open spec fn on_ready(run: VideoRunView, event: VideoEvent, saving: bool, now: u64) -> VideoStepView {
    match event {
        VideoEvent::Begin => VideoStepView {
            run: VideoRunView {
                phase: VideoPhase::Routing,
                generation: run::begun(run.generation, 8, now),
                ..run
            },
            report: Some(
                run::report_of(
                    JobStatus::Dispatching,
                    "dispatching"@,
                    8,
                    "Dispatch vers le moteur vidéo"@,
                ),
            ),
            action: VideoActionView::Record,
        },
        _ => ignored(run),
    }
}

/// The step of a run in the phase [`VideoPhase::Routing`].
#[verifier::opaque]
pub open spec fn on_routing(run: VideoRunView, event: VideoEvent, saving: bool, now: u64) -> VideoStepView {
    match event {
        VideoEvent::Recorded => routed(run, saving, now),
        _ => ignored(run),
    }
}

/// The step of a run in the phase [`VideoPhase::Staging`].
#[verifier::opaque]
pub open spec fn on_staging(run: VideoRunView, event: VideoEvent, saving: bool, now: u64) -> VideoStepView {
    match event {
        VideoEvent::Staged(Err(cause)) => lost(run, cause@, saving, now),
        VideoEvent::Staged(Ok(paths)) => inferring(VideoRunView { staged: text::texts(paths@), ..run }, now),
        _ => ignored(run),
    }
}

/// The step of a run in the phase [`VideoPhase::Preflight`].
#[verifier::opaque]
pub open spec fn on_preflighting(run: VideoRunView, event: VideoEvent, saving: bool, now: u64) -> VideoStepView {
    match event {
        VideoEvent::Preflight(answer) => match preflight::answer_refusal(
            answer,
            run.generation,
            run.storage_id,
        ) {
            Some(cause) => lost(run, cause, saving, now),
            None => onward(
                run,
                VideoPhase::Generating,
                VideoActionView::Generate(
                    capability::video_path(named_capability(run.generation)),
                    request_body(run),
                ),
            ),
        },
        _ => ignored(run),
    }
}

/// The step of a run in the phase [`VideoPhase::Generating`].
#[verifier::opaque]
pub open spec fn on_generating(run: VideoRunView, event: VideoEvent, saving: bool, now: u64) -> VideoStepView {
    match event {
        VideoEvent::Answered(Err(cause)) => lost(run, cause@, saving, now),
        VideoEvent::Answered(Ok(response)) => accepted(run, response@, "mp4"@, VideoPhase::Reading, saving, now),
        _ => ignored(run),
    }
}

/// The step of a run in the phase [`VideoPhase::Reading`].
#[verifier::opaque]
pub open spec fn on_reading(run: VideoRunView, event: VideoEvent, saving: bool, now: u64) -> VideoStepView {
    match event {
        VideoEvent::Read(ReadOutcome::Missing(cause)) => lost(run, "Sortie worker introuvable sur le volume partagé: "@ + cause@, saving, now),
        VideoEvent::Read(ReadOutcome::NotCopied(cause)) => lost(run, "Copie sortie worker impossible : "@ + cause@, saving, now),
        VideoEvent::Read(ReadOutcome::Done) => saving_step(run, 82),
        _ => ignored(run),
    }
}

/// The step of a run in the phase [`VideoPhase::Sketching`].
#[verifier::opaque]
pub open spec fn on_sketching(run: VideoRunView, event: VideoEvent, saving: bool, now: u64) -> VideoStepView {
    match event {
        VideoEvent::Answered(Err(cause)) => lost(run, cause@, saving, now),
        VideoEvent::Answered(Ok(response)) => accepted(run, response@, "png"@, VideoPhase::SketchReading, saving, now),
        _ => ignored(run),
    }
}

/// The step of a run in the phase [`VideoPhase::SketchReading`].
#[verifier::opaque]
pub open spec fn on_sketch_reading(run: VideoRunView, event: VideoEvent, saving: bool, now: u64) -> VideoStepView {
    match event {
        VideoEvent::Read(ReadOutcome::Missing(cause)) => lost(run, "Sortie worker introuvable sur le volume partagé: "@ + cause@, saving, now),
        VideoEvent::Read(ReadOutcome::NotCopied(cause)) => lost(run, cause@, saving, now),
        VideoEvent::Read(ReadOutcome::Done) => encoding(run, now),
        _ => ignored(run),
    }
}

/// The step of a run in the phase [`VideoPhase::Locating`].
#[verifier::opaque]
pub open spec fn on_locating(run: VideoRunView, event: VideoEvent, saving: bool, now: u64) -> VideoStepView {
    match event {
        VideoEvent::Located(Err(cause)) => lost(run, cause@, saving, now),
        VideoEvent::Located(Ok(_)) => encoding(run, now),
        _ => ignored(run),
    }
}

/// The step of a run in the phase [`VideoPhase::Encoding`].
#[verifier::opaque]
pub open spec fn on_encoding_phase(run: VideoRunView, event: VideoEvent, saving: bool, now: u64) -> VideoStepView {
    match event {
        VideoEvent::NotStarted(cause) => lost(run, "FFmpeg indisponible : "@ + cause@, saving, now),
        VideoEvent::Encoder(look) => watched(run, look, saving, now),
        _ => ignored(run),
    }
}

/// The step of a run in the phase [`VideoPhase::Collecting`].
#[verifier::opaque]
pub open spec fn on_collecting(run: VideoRunView, event: VideoEvent, saving: bool, now: u64) -> VideoStepView {
    match event {
        VideoEvent::Collected(Err(cause)) => lost(run, cause@, saving, now),
        VideoEvent::Collected(Ok(_)) => saving_step(run, 90),
        _ => ignored(run),
    }
}

/// The step of a run in the phase [`VideoPhase::Saving`].
#[verifier::opaque]
pub open spec fn on_saving_phase(run: VideoRunView, event: VideoEvent, saving: bool, now: u64) -> VideoStepView {
    match event {
        VideoEvent::Saved(Err(cause)) => lost(run, cause@, saving, now),
        VideoEvent::Saved(Ok(saved)) => VideoStepView {
            run: VideoRunView {
                phase: VideoPhase::Ended,
                generation: completed(run.generation, saved.asset@, saved.frames, now),
                ..run
            },
            report: Some(
                run::report_of(JobStatus::Completed, "completed"@, 100, "Vidéo disponible"@),
            ),
            action: VideoActionView::Complete,
        },
        _ => ignored(run),
    }
}

/// The step that follows from an event. An event that does not fit the phase
/// changes nothing.
pub open spec fn next(run: VideoRunView, event: VideoEvent, saving: bool, now: u64) -> VideoStepView {
    match run.phase {
        VideoPhase::Ready => on_ready(run, event, saving, now),
        VideoPhase::Routing => on_routing(run, event, saving, now),
        VideoPhase::Staging => on_staging(run, event, saving, now),
        VideoPhase::Preflight => on_preflighting(run, event, saving, now),
        VideoPhase::Generating => on_generating(run, event, saving, now),
        VideoPhase::Reading => on_reading(run, event, saving, now),
        VideoPhase::Sketching => on_sketching(run, event, saving, now),
        VideoPhase::SketchReading => on_sketch_reading(run, event, saving, now),
        VideoPhase::Locating => on_locating(run, event, saving, now),
        VideoPhase::Encoding => on_encoding_phase(run, event, saving, now),
        VideoPhase::Collecting => on_collecting(run, event, saving, now),
        VideoPhase::Saving => on_saving_phase(run, event, saving, now),
        VideoPhase::Ended => ignored(run),
    }
}

// ---------------------------------------------------------------------------
// Taking steps
// ---------------------------------------------------------------------------

/// The microseconds that the encoder says it has encoded.
pub fn encoded_microseconds(written: &str) -> (microseconds: u64)
    ensures
        microseconds == last_time(lines_of(written@)),
{
    let parts = text::split(written, '\n');
    let ghost all = lines_of(written@);
    let count: usize = parts.len();
    let mut left: usize = count;
    assert(all.take(left as int) =~= all);
    while left > 0
        invariant
            left <= count,
            count == parts@.len(),
            parts@.len() == all.len(),
            all == lines_of(written@),
            forall|i: int|
                0 <= i < parts@.len() ==> (#[trigger] parts@[i])@ == text::pieces(
                    written@,
                    '\n',
                )[i],
            last_time(all.take(left as int)) == last_time(all),
        decreases left,
    {
        let part = parts[left - 1];
        let characters = text::chars_of(part);
        let length: usize = characters.len();
        let line = if left < count && length > 0 && characters[length - 1] == '\r' {
            part.substring_char(0, length - 1)
        } else {
            part
        };
        assert(line@ =~= all[left - 1]);
        assert(all.take(left as int).last() == line@);
        assert(all.take(left as int).drop_last() =~= all.take(left - 1));
        match time_in(line) {
            Some(time) => {
                return time;
            },
            None => {},
        }
        left = left - 1;
    }
    0
}

fn time_in(line: &str) -> (time: Option<u64>)
    ensures
        time == line_time(line@),
{
    let length: usize = text::chars_of(line).len();
    if text::starts_with(line, "out_time_us=") {
        let from: usize = text::chars_of("out_time_us=").len();
        text::parse_u64(line.substring_char(from, length))
    } else if text::starts_with(line, "out_time_ms=") {
        let from: usize = text::chars_of("out_time_ms=").len();
        text::parse_u64(line.substring_char(from, length))
    } else {
        None
    }
}

/// The progress that a time of the encoder stands for.
pub fn measured_progress(microseconds: u64, duration: u32) -> (progress: u8)
    ensures
        progress == encoder_progress(microseconds, duration),
        24 <= progress <= 88,
{
    let whole: u64 = duration as u64 * 1_000_000;
    if whole == 0 && microseconds == 0 {
        return 24;
    }
    if microseconds >= whole {
        return 88;
    }
    let share: u64 = (128 * microseconds + whole) / (2 * whole);
    assert(share <= 64) by (nonlinear_arith)
        requires
            whole > 0,
            microseconds < whole,
            share == (128 * microseconds + whole) / (2 * whole) as int,
    ;
    24 + share as u8
}

/// The sides that a generation asks for.
fn asked_sides(generation: &Generation) -> (dimensions: (u32, u32))
    ensures
        dimensions == sides(generation@),
{
    let quality = match &generation.requested_quality {
        Some(name) => name.as_str(),
        None => "480p",
    };
    let aspect_ratio = match &generation.requested_aspect_ratio {
        Some(name) => name.as_str(),
        None => "16:9",
    };
    capability::procedural_video_dimensions(quality, aspect_ratio)
}

impl VideoRun {
    /// A run that has not begun, with the images that it starts from in order.
    pub fn new(generation: Generation, job_id: u128, storage_id: String, worker: bool) -> (run: Self)
        ensures
            run@.phase == VideoPhase::Ready,
            run@.generation == generation@,
            run@.job_id == job_id,
            run@.storage_id == storage_id@,
            run@.worker == worker,
            run@.sides == sides(generation@),
            run@.fps == rate(generation@),
            run@.staged == Seq::<Seq<char>>::empty(),
            exists|order: Seq<usize>|
                generation::image_order(order, generation@.input_images) && run@.ordered
                    == starting_images(
                    generation@,
                    #[trigger] order::picked(generation@.input_images, order),
                ),
    {
        let order = generation::order_images(&generation.input_images);
        let mut ordered: Vec<GenerationInputImage> = Vec::new();
        for n in 0..order.len()
            invariant
                order::permutes(order@, generation.input_images@.len()),
                ordered@.len() == n,
                forall|i: int|
                    0 <= i < n ==> (#[trigger] ordered@[i])@ == generation.input_images@[order@[i] as int]@,
        {
            let at: usize = order[n];
            ordered.push(generation.input_images[at].copy());
        }
        let ghost chosen = order::picked(generation@.input_images, order@);
        assert(generation::images_view(ordered@) =~= chosen);
        if ordered.len() == 0 {
            match generation.input_asset_id {
                Some(asset_id) => ordered.push(
                    GenerationInputImage { asset_id, order: 0, role: "start_frame".to_owned() },
                ),
                None => {},
            }
        }
        assert(generation::images_view(ordered@) =~= starting_images(generation@, chosen));
        let sides = asked_sides(&generation);
        let fps: u32 = match generation.requested_fps {
            Some(number) => number,
            None => 24,
        };
        let run = VideoRun {
            phase: VideoPhase::Ready,
            generation,
            job_id,
            storage_id,
            worker,
            sides,
            fps,
            ordered,
            staged: Vec::new(),
        };
        assert(run@.staged =~= Seq::<Seq<char>>::empty());
        run
    }

    fn lose(&mut self, cause: String, jobs: &Jobs, now: u64) -> (step: (Option<Report>, VideoAction))
        ensures
            stepped(final(self)@, step) == lost(
                old(self)@,
                cause@,
                run::saving(jobs@, old(self).job_id),
                now,
            ),
    {
        let report = run::end_unsuccessful(
            &mut self.generation,
            cause,
            true,
            jobs,
            self.job_id,
            now,
        );
        self.phase = VideoPhase::Ended;
        (Some(report), VideoAction::End)
    }

    fn input(&self) -> (input: Option<&str>)
        ensures
            text::opt_str(input) == first_input(self@),
    {
        if self.staged.len() == 0 {
            None
        } else {
            Some(self.staged[0].as_str())
        }
    }

    fn images(&self) -> (images: Option<Json>)
        ensures
            json::opt_view(images) == image_parts(self@),
    {
        if self.generation.mode != GenerationMode::ImageToVideo {
            return None;
        }
        let count: usize = if self.ordered.len() <= self.staged.len() {
            self.ordered.len()
        } else {
            self.staged.len()
        };
        if count == 0 {
            return None;
        }
        let mut parts: Vec<Json> = Vec::new();
        for i in 0..count
            invariant
                count <= self.ordered@.len(),
                count <= self.staged@.len(),
                parts@.len() == i,
                forall|j: int|
                    0 <= j < i ==> (#[trigger] parts@[j])@ == image_part(
                        self.ordered@[j]@,
                        self.staged@[j]@,
                    ),
        {
            let mut members: Vec<(String, Json)> = Vec::new();
            json::put(&mut members, "order", Json::Integer(self.ordered[i].order as u64));
            json::put(&mut members, "role", json::text_json(self.ordered[i].role.as_str()));
            json::put(&mut members, "source", json::text_json(self.staged[i].as_str()));
            assert(json::members_view(members@) =~= image_part(
                self.ordered@[i as int]@,
                self.staged@[i as int]@,
            )->Object_0);
            parts.push(json::object(members));
        }
        assert(json::items_view(parts@) =~= image_parts(self@)->0->List_0);
        Some(json::list(parts))
    }

    fn infer(&mut self, now: u64) -> (step: (Option<Report>, VideoAction))
        ensures
            stepped(final(self)@, step) == inferring(old(self)@, now),
    {
        self.phase = VideoPhase::Preflight;
        self.generation.progress = 35;
        self.generation.updated_at = now;
        let path = run::relative_output(self.generation.id, "mp4");
        let images = self.images();
        let payload = preflight::generation_preflight_payload(
            &self.generation,
            self.storage_id.as_str(),
            path.as_str(),
            self.input(),
            images.as_ref(),
        );
        let report = run::new_report(
            JobStatus::Running,
            "generating",
            35,
            "Inférence vidéo par le runtime Worker",
        );
        (Some(report), VideoAction::Preflight(payload))
    }

    fn ask(
        &self,
        negative_prompt: Option<&str>,
        path: &str,
        input: Option<&str>,
        images: Option<&Json>,
        capability: &str,
    ) -> (body: Json)
        ensures
            body@ == video_request(
                self@,
                text::opt_str(negative_prompt),
                path@,
                text::opt_str(input),
                json::opt_ref_view(images),
                capability@,
            ),
    {
        let job = identity::id_text(self.job_id);
        let quality = match &self.generation.requested_quality {
            Some(name) => name.as_str(),
            None => "480p",
        };
        let aspect_ratio = match &self.generation.requested_aspect_ratio {
            Some(name) => name.as_str(),
            None => "16:9",
        };
        let duration_seconds: u32 = match self.generation.duration_seconds {
            Some(number) => number,
            None => 6,
        };
        let fps: u32 = match self.generation.requested_fps {
            Some(number) => number,
            None => 24,
        };
        let request = VideoRequest {
            job_id: job.as_str(),
            model_id: self.storage_id.as_str(),
            prompt: self.generation.prompt.as_str(),
            negative_prompt,
            output_relative_path: path,
            input_path: input,
            input_images: images,
            mask_path: None,
            capability: Some(capability),
            quality,
            aspect_ratio,
            duration_seconds,
            fps,
            audio: self.generation.audio,
            preset: text::borrow(&self.generation.requested_preset),
            advanced_parameters: Some(&self.generation.advanced_parameters),
        };
        worker::video_payload(&request)
    }

    fn request(&self) -> (action: VideoAction)
        ensures
            action@ == VideoActionView::Generate(
                capability::video_path(named_capability(self@.generation)),
                request_body(self@),
            ),
    {
        reveal(request_body);
        let capability = match self.generation.capability {
            Some(found) => found,
            None => match capability::video_capability_mode_default(&self.generation.mode) {
                Some(found) => found,
                None => ModelCapability::VideoToVideo,
            },
        };
        let path = run::relative_output(self.generation.id, "mp4");
        let images = self.images();
        let body = self.ask(
            text::borrow(&self.generation.negative_prompt),
            path.as_str(),
            self.input(),
            images.as_ref(),
            capability.api_name(),
        );
        VideoAction::Generate(capability::video_endpoint(&capability), body)
    }

    fn sketch(&self) -> (action: VideoAction)
        ensures
            action@ == VideoActionView::Generate("/v1/generate/text-to-video"@, sketch_body(self@)),
    {
        reveal(sketch_body);
        let path = run::relative_output(self.generation.id, "png");
        let body = self.ask(None, path.as_str(), None, None, "TEXT_TO_VIDEO");
        VideoAction::Generate("/v1/generate/text-to-video", body)
    }

    fn starting_ids(&self) -> (ids: Vec<u128>)
        ensures
            ids@ == generation::asset_ids(self@.ordered),
    {
        let mut ids: Vec<u128> = Vec::new();
        for i in 0..self.ordered.len()
            invariant
                ids@.len() == i,
                forall|j: int| 0 <= j < i ==> #[trigger] ids@[j] == self.ordered@[j].asset_id,
        {
            ids.push(self.ordered[i].asset_id);
        }
        assert(ids@ =~= generation::asset_ids(self@.ordered));
        ids
    }

    fn route(&mut self, jobs: &Jobs, now: u64) -> (step: (Option<Report>, VideoAction))
        ensures
            stepped(final(self)@, step) == routed(
                old(self)@,
                run::saving(jobs@, old(self).job_id),
                now,
            ),
    {
        let procedural = *self.generation.model_id.as_str() == *generation::MOTION;
        if !procedural {
            if !self.worker {
                return self.lose("Worker GPU absent".to_owned(), jobs, now);
            }
            if self.generation.capability.is_none() && capability::video_capability_mode_default(
                &self.generation.mode,
            ).is_none() {
                return self.lose("Capacité vidéo invalide".to_owned(), jobs, now);
            }
            match self.generation.mode {
                GenerationMode::TextToVideo => self.infer(now),
                GenerationMode::ImageToVideo => {
                    let ids = self.starting_ids();
                    self.phase = VideoPhase::Staging;
                    (None, VideoAction::StageImages(ids))
                },
                GenerationMode::VideoToVideo => match self.generation.input_asset_id {
                    Some(id) => {
                        self.phase = VideoPhase::Staging;
                        (None, VideoAction::StageVideo(id))
                    },
                    None => self.lose("Asset source absent".to_owned(), jobs, now),
                },
                _ => self.lose(
                    "Mode incompatible avec la génération vidéo.".to_owned(),
                    jobs,
                    now,
                ),
            }
        } else if self.generation.mode == GenerationMode::TextToVideo {
            if !self.worker {
                return self.lose("Worker GPU absent".to_owned(), jobs, now);
            }
            let action = self.sketch();
            self.phase = VideoPhase::Sketching;
            (None, action)
        } else {
            match self.generation.input_asset_id {
                Some(id) => {
                    self.phase = VideoPhase::Locating;
                    (None, VideoAction::Locate(id))
                },
                None => self.lose("Asset source absent".to_owned(), jobs, now),
            }
        }
    }

    fn note(&mut self, response: &GenerateResponse)
        ensures
            final(self)@ == (VideoRunView {
                generation: noted(old(self)@.generation, response@),
                ..old(self)@
            }),
    {
        self.generation.actual_width = match response.actual_width {
            Some(width) => Some(width),
            None => Some(response.width),
        };
        self.generation.actual_height = match response.actual_height {
            Some(height) => Some(height),
            None => Some(response.height),
        };
        self.generation.actual_fps = response.actual_fps;
        self.generation.actual_frames = response.actual_frames;
        self.generation.actual_duration = response.actual_duration;
        self.generation.actual_audio = response.actual_audio;
        self.generation.audio_codec = text::copy_opt(&response.audio_codec);
        self.generation.audio_channels = response.audio_channels;
        self.generation.audio_sample_rate = response.audio_sample_rate;
    }

    fn accept(
        &mut self,
        response: GenerateResponse,
        extension: &str,
        phase: VideoPhase,
        jobs: &Jobs,
        now: u64,
    ) -> (step: (Option<Report>, VideoAction))
        ensures
            stepped(final(self)@, step) == accepted(
                old(self)@,
                response@,
                extension@,
                phase,
                run::saving(jobs@, old(self).job_id),
                now,
            ),
    {
        let path = run::relative_output(self.generation.id, extension);
        if !run::is_answer(&response, self.job_id, path.as_str()) {
            return self.lose("Le worker a renvoyé un résultat incohérent.".to_owned(), jobs, now);
        }
        self.note(&response);
        if self.generation.audio && !response.actual_audio {
            return self.lose(
                "NATIVE_AUDIO_NOT_VERIFIED: audio demandé mais le MP4 Worker ne contient pas une piste AAC validée.".to_owned(),
                jobs,
                now,
            );
        }
        if response.requested_duration_seconds.is_some() {
            self.generation.requested_duration_seconds = response.requested_duration_seconds;
        }
        if response.requested_fps.is_some() {
            self.generation.requested_fps = response.requested_fps;
        }
        if response.requested_frames.is_some() {
            self.generation.requested_frames = response.requested_frames;
        }
        self.generation.inference_frames = response.inference_frames;
        if response.requested_quality.is_some() {
            self.generation.requested_quality = response.requested_quality;
        }
        if response.requested_aspect_ratio.is_some() {
            self.generation.requested_aspect_ratio = response.requested_aspect_ratio;
        }
        self.phase = phase;
        (None, VideoAction::Read(path))
    }

    fn encode(&mut self, now: u64) -> (step: (Option<Report>, VideoAction))
        ensures
            stepped(final(self)@, step) == encoding(old(self)@, now),
    {
        self.phase = VideoPhase::Encoding;
        self.generation.progress = 24;
        self.generation.updated_at = now;
        let report = run::new_report(JobStatus::Running, "encoding", 24, "Encodage MP4 en cours");
        (Some(report), VideoAction::Encode)
    }

    fn save(&mut self, progress: u8) -> (step: (Option<Report>, VideoAction))
        ensures
            stepped(final(self)@, step) == saving_step(old(self)@, progress),
    {
        let name = text::concat3(
            "generation-",
            identity::id_text(self.generation.id).as_str(),
            ".mp4",
        );
        let sides: (u32, u32) = self.sides;
        self.phase = VideoPhase::Saving;
        let report = run::new_report(
            JobStatus::SavingOutput,
            "saving_output",
            progress,
            "Enregistrement du MP4 final",
        );
        (Some(report), VideoAction::Save(name, sides))
    }

    fn watch(&mut self, look: EncoderLook, jobs: &Jobs, now: u64) -> (step: (
        Option<Report>,
        VideoAction,
    ))
        requires
            old(self).phase == VideoPhase::Encoding,
        ensures
            stepped(final(self)@, step) == watched(
                old(self)@,
                look,
                run::saving(jobs@, old(self).job_id),
                now,
            ),
    {
        if look.cancelled {
            let step = self.lose(run::CANCELLED.to_owned(), jobs, now);
            return (step.0, VideoAction::Kill);
        }
        match look.ended {
            Err(cause) => self.lose(cause, jobs, now),
            Ok(Some(well)) => {
                if !well {
                    return self.lose(
                        "FFmpeg n'a pas pu produire la vidéo.".to_owned(),
                        jobs,
                        now,
                    );
                }
                self.phase = VideoPhase::Collecting;
                (None, VideoAction::Collect)
            },
            Ok(None) => {
                match look.progress {
                    None => {},
                    Some(written) => {
                        let duration: u32 = match self.generation.duration_seconds {
                            Some(number) => number,
                            None => 6,
                        };
                        let measured: u8 = measured_progress(
                            encoded_microseconds(written.as_str()),
                            duration,
                        );
                        if measured > self.generation.progress {
                            self.generation.progress = measured;
                            self.generation.updated_at = now;
                            let report = run::new_report(
                                JobStatus::Running,
                                "encoding",
                                measured,
                                "Encodage MP4 mesuré par FFmpeg",
                            );
                            return (Some(report), VideoAction::Watch);
                        }
                    },
                }
                (None, VideoAction::Watch)
            },
        }
    }

    fn complete(&mut self, saved: &SavedVideo, now: u64)
        ensures
            final(self)@ == (VideoRunView {
                generation: completed(old(self)@.generation, saved.asset@, saved.frames, now),
                ..old(self)@
            }),
    {
        if saved.asset.width.is_some() {
            self.generation.actual_width = saved.asset.width;
        }
        if saved.asset.height.is_some() {
            self.generation.actual_height = saved.asset.height;
        }
        if saved.asset.fps.is_some() {
            self.generation.actual_fps = saved.asset.fps;
        }
        if saved.asset.duration_seconds.is_some() {
            self.generation.actual_duration = saved.asset.duration_seconds;
        }
        if self.generation.actual_frames.is_none() {
            self.generation.actual_frames = saved.frames;
        }
        self.generation.output_asset_id = Some(saved.asset.id);
        self.generation.status = GenerationStatus::Completed;
        self.generation.progress = 100;
        self.generation.updated_at = now;
    }

    fn ready(&mut self, event: VideoEvent, jobs: &Jobs, now: u64) -> (step: (
        Option<Report>,
        VideoAction,
    ))
        requires
            old(self).phase == VideoPhase::Ready,
        ensures
            stepped(final(self)@, step) == on_ready(
                old(self)@,
                event,
                run::saving(jobs@, old(self).job_id),
                now,
            ),
    {
        reveal(on_ready);
        match event {
            VideoEvent::Begin => {
                self.phase = VideoPhase::Routing;
                self.generation.status = GenerationStatus::Running;
                self.generation.progress = 8;
                self.generation.updated_at = now;
                let report = run::new_report(
                    JobStatus::Dispatching,
                    "dispatching",
                    8,
                    "Dispatch vers le moteur vidéo",
                );
                (Some(report), VideoAction::Record)
            },
            _ => (None, VideoAction::Ignore),
        }
    }

    fn routing(&mut self, event: VideoEvent, jobs: &Jobs, now: u64) -> (step: (
        Option<Report>,
        VideoAction,
    ))
        requires
            old(self).phase == VideoPhase::Routing,
        ensures
            stepped(final(self)@, step) == on_routing(
                old(self)@,
                event,
                run::saving(jobs@, old(self).job_id),
                now,
            ),
    {
        reveal(on_routing);
        match event {
            VideoEvent::Recorded => self.route(jobs, now),
            _ => (None, VideoAction::Ignore),
        }
    }

    fn staging(&mut self, event: VideoEvent, jobs: &Jobs, now: u64) -> (step: (
        Option<Report>,
        VideoAction,
    ))
        requires
            old(self).phase == VideoPhase::Staging,
        ensures
            stepped(final(self)@, step) == on_staging(
                old(self)@,
                event,
                run::saving(jobs@, old(self).job_id),
                now,
            ),
    {
        reveal(on_staging);
        match event {
            VideoEvent::Staged(outcome) => match outcome {
                Err(cause) => self.lose(cause, jobs, now),
                Ok(paths) => {
                    self.staged = paths;
                    self.infer(now)
                },
            },
            _ => (None, VideoAction::Ignore),
        }
    }

    fn preflighting(&mut self, event: VideoEvent, jobs: &Jobs, now: u64) -> (step: (
        Option<Report>,
        VideoAction,
    ))
        requires
            old(self).phase == VideoPhase::Preflight,
        ensures
            stepped(final(self)@, step) == on_preflighting(
                old(self)@,
                event,
                run::saving(jobs@, old(self).job_id),
                now,
            ),
    {
        reveal(on_preflighting);
        match event {
            VideoEvent::Preflight(answer) => match preflight::require_worker_preflight(
                answer,
                &self.generation,
                self.storage_id.as_str(),
            ) {
                Err(cause) => self.lose(cause, jobs, now),
                Ok(_) => {
                    let action = self.request();
                    self.phase = VideoPhase::Generating;
                    (None, action)
                },
            },
            _ => (None, VideoAction::Ignore),
        }
    }

    fn generating(&mut self, event: VideoEvent, jobs: &Jobs, now: u64) -> (step: (
        Option<Report>,
        VideoAction,
    ))
        requires
            old(self).phase == VideoPhase::Generating,
        ensures
            stepped(final(self)@, step) == on_generating(
                old(self)@,
                event,
                run::saving(jobs@, old(self).job_id),
                now,
            ),
    {
        reveal(on_generating);
        match event {
            VideoEvent::Answered(outcome) => match outcome {
                Err(cause) => self.lose(cause, jobs, now),
                Ok(response) => self.accept(response, "mp4", VideoPhase::Reading, jobs, now),
            },
            _ => (None, VideoAction::Ignore),
        }
    }

    fn reading(&mut self, event: VideoEvent, jobs: &Jobs, now: u64) -> (step: (
        Option<Report>,
        VideoAction,
    ))
        requires
            old(self).phase == VideoPhase::Reading,
        ensures
            stepped(final(self)@, step) == on_reading(
                old(self)@,
                event,
                run::saving(jobs@, old(self).job_id),
                now,
            ),
    {
        reveal(on_reading);
        match event {
            VideoEvent::Read(outcome) => match outcome {
                ReadOutcome::Missing(cause) => self.lose(
                    text::concat(
                        "Sortie worker introuvable sur le volume partagé: ",
                        cause.as_str(),
                    ),
                    jobs,
                    now,
                ),
                ReadOutcome::NotCopied(cause) => self.lose(
                    text::concat("Copie sortie worker impossible : ", cause.as_str()),
                    jobs,
                    now,
                ),
                ReadOutcome::Done => self.save(82),
            },
            _ => (None, VideoAction::Ignore),
        }
    }

    fn sketching(&mut self, event: VideoEvent, jobs: &Jobs, now: u64) -> (step: (
        Option<Report>,
        VideoAction,
    ))
        requires
            old(self).phase == VideoPhase::Sketching,
        ensures
            stepped(final(self)@, step) == on_sketching(
                old(self)@,
                event,
                run::saving(jobs@, old(self).job_id),
                now,
            ),
    {
        reveal(on_sketching);
        match event {
            VideoEvent::Answered(outcome) => match outcome {
                Err(cause) => self.lose(cause, jobs, now),
                Ok(response) => self.accept(
                    response,
                    "png",
                    VideoPhase::SketchReading,
                    jobs,
                    now,
                ),
            },
            _ => (None, VideoAction::Ignore),
        }
    }

    fn sketch_reading(&mut self, event: VideoEvent, jobs: &Jobs, now: u64) -> (step: (
        Option<Report>,
        VideoAction,
    ))
        requires
            old(self).phase == VideoPhase::SketchReading,
        ensures
            stepped(final(self)@, step) == on_sketch_reading(
                old(self)@,
                event,
                run::saving(jobs@, old(self).job_id),
                now,
            ),
    {
        reveal(on_sketch_reading);
        match event {
            VideoEvent::Read(outcome) => match outcome {
                ReadOutcome::Missing(cause) => self.lose(
                    text::concat(
                        "Sortie worker introuvable sur le volume partagé: ",
                        cause.as_str(),
                    ),
                    jobs,
                    now,
                ),
                ReadOutcome::NotCopied(cause) => self.lose(cause, jobs, now),
                ReadOutcome::Done => self.encode(now),
            },
            _ => (None, VideoAction::Ignore),
        }
    }

    fn locating(&mut self, event: VideoEvent, jobs: &Jobs, now: u64) -> (step: (
        Option<Report>,
        VideoAction,
    ))
        requires
            old(self).phase == VideoPhase::Locating,
        ensures
            stepped(final(self)@, step) == on_locating(
                old(self)@,
                event,
                run::saving(jobs@, old(self).job_id),
                now,
            ),
    {
        reveal(on_locating);
        match event {
            VideoEvent::Located(outcome) => match outcome {
                Err(cause) => self.lose(cause, jobs, now),
                Ok(_) => self.encode(now),
            },
            _ => (None, VideoAction::Ignore),
        }
    }

    fn encoding_phase(&mut self, event: VideoEvent, jobs: &Jobs, now: u64) -> (step: (
        Option<Report>,
        VideoAction,
    ))
        requires
            old(self).phase == VideoPhase::Encoding,
        ensures
            stepped(final(self)@, step) == on_encoding_phase(
                old(self)@,
                event,
                run::saving(jobs@, old(self).job_id),
                now,
            ),
    {
        reveal(on_encoding_phase);
        match event {
            VideoEvent::NotStarted(cause) => self.lose(
                text::concat("FFmpeg indisponible : ", cause.as_str()),
                jobs,
                now,
            ),
            VideoEvent::Encoder(look) => self.watch(look, jobs, now),
            _ => (None, VideoAction::Ignore),
        }
    }

    fn collecting(&mut self, event: VideoEvent, jobs: &Jobs, now: u64) -> (step: (
        Option<Report>,
        VideoAction,
    ))
        requires
            old(self).phase == VideoPhase::Collecting,
        ensures
            stepped(final(self)@, step) == on_collecting(
                old(self)@,
                event,
                run::saving(jobs@, old(self).job_id),
                now,
            ),
    {
        reveal(on_collecting);
        match event {
            VideoEvent::Collected(outcome) => match outcome {
                Err(cause) => self.lose(cause, jobs, now),
                Ok(_) => self.save(90),
            },
            _ => (None, VideoAction::Ignore),
        }
    }

    fn saving_phase(&mut self, event: VideoEvent, jobs: &Jobs, now: u64) -> (step: (
        Option<Report>,
        VideoAction,
    ))
        requires
            old(self).phase == VideoPhase::Saving,
        ensures
            stepped(final(self)@, step) == on_saving_phase(
                old(self)@,
                event,
                run::saving(jobs@, old(self).job_id),
                now,
            ),
    {
        reveal(on_saving_phase);
        match event {
            VideoEvent::Saved(outcome) => match outcome {
                Err(cause) => self.lose(cause, jobs, now),
                Ok(saved) => {
                    self.phase = VideoPhase::Ended;
                    self.complete(&saved, now);
                    let report = run::new_report(
                        JobStatus::Completed,
                        "completed",
                        100,
                        "Vidéo disponible",
                    );
                    (Some(report), VideoAction::Complete)
                },
            },
            _ => (None, VideoAction::Ignore),
        }
    }

    /// Takes the step that follows from an event: changes the run, and returns
    /// what to report of its job and what to do outside.
    pub fn step(&mut self, event: VideoEvent, jobs: &Jobs, now: u64) -> (step: (
        Option<Report>,
        VideoAction,
    ))
        ensures
            stepped(final(self)@, step) == next(
                old(self)@,
                event,
                run::saving(jobs@, old(self).job_id),
                now,
            ),
    {
        match self.phase {
            VideoPhase::Ready => self.ready(event, jobs, now),
            VideoPhase::Routing => self.routing(event, jobs, now),
            VideoPhase::Staging => self.staging(event, jobs, now),
            VideoPhase::Preflight => self.preflighting(event, jobs, now),
            VideoPhase::Generating => self.generating(event, jobs, now),
            VideoPhase::Reading => self.reading(event, jobs, now),
            VideoPhase::Sketching => self.sketching(event, jobs, now),
            VideoPhase::SketchReading => self.sketch_reading(event, jobs, now),
            VideoPhase::Locating => self.locating(event, jobs, now),
            VideoPhase::Encoding => self.encoding_phase(event, jobs, now),
            VideoPhase::Collecting => self.collecting(event, jobs, now),
            VideoPhase::Saving => self.saving_phase(event, jobs, now),
            VideoPhase::Ended => (None, VideoAction::Ignore),
        }
    }
}

/// Whether the kind of an asset lets a video start from it.
pub fn check_source(kind: &AssetKind, expected: AssetKind) -> (result: Result<(), String>)
    ensures
        result is Ok <==> *kind == expected,
        result matches Err(message) ==> message@
            == "Le type de l'asset source ne correspond pas au mode."@,
{
    if *kind == expected {
        Ok(())
    } else {
        Err("Le type de l'asset source ne correspond pas au mode.".to_owned())
    }
}

/// An asset with what a probe found in it.
pub open spec fn probed(asset: AssetView, facts: VideoFacts) -> AssetView {
    AssetView {
        width: Some(facts.width),
        height: Some(facts.height),
        duration_seconds: Some(facts.duration_seconds),
        fps: Some(facts.fps),
        ..asset
    }
}

/// Completes the record of a video by what a probe found in it.
pub fn enrich(asset: &mut Asset, facts: VideoFacts)
    ensures
        final(asset)@ == probed(old(asset)@, facts),
{
    asset.width = Some(facts.width);
    asset.height = Some(facts.height);
    asset.duration_seconds = Some(facts.duration_seconds);
    asset.fps = Some(facts.fps);
}

/// What the job of a completed video gives.
pub open spec fn result_of(
    asset: AssetView,
    frames: Option<u32>,
    asset_record: JsonView,
    generation_record: JsonView,
) -> JsonView {
    JsonView::Object(
        seq![
            ("asset_id"@, JsonView::Text(identity::hyphenated(asset.id))),
            ("url"@, JsonView::Text(asset.url)),
            ("mime_type"@, JsonView::Text(asset.mime_type)),
            ("width"@, json::nullable_count(asset.width)),
            ("height"@, json::nullable_count(asset.height)),
            ("duration"@, preflight::nullable_real(asset.duration_seconds)),
            ("fps"@, preflight::nullable_real(asset.fps)),
            ("frames"@, json::nullable_count(frames)),
            ("codec"@, JsonView::Text("h264"@)),
            ("asset"@, asset_record),
            ("generation"@, generation_record),
        ],
    )
}

/// The result of the job of a completed video; `frames` are those of the
/// generation.
pub fn video_result(
    asset: &Asset,
    frames: Option<u32>,
    asset_record: Json,
    generation_record: Json,
) -> (result: Json)
    ensures
        result@ == result_of(asset@, frames, asset_record@, generation_record@),
{
    let ghost records = (asset_record@, generation_record@);
    let mut members: Vec<(String, Json)> = Vec::new();
    json::put(&mut members, "asset_id", json::text_json(identity::id_text(asset.id).as_str()));
    json::put(&mut members, "url", json::text_json(asset.url.as_str()));
    json::put(&mut members, "mime_type", json::text_json(asset.mime_type.as_str()));
    json::put(&mut members, "width", json::opt_count_json(asset.width));
    json::put(&mut members, "height", json::opt_count_json(asset.height));
    json::put(&mut members, "duration", preflight::opt_real_json(asset.duration_seconds));
    json::put(&mut members, "fps", preflight::opt_real_json(asset.fps));
    json::put(&mut members, "frames", json::opt_count_json(frames));
    json::put(&mut members, "codec", json::text_json("h264"));
    json::put(&mut members, "asset", asset_record);
    json::put(&mut members, "generation", generation_record);
    assert(json::members_view(members@) =~= result_of(
        asset@,
        frames,
        records.0,
        records.1,
    )->Object_0);
    json::object(members)
}

// ---------------------------------------------------------------------------
// The encoder of the local engine
// ---------------------------------------------------------------------------

/// How the picture is fitted: scaled until it covers the sides, and cut.
pub open spec fn fitted(wide: Seq<char>, high: Seq<char>) -> Seq<char> {
    "scale="@ + wide + ":"@ + high + ":force_original_aspect_ratio=increase,crop="@ + wide + ":"@
        + high
}

/// The arguments with which the encoder is started.
pub open spec fn encoder_arguments(
    run: VideoRunView,
    source: Seq<char>,
    progress: Seq<char>,
    output: Seq<char>,
) -> Seq<Seq<char>> {
    let generation = run.generation;
    let wide = text::decimal(run.sides.0 as nat);
    let high = text::decimal(run.sides.1 as nat);
    let time = text::decimal(seconds(generation) as nat);
    let fps = text::decimal(run.fps as nat);
    let head = seq!["-y"@, "-loglevel"@, "error"@];
    let input = if generation.mode == GenerationMode::VideoToVideo {
        seq![
            "-i"@,
            source,
            "-t"@,
            time,
            "-vf"@,
            fitted(wide, high) + ",eq=contrast=1.04:saturation=1.10"@,
        ] + (if generation.audio {
            seq!["-map"@, "0:v:0"@, "-map"@, "0:a?"@, "-c:a"@, "aac"@]
        } else {
            seq!["-an"@]
        })
    } else {
        seq!["-loop"@, "1"@, "-i"@, source] + (if generation.audio {
            seq![
                "-f"@,
                "lavfi"@,
                "-i"@,
                "anullsrc=channel_layout=stereo:sample_rate=44100"@,
                "-shortest"@,
            ]
        } else {
            Seq::empty()
        }) + seq![
            "-t"@,
            time,
            "-vf"@,
            fitted(wide, high) + ",zoompan=z='min(zoom+0.0007,1.08)':d=1:s="@ + wide + "x"@ + high
                + ":fps="@ + fps + ",format=yuv420p"@,
        ] + (if generation.audio {
            seq!["-c:a"@, "aac"@]
        } else {
            Seq::empty()
        })
    };
    head + input + seq![
        "-r"@,
        fps,
        "-c:v"@,
        "libx264"@,
        "-preset"@,
        "veryfast"@,
        "-pix_fmt"@,
        "yuv420p"@,
        "-movflags"@,
        "+faststart"@,
        "-progress"@,
        progress,
        "-nostats"@,
        output,
    ]
}

fn push_all(arguments: &mut Vec<String>, more: &[&str])
    ensures
        text::texts(final(arguments)@) == text::texts(old(arguments)@) + Seq::new(
            more@.len(),
            |i: int| more@[i]@,
        ),
{
    let ghost before = text::texts(arguments@);
    for i in 0..more.len()
        invariant
            text::texts(arguments@) =~= before + Seq::new(i as nat, |j: int| more@[j]@),
    {
        let ghost listed = arguments@;
        arguments.push(more[i].to_owned());
        assert(text::texts(arguments@) =~= text::texts(listed).push(more@[i as int]@));
    }
}

fn fit(wide: &str, high: &str) -> (filter: String)
    ensures
        filter@ == fitted(wide@, high@),
{
    let mut filter = "scale=".to_owned();
    filter.append(wide);
    filter.append(":");
    filter.append(high);
    filter.append(":force_original_aspect_ratio=increase,crop=");
    filter.append(wide);
    filter.append(":");
    filter.append(high);
    filter
}

impl VideoRun {
    /// The arguments with which the encoder is started on a source, to write its
    /// progress and its output to these paths.
    #[verifier::rlimit(40)]
    pub fn encoder_command(&self, source: &str, progress: &str, output: &str) -> (arguments: Vec<
        String,
    >)
        ensures
            text::texts(arguments@) == encoder_arguments(self@, source@, progress@, output@),
    {
        let wide = text::decimal_text(self.sides.0 as u64);
        let high = text::decimal_text(self.sides.1 as u64);
        let duration: u32 = match self.generation.duration_seconds {
            Some(number) => number,
            None => 6,
        };
        let time = text::decimal_text(duration as u64);
        let fps = text::decimal_text(self.fps as u64);
        let mut filter = fit(wide.as_str(), high.as_str());
        let mut arguments: Vec<String> = Vec::new();
        push_all(&mut arguments, &["-y", "-loglevel", "error"]);
        if self.generation.mode == GenerationMode::VideoToVideo {
            filter.append(",eq=contrast=1.04:saturation=1.10");
            push_all(&mut arguments, &["-i", source, "-t", time.as_str(), "-vf", filter.as_str()]);
            if self.generation.audio {
                push_all(&mut arguments, &["-map", "0:v:0", "-map", "0:a?", "-c:a", "aac"]);
            } else {
                push_all(&mut arguments, &["-an"]);
            }
        } else {
            filter.append(",zoompan=z='min(zoom+0.0007,1.08)':d=1:s=");
            filter.append(wide.as_str());
            filter.append("x");
            filter.append(high.as_str());
            filter.append(":fps=");
            filter.append(fps.as_str());
            filter.append(",format=yuv420p");
            push_all(&mut arguments, &["-loop", "1", "-i", source]);
            if self.generation.audio {
                push_all(
                    &mut arguments,
                    &[
                        "-f",
                        "lavfi",
                        "-i",
                        "anullsrc=channel_layout=stereo:sample_rate=44100",
                        "-shortest",
                    ],
                );
            }
            push_all(&mut arguments, &["-t", time.as_str(), "-vf", filter.as_str()]);
            if self.generation.audio {
                push_all(&mut arguments, &["-c:a", "aac"]);
            }
        }
        push_all(
            &mut arguments,
            &[
                "-r",
                fps.as_str(),
                "-c:v",
                "libx264",
                "-preset",
                "veryfast",
                "-pix_fmt",
                "yuv420p",
                "-movflags",
                "+faststart",
                "-progress",
                progress,
                "-nostats",
                output,
            ],
        );
        assert(text::texts(arguments@) =~= encoder_arguments(self@, source@, progress@, output@));
        arguments
    }
}

// ---------------------------------------------------------------------------
// Laws
// ---------------------------------------------------------------------------

/// A run that is over takes no further step.
pub proof fn law_ended_runs_stay(run: VideoRunView, event: VideoEvent, saving: bool, now: u64)
    requires
        run.phase == VideoPhase::Ended,
    ensures
        next(run, event, saving, now).run == run,
        next(run, event, saving, now).report is None,
{
}

/// A run ends completed exactly where a video was saved for it, and then with
/// that video; every other end is told as stopped or failed.
pub proof fn law_runs_end_once(run: VideoRunView, event: VideoEvent, saving: bool, now: u64)
    requires
        run.phase != VideoPhase::Ended,
        next(run, event, saving, now).run.phase == VideoPhase::Ended,
    ensures
        ({
            let step = next(run, event, saving, now);
            let status = step.run.generation.status;
            &&& status == GenerationStatus::Completed || status == GenerationStatus::Failed
                || status == GenerationStatus::Cancelled
            &&& status == GenerationStatus::Completed <==> step.action is Complete
            &&& status == GenerationStatus::Completed ==> run.phase == VideoPhase::Saving && (
            event matches VideoEvent::Saved(Ok(saved)) && step.run.generation.output_asset_id
                == Some(saved.asset@.id))
            &&& step.report is Some && step.report->0.status == (match status {
                GenerationStatus::Completed => JobStatus::Completed,
                GenerationStatus::Cancelled => JobStatus::Cancelled,
                _ => JobStatus::Failed,
            })
        }),
{
    match run.phase {
        VideoPhase::Ready => {
            reveal(on_ready);
        },
        VideoPhase::Routing => {
            reveal(on_routing);
        },
        VideoPhase::Staging => {
            reveal(on_staging);
        },
        VideoPhase::Preflight => {
            reveal(on_preflighting);
        },
        VideoPhase::Generating => {
            reveal(on_generating);
        },
        VideoPhase::Reading => {
            reveal(on_reading);
        },
        VideoPhase::Sketching => {
            reveal(on_sketching);
        },
        VideoPhase::SketchReading => {
            reveal(on_sketch_reading);
        },
        VideoPhase::Locating => {
            reveal(on_locating);
        },
        VideoPhase::Encoding => {
            reveal(on_encoding_phase);
        },
        VideoPhase::Collecting => {
            reveal(on_collecting);
        },
        VideoPhase::Saving => {
            reveal(on_saving_phase);
        },
        VideoPhase::Ended => {},
    }
}

/// The sides and the rate that were asked for stand through the run, and so do
/// its generation and its job, whatever the worker makes of the request.
#[verifier::spinoff_prover]
#[verifier::rlimit(40)]
pub proof fn law_the_request_stands(run: VideoRunView, event: VideoEvent, saving: bool, now: u64)
    ensures
        ({
            let after = next(run, event, saving, now).run;
            &&& after.sides == run.sides
            &&& after.fps == run.fps
            &&& after.job_id == run.job_id
            &&& after.storage_id == run.storage_id
            &&& after.ordered == run.ordered
            &&& after.generation.id == run.generation.id
            &&& after.generation.mode == run.generation.mode
            &&& after.generation.prompt == run.generation.prompt
            &&& after.generation.audio == run.generation.audio
            &&& after.generation.duration_seconds == run.generation.duration_seconds
        }),
{
    match run.phase {
        VideoPhase::Ready => {
            reveal(on_ready);
        },
        VideoPhase::Routing => {
            reveal(on_routing);
        },
        VideoPhase::Staging => {
            reveal(on_staging);
        },
        VideoPhase::Preflight => {
            reveal(on_preflighting);
        },
        VideoPhase::Generating => {
            reveal(on_generating);
        },
        VideoPhase::Reading => {
            reveal(on_reading);
        },
        VideoPhase::Sketching => {
            reveal(on_sketching);
        },
        VideoPhase::SketchReading => {
            reveal(on_sketch_reading);
        },
        VideoPhase::Locating => {
            reveal(on_locating);
        },
        VideoPhase::Encoding => {
            reveal(on_encoding_phase);
        },
        VideoPhase::Collecting => {
            reveal(on_collecting);
        },
        VideoPhase::Saving => {
            reveal(on_saving_phase);
        },
        VideoPhase::Ended => {},
    }
}

/// A video for which sound was asked for is only read where the worker says that
/// it has sound.
pub proof fn law_sound_is_verified(
    run: VideoRunView,
    response: ResponseView,
    extension: Seq<char>,
    phase: VideoPhase,
    saving: bool,
    now: u64,
)
    requires
        accepted(run, response, extension, phase, saving, now).action is Read,
    ensures
        run.generation.audio ==> accepted(
            run,
            response,
            extension,
            phase,
            saving,
            now,
        ).run.generation.actual_audio,
        run::answers(response, run.job_id, run::output_path(run.generation.id, extension)),
{
}

/// While the encoder runs the progress never falls, and it stays below what
/// saving reports.
pub proof fn law_encoding_only_advances(
    run: VideoRunView,
    look: EncoderLook,
    saving: bool,
    now: u64,
)
    requires
        run.generation.progress <= 88,
    ensures
        watched(run, look, saving, now).run.generation.progress >= run.generation.progress,
        watched(run, look, saving, now).run.generation.progress <= 88,
{
    match look.progress {
        Some(written) => {
            let time = last_time(lines_of(written@));
            let whole = seconds(run.generation) * 1_000_000;
            if 0 < whole && time < whole {
                assert((128 * time + whole) / (2 * whole) <= 64) by (nonlinear_arith)
                    requires
                        0 < whole,
                        0 <= time < whole,
                ;
                assert((128 * time + whole) / (2 * whole) >= 0) by (nonlinear_arith)
                    requires
                        0 < whole,
                        0 <= time,
                ;
            }
        },
        None => {},
    }
}

} // verus!
