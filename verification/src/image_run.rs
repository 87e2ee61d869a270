//! The run of an image generation, step by step: what happened outside comes in
//! as an event, and what is to be done outside goes out as an action.
use crate::asset::{Asset, AssetView};
use crate::capability;
use crate::capability::{GenerationMode, ModelCapability};
use crate::generation;
use crate::generation::{AssetKind, Generation, GenerationStatus, GenerationView};
use crate::identity;
use crate::job::{JobStatus, Jobs};
use crate::json;
use crate::json::{Json, JsonView};
use crate::preflight;
use crate::preflight::PreflightAnswer;
use crate::run;
use crate::run::{Report, ReportView};
use crate::text;
use crate::worker;
use crate::worker::{GenerateResponse, ImageRequest, WorkerBenchmarkObservation};
use vstd::prelude::*;
use vstd::string::*;

verus! {

/// Where a run stands.
#[derive(Clone, Copy, Debug, PartialEq, Eq, Structural)]
pub enum ImagePhase {
    /// Nothing was done yet.
    Ready,
    /// The job is dispatched; whether to go on is asked.
    Dispatched,
    /// The way is to be chosen.
    Routing,
    /// The inputs are being copied for the worker.
    Staging,
    /// The worker is asked whether it can run the generation.
    Preflight,
    /// The worker makes the picture.
    Generating,
    /// What the worker made is being read.
    Reading,
    /// The local engine draws the picture.
    Rendering,
    /// The picture is there; whether to go on is asked.
    Produced,
    /// The picture is being saved.
    Saving,
    /// The run is over.
    Ended,
}

/// Where the inputs of a generation were copied to for the worker.
#[derive(Debug)]
pub struct StagedInputs {
    pub input: Option<String>,
    pub mask: Option<String>,
    pub control: Option<String>,
}

/// Where the inputs of a generation were copied to for the worker.
pub struct StagedView {
    pub input: Option<Seq<char>>,
    pub mask: Option<Seq<char>>,
    pub control: Option<Seq<char>>,
}

impl View for StagedInputs {
    type V = StagedView;

    open spec fn view(&self) -> StagedView {
        StagedView {
            input: text::opt(self.input),
            mask: text::opt(self.mask),
            control: text::opt(self.control),
        }
    }
}

/// A run of an image generation.
pub struct ImageRun {
    pub phase: ImagePhase,
    pub generation: Generation,
    pub job_id: u128,
    /// The name under which the model is stored.
    pub storage_id: String,
    /// Whether there is a worker.
    pub worker: bool,
    pub staged: StagedInputs,
    /// The sides of the picture.
    pub sides: (u32, u32),
}

/// A run of an image generation.
pub struct ImageRunView {
    pub phase: ImagePhase,
    pub generation: GenerationView,
    pub job_id: u128,
    pub storage_id: Seq<char>,
    pub worker: bool,
    pub staged: StagedView,
    pub sides: (u32, u32),
}

impl View for ImageRun {
    type V = ImageRunView;

    open spec fn view(&self) -> ImageRunView {
        ImageRunView {
            phase: self.phase,
            generation: self.generation@,
            job_id: self.job_id,
            storage_id: self.storage_id@,
            worker: self.worker,
            staged: self.staged@,
            sides: self.sides,
        }
    }
}

/// What happened outside.
pub enum ImageEvent {
    /// The run may begin.
    Begin,
    /// Whether the generation was asked to stop.
    Cancellation(bool),
    /// What was reported is recorded.
    Recorded,
    /// The inputs were copied, or not.
    Staged(Result<StagedInputs, String>),
    /// The worker answered the preflight.
    Preflight(Result<PreflightAnswer, String>),
    /// The worker made the picture, or not.
    Answered(Result<GenerateResponse, String>),
    /// What the worker made was read, or not.
    Read(Result<(), String>),
    /// The local engine drew the picture, or not.
    Rendered(Result<(), String>),
    /// The picture was saved and published, or not.
    Saved(Result<Asset, String>),
}

/// What is to be done outside.
pub enum ImageAction {
    /// Find out whether the generation was asked to stop.
    AskCancellation,
    /// Record what was reported, and come back.
    Record,
    /// Copy the asset, the mask and the control image for the worker.
    Stage(u128),
    /// Ask the worker whether it can run the generation.
    Preflight(Json),
    /// Ask the worker, at a path, for the picture.
    Generate(&'static str, Json),
    /// Read what the worker made, and record what it measured.
    Read(String, Option<WorkerBenchmarkObservation>),
    /// Draw the picture from the prompt.
    RenderText,
    /// Draw the picture from an asset.
    RenderImage(u128),
    /// Save the picture under a name, with its sides.
    Save(String, (u32, u32)),
    /// The run ended with an asset.
    Complete,
    /// The run ended without one.
    End,
    /// Nothing: the event does not fit the phase.
    Ignore,
}

/// What is to be done outside.
pub enum ImageActionView {
    AskCancellation,
    Record,
    Stage(u128),
    Preflight(JsonView),
    Generate(Seq<char>, JsonView),
    Read(Seq<char>, Option<worker::ObservationView>),
    RenderText,
    RenderImage(u128),
    Save(Seq<char>, (u32, u32)),
    Complete,
    End,
    Ignore,
}

impl View for ImageAction {
    type V = ImageActionView;

    open spec fn view(&self) -> ImageActionView {
        match self {
            ImageAction::AskCancellation => ImageActionView::AskCancellation,
            ImageAction::Record => ImageActionView::Record,
            ImageAction::Stage(id) => ImageActionView::Stage(*id),
            ImageAction::Preflight(payload) => ImageActionView::Preflight(payload@),
            ImageAction::Generate(path, body) => ImageActionView::Generate(path@, body@),
            ImageAction::Read(path, benchmark) => ImageActionView::Read(
                path@,
                worker::opt_observation(*benchmark),
            ),
            ImageAction::RenderText => ImageActionView::RenderText,
            ImageAction::RenderImage(id) => ImageActionView::RenderImage(*id),
            ImageAction::Save(name, sides) => ImageActionView::Save(name@, *sides),
            ImageAction::Complete => ImageActionView::Complete,
            ImageAction::End => ImageActionView::End,
            ImageAction::Ignore => ImageActionView::Ignore,
        }
    }
}

/// A step of a run: the run after it, what is reported, and what is to be done.
pub struct ImageStepView {
    pub run: ImageRunView,
    pub report: Option<ReportView>,
    pub action: ImageActionView,
}

/// Whether the local engine draws the picture.
pub open spec fn local(generation: GenerationView) -> bool {
    generation.model_id == generation::CANVAS@
}

/// Where the worker leaves the picture.
pub open spec fn picture_path(generation: GenerationView) -> Seq<char> {
    run::output_path(generation.id, "png"@)
}

/// The capability that the worker is asked for.
pub open spec fn asked_capability(generation: GenerationView) -> ModelCapability {
    match generation.capability {
        Some(capability) => capability,
        None => if generation.mode == GenerationMode::TextToImage {
            ModelCapability::TextToImage
        } else {
            ModelCapability::ImageToImage
        },
    }
}

/// The body of the request to the worker.
#[verifier::opaque]
pub open spec fn request_body(run: ImageRunView) -> JsonView {
    let generation = run.generation;
    let head = worker::request_head(
        identity::hyphenated(run.job_id),
        run.storage_id,
        generation.prompt,
        generation.negative_prompt,
    ).push(("seed"@, JsonView::Null)).push(
        ("output_relative_path"@, JsonView::Text(picture_path(generation))),
    );
    let input = worker::with_text(head, "input_path"@, run.staged.input);
    let mask = worker::with_text(input, "mask_path"@, run.staged.mask);
    let control = worker::with_text(mask, "control_path"@, run.staged.control);
    let capability = worker::with_text(
        control,
        "capability"@,
        Some(asked_capability(generation).name()),
    );
    let quality = worker::with_text(capability, "quality"@, generation.requested_quality);
    let preset = worker::with_text(quality, "preset"@, generation.requested_preset);
    JsonView::Object(
        worker::with_part(
            preset,
            "advanced_parameters"@,
            Some(generation.advanced_parameters),
        ),
    )
}

/// The end of a run that did not succeed.
pub open spec fn lost(run: ImageRunView, cause: Seq<char>, saving: bool, now: u64) -> ImageStepView {
    let (generation, report) = run::unsuccessful(run.generation, cause, false, saving, now);
    ImageStepView {
        run: ImageRunView { phase: ImagePhase::Ended, generation, ..run },
        report: Some(report),
        action: ImageActionView::End,
    }
}

/// A step that reports nothing.
pub open spec fn onward(run: ImageRunView, phase: ImagePhase, action: ImageActionView) -> ImageStepView {
    ImageStepView { run: ImageRunView { phase, ..run }, report: None, action }
}

/// The way that a run takes: the worker or the local engine, from a prompt or
/// from an asset, or why there is none.
pub open spec fn routed(run: ImageRunView, saving: bool, now: u64) -> ImageStepView {
    let generation = run.generation;
    if generation.mode == GenerationMode::TextToImage {
        if local(generation) {
            onward(run, ImagePhase::Rendering, ImageActionView::RenderText)
        } else if !run.worker {
            lost(run, "Worker GPU absent"@, saving, now)
        } else {
            onward(
                run,
                ImagePhase::Preflight,
                ImageActionView::Preflight(
                    preflight::payload_of(
                        generation,
                        run.storage_id,
                        picture_path(generation),
                        None,
                        None,
                    ),
                ),
            )
        }
    } else if generation.mode == GenerationMode::ImageToImage {
        if !local(generation) && !run.worker {
            lost(run, "Worker GPU absent"@, saving, now)
        } else {
            match generation.input_asset_id {
                None => lost(run, "Asset source absent"@, saving, now),
                Some(id) => if local(generation) {
                    onward(run, ImagePhase::Rendering, ImageActionView::RenderImage(id))
                } else {
                    onward(run, ImagePhase::Staging, ImageActionView::Stage(id))
                },
            }
        }
    } else {
        lost(run, "Mode incompatible avec le moteur image."@, saving, now)
    }
}

/// The generation with the picture that was saved for it.
pub open spec fn completed(generation: GenerationView, asset: AssetView, now: u64) -> GenerationView {
    GenerationView {
        output_asset_id: Some(asset.id),
        actual_width: asset.width,
        actual_height: asset.height,
        status: GenerationStatus::Completed,
        progress: 100,
        updated_at: now,
        ..generation
    }
}

/// The step of a run in the phase [`ImagePhase::Ready`].
#[verifier::opaque]
pub open spec fn on_ready(run: ImageRunView, event: ImageEvent, saving: bool, now: u64) -> ImageStepView {
    match event {
        ImageEvent::Begin => ImageStepView {
            run: ImageRunView {
                phase: ImagePhase::Dispatched,
                generation: run::begun(run.generation, 12, now),
                ..run
            },
            report: Some(
                run::report_of(
                    JobStatus::Dispatching,
                    "dispatching"@,
                    12,
                    "Dispatch vers le moteur image"@,
                ),
            ),
            action: ImageActionView::AskCancellation,
        },
        _ => ImageStepView { run, report: None, action: ImageActionView::Ignore },
    }
}

/// The step of a run in the phase [`ImagePhase::Dispatched`].
#[verifier::opaque]
pub open spec fn on_dispatched(run: ImageRunView, event: ImageEvent, saving: bool, now: u64) -> ImageStepView {
    match event {
        ImageEvent::Cancellation(true) => lost(
            run,
            run::CANCELLED@,
            saving,
            now,
        ),
        ImageEvent::Cancellation(false) => ImageStepView {
            run: ImageRunView {
                phase: ImagePhase::Routing,
                generation: run::progressed(run.generation, 38, now),
                ..run
            },
            report: Some(
                run::report_of(JobStatus::Running, "generating"@, 38, "Création de l'image"@),
            ),
            action: ImageActionView::Record,
        },
        _ => ImageStepView { run, report: None, action: ImageActionView::Ignore },
    }
}

/// The step of a run in the phase [`ImagePhase::Routing`].
#[verifier::opaque]
pub open spec fn on_routing(run: ImageRunView, event: ImageEvent, saving: bool, now: u64) -> ImageStepView {
    match event {
        ImageEvent::Recorded => routed(run, saving, now),
        _ => ImageStepView { run, report: None, action: ImageActionView::Ignore },
    }
}

/// The step of a run in the phase [`ImagePhase::Staging`].
#[verifier::opaque]
pub open spec fn on_staging(run: ImageRunView, event: ImageEvent, saving: bool, now: u64) -> ImageStepView {
    match event {
        ImageEvent::Staged(Err(cause)) => lost(run, cause@, saving, now),
        ImageEvent::Staged(Ok(staged)) => ImageStepView {
            run: ImageRunView { phase: ImagePhase::Preflight, staged: staged@, ..run },
            report: None,
            action: ImageActionView::Preflight(
                preflight::payload_of(
                    run.generation,
                    run.storage_id,
                    picture_path(run.generation),
                    staged@.input,
                    None,
                ),
            ),
        },
        _ => ImageStepView { run, report: None, action: ImageActionView::Ignore },
    }
}

/// The step of a run in the phase [`ImagePhase::Preflight`].
#[verifier::opaque]
pub open spec fn on_preflight(run: ImageRunView, event: ImageEvent, saving: bool, now: u64) -> ImageStepView {
    match event {
        ImageEvent::Preflight(answer) => match preflight::answer_refusal(
            answer,
            run.generation,
            run.storage_id,
        ) {
            Some(cause) => lost(run, cause, saving, now),
            None => onward(
                run,
                ImagePhase::Generating,
                ImageActionView::Generate(
                    capability::image_path(asked_capability(run.generation)),
                    request_body(run),
                ),
            ),
        },
        _ => ImageStepView { run, report: None, action: ImageActionView::Ignore },
    }
}

/// The step of a run in the phase [`ImagePhase::Generating`].
#[verifier::opaque]
pub open spec fn on_generating(run: ImageRunView, event: ImageEvent, saving: bool, now: u64) -> ImageStepView {
    match event {
        ImageEvent::Answered(Err(cause)) => lost(
            run,
            cause@,
            saving,
            now,
        ),
        ImageEvent::Answered(Ok(response)) => match run::picture_sides(
            response@,
            run.job_id,
            picture_path(run.generation),
        ) {
            Err(cause) => lost(run, cause, saving, now),
            Ok(sides) => ImageStepView {
                run: ImageRunView { phase: ImagePhase::Reading, sides, ..run },
                report: None,
                action: ImageActionView::Read(
                    picture_path(run.generation),
                    if run.generation.mode == GenerationMode::TextToImage {
                        response@.benchmark
                    } else {
                        None
                    },
                ),
            },
        },
        _ => ImageStepView { run, report: None, action: ImageActionView::Ignore },
    }
}

/// The step of a run in the phase [`ImagePhase::Reading`].
#[verifier::opaque]
pub open spec fn on_reading(run: ImageRunView, event: ImageEvent, saving: bool, now: u64) -> ImageStepView {
    match event {
        ImageEvent::Read(Err(cause)) => lost(
            run,
            "Sortie worker introuvable sur le volume partagé: "@ + cause@,
            saving,
            now,
        ),
        ImageEvent::Read(Ok(_)) => onward(
            run,
            ImagePhase::Produced,
            ImageActionView::AskCancellation,
        ),
        _ => ImageStepView { run, report: None, action: ImageActionView::Ignore },
    }
}

/// The step of a run in the phase [`ImagePhase::Rendering`].
#[verifier::opaque]
pub open spec fn on_rendering(run: ImageRunView, event: ImageEvent, saving: bool, now: u64) -> ImageStepView {
    match event {
        ImageEvent::Rendered(Err(cause)) => lost(run, cause@, saving, now),
        ImageEvent::Rendered(Ok(_)) => onward(
            run,
            ImagePhase::Produced,
            ImageActionView::AskCancellation,
        ),
        _ => ImageStepView { run, report: None, action: ImageActionView::Ignore },
    }
}

/// The step of a run in the phase [`ImagePhase::Produced`].
#[verifier::opaque]
pub open spec fn on_produced(run: ImageRunView, event: ImageEvent, saving: bool, now: u64) -> ImageStepView {
    match event {
        ImageEvent::Cancellation(true) => lost(
            run,
            run::CANCELLED@,
            saving,
            now,
        ),
        ImageEvent::Cancellation(false) => ImageStepView {
            run: ImageRunView {
                phase: ImagePhase::Saving,
                generation: run::progressed(run.generation, 82, now),
                ..run
            },
            report: Some(
                run::report_of(
                    JobStatus::SavingOutput,
                    "saving_output"@,
                    82,
                    "Enregistrement de l'asset final"@,
                ),
            ),
            action: ImageActionView::Save(
                "generation-"@ + identity::hyphenated(run.generation.id) + ".png"@,
                run.sides,
            ),
        },
        _ => ImageStepView { run, report: None, action: ImageActionView::Ignore },
    }
}

/// The step of a run in the phase [`ImagePhase::Saving`].
#[verifier::opaque]
pub open spec fn on_saving(run: ImageRunView, event: ImageEvent, saving: bool, now: u64) -> ImageStepView {
    match event {
        ImageEvent::Saved(Err(cause)) => lost(run, cause@, saving, now),
        ImageEvent::Saved(Ok(asset)) => ImageStepView {
            run: ImageRunView {
                phase: ImagePhase::Ended,
                generation: completed(run.generation, asset@, now),
                ..run
            },
            report: Some(
                run::report_of(JobStatus::Completed, "completed"@, 100, "Image disponible"@),
            ),
            action: ImageActionView::Complete,
        },
        _ => ImageStepView { run, report: None, action: ImageActionView::Ignore },
    }
}

/// The step that follows from an event. An event that does not fit the phase
/// changes nothing.
pub open spec fn next(run: ImageRunView, event: ImageEvent, saving: bool, now: u64) -> ImageStepView {
    match run.phase {
        ImagePhase::Ready => on_ready(run, event, saving, now),
        ImagePhase::Dispatched => on_dispatched(run, event, saving, now),
        ImagePhase::Routing => on_routing(run, event, saving, now),
        ImagePhase::Staging => on_staging(run, event, saving, now),
        ImagePhase::Preflight => on_preflight(run, event, saving, now),
        ImagePhase::Generating => on_generating(run, event, saving, now),
        ImagePhase::Reading => on_reading(run, event, saving, now),
        ImagePhase::Rendering => on_rendering(run, event, saving, now),
        ImagePhase::Produced => on_produced(run, event, saving, now),
        ImagePhase::Saving => on_saving(run, event, saving, now),
        _ => ImageStepView { run, report: None, action: ImageActionView::Ignore },
    }
}

impl ImageRun {
    /// A run that has not begun. Pictures of the local engine have 1024 pixels a
    /// side; the worker says what its pictures have.
    pub fn new(generation: Generation, job_id: u128, storage_id: String, worker: bool) -> (run: Self)
        ensures
            run@ == (ImageRunView {
                phase: ImagePhase::Ready,
                generation: generation@,
                job_id,
                storage_id: storage_id@,
                worker,
                staged: StagedView { input: None, mask: None, control: None },
                sides: (1024, 1024),
            }),
    {
        ImageRun {
            phase: ImagePhase::Ready,
            generation,
            job_id,
            storage_id,
            worker,
            staged: StagedInputs { input: None, mask: None, control: None },
            sides: (1024, 1024),
        }
    }

    fn lose(&mut self, cause: String, jobs: &Jobs, now: u64) -> (step: (Option<Report>, ImageAction))
        ensures
            (ImageStepView {
                run: final(self)@,
                report: run::opt_report(step.0),
                action: step.1@,
            }) == lost(old(self)@, cause@, run::saving(jobs@, old(self).job_id), now),
    {
        let report = run::end_unsuccessful(
            &mut self.generation,
            cause,
            false,
            jobs,
            self.job_id,
            now,
        );
        self.phase = ImagePhase::Ended;
        (Some(report), ImageAction::End)
    }

    fn preflight(&mut self, with_input: bool) -> (step: (Option<Report>, ImageAction))
        ensures
            (ImageStepView {
                run: final(self)@,
                report: run::opt_report(step.0),
                action: step.1@,
            }) == onward(
                old(self)@,
                ImagePhase::Preflight,
                ImageActionView::Preflight(
                    preflight::payload_of(
                        old(self)@.generation,
                        old(self)@.storage_id,
                        picture_path(old(self)@.generation),
                        if with_input {
                            old(self)@.staged.input
                        } else {
                            None
                        },
                        None,
                    ),
                ),
            ),
    {
        self.phase = ImagePhase::Preflight;
        let path = run::relative_output(self.generation.id, "png");
        let input = if with_input {
            text::borrow(&self.staged.input)
        } else {
            None
        };
        let payload = preflight::generation_preflight_payload(
            &self.generation,
            self.storage_id.as_str(),
            path.as_str(),
            input,
            None,
        );
        (None, ImageAction::Preflight(payload))
    }

    fn route(&mut self, jobs: &Jobs, now: u64) -> (step: (Option<Report>, ImageAction))
        ensures
            (ImageStepView {
                run: final(self)@,
                report: run::opt_report(step.0),
                action: step.1@,
            }) == routed(old(self)@, run::saving(jobs@, old(self).job_id), now),
    {
        let procedural = *self.generation.model_id.as_str() == *generation::CANVAS;
        match self.generation.mode {
            GenerationMode::TextToImage => {
                if procedural {
                    self.phase = ImagePhase::Rendering;
                    (None, ImageAction::RenderText)
                } else if !self.worker {
                    self.lose("Worker GPU absent".to_owned(), jobs, now)
                } else {
                    self.preflight(false)
                }
            },
            GenerationMode::ImageToImage => {
                if !procedural && !self.worker {
                    return self.lose("Worker GPU absent".to_owned(), jobs, now);
                }
                match self.generation.input_asset_id {
                    None => self.lose("Asset source absent".to_owned(), jobs, now),
                    Some(id) => {
                        if procedural {
                            self.phase = ImagePhase::Rendering;
                            (None, ImageAction::RenderImage(id))
                        } else {
                            self.phase = ImagePhase::Staging;
                            (None, ImageAction::Stage(id))
                        }
                    },
                }
            },
            _ => self.lose("Mode incompatible avec le moteur image.".to_owned(), jobs, now),
        }
    }

    fn request(&self) -> (action: ImageAction)
        ensures
            action@ == ImageActionView::Generate(
                capability::image_path(asked_capability(self@.generation)),
                request_body(self@),
            ),
    {
        reveal(request_body);
        let capability = match self.generation.capability {
            Some(found) => found,
            None => if self.generation.mode == GenerationMode::TextToImage {
                ModelCapability::TextToImage
            } else {
                ModelCapability::ImageToImage
            },
        };
        let path = run::relative_output(self.generation.id, "png");
        let job = identity::id_text(self.job_id);
        let request = ImageRequest {
            job_id: job.as_str(),
            model_id: self.storage_id.as_str(),
            prompt: self.generation.prompt.as_str(),
            negative_prompt: text::borrow(&self.generation.negative_prompt),
            quality: text::borrow(&self.generation.requested_quality),
            output_relative_path: path.as_str(),
            input_path: text::borrow(&self.staged.input),
            mask_path: text::borrow(&self.staged.mask),
            control_path: text::borrow(&self.staged.control),
            capability: Some(capability.api_name()),
            preset: text::borrow(&self.generation.requested_preset),
            advanced_parameters: Some(&self.generation.advanced_parameters),
        };
        ImageAction::Generate(capability::image_endpoint(&capability), worker::image_payload(&request))
    }

    fn ready(&mut self, event: ImageEvent, jobs: &Jobs, now: u64) -> (step: (
        Option<Report>,
        ImageAction,
    ))
        requires
            old(self).phase == ImagePhase::Ready,
        ensures
            (ImageStepView {
                run: final(self)@,
                report: run::opt_report(step.0),
                action: step.1@,
            }) == on_ready(old(self)@, event, run::saving(jobs@, old(self).job_id), now),
    {
        reveal(on_ready);
        match event {
            ImageEvent::Begin => {
                self.phase = ImagePhase::Dispatched;
                self.generation.status = GenerationStatus::Running;
                self.generation.progress = 12;
                self.generation.updated_at = now;
                let report = run::new_report(
                    JobStatus::Dispatching,
                    "dispatching",
                    12,
                    "Dispatch vers le moteur image",
                );
                (Some(report), ImageAction::AskCancellation)
            },
            _ => (None, ImageAction::Ignore),
        }
    }

    fn dispatched(&mut self, event: ImageEvent, jobs: &Jobs, now: u64) -> (step: (
        Option<Report>,
        ImageAction,
    ))
        requires
            old(self).phase == ImagePhase::Dispatched,
        ensures
            (ImageStepView {
                run: final(self)@,
                report: run::opt_report(step.0),
                action: step.1@,
            }) == on_dispatched(old(self)@, event, run::saving(jobs@, old(self).job_id), now),
    {
        reveal(on_dispatched);
        match event {
            ImageEvent::Cancellation(asked) => {
                if asked {
                    return self.lose(run::CANCELLED.to_owned(), jobs, now);
                }
                self.phase = ImagePhase::Routing;
                self.generation.progress = 38;
                self.generation.updated_at = now;
                let report = run::new_report(
                    JobStatus::Running,
                    "generating",
                    38,
                    "Création de l'image",
                );
                (Some(report), ImageAction::Record)
            },
            _ => (None, ImageAction::Ignore),
        }
    }

    fn routing(&mut self, event: ImageEvent, jobs: &Jobs, now: u64) -> (step: (
        Option<Report>,
        ImageAction,
    ))
        requires
            old(self).phase == ImagePhase::Routing,
        ensures
            (ImageStepView {
                run: final(self)@,
                report: run::opt_report(step.0),
                action: step.1@,
            }) == on_routing(old(self)@, event, run::saving(jobs@, old(self).job_id), now),
    {
        reveal(on_routing);
        match event {
            ImageEvent::Recorded => self.route(jobs, now),
            _ => (None, ImageAction::Ignore),
        }
    }

    fn staging(&mut self, event: ImageEvent, jobs: &Jobs, now: u64) -> (step: (
        Option<Report>,
        ImageAction,
    ))
        requires
            old(self).phase == ImagePhase::Staging,
        ensures
            (ImageStepView {
                run: final(self)@,
                report: run::opt_report(step.0),
                action: step.1@,
            }) == on_staging(old(self)@, event, run::saving(jobs@, old(self).job_id), now),
    {
        reveal(on_staging);
        match event {
            ImageEvent::Staged(outcome) => match outcome {
                Err(cause) => self.lose(cause, jobs, now),
                Ok(staged) => {
                    self.staged = staged;
                    self.preflight(true)
                },
            },
            _ => (None, ImageAction::Ignore),
        }
    }

    fn preflighting(&mut self, event: ImageEvent, jobs: &Jobs, now: u64) -> (step: (
        Option<Report>,
        ImageAction,
    ))
        requires
            old(self).phase == ImagePhase::Preflight,
        ensures
            (ImageStepView {
                run: final(self)@,
                report: run::opt_report(step.0),
                action: step.1@,
            }) == on_preflight(old(self)@, event, run::saving(jobs@, old(self).job_id), now),
    {
        reveal(on_preflight);
        match event {
            ImageEvent::Preflight(answer) => {
                match preflight::require_worker_preflight(
                    answer,
                    &self.generation,
                    self.storage_id.as_str(),
                ) {
                    Err(cause) => self.lose(cause, jobs, now),
                    Ok(_) => {
                        let action = self.request();
                        self.phase = ImagePhase::Generating;
                        (None, action)
                    },
                }
            },
            _ => (None, ImageAction::Ignore),
        }
    }

    fn generating(&mut self, event: ImageEvent, jobs: &Jobs, now: u64) -> (step: (
        Option<Report>,
        ImageAction,
    ))
        requires
            old(self).phase == ImagePhase::Generating,
        ensures
            (ImageStepView {
                run: final(self)@,
                report: run::opt_report(step.0),
                action: step.1@,
            }) == on_generating(old(self)@, event, run::saving(jobs@, old(self).job_id), now),
    {
        reveal(on_generating);
        match event {
            ImageEvent::Answered(outcome) => match outcome {
                Err(cause) => self.lose(cause, jobs, now),
                Ok(response) => {
                    let path = run::relative_output(self.generation.id, "png");
                    match run::check_picture(&response, self.job_id, path.as_str()) {
                        Err(cause) => self.lose(cause, jobs, now),
                        Ok(sides) => {
                            self.sides = sides;
                            self.phase = ImagePhase::Reading;
                            let benchmark = if self.generation.mode
                                == GenerationMode::TextToImage {
                                response.benchmark
                            } else {
                                None
                            };
                            (None, ImageAction::Read(path, benchmark))
                        },
                    }
                },
            },
            _ => (None, ImageAction::Ignore),
        }
    }

    fn reading(&mut self, event: ImageEvent, jobs: &Jobs, now: u64) -> (step: (
        Option<Report>,
        ImageAction,
    ))
        requires
            old(self).phase == ImagePhase::Reading,
        ensures
            (ImageStepView {
                run: final(self)@,
                report: run::opt_report(step.0),
                action: step.1@,
            }) == on_reading(old(self)@, event, run::saving(jobs@, old(self).job_id), now),
    {
        reveal(on_reading);
        match event {
            ImageEvent::Read(outcome) => match outcome {
                Err(cause) => self.lose(
                    text::concat(
                        "Sortie worker introuvable sur le volume partagé: ",
                        cause.as_str(),
                    ),
                    jobs,
                    now,
                ),
                Ok(_) => {
                    self.phase = ImagePhase::Produced;
                    (None, ImageAction::AskCancellation)
                },
            },
            _ => (None, ImageAction::Ignore),
        }
    }

    fn rendering(&mut self, event: ImageEvent, jobs: &Jobs, now: u64) -> (step: (
        Option<Report>,
        ImageAction,
    ))
        requires
            old(self).phase == ImagePhase::Rendering,
        ensures
            (ImageStepView {
                run: final(self)@,
                report: run::opt_report(step.0),
                action: step.1@,
            }) == on_rendering(old(self)@, event, run::saving(jobs@, old(self).job_id), now),
    {
        reveal(on_rendering);
        match event {
            ImageEvent::Rendered(outcome) => match outcome {
                Err(cause) => self.lose(cause, jobs, now),
                Ok(_) => {
                    self.phase = ImagePhase::Produced;
                    (None, ImageAction::AskCancellation)
                },
            },
            _ => (None, ImageAction::Ignore),
        }
    }

    fn produced(&mut self, event: ImageEvent, jobs: &Jobs, now: u64) -> (step: (
        Option<Report>,
        ImageAction,
    ))
        requires
            old(self).phase == ImagePhase::Produced,
        ensures
            (ImageStepView {
                run: final(self)@,
                report: run::opt_report(step.0),
                action: step.1@,
            }) == on_produced(old(self)@, event, run::saving(jobs@, old(self).job_id), now),
    {
        reveal(on_produced);
        match event {
            ImageEvent::Cancellation(asked) => {
                if asked {
                    return self.lose(run::CANCELLED.to_owned(), jobs, now);
                }
                self.phase = ImagePhase::Saving;
                self.generation.progress = 82;
                self.generation.updated_at = now;
                let name = text::concat3(
                    "generation-",
                    identity::id_text(self.generation.id).as_str(),
                    ".png",
                );
                let report = run::new_report(
                    JobStatus::SavingOutput,
                    "saving_output",
                    82,
                    "Enregistrement de l'asset final",
                );
                (Some(report), ImageAction::Save(name, self.sides))
            },
            _ => (None, ImageAction::Ignore),
        }
    }

    fn saving(&mut self, event: ImageEvent, jobs: &Jobs, now: u64) -> (step: (
        Option<Report>,
        ImageAction,
    ))
        requires
            old(self).phase == ImagePhase::Saving,
        ensures
            (ImageStepView {
                run: final(self)@,
                report: run::opt_report(step.0),
                action: step.1@,
            }) == on_saving(old(self)@, event, run::saving(jobs@, old(self).job_id), now),
    {
        reveal(on_saving);
        match event {
            ImageEvent::Saved(outcome) => match outcome {
                Err(cause) => self.lose(cause, jobs, now),
                Ok(asset) => {
                    self.phase = ImagePhase::Ended;
                    self.generation.output_asset_id = Some(asset.id);
                    self.generation.actual_width = asset.width;
                    self.generation.actual_height = asset.height;
                    self.generation.status = GenerationStatus::Completed;
                    self.generation.progress = 100;
                    self.generation.updated_at = now;
                    let report = run::new_report(
                        JobStatus::Completed,
                        "completed",
                        100,
                        "Image disponible",
                    );
                    (Some(report), ImageAction::Complete)
                },
            },
            _ => (None, ImageAction::Ignore),
        }
    }

    /// Takes the step that follows from an event: changes the run, and returns
    /// what to report of its job and what to do outside.
    pub fn step(&mut self, event: ImageEvent, jobs: &Jobs, now: u64) -> (step: (
        Option<Report>,
        ImageAction,
    ))
        ensures
            (ImageStepView {
                run: final(self)@,
                report: run::opt_report(step.0),
                action: step.1@,
            }) == next(old(self)@, event, run::saving(jobs@, old(self).job_id), now),
    {
        match self.phase {
            ImagePhase::Ready => self.ready(event, jobs, now),
            ImagePhase::Dispatched => self.dispatched(event, jobs, now),
            ImagePhase::Routing => self.routing(event, jobs, now),
            ImagePhase::Staging => self.staging(event, jobs, now),
            ImagePhase::Preflight => self.preflighting(event, jobs, now),
            ImagePhase::Generating => self.generating(event, jobs, now),
            ImagePhase::Reading => self.reading(event, jobs, now),
            ImagePhase::Rendering => self.rendering(event, jobs, now),
            ImagePhase::Produced => self.produced(event, jobs, now),
            ImagePhase::Saving => self.saving(event, jobs, now),
            ImagePhase::Ended => (None, ImageAction::Ignore),
        }
    }
}

/// Whether the kind of an asset lets it guide a picture: masks and control
/// images must be images.
pub fn check_guide(kind: &AssetKind) -> (result: Result<(), String>)
    ensures
        result is Ok <==> *kind == AssetKind::Image,
        result matches Err(message) ==> message@ == "Le masque/contrôle doit être une image."@,
{
    if *kind == AssetKind::Image {
        Ok(())
    } else {
        Err("Le masque/contrôle doit être une image.".to_owned())
    }
}

/// What the job of a completed picture gives: the asset, where it is, what it
/// is, and the records of both.
pub open spec fn result_of(asset: AssetView, asset_record: JsonView, generation_record: JsonView) -> JsonView {
    JsonView::Object(
        seq![
            ("asset_id"@, JsonView::Text(identity::hyphenated(asset.id))),
            ("url"@, JsonView::Text(asset.url)),
            ("mime_type"@, JsonView::Text(asset.mime_type)),
            ("width"@, json::nullable_count(asset.width)),
            ("height"@, json::nullable_count(asset.height)),
            ("asset"@, asset_record),
            ("generation"@, generation_record),
        ],
    )
}

/// The result of the job of a completed picture.
pub fn image_result(asset: &Asset, asset_record: Json, generation_record: Json) -> (result: Json)
    ensures
        result@ == result_of(asset@, asset_record@, generation_record@),
{
    let mut members: Vec<(String, Json)> = Vec::new();
    json::put(&mut members, "asset_id", json::text_json(identity::id_text(asset.id).as_str()));
    json::put(&mut members, "url", json::text_json(asset.url.as_str()));
    json::put(&mut members, "mime_type", json::text_json(asset.mime_type.as_str()));
    json::put(&mut members, "width", json::opt_count_json(asset.width));
    json::put(&mut members, "height", json::opt_count_json(asset.height));
    let ghost records = (asset_record@, generation_record@);
    json::put(&mut members, "asset", asset_record);
    json::put(&mut members, "generation", generation_record);
    assert(json::members_view(members@) =~= result_of(asset@, records.0, records.1)->Object_0);
    json::object(members)
}

// ---------------------------------------------------------------------------
// Laws
// ---------------------------------------------------------------------------

/// A run that is over takes no further step.
pub proof fn law_ended_runs_stay(run: ImageRunView, event: ImageEvent, saving: bool, now: u64)
    requires
        run.phase == ImagePhase::Ended,
    ensures
        next(run, event, saving, now).run == run,
        next(run, event, saving, now).report is None,
{
}

/// A run ends completed exactly where a picture was saved for it, and then with
/// that picture; every other end is told as stopped or failed. No step but the
/// last changes how a generation ended.
pub proof fn law_runs_end_once(run: ImageRunView, event: ImageEvent, saving: bool, now: u64)
    requires
        run.phase != ImagePhase::Ended,
        next(run, event, saving, now).run.phase == ImagePhase::Ended,
    ensures
        ({
            let step = next(run, event, saving, now);
            let status = step.run.generation.status;
            &&& status == GenerationStatus::Completed || status == GenerationStatus::Failed
                || status == GenerationStatus::Cancelled
            &&& status == GenerationStatus::Completed <==> step.action is Complete
            &&& status == GenerationStatus::Completed ==> run.phase == ImagePhase::Saving && (
            event matches ImageEvent::Saved(Ok(asset)) && step.run.generation.output_asset_id
                == Some(asset@.id))
            &&& step.report is Some && step.report->0.status == (match status {
                GenerationStatus::Completed => JobStatus::Completed,
                GenerationStatus::Cancelled => JobStatus::Cancelled,
                _ => JobStatus::Failed,
            })
        }),
{
    match run.phase {
        ImagePhase::Ready => {
            reveal(on_ready);
        },
        ImagePhase::Dispatched => {
            reveal(on_dispatched);
        },
        ImagePhase::Routing => {
            reveal(on_routing);
        },
        ImagePhase::Staging => {
            reveal(on_staging);
        },
        ImagePhase::Preflight => {
            reveal(on_preflight);
        },
        ImagePhase::Generating => {
            reveal(on_generating);
        },
        ImagePhase::Reading => {
            reveal(on_reading);
        },
        ImagePhase::Rendering => {
            reveal(on_rendering);
        },
        ImagePhase::Produced => {
            reveal(on_produced);
        },
        ImagePhase::Saving => {
            reveal(on_saving);
        },
        ImagePhase::Ended => {},
    }
}

/// The worker is asked for a picture only after a preflight that holds to what
/// the generation was queued with, and a local engine never asks it.
pub proof fn law_worker_is_asked_after_preflight(
    run: ImageRunView,
    event: ImageEvent,
    saving: bool,
    now: u64,
)
    requires
        next(run, event, saving, now).action is Generate,
    ensures
        run.phase == ImagePhase::Preflight,
        event matches ImageEvent::Preflight(answer) && preflight::answer_refusal(
            answer,
            run.generation,
            run.storage_id,
        ) is None,
{
    match run.phase {
        ImagePhase::Ready => {
            reveal(on_ready);
        },
        ImagePhase::Dispatched => {
            reveal(on_dispatched);
        },
        ImagePhase::Routing => {
            reveal(on_routing);
        },
        ImagePhase::Staging => {
            reveal(on_staging);
        },
        ImagePhase::Preflight => {
            reveal(on_preflight);
        },
        ImagePhase::Generating => {
            reveal(on_generating);
        },
        ImagePhase::Reading => {
            reveal(on_reading);
        },
        ImagePhase::Rendering => {
            reveal(on_rendering);
        },
        ImagePhase::Produced => {
            reveal(on_produced);
        },
        ImagePhase::Saving => {
            reveal(on_saving);
        },
        ImagePhase::Ended => {},
    }
}

proof fn lemma_asked_member(run: ImageRunView, key: Seq<char>)
    ensures
        request_body(run).member(key) == if key == "job_id"@ {
            Some(JsonView::Text(identity::hyphenated(run.job_id)))
        } else if key == "model_id"@ {
            Some(JsonView::Text(run.storage_id))
        } else if key == "prompt"@ {
            Some(JsonView::Text(run.generation.prompt))
        } else if key == "negative_prompt"@ {
            Some(json::nullable_text(run.generation.negative_prompt))
        } else if key == "seed"@ {
            Some(JsonView::Null)
        } else if key == "output_relative_path"@ {
            Some(JsonView::Text(picture_path(run.generation)))
        } else if key == "input_path"@ && run.staged.input is Some {
            Some(JsonView::Text(run.staged.input->0))
        } else if key == "mask_path"@ && run.staged.mask is Some {
            Some(JsonView::Text(run.staged.mask->0))
        } else if key == "control_path"@ && run.staged.control is Some {
            Some(JsonView::Text(run.staged.control->0))
        } else if key == "capability"@ {
            Some(JsonView::Text(asked_capability(run.generation).name()))
        } else if key == "quality"@ && run.generation.requested_quality is Some {
            Some(JsonView::Text(run.generation.requested_quality->0))
        } else if key == "preset"@ && run.generation.requested_preset is Some {
            Some(JsonView::Text(run.generation.requested_preset->0))
        } else if key == "advanced_parameters"@ {
            Some(run.generation.advanced_parameters)
        } else {
            None
        },
{
    broadcast use worker::group_parts;

    reveal(request_body);
    worker::lemma_request_head(
        identity::hyphenated(run.job_id),
        run.storage_id,
        run.generation.prompt,
        run.generation.negative_prompt,
        key,
    );
}

/// What the worker is asked for is the generation: its prompt and what is to be
/// kept out of the picture, the inputs that were copied, the quality, the preset
/// and the parameters that were asked for, at the path of its capability.
pub proof fn law_the_worker_is_told_the_generation(
    run: ImageRunView,
    event: ImageEvent,
    saving: bool,
    now: u64,
    path: Seq<char>,
    body: JsonView,
)
    requires
        next(run, event, saving, now).action == ImageActionView::Generate(path, body),
    ensures
        body.text_member("job_id"@) == Some(identity::hyphenated(run.job_id)),
        body.text_member("model_id"@) == Some(run.storage_id),
        body.text_member("prompt"@) == Some(run.generation.prompt),
        body.text_member("negative_prompt"@) == run.generation.negative_prompt,
        body.text_member("output_relative_path"@) == Some(
            "generations/"@ + identity::hyphenated(run.generation.id) + "."@ + "png"@,
        ),
        body.text_member("input_path"@) == run.staged.input,
        body.text_member("mask_path"@) == run.staged.mask,
        body.text_member("control_path"@) == run.staged.control,
        body.text_member("quality"@) == run.generation.requested_quality,
        body.text_member("preset"@) == run.generation.requested_preset,
        body.member("advanced_parameters"@) == Some(run.generation.advanced_parameters),
        run.generation.capability matches Some(asked) ==> body.text_member("capability"@) == Some(
            asked.name(),
        ) && path == capability::image_path(asked),
        run.generation.capability is None && run.generation.mode == GenerationMode::TextToImage
            ==> body.text_member("capability"@) == Some("TEXT_TO_IMAGE"@) && path
            == "/v1/generate/text-to-image"@,
        run.generation.capability is None && run.generation.mode == GenerationMode::ImageToImage
            ==> body.text_member("capability"@) == Some("IMAGE_TO_IMAGE"@) && path
            == "/v1/generate/image-to-image"@,
{
    reveal(on_ready);
    reveal(on_dispatched);
    reveal(on_routing);
    reveal(on_staging);
    reveal(on_preflight);
    reveal(on_generating);
    reveal(on_reading);
    reveal(on_rendering);
    reveal(on_produced);
    reveal(on_saving);
    assert(body == request_body(run));
    worker::lemma_names_of_members();
    lemma_asked_member(run, "job_id"@);
    lemma_asked_member(run, "model_id"@);
    lemma_asked_member(run, "prompt"@);
    lemma_asked_member(run, "negative_prompt"@);
    lemma_asked_member(run, "output_relative_path"@);
    lemma_asked_member(run, "input_path"@);
    lemma_asked_member(run, "mask_path"@);
    lemma_asked_member(run, "control_path"@);
    lemma_asked_member(run, "capability"@);
    lemma_asked_member(run, "quality"@);
    lemma_asked_member(run, "preset"@);
    lemma_asked_member(run, "advanced_parameters"@);
}

/// The engine of this service draws what it is asked to, from the prompt or from
/// the picture that was given; every other model is the worker's, and without a
/// worker, or without a picture to start from, the generation fails.
pub proof fn law_pictures_take_their_way(run: ImageRunView, saving: bool, now: u64)
    requires
        run.phase == ImagePhase::Routing,
    ensures
        ({
            let step = next(run, ImageEvent::Recorded, saving, now);
            let own = run.generation.model_id == "vidio-canvas-local"@;
            let from_text = run.generation.mode == GenerationMode::TextToImage;
            let from_picture = run.generation.mode == GenerationMode::ImageToImage;
            let given = run.generation.input_asset_id;
            &&& own && from_text ==> step.action is RenderText && step.run.phase
                == ImagePhase::Rendering
            &&& own && from_picture && given is Some ==> step.action
                == ImageActionView::RenderImage(given->0) && step.run.phase
                == ImagePhase::Rendering
            &&& !own && run.worker && from_text ==> step.action is Preflight && step.run.phase
                == ImagePhase::Preflight
            &&& !own && run.worker && from_picture && given is Some ==> step.action
                == ImageActionView::Stage(given->0) && step.run.phase == ImagePhase::Staging
            &&& !own && !run.worker ==> step.run.phase == ImagePhase::Ended
                && step.run.generation.status == GenerationStatus::Failed
            &&& from_picture && given is None ==> step.run.phase == ImagePhase::Ended
                && step.run.generation.status == GenerationStatus::Failed
            &&& !from_text && !from_picture ==> step.run.phase == ImagePhase::Ended
                && step.run.generation.status == GenerationStatus::Failed
        }),
{
    reveal(on_ready);
    reveal(on_dispatched);
    reveal(on_routing);
    reveal(on_staging);
    reveal(on_preflight);
    reveal(on_generating);
    reveal(on_reading);
    reveal(on_rendering);
    reveal(on_produced);
    reveal(on_saving);
    reveal_strlit("__cancelled__");
    reveal_strlit("Worker GPU absent");
    reveal_strlit("Asset source absent");
    reveal_strlit("Mode incompatible avec le moteur image.");
    assert("__cancelled__"@[0] == '_' && "Worker GPU absent"@[0] == 'W' && "Asset source absent"@[0]
        == 'A' && "Mode incompatible avec le moteur image."@[0] == 'M');
}

/// Whoever asks for a generation to stop before it is drawn, or before it is saved,
/// stops it; a generation that nobody stops goes on and is saved under its own
/// name, with the sides of the picture.
pub proof fn law_pictures_stop_when_asked(run: ImageRunView, asked: bool, saving: bool, now: u64)
    requires
        run.phase == ImagePhase::Dispatched || run.phase == ImagePhase::Produced,
    ensures
        ({
            let step = next(run, ImageEvent::Cancellation(asked), saving, now);
            &&& asked ==> {
                &&& step.run.phase == ImagePhase::Ended
                &&& step.run.generation.status == GenerationStatus::Cancelled
                &&& step.run.generation.error is None
                &&& step.action is End
                &&& step.report matches Some(report) && report.status == JobStatus::Cancelled
            }
            &&& !asked && run.phase == ImagePhase::Dispatched ==> step.run.phase
                == ImagePhase::Routing && step.action is Record && (step.report matches Some(report)
                && report.status == JobStatus::Running && report.stage == "generating"@
                && report.progress == step.run.generation.progress)
            &&& !asked && run.phase == ImagePhase::Produced ==> {
                &&& step.run.phase == ImagePhase::Saving
                &&& step.action == ImageActionView::Save(
                    "generation-"@ + identity::hyphenated(run.generation.id) + ".png"@,
                    run.sides,
                )
                &&& step.report matches Some(report) && report.status == JobStatus::SavingOutput
                    && report.stage == "saving_output"@ && report.progress
                    == step.run.generation.progress
            }
        }),
{
    reveal(on_ready);
    reveal(on_dispatched);
    reveal(on_routing);
    reveal(on_staging);
    reveal(on_preflight);
    reveal(on_generating);
    reveal(on_reading);
    reveal(on_rendering);
    reveal(on_produced);
    reveal(on_saving);
}

/// What goes wrong outside ends the run: the generation has failed and keeps the
/// cause, unless it was the request to stop.
pub proof fn law_failures_end_the_run(
    run: ImageRunView,
    event: ImageEvent,
    cause: String,
    saving: bool,
    now: u64,
)
    requires
        ({
            ||| run.phase == ImagePhase::Staging && event == ImageEvent::Staged(Err(cause))
            ||| run.phase == ImagePhase::Preflight && event == ImageEvent::Preflight(Err(cause))
            ||| run.phase == ImagePhase::Generating && event == ImageEvent::Answered(Err(cause))
            ||| run.phase == ImagePhase::Rendering && event == ImageEvent::Rendered(Err(cause))
            ||| run.phase == ImagePhase::Saving && event == ImageEvent::Saved(Err(cause))
        }),
        cause@ != "__cancelled__"@,
    ensures
        ({
            let step = next(run, event, saving, now);
            &&& step.run.phase == ImagePhase::Ended
            &&& step.run.generation.status == GenerationStatus::Failed
            &&& step.run.generation.error == Some(cause@)
            &&& step.run.generation.output_asset_id == run.generation.output_asset_id
            &&& step.action is End
            &&& step.report matches Some(report) && report.status == JobStatus::Failed
        }),
{
    reveal(on_ready);
    reveal(on_dispatched);
    reveal(on_routing);
    reveal(on_staging);
    reveal(on_preflight);
    reveal(on_generating);
    reveal(on_reading);
    reveal(on_rendering);
    reveal(on_produced);
    reveal(on_saving);
}

/// What the worker answers is only read where it speaks of this job, says that the
/// picture is complete at the path that it was given, and gives it sides and a
/// digest; the sides are those it measured, else those it announced.
pub proof fn law_answers_are_checked(
    run: ImageRunView,
    response: GenerateResponse,
    saving: bool,
    now: u64,
)
    requires
        run.phase == ImagePhase::Generating,
    ensures
        ({
            let step = next(run, ImageEvent::Answered(Ok(response)), saving, now);
            let told = response@;
            let path = "generations/"@ + identity::hyphenated(run.generation.id) + "."@ + "png"@;
            let wide = match told.actual_width {
                Some(measured) => measured,
                None => told.width,
            };
            let high = match told.actual_height {
                Some(measured) => measured,
                None => told.height,
            };
            let sound = told.job_id == identity::hyphenated(run.job_id) && told.state
                == "COMPLETED"@ && told.output_relative_path == path && wide > 0 && high > 0
                && text::utf8_len(told.sha256) == 64;
            &&& sound ==> {
                &&& step.run.phase == ImagePhase::Reading
                &&& step.run.sides == (wide, high)
                &&& step.action matches ImageActionView::Read(read, measure) && read == path && (
                run.generation.mode == GenerationMode::TextToImage ==> measure == told.benchmark)
            }
            &&& !sound ==> step.run.phase == ImagePhase::Ended && (step.run.generation.status
                == GenerationStatus::Failed || step.run.generation.status
                == GenerationStatus::Cancelled)
        }),
{
    reveal(on_ready);
    reveal(on_dispatched);
    reveal(on_routing);
    reveal(on_staging);
    reveal(on_preflight);
    reveal(on_generating);
    reveal(on_reading);
    reveal(on_rendering);
    reveal(on_produced);
    reveal(on_saving);
}

/// A saved picture completes its generation, with its identifier and its sides.
pub proof fn law_saved_pictures_complete(run: ImageRunView, asset: Asset, saving: bool, now: u64)
    requires
        run.phase == ImagePhase::Saving,
    ensures
        ({
            let step = next(run, ImageEvent::Saved(Ok(asset)), saving, now);
            let done = step.run.generation;
            &&& step.run.phase == ImagePhase::Ended && step.action is Complete
            &&& done.status == GenerationStatus::Completed && done.progress == 100
            &&& done.output_asset_id == Some(asset@.id)
            &&& done.actual_width == asset@.width && done.actual_height == asset@.height
            &&& done.updated_at == now
            &&& step.report matches Some(report) && report.status == JobStatus::Completed
                && report.progress == 100
        }),
{
    reveal(on_ready);
    reveal(on_dispatched);
    reveal(on_routing);
    reveal(on_staging);
    reveal(on_preflight);
    reveal(on_generating);
    reveal(on_reading);
    reveal(on_rendering);
    reveal(on_produced);
    reveal(on_saving);
}

/// Whatever happens, the run stays that of its generation and its job: what was
/// asked for is not changed on the way.
pub proof fn law_the_request_stands(run: ImageRunView, event: ImageEvent, saving: bool, now: u64)
    ensures
        ({
            let after = next(run, event, saving, now).run;
            &&& after.job_id == run.job_id && after.storage_id == run.storage_id
            &&& after.worker == run.worker
            &&& after.generation.id == run.generation.id
            &&& after.generation.mode == run.generation.mode
            &&& after.generation.capability == run.generation.capability
            &&& after.generation.prompt == run.generation.prompt
            &&& after.generation.negative_prompt == run.generation.negative_prompt
            &&& after.generation.model_id == run.generation.model_id
            &&& after.generation.input_asset_id == run.generation.input_asset_id
            &&& after.generation.requested_quality == run.generation.requested_quality
            &&& after.generation.requested_preset == run.generation.requested_preset
            &&& after.generation.advanced_parameters == run.generation.advanced_parameters
            &&& after.generation.created_at == run.generation.created_at
            &&& run.phase != ImagePhase::Staging ==> after.staged == run.staged
            &&& run.phase != ImagePhase::Generating ==> after.sides == run.sides
        }),
{
    reveal(on_ready);
    reveal(on_dispatched);
    reveal(on_routing);
    reveal(on_staging);
    reveal(on_preflight);
    reveal(on_generating);
    reveal(on_reading);
    reveal(on_rendering);
    reveal(on_produced);
    reveal(on_saving);
}

/// A run goes through its phases in order: it is dispatched, drawn by the worker
/// or by the engine of this service, saved, and over; the copies that were made
/// for the worker are the ones it is told of.
pub proof fn law_phases_follow_each_other(
    run: ImageRunView,
    event: ImageEvent,
    saving: bool,
    now: u64,
)
    ensures
        ({
            let step = next(run, event, saving, now);
            let after = step.run.phase;
            &&& run.phase == ImagePhase::Ready && event is Begin ==> after == ImagePhase::Dispatched
                && step.action is AskCancellation && step.run.generation.status
                == GenerationStatus::Running && (step.report matches Some(report) && report.status
                == JobStatus::Dispatching)
            &&& run.phase == ImagePhase::Staging ==> (event matches ImageEvent::Staged(Ok(staged))
                ==> after == ImagePhase::Preflight && step.run.staged == staged@
                && step.action is Preflight)
            &&& run.phase == ImagePhase::Preflight && event is Preflight ==> after
                == ImagePhase::Generating || after == ImagePhase::Ended
            &&& run.phase == ImagePhase::Reading ==> (event matches ImageEvent::Read(Ok(_))
                ==> after == ImagePhase::Produced && step.action is AskCancellation)
            &&& run.phase == ImagePhase::Rendering ==> (event matches ImageEvent::Rendered(Ok(_))
                ==> after == ImagePhase::Produced && step.action is AskCancellation)
            &&& after == ImagePhase::Saving && run.phase != ImagePhase::Saving ==> run.phase
                == ImagePhase::Produced
            &&& after == ImagePhase::Produced && run.phase != ImagePhase::Produced ==> run.phase
                == ImagePhase::Reading || run.phase == ImagePhase::Rendering
            &&& step.action is Ignore ==> step.run == run && step.report is None
        }),
{
    reveal(on_ready);
    reveal(on_dispatched);
    reveal(on_routing);
    reveal(on_staging);
    reveal(on_preflight);
    reveal(on_generating);
    reveal(on_reading);
    reveal(on_rendering);
    reveal(on_produced);
    reveal(on_saving);
}

/// What the reader of a picture is given names its asset, with its address, its
/// type and its sides.
pub proof fn law_results_name_the_asset(
    asset: AssetView,
    asset_record: JsonView,
    generation_record: JsonView,
)
    ensures
        ({
            let result = result_of(asset, asset_record, generation_record);
            &&& result.text_member("asset_id"@) == Some(identity::hyphenated(asset.id))
            &&& result.text_member("url"@) == Some(asset.url)
            &&& result.text_member("mime_type"@) == Some(asset.mime_type)
            &&& asset.width matches Some(side) ==> result.member("width"@) == Some(
                JsonView::Integer(side as u64),
            )
            &&& asset.height matches Some(side) ==> result.member("height"@) == Some(
                JsonView::Integer(side as u64),
            )
            &&& result.member("asset"@) == Some(asset_record)
            &&& result.member("generation"@) == Some(generation_record)
        }),
{
    let members = result_of(asset, asset_record, generation_record)->Object_0;
    crate::member::lemma_members(members);
    reveal_with_fuel(crate::member::first_named, 9);
    assert(members.len() == 7);
    reveal_strlit("asset_id");
    reveal_strlit("url");
    reveal_strlit("mime_type");
    reveal_strlit("width");
    reveal_strlit("height");
    reveal_strlit("asset");
    reveal_strlit("generation");
    assert("asset_id"@.len() == 8 && "url"@.len() == 3 && "mime_type"@.len() == 9 && "width"@.len()
        == 5 && "height"@.len() == 6 && "asset"@.len() == 5 && "generation"@.len() == 10);
    assert("width"@[0] == 'w' && "asset"@[0] == 'a');
}

} // verus!
