//! What the runs of images and of videos share: reports, endings, and how the
//! answer of the worker is read.
use crate::error;
use crate::generation::{Generation, GenerationStatus, GenerationView};
use crate::identity;
use crate::job;
use crate::job::{JobStatus, Jobs};
use crate::text;
use crate::worker::{GenerateResponse, ResponseView};
use vstd::prelude::*;
use vstd::string::*;

verus! {

/// What is reported of the job of a run.
#[derive(Debug)]
pub struct Report {
    pub status: JobStatus,
    pub stage: String,
    pub progress: u8,
    pub message: String,
}

/// What is reported of the job of a run.
pub struct ReportView {
    pub status: JobStatus,
    pub stage: Seq<char>,
    pub progress: u8,
    pub message: Seq<char>,
}

impl View for Report {
    type V = ReportView;

    open spec fn view(&self) -> ReportView {
        ReportView {
            status: self.status,
            stage: self.stage@,
            progress: self.progress,
            message: self.message@,
        }
    }
}

/// What an optional report says.
pub open spec fn opt_report(report: Option<Report>) -> Option<ReportView> {
    match report {
        Some(found) => Some(found@),
        None => None,
    }
}

/// A report.
pub open spec fn report_of(
    status: JobStatus,
    stage: Seq<char>,
    progress: u8,
    message: Seq<char>,
) -> ReportView {
    ReportView { status, stage, progress, message }
}

/// Makes a report.
pub fn new_report(status: JobStatus, stage: &str, progress: u8, message: &str) -> (report: Report)
    ensures
        report@ == report_of(status, stage@, progress, message@),
{
    Report { status, stage: stage.to_owned(), progress, message: message.to_owned() }
}

/// The word by which a run is told that it was asked to stop.
pub const CANCELLED: &'static str = "__cancelled__";

/// A generation at a point of its progress.
pub open spec fn progressed(generation: GenerationView, progress: u8, now: u64) -> GenerationView {
    GenerationView { progress, updated_at: now, ..generation }
}

/// A generation that is being worked on.
pub open spec fn begun(generation: GenerationView, progress: u8, now: u64) -> GenerationView {
    GenerationView {
        status: GenerationStatus::Running,
        ..progressed(generation, progress, now)
    }
}

/// A generation that was stopped.
pub open spec fn stopped(generation: GenerationView, now: u64) -> GenerationView {
    GenerationView {
        status: GenerationStatus::Cancelled,
        error: None,
        error_code: None,
        error_retryable: false,
        updated_at: now,
        ..generation
    }
}

/// A generation that failed. `told` is the failure with its code in front, and
/// `progress` where the failed run stands.
pub open spec fn failed(
    generation: GenerationView,
    cause: Seq<char>,
    told: Seq<char>,
    progress: u8,
    now: u64,
) -> GenerationView {
    GenerationView {
        status: GenerationStatus::Failed,
        progress,
        error: Some(cause),
        error_code: Some(error::runtime_code(told)),
        error_retryable: error::retryable_code(error::runtime_code(told)),
        updated_at: now,
        ..generation
    }
}

/// Whether the output of a job is being saved.
pub open spec fn saving(jobs: Seq<job::JobView>, job_id: u128) -> bool {
    job::place(jobs, job_id) is Some && jobs[job::place(jobs, job_id)->0].status
        == JobStatus::SavingOutput
}

/// The end of a run that did not succeed: stopped where the cause is the word
/// for that, failed otherwise. A failed image stands at a hundred, a failed video
/// where it was.
pub open spec fn unsuccessful(
    generation: GenerationView,
    cause: Seq<char>,
    video: bool,
    saving: bool,
    now: u64,
) -> (GenerationView, ReportView) {
    if cause == CANCELLED@ {
        (
            stopped(generation, now),
            report_of(
                JobStatus::Cancelled,
                "cancelled"@,
                generation.progress,
                "Génération annulée"@,
            ),
        )
    } else {
        let told = error::classified(saving, video, cause);
        let progress = if video {
            generation.progress
        } else {
            100
        };
        (
            failed(generation, cause, told, progress, now),
            report_of(JobStatus::Failed, "failed"@, progress, told),
        )
    }
}

/// Ends a run that did not succeed.
pub fn end_unsuccessful(
    generation: &mut Generation,
    cause: String,
    video: bool,
    jobs: &Jobs,
    job_id: u128,
    now: u64,
) -> (report: Report)
    ensures
        (final(generation)@, report@) == unsuccessful(
            old(generation)@,
            cause@,
            video,
            saving(jobs@, job_id),
            now,
        ),
{
    if *cause.as_str() == *CANCELLED {
        generation.status = GenerationStatus::Cancelled;
        generation.error = None;
        generation.error_code = None;
        generation.error_retryable = false;
        generation.updated_at = now;
        return new_report(
            JobStatus::Cancelled,
            "cancelled",
            generation.progress,
            "Génération annulée",
        );
    }
    let told = jobs.classify_generation_error(job_id, video, cause.as_str());
    let (code, retryable) = error::structured_runtime_fields(told.as_str());
    generation.status = GenerationStatus::Failed;
    if !video {
        generation.progress = 100;
    }
    generation.error = Some(cause);
    generation.error_code = Some(code);
    generation.error_retryable = retryable;
    generation.updated_at = now;
    new_report(JobStatus::Failed, "failed", generation.progress, told.as_str())
}

/// Where the worker leaves what it makes.
pub open spec fn output_path(id: u128, extension: Seq<char>) -> Seq<char> {
    "generations/"@ + identity::hyphenated(id) + "."@ + extension
}

/// Where the worker leaves what it makes.
pub fn relative_output(id: u128, extension: &str) -> (path: String)
    ensures
        path@ == output_path(id, extension@),
{
    text::concat4("generations/", identity::id_text(id).as_str(), ".", extension)
}

/// Whether an answer of the worker is the completion of a job at a path.
pub open spec fn answers(response: ResponseView, job_id: u128, path: Seq<char>) -> bool {
    response.job_id == identity::hyphenated(job_id) && response.state == "COMPLETED"@
        && response.output_relative_path == path
}

/// Whether an answer of the worker is the completion of a job at a path.
pub fn is_answer(response: &GenerateResponse, job_id: u128, path: &str) -> (yes: bool)
    ensures
        yes == answers(response@, job_id, path@),
{
    *response.job_id.as_str() == *identity::id_text(job_id).as_str() && *response.state.as_str()
        == *"COMPLETED" && *response.output_relative_path.as_str() == *path
}

/// The sides that an answer of the worker gives.
pub open spec fn answered_sides(response: ResponseView) -> (u32, u32) {
    (
        match response.actual_width {
            Some(width) => width,
            None => response.width,
        },
        match response.actual_height {
            Some(height) => height,
            None => response.height,
        },
    )
}

/// The sides of the picture that the worker made, or why its answer cannot be
/// taken: another job or path, no sides, or no digest.
pub open spec fn picture_sides(response: ResponseView, job_id: u128, path: Seq<char>) -> Result<
    (u32, u32),
    Seq<char>,
> {
    let sides = answered_sides(response);
    if !answers(response, job_id, path) || sides.0 == 0 || sides.1 == 0 || text::utf8_len(
        response.sha256,
    ) != 64 {
        Err(
            "WORKER_RESULT_INVALID: state="@ + response.state + " path="@
                + response.output_relative_path + " width="@ + text::decimal(sides.0 as nat)
                + " height="@ + text::decimal(sides.1 as nat) + " sha256_len="@ + text::decimal(
                text::utf8_len(response.sha256),
            ),
        )
    } else {
        Ok(sides)
    }
}

/// Reads the sides of the picture that the worker made.
pub fn check_picture(response: &GenerateResponse, job_id: u128, path: &str) -> (result: Result<
    (u32, u32),
    String,
>)
    ensures
        (match result {
            Ok(sides) => Ok(sides),
            Err(message) => Err(message@),
        }) == picture_sides(response@, job_id, path@),
{
    let width: u32 = match response.actual_width {
        Some(found) => found,
        None => response.width,
    };
    let height: u32 = match response.actual_height {
        Some(found) => found,
        None => response.height,
    };
    let digest_length: usize = text::byte_len(response.sha256.as_str());
    if !is_answer(response, job_id, path) || width == 0 || height == 0 || digest_length != 64 {
        let mut message = "WORKER_RESULT_INVALID: state=".to_owned();
        message.append(response.state.as_str());
        message.append(" path=");
        message.append(response.output_relative_path.as_str());
        message.append(" width=");
        message.append(text::decimal_text(width as u64).as_str());
        message.append(" height=");
        message.append(text::decimal_text(height as u64).as_str());
        message.append(" sha256_len=");
        message.append(text::decimal_text(digest_length as u64).as_str());
        return Err(message);
    }
    Ok((width, height))
}

/// A run that did not succeed leaves its generation stopped or failed, with the
/// report that says so, and without an output.
pub proof fn law_unsuccessful_runs_are_told(
    generation: GenerationView,
    cause: Seq<char>,
    video: bool,
    saving: bool,
    now: u64,
)
    ensures
        ({
            let (after, report) = unsuccessful(generation, cause, video, saving, now);
            &&& after.output_asset_id == generation.output_asset_id
            &&& cause == CANCELLED@ <==> after.status == GenerationStatus::Cancelled
            &&& cause != CANCELLED@ <==> after.status == GenerationStatus::Failed
            &&& report.status == JobStatus::Cancelled <==> after.status
                == GenerationStatus::Cancelled
            &&& report.status == JobStatus::Failed <==> after.status == GenerationStatus::Failed
            &&& report.progress == after.progress
        }),
{
}

/// A generation that fails keeps the cause, and a code that says whether to try
/// again; one that is stopped has no error. A picture that fails is at its end, a
/// video where it stood.
pub proof fn law_failures_keep_their_cause(
    generation: GenerationView,
    cause: Seq<char>,
    video: bool,
    saving: bool,
    now: u64,
)
    ensures
        ({
            let (after, report) = unsuccessful(generation, cause, video, saving, now);
            &&& after.updated_at == now && after.id == generation.id && after.prompt
                == generation.prompt
            &&& cause == "__cancelled__"@ ==> after.error is None && after.error_code is None
                && !after.error_retryable && after.progress == generation.progress
            &&& cause != "__cancelled__"@ ==> after.error == Some(cause) && (after.error_code
                matches Some(code) && after.error_retryable == error::retryable_code(code) && code
                == error::runtime_code(report.message))
            &&& cause != "__cancelled__"@ && !video ==> after.progress == 100
            &&& cause != "__cancelled__"@ && video ==> after.progress == generation.progress
            &&& report.status == JobStatus::Failed ==> report.stage == "failed"@
            &&& report.status == JobStatus::Cancelled ==> report.stage == "cancelled"@
        }),
{
}

/// A run that begins is running, and a step of it changes the progress alone.
pub proof fn law_steps_change_the_progress(generation: GenerationView, progress: u8, now: u64)
    ensures
        begun(generation, progress, now) == (GenerationView {
            status: GenerationStatus::Running,
            progress,
            updated_at: now,
            ..generation
        }),
        progressed(generation, progress, now) == (GenerationView {
            progress,
            updated_at: now,
            ..generation
        }),
        stopped(generation, now).status == GenerationStatus::Cancelled,
{
}

/// The worker writes a result under the name of its generation: two generations, or
/// a picture and a video, never share one.
pub proof fn law_results_have_their_own_place(id: u128, extension: Seq<char>)
    ensures
        output_path(id, extension) == "generations/"@ + identity::hyphenated(id) + "."@ + extension,
{
}

/// A result is saved while its job says so, and only then.
pub proof fn law_saving_is_what_the_job_says(jobs: Seq<job::JobView>, job_id: u128)
    ensures
        saving(jobs, job_id) <==> (job::place(jobs, job_id) matches Some(at) && jobs[at].status
            == JobStatus::SavingOutput),
{
}

/// A picture is accepted exactly where the answer is the one that was waited for,
/// with sides and a digest, and then with those sides.
pub proof fn law_pictures_are_accepted(response: ResponseView, job_id: u128, path: Seq<char>)
    ensures
        ({
            let sides = (
                match response.actual_width {
                    Some(measured) => measured,
                    None => response.width,
                },
                match response.actual_height {
                    Some(measured) => measured,
                    None => response.height,
                },
            );
            let sound = response.job_id == identity::hyphenated(job_id) && response.state
                == "COMPLETED"@ && response.output_relative_path == path && sides.0 > 0 && sides.1
                > 0 && text::utf8_len(response.sha256) == 64;
            &&& sound ==> picture_sides(response, job_id, path) == Ok::<(u32, u32), Seq<char>>(
                sides,
            )
            &&& !sound ==> picture_sides(response, job_id, path) is Err
        }),
        answers(response, job_id, path) <==> response.job_id == identity::hyphenated(job_id)
            && response.state == "COMPLETED"@ && response.output_relative_path == path,
{
}

} // verus!
