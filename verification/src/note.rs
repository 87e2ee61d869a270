//! What a run that takes several steps has to say of its job.
use crate::job;
use crate::job::{CloudBackupStatus, JobStatus, JobView, Jobs};
use crate::json;
use crate::json::{Json, JsonView};
use crate::run;
use crate::run::{Report, ReportView};
use crate::text;
use vstd::prelude::*;
use vstd::string::*;

verus! {

/// Something that is to be recorded of a job.
#[derive(Debug)]
pub enum JobNote {
    /// Where the work stands.
    Report(Report),
    /// What the worker prepares for the model, and the state that it is in.
    Dependencies(String, Vec<Json>),
    /// Where the cloud copy stands, and why it failed.
    Backup(CloudBackupStatus, Option<String>),
    /// What came of the work.
    Outcome(Json),
}

/// What [`JobNote`] says.
pub enum NoteView {
    Report(ReportView),
    Dependencies(Seq<char>, Seq<JsonView>),
    Backup(CloudBackupStatus, Option<Seq<char>>),
    Outcome(JsonView),
}

impl View for JobNote {
    type V = NoteView;

    open spec fn view(&self) -> NoteView {
        match self {
            JobNote::Report(report) => NoteView::Report(report@),
            JobNote::Dependencies(state, list) => NoteView::Dependencies(
                state@,
                json::items_view(list@),
            ),
            JobNote::Backup(status, cause) => NoteView::Backup(*status, text::opt(*cause)),
            JobNote::Outcome(result) => NoteView::Outcome(result@),
        }
    }
}

/// What a list of notes says.
pub open spec fn notes_view(notes: Seq<JobNote>) -> Seq<NoteView> {
    Seq::new(notes.len(), |i: int| notes[i]@)
}

/// A job after a note was recorded.
pub open spec fn noted(job: JobView, note: NoteView, now: u64) -> JobView {
    match note {
        NoteView::Report(report) => job::reported(
            job,
            report.status,
            report.stage,
            report.progress,
            report.message,
            now,
        ),
        NoteView::Dependencies(state, list) => job::preparing(job, state, list, now),
        NoteView::Backup(status, cause) => job::with_backup_status(job, status, cause, now),
        NoteView::Outcome(result) => JobView { result: Some(result), updated_at: now, ..job },
    }
}

/// A job after notes were recorded one after the other.
pub open spec fn noted_all(job: JobView, notes: Seq<NoteView>, now: u64) -> JobView
    decreases notes.len(),
{
    if notes.len() == 0 {
        job
    } else {
        noted(noted_all(job, notes.drop_last(), now), notes.last(), now)
    }
}

/// Records a note; `false` where the job is unknown.
pub fn record(jobs: &mut Jobs, id: u128, note: &JobNote, now: u64) -> (known: bool)
    requires
        old(jobs).wf(),
    ensures
        final(jobs).wf(),
        known == (job::place(old(jobs)@, id) is Some),
        final(jobs)@ == match job::place(old(jobs)@, id) {
            Some(at) => old(jobs)@.update(at, noted(old(jobs)@[at], note@, now)),
            None => old(jobs)@,
        },
{
    match note {
        JobNote::Report(report) => jobs.update_job(
            id,
            report.status,
            report.stage.as_str(),
            report.progress,
            report.message.as_str(),
            now,
        ).is_some(),
        JobNote::Dependencies(state, list) => jobs.update_dependency_progress(
            id,
            state.as_str(),
            list,
            now,
        ),
        JobNote::Backup(status, cause) => jobs.update_cloud_backup_status(
            id,
            *status,
            text::copy_opt(cause),
            now,
        ),
        JobNote::Outcome(result) => jobs.set_job_result(id, result.copy(), now),
    }
}

/// Adds a report to notes.
pub fn put_report(
    notes: &mut Vec<JobNote>,
    status: JobStatus,
    stage: &str,
    progress: u8,
    message: &str,
)
    ensures
        notes_view(final(notes)@) == notes_view(old(notes)@).push(
            NoteView::Report(run::report_of(status, stage@, progress, message@)),
        ),
{
    let ghost before = notes_view(notes@);
    let ghost added = NoteView::Report(run::report_of(status, stage@, progress, message@));
    notes.push(JobNote::Report(run::new_report(status, stage, progress, message)));
    assert(notes_view(notes@) =~= before.push(added));
}

/// Adds the state of the cloud copy to notes.
pub fn put_backup(notes: &mut Vec<JobNote>, status: CloudBackupStatus, cause: Option<String>)
    ensures
        notes_view(final(notes)@) == notes_view(old(notes)@).push(
            NoteView::Backup(status, text::opt(cause)),
        ),
{
    let ghost before = notes_view(notes@);
    let ghost added = NoteView::Backup(status, text::opt(cause));
    notes.push(JobNote::Backup(status, cause));
    assert(notes_view(notes@) =~= before.push(added));
}

/// Adds what the worker prepares to notes.
pub fn put_dependencies(notes: &mut Vec<JobNote>, state: &str, list: &Vec<Json>)
    ensures
        notes_view(final(notes)@) == notes_view(old(notes)@).push(
            NoteView::Dependencies(state@, json::items_view(list@)),
        ),
{
    let ghost before = notes_view(notes@);
    let ghost added = NoteView::Dependencies(state@, json::items_view(list@));
    notes.push(JobNote::Dependencies(state.to_owned(), json::copy_items(list)));
    assert(notes_view(notes@) =~= before.push(added));
}

/// Adds what came of the work to notes.
pub fn put_outcome(notes: &mut Vec<JobNote>, result: Json)
    ensures
        notes_view(final(notes)@) == notes_view(old(notes)@).push(NoteView::Outcome(result@)),
{
    let ghost before = notes_view(notes@);
    let ghost added = NoteView::Outcome(result@);
    notes.push(JobNote::Outcome(result));
    assert(notes_view(notes@) =~= before.push(added));
}

/// Notes never change what a job is: its identifier, its kind, its target and
/// the time of its creation.
pub proof fn law_notes_keep_the_job(job: JobView, notes: Seq<NoteView>, now: u64)
    ensures
        ({
            let after = noted_all(job, notes, now);
            &&& after.id == job.id && after.kind == job.kind
            &&& after.target_id == job.target_id && after.model_id == job.model_id
            &&& after.created_at == job.created_at
        }),
    decreases notes.len(),
{
    if notes.len() > 0 {
        law_notes_keep_the_job(job, notes.drop_last(), now);
    }
}

/// What is noted of a job is what it says afterwards: a report its state, a result
/// its result, and the state of its copy that of its copy.
pub proof fn law_notes_are_taken(job: JobView, note: NoteView, now: u64)
    ensures
        ({
            let after = noted(job, note, now);
            &&& after.updated_at == now
            &&& note matches NoteView::Report(report) ==> after.status == report.status
                && after.stage == report.stage && after.message == report.message && (
            report.progress <= 100 ==> after.progress == report.progress)
            &&& note matches NoteView::Outcome(result) ==> after.result == Some(result)
                && after.status == job.status && after.progress == job.progress
            &&& note matches NoteView::Backup(status, cause) ==> after.cloud_backup_status == status
                && after.cache_error == cause && after.status == job.status
            &&& note matches NoteView::Dependencies(state, list) ==> (list.len() > 0
                ==> after.dependency == Some(list[0]))
            &&& !(note is Outcome) ==> after.result == job.result
        }),
{
}

/// Notes are taken one after the other: the last one is taken last.
pub proof fn law_later_notes_stand(job: JobView, notes: Seq<NoteView>, note: NoteView, now: u64)
    ensures
        noted_all(job, notes.push(note), now) == noted(noted_all(job, notes, now), note, now),
        noted_all(job, Seq::empty(), now) == job,
{
    assert(notes.push(note).drop_last() =~= notes);
}

} // verus!
