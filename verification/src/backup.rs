//! Stopping the cloud copies of models while they are made.
use crate::error;
use crate::error::ApiError;
use crate::job;
use crate::job::{CloudBackupStatus, JobView, Jobs};
use crate::lookup;
use crate::text;
use vstd::prelude::*;
use vstd::string::*;

verus! {

/// A cloud copy that is being made, and whether it was asked to stop.
#[derive(Debug)]
pub struct ActiveCloudBackup {
    pub job_id: u128,
    pub model_id: String,
    pub cancelled: bool,
}

/// What [`ActiveCloudBackup`] says.
#[verifier::ext_equal]
pub struct BackupView {
    pub job_id: u128,
    pub model_id: Seq<char>,
    pub cancelled: bool,
}

impl View for ActiveCloudBackup {
    type V = BackupView;

    open spec fn view(&self) -> BackupView {
        BackupView {
            job_id: self.job_id,
            model_id: self.model_id@,
            cancelled: self.cancelled,
        }
    }
}

impl ActiveCloudBackup {
    /// A copy of the value.
    pub fn copy(&self) -> (copy: Self)
        ensures
            copy@ == self@,
    {
        ActiveCloudBackup {
            job_id: self.job_id,
            model_id: self.model_id.clone(),
            cancelled: self.cancelled,
        }
    }
}

/// The cloud copies that are being made, by the jobs that make them.
#[derive(Debug)]
pub struct BackupCancellationRegistry {
    pub active: Vec<ActiveCloudBackup>,
}

/// The jobs that make cloud copies.
pub open spec fn ids(active: Seq<BackupView>) -> Seq<u128> {
    Seq::new(active.len(), |i: int| active[i].job_id)
}

/// Where the copy of a job stands.
pub open spec fn place(active: Seq<BackupView>, job_id: u128) -> Option<int> {
    lookup::place(ids(active), job_id)
}

/// The copies, with those of a model asked to stop.
pub open spec fn stopped(active: Seq<BackupView>, model_id: Seq<char>) -> Seq<BackupView> {
    Seq::new(
        active.len(),
        |i: int|
            BackupView {
                cancelled: active[i].cancelled || active[i].model_id == model_id,
                ..active[i]
            },
    )
}

/// The jobs that make the copies of a model.
pub open spec fn jobs_of(active: Seq<BackupView>, model_id: Seq<char>) -> Seq<u128>
    decreases active.len(),
{
    if active.len() == 0 {
        Seq::empty()
    } else {
        let rest = jobs_of(active.drop_last(), model_id);
        if active.last().model_id == model_id {
            rest.push(active.last().job_id)
        } else {
            rest
        }
    }
}

/// The copies after a job has begun that of a model.
pub open spec fn registered(active: Seq<BackupView>, job_id: u128, model_id: Seq<char>) -> Seq<
    BackupView,
> {
    let begun = BackupView { job_id, model_id, cancelled: false };
    match place(active, job_id) {
        Some(at) => active.update(at, begun),
        None => active.push(begun),
    }
}

/// Whether the copy of a job was asked to stop.
pub open spec fn asked_to_stop(active: Seq<BackupView>, job_id: u128) -> bool {
    match place(active, job_id) {
        Some(at) => active[at].cancelled,
        None => false,
    }
}

impl View for BackupCancellationRegistry {
    type V = Seq<BackupView>;

    open spec fn view(&self) -> Seq<BackupView> {
        Seq::new(self.active@.len(), |i: int| self.active@[i]@)
    }
}

impl BackupCancellationRegistry {
    /// A job makes one copy at most.
    pub open spec fn wf(&self) -> bool {
        lookup::distinct(ids(self@))
    }

    /// No copy.
    pub fn new() -> (registry: Self)
        ensures
            registry.wf(),
            registry@ == Seq::<BackupView>::empty(),
    {
        let registry = BackupCancellationRegistry { active: Vec::new() };
        assert(registry@ =~= Seq::<BackupView>::empty());
        registry
    }

    fn find(&self, job_id: u128) -> (at: Option<usize>)
        ensures
            match at {
                Some(k) => k < self@.len() && place(self@, job_id) == Some(k as int),
                None => place(self@, job_id) is None,
            },
    {
        for k in 0..self.active.len()
            invariant
                forall|j: int| 0 <= j < k ==> (#[trigger] self.active@[j])@.job_id != job_id,
        {
            if self.active[k].job_id == job_id {
                proof {
                    lookup::lemma_place_is(ids(self@), job_id, k as int);
                }
                return Some(k);
            }
        }
        proof {
            lookup::lemma_no_place(ids(self@), job_id);
        }
        None
    }

    /// Records that a job begins the copy of a model.
    pub fn register(&mut self, job_id: u128, model_id: String)
        requires
            old(self).wf(),
        ensures
            final(self).wf(),
            final(self)@ == registered(old(self)@, job_id, model_id@),
    {
        let ghost before = self@;
        let ghost begun = BackupView { job_id, model_id: model_id@, cancelled: false };
        proof {
            lookup::lemma_place(ids(before), job_id);
        }
        let entry = ActiveCloudBackup { job_id, model_id, cancelled: false };
        match self.find(job_id) {
            Some(at) => {
                self.active.set(at, entry);
                assert(self@ =~= before.update(at as int, begun));
                assert(ids(self@) =~= ids(before));
            },
            None => {
                self.active.push(entry);
                assert(self@ =~= before.push(begun));
                assert forall|i: int, j: int| 0 <= i < j < ids(self@).len() implies ids(self@)[i]
                    != ids(self@)[j] by {
                    assert(ids(before)[i] == before[i].job_id);
                    assert(ids(before).contains(ids(before)[i]));
                    if j < before.len() {
                        assert(ids(before)[j] == before[j].job_id);
                    }
                }
            },
        }
    }

    /// Asks the copies of a model to stop, and returns the jobs that make them.
    pub fn cancel_model(&mut self, model_id: &str) -> (jobs: Vec<u128>)
        requires
            old(self).wf(),
        ensures
            final(self).wf(),
            final(self)@ == stopped(old(self)@, model_id@),
            jobs@ == jobs_of(old(self)@, model_id@),
    {
        let ghost before = self@;
        let mut jobs: Vec<u128> = Vec::new();
        let count: usize = self.active.len();
        let mut k: usize = 0;
        while k < count
            invariant
                k <= count,
                count == before.len(),
                count == self.active@.len(),
                forall|j: int|
                    0 <= j < count ==> (#[trigger] self.active@[j])@ == if j < k {
                        stopped(before, model_id@)[j]
                    } else {
                        before[j]
                    },
                jobs@ == jobs_of(before.take(k as int), model_id@),
            decreases count - k,
        {
            proof {
                assert(before.take(k + 1).drop_last() =~= before.take(k as int));
                assert(self.active@[k as int]@ == before[k as int]);
            }
            if *self.active[k].model_id.as_str() == *model_id {
                jobs.push(self.active[k].job_id);
                self.active[k].cancelled = true;
            }
            k = k + 1;
        }
        assert(before.take(count as int) =~= before);
        assert(self@ =~= stopped(before, model_id@));
        assert(ids(self@) =~= ids(before));
        jobs
    }

    /// Whether the copy of a job was asked to stop.
    pub fn is_cancelled(&self, job_id: u128) -> (yes: bool)
        ensures
            yes == asked_to_stop(self@, job_id),
    {
        match self.find(job_id) {
            Some(at) => self.active[at].cancelled,
            None => false,
        }
    }

    /// Forgets the copy of a job.
    pub fn finish(&mut self, job_id: u128)
        requires
            old(self).wf(),
        ensures
            final(self).wf(),
            final(self)@ == match place(old(self)@, job_id) {
                Some(at) => old(self)@.remove(at),
                None => old(self)@,
            },
    {
        let ghost before = self@;
        match self.find(job_id) {
            Some(at) => {
                self.active.remove(at);
                assert(self@ =~= before.remove(at as int));
                assert forall|i: int, j: int| 0 <= i < j < ids(self@).len() implies ids(self@)[i]
                    != ids(self@)[j] by {
                    let a = if i < at {
                        i
                    } else {
                        i + 1
                    };
                    let b = if j < at {
                        j
                    } else {
                        j + 1
                    };
                    assert(ids(before)[a] != ids(before)[b]);
                }
            },
            None => {},
        }
    }
}

// ---------------------------------------------------------------------------
// The answer to a request to stop
// ---------------------------------------------------------------------------

/// What is answered to a request to stop the cloud copies of a model.
#[derive(Debug)]
pub struct CloudBackupCancelResponse {
    pub success: bool,
    pub model_id: String,
    pub jobs_cancelled: Vec<u128>,
    pub cloud_backup_status: CloudBackupStatus,
    pub message: String,
}

/// Whether the cloud copy of a model was stopped before.
pub open spec fn stopped_before(jobs: Seq<JobView>, model_id: Seq<char>) -> bool {
    exists|i: int|
        0 <= i < jobs.len() && concerns(#[trigger] jobs[i], model_id) && job::backup_status(jobs[i])
            == CloudBackupStatus::Cancelled
}

/// Whether a job concerns a model.
pub open spec fn concerns(job: JobView, model_id: Seq<char>) -> bool {
    job.target_id == model_id || job.model_id == Some(model_id)
}

/// Jobs after the cloud copies of some of them were stopped, one after the other.
pub open spec fn with_stopped(jobs: Seq<JobView>, stopped: Seq<u128>, now: u64) -> Seq<JobView>
    decreases stopped.len(),
{
    if stopped.len() == 0 {
        jobs
    } else {
        job::revised(
            with_stopped(jobs, stopped.drop_last(), now),
            stopped.last(),
            |job: JobView|
                job::with_backup_status(job, CloudBackupStatus::Cancelled, None, now),
        )
    }
}

/// What is said of a request that names no model.
pub open spec fn nameless_refusal() -> (u16, Seq<char>) {
    (error::BAD_REQUEST, "model_id est obligatoire."@)
}

/// What is said where no copy of a model can be stopped.
pub open spec fn inactive_refusal() -> (u16, Seq<char>) {
    (
        error::CONFLICT,
        "CLOUD_BACKUP_NOT_ACTIVE: aucune sauvegarde cloud annulable pour ce modèle."@,
    )
}

fn was_stopped_before(jobs: &Jobs, model_id: &str) -> (yes: bool)
    ensures
        yes == stopped_before(jobs@, model_id@),
{
    for i in 0..jobs.list.len()
        invariant
            forall|j: int|
                0 <= j < i ==> !(concerns(#[trigger] jobs@[j], model_id@) && job::backup_status(
                    jobs@[j],
                ) == CloudBackupStatus::Cancelled),
    {
        let each = &jobs.list[i];
        assert(jobs@[i as int] == each@);
        let named = *each.target_id.as_str() == *model_id || text::opt_is(&each.model_id, model_id);
        if named && each.effective_cloud_backup_status() == CloudBackupStatus::Cancelled {
            return true;
        }
    }
    false
}

/// Stops the cloud copies of a model. Where none is being made, the request is
/// accepted if one was stopped before and refused otherwise.
pub fn cancel_cloud_backup_by_model(
    registry: &mut BackupCancellationRegistry,
    jobs: &mut Jobs,
    model_id: &str,
    now: u64,
) -> (result: Result<CloudBackupCancelResponse, ApiError>)
    requires
        old(registry).wf(),
        old(jobs).wf(),
    ensures
        final(registry).wf(),
        final(jobs).wf(),
        ({
            let model = text::trimmed(model_id@);
            let stopping = jobs_of(old(registry)@, model);
            if model.len() == 0 {
                *final(registry) == *old(registry) && *final(jobs) == *old(jobs) && (result
                    matches Err(refusal) && error::says(refusal) == nameless_refusal())
            } else if stopping.len() == 0 {
                &&& final(registry)@ == old(registry)@
                &&& *final(jobs) == *old(jobs)
                &&& match result {
                    Ok(answer) => stopped_before(old(jobs)@, model) && answer.success
                        && answer.model_id@ == model && answer.jobs_cancelled@.len() == 0
                        && answer.cloud_backup_status == CloudBackupStatus::Cancelled
                        && answer.message@ == "La sauvegarde cloud est déjà annulée."@,
                    Err(refusal) => !stopped_before(old(jobs)@, model) && error::says(refusal)
                        == inactive_refusal(),
                }
            } else {
                &&& final(registry)@ == stopped(old(registry)@, model)
                &&& final(jobs)@ == with_stopped(old(jobs)@, stopping, now)
                &&& result matches Ok(answer) && answer.success && answer.model_id@ == model
                    && answer.jobs_cancelled@ == stopping && answer.cloud_backup_status
                    == CloudBackupStatus::Cancelled && answer.message@
                    == "Annulation de la sauvegarde cloud demandée; l'installation locale reste valide."@
            }
        }),
{
    let model = text::trim(model_id);
    if text::chars_of(model).len() == 0 {
        return Err(ApiError::bad_request("model_id est obligatoire.".to_owned()));
    }
    let ghost before = registry@;
    let stopping = registry.cancel_model(model);
    if stopping.len() == 0 {
        proof {
            lemma_none_of(before, model@);
            assert(registry@ =~= before);
        }
        if was_stopped_before(jobs, model) {
            return Ok(
                CloudBackupCancelResponse {
                    success: true,
                    model_id: model.to_owned(),
                    jobs_cancelled: stopping,
                    cloud_backup_status: CloudBackupStatus::Cancelled,
                    message: "La sauvegarde cloud est déjà annulée.".to_owned(),
                },
            );
        }
        return Err(
            ApiError::conflict(
                "CLOUD_BACKUP_NOT_ACTIVE: aucune sauvegarde cloud annulable pour ce modèle.".to_owned(),
            ),
        );
    }
    let ghost known = jobs@;
    for i in 0..stopping.len()
        invariant
            jobs.wf(),
            jobs@ == with_stopped(known, stopping@.take(i as int), now),
    {
        assert(stopping@.take(i + 1).drop_last() =~= stopping@.take(i as int));
        let none: Option<String> = None;
        jobs.update_cloud_backup_status(stopping[i], CloudBackupStatus::Cancelled, none, now);
        assert(jobs@ == with_stopped(known, stopping@.take(i + 1), now)) by {
            assert(stopping@.take(i + 1).last() == stopping@[i as int]);
        }
    }
    assert(stopping@.take(stopping@.len() as int) =~= stopping@);
    Ok(
        CloudBackupCancelResponse {
            success: true,
            model_id: model.to_owned(),
            jobs_cancelled: stopping,
            cloud_backup_status: CloudBackupStatus::Cancelled,
            message: "Annulation de la sauvegarde cloud demandée; l'installation locale reste valide.".to_owned(),
        },
    )
}

proof fn lemma_none_of(active: Seq<BackupView>, model_id: Seq<char>)
    requires
        jobs_of(active, model_id).len() == 0,
    ensures
        forall|i: int| 0 <= i < active.len() ==> (#[trigger] active[i]).model_id != model_id,
    decreases active.len(),
{
    if active.len() > 0 {
        let rest = active.drop_last();
        lemma_none_of(rest, model_id);
        assert forall|i: int| 0 <= i < active.len() implies (#[trigger] active[i]).model_id
            != model_id by {
            if i < rest.len() {
                assert(rest[i] == active[i]);
            }
        }
    }
}

// ---------------------------------------------------------------------------
// Laws
// ---------------------------------------------------------------------------

/// Stopping the copies of a model stops those and no others, and the jobs that it
/// names are the jobs that make them.
pub proof fn law_only_the_requested_model_is_stopped(
    active: Seq<BackupView>,
    model_id: Seq<char>,
    i: int,
)
    requires
        0 <= i < active.len(),
    ensures
        stopped(active, model_id).len() == active.len(),
        active[i].model_id == model_id ==> stopped(active, model_id)[i].cancelled
            && jobs_of(active, model_id).contains(active[i].job_id),
        active[i].model_id != model_id ==> stopped(active, model_id)[i] == active[i],
    decreases active.len(),
{
    let rest = active.drop_last();
    let named = jobs_of(active, model_id);
    if active[i].model_id == model_id {
        if i < rest.len() {
            law_only_the_requested_model_is_stopped(rest, model_id, i);
            assert(rest[i] == active[i]);
            let earlier = jobs_of(rest, model_id);
            let at = choose|at: int| 0 <= at < earlier.len() && earlier[at] == active[i].job_id;
            assert(named[at] == active[i].job_id);
        } else {
            assert(named[named.len() - 1] == active[i].job_id);
        }
    }
}

/// A copy that was stopped and has ended is not stopped again.
pub proof fn law_ended_copies_are_forgotten(active: Seq<BackupView>, job_id: u128)
    requires
        lookup::distinct(ids(active)),
    ensures
        ({
            let after = match place(active, job_id) {
                Some(at) => active.remove(at),
                None => active,
            };
            place(after, job_id) is None && !asked_to_stop(after, job_id)
        }),
{
    lookup::lemma_place(ids(active), job_id);
    match place(active, job_id) {
        Some(at) => {
            let after = active.remove(at);
            assert forall|j: int| 0 <= j < after.len() implies ids(after)[j] != job_id by {
                let k = if j < at {
                    j
                } else {
                    j + 1
                };
                assert(ids(active)[k] == active[k].job_id);
                assert(ids(active)[at] == job_id);
            }
            lookup::lemma_no_place(ids(after), job_id);
        },
        None => {},
    }
}

/// Stopping cloud copies leaves the jobs themselves as they were: no job changes
/// its status, its progress or its result.
pub proof fn law_stopping_leaves_the_jobs(jobs: Seq<JobView>, stopped: Seq<u128>, now: u64)
    ensures
        with_stopped(jobs, stopped, now).len() == jobs.len(),
        forall|i: int|
            0 <= i < jobs.len() ==> {
                let after = #[trigger] with_stopped(jobs, stopped, now)[i];
                after.id == jobs[i].id && after.status == jobs[i].status && after.stage
                    == jobs[i].stage && after.progress == jobs[i].progress && after.message
                    == jobs[i].message && after.result == jobs[i].result && after.error
                    == jobs[i].error
            },
    decreases stopped.len(),
{
    if stopped.len() > 0 {
        law_stopping_leaves_the_jobs(jobs, stopped.drop_last(), now);
        let before = with_stopped(jobs, stopped.drop_last(), now);
        lookup::lemma_place(job::ids(before), stopped.last());
        assert forall|i: int| 0 <= i < jobs.len() implies {
            let after = #[trigger] with_stopped(jobs, stopped, now)[i];
            after.id == jobs[i].id && after.status == jobs[i].status && after.stage == jobs[i].stage
                && after.progress == jobs[i].progress && after.message == jobs[i].message
                && after.result == jobs[i].result && after.error == jobs[i].error
        } by {
            assert(before[i].id == jobs[i].id);
        }
    }
}

/// A copy that begins is under way for its job and its model, and was not told to
/// stop, whatever was known of its job before.
pub proof fn law_copies_begin_unstopped(active: Seq<BackupView>, job_id: u128, model_id: Seq<char>)
    ensures
        registered(active, job_id, model_id).contains(
            BackupView { job_id, model_id, cancelled: false },
        ),
        lookup::distinct(ids(active)) ==> !asked_to_stop(
            registered(active, job_id, model_id),
            job_id,
        ),
{
    let begun = BackupView { job_id, model_id, cancelled: false };
    let after = registered(active, job_id, model_id);
    lookup::lemma_place(ids(active), job_id);
    lookup::lemma_place(ids(after), job_id);
    match place(active, job_id) {
        Some(at) => {
            assert(after[at] == begun);
            if lookup::distinct(ids(active)) {
                assert(ids(after) =~= ids(active));
            }
        },
        None => {
            assert(after[active.len() as int] == begun);
            if place(after, job_id) is Some {
                let at = place(after, job_id)->0;
                if at < active.len() {
                    assert(ids(active)[at] == job_id);
                }
            }
        },
    }
}

/// Jobs that are told to stop are those of the model, and no others.
pub proof fn law_jobs_that_stop_are_those_of_the_model(
    active: Seq<BackupView>,
    model_id: Seq<char>,
    i: int,
)
    requires
        0 <= i < jobs_of(active, model_id).len(),
    ensures
        exists|k: int|
            0 <= k < active.len() && (#[trigger] active[k]).model_id == model_id
                && active[k].job_id == jobs_of(active, model_id)[i],
    decreases active.len(),
{
    let rest = active.drop_last();
    if i < jobs_of(rest, model_id).len() {
        law_jobs_that_stop_are_those_of_the_model(rest, model_id, i);
        let k = choose|k: int|
            0 <= k < rest.len() && (#[trigger] rest[k]).model_id == model_id && rest[k].job_id
                == jobs_of(rest, model_id)[i];
        assert(active[k] == rest[k]);
    } else {
        assert(active[active.len() - 1] == active.last());
    }
}

/// A copy of a model was stopped before where a job that is about the model says so.
pub proof fn law_stopped_copies_are_remembered(jobs: Seq<JobView>, model_id: Seq<char>, i: int)
    requires
        0 <= i < jobs.len(),
    ensures
        (jobs[i].target_id == model_id || jobs[i].model_id == Some(model_id))
            && job::backup_status(jobs[i]) == CloudBackupStatus::Cancelled ==> stopped_before(
            jobs,
            model_id,
        ),
        stopped_before(jobs, model_id) ==> exists|k: int|
            0 <= k < jobs.len() && job::backup_status(#[trigger] jobs[k])
                == CloudBackupStatus::Cancelled && (jobs[k].target_id == model_id
                || jobs[k].model_id == Some(model_id)),
        nameless_refusal().0 == 400 && inactive_refusal().0 == 409,
{
    if stopped_before(jobs, model_id) {
        let k = choose|k: int|
            0 <= k < jobs.len() && concerns(#[trigger] jobs[k], model_id) && job::backup_status(
                jobs[k],
            ) == CloudBackupStatus::Cancelled;
        assert(job::backup_status(jobs[k]) == CloudBackupStatus::Cancelled);
    }
}

/// The jobs whose copies are told to stop say afterwards that these are called off.
pub proof fn law_stopped_jobs_say_so(jobs: Seq<JobView>, stopped: Seq<u128>, now: u64, i: int)
    requires
        lookup::distinct(job::ids(jobs)),
        0 <= i < jobs.len(),
    ensures
        stopped.contains(jobs[i].id) ==> with_stopped(jobs, stopped, now)[i].cloud_backup_status
            == CloudBackupStatus::Cancelled && with_stopped(jobs, stopped, now)[i].cache_error
            is None,
        !stopped.contains(jobs[i].id) ==> with_stopped(jobs, stopped, now)[i] == jobs[i],
    decreases stopped.len(),
{
    if stopped.len() > 0 {
        let fewer = stopped.drop_last();
        law_stopped_jobs_say_so(jobs, fewer, now, i);
        law_stopping_leaves_the_jobs(jobs, fewer, now);
        let before = with_stopped(jobs, fewer, now);
        assert(job::ids(before) =~= job::ids(jobs));
        lookup::lemma_place(job::ids(before), stopped.last());
        let at = job::place(before, stopped.last());
        if stopped.contains(jobs[i].id) {
            if stopped.last() != jobs[i].id {
                let k = choose|k: int| 0 <= k < stopped.len() && stopped[k] == jobs[i].id;
                assert(fewer[k] == jobs[i].id);
            } else {
                assert(job::ids(before)[i] == stopped.last());
                if at is Some && at->0 != i {
                    assert(job::ids(before)[at->0] == job::ids(before)[i]);
                }
            }
        } else {
            assert(stopped[stopped.len() - 1] == stopped.last());
            assert(!fewer.contains(jobs[i].id)) by {
                if fewer.contains(jobs[i].id) {
                    let k = choose|k: int| 0 <= k < fewer.len() && fewer[k] == jobs[i].id;
                    assert(stopped[k] == jobs[i].id);
                }
            }
            if at is Some {
                assert(job::ids(before)[at->0] == stopped.last());
            }
        }
    }
}

} // verus!
