//! Whether the service can work, who may steer it, and what it has in use.
use crate::browse;
use crate::error;
use crate::error::ApiError;
use crate::host::ResourceSource;
use crate::job;
use crate::job::{ApplicationMode, JobStatus, JobView, Jobs};
use crate::settings::ApplicationProfile;
use crate::text;
use crate::worker::{WorkerHealth, WorkerReady, WorkerReadyView};
use vstd::prelude::*;
use vstd::string::*;

verus! {

// ---------------------------------------------------------------------------
// What was observed
// ---------------------------------------------------------------------------

/// What the worker answered: whether it is there and, asked then, whether it is
/// ready.
pub struct WorkerProbe {
    pub health: Result<WorkerHealth, String>,
    pub ready: Result<WorkerReady, String>,
}

/// What was observed of the service and of what it depends on.
pub struct Observations {
    pub profile: ApplicationProfile,
    pub mode: ApplicationMode,
    /// Whether outputs can be written.
    pub storage_writable: bool,
    /// Whether models, cache and work files can be written.
    pub scratch_writable: bool,
    pub ffmpeg: bool,
    pub queue: bool,
    /// What the native agent answered, where there is one.
    pub host_agent: Option<Result<(), String>>,
    pub system_source: ResourceSource,
    pub system_error: Option<String>,
    /// Whether the host has a card of NVIDIA.
    pub host_nvidia: bool,
    pub worker: Option<WorkerProbe>,
    /// What the object storage answered, where it is used.
    pub object_storage: Option<Result<(), String>>,
    pub admin_token: Option<String>,
}

/// Whether an answer is that of the worker of this service.
pub open spec fn known_worker(health: WorkerHealth) -> bool {
    health.status@ == "ok"@ && health.service@ == "vidioai-gpu-worker"@
}

/// Whether an answer is that of the worker of this service.
pub fn is_known_worker(health: &WorkerHealth) -> (yes: bool)
    ensures
        yes == known_worker(*health),
{
    *health.status.as_str() == *"ok" && *health.service.as_str() == *"vidioai-gpu-worker"
}

/// What the worker says of itself, where it is the worker of this service.
pub open spec fn worker_state(probe: Option<WorkerProbe>) -> Option<WorkerReadyView> {
    match probe {
        Some(WorkerProbe { health: Ok(health), ready: Ok(ready) }) => if known_worker(health) {
            Some(ready@)
        } else {
            None
        },
        _ => None,
    }
}

/// Why the worker cannot be used.
pub open spec fn worker_fault(probe: Option<WorkerProbe>) -> Option<Seq<char>> {
    match probe {
        None => None,
        Some(answers) => match answers.health {
            Err(cause) => Some("Worker indisponible : "@ + cause@),
            Ok(health) => if !known_worker(health) {
                Some("Le service worker a répondu avec une identité inattendue."@)
            } else {
                match answers.ready {
                    Err(cause) => Some("Worker non prêt : "@ + cause@),
                    Ok(_) => None,
                }
            },
        },
    }
}

/// Whether the worker is ready, has its runtime, and has CUDA.
pub open spec fn runtime_flags(status: Option<WorkerReadyView>) -> (bool, bool, bool) {
    match status {
        Some(answer) => (answer.ready, answer.runtime_available, answer.cuda_available),
        None => (false, false, false),
    }
}

/// Whether the worker is ready, has its runtime, and has CUDA.
pub fn worker_runtime_flags(status: Option<&WorkerReady>) -> (flags: (bool, bool, bool))
    ensures
        flags == runtime_flags(
            match status {
                Some(answer) => Some(answer@),
                None => None,
            },
        ),
{
    match status {
        Some(answer) => (answer.ready, answer.runtime_available, answer.cuda_available),
        None => (false, false, false),
    }
}

/// Whether a token is too weak for production: missing, short, or the one of the
/// template.
pub open spec fn weak_token(token: Option<Seq<char>>) -> bool {
    match token {
        Some(value) => text::utf8_len(value) < 32 || text::opens(value, "replace-with"@),
        None => true,
    }
}

/// Whether a token is too weak for production.
pub fn is_weak_token(token: &Option<String>) -> (weak: bool)
    ensures
        weak == weak_token(text::opt(*token)),
{
    match token {
        Some(value) => text::byte_len(value.as_str()) < 32 || text::starts_with(
            value.as_str(),
            "replace-with",
        ),
        None => true,
    }
}

/// Whether the native agent answered.
pub open spec fn agent_answered(agent: Option<Result<(), String>>) -> bool {
    agent matches Some(Ok(_))
}

/// Whether the object storage can be used, or is not used at all.
pub open spec fn storage_answered(storage: Option<Result<(), String>>) -> bool {
    !(storage matches Some(Err(_)))
}

// ---------------------------------------------------------------------------
// Faults
// ---------------------------------------------------------------------------

/// A list of faults with one more, where there is one.
pub open spec fn and_fault(faults: Seq<Seq<char>>, fault: Option<Seq<char>>) -> Seq<Seq<char>> {
    match fault {
        Some(found) => faults.push(found),
        None => faults,
    }
}

/// A fault that is one under a condition.
pub open spec fn fault_if(condition: bool, fault: Seq<char>) -> Option<Seq<char>> {
    if condition {
        Some(fault)
    } else {
        None
    }
}

/// What the outside answered in place of what was asked.
pub open spec fn answered_faults(seen: Observations) -> Seq<Seq<char>> {
    let agent = and_fault(
        Seq::empty(),
        match seen.host_agent {
            Some(Err(cause)) => Some(cause@),
            _ => None,
        },
    );
    let system = and_fault(
        agent,
        if seen.host_agent is Some {
            text::opt(seen.system_error)
        } else {
            None
        },
    );
    let worker = and_fault(system, worker_fault(seen.worker));
    and_fault(
        worker,
        match seen.object_storage {
            Some(Err(cause)) => Some("Stockage objet indisponible : "@ + cause@),
            _ => None,
        },
    )
}

/// All that keeps the service from working, or that is to be mended.
pub open spec fn faults(seen: Observations) -> Seq<Seq<char>> {
    let production = seen.profile == ApplicationProfile::GpuProduction;
    let status = worker_state(seen.worker);
    let (ready, runtime, gpu) = runtime_flags(status);
    let mount = status is Some && status->0.scratch_mount_ok;
    let agent = agent_answered(seen.host_agent) && seen.system_source == ResourceSource::Host;
    let f0 = answered_faults(seen);
    let f1 = and_fault(
        f0,
        fault_if(!seen.storage_writable, "Le volume de sorties n'est pas inscriptible."@),
    );
    let f2 = and_fault(
        f1,
        fault_if(
            !seen.scratch_writable,
            "Le Scratch modèles/cache/travail n'est pas entièrement inscriptible."@,
        ),
    );
    let f3 = and_fault(f2, fault_if(!seen.ffmpeg, "FFmpeg est absent ou inutilisable."@));
    let f4 = and_fault(f3, fault_if(!seen.queue, "La file SQLite est indisponible."@));
    let f5 = and_fault(
        f4,
        fault_if(production && !ready, "Le worker GPU de production n'est pas prêt."@),
    );
    let f6 = and_fault(
        f5,
        fault_if(production && !gpu, "CUDA/NVIDIA est obligatoire dans GPU_PRODUCTION."@),
    );
    let f7 = and_fault(
        f6,
        fault_if(production && !mount, "Le Worker n'atteste pas le filesystem Scratch dédié."@),
    );
    let f8 = and_fault(
        f7,
        fault_if(
            production && !agent,
            "Le Host Agent natif est obligatoire dans GPU_PRODUCTION."@,
        ),
    );
    let f9 = and_fault(
        f8,
        fault_if(
            production && !seen.host_nvidia,
            "Aucun GPU NVIDIA physique n'est détecté par le Host Agent."@,
        ),
    );
    let f10 = and_fault(
        f9,
        fault_if(
            seen.host_nvidia && !gpu,
            "GPU détecté sur l'hôte mais non exposé au GPU Worker."@,
        ),
    );
    and_fault(
        f10,
        fault_if(
            production && weak_token(text::opt(seen.admin_token)),
            "VIDIOAI_ADMIN_TOKEN doit être un secret aléatoire d'au moins 32 caractères."@,
        ),
    )
}

fn add_fault(list: &mut Vec<String>, fault: Option<String>)
    ensures
        text::texts(final(list)@) == and_fault(text::texts(old(list)@), text::opt(fault)),
{
    match fault {
        Some(found) => {
            let ghost before = list@;
            let ghost told = found@;
            list.push(found);
            assert(text::texts(list@) =~= text::texts(before).push(told));
        },
        None => {},
    }
}

fn add_if(list: &mut Vec<String>, condition: bool, fault: &str)
    ensures
        text::texts(final(list)@) == and_fault(
            text::texts(old(list)@),
            fault_if(condition, fault@),
        ),
{
    if condition {
        add_fault(list, Some(fault.to_owned()));
    }
}

fn worker_trouble(probe: &Option<WorkerProbe>) -> (fault: Option<String>)
    ensures
        text::opt(fault) == worker_fault(*probe),
{
    match probe {
        None => None,
        Some(answers) => match &answers.health {
            Err(cause) => Some(text::concat("Worker indisponible : ", cause.as_str())),
            Ok(health) => if !is_known_worker(health) {
                Some("Le service worker a répondu avec une identité inattendue.".to_owned())
            } else {
                match &answers.ready {
                    Err(cause) => Some(text::concat("Worker non prêt : ", cause.as_str())),
                    Ok(_) => None,
                }
            },
        },
    }
}

fn answered_list(seen: &Observations) -> (list: Vec<String>)
    ensures
        text::texts(list@) == answered_faults(*seen),
{
    let mut list: Vec<String> = Vec::new();
    assert(text::texts(list@) =~= Seq::<Seq<char>>::empty());
    let agent = match &seen.host_agent {
        Some(Err(cause)) => Some(cause.clone()),
        _ => None,
    };
    add_fault(&mut list, agent);
    let system = if seen.host_agent.is_some() {
        text::copy_opt(&seen.system_error)
    } else {
        None
    };
    add_fault(&mut list, system);
    add_fault(&mut list, worker_trouble(&seen.worker));
    let storage = match &seen.object_storage {
        Some(Err(cause)) => Some(text::concat("Stockage objet indisponible : ", cause.as_str())),
        _ => None,
    };
    add_fault(&mut list, storage);
    list
}

// ---------------------------------------------------------------------------
// Readiness
// ---------------------------------------------------------------------------

/// Whether the service can work: what it writes to, its encoder, its queue and
/// its storage, its agent where there is one, and in production a card, a worker
/// and its scratch disk.
pub open spec fn can_work(seen: Observations) -> bool {
    let production = seen.profile == ApplicationProfile::GpuProduction;
    let status = worker_state(seen.worker);
    let (ready, runtime, gpu) = runtime_flags(status);
    &&& seen.storage_writable
    &&& seen.scratch_writable
    &&& seen.ffmpeg
    &&& seen.queue
    &&& storage_answered(seen.object_storage)
    &&& seen.host_agent is Some ==> agent_answered(seen.host_agent) && seen.system_source
        == ResourceSource::Host
    &&& production ==> seen.host_nvidia && ready && runtime && gpu && status->0.scratch_mount_ok
}

/// What is told of the state of the service.
#[derive(Debug)]
pub struct ReadyStatus {
    pub ready: bool,
    pub storage_writable: bool,
    pub scratch_writable: bool,
    pub scratch_mount_ok: bool,
    pub scratch_filesystem: Option<String>,
    pub scratch_total_bytes: u64,
    pub scratch_available_bytes: u64,
    pub ffmpeg: bool,
    pub catalog_models: usize,
    pub message: &'static str,
    pub profile: ApplicationProfile,
    pub mode: ApplicationMode,
    pub queue: bool,
    pub worker: bool,
    pub host_agent: bool,
    pub system_source: ResourceSource,
    pub runtime: bool,
    pub gpu: bool,
    pub s3: bool,
    pub errors: Vec<String>,
}

/// Says from what was observed whether the service can work, and the status that
/// tells it.
pub fn get_ready(seen: &Observations) -> (answer: (u16, ReadyStatus))
    ensures
        answer.0 == if can_work(*seen) {
            error::OK
        } else {
            error::SERVICE_UNAVAILABLE
        },
        ({
            let told = answer.1;
            let status = worker_state(seen.worker);
            &&& told.ready == can_work(*seen)
            &&& told.storage_writable == seen.storage_writable
            &&& told.scratch_writable == seen.scratch_writable
            &&& told.scratch_mount_ok == (status is Some && status->0.scratch_mount_ok)
            &&& text::opt(told.scratch_filesystem) == (match status {
                Some(found) => found.scratch_filesystem,
                None => None,
            })
            &&& told.scratch_total_bytes == (match status {
                Some(found) => found.scratch_total_bytes,
                None => 0,
            })
            &&& told.scratch_available_bytes == (match status {
                Some(found) => found.scratch_available_bytes,
                None => 0,
            })
            &&& told.ffmpeg == seen.ffmpeg
            &&& told.catalog_models == browse::local_engines().len()
            &&& told.message@ == (if can_work(*seen) {
                "VidioAI est prêt à accepter des jobs."@
            } else {
                "Une ou plusieurs dépendances obligatoires ne sont pas prêtes."@
            })
            &&& told.profile == seen.profile
            &&& told.mode == seen.mode
            &&& told.queue == seen.queue
            &&& (told.worker, told.runtime, told.gpu) == runtime_flags(status)
            &&& told.host_agent == (agent_answered(seen.host_agent) && seen.system_source
                == ResourceSource::Host)
            &&& told.system_source == seen.system_source
            &&& told.s3 == storage_answered(seen.object_storage)
            &&& text::texts(told.errors@) == faults(*seen)
        }),
{
    let production = seen.profile == ApplicationProfile::GpuProduction;
    let status: Option<&WorkerReady> = match &seen.worker {
        Some(answers) => match &answers.health {
            Ok(health) => if is_known_worker(health) {
                match &answers.ready {
                    Ok(found) => Some(found),
                    Err(_) => None,
                }
            } else {
                None
            },
            Err(_) => None,
        },
        None => None,
    };
    let (worker_ready, runtime, gpu) = worker_runtime_flags(status);
    let mount = match status {
        Some(found) => found.scratch_mount_ok,
        None => false,
    };
    let answered = match &seen.host_agent {
        Some(Ok(_)) => true,
        _ => false,
    };
    let agent = answered && seen.system_source == ResourceSource::Host;
    let s3 = match &seen.object_storage {
        Some(Err(_)) => false,
        _ => true,
    };
    let mut errors = answered_list(seen);
    add_if(
        &mut errors,
        !seen.storage_writable,
        "Le volume de sorties n'est pas inscriptible.",
    );
    add_if(
        &mut errors,
        !seen.scratch_writable,
        "Le Scratch modèles/cache/travail n'est pas entièrement inscriptible.",
    );
    add_if(&mut errors, !seen.ffmpeg, "FFmpeg est absent ou inutilisable.");
    add_if(&mut errors, !seen.queue, "La file SQLite est indisponible.");
    add_if(
        &mut errors,
        production && !worker_ready,
        "Le worker GPU de production n'est pas prêt.",
    );
    add_if(
        &mut errors,
        production && !gpu,
        "CUDA/NVIDIA est obligatoire dans GPU_PRODUCTION.",
    );
    add_if(
        &mut errors,
        production && !mount,
        "Le Worker n'atteste pas le filesystem Scratch dédié.",
    );
    add_if(
        &mut errors,
        production && !agent,
        "Le Host Agent natif est obligatoire dans GPU_PRODUCTION.",
    );
    add_if(
        &mut errors,
        production && !seen.host_nvidia,
        "Aucun GPU NVIDIA physique n'est détecté par le Host Agent.",
    );
    add_if(
        &mut errors,
        seen.host_nvidia && !gpu,
        "GPU détecté sur l'hôte mais non exposé au GPU Worker.",
    );
    add_if(
        &mut errors,
        production && is_weak_token(&seen.admin_token),
        "VIDIOAI_ADMIN_TOKEN doit être un secret aléatoire d'au moins 32 caractères.",
    );
    let ready = seen.storage_writable && seen.scratch_writable && seen.ffmpeg && seen.queue && s3
        && (seen.host_agent.is_none() || agent) && (!production || (seen.host_nvidia
        && worker_ready && runtime && gpu && mount));
    let engines = browse::local_runtime_models();
    assert(engines@.len() == browse::local_engines().len());
    let (filesystem, total, available) = match status {
        Some(found) => (
            text::copy_opt(&found.scratch_filesystem),
            found.scratch_total_bytes,
            found.scratch_available_bytes,
        ),
        None => (None, 0, 0),
    };
    let told = ReadyStatus {
        ready,
        storage_writable: seen.storage_writable,
        scratch_writable: seen.scratch_writable,
        scratch_mount_ok: mount,
        scratch_filesystem: filesystem,
        scratch_total_bytes: total,
        scratch_available_bytes: available,
        ffmpeg: seen.ffmpeg,
        catalog_models: engines.len(),
        message: if ready {
            "VidioAI est prêt à accepter des jobs."
        } else {
            "Une ou plusieurs dépendances obligatoires ne sont pas prêtes."
        },
        profile: seen.profile,
        mode: seen.mode,
        queue: seen.queue,
        worker: worker_ready,
        host_agent: agent,
        system_source: seen.system_source,
        runtime,
        gpu,
        s3,
        errors,
    };
    (
        if ready {
            error::OK
        } else {
            error::SERVICE_UNAVAILABLE
        },
        told,
    )
}

// ---------------------------------------------------------------------------
// Steering
// ---------------------------------------------------------------------------

/// Whether a caller may steer the service: who sends the token where one is set.
/// Where none is set, anyone locally, and in production who sends no bearer token.
pub open spec fn may_steer(
    profile: ApplicationProfile,
    token: Option<Seq<char>>,
    authorization: Option<Seq<char>>,
) -> bool {
    match token {
        None => profile == ApplicationProfile::Local || authorization is None || !text::opens(
            authorization->0,
            "Bearer "@,
        ),
        Some(expected) => authorization == Some("Bearer "@ + expected),
    }
}

/// Refuses a caller who may not steer the service. `authorization` is the header
/// of the request.
pub fn authorize_admin(
    profile: ApplicationProfile,
    token: &Option<String>,
    authorization: Option<&str>,
) -> (result: Result<(), ApiError>)
    ensures
        result is Ok <==> may_steer(profile, text::opt(*token), text::opt_str(authorization)),
        result matches Err(refusal) ==> error::says(refusal) == (
            error::UNAUTHORIZED,
            "Jeton administrateur invalide."@,
        ),
{
    let allowed = match token {
        None => profile == ApplicationProfile::Local || match authorization {
            Some(given) => !text::starts_with(given, "Bearer "),
            None => true,
        },
        Some(expected) => match authorization {
            Some(given) => *given == *text::concat("Bearer ", expected.as_str()).as_str(),
            None => false,
        },
    };
    if allowed {
        Ok(())
    } else {
        Err(ApiError::unauthorized("Jeton administrateur invalide.".to_owned()))
    }
}

/// Changes whether new jobs are taken, for a caller who may, and returns the new
/// mode with the number of jobs in the queue.
pub fn set_application_mode(
    current: &mut ApplicationMode,
    wanted: ApplicationMode,
    profile: ApplicationProfile,
    token: &Option<String>,
    authorization: Option<&str>,
    jobs: &Jobs,
) -> (result: Result<(ApplicationMode, usize), ApiError>)
    ensures
        match result {
            Ok(answer) => may_steer(profile, text::opt(*token), text::opt_str(authorization))
                && *final(current) == wanted && answer.0 == wanted && answer.1
                == job::active_jobs(jobs@).len(),
            Err(refusal) => !may_steer(
                profile,
                text::opt(*token),
                text::opt_str(authorization),
            ) && *final(current) == *old(current) && error::says(refusal) == (
                error::UNAUTHORIZED,
                "Jeton administrateur invalide."@,
            ),
        },
{
    match authorize_admin(profile, token, authorization) {
        Ok(_) => {},
        Err(refusal) => {
            return Err(refusal);
        },
    }
    *current = wanted;
    let queue = jobs.queue();
    proof {
        job::law_queue_holds_the_active(Seq::new(queue@.len(), |i: int| queue@[i]@), jobs@);
    }
    Ok((wanted, queue.len()))
}

// ---------------------------------------------------------------------------
// What is in use
// ---------------------------------------------------------------------------

/// Whether a job waits or runs; one that waits to be started again does not.
pub open spec fn in_progress(status: JobStatus) -> bool {
    status == JobStatus::Queued || status == JobStatus::Dispatching || status == JobStatus::Running
        || status == JobStatus::SavingOutput
}

/// How many jobs wait or run.
pub open spec fn progressing(jobs: Seq<JobView>) -> nat
    decreases jobs.len(),
{
    if jobs.len() == 0 {
        0
    } else {
        progressing(jobs.drop_last()) + (if in_progress(jobs.last().status) {
            1nat
        } else {
            0
        })
    }
}

/// How many jobs wait or run, and how many there are.
pub fn job_counts(jobs: &Jobs) -> (counts: (usize, usize))
    ensures
        counts.0 == progressing(jobs@),
        counts.1 == jobs@.len(),
{
    let mut active: usize = 0;
    assert(jobs@.take(0) =~= Seq::<JobView>::empty());
    for i in 0..jobs.list.len()
        invariant
            active == progressing(jobs@.take(i as int)),
            active <= i,
    {
        assert(jobs@.take(i + 1).drop_last() =~= jobs@.take(i as int));
        assert(jobs@.take(i + 1).last() == jobs.list@[i as int]@);
        if matches!(
            jobs.list[i].status,
            JobStatus::Queued | JobStatus::Dispatching | JobStatus::Running
                | JobStatus::SavingOutput
        ) {
            active = active + 1;
        }
    }
    assert(jobs@.take(jobs@.len() as int) =~= jobs@);
    (active, jobs.list.len())
}

/// What is told of the worker: what it has in use and where that was read, or why
/// that is not known.
pub fn worker_part<T>(answer: Option<Result<T, String>>) -> (part: (
    Option<T>,
    Option<ResourceSource>,
    Option<String>,
))
    ensures
        match answer {
            Some(Ok(resources)) => part == (
                Some(resources),
                Some(ResourceSource::Worker),
                None::<String>,
            ),
            Some(Err(cause)) => part.0 is None && part.1 is None && text::opt(part.2) == Some(
                cause@,
            ),
            None => part.0 is None && part.1 is None && text::opt(part.2) == Some(
                "VIDIOAI_WORKER_URL non configurée"@,
            ),
        },
{
    match answer {
        Some(Ok(resources)) => (Some(resources), Some(ResourceSource::Worker), None),
        Some(Err(cause)) => (None, None, Some(cause)),
        None => (None, None, Some("VIDIOAI_WORKER_URL non configurée".to_owned())),
    }
}

// ---------------------------------------------------------------------------
// Laws
// ---------------------------------------------------------------------------

/// A service that can work in production has a worker that is ready, with its
/// runtime, with CUDA and with its scratch disk, and a card on the host.
pub proof fn law_production_needs_the_worker(seen: Observations)
    requires
        seen.profile == ApplicationProfile::GpuProduction,
        can_work(seen),
    ensures
        worker_state(seen.worker) is Some,
        runtime_flags(worker_state(seen.worker)) == (true, true, true),
        worker_state(seen.worker)->0.scratch_mount_ok,
        seen.host_nvidia,
{
}

/// Where no fault is told and a runtime is there, the service can work.
pub proof fn law_no_fault_means_work(seen: Observations)
    requires
        faults(seen).len() == 0,
        seen.profile == ApplicationProfile::GpuProduction ==> runtime_flags(
            worker_state(seen.worker),
        ).1,
        seen.host_agent is Some ==> seen.system_source == ResourceSource::Host,
    ensures
        can_work(seen),
{
}

/// In production no one steers the service without the token that is set.
pub proof fn law_production_is_guarded(token: Seq<char>, authorization: Option<Seq<char>>)
    ensures
        may_steer(ApplicationProfile::GpuProduction, Some(token), authorization) ==> authorization
            == Some("Bearer "@ + token),
{
}

/// The service can work exactly where it can write its outputs and its scratch, has
/// the encoder and its queue, and where what it was told to use answers; in
/// production it needs the worker too, with its runtime, its card and its scratch.
pub proof fn law_the_service_works_with_all_it_needs(seen: Observations)
    ensures
        can_work(seen) ==> seen.storage_writable && seen.scratch_writable && seen.ffmpeg
            && seen.queue,
        can_work(seen) && seen.object_storage is Some ==> seen.object_storage->0 is Ok,
        can_work(seen) && seen.host_agent is Some ==> seen.host_agent->0 is Ok
            && seen.system_source == ResourceSource::Host,
        seen.profile != ApplicationProfile::GpuProduction && seen.storage_writable
            && seen.scratch_writable && seen.ffmpeg && seen.queue && seen.object_storage is None
            && seen.host_agent is None ==> can_work(seen),
        seen.profile == ApplicationProfile::GpuProduction && can_work(seen) ==> seen.host_nvidia
            && (worker_state(seen.worker) matches Some(told) && told.ready
            && told.runtime_available && told.cuda_available && told.scratch_mount_ok),
        seen.profile == ApplicationProfile::GpuProduction && seen.storage_writable
            && seen.scratch_writable && seen.ffmpeg && seen.queue && seen.object_storage is None
            && seen.host_agent is None && seen.host_nvidia && (worker_state(seen.worker)
            matches Some(told) && told.ready && told.runtime_available && told.cuda_available
            && told.scratch_mount_ok) ==> can_work(seen),
{
}

/// The worker is one that answers as itself and says how it is; of any other answer
/// there is a fault to tell, and of no worker none.
pub proof fn law_the_worker_answers_as_itself(probe: Option<WorkerProbe>)
    ensures
        worker_state(probe) is Some ==> (probe matches Some(answers) && (answers.health matches Ok(
            health,
        ) && health.status@ == "ok"@ && health.service@ == "vidioai-gpu-worker"@) && (
        answers.ready matches Ok(ready) && worker_state(probe) == Some(ready@))),
        probe is Some ==> (worker_state(probe) is None <==> worker_fault(probe) is Some),
        probe is None ==> worker_state(probe) is None && worker_fault(probe) is None,
        probe is Some && probe->0.health is Err ==> worker_fault(probe) == Some(
            "Worker indisponible : "@ + probe->0.health->Err_0@,
        ),
        worker_state(probe) matches Some(told) ==> runtime_flags(worker_state(probe)) == (
            told.ready,
            told.runtime_available,
            told.cuda_available,
        ),
        runtime_flags(None) == (false, false, false),
{
}

/// Each thing that is missing is told, and nothing is told where nothing is
/// missing: outputs or scratch that cannot be written, the encoder, the queue, and
/// in production a weak token.
#[verifier::spinoff_prover]
pub proof fn law_what_is_missing_is_told(seen: Observations)
    ensures
        !seen.storage_writable || !seen.scratch_writable || !seen.ffmpeg || !seen.queue ==> faults(
            seen,
        ).len() > 0,
        seen.object_storage is Some && seen.object_storage->0 is Err ==> faults(seen).len() > 0,
        seen.host_agent is Some && seen.host_agent->0 is Err ==> faults(seen).len() > 0,
        worker_fault(seen.worker) is Some ==> faults(seen).len() > 0,
        seen.profile == ApplicationProfile::GpuProduction && weak_token(text::opt(seen.admin_token))
            ==> faults(seen).len() > 0,
        seen.profile == ApplicationProfile::GpuProduction && !seen.host_nvidia ==> faults(
            seen,
        ).len() > 0,
        seen.profile == ApplicationProfile::GpuProduction && worker_state(seen.worker) is None
            ==> faults(seen).len() > 0,
        seen.host_nvidia && !runtime_flags(worker_state(seen.worker)).2 ==> faults(seen).len() > 0,
        seen.profile != ApplicationProfile::GpuProduction && seen.storage_writable
            && seen.scratch_writable && seen.ffmpeg && seen.queue && seen.object_storage is None
            && seen.host_agent is None && seen.worker is None && !seen.host_nvidia ==> faults(
            seen,
        ).len() == 0,
{
}

/// A token guards where it is long enough and not the one of the example.
pub proof fn law_weak_tokens_are_told(token: Option<Seq<char>>)
    ensures
        token is None ==> weak_token(token),
        token matches Some(value) ==> (weak_token(token) <==> text::utf8_len(value) < 32
            || text::opens(value, "replace-with"@)),
{
}

/// Where a token is set, only who shows it may steer the service, in every profile.
pub proof fn law_the_token_steers(
    profile: ApplicationProfile,
    token: Seq<char>,
    authorization: Option<Seq<char>>,
)
    ensures
        may_steer(profile, Some(token), authorization) <==> authorization == Some(
            "Bearer "@ + token,
        ),
        may_steer(ApplicationProfile::Local, None, authorization),
{
}

/// Jobs that wait, are dispatched, run or save are in progress, each counted once.
pub proof fn law_jobs_in_progress_are_counted(jobs: Seq<JobView>)
    ensures
        progressing(jobs) <= jobs.len(),
        (forall|i: int|
            0 <= i < jobs.len() ==> (#[trigger] jobs[i]).status == JobStatus::Completed
                || jobs[i].status == JobStatus::Failed || jobs[i].status == JobStatus::Cancelled
                || jobs[i].status == JobStatus::Interrupted || jobs[i].status
                == JobStatus::PendingRetry) ==> progressing(jobs) == 0,
        (forall|i: int|
            0 <= i < jobs.len() ==> (#[trigger] jobs[i]).status == JobStatus::Queued
                || jobs[i].status == JobStatus::Dispatching || jobs[i].status == JobStatus::Running
                || jobs[i].status == JobStatus::SavingOutput) ==> progressing(jobs) == jobs.len(),
    decreases jobs.len(),
{
    if jobs.len() > 0 {
        let rest = jobs.drop_last();
        law_jobs_in_progress_are_counted(rest);
        assert forall|i: int| 0 <= i < rest.len() implies rest[i] == jobs[i] by {}
        assert(jobs[jobs.len() - 1] == jobs.last());
    }
}

} // verus!
