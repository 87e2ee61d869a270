//! The laboratory: models that are tried before they are served, and the packs
//! that serve them.
use crate::error;
use crate::error::ApiError;
use crate::install;
use crate::job::JobStatus;
use crate::json;
use crate::json::{Json, JsonView};
use crate::lookup;
use crate::pack;
use crate::text;
use crate::worker::{ModelStatusView, WorkerModelStatus};
use vstd::prelude::*;
use vstd::string::*;

verus! {

/// Where a model of the laboratory stands.
#[derive(Clone, Copy, Debug, PartialEq, Eq, Structural)]
pub enum LabLifecycle {
    /// Its repository was read.
    Analyzed,
    /// It is installed and may be tried.
    Experimental,
    /// It was tried with success.
    Validated,
    /// It is served.
    Ready,
}

impl LabLifecycle {
    /// The name of the value in documents.
    pub open spec fn name(self) -> Seq<char> {
        match self {
            LabLifecycle::Analyzed => "ANALYZED"@,
            LabLifecycle::Experimental => "EXPERIMENTAL"@,
            LabLifecycle::Validated => "VALIDATED"@,
            LabLifecycle::Ready => "READY"@,
        }
    }

    /// The name of the value in documents.
    pub fn api_name(&self) -> (name: &'static str)
        ensures
            name@ == self.name(),
    {
        match self {
            LabLifecycle::Analyzed => "ANALYZED",
            LabLifecycle::Experimental => "EXPERIMENTAL",
            LabLifecycle::Validated => "VALIDATED",
            LabLifecycle::Ready => "READY",
        }
    }
}

/// Whether a revision names a commit: 40 or 64 hexadecimal digits.
pub open spec fn commit(revision: Seq<char>) -> bool {
    (text::utf8_len(revision) == 40 || text::utf8_len(revision) == 64) && text::all_hex(revision)
}

/// Whether a revision names a commit.
pub fn is_commit_revision(revision: &str) -> (yes: bool)
    ensures
        yes == commit(revision@),
{
    let length: usize = text::byte_len(revision);
    (length == 40 || length == 64) && text::is_hex(revision)
}

// ---------------------------------------------------------------------------
// Analysis
// ---------------------------------------------------------------------------

/// What a text, or its refusal, says.
pub open spec fn text_outcome(result: Result<String, ApiError>) -> Result<
    Seq<char>,
    (u16, Seq<char>),
> {
    match result {
        Ok(found) => Ok(found@),
        Err(refusal) => Err(error::says(refusal)),
    }
}

/// The model that is to be analysed.
pub fn analyzed_model(model_id: &str) -> (result: Result<String, ApiError>)
    ensures
        text_outcome(result) == if text::trimmed(model_id@).len() == 0 {
            Err((error::BAD_REQUEST, "model_id est obligatoire."@))
        } else {
            Ok(text::trimmed(model_id@))
        },
{
    let name = text::trim(model_id);
    if text::chars_of(name).len() == 0 {
        return Err(ApiError::bad_request("model_id est obligatoire.".to_owned()));
    }
    Ok(name.to_owned())
}

/// Why a model cannot enter the laboratory, if it cannot: it is an engine of this
/// service, or its revision is not a commit.
pub open spec fn analysis_refusal(local: bool, revision: Seq<char>) -> Option<(u16, Seq<char>)> {
    if local {
        Some(
            (
                error::CONFLICT,
                "MODEL_LAB_INVALID: un moteur procédural local ne peut pas entrer dans le Lab."@,
            ),
        )
    } else if !commit(revision) {
        Some(
            (
                error::CONFLICT,
                "MODEL_REVISION_NOT_PINNED: Hugging Face n'a pas fourni de SHA commit immuable."@,
            ),
        )
    } else {
        None
    }
}

/// Refuses a model that cannot enter the laboratory.
pub fn admit_analysis(local: bool, revision: &str) -> (result: Result<(), ApiError>)
    ensures
        pack::refused(result) == analysis_refusal(local, revision@),
{
    if local {
        return Err(
            ApiError::conflict(
                "MODEL_LAB_INVALID: un moteur procédural local ne peut pas entrer dans le Lab.".to_owned(),
            ),
        );
    }
    if !is_commit_revision(revision) {
        return Err(
            ApiError::conflict(
                "MODEL_REVISION_NOT_PINNED: Hugging Face n'a pas fourni de SHA commit immuable.".to_owned(),
            ),
        );
    }
    Ok(())
}

/// The versions of the pack and of the workflow that an analysis is made with.
/// `schema` is the version of the form of the closest pack, where there is one, and
/// `active` what is in use of it.
pub fn analysis_versions(schema: Option<u64>, active: Option<(String, String)>) -> (versions: (
    String,
    String,
))
    ensures
        match schema {
            None => versions.0@ == "0.1.0-lab"@ && versions.1@ == "1"@,
            Some(form) => match active {
                Some((pack_version, workflow_version)) => versions.0@ == pack_version@
                    && versions.1@ == workflow_version@,
                None => versions.0@ == text::decimal(form as nat) && versions.1@ == "1"@,
            },
        },
{
    match schema {
        None => ("0.1.0-lab".to_owned(), "1".to_owned()),
        Some(form) => match active {
            Some(found) => found,
            None => (text::decimal_text(form), "1".to_owned()),
        },
    }
}

/// The repositories whose revisions are compared with those in use: those of the
/// models that were tried with success or are served.
pub open spec fn watched(items: Seq<(Seq<char>, LabLifecycle)>, repository: Seq<char>) -> bool {
    exists|i: int|
        0 <= i < items.len() && (#[trigger] items[i]).0 == repository && (items[i].1
            == LabLifecycle::Validated || items[i].1 == LabLifecycle::Ready)
}

/// What a list of models of the laboratory says.
pub open spec fn lab_items(items: Seq<(String, LabLifecycle)>) -> Seq<(Seq<char>, LabLifecycle)> {
    Seq::new(items.len(), |i: int| (items[i].0@, items[i].1))
}

/// The repositories whose revisions are compared with those in use, each once.
pub fn watched_repositories(items: &Vec<(String, LabLifecycle)>) -> (repositories: Vec<String>)
    ensures
        forall|name: Seq<char>| #[trigger]
            text::texts(repositories@).contains(name) <==> watched(lab_items(items@), name),
        text::texts(repositories@).no_duplicates(),
{
    let mut repositories: Vec<String> = Vec::new();
    let ghost all = lab_items(items@);
    assert(text::texts(repositories@) =~= Seq::<Seq<char>>::empty());
    for i in 0..items.len()
        invariant
            all == lab_items(items@),
            forall|name: Seq<char>| #[trigger]
                text::texts(repositories@).contains(name) <==> watched(all.take(i as int), name),
            text::texts(repositories@).no_duplicates(),
    {
        let ghost before = text::texts(repositories@);
        let lifecycle = items[i].1;
        let wanted = lifecycle == LabLifecycle::Validated || lifecycle == LabLifecycle::Ready;
        assert(all[i as int] == (items@[i as int].0@, lifecycle));
        if wanted && !text::any_is(&repositories, items[i].0.as_str()) {
            repositories.push(items[i].0.clone());
            assert(text::texts(repositories@) =~= before.push(items@[i as int].0@));
        }
        proof {
            let after = text::texts(repositories@);
            assert forall|name: Seq<char>| #[trigger] after.contains(name) <==> watched(
                all.take(i + 1),
                name,
            ) by {
                lemma_watched(all, i as int, name);
                if before.contains(name) {
                    let k = choose|k: int| 0 <= k < before.len() && before[k] == name;
                    assert(after[k] == name);
                }
                if wanted && name == all[i as int].0 && !before.contains(name) {
                    assert(after[before.len() as int] == name);
                }
                if after.contains(name) && !before.contains(name) {
                    let k = choose|k: int| 0 <= k < after.len() && after[k] == name;
                    if k < before.len() {
                        assert(before[k] == name);
                    }
                }
            }
        }
    }
    assert(all.take(all.len() as int) =~= all);
    repositories
}

proof fn lemma_watched(items: Seq<(Seq<char>, LabLifecycle)>, count: int, repository: Seq<char>)
    requires
        0 <= count < items.len(),
    ensures
        watched(items.take(count + 1), repository) <==> watched(items.take(count), repository)
            || (items[count].0 == repository && (items[count].1 == LabLifecycle::Validated
            || items[count].1 == LabLifecycle::Ready)),
{
    let longer = items.take(count + 1);
    let shorter = items.take(count);
    if watched(longer, repository) {
        let k = choose|k: int|
            0 <= k < longer.len() && (#[trigger] longer[k]).0 == repository && (longer[k].1
                == LabLifecycle::Validated || longer[k].1 == LabLifecycle::Ready);
        if k < count {
            assert(shorter[k] == longer[k]);
        }
    }
    if watched(shorter, repository) {
        let k = choose|k: int|
            0 <= k < shorter.len() && (#[trigger] shorter[k]).0 == repository && (shorter[k].1
                == LabLifecycle::Validated || shorter[k].1 == LabLifecycle::Ready);
        assert(longer[k] == shorter[k]);
    }
    assert(longer[count] == items[count]);
}

// ---------------------------------------------------------------------------
// Installation for a trial
// ---------------------------------------------------------------------------

/// Why a trial cannot be asked for, if it cannot: no model or revision is named,
/// or the revision is not a commit.
pub open spec fn trial_refusal(model_id: Seq<char>, revision: Seq<char>) -> Option<(u16, Seq<char>)> {
    if text::trimmed(model_id).len() == 0 || text::trimmed(revision).len() == 0 {
        Some((error::BAD_REQUEST, "model_id et revision commit sont obligatoires."@))
    } else if !commit(text::trimmed(revision)) {
        Some(
            (
                error::BAD_REQUEST,
                "MODEL_REVISION_NOT_PINNED: revision doit être un SHA commit Hugging Face."@,
            ),
        )
    } else {
        None
    }
}

/// Refuses a trial that cannot be asked for.
pub fn admit_trial(model_id: &str, revision: &str) -> (result: Result<(), ApiError>)
    ensures
        pack::refused(result) == trial_refusal(model_id@, revision@),
{
    let model = text::trim(model_id);
    let pinned = text::trim(revision);
    if text::chars_of(model).len() == 0 || text::chars_of(pinned).len() == 0 {
        return Err(
            ApiError::bad_request("model_id et revision commit sont obligatoires.".to_owned()),
        );
    }
    if !is_commit_revision(pinned) {
        return Err(
            ApiError::bad_request(
                "MODEL_REVISION_NOT_PINNED: revision doit être un SHA commit Hugging Face.".to_owned(),
            ),
        );
    }
    Ok(())
}

/// Why a model of the laboratory cannot be installed for a trial, if it cannot:
/// the revision was not analysed, or the model stands elsewhere.
pub open spec fn lifecycle_refusal(found: Option<LabLifecycle>) -> Option<(u16, Seq<char>)> {
    match found {
        None => Some(
            (
                error::CONFLICT,
                "MODEL_LAB_ANALYSIS_REQUIRED: analysez cette révision avant installation."@,
            ),
        ),
        Some(lifecycle) => if lifecycle != LabLifecycle::Analyzed {
            Some(
                (error::CONFLICT, "MODEL_LAB_TRANSITION_INVALID: statut ANALYZED requis."@),
            )
        } else {
            None
        },
    }
}

/// Refuses a model of the laboratory that cannot be installed for a trial.
pub fn admit_lifecycle(found: Option<LabLifecycle>) -> (result: Result<(), ApiError>)
    ensures
        pack::refused(result) == lifecycle_refusal(found),
{
    match found {
        None => Err(
            ApiError::conflict(
                "MODEL_LAB_ANALYSIS_REQUIRED: analysez cette révision avant installation.".to_owned(),
            ),
        ),
        Some(lifecycle) => {
            if lifecycle != LabLifecycle::Analyzed {
                return Err(
                    ApiError::conflict(
                        "MODEL_LAB_TRANSITION_INVALID: statut ANALYZED requis.".to_owned(),
                    ),
                );
            }
            Ok(())
        },
    }
}

/// Refuses a revision that is not the one of the repository any more.
pub fn check_revision(analyzed: &str, current: &str) -> (result: Result<(), ApiError>)
    ensures
        pack::refused(result) == if analyzed@ == current@ {
            None
        } else {
            Some(
                (
                    error::CONFLICT,
                    "MODEL_REVISION_MOVED: la révision analysée "@ + analyzed@
                        + " diffère du commit courant "@ + current@,
                ),
            )
        },
{
    if *analyzed != *current {
        return Err(
            ApiError::conflict(
                text::concat4(
                    "MODEL_REVISION_MOVED: la révision analysée ",
                    analyzed,
                    " diffère du commit courant ",
                    current,
                ),
            ),
        );
    }
    Ok(())
}

/// The store of a model under trial, apart from that of the model.
pub open spec fn trial_store(storage_id: Seq<char>, revision: Seq<char>) -> Seq<char> {
    "lab-"@ + storage_id + "-"@ + if revision.len() <= 12 {
        revision
    } else {
        revision.take(12)
    }
}

/// The store of a model under trial.
pub fn lab_storage_id(storage_id: &str, revision: &str) -> (store: String)
    ensures
        store@ == trial_store(storage_id@, revision@),
{
    if text::chars_of(revision).len() <= 12 {
        text::concat4("lab-", storage_id, "-", revision)
    } else {
        let head = revision.substring_char(0, 12);
        assert(head@ =~= revision@.take(12));
        text::concat4("lab-", storage_id, "-", head)
    }
}

/// Members without those of a name.
pub open spec fn unnamed(members: Seq<(Seq<char>, JsonView)>, key: Seq<char>) -> Seq<
    (Seq<char>, JsonView),
> {
    members.filter(|member: (Seq<char>, JsonView)| member.0 != key)
}

proof fn lemma_found_last(members: Seq<(Seq<char>, JsonView)>, key: Seq<char>, value: JsonView)
    requires
        forall|i: int| 0 <= i < members.len() ==> (#[trigger] members[i]).0 != key,
    ensures
        json::lookup(members.push((key, value)), key) == Some(value),
    decreases members.len(),
{
    let whole = members.push((key, value));
    if members.len() > 0 {
        assert(whole.skip(1) =~= members.skip(1).push((key, value)));
        lemma_found_last(members.skip(1), key, value);
    }
}

/// The members of a candidate with the store that it is tried in.
pub fn name_store(members: Vec<(String, Json)>, store: &str) -> (candidate: Json)
    ensures
        candidate@ == JsonView::Object(
            unnamed(json::members_view(members@), "lab_storage_id"@).push(
                ("lab_storage_id"@, JsonView::Text(store@)),
            ),
        ),
        candidate@.text_member("lab_storage_id"@) == Some(store@),
{
    let ghost all = json::members_view(members@);
    let ghost other = |member: (Seq<char>, JsonView)| member.0 != "lab_storage_id"@;
    let mut kept: Vec<(String, Json)> = Vec::new();
    proof {
        reveal(Seq::filter);
        assert(json::members_view(kept@) =~= all.take(0).filter(other));
    }
    for i in 0..members.len()
        invariant
            all == json::members_view(members@),
            other == |member: (Seq<char>, JsonView)| member.0 != "lab_storage_id"@,
            json::members_view(kept@) == all.take(i as int).filter(other),
    {
        proof {
            reveal(Seq::filter);
            assert(all.take(i + 1).drop_last() =~= all.take(i as int));
            assert(all.take(i + 1).last() == (members@[i as int].0@, members@[i as int].1@));
        }
        if *members[i].0.as_str() != *"lab_storage_id" {
            json::put(&mut kept, members[i].0.as_str(), members[i].1.copy());
        }
    }
    proof {
        assert(all.take(all.len() as int) =~= all);
        let rest = all.filter(other);
        assert forall|i: int| 0 <= i < rest.len() implies (#[trigger] rest[i]).0
            != "lab_storage_id"@ by {
            lookup::lemma_filtered(all, other, i);
        }
        lemma_found_last(rest, "lab_storage_id"@, JsonView::Text(store@));
    }
    json::put(&mut kept, "lab_storage_id", json::text_json(store));
    json::object(kept)
}

/// What is to be done while the installation for a trial is watched.
#[derive(Clone, Copy, Debug, PartialEq, Eq, Structural)]
pub enum TrialWatch {
    /// Record that the model may be tried.
    MarkExperimental,
    /// Go on watching.
    Wait,
    /// Stop watching: the installation did not succeed.
    Stop,
}

/// What is to be done while the installation for a trial is watched. `status` is
/// that of its job, where it is known.
pub fn watch_trial(status: Option<JobStatus>) -> (watch: TrialWatch)
    ensures
        watch == match status {
            Some(JobStatus::Completed) => TrialWatch::MarkExperimental,
            Some(JobStatus::Failed)
            | Some(JobStatus::Cancelled)
            | Some(JobStatus::Interrupted)
            | None => TrialWatch::Stop,
            _ => TrialWatch::Wait,
        },
{
    match status {
        Some(found) => match found {
            JobStatus::Completed => TrialWatch::MarkExperimental,
            JobStatus::Failed | JobStatus::Cancelled | JobStatus::Interrupted => TrialWatch::Stop,
            _ => TrialWatch::Wait,
        },
        None => TrialWatch::Stop,
    }
}

// ---------------------------------------------------------------------------
// Promotion
// ---------------------------------------------------------------------------

/// The pack that a model under trial is to be served with. `based_on` is the pack
/// that the candidate was made from, `family` the family of the candidate, and
/// `active` the family of the version of that pack that is in use.
pub open spec fn promoted_pack(
    based_on: Option<Seq<char>>,
    family: Seq<char>,
    active: Option<Seq<char>>,
) -> Result<Seq<char>, (u16, Seq<char>)> {
    match based_on {
        None => Err(
            (
                error::CONFLICT,
                "MODEL_LAB_PROMOTION_INVALID: aucun ModelPack actif compatible n'est associé."@,
            ),
        ),
        Some(pack_id) => match active {
            None => Err(
                (
                    error::CONFLICT,
                    "MODEL_PACK_NOT_ACTIVE: le ModelPack de validation n'est pas actif."@,
                ),
            ),
            Some(found) => if found != family {
                Err(
                    (
                        error::CONFLICT,
                        "MODEL_PACK_IDENTITY_MISMATCH: famille candidate différente du pack actif."@,
                    ),
                )
            } else {
                Ok(pack_id)
            },
        },
    }
}

/// The pack that a model under trial is to be served with.
pub fn choose_promoted_pack(based_on: Option<&str>, family: &str, active: Option<&str>) -> (result:
    Result<String, ApiError>)
    ensures
        text_outcome(result) == promoted_pack(
            text::opt_str(based_on),
            family@,
            text::opt_str(active),
        ),
{
    match based_on {
        None => Err(
            ApiError::conflict(
                "MODEL_LAB_PROMOTION_INVALID: aucun ModelPack actif compatible n'est associé.".to_owned(),
            ),
        ),
        Some(pack_id) => match active {
            None => Err(
                ApiError::conflict(
                    "MODEL_PACK_NOT_ACTIVE: le ModelPack de validation n'est pas actif.".to_owned(),
                ),
            ),
            Some(found) => {
                if *found != *family {
                    return Err(
                        ApiError::conflict(
                            "MODEL_PACK_IDENTITY_MISMATCH: famille candidate différente du pack actif.".to_owned(),
                        ),
                    );
                }
                Ok(pack_id.to_owned())
            },
        },
    }
}

/// Why the worker cannot be asked to promote a model, if it cannot: there is no
/// worker, the model is not installed, or nothing is known that it can do.
pub open spec fn promotion_refusal(worker: bool, installed: bool, capable: bool) -> Option<
    (u16, Seq<char>),
> {
    if !worker {
        Some((error::SERVICE_UNAVAILABLE, "WORKER_UNAVAILABLE: worker GPU absent"@))
    } else if !installed {
        Some((error::CONFLICT, "MODEL_LAB_INSTALL_REQUIRED: snapshot Lab absent."@))
    } else if !capable {
        Some((error::CONFLICT, "MODEL_INCOMPATIBLE: capability analysée absente."@))
    } else {
        None
    }
}

/// Refuses a promotion that the worker cannot be asked for.
pub fn admit_promotion(worker: bool, installed: bool, capable: bool) -> (result: Result<
    (),
    ApiError,
>)
    ensures
        pack::refused(result) == promotion_refusal(worker, installed, capable),
{
    if !worker {
        return Err(ApiError::unavailable("WORKER_UNAVAILABLE: worker GPU absent".to_owned()));
    }
    if !installed {
        return Err(
            ApiError::conflict("MODEL_LAB_INSTALL_REQUIRED: snapshot Lab absent.".to_owned()),
        );
    }
    if !capable {
        return Err(
            ApiError::conflict("MODEL_INCOMPATIBLE: capability analysée absente.".to_owned()),
        );
    }
    Ok(())
}

/// Whether the worker attests a promoted model exactly: installed in its store, at
/// its revision and with its pack, valid and allowed to be loaded, but neither
/// loaded nor under trial nor allowed to generate.
pub open spec fn attested(
    status: ModelStatusView,
    storage_id: Seq<char>,
    revision: Seq<char>,
    pack_id: Seq<char>,
) -> bool {
    &&& status.model_id == storage_id
    &&& status.revision == Some(revision)
    &&& status.model_pack_id == Some(pack_id)
    &&& status.state == "INSTALLED"@
    &&& status.installed && !status.ready && !status.loaded
    &&& status.weights_valid && status.runtime_compatible
    &&& !status.experimental && status.load_allowed && !status.generation_allowed
}

/// What is said where the worker does not attest a promoted model.
pub open spec fn attestation_refusal() -> (u16, Seq<char>) {
    (
        error::CONFLICT,
        "MODEL_LAB_PREFLIGHT_FAILED: validation conservée, mais le worker n'atteste pas le contrat INSTALLED/load_allowed exact."@,
    )
}

/// Refuses a promotion that the worker does not attest.
pub fn check_attestation(
    status: &WorkerModelStatus,
    storage_id: &str,
    revision: &str,
    pack_id: &str,
) -> (result: Result<(), ApiError>)
    ensures
        pack::refused(result) == if attested(status@, storage_id@, revision@, pack_id@) {
            None
        } else {
            Some(attestation_refusal())
        },
{
    let named = *status.model_id.as_str() == *storage_id && text::opt_is(
        &status.revision,
        revision,
    ) && text::opt_is(&status.model_pack_id, pack_id);
    let standing = *status.state.as_str() == *"INSTALLED" && status.installed && !status.ready
        && !status.loaded;
    let allowed = status.weights_valid && status.runtime_compatible && !status.experimental
        && status.load_allowed && !status.generation_allowed;
    if named && standing && allowed {
        Ok(())
    } else {
        Err(
            ApiError::conflict(
                "MODEL_LAB_PREFLIGHT_FAILED: validation conservée, mais le worker n'atteste pas le contrat INSTALLED/load_allowed exact.".to_owned(),
            ),
        )
    }
}

// ---------------------------------------------------------------------------
// Versions of packs
// ---------------------------------------------------------------------------

/// The version of a pack that is asked for.
pub fn required_version(version: Option<&str>) -> (result: Result<String, ApiError>)
    ensures
        text_outcome(result) == match version {
            Some(given) => if text::trimmed(given@).len() > 0 {
                Ok(text::trimmed(given@))
            } else {
                Err((error::BAD_REQUEST, "version est obligatoire."@))
            },
            None => Err((error::BAD_REQUEST, "version est obligatoire."@)),
        },
{
    match version {
        Some(given) => {
            let name = text::trim(given);
            if text::chars_of(name).len() > 0 {
                return Ok(name.to_owned());
            }
        },
        None => {},
    }
    Err(ApiError::bad_request("version est obligatoire.".to_owned()))
}

// ---------------------------------------------------------------------------
// Laws
// ---------------------------------------------------------------------------

/// A model under trial is served only where the worker has its exact revision and
/// pack, and attests that it is not loaded and may not generate yet.
pub proof fn law_promotions_are_exact(
    status: ModelStatusView,
    storage_id: Seq<char>,
    revision: Seq<char>,
    pack_id: Seq<char>,
    other_revision: Seq<char>,
    other_pack: Seq<char>,
)
    requires
        attested(status, storage_id, revision, pack_id),
        attested(status, storage_id, other_revision, other_pack),
    ensures
        revision == other_revision,
        pack_id == other_pack,
        !status.generation_allowed && !status.loaded,
{
}

/// What passes as a revision for a trial passes as one for an analysis: both ask
/// for a commit.
pub proof fn law_trials_are_pinned(model_id: Seq<char>, revision: Seq<char>)
    ensures
        trial_refusal(model_id, revision) is None ==> analysis_refusal(
            false,
            text::trimmed(revision),
        ) is None,
{
}

/// The store of a model under trial is one that an installation accepts.
pub proof fn law_trial_stores_are_accepted(storage_id: Seq<char>, revision: Seq<char>)
    requires
        commit(revision),
        forall|i: int| 0 <= i < storage_id.len() ==> install::store_char(#[trigger] storage_id[i]),
    ensures
        install::lab_store(trial_store(storage_id, revision)),
{
    reveal_strlit("lab-");
    reveal_strlit("-");
    let store = trial_store(storage_id, revision);
    let head = if revision.len() <= 12 {
        revision
    } else {
        revision.take(12)
    };
    assert(store =~= "lab-"@ + storage_id + "-"@ + head);
    assert(store.take(4) =~= "lab-"@);
    assert forall|i: int| 0 <= i < store.len() implies install::store_char(#[trigger] store[i]) by {
        if i < 4 {
            assert(store[i] == "lab-"@[i]);
        } else if i < 4 + storage_id.len() {
            assert(store[i] == storage_id[i - 4]);
        } else if i == 4 + storage_id.len() {
            assert(store[i] == '-');
        } else {
            let k = i - 5 - storage_id.len();
            assert(store[i] == head[k]);
            assert(head[k] == revision[k]);
            assert(text::hex_digit(revision[k]));
        }
    }
}

/// A revision is pinned where it is the digest of a commit: 40 or 64 hexadecimal
/// digits.
pub proof fn law_commits_are_digests(revision: Seq<char>)
    ensures
        commit(revision) ==> (text::utf8_len(revision) == 40 || text::utf8_len(revision) == 64)
            && forall|i: int|
            0 <= i < revision.len() ==> ('0' <= #[trigger] revision[i] <= '9' || 'a' <= revision[i]
                <= 'f' || 'A' <= revision[i] <= 'F'),
        !commit(revision) ==> (analysis_refusal(false, revision) matches Some(refusal) && refusal.0
            == 409),
        analysis_refusal(true, revision) is Some,
        commit(revision) ==> analysis_refusal(false, revision) is None,
{
    if commit(revision) {
        assert forall|i: int| 0 <= i < revision.len() implies ('0' <= #[trigger] revision[i] <= '9'
            || 'a' <= revision[i] <= 'f' || 'A' <= revision[i] <= 'F') by {
            assert(text::hex_digit(revision[i]));
        }
    }
}

/// A trial is taken on for a model and a pinned revision, after its analysis and
/// only once.
pub proof fn law_trials_follow_the_analysis(
    model_id: Seq<char>,
    revision: Seq<char>,
    found: Option<LabLifecycle>,
)
    ensures
        trial_refusal(model_id, revision) is None <==> text::trimmed(model_id).len() > 0
            && text::trimmed(revision).len() > 0 && commit(text::trimmed(revision)),
        trial_refusal(model_id, revision) matches Some(refusal) ==> refusal.0 == 400,
        lifecycle_refusal(found) is None <==> found == Some(LabLifecycle::Analyzed),
        lifecycle_refusal(found) matches Some(refusal) ==> refusal.0 == 409,
{
}

/// The store of a trial is its own: it names the model and the first twelve digits
/// of the revision.
pub proof fn law_trials_have_their_own_store(storage_id: Seq<char>, revision: Seq<char>)
    ensures
        revision.len() >= 12 ==> trial_store(storage_id, revision) == "lab-"@ + storage_id + "-"@
            + revision.take(12),
        revision.len() < 12 ==> trial_store(storage_id, revision) == "lab-"@ + storage_id + "-"@
            + revision,
{
    if revision.len() == 12 {
        assert(revision.take(12) =~= revision);
    }
}

/// A repository is watched where one of its revisions was validated or is served.
pub proof fn law_validated_models_are_watched(
    items: Seq<(Seq<char>, LabLifecycle)>,
    repository: Seq<char>,
    i: int,
)
    requires
        0 <= i < items.len(),
        items[i].0 == repository,
    ensures
        items[i].1 == LabLifecycle::Validated || items[i].1 == LabLifecycle::Ready ==> watched(
            items,
            repository,
        ),
        items.len() == 1 && (items[i].1 == LabLifecycle::Analyzed || items[i].1
            == LabLifecycle::Experimental) ==> !watched(items, repository),
{
}

/// A model is promoted into the pack that it was analysed with, where that is
/// active and of its family.
pub proof fn law_promotions_stay_in_the_family(
    based_on: Option<Seq<char>>,
    family: Seq<char>,
    active: Option<Seq<char>>,
)
    ensures
        promoted_pack(based_on, family, active) matches Ok(pack) ==> based_on == Some(pack)
            && active == Some(family),
        based_on is Some && active is Some && active->0 == family ==> promoted_pack(
            based_on,
            family,
            active,
        ) is Ok,
        promoted_pack(based_on, family, active) matches Err(refusal) ==> refusal.0 == 409,
{
}

/// A promotion needs the worker, the snapshot of the trial, and a capability.
pub proof fn law_promotions_are_admitted(worker: bool, installed: bool, capable: bool)
    ensures
        promotion_refusal(worker, installed, capable) is None <==> worker && installed && capable,
        !worker ==> (promotion_refusal(worker, installed, capable) matches Some(refusal)
            && refusal.0 == 503),
{
}

/// A model is attested for its promotion only where the worker holds exactly this
/// revision under this pack, valid, not yet loaded and not yet in use.
pub proof fn law_attestations_are_complete(
    status: ModelStatusView,
    storage_id: Seq<char>,
    revision: Seq<char>,
    pack_id: Seq<char>,
)
    ensures
        attested(status, storage_id, revision, pack_id) ==> status.model_id == storage_id
            && status.revision == Some(revision) && status.model_pack_id == Some(pack_id)
            && status.state == "INSTALLED"@ && status.installed && status.weights_valid
            && status.runtime_compatible && status.load_allowed && !status.ready && !status.loaded
            && !status.experimental && !status.generation_allowed,
        LabLifecycle::Analyzed.name() == "ANALYZED"@ && LabLifecycle::Experimental.name()
            == "EXPERIMENTAL"@ && LabLifecycle::Validated.name() == "VALIDATED"@
            && LabLifecycle::Ready.name() == "READY"@,
        attestation_refusal().0 == 409,
{
}

/// Every digest of 40 or 64 hexadecimal digits pins a revision.
pub proof fn law_digests_are_commits(revision: Seq<char>)
    requires
        text::utf8_len(revision) == 40 || text::utf8_len(revision) == 64,
        forall|i: int|
            0 <= i < revision.len() ==> ('0' <= #[trigger] revision[i] <= '9' || 'a' <= revision[i]
                <= 'f' || 'A' <= revision[i] <= 'F'),
    ensures
        commit(revision),
{
}

/// A candidate that is given its store keeps all its other members.
pub proof fn law_candidates_keep_their_members(
    members: Seq<(Seq<char>, JsonView)>,
    key: Seq<char>,
    i: int,
)
    requires
        0 <= i < members.len(),
    ensures
        members[i].0 != key ==> unnamed(members, key).contains(members[i]),
{
    broadcast use vstd::seq_lib::group_filter_ensures;

    assert(members.contains(members[i]));
}

} // verus!
