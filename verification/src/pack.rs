//! Packs: the recipes by which models are run, and the contract that a
//! generation is queued with.
use crate::capability::ModelCapability;
use crate::error;
use crate::error::ApiError;
use crate::json;
use crate::json::{Json, JsonView};
use crate::text;
use vstd::prelude::*;
use vstd::string::*;

verus! {

/// What the catalogue says of a model.
#[derive(Clone, Copy, Debug, PartialEq, Eq, Structural)]
pub enum CatalogModelStatus {
    Ready,
    Experimental,
    Unsupported,
}

impl CatalogModelStatus {
    /// The name of the value in documents.
    pub open spec fn name(self) -> Seq<char> {
        match self {
            CatalogModelStatus::Ready => "READY"@,
            CatalogModelStatus::Experimental => "EXPERIMENTAL"@,
            CatalogModelStatus::Unsupported => "UNSUPPORTED"@,
        }
    }

    /// The name of the value in documents.
    pub fn api_name(&self) -> (name: &'static str)
        ensures
            name@ == self.name(),
    {
        match self {
            CatalogModelStatus::Ready => "READY",
            CatalogModelStatus::Experimental => "EXPERIMENTAL",
            CatalogModelStatus::Unsupported => "UNSUPPORTED",
        }
    }
}

/// A recipe by which models of some architectures are run.
#[derive(Debug)]
pub struct ModelPack {
    pub id: String,
    pub status: CatalogModelStatus,
    pub engine_name: String,
    /// The workflow for each capability, each capability once.
    pub workflow_by_capability: Vec<(String, String)>,
    pub inputs: Json,
    pub presets: Json,
}

/// What [`ModelPack`] says.
#[verifier::ext_equal]
pub struct PackView {
    pub id: Seq<char>,
    pub status: CatalogModelStatus,
    pub engine_name: Seq<char>,
    pub workflow_by_capability: Seq<(Seq<char>, Seq<char>)>,
    pub inputs: JsonView,
    pub presets: JsonView,
}

impl View for ModelPack {
    type V = PackView;

    open spec fn view(&self) -> PackView {
        PackView {
            id: self.id@,
            status: self.status,
            engine_name: self.engine_name@,
            workflow_by_capability: pairs(self.workflow_by_capability@),
            inputs: self.inputs@,
            presets: self.presets@,
        }
    }
}

impl ModelPack {
    /// A copy of the value.
    pub fn copy(&self) -> (copy: Self)
        ensures
            copy@ == self@,
    {
        ModelPack {
            id: self.id.clone(),
            status: self.status,
            engine_name: self.engine_name.clone(),
            workflow_by_capability: copy_pairs(&self.workflow_by_capability),
            inputs: self.inputs.copy(),
            presets: self.presets.copy(),
        }
    }
}

/// What a list of pairs says.
pub open spec fn pairs(list: Seq<(String, String)>) -> Seq<(Seq<char>, Seq<char>)> {
    Seq::new(list.len(), |i: int| (list[i].0@, list[i].1@))
}

fn copy_pairs(list: &Vec<(String, String)>) -> (copy: Vec<(String, String)>)
    ensures
        pairs(copy@) == pairs(list@),
{
    let mut copy: Vec<(String, String)> = Vec::new();
    for i in 0..list.len()
        invariant
            copy@.len() == i,
            forall|j: int|
                0 <= j < i ==> (#[trigger] copy@[j]).0@ == list@[j].0@ && copy@[j].1@
                    == list@[j].1@,
    {
        copy.push((list[i].0.clone(), list[i].1.clone()));
    }
    assert(pairs(copy@) =~= pairs(list@));
    copy
}

/// The workflow that a list of pairs gives for a capability.
pub open spec fn workflow_in(list: Seq<(Seq<char>, Seq<char>)>, capability: Seq<char>) -> Option<
    Seq<char>,
>
    decreases list.len(),
{
    if list.len() == 0 {
        None
    } else if list[0].0 == capability {
        Some(list[0].1)
    } else {
        workflow_in(list.drop_first(), capability)
    }
}

impl ModelPack {
    /// The workflow for a capability, by its name.
    pub fn workflow_for(&self, capability: &str) -> (workflow: Option<&str>)
        ensures
            text::opt_str(workflow) == workflow_in(self@.workflow_by_capability, capability@),
    {
        let ghost all = self@.workflow_by_capability;
        assert(all.skip(0) =~= all);
        for i in 0..self.workflow_by_capability.len()
            invariant
                all == self@.workflow_by_capability,
                all.len() == self.workflow_by_capability@.len(),
                workflow_in(all, capability@) == workflow_in(all.skip(i as int), capability@),
        {
            assert(all.skip(i as int)[0] == all[i as int]);
            assert(all.skip(i as int).drop_first() =~= all.skip(i + 1));
            if *self.workflow_by_capability[i].0.as_str() == *capability {
                return Some(self.workflow_by_capability[i].1.as_str());
            }
        }
        assert(all.skip(all.len() as int).len() == 0);
        None
    }

    /// The names of the parameters that the pack lets a request set.
    pub fn advanced_parameters(&self) -> (names: Vec<String>)
        ensures
            text::texts(names@) == json::texts_of(self@.inputs.member("advanced_parameters"@)),
    {
        json::collect_texts(self.inputs.get("advanced_parameters"))
    }
}

/// The first workflow that a pack has for one of some capabilities, in their order.
pub open spec fn first_workflow(pack: PackView, capabilities: Seq<Seq<char>>) -> Option<Seq<char>>
    decreases capabilities.len(),
{
    if capabilities.len() == 0 {
        None
    } else {
        match workflow_in(pack.workflow_by_capability, capabilities[0]) {
            Some(workflow) => Some(workflow),
            None => first_workflow(pack, capabilities.drop_first()),
        }
    }
}

/// The first workflow that a pack has for one of some capabilities, in their order.
pub fn find_workflow(pack: &ModelPack, capabilities: &Vec<String>) -> (workflow: Option<String>)
    ensures
        text::opt(workflow) == first_workflow(pack@, text::texts(capabilities@)),
{
    let ghost all = text::texts(capabilities@);
    assert(all.skip(0) =~= all);
    for i in 0..capabilities.len()
        invariant
            all == text::texts(capabilities@),
            first_workflow(pack@, all) == first_workflow(pack@, all.skip(i as int)),
    {
        assert(all.skip(i as int)[0] == all[i as int]);
        assert(all.skip(i as int).drop_first() =~= all.skip(i + 1));
        match pack.workflow_for(capabilities[i].as_str()) {
            Some(found) => {
                return Some(found.to_owned());
            },
            None => {},
        }
    }
    assert(all.skip(all.len() as int).len() == 0);
    None
}

/// The pack of a list that has an identifier.
pub open spec fn pack_named(packs: Seq<ModelPack>, id: Seq<char>) -> Option<PackView>
    decreases packs.len(),
{
    if packs.len() == 0 {
        None
    } else if packs[0]@.id == id {
        Some(packs[0]@)
    } else {
        pack_named(packs.drop_first(), id)
    }
}

/// What an optional pack says.
pub open spec fn opt_pack(pack: Option<&ModelPack>) -> Option<PackView> {
    match pack {
        Some(found) => Some(found@),
        None => None,
    }
}

/// The first pack of a list that has an identifier.
pub fn find_pack<'a>(packs: &'a Vec<ModelPack>, id: &str) -> (pack: Option<&'a ModelPack>)
    ensures
        opt_pack(pack) == pack_named(packs@, id@),
{
    let ghost all = packs@;
    assert(all.skip(0) =~= all);
    for i in 0..packs.len()
        invariant
            all == packs@,
            pack_named(all, id@) == pack_named(all.skip(i as int), id@),
    {
        assert(all.skip(i as int)[0] == all[i as int]);
        assert(all.skip(i as int).drop_first() =~= all.skip(i + 1));
        if *packs[i].id.as_str() == *id {
            return Some(&packs[i]);
        }
    }
    assert(all.skip(all.len() as int).len() == 0);
    None
}

/// What the catalogue says of a model: never more than "unsupported" of one
/// without a pack. `grade` says it of a model with one.
pub fn public_model_status<G: Fn(CatalogModelStatus, bool, bool) -> CatalogModelStatus>(
    pack_status: Option<CatalogModelStatus>,
    installed: bool,
    runtime_ready: bool,
    grade: &G,
) -> (status: CatalogModelStatus)
    requires
        forall|known: CatalogModelStatus| #[trigger]
            grade.requires((known, installed, runtime_ready)),
    ensures
        match pack_status {
            Some(known) => grade.ensures((known, installed, runtime_ready), status),
            None => status == CatalogModelStatus::Unsupported,
        },
{
    match pack_status {
        Some(known) => grade(known, installed, runtime_ready),
        None => CatalogModelStatus::Unsupported,
    }
}

// ---------------------------------------------------------------------------
// The contract of a generation
// ---------------------------------------------------------------------------

/// With what a generation is run.
#[derive(Debug)]
pub struct GenerationRuntimeContract {
    pub model_pack_id: Option<String>,
    pub engine: String,
    pub workflow: Option<String>,
}

/// With what a generation is run.
#[verifier::ext_equal]
pub struct ContractView {
    pub model_pack_id: Option<Seq<char>>,
    pub engine: Seq<char>,
    pub workflow: Option<Seq<char>>,
}

impl View for GenerationRuntimeContract {
    type V = ContractView;

    open spec fn view(&self) -> ContractView {
        ContractView {
            model_pack_id: text::opt(self.model_pack_id),
            engine: self.engine@,
            workflow: text::opt(self.workflow),
        }
    }
}

/// Whether a pack may run generations.
pub open spec fn executable(pack: PackView) -> bool {
    pack.status == CatalogModelStatus::Ready || pack.status == CatalogModelStatus::Experimental
}

/// The contract for a model: its own engine for a local one, else what its pack
/// says, or why no pack can serve.
pub open spec fn runtime_contract(
    model_id: Seq<char>,
    local: bool,
    runtime_name: Option<Seq<char>>,
    pack: Option<PackView>,
    capability: Seq<char>,
) -> Result<ContractView, (u16, Seq<char>)> {
    if local {
        Ok(
            ContractView {
                model_pack_id: None,
                engine: match runtime_name {
                    Some(name) => name,
                    None => "procedural"@,
                },
                workflow: None,
            },
        )
    } else {
        match pack {
            None => Err(
                (
                    error::CONFLICT,
                    "MODEL_PACK_MISSING: aucun pack Rust pour "@ + model_id + " et "@ + capability,
                ),
            ),
            Some(known) => if !executable(known) {
                Err(
                    (
                        error::CONFLICT,
                        "MODEL_INCOMPATIBLE: le pack "@ + known.id + " n'est pas exécutable"@,
                    ),
                )
            } else {
                match workflow_in(known.workflow_by_capability, capability) {
                    Some(workflow) if text::trimmed(workflow).len() > 0 => Ok(
                        ContractView {
                            model_pack_id: Some(known.id),
                            engine: known.engine_name,
                            workflow: Some(workflow),
                        },
                    ),
                    _ => Err(
                        (
                            error::CONFLICT,
                            "WORKFLOW_INVALID: le pack "@ + known.id + " ne déclare pas "@
                                + capability,
                        ),
                    ),
                }
            },
        }
    }
}

/// What a contract, or the lack of one, says.
pub open spec fn contract_says(result: Result<GenerationRuntimeContract, ApiError>) -> Result<
    ContractView,
    (u16, Seq<char>),
> {
    match result {
        Ok(contract) => Ok(contract@),
        Err(refusal) => Err(error::says(refusal)),
    }
}

/// Decides with what a generation is run. `pack` is the pack that the registry
/// chooses for the architecture, the pipeline and the capability.
pub fn resolve_generation_runtime_contract(
    model_id: &str,
    local: bool,
    runtime_name: &Option<String>,
    pack: Option<&ModelPack>,
    capability: &ModelCapability,
) -> (result: Result<GenerationRuntimeContract, ApiError>)
    ensures
        contract_says(result) == runtime_contract(
            model_id@,
            local,
            text::opt(*runtime_name),
            opt_pack(pack),
            capability.name(),
        ),
{
    if local {
        let engine = match runtime_name {
            Some(name) => name.clone(),
            None => "procedural".to_owned(),
        };
        return Ok(GenerationRuntimeContract { model_pack_id: None, engine, workflow: None });
    }
    let name = capability.api_name();
    match pack {
        None => Err(
            ApiError::conflict(
                text::concat4(
                    "MODEL_PACK_MISSING: aucun pack Rust pour ",
                    model_id,
                    " et ",
                    name,
                ),
            ),
        ),
        Some(known) => {
            if !matches!(
                known.status,
                CatalogModelStatus::Ready | CatalogModelStatus::Experimental
            ) {
                return Err(
                    ApiError::conflict(
                        text::concat3(
                            "MODEL_INCOMPATIBLE: le pack ",
                            known.id.as_str(),
                            " n'est pas exécutable",
                        ),
                    ),
                );
            }
            match known.workflow_for(name) {
                Some(workflow) => {
                    if text::chars_of(text::trim(workflow)).len() > 0 {
                        return Ok(
                            GenerationRuntimeContract {
                                model_pack_id: Some(known.id.clone()),
                                engine: known.engine_name.clone(),
                                workflow: Some(workflow.to_owned()),
                            },
                        );
                    }
                },
                None => {},
            }
            Err(
                ApiError::conflict(
                    text::concat4(
                        "WORKFLOW_INVALID: le pack ",
                        known.id.as_str(),
                        " ne déclare pas ",
                        name,
                    ),
                ),
            )
        },
    }
}

// ---------------------------------------------------------------------------
// Presets and parameters
// ---------------------------------------------------------------------------

/// Whether a text is the name of a preset.
pub open spec fn preset_name(name: Seq<char>) -> bool {
    name == "FAST"@ || name == "BALANCED"@ || name == "QUALITY"@
}

/// The preset that a quality stands for.
pub open spec fn preset_of_quality(quality: Seq<char>) -> Option<Seq<char>> {
    let name = text::upper(quality);
    if name == "FAST"@ {
        Some("FAST"@)
    } else if name == "BALANCED"@ {
        Some("BALANCED"@)
    } else if name == "QUALITY"@ || name == "NATIVE"@ {
        Some("QUALITY"@)
    } else {
        None
    }
}

/// The preset that a request asks for, in capitals, by name or by its quality.
pub open spec fn wanted_preset(preset: Option<Seq<char>>, quality: Option<Seq<char>>) -> Option<
    Seq<char>,
> {
    match preset {
        Some(name) => Some(text::upper(name)),
        None => match quality {
            Some(value) => preset_of_quality(value),
            None => None,
        },
    }
}

/// What is said of a preset that is none.
pub open spec fn preset_refusal() -> (u16, Seq<char>) {
    (error::BAD_REQUEST, "Le preset doit être FAST, BALANCED ou QUALITY."@)
}

/// The preset that a request asks for, or why there is none of that name.
pub open spec fn preset_choice(preset: Option<Seq<char>>, quality: Option<Seq<char>>) -> Result<
    Option<Seq<char>>,
    (u16, Seq<char>),
> {
    match wanted_preset(preset, quality) {
        Some(name) => if preset_name(name) {
            Ok(Some(name))
        } else {
            Err(preset_refusal())
        },
        None => Ok(None),
    }
}

/// Reads the preset of a request: by name, or by an older quality that has the
/// name of one.
pub fn normalize_generation_preset(preset: &Option<String>, legacy_quality: &Option<String>) -> (result:
    Result<Option<String>, ApiError>)
    ensures
        (match result {
            Ok(chosen) => Ok(text::opt(chosen)),
            Err(refusal) => Err(error::says(refusal)),
        }) == preset_choice(text::opt(*preset), text::opt(*legacy_quality)),
{
    let chosen: Option<String> = match preset {
        Some(name) => Some(text::ascii_uppercase(name.as_str())),
        None => match legacy_quality {
            Some(quality) => {
                let name = text::ascii_uppercase(quality.as_str());
                if *name.as_str() == *"FAST" {
                    Some("FAST".to_owned())
                } else if *name.as_str() == *"BALANCED" {
                    Some("BALANCED".to_owned())
                } else if *name.as_str() == *"QUALITY" || *name.as_str() == *"NATIVE" {
                    Some("QUALITY".to_owned())
                } else {
                    None
                }
            },
            None => None,
        },
    };
    match chosen {
        Some(name) => {
            if *name.as_str() == *"FAST" || *name.as_str() == *"BALANCED" || *name.as_str()
                == *"QUALITY" {
                Ok(Some(name))
            } else {
                Err(
                    ApiError::bad_request(
                        "Le preset doit être FAST, BALANCED ou QUALITY.".to_owned(),
                    ),
                )
            }
        },
        None => Ok(None),
    }
}

/// The keys of an object that are not among the declared names, in order.
pub open spec fn undeclared(
    members: Seq<(Seq<char>, JsonView)>,
    declared: Seq<Seq<char>>,
) -> Seq<Seq<char>>
    decreases members.len(),
{
    if members.len() == 0 {
        Seq::empty()
    } else {
        let rest = undeclared(members.drop_last(), declared);
        if declared.contains(members.last().0) {
            rest
        } else {
            rest.push(members.last().0)
        }
    }
}

/// Why parameters are refused: they must be an object, and each of them declared.
pub open spec fn parameter_refusal(declared: Seq<Seq<char>>, requested: JsonView) -> Option<
    (u16, Seq<char>),
> {
    match requested {
        JsonView::Object(members) => if undeclared(members, declared).len() == 0 {
            None
        } else {
            Some(
                (
                    error::BAD_REQUEST,
                    "MODEL_PARAMETER_UNSUPPORTED: "@ + text::joined(
                        undeclared(members, declared),
                        ", "@,
                    ),
                ),
            )
        },
        _ => Some((error::BAD_REQUEST, "advanced_parameters doit être un objet JSON."@)),
    }
}

/// Whether a call was refused, and how.
pub open spec fn refused(result: Result<(), ApiError>) -> Option<(u16, Seq<char>)> {
    match result {
        Ok(_) => None,
        Err(refusal) => Some(error::says(refusal)),
    }
}

/// Refuses parameters that the model does not declare.
pub fn validate_advanced_parameters(declared: &Vec<String>, requested: &Json) -> (result: Result<
    (),
    ApiError,
>)
    ensures
        refused(result) == parameter_refusal(text::texts(declared@), requested@),
{
    match requested {
        Json::Object(members) => {
            proof {
                json::lemma_parts(*requested);
            }
            let ghost all = json::members_view(members@);
            let ghost names = text::texts(declared@);
            let mut unknown: Vec<String> = Vec::new();
            assert(all.take(0) =~= Seq::<(Seq<char>, JsonView)>::empty());
            for i in 0..members.len()
                invariant
                    all == json::members_view(members@),
                    names == text::texts(declared@),
                    text::texts(unknown@) =~= undeclared(all.take(i as int), names),
            {
                assert(all.take(i + 1).drop_last() =~= all.take(i as int));
                let ghost before = unknown@;
                if !text::any_is(declared, members[i].0.as_str()) {
                    unknown.push(members[i].0.clone());
                    assert(text::texts(unknown@) =~= text::texts(before).push(
                        members@[i as int].0@,
                    ));
                }
            }
            assert(all.take(all.len() as int) =~= all);
            if unknown.len() == 0 {
                assert(text::texts(unknown@).len() == 0);
                Ok(())
            } else {
                assert(text::texts(unknown@).len() > 0);
                Err(
                    ApiError::bad_request(
                        text::concat(
                            "MODEL_PARAMETER_UNSUPPORTED: ",
                            text::join(&unknown, ", ").as_str(),
                        ),
                    ),
                )
            }
        },
        _ => {
            proof {
                json::lemma_shape(*requested);
            }
            Err(
                ApiError::bad_request("advanced_parameters doit être un objet JSON.".to_owned()),
            )
        },
    }
}

// ---------------------------------------------------------------------------
// Laws
// ---------------------------------------------------------------------------

/// A generation is queued with a pack and a workflow exactly where its model is
/// not a local one.
pub proof fn law_contract_names_its_pack(
    model_id: Seq<char>,
    local: bool,
    runtime_name: Option<Seq<char>>,
    pack: Option<PackView>,
    capability: Seq<char>,
)
    requires
        runtime_contract(model_id, local, runtime_name, pack, capability) is Ok,
    ensures
        ({
            let contract = runtime_contract(model_id, local, runtime_name, pack, capability)->Ok_0;
            &&& contract.model_pack_id is Some <==> !local
            &&& contract.workflow is Some <==> !local
            &&& !local ==> pack is Some && executable(pack->0) && contract.model_pack_id == Some(
                pack->0.id,
            )
        }),
{
}

/// A preset that is read is one of the three.
pub proof fn law_presets_are_known(preset: Option<Seq<char>>, quality: Option<Seq<char>>)
    ensures
        preset_choice(preset, quality) matches Ok(Some(name)) ==> preset_name(name),
{
}

/// The contract of a generation is that of its pack: the engine of the pack, and
/// the workflow that it declares for the capability. It is refused without a pack,
/// where the pack cannot be run, and where it declares no workflow.
pub proof fn law_contracts_are_those_of_the_pack(
    model_id: Seq<char>,
    local: bool,
    runtime_name: Option<Seq<char>>,
    pack: Option<PackView>,
    capability: Seq<char>,
)
    ensures
        ({
            let outcome = runtime_contract(model_id, local, runtime_name, pack, capability);
            &&& local ==> (outcome matches Ok(contract) && contract.model_pack_id is None
                && contract.workflow is None && (runtime_name matches Some(name) ==> contract.engine
                == name) && (runtime_name is None ==> contract.engine == "procedural"@))
            &&& !local ==> (outcome matches Ok(contract) ==> {
                &&& pack matches Some(known) && contract.model_pack_id == Some(known.id)
                    && contract.engine == known.engine_name && known.status
                    != CatalogModelStatus::Unsupported && contract.workflow == workflow_in(
                    known.workflow_by_capability,
                    capability,
                ) && contract.workflow is Some
            })
            &&& !local && pack is None ==> outcome is Err
            &&& !local && pack is Some && pack->0.status == CatalogModelStatus::Unsupported
                ==> outcome is Err
            &&& !local && pack is Some && pack->0.status != CatalogModelStatus::Unsupported
                && workflow_in(pack->0.workflow_by_capability, capability) is Some && text::trimmed(
                workflow_in(pack->0.workflow_by_capability, capability)->0,
            ).len() > 0 ==> outcome is Ok
            &&& outcome matches Err(refusal) ==> refusal.0 == 409
        }),
{
}

/// The workflow of a capability is the first that is declared for it.
pub proof fn law_workflows_are_declared(
    list: Seq<(Seq<char>, Seq<char>)>,
    capability: Seq<char>,
    at: int,
)
    ensures
        workflow_in(list, capability) matches Some(workflow) ==> list.contains(
            (capability, workflow),
        ),
        0 <= at < list.len() && list[at].0 == capability ==> workflow_in(list, capability) is Some,
        0 <= at < list.len() && list[at].0 == capability && (forall|i: int|
            0 <= i < at ==> (#[trigger] list[i]).0 != capability) ==> workflow_in(list, capability)
            == Some(list[at].1),
    decreases list.len(),
{
    if list.len() > 0 {
        let rest = list.drop_first();
        law_workflows_are_declared(rest, capability, at - 1);
        assert forall|i: int| 0 <= i < rest.len() implies rest[i] == list[i + 1] by {}
        if list[0].0 == capability {
            assert(list[0] == (capability, list[0].1));
        } else if workflow_in(list, capability) is Some {
            let found = (capability, workflow_in(list, capability)->0);
            let i = choose|i: int| 0 <= i < rest.len() && rest[i] == found;
            assert(list[i + 1] == found);
        }
        if 0 < at < list.len() && (forall|i: int|
            0 <= i < at ==> (#[trigger] list[i]).0 != capability) {
            assert(list[0].0 != capability);
            assert forall|i: int| 0 <= i < at - 1 implies (#[trigger] rest[i]).0 != capability by {
                assert(list[i + 1].0 != capability);
            }
        }
    }
}

/// A pack is found by its name, and only where there is one of that name.
pub proof fn law_packs_are_found_by_name(packs: Seq<ModelPack>, id: Seq<char>, at: int)
    ensures
        pack_named(packs, id) matches Some(found) ==> found.id == id,
        0 <= at < packs.len() && packs[at]@.id == id ==> pack_named(packs, id) is Some,
    decreases packs.len(),
{
    if packs.len() > 0 {
        law_packs_are_found_by_name(packs.drop_first(), id, at - 1);
        if 0 < at < packs.len() {
            assert(packs.drop_first()[at - 1] == packs[at]);
        }
    }
}

/// The preset is the one that was asked for, whatever its case, and refused where
/// it is unknown; without one a quality that is the name of a preset stands for it.
pub proof fn law_presets_are_those_asked_for(
    preset: Option<Seq<char>>,
    quality: Option<Seq<char>>,
)
    ensures
        preset matches Some(name) ==> {
            let shouted = text::upper(name);
            &&& shouted == "FAST"@ || shouted == "BALANCED"@ || shouted == "QUALITY"@
                ==> preset_choice(preset, quality) == Ok::<Option<Seq<char>>, (u16, Seq<char>)>(
                Some(shouted),
            )
            &&& shouted != "FAST"@ && shouted != "BALANCED"@ && shouted != "QUALITY"@ ==> (
            preset_choice(preset, quality) matches Err(refusal) && refusal.0 == 400)
        },
        preset is None && quality is None ==> preset_choice(preset, quality) == Ok::<
            Option<Seq<char>>,
            (u16, Seq<char>),
        >(None),
        preset is None && quality is Some ==> {
            let shouted = text::upper(quality->0);
            &&& shouted == "FAST"@ || shouted == "BALANCED"@ || shouted == "QUALITY"@
                ==> preset_choice(preset, quality) == Ok::<Option<Seq<char>>, (u16, Seq<char>)>(
                Some(shouted),
            )
            &&& shouted == "NATIVE"@ ==> preset_choice(preset, quality) == Ok::<
                Option<Seq<char>>,
                (u16, Seq<char>),
            >(Some("QUALITY"@))
            &&& shouted != "FAST"@ && shouted != "BALANCED"@ && shouted != "QUALITY"@ && shouted
                != "NATIVE"@ ==> preset_choice(preset, quality) == Ok::<
                Option<Seq<char>>,
                (u16, Seq<char>),
            >(None)
        },
{
    reveal_strlit("FAST");
    reveal_strlit("BALANCED");
    reveal_strlit("QUALITY");
    reveal_strlit("NATIVE");
    assert("FAST"@.len() == 4 && "BALANCED"@.len() == 8 && "QUALITY"@.len() == 7 && "NATIVE"@.len()
        == 6);
}

proof fn lemma_undeclared(
    members: Seq<(Seq<char>, JsonView)>,
    declared: Seq<Seq<char>>,
    name: Seq<char>,
)
    ensures
        undeclared(members, declared).contains(name) <==> !declared.contains(name) && exists|i: int|
            0 <= i < members.len() && (#[trigger] members[i]).0 == name,
    decreases members.len(),
{
    let all = undeclared(members, declared);
    if members.len() > 0 {
        let shorter = members.drop_last();
        let before = undeclared(shorter, declared);
        lemma_undeclared(shorter, declared, name);
        assert forall|i: int| 0 <= i < shorter.len() implies shorter[i] == members[i] by {}
        if all.contains(name) {
            let k = choose|k: int| 0 <= k < all.len() && all[k] == name;
            if k < before.len() {
                assert(before[k] == name);
                let i = choose|i: int|
                    0 <= i < shorter.len() && (#[trigger] shorter[i]).0 == name;
                assert(members[i].0 == name);
            } else {
                assert(members[members.len() - 1].0 == name);
            }
        }
        if !declared.contains(name) && exists|i: int|
            0 <= i < members.len() && (#[trigger] members[i]).0 == name {
            let i = choose|i: int| 0 <= i < members.len() && (#[trigger] members[i]).0 == name;
            if i < shorter.len() {
                assert(shorter[i].0 == name);
                let k = choose|k: int| 0 <= k < before.len() && before[k] == name;
                assert(all[k] == name);
            } else {
                assert(all[all.len() - 1] == name);
            }
        }
    }
}

/// Parameters are accepted exactly where they are a document of which the pack
/// declares each member; what is not declared is refused.
pub proof fn law_only_declared_parameters_are_accepted(
    declared: Seq<Seq<char>>,
    requested: JsonView,
)
    ensures
        parameter_refusal(declared, requested) is None <==> (requested matches JsonView::Object(
            members,
        ) && forall|i: int|
            0 <= i < members.len() ==> declared.contains((#[trigger] members[i]).0)),
        parameter_refusal(declared, requested) matches Some(refusal) ==> refusal.0 == 400,
{
    match requested {
        JsonView::Object(members) => {
            let missing = undeclared(members, declared);
            if missing.len() == 0 {
                assert forall|i: int| 0 <= i < members.len() implies declared.contains(
                    (#[trigger] members[i]).0,
                ) by {
                    lemma_undeclared(members, declared, members[i].0);
                    if !declared.contains(members[i].0) {
                        assert(missing.contains(members[i].0));
                    }
                }
            } else {
                lemma_undeclared(members, declared, missing[0]);
                assert(missing.contains(missing[0]));
            }
        },
        _ => {},
    }
}

/// The names of the standings of a pack are told apart.
pub proof fn law_standings_have_their_names(one: CatalogModelStatus, other: CatalogModelStatus)
    ensures
        one.name() == other.name() <==> one == other,
        CatalogModelStatus::Ready.name() == "READY"@,
        CatalogModelStatus::Experimental.name() == "EXPERIMENTAL"@,
        CatalogModelStatus::Unsupported.name() == "UNSUPPORTED"@,
{
    reveal_strlit("READY");
    reveal_strlit("EXPERIMENTAL");
    reveal_strlit("UNSUPPORTED");
    assert("READY"@.len() == 5 && "EXPERIMENTAL"@.len() == 12 && "UNSUPPORTED"@.len() == 11);
}

} // verus!
