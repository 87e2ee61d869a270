//! The check that a worker passes before it runs a generation.
use crate::error::StructuredRuntimeError;
use crate::generation::{Generation, GenerationView};
use crate::json;
use crate::json::{Json, JsonView, Real};
use crate::text;
use vstd::prelude::*;
use vstd::string::*;

verus! {

/// The JSON form of an optional number.
pub open spec fn nullable_real(number: Option<Real>) -> JsonView {
    match number {
        Some(value) => JsonView::Real(value),
        None => JsonView::Null,
    }
}

/// The JSON form of an optional number.
pub fn opt_real_json(number: Option<Real>) -> (value: Json)
    ensures
        value@ == nullable_real(number),
{
    match number {
        Some(value) => Json::Real(value),
        None => Json::Null,
    }
}

/// What the worker is told of a generation before it is asked to run it.
#[verifier::opaque]
pub open spec fn payload_of(
    generation: GenerationView,
    storage_id: Seq<char>,
    output_relative_path: Seq<char>,
    input_path: Option<Seq<char>>,
    input_images: Option<JsonView>,
) -> JsonView {
    JsonView::Object(
        seq![
            ("model_id"@, JsonView::Text(storage_id)),
            ("model_pack_id"@, json::nullable_text(generation.model_pack_id)),
            ("engine"@, json::nullable_text(generation.engine)),
            ("workflow"@, json::nullable_text(generation.workflow)),
            (
                "capability"@,
                json::nullable_text(
                    match generation.capability {
                        Some(capability) => Some(capability.name()),
                        None => None,
                    },
                ),
            ),
            ("quality"@, json::nullable_text(generation.requested_quality)),
            ("preset"@, json::nullable_text(generation.requested_preset)),
            ("advanced_parameters"@, generation.advanced_parameters),
            ("frames"@, json::nullable_count(generation.requested_frames)),
            ("fps"@, json::nullable_count(generation.requested_fps)),
            ("duration_seconds"@, nullable_real(generation.requested_duration_seconds)),
            ("batch"@, JsonView::Integer(1)),
            ("input_path"@, json::nullable_text(input_path)),
            ("input_images"@, json::nullable(input_images)),
            ("audio"@, JsonView::Bool(generation.audio)),
            ("output_relative_path"@, JsonView::Text(output_relative_path)),
        ],
    )
}

/// What the worker is told of a generation before it is asked to run it.
/// `storage_id` is the name under which the model is stored.
pub fn generation_preflight_payload(
    generation: &Generation,
    storage_id: &str,
    output_relative_path: &str,
    input_path: Option<&str>,
    input_images: Option<&Json>,
) -> (payload: Json)
    ensures
        payload@ == payload_of(
            generation@,
            storage_id@,
            output_relative_path@,
            text::opt_str(input_path),
            json::opt_ref_view(input_images),
        ),
{
    reveal(payload_of);
    let mut members: Vec<(String, Json)> = Vec::new();
    json::put(&mut members, "model_id", json::text_json(storage_id));
    json::put(&mut members, "model_pack_id", json::opt_string_json(&generation.model_pack_id));
    json::put(&mut members, "engine", json::opt_string_json(&generation.engine));
    json::put(&mut members, "workflow", json::opt_string_json(&generation.workflow));
    let capability = match &generation.capability {
        Some(capability) => json::text_json(capability.api_name()),
        None => Json::Null,
    };
    json::put(&mut members, "capability", capability);
    json::put(&mut members, "quality", json::opt_string_json(&generation.requested_quality));
    json::put(&mut members, "preset", json::opt_string_json(&generation.requested_preset));
    json::put(&mut members, "advanced_parameters", generation.advanced_parameters.copy());
    json::put(&mut members, "frames", json::opt_count_json(generation.requested_frames));
    json::put(&mut members, "fps", json::opt_count_json(generation.requested_fps));
    json::put(
        &mut members,
        "duration_seconds",
        opt_real_json(generation.requested_duration_seconds),
    );
    json::put(&mut members, "batch", Json::Integer(1));
    json::put(&mut members, "input_path", json::opt_text_json(input_path));
    let images = match input_images {
        Some(document) => document.copy(),
        None => Json::Null,
    };
    json::put(&mut members, "input_images", images);
    json::put(&mut members, "audio", Json::Bool(generation.audio));
    json::put(&mut members, "output_relative_path", json::text_json(output_relative_path));
    assert(json::members_view(members@) =~= payload_of(
        generation@,
        storage_id@,
        output_relative_path@,
        text::opt_str(input_path),
        json::opt_ref_view(input_images),
    )->Object_0);
    json::object(members)
}

/// With what the worker says that it would run a generation.
#[derive(Debug)]
pub struct PreflightResult {
    pub model_id: String,
    pub model_pack_id: Option<String>,
    pub engine: Option<String>,
    pub workflow: Option<String>,
}

/// With what the worker says that it would run a generation.
#[verifier::ext_equal]
pub struct PreflightView {
    pub model_id: Seq<char>,
    pub model_pack_id: Option<Seq<char>>,
    pub engine: Option<Seq<char>>,
    pub workflow: Option<Seq<char>>,
}

impl View for PreflightResult {
    type V = PreflightView;

    open spec fn view(&self) -> PreflightView {
        PreflightView {
            model_id: self.model_id@,
            model_pack_id: text::opt(self.model_pack_id),
            engine: text::opt(self.engine),
            workflow: text::opt(self.workflow),
        }
    }
}

/// The name given to the form in which the standard library writes an optional
/// text for debugging.
pub uninterp spec fn debug_form(text: Option<Seq<char>>) -> Seq<char>;

/// `format!` with `{:?}` on an optional text.
#[verifier::external_body]
fn debug_text(text: &Option<String>) -> (result: String)
    ensures
        result@ == debug_form(text::opt(*text)),
{
    format!("{:?}", text)
}

/// What a refusal says: its code, its message, and whether to try again.
pub open spec fn refusal_of(error: StructuredRuntimeError) -> (Seq<char>, Seq<char>, bool) {
    (error.code@, error.message@, error.retryable)
}

/// Why the worker may not run a generation: it is not ready, the generation has
/// no contract, or the worker would run another one.
pub open spec fn contract_refusal(
    readiness: Option<(Seq<char>, Seq<char>, bool)>,
    preflight: PreflightView,
    generation: GenerationView,
    storage_id: Seq<char>,
) -> Option<(Seq<char>, Seq<char>, bool)> {
    if readiness is Some {
        readiness
    } else if generation.model_pack_id is None {
        Some(
            (
                "MODEL_PACK_MISSING"@,
                "La génération IA ne possède pas de ModelPack Rust persisté."@,
                false,
            ),
        )
    } else if generation.engine is None {
        Some(
            (
                "ENGINE_UNAVAILABLE"@,
                "La génération IA ne possède pas de moteur Rust persisté."@,
                false,
            ),
        )
    } else if generation.workflow is None {
        Some(
            (
                "WORKFLOW_INVALID"@,
                "La génération IA ne possède pas de workflow Rust persisté."@,
                false,
            ),
        )
    } else if preflight == (PreflightView {
        model_id: storage_id,
        model_pack_id: generation.model_pack_id,
        engine: generation.engine,
        workflow: generation.workflow,
    }) {
        None
    } else {
        Some(
            (
                "PREFLIGHT_IDENTITY_MISMATCH"@,
                "Contrat worker différent du choix Rust: model="@ + preflight.model_id + " pack="@
                    + debug_form(preflight.model_pack_id) + " engine="@ + debug_form(
                    preflight.engine,
                ) + " workflow="@ + debug_form(preflight.workflow),
                false,
            ),
        )
    }
}

/// What a verdict says.
pub open spec fn verdict(result: Result<(), StructuredRuntimeError>) -> Option<
    (Seq<char>, Seq<char>, bool),
> {
    match result {
        Ok(_) => None,
        Err(refusal) => Some(refusal_of(refusal)),
    }
}

/// Holds what the worker would run against what the generation was queued with.
/// `readiness` is whether the worker's own checks passed.
pub fn validate_preflight_contract(
    readiness: Result<(), StructuredRuntimeError>,
    preflight: &PreflightResult,
    generation: &Generation,
    storage_id: &str,
) -> (result: Result<(), StructuredRuntimeError>)
    ensures
        verdict(result) == contract_refusal(
            verdict(readiness),
            preflight@,
            generation@,
            storage_id@,
        ),
{
    match readiness {
        Ok(_) => {},
        Err(refusal) => {
            return Err(refusal);
        },
    }
    if generation.model_pack_id.is_none() {
        return Err(
            StructuredRuntimeError {
                code: "MODEL_PACK_MISSING".to_owned(),
                message: "La génération IA ne possède pas de ModelPack Rust persisté.".to_owned(),
                retryable: false,
            },
        );
    }
    if generation.engine.is_none() {
        return Err(
            StructuredRuntimeError {
                code: "ENGINE_UNAVAILABLE".to_owned(),
                message: "La génération IA ne possède pas de moteur Rust persisté.".to_owned(),
                retryable: false,
            },
        );
    }
    if generation.workflow.is_none() {
        return Err(
            StructuredRuntimeError {
                code: "WORKFLOW_INVALID".to_owned(),
                message: "La génération IA ne possède pas de workflow Rust persisté.".to_owned(),
                retryable: false,
            },
        );
    }
    if *preflight.model_id.as_str() == *storage_id && text::opt_same(
        &preflight.model_pack_id,
        &generation.model_pack_id,
    ) && text::opt_same(&preflight.engine, &generation.engine) && text::opt_same(
        &preflight.workflow,
        &generation.workflow,
    ) {
        assert(preflight@ =~= PreflightView {
            model_id: storage_id@,
            model_pack_id: generation@.model_pack_id,
            engine: generation@.engine,
            workflow: generation@.workflow,
        });
        return Ok(());
    }
    let mut message = "Contrat worker différent du choix Rust: model=".to_owned();
    message.append(preflight.model_id.as_str());
    message.append(" pack=");
    message.append(debug_text(&preflight.model_pack_id).as_str());
    message.append(" engine=");
    message.append(debug_text(&preflight.engine).as_str());
    message.append(" workflow=");
    message.append(debug_text(&preflight.workflow).as_str());
    Err(
        StructuredRuntimeError {
            code: "PREFLIGHT_IDENTITY_MISMATCH".to_owned(),
            message,
            retryable: false,
        },
    )
}

/// The answer of the worker to a preflight: what it would run and whether its own
/// checks passed, or why there is no answer.
pub struct PreflightAnswer {
    pub readiness: Result<(), StructuredRuntimeError>,
    pub preflight: PreflightResult,
}

/// Why the worker may not run a generation, in one line.
pub open spec fn answer_refusal(
    answer: Result<PreflightAnswer, String>,
    generation: GenerationView,
    storage_id: Seq<char>,
) -> Option<Seq<char>> {
    match answer {
        Err(cause) => Some(cause@),
        Ok(found) => match contract_refusal(
            verdict(found.readiness),
            found.preflight@,
            generation,
            storage_id,
        ) {
            Some(refusal) => Some(refusal.0 + ": "@ + refusal.1),
            None => None,
        },
    }
}

/// Reads the answer of the worker to a preflight.
pub fn require_worker_preflight(
    answer: Result<PreflightAnswer, String>,
    generation: &Generation,
    storage_id: &str,
) -> (result: Result<(), String>)
    ensures
        (match result {
            Ok(_) => None,
            Err(message) => Some(message@),
        }) == answer_refusal(answer, generation@, storage_id@),
{
    match answer {
        Err(cause) => Err(cause),
        Ok(found) => match validate_preflight_contract(
            found.readiness,
            &found.preflight,
            generation,
            storage_id,
        ) {
            Ok(_) => Ok(()),
            Err(refusal) => Err(
                text::concat3(refusal.code.as_str(), ": ", refusal.message.as_str()),
            ),
        },
    }
}

/// The worker is let run a generation only with the model, the pack, the engine
/// and the workflow that the generation was queued with.
pub proof fn law_worker_runs_the_queued_contract(
    readiness: Option<(Seq<char>, Seq<char>, bool)>,
    preflight: PreflightView,
    generation: GenerationView,
    storage_id: Seq<char>,
)
    ensures
        contract_refusal(readiness, preflight, generation, storage_id) is None <==> {
            &&& readiness is None
            &&& preflight.model_id == storage_id
            &&& generation.model_pack_id is Some && preflight.model_pack_id
                == generation.model_pack_id
            &&& generation.engine is Some && preflight.engine == generation.engine
            &&& generation.workflow is Some && preflight.workflow == generation.workflow
        },
{
}

/// The worker is asked about the generation as it was queued: with its model, its
/// pack, its engine and its workflow, what it starts from, and all that was asked
/// of the result.
#[verifier::spinoff_prover]
pub proof fn law_the_worker_is_asked_about_the_generation(
    generation: GenerationView,
    storage_id: Seq<char>,
    path: Seq<char>,
    input: Option<Seq<char>>,
    images: Option<JsonView>,
)
    ensures
        ({
            let asked = payload_of(generation, storage_id, path, input, images);
            &&& asked matches JsonView::Object(members) && members.contains(
                ("model_id"@, JsonView::Text(storage_id)),
            ) && members.contains(("output_relative_path"@, JsonView::Text(path)))
                && members.contains(("audio"@, JsonView::Bool(generation.audio)))
                && members.contains(("advanced_parameters"@, generation.advanced_parameters))
                && members.contains(("batch"@, JsonView::Integer(1))) && (generation.model_pack_id
                matches Some(pack) ==> members.contains(("model_pack_id"@, JsonView::Text(pack))))
                && (generation.engine matches Some(engine) ==> members.contains(
                ("engine"@, JsonView::Text(engine)),
            )) && (generation.workflow matches Some(workflow) ==> members.contains(
                ("workflow"@, JsonView::Text(workflow)),
            )) && (generation.capability matches Some(capability) ==> members.contains(
                ("capability"@, JsonView::Text(capability.name())),
            )) && (generation.requested_quality matches Some(quality) ==> members.contains(
                ("quality"@, JsonView::Text(quality)),
            )) && (generation.requested_preset matches Some(preset) ==> members.contains(
                ("preset"@, JsonView::Text(preset)),
            )) && (generation.requested_frames matches Some(frames) ==> members.contains(
                ("frames"@, JsonView::Integer(frames as u64)),
            )) && (generation.requested_fps matches Some(fps) ==> members.contains(
                ("fps"@, JsonView::Integer(fps as u64)),
            )) && (generation.requested_duration_seconds matches Some(time) ==> members.contains(
                ("duration_seconds"@, JsonView::Real(time)),
            )) && (input matches Some(copy) ==> members.contains(
                ("input_path"@, JsonView::Text(copy)),
            )) && (images matches Some(list) ==> members.contains(("input_images"@, list)))
                && members.len() == 16
        }),
{
    reveal(payload_of);
    let members = payload_of(generation, storage_id, path, input, images)->Object_0;
    assert(members[0].0 == "model_id"@ && members[1].0 == "model_pack_id"@ && members[2].0
        == "engine"@ && members[3].0 == "workflow"@ && members[4].0 == "capability"@
        && members[5].0 == "quality"@ && members[6].0 == "preset"@ && members[7].0
        == "advanced_parameters"@);
    assert(members[8].0 == "frames"@ && members[9].0 == "fps"@ && members[10].0
        == "duration_seconds"@ && members[11].0 == "batch"@ && members[12].0 == "input_path"@
        && members[13].0 == "input_images"@ && members[14].0 == "audio"@ && members[15].0
        == "output_relative_path"@);
}

/// A preflight that the worker does not answer, or answers with a contract that is
/// not the one of the generation, refuses it, with the words of the worker where it
/// has some.
pub proof fn law_preflights_refuse_for_a_reason(
    answer: Result<PreflightAnswer, String>,
    generation: GenerationView,
    storage_id: Seq<char>,
)
    ensures
        answer matches Err(cause) ==> answer_refusal(answer, generation, storage_id) == Some(cause@),
        answer matches Ok(found) ==> {
            &&& found.readiness matches Err(told) ==> answer_refusal(answer, generation, storage_id)
                == Some(told.code@ + ": "@ + told.message@)
            &&& found.readiness is Ok && found.preflight@.model_id != storage_id ==> answer_refusal(
                answer,
                generation,
                storage_id,
            ) is Some
            &&& answer_refusal(answer, generation, storage_id) is None ==> found.preflight@.model_id
                == storage_id && found.preflight@.model_pack_id == generation.model_pack_id
                && found.preflight@.engine == generation.engine && found.preflight@.workflow
                == generation.workflow && found.readiness is Ok
        },
{
}

} // verus!
