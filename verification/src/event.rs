//! What the service tells the clients that listen.
use crate::identity;
use crate::json;
use crate::json::{Json, JsonView};
use crate::worker;
use crate::worker::{UnloadAllView, WorkerUnloadAllResponse};
use vstd::prelude::*;
use vstd::string::*;

verus! {

/// Something that happened, with its name, its time and what is told of it.
#[derive(Debug)]
pub struct EventEnvelope {
    pub event: String,
    pub timestamp: u64,
    pub data: Json,
}

/// An event that happens now.
pub fn emit(event: &str, data: Json) -> (envelope: EventEnvelope)
    ensures
        envelope.event@ == event@,
        envelope.data@ == data@,
{
    EventEnvelope { event: event.to_owned(), timestamp: identity::unix_now(), data }
}

/// What is told of a model whose state has changed.
pub fn model_event(model_id: &str, state: &str) -> (data: Json)
    ensures
        data@ == JsonView::Object(
            seq![
                ("model_id"@, JsonView::Text(model_id@)),
                ("state"@, JsonView::Text(state@)),
            ],
        ),
{
    let mut members: Vec<(String, Json)> = Vec::new();
    json::put(&mut members, "model_id", json::text_json(model_id));
    json::put(&mut members, "state", json::text_json(state));
    assert(json::members_view(members@) =~= seq![
        ("model_id"@, JsonView::Text(model_id@)),
        ("state"@, JsonView::Text(state@)),
    ]);
    json::object(members)
}

/// The members of what is told of a general unload.
pub open spec fn unload_members(response: UnloadAllView) -> Seq<(Seq<char>, JsonView)> {
    seq![
        ("state"@, JsonView::Text("unloaded"@)),
        ("models_unloaded"@, worker::text_list(response.models_unloaded)),
        ("after_memory"@, json::nullable(response.after_memory)),
    ]
}

/// What is told of a general unload.
pub fn unload_event(response: &WorkerUnloadAllResponse) -> (data: Json)
    ensures
        data@ == JsonView::Object(unload_members(response@)),
{
    let mut members: Vec<(String, Json)> = Vec::new();
    json::put(&mut members, "state", json::text_json("unloaded"));
    json::put(
        &mut members,
        "models_unloaded",
        worker::text_list_json(&response.models_unloaded),
    );
    let after = match &response.after_memory {
        Some(document) => document.copy(),
        None => Json::Null,
    };
    json::put(&mut members, "after_memory", after);
    assert(json::members_view(members@) =~= unload_members(response@));
    json::object(members)
}

/// What is told of an unloading names the models that were unloaded and the memory
/// that is left.
pub proof fn law_unloadings_are_told(response: UnloadAllView)
    ensures
        ({
            let told = JsonView::Object(unload_members(response));
            &&& told.text_member("state"@) == Some("unloaded"@)
            &&& told.member("models_unloaded"@) matches Some(JsonView::List(names)) && names.len()
                == response.models_unloaded.len() && forall|i: int|
                0 <= i < names.len() ==> #[trigger] names[i] == JsonView::Text(
                    response.models_unloaded[i],
                )
            &&& response.after_memory matches Some(memory) ==> told.member("after_memory"@) == Some(
                memory,
            )
        }),
{
    let members = unload_members(response);
    crate::member::lemma_members(members);
    reveal_with_fuel(crate::member::first_named, 5);
    assert(members.len() == 3);
    reveal_strlit("state");
    reveal_strlit("models_unloaded");
    reveal_strlit("after_memory");
    assert("state"@.len() == 5 && "models_unloaded"@.len() == 15 && "after_memory"@.len() == 12);
}

} // verus!
