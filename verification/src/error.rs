//! Errors as the API reports them: a status, a message, and the stable code and
//! retry hint that are derived from both.
use crate::text;
use vstd::prelude::*;
use vstd::string::*;

verus! {

/// An error of an API operation.
#[derive(Debug)]
pub struct ApiError {
    pub status: u16,
    pub message: String,
}

/// The body that an API error is answered with. `error` repeats `message` for
/// clients that know no structured errors.
#[derive(Debug)]
pub struct ApiErrorBody {
    pub error: String,
    pub message: String,
    pub code: String,
    pub retryable: bool,
}

/// An error that stops a generation before or while it runs.
#[derive(Debug)]
pub struct StructuredRuntimeError {
    pub code: String,
    pub message: String,
    pub retryable: bool,
}

pub const OK: u16 = 200;

pub const CREATED: u16 = 201;

pub const ACCEPTED: u16 = 202;

pub const BAD_REQUEST: u16 = 400;

pub const UNAUTHORIZED: u16 = 401;

pub const FORBIDDEN: u16 = 403;

pub const NOT_FOUND: u16 = 404;

pub const CONFLICT: u16 = 409;

pub const TOO_MANY_REQUESTS: u16 = 429;

pub const INTERNAL_SERVER_ERROR: u16 = 500;

pub const SERVICE_UNAVAILABLE: u16 = 503;

pub const GATEWAY_TIMEOUT: u16 = 504;

/// Whether an operation failed with this status and this message.
pub open spec fn is_error(error: ApiError, status: u16, message: Seq<char>) -> bool {
    error.status == status && error.message@ == message
}

/// The status and the message of an error.
pub open spec fn says(error: ApiError) -> (u16, Seq<char>) {
    (error.status, error.message@)
}

impl ApiError {
    pub fn bad_request(message: String) -> (error: Self)
        ensures
            error == (ApiError { status: BAD_REQUEST, message }),
    {
        ApiError { status: BAD_REQUEST, message }
    }

    pub fn not_found(message: String) -> (error: Self)
        ensures
            error == (ApiError { status: NOT_FOUND, message }),
    {
        ApiError { status: NOT_FOUND, message }
    }

    pub fn conflict(message: String) -> (error: Self)
        ensures
            error == (ApiError { status: CONFLICT, message }),
    {
        ApiError { status: CONFLICT, message }
    }

    pub fn unavailable(message: String) -> (error: Self)
        ensures
            error == (ApiError { status: SERVICE_UNAVAILABLE, message }),
    {
        ApiError { status: SERVICE_UNAVAILABLE, message }
    }

    pub fn unauthorized(message: String) -> (error: Self)
        ensures
            error == (ApiError { status: UNAUTHORIZED, message }),
    {
        ApiError { status: UNAUTHORIZED, message }
    }

    /// An internal error never tells a client what went wrong.
    pub fn internal() -> (error: Self)
        ensures
            is_error(
                error,
                INTERNAL_SERVER_ERROR,
                "Une erreur interne empêche l'opération."@,
            ),
    {
        ApiError {
            status: INTERNAL_SERVER_ERROR,
            message: "Une erreur interne empêche l'opération.".to_owned(),
        }
    }
}

// ---------------------------------------------------------------------------
// Error codes
// ---------------------------------------------------------------------------

/// The shape of a public error code: 3 to 64 upper-case letters, digits and
/// `_`, with a letter first.
pub open spec fn code_syntax(code: Seq<char>) -> bool {
    &&& 3 <= code.len() <= 64
    &&& text::ascii_upper_letter(code[0])
    &&& forall|i: int|
        0 <= i < code.len() ==> text::ascii_upper_letter(#[trigger] code[i]) || text::ascii_digit(
            code[i],
        ) || code[i] == '_'
}

/// The families of codes that may be published.
pub open spec fn known_namespace(code: Seq<char>) -> bool {
    ||| text::opens(code, "CACHE_"@)
    ||| text::opens(code, "CLOUD_"@)
    ||| text::opens(code, "COMFYUI_"@)
    ||| text::opens(code, "DEPENDENCY_"@)
    ||| text::opens(code, "ENGINE_"@)
    ||| text::opens(code, "EXECUTION_PLAN_"@)
    ||| text::opens(code, "GENERATION_"@)
    ||| text::opens(code, "GPU_"@)
    ||| text::opens(code, "H3_"@)
    ||| text::opens(code, "INSUFFICIENT_"@)
    ||| text::opens(code, "INVALID_"@)
    ||| text::opens(code, "JOB_"@)
    ||| text::opens(code, "MODEL_"@)
    ||| text::opens(code, "NATIVE_"@)
    ||| text::opens(code, "NODE_"@)
    ||| text::opens(code, "OUTPUT_"@)
    ||| text::opens(code, "PIPELINE_"@)
    ||| text::opens(code, "PREFLIGHT_"@)
    ||| text::opens(code, "RESTORE_"@)
    ||| text::opens(code, "RUNTIME_"@)
    ||| text::opens(code, "S3_"@)
    ||| text::opens(code, "SNAPSHOT_"@)
    ||| text::opens(code, "VIDEO_"@)
    ||| text::opens(code, "WORKER_"@)
    ||| text::opens(code, "WORKFLOW_"@)
}

fn has_code_syntax(code: &str) -> (yes: bool)
    ensures
        yes == code_syntax(code@),
{
    let characters = text::chars_of(code);
    if characters.len() < 3 || characters.len() > 64 {
        return false;
    }
    let first = characters[0];
    if !('A' <= first && first <= 'Z') {
        return false;
    }
    for i in 0..characters.len()
        invariant
            characters@ == code@,
            forall|j: int|
                0 <= j < i ==> text::ascii_upper_letter(#[trigger] code@[j]) || text::ascii_digit(
                    code@[j],
                ) || code@[j] == '_',
    {
        let c = characters[i];
        if !(('A' <= c && c <= 'Z') || ('0' <= c && c <= '9') || c == '_') {
            return false;
        }
    }
    true
}

fn has_known_namespace(code: &str) -> (yes: bool)
    ensures
        yes == known_namespace(code@),
{
    text::starts_with(code, "CACHE_") || text::starts_with(code, "CLOUD_") || text::starts_with(
        code,
        "COMFYUI_",
    ) || text::starts_with(code, "DEPENDENCY_") || text::starts_with(code, "ENGINE_")
        || text::starts_with(code, "EXECUTION_PLAN_") || text::starts_with(code, "GENERATION_")
        || text::starts_with(code, "GPU_") || text::starts_with(code, "H3_") || text::starts_with(
        code,
        "INSUFFICIENT_",
    ) || text::starts_with(code, "INVALID_") || text::starts_with(code, "JOB_")
        || text::starts_with(code, "MODEL_") || text::starts_with(code, "NATIVE_")
        || text::starts_with(code, "NODE_") || text::starts_with(code, "OUTPUT_")
        || text::starts_with(code, "PIPELINE_") || text::starts_with(code, "PREFLIGHT_")
        || text::starts_with(code, "RESTORE_") || text::starts_with(code, "RUNTIME_")
        || text::starts_with(code, "S3_") || text::starts_with(code, "SNAPSHOT_")
        || text::starts_with(code, "VIDEO_") || text::starts_with(code, "WORKER_")
        || text::starts_with(code, "WORKFLOW_")
}

/// What stands before the first `:` of a message, trimmed.
pub open spec fn message_head(message: Seq<char>) -> Seq<char> {
    text::trimmed(message.take(text::position(message, ':')))
}

/// The public code that a message carries before its first `:`.
pub open spec fn code_in(message: Seq<char>) -> Option<Seq<char>> {
    if text::position(message, ':') < message.len() && code_syntax(message_head(message))
        && known_namespace(message_head(message)) {
        Some(message_head(message))
    } else {
        None
    }
}

/// The code in front of a message, where it has the shape of a code and belongs
/// to a known family.
pub fn prefixed_error_code(message: &str) -> (code: Option<&str>)
    ensures
        text::opt_str(code) == code_in(message@),
{
    match text::split_once(message, ':') {
        Some((head, _)) => {
            let candidate = text::trim(head);
            if has_code_syntax(candidate) && has_known_namespace(candidate) {
                Some(candidate)
            } else {
                None
            }
        },
        None => None,
    }
}

/// The code of a status that comes without one in its message.
pub open spec fn fallback_code(status: u16) -> Seq<char> {
    if status == BAD_REQUEST {
        "BAD_REQUEST"@
    } else if status == UNAUTHORIZED {
        "UNAUTHORIZED"@
    } else if status == FORBIDDEN {
        "FORBIDDEN"@
    } else if status == NOT_FOUND {
        "NOT_FOUND"@
    } else if status == CONFLICT {
        "CONFLICT"@
    } else if status == TOO_MANY_REQUESTS {
        "TOO_MANY_REQUESTS"@
    } else if status == SERVICE_UNAVAILABLE {
        "SERVICE_UNAVAILABLE"@
    } else if status == GATEWAY_TIMEOUT {
        "GATEWAY_TIMEOUT"@
    } else if status == INTERNAL_SERVER_ERROR {
        "INTERNAL_SERVER_ERROR"@
    } else if 400 <= status < 500 {
        "CLIENT_ERROR"@
    } else if 500 <= status < 600 {
        "SERVER_ERROR"@
    } else {
        "HTTP_ERROR"@
    }
}

/// The code that stands for a bare status.
pub fn fallback_http_error_code(status: u16) -> (code: &'static str)
    ensures
        code@ == fallback_code(status),
{
    if status == BAD_REQUEST {
        "BAD_REQUEST"
    } else if status == UNAUTHORIZED {
        "UNAUTHORIZED"
    } else if status == FORBIDDEN {
        "FORBIDDEN"
    } else if status == NOT_FOUND {
        "NOT_FOUND"
    } else if status == CONFLICT {
        "CONFLICT"
    } else if status == TOO_MANY_REQUESTS {
        "TOO_MANY_REQUESTS"
    } else if status == SERVICE_UNAVAILABLE {
        "SERVICE_UNAVAILABLE"
    } else if status == GATEWAY_TIMEOUT {
        "GATEWAY_TIMEOUT"
    } else if status == INTERNAL_SERVER_ERROR {
        "INTERNAL_SERVER_ERROR"
    } else if 400 <= status && status < 500 {
        "CLIENT_ERROR"
    } else if 500 <= status && status < 600 {
        "SERVER_ERROR"
    } else {
        "HTTP_ERROR"
    }
}

/// The codes that a client may retry whatever the status.
pub open spec fn retryable_code(code: Seq<char>) -> bool {
    ||| code == "ENGINE_UNAVAILABLE"@
    ||| code == "GPU_MEMORY_OCCUPIED"@
    ||| code == "INSUFFICIENT_VRAM"@
    ||| code == "JOB_DISPATCH_TIMEOUT"@
    ||| code == "RUNTIME_UNAVAILABLE"@
    ||| code == "WORKER_LOST"@
    ||| code == "WORKER_START_TIMEOUT"@
    ||| code == "WORKER_UNAVAILABLE"@
}

/// Whether a client may retry an operation that failed this way.
pub open spec fn retryable(status: u16, code: Seq<char>) -> bool {
    ||| status == SERVICE_UNAVAILABLE
    ||| status == TOO_MANY_REQUESTS
    ||| status == GATEWAY_TIMEOUT
    ||| retryable_code(code)
}

/// Whether a failure may pass if it is tried again.
pub fn error_is_retryable(status: u16, code: &str) -> (yes: bool)
    ensures
        yes == retryable(status, code@),
{
    status == SERVICE_UNAVAILABLE || status == TOO_MANY_REQUESTS || status == GATEWAY_TIMEOUT
        || *code == *"ENGINE_UNAVAILABLE" || *code == *"GPU_MEMORY_OCCUPIED" || *code
        == *"INSUFFICIENT_VRAM" || *code == *"JOB_DISPATCH_TIMEOUT" || *code
        == *"RUNTIME_UNAVAILABLE" || *code == *"WORKER_LOST" || *code == *"WORKER_START_TIMEOUT"
        || *code == *"WORKER_UNAVAILABLE"
}

/// The code of a runtime failure with this message.
pub open spec fn runtime_code(message: Seq<char>) -> Seq<char> {
    match code_in(message) {
        Some(code) => code,
        None => "GENERATION_FAILED"@,
    }
}

/// The code and the retry hint of a failed generation.
pub fn structured_runtime_fields(message: &str) -> (fields: (String, bool))
    ensures
        fields.0@ == runtime_code(message@),
        fields.1 == retryable_code(runtime_code(message@)),
{
    let code = match prefixed_error_code(message) {
        Some(code) => code.to_owned(),
        None => "GENERATION_FAILED".to_owned(),
    };
    let may_retry = error_is_retryable(OK, code.as_str());
    (code, may_retry)
}

/// The code of an API error.
pub open spec fn api_code(status: u16, message: Seq<char>) -> Seq<char> {
    match code_in(message) {
        Some(code) => code,
        None => fallback_code(status),
    }
}

/// The body that answers an API error.
pub fn structured_error_body(status: u16, message: String) -> (body: ApiErrorBody)
    ensures
        body.message == message,
        body.error == message,
        body.code@ == api_code(status, message@),
        body.retryable == retryable(status, api_code(status, message@)),
{
    let code = match prefixed_error_code(message.as_str()) {
        Some(code) => code.to_owned(),
        None => fallback_http_error_code(status).to_owned(),
    };
    let may_retry = error_is_retryable(status, code.as_str());
    ApiErrorBody { error: message.clone(), message, code, retryable: may_retry }
}

// ---------------------------------------------------------------------------
// Failures of jobs and generations
// ---------------------------------------------------------------------------

/// The code that a failed job is recorded under.
pub open spec fn job_code(message: Seq<char>) -> Seq<char> {
    if message_head(message).len() > 0 && text::shouting(message_head(message)) {
        message_head(message)
    } else {
        "JOB_FAILED"@
    }
}

/// Whether a job that failed with this code may be run again.
pub open spec fn retryable_job(code: Seq<char>) -> bool {
    ||| code == "JOB_DISPATCH_TIMEOUT"@
    ||| code == "WORKER_START_TIMEOUT"@
    ||| code == "WORKER_LOST"@
}

/// What stands before the first `:` of a message, or the whole message, trimmed.
fn head_of(message: &str) -> (head: &str)
    ensures
        head@ == message_head(message@),
{
    match text::split_once(message, ':') {
        Some((head, _)) => text::trim(head),
        None => {
            assert(message@.take(message@.len() as int) == message@);
            text::trim(message)
        },
    }
}

/// The code and the retry hint of a failed job.
pub fn job_failure(message: &str) -> (failure: (String, bool))
    ensures
        failure.0@ == job_code(message@),
        failure.1 == retryable_job(job_code(message@)),
{
    let head = head_of(message);
    let code = if !head.is_empty() && text::is_shouting(head) {
        head
    } else {
        "JOB_FAILED"
    };
    let may_retry = *code == *"JOB_DISPATCH_TIMEOUT" || *code == *"WORKER_START_TIMEOUT" || *code
        == *"WORKER_LOST";
    (code.to_owned(), may_retry)
}

/// The code put in front of a generation failure that carries none.
pub open spec fn generation_failure_code(
    saving_output: bool,
    video: bool,
    message: Seq<char>,
) -> Seq<char> {
    if video && (saving_output || text::occurs(text::lower(message), "ffmpeg"@) || text::occurs(
        text::lower(message),
        "ffprobe"@,
    )) {
        "VIDEO_ENCODING_FAILED"@
    } else if saving_output {
        "OUTPUT_WRITE_FAILED"@
    } else {
        "GENERATION_FAILED"@
    }
}

/// The message that a failed generation leaves on its job: its own where it
/// already names a code, else its own behind the code of the failing stage.
pub open spec fn classified(saving_output: bool, video: bool, message: Seq<char>) -> Seq<char> {
    if message_head(message).len() > 0 && text::shouting(message_head(message)) {
        message
    } else {
        generation_failure_code(saving_output, video, message) + ": "@ + message
    }
}

/// Puts the code of the failing stage in front of a message that names none.
pub fn classify_generation_error(saving_output: bool, video: bool, message: &str) -> (result: String)
    ensures
        result@ == classified(saving_output, video, message@),
{
    let head = head_of(message);
    if !head.is_empty() && text::is_shouting(head) {
        return message.to_owned();
    }
    let folded = text::ascii_lowercase(message);
    let code = if video && (saving_output || text::contains(folded.as_str(), "ffmpeg")
        || text::contains(folded.as_str(), "ffprobe")) {
        "VIDEO_ENCODING_FAILED"
    } else if saving_output {
        "OUTPUT_WRITE_FAILED"
    } else {
        "GENERATION_FAILED"
    };
    text::concat3(code, ": ", message)
}

// ---------------------------------------------------------------------------
// Laws
// ---------------------------------------------------------------------------

/// A message without a code of a known family is reported under its status
/// alone, so two such messages of one status share a code and a retry hint.
pub proof fn law_unknown_prefixes_stay_private(status: u16, first: Seq<char>, second: Seq<char>)
    requires
        code_in(first) is None,
        code_in(second) is None,
    ensures
        api_code(status, first) == fallback_code(status),
        api_code(status, first) == api_code(status, second),
{
}

/// A published code is always well formed, or one of the codes that stand for a
/// status.
pub proof fn law_published_codes_are_known(status: u16, message: Seq<char>)
    ensures
        api_code(status, message) == fallback_code(status) || (code_syntax(
            api_code(status, message),
        ) && known_namespace(api_code(status, message))),
{
}

/// Unavailability, throttling and gateway timeouts are always worth a retry.
pub proof fn law_transient_statuses_are_retryable(status: u16, message: Seq<char>)
    requires
        status == SERVICE_UNAVAILABLE || status == TOO_MANY_REQUESTS || status == GATEWAY_TIMEOUT,
    ensures
        retryable(status, api_code(status, message)),
{
}

/// A failure is classified once: a message that carries the code of a stage keeps
/// it, whatever stage it is classified in again.
pub proof fn law_classification_is_stable(
    saving_output: bool,
    video: bool,
    message: Seq<char>,
    saving_again: bool,
    video_again: bool,
)
    ensures
        ({
            let once = classified(saving_output, video, message);
            classified(saving_again, video_again, once) == once
        }),
{
    let code = generation_failure_code(saving_output, video, message);
    let once = classified(saving_output, video, message);
    if !(message_head(message).len() > 0 && text::shouting(message_head(message))) {
        reveal_strlit("VIDEO_ENCODING_FAILED");
        reveal_strlit("OUTPUT_WRITE_FAILED");
        reveal_strlit("GENERATION_FAILED");
        reveal_strlit(": ");
        assert(code.len() > 0 && text::shouting(code));
        assert forall|j: int| 0 <= j < code.len() implies once[j] != ':' by {
            assert(once[j] == code[j]);
        }
        assert(once[code.len() as int] == ':');
        text::lemma_position(once, ':', code.len() as int);
        assert(once.take(code.len() as int) =~= code);
        assert(text::ascii_upper_letter(code[0]) || code[0] == '_');
        assert(text::ascii_upper_letter(code.last()) || code.last() == '_');
        assert(text::trimmed(code) == code);
    }
}

/// Errors without a code of their own are told by their status.
pub proof fn law_statuses_have_their_codes(status: u16)
    ensures
        fallback_code(400) == "BAD_REQUEST"@,
        fallback_code(401) == "UNAUTHORIZED"@,
        fallback_code(403) == "FORBIDDEN"@,
        fallback_code(404) == "NOT_FOUND"@,
        fallback_code(409) == "CONFLICT"@,
        fallback_code(429) == "TOO_MANY_REQUESTS"@,
        fallback_code(500) == "INTERNAL_SERVER_ERROR"@,
        fallback_code(503) == "SERVICE_UNAVAILABLE"@,
        fallback_code(504) == "GATEWAY_TIMEOUT"@,
        status < 400 || status >= 600 ==> fallback_code(status) == "HTTP_ERROR"@,
        410 <= status < 429 || 429 < status < 500 ==> fallback_code(status) == "CLIENT_ERROR"@,
        505 <= status < 600 ==> fallback_code(status) == "SERVER_ERROR"@,
{
}

/// A message that begins with a known code and a colon is told under that code, and
/// no other message is.
pub proof fn law_messages_are_told_under_their_code(status: u16, message: Seq<char>)
    ensures
        code_in(message) matches Some(code) ==> {
            &&& api_code(status, message) == code && runtime_code(message) == code
            &&& 3 <= code.len() <= 64
            &&& code == text::trimmed(message.take(text::position(message, ':')))
            &&& text::position(message, ':') < message.len()
        },
        code_in(message) is None ==> runtime_code(message) == "GENERATION_FAILED"@,
{
}

/// An error may be tried again where the status or the code says that it passes,
/// and a request that was wrong, or a model that does not fit, may not.
pub proof fn law_errors_that_pass_may_be_tried_again(status: u16, code: Seq<char>)
    ensures
        status == 429 || status == 503 || status == 504 ==> retryable(status, code),
        status == 400 || status == 401 || status == 403 || status == 404 || status == 409 || status
            == 500 ==> (retryable(status, code) <==> retryable_code(code)),
        retryable_code("WORKER_UNAVAILABLE"@) && retryable_code("WORKER_LOST"@) && retryable_code(
            "WORKER_START_TIMEOUT"@,
        ) && retryable_code("JOB_DISPATCH_TIMEOUT"@) && retryable_code("GPU_MEMORY_OCCUPIED"@)
            && retryable_code("INSUFFICIENT_VRAM"@) && retryable_code("ENGINE_UNAVAILABLE"@)
            && retryable_code("RUNTIME_UNAVAILABLE"@),
        text::opens(code, "MODEL_"@) || text::opens(code, "INVALID_"@) || text::opens(
            code,
            "WORKFLOW_"@,
        ) || text::opens(code, "GENERATION_"@) ==> !retryable_code(code),
        retryable_job("JOB_DISPATCH_TIMEOUT"@) && retryable_job("WORKER_START_TIMEOUT"@)
            && retryable_job("WORKER_LOST"@),
        retryable_job(code) ==> retryable_code(code),
{
    reveal_strlit("ENGINE_UNAVAILABLE");
    reveal_strlit("GPU_MEMORY_OCCUPIED");
    reveal_strlit("INSUFFICIENT_VRAM");
    reveal_strlit("JOB_DISPATCH_TIMEOUT");
    reveal_strlit("RUNTIME_UNAVAILABLE");
    reveal_strlit("WORKER_LOST");
    reveal_strlit("WORKER_START_TIMEOUT");
    reveal_strlit("WORKER_UNAVAILABLE");
    reveal_strlit("MODEL_");
    reveal_strlit("INVALID_");
    reveal_strlit("WORKFLOW_");
    reveal_strlit("GENERATION_");
    assert("ENGINE_UNAVAILABLE"@[0] == 'E' && "GPU_MEMORY_OCCUPIED"@[0] == 'G'
        && "GPU_MEMORY_OCCUPIED"@[1] == 'P' && "INSUFFICIENT_VRAM"@[0] == 'I'
        && "INSUFFICIENT_VRAM"@[2] == 'S' && "JOB_DISPATCH_TIMEOUT"@[0] == 'J'
        && "RUNTIME_UNAVAILABLE"@[0] == 'R' && "WORKER_LOST"@[0] == 'W' && "WORKER_LOST"@[4] == 'E'
        && "WORKER_START_TIMEOUT"@[4] == 'E' && "WORKER_UNAVAILABLE"@[4] == 'E');
    if text::opens(code, "MODEL_"@) {
        assert(code.take(6)[0] == 'M');
    }
    if text::opens(code, "INVALID_"@) {
        assert(code.take(8)[0] == 'I' && code.take(8)[2] == 'V');
    }
    if text::opens(code, "WORKFLOW_"@) {
        assert(code.take(9)[0] == 'W' && code.take(9)[4] == 'F');
    }
    if text::opens(code, "GENERATION_"@) {
        assert(code.take(11)[0] == 'G' && code.take(11)[1] == 'E');
    }
}

/// A failure without a code is told under one that says what was being done: a
/// video that was being encoded or saved, a picture that was being saved, or a
/// generation. The words of the failure are kept.
pub proof fn law_failures_are_told_for_what_was_done(
    saving: bool,
    video: bool,
    message: Seq<char>,
)
    ensures
        !video && saving ==> generation_failure_code(saving, video, message)
            == "OUTPUT_WRITE_FAILED"@,
        !video && !saving ==> generation_failure_code(saving, video, message)
            == "GENERATION_FAILED"@,
        video && saving ==> generation_failure_code(saving, video, message)
            == "VIDEO_ENCODING_FAILED"@,
        video && text::occurs(text::lower(message), "ffmpeg"@) ==> generation_failure_code(
            saving,
            video,
            message,
        ) == "VIDEO_ENCODING_FAILED"@,
        video && text::occurs(text::lower(message), "ffprobe"@) ==> generation_failure_code(
            saving,
            video,
            message,
        ) == "VIDEO_ENCODING_FAILED"@,
        video && !saving && !text::occurs(text::lower(message), "ffmpeg"@) && !text::occurs(
            text::lower(message),
            "ffprobe"@,
        ) ==> generation_failure_code(saving, video, message) == "GENERATION_FAILED"@,
        classified(saving, video, message) == message || classified(saving, video, message)
            == generation_failure_code(saving, video, message) + ": "@ + message,
        job_code(message) == "JOB_FAILED"@ || job_code(message) == message_head(message),
        text::position(message, ':') == 0 ==> classified(saving, video, message) != message
            || message.len() == 0,
{
    if text::position(message, ':') == 0 {
        assert(message.take(0).len() == 0);
        assert(text::trimmed(message.take(0)).len() == 0);
        reveal_strlit(": ");
        assert(": "@.len() == 2);
    }
}

/// The codes of every part of the service are known: of its caches, its stores, its
/// engines, its machine, its models, its jobs and its workers.
pub proof fn law_codes_of_every_part_are_known(code: Seq<char>)
    ensures
        text::opens(code, "CACHE_"@) ==> known_namespace(code),
        text::opens(code, "CLOUD_"@) ==> known_namespace(code),
        text::opens(code, "COMFYUI_"@) ==> known_namespace(code),
        text::opens(code, "DEPENDENCY_"@) ==> known_namespace(code),
        text::opens(code, "ENGINE_"@) ==> known_namespace(code),
        text::opens(code, "EXECUTION_PLAN_"@) ==> known_namespace(code),
        text::opens(code, "GENERATION_"@) ==> known_namespace(code),
        text::opens(code, "GPU_"@) ==> known_namespace(code),
        text::opens(code, "H3_"@) ==> known_namespace(code),
        text::opens(code, "INSUFFICIENT_"@) ==> known_namespace(code),
        text::opens(code, "INVALID_"@) ==> known_namespace(code),
        text::opens(code, "JOB_"@) ==> known_namespace(code),
        text::opens(code, "MODEL_"@) ==> known_namespace(code),
        text::opens(code, "NATIVE_"@) ==> known_namespace(code),
        text::opens(code, "NODE_"@) ==> known_namespace(code),
        text::opens(code, "OUTPUT_"@) ==> known_namespace(code),
        text::opens(code, "PIPELINE_"@) ==> known_namespace(code),
        text::opens(code, "PREFLIGHT_"@) ==> known_namespace(code),
        text::opens(code, "RESTORE_"@) ==> known_namespace(code),
        text::opens(code, "RUNTIME_"@) ==> known_namespace(code),
        text::opens(code, "S3_"@) ==> known_namespace(code),
        text::opens(code, "SNAPSHOT_"@) ==> known_namespace(code),
        text::opens(code, "VIDEO_"@) ==> known_namespace(code),
        text::opens(code, "WORKER_"@) ==> known_namespace(code),
        text::opens(code, "WORKFLOW_"@) ==> known_namespace(code),
{
}

/// A message that begins with a code of a part of the service, in capitals, digits
/// and underscores, is published under that code.
pub proof fn law_codes_are_published(status: u16, message: Seq<char>)
    requires
        text::position(message, ':') < message.len(),
        known_namespace(text::trimmed(message.take(text::position(message, ':')))),
        ({
            let head = text::trimmed(message.take(text::position(message, ':')));
            &&& 3 <= head.len() <= 64
            &&& 'A' <= head[0] <= 'Z'
            &&& forall|i: int|
                0 <= i < head.len() ==> 'A' <= #[trigger] head[i] <= 'Z' || '0' <= head[i] <= '9'
                    || head[i] == '_'
        }),
    ensures
        api_code(status, message) == text::trimmed(message.take(text::position(message, ':'))),
{
}

} // verus!
