//! Texts, documents, identifiers, digests and errors.
use vidioai::digest::{hex_text, snapshot_file_sha256};
use vidioai::error::{
    classify_generation_error, error_is_retryable, fallback_http_error_code, job_failure,
    prefixed_error_code, structured_error_body, structured_runtime_fields, ApiError,
};
use vidioai::identity::id_text;
use vidioai::json::{collect_texts, document, parse, Json, Real};
use vidioai::text::{
    byte_len, contains, decimal_text, is_hex, is_shouting, join, last_piece, parse_u64,
    same_ignoring_ascii_case, sorts_before, split, split_once, starts_with, take_word, trim,
};

#[test]
fn texts_are_trimmed_of_all_white_space() {
    assert_eq!(trim(" \t\u{a0}mot \u{3000}\n"), "mot");
    assert_eq!(trim(" \n "), "");
    assert_eq!(take_word("12.4 | rest"), "12.4");
}

#[test]
fn texts_are_split_as_std_splits_them() {
    for text in ["", "a", "a,b", ",a,", "é,è,,ù"] {
        let expected: Vec<&str> = text.split(',').collect();
        assert_eq!(split(text, ','), expected);
        assert_eq!(last_piece(text, ','), text.rsplit(',').next().unwrap());
        assert_eq!(split_once(text, ','), text.split_once(','));
    }
}

#[test]
fn texts_are_compared_and_searched() {
    assert!(contains("une vidéo courte", "vidéo"));
    assert!(!contains("vide", "vidéo"));
    assert!(contains("abc", ""));
    assert!(starts_with("replace-with-a-secret", "replace-with"));
    assert!(same_ignoring_ascii_case("CUDA", "cuda"));
    assert!(!same_ignoring_ascii_case("É", "é"));
    assert!(sorts_before("a", "b"));
    assert!(sorts_before("a", "aa"));
    assert!(!sorts_before("b", "b"));
    assert_eq!(byte_len("été"), 5);
}

#[test]
fn numbers_are_read_and_written() {
    for text in ["0", "007", "18446744073709551615", "18446744073709551616", "", "-1", "+3", "1a"] {
        assert_eq!(parse_u64(text), text.parse::<u64>().ok());
    }
    for number in [0, 7, 10, 12345, u64::MAX] {
        assert_eq!(decimal_text(number), number.to_string());
    }
}

#[test]
fn words_of_codes_are_recognised() {
    assert!(is_shouting("MODEL_NOT_READY"));
    assert!(!is_shouting("Model"));
    assert!(is_hex("00ffAA"));
    assert!(!is_hex("0g"));
    assert_eq!(join(&vec!["a".into(), "b".into(), "c".into()], ", "), "a, b, c");
    assert_eq!(join(&vec![], ", "), "");
}

#[test]
fn documents_are_parsed_by_their_shape() {
    let parsed = parse(br#"{"a": [1, true, null, "x"], "b": 2.5, "c": -3, "a2": {}}"#).unwrap();
    match parsed.get("a") {
        Some(Json::List(items)) => {
            assert_eq!(items.len(), 4);
            assert_eq!(items[0].as_integer(), Some(1));
            assert_eq!(items[1].as_flag(), Some(true));
            assert!(matches!(items[2], Json::Null));
            assert_eq!(items[3].as_text(), Some("x"));
        }
        _ => panic!("a list"),
    }
    match parsed.get("b") {
        Some(Json::Real(Real::Bits(bits))) => assert_eq!(f64::from_bits(*bits), 2.5),
        other => panic!("a number, not {other:?}"),
    }
    assert_eq!(parsed.get("c").unwrap().as_integer(), None);
    assert!(matches!(parsed.get("c"), Some(Json::Negative(-3))));
    let lowest = parse(b"-9007199254740993").unwrap();
    assert!(matches!(lowest.copy(), Json::Negative(-9007199254740993)));
    assert!(parsed.get("missing").is_none());
    assert!(matches!(parsed.get("a2"), Some(Json::Object(members)) if members.is_empty()));
    assert!(parse(b"{not json").is_none());
}

#[test]
fn a_repeated_member_is_read_as_its_last_value() {
    let parsed = parse(br#"{"k": 1, "k": 2}"#).unwrap();
    assert_eq!(parsed.get("k").unwrap().as_integer(), Some(2));
}

#[test]
fn values_become_documents() {
    let value = serde_json::Value::Array(vec![
        serde_json::Value::from("premier"),
        serde_json::Value::from(4u64),
        serde_json::Value::from("second"),
    ]);
    let list = document(value);
    assert_eq!(collect_texts(Some(&list)), vec!["premier", "second"]);
    assert!(collect_texts(None).is_empty());
}

#[test]
fn a_document_and_its_copy_are_alike() {
    let parsed = parse(br#"{"a": ["x", {"y": 1}]}"#).unwrap();
    assert_eq!(format!("{:?}", parsed.copy()), format!("{parsed:?}"));
    assert_eq!(parsed.get_or("b", "a").is_some(), true);
    assert_eq!(parsed.text_member("a"), None);
}

#[test]
fn identifiers_are_written_in_five_groups() {
    assert_eq!(id_text(0), "00000000-0000-0000-0000-000000000000");
    assert_eq!(
        id_text(0x0123456789abcdef0123456789abcdef),
        "01234567-89ab-cdef-0123-456789abcdef"
    );
    let id = uuid::Uuid::from_u128(0xfedcba98765432100011223344556677);
    assert_eq!(id_text(id.as_u128()), id.to_string());
}

#[test]
fn digests_are_those_of_the_standard() {
    assert_eq!(
        snapshot_file_sha256(b"abc"),
        "ba7816bf8f01cfea414140de5dae2223b00361a396177a9cb410ff61f20015ad"
    );
    assert_eq!(
        snapshot_file_sha256(b""),
        "e3b0c44298fc1c149afbf4c8996fb92427ae41e4649b934ca495991b7852b855"
    );
}

#[test]
fn bytes_are_written_with_two_digits_each() {
    assert_eq!(hex_text(&vec![0, 9, 10, 255]), "00090aff");
    assert_ne!(hex_text(&vec![1, 16]), hex_text(&vec![17, 0]));
}

#[test]
fn every_constructor_has_its_status() {
    assert_eq!(ApiError::bad_request("m".into()).status, 400);
    assert_eq!(ApiError::unauthorized("m".into()).status, 401);
    assert_eq!(ApiError::not_found("m".into()).status, 404);
    assert_eq!(ApiError::conflict("m".into()).status, 409);
    assert_eq!(ApiError::unavailable("m".into()).status, 503);
    assert_eq!(ApiError::internal().status, 500);
}

#[test]
fn statuses_without_a_code_have_a_name() {
    let names = [
        (400, "BAD_REQUEST"),
        (401, "UNAUTHORIZED"),
        (403, "FORBIDDEN"),
        (404, "NOT_FOUND"),
        (409, "CONFLICT"),
        (429, "TOO_MANY_REQUESTS"),
        (503, "SERVICE_UNAVAILABLE"),
        (504, "GATEWAY_TIMEOUT"),
        (500, "INTERNAL_SERVER_ERROR"),
        (418, "CLIENT_ERROR"),
        (502, "SERVER_ERROR"),
        (302, "HTTP_ERROR"),
    ];
    for (status, name) in names {
        assert_eq!(fallback_http_error_code(status), name);
        assert_eq!(structured_error_body(status, "sans code".into()).code, name);
    }
}

#[test]
fn transient_failures_may_be_tried_again() {
    for status in [429, 503, 504] {
        assert!(error_is_retryable(status, "CONFLICT"));
    }
    for code in [
        "ENGINE_UNAVAILABLE",
        "GPU_MEMORY_OCCUPIED",
        "INSUFFICIENT_VRAM",
        "JOB_DISPATCH_TIMEOUT",
        "RUNTIME_UNAVAILABLE",
        "WORKER_LOST",
        "WORKER_START_TIMEOUT",
        "WORKER_UNAVAILABLE",
    ] {
        assert!(error_is_retryable(409, code));
    }
    assert!(!error_is_retryable(409, "MODEL_NOT_READY"));
}

#[test]
fn only_codes_of_known_families_are_published() {
    assert_eq!(prefixed_error_code("MODEL_NOT_READY: suite"), Some("MODEL_NOT_READY"));
    assert_eq!(prefixed_error_code("INVENTED: suite"), None);
    assert_eq!(prefixed_error_code("sans deux-points"), None);
    assert_eq!(
        structured_error_body(404, "INVENTED: suite".into()).code,
        structured_error_body(404, "rien".into()).code
    );
}

#[test]
fn runtime_messages_give_a_code_and_a_hint() {
    assert_eq!(
        structured_runtime_fields("WORKER_LOST: plus de réponse"),
        ("WORKER_LOST".to_owned(), true)
    );
    assert_eq!(
        structured_runtime_fields("MODEL_NOT_READY: non chargé"),
        ("MODEL_NOT_READY".to_owned(), false)
    );
    assert_eq!(job_failure("WORKER_START_TIMEOUT: trop long"), ("WORKER_START_TIMEOUT".into(), true));
    assert_eq!(job_failure("rien de connu"), ("JOB_FAILED".to_owned(), false));
}

#[test]
fn failures_are_classified_by_their_stage() {
    assert_eq!(
        classify_generation_error(false, true, "FFmpeg indisponible"),
        "VIDEO_ENCODING_FAILED: FFmpeg indisponible"
    );
    assert_eq!(
        classify_generation_error(true, true, "disque plein"),
        "VIDEO_ENCODING_FAILED: disque plein"
    );
    assert_eq!(
        classify_generation_error(true, false, "disque plein"),
        "OUTPUT_WRITE_FAILED: disque plein"
    );
    assert_eq!(
        classify_generation_error(false, false, "ffmpeg"),
        "GENERATION_FAILED: ffmpeg"
    );
}

#[test]
fn classifying_twice_changes_nothing() {
    for message in ["disque plein", "WORKER_LOST: parti", "ffprobe absent"] {
        let once = classify_generation_error(false, true, message);
        assert_eq!(classify_generation_error(true, false, &once), once);
    }
}
