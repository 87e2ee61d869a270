//! Assets: the files that are uploaded and made.
use crate::error;
use crate::error::ApiError;
use crate::generation::AssetKind;
use crate::identity;
use crate::json;
use crate::json::{Json, JsonView, Real};
use crate::order;
use crate::text;
use vstd::prelude::*;
use vstd::string::*;

verus! {

/// The largest upload that is no video, in bytes.
pub const MAX_IMAGE_BYTES: usize = 26214400;

/// The largest video that may be uploaded, in bytes.
pub const MAX_VIDEO_BYTES: usize = 536870912;

/// A file that the service keeps.
#[derive(Debug)]
pub struct Asset {
    pub id: u128,
    pub kind: AssetKind,
    pub filename: String,
    pub mime_type: String,
    pub size_bytes: u64,
    pub width: Option<u32>,
    pub height: Option<u32>,
    pub duration_seconds: Option<Real>,
    pub fps: Option<Real>,
    pub created_at: u64,
    pub url: String,
}

/// What [`Asset`] says.
#[verifier::ext_equal]
pub struct AssetView {
    pub id: u128,
    pub kind: AssetKind,
    pub filename: Seq<char>,
    pub mime_type: Seq<char>,
    pub size_bytes: u64,
    pub width: Option<u32>,
    pub height: Option<u32>,
    pub duration_seconds: Option<Real>,
    pub fps: Option<Real>,
    pub created_at: u64,
    pub url: Seq<char>,
}

impl View for Asset {
    type V = AssetView;

    open spec fn view(&self) -> AssetView {
        AssetView {
            id: self.id,
            kind: self.kind,
            filename: self.filename@,
            mime_type: self.mime_type@,
            size_bytes: self.size_bytes,
            width: self.width,
            height: self.height,
            duration_seconds: self.duration_seconds,
            fps: self.fps,
            created_at: self.created_at,
            url: self.url@,
        }
    }
}

impl Asset {
    /// A copy of the value.
    pub fn copy(&self) -> (copy: Self)
        ensures
            copy@ == self@,
    {
        Asset {
            id: self.id,
            kind: self.kind,
            filename: self.filename.clone(),
            mime_type: self.mime_type.clone(),
            size_bytes: self.size_bytes,
            width: self.width,
            height: self.height,
            duration_seconds: self.duration_seconds,
            fps: self.fps,
            created_at: self.created_at,
            url: self.url.clone(),
        }
    }
}

/// The ending of the file that holds an asset of a type.
pub open spec fn extension_of(mime_type: Seq<char>) -> Seq<char> {
    if mime_type == "image/png"@ {
        "png"@
    } else if mime_type == "image/jpeg"@ {
        "jpg"@
    } else if mime_type == "image/webp"@ {
        "webp"@
    } else if mime_type == "video/mp4"@ {
        "mp4"@
    } else if mime_type == "audio/mpeg"@ {
        "mp3"@
    } else {
        "bin"@
    }
}

/// The ending of the file that holds an asset of a type.
pub fn stored_extension(mime_type: &str) -> (extension: &'static str)
    ensures
        extension@ == extension_of(mime_type@),
{
    if *mime_type == *"image/png" {
        "png"
    } else if *mime_type == *"image/jpeg" {
        "jpg"
    } else if *mime_type == *"image/webp" {
        "webp"
    } else if *mime_type == *"video/mp4" {
        "mp4"
    } else if *mime_type == *"audio/mpeg" {
        "mp3"
    } else {
        "bin"
    }
}

/// The name of the file that holds an asset.
pub fn file_name(id: u128, extension: &str) -> (name: String)
    ensures
        name@ == identity::hyphenated(id) + "."@ + extension@,
{
    text::concat3(identity::id_text(id).as_str(), ".", extension)
}

/// The key under which a result is published.
pub fn published_key(generation_id: u128, filename: &str) -> (key: String)
    ensures
        key@ == "outputs/"@ + identity::hyphenated(generation_id) + "/"@ + filename@,
{
    text::concat4("outputs/", identity::id_text(generation_id).as_str(), "/", filename)
}

/// The record of a file that was just stored.
pub open spec fn stored(
    id: u128,
    kind: AssetKind,
    filename: Seq<char>,
    mime_type: Seq<char>,
    size_bytes: u64,
    dimensions: Option<(u32, u32)>,
    now: u64,
) -> AssetView {
    AssetView {
        id,
        kind,
        filename,
        mime_type,
        size_bytes,
        width: match dimensions {
            Some(sides) => Some(sides.0),
            None => None,
        },
        height: match dimensions {
            Some(sides) => Some(sides.1),
            None => None,
        },
        duration_seconds: None,
        fps: None,
        created_at: now,
        url: "/api/assets/"@ + identity::hyphenated(id),
    }
}

/// Makes the record of a file that is stored under an identifier.
pub fn new_asset(
    id: u128,
    kind: AssetKind,
    filename: String,
    mime_type: String,
    size_bytes: u64,
    dimensions: Option<(u32, u32)>,
    now: u64,
) -> (asset: Asset)
    ensures
        asset@ == stored(id, kind, filename@, mime_type@, size_bytes, dimensions, now),
{
    let (width, height) = match dimensions {
        Some((wide, high)) => (Some(wide), Some(high)),
        None => (None, None),
    };
    Asset {
        id,
        kind,
        filename,
        mime_type,
        size_bytes,
        width,
        height,
        duration_seconds: None,
        fps: None,
        created_at: now,
        url: text::concat("/api/assets/", identity::id_text(id).as_str()),
    }
}

/// Makes the record of a file that is stored now, under a fresh identifier.
pub fn save_asset(
    kind: AssetKind,
    filename: String,
    mime_type: String,
    size_bytes: u64,
    dimensions: Option<(u32, u32)>,
) -> (asset: Asset)
    ensures
        asset@ == stored(
            asset.id,
            kind,
            filename@,
            mime_type@,
            size_bytes,
            dimensions,
            asset.created_at,
        ),
{
    let id: u128 = identity::new_id();
    let now: u64 = identity::unix_now();
    new_asset(id, kind, filename, mime_type, size_bytes, dimensions, now)
}

// ---------------------------------------------------------------------------
// Reading what a probe says of a file
// ---------------------------------------------------------------------------

/// What a probe says of a video, with its numbers as they were written.
pub struct VideoProbe {
    pub width: u32,
    pub height: u32,
    pub duration: String,
    pub numerator: String,
    pub denominator: String,
}

/// The two sides of a rate: both sides of the stroke, or the whole over one.
pub open spec fn fraction(rate: Seq<char>) -> (Seq<char>, Seq<char>) {
    let at = text::position(rate, '/');
    if at < rate.len() {
        (rate.take(at), rate.skip(at + 1))
    } else {
        (rate, "1"@)
    }
}

/// What a report on a video says: the sides of its first stream in pixels, the
/// duration of the whole, and the two sides of the rate.
pub open spec fn video_report(report: JsonView) -> Option<
    (u32, u32, Seq<char>, Seq<char>, Seq<char>),
> {
    match report.member("streams"@) {
        Some(JsonView::List(streams)) => if streams.len() == 0 {
            None
        } else {
            let stream = streams[0];
            match (
                stream.member("width"@),
                stream.member("height"@),
                report.member("format"@),
                stream.text_member("r_frame_rate"@),
            ) {
                (
                    Some(JsonView::Integer(width)),
                    Some(JsonView::Integer(height)),
                    Some(format),
                    Some(rate),
                ) => match format.text_member("duration"@) {
                    Some(duration) => Some(
                        (
                            width as u32,
                            height as u32,
                            duration,
                            fraction(rate).0,
                            fraction(rate).1,
                        ),
                    ),
                    None => None,
                },
                _ => None,
            }
        },
        _ => None,
    }
}

/// What a probe, or the lack of one, says.
pub open spec fn probe_says(probe: Option<VideoProbe>) -> Option<
    (u32, u32, Seq<char>, Seq<char>, Seq<char>),
> {
    match probe {
        Some(found) => Some(
            (
                found.width,
                found.height,
                found.duration@,
                found.numerator@,
                found.denominator@,
            ),
        ),
        None => None,
    }
}

/// Reads a report on a video; none where it lacks a part.
pub fn read_video_report(report: &Json) -> (probe: Option<VideoProbe>)
    ensures
        probe_says(probe) == video_report(report@),
{
    let streams = match report.get("streams") {
        Some(found) => found,
        None => {
            return None;
        },
    };
    proof {
        json::lemma_shape(*streams);
        json::lemma_parts(*streams);
    }
    let stream = match streams {
        Json::List(items) => {
            if items.len() == 0 {
                return None;
            }
            &items[0]
        },
        _ => {
            return None;
        },
    };
    let width: u64 = match stream.get("width") {
        Some(value) => match value.as_integer() {
            Some(number) => number,
            None => {
                return None;
            },
        },
        None => {
            return None;
        },
    };
    let height: u64 = match stream.get("height") {
        Some(value) => match value.as_integer() {
            Some(number) => number,
            None => {
                return None;
            },
        },
        None => {
            return None;
        },
    };
    let duration = match report.get("format") {
        Some(format) => match format.text_member("duration") {
            Some(found) => found,
            None => {
                return None;
            },
        },
        None => {
            return None;
        },
    };
    let rate = match stream.text_member("r_frame_rate") {
        Some(found) => found,
        None => {
            return None;
        },
    };
    let (numerator, denominator) = match text::split_once(rate, '/') {
        Some((above, below)) => (above.to_owned(), below.to_owned()),
        None => (rate.to_owned(), "1".to_owned()),
    };
    Some(
        VideoProbe {
            #[verifier::truncate]
            width: width as u32,
            #[verifier::truncate]
            height: height as u32,
            duration: duration.to_owned(),
            numerator,
            denominator,
        },
    )
}

/// Reads what the probe of a video wrote; none where that is no report.
pub fn parse_video_probe(output: &[u8]) -> (probe: Option<VideoProbe>)
    ensures
        probe_says(probe) == match json::parsed_document(output@) {
            Some(report) => video_report(report),
            None => None,
        },
{
    match json::parse(output) {
        Some(report) => read_video_report(&report),
        None => None,
    }
}

/// Whether one of some streams is one of sound.
pub open spec fn holds_sound(streams: Seq<JsonView>) -> bool {
    exists|i: int|
        0 <= i < streams.len() && (#[trigger] streams[i]).text_member("codec_type"@) == Some(
            "audio"@,
        )
}

/// The duration that a report on a recording gives, where it has sound.
pub open spec fn audio_report(report: JsonView) -> Option<Seq<char>> {
    match report.member("streams"@) {
        Some(JsonView::List(streams)) => if holds_sound(streams) {
            match report.member("format"@) {
                Some(format) => format.text_member("duration"@),
                None => None,
            }
        } else {
            None
        },
        _ => None,
    }
}

/// Reads the duration that a report on a recording gives, where it has sound.
pub fn read_audio_report(report: &Json) -> (duration: Option<String>)
    ensures
        text::opt(duration) == audio_report(report@),
{
    let streams = match report.get("streams") {
        Some(found) => found,
        None => {
            return None;
        },
    };
    proof {
        json::lemma_shape(*streams);
        json::lemma_parts(*streams);
    }
    let mut sound = false;
    match streams {
        Json::List(items) => {
            let ghost all = json::items_view(items@);
            for i in 0..items.len()
                invariant
                    all == json::items_view(items@),
                    sound <==> exists|j: int|
                        0 <= j < i && (#[trigger] all[j]).text_member("codec_type"@) == Some(
                            "audio"@,
                        ),
            {
                assert(all[i as int] == items@[i as int]@);
                match items[i].text_member("codec_type") {
                    Some(kind) => if *kind == *"audio" {
                        sound = true;
                    },
                    None => {},
                }
            }
            assert(sound == holds_sound(all));
        },
        _ => {
            return None;
        },
    }
    if !sound {
        return None;
    }
    match report.get("format") {
        Some(format) => match format.text_member("duration") {
            Some(found) => Some(found.to_owned()),
            None => None,
        },
        None => None,
    }
}

/// Reads what the probe of a recording wrote; none where that is no report.
pub fn parse_audio_probe(output: &[u8]) -> (duration: Option<String>)
    ensures
        text::opt(duration) == match json::parsed_document(output@) {
            Some(report) => audio_report(report),
            None => None,
        },
{
    match json::parse(output) {
        Some(report) => read_audio_report(&report),
        None => None,
    }
}

// ---------------------------------------------------------------------------
// Uploads
// ---------------------------------------------------------------------------

/// The name given to the sides of the picture that the `image` crate decodes
/// from bytes, or to what it says where it decodes none.
pub uninterp spec fn decoded(content: Seq<u8>) -> Result<(u32, u32), Seq<char>>;

/// What the decoding of a picture says.
pub open spec fn decoding(result: Result<(u32, u32), String>) -> Result<(u32, u32), Seq<char>> {
    match result {
        Ok(sides) => Ok(sides),
        Err(cause) => Err(cause@),
    }
}

/// `image::load_from_memory` and `image::GenericImageView::dimensions` on what it
/// decodes, or the text of its error.
#[verifier::external_body]
pub(crate) fn decode_sides(content: &[u8]) -> (result: Result<(u32, u32), String>)
    ensures
        decoding(result) == decoded(content@),
{
    match image::load_from_memory(content) {
        Ok(picture) => Ok(image::GenericImageView::dimensions(&picture)),
        Err(cause) => Err(cause.to_string()),
    }
}

/// The sides of the picture that bytes hold, `None` where they hold none.
pub open spec fn decoded_sides(content: Seq<u8>) -> Option<(u32, u32)> {
    match decoded(content) {
        Ok(sides) => Some(sides),
        Err(_) => None,
    }
}

/// What a probe found in an uploaded video.
#[derive(Clone, Copy, Debug)]
pub struct VideoFacts {
    pub width: u32,
    pub height: u32,
    pub duration_seconds: Real,
    pub fps: Real,
}

/// What is known of an upload beyond its bytes: the sides of its picture, what
/// the probe found in it as a video, and its duration as a recording.
#[derive(Clone, Copy, Debug)]
pub struct Findings {
    pub sides: Option<(u32, u32)>,
    pub video: Option<VideoFacts>,
    pub audio: Option<Real>,
}

/// Whether a type is one of a picture.
pub open spec fn picture_type(mime: Seq<char>) -> bool {
    text::opens(mime, "image/"@)
}

/// The kind of asset that an upload of a type becomes.
pub open spec fn upload_kind(mime: Seq<char>) -> Option<AssetKind> {
    if picture_type(mime) {
        Some(AssetKind::Image)
    } else if mime == "video/mp4"@ {
        Some(AssetKind::Video)
    } else if mime == "audio/mpeg"@ {
        Some(AssetKind::Audio)
    } else {
        None
    }
}

/// Why an upload is too large, `None` where it is not.
pub open spec fn size_refusal(mime: Seq<char>, length: nat) -> Option<(u16, Seq<char>)> {
    if mime == "video/mp4"@ && length > MAX_VIDEO_BYTES {
        Some((error::BAD_REQUEST, "La vidéo dépasse 512 Mo."@))
    } else if mime != "video/mp4"@ && length > MAX_IMAGE_BYTES {
        Some((error::BAD_REQUEST, "Le fichier dépasse 25 Mo."@))
    } else {
        None
    }
}

/// Refuses an upload that is too large, before anything is looked for in it.
pub fn check_upload_size(mime: &str, length: u64) -> (result: Result<(), ApiError>)
    ensures
        match result {
            Ok(_) => size_refusal(mime@, length as nat) is None,
            Err(refusal) => size_refusal(mime@, length as nat) == Some(error::says(refusal)),
        },
{
    let is_video = *mime == *"video/mp4";
    if is_video && length > MAX_VIDEO_BYTES as u64 {
        return Err(ApiError::bad_request("La vidéo dépasse 512 Mo.".to_owned()));
    }
    if !is_video && length > MAX_IMAGE_BYTES as u64 {
        return Err(ApiError::bad_request("Le fichier dépasse 25 Mo.".to_owned()));
    }
    Ok(())
}

/// Why an upload is refused: too large, of a type that is not taken, or without
/// a picture, a video or sound that can be decoded.
pub open spec fn upload_refusal(mime: Seq<char>, length: nat, findings: Findings) -> Option<
    (u16, Seq<char>),
> {
    if size_refusal(mime, length) is Some {
        size_refusal(mime, length)
    } else {
        match upload_kind(mime) {
            Some(AssetKind::Image) => if findings.sides is None {
                Some((error::BAD_REQUEST, "Le fichier n'est pas une image décodable."@))
            } else {
                None
            },
            Some(AssetKind::Video) => if findings.video is None {
                Some(
                    (
                        error::BAD_REQUEST,
                        "Le fichier MP4 ne contient pas de flux vidéo décodable."@,
                    ),
                )
            } else {
                None
            },
            Some(AssetKind::Audio) => if findings.audio is None {
                Some(
                    (
                        error::BAD_REQUEST,
                        "Le fichier MP3 ne contient pas de flux audio décodable."@,
                    ),
                )
            } else {
                None
            },
            None => Some(
                (
                    error::BAD_REQUEST,
                    "Type refusé. Utilisez PNG, JPEG, WebP, MP4 ou MP3."@,
                ),
            ),
        }
    }
}

/// The ending under which an upload is stored.
pub open spec fn upload_extension(mime: Seq<char>) -> Seq<char> {
    match upload_kind(mime) {
        Some(AssetKind::Video) => "mp4"@,
        Some(AssetKind::Audio) => "mp3"@,
        _ => if mime == "image/jpeg"@ {
            "jpg"@
        } else if mime == "image/webp"@ {
            "webp"@
        } else {
            "png"@
        },
    }
}

/// The record of an upload, with what was found in it.
pub open spec fn uploaded(
    filename: Seq<char>,
    mime: Seq<char>,
    length: u64,
    findings: Findings,
    id: u128,
    now: u64,
) -> AssetView {
    match upload_kind(mime) {
        Some(AssetKind::Video) => AssetView {
            width: Some(findings.video->0.width),
            height: Some(findings.video->0.height),
            duration_seconds: Some(findings.video->0.duration_seconds),
            fps: Some(findings.video->0.fps),
            ..stored(id, AssetKind::Video, filename, mime, length, None, now)
        },
        Some(AssetKind::Audio) => AssetView {
            duration_seconds: findings.audio,
            ..stored(id, AssetKind::Audio, filename, mime, length, None, now)
        },
        _ => stored(id, AssetKind::Image, filename, mime, length, findings.sides, now),
    }
}

/// What an upload, or the refusal of one, says: the record and the ending under
/// which the bytes are stored.
pub open spec fn upload_says(result: Result<(Asset, &'static str), ApiError>) -> Result<
    (AssetView, Seq<char>),
    (u16, Seq<char>),
> {
    match result {
        Ok(admitted) => Ok((admitted.0@, admitted.1@)),
        Err(refusal) => Err(error::says(refusal)),
    }
}

/// An upload as it is kept, or why it is refused.
pub open spec fn upload_outcome(
    filename: Seq<char>,
    mime: Seq<char>,
    length: u64,
    findings: Findings,
    id: u128,
    now: u64,
) -> Result<(AssetView, Seq<char>), (u16, Seq<char>)> {
    match upload_refusal(mime, length as nat, findings) {
        Some(refusal) => Err(refusal),
        None => Ok((uploaded(filename, mime, length, findings, id, now), upload_extension(mime))),
    }
}

/// Admits an upload by what was found in it.
pub fn admit_upload(
    filename: String,
    mime: String,
    length: u64,
    findings: Findings,
    id: u128,
    now: u64,
) -> (result: Result<(Asset, &'static str), ApiError>)
    ensures
        upload_says(result) == upload_outcome(filename@, mime@, length, findings, id, now),
{
    if let Err(refusal) = check_upload_size(mime.as_str(), length) {
        return Err(refusal);
    }
    let is_video = *mime.as_str() == *"video/mp4";
    if text::starts_with(mime.as_str(), "image/") {
        if findings.sides.is_none() {
            return Err(
                ApiError::bad_request("Le fichier n'est pas une image décodable.".to_owned()),
            );
        }
        let extension = if *mime.as_str() == *"image/jpeg" {
            "jpg"
        } else if *mime.as_str() == *"image/webp" {
            "webp"
        } else {
            "png"
        };
        return Ok(
            (
                new_asset(id, AssetKind::Image, filename, mime, length, findings.sides, now),
                extension,
            ),
        );
    }
    if is_video {
        return match findings.video {
            Some(facts) => {
                let mut asset = new_asset(
                    id,
                    AssetKind::Video,
                    filename,
                    mime,
                    length,
                    None,
                    now,
                );
                asset.width = Some(facts.width);
                asset.height = Some(facts.height);
                asset.duration_seconds = Some(facts.duration_seconds);
                asset.fps = Some(facts.fps);
                Ok((asset, "mp4"))
            },
            None => Err(
                ApiError::bad_request(
                    "Le fichier MP4 ne contient pas de flux vidéo décodable.".to_owned(),
                ),
            ),
        };
    }
    if *mime.as_str() == *"audio/mpeg" {
        return match findings.audio {
            Some(duration) => {
                let mut asset = new_asset(
                    id,
                    AssetKind::Audio,
                    filename,
                    mime,
                    length,
                    None,
                    now,
                );
                asset.duration_seconds = Some(duration);
                Ok((asset, "mp3"))
            },
            None => Err(
                ApiError::bad_request(
                    "Le fichier MP3 ne contient pas de flux audio décodable.".to_owned(),
                ),
            ),
        };
    }
    Err(ApiError::bad_request("Type refusé. Utilisez PNG, JPEG, WebP, MP4 ou MP3.".to_owned()))
}

/// What is found in an upload with the probes of video and sound at hand: the
/// picture is decoded where the type is one of a picture.
pub open spec fn findings_of(
    mime: Seq<char>,
    content: Seq<u8>,
    video: Option<VideoFacts>,
    audio: Option<Real>,
) -> Findings {
    Findings {
        sides: if picture_type(mime) {
            decoded_sides(content)
        } else {
            None
        },
        video,
        audio,
    }
}

/// Admits an upload that is not too large: decodes it where it is a picture, and
/// takes what probes found in it where it is a video or a recording.
pub fn receive_upload(
    filename: Option<&str>,
    content_type: Option<&str>,
    content: &[u8],
    video: Option<VideoFacts>,
    audio: Option<Real>,
    id: u128,
    now: u64,
) -> (result: Result<(Asset, &'static str), ApiError>)
    ensures
        ({
            let name = match text::opt_str(filename) {
                Some(given) => given,
                None => "asset"@,
            };
            let mime = match text::opt_str(content_type) {
                Some(given) => given,
                None => "application/octet-stream"@,
            };
            upload_says(result) == upload_outcome(
                name,
                mime,
                content@.len() as u64,
                findings_of(mime, content@, video, audio),
                id,
                now,
            )
        }),
{
    let name = match filename {
        Some(given) => given,
        None => "asset",
    };
    let mime = match content_type {
        Some(given) => given,
        None => "application/octet-stream",
    };
    if let Err(refusal) = check_upload_size(mime, content.len() as u64) {
        return Err(refusal);
    }
    let sides = if text::starts_with(mime, "image/") {
        match decode_sides(content) {
            Ok(found) => Some(found),
            Err(_) => None,
        }
    } else {
        None
    };
    admit_upload(
        name.to_owned(),
        mime.to_owned(),
        content.len() as u64,
        Findings { sides, video, audio },
        id,
        now,
    )
}

/// What is said of a form without a file.
pub fn missing_file() -> (refusal: ApiError)
    ensures
        error::says(refusal) == (
            error::BAD_REQUEST,
            "Le champ multipart `file` est obligatoire."@,
        ),
{
    ApiError::bad_request("Le champ multipart `file` est obligatoire.".to_owned())
}

// ---------------------------------------------------------------------------
// Listing
// ---------------------------------------------------------------------------

/// What a list of assets says.
pub open spec fn assets_view(list: Seq<Asset>) -> Seq<AssetView> {
    Seq::new(list.len(), |i: int| list[i]@)
}

/// When assets were created.
pub open spec fn creations(list: Seq<AssetView>) -> Seq<u64> {
    Seq::new(list.len(), |i: int| list[i].created_at)
}

/// Whether a list is that of assets with the newer first, and those of one time
/// in their order.
pub open spec fn is_listing(listing: Seq<AssetView>, list: Seq<AssetView>) -> bool {
    exists|order: Seq<usize>|
        order::stable(order, list.len(), order::falling(creations(list))) && listing
            == #[trigger] order::picked(list, order)
}

/// Lists assets, the newer first.
pub fn list_assets(list: &Vec<Asset>) -> (listing: Vec<Asset>)
    ensures
        is_listing(assets_view(listing@), assets_view(list@)),
{
    let mut keys: Vec<u64> = Vec::new();
    for k in 0..list.len()
        invariant
            keys@.len() == k,
            forall|j: int| 0 <= j < k ==> keys@[j] == (#[trigger] list@[j])@.created_at,
    {
        keys.push(list[k].created_at);
    }
    assert(keys@ =~= creations(assets_view(list@)));
    let order = order::falling_order(&keys);
    let mut listing: Vec<Asset> = Vec::new();
    for n in 0..order.len()
        invariant
            order::permutes(order@, list@.len()),
            listing@.len() == n,
            forall|i: int| 0 <= i < n ==> (#[trigger] listing@[i])@ == list@[order@[i] as int]@,
    {
        let at: usize = order[n];
        listing.push(list[at].copy());
    }
    assert(assets_view(listing@) =~= order::picked(assets_view(list@), order@));
    listing
}

// ---------------------------------------------------------------------------
// Laws
// ---------------------------------------------------------------------------

/// An upload of a type that is read back is stored under the ending at which it
/// is looked for.
pub proof fn law_uploads_are_found_again(mime: Seq<char>, length: nat, findings: Findings)
    requires
        upload_refusal(mime, length, findings) is None,
        extension_of(mime) != "bin"@,
    ensures
        upload_extension(mime) == extension_of(mime),
{
    reveal_strlit("image/");
    reveal_strlit("image/png");
    reveal_strlit("image/jpeg");
    reveal_strlit("image/webp");
    reveal_strlit("video/mp4");
    reveal_strlit("audio/mpeg");
    assert("video/mp4"@[0] != "image/"@[0]);
    assert("audio/mpeg"@[0] != "image/"@[0]);
    assert("image/png"@[6] != "image/jpeg"@[6]);
    assert("image/png"@[6] != "image/webp"@[6]);
    assert("image/jpeg"@[6] != "image/webp"@[6]);
    assert("video/mp4"@.len() == 9 && "audio/mpeg"@.len() == 10);
    assert(mime == "video/mp4"@ ==> mime.take(6)[0] != "image/"@[0]);
    assert(mime == "audio/mpeg"@ ==> mime.take(6)[0] != "image/"@[0]);
}

/// An upload that is admitted has what its kind is known by: sides for a picture
/// and a video, a duration for a video and a recording.
pub proof fn law_uploads_are_complete(
    filename: Seq<char>,
    mime: Seq<char>,
    length: u64,
    findings: Findings,
    id: u128,
    now: u64,
)
    requires
        upload_refusal(mime, length as nat, findings) is None,
    ensures
        ({
            let asset = uploaded(filename, mime, length, findings, id, now);
            &&& asset.kind != AssetKind::Audio ==> asset.width is Some && asset.height is Some
            &&& asset.kind != AssetKind::Image ==> asset.duration_seconds is Some
            &&& asset.size_bytes <= MAX_VIDEO_BYTES
        }),
{
}

/// An upload is taken exactly where it is not too large and is a picture, a video
/// or a recording in which what its type promises was found.
pub proof fn law_uploads_are_what_they_promise(
    filename: Seq<char>,
    mime: Seq<char>,
    length: u64,
    findings: Findings,
    id: u128,
    now: u64,
)
    ensures
        upload_outcome(filename, mime, length, findings, id, now) is Ok <==> {
            ||| text::opens(mime, "image/"@) && length <= 26214400 && findings.sides is Some
            ||| mime == "video/mp4"@ && length <= 536870912 && findings.video is Some
            ||| mime == "audio/mpeg"@ && length <= 26214400 && findings.audio is Some
        },
        upload_outcome(filename, mime, length, findings, id, now) matches Err(refusal)
            ==> refusal.0 == 400,
{
    reveal_strlit("image/");
    reveal_strlit("video/mp4");
    reveal_strlit("audio/mpeg");
    assert("image/"@[0] == 'i' && "video/mp4"@[0] == 'v' && "audio/mpeg"@[0] == 'a' && "image/"@.len()
        == 6);
    if text::opens(mime, "image/"@) {
        assert(mime.take(6)[0] == 'i');
    }
}

/// What is kept of an upload is what was uploaded: its name, its type, its length,
/// and of its content what was found in it, with the ending of its type.
pub proof fn law_uploads_are_kept_as_they_came(
    filename: Seq<char>,
    mime: Seq<char>,
    length: u64,
    findings: Findings,
    id: u128,
    now: u64,
    asset: AssetView,
    extension: Seq<char>,
)
    requires
        upload_outcome(filename, mime, length, findings, id, now) == Ok::<
            (AssetView, Seq<char>),
            (u16, Seq<char>),
        >((asset, extension)),
    ensures
        asset.id == id && asset.filename == filename && asset.mime_type == mime && asset.size_bytes
            == length && asset.created_at == now,
        asset.url == "/api/assets/"@ + identity::hyphenated(id),
        text::opens(mime, "image/"@) ==> asset.kind == AssetKind::Image && (findings.sides
            matches Some(sides) && asset.width == Some(sides.0) && asset.height == Some(sides.1))
            && asset.duration_seconds is None,
        mime == "video/mp4"@ ==> asset.kind == AssetKind::Video && (findings.video matches Some(
            facts,
        ) && asset.width == Some(facts.width) && asset.height == Some(facts.height)
            && asset.duration_seconds == Some(facts.duration_seconds) && asset.fps == Some(
            facts.fps,
        )) && extension == "mp4"@,
        mime == "audio/mpeg"@ ==> asset.kind == AssetKind::Audio && asset.duration_seconds
            == findings.audio && asset.width is None && extension == "mp3"@,
        mime == "image/jpeg"@ ==> extension == "jpg"@,
        mime == "image/webp"@ ==> extension == "webp"@,
        mime == "image/png"@ ==> extension == "png"@,
{
    reveal_strlit("image/");
    reveal_strlit("video/mp4");
    reveal_strlit("audio/mpeg");
    reveal_strlit("image/jpeg");
    reveal_strlit("image/webp");
    reveal_strlit("image/png");
    assert("image/"@[0] == 'i' && "video/mp4"@[0] == 'v' && "audio/mpeg"@[0] == 'a' && "image/"@.len()
        == 6);
    assert("image/png"@.len() == 9 && "image/jpeg"@.len() == 10 && "image/webp"@.len() == 10
        && "image/jpeg"@[6] == 'j' && "image/webp"@[6] == 'w');
    if text::opens(mime, "image/"@) {
        assert(mime.take(6)[0] == 'i');
    }
    assert("image/jpeg"@.take(6) =~= "image/"@);
    assert("image/webp"@.take(6) =~= "image/"@);
    assert("image/png"@.take(6) =~= "image/"@);
}

/// What is saved says what it is, where it is found and when it was made.
pub proof fn law_saved_assets_are_found(
    id: u128,
    kind: AssetKind,
    filename: Seq<char>,
    mime: Seq<char>,
    size: u64,
    sides: Option<(u32, u32)>,
    now: u64,
)
    ensures
        ({
            let asset = stored(id, kind, filename, mime, size, sides, now);
            &&& asset.id == id && asset.kind == kind && asset.filename == filename
                && asset.mime_type == mime && asset.size_bytes == size && asset.created_at == now
            &&& asset.url == "/api/assets/"@ + identity::hyphenated(id)
            &&& sides matches Some(found) ==> asset.width == Some(found.0) && asset.height == Some(
                found.1,
            )
            &&& sides is None ==> asset.width is None && asset.height is None
        }),
        extension_of("image/png"@) == "png"@,
        mime == "image/jpeg"@ ==> extension_of(mime) == "jpg"@,
        mime == "image/webp"@ ==> extension_of(mime) == "webp"@,
        mime == "video/mp4"@ ==> extension_of(mime) == "mp4"@,
        mime == "audio/mpeg"@ ==> extension_of(mime) == "mp3"@,
        mime != "image/png"@ && mime != "image/jpeg"@ && mime != "image/webp"@ && mime
            != "video/mp4"@ && mime != "audio/mpeg"@ ==> extension_of(mime) == "bin"@,
{
    reveal_strlit("image/png");
    reveal_strlit("image/jpeg");
    reveal_strlit("image/webp");
    reveal_strlit("video/mp4");
    reveal_strlit("audio/mpeg");
    assert("image/png"@.len() == 9 && "image/jpeg"@.len() == 10 && "image/webp"@.len() == 10
        && "video/mp4"@.len() == 9 && "audio/mpeg"@.len() == 10);
    assert("image/png"@[0] == 'i' && "video/mp4"@[0] == 'v' && "audio/mpeg"@[0] == 'a'
        && "image/jpeg"@[0] == 'i' && "image/webp"@[0] == 'i' && "image/jpeg"@[6] == 'j'
        && "image/webp"@[6] == 'w');
}

/// A list of assets holds each of them once, and none is older than one that stands
/// behind it.
pub proof fn law_newer_assets_come_first(listing: Seq<AssetView>, list: Seq<AssetView>)
    requires
        is_listing(listing, list),
        list.len() <= usize::MAX,
    ensures
        listing.len() == list.len(),
        forall|i: int| 0 <= i < list.len() ==> list.contains(#[trigger] listing[i]),
        forall|i: int| 0 <= i < list.len() ==> listing.contains(#[trigger] list[i]),
        forall|i: int, j: int|
            0 <= i < j < listing.len() ==> (#[trigger] listing[i]).created_at >= (
            #[trigger] listing[j]).created_at,
{
    let order = choose|order: Seq<usize>|
        order::stable(order, list.len(), order::falling(creations(list))) && listing
            == #[trigger] order::picked(list, order);
    order::lemma_picked_are_all(list, order);
    assert forall|i: int, j: int| 0 <= i < j < listing.len() implies (
    #[trigger] listing[i]).created_at >= (#[trigger] listing[j]).created_at by {
        order::law_keys_are_in_order(order, creations(list), i, j);
        assert(order[i] < list.len() && order[j] < list.len());
    }
}

/// A report of a video gives the sides of its first stream, its duration and its
/// rate; one without a stream, or without one of these, gives nothing.
pub proof fn law_reports_of_videos_are_read(report: JsonView)
    ensures
        video_report(report) matches Some(found) ==> {
            &&& report.member("streams"@) matches Some(JsonView::List(streams)) && streams.len() > 0
                && (streams[0].member("width"@) matches Some(JsonView::Integer(wide)) && found.0
                == wide as u32) && (streams[0].member("height"@) matches Some(
                JsonView::Integer(high),
            ) && found.1 == high as u32) && (report.member("format"@) matches Some(format)
                && format.text_member("duration"@) == Some(found.2)) && (streams[0].text_member(
                "r_frame_rate"@,
            ) matches Some(rate) && (found.3 + "/"@ + found.4 == rate || (found.3 == rate && found.4
                == "1"@)))
        },
        report.member("streams"@) is None ==> video_report(report) is None,
{
    reveal_strlit("/");
    match report.member("streams"@) {
        Some(JsonView::List(streams)) => {
            if streams.len() > 0 {
                match streams[0].text_member("r_frame_rate"@) {
                    Some(rate) => {
                        let at = text::position(rate, '/');
                        text::lemma_position_bound(rate, '/');
                        if at < rate.len() {
                            lemma_position_marks(rate, '/');
                            assert(rate.take(at) + "/"@ + rate.skip(at + 1) =~= rate);
                        }
                    },
                    None => {},
                }
            }
        },
        _ => {},
    }
}

proof fn lemma_position_marks(content: Seq<char>, mark: char)
    ensures
        0 <= text::position(content, mark) <= content.len(),
        text::position(content, mark) < content.len() ==> content[text::position(content, mark)]
            == mark,
    decreases content.len(),
{
    if content.len() > 0 && content[0] != mark {
        lemma_position_marks(content.skip(1), mark);
    }
}

/// A recording is one in which a stream of sound was found, with the duration that
/// the report gives.
pub proof fn law_reports_of_sound_are_read(report: JsonView)
    ensures
        audio_report(report) matches Some(duration) ==> {
            &&& report.member("streams"@) matches Some(JsonView::List(streams)) && exists|i: int|
                0 <= i < streams.len() && (#[trigger] streams[i]).text_member("codec_type"@) == Some(
                    "audio"@,
                )
            &&& report.member("format"@) matches Some(format) && format.text_member("duration"@)
                == Some(duration)
        },
{
}

} // verus!
