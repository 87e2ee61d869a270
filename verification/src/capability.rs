//! What models can do, the modes a generation can run in, and how the two meet.
use crate::text;
use vstd::prelude::*;
use vstd::string::*;

verus! {

/// One thing that a model can do.
#[derive(Clone, Copy, Debug, PartialEq, Eq, Structural)]
pub enum ModelCapability {
    Chat,
    Vision,
    TextToImage,
    ImageToImage,
    Inpainting,
    Outpainting,
    ImageVariation,
    ImageUpscale,
    ControlledImageGeneration,
    TextToVideo,
    ImageToVideo,
    MultiImageToVideo,
    StartEndImageToVideo,
    KeyframesToVideo,
    VideoToVideo,
    VideoInpainting,
    VideoUpscale,
    Audio,
    TextToSpeech,
    SpeechToText,
    CapabilityUnknown,
}

/// The mode of a generation.
#[derive(Clone, Copy, Debug, PartialEq, Eq, Structural)]
pub enum GenerationMode {
    TextToImage,
    ImageToImage,
    TextToVideo,
    ImageToVideo,
    VideoToVideo,
}

impl GenerationMode {
    /// The name of the value in documents.
    pub open spec fn name(self) -> Seq<char> {
        match self {
            GenerationMode::TextToImage => "TEXT_TO_IMAGE"@,
            GenerationMode::ImageToImage => "IMAGE_TO_IMAGE"@,
            GenerationMode::TextToVideo => "TEXT_TO_VIDEO"@,
            GenerationMode::ImageToVideo => "IMAGE_TO_VIDEO"@,
            GenerationMode::VideoToVideo => "VIDEO_TO_VIDEO"@,
        }
    }

    /// The name of the value in documents.
    pub fn api_name(&self) -> (name: &'static str)
        ensures
            name@ == self.name(),
    {
        match self {
            GenerationMode::TextToImage => "TEXT_TO_IMAGE",
            GenerationMode::ImageToImage => "IMAGE_TO_IMAGE",
            GenerationMode::TextToVideo => "TEXT_TO_VIDEO",
            GenerationMode::ImageToVideo => "IMAGE_TO_VIDEO",
            GenerationMode::VideoToVideo => "VIDEO_TO_VIDEO",
        }
    }
}

impl ModelCapability {
    /// The name of a capability in the API.
    pub open spec fn name(self) -> Seq<char> {
        match self {
            ModelCapability::Chat => "CHAT"@,
            ModelCapability::Vision => "VISION"@,
            ModelCapability::TextToImage => "TEXT_TO_IMAGE"@,
            ModelCapability::ImageToImage => "IMAGE_TO_IMAGE"@,
            ModelCapability::Inpainting => "INPAINTING"@,
            ModelCapability::Outpainting => "OUTPAINTING"@,
            ModelCapability::ImageVariation => "IMAGE_VARIATION"@,
            ModelCapability::ImageUpscale => "IMAGE_UPSCALE"@,
            ModelCapability::ControlledImageGeneration => "CONTROLLED_IMAGE_GENERATION"@,
            ModelCapability::TextToVideo => "TEXT_TO_VIDEO"@,
            ModelCapability::ImageToVideo => "IMAGE_TO_VIDEO"@,
            ModelCapability::MultiImageToVideo => "MULTI_IMAGE_TO_VIDEO"@,
            ModelCapability::StartEndImageToVideo => "START_END_IMAGE_TO_VIDEO"@,
            ModelCapability::KeyframesToVideo => "KEYFRAMES_TO_VIDEO"@,
            ModelCapability::VideoToVideo => "VIDEO_TO_VIDEO"@,
            ModelCapability::VideoInpainting => "VIDEO_INPAINTING"@,
            ModelCapability::VideoUpscale => "VIDEO_UPSCALE"@,
            ModelCapability::Audio => "AUDIO"@,
            ModelCapability::TextToSpeech => "TEXT_TO_SPEECH"@,
            ModelCapability::SpeechToText => "SPEECH_TO_TEXT"@,
            ModelCapability::CapabilityUnknown => "UNKNOWN"@,
        }
    }

    /// The name of a capability in the API.
    pub fn api_name(&self) -> (name: &'static str)
        ensures
            name@ == self.name(),
    {
        match self {
            ModelCapability::Chat => "CHAT",
            ModelCapability::Vision => "VISION",
            ModelCapability::TextToImage => "TEXT_TO_IMAGE",
            ModelCapability::ImageToImage => "IMAGE_TO_IMAGE",
            ModelCapability::Inpainting => "INPAINTING",
            ModelCapability::Outpainting => "OUTPAINTING",
            ModelCapability::ImageVariation => "IMAGE_VARIATION",
            ModelCapability::ImageUpscale => "IMAGE_UPSCALE",
            ModelCapability::ControlledImageGeneration => "CONTROLLED_IMAGE_GENERATION",
            ModelCapability::TextToVideo => "TEXT_TO_VIDEO",
            ModelCapability::ImageToVideo => "IMAGE_TO_VIDEO",
            ModelCapability::MultiImageToVideo => "MULTI_IMAGE_TO_VIDEO",
            ModelCapability::StartEndImageToVideo => "START_END_IMAGE_TO_VIDEO",
            ModelCapability::KeyframesToVideo => "KEYFRAMES_TO_VIDEO",
            ModelCapability::VideoToVideo => "VIDEO_TO_VIDEO",
            ModelCapability::VideoInpainting => "VIDEO_INPAINTING",
            ModelCapability::VideoUpscale => "VIDEO_UPSCALE",
            ModelCapability::Audio => "AUDIO",
            ModelCapability::TextToSpeech => "TEXT_TO_SPEECH",
            ModelCapability::SpeechToText => "SPEECH_TO_TEXT",
            ModelCapability::CapabilityUnknown => "UNKNOWN",
        }
    }
}

/// The capability with a given API name.
pub open spec fn named(name: Seq<char>) -> Option<ModelCapability> {
    if name == "CHAT"@ {
        Some(ModelCapability::Chat)
    } else if name == "VISION"@ {
        Some(ModelCapability::Vision)
    } else if name == "TEXT_TO_IMAGE"@ {
        Some(ModelCapability::TextToImage)
    } else if name == "IMAGE_TO_IMAGE"@ {
        Some(ModelCapability::ImageToImage)
    } else if name == "INPAINTING"@ {
        Some(ModelCapability::Inpainting)
    } else if name == "OUTPAINTING"@ {
        Some(ModelCapability::Outpainting)
    } else if name == "IMAGE_VARIATION"@ {
        Some(ModelCapability::ImageVariation)
    } else if name == "IMAGE_UPSCALE"@ {
        Some(ModelCapability::ImageUpscale)
    } else if name == "CONTROLLED_IMAGE_GENERATION"@ {
        Some(ModelCapability::ControlledImageGeneration)
    } else if name == "TEXT_TO_VIDEO"@ {
        Some(ModelCapability::TextToVideo)
    } else if name == "IMAGE_TO_VIDEO"@ {
        Some(ModelCapability::ImageToVideo)
    } else if name == "MULTI_IMAGE_TO_VIDEO"@ {
        Some(ModelCapability::MultiImageToVideo)
    } else if name == "START_END_IMAGE_TO_VIDEO"@ {
        Some(ModelCapability::StartEndImageToVideo)
    } else if name == "KEYFRAMES_TO_VIDEO"@ {
        Some(ModelCapability::KeyframesToVideo)
    } else if name == "VIDEO_TO_VIDEO"@ {
        Some(ModelCapability::VideoToVideo)
    } else if name == "VIDEO_INPAINTING"@ {
        Some(ModelCapability::VideoInpainting)
    } else if name == "VIDEO_UPSCALE"@ {
        Some(ModelCapability::VideoUpscale)
    } else if name == "AUDIO"@ {
        Some(ModelCapability::Audio)
    } else if name == "TEXT_TO_SPEECH"@ {
        Some(ModelCapability::TextToSpeech)
    } else if name == "SPEECH_TO_TEXT"@ {
        Some(ModelCapability::SpeechToText)
    } else if name == "UNKNOWN"@ {
        Some(ModelCapability::CapabilityUnknown)
    } else {
        None
    }
}

/// Reads the API name of a capability.
pub fn from_api_name(name: &str) -> (capability: Option<ModelCapability>)
    ensures
        capability == named(name@),
{
    if *name == *"CHAT" {
        Some(ModelCapability::Chat)
    } else if *name == *"VISION" {
        Some(ModelCapability::Vision)
    } else if *name == *"TEXT_TO_IMAGE" {
        Some(ModelCapability::TextToImage)
    } else if *name == *"IMAGE_TO_IMAGE" {
        Some(ModelCapability::ImageToImage)
    } else if *name == *"INPAINTING" {
        Some(ModelCapability::Inpainting)
    } else if *name == *"OUTPAINTING" {
        Some(ModelCapability::Outpainting)
    } else if *name == *"IMAGE_VARIATION" {
        Some(ModelCapability::ImageVariation)
    } else if *name == *"IMAGE_UPSCALE" {
        Some(ModelCapability::ImageUpscale)
    } else if *name == *"CONTROLLED_IMAGE_GENERATION" {
        Some(ModelCapability::ControlledImageGeneration)
    } else if *name == *"TEXT_TO_VIDEO" {
        Some(ModelCapability::TextToVideo)
    } else if *name == *"IMAGE_TO_VIDEO" {
        Some(ModelCapability::ImageToVideo)
    } else if *name == *"MULTI_IMAGE_TO_VIDEO" {
        Some(ModelCapability::MultiImageToVideo)
    } else if *name == *"START_END_IMAGE_TO_VIDEO" {
        Some(ModelCapability::StartEndImageToVideo)
    } else if *name == *"KEYFRAMES_TO_VIDEO" {
        Some(ModelCapability::KeyframesToVideo)
    } else if *name == *"VIDEO_TO_VIDEO" {
        Some(ModelCapability::VideoToVideo)
    } else if *name == *"VIDEO_INPAINTING" {
        Some(ModelCapability::VideoInpainting)
    } else if *name == *"VIDEO_UPSCALE" {
        Some(ModelCapability::VideoUpscale)
    } else if *name == *"AUDIO" {
        Some(ModelCapability::Audio)
    } else if *name == *"TEXT_TO_SPEECH" {
        Some(ModelCapability::TextToSpeech)
    } else if *name == *"SPEECH_TO_TEXT" {
        Some(ModelCapability::SpeechToText)
    } else if *name == *"UNKNOWN" {
        Some(ModelCapability::CapabilityUnknown)
    } else {
        None
    }
}

/// Reading the name of a capability gives the capability back, and a text that
/// is read at all is the name of what it is read as.
pub proof fn law_api_names_identify_capabilities(capability: ModelCapability, text: Seq<char>)
    ensures
        named(capability.name()) == Some(capability),
        named(text) is Some ==> named(text)->0.name() == text,
{
    reveal_strlit("CHAT");
    reveal_strlit("VISION");
    reveal_strlit("TEXT_TO_IMAGE");
    reveal_strlit("IMAGE_TO_IMAGE");
    reveal_strlit("INPAINTING");
    reveal_strlit("OUTPAINTING");
    reveal_strlit("IMAGE_VARIATION");
    reveal_strlit("IMAGE_UPSCALE");
    reveal_strlit("CONTROLLED_IMAGE_GENERATION");
    reveal_strlit("TEXT_TO_VIDEO");
    reveal_strlit("IMAGE_TO_VIDEO");
    reveal_strlit("MULTI_IMAGE_TO_VIDEO");
    reveal_strlit("START_END_IMAGE_TO_VIDEO");
    reveal_strlit("KEYFRAMES_TO_VIDEO");
    reveal_strlit("VIDEO_TO_VIDEO");
    reveal_strlit("VIDEO_INPAINTING");
    reveal_strlit("VIDEO_UPSCALE");
    reveal_strlit("AUDIO");
    reveal_strlit("TEXT_TO_SPEECH");
    reveal_strlit("SPEECH_TO_TEXT");
    reveal_strlit("UNKNOWN");
    // Names differ in length or in some place.
    assert("CHAT"@.len() == 4);
    assert("VISION"@.len() == 6);
    assert("TEXT_TO_IMAGE"@.len() == 13);
    assert("IMAGE_TO_IMAGE"@.len() == 14);
    assert("INPAINTING"@.len() == 10);
    assert("OUTPAINTING"@.len() == 11);
    assert("IMAGE_VARIATION"@.len() == 15);
    assert("IMAGE_UPSCALE"@.len() == 13);
    assert("CONTROLLED_IMAGE_GENERATION"@.len() == 27);
    assert("TEXT_TO_VIDEO"@.len() == 13);
    assert("IMAGE_TO_VIDEO"@.len() == 14);
    assert("MULTI_IMAGE_TO_VIDEO"@.len() == 20);
    assert("START_END_IMAGE_TO_VIDEO"@.len() == 24);
    assert("KEYFRAMES_TO_VIDEO"@.len() == 18);
    assert("VIDEO_TO_VIDEO"@.len() == 14);
    assert("VIDEO_INPAINTING"@.len() == 16);
    assert("VIDEO_UPSCALE"@.len() == 13);
    assert("AUDIO"@.len() == 5);
    assert("TEXT_TO_SPEECH"@.len() == 14);
    assert("SPEECH_TO_TEXT"@.len() == 14);
    assert("UNKNOWN"@.len() == 7);
    assert("TEXT_TO_IMAGE"@[0] != "IMAGE_UPSCALE"@[0]);
    assert("TEXT_TO_IMAGE"@[8] != "TEXT_TO_VIDEO"@[8]);
    assert("TEXT_TO_IMAGE"@[0] != "VIDEO_UPSCALE"@[0]);
    assert("IMAGE_TO_IMAGE"@[9] != "IMAGE_TO_VIDEO"@[9]);
    assert("IMAGE_TO_IMAGE"@[0] != "VIDEO_TO_VIDEO"@[0]);
    assert("IMAGE_TO_IMAGE"@[0] != "TEXT_TO_SPEECH"@[0]);
    assert("IMAGE_TO_IMAGE"@[0] != "SPEECH_TO_TEXT"@[0]);
    assert("IMAGE_UPSCALE"@[0] != "TEXT_TO_VIDEO"@[0]);
    assert("IMAGE_UPSCALE"@[0] != "VIDEO_UPSCALE"@[0]);
    assert("TEXT_TO_VIDEO"@[0] != "VIDEO_UPSCALE"@[0]);
    assert("IMAGE_TO_VIDEO"@[0] != "VIDEO_TO_VIDEO"@[0]);
    assert("IMAGE_TO_VIDEO"@[0] != "TEXT_TO_SPEECH"@[0]);
    assert("IMAGE_TO_VIDEO"@[0] != "SPEECH_TO_TEXT"@[0]);
    assert("VIDEO_TO_VIDEO"@[0] != "TEXT_TO_SPEECH"@[0]);
    assert("VIDEO_TO_VIDEO"@[0] != "SPEECH_TO_TEXT"@[0]);
    assert("TEXT_TO_SPEECH"@[0] != "SPEECH_TO_TEXT"@[0]);
}

// ---------------------------------------------------------------------------
// Image generations
// ---------------------------------------------------------------------------

/// The capabilities that edit or extend a given image.
pub open spec fn edits_image(capability: ModelCapability) -> bool {
    ||| capability == ModelCapability::ImageToImage
    ||| capability == ModelCapability::Inpainting
    ||| capability == ModelCapability::Outpainting
    ||| capability == ModelCapability::ImageVariation
    ||| capability == ModelCapability::ImageUpscale
    ||| capability == ModelCapability::ControlledImageGeneration
}

/// The capabilities that animate images.
pub open spec fn animates_images(capability: ModelCapability) -> bool {
    ||| capability == ModelCapability::ImageToVideo
    ||| capability == ModelCapability::MultiImageToVideo
    ||| capability == ModelCapability::StartEndImageToVideo
    ||| capability == ModelCapability::KeyframesToVideo
}

/// The capabilities that transform a video.
pub open spec fn edits_video(capability: ModelCapability) -> bool {
    ||| capability == ModelCapability::VideoToVideo
    ||| capability == ModelCapability::VideoInpainting
    ||| capability == ModelCapability::VideoUpscale
}

/// The worker path that serves an image capability; the path of image editing
/// serves every capability that has none of its own.
pub open spec fn image_path(capability: ModelCapability) -> Seq<char> {
    match capability {
        ModelCapability::TextToImage => "/v1/generate/text-to-image"@,
        ModelCapability::Inpainting => "/v1/generate/inpainting"@,
        ModelCapability::Outpainting => "/v1/generate/outpainting"@,
        ModelCapability::ImageVariation => "/v1/generate/image-variation"@,
        ModelCapability::ImageUpscale => "/v1/generate/image-upscale"@,
        ModelCapability::ControlledImageGeneration =>
            "/v1/generate/controlled-image-generation"@,
        _ => "/v1/generate/image-to-image"@,
    }
}

/// The worker path that serves an image capability.
pub fn image_endpoint(capability: &ModelCapability) -> (path: &'static str)
    ensures
        path@ == image_path(*capability),
{
    match capability {
        ModelCapability::TextToImage => "/v1/generate/text-to-image",
        ModelCapability::ImageToImage => "/v1/generate/image-to-image",
        ModelCapability::Inpainting => "/v1/generate/inpainting",
        ModelCapability::Outpainting => "/v1/generate/outpainting",
        ModelCapability::ImageVariation => "/v1/generate/image-variation",
        ModelCapability::ImageUpscale => "/v1/generate/image-upscale",
        ModelCapability::ControlledImageGeneration => "/v1/generate/controlled-image-generation",
        _ => "/v1/generate/image-to-image",
    }
}

/// The capability that an image mode stands for.
pub open spec fn image_default(mode: GenerationMode) -> Option<ModelCapability> {
    match mode {
        GenerationMode::TextToImage => Some(ModelCapability::TextToImage),
        GenerationMode::ImageToImage => Some(ModelCapability::ImageToImage),
        _ => None,
    }
}

/// The capability that a request for an image mode asks for when it names none.
pub fn image_capability_mode_default(mode: &GenerationMode) -> (capability: Option<ModelCapability>)
    ensures
        capability == image_default(*mode),
{
    match mode {
        GenerationMode::TextToImage => Some(ModelCapability::TextToImage),
        GenerationMode::ImageToImage => Some(ModelCapability::ImageToImage),
        _ => None,
    }
}

/// Whether a capability may be asked for in an image mode.
pub open spec fn image_family(mode: GenerationMode, capability: ModelCapability) -> bool {
    match mode {
        GenerationMode::TextToImage => capability == ModelCapability::TextToImage,
        GenerationMode::ImageToImage => edits_image(capability),
        _ => false,
    }
}

/// Whether a capability belongs to the family of an image mode.
pub fn is_valid_image_capability_for_mode(
    mode: &GenerationMode,
    capability: &ModelCapability,
) -> (valid: bool)
    ensures
        valid == image_family(*mode, *capability),
{
    match mode {
        GenerationMode::TextToImage => *capability == ModelCapability::TextToImage,
        GenerationMode::ImageToImage => matches!(
            capability,
            ModelCapability::ImageToImage | ModelCapability::Inpainting
                | ModelCapability::Outpainting | ModelCapability::ImageVariation
                | ModelCapability::ImageUpscale | ModelCapability::ControlledImageGeneration
        ),
        GenerationMode::TextToVideo | GenerationMode::ImageToVideo
        | GenerationMode::VideoToVideo => false,
    }
}

// ---------------------------------------------------------------------------
// Video generations
// ---------------------------------------------------------------------------

/// Whether a mode produces a video.
pub open spec fn video_mode(mode: GenerationMode) -> bool {
    mode == GenerationMode::TextToVideo || mode == GenerationMode::ImageToVideo || mode
        == GenerationMode::VideoToVideo
}

/// Whether a mode produces a video.
pub fn is_video_mode(mode: &GenerationMode) -> (yes: bool)
    ensures
        yes == video_mode(*mode),
{
    matches!(
        mode,
        GenerationMode::TextToVideo | GenerationMode::ImageToVideo | GenerationMode::VideoToVideo
    )
}

/// The capability that a video mode stands for.
pub open spec fn video_default(mode: GenerationMode) -> Option<ModelCapability> {
    match mode {
        GenerationMode::TextToVideo => Some(ModelCapability::TextToVideo),
        GenerationMode::ImageToVideo => Some(ModelCapability::ImageToVideo),
        GenerationMode::VideoToVideo => Some(ModelCapability::VideoToVideo),
        _ => None,
    }
}

/// The capability that a request for a video mode asks for when it names none.
pub fn video_capability_mode_default(mode: &GenerationMode) -> (capability: Option<ModelCapability>)
    ensures
        capability == video_default(*mode),
{
    match mode {
        GenerationMode::TextToVideo => Some(ModelCapability::TextToVideo),
        GenerationMode::ImageToVideo => Some(ModelCapability::ImageToVideo),
        GenerationMode::VideoToVideo => Some(ModelCapability::VideoToVideo),
        GenerationMode::TextToImage | GenerationMode::ImageToImage => None,
    }
}

/// The worker path that serves a video capability; the path of video editing
/// serves every capability that has none of its own.
pub open spec fn video_path(capability: ModelCapability) -> Seq<char> {
    match capability {
        ModelCapability::TextToVideo => "/v1/generate/text-to-video"@,
        ModelCapability::ImageToVideo => "/v1/generate/image-to-video"@,
        ModelCapability::MultiImageToVideo => "/v1/generate/multi-image-to-video"@,
        ModelCapability::StartEndImageToVideo => "/v1/generate/start-end-image-to-video"@,
        ModelCapability::KeyframesToVideo => "/v1/generate/keyframes-to-video"@,
        ModelCapability::VideoInpainting => "/v1/generate/video-inpainting"@,
        ModelCapability::VideoUpscale => "/v1/generate/video-upscale"@,
        _ => "/v1/generate/video-to-video"@,
    }
}

/// The worker path that serves a video capability.
pub fn video_endpoint(capability: &ModelCapability) -> (path: &'static str)
    ensures
        path@ == video_path(*capability),
{
    match capability {
        ModelCapability::TextToVideo => "/v1/generate/text-to-video",
        ModelCapability::ImageToVideo => "/v1/generate/image-to-video",
        ModelCapability::MultiImageToVideo => "/v1/generate/multi-image-to-video",
        ModelCapability::StartEndImageToVideo => "/v1/generate/start-end-image-to-video",
        ModelCapability::KeyframesToVideo => "/v1/generate/keyframes-to-video",
        ModelCapability::VideoToVideo => "/v1/generate/video-to-video",
        ModelCapability::VideoInpainting => "/v1/generate/video-inpainting",
        ModelCapability::VideoUpscale => "/v1/generate/video-upscale",
        _ => "/v1/generate/video-to-video",
    }
}

/// Whether a capability may be asked for in a video mode.
pub open spec fn video_family(mode: GenerationMode, capability: ModelCapability) -> bool {
    match mode {
        GenerationMode::TextToVideo => capability == ModelCapability::TextToVideo,
        GenerationMode::ImageToVideo => animates_images(capability),
        GenerationMode::VideoToVideo => edits_video(capability),
        _ => false,
    }
}

/// Whether a capability belongs to the family of a video mode.
pub fn is_valid_video_capability_for_mode(
    mode: &GenerationMode,
    capability: &ModelCapability,
) -> (valid: bool)
    ensures
        valid == video_family(*mode, *capability),
{
    match mode {
        GenerationMode::TextToVideo => *capability == ModelCapability::TextToVideo,
        GenerationMode::ImageToVideo => matches!(
            capability,
            ModelCapability::ImageToVideo | ModelCapability::MultiImageToVideo
                | ModelCapability::StartEndImageToVideo | ModelCapability::KeyframesToVideo
        ),
        GenerationMode::VideoToVideo => matches!(
            capability,
            ModelCapability::VideoToVideo | ModelCapability::VideoInpainting
                | ModelCapability::VideoUpscale
        ),
        GenerationMode::TextToImage | GenerationMode::ImageToImage => false,
    }
}

/// The shorter side of a video of the given quality.
pub open spec fn short_side(quality: Seq<char>) -> u32 {
    if quality == "1080p"@ {
        1080
    } else if quality == "720p"@ {
        720
    } else {
        480
    }
}

/// The even number next to, and not below, 16/9 of a side rounded to a whole
/// number of pixels.
pub open spec fn long_side(side: u32) -> int {
    let rounded = (32 * side + 9) / 18;
    rounded + rounded % 2
}

/// The width and the height of a locally rendered video.
pub open spec fn video_dimensions(quality: Seq<char>, aspect_ratio: Seq<char>) -> (u32, u32) {
    let short = short_side(quality);
    let long = long_side(short) as u32;
    if aspect_ratio == "9:16"@ {
        (short, long)
    } else if aspect_ratio == "1:1"@ {
        (short, short)
    } else {
        (long, short)
    }
}

/// The width and the height of a locally rendered video: the quality gives the
/// shorter side, the ratio what the longer one is and which way it lies.
pub fn procedural_video_dimensions(quality: &str, aspect_ratio: &str) -> (dimensions: (u32, u32))
    ensures
        dimensions == video_dimensions(quality@, aspect_ratio@),
{
    let short: u32 = if *quality == *"1080p" {
        1080
    } else if *quality == *"720p" {
        720
    } else {
        480
    };
    let mut long: u32 = (32 * short + 9) / 18;
    if long % 2 != 0 {
        long = long + 1;
    }
    if *aspect_ratio == *"9:16" {
        (short, long)
    } else if *aspect_ratio == *"1:1" {
        (short, short)
    } else {
        (long, short)
    }
}

// ---------------------------------------------------------------------------
// Lists of capabilities
// ---------------------------------------------------------------------------

/// Whether a list of capabilities holds a given one.
pub fn includes(list: &Vec<ModelCapability>, wanted: ModelCapability) -> (found: bool)
    ensures
        found == list@.contains(wanted),
{
    for i in 0..list.len()
        invariant
            forall|j: int| 0 <= j < i ==> list@[j] != wanted,
    {
        if list[i] == wanted {
            return true;
        }
    }
    false
}

/// A copy of a list of capabilities.
pub fn copy_list(list: &Vec<ModelCapability>) -> (copy: Vec<ModelCapability>)
    ensures
        copy@ == list@,
{
    let mut copy: Vec<ModelCapability> = Vec::new();
    for i in 0..list.len()
        invariant
            copy@ == list@.take(i as int),
    {
        copy.push(list[i]);
    }
    copy
}

/// The capabilities that a list of names denotes, in order; what is no name of
/// a capability is left out.
pub open spec fn all_named(names: Seq<Seq<char>>) -> Seq<ModelCapability>
    decreases names.len(),
{
    if names.len() == 0 {
        Seq::empty()
    } else {
        match named(names.last()) {
            Some(capability) => all_named(names.drop_last()).push(capability),
            None => all_named(names.drop_last()),
        }
    }
}

/// Reads a list of capability names.
pub fn from_api_names(names: &Vec<String>) -> (list: Vec<ModelCapability>)
    ensures
        list@ == all_named(text::texts(names@)),
{
    let mut list: Vec<ModelCapability> = Vec::new();
    let ghost all = text::texts(names@);
    for i in 0..names.len()
        invariant
            all == text::texts(names@),
            list@ == all_named(all.take(i as int)),
    {
        assert(all.take(i + 1).drop_last() == all.take(i as int));
        match from_api_name(names[i].as_str()) {
            Some(capability) => list.push(capability),
            None => {},
        }
    }
    assert(all.take(all.len() as int) == all);
    list
}

/// The names of a list of capabilities.
pub open spec fn names_of(list: Seq<ModelCapability>) -> Seq<Seq<char>> {
    Seq::new(list.len(), |i: int| list[i].name())
}

/// The API names of a list of capabilities.
pub fn api_names(list: &Vec<ModelCapability>) -> (names: Vec<String>)
    ensures
        text::texts(names@) == names_of(list@),
{
    let mut names: Vec<String> = Vec::new();
    for i in 0..list.len()
        invariant
            names@.len() == i,
            forall|j: int| 0 <= j < i ==> (#[trigger] names@[j])@ == list@[j].name(),
    {
        names.push(list[i].api_name().to_owned());
    }
    assert(text::texts(names@) =~= names_of(list@));
    names
}

// ---------------------------------------------------------------------------
// The images a model takes
// ---------------------------------------------------------------------------

/// How many images a model takes for a video, and in which roles.
#[derive(Debug)]
pub struct ModelInputProfile {
    pub min_input_images: usize,
    pub max_input_images: usize,
    pub supported_image_roles: Vec<String>,
    pub supports_start_end_frames: bool,
    pub supports_reference_images: bool,
    pub supports_keyframes: bool,
}

/// Whether several images may be given for reference.
pub open spec fn takes_references(list: Seq<ModelCapability>) -> bool {
    list.contains(ModelCapability::MultiImageToVideo) || list.contains(
        ModelCapability::KeyframesToVideo,
    )
}

/// The roles that images may be given in.
pub open spec fn image_roles(list: Seq<ModelCapability>) -> Seq<Seq<char>> {
    let start_end = list.contains(ModelCapability::StartEndImageToVideo);
    let start = if list.contains(ModelCapability::ImageToVideo) || start_end {
        seq!["start"@, "start_frame"@]
    } else {
        Seq::empty()
    };
    let end = if start_end {
        seq!["end"@, "end_frame"@]
    } else {
        Seq::empty()
    };
    let reference = if takes_references(list) {
        seq!["reference"@]
    } else {
        Seq::empty()
    };
    let keyframe = if list.contains(ModelCapability::KeyframesToVideo) {
        seq!["keyframe"@]
    } else {
        Seq::empty()
    };
    start + end + reference + keyframe
}

/// The least number of images that must be given.
pub open spec fn least_images(list: Seq<ModelCapability>) -> usize {
    if !list.contains(ModelCapability::TextToVideo) && (list.contains(ModelCapability::ImageToVideo)
        || list.contains(ModelCapability::StartEndImageToVideo) || takes_references(list)) {
        1
    } else {
        0
    }
}

/// The greatest number of images that may be given.
pub open spec fn most_images(list: Seq<ModelCapability>) -> usize {
    if takes_references(list) {
        8
    } else if list.contains(ModelCapability::StartEndImageToVideo) {
        2
    } else if list.contains(ModelCapability::ImageToVideo) {
        1
    } else {
        0
    }
}

/// Whether a profile is that of a model with some capabilities.
pub open spec fn profiles(profile: ModelInputProfile, list: Seq<ModelCapability>) -> bool {
    &&& profile.min_input_images == least_images(list)
    &&& profile.max_input_images == most_images(list)
    &&& text::texts(profile.supported_image_roles@) == image_roles(list)
    &&& profile.supports_start_end_frames == list.contains(ModelCapability::StartEndImageToVideo)
    &&& profile.supports_reference_images == takes_references(list)
    &&& profile.supports_keyframes == list.contains(ModelCapability::KeyframesToVideo)
}

/// How many images a model with these capabilities takes, and in which roles.
pub fn model_input_profile(runtime_capabilities: &Vec<ModelCapability>) -> (profile: ModelInputProfile)
    ensures
        profiles(profile, runtime_capabilities@),
{
    let text_to_video = includes(runtime_capabilities, ModelCapability::TextToVideo);
    let image_to_video = includes(runtime_capabilities, ModelCapability::ImageToVideo);
    let start_end = includes(runtime_capabilities, ModelCapability::StartEndImageToVideo);
    let keyframes = includes(runtime_capabilities, ModelCapability::KeyframesToVideo);
    let references = includes(runtime_capabilities, ModelCapability::MultiImageToVideo)
        || keyframes;
    let accepts_images = image_to_video || start_end || references;

    let mut roles: Vec<String> = Vec::new();
    if image_to_video || start_end {
        roles.push("start".to_owned());
        roles.push("start_frame".to_owned());
    }
    if start_end {
        roles.push("end".to_owned());
        roles.push("end_frame".to_owned());
    }
    if references {
        roles.push("reference".to_owned());
    }
    if keyframes {
        roles.push("keyframe".to_owned());
    }
    assert(text::texts(roles@) =~= image_roles(runtime_capabilities@));
    ModelInputProfile {
        min_input_images: if !text_to_video && accepts_images {
            1
        } else {
            0
        },
        max_input_images: if references {
            8
        } else if start_end {
            2
        } else if image_to_video {
            1
        } else {
            0
        },
        supported_image_roles: roles,
        supports_start_end_frames: start_end,
        supports_reference_images: references,
        supports_keyframes: keyframes,
    }
}

// ---------------------------------------------------------------------------
// Laws
// ---------------------------------------------------------------------------

/// The capability that a mode stands for belongs to the family of the mode, and
/// no capability belongs to the family of both an image mode and a video mode.
pub proof fn law_families_hold_their_default(mode: GenerationMode, capability: ModelCapability)
    ensures
        image_default(mode) is Some ==> image_family(mode, image_default(mode)->0),
        video_default(mode) is Some ==> video_family(mode, video_default(mode)->0),
        image_default(mode) is Some <==> !video_mode(mode),
        video_default(mode) is Some <==> video_mode(mode),
        !(image_family(mode, capability) && video_family(mode, capability)),
{
}

/// A capability is asked for in at most one mode.
pub proof fn law_capability_belongs_to_one_mode(
    first: GenerationMode,
    second: GenerationMode,
    capability: ModelCapability,
)
    requires
        image_family(first, capability) || video_family(first, capability),
        image_family(second, capability) || video_family(second, capability),
    ensures
        first == second,
{
}

/// The smallest number of images never exceeds the largest, and some image is
/// taken exactly where some role is offered.
pub proof fn law_image_bounds_are_consistent(list: Seq<ModelCapability>)
    ensures
        least_images(list) <= most_images(list),
        most_images(list) > 0 <==> image_roles(list).len() > 0,
{
}

/// Both sides of a locally rendered video are even and neither is below 480.
pub proof fn law_video_sides_are_even(quality: Seq<char>, aspect_ratio: Seq<char>)
    ensures
        video_dimensions(quality, aspect_ratio).0 % 2 == 0,
        video_dimensions(quality, aspect_ratio).1 % 2 == 0,
        video_dimensions(quality, aspect_ratio).0 >= 480,
        video_dimensions(quality, aspect_ratio).1 >= 480,
{
}

/// The sides of a video are those of its ratio: upright for 9:16, square for 1:1,
/// else lying, and its short side is the one that the quality names.
pub proof fn law_sides_follow_the_request(quality: Seq<char>, aspect_ratio: Seq<char>)
    ensures
        ({
            let (wide, high) = video_dimensions(quality, aspect_ratio);
            let short = if wide < high {
                wide
            } else {
                high
            };
            let long = if wide < high {
                high
            } else {
                wide
            };
            &&& aspect_ratio == "9:16"@ ==> wide < high
            &&& aspect_ratio == "1:1"@ ==> wide == high
            &&& aspect_ratio == "16:9"@ ==> wide > high
            &&& quality == "480p"@ ==> short == 480
            &&& quality == "720p"@ ==> short == 720
            &&& quality == "1080p"@ ==> short == 1080
            &&& aspect_ratio != "1:1"@ ==> -18 <= 9 * long - 16 * short <= 18
        }),
        ({
            let lying = video_dimensions(quality, "16:9"@);
            let upright = video_dimensions(quality, "9:16"@);
            lying.0 == upright.1 && lying.1 == upright.0
        }),
{
    reveal_strlit("9:16");
    reveal_strlit("1:1");
    reveal_strlit("16:9");
    reveal_strlit("480p");
    reveal_strlit("720p");
    reveal_strlit("1080p");
    assert("9:16"@.len() == 4 && "1:1"@.len() == 3 && "16:9"@.len() == 4 && "9:16"@[0] == '9'
        && "16:9"@[0] == '1');
    assert("480p"@[0] == '4' && "720p"@[0] == '7' && "1080p"@[0] == '1');
}

/// A picture or a video is asked for at the path of its capability: no two
/// capabilities of one kind share a path.
pub proof fn law_capabilities_have_their_paths(one: ModelCapability, other: ModelCapability)
    ensures
        image_path(ModelCapability::TextToImage) == "/v1/generate/text-to-image"@,
        image_path(ModelCapability::ImageToImage) == "/v1/generate/image-to-image"@,
        image_path(ModelCapability::Inpainting) == "/v1/generate/inpainting"@,
        image_path(ModelCapability::Outpainting) == "/v1/generate/outpainting"@,
        image_path(ModelCapability::ImageVariation) == "/v1/generate/image-variation"@,
        image_path(ModelCapability::ImageUpscale) == "/v1/generate/image-upscale"@,
        image_path(ModelCapability::ControlledImageGeneration)
            == "/v1/generate/controlled-image-generation"@,
        video_path(ModelCapability::TextToVideo) == "/v1/generate/text-to-video"@,
        video_path(ModelCapability::ImageToVideo) == "/v1/generate/image-to-video"@,
        video_path(ModelCapability::MultiImageToVideo) == "/v1/generate/multi-image-to-video"@,
        video_path(ModelCapability::StartEndImageToVideo)
            == "/v1/generate/start-end-image-to-video"@,
        video_path(ModelCapability::KeyframesToVideo) == "/v1/generate/keyframes-to-video"@,
        video_path(ModelCapability::VideoToVideo) == "/v1/generate/video-to-video"@,
        video_path(ModelCapability::VideoInpainting) == "/v1/generate/video-inpainting"@,
        video_path(ModelCapability::VideoUpscale) == "/v1/generate/video-upscale"@,
{
}

/// The capabilities of a mode are those that start from what the mode starts from.
pub proof fn law_modes_hold_what_starts_alike(mode: GenerationMode, capability: ModelCapability)
    ensures
        video_family(mode, capability) <==> {
            ||| mode == GenerationMode::TextToVideo && capability == ModelCapability::TextToVideo
            ||| mode == GenerationMode::ImageToVideo && (capability == ModelCapability::ImageToVideo
                || capability == ModelCapability::MultiImageToVideo || capability
                == ModelCapability::StartEndImageToVideo || capability
                == ModelCapability::KeyframesToVideo)
            ||| mode == GenerationMode::VideoToVideo && (capability == ModelCapability::VideoToVideo
                || capability == ModelCapability::VideoInpainting || capability
                == ModelCapability::VideoUpscale)
        },
        image_family(mode, capability) <==> {
            ||| mode == GenerationMode::TextToImage && capability == ModelCapability::TextToImage
            ||| mode == GenerationMode::ImageToImage && (capability == ModelCapability::ImageToImage
                || capability == ModelCapability::Inpainting || capability
                == ModelCapability::Outpainting || capability == ModelCapability::ImageVariation
                || capability == ModelCapability::ImageUpscale || capability
                == ModelCapability::ControlledImageGeneration)
        },
        mode == GenerationMode::TextToImage ==> image_default(mode) == Some(
            ModelCapability::TextToImage,
        ),
        mode == GenerationMode::ImageToImage ==> image_default(mode) == Some(
            ModelCapability::ImageToImage,
        ),
        mode == GenerationMode::TextToVideo ==> video_default(mode) == Some(
            ModelCapability::TextToVideo,
        ),
        mode == GenerationMode::ImageToVideo ==> video_default(mode) == Some(
            ModelCapability::ImageToVideo,
        ),
        mode == GenerationMode::VideoToVideo ==> video_default(mode) == Some(
            ModelCapability::VideoToVideo,
        ),
{
}

/// Names that are read give the capabilities that bear them, in their order; a list
/// of capabilities reads back as it was written.
pub proof fn law_lists_of_capabilities_read_back(list: Seq<ModelCapability>)
    ensures
        all_named(names_of(list)) == list,
    decreases list.len(),
{
    if list.len() > 0 {
        law_lists_of_capabilities_read_back(list.drop_last());
        law_api_names_identify_capabilities(list.last(), list.last().name());
        assert(names_of(list).drop_last() =~= names_of(list.drop_last()));
        assert(list =~= list.drop_last().push(list.last()));
    } else {
        assert(all_named(names_of(list)) =~= list);
    }
}

/// How many images a model takes, and in which roles, is what its capabilities say.
pub proof fn law_image_inputs_follow_the_capabilities(
    profile: ModelInputProfile,
    list: Seq<ModelCapability>,
)
    requires
        profiles(profile, list),
    ensures
        list.contains(ModelCapability::MultiImageToVideo) || list.contains(
            ModelCapability::KeyframesToVideo,
        ) ==> profile.max_input_images == 8 && profile.supports_reference_images,
        list.contains(ModelCapability::StartEndImageToVideo) ==> profile.max_input_images >= 2
            && profile.supports_start_end_frames,
        list.contains(ModelCapability::ImageToVideo) ==> profile.max_input_images >= 1,
        list.contains(ModelCapability::TextToVideo) ==> profile.min_input_images == 0,
        !list.contains(ModelCapability::TextToVideo) && list.contains(ModelCapability::ImageToVideo)
            ==> profile.min_input_images == 1,
        profile.supports_keyframes <==> list.contains(ModelCapability::KeyframesToVideo),
        profile.supports_start_end_frames <==> list.contains(ModelCapability::StartEndImageToVideo),
        list.len() == 0 ==> profile.max_input_images == 0 && profile.min_input_images == 0,
        profile.max_input_images == 2 ==> list.contains(ModelCapability::StartEndImageToVideo),
        profile.max_input_images == 1 ==> list.contains(ModelCapability::ImageToVideo),
        list.contains(ModelCapability::ImageToVideo) ==> text::texts(
            profile.supported_image_roles@,
        ).contains("start_frame"@),
        list.contains(ModelCapability::StartEndImageToVideo) ==> text::texts(
            profile.supported_image_roles@,
        ).contains("start_frame"@) && text::texts(profile.supported_image_roles@).contains(
            "end_frame"@,
        ),
        list.contains(ModelCapability::KeyframesToVideo) ==> text::texts(
            profile.supported_image_roles@,
        ).contains("keyframe"@),
        list.contains(ModelCapability::MultiImageToVideo) ==> text::texts(
            profile.supported_image_roles@,
        ).contains("reference"@),
{
    let roles = image_roles(list);
    let start_end = list.contains(ModelCapability::StartEndImageToVideo);
    let starts: int = if list.contains(ModelCapability::ImageToVideo) || start_end {
        2
    } else {
        0
    };
    let ends: int = if start_end {
        2
    } else {
        0
    };
    if starts == 2 {
        assert(roles[1] == "start_frame"@);
    }
    if start_end {
        assert(roles[3] == "end_frame"@);
    }
    if takes_references(list) {
        assert(roles[starts + ends] == "reference"@);
    }
    if list.contains(ModelCapability::KeyframesToVideo) {
        assert(roles[starts + ends + 1] == "keyframe"@);
    }
}

} // verus!
