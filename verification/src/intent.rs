//! What a request in words asks for, and what settings suit the machine.
use crate::capability;
use crate::capability::{GenerationMode, ModelCapability};
use crate::generation::AssetKind;
use crate::text;
use vstd::prelude::*;
use vstd::string::*;

verus! {

/// The words by which a request asks for a video.
pub open spec fn video_words() -> Seq<Seq<char>> {
    seq!["vidéo"@, "video"@, "anime"@, "mouvement"@]
}

/// The words by which a request asks for an image.
pub open spec fn image_words() -> Seq<Seq<char>> {
    seq!["image"@, "photo"@, "illustration"@, "dessine"@]
}

/// Whether one of some words stands in a text.
pub open spec fn mentions(content: Seq<char>, words: Seq<Seq<char>>) -> bool {
    exists|i: int| 0 <= i < words.len() && text::occurs(content, #[trigger] words[i])
}

/// What a text in lower case asks for: a video, and an image.
pub fn asked_for(lower: &str) -> (asked: (bool, bool))
    ensures
        asked.0 == mentions(lower@, video_words()),
        asked.1 == mentions(lower@, image_words()),
{
    let video = text::contains(lower, "vidéo") || text::contains(lower, "video") || text::contains(
        lower,
        "anime",
    ) || text::contains(lower, "mouvement");
    let image = text::contains(lower, "image") || text::contains(lower, "photo") || text::contains(
        lower,
        "illustration",
    ) || text::contains(lower, "dessine");
    proof {
        let (videos, images) = (video_words(), image_words());
        assert(videos[0] == "vidéo"@ && videos[1] == "video"@);
        assert(videos[2] == "anime"@ && videos[3] == "mouvement"@);
        assert(images[0] == "image"@ && images[1] == "photo"@);
        assert(images[2] == "illustration"@ && images[3] == "dessine"@);
    }
    (video, image)
}

/// What a request asks for, with the confidence in percent.
#[derive(Clone, Copy, Debug, PartialEq, Eq, Structural)]
pub struct Intent {
    pub capability: ModelCapability,
    pub confidence_percent: u8,
}

/// What a request asks for, by the asset that comes with it and its words.
pub open spec fn intent_of(asset: Option<AssetKind>, video: bool, image: bool) -> Intent {
    Intent {
        capability: match asset {
            Some(AssetKind::Video) => ModelCapability::VideoToVideo,
            Some(AssetKind::Image) => if video {
                ModelCapability::ImageToVideo
            } else if image {
                ModelCapability::ImageToImage
            } else {
                ModelCapability::Chat
            },
            Some(AssetKind::Audio) => ModelCapability::Chat,
            None => if video {
                ModelCapability::TextToVideo
            } else if image {
                ModelCapability::TextToImage
            } else {
                ModelCapability::Chat
            },
        },
        confidence_percent: if video || image || asset is Some {
            92
        } else {
            72
        },
    }
}

/// Says what a request in lower case asks for.
pub fn classify_words(lower: &str, asset: Option<AssetKind>) -> (intent: Intent)
    ensures
        intent == intent_of(
            asset,
            mentions(lower@, video_words()),
            mentions(lower@, image_words()),
        ),
{
    let (video, image) = asked_for(lower);
    let capability = match asset {
        Some(AssetKind::Video) => ModelCapability::VideoToVideo,
        Some(AssetKind::Image) => if video {
            ModelCapability::ImageToVideo
        } else if image {
            ModelCapability::ImageToImage
        } else {
            ModelCapability::Chat
        },
        Some(AssetKind::Audio) => ModelCapability::Chat,
        None => if video {
            ModelCapability::TextToVideo
        } else if image {
            ModelCapability::TextToImage
        } else {
            ModelCapability::Chat
        },
    };
    Intent {
        capability,
        confidence_percent: if video || image || asset.is_some() {
            92
        } else {
            72
        },
    }
}

/// Says what a request asks for; its action has the name of the capability.
pub fn classify_request(prompt: &str, asset: Option<AssetKind>) -> (intent: Intent)
    ensures
        intent == intent_of(
            asset,
            mentions(text::unicode_lowercase(prompt@), video_words()),
            mentions(text::unicode_lowercase(prompt@), image_words()),
        ),
{
    let lower = text::to_unicode_lowercase(prompt);
    classify_words(lower.as_str(), asset)
}

/// The action that words suggest: a video before an image, and none for others.
pub open spec fn suggestion(video: bool, image: bool) -> Option<Seq<char>> {
    if video {
        Some("TEXT_TO_VIDEO"@)
    } else if image {
        Some("TEXT_TO_IMAGE"@)
    } else {
        None
    }
}

/// The action that a text suggests.
pub fn suggested_action(content: &str) -> (action: Option<&'static str>)
    ensures
        text::opt_str(action) == suggestion(
            mentions(text::unicode_lowercase(content@), video_words()),
            mentions(text::unicode_lowercase(content@), image_words()),
        ),
{
    let lower = text::to_unicode_lowercase(content);
    let (video, image) = asked_for(lower.as_str());
    if video {
        Some("TEXT_TO_VIDEO")
    } else if image {
        Some("TEXT_TO_IMAGE")
    } else {
        None
    }
}

// ---------------------------------------------------------------------------
// Settings that suit the machine
// ---------------------------------------------------------------------------

/// Settings for a generation.
#[derive(Debug)]
pub struct Optimized {
    pub quality: String,
    pub duration_seconds: u32,
    pub device: &'static str,
    pub warnings: Vec<String>,
}

/// The graphics memory below which a video is not made in full quality.
pub const FULL_QUALITY_BYTES: u64 = 8589934592;

/// The duration that is asked for, kept between 2 and 15 seconds.
pub open spec fn kept_duration(asked: Option<u32>) -> u32 {
    let wanted = match asked {
        Some(seconds) => seconds,
        None => 6,
    };
    if wanted < 2 {
        2
    } else if wanted > 15 {
        15
    } else {
        wanted
    }
}

/// Whether a preset is one that saves time.
pub open spec fn hurried(preset: Seq<char>) -> bool {
    text::lower(preset) == text::lower("fast"@)
}

/// Whether a preset is one that saves cost.
pub open spec fn thrifty(preset: Seq<char>) -> bool {
    text::lower(preset) == text::lower("minimum_cost"@)
}

/// The duration after the preset.
pub open spec fn preset_duration(preset: Seq<char>, asked: Option<u32>) -> u32 {
    let kept = kept_duration(asked);
    if hurried(preset) && kept > 6 {
        6
    } else if thrifty(preset) && kept > 4 {
        4
    } else {
        kept
    }
}

/// The quality after the preset.
pub open spec fn preset_quality(preset: Seq<char>, asked: Option<Seq<char>>) -> Seq<char> {
    if hurried(preset) || thrifty(preset) {
        "480p"@
    } else {
        match asked {
            Some(quality) => quality,
            None => "480p"@,
        }
    }
}

/// Whether the quality is reduced for want of graphics memory.
pub open spec fn reduced(mode: GenerationMode, vram: u64, quality: Seq<char>) -> bool {
    capability::video_mode(mode) && vram < FULL_QUALITY_BYTES && quality == "1080p"@
}

/// Chooses the settings that suit a preset and a machine.
pub fn optimize_request(
    mode: &GenerationMode,
    preset: &str,
    quality: &Option<String>,
    duration_seconds: Option<u32>,
    vram: u64,
) -> (settings: Optimized)
    ensures
        ({
            let wanted = preset_quality(preset@, text::opt(*quality));
            let small = reduced(*mode, vram, wanted);
            &&& settings.quality@ == (if small {
                "720p"@
            } else {
                wanted
            })
            &&& settings.duration_seconds == preset_duration(preset@, duration_seconds)
            &&& settings.device@ == (if vram > 0 {
                "GPU"@
            } else {
                "CPU"@
            })
            &&& text::texts(settings.warnings@) == (if small {
                seq!["Résolution réduite à 720p : moins de 8 Go de VRAM détectés."@]
            } else {
                Seq::empty()
            })
        }),
{
    let mut chosen = match quality {
        Some(name) => name.clone(),
        None => "480p".to_owned(),
    };
    let asked: u32 = match duration_seconds {
        Some(seconds) => seconds,
        None => 6,
    };
    let mut duration: u32 = if asked < 2 {
        2
    } else if asked > 15 {
        15
    } else {
        asked
    };
    let fast = text::same_ignoring_ascii_case(preset, "fast");
    let cheap = text::same_ignoring_ascii_case(preset, "minimum_cost");
    proof {
        lemma_presets_differ(preset@);
    }
    if fast {
        chosen = "480p".to_owned();
        if duration > 6 {
            duration = 6;
        }
    }
    if cheap {
        chosen = "480p".to_owned();
        if duration > 4 {
            duration = 4;
        }
    }
    let mut warnings: Vec<String> = Vec::new();
    if capability::is_video_mode(mode) && vram < FULL_QUALITY_BYTES && *chosen.as_str()
        == *"1080p" {
        chosen = "720p".to_owned();
        warnings.push("Résolution réduite à 720p : moins de 8 Go de VRAM détectés.".to_owned());
        assert(text::texts(warnings@) =~= seq![
            "Résolution réduite à 720p : moins de 8 Go de VRAM détectés."@,
        ]);
    } else {
        assert(text::texts(warnings@) =~= Seq::<Seq<char>>::empty());
    }
    Optimized {
        quality: chosen,
        duration_seconds: duration,
        device: if vram > 0 {
            "GPU"
        } else {
            "CPU"
        },
        warnings,
    }
}

proof fn lemma_presets_differ(preset: Seq<char>)
    ensures
        !(hurried(preset) && thrifty(preset)),
{
    reveal_strlit("fast");
    reveal_strlit("minimum_cost");
    assert(text::lower("fast"@).len() == 4);
    assert(text::lower("minimum_cost"@).len() == 12);
}

/// Whatever the preset and the machine, settings last 2 to 15 seconds, and no
/// video is made in full quality with too little graphics memory.
pub proof fn law_settings_fit(
    mode: GenerationMode,
    preset: Seq<char>,
    quality: Option<Seq<char>>,
    duration: Option<u32>,
    vram: u64,
)
    ensures
        2 <= preset_duration(preset, duration) <= 15,
        capability::video_mode(mode) && vram < FULL_QUALITY_BYTES && !reduced(
            mode,
            vram,
            preset_quality(preset, quality),
        ) ==> preset_quality(preset, quality) != "1080p"@,
{
}

/// What is asked for follows from what is spoken of and what is given: a video is
/// changed, a picture is animated or changed, and without either a video or a
/// picture is made; where nothing is spoken of it is talk.
pub proof fn law_requests_are_understood(asset: Option<AssetKind>, video: bool, image: bool)
    ensures
        ({
            let intent = intent_of(asset, video, image);
            &&& asset == Some(AssetKind::Video) ==> intent.capability
                == ModelCapability::VideoToVideo
            &&& asset == Some(AssetKind::Image) && video ==> intent.capability
                == ModelCapability::ImageToVideo
            &&& asset == Some(AssetKind::Image) && !video && image ==> intent.capability
                == ModelCapability::ImageToImage
            &&& asset == Some(AssetKind::Image) && !video && !image ==> intent.capability
                == ModelCapability::Chat
            &&& asset == Some(AssetKind::Audio) ==> intent.capability == ModelCapability::Chat
            &&& asset is None && video ==> intent.capability == ModelCapability::TextToVideo
            &&& asset is None && !video && image ==> intent.capability
                == ModelCapability::TextToImage
            &&& asset is None && !video && !image ==> intent.capability == ModelCapability::Chat
                && intent.confidence_percent == 72
            &&& video || image || asset is Some ==> intent.confidence_percent == 92
        }),
        video ==> suggestion(video, image) == Some("TEXT_TO_VIDEO"@),
        !video && image ==> suggestion(video, image) == Some("TEXT_TO_IMAGE"@),
        !video && !image ==> suggestion(video, image) is None,
{
}

/// A text speaks of a video, or of a picture, where one of the words for it occurs.
pub proof fn law_words_are_noticed(content: Seq<char>)
    ensures
        text::occurs(content, "vidéo"@) || text::occurs(content, "video"@) || text::occurs(
            content,
            "anime"@,
        ) || text::occurs(content, "mouvement"@) <==> mentions(content, video_words()),
        text::occurs(content, "image"@) || text::occurs(content, "photo"@) || text::occurs(
            content,
            "illustration"@,
        ) || text::occurs(content, "dessine"@) <==> mentions(content, image_words()),
{
    let videos = video_words();
    let images = image_words();
    assert(videos.len() == 4 && videos[0] == "vidéo"@ && videos[1] == "video"@ && videos[2]
        == "anime"@ && videos[3] == "mouvement"@);
    assert(images.len() == 4 && images[0] == "image"@ && images[1] == "photo"@ && images[2]
        == "illustration"@ && images[3] == "dessine"@);
}

/// A duration between 2 and 15 seconds is kept, unless the request is to be fast or
/// cheap, which shortens it to 6 or 4 seconds; both make do with the least quality.
pub proof fn law_settings_follow_the_request(
    mode: GenerationMode,
    preset: Seq<char>,
    quality: Option<Seq<char>>,
    duration: Option<u32>,
    vram: u64,
)
    ensures
        text::lower(preset) != "fast"@ && text::lower(preset) != "minimum_cost"@ ==> {
            &&& duration matches Some(asked) ==> (2 <= asked <= 15 ==> preset_duration(
                preset,
                duration,
            ) == asked) && (asked < 2 ==> preset_duration(preset, duration) == 2) && (asked > 15
                ==> preset_duration(preset, duration) == 15)
            &&& duration is None ==> preset_duration(preset, duration) == 6
            &&& quality matches Some(asked) ==> preset_quality(preset, quality) == asked
            &&& quality is None ==> preset_quality(preset, quality) == "480p"@
        },
        text::lower(preset) == "fast"@ ==> preset_duration(preset, duration) <= 6
            && preset_quality(preset, quality) == "480p"@,
        text::lower(preset) == "minimum_cost"@ ==> preset_duration(preset, duration) <= 4
            && preset_quality(preset, quality) == "480p"@,
        text::lower(preset) == "fast"@ ==> (duration matches Some(asked) ==> 2 <= asked <= 6
            ==> preset_duration(preset, duration) == asked),
        reduced(mode, vram, "1080p"@) <==> vram < 8589934592 && mode != GenerationMode::TextToImage
            && mode != GenerationMode::ImageToImage,
        reduced(mode, vram, preset_quality(preset, quality)) ==> preset_quality(preset, quality)
            == "1080p"@,
{
    reveal_strlit("fast");
    reveal_strlit("minimum_cost");
    assert(text::lower("fast"@) =~= "fast"@);
    assert(text::lower("minimum_cost"@) =~= "minimum_cost"@);
    assert("fast"@.len() == 4 && "minimum_cost"@.len() == 12);
}

} // verus!
