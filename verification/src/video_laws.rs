//! What the run of a video keeps to, from the request to the saved video.
use crate::asset::{AssetView, VideoFacts};
use crate::capability;
use crate::capability::GenerationMode;
use crate::generation;
use crate::generation::GenerationStatus;
use crate::identity;
use crate::job::JobStatus;
use crate::json;
use crate::json::JsonView;
use crate::member;
use crate::preflight;
use crate::run;
use crate::text;
use crate::video_run::{
    encoder_arguments, encoder_progress, first_input, image_part, image_parts, named_capability,
    next, on_collecting, on_encoding_phase, on_generating, on_locating, on_preflighting,
    on_reading, on_ready, on_routing, on_saving_phase, on_sketch_reading, on_sketching, on_staging,
    probed, quality, rate, ratio, request_body, result_of, seconds, sketch_body, video_request,
    EncoderLook, ReadOutcome, SavedVideo, VideoActionView, VideoEvent, VideoPhase, VideoRunView,
};
use crate::worker;
use crate::worker::GenerateResponse;
use vstd::prelude::*;
use vstd::string::*;

verus! {

proof fn lemma_asked_member(
    run: VideoRunView,
    negative_prompt: Option<Seq<char>>,
    path: Seq<char>,
    input: Option<Seq<char>>,
    images: Option<JsonView>,
    capability: Seq<char>,
    key: Seq<char>,
)
    ensures
        video_request(run, negative_prompt, path, input, images, capability).member(key) == if key
            == "job_id"@ {
            Some(JsonView::Text(identity::hyphenated(run.job_id)))
        } else if key == "model_id"@ {
            Some(JsonView::Text(run.storage_id))
        } else if key == "prompt"@ {
            Some(JsonView::Text(run.generation.prompt))
        } else if key == "negative_prompt"@ {
            Some(json::nullable_text(negative_prompt))
        } else if key == "quality"@ {
            Some(JsonView::Text(quality(run.generation)))
        } else if key == "aspect_ratio"@ {
            Some(JsonView::Text(ratio(run.generation)))
        } else if key == "duration_seconds"@ {
            Some(JsonView::Integer(seconds(run.generation) as u64))
        } else if key == "fps"@ {
            Some(JsonView::Integer(rate(run.generation) as u64))
        } else if key == "seed"@ {
            Some(JsonView::Null)
        } else if key == "output_relative_path"@ {
            Some(JsonView::Text(path))
        } else if key == "audio"@ {
            Some(JsonView::Bool(run.generation.audio))
        } else if key == "input_path"@ && input is Some {
            Some(JsonView::Text(input->0))
        } else if key == "input_images"@ && images is Some {
            images
        } else if key == "capability"@ {
            Some(JsonView::Text(capability))
        } else if key == "preset"@ && run.generation.requested_preset is Some {
            Some(JsonView::Text(run.generation.requested_preset->0))
        } else if key == "advanced_parameters"@ {
            Some(run.generation.advanced_parameters)
        } else {
            None
        },
{
    broadcast use worker::group_parts;

    worker::lemma_request_head(
        identity::hyphenated(run.job_id),
        run.storage_id,
        run.generation.prompt,
        negative_prompt,
        key,
    );
    worker::lemma_video_part(
        quality(run.generation),
        ratio(run.generation),
        seconds(run.generation),
        rate(run.generation),
        path,
        run.generation.audio,
        key,
    );
}

/// Whenever the worker is asked for something, it is told the prompt, the quality,
/// the ratio, the duration, the rate and the sound that the generation asks for.
#[verifier::spinoff_prover]
pub proof fn law_the_worker_is_told_the_generation(
    run: VideoRunView,
    event: VideoEvent,
    saving: bool,
    now: u64,
    path: Seq<char>,
    body: JsonView,
)
    requires
        next(run, event, saving, now).action == VideoActionView::Generate(path, body),
    ensures
        body.text_member("job_id"@) == Some(identity::hyphenated(run.job_id)),
        body.text_member("model_id"@) == Some(run.storage_id),
        body.text_member("prompt"@) == Some(run.generation.prompt),
        body.member("audio"@) == Some(JsonView::Bool(run.generation.audio)),
        run.generation.requested_quality matches Some(asked) ==> body.text_member("quality"@)
            == Some(asked),
        run.generation.requested_aspect_ratio matches Some(asked) ==> body.text_member(
            "aspect_ratio"@,
        ) == Some(asked),
        run.generation.duration_seconds matches Some(asked) ==> body.member("duration_seconds"@)
            == Some(JsonView::Integer(asked as u64)),
        run.generation.requested_fps matches Some(asked) ==> body.member("fps"@) == Some(
            JsonView::Integer(asked as u64),
        ),
        body.text_member("preset"@) == run.generation.requested_preset,
        body.member("advanced_parameters"@) == Some(run.generation.advanced_parameters),
        run.phase == VideoPhase::Preflight || run.phase == VideoPhase::Routing,
        run.phase == VideoPhase::Preflight ==> {
            &&& body.text_member("negative_prompt"@) == run.generation.negative_prompt
            &&& body.text_member("output_relative_path"@) == Some(
                "generations/"@ + identity::hyphenated(run.generation.id) + "."@ + "mp4"@,
            )
            &&& run.staged.len() > 0 ==> body.text_member("input_path"@) == Some(run.staged[0])
            &&& run.staged.len() == 0 ==> body.member("input_path"@) is None
            &&& run.generation.capability matches Some(asked) ==> body.text_member("capability"@)
                == Some(asked.name()) && path == capability::video_path(asked)
        },
        run.phase == VideoPhase::Routing ==> {
            &&& path == "/v1/generate/text-to-video"@
            &&& body.text_member("output_relative_path"@) == Some(
                "generations/"@ + identity::hyphenated(run.generation.id) + "."@ + "png"@,
            )
            &&& body.text_member("capability"@) == Some("TEXT_TO_VIDEO"@)
            &&& run.generation.model_id == "vidio-motion-local"@
        },
{
    reveal(on_ready);
    reveal(on_routing);
    reveal(on_staging);
    reveal(on_preflighting);
    reveal(on_generating);
    reveal(on_reading);
    reveal(on_sketching);
    reveal(on_sketch_reading);
    reveal(on_locating);
    reveal(on_encoding_phase);
    reveal(on_collecting);
    reveal(on_saving_phase);
    reveal(request_body);
    reveal(sketch_body);
    worker::lemma_names_of_members();
    let main = run.phase == VideoPhase::Preflight;
    assert(body == if main {
        request_body(run)
    } else {
        sketch_body(run)
    });
    let negative = if main {
        run.generation.negative_prompt
    } else {
        None
    };
    let output = run::output_path(
        run.generation.id,
        if main {
            "mp4"@
        } else {
            "png"@
        },
    );
    let input = if main {
        first_input(run)
    } else {
        None
    };
    let images = if main {
        image_parts(run)
    } else {
        None
    };
    let named = if main {
        named_capability(run.generation).name()
    } else {
        "TEXT_TO_VIDEO"@
    };
    assert(body == video_request(run, negative, output, input, images, named));
    lemma_asked_member(run, negative, output, input, images, named, "job_id"@);
    lemma_asked_member(run, negative, output, input, images, named, "model_id"@);
    lemma_asked_member(run, negative, output, input, images, named, "prompt"@);
    lemma_asked_member(run, negative, output, input, images, named, "negative_prompt"@);
    lemma_asked_member(run, negative, output, input, images, named, "audio"@);
    lemma_asked_member(run, negative, output, input, images, named, "quality"@);
    lemma_asked_member(run, negative, output, input, images, named, "aspect_ratio"@);
    lemma_asked_member(run, negative, output, input, images, named, "duration_seconds"@);
    lemma_asked_member(run, negative, output, input, images, named, "fps"@);
    lemma_asked_member(run, negative, output, input, images, named, "output_relative_path"@);
    lemma_asked_member(run, negative, output, input, images, named, "input_path"@);
    lemma_asked_member(run, negative, output, input, images, named, "capability"@);
    lemma_asked_member(run, negative, output, input, images, named, "preset"@);
    lemma_asked_member(run, negative, output, input, images, named, "advanced_parameters"@);
}

/// The images that a video starts from are told to the worker in their order, each
/// with its role and with the copy that was made of it.
#[verifier::spinoff_prover]
pub proof fn law_the_worker_is_told_the_images(
    run: VideoRunView,
    event: VideoEvent,
    saving: bool,
    now: u64,
    path: Seq<char>,
    body: JsonView,
    i: int,
)
    requires
        run.phase == VideoPhase::Preflight,
        next(run, event, saving, now).action == VideoActionView::Generate(path, body),
        run.generation.mode == GenerationMode::ImageToVideo,
        run.staged.len() == run.ordered.len(),
        0 <= i < run.ordered.len(),
    ensures
        body.member("input_images"@) matches Some(JsonView::List(items)) && items.len()
            == run.ordered.len() && items[i].member("source"@) == Some(
            JsonView::Text(run.staged[i]),
        ) && items[i].member("role"@) == Some(JsonView::Text(run.ordered[i].role))
            && items[i].member("order"@) == Some(JsonView::Integer(run.ordered[i].order as u64)),
{
    reveal(on_ready);
    reveal(on_routing);
    reveal(on_staging);
    reveal(on_preflighting);
    reveal(on_generating);
    reveal(on_reading);
    reveal(on_sketching);
    reveal(on_sketch_reading);
    reveal(on_locating);
    reveal(on_encoding_phase);
    reveal(on_collecting);
    reveal(on_saving_phase);
    reveal(request_body);
    worker::lemma_names_of_members();
    lemma_asked_member(
        run,
        run.generation.negative_prompt,
        run::output_path(run.generation.id, "mp4"@),
        first_input(run),
        image_parts(run),
        named_capability(run.generation).name(),
        "input_images"@,
    );
    let members = image_part(run.ordered[i], run.staged[i])->Object_0;
    member::lemma_members(members);
    reveal_with_fuel(member::first_named, 5);
    assert(members.len() == 3);
    reveal_strlit("order");
    reveal_strlit("role");
    reveal_strlit("source");
    assert("order"@.len() == 5 && "role"@.len() == 4 && "source"@.len() == 6);
}

/// A model of the worker makes the video at the worker, from copies of what it
/// starts from; the engine of this service makes it here, from the asset that was
/// given or from a picture that the worker draws first. Without a worker where one
/// is needed, or without an asset, the generation fails.
#[verifier::spinoff_prover]
pub proof fn law_videos_take_their_way(run: VideoRunView, saving: bool, now: u64)
    requires
        run.phase == VideoPhase::Routing,
    ensures
        ({
            let step = next(run, VideoEvent::Recorded, saving, now);
            let own = run.generation.model_id == "vidio-motion-local"@;
            let mode = run.generation.mode;
            let given = run.generation.input_asset_id;
            &&& !own && run.worker && mode == GenerationMode::TextToVideo ==> step.action
                is Preflight && step.run.phase == VideoPhase::Preflight
            &&& !own && run.worker && mode == GenerationMode::ImageToVideo ==> (step.action
                matches VideoActionView::StageImages(ids) && ids.len() == run.ordered.len() && (
            forall|i: int| 0 <= i < ids.len() ==> #[trigger] ids[i] == run.ordered[i].asset_id))
                && step.run.phase == VideoPhase::Staging
            &&& !own && run.worker && mode == GenerationMode::VideoToVideo && given is Some
                ==> step.action == VideoActionView::StageVideo(given->0) && step.run.phase
                == VideoPhase::Staging
            &&& own && run.worker && mode == GenerationMode::TextToVideo ==> step.action
                is Generate && step.run.phase == VideoPhase::Sketching
            &&& own && mode != GenerationMode::TextToVideo && given is Some ==> step.action
                == VideoActionView::Locate(given->0) && step.run.phase == VideoPhase::Locating
            &&& (!own || mode == GenerationMode::TextToVideo) && !run.worker ==> step.run.phase
                == VideoPhase::Ended && step.run.generation.status == GenerationStatus::Failed
            &&& mode == GenerationMode::VideoToVideo && given is None ==> step.run.phase
                == VideoPhase::Ended && step.run.generation.status == GenerationStatus::Failed
        }),
{
    reveal(on_ready);
    reveal(on_routing);
    reveal(on_staging);
    reveal(on_preflighting);
    reveal(on_generating);
    reveal(on_reading);
    reveal(on_sketching);
    reveal(on_sketch_reading);
    reveal(on_locating);
    reveal(on_encoding_phase);
    reveal(on_collecting);
    reveal(on_saving_phase);
    reveal_strlit("__cancelled__");
    reveal_strlit("Worker GPU absent");
    reveal_strlit("Asset source absent");
    reveal_strlit("Capacité vidéo invalide");
    assert("__cancelled__"@[0] == '_' && "Worker GPU absent"@[0] == 'W' && "Asset source absent"@[0]
        == 'A' && "Capacité vidéo invalide"@[0] == 'C');
    match next(run, VideoEvent::Recorded, saving, now).action {
        VideoActionView::StageImages(ids) => {
            assert(ids == generation::asset_ids(run.ordered));
        },
        _ => {},
    }
}

/// The arguments of the encoder are in order: it reads the source, cuts the video
/// to the duration, makes it at the rate and of the sides that were asked for,
/// writes its progress where it is looked for, and the video where it is collected.
#[verifier::spinoff_prover]
pub proof fn law_the_encoder_is_told_the_request(
    run: VideoRunView,
    source: Seq<char>,
    progress: Seq<char>,
    output: Seq<char>,
)
    ensures
        ({
            let told = encoder_arguments(run, source, progress, output);
            let duration = match run.generation.duration_seconds {
                Some(asked) => asked,
                None => 6,
            };
            &&& told.last() == output
            &&& follows(told, "-i"@, source)
            &&& follows(told, "-t"@, text::decimal(duration as nat))
            &&& follows(told, "-r"@, text::decimal(run.fps as nat))
            &&& follows(told, "-progress"@, progress)
            &&& follows(told, "-c:v"@, "libx264"@)
            &&& follows(told, "-pix_fmt"@, "yuv420p"@)
            &&& follows(told, "-movflags"@, "+faststart"@)
            &&& told[0] == "-y"@
            &&& exists|i: int|
                0 <= i < told.len() - 1 && (#[trigger] told[i]) == "-vf"@ && text::opens(
                    told[i + 1],
                    "scale="@ + text::decimal(run.sides.0 as nat) + ":"@ + text::decimal(
                        run.sides.1 as nat,
                    ) + ":force_original_aspect_ratio=increase,crop="@,
                )
            &&& run.generation.mode != GenerationMode::VideoToVideo ==> follows(
                told,
                "-loop"@,
                "1"@,
            )
        }),
{
    let told = encoder_arguments(run, source, progress, output);
    let changes = run.generation.mode == GenerationMode::VideoToVideo;
    let sound = run.generation.audio;
    let n = told.len();
    assert(told[n - 14] == "-r"@ && told[n - 12] == "-c:v"@ && told[n - 8] == "-pix_fmt"@ && told[n
        - 6] == "-movflags"@ && told[n - 4] == "-progress"@);
    let wide = text::decimal(run.sides.0 as nat);
    let high = text::decimal(run.sides.1 as nat);
    let start = "scale="@ + wide + ":"@ + high + ":force_original_aspect_ratio=increase,crop="@;
    let at: int = if changes {
        3
    } else {
        5
    };
    assert(told[at] == "-i"@ && told[at + 1] == source);
    let cut: int = if changes {
        5
    } else if sound {
        12
    } else {
        7
    };
    assert(told[cut] == "-t"@ && told[cut + 2] == "-vf"@);
    assert(told[cut + 3].take(start.len() as int) =~= start);
    assert(text::opens(told[cut + 3], start));
    if !changes {
        assert(told[3] == "-loop"@ && told[4] == "1"@);
    }
}

/// Whether a text stands directly behind another in a list.
pub open spec fn follows(list: Seq<Seq<char>>, name: Seq<char>, value: Seq<char>) -> bool {
    exists|i: int| 0 <= i < list.len() - 1 && #[trigger] list[i] == name && list[i + 1] == value
}

proof fn lemma_numbers_end_in_digits(number: nat)
    ensures
        text::decimal(number).len() > 0,
        text::decimal(number).last() != 'n',
        text::decimal(number).last() != 'a',
        text::decimal(number).last() != 't',
        text::decimal(number).last() != '?',
{
    let last = number % 10;
    assert(text::decimal(number).last() == text::digit_char(last));
    assert(('0' as u32 + last) < 58);
}

/// Where a video is made from a video, its sound is kept where sound was asked
/// for, and left out where it was not; a video that is made from a picture is given
/// a silent track where sound was asked for, and no sound otherwise.
#[verifier::spinoff_prover]
pub proof fn law_sound_follows_the_request(
    run: VideoRunView,
    source: Seq<char>,
    progress: Seq<char>,
    output: Seq<char>,
)
    requires
        source != "-an"@ && progress != "-an"@ && output != "-an"@,
        source != "-c:a"@ && progress != "-c:a"@ && output != "-c:a"@,
        source != "0:a?"@ && progress != "0:a?"@ && output != "0:a?"@,
        source != "-shortest"@ && progress != "-shortest"@ && output != "-shortest"@,
    ensures
        ({
            let told = encoder_arguments(run, source, progress, output);
            let changes = run.generation.mode == GenerationMode::VideoToVideo;
            &&& changes && run.generation.audio ==> follows(told, "-map"@, "0:v:0"@) && follows(
                told,
                "-map"@,
                "0:a?"@,
            ) && follows(told, "-c:a"@, "aac"@) && !told.contains("-an"@)
            &&& changes && !run.generation.audio ==> told.contains("-an"@) && !told.contains(
                "0:a?"@,
            ) && !told.contains("-c:a"@)
            &&& !changes && run.generation.audio ==> follows(
                told,
                "-i"@,
                "anullsrc=channel_layout=stereo:sample_rate=44100"@,
            ) && follows(told, "-c:a"@, "aac"@) && told.contains("-shortest"@) && !told.contains(
                "-an"@,
            )
            &&& !changes && !run.generation.audio ==> !told.contains("-c:a"@) && !told.contains(
                "-shortest"@,
            ) && !told.contains("-an"@)
        }),
{
    let told = encoder_arguments(run, source, progress, output);
    let changes = run.generation.mode == GenerationMode::VideoToVideo;
    let sound = run.generation.audio;
    let duration = seconds(run.generation);
    lemma_numbers_end_in_digits(duration as nat);
    lemma_numbers_end_in_digits(run.fps as nat);
    reveal_strlit("-y");
    reveal_strlit("-loglevel");
    reveal_strlit("error");
    reveal_strlit("-i");
    reveal_strlit("-t");
    reveal_strlit("-vf");
    reveal_strlit("-map");
    reveal_strlit("0:v:0");
    reveal_strlit("0:a?");
    reveal_strlit("-c:a");
    reveal_strlit("aac");
    reveal_strlit("-an");
    reveal_strlit("-loop");
    reveal_strlit("1");
    reveal_strlit("-f");
    reveal_strlit("lavfi");
    reveal_strlit("anullsrc=channel_layout=stereo:sample_rate=44100");
    reveal_strlit("-shortest");
    reveal_strlit("-r");
    reveal_strlit("-c:v");
    reveal_strlit("libx264");
    reveal_strlit("-preset");
    reveal_strlit("veryfast");
    reveal_strlit("-pix_fmt");
    reveal_strlit("yuv420p");
    reveal_strlit("-movflags");
    reveal_strlit("+faststart");
    reveal_strlit("-progress");
    reveal_strlit("-nostats");
    reveal_strlit("scale=");
    assert("-an"@.len() == 3 && "-an"@[0] == '-' && "-an"@[1] == 'a' && "-an"@.last() == 'n');
    assert("-vf"@[1] == 'v' && "aac"@[0] == 'a');
    assert("-shortest"@[1] == 's' && "-shortest"@.last() == 't' && "-loglevel"@[1] == 'l'
        && "-movflags"@[1] == 'm' && "-progress"@[1] == 'p');
    assert("-c:a"@.len() == 4 && "-c:a"@[0] == '-' && "-c:a"@[1] == 'c' && "-c:a"@.last() == 'a'
        && "-map"@[1] == 'm' && "-c:v"@.last() == 'v' && "0:a?"@[0] == '0');
    assert("0:a?"@.len() == 4 && "-map"@[0] == '-' && "-c:v"@[0] == '-' && "0:a?"@.last() == '?');
    assert("scale="@[0] == 's' && "scale="@.len() == 6);
    assert("-y"@.len() == 2 && "-loglevel"@.len() == 9 && "error"@.len() == 5 && "-i"@.len() == 2
        && "-t"@.len() == 2 && "-vf"@.len() == 3 && "0:v:0"@.len() == 5 && "aac"@.len() == 3
        && "-loop"@.len() == 5 && "1"@.len() == 1 && "-f"@.len() == 2 && "lavfi"@.len() == 5
        && "anullsrc=channel_layout=stereo:sample_rate=44100"@.len() == 48 && "-shortest"@.len()
        == 9 && "-r"@.len() == 2 && "-c:v"@.len() == 4 && "libx264"@.len() == 7 && "-preset"@.len()
        == 7 && "veryfast"@.len() == 8 && "-pix_fmt"@.len() == 8 && "yuv420p"@.len() == 7
        && "-movflags"@.len() == 9 && "+faststart"@.len() == 10 && "-progress"@.len() == 9
        && "-nostats"@.len() == 8);
    if changes {
        let filter = told[8];
        assert(filter[0] == 's');
        if sound {
            assert(told[9] == "-map"@ && told[10] == "0:v:0"@ && told[11] == "-map"@ && told[12]
                == "0:a?"@ && told[13] == "-c:a"@ && told[14] == "aac"@);
            assert(told.len() == 29);
        } else {
            assert(told[9] == "-an"@);
            assert(told.len() == 24);
        }
    } else {
        if sound {
            assert(told[7] == "-f"@ && told[9] == "-i"@ && told[10]
                == "anullsrc=channel_layout=stereo:sample_rate=44100"@ && told[11] == "-shortest"@);
            assert(told[15][0] == 's');
            assert(told[16] == "-c:a"@ && told[17] == "aac"@);
            assert(told.len() == 32);
        } else {
            assert(told[6] == source);
            assert(told[10][0] == 's');
            assert(told.len() == 25);
        }
    }
}

/// The encoder is watched until it ends: one that fails ends the run as failed, one
/// that is told to stop is stopped and the run with it, and what one that succeeds
/// has made is collected.
#[verifier::spinoff_prover]
pub proof fn law_the_encoder_is_watched(
    run: VideoRunView,
    look: EncoderLook,
    saving: bool,
    now: u64,
)
    requires
        run.phase == VideoPhase::Encoding,
    ensures
        ({
            let step = next(run, VideoEvent::Encoder(look), saving, now);
            &&& look.cancelled ==> step.action is Kill && step.run.phase == VideoPhase::Ended
                && step.run.generation.status == GenerationStatus::Cancelled
            &&& !look.cancelled && look.ended == Ok::<Option<bool>, String>(Some(true))
                ==> step.action is Collect && step.run.phase == VideoPhase::Collecting
            &&& !look.cancelled && look.ended == Ok::<Option<bool>, String>(Some(false))
                ==> step.action is End && step.run.generation.status == GenerationStatus::Failed
            &&& !look.cancelled && look.ended == Ok::<Option<bool>, String>(None) ==> step.action
                is Watch && step.run.phase == VideoPhase::Encoding && step.run.generation.status
                == run.generation.status
        }),
{
    reveal(on_ready);
    reveal(on_routing);
    reveal(on_staging);
    reveal(on_preflighting);
    reveal(on_generating);
    reveal(on_reading);
    reveal(on_sketching);
    reveal(on_sketch_reading);
    reveal(on_locating);
    reveal(on_encoding_phase);
    reveal(on_collecting);
    reveal(on_saving_phase);
    reveal_strlit("__cancelled__");
    reveal_strlit("FFmpeg n'a pas pu produire la vidéo.");
    assert("__cancelled__"@[0] == '_' && "FFmpeg n'a pas pu produire la vidéo."@[0] == 'F');
}

/// The progress of the encoder is the share of the duration that is done, told
/// between 24 and 88 percent: it begins and ends there, does not fall while the
/// time rises, and half the duration is half the way.
#[verifier::spinoff_prover]
pub proof fn law_progress_follows_the_encoder(done: u64, later: u64, duration: u32)
    requires
        done <= later,
        duration > 0,
    ensures
        24 <= encoder_progress(done, duration) <= encoder_progress(later, duration) <= 88,
        encoder_progress(0, duration) == 24,
        later >= duration * 1_000_000 ==> encoder_progress(later, duration) == 88,
        2 * later == duration * 1_000_000 ==> encoder_progress(later, duration) == 56,
{
    let whole: int = duration * 1_000_000;
    let a: int = done as int;
    let b: int = later as int;
    assert(whole > 0);
    assert((128 * a + whole) / (2 * whole) <= (128 * b + whole) / (2 * whole)) by (nonlinear_arith)
        requires
            0 <= a <= b,
            whole > 0,
    ;
    assert((128 * a + whole) / (2 * whole) >= 0) by (nonlinear_arith)
        requires
            0 <= a,
            whole > 0,
    ;
    assert((128 * 0 + whole) / (2 * whole) == 0) by (nonlinear_arith)
        requires
            whole > 0,
    ;
    if b < whole {
        assert((128 * b + whole) / (2 * whole) <= 64) by (nonlinear_arith)
            requires
                0 <= b < whole,
        ;
    }
    if a < whole {
        assert((128 * a + whole) / (2 * whole) <= 64) by (nonlinear_arith)
            requires
                0 <= a < whole,
        ;
    }
    if 2 * b == whole {
        assert((128 * b + whole) / (2 * whole) == 32) by (nonlinear_arith)
            requires
                2 * b == whole,
                whole > 0,
        ;
    }
}

/// What goes wrong outside ends the run: the generation has failed and keeps the
/// cause.
#[verifier::spinoff_prover]
pub proof fn law_failures_end_the_run(
    run: VideoRunView,
    event: VideoEvent,
    cause: String,
    saving: bool,
    now: u64,
)
    requires
        ({
            ||| run.phase == VideoPhase::Staging && event == VideoEvent::Staged(Err(cause))
            ||| run.phase == VideoPhase::Preflight && event == VideoEvent::Preflight(Err(cause))
            ||| run.phase == VideoPhase::Generating && event == VideoEvent::Answered(Err(cause))
            ||| run.phase == VideoPhase::Sketching && event == VideoEvent::Answered(Err(cause))
            ||| run.phase == VideoPhase::Locating && event == VideoEvent::Located(Err(cause))
            ||| run.phase == VideoPhase::Collecting && event == VideoEvent::Collected(Err(cause))
            ||| run.phase == VideoPhase::Saving && event == VideoEvent::Saved(Err(cause))
        }),
        cause@ != "__cancelled__"@,
    ensures
        ({
            let step = next(run, event, saving, now);
            &&& step.run.phase == VideoPhase::Ended
            &&& step.run.generation.status == GenerationStatus::Failed
            &&& step.run.generation.error == Some(cause@)
            &&& step.run.generation.output_asset_id == run.generation.output_asset_id
            &&& step.action is End
            &&& step.report matches Some(report) && report.status == JobStatus::Failed
        }),
{
    reveal(on_ready);
    reveal(on_routing);
    reveal(on_staging);
    reveal(on_preflighting);
    reveal(on_generating);
    reveal(on_reading);
    reveal(on_sketching);
    reveal(on_sketch_reading);
    reveal(on_locating);
    reveal(on_encoding_phase);
    reveal(on_collecting);
    reveal(on_saving_phase);
}

/// What the worker made is only read where the answer speaks of this job, says that
/// it is complete at the path that was given, and has sound where sound was asked
/// for; what the worker measured is then kept.
#[verifier::spinoff_prover]
pub proof fn law_answers_are_checked(
    run: VideoRunView,
    response: GenerateResponse,
    saving: bool,
    now: u64,
)
    requires
        run.phase == VideoPhase::Generating || run.phase == VideoPhase::Sketching,
    ensures
        ({
            let step = next(run, VideoEvent::Answered(Ok(response)), saving, now);
            let told = response@;
            let after = step.run.generation;
            let path = "generations/"@ + identity::hyphenated(run.generation.id) + "."@ + if run.phase
                == VideoPhase::Generating {
                "mp4"@
            } else {
                "png"@
            };
            let sound = told.job_id == identity::hyphenated(run.job_id) && told.state
                == "COMPLETED"@ && told.output_relative_path == path && (run.generation.audio
                ==> told.actual_audio);
            &&& sound ==> {
                &&& step.action == VideoActionView::Read(path)
                &&& run.phase == VideoPhase::Generating ==> step.run.phase == VideoPhase::Reading
                &&& run.phase == VideoPhase::Sketching ==> step.run.phase
                    == VideoPhase::SketchReading
                &&& after.actual_width == Some(
                    match told.actual_width {
                        Some(measured) => measured,
                        None => told.width,
                    },
                )
                &&& after.actual_height == Some(
                    match told.actual_height {
                        Some(measured) => measured,
                        None => told.height,
                    },
                )
                &&& after.actual_fps == told.actual_fps && after.actual_frames
                    == told.actual_frames && after.actual_duration == told.actual_duration
                &&& after.actual_audio == told.actual_audio && after.audio_codec
                    == told.audio_codec && after.audio_channels == told.audio_channels
                    && after.audio_sample_rate == told.audio_sample_rate
                &&& after.inference_frames == told.inference_frames
                &&& told.requested_fps is None ==> after.requested_fps
                    == run.generation.requested_fps
                &&& told.requested_fps is Some ==> after.requested_fps == told.requested_fps
                &&& told.requested_aspect_ratio is None ==> after.requested_aspect_ratio
                    == run.generation.requested_aspect_ratio
                &&& told.requested_aspect_ratio is Some ==> after.requested_aspect_ratio
                    == told.requested_aspect_ratio
                &&& told.requested_quality is None ==> after.requested_quality
                    == run.generation.requested_quality
                &&& told.requested_quality is Some ==> after.requested_quality
                    == told.requested_quality
                &&& told.requested_frames is None ==> after.requested_frames
                    == run.generation.requested_frames
                &&& told.requested_frames is Some ==> after.requested_frames
                    == told.requested_frames
                &&& told.requested_duration_seconds is None ==> after.requested_duration_seconds
                    == run.generation.requested_duration_seconds
                &&& told.requested_duration_seconds is Some ==> after.requested_duration_seconds
                    == told.requested_duration_seconds
            }
            &&& !sound ==> step.run.phase == VideoPhase::Ended && after.status
                == GenerationStatus::Failed
        }),
{
    reveal(on_ready);
    reveal(on_routing);
    reveal(on_staging);
    reveal(on_preflighting);
    reveal(on_generating);
    reveal(on_reading);
    reveal(on_sketching);
    reveal(on_sketch_reading);
    reveal(on_locating);
    reveal(on_encoding_phase);
    reveal(on_collecting);
    reveal(on_saving_phase);
    reveal_strlit("__cancelled__");
    reveal_strlit("Le worker a renvoyé un résultat incohérent.");
    reveal_strlit(
        "NATIVE_AUDIO_NOT_VERIFIED: audio demandé mais le MP4 Worker ne contient pas une piste AAC validée.",
    );
    assert("__cancelled__"@[0] == '_' && "Le worker a renvoyé un résultat incohérent."@[0] == 'L'
        && "NATIVE_AUDIO_NOT_VERIFIED: audio demandé mais le MP4 Worker ne contient pas une piste AAC validée."@[0]
        == 'N');
}

/// A saved video completes its generation, with its identifier and with what was
/// measured of it, which comes before what the worker said; and it is saved under
/// the name of its generation, with the sides that were asked for.
#[verifier::spinoff_prover]
pub proof fn law_saved_videos_complete(
    run: VideoRunView,
    saved: SavedVideo,
    saving: bool,
    now: u64,
)
    ensures
        run.phase == VideoPhase::Saving ==> {
            let step = next(run, VideoEvent::Saved(Ok(saved)), saving, now);
            let done = step.run.generation;
            &&& step.run.phase == VideoPhase::Ended && step.action is Complete
            &&& done.status == GenerationStatus::Completed && done.progress == 100
            &&& done.output_asset_id == Some(saved.asset@.id)
            &&& done.updated_at == now
            &&& saved.asset@.width is Some ==> done.actual_width == saved.asset@.width
            &&& saved.asset@.width is None ==> done.actual_width == run.generation.actual_width
            &&& saved.asset@.height is Some ==> done.actual_height == saved.asset@.height
            &&& saved.asset@.height is None ==> done.actual_height == run.generation.actual_height
            &&& saved.asset@.fps is Some ==> done.actual_fps == saved.asset@.fps
            &&& saved.asset@.duration_seconds is Some ==> done.actual_duration
                == saved.asset@.duration_seconds
            &&& run.generation.actual_frames is Some ==> done.actual_frames
                == run.generation.actual_frames
            &&& run.generation.actual_frames is None ==> done.actual_frames == saved.frames
            &&& step.report matches Some(report) && report.status == JobStatus::Completed
                && report.progress == 100
        },
        run.phase == VideoPhase::Reading ==> next(
            run,
            VideoEvent::Read(ReadOutcome::Done),
            saving,
            now,
        ).action == VideoActionView::Save(
            "generation-"@ + identity::hyphenated(run.generation.id) + ".mp4"@,
            run.sides,
        ),
        run.phase == VideoPhase::Collecting ==> next(
            run,
            VideoEvent::Collected(Ok(())),
            saving,
            now,
        ).action == VideoActionView::Save(
            "generation-"@ + identity::hyphenated(run.generation.id) + ".mp4"@,
            run.sides,
        ),
{
    reveal(on_ready);
    reveal(on_routing);
    reveal(on_staging);
    reveal(on_preflighting);
    reveal(on_generating);
    reveal(on_reading);
    reveal(on_sketching);
    reveal(on_sketch_reading);
    reveal(on_locating);
    reveal(on_encoding_phase);
    reveal(on_collecting);
    reveal(on_saving_phase);
}

/// A run goes through its phases in order.
#[verifier::spinoff_prover]
#[verifier::rlimit(40)]
pub proof fn law_phases_follow_each_other(
    run: VideoRunView,
    event: VideoEvent,
    saving: bool,
    now: u64,
)
    ensures
        ({
            let step = next(run, event, saving, now);
            let after = step.run.phase;
            &&& run.phase == VideoPhase::Ready && event is Begin ==> after == VideoPhase::Routing
                && step.action is Record && step.run.generation.status
                == GenerationStatus::Running && (step.report matches Some(report) && report.status
                == JobStatus::Dispatching)
            &&& run.phase == VideoPhase::Staging ==> (event matches VideoEvent::Staged(Ok(paths))
                ==> after == VideoPhase::Preflight && step.run.staged == text::texts(paths@)
                && step.action is Preflight)
            &&& run.phase == VideoPhase::Preflight && event is Preflight ==> after
                == VideoPhase::Generating || after == VideoPhase::Ended
            &&& run.phase == VideoPhase::Reading && event == VideoEvent::Read(ReadOutcome::Done)
                ==> after == VideoPhase::Saving && (step.report matches Some(report)
                && report.status == JobStatus::SavingOutput)
            &&& run.phase == VideoPhase::SketchReading && event == VideoEvent::Read(
                ReadOutcome::Done,
            ) ==> after == VideoPhase::Encoding && step.action is Encode
            &&& run.phase == VideoPhase::Locating ==> (event matches VideoEvent::Located(Ok(_))
                ==> after == VideoPhase::Encoding && step.action is Encode)
            &&& run.phase == VideoPhase::Collecting ==> (event matches VideoEvent::Collected(Ok(_))
                ==> after == VideoPhase::Saving && (step.report matches Some(report)
                && report.status == JobStatus::SavingOutput))
            &&& after == VideoPhase::Saving && run.phase != VideoPhase::Saving ==> run.phase
                == VideoPhase::Reading || run.phase == VideoPhase::Collecting
            &&& step.action is Generate && run.phase == VideoPhase::Preflight ==> (event
                matches VideoEvent::Preflight(answer) && preflight::answer_refusal(
                answer,
                run.generation,
                run.storage_id,
            ) is None)
            &&& step.action is Ignore ==> step.run == run && step.report is None
        }),
{
    match run.phase {
        VideoPhase::Ready => {
            reveal(on_ready);
        },
        VideoPhase::Routing => {
            reveal(on_routing);
        },
        VideoPhase::Staging => {
            reveal(on_staging);
        },
        VideoPhase::Preflight => {
            reveal(on_preflighting);
        },
        VideoPhase::Generating => {
            reveal(on_generating);
        },
        VideoPhase::Reading => {
            reveal(on_reading);
        },
        VideoPhase::Sketching => {
            reveal(on_sketching);
        },
        VideoPhase::SketchReading => {
            reveal(on_sketch_reading);
        },
        VideoPhase::Locating => {
            reveal(on_locating);
        },
        VideoPhase::Encoding => {
            reveal(on_encoding_phase);
        },
        VideoPhase::Collecting => {
            reveal(on_collecting);
        },
        VideoPhase::Saving => {
            reveal(on_saving_phase);
        },
        VideoPhase::Ended => {},
    }
}

/// What was asked for beside the sides and the rate stands through the run too.
#[verifier::spinoff_prover]
#[verifier::rlimit(40)]
pub proof fn law_the_rest_of_the_request_stands(
    run: VideoRunView,
    event: VideoEvent,
    saving: bool,
    now: u64,
)
    ensures
        ({
            let step = next(run, event, saving, now);
            &&& step.run.generation.negative_prompt == run.generation.negative_prompt
            &&& step.run.generation.model_id == run.generation.model_id
            &&& step.run.generation.capability == run.generation.capability
            &&& step.run.generation.requested_preset == run.generation.requested_preset
            &&& step.run.generation.input_asset_id == run.generation.input_asset_id
            &&& step.run.generation.created_at == run.generation.created_at
            &&& step.run.generation.advanced_parameters == run.generation.advanced_parameters
            &&& step.run.worker == run.worker
            &&& run.phase != VideoPhase::Staging ==> step.run.staged == run.staged
        }),
{
    match run.phase {
        VideoPhase::Ready => {
            reveal(on_ready);
        },
        VideoPhase::Routing => {
            reveal(on_routing);
        },
        VideoPhase::Staging => {
            reveal(on_staging);
        },
        VideoPhase::Preflight => {
            reveal(on_preflighting);
        },
        VideoPhase::Generating => {
            reveal(on_generating);
        },
        VideoPhase::Reading => {
            reveal(on_reading);
        },
        VideoPhase::Sketching => {
            reveal(on_sketching);
        },
        VideoPhase::SketchReading => {
            reveal(on_sketch_reading);
        },
        VideoPhase::Locating => {
            reveal(on_locating);
        },
        VideoPhase::Encoding => {
            reveal(on_encoding_phase);
        },
        VideoPhase::Collecting => {
            reveal(on_collecting);
        },
        VideoPhase::Saving => {
            reveal(on_saving_phase);
        },
        VideoPhase::Ended => {},
    }
}

/// What was probed of a saved video is kept with it, and everything else of it.
#[verifier::spinoff_prover]
pub proof fn law_probes_are_kept(asset: AssetView, facts: VideoFacts)
    ensures
        ({
            let known = probed(asset, facts);
            &&& known.width == Some(facts.width) && known.height == Some(facts.height)
            &&& known.duration_seconds == Some(facts.duration_seconds) && known.fps == Some(
                facts.fps,
            )
            &&& known.id == asset.id && known.url == asset.url && known.mime_type
                == asset.mime_type
        }),
{
}

/// What the reader of a video is given names its asset, with its address, its type,
/// its sides, its duration, its rate and its frames.
#[verifier::spinoff_prover]
pub proof fn law_results_name_the_asset(
    asset: AssetView,
    frames: Option<u32>,
    asset_record: JsonView,
    generation_record: JsonView,
)
    ensures
        ({
            let result = result_of(asset, frames, asset_record, generation_record);
            &&& result.text_member("asset_id"@) == Some(identity::hyphenated(asset.id))
            &&& result.text_member("url"@) == Some(asset.url)
            &&& result.text_member("mime_type"@) == Some(asset.mime_type)
            &&& asset.width matches Some(side) ==> result.member("width"@) == Some(
                JsonView::Integer(side as u64),
            )
            &&& asset.height matches Some(side) ==> result.member("height"@) == Some(
                JsonView::Integer(side as u64),
            )
            &&& asset.duration_seconds matches Some(time) ==> result.member("duration"@) == Some(
                JsonView::Real(time),
            )
            &&& asset.fps matches Some(rate) ==> result.member("fps"@) == Some(
                JsonView::Real(rate),
            )
            &&& frames matches Some(count) ==> result.member("frames"@) == Some(
                JsonView::Integer(count as u64),
            )
            &&& result.text_member("codec"@) == Some("h264"@)
            &&& result.member("asset"@) == Some(asset_record)
            &&& result.member("generation"@) == Some(generation_record)
        }),
{
    let members = result_of(asset, frames, asset_record, generation_record)->Object_0;
    member::lemma_members(members);
    reveal_with_fuel(member::first_named, 13);
    assert(members.len() == 11);
    reveal_strlit("asset_id");
    reveal_strlit("url");
    reveal_strlit("mime_type");
    reveal_strlit("width");
    reveal_strlit("height");
    reveal_strlit("duration");
    reveal_strlit("fps");
    reveal_strlit("frames");
    reveal_strlit("codec");
    reveal_strlit("asset");
    reveal_strlit("generation");
    assert("asset_id"@.len() == 8 && "url"@.len() == 3 && "mime_type"@.len() == 9 && "width"@.len()
        == 5 && "height"@.len() == 6 && "asset"@.len() == 5 && "generation"@.len() == 10
        && "duration"@.len() == 8 && "fps"@.len() == 3 && "frames"@.len() == 6 && "codec"@.len()
        == 5);
    assert("width"@[0] == 'w' && "asset"@[0] == 'a' && "codec"@[0] == 'c' && "asset_id"@[0] == 'a'
        && "duration"@[0] == 'd' && "url"@[0] == 'u' && "fps"@[0] == 'f' && "height"@[0] == 'h'
        && "frames"@[0] == 'f');
}

} // verus!
