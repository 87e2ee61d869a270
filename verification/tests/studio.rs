//! Pictures, uploads, projects, conversations and requests in words.
use vidioai::asset::{
    admit_upload, check_upload_size, file_name, list_assets, missing_file, new_asset, parse_audio_probe,
    parse_video_probe, published_key, receive_upload, save_asset, stored_extension, Findings,
    VideoFacts,
};
use vidioai::canvas::{compose, draw_over, retouch, CanvasEngine};
use vidioai::capability::{GenerationMode, ModelCapability};
use vidioai::chat::{
    answering_repository, assistant_message, chat_model, new_chat, user_message, Chats,
    CreateChatInput, Reply, SendMessageInput,
};
use vidioai::error::ApiError;
use vidioai::generation::AssetKind;
use vidioai::identity::id_text;
use vidioai::intent::{classify_request, optimize_request, suggested_action};
use vidioai::json::Real;
use vidioai::project::{new_project, ProjectInput, Projects};

fn png(width: u32, height: u32) -> Vec<u8> {
    let picture = image::RgbImage::from_fn(width, height, |x, y| image::Rgb([x as u8, y as u8, 9]));
    let mut content = std::io::Cursor::new(Vec::new());
    picture.write_to(&mut content, image::ImageFormat::Png).unwrap();
    content.into_inner()
}

#[test]
fn a_prompt_is_drawn_in_its_colour() {
    let lights = vec![(0, 0); 1024 * 1024];
    let file = CanvasEngine::text_to_image("un phare", &lights).unwrap();
    let picture = image::load_from_memory(&file).unwrap().to_rgb8();
    assert_eq!(picture.dimensions(), (1024, 1024));
    let colour = CanvasEngine::palette("un phare");
    assert_eq!(picture.get_pixel(512, 3).0, colour);
    assert!(colour.iter().all(|part| *part >= 32));
}

#[test]
fn light_changes_the_parts_of_a_colour() {
    assert_eq!(compose(&[100, 100, 100], &vec![(30, 60)]), vec![90, 92, 103]);
    assert_eq!(compose(&[250, 32, 250], &vec![(255, 0), (0, 255)]), vec![255, 95, 255, 165, 0, 199]);
}

#[test]
fn a_picture_takes_a_quarter_of_a_colour() {
    assert_eq!(retouch(&vec![100, 100, 100], &[40, 80, 120]), vec![85, 95, 105]);
    let lit = retouch(&vec![0; 3 * 20], &[0, 0, 0]);
    assert_eq!(lit[3 * 7], 0);
    assert_eq!(lit[3 * 8], 1);
    assert_eq!(lit[3 * 16], 2);
}

#[test]
fn a_picture_is_made_to_fill_a_square() {
    let file = CanvasEngine::image_to_image("un phare", &png(300, 150)).unwrap();
    let picture = image::load_from_memory(&file).unwrap();
    assert_eq!((picture.width(), picture.height()), (1024, 1024));
    assert!(matches!(CanvasEngine::try_image_to_image("un phare", &png(4, 4)), Some(Ok(_))));
}

#[test]
fn a_square_picture_is_drawn_over_as_it_is() {
    let source = image::load_from_memory(&png(1024, 1024)).unwrap().to_rgb8().into_raw();
    let file = CanvasEngine::image_to_image("un phare", &png(1024, 1024)).unwrap();
    assert_eq!(draw_over("un phare", &source), Ok(file.clone()));
    let drawn = image::load_from_memory(&file).unwrap().to_rgb8().into_raw();
    assert_eq!(drawn, retouch(&source, &CanvasEngine::palette("un phare")));
    let again = CanvasEngine::try_image_to_image("une forêt", &file).unwrap();
    assert_eq!(again, draw_over("une forêt", &drawn));
}

#[test]
fn drawings_differ_with_the_picture_and_with_the_prompt() {
    let one = CanvasEngine::image_to_image("un phare", &png(300, 150));
    assert_ne!(one, CanvasEngine::image_to_image("un phare", &png(150, 300)));
    assert_ne!(one, CanvasEngine::image_to_image("une forêt", &png(300, 150)));
}

#[test]
fn bytes_without_a_picture_are_not_drawn() {
    let cause = image::load_from_memory(b"rien").unwrap_err().to_string();
    assert_eq!(CanvasEngine::image_to_image("un phare", b"rien"), Err(cause.clone()));
    assert_eq!(CanvasEngine::try_image_to_image("un phare", b"rien"), Some(Err(cause)));
}

#[test]
fn an_uploaded_picture_is_measured() {
    let content = png(5, 3);
    let (asset, extension) =
        receive_upload(Some("plan.png"), Some("image/png"), &content, None, None, 7, 90).unwrap();
    assert_eq!(asset.kind, AssetKind::Image);
    assert_eq!((asset.width, asset.height), (Some(5), Some(3)));
    assert_eq!(asset.size_bytes, content.len() as u64);
    assert_eq!(asset.filename, "plan.png");
    assert_eq!(asset.created_at, 90);
    assert_eq!(extension, "png");
    let refused =
        receive_upload(Some("plan.png"), Some("image/png"), b"rien", None, None, 7, 90).unwrap_err();
    assert_eq!(refused.message, "Le fichier n'est pas une image décodable.");
}

#[test]
fn uploads_of_other_kinds_need_what_the_probe_found() {
    let nothing = Findings { sides: None, video: None, audio: None };
    let refusal = |mime: &str, length: u64| {
        admit_upload("f".into(), mime.into(), length, nothing, 1, 2).unwrap_err()
    };
    assert_eq!(refusal("video/mp4", 536870913).message, "La vidéo dépasse 512 Mo.");
    assert_eq!(refusal("image/png", 26214401).message, "Le fichier dépasse 25 Mo.");
    assert!(check_upload_size("video/mp4", 536870912).is_ok());
    assert!(check_upload_size("image/png", 26214400).is_ok());
    assert_eq!(
        check_upload_size("audio/mpeg", 26214401).unwrap_err().message,
        "Le fichier dépasse 25 Mo."
    );
    let heavy = vec![0; 26214401];
    let told = receive_upload(None, Some("image/png"), &heavy, None, None, 1, 2).unwrap_err();
    assert_eq!(told.message, "Le fichier dépasse 25 Mo.");
    assert_eq!(
        refusal("video/mp4", 10).message,
        "Le fichier MP4 ne contient pas de flux vidéo décodable."
    );
    assert_eq!(
        refusal("audio/mpeg", 10).message,
        "Le fichier MP3 ne contient pas de flux audio décodable."
    );
    assert_eq!(
        refusal("text/plain", 10).message,
        "Type refusé. Utilisez PNG, JPEG, WebP, MP4 ou MP3."
    );
    let found = Findings {
        video: Some(VideoFacts {
            width: 640,
            height: 360,
            duration_seconds: Real::Whole(4),
            fps: Real::Whole(25),
        }),
        ..nothing
    };
    let (asset, extension) =
        admit_upload("clip.mp4".into(), "video/mp4".into(), 10, found, 1, 2).unwrap();
    assert_eq!(asset.kind, AssetKind::Video);
    assert_eq!(asset.duration_seconds, Some(Real::Whole(4)));
    assert_eq!((asset.width, asset.height), (Some(640), Some(360)));
    assert_eq!(extension, "mp4");
    assert_eq!(missing_file().status, 400);
}

#[test]
fn assets_are_stored_under_their_identifier() {
    let asset = new_asset(3, AssetKind::Image, "a.png".into(), "image/png".into(), 4, None, 5);
    assert!(asset.url.contains(&id_text(3)));
    assert_eq!(file_name(3, "png"), format!("{}.png", id_text(3)));
    assert!(published_key(3, "a.png").contains(&id_text(3)));
    assert_eq!(stored_extension("video/mp4"), "mp4");
    let first = save_asset(AssetKind::Image, "a".into(), "image/png".into(), 1, Some((2, 2)));
    let second = save_asset(AssetKind::Image, "a".into(), "image/png".into(), 1, Some((2, 2)));
    assert_ne!(first.id, second.id);
    assert_eq!(id_text(first.id).as_bytes()[14], b'4');
}

#[test]
fn assets_are_listed_newest_first() {
    let old = new_asset(1, AssetKind::Image, "a".into(), "image/png".into(), 1, None, 10);
    let new = new_asset(2, AssetKind::Video, "b".into(), "video/mp4".into(), 1, None, 20);
    let listing = list_assets(&vec![old, new]);
    assert_eq!(listing.iter().map(|asset| asset.id).collect::<Vec<_>>(), vec![2, 1]);
}

#[test]
fn reports_of_the_probe_are_read() {
    let report = br#"{"streams":[{"width":1280,"height":720,"r_frame_rate":"30000/1001"}],
        "format":{"duration":"6.5"}}"#;
    let probe = parse_video_probe(report).unwrap();
    assert_eq!((probe.width, probe.height), (1280, 720));
    assert_eq!(probe.duration, "6.5");
    assert_eq!((probe.numerator.as_str(), probe.denominator.as_str()), ("30000", "1001"));
    assert!(parse_video_probe(br#"{"streams":[],"format":{"duration":"1"}}"#).is_none());
    assert!(parse_video_probe(b"no report").is_none());
    let sound = br#"{"streams":[{"codec_type":"video"},{"codec_type":"audio"}],"format":{"duration":"3.25"}}"#;
    assert_eq!(parse_audio_probe(sound), Some("3.25".to_owned()));
    let silent = br#"{"streams":[{"codec_type":"video"}],"format":{"duration":"3.25"}}"#;
    assert_eq!(parse_audio_probe(silent), None);
}

fn project(name: &str) -> ProjectInput {
    ProjectInput {
        name: name.into(),
        description: "  une idée ".into(),
        asset_ids: vec![1, 2],
        generation_ids: vec![],
        chat_ids: vec![9],
    }
}

#[test]
fn projects_are_kept_and_found_again() {
    let mut projects = Projects::new();
    let made = projects.create_project(&project("  Film  ")).unwrap();
    assert_eq!(made.name, "Film");
    assert_eq!(made.asset_ids, vec![1, 2]);
    assert_eq!(projects.get(made.id).unwrap().name, "Film");
    let changed = projects.update_project(made.id, &project("Court"), made.created_at + 5).unwrap();
    assert_eq!(changed.name, "Court");
    assert_eq!(changed.created_at, made.created_at);
    assert_eq!(changed.updated_at, made.created_at + 5);
    assert_eq!(projects.listing().len(), 1);
    assert!(projects.delete(made.id).is_ok());
    assert_eq!(projects.delete(made.id).unwrap_err().status, 404);
    assert_eq!(projects.get(made.id).unwrap_err().message, "Projet inconnu.");
}

#[test]
fn names_of_projects_are_bounded() {
    let refusal = "Le nom doit contenir entre 2 et 80 caractères.";
    assert_eq!(new_project(&project(" x "), 1, 1).unwrap_err().message, refusal);
    assert_eq!(new_project(&project(&"x".repeat(81)), 1, 1).unwrap_err().message, refusal);
    assert!(new_project(&project(&"x".repeat(80)), 1, 1).is_ok());
    assert!(new_project(&project("é"), 1, 1).is_ok());
    let mut projects = Projects::new();
    assert!(projects.create_project(&project("x")).is_err());
    assert!(projects.listing().is_empty());
}

fn message(content: &str) -> SendMessageInput {
    SendMessageInput { content: content.into(), attachment_ids: vec![] }
}

#[test]
fn conversations_are_held_with_models_that_talk() {
    let nothing = CreateChatInput { title: None, model_id: None };
    assert_eq!(chat_model(&nothing), "Qwen/Qwen2.5-0.5B-Instruct");
    assert_eq!(answering_repository(None), "Qwen/Qwen2.5-0.5B-Instruct");
    assert_eq!(answering_repository(Some("owner/model".into())), "owner/model");
    let refused = new_chat(&nothing, "m".into(), &vec![ModelCapability::TextToImage], 1, 2);
    assert_eq!(refused.unwrap_err().message, "Modèle de chat inconnu.");
    let made = new_chat(&nothing, "m".into(), &vec![ModelCapability::Chat], 1, 2).unwrap();
    assert_eq!(made.title, "Nouvelle conversation");
}

#[test]
fn a_turn_is_remembered_and_names_the_conversation() {
    let mut chats = Chats::new();
    let input = CreateChatInput { title: None, model_id: None };
    let chat = chats
        .create_chat(&input, "owner/model".into(), &vec![ModelCapability::Chat])
        .unwrap();
    match chats.prepare_turn(chat.id, " Bonjour ", Ok(())).unwrap() {
        Reply::Ask(model, question) => {
            assert_eq!(model, "owner/model");
            assert_eq!(question, "Bonjour");
        }
        other => panic!("a question, not {other:?}"),
    }
    let long = "a".repeat(60);
    let user = user_message(4, &message(&long), 40);
    let turn = chats.send_chat_message(chat.id, user, "Salut".into(), None).unwrap();
    assert_eq!((turn.user.id, turn.user.created_at), (4, 40));
    assert_eq!(turn.user.role, "user");
    assert!(turn.assistant.created_at > 40);
    assert_eq!(turn.assistant.content, "Salut");
    let kept = chats.get(chat.id).unwrap();
    assert_eq!(kept.title, "a".repeat(48));
    assert_eq!(kept.messages.len(), 2);
    match chats.prepare_turn(chat.id, "Et maintenant ?", Ok(())).unwrap() {
        Reply::Ask(_, question) => assert_eq!(
            question,
            format!("Contexte récent :\nuser: {long}\nassistant: Salut\n\nUtilisateur : Et maintenant ?")
        ),
        other => panic!("a question, not {other:?}"),
    }
    let user = user_message(5, &message("encore"), 50);
    let assistant = assistant_message(6, "oui".into(), 50);
    chats.finish_turn(chat.id, user, assistant, 50).unwrap();
    let after = chats.get(chat.id).unwrap();
    assert_eq!(after.title, kept.title);
    assert_eq!(after.updated_at, 50);
    assert_eq!(after.messages.len(), 4);
}

#[test]
fn only_the_last_eight_messages_are_told() {
    let mut chats = Chats::new();
    let input = CreateChatInput { title: Some("Essai".into()), model_id: None };
    let chat = chats.create_chat(&input, "m".into(), &vec![ModelCapability::Chat]).unwrap();
    for n in 0..6u64 {
        let user = user_message(n as u128, &message(&format!("q{n}")), n);
        let assistant = assistant_message(100 + n as u128, format!("r{n}"), n);
        chats.finish_turn(chat.id, user, assistant, n).unwrap();
    }
    match chats.prepare_turn(chat.id, "fin", Ok(())).unwrap() {
        Reply::Ask(_, question) => {
            assert!(!question.contains("r1"));
            assert!(question.contains("user: q2\nassistant: r2"));
            assert!(question.ends_with("assistant: r5\n\nUtilisateur : fin"));
        }
        other => panic!("a question, not {other:?}"),
    }
    assert_eq!(chats.get(chat.id).unwrap().title, "Essai");
}

#[test]
fn a_message_that_asks_for_a_video_is_answered_with_a_suggestion() {
    let mut chats = Chats::new();
    let input = CreateChatInput { title: None, model_id: None };
    let chat = chats.create_chat(&input, "m".into(), &vec![ModelCapability::Chat]).unwrap();
    match chats.prepare_turn(chat.id, "Fais une VIDÉO d'un chat", Ok(())).unwrap() {
        Reply::Suggest(action, told) => {
            assert_eq!(action, "TEXT_TO_VIDEO");
            assert_eq!(
                told,
                "J’ai préparé une action TEXT_TO_VIDEO. Vérifiez le prompt et les paramètres, puis confirmez la génération dans le studio."
            );
        }
        other => panic!("a suggestion, not {other:?}"),
    }
}

#[test]
fn messages_are_refused_before_they_are_asked() {
    let chats = Chats::new();
    let refusal = "Le message doit contenir entre 1 et 4000 caractères.";
    assert_eq!(chats.prepare_turn(1, "  ", Ok(())).unwrap_err().message, refusal);
    assert_eq!(chats.prepare_turn(1, &"x".repeat(4001), Ok(())).unwrap_err().message, refusal);
    let lost = ApiError::not_found("Asset inconnu.".into());
    assert_eq!(chats.prepare_turn(1, "oui", Err(lost)).unwrap_err().message, "Asset inconnu.");
    assert_eq!(
        chats.prepare_turn(1, "oui", Ok(())).unwrap_err().message,
        "Conversation inconnue."
    );
}

#[test]
fn requests_are_classified_by_their_words_and_asset() {
    let asked = |prompt: &str, asset| classify_request(prompt, asset).capability;
    assert_eq!(asked("Une VIDÉO de la mer", None), ModelCapability::TextToVideo);
    assert_eq!(asked("Dessine un phare", None), ModelCapability::TextToImage);
    assert_eq!(asked("Bonjour", None), ModelCapability::Chat);
    assert_eq!(asked("Anime ce portrait", Some(AssetKind::Image)), ModelCapability::ImageToVideo);
    assert_eq!(asked("Une photo plus claire", Some(AssetKind::Image)), ModelCapability::ImageToImage);
    assert_eq!(asked("Bonjour", Some(AssetKind::Video)), ModelCapability::VideoToVideo);
    assert_eq!(asked("Bonjour", Some(AssetKind::Audio)), ModelCapability::Chat);
    assert_eq!(classify_request("Bonjour", None).confidence_percent, 72);
    assert_eq!(classify_request("Bonjour", Some(AssetKind::Audio)).confidence_percent, 92);
    assert_eq!(suggested_action("UNE VIDÉO"), Some("TEXT_TO_VIDEO"));
    assert_eq!(suggested_action("une ILLUSTRATION"), Some("TEXT_TO_IMAGE"));
    assert_eq!(suggested_action("rien"), None);
}

#[test]
fn settings_suit_the_preset_and_the_machine() {
    let video = GenerationMode::TextToVideo;
    let fast = optimize_request(&video, "FAST", &Some("1080p".into()), Some(12), 1 << 34);
    assert_eq!((fast.quality.as_str(), fast.duration_seconds, fast.device), ("480p", 6, "GPU"));
    let cheap = optimize_request(&video, "minimum_cost", &None, Some(12), 0);
    assert_eq!((cheap.quality.as_str(), cheap.duration_seconds, cheap.device), ("480p", 4, "CPU"));
    let small = optimize_request(&video, "quality", &Some("1080p".into()), Some(40), 1 << 32);
    assert_eq!(small.quality, "720p");
    assert_eq!(small.duration_seconds, 15);
    assert_eq!(
        small.warnings,
        vec!["Résolution réduite à 720p : moins de 8 Go de VRAM détectés."]
    );
    let picture =
        optimize_request(&GenerationMode::TextToImage, "quality", &Some("1080p".into()), Some(1), 0);
    assert_eq!(picture.quality, "1080p");
    assert_eq!(picture.duration_seconds, 2);
    assert!(picture.warnings.is_empty());
}
