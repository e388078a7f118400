use vorleser_server::api::audiobooks::{cover_art_error, require_accessible};
use vorleser_server::api::auth::{login, registration_allowed};
use vorleser_server::encoder::pipeline::{bus_action, first_audio_pad, is_audio, BusAction, BusMessage};
use vorleser_server::encoder::EncoderError;
use vorleser_server::helpers::uuid::Uuid;
use vorleser_server::models::library::{Library, LibraryPermission};
use vorleser_server::models::user::{ApiToken, UserModel};
use vorleser_server::responses::{APIError, Status};
use vorleser_server::validation::token::TokenSerializer;
use vorleser_server::worker::error::WorkerError;
use vorleser_server::worker::mediafile::{check_av_result, cover_image_type, media_title, packet_status, AvError, ImageType, PacketStatus, PictureCodec, AVERROR_EOF};
use vorleser_server::worker::pattern::{default_pattern_text, is_audiobook, walk_action, AudiobookPattern, WalkAction};
use vorleser_server::worker::scanner::{multifile_book_fields, single_file_book_fields, FileTime};

fn user(password: &str) -> UserModel {
    UserModel {
        id: Uuid { value: 42 },
        created_at: FileTime { secs: 0, nanos: 0 },
        updated_at: FileTime { secs: 0, nanos: 0 },
        email: "test@test.com".to_string(),
        password_hash: UserModel::make_password_hash(password),
    }
}

#[test]
fn passwords_verify() {
    let u = user("lol");
    assert!(u.verify_password("lol"));
    assert!(!u.verify_password("lola"));
    assert_eq!(u.password_hash, UserModel::make_password_hash("lol"));
    assert_ne!(u.password_hash, UserModel::make_password_hash("lola"));
    let n = UserModel::new_user("a@b.c", "pw");
    assert_eq!(n.email, "a@b.c");
    assert_eq!(n.password_hash, UserModel::make_password_hash("pw"));
    assert_eq!(u.new_api_token().user_id, u.id);
}

#[test]
fn login_answers() {
    let u = user("lol");
    assert_eq!(login(Some(&u), "lol").ok(), Some(Uuid { value: 42 }));
    let wrong = login(Some(&u), "lola").unwrap_err();
    assert_eq!(wrong.status, Status::Unauthorized);
    assert_eq!(wrong.message.as_deref(), Some("Username or password incorrect."));
    let nobody = login(None, "lol").unwrap_err();
    assert_eq!(nobody.message.as_deref(), Some("Username or password incorrect."));
    assert!(registration_allowed(true).is_ok());
    let refused = registration_allowed(false).unwrap_err();
    assert_eq!(refused.status, Status::Unauthorized);
    assert_eq!(
        refused.message.as_deref(),
        Some("Registration is disabled. Create a user via the commandline or enable user creation in the config file.")
    );
}

#[test]
fn token_serializer_uses_token_id() {
    let t = ApiToken { id: Uuid { value: 1 }, user_id: Uuid { value: 2 }, created_at: FileTime { secs: 3, nanos: 0 } };
    assert_eq!(TokenSerializer::from(t).secret, Uuid { value: 1 });
}

#[test]
fn permissions() {
    let u = user("x");
    let lib = Library { id: Uuid { value: 9 }, location: "/foo".to_string(), is_audiobook_regex: ".*".to_string(), last_scan: None };
    assert_eq!(LibraryPermission::permit(&u, &lib), LibraryPermission { library_id: Uuid { value: 9 }, user_id: Uuid { value: 42 } });
}

#[test]
fn access_and_cover_errors() {
    assert!(require_accessible(true).is_ok());
    assert_eq!(require_accessible(false).unwrap_err().status, Status::NotFound);
    let e = cover_art_error(true);
    assert_eq!((e.status, e.message.as_deref()), (Status::NotFound, Some("No cover art found.")));
    assert_eq!(cover_art_error(false).status, Status::InternalServerError);
    let c = APIError::already_exists("user test@test.com");
    assert_eq!(c.status, Status::Conflict);
    assert_eq!(c.message.as_deref(), Some("The user test@test.com already exists"));
}

#[test]
fn default_pattern_matches_top_level_names() {
    let p = AudiobookPattern::new(default_pattern_text()).unwrap();
    assert_eq!(p.as_str(), "^[^/]+$");
    assert!(is_audiobook("another-book.mp3", &p));
    assert!(is_audiobook("that_other_book", &p));
    assert!(!is_audiobook("that_other_book/chapter 01.mp3", &p));
    assert!(AudiobookPattern::new("(unclosed").is_none());
    assert_eq!(walk_action("", true, &p), WalkAction::Pass);
    assert_eq!(walk_action("that_other_book", true, &p), WalkAction::Book { skip_contents: true });
    assert_eq!(walk_action("my-fun-book.m4b", false, &p), WalkAction::Book { skip_contents: false });
    assert_eq!(walk_action("that_other_book/chapter 01.mp3", false, &p), WalkAction::Pass);
}

#[test]
fn media_results() {
    assert_eq!(check_av_result(3), Ok(3));
    assert_eq!(check_av_result(-2), Err(AvError { code: -2 }));
    assert_eq!(packet_status(0), PacketStatus::Packet);
    assert_eq!(packet_status(AVERROR_EOF), PacketStatus::EndOfFile);
    assert_eq!(AVERROR_EOF, -541478725);
    assert_eq!(packet_status(-5), PacketStatus::Failed(AvError { code: -5 }));
    assert_eq!(cover_image_type(PictureCodec::Png), Some(ImageType::PNG));
    assert_eq!(cover_image_type(PictureCodec::Mjpeg), Some(ImageType::JPG));
    assert_eq!(cover_image_type(PictureCodec::Other), None);
    assert_eq!(media_title(Some("[Bulgarian]Stihotvorenia"), "all.m4b"), "[Bulgarian]Stihotvorenia");
    assert_eq!(media_title(None, "no_metadata.mp3"), "no_metadata.mp3");
}

#[test]
fn book_fields() {
    let b = single_file_book_fields("book.mp3", None, "book.mp3", Some("Mara Belcheva"), Some("mp3"));
    assert_eq!((b.location.as_str(), b.title.as_str(), b.artist.as_deref(), b.file_extension.as_str()),
               ("book.mp3", "book.mp3", Some("Mara Belcheva"), "mp3"));
    let b = single_file_book_fields("x", Some("T"), "x", None, None);
    assert_eq!((b.title.as_str(), b.artist, b.file_extension.as_str()), ("T", None, ""));
    let m = multifile_book_fields("book", Some("book"), Some("mp3"), Some("Album"), None).unwrap();
    assert_eq!((m.title.as_str(), m.file_extension.as_str()), ("Album", "mp3"));
    assert!(matches!(multifile_book_fields("book", Some("book"), None, None, None), Err(WorkerError::NoValidFileExtensions)));
    assert!(matches!(multifile_book_fields("book", None, Some("mp3"), None, None), Err(WorkerError::InvalidUtf8)));
}

#[test]
fn pipeline_decisions() {
    assert!(is_audio("audio/x-raw"));
    assert!(!is_audio("video/x-raw"));
    let names = vec![None, Some("video/x-h264".to_string()), Some("audio/x-opus".to_string()), Some("audio/x-raw".to_string())];
    assert_eq!(first_audio_pad(&names).ok(), Some(2));
    match first_audio_pad(&vec![Some("video/x-raw".to_string())]) {
        Err(EncoderError::InvalidState(m)) => assert_eq!(m, "No audio stream"),
        other => panic!("unexpected {:?}", other),
    }
    let playing = BusMessage::StateChanged { source_name: "pipeline0".to_string(), now_playing: true };
    assert_eq!(bus_action(&playing), BusAction::SeekAndStop);
    let other = BusMessage::StateChanged { source_name: "decodebin0".to_string(), now_playing: true };
    assert_eq!(bus_action(&other), BusAction::Continue);
    assert_eq!(bus_action(&BusMessage::EndOfStream), BusAction::Stop);
    assert_eq!(bus_action(&BusMessage::Error), BusAction::Continue);
}
