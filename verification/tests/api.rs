use vorleser_server::api::ranged_file::{answer_headers, content_type_of, plan_range_response, request_answerable, ByteRangeSpec, FileSeek, RangePlan};
use vorleser_server::handlers::{auth_query_param, check_api_token, token_outcome, TokenCheck, TokenOutcome};
use vorleser_server::helpers::uuid::Uuid;
use vorleser_server::responses::{self, Status, APIError};
use vorleser_server::responses::success_response::ResponseBody;

#[test]
fn whole_file_without_range() {
    let plan = plan_range_response(None, 1000);
    assert_eq!(plan, RangePlan::Whole);
    assert_eq!(plan.status().code(), 200);
}

#[test]
fn from_to_range() {
    let ranges = vec![ByteRangeSpec::FromTo(0, 99), ByteRangeSpec::AllFrom(500)];
    let plan = plan_range_response(Some(&ranges), 1000);
    assert_eq!(
        plan,
        RangePlan::Partial { seek: FileSeek::Start(0), length: 100, first: 0, last: 99, total: 1000 }
    );
    assert_eq!(plan.status().code(), 206);
}

#[test]
fn all_from_range() {
    let ranges = vec![ByteRangeSpec::AllFrom(600)];
    assert_eq!(
        plan_range_response(Some(&ranges), 1000),
        RangePlan::Partial { seek: FileSeek::Start(600), length: 400, first: 600, last: 999, total: 1000 }
    );
}

#[test]
fn last_bytes_range() {
    let ranges = vec![ByteRangeSpec::Last(10)];
    assert_eq!(
        plan_range_response(Some(&ranges), 1000),
        RangePlan::Partial { seek: FileSeek::End(-10), length: 10, first: 990, last: 999, total: 1000 }
    );
}

#[test]
fn query_token_is_found() {
    assert_eq!(auth_query_param("a=1&auth=abc&auth=def").as_deref(), Some("abc"));
    assert_eq!(auth_query_param("auth=").as_deref(), Some(""));
    assert_eq!(auth_query_param("a=1&author=x"), None);
    assert_eq!(auth_query_param("a=1&b=2"), None);
    assert_eq!(auth_query_param(""), None);
}

#[test]
fn header_takes_precedence_over_query() {
    let id = "de362999-55a1-4d91-9adc-b2ca2c013c97";
    let check = check_api_token(Some(id), Some("auth=secret"));
    assert_eq!(check, TokenCheck::Lookup(Uuid::parse_str(id).unwrap()));
}

#[test]
fn token_from_query() {
    let check = check_api_token(None, Some("x=1&auth=de362999-55a1-4d91-9adc-b2ca2c013c97"));
    assert_eq!(check, TokenCheck::Lookup(Uuid { value: 0xde362999_55a1_4d91_9adc_b2ca2c013c97 }));
}

#[test]
fn wrong_tokens_are_refused() {
    // a token that is no identifier is a bad request
    let malformed = check_api_token(Some("secret"), None);
    assert_eq!(malformed, TokenCheck::Malformed);
    assert_eq!(token_outcome(malformed, false), TokenOutcome::Failure(Status::BadRequest));
    // an unknown identifier is unauthorized
    let unknown = check_api_token(Some("de362999-55a1-4d91-9adc-b2ca2c013c97"), None);
    assert_eq!(token_outcome(unknown, false), TokenOutcome::Failure(Status::Unauthorized));
    // no token at all is unauthorized
    assert_eq!(check_api_token(None, None), TokenCheck::Missing);
    assert_eq!(token_outcome(TokenCheck::Missing, true), TokenOutcome::Failure(Status::Unauthorized));
}

#[test]
fn known_token_succeeds() {
    let id = Uuid { value: 7 };
    assert_eq!(token_outcome(TokenCheck::Lookup(id), true), TokenOutcome::Success(id));
}

#[test]
fn response_constructors() {
    let r = responses::ok();
    assert_eq!(r.status.code(), 200);
    assert_eq!(r.message.as_deref(), Some("Ok"));
    let e = responses::not_found();
    assert_eq!(e.status.code(), 404);
    assert_eq!(e.message.as_deref(), Some("Not Found"));
    assert_eq!(responses::internal_server_error().status.code(), 500);
    assert_eq!(responses::unauthorized().message.as_deref(), Some("Unauthorized"));
    assert_eq!(responses::conflict().status.code(), 409);
    assert_eq!(responses::service_unavailable().status.code(), 503);
    let e = responses::unauthorized().message("Username or password incorrect.");
    assert_eq!(e.message.as_deref(), Some("Username or password incorrect."));
    assert_eq!(e.status, Status::Unauthorized);
}

#[test]
fn response_body_prefers_data() {
    let r = responses::created().message("User created.").data("{\"id\":1}".to_string());
    assert_eq!(r.body(), ResponseBody::Data("{\"id\":1}".to_string()));
    assert_eq!(responses::accepted().body(), ResponseBody::Message("Accepted".to_string()));
}

#[test]
fn query_errors_map_to_statuses() {
    assert_eq!(APIError::from_query_error(true).status, Status::NotFound);
    assert_eq!(APIError::from_query_error(false).status, Status::InternalServerError);
}

#[test]
fn answerable_requests() {
    assert!(request_answerable(None, 0));
    assert!(!request_answerable(Some(&vec![]), 10));
    assert!(request_answerable(Some(&vec![ByteRangeSpec::Last(10)]), 10));
    assert!(!request_answerable(Some(&vec![ByteRangeSpec::Last(11)]), 10));
    assert!(!request_answerable(Some(&vec![ByteRangeSpec::FromTo(5, 3)]), 10));
    assert!(!request_answerable(Some(&vec![ByteRangeSpec::AllFrom(0)]), 0));
}

fn header_pairs(plan: &RangePlan, content_type: Option<String>) -> Vec<(String, String)> {
    answer_headers(plan, content_type).into_iter().map(|h| (h.name, h.value)).collect()
}

#[test]
fn partial_answer_headers() {
    let ranges = vec![ByteRangeSpec::FromTo(2, 5)];
    let plan = plan_range_response(Some(&ranges), 10);
    assert_eq!(plan.status().code(), 206);
    assert_eq!(
        header_pairs(&plan, Some("audio/mpeg".to_string())),
        vec![
            ("Content-Type".to_string(), "audio/mpeg".to_string()),
            ("Accept-Ranges".to_string(), "bytes".to_string()),
            ("Content-Range".to_string(), "bytes 2-5/10".to_string()),
        ]
    );
}

#[test]
fn whole_answer_headers() {
    assert_eq!(
        header_pairs(&RangePlan::Whole, None),
        vec![("Accept-Ranges".to_string(), "bytes".to_string())]
    );
    let ranges = vec![ByteRangeSpec::Last(3)];
    let plan = plan_range_response(Some(&ranges), 1234567890123);
    assert_eq!(
        header_pairs(&plan, None)[1],
        ("Content-Range".to_string(), "bytes 1234567890120-1234567890122/1234567890123".to_string())
    );
}

#[test]
fn content_type_follows_extension() {
    assert_eq!(content_type_of("books/a.mp3").as_deref(), Some("audio/mpeg"));
    assert_eq!(content_type_of("books/A.MP3").as_deref(), Some("audio/mpeg"));
    assert_eq!(content_type_of("notes.txt").as_deref(), Some("text/plain; charset=utf-8"));
    assert_eq!(content_type_of("books/a.unknownext"), None);
    assert_eq!(content_type_of("books/noext"), None);
}
