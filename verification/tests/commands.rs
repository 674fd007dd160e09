use merge_gate::slack_handler::{Command, Plan};
use merge_gate::{conclude, plan_command, reply_for, Config, Method, RequestError, Response};
use reqwest::header::{ACCEPT, AUTHORIZATION};
use serde_json::Value;

fn payload(text: &str) -> Value {
    serde_json::from_str(text).unwrap()
}

fn config() -> Config {
    Config::new("https://api.example.test/protection", "abc")
}

fn answer(status: u16, body: &str) -> Response {
    Response { status, body: body.to_string() }
}

#[test]
fn config_keeps_both_texts() {
    let config = Config::new("https://api.example.test/protection", "secret");
    assert_eq!(config.url, "https://api.example.test/protection");
    assert_eq!(config.token, "secret");
}

#[test]
fn block_with_user_sends_block_patch() {
    let planned = plan_command(&payload(r#"{"text":"block","user_id":"U123"}"#), &config());
    match planned.unwrap() {
        Plan::Send { command, request } => {
            assert!(matches!(command, Command::Block { ref user_id } if user_id == "U123"));
            assert_eq!(request.method, Method::Patch);
            assert_eq!(request.url, "https://api.example.test/protection");
            assert_eq!(
                request.body,
                payload(
                    r#"{"dismissal_restrictions":{"users":["U123"],"teams":[]},"dismiss_stale_reviews":false}"#
                )
            );
            assert_eq!(request.headers.get(AUTHORIZATION).unwrap(), "token abc");
            assert_eq!(request.headers.get(ACCEPT).unwrap(), "application/vnd.github.v3+json");
        }
        Plan::Reply(text) => panic!("nothing was sent, the reply was {}", text),
    }
}

#[test]
fn block_patch_lists_the_sender_alone() {
    let planned = plan_command(&payload(r#"{"text":"block","user_id":"W7"}"#), &config());
    match planned.unwrap() {
        Plan::Send { request, .. } => {
            let restrictions = request.body.get("dismissal_restrictions").unwrap();
            assert_eq!(restrictions.get("users").unwrap(), &payload(r#"["W7"]"#));
            assert_eq!(restrictions.get("teams").unwrap(), &payload("[]"));
            assert_eq!(restrictions.as_object().unwrap().len(), 2);
            assert_eq!(request.body.get("dismiss_stale_reviews").unwrap(), &Value::Bool(false));
            assert_eq!(request.body.as_object().unwrap().len(), 2);
        }
        Plan::Reply(text) => panic!("nothing was sent, the reply was {}", text),
    }
}

#[test]
fn block_patch_keeps_a_user_that_needs_escaping() {
    let planned = plan_command(&payload(r#"{"text":"block","user_id":"a\"b\\c"}"#), &config());
    match planned.unwrap() {
        Plan::Send { request, .. } => {
            assert_eq!(
                serde_json::to_string(&request.body["dismissal_restrictions"]["users"]).unwrap(),
                r#"["a\"b\\c"]"#
            );
        }
        Plan::Reply(text) => panic!("nothing was sent, the reply was {}", text),
    }
}

#[test]
fn unblock_sends_unblock_patch() {
    let planned = plan_command(&payload(r#"{"text":"unblock"}"#), &config());
    match planned.unwrap() {
        Plan::Send { command, request } => {
            assert!(matches!(command, Command::Unblock));
            assert_eq!(request.method, Method::Patch);
            assert_eq!(request.url, "https://api.example.test/protection");
            assert_eq!(
                request.body,
                payload(r#"{"dismissal_restrictions":{},"dismiss_stale_reviews":false}"#)
            );
        }
        Plan::Reply(text) => panic!("nothing was sent, the reply was {}", text),
    }
}

#[test]
fn unblock_ignores_the_user() {
    let planned = plan_command(&payload(r#"{"text":"unblock","user_id":"U123"}"#), &config());
    match planned.unwrap() {
        Plan::Send { command, request } => {
            assert!(matches!(command, Command::Unblock));
            assert_eq!(request.body["dismissal_restrictions"], payload("{}"));
        }
        Plan::Reply(text) => panic!("nothing was sent, the reply was {}", text),
    }
}

#[test]
fn empty_payload_is_invalid_and_sends_nothing() {
    let planned = plan_command(&payload("{}"), &config());
    assert!(matches!(planned, Ok(Plan::Reply(ref text)) if text == "Invalid command"));
}

#[test]
fn unknown_text_is_invalid() {
    for body in [
        r#"{"text":"Block","user_id":"U123"}"#,
        r#"{"text":"block ","user_id":"U123"}"#,
        r#"{"text":"","user_id":"U123"}"#,
        r#"{"text":"unblocked"}"#,
        r#"{"text":"help","user_id":"U123"}"#,
        r#"{"user_id":"U123"}"#,
    ] {
        let planned = plan_command(&payload(body), &config());
        assert!(
            matches!(planned, Ok(Plan::Reply(ref text)) if text == "Invalid command"),
            "{}",
            body
        );
    }
}

#[test]
fn block_without_user_is_invalid() {
    let planned = plan_command(&payload(r#"{"text":"block"}"#), &config());
    assert!(matches!(planned, Ok(Plan::Reply(ref text)) if text == "Invalid command"));
}

#[test]
fn fields_that_are_no_strings_count_as_absent() {
    for body in [
        r#"{"text":"block","user_id":7}"#,
        r#"{"text":"block","user_id":null}"#,
        r#"{"text":["unblock"]}"#,
        r#"{"text":true,"user_id":"U123"}"#,
    ] {
        let planned = plan_command(&payload(body), &config());
        assert!(
            matches!(planned, Ok(Plan::Reply(ref text)) if text == "Invalid command"),
            "{}",
            body
        );
    }
}

#[test]
fn payload_that_is_no_object_is_invalid() {
    for body in ["null", "[]", r#""block""#, "12", r#"["text","block"]"#] {
        let planned = plan_command(&payload(body), &config());
        assert!(
            matches!(planned, Ok(Plan::Reply(ref text)) if text == "Invalid command"),
            "{}",
            body
        );
    }
}

#[test]
fn invalid_command_never_looks_at_the_token() {
    let config = Config::new("https://api.example.test/protection", "bad\ntoken");
    let planned = plan_command(&payload("{}"), &config);
    assert!(matches!(planned, Ok(Plan::Reply(ref text)) if text == "Invalid command"));
}

#[test]
fn valid_command_with_unusable_token_fails() {
    let config = Config::new("https://api.example.test/protection", "bad\ntoken");
    let blocked = plan_command(&payload(r#"{"text":"block","user_id":"U123"}"#), &config);
    assert!(matches!(blocked, Err(RequestError::HeaderParseError(_))));
    let unblocked = plan_command(&payload(r#"{"text":"unblock"}"#), &config);
    assert!(matches!(unblocked, Err(RequestError::HeaderParseError(_))));
}

#[test]
fn same_block_twice_gives_the_same_request() {
    let body = payload(r#"{"text":"block","user_id":"U123"}"#);
    let first = plan_command(&body, &config()).unwrap();
    let second = plan_command(&body, &config()).unwrap();
    match (first, second) {
        (Plan::Send { request: one, .. }, Plan::Send { request: two, .. }) => {
            assert_eq!(one.method, two.method);
            assert_eq!(one.url, two.url);
            assert_eq!(one.headers, two.headers);
            assert_eq!(one.body, two.body);
        }
        _ => panic!("both plans send a request"),
    }
}

#[test]
fn parse_reads_the_two_fields() {
    assert!(matches!(
        Command::parse(Some("block"), Some("U1")),
        Command::Block { ref user_id } if user_id == "U1"
    ));
    assert!(matches!(Command::parse(Some("block"), None), Command::Invalid));
    assert!(matches!(Command::parse(Some("unblock"), None), Command::Unblock));
    assert!(matches!(Command::parse(Some("unblock"), Some("U1")), Command::Unblock));
    assert!(matches!(Command::parse(None, Some("U1")), Command::Invalid));
    assert!(matches!(Command::parse(None, None), Command::Invalid));
    assert!(matches!(Command::parse(Some("bloc"), Some("U1")), Command::Invalid));
    assert!(matches!(Command::parse(Some("blocks"), Some("U1")), Command::Invalid));
    assert!(matches!(Command::parse(Some("unbloc\u{6b}"), None), Command::Unblock));
    assert!(matches!(Command::parse(Some("bl\u{f6}ck"), Some("U1")), Command::Invalid));
}

#[test]
fn from_body_reads_the_payload() {
    assert!(matches!(
        Command::from_body(&payload(r#"{"text":"block","user_id":"U9","more":1}"#)),
        Command::Block { ref user_id } if user_id == "U9"
    ));
    assert!(matches!(Command::from_body(&payload(r#"{"text":"unblock"}"#)), Command::Unblock));
    assert!(matches!(Command::from_body(&payload("{}")), Command::Invalid));
}

#[test]
fn command_names_its_patch() {
    let block = Command::Block { user_id: "U1".to_string() };
    assert_eq!(
        block.patch().unwrap().to_json(),
        payload(r#"{"dismissal_restrictions":{"users":["U1"],"teams":[]},"dismiss_stale_reviews":false}"#)
    );
    assert_eq!(
        Command::Unblock.patch().unwrap().to_json(),
        payload(r#"{"dismissal_restrictions":{},"dismiss_stale_reviews":false}"#)
    );
    assert!(Command::Invalid.patch().is_none());
}

#[test]
fn reply_after_successful_block() {
    let command = Command::Block { user_id: "U123".to_string() };
    assert_eq!(
        reply_for(&command, &answer(200, "{}")),
        "Blocked all merge requests except for user U123"
    );
}

#[test]
fn reply_after_failed_block_embeds_the_body() {
    let command = Command::Block { user_id: "U123".to_string() };
    assert_eq!(
        reply_for(&command, &answer(404, r#"{"message":"Not Found"}"#)),
        r#"Error blocking merge requests: {"message":"Not Found"}"#
    );
    assert_eq!(reply_for(&command, &answer(500, "")), "Error blocking merge requests: ");
}

#[test]
fn reply_after_unblock() {
    assert_eq!(reply_for(&Command::Unblock, &answer(200, "ignored")), "Unblocked all merge requests");
    assert_eq!(
        reply_for(&Command::Unblock, &answer(403, "forbidden")),
        "Error unblocking merge requests: forbidden"
    );
}

#[test]
fn reply_for_invalid_command_is_fixed() {
    assert_eq!(reply_for(&Command::Invalid, &answer(200, "x")), "Invalid command");
    assert_eq!(reply_for(&Command::Invalid, &answer(500, "x")), "Invalid command");
}

#[test]
fn success_is_a_status_from_200_to_299() {
    assert!(!answer(0, "").is_success());
    assert!(!answer(199, "").is_success());
    assert!(answer(200, "").is_success());
    assert!(answer(204, "").is_success());
    assert!(answer(299, "").is_success());
    assert!(!answer(300, "").is_success());
    assert!(!answer(404, "").is_success());
    assert!(!answer(u16::MAX, "").is_success());
}

#[test]
fn reply_follows_the_status_at_its_edges() {
    assert_eq!(reply_for(&Command::Unblock, &answer(199, "b")), "Error unblocking merge requests: b");
    assert_eq!(reply_for(&Command::Unblock, &answer(299, "b")), "Unblocked all merge requests");
    assert_eq!(reply_for(&Command::Unblock, &answer(300, "b")), "Error unblocking merge requests: b");
}

#[test]
fn conclude_replies_to_an_answer() {
    let command = Command::Block { user_id: "U5".to_string() };
    assert_eq!(
        conclude(&command, &Ok(answer(201, ""))),
        "Blocked all merge requests except for user U5"
    );
    assert_eq!(
        conclude(&command, &Ok(answer(422, "no"))),
        "Error blocking merge requests: no"
    );
}

#[test]
fn conclude_puts_a_failure_into_words() {
    let failure = merge_gate::headers("bad\ntoken").unwrap_err();
    assert_eq!(
        conclude(&Command::Unblock, &Err(failure)),
        "Header Parse Error: failed to parse header value"
    );
}
