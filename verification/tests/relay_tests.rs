use linear_relay::json::{parse_json, JsonValue};
use linear_relay::linear::{
    CommentInfo, DecodeError, EnrichmentError, LinearAction, LinearComment, LinearCommentMeta,
    LinearEvent, LinearPayloadBody, comment_info_query, comment_meta_from_response,
    decode_payload,
};
use linear_relay::relay::{
    ConfigKey, EnrichOutcome, RelayError, RelayResponse, StartOutcome, format_notification,
    relay_on_delivery, relay_on_enrichment, relay_start,
};
use linear_relay::status_success;

fn field<'a>(v: &'a JsonValue, key: &str) -> Option<&'a JsonValue> {
    match v {
        JsonValue::Obj(fields) => fields.iter().find(|(k, _)| k == key).map(|(_, x)| x),
        _ => None,
    }
}

fn str_field<'a>(v: &'a JsonValue, key: &str) -> Option<&'a str> {
    match field(v, key) {
        Some(JsonValue::Str(s)) => Some(s.as_str()),
        _ => None,
    }
}

#[test]
fn payload_deser() {
    let data = r#"
{
  "action": "create",
  "data": {
    "id": "2174add1-f7c8-44e3-bbf3-2d60b5ea8bc9",
    "createdAt": "2020-01-23T12:53:18.084Z",
    "updatedAt": "2020-01-23T12:53:18.084Z",
    "archivedAt": null,
    "body": "Indeed, I think this is definitely an improvement over the previous version.",
    "edited": false,
    "issueId": "539068e2-ae88-4d09-bd75-22eb4a59612f",
    "userId": "aacdca22-6266-4c0a-ab3c-8fa70a26765c"
  },
  "type": "Comment",
  "url": "https://linear.app/issue/LIN-1778/foo-bar#comment-77217de3-fb52-4dad-bb9a-b356beb93de8",
  "createdAt": "2020-01-23T12:53:18.084Z",
  "webhookTimestamp": 1676056940508
}
"#;
    let data = decode_payload(&parse_json(data).unwrap()).unwrap();
    let expected = LinearPayloadBody {
        action: LinearAction::Create,
        url:
            Some("https://linear.app/issue/LIN-1778/foo-bar#comment-77217de3-fb52-4dad-bb9a-b356beb93de8"
                .to_string()),
        created_at: "2020-01-23T12:53:18.084Z".to_string(),
        event: LinearEvent::Comment(LinearComment {
            id: "2174add1-f7c8-44e3-bbf3-2d60b5ea8bc9".to_string(),
            body: "Indeed, I think this is definitely an improvement over the previous version."
                .to_string(),
            user_id: "aacdca22-6266-4c0a-ab3c-8fa70a26765c".to_string(),
            issue_id: "539068e2-ae88-4d09-bd75-22eb4a59612f".to_string(),
        }),
    };
    assert_eq!(data, expected);
}

#[test]
fn payload_deser2() {
    let data = r#"
{
  "action": "create",
  "data": {
    "id": "2174add1-f7c8-44e3-bbf3-2d60b5ea8bc9",
    "createdAt": "2020-01-23T12:53:18.084Z",
    "updatedAt": "2020-01-23T12:53:18.084Z",
    "archivedAt": null,
    "body": "Indeed, I think this is definitely an improvement over the previous version.",
    "edited": false,
    "issueId": "539068e2-ae88-4d09-bd75-22eb4a59612f",
    "userId": "aacdca22-6266-4c0a-ab3c-8fa70a26765c"
  },
  "type": "Comment",
  "createdAt": "2020-01-23T12:53:18.084Z",
  "webhookTimestamp": 1676056940508
}
"#;
    let data = decode_payload(&parse_json(data).unwrap()).unwrap();
    let expected = LinearPayloadBody {
        action: LinearAction::Create,
        url: None,
        created_at: "2020-01-23T12:53:18.084Z".to_string(),
        event: LinearEvent::Comment(LinearComment {
            id: "2174add1-f7c8-44e3-bbf3-2d60b5ea8bc9".to_string(),
            body: "Indeed, I think this is definitely an improvement over the previous version."
                .to_string(),
            user_id: "aacdca22-6266-4c0a-ab3c-8fa70a26765c".to_string(),
            issue_id: "539068e2-ae88-4d09-bd75-22eb4a59612f".to_string(),
        }),
    };
    assert_eq!(data, expected);
}

#[test]
fn decode_idempotent() {
    let text = r#"{"action":"create","type":"Comment","data":{"id":"c1","userId":"u1","issueId":"i1","body":"hi"},"createdAt":"t"}"#;
    let first = decode_payload(&parse_json(text).unwrap());
    let second = decode_payload(&parse_json(text).unwrap());
    let expected = LinearPayloadBody {
        action: LinearAction::Create,
        url: None,
        created_at: "t".to_string(),
        event: LinearEvent::Comment(LinearComment {
            id: "c1".to_string(),
            body: "hi".to_string(),
            user_id: "u1".to_string(),
            issue_id: "i1".to_string(),
        }),
    };
    assert_eq!(first, Ok(expected));
    assert_eq!(first, second);
}

#[test]
fn parse_json_structure() {
    let v = parse_json(r#"{"a":[1.5,true,null,"x"]}"#).unwrap();
    let expected = JsonValue::Obj(vec![(
        "a".to_string(),
        JsonValue::Arr(vec![
            JsonValue::Num("1.5".to_string()),
            JsonValue::Bool(true),
            JsonValue::Null,
            JsonValue::Str("x".to_string()),
        ]),
    )]);
    assert_eq!(v, expected);
    assert_eq!(parse_json("{not json"), None);
}

#[test]
fn formatter_exact() {
    let comment = LinearComment {
        id: "c1".to_string(),
        body: "Looks good".to_string(),
        user_id: "u1".to_string(),
        issue_id: "i1".to_string(),
    };
    let meta = LinearCommentMeta {
        creater_name: "Ada".to_string(),
        issue_title: "Fix bug".to_string(),
        issue_id: "LIN-1778".to_string(),
    };
    let n = format_notification(&comment, &meta);
    assert_eq!(n.content, "[LIN-1778: Fix bug]\nLooks good\n");
    assert_eq!(n.username, "Ada");
}

fn create_payload_text() -> &'static str {
    r#"{"action":"create","type":"Comment","data":{"id":"c1","userId":"u1","issueId":"i1","body":"hi"},"createdAt":"t"}"#
}

#[test]
fn non_create_acknowledged() {
    for action in ["update", "remove"] {
        let text = create_payload_text().replace("create", action);
        let outcome = relay_start(
            parse_json(&text),
            Some("https://example.com/hook".to_string()),
            Some("key".to_string()),
        );
        assert_eq!(outcome, StartOutcome::Respond(RelayResponse::Accepted));
    }
}

#[test]
fn soft_skip_unknown_kind() {
    let text = create_payload_text().replace("Comment", "Issue");
    assert_eq!(
        decode_payload(&parse_json(&text).unwrap()),
        Err(DecodeError::UnknownEventKind)
    );
    let outcome = relay_start(
        parse_json(&text),
        Some("https://example.com/hook".to_string()),
        Some("key".to_string()),
    );
    assert_eq!(outcome, StartOutcome::Respond(RelayResponse::Accepted));
}

#[test]
fn soft_skip_invalid_json() {
    let outcome = relay_start(
        parse_json("{definitely not json"),
        Some("https://example.com/hook".to_string()),
        Some("key".to_string()),
    );
    assert_eq!(outcome, StartOutcome::Respond(RelayResponse::Accepted));
}

#[test]
fn decode_error_variants() {
    let decode = |text: &str| decode_payload(&parse_json(text).unwrap());
    assert_eq!(decode("[1,2]"), Err(DecodeError::NotAnObject));
    assert_eq!(
        decode(&create_payload_text().replace("create", "destroy")),
        Err(DecodeError::BadAction)
    );
    assert_eq!(
        decode(&create_payload_text().replace("action", "activity")),
        Err(DecodeError::BadAction)
    );
    assert_eq!(
        decode(&create_payload_text().replace("createdAt\":\"t\"", "createdAt\":7")),
        Err(DecodeError::BadCreatedAt)
    );
    assert_eq!(
        decode(&create_payload_text().replace("\"createdAt\":\"t\"", "\"createdAt\":\"t\",\"url\":5")),
        Err(DecodeError::BadUrl)
    );
    assert_eq!(
        decode(&create_payload_text().replace("type", "kind")),
        Err(DecodeError::UnknownEventKind)
    );
    assert_eq!(
        decode(&create_payload_text().replace("userId", "memberId")),
        Err(DecodeError::BadEventData)
    );
    assert_eq!(
        decode(&create_payload_text().replace("\"data\":", "\"blob\":")),
        Err(DecodeError::BadEventData)
    );
}

#[test]
fn missing_config_fails() {
    let outcome = relay_start(parse_json(create_payload_text()), None, Some("key".to_string()));
    assert_eq!(
        outcome,
        StartOutcome::Respond(RelayResponse::Failed(RelayError::MissingConfig(
            ConfigKey::DiscordWebhookUrl
        )))
    );
    let outcome = relay_start(
        parse_json(create_payload_text()),
        Some("https://example.com/hook".to_string()),
        None,
    );
    assert_eq!(
        outcome,
        StartOutcome::Respond(RelayResponse::Failed(RelayError::MissingConfig(
            ConfigKey::LinearApiKey
        )))
    );
}

fn enrichment_response_text() -> &'static str {
    r#"{"data":{"user":{"name":"Ada"},"comment":{"issue":{"title":"Fix bug","identifier":"LIN-1778"}}}}"#
}

#[test]
fn create_flow_end_to_end() {
    let (pending, request) = match relay_start(
        parse_json(create_payload_text()),
        Some("https://example.com/hook".to_string()),
        Some("lin_api_key".to_string()),
    ) {
        StartOutcome::Enrich(pending, request) => (pending, request),
        other => panic!("expected an enrichment request, got {:?}", other),
    };
    assert_eq!(request.comment_id, "c1");
    assert_eq!(request.user_id, "u1");
    assert_eq!(request.api_key, "lin_api_key");

    let delivery = match relay_on_enrichment(pending, 200, parse_json(enrichment_response_text()))
    {
        EnrichOutcome::Deliver(req) => req,
        other => panic!("expected a delivery request, got {:?}", other),
    };
    assert_eq!(delivery.url, "https://example.com/hook");
    assert_eq!(delivery.notification.content, "[LIN-1778: Fix bug]\nhi\n");
    assert_eq!(delivery.notification.username, "Ada");

    assert_eq!(relay_on_delivery(204), RelayResponse::Accepted);
}

fn pending_for_test() -> linear_relay::relay::RelayPending {
    match relay_start(
        parse_json(create_payload_text()),
        Some("https://example.com/hook".to_string()),
        Some("key".to_string()),
    ) {
        StartOutcome::Enrich(pending, _) => pending,
        other => panic!("expected an enrichment request, got {:?}", other),
    }
}

#[test]
fn enrichment_bad_status_fails() {
    let outcome = relay_on_enrichment(pending_for_test(), 500, parse_json(enrichment_response_text()));
    assert_eq!(
        outcome,
        EnrichOutcome::Respond(RelayResponse::Failed(RelayError::Enrichment(
            EnrichmentError::BadStatus(500)
        )))
    );
}

#[test]
fn status_range_boundary() {
    assert!(status_success(200));
    assert!(status_success(209));
    assert!(!status_success(210));
    assert!(!status_success(299));
    assert!(!status_success(199));
    let outcome = relay_on_enrichment(pending_for_test(), 210, parse_json(enrichment_response_text()));
    assert_eq!(
        outcome,
        EnrichOutcome::Respond(RelayResponse::Failed(RelayError::Enrichment(
            EnrichmentError::BadStatus(210)
        )))
    );
}

#[test]
fn enrichment_missing_data_fails() {
    let body = r#"{"errors":[{"message":"not found"}]}"#;
    let outcome = relay_on_enrichment(pending_for_test(), 200, parse_json(body));
    assert_eq!(
        outcome,
        EnrichOutcome::Respond(RelayResponse::Failed(RelayError::Enrichment(
            EnrichmentError::MissingData
        )))
    );
}

#[test]
fn enrichment_malformed_body_fails() {
    assert_eq!(
        comment_meta_from_response(200, parse_json("[]")),
        Err(EnrichmentError::MalformedBody)
    );
    assert_eq!(
        comment_meta_from_response(200, parse_json("{nope")),
        Err(EnrichmentError::MalformedBody)
    );
    assert_eq!(
        comment_meta_from_response(200, parse_json(r#"{"data":{"user":{"name":7}}}"#)),
        Err(EnrichmentError::MalformedBody)
    );
}

#[test]
fn enrichment_success_reads_meta() {
    assert_eq!(
        comment_meta_from_response(200, parse_json(enrichment_response_text())),
        Ok(LinearCommentMeta {
            creater_name: "Ada".to_string(),
            issue_title: "Fix bug".to_string(),
            issue_id: "LIN-1778".to_string(),
        })
    );
}

#[test]
fn delivery_bad_status_fails() {
    assert_eq!(
        relay_on_delivery(404),
        RelayResponse::Failed(RelayError::Delivery(404))
    );
}

#[test]
fn query_body_structure() {
    let body = CommentInfo::build_query("c1", "u1");
    assert_eq!(str_field(&body, "query"), Some(comment_info_query()));
    assert_eq!(str_field(&body, "operationName"), Some("CommentInfo"));
    let vars = field(&body, "variables").expect("variables object");
    assert_eq!(str_field(vars, "commentId"), Some("c1"));
    assert_eq!(str_field(vars, "userId"), Some("u1"));
}
