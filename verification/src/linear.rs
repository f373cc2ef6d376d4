//! The inbound webhook payload model, its strict decoder, and the
//! enrichment query and response handling for the upstream GraphQL API.

use vstd::prelude::*;
use vstd::string::StringExecFns;
use crate::json::{JsonValue, json_lookup, obj_get, str_eq, lemma_lookup_push};
use crate::status_success_spec;
use crate::status_success;

verus! {

/// A comment event: four opaque identifiers and the comment text itself.
#[derive(Debug, Clone, PartialEq, Eq)]
pub struct LinearComment {
    pub id: String,
    pub body: String,
    pub user_id: String,
    pub issue_id: String,
}

/// The tagged union of event kinds carried by a payload; only comments are
/// implemented, and an unrecognized tag is rejected by the decoder (which
/// the relay then treats as a soft skip).
#[derive(Debug, PartialEq, Eq)]
pub enum LinearEvent {
    Comment(LinearComment),
}

/// The action a payload announces; only `Create` triggers any processing.
#[derive(Debug, Clone, Copy, PartialEq, Eq)]
pub enum LinearAction {
    Create,
    Update,
    Remove,
}

/// The decoded envelope of an inbound webhook request.
#[derive(Debug, PartialEq, Eq)]
pub struct LinearPayloadBody {
    pub action: LinearAction,
    pub created_at: String,
    pub url: Option<String>,
    pub event: LinearEvent,
}

/// The enrichment result: the commenting user's display name and the
/// parent issue's title and human-readable identifier.
#[derive(Debug, Clone, PartialEq, Eq)]
pub struct LinearCommentMeta {
    pub creater_name: String,
    pub issue_title: String,
    pub issue_id: String,
}

/// Why a payload failed to decode. The relay treats every variant as a
/// soft skip: the webhook schema evolves, and this crate understands only
/// a subset of events.
#[derive(Debug, Clone, Copy, PartialEq, Eq)]
pub enum DecodeError {
    /// The text was not valid JSON at all.
    NotJson,
    /// The envelope was valid JSON but not an object.
    NotAnObject,
    /// `action` was missing, not a string, or not a known action.
    BadAction,
    /// `createdAt` was missing or not a string.
    BadCreatedAt,
    /// `url` was present but neither a string nor null.
    BadUrl,
    /// `type` was missing, not a string, or not an implemented event kind.
    UnknownEventKind,
    /// `data` was missing or did not hold the fields of the tagged kind.
    BadEventData,
}

/// The action named by the wire form `s`, which is exact lowercase.
pub open spec fn action_of(s: Seq<char>) -> Option<LinearAction> {
    if s == "create"@ {
        Some(LinearAction::Create)
    } else if s == "update"@ {
        Some(LinearAction::Update)
    } else if s == "remove"@ {
        Some(LinearAction::Remove)
    } else {
        None
    }
}

/// The string held by the field of `fields` named `key`, if that field
/// exists and holds a string.
pub open spec fn str_field(fields: Seq<(String, JsonValue)>, key: Seq<char>) -> Option<String> {
    match json_lookup(fields, key) {
        Some(JsonValue::Str(s)) => Some(s),
        _ => None,
    }
}

/// The optional `url` field: absent and null both mean `None`, a string
/// means `Some`, and anything else fails the decode (outer `None`).
pub open spec fn url_field(fields: Seq<(String, JsonValue)>) -> Option<Option<String>> {
    match json_lookup(fields, "url"@) {
        None => Some(None),
        Some(JsonValue::Null) => Some(None),
        Some(JsonValue::Str(s)) => Some(Some(s)),
        Some(_) => None,
    }
}

/// The comment carried by the object fields of a `data` value.
pub open spec fn decode_comment_fields_spec(fields: Seq<(String, JsonValue)>) -> Option<
    LinearComment,
> {
    match (
        str_field(fields, "id"@),
        str_field(fields, "body"@),
        str_field(fields, "userId"@),
        str_field(fields, "issueId"@),
    ) {
        (Some(id), Some(body), Some(user_id), Some(issue_id)) => Some(
            LinearComment { id, body, user_id, issue_id },
        ),
        _ => None,
    }
}

/// The comment carried by a `data` value, which must be an object.
pub open spec fn decode_comment_spec(v: JsonValue) -> Option<LinearComment> {
    match v {
        JsonValue::Obj(fields) => decode_comment_fields_spec(fields@),
        _ => None,
    }
}

/// The event selected by the `type` discriminator and carried in `data`.
/// An unrecognized discriminator is rejected here, not at the envelope.
pub open spec fn event_of_fields(fields: Seq<(String, JsonValue)>) -> Result<
    LinearEvent,
    DecodeError,
> {
    match str_field(fields, "type"@) {
        None => Err(DecodeError::UnknownEventKind),
        Some(kind) => if kind@ == "Comment"@ {
            match json_lookup(fields, "data"@) {
                None => Err(DecodeError::BadEventData),
                Some(data) => match decode_comment_spec(data) {
                    None => Err(DecodeError::BadEventData),
                    Some(c) => Ok(LinearEvent::Comment(c)),
                },
            }
        } else {
            Err(DecodeError::UnknownEventKind)
        },
    }
}

/// The payload carried by the fields of the envelope object. Fields under
/// any other name are ignored.
pub open spec fn decode_fields_spec(fields: Seq<(String, JsonValue)>) -> Result<
    LinearPayloadBody,
    DecodeError,
> {
    match str_field(fields, "action"@) {
        None => Err(DecodeError::BadAction),
        Some(a) => match action_of(a@) {
            None => Err(DecodeError::BadAction),
            Some(action) => match str_field(fields, "createdAt"@) {
                None => Err(DecodeError::BadCreatedAt),
                Some(created_at) => match url_field(fields) {
                    None => Err(DecodeError::BadUrl),
                    Some(url) => match event_of_fields(fields) {
                        Err(e) => Err(e),
                        Ok(event) => Ok(
                            LinearPayloadBody { action, created_at, url, event },
                        ),
                    },
                },
            },
        },
    }
}

/// The payload carried by a parsed JSON document, which must be an object.
pub open spec fn decode_payload_spec(v: JsonValue) -> Result<LinearPayloadBody, DecodeError> {
    match v {
        JsonValue::Obj(fields) => decode_fields_spec(fields@),
        _ => Err(DecodeError::NotAnObject),
    }
}

/// The string field of `fields` named `key`, as `str_field` states it.
fn get_str_field<'a>(fields: &'a Vec<(String, JsonValue)>, key: &str) -> (r: Option<&'a String>)
    ensures
        match r {
            Some(s) => str_field(fields@, key@) == Some(*s),
            None => str_field(fields@, key@) is None,
        },
{
    match obj_get(fields, key) {
        Some(JsonValue::Str(s)) => Some(s),
        _ => None,
    }
}

/// Runtime form of `action_of`.
fn decode_action(s: &str) -> (r: Option<LinearAction>)
    ensures
        r == action_of(s@),
{
    if str_eq(s, "create") {
        Some(LinearAction::Create)
    } else if str_eq(s, "update") {
        Some(LinearAction::Update)
    } else if str_eq(s, "remove") {
        Some(LinearAction::Remove)
    } else {
        None
    }
}

/// Runtime form of `decode_comment_spec`.
pub fn decode_comment(v: &JsonValue) -> (r: Option<LinearComment>)
    ensures
        r == decode_comment_spec(*v),
{
    let fields = match v {
        JsonValue::Obj(fields) => fields,
        _ => {
            return None;
        },
    };
    let id = match get_str_field(fields, "id") {
        Some(s) => s,
        None => {
            return None;
        },
    };
    let body = match get_str_field(fields, "body") {
        Some(s) => s,
        None => {
            return None;
        },
    };
    let user_id = match get_str_field(fields, "userId") {
        Some(s) => s,
        None => {
            return None;
        },
    };
    let issue_id = match get_str_field(fields, "issueId") {
        Some(s) => s,
        None => {
            return None;
        },
    };
    Some(
        LinearComment {
            id: id.clone(),
            body: body.clone(),
            user_id: user_id.clone(),
            issue_id: issue_id.clone(),
        },
    )
}

/// Strict decode of a parsed JSON document into a payload, exactly as
/// `decode_payload_spec` states it.
pub fn decode_payload(v: &JsonValue) -> (r: Result<LinearPayloadBody, DecodeError>)
    ensures
        r == decode_payload_spec(*v),
{
    let fields = match v {
        JsonValue::Obj(fields) => fields,
        _ => {
            return Err(DecodeError::NotAnObject);
        },
    };
    let action = match get_str_field(fields, "action") {
        Some(s) => match decode_action(s.as_str()) {
            Some(a) => a,
            None => {
                return Err(DecodeError::BadAction);
            },
        },
        None => {
            return Err(DecodeError::BadAction);
        },
    };
    let created_at = match get_str_field(fields, "createdAt") {
        Some(s) => s.clone(),
        None => {
            return Err(DecodeError::BadCreatedAt);
        },
    };
    let url = match obj_get(fields, "url") {
        None => None,
        Some(JsonValue::Null) => None,
        Some(JsonValue::Str(s)) => Some(s.clone()),
        Some(_) => {
            return Err(DecodeError::BadUrl);
        },
    };
    let kind = match get_str_field(fields, "type") {
        Some(s) => s,
        None => {
            return Err(DecodeError::UnknownEventKind);
        },
    };
    if !str_eq(kind.as_str(), "Comment") {
        return Err(DecodeError::UnknownEventKind);
    }
    let data = match obj_get(fields, "data") {
        Some(d) => d,
        None => {
            return Err(DecodeError::BadEventData);
        },
    };
    let comment = match decode_comment(data) {
        Some(c) => c,
        None => {
            return Err(DecodeError::BadEventData);
        },
    };
    Ok(LinearPayloadBody { action, created_at, url, event: LinearEvent::Comment(comment) })
}

/// Why an enrichment call failed. Every variant fails the whole request;
/// the relay never retries.
#[derive(Debug, Clone, Copy, PartialEq, Eq)]
pub enum EnrichmentError {
    /// The upstream HTTP status fell outside the accepted range.
    BadStatus(u16),
    /// The response body was not JSON, or not of the expected shape.
    MalformedBody,
    /// The response carried no `data` field, only errors.
    MissingData,
}

/// The field of an object value, if `v` holds an object with that field.
pub open spec fn field_of(v: Option<JsonValue>, key: Seq<char>) -> Option<JsonValue> {
    match v {
        Some(JsonValue::Obj(fields)) => json_lookup(fields@, key),
        _ => None,
    }
}

/// The string held by `v`, if `v` holds a string.
pub open spec fn str_of(v: Option<JsonValue>) -> Option<String> {
    match v {
        Some(JsonValue::Str(s)) => Some(s),
        _ => None,
    }
}

/// The enrichment result carried by the `data` value of a response body:
/// `user.name`, `issue.title` and `issue.identifier` under `comment`.
pub open spec fn meta_of_data_spec(v: JsonValue) -> Option<LinearCommentMeta> {
    let user = field_of(Some(v), "user"@);
    let issue = field_of(field_of(Some(v), "comment"@), "issue"@);
    match (
        str_of(field_of(user, "name"@)),
        str_of(field_of(issue, "title"@)),
        str_of(field_of(issue, "identifier"@)),
    ) {
        (Some(name), Some(title), Some(identifier)) => Some(
            LinearCommentMeta { creater_name: name, issue_title: title, issue_id: identifier },
        ),
        _ => None,
    }
}

/// What an enrichment response yields: a status outside 200..=209 fails
/// with that status; a body that is not a JSON object fails as malformed;
/// an absent or null `data` field fails as carrying only errors; otherwise
/// the result is read out of `data`.
pub open spec fn comment_meta_spec(status: u16, body: Option<JsonValue>) -> Result<
    LinearCommentMeta,
    EnrichmentError,
> {
    if !status_success_spec(status) {
        Err(EnrichmentError::BadStatus(status))
    } else {
        match body {
            Some(JsonValue::Obj(fields)) => match json_lookup(fields@, "data"@) {
                None => Err(EnrichmentError::MissingData),
                Some(JsonValue::Null) => Err(EnrichmentError::MissingData),
                Some(data) => match meta_of_data_spec(data) {
                    None => Err(EnrichmentError::MalformedBody),
                    Some(m) => Ok(m),
                },
            },
            _ => Err(EnrichmentError::MalformedBody),
        }
    }
}

/// The field of `v` named `key`, as `field_of` states it.
fn json_field<'a>(v: &'a JsonValue, key: &str) -> (r: Option<&'a JsonValue>)
    ensures
        match r {
            Some(x) => field_of(Some(*v), key@) == Some(*x),
            None => field_of(Some(*v), key@) is None,
        },
{
    match v {
        JsonValue::Obj(fields) => obj_get(fields, key),
        _ => None,
    }
}

/// Runtime form of `meta_of_data_spec`.
fn meta_of_data(v: &JsonValue) -> (r: Option<LinearCommentMeta>)
    ensures
        r == meta_of_data_spec(*v),
{
    let user = match json_field(v, "user") {
        Some(u) => u,
        None => {
            return None;
        },
    };
    let name = match json_field(user, "name") {
        Some(JsonValue::Str(s)) => s,
        _ => {
            return None;
        },
    };
    let comment = match json_field(v, "comment") {
        Some(c) => c,
        None => {
            return None;
        },
    };
    let issue = match json_field(comment, "issue") {
        Some(i) => i,
        None => {
            return None;
        },
    };
    let title = match json_field(issue, "title") {
        Some(JsonValue::Str(s)) => s,
        _ => {
            return None;
        },
    };
    let identifier = match json_field(issue, "identifier") {
        Some(JsonValue::Str(s)) => s,
        _ => {
            return None;
        },
    };
    Some(
        LinearCommentMeta {
            creater_name: name.clone(),
            issue_title: title.clone(),
            issue_id: identifier.clone(),
        },
    )
}

/// Turns an enrichment response into the comment metadata, exactly as
/// `comment_meta_spec` states it. The body comes already parsed; `None`
/// stands for a body that was not valid JSON.
pub fn comment_meta_from_response(status: u16, body: Option<JsonValue>) -> (r: Result<
    LinearCommentMeta,
    EnrichmentError,
>)
    ensures
        r == comment_meta_spec(status, body),
{
    if !status_success(status) {
        return Err(EnrichmentError::BadStatus(status));
    }
    let fields = match &body {
        Some(JsonValue::Obj(fields)) => fields,
        _ => {
            return Err(EnrichmentError::MalformedBody);
        },
    };
    let data = match obj_get(fields, "data") {
        None => {
            return Err(EnrichmentError::MissingData);
        },
        Some(JsonValue::Null) => {
            return Err(EnrichmentError::MissingData);
        },
        Some(d) => d,
    };
    match meta_of_data(data) {
        Some(m) => Ok(m),
        None => Err(EnrichmentError::MalformedBody),
    }
}

/// The endpoint the enrichment query is sent to.
pub open spec fn linear_api_url_spec() -> Seq<char> {
    "https://api.linear.app/graphql"@
}

/// Runtime form of `linear_api_url_spec`.
pub fn linear_api_url() -> (r: &'static str)
    ensures
        r@ == linear_api_url_spec(),
{
    "https://api.linear.app/graphql"
}

/// The GraphQL document that fetches, in one round trip, the commenting
/// user's display name and the parent issue's title and identifier.
pub open spec fn comment_info_query_spec() -> Seq<char> {
    "query CommentInfo($commentId: String!, $userId: String!) { user(id: $userId) { name } comment(id: $commentId) { issue { title identifier } } }"@
}

/// Runtime form of `comment_info_query_spec`.
pub fn comment_info_query() -> (r: &'static str)
    ensures
        r@ == comment_info_query_spec(),
{
    "query CommentInfo($commentId: String!, $userId: String!) { user(id: $userId) { name } comment(id: $commentId) { issue { title identifier } } }"
}

/// Holds when `body` is the JSON body of the enrichment query for the
/// given comment and user: the query document, the two variables verbatim,
/// and the operation name.
pub open spec fn is_query_body(body: JsonValue, comment_id: Seq<char>, user_id: Seq<char>) -> bool {
    &&& (match str_of(field_of(Some(body), "query"@)) {
        Some(q) => q@ == comment_info_query_spec(),
        None => false,
    })
    &&& (match str_of(field_of(field_of(Some(body), "variables"@), "commentId"@)) {
        Some(c) => c@ == comment_id,
        None => false,
    })
    &&& (match str_of(field_of(field_of(Some(body), "variables"@), "userId"@)) {
        Some(u) => u@ == user_id,
        None => false,
    })
    &&& (match str_of(field_of(Some(body), "operationName"@)) {
        Some(o) => o@ == "CommentInfo"@,
        None => false,
    })
}

/// The enrichment query, named after the GraphQL operation it performs.
pub struct CommentInfo {}

impl CommentInfo {
    /// Builds the JSON body of the enrichment query for one comment.
    pub fn build_query(comment_id: &str, user_id: &str) -> (body: JsonValue)
        ensures
            is_query_body(body, comment_id@, user_id@),
    {
        proof {
            reveal_strlit("query");
            reveal_strlit("variables");
            reveal_strlit("operationName");
            reveal_strlit("commentId");
            reveal_strlit("userId");
        }
        let mut vars: Vec<(String, JsonValue)> = Vec::new();
        vars.push((String::from_str("commentId"), JsonValue::Str(comment_id.to_owned())));
        vars.push((String::from_str("userId"), JsonValue::Str(user_id.to_owned())));
        let ghost vs = vars@;
        proof {
            reveal_with_fuel(json_lookup, 3);
            assert(vs[0].0@ == "commentId"@);
            assert(vs[1].0@ == "userId"@);
            assert(vs[0].0@ != "userId"@);
            assert(vs.drop_first() =~= seq![vs[1]]);
            assert(json_lookup(vs, "commentId"@) == Some(vs[0].1));
            assert(json_lookup(vs, "userId"@) == Some(vs[1].1));
        }
        let mut fields: Vec<(String, JsonValue)> = Vec::new();
        fields.push((String::from_str("query"), JsonValue::Str(comment_info_query().to_owned())));
        fields.push((String::from_str("variables"), JsonValue::Obj(vars)));
        fields.push(
            (String::from_str("operationName"), JsonValue::Str(String::from_str("CommentInfo"))),
        );
        let ghost fs = fields@;
        proof {
            reveal_with_fuel(json_lookup, 4);
            assert(fs[0].0@ == "query"@);
            assert(fs[1].0@ == "variables"@);
            assert(fs[2].0@ == "operationName"@);
            assert(fs[0].0@ != "variables"@ && fs[0].0@ != "operationName"@);
            assert(fs[1].0@ != "operationName"@);
            assert(fs.drop_first() =~= seq![fs[1], fs[2]]);
            assert(seq![fs[1], fs[2]].drop_first() =~= seq![fs[2]]);
            assert(json_lookup(fs, "query"@) == Some(fs[0].1));
            assert(json_lookup(fs, "variables"@) == Some(fs[1].1));
            assert(json_lookup(fs, "operationName"@) == Some(fs[2].1));
        }
        JsonValue::Obj(fields)
    }
}

/// An envelope field under a name the decoder does not recognize never
/// changes what the payload decodes to.
pub proof fn lemma_unknown_field_ignored(
    fields: Seq<(String, JsonValue)>,
    kv: (String, JsonValue),
)
    requires
        kv.0@ != "action"@,
        kv.0@ != "createdAt"@,
        kv.0@ != "url"@,
        kv.0@ != "type"@,
        kv.0@ != "data"@,
    ensures
        decode_fields_spec(fields.push(kv)) == decode_fields_spec(fields),
{
    lemma_lookup_push(fields, kv, "action"@);
    lemma_lookup_push(fields, kv, "createdAt"@);
    lemma_lookup_push(fields, kv, "url"@);
    lemma_lookup_push(fields, kv, "type"@);
    lemma_lookup_push(fields, kv, "data"@);
}

/// A `data` field under a name the decoder does not recognize never
/// changes what the comment decodes to.
pub proof fn lemma_unknown_comment_field_ignored(
    fields: Seq<(String, JsonValue)>,
    kv: (String, JsonValue),
)
    requires
        kv.0@ != "id"@,
        kv.0@ != "body"@,
        kv.0@ != "userId"@,
        kv.0@ != "issueId"@,
    ensures
        decode_comment_fields_spec(fields.push(kv)) == decode_comment_fields_spec(fields),
{
    lemma_lookup_push(fields, kv, "id"@);
    lemma_lookup_push(fields, kv, "body"@);
    lemma_lookup_push(fields, kv, "userId"@);
    lemma_lookup_push(fields, kv, "issueId"@);
}

/// An envelope without a `url` field decodes, when it decodes at all, to a
/// payload whose `url` is `None`.
pub proof fn lemma_absent_url_decodes_to_none(fields: Seq<(String, JsonValue)>)
    requires
        json_lookup(fields, "url"@) is None,
    ensures
        decode_fields_spec(fields) matches Ok(p) ==> p.url is None,
{
}

/// A `type` discriminator other than `Comment`, or a missing one, never
/// decodes to a payload.
pub proof fn lemma_unknown_kind_rejected(fields: Seq<(String, JsonValue)>)
    requires
        match str_field(fields, "type"@) {
            Some(kind) => kind@ != "Comment"@,
            None => true,
        },
    ensures
        decode_fields_spec(fields) is Err,
{
}

} // verus!
