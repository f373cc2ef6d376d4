//! The relay orchestrator: one inbound webhook request is a short, strictly
//! sequential protocol — decode, filter, enrich, format, deliver — with a
//! classified failure at each network-facing point. The caller performs the
//! outbound requests and feeds each response back in; every decision is
//! taken here and verified.

use vstd::prelude::*;
use vstd::string::StringExecFns;
use crate::json::JsonValue;
use crate::linear::{
    LinearAction, LinearComment, LinearCommentMeta, LinearEvent, LinearPayloadBody,
    EnrichmentError, comment_meta_from_response, comment_meta_spec, decode_payload,
    decode_payload_spec,
};
use crate::status_success;
use crate::status_success_spec;

verus! {

/// The configuration value whose absence failed the request.
#[derive(Debug, Clone, Copy, PartialEq, Eq)]
pub enum ConfigKey {
    DiscordWebhookUrl,
    LinearApiKey,
}

/// Why a request failed. A soft skip is not here: it is acknowledged as
/// success and carries no error.
#[derive(Debug, Clone, Copy, PartialEq, Eq)]
pub enum RelayError {
    /// A required configuration value was missing.
    MissingConfig(ConfigKey),
    /// The enrichment call failed.
    Enrichment(EnrichmentError),
    /// The delivery call answered with this unacceptable status.
    Delivery(u16),
}

/// The HTTP-level outcome reported to the original webhook caller.
#[derive(Debug, Clone, Copy, PartialEq, Eq)]
pub enum RelayResponse {
    /// Respond with success: either the full pipeline ran, or the payload
    /// was outside the supported scope and was deliberately skipped.
    Accepted,
    /// Respond with a failure status.
    Failed(RelayError),
}

/// The enrichment call the caller must now make: a POST of the
/// `CommentInfo` query body to the enrichment endpoint, with this raw API
/// key as the `Authorization` header.
#[derive(Debug, Clone, PartialEq, Eq)]
pub struct EnrichmentRequest {
    pub comment_id: String,
    pub user_id: String,
    pub api_key: String,
}

/// The outbound message for the chat platform.
#[derive(Debug, Clone, PartialEq, Eq)]
pub struct OutboundNotification {
    pub content: String,
    pub username: String,
}

/// The delivery call the caller must now make: a POST of the notification,
/// as JSON, to the configured chat webhook URL.
#[derive(Debug, Clone, PartialEq, Eq)]
pub struct DeliveryRequest {
    pub url: String,
    pub notification: OutboundNotification,
}

/// What the relay keeps between the enrichment call and the next step.
#[derive(Debug, Clone, PartialEq, Eq)]
pub struct RelayPending {
    pub comment: LinearComment,
    pub webhook_url: String,
}

/// What the first step decides: either the request is already answered,
/// or exactly one enrichment call is owed.
#[derive(Debug, PartialEq, Eq)]
pub enum StartOutcome {
    Respond(RelayResponse),
    Enrich(RelayPending, EnrichmentRequest),
}

/// What the second step decides: either the request is answered, or
/// exactly one delivery call is owed.
#[derive(Debug, PartialEq, Eq)]
pub enum EnrichOutcome {
    Respond(RelayResponse),
    Deliver(DeliveryRequest),
}

/// The outbound message content:
/// `"[{issue_identifier}: {issue_title}]\n{comment_body}\n"`, relayed
/// verbatim, with no escaping.
pub open spec fn notification_content_spec(
    comment: LinearComment,
    meta: LinearCommentMeta,
) -> Seq<char> {
    "["@ + meta.issue_id@ + ": "@ + meta.issue_title@ + "]\n"@ + comment.body@ + "\n"@
}

/// Holds when `n` is the notification for this comment and enrichment
/// result: the formatted content, under the author's display name.
pub open spec fn is_notification_for(
    n: OutboundNotification,
    comment: LinearComment,
    meta: LinearCommentMeta,
) -> bool {
    &&& n.content@ == notification_content_spec(comment, meta)
    &&& n.username@ == meta.creater_name@
}

/// Builds the outbound notification. Pure formatting, no side effects.
pub fn format_notification(comment: &LinearComment, meta: &LinearCommentMeta) -> (n:
    OutboundNotification)
    ensures
        is_notification_for(n, *comment, *meta),
{
    let mut content = String::from_str("[");
    content.append(meta.issue_id.as_str());
    content.append(": ");
    content.append(meta.issue_title.as_str());
    content.append("]\n");
    content.append(comment.body.as_str());
    content.append("\n");
    OutboundNotification { content, username: meta.creater_name.clone() }
}

/// The first step of a request. A payload that did not parse (`None`) or
/// does not decode is acknowledged with success and goes no further; so is
/// any action other than `create`. A create-comment payload demands the
/// two configuration values and then owes exactly one enrichment call,
/// with the comment and user ids taken verbatim from the payload.
pub open spec fn relay_start_spec(
    parsed: Option<JsonValue>,
    webhook_url: Option<String>,
    api_key: Option<String>,
) -> StartOutcome {
    match parsed {
        None => StartOutcome::Respond(RelayResponse::Accepted),
        Some(v) => match decode_payload_spec(v) {
            Err(_) => StartOutcome::Respond(RelayResponse::Accepted),
            Ok(payload) => if !(payload.action is Create) {
                StartOutcome::Respond(RelayResponse::Accepted)
            } else {
                match payload.event {
                    LinearEvent::Comment(comment) => match webhook_url {
                        None => StartOutcome::Respond(
                            RelayResponse::Failed(
                                RelayError::MissingConfig(ConfigKey::DiscordWebhookUrl),
                            ),
                        ),
                        Some(url) => match api_key {
                            None => StartOutcome::Respond(
                                RelayResponse::Failed(
                                    RelayError::MissingConfig(ConfigKey::LinearApiKey),
                                ),
                            ),
                            Some(key) => StartOutcome::Enrich(
                                RelayPending { comment, webhook_url: url },
                                EnrichmentRequest {
                                    comment_id: comment.id,
                                    user_id: comment.user_id,
                                    api_key: key,
                                },
                            ),
                        },
                    },
                }
            },
        },
    }
}

/// Runtime form of `relay_start_spec`. `parsed` is the inbound body after
/// generic JSON parsing; the configuration values come resolved, `None`
/// standing for an absent one.
pub fn relay_start(
    parsed: Option<JsonValue>,
    webhook_url: Option<String>,
    api_key: Option<String>,
) -> (r: StartOutcome)
    ensures
        r == relay_start_spec(parsed, webhook_url, api_key),
{
    let v = match parsed {
        Some(v) => v,
        None => {
            return StartOutcome::Respond(RelayResponse::Accepted);
        },
    };
    let payload = match decode_payload(&v) {
        Ok(p) => p,
        Err(_) => {
            return StartOutcome::Respond(RelayResponse::Accepted);
        },
    };
    match payload.action {
        LinearAction::Create => {},
        _ => {
            return StartOutcome::Respond(RelayResponse::Accepted);
        },
    }
    let comment = match payload.event {
        LinearEvent::Comment(c) => c,
    };
    let url = match webhook_url {
        Some(u) => u,
        None => {
            return StartOutcome::Respond(
                RelayResponse::Failed(RelayError::MissingConfig(ConfigKey::DiscordWebhookUrl)),
            );
        },
    };
    let key = match api_key {
        Some(k) => k,
        None => {
            return StartOutcome::Respond(
                RelayResponse::Failed(RelayError::MissingConfig(ConfigKey::LinearApiKey)),
            );
        },
    };
    let comment_id = comment.id.clone();
    let user_id = comment.user_id.clone();
    StartOutcome::Enrich(
        RelayPending { comment, webhook_url: url },
        EnrichmentRequest { comment_id, user_id, api_key: key },
    )
}

/// What the second step returns: a failed enrichment call answers the
/// request with that failure and owes nothing further; a successful one
/// owes exactly one delivery call, of the formatted notification, to the
/// configured webhook URL.
pub open spec fn relay_on_enrichment_post(
    pending: RelayPending,
    status: u16,
    body: Option<JsonValue>,
    r: EnrichOutcome,
) -> bool {
    match comment_meta_spec(status, body) {
        Err(e) => r == EnrichOutcome::Respond(
            RelayResponse::Failed(RelayError::Enrichment(e)),
        ),
        Ok(meta) => (r matches EnrichOutcome::Deliver(req) && {
            &&& req.url == pending.webhook_url
            &&& is_notification_for(req.notification, pending.comment, meta)
        }),
    }
}

/// The second step of a request: reads the enrichment response. `body` is
/// the response body after generic JSON parsing, `None` when it was not
/// valid JSON.
pub fn relay_on_enrichment(pending: RelayPending, status: u16, body: Option<JsonValue>) -> (r:
    EnrichOutcome)
    ensures
        relay_on_enrichment_post(pending, status, body, r),
{
    match comment_meta_from_response(status, body) {
        Err(e) => EnrichOutcome::Respond(RelayResponse::Failed(RelayError::Enrichment(e))),
        Ok(meta) => {
            let notification = format_notification(&pending.comment, &meta);
            EnrichOutcome::Deliver(
                DeliveryRequest { url: pending.webhook_url, notification },
            )
        },
    }
}

/// The last step of a request: the delivery status alone decides the
/// response, even though enrichment already succeeded.
pub open spec fn relay_on_delivery_spec(status: u16) -> RelayResponse {
    if status_success_spec(status) {
        RelayResponse::Accepted
    } else {
        RelayResponse::Failed(RelayError::Delivery(status))
    }
}

/// Runtime form of `relay_on_delivery_spec`.
pub fn relay_on_delivery(status: u16) -> (r: RelayResponse)
    ensures
        r == relay_on_delivery_spec(status),
{
    if status_success(status) {
        RelayResponse::Accepted
    } else {
        RelayResponse::Failed(RelayError::Delivery(status))
    }
}

/// A payload whose action is not `create` is acknowledged with success and
/// owes no outbound call: the first step responds at once, so neither an
/// enrichment nor a delivery request is ever produced for it.
pub proof fn lemma_non_create_acknowledged(
    v: JsonValue,
    payload: LinearPayloadBody,
    webhook_url: Option<String>,
    api_key: Option<String>,
)
    requires
        decode_payload_spec(v) == Ok::<LinearPayloadBody, crate::linear::DecodeError>(payload),
        !(payload.action is Create),
    ensures
        relay_start_spec(Some(v), webhook_url, api_key) == StartOutcome::Respond(
            RelayResponse::Accepted,
        ),
{
}

/// A body that is not valid JSON, or a payload that does not decode — an
/// unknown action, a discriminator other than `Comment`, a malformed
/// field — is acknowledged with success and owes no outbound call.
pub proof fn lemma_soft_skip(
    parsed: Option<JsonValue>,
    webhook_url: Option<String>,
    api_key: Option<String>,
)
    requires
        match parsed {
            None => true,
            Some(v) => decode_payload_spec(v) is Err,
        },
    ensures
        relay_start_spec(parsed, webhook_url, api_key) == StartOutcome::Respond(
            RelayResponse::Accepted,
        ),
{
}

/// A decodable create-comment payload with both configuration values
/// present owes exactly one enrichment call, and that call carries the
/// comment id, the user id and the configured API key verbatim; the
/// comment and the webhook URL are kept for the next step unchanged.
pub proof fn lemma_create_enriches(
    v: JsonValue,
    payload: LinearPayloadBody,
    comment: LinearComment,
    webhook_url: String,
    api_key: String,
)
    requires
        decode_payload_spec(v) == Ok::<LinearPayloadBody, crate::linear::DecodeError>(payload),
        payload.action is Create,
        payload.event == LinearEvent::Comment(comment),
    ensures
        relay_start_spec(Some(v), Some(webhook_url), Some(api_key)) == StartOutcome::Enrich(
            RelayPending { comment, webhook_url },
            EnrichmentRequest {
                comment_id: comment.id,
                user_id: comment.user_id,
                api_key,
            },
        ),
{
}

/// A successful enrichment response leads to exactly one delivery request:
/// it goes to the configured webhook URL and carries the notification
/// formatted from the enrichment result and the original comment.
pub proof fn lemma_enrichment_success_delivers(
    pending: RelayPending,
    status: u16,
    body: Option<JsonValue>,
    meta: LinearCommentMeta,
    r: EnrichOutcome,
)
    requires
        relay_on_enrichment_post(pending, status, body, r),
        comment_meta_spec(status, body) == Ok::<LinearCommentMeta, EnrichmentError>(meta),
    ensures
        r matches EnrichOutcome::Deliver(req) && req.url == pending.webhook_url
            && is_notification_for(req.notification, pending.comment, meta),
{
}

/// The whole path of a qualifying request: a decodable create-comment
/// payload with both configuration values yields exactly one enrichment
/// request, carrying the comment and user ids verbatim; once — and only
/// once — its response arrives and succeeds, exactly one delivery request
/// follows, carrying the notification formatted from the enrichment
/// result; the delivery status alone then decides the final response. The
/// two calls come in this order and never overlap: a delivery request only
/// exists after the enrichment response is in hand.
pub proof fn lemma_create_flow(
    v: JsonValue,
    payload: LinearPayloadBody,
    comment: LinearComment,
    webhook_url: String,
    api_key: String,
    status: u16,
    body: Option<JsonValue>,
    meta: LinearCommentMeta,
    r: EnrichOutcome,
    delivery_status: u16,
)
    requires
        decode_payload_spec(v) == Ok::<LinearPayloadBody, crate::linear::DecodeError>(payload),
        payload.action is Create,
        payload.event == LinearEvent::Comment(comment),
        comment_meta_spec(status, body) == Ok::<LinearCommentMeta, EnrichmentError>(meta),
        relay_on_enrichment_post(RelayPending { comment, webhook_url }, status, body, r),
    ensures
        relay_start_spec(Some(v), Some(webhook_url), Some(api_key)) == StartOutcome::Enrich(
            RelayPending { comment, webhook_url },
            EnrichmentRequest {
                comment_id: comment.id,
                user_id: comment.user_id,
                api_key,
            },
        ),
        r matches EnrichOutcome::Deliver(req) && req.url == webhook_url
            && is_notification_for(req.notification, comment, meta),
        relay_on_delivery_spec(delivery_status) == RelayResponse::Accepted <==> status_success_spec(
            delivery_status,
        ),
{
    lemma_create_enriches(v, payload, comment, webhook_url, api_key);
    lemma_enrichment_success_delivers(
        RelayPending { comment, webhook_url },
        status,
        body,
        meta,
        r,
    );
}

/// An enrichment status outside 200..=209 fails the request with that
/// status and owes no delivery call.
pub proof fn lemma_enrichment_bad_status(
    pending: RelayPending,
    status: u16,
    body: Option<JsonValue>,
    r: EnrichOutcome,
)
    requires
        relay_on_enrichment_post(pending, status, body, r),
        !status_success_spec(status),
    ensures
        r == EnrichOutcome::Respond(
            RelayResponse::Failed(
                RelayError::Enrichment(EnrichmentError::BadStatus(status)),
            ),
        ),
{
}

/// An enrichment response whose body carries no `data` field (or a null
/// one) fails the request and owes no delivery call, whatever else the
/// body holds.
pub proof fn lemma_enrichment_missing_data(
    pending: RelayPending,
    status: u16,
    body: Option<JsonValue>,
    r: EnrichOutcome,
)
    requires
        relay_on_enrichment_post(pending, status, body, r),
        status_success_spec(status),
        match body {
            Some(JsonValue::Obj(fields)) => crate::json::json_lookup(fields@, "data"@) is None
                || crate::json::json_lookup(fields@, "data"@) == Some(JsonValue::Null),
            _ => false,
        },
    ensures
        r == EnrichOutcome::Respond(
            RelayResponse::Failed(
                RelayError::Enrichment(EnrichmentError::MissingData),
            ),
        ),
{
}

/// A delivery status outside 200..=209 fails the request even though
/// enrichment already succeeded.
pub proof fn lemma_delivery_failure(status: u16)
    requires
        !status_success_spec(status),
    ensures
        relay_on_delivery_spec(status) == RelayResponse::Failed(RelayError::Delivery(status)),
{
}

} // verus!
