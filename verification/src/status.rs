//! The status update: what is sent to the chat service and what its reply
//! means.
//!
//! The service is asked with one `POST` to `users.profile.set`. This module
//! builds the request, down to the bytes of its body, and reads the reply.
//! Sending is the caller's business: it hands back a [`Delivery`].

use crate::emoji::Emoji;
use crate::json::{
    document_members, found_view, member, member_at, parse, parse_outcome, quote, string_literal,
    Member, MemberView,
};
use crate::player::{TrackInfo, TrackView};
use crate::text::{decimal, decimal_text};
use vstd::prelude::*;
use vstd::utf8::*;

verus! {

/// Where the status update is posted.
pub const ENDPOINT: &'static str = "https://slack.com/api/users.profile.set";

/// The media type of the request's body.
pub const CONTENT_TYPE: &'static str = "application/json";

/// The status that is shown in the profile.
#[derive(Clone, Debug, PartialEq, Eq)]
pub struct StatusPayload {
    /// text content of the status
    pub status_text: String,
    /// emoji to display
    pub status_emoji: String,
    /// unix time of when the status should expire
    pub status_expiration: u64,
}

/// The mathematical value of a [`StatusPayload`].
pub struct StatusPayloadView {
    pub status_text: Seq<char>,
    pub status_emoji: Seq<char>,
    pub status_expiration: u64,
}

impl View for StatusPayload {
    type V = StatusPayloadView;

    open spec fn view(&self) -> StatusPayloadView {
        StatusPayloadView {
            status_text: self.status_text@,
            status_emoji: self.status_emoji@,
            status_expiration: self.status_expiration,
        }
    }
}

/// The line that tells of a track: its name, ` by `, its artist.
pub open spec fn status_line(track: TrackView) -> Seq<char> {
    track.name + " by "@ + track.artist
}

/// The status for a track that plays at time `now`, to expire `ttl` seconds
/// later. Times are seconds since the Unix epoch.
pub open spec fn status_for(track: TrackView, emoji: Emoji, now: u64, ttl: u64) -> StatusPayloadView
    recommends
        now + ttl <= u64::MAX,
{
    StatusPayloadView {
        status_text: status_line(track),
        status_emoji: emoji.code(),
        status_expiration: (now + ttl) as u64,
    }
}

impl StatusPayload {
    /// Builds the status for a track that plays now. The status expires
    /// exactly `ttl` seconds after `now`, which is later than `now` because
    /// a status must live for some time.
    pub fn new(track: &TrackInfo, emoji: Emoji, now: u64, ttl: u64) -> (payload: StatusPayload)
        requires
            0 < ttl,
            now + ttl <= u64::MAX,
        ensures
            payload@ == status_for(track@, emoji, now, ttl),
            payload.status_expiration == now + ttl,
            payload.status_expiration > now,
    {
        let mut status_text = track.name().to_owned();
        status_text.append(" by ");
        status_text.append(track.artist());
        StatusPayload {
            status_text,
            status_emoji: emoji.to_string(),
            status_expiration: now + ttl,
        }
    }
}

/// The body of the request: the payload's three fields under their wire
/// names, inside an object under `profile`, in compact JSON.
pub open spec fn body_of(payload: StatusPayloadView) -> Seq<char> {
    "{\"profile\":{\"status_text\":"@ + string_literal(payload.status_text)
        + ",\"status_emoji\":"@ + string_literal(payload.status_emoji)
        + ",\"status_expiration\":"@ + decimal(payload.status_expiration as nat) + "}}"@
}

/// The value of the `Authorization` header for a credential.
pub open spec fn bearer(credential: Seq<char>) -> Seq<char> {
    "Bearer "@ + credential
}

/// One request to the chat service, ready to be sent with `POST`.
#[derive(Clone, Debug, PartialEq, Eq)]
pub struct Request {
    pub url: String,
    pub authorization: String,
    pub content_type: String,
    pub body: String,
}

/// The mathematical value of a [`Request`].
pub struct RequestView {
    pub url: Seq<char>,
    pub authorization: Seq<char>,
    pub content_type: Seq<char>,
    pub body: Seq<char>,
}

impl View for Request {
    type V = RequestView;

    open spec fn view(&self) -> RequestView {
        RequestView {
            url: self.url@,
            authorization: self.authorization@,
            content_type: self.content_type@,
            body: self.body@,
        }
    }
}

/// The request that publishes a payload with a credential.
pub open spec fn request_for(credential: Seq<char>, payload: StatusPayloadView) -> RequestView {
    RequestView {
        url: ENDPOINT@,
        authorization: bearer(credential),
        content_type: CONTENT_TYPE@,
        body: body_of(payload),
    }
}

/// Writes the body of the request for a payload.
pub fn request_body(payload: &StatusPayload) -> (body: String)
    ensures
        body@ == body_of(payload@),
{
    let mut body = "{\"profile\":{\"status_text\":".to_owned();
    body.append(quote(payload.status_text.as_str()).as_str());
    body.append(",\"status_emoji\":");
    body.append(quote(payload.status_emoji.as_str()).as_str());
    body.append(",\"status_expiration\":");
    body.append(decimal_text(payload.status_expiration).as_str());
    body.append("}}");
    body
}

/// Builds the one request that publishes a payload with a credential.
pub fn build_request(credential: &str, payload: &StatusPayload) -> (request: Request)
    ensures
        request@ == request_for(credential@, payload@),
{
    let mut authorization = "Bearer ".to_owned();
    authorization.append(credential);
    Request {
        url: ENDPOINT.to_owned(),
        authorization,
        content_type: CONTENT_TYPE.to_owned(),
        body: request_body(payload),
    }
}

/// What the service answered: whether it did what was asked, and if not,
/// its word for why, where it gave one.
#[derive(Clone, Debug, PartialEq, Eq)]
pub struct RemoteResponse {
    pub ok: bool,
    pub error: Option<String>,
}

/// The mathematical value of a [`RemoteResponse`].
pub struct RemoteResponseView {
    pub ok: bool,
    pub error: Option<Seq<char>>,
}

impl View for RemoteResponse {
    type V = RemoteResponseView;

    open spec fn view(&self) -> RemoteResponseView {
        RemoteResponseView {
            ok: self.ok,
            error: match self.error {
                Some(text) => Some(text@),
                None => None,
            },
        }
    }
}

/// Why a status was not published.
#[derive(Clone, Debug, PartialEq, Eq)]
pub enum PublishError {
    /// The request could not be sent, or no response came.
    TransportFailed,
    /// A response came, and its body is not of the expected shape.
    ResponseUndecodable,
    /// The service answered that it did not do what was asked.
    RemoteRejected(RemoteResponse),
}

/// The mathematical value of a [`PublishError`].
pub enum PublishErrorView {
    TransportFailed,
    ResponseUndecodable,
    RemoteRejected(RemoteResponseView),
}

impl View for PublishError {
    type V = PublishErrorView;

    open spec fn view(&self) -> PublishErrorView {
        match self {
            PublishError::TransportFailed => PublishErrorView::TransportFailed,
            PublishError::ResponseUndecodable => PublishErrorView::ResponseUndecodable,
            PublishError::RemoteRejected(response) => PublishErrorView::RemoteRejected(response@),
        }
    }
}

/// The mathematical value of a response that may be missing.
pub open spec fn response_view(response: Option<RemoteResponse>) -> Option<RemoteResponseView> {
    match response {
        Some(r) => Some(r@),
        None => None,
    }
}

/// The mathematical value of what publishing came to.
pub open spec fn publishing_view(outcome: Result<(), PublishError>) -> Result<
    (),
    PublishErrorView,
> {
    match outcome {
        Ok(_) => Ok(()),
        Err(error) => Err(error@),
    }
}

/// The two members of a reply that this crate reads, each as it was found
/// in the document, if it was found.
#[derive(Clone, Debug, PartialEq, Eq)]
pub struct Reply {
    pub ok: Option<Member>,
    pub error: Option<Member>,
}

/// The mathematical value of a [`Reply`].
pub struct ReplyView {
    pub ok: Option<MemberView>,
    pub error: Option<MemberView>,
}

impl View for Reply {
    type V = ReplyView;

    open spec fn view(&self) -> ReplyView {
        ReplyView { ok: found_view(self.ok), error: found_view(self.error) }
    }
}

/// The response that a reply holds, if it has the expected shape: `ok` must
/// be there and be a boolean, `error` may be missing or null and is a
/// string otherwise.
pub open spec fn response_of(reply: ReplyView) -> Option<RemoteResponseView> {
    match reply.ok {
        Some(MemberView::Flag(ok)) => match reply.error {
            None => Some(RemoteResponseView { ok, error: None }),
            Some(MemberView::Null) => Some(RemoteResponseView { ok, error: None }),
            Some(MemberView::Text(text)) => Some(RemoteResponseView { ok, error: Some(text) }),
            Some(_) => None,
        },
        _ => None,
    }
}

/// The reply that the members of a document make.
pub open spec fn reply_of(members: Map<Seq<char>, MemberView>) -> ReplyView {
    ReplyView { ok: member_at(members, "ok"@), error: member_at(members, "error"@) }
}

/// The response that a text holds, given what the JSON parser makes of it.
pub open spec fn decoded_response(text: Seq<char>) -> Option<RemoteResponseView> {
    match parse_outcome(text) {
        Ok(members) => response_of(reply_of(members)),
        Err(_) => None,
    }
}

/// The verdict on a response: success exactly when `ok` is set, and the
/// whole response as the reason otherwise.
pub open spec fn verdict(response: RemoteResponseView) -> Result<(), PublishErrorView> {
    if response.ok {
        Ok(())
    } else {
        Err(PublishErrorView::RemoteRejected(response))
    }
}

/// The response that the bytes of a body hold, if they are UTF-8 and their
/// text holds one.
pub open spec fn body_response(body: Seq<u8>) -> Option<RemoteResponseView> {
    if valid_utf8(body) {
        decoded_response(decode_utf8(body))
    } else {
        None
    }
}

/// Reads the response out of the two members of a reply.
pub fn read_reply(reply: Reply) -> (response: Option<RemoteResponse>)
    ensures
        response_view(response) == response_of(reply@),
{
    let Reply { ok, error } = reply;
    match ok {
        Some(Member::Flag(ok)) => match error {
            None => Some(RemoteResponse { ok, error: None }),
            Some(Member::Null) => Some(RemoteResponse { ok, error: None }),
            Some(Member::Text(text)) => Some(RemoteResponse { ok, error: Some(text) }),
            Some(_) => None,
        },
        _ => None,
    }
}

/// Looks the two members of a reply up in a parsed document.
fn reply_in(doc: &serde_json::Value) -> (reply: Reply)
    ensures
        reply@ == reply_of(document_members(*doc)),
{
    Reply { ok: member(doc, "ok"), error: member(doc, "error") }
}

/// Reads a text as a response of the service.
pub fn decode_response(text: &str) -> (response: Option<RemoteResponse>)
    ensures
        response_view(response) == decoded_response(text@),
{
    match parse(text) {
        Ok(doc) => read_reply(reply_in(&doc)),
        Err(_) => None,
    }
}

/// Passes the verdict on a response.
pub fn judge(response: RemoteResponse) -> (outcome: Result<(), PublishError>)
    ensures
        publishing_view(outcome) == verdict(response@),
{
    if response.ok {
        Ok(())
    } else {
        Err(PublishError::RemoteRejected(response))
    }
}

/// What came of sending the request.
#[derive(Clone, Debug, PartialEq, Eq)]
pub enum Delivery {
    /// The request could not be sent, or no response came.
    Failed,
    /// A response came, and its body could not be read to the end.
    Unreadable,
    /// A response came with this body.
    Body(Vec<u8>),
}

/// The mathematical value of a [`Delivery`].
pub enum DeliveryView {
    Failed,
    Unreadable,
    Body(Seq<u8>),
}

impl View for Delivery {
    type V = DeliveryView;

    open spec fn view(&self) -> DeliveryView {
        match self {
            Delivery::Failed => DeliveryView::Failed,
            Delivery::Unreadable => DeliveryView::Unreadable,
            Delivery::Body(body) => DeliveryView::Body(body@),
        }
    }
}

/// The response that a delivery brought, if it brought one.
pub open spec fn received(delivery: DeliveryView) -> Option<RemoteResponseView> {
    match delivery {
        DeliveryView::Body(body) => body_response(body),
        _ => None,
    }
}

/// What publishing came to, given what came of sending the request.
pub open spec fn publish_outcome(delivery: DeliveryView) -> Result<(), PublishErrorView> {
    if delivery is Failed {
        Err(PublishErrorView::TransportFailed)
    } else {
        match received(delivery) {
            Some(response) => verdict(response),
            None => Err(PublishErrorView::ResponseUndecodable),
        }
    }
}

/// Concludes a publication: takes what came of sending the request and
/// says whether the status was published, or why it was not.
pub fn conclude(delivery: Delivery) -> (outcome: Result<(), PublishError>)
    ensures
        publishing_view(outcome) == publish_outcome(delivery@),
{
    match delivery {
        Delivery::Failed => Err(PublishError::TransportFailed),
        Delivery::Unreadable => Err(PublishError::ResponseUndecodable),
        Delivery::Body(body) => match core::str::from_utf8(body.as_slice()) {
            Err(_) => Err(PublishError::ResponseUndecodable),
            Ok(text) => match decode_response(text) {
                Some(response) => judge(response),
                None => Err(PublishError::ResponseUndecodable),
            },
        },
    }
}

/// The three ways in which publishing fails exclude one another, and
/// success excludes them all. Without a response the failure is one of
/// transport; with one, the status is published exactly when the body holds
/// a response whose `ok` is set, rejected with that response exactly when
/// it holds one whose `ok` is not, and undecodable exactly when it holds
/// none, as a body does that is not UTF-8 or not JSON.
pub proof fn lemma_publish_outcomes(delivery: DeliveryView)
    ensures
        publish_outcome(delivery) == Err::<(), PublishErrorView>(PublishErrorView::TransportFailed)
            <==> delivery is Failed,
        publish_outcome(delivery) == Err::<(), PublishErrorView>(
            PublishErrorView::ResponseUndecodable,
        ) <==> !(delivery is Failed) && received(delivery) is None,
        publish_outcome(delivery) is Ok <==> received(delivery) is Some && received(
            delivery,
        )->Some_0.ok,
        forall|response: RemoteResponseView|
            publish_outcome(delivery) == Err::<(), PublishErrorView>(
                PublishErrorView::RemoteRejected(response),
            ) <==> received(delivery) == Some(response) && !response.ok,
        delivery matches DeliveryView::Body(body) ==> (!valid_utf8(body) || parse_outcome(
            decode_utf8(body),
        ) is Err ==> publish_outcome(delivery) == Err::<(), PublishErrorView>(
            PublishErrorView::ResponseUndecodable,
        )),
{
}

} // verus!
