//! The streaming relay's rules: the upstream address of a stream, and the
//! filter that every text message from upstream passes.

use vstd::prelude::*;
use vstd::string::StringExecFns;
use vstd::utf8::encode_utf8;

use crate::db::extract_dedup_uri;
use crate::db::spec_dedup_uri;
use crate::db::SeenUriStore;
use crate::filter::classify;
use crate::filter::Verdict;
use crate::json::parse_json;
use crate::json::parsed_json;
use crate::text::join;
use crate::text::replace_all;
use crate::text::spec_join;
use crate::text::spec_replace;
use crate::text::str_eq;

verus! {

/// The query parameters of a streaming request.
#[derive(Debug)]
pub struct StreamingParams {
    /// Access token for authentication.
    pub access_token: Option<String>,
    /// Stream type (user, public, ...).
    pub stream: Option<String>,
    /// Tag for hashtag streams.
    pub tag: Option<String>,
    /// List id for list streams.
    pub list: Option<String>,
}

/// Whether `b` is written as it is in a percent-encoded string: the ASCII
/// letters and digits, and `-`, `.`, `_`, `~`.
pub open spec fn spec_is_unreserved(b: u8) -> bool {
    (0x30 <= b <= 0x39) || (0x41 <= b <= 0x5a) || (0x61 <= b <= 0x7a) || b == 0x2d || b == 0x2e
        || b == 0x5f || b == 0x7e
}

/// The upper-case hexadecimal digit for `d`, which is below 16.
pub open spec fn spec_hex_digit(d: u8) -> char {
    if d < 10 {
        (0x30 + d) as char
    } else {
        (0x37 + d) as char
    }
}

/// One byte, percent-encoded.
pub open spec fn spec_encode_byte(b: u8) -> Seq<char> {
    if spec_is_unreserved(b) {
        seq![b as char]
    } else {
        seq!['%', spec_hex_digit(b / 16), spec_hex_digit(b % 16)]
    }
}

/// A byte string, percent-encoded byte by byte.
pub open spec fn spec_percent_encode(bytes: Seq<u8>) -> Seq<char>
    decreases bytes.len(),
{
    if bytes.len() == 0 {
        Seq::empty()
    } else {
        spec_percent_encode(bytes.drop_last()) + spec_encode_byte(bytes.last())
    }
}

/// `urlencoding::encode`: percent-encodes every byte of the UTF-8 form of
/// `s` except the ASCII letters and digits and `-`, `.`, `_`, `~`; an encoded
/// byte is `%` and two upper-case hexadecimal digits.
#[verifier::external_body]
fn url_encode(s: &str) -> (r: String)
    ensures
        r@ == spec_percent_encode(encode_utf8(s@)),
{
    urlencoding::encode(s).into_owned()
}

/// One `name=value` part of a query string, the value percent-encoded.
pub open spec fn spec_query_part(name: Seq<char>, value: Seq<char>) -> Seq<char> {
    name + seq!['='] + spec_percent_encode(encode_utf8(value))
}

/// `parts`, and behind them the part for `name` where `value` is given.
pub open spec fn spec_with_part(
    parts: Seq<Seq<char>>,
    name: Seq<char>,
    value: Option<String>,
) -> Seq<Seq<char>> {
    match value {
        Some(v) => parts.push(spec_query_part(name, v@)),
        None => parts,
    }
}

/// The parts of the upstream query string: the parameters that are given,
/// in the order token, stream, tag, list.
pub open spec fn spec_query_parts(params: StreamingParams) -> Seq<Seq<char>> {
    spec_with_part(
        spec_with_part(
            spec_with_part(
                spec_with_part(Seq::empty(), "access_token"@, params.access_token),
                "stream"@,
                params.stream,
            ),
            "tag"@,
            params.tag,
        ),
        "list"@,
        params.list,
    )
}

/// The address of the upstream streaming endpoint for `upstream_base`:
/// the base with `https://` turned into `wss://` and `http://` into `ws://`,
/// the path of the streaming API, and the query string where there is one.
pub open spec fn spec_upstream_ws_url(upstream_base: Seq<char>, params: StreamingParams) -> Seq<
    char,
> {
    let base = spec_replace(
        spec_replace(upstream_base, "https://"@, "wss://"@),
        "http://"@,
        "ws://"@,
    );
    let parts = spec_query_parts(params);
    if parts.len() == 0 {
        base + "/api/v1/streaming"@
    } else {
        base + "/api/v1/streaming"@ + seq!['?'] + spec_join(parts, "&"@)
    }
}

/// Adds the part for `name` to `parts` where `value` is given.
fn push_part(parts: &mut Vec<String>, name: &str, value: &Option<String>)
    ensures
        crate::text::spec_views(final(parts)@) == spec_with_part(
            crate::text::spec_views(old(parts)@),
            name@,
            *value,
        ),
{
    match value {
        Some(v) => {
            let mut part = name.to_owned();
            part.push('=');
            let encoded = url_encode(v.as_str());
            part.append(encoded.as_str());
            parts.push(part);
            assert(part@ =~= spec_query_part(name@, v@));
        },
        None => {},
    }
}

/// Builds the address of the upstream streaming endpoint.
pub fn build_upstream_ws_url(upstream_base: &str, params: &StreamingParams) -> (r: String)
    ensures
        r@ == spec_upstream_ws_url(upstream_base@, *params),
{
    proof {
        reveal_strlit("https://");
        reveal_strlit("http://");
    }
    let secure = replace_all(upstream_base, "https://", "wss://");
    let mut url = replace_all(secure.as_str(), "http://", "ws://");
    url.append("/api/v1/streaming");

    let mut parts: Vec<String> = Vec::new();
    assert(crate::text::spec_views(parts@) =~= Seq::<Seq<char>>::empty());
    push_part(&mut parts, "access_token", &params.access_token);
    push_part(&mut parts, "stream", &params.stream);
    push_part(&mut parts, "tag", &params.tag);
    push_part(&mut parts, "list", &params.list);

    if parts.len() > 0 {
        url.push('?');
        let query = join(&parts, "&");
        url.append(query.as_str());
    }
    url
}

/// The close code sent to a client whose upstream could not be reached.
pub const UPSTREAM_UNREACHABLE_CODE: u16 = 1014;

/// One of the four tasks that relay a streaming connection.
#[derive(Clone, Copy, Debug, PartialEq, Eq, Structural)]
pub enum RelayTask {
    /// Reads from upstream and queues for the client.
    UpstreamToClient,
    /// Reads from the client and queues for upstream.
    ClientToUpstream,
    /// Writes the queued messages to the client.
    SendToClient,
    /// Writes the queued messages to upstream.
    SendToUpstream,
}

/// Watches over the relay tasks of one connection. The tasks stand and fall
/// together: when the first of them ends, all others are to be cancelled.
#[derive(Debug)]
pub struct RelaySupervisor {
    first_ended: Option<RelayTask>,
}

impl RelaySupervisor {
    /// The task that ended first, once one has.
    pub closed spec fn spec_first_ended(self) -> Option<RelayTask> {
        self.first_ended
    }

    /// A supervisor for a connection whose tasks all run.
    pub fn new() -> (r: RelaySupervisor)
        ensures
            r.spec_first_ended() is None,
    {
        RelaySupervisor { first_ended: None }
    }

    /// The task that ended first, once one has.
    pub fn first_ended(&self) -> (r: Option<RelayTask>)
        ensures
            r == self.spec_first_ended(),
    {
        self.first_ended
    }

    /// Takes note that `task` has ended and returns the tasks to cancel.
    /// For the first task that ends these are the three other tasks, each
    /// once; after that nothing is left to cancel.
    pub fn on_exit(&mut self, task: RelayTask) -> (cancel: Vec<RelayTask>)
        ensures
            old(self).spec_first_ended() is None ==> {
                &&& final(self).spec_first_ended() == Some(task)
                &&& cancel@.no_duplicates()
                &&& forall|other: RelayTask| cancel@.contains(other) <==> other != task
            },
            old(self).spec_first_ended() is Some ==> {
                &&& final(self).spec_first_ended() == old(self).spec_first_ended()
                &&& cancel@.len() == 0
            },
    {
        if self.first_ended.is_some() {
            return Vec::new();
        }
        self.first_ended = Some(task);
        let cancel = match task {
            RelayTask::UpstreamToClient => vec![
                RelayTask::ClientToUpstream,
                RelayTask::SendToClient,
                RelayTask::SendToUpstream,
            ],
            RelayTask::ClientToUpstream => vec![
                RelayTask::UpstreamToClient,
                RelayTask::SendToClient,
                RelayTask::SendToUpstream,
            ],
            RelayTask::SendToClient => vec![
                RelayTask::UpstreamToClient,
                RelayTask::ClientToUpstream,
                RelayTask::SendToUpstream,
            ],
            RelayTask::SendToUpstream => vec![
                RelayTask::UpstreamToClient,
                RelayTask::ClientToUpstream,
                RelayTask::SendToClient,
            ],
        };
        cancel
    }
}

/// The identity that a stream message is deduplicated on, where it has one.
///
/// Only an event of type `update` has one: its payload is a JSON text that
/// holds a status, and the identity is that status's. A message that is no
/// JSON, an event of another type, a payload that is missing or does not
/// parse, and a status without identity all give `None`.
pub open spec fn spec_stream_identity(text: Seq<char>) -> Option<Seq<char>> {
    match parsed_json(text) {
        None => None,
        Some(event) => if event.spec_text_member("event"@) != Some("update"@) {
            None
        } else {
            match event.spec_text_member("payload"@) {
                None => None,
                Some(payload) => match parsed_json(payload) {
                    None => None,
                    Some(status) => spec_dedup_uri(status),
                },
            }
        },
    }
}

/// Finds the identity that a stream message is deduplicated on.
pub fn stream_identity(text: &str) -> (r: Option<String>)
    ensures
        match r {
            Some(uri) => spec_stream_identity(text@) == Some(uri@),
            None => spec_stream_identity(text@) is None,
        },
{
    let event = match parse_json(text) {
        Some(event) => event,
        None => {
            return None;
        },
    };
    match event.text_member("event") {
        Some(kind) => {
            if !str_eq(kind, "update") {
                return None;
            }
        },
        None => {
            return None;
        },
    }
    let payload = match event.text_member("payload") {
        Some(payload) => payload,
        None => {
            return None;
        },
    };
    let status = match parse_json(payload) {
        Some(status) => status,
        None => {
            return None;
        },
    };
    match extract_dedup_uri(&status) {
        Some(uri) => Some(uri.to_owned()),
        None => None,
    }
}

/// What is sent on for a message once it is decided: nothing for a
/// duplicate, the message unchanged in every other case.
pub open spec fn spec_forwarded(text: Seq<char>, verdict: Verdict) -> Option<Seq<char>> {
    if verdict.spec_keep() {
        Some(text)
    } else {
        None
    }
}

/// Applies a verdict to a message.
pub fn forwarded(text: &str, verdict: Verdict) -> (r: Option<String>)
    ensures
        match r {
            Some(out) => spec_forwarded(text@, verdict) == Some(out@),
            None => spec_forwarded(text@, verdict) is None,
        },
{
    if verdict.keep() {
        Some(text.to_owned())
    } else {
        None
    }
}

/// Decides on one stream message: `NoIdentity` exactly where the message
/// has no identity to deduplicate on, in which case the store is not
/// touched; else what the store said of the identity.
pub fn stream_verdict(text: &str, store: &SeenUriStore) -> (r: Verdict)
    ensures
        r is NoIdentity <==> spec_stream_identity(text@) is None,
{
    match stream_identity(text) {
        Some(uri) => classify(store, Some(uri.as_str())),
        None => classify(store, None),
    }
}

/// Filters one text message from upstream: `None` where the message is an
/// update for an identity that the store has seen before, else the message
/// unchanged.
///
/// A message without identity always passes, whatever the store holds. A
/// store failure lets the message pass.
pub fn filter_streaming_event(text: &str, store: &SeenUriStore) -> (r: Option<String>)
    ensures
        match r {
            Some(out) => out@ == text@,
            None => spec_stream_identity(text@) is Some,
        },
        spec_stream_identity(text@) is None ==> r is Some,
{
    let verdict = stream_verdict(text, store);
    forwarded(text, verdict)
}

/// A message from upstream, as far as the relay looks at it: its kind, and
/// the text of a text message.
#[derive(Debug)]
pub enum UpstreamMessage<'a> {
    Text(&'a str),
    Binary,
    Ping,
    Pong,
    Close,
    /// A raw frame, which the relay does not pass on.
    Frame,
}

/// What the relay sends to the client for a message from upstream.
#[derive(Debug, PartialEq, Eq)]
pub enum Relayed {
    /// The text message with this text.
    Text(String),
    /// The message as it is.
    Unchanged,
    /// Nothing: the message is dropped.
    Nothing,
}

/// What the relay does with one message from upstream.
#[derive(Debug)]
pub struct RelayDecision {
    /// What is sent to the client.
    pub relayed: Relayed,
    /// The verdict on the message; `NoIdentity` for every message that the
    /// store was not asked about.
    pub verdict: Verdict,
}

/// What the relay sends to the client for `msg` under `verdict`: a text
/// message as it is unless it is a duplicate, nothing for a raw frame,
/// every other message as it is.
pub open spec fn spec_relays(msg: UpstreamMessage, verdict: Verdict, relayed: Relayed) -> bool {
    match msg {
        UpstreamMessage::Text(text) => if verdict.spec_keep() {
            relayed matches Relayed::Text(out) && out@ == text@
        } else {
            relayed is Nothing
        },
        UpstreamMessage::Frame => relayed is Nothing,
        _ => relayed is Unchanged,
    }
}

/// Decides what the relay sends to the client for a message from upstream.
/// Only text messages pass the duplicate filter; the store is not touched
/// for any other message.
pub fn filter_upstream_message(msg: UpstreamMessage, store: &SeenUriStore) -> (r: RelayDecision)
    ensures
        spec_relays(msg, r.verdict, r.relayed),
        r.verdict is NoIdentity <==> (msg matches UpstreamMessage::Text(text) ==> spec_stream_identity(
            text@,
        ) is None),
{
    match msg {
        UpstreamMessage::Text(text) => {
            let verdict = stream_verdict(text, store);
            let relayed = match forwarded(text, verdict) {
                Some(out) => Relayed::Text(out),
                None => Relayed::Nothing,
            };
            RelayDecision { relayed, verdict }
        },
        UpstreamMessage::Frame => RelayDecision {
            relayed: Relayed::Nothing,
            verdict: Verdict::NoIdentity,
        },
        _ => RelayDecision { relayed: Relayed::Unchanged, verdict: Verdict::NoIdentity },
    }
}

/// An event of any type but `update` has no identity to deduplicate on, so
/// the filter lets it pass whatever its payload refers to and whatever the
/// store holds.
pub proof fn lemma_other_events_pass(text: Seq<char>)
    requires
        parsed_json(text) matches Some(event) ==> event.spec_text_member("event"@) != Some(
            "update"@,
        ),
    ensures
        spec_stream_identity(text) is None,
        forall|verdict: Verdict|
            (verdict is NoIdentity <==> spec_stream_identity(text) is None) ==> spec_forwarded(
                text,
                verdict,
            ) == Some(text),
{
}

/// An update whose identity the store has seen before is dropped.
pub proof fn lemma_duplicate_is_dropped(text: Seq<char>)
    ensures
        spec_forwarded(text, crate::filter::spec_verdict(Ok(true))) is None,
{
}

/// Batch and stream path know a status by the same identity: the identity
/// of an update event is the identity that the batch filter derives from
/// the status in its payload, re-share or not. Both put that identity to
/// the store through the same operation.
pub proof fn lemma_paths_share_identity(
    text: Seq<char>,
    event: crate::json::JsonTree,
    payload: Seq<char>,
    status: crate::json::JsonTree,
)
    requires
        parsed_json(text) == Some(event),
        event.spec_text_member("event"@) == Some("update"@),
        event.spec_text_member("payload"@) == Some(payload),
        parsed_json(payload) == Some(status),
    ensures
        spec_stream_identity(text) == spec_dedup_uri(status),
{
}

} // verus!
