//! Filtering of timeline responses, and the rules of the HTTP proxy that do
//! not depend on the transport.

use vstd::prelude::*;
use vstd::slice::slice_to_vec;
use vstd::string::StringExecFns;
use vstd::string::StringSliceAdditionalSpecFns;

use crate::db::extract_dedup_uri;
use crate::db::spec_dedup_uri;
use crate::db::SeenUriStore;
use crate::filter::classify;
use crate::filter::Verdict;
use crate::json::parse_json_array;
use crate::json::parsed_json_array;
use crate::json::serialize_json_array;
use crate::json::serialized_json_array;
use crate::json::spec_trees;
use crate::json::JsonTree;
use crate::json::JsonValue;
use crate::text::lowercased;
use crate::text::spec_contains;
use crate::text::str_contains;
use crate::text::str_eq;
use crate::text::to_lowercase;

verus! {

/// Whether `text` begins with `prefix`.
pub open spec fn spec_starts_with(text: Seq<u8>, prefix: Seq<u8>) -> bool {
    prefix.len() <= text.len() && text.subrange(0, prefix.len() as int) == prefix
}

/// Where the query string of `path` begins: the place of its first `?`, or
/// its length where it has none.
pub open spec fn spec_query_start(path: Seq<u8>) -> int
    decreases path.len(),
{
    if path.len() == 0 {
        0
    } else if path[0] == 0x3f {
        0
    } else {
        1 + spec_query_start(path.drop_first())
    }
}

/// `path` without its query string.
pub open spec fn spec_path_only(path: Seq<u8>) -> Seq<u8> {
    path.subrange(0, spec_query_start(path))
}

/// Whether `path_only`, a path without query string, lies under one of the
/// endpoints whose responses are feeds: the home, public and link
/// timelines, everything below the list and the tag timelines, and the
/// trending statuses.
pub open spec fn spec_is_timeline_path(path_only: Seq<u8>) -> bool {
    ||| spec_starts_with(path_only, "/api/v1/timelines/home".spec_bytes())
    ||| spec_starts_with(path_only, "/api/v1/timelines/public".spec_bytes())
    ||| spec_starts_with(path_only, "/api/v1/timelines/list/".spec_bytes())
    ||| spec_starts_with(path_only, "/api/v1/timelines/tag/".spec_bytes())
    ||| spec_starts_with(path_only, "/api/v1/timelines/link".spec_bytes())
    ||| spec_starts_with(path_only, "/api/v1/trends/statuses".spec_bytes())
}

/// Whether the request path `path`, given by its bytes and with or without
/// a query string, names a timeline endpoint.
pub open spec fn spec_is_timeline_endpoint(path: Seq<u8>) -> bool {
    spec_is_timeline_path(spec_path_only(path))
}

/// The query string begins within the path, and no `?` stands before it.
pub proof fn lemma_query_start(path: Seq<u8>)
    ensures
        0 <= spec_query_start(path) <= path.len(),
        forall|j: int| 0 <= j < spec_query_start(path) ==> #[trigger] path[j] != 0x3f,
        spec_query_start(path) < path.len() ==> path[spec_query_start(path)] == 0x3f,
    decreases path.len(),
{
    if path.len() > 0 && path[0] != 0x3f {
        let rest = path.drop_first();
        lemma_query_start(rest);
        assert forall|j: int| 0 <= j < spec_query_start(path) implies #[trigger] path[j]
            != 0x3f by {
            if j > 0 {
                assert(rest[j - 1] == path[j]);
            }
        }
        if spec_query_start(path) < path.len() {
        }
    }
}

/// The place of the first `?` is the query start.
pub proof fn lemma_first_mark_is_query_start(path: Seq<u8>, at: int)
    requires
        0 <= at <= path.len(),
        forall|j: int| 0 <= j < at ==> #[trigger] path[j] != 0x3f,
        at < path.len() ==> path[at] == 0x3f,
    ensures
        spec_query_start(path) == at,
{
    lemma_query_start(path);
    let start = spec_query_start(path);
    if start < at {
    } else if at < start {
    }
}

/// Whether the first `end` bytes of `text` begin with `prefix`.
fn starts_with(text: &[u8], end: usize, prefix: &[u8]) -> (r: bool)
    requires
        end <= text@.len(),
    ensures
        r == spec_starts_with(text@.subrange(0, end as int), prefix@),
{
    if prefix.len() > end {
        return false;
    }
    let mut i: usize = 0;
    while i < prefix.len()
        invariant
            i <= prefix.len() <= end <= text@.len(),
            forall|j: int| 0 <= j < i ==> text@[j] == prefix@[j],
        decreases prefix.len() - i,
    {
        if text[i] != prefix[i] {
            return false;
        }
        i = i + 1;
    }
    assert(text@.subrange(0, end as int).subrange(0, prefix@.len() as int) =~= prefix@);
    true
}

/// Checks whether a request path names a timeline endpoint, the responses
/// of which are filtered.
pub fn is_timeline_endpoint(path: &str) -> (r: bool)
    ensures
        r == spec_is_timeline_endpoint(path.spec_bytes()),
{
    let bytes = path.as_bytes();
    let mut end: usize = 0;
    while end < bytes.len() && bytes[end] != 0x3f
        invariant
            end <= bytes@.len(),
            forall|j: int| 0 <= j < end ==> #[trigger] bytes@[j] != 0x3f,
        decreases bytes@.len() - end,
    {
        end = end + 1;
    }
    proof {
        lemma_first_mark_is_query_start(bytes@, end as int);
    }
    starts_with(bytes, end, "/api/v1/timelines/home".as_bytes()) || starts_with(
        bytes,
        end,
        "/api/v1/timelines/public".as_bytes(),
    ) || starts_with(bytes, end, "/api/v1/timelines/list/".as_bytes()) || starts_with(
        bytes,
        end,
        "/api/v1/timelines/tag/".as_bytes(),
    ) || starts_with(bytes, end, "/api/v1/timelines/link".as_bytes()) || starts_with(
        bytes,
        end,
        "/api/v1/trends/statuses".as_bytes(),
    )
}

/// Whether a response is put through the filter: only a successful answer
/// to a `GET` of a timeline endpoint is.
pub open spec fn spec_should_filter(method: Seq<char>, path: Seq<u8>, status: u16) -> bool {
    method == "GET"@ && spec_is_timeline_endpoint(path) && 200 <= status <= 299
}

/// Decides whether the response to a request is put through the filter.
pub fn should_filter(method: &str, path: &str, status: u16) -> (r: bool)
    ensures
        r == spec_should_filter(method@, path.spec_bytes(), status),
{
    str_eq(method, "GET") && is_timeline_endpoint(path) && 200 <= status && status <= 299
}

/// Whether a request of this method carries a body that is sent on.
pub open spec fn spec_forwards_body(method: Seq<char>) -> bool {
    method == "POST"@ || method == "PUT"@ || method == "PATCH"@
}

/// Decides whether the body of a request is sent on upstream.
pub fn forwards_body(method: &str) -> (r: bool)
    ensures
        r == spec_forwards_body(method@),
{
    str_eq(method, "POST") || str_eq(method, "PUT") || str_eq(method, "PATCH")
}

/// Whether a header of this lower-case name is never sent on.
pub open spec fn spec_is_stripped(lower: Seq<char>) -> bool {
    lower == "host"@ || lower == "connection"@ || lower == "transfer-encoding"@
}

/// Whether a request header of this lower-case name may be sent upstream.
pub open spec fn spec_is_passthrough(lower: Seq<char>) -> bool {
    lower == "authorization"@ || lower == "content-type"@ || lower == "accept"@ || lower
        == "accept-language"@ || lower == "user-agent"@ || lower == "content-length"@
}

/// Whether a request header is sent upstream: its name in lower case must
/// be one of the known passthrough headers and none of the stripped ones.
pub open spec fn spec_forwards_request_header(name: Seq<char>) -> bool {
    !spec_is_stripped(lowercased(name)) && spec_is_passthrough(lowercased(name))
}

/// Whether a response header is sent to the client: every header is, but
/// for the stripped ones and the content length, which the filter may have
/// changed.
pub open spec fn spec_forwards_response_header(name: Seq<char>) -> bool {
    !spec_is_stripped(lowercased(name)) && lowercased(name) != "content-length"@
}

/// Decides whether a header of this lower-case name is never sent on.
fn is_stripped(lower: &str) -> (r: bool)
    ensures
        r == spec_is_stripped(lower@),
{
    str_eq(lower, "host") || str_eq(lower, "connection") || str_eq(lower, "transfer-encoding")
}

/// Decides whether a request header is sent upstream.
pub fn forwards_request_header(name: &str) -> (r: bool)
    ensures
        r == spec_forwards_request_header(name@),
{
    let lowered = to_lowercase(name);
    let lower = lowered.as_str();
    if is_stripped(lower) {
        return false;
    }
    str_eq(lower, "authorization") || str_eq(lower, "content-type") || str_eq(lower, "accept")
        || str_eq(lower, "accept-language") || str_eq(lower, "user-agent") || str_eq(
        lower,
        "content-length",
    )
}

/// Decides whether a response header is sent to the client.
pub fn forwards_response_header(name: &str) -> (r: bool)
    ensures
        r == spec_forwards_response_header(name@),
{
    let lowered = to_lowercase(name);
    let lower = lowered.as_str();
    !is_stripped(lower) && !str_eq(lower, "content-length")
}

/// Errors that can occur during proxying.
#[derive(Debug, PartialEq, Eq)]
pub enum ProxyError {
    /// Failed to read the request body.
    BodyRead(String),
    /// The request body exceeds the configured size limit.
    PayloadTooLarge,
    /// Failed to reach the upstream server.
    Upstream(String),
    /// Failed to read the response from upstream.
    ResponseRead(String),
    /// Failed to build the response.
    ResponseBuild(String),
}

/// The error for a request body that could not be read, from the reason
/// given: a body over the size limit where the reason says so.
pub open spec fn spec_is_too_large(reason: Seq<char>) -> bool {
    spec_contains(reason, "length limit exceeded"@)
}

impl ProxyError {
    /// The HTTP status that answers this error.
    pub open spec fn spec_status_code(self) -> u16 {
        match self {
            ProxyError::BodyRead(_) => 400,
            ProxyError::PayloadTooLarge => 413,
            ProxyError::Upstream(_) => 502,
            ProxyError::ResponseRead(_) => 502,
            ProxyError::ResponseBuild(_) => 500,
        }
    }

    /// The message that answers this error.
    pub open spec fn spec_message(self) -> Seq<char> {
        match self {
            ProxyError::BodyRead(e) => "Body read error: "@ + e@,
            ProxyError::PayloadTooLarge => "Request body exceeds maximum allowed size"@,
            ProxyError::Upstream(e) => "Upstream error: "@ + e@,
            ProxyError::ResponseRead(e) => "Response read error: "@ + e@,
            ProxyError::ResponseBuild(e) => "Response build error: "@ + e@,
        }
    }

    /// The body that answers this error: a JSON object with the message
    /// under `error`, the message put between quotes as it is.
    pub open spec fn spec_body(self) -> Seq<char> {
        "{\"error\":\""@ + self.spec_message() + "\"}"@
    }

    /// The error for a request body that could not be read.
    pub fn from_body_failure(reason: String) -> (r: ProxyError)
        ensures
            spec_is_too_large(reason@) ==> r == ProxyError::PayloadTooLarge,
            !spec_is_too_large(reason@) ==> r == ProxyError::BodyRead(reason),
    {
        if str_contains(reason.as_str(), "length limit exceeded") {
            ProxyError::PayloadTooLarge
        } else {
            ProxyError::BodyRead(reason)
        }
    }

    /// The HTTP status that answers this error.
    pub fn status_code(&self) -> (r: u16)
        ensures
            r == self.spec_status_code(),
    {
        match self {
            ProxyError::BodyRead(_) => 400,
            ProxyError::PayloadTooLarge => 413,
            ProxyError::Upstream(_) => 502,
            ProxyError::ResponseRead(_) => 502,
            ProxyError::ResponseBuild(_) => 500,
        }
    }

    /// The message that answers this error.
    pub fn message(&self) -> (r: String)
        ensures
            r@ == self.spec_message(),
    {
        match self {
            ProxyError::BodyRead(e) => "Body read error: ".to_owned().concat(e.as_str()),
            ProxyError::PayloadTooLarge => "Request body exceeds maximum allowed size".to_owned(),
            ProxyError::Upstream(e) => "Upstream error: ".to_owned().concat(e.as_str()),
            ProxyError::ResponseRead(e) => "Response read error: ".to_owned().concat(e.as_str()),
            ProxyError::ResponseBuild(e) => "Response build error: ".to_owned().concat(
                e.as_str(),
            ),
        }
    }

    /// The body that answers this error.
    pub fn body(&self) -> (r: String)
        ensures
            r@ == self.spec_body(),
    {
        let message = self.message();
        "{\"error\":\"".to_owned().concat(message.as_str()).concat("\"}")
    }
}

/// Whether `b` is one of the four bytes that JSON treats as white space.
pub open spec fn spec_is_json_space(b: u8) -> bool {
    b == 0x20 || b == 0x09 || b == 0x0a || b == 0x0d
}

/// Whether the first byte of `body` that is not JSON white space opens an
/// array. An empty body, and one of white space only, do not.
pub open spec fn spec_begins_with_array(body: Seq<u8>) -> bool {
    exists|i: int|
        0 <= i < body.len() && #[trigger] body[i] == 0x5b && forall|j: int|
            0 <= j < i ==> spec_is_json_space(#[trigger] body[j])
}

/// Decides whether `body` begins with the marker that opens a JSON array.
pub fn begins_with_array(body: &[u8]) -> (r: bool)
    ensures
        r == spec_begins_with_array(body@),
{
    let mut i: usize = 0;
    while i < body.len()
        invariant
            i <= body.len(),
            forall|j: int| 0 <= j < i ==> spec_is_json_space(#[trigger] body@[j]),
        decreases body.len() - i,
    {
        let b = body[i];
        if !(b == 0x20 || b == 0x09 || b == 0x0a || b == 0x0d) {
            if b == 0x5b {
                return true;
            } else {
                assert forall|k: int| 0 <= k < body@.len() && #[trigger] body@[k] == 0x5b implies !(
                forall|j: int| 0 <= j < k ==> spec_is_json_space(#[trigger] body@[j])) by {
                    if k < i {
                    } else {
                    }
                }
                return false;
            }
        }
        i = i + 1;
    }
    assert forall|k: int| 0 <= k < body@.len() implies #[trigger] body@[k] != 0x5b by {
    }
    false
}

/// The items of a timeline response: what the body parses to where it
/// begins with the array marker and is a well-formed JSON array. A body
/// that does not begin with the marker is never parsed.
pub open spec fn spec_timeline_items(body: Seq<u8>) -> Option<Seq<JsonTree>> {
    if spec_begins_with_array(body) {
        parsed_json_array(body)
    } else {
        None
    }
}

/// The items that stay, in their original order: each item whose verdict
/// lets it through.
pub open spec fn spec_retained(items: Seq<JsonTree>, verdicts: Seq<Verdict>) -> Seq<JsonTree>
    decreases items.len(),
{
    if items.len() == 0 || verdicts.len() != items.len() {
        Seq::empty()
    } else if verdicts.last().spec_keep() {
        spec_retained(items.drop_last(), verdicts.drop_last()).push(items.last())
    } else {
        spec_retained(items.drop_last(), verdicts.drop_last())
    }
}

/// The body that the filter returns for `body` under `verdicts`: the body
/// itself where it holds no timeline items or the retained items cannot be
/// written, else the retained items written as a JSON array.
pub open spec fn spec_filtered_body(body: Seq<u8>, verdicts: Seq<Verdict>) -> Seq<u8> {
    match spec_timeline_items(body) {
        None => body,
        Some(items) => match serialized_json_array(spec_retained(items, verdicts)) {
            Some(bytes) => bytes,
            None => body,
        },
    }
}

/// Whether `verdicts` are verdicts on the items of `body`: one for each
/// item, with `NoIdentity` exactly for the items that carry no identity;
/// none at all where the body holds no timeline items.
pub open spec fn spec_verdicts_fit(body: Seq<u8>, verdicts: Seq<Verdict>) -> bool {
    match spec_timeline_items(body) {
        None => verdicts.len() == 0,
        Some(items) => {
            &&& verdicts.len() == items.len()
            &&& forall|i: int|
                0 <= i < items.len() ==> ((#[trigger] verdicts[i]) is NoIdentity <==> spec_dedup_uri(
                    items[i],
                ) is None)
        },
    }
}

/// What the batch filter did with one response.
#[derive(Debug)]
pub struct FilterReport {
    /// The body to hand on.
    pub body: Vec<u8>,
    /// The verdict on each item of the response, in order.
    pub verdicts: Vec<Verdict>,
}

/// How many of `verdicts` are `which`.
pub open spec fn spec_count(verdicts: Seq<Verdict>, which: Verdict) -> nat
    decreases verdicts.len(),
{
    if verdicts.len() == 0 {
        0
    } else if verdicts.last() == which {
        spec_count(verdicts.drop_last(), which) + 1
    } else {
        spec_count(verdicts.drop_last(), which)
    }
}

/// No more verdicts are of one kind than there are verdicts.
pub proof fn lemma_count_bound(verdicts: Seq<Verdict>, which: Verdict)
    ensures
        spec_count(verdicts, which) <= verdicts.len(),
    decreases verdicts.len(),
{
    if verdicts.len() > 0 {
        lemma_count_bound(verdicts.drop_last(), which);
    }
}

/// As many items stay as were not found to be duplicates.
pub proof fn lemma_retained_len(items: Seq<JsonTree>, verdicts: Seq<Verdict>)
    requires
        items.len() == verdicts.len(),
    ensures
        spec_retained(items, verdicts).len() + spec_count(verdicts, Verdict::Duplicate)
            == items.len(),
    decreases items.len(),
{
    if items.len() > 0 {
        lemma_retained_len(items.drop_last(), verdicts.drop_last());
    }
}

/// Where no item was found to be a duplicate, every item stays.
pub proof fn lemma_without_duplicates_all_stay(items: Seq<JsonTree>, verdicts: Seq<Verdict>)
    requires
        items.len() == verdicts.len(),
        forall|i: int| 0 <= i < verdicts.len() ==> !(#[trigger] verdicts[i] is Duplicate),
    ensures
        spec_retained(items, verdicts) == items,
    decreases items.len(),
{
    if items.len() > 0 {
        lemma_without_duplicates_all_stay(items.drop_last(), verdicts.drop_last());
    }
}

/// Where every item was found to be a duplicate, none stays.
pub proof fn lemma_only_duplicates_none_stays(items: Seq<JsonTree>, verdicts: Seq<Verdict>)
    requires
        items.len() == verdicts.len(),
        forall|i: int| 0 <= i < verdicts.len() ==> #[trigger] verdicts[i] is Duplicate,
    ensures
        spec_retained(items, verdicts).len() == 0,
    decreases items.len(),
{
    if items.len() > 0 {
        lemma_only_duplicates_none_stays(items.drop_last(), verdicts.drop_last());
    }
}

/// A body that is empty or does not begin with the array marker comes back
/// as it is, whatever the verdicts.
pub proof fn lemma_unmarked_body_passes(body: Seq<u8>, verdicts: Seq<Verdict>)
    requires
        body.len() == 0 || !spec_begins_with_array(body),
    ensures
        spec_filtered_body(body, verdicts) == body,
{
}

impl FilterReport {
    /// Counts the verdicts of one kind.
    pub fn count(&self, which: Verdict) -> (r: usize)
        ensures
            r == spec_count(self.verdicts@, which),
    {
        let mut n: usize = 0;
        let mut i: usize = 0;
        while i < self.verdicts.len()
            invariant
                i <= self.verdicts.len(),
                n <= i,
                n == spec_count(self.verdicts@.take(i as int), which),
            decreases self.verdicts.len() - i,
        {
            assert(self.verdicts@.take(i + 1).drop_last() =~= self.verdicts@.take(i as int));
            if self.verdicts[i] == which {
                n = n + 1;
            }
            i = i + 1;
        }
        assert(self.verdicts@.take(i as int) =~= self.verdicts@);
        n
    }

    /// The number of items that the response held.
    pub fn total(&self) -> (r: usize)
        ensures
            r == self.verdicts@.len(),
    {
        self.verdicts.len()
    }

    /// The number of items taken out as duplicates.
    pub fn filtered(&self) -> (r: usize)
        ensures
            r == spec_count(self.verdicts@, Verdict::Duplicate),
    {
        self.count(Verdict::Duplicate)
    }

    /// The number of items let through.
    pub fn passed(&self) -> (r: usize)
        ensures
            r == self.verdicts@.len() - spec_count(self.verdicts@, Verdict::Duplicate),
    {
        proof {
            lemma_count_bound(self.verdicts@, Verdict::Duplicate);
        }
        self.verdicts.len() - self.count(Verdict::Duplicate)
    }

    /// The number of items let through because the store failed on them.
    pub fn errors(&self) -> (r: usize)
        ensures
            r == spec_count(self.verdicts@, Verdict::StoreFailed),
    {
        self.count(Verdict::StoreFailed)
    }
}

/// Filters a timeline response: the items that the store has seen before
/// are taken out, all others stay, in their order.
///
/// A body that is empty, does not begin with the array marker or does not
/// parse is handed on as it is. A store failure on an item lets the item
/// through.
pub fn filter_timeline_response(body: &[u8], store: &SeenUriStore) -> (r: FilterReport)
    ensures
        spec_verdicts_fit(body@, r.verdicts@),
        r.body@ == spec_filtered_body(body@, r.verdicts@),
        spec_timeline_items(body@) is None ==> r.body@ == body@,
{
    let mut verdicts: Vec<Verdict> = Vec::new();
    if !begins_with_array(body) {
        return FilterReport { body: slice_to_vec(body), verdicts };
    }
    let items = match parse_json_array(body) {
        Some(items) => items,
        None => {
            return FilterReport { body: slice_to_vec(body), verdicts };
        },
    };
    let ghost all = spec_trees(items@);
    let ghost values = items@;
    let mut kept: Vec<JsonValue> = Vec::new();
    for item in it: items
        invariant
            it.seq() == values,
            all == spec_trees(values),
            verdicts@.len() == it.index(),
            spec_trees(kept@) == spec_retained(all.take(it.index()), verdicts@),
            forall|i: int|
                0 <= i < it.index() ==> ((#[trigger] verdicts@[i]) is NoIdentity <==> spec_dedup_uri(
                    all[i],
                ) is None),
    {
        let verdict = classify(store, extract_dedup_uri(&item));
        proof {
            let n = it.index();
            assert(all.take(n + 1).drop_last() =~= all.take(n));
            assert(verdicts@.push(verdict).drop_last() =~= verdicts@);
        }
        if verdict.keep() {
            kept.push(item);
        }
        verdicts.push(verdict);
    }
    assert(all.take(all.len() as int) =~= all);
    match serialize_json_array(&kept) {
        Some(bytes) => FilterReport { body: bytes, verdicts },
        None => FilterReport { body: slice_to_vec(body), verdicts },
    }
}

} // verus!
