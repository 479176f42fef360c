//! The Jelly API: its data types, the errors it reports, how requests are
//! addressed and how responses are read. Sending the requests is left to
//! the caller, which hands the library what came back.
use vstd::prelude::*;
use crate::text::{
    chars_of, push_char, concat, decimal_string, decimal_text, opt_text, owned, text_eq, trim_leading_slashes,
    without_leading_slashes,
};
use crate::urls::{url_join, url_join_result, UrlError};

verus! {

/// Declares `reqwest::Error`, the error of an HTTP request, so that it can
/// be carried; nothing is known of what it holds.
#[verifier::external_type_specification]
#[verifier::external_body]
pub struct ExReqwestError(reqwest::Error);

/// Declares `serde_json::Error`, the error of decoding JSON, so that it
/// can be carried; nothing is known of what it holds.
#[verifier::external_type_specification]
#[verifier::external_body]
pub struct ExJsonError(serde_json::Error);

/// Declares `serde_urlencoded::ser::Error`, the error of encoding a query
/// string, so that it can be carried; nothing is known of what it holds.
#[verifier::external_type_specification]
#[verifier::external_body]
pub struct ExUrlEncodingError(serde_urlencoded::ser::Error);

/// An error that the Jelly API reports in a failed response.
#[derive(Debug)]
pub enum JellyAPIError {
    EndpointNotFound,
    InvalidAPIToken,
    UnknownError(String),
}

/// What a `JellyAPIError` says.
pub enum ApiErrorView {
    EndpointNotFound,
    InvalidAPIToken,
    UnknownError(Seq<char>),
}

impl View for JellyAPIError {
    type V = ApiErrorView;

    open spec fn view(&self) -> ApiErrorView {
        match self {
            JellyAPIError::EndpointNotFound => ApiErrorView::EndpointNotFound,
            JellyAPIError::InvalidAPIToken => ApiErrorView::InvalidAPIToken,
            JellyAPIError::UnknownError(s) => ApiErrorView::UnknownError(s@),
        }
    }
}

/// The API error that a failed response with body `body` reports, given
/// the `error` member of the body's JSON object (`None` when the body is
/// not such an object).
pub open spec fn api_error_of(message: Option<Seq<char>>, body: Seq<char>) -> ApiErrorView {
    match message {
        Some(m) => if m == "Endpoint not found"@ {
            ApiErrorView::EndpointNotFound
        } else if m == "Invalid API token"@ {
            ApiErrorView::InvalidAPIToken
        } else {
            ApiErrorView::UnknownError(m)
        },
        None => ApiErrorView::UnknownError(body),
    }
}

/// The string that `serde_json::from_str` reads from `body` as the
/// one-element tuple `(String,)`: an array of exactly one string.
pub uninterp spec fn json_single_string(body: Seq<char>) -> Option<Seq<char>>;

/// The members of the JSON object that `serde_json::from_str` reads from
/// `body` as a `BTreeMap` of names to raw values: each name, with the JSON
/// text of its value, in the order of the names. `None` when `body` is
/// not such an object.
pub uninterp spec fn json_object_members(body: Seq<char>) -> Option<Seq<(Seq<char>, Seq<char>)>>;

/// The string that `serde_json::from_str` reads from the JSON text `text`.
pub uninterp spec fn json_string(text: Seq<char>) -> Option<Seq<char>>;

/// Reads `body` with `serde_json::from_str` as the tuple `(String,)`.
#[verifier::external_body]
fn read_single_string(body: &str) -> (r: Option<String>)
    ensures
        opt_text(r) == json_single_string(body@),
{
    serde_json::from_str::<(String,)>(body).ok().map(|t| t.0)
}

/// Reads `body` with `serde_json::from_str` as a `BTreeMap` from names to
/// `serde_json::value::RawValue`s, and hands out each name with its raw
/// value's text.
#[verifier::external_body]
fn read_object_members(body: &str) -> (r: Option<Vec<(String, String)>>)
    ensures
        match r {
            Some(v) => json_object_members(body@) == Some(pairs_view(v@)),
            None => json_object_members(body@) is None,
        },
{
    let members: std::collections::BTreeMap<String, &serde_json::value::RawValue> = serde_json::from_str(body).ok()?;
    Some(members.into_iter().map(|(name, raw)| (name, String::from(raw.get()))).collect())
}

/// Reads the JSON text `text` with `serde_json::from_str` as a `String`.
#[verifier::external_body]
fn read_string(text: &str) -> (r: Option<String>)
    ensures
        opt_text(r) == json_string(text@),
{
    serde_json::from_str::<String>(text).ok()
}

/// The value text of the first member named `name`.
pub open spec fn member_text(members: Seq<(Seq<char>, Seq<char>)>, name: Seq<char>) -> Option<Seq<char>>
    decreases members.len(),
{
    if members.len() == 0 {
        None
    } else if members[0].0 == name {
        Some(members[0].1)
    } else {
        member_text(members.drop_first(), name)
    }
}

/// The message of a JSON error body, read as `serde_json` reads the record
/// `{ error: String }`: from an array, its one element, which must be a
/// string; from an object, its member `error`, which must be a string
/// (other members are skipped). `None` for anything else.
pub open spec fn json_error_member(body: Seq<char>) -> Option<Seq<char>> {
    match json_single_string(body) {
        Some(t) => Some(t),
        None => match json_object_members(body) {
            Some(members) => match member_text(members, "error"@) {
                Some(raw) => json_string(raw),
                None => None,
            },
            None => None,
        },
    }
}

/// The value text of the member named `name`, if any.
fn find_member(members: &Vec<(String, String)>, name: &str) -> (r: Option<String>)
    ensures
        opt_text(r) == member_text(pairs_view(members@), name@),
{
    let ghost view = pairs_view(members@);
    let mut i: usize = 0;
    assert(view.skip(0) =~= view);
    while i < members.len()
        invariant
            i <= members@.len(),
            view == pairs_view(members@),
            member_text(view, name@) == member_text(view.skip(i as int), name@),
        decreases members@.len() - i,
    {
        assert(view.skip(i as int)[0] == (members@[i as int].0@, members@[i as int].1@));
        if text_eq(members[i].0.as_str(), name) {
            return Some(owned(members[i].1.as_str()));
        }
        assert(view.skip(i as int).drop_first() =~= view.skip(i + 1));
        i = i + 1;
    }
    assert(view.skip(i as int).len() == 0);
    None
}

/// The message of the JSON error body `body`.
pub fn json_error_message(body: &str) -> (r: Option<String>)
    ensures
        opt_text(r) == json_error_member(body@),
{
    match read_single_string(body) {
        Some(t) => Some(t),
        None => match read_object_members(body) {
            Some(members) => match find_member(&members, "error") {
                Some(raw) => read_string(raw.as_str()),
                None => None,
            },
            None => None,
        },
    }
}

impl JellyAPIError {
    /// The API error for a failed response whose body is `body` and whose
    /// JSON `error` member is `message`.
    pub fn from_error_message(message: Option<String>, body: &str) -> (r: JellyAPIError)
        ensures
            r@ == api_error_of(opt_text(message), body@),
    {
        match message {
            Some(m) => {
                if text_eq(m.as_str(), "Endpoint not found") {
                    JellyAPIError::EndpointNotFound
                } else if text_eq(m.as_str(), "Invalid API token") {
                    JellyAPIError::InvalidAPIToken
                } else {
                    JellyAPIError::UnknownError(m)
                }
            },
            None => JellyAPIError::UnknownError(owned(body)),
        }
    }

    /// Reads the API error out of the body of a failed response.
    pub fn from_raw_body(body: &str) -> (r: JellyAPIError)
        ensures
            r@ == api_error_of(json_error_member(body@), body@),
    {
        let message = json_error_message(body);
        JellyAPIError::from_error_message(message, body)
    }

    /// The message this error displays.
    pub fn message(&self) -> (r: String)
        ensures
            r@ == match self@ {
                ApiErrorView::EndpointNotFound => "endpoint not found"@,
                ApiErrorView::InvalidAPIToken => "invalid API token"@,
                ApiErrorView::UnknownError(m) => m,
            },
    {
        match self {
            JellyAPIError::EndpointNotFound => owned("endpoint not found"),
            JellyAPIError::InvalidAPIToken => owned("invalid API token"),
            JellyAPIError::UnknownError(m) => owned(m.as_str()),
        }
    }
}

/// A label attached to a conversation.
#[derive(Debug)]
pub struct ConversationLabel {
    pub id: String,
    pub name: String,
    pub color: String,
}

/// Where a conversation stands.
#[derive(Debug, Clone, Copy, PartialEq, Eq, Structural)]
pub enum ConversationStatus {
    Open,
    Archived,
    Snoozed,
    Spam,
    Trash,
}

/// The name under which the API writes each status.
pub open spec fn status_text(s: ConversationStatus) -> Seq<char> {
    match s {
        ConversationStatus::Open => "open"@,
        ConversationStatus::Archived => "archived"@,
        ConversationStatus::Snoozed => "snoozed"@,
        ConversationStatus::Spam => "spam"@,
        ConversationStatus::Trash => "trash"@,
    }
}

impl ConversationStatus {
    /// The name under which the API writes this status.
    pub fn as_str(&self) -> (r: &'static str)
        ensures
            r@ == status_text(*self),
    {
        match self {
            ConversationStatus::Open => "open",
            ConversationStatus::Archived => "archived",
            ConversationStatus::Snoozed => "snoozed",
            ConversationStatus::Spam => "spam",
            ConversationStatus::Trash => "trash",
        }
    }
}

/// Who sent a message.
#[derive(Debug)]
pub enum Sender {
    Member { id: u64, name: String, email: String },
    Contact { email: String },
    System,
}

/// Filters and paging for a listing of conversations.
#[derive(Debug, Clone)]
pub struct ConversationListOptions {
    pub status: Option<ConversationStatus>,
    pub label_id: Option<String>,
    pub mailbox_id: Option<String>,
    pub limit: Option<u32>,
    pub cursor: Option<String>,
}

/// What a `ConversationListOptions` asks for.
pub struct ListOptionsView {
    pub status: Option<ConversationStatus>,
    pub label_id: Option<Seq<char>>,
    pub mailbox_id: Option<Seq<char>>,
    pub limit: Option<u32>,
    pub cursor: Option<Seq<char>>,
}

impl View for ConversationListOptions {
    type V = ListOptionsView;

    open spec fn view(&self) -> ListOptionsView {
        ListOptionsView {
            status: self.status,
            label_id: opt_text(self.label_id),
            mailbox_id: opt_text(self.mailbox_id),
            limit: self.limit,
            cursor: opt_text(self.cursor),
        }
    }
}

/// The same listing, whatever page it is on.
pub open spec fn same_filters(a: ListOptionsView, b: ListOptionsView) -> bool {
    &&& a.status == b.status
    &&& a.label_id == b.label_id
    &&& a.mailbox_id == b.mailbox_id
    &&& a.limit == b.limit
}

/// The query pair `key=value`, if there is a value.
pub open spec fn optional_pair(key: Seq<char>, value: Option<Seq<char>>) -> Seq<(Seq<char>, Seq<char>)> {
    match value {
        Some(v) => seq![(key, v)],
        None => Seq::empty(),
    }
}

/// The query string pairs of a listing, in field order, with absent
/// fields left out, as `serde_urlencoded` writes the options.
pub open spec fn list_query(o: ListOptionsView) -> Seq<(Seq<char>, Seq<char>)> {
    optional_pair(
        "status"@,
        match o.status {
            Some(s) => Some(status_text(s)),
            None => None,
        },
    ) + optional_pair("label_id"@, o.label_id) + optional_pair("mailbox_id"@, o.mailbox_id)
        + optional_pair(
        "limit"@,
        match o.limit {
            Some(n) => Some(decimal_text(n as nat)),
            None => None,
        },
    ) + optional_pair("cursor"@, o.cursor)
}

/// Pairs of texts (query pairs, or names with values), as texts.
pub open spec fn pairs_view(v: Seq<(String, String)>) -> Seq<(Seq<char>, Seq<char>)> {
    v.map_values(|p: (String, String)| (p.0@, p.1@))
}

/// A copy of an optional string.
pub fn copy_text(o: &Option<String>) -> (r: Option<String>)
    ensures
        opt_text(r) == opt_text(*o),
{
    match o {
        Some(s) => Some(owned(s.as_str())),
        None => None,
    }
}

/// Appends `key=value` to `pairs` when there is a value.
fn push_pair(pairs: &mut Vec<(String, String)>, key: &str, value: Option<String>)
    ensures
        pairs_view(final(pairs)@) == pairs_view(old(pairs)@) + optional_pair(key@, opt_text(value)),
{
    let ghost before = old(pairs)@;
    match value {
        Some(v) => {
            pairs.push((owned(key), v));
            assert(pairs_view(pairs@) =~= pairs_view(before) + optional_pair(key@, opt_text(value)));
        },
        None => {
            assert(pairs_view(pairs@) =~= pairs_view(before) + optional_pair(key@, opt_text(value)));
        },
    }
}

impl ConversationListOptions {
    /// No filter, the first page.
    pub fn none() -> (r: ConversationListOptions)
        ensures
            r.status is None,
            r.label_id is None,
            r.mailbox_id is None,
            r.limit is None,
            r.cursor is None,
    {
        ConversationListOptions { status: None, label_id: None, mailbox_id: None, limit: None, cursor: None }
    }

    /// A copy of these options.
    pub fn copied(&self) -> (r: ConversationListOptions)
        ensures
            r@ == self@,
    {
        ConversationListOptions {
            status: self.status,
            label_id: copy_text(&self.label_id),
            mailbox_id: copy_text(&self.mailbox_id),
            limit: self.limit,
            cursor: copy_text(&self.cursor),
        }
    }

    /// The query string pairs that ask the API for this listing.
    pub fn query_pairs(&self) -> (r: Vec<(String, String)>)
        ensures
            pairs_view(r@) == list_query(self@),
    {
        let mut pairs: Vec<(String, String)> = Vec::new();
        assert(pairs_view(pairs@) =~= Seq::empty());
        let status = match self.status {
            Some(s) => Some(owned(s.as_str())),
            None => None,
        };
        push_pair(&mut pairs, "status", status);
        push_pair(&mut pairs, "label_id", copy_text(&self.label_id));
        push_pair(&mut pairs, "mailbox_id", copy_text(&self.mailbox_id));
        let limit = match self.limit {
            Some(n) => Some(decimal_string(n as u64)),
            None => None,
        };
        push_pair(&mut pairs, "limit", limit);
        push_pair(&mut pairs, "cursor", copy_text(&self.cursor));
        pairs
    }
}

impl Default for ConversationListOptions {
    fn default() -> (r: ConversationListOptions)
        ensures
            r.status is None,
            r.label_id is None,
            r.mailbox_id is None,
            r.limit is None,
            r.cursor is None,
    {
        ConversationListOptions::none()
    }
}

/// An error from talking to the Jelly API.
#[derive(Debug)]
pub enum JellyError {
    /// The HTTP request could not be made or its body not read.
    Http(reqwest::Error),
    /// A successful response whose body is not what the endpoint returns.
    Decode { endpoint: String, body: String, source: serde_json::Error },
    /// A response whose status is not a success (`status` is outside
    /// 200..=299).
    Api { status: u16, endpoint: String, body: String, source: JellyAPIError },
    /// The API key cannot stand in an HTTP header.
    InvalidHeader,
    /// An endpoint's URL cannot be built.
    InvalidUrl(UrlError),
    /// The query string cannot be encoded.
    UrlEncoding(serde_urlencoded::ser::Error),
}

/// A byte that may stand in an HTTP header value: visible ASCII, space,
/// tab, or any byte of a non-ASCII character.
pub open spec fn header_byte_ok(b: u8) -> bool {
    (b >= 32 && b != 127) || b == 9
}

/// Every byte of `bytes` may stand in an HTTP header value.
pub open spec fn header_value_ok(bytes: Seq<u8>) -> bool {
    forall|i: int| 0 <= i < bytes.len() ==> header_byte_ok(#[trigger] bytes[i])
}

/// Calls `reqwest::header::HeaderValue::from_str`, which accepts a text
/// exactly when each of its UTF-8 bytes is a header byte.
#[verifier::external_body]
fn header_value_accepted(s: &str) -> (r: bool)
    ensures
        r == header_value_ok(vstd::utf8::encode_utf8(s@)),
{
    reqwest::header::HeaderValue::from_str(s).is_ok()
}

/// The value of the `Authorization` header that carries `api_key`.
pub open spec fn bearer(api_key: Seq<char>) -> Seq<char> {
    "Bearer "@ + api_key
}

/// Whether `status` is a success status (2xx).
pub open spec fn is_success(status: u16) -> bool {
    200 <= status <= 299
}

/// Where the query or the fragment of a URL's serialization starts (its
/// length when it has neither). Neither `?` nor `#` stands unescaped in
/// the serialization before them.
pub open spec fn query_start(url: Seq<char>) -> nat
    decreases url.len(),
{
    if url.len() == 0 {
        0
    } else if url[0] == '?' || url[0] == '#' {
        0
    } else {
        1 + query_start(url.drop_first())
    }
}

/// The URL that endpoints are joined to, for the API whose base URL is
/// `url`: the base URL without its query and fragment, taken as a
/// directory, so that a `/` is added when its path does not end with one.
/// The path of the base URL is kept.
pub open spec fn api_base_of(url: Seq<char>) -> Seq<char> {
    let path = url.take(query_start(url) as int);
    if path.len() > 0 && path.last() == '/' {
        path
    } else {
        path + "/"@
    }
}

/// A base URL can take paths: joining `/api/` to it succeeds. It fails
/// only for a URL that cannot be a base (such as `mailto:…`).
pub open spec fn base_takes_paths(url: Seq<char>) -> bool {
    url_join_result(url, "/api/"@) is Ok
}

/// What making a client for `base_url` with `api_key` gives: the client,
/// when the key can stand in an `Authorization` header; otherwise the
/// error that says so.
pub open spec fn client_made(r: Result<JellyClient, JellyError>, base_url: Seq<char>, api_key: Seq<char>) -> bool {
    match r {
        Ok(c) => {
            &&& header_value_ok(vstd::utf8::encode_utf8(bearer(api_key)))
            &&& c.authorization_text() == bearer(api_key)
            &&& c.base_url_text() == api_base_of(base_url)
        },
        Err(e) => {
            &&& !header_value_ok(vstd::utf8::encode_utf8(bearer(api_key)))
            &&& e is InvalidHeader
        },
    }
}

/// The URL that endpoints are joined to, for the API whose base URL is
/// `url`.
fn api_base(url: &str) -> (r: String)
    ensures
        r@ == api_base_of(url@),
{
    let v = chars_of(url);
    let mut base = String::new();
    let mut i: usize = 0;
    assert(v@.skip(0) =~= v@);
    while i < v.len() && v[i] != '?' && v[i] != '#'
        invariant
            v@ == url@,
            i <= v@.len(),
            base@ == v@.take(i as int),
            query_start(v@) == i + query_start(v@.skip(i as int)),
        decreases v@.len() - i,
    {
        assert(v@.skip(i as int).drop_first() =~= v@.skip(i + 1));
        push_char(&mut base, v[i]);
        i = i + 1;
        assert(base@ =~= v@.take(i as int));
    }
    if i == v.len() {
        assert(v@.skip(i as int) =~= Seq::<char>::empty());
    }
    assert(query_start(v@) == i);
    if i > 0 && v[i - 1] == '/' {
        assert(base@.last() == v@[i - 1]);
        base
    } else {
        proof {
            reveal_strlit("/");
        }
        let ghost path = base@;
        push_char(&mut base, '/');
        assert(base@ =~= path + "/"@);
        base
    }
}

/// The address of the Jelly API and the credentials for it.
pub struct JellyClient {
    base_url: String,
    authorization: String,
}

impl JellyClient {
    /// The URL every endpoint is joined to.
    pub closed spec fn base_url_text(&self) -> Seq<char> {
        self.base_url@
    }

    /// The value of the `Authorization` header of every request.
    pub closed spec fn authorization_text(&self) -> Seq<char> {
        self.authorization@
    }

    /// A client for the API whose base URL is `base_url` (a URL's
    /// serialization), authenticating with `api_key`. Endpoints are
    /// addressed under the base URL, whatever its path; its query and
    /// fragment are dropped. A base URL that cannot take paths is refused
    /// where the key is usable (`try_new` tests it).
    pub fn new(base_url: &str, api_key: &str) -> (r: Result<JellyClient, JellyError>)
        requires
            header_value_ok(vstd::utf8::encode_utf8(bearer(api_key@))) ==> base_takes_paths(base_url@),
        ensures
            client_made(r, base_url@, api_key@),
    {
        let authorization = concat("Bearer ", api_key);
        if !header_value_accepted(authorization.as_str()) {
            return Err(JellyError::InvalidHeader);
        }
        Ok(JellyClient { base_url: api_base(base_url), authorization })
    }

    /// Makes a client as `new` does, after testing that the base URL can
    /// take paths; `None` when the key is usable and the base URL cannot
    /// take paths.
    pub fn try_new(base_url: &str, api_key: &str) -> (r: Option<Result<JellyClient, JellyError>>)
        ensures
            match r {
                None => header_value_ok(vstd::utf8::encode_utf8(bearer(api_key@))) && !base_takes_paths(
                    base_url@,
                ),
                Some(made) => (header_value_ok(vstd::utf8::encode_utf8(bearer(api_key@)))
                    ==> base_takes_paths(base_url@)) && client_made(made, base_url@, api_key@),
            },
    {
        let authorization = concat("Bearer ", api_key);
        if header_value_accepted(authorization.as_str()) {
            match url_join(base_url, "/api/") {
                Ok(_) => {},
                Err(_) => return None,
            }
        }
        Some(JellyClient::new(base_url, api_key))
    }

    /// A copy of this client.
    pub fn copied(&self) -> (r: JellyClient)
        ensures
            r.base_url_text() == self.base_url_text(),
            r.authorization_text() == self.authorization_text(),
    {
        JellyClient { base_url: owned(self.base_url.as_str()), authorization: owned(self.authorization.as_str()) }
    }

    /// The URL every endpoint is joined to.
    pub fn base_url(&self) -> (r: &str)
        ensures
            r@ == self.base_url_text(),
    {
        self.base_url.as_str()
    }

    /// The value of the `Authorization` header.
    pub fn authorization(&self) -> (r: &str)
        ensures
            r@ == self.authorization_text(),
    {
        self.authorization.as_str()
    }

    /// The URL of the endpoint at `path`; leading slashes of `path` are
    /// dropped, so that the path is taken relative to the API's base URL.
    pub fn endpoint(&self, path: &str) -> (r: Result<String, JellyError>)
        ensures
            match url_join_result(self.base_url_text(), without_leading_slashes(path@)) {
                Ok(u) => (r matches Ok(s) && s@ == u),
                Err(e) => (r matches Err(JellyError::InvalidUrl(f)) && f == e),
            },
    {
        let relative = trim_leading_slashes(path);
        match url_join(self.base_url.as_str(), relative.as_str()) {
            Ok(u) => Ok(u),
            Err(e) => Err(JellyError::InvalidUrl(e)),
        }
    }

    /// The path that lists conversations.
    pub fn conversations_path() -> (r: String)
        ensures
            r@ == "/conversations"@,
    {
        owned("/conversations")
    }

    /// The path of the conversation `id`.
    pub fn conversation_path(id: &str) -> (r: String)
        ensures
            r@ == "/conversations/"@ + id@,
    {
        concat("/conversations/", id)
    }

    /// Reads the response to a request of `endpoint`: a success status
    /// gives the body back for decoding; any other status is an API error
    /// read out of the body.
    pub fn read_response(endpoint: String, status: u16, body: String) -> (r: Result<String, JellyError>)
        ensures
            match r {
                Ok(b) => is_success(status) && b@ == body@,
                Err(JellyError::Api { status: s, endpoint: e, body: b, source }) => {
                    &&& !is_success(status)
                    &&& s == status
                    &&& e@ == endpoint@
                    &&& b@ == body@
                    &&& source@ == api_error_of(json_error_member(body@), body@)
                },
                Err(_) => false,
            },
    {
        if 200 <= status && status <= 299 {
            Ok(body)
        } else {
            let source = JellyAPIError::from_raw_body(body.as_str());
            Err(JellyError::Api { status, endpoint, body, source })
        }
    }
}

/// The fields of a listing contribute their query pairs each on its own:
/// a cursor `c` always asks for `cursor=c` (last), and a limit `n` for
/// `limit=n` in decimal, whatever the other fields are; a listing that
/// names only a cursor asks for exactly that; a listing without a cursor
/// asks for no `cursor` pair; and there is one pair per field present.
pub proof fn law_query_fields_are_independent(o: ListOptionsView, c: Seq<char>, n: u32)
    ensures
        o.cursor == Some(c) ==> list_query(o).contains(("cursor"@, c)) && list_query(o).last() == (
        "cursor"@, c),
        o.limit == Some(n) ==> list_query(o).contains(("limit"@, decimal_text(n as nat))),
        list_query(
            ListOptionsView { status: None, label_id: None, mailbox_id: None, limit: None, cursor: Some(c) },
        ) == seq![("cursor"@, c)],
        o.cursor is None ==> forall|i: int| 0 <= i < list_query(o).len() ==> #[trigger] list_query(o)[i].0 != "cursor"@,
        list_query(o).len() == (if o.status is Some { 1int } else { 0 }) + (if o.label_id is Some { 1int } else { 0 })
            + (if o.mailbox_id is Some { 1int } else { 0 }) + (if o.limit is Some { 1int } else { 0 })
            + (if o.cursor is Some { 1int } else { 0 }),
{
    reveal_strlit("cursor");
    reveal_strlit("status");
    reveal_strlit("label_id");
    reveal_strlit("mailbox_id");
    reveal_strlit("limit");
    let q = list_query(o);
    let head = optional_pair(
        "status"@,
        match o.status {
            Some(s) => Some(status_text(s)),
            None => None,
        },
    ) + optional_pair("label_id"@, o.label_id) + optional_pair("mailbox_id"@, o.mailbox_id);
    let lim = optional_pair(
        "limit"@,
        match o.limit {
            Some(k) => Some(decimal_text(k as nat)),
            None => None,
        },
    );
    assert(q == head + lim + optional_pair("cursor"@, o.cursor));
    if o.cursor == Some(c) {
        assert(q[q.len() - 1] == ("cursor"@, c));
    }
    if o.limit == Some(n) {
        assert(q[head.len() as int] == ("limit"@, decimal_text(n as nat)));
    }
    let only = ListOptionsView { status: None, label_id: None, mailbox_id: None, limit: None, cursor: Some(c) };
    assert(list_query(only) =~= seq![("cursor"@, c)]);
    assert("status"@[0] != "cursor"@[0]);
    assert("label_id"@[0] != "cursor"@[0]);
    assert("mailbox_id"@[0] != "cursor"@[0]);
    assert("limit"@[0] != "cursor"@[0]);
    if o.cursor is None {
        assert forall|i: int| 0 <= i < q.len() implies #[trigger] q[i].0 != "cursor"@ by {
            assert(q[i].0 == "status"@ || q[i].0 == "label_id"@ || q[i].0 == "mailbox_id"@ || q[i].0 == "limit"@);
        }
    }
}

/// The API error of a message is `EndpointNotFound` exactly for the
/// message "Endpoint not found", `InvalidAPIToken` exactly for "Invalid API
/// token", and for every other message that message itself; a body
/// without a message stands for itself. So a message that merely ends in
/// "not found", such as "Conversation not found", is kept as it is.
pub proof fn law_api_errors_keep_their_message(m: Seq<char>, body: Seq<char>)
    ensures
        (api_error_of(Some(m), body) == ApiErrorView::EndpointNotFound) <==> m == "Endpoint not found"@,
        (api_error_of(Some(m), body) == ApiErrorView::InvalidAPIToken) <==> m == "Invalid API token"@,
        m != "Endpoint not found"@ && m != "Invalid API token"@ ==> api_error_of(Some(m), body)
            == ApiErrorView::UnknownError(m),
        api_error_of(None, body) == ApiErrorView::UnknownError(body),
        api_error_of(Some("Conversation not found"@), body) == ApiErrorView::UnknownError(
            "Conversation not found"@,
        ),
{
    reveal_strlit("Endpoint not found");
    reveal_strlit("Invalid API token");
    reveal_strlit("Conversation not found");
    assert("Conversation not found"@[0] != "Endpoint not found"@[0]);
    assert("Conversation not found"@.len() != "Invalid API token"@.len());
}

/// A path names the same endpoint with or without a leading slash: the
/// slashes `endpoint` drops are all the leading ones.
pub proof fn law_endpoint_ignores_leading_slash(path: Seq<char>)
    ensures
        without_leading_slashes("/"@ + path) == without_leading_slashes(path),
{
    reveal_strlit("/");
    let p = "/"@ + path;
    assert(p.len() > 0 && p[0] == '/');
    assert(p.drop_first() =~= path);
}

/// The sum of the page sizes `sizes`.
pub open spec fn total(sizes: Seq<nat>) -> nat
    decreases sizes.len(),
{
    if sizes.len() == 0 {
        0
    } else {
        total(sizes.drop_last()) + sizes.last()
    }
}

/// A page's `next_cursor` leads on: it is present and not empty.
pub open spec fn cursor_leads_on(next_cursor: Option<Seq<char>>) -> bool {
    next_cursor matches Some(c) && c.len() > 0
}

/// `discovered` conversations are at least the most the walk may discover.
pub open spec fn limit_reached(max_conversations: Option<u32>, discovered: nat) -> bool {
    max_conversations matches Some(m) && discovered >= m
}

/// Where a walk through a listing stands: the options of the next
/// request, whether it has stopped, how many conversations it has
/// discovered, its limit, and the size of each page read.
pub struct WalkState {
    pub request: ListOptionsView,
    pub done: bool,
    pub discovered: nat,
    pub limit: Option<u32>,
    pub sizes: Seq<nat>,
}

/// A walk through the listing `options` that has read no page yet.
pub open spec fn walk_start(options: ListOptionsView, limit: Option<u32>) -> WalkState {
    WalkState { request: options, done: false, discovered: 0, limit, sizes: Seq::empty() }
}

/// The walk after a page of `size` conversations, naming `next_cursor`,
/// answered its last request: it stops when the cursor does not lead on or
/// the limit is reached, and otherwise asks next for the page at the
/// cursor. A stopped walk stays as it is.
pub open spec fn walk_step(s: WalkState, size: nat, next_cursor: Option<Seq<char>>) -> WalkState {
    if s.done {
        s
    } else {
        let discovered = s.discovered + size;
        let stop = !cursor_leads_on(next_cursor) || limit_reached(s.limit, discovered);
        WalkState {
            request: if stop {
                s.request
            } else {
                ListOptionsView {
                    status: s.request.status,
                    label_id: s.request.label_id,
                    mailbox_id: s.request.mailbox_id,
                    limit: s.request.limit,
                    cursor: next_cursor,
                }
            },
            done: stop,
            discovered,
            limit: s.limit,
            sizes: s.sizes.push(size),
        }
    }
}

/// A walk through the pages of a listing of conversations: which page to
/// ask for next, how many conversations the pages so far held, and when
/// to stop. The walk stops after a page without a next cursor, or, with a
/// limit, after the page on which the conversations discovered reach it.
pub struct PageWalk {
    request: ConversationListOptions,
    finished: bool,
    discovered: usize,
    max_conversations: Option<u32>,
    sizes: Ghost<Seq<nat>>,
}

impl PageWalk {
    /// The options of the next request.
    pub closed spec fn request_view(&self) -> ListOptionsView {
        self.request@
    }

    /// The walk has stopped.
    pub closed spec fn done(&self) -> bool {
        self.finished
    }

    /// How many conversations the pages so far held.
    pub closed spec fn discovered_count(&self) -> nat {
        self.discovered as nat
    }

    /// The most conversations the walk discovers before it stops, if any.
    pub closed spec fn limit(&self) -> Option<u32> {
        self.max_conversations
    }

    /// The number of conversations on each page so far, in order.
    pub closed spec fn page_sizes(&self) -> Seq<nat> {
        self.sizes@
    }

    /// Where the walk stands.
    pub closed spec fn state(&self) -> WalkState {
        WalkState {
            request: self.request@,
            done: self.finished,
            discovered: self.discovered as nat,
            limit: self.max_conversations,
            sizes: self.sizes@,
        }
    }

    /// The count of discovered conversations is the sum of the page sizes.
    pub closed spec fn wf(&self) -> bool {
        self.discovered == total(self.sizes@)
    }

    /// A walk through the listing `options`, from the page that `options`
    /// names, discovering at most about `max_conversations` conversations.
    pub fn start(options: &ConversationListOptions, max_conversations: Option<u32>) -> (r: PageWalk)
        ensures
            r.wf(),
            r.state() == walk_start(options@, max_conversations),
            r.request_view() == options@,
            !r.done(),
            r.page_sizes() == Seq::<nat>::empty(),
            r.discovered_count() == 0,
            r.limit() == max_conversations,
    {
        PageWalk {
            request: options.copied(),
            finished: false,
            discovered: 0,
            max_conversations,
            sizes: Ghost(Seq::empty()),
        }
    }

    /// The options of the next page to ask for, or `None` once the walk
    /// has stopped.
    pub fn next_request(&self) -> (r: Option<ConversationListOptions>)
        ensures
            r is None <==> self.done(),
            r matches Some(o) ==> o@ == self.request_view(),
    {
        if self.finished {
            None
        } else {
            Some(self.request.copied())
        }
    }

    /// Whether the walk has stopped.
    pub fn is_finished(&self) -> (r: bool)
        ensures
            r == self.done(),
    {
        self.finished
    }

    /// How many conversations the pages so far held.
    pub fn discovered(&self) -> (r: usize)
        ensures
            r == self.discovered_count(),
    {
        self.discovered
    }

    /// Takes in the page that answered the last request: it held
    /// `conversations` conversations and named `next_cursor` as the cursor
    /// of the page after it.
    pub fn record_page(&mut self, conversations: usize, next_cursor: Option<String>)
        requires
            old(self).wf(),
            !old(self).done(),
            old(self).discovered_count() + conversations <= usize::MAX,
        ensures
            final(self).wf(),
            final(self).state() == walk_step(old(self).state(), conversations as nat, opt_text(next_cursor)),
            final(self).page_sizes() == old(self).page_sizes().push(conversations as nat),
            final(self).discovered_count() == old(self).discovered_count() + conversations,
            final(self).limit() == old(self).limit(),
            final(self).done() == (!cursor_leads_on(opt_text(next_cursor)) || limit_reached(
                old(self).limit(),
                final(self).discovered_count(),
            )),
            same_filters(final(self).request_view(), old(self).request_view()),
            !final(self).done() ==> final(self).request_view().cursor == opt_text(next_cursor),
    {
        let discovered: usize = self.discovered + conversations;
        let ghost sizes = self.sizes@.push(conversations as nat);
        assert(sizes.drop_last() =~= self.sizes@);
        let reached = match self.max_conversations {
            Some(m) => discovered >= m as usize,
            None => false,
        };
        let leads_on = match &next_cursor {
            Some(c) => c.as_str().unicode_len() > 0,
            None => false,
        };
        self.discovered = discovered;
        self.sizes = Ghost(sizes);
        if leads_on && !reached {
            self.request.cursor = next_cursor;
        } else {
            self.finished = true;
        }
    }
}

/// Appends the conversations of a page to those gathered so far.
pub fn gather_page<T>(gathered: &mut Vec<T>, page: Vec<T>)
    ensures
        final(gathered)@ == old(gathered)@ + page@,
{
    let mut page = page;
    gathered.append(&mut page);
}

/// The page sizes and next cursors of a listing's pages, as the walk reads
/// them.
pub open spec fn page_answers<T>(pages: Seq<(Seq<T>, Option<Seq<char>>)>) -> Seq<(nat, Option<Seq<char>>)> {
    pages.map_values(|p: (Seq<T>, Option<Seq<char>>)| (p.0.len(), p.1))
}

/// The conversations on each of a listing's pages.
pub open spec fn page_items<T>(pages: Seq<(Seq<T>, Option<Seq<char>>)>) -> Seq<Seq<T>> {
    pages.map_values(|p: (Seq<T>, Option<Seq<char>>)| p.0)
}

/// The walk after it has been given the answers `answers` in turn; answers
/// given after it stopped change nothing.
pub open spec fn walk_run(s: WalkState, answers: Seq<(nat, Option<Seq<char>>)>) -> WalkState
    decreases answers.len(),
{
    if answers.len() == 0 {
        s
    } else {
        walk_run(walk_step(s, answers[0].0, answers[0].1), answers.drop_first())
    }
}

/// A stopped walk stays as it is.
proof fn lemma_run_stopped(s: WalkState, answers: Seq<(nat, Option<Seq<char>>)>)
    requires
        s.done,
    ensures
        walk_run(s, answers) == s,
    decreases answers.len(),
{
    if answers.len() > 0 {
        lemma_run_stopped(walk_step(s, answers[0].0, answers[0].1), answers.drop_first());
    }
}

/// Running a walk on pages reads a prefix of them, and counts the
/// conversations on that prefix.
proof fn lemma_run_counts<T>(s: WalkState, pages: Seq<(Seq<T>, Option<Seq<char>>)>)
    ensures
        walk_run(s, page_answers(pages)).sizes.len() >= s.sizes.len(),
        walk_run(s, page_answers(pages)).sizes.len() - s.sizes.len() <= pages.len(),
        walk_run(s, page_answers(pages)).discovered == s.discovered + page_items(
            pages.take(walk_run(s, page_answers(pages)).sizes.len() - s.sizes.len()),
        ).flatten().len(),
    decreases pages.len(),
{
    let end = walk_run(s, page_answers(pages));
    if pages.len() == 0 {
        assert(page_items(pages.take(0)) =~= Seq::<Seq<T>>::empty());
    } else if s.done {
        lemma_run_stopped(s, page_answers(pages));
        assert(page_items(pages.take(0)) =~= Seq::<Seq<T>>::empty());
    } else {
        let rest = pages.drop_first();
        let s1 = walk_step(s, pages[0].0.len(), pages[0].1);
        assert(page_answers(pages)[0] == (pages[0].0.len(), pages[0].1));
        assert(page_answers(pages).drop_first() =~= page_answers(rest));
        lemma_run_counts(s1, rest);
        let k1 = end.sizes.len() - s1.sizes.len();
        let read = page_items(pages.take(k1 + 1));
        assert(read.first() == pages[0].0);
        assert(read.drop_first() =~= page_items(rest.take(k1)));
    }
}

/// Counting a listing and gathering it agree. Whatever pages the API
/// answers, the walk reads the same pages whichever it is used for (the
/// requests depend only on the answers), it stops within them, and the
/// number it counts is the number of conversations on the pages read,
/// that is, the length of what gathering those pages in order yields.
pub proof fn law_count_matches_gathered<T>(
    options: ListOptionsView,
    max_conversations: Option<u32>,
    pages: Seq<(Seq<T>, Option<Seq<char>>)>,
)
    ensures
        walk_run(walk_start(options, max_conversations), page_answers(pages)).sizes.len() <= pages.len(),
        walk_run(walk_start(options, max_conversations), page_answers(pages)).discovered == page_items(
            pages.take(
                walk_run(walk_start(options, max_conversations), page_answers(pages)).sizes.len() as int,
            ),
        ).flatten().len(),
{
    lemma_run_counts(walk_start(options, max_conversations), pages);
}

} // verus!
