//! The optional decision-logging integration.
//!
//! Decisions can be posted to an external endeavor-tracking service. The
//! HTTP requests themselves are I/O and live with the caller; this module
//! holds the verified pieces around them: the client and its configuration,
//! the request URLs and bodies, the readers of the service's responses, and
//! the line that names the target endeavor in the configuration file.

use vstd::prelude::*;
use vstd::string::*;

use crate::json::{
    json_as_array, json_as_string, json_doc, json_get, json_is_null, json_is_object, json_of,
    obj_member, opt_string_member_matches, opt_string_member_ok, parse_json, JsonData,
};
use crate::text::{
    find_from, find_pat, json_escape_str, json_string_lit, lemma_find_from_some, match_at,
    matches_at, strip_cr, trim_char_spec, trim_char_str, trim_spec, trim_str,
};

verus! {

/// Where and how to reach the service.
#[derive(Debug)]
pub struct OhConfig {
    pub api_url: String,
    pub api_key: String,
}

impl Clone for OhConfig {
    fn clone(&self) -> (r: Self)
        ensures
            r == *self,
    {
        OhConfig { api_url: self.api_url.clone(), api_key: self.api_key.clone() }
    }
}

/// Error from service operations.
#[derive(Debug)]
pub enum OhError {
    /// The HTTP request itself failed.
    RequestFailed(String),
    /// The response could not be read.
    ParseError(String),
    /// The integration is not configured; not a failure, just absent.
    NotConfigured,
    /// The service answered with an error status and body.
    ApiError(u16, String),
}

/// A personal or shared space in the service.
#[derive(Debug, PartialEq)]
pub struct OhContext {
    pub id: String,
    pub name: String,
    pub description: Option<String>,
}

/// A mission, aim, initiative or task in the service.
#[derive(Debug, PartialEq)]
pub struct OhEndeavor {
    pub id: String,
    pub title: String,
    pub description: Option<String>,
    pub node_type: Option<String>,
}

/// The answer to a log posting.
#[derive(Debug)]
pub struct LogResponse {
    pub log: Option<LogEntry>,
}

#[derive(Debug)]
pub struct LogEntry {
    pub id: String,
}

/// Whether the integration has its configuration.
pub fn is_configured(config: &Option<OhConfig>) -> (r: bool)
    ensures
        r == (config is Some),
{
    config.is_some()
}

/// Client for the service's API.
#[derive(Debug)]
pub struct OhClient {
    pub config: OhConfig,
}

/// What `urlencoding::encode` returns: its input percent-encoded. The
/// result depends on the input alone.
pub uninterp spec fn url_encoded(s: Seq<char>) -> Seq<char>;

/// Relies on `urlencoding::encode`: percent-encodes every byte except
/// alphanumerics and `-`, `_`, `.`, `~`; empty input stays empty.
#[verifier::external_body]
fn url_encode(s: &str) -> (r: String)
    ensures
        r@ == url_encoded(s@),
        s@.len() == 0 ==> r@.len() == 0,
{
    urlencoding::encode(s).into_owned()
}

/// Relies on `chrono::Utc::now` and its formatter: the current date in
/// `year-month-day` form. Nothing is promised of the value.
#[verifier::external_body]
fn today_utc() -> String {
    chrono::Utc::now().format("%Y-%m-%d").to_string()
}

/// The body posted to create a log entry on an endeavor.
pub open spec fn log_request_body_spec(
    endeavor_id: Seq<char>,
    content: Seq<char>,
    log_date: Seq<char>,
) -> Seq<char> {
    "{\"entity_type\":\"endeavor\",\"entity_id\":"@ + json_string_lit(endeavor_id)
        + ",\"content\":"@ + json_string_lit(content) + ",\"content_type\":\"markdown\",\"log_date\":"@
        + json_string_lit(log_date) + "}"@
}

/// How feedback is framed when logged.
pub open spec fn feedback_content_spec(feedback: Seq<char>) -> Seq<char> {
    "## Superego Feedback\n\n"@ + feedback
}

fn append_json_string_lit(out: &mut String, s: &str)
    ensures
        final(out)@ == old(out)@ + json_string_lit(s@),
{
    out.append("\"");
    let e = json_escape_str(s);
    out.append(e.as_str());
    out.append("\"");
    proof {
        reveal_strlit("\"");
        assert(final(out)@ =~= old(out)@ + json_string_lit(s@));
    }
}

/// Build the body posted to create a log entry.
pub fn log_request_body(endeavor_id: &str, content: &str, log_date: &str) -> (b: String)
    ensures
        b@ == log_request_body_spec(endeavor_id@, content@, log_date@),
{
    let mut b = String::from_str("{\"entity_type\":\"endeavor\",\"entity_id\":");
    append_json_string_lit(&mut b, endeavor_id);
    b.append(",\"content\":");
    append_json_string_lit(&mut b, content);
    b.append(",\"content_type\":\"markdown\",\"log_date\":");
    append_json_string_lit(&mut b, log_date);
    b.append("}");
    proof {
        assert(b@ =~= log_request_body_spec(endeavor_id@, content@, log_date@));
    }
    b
}

impl OhClient {
    /// Make a client from an explicit configuration; without one the
    /// integration is not configured.
    pub fn new(config: Option<OhConfig>) -> (r: Result<OhClient, OhError>)
        ensures
            config matches Some(c) ==> (r matches Ok(cl) && cl.config == c),
            config is None ==> (r matches Err(e) && e is NotConfigured),
    {
        match config {
            Some(c) => Ok(OhClient { config: c }),
            None => Err(OhError::NotConfigured),
        }
    }

    /// The URL that lists the caller's contexts.
    pub fn contexts_url(&self) -> (u: String)
        ensures
            u@ == self.config.api_url@ + "/api/contexts"@,
    {
        let mut u = self.config.api_url.clone();
        u.append("/api/contexts");
        u
    }

    /// The URL that lists the endeavors of one context.
    pub fn dashboard_url(&self, context_id: &str) -> (u: String)
        ensures
            u@ == self.config.api_url@ + "/api/dashboard?contextId="@ + url_encoded(context_id@),
    {
        let mut u = self.config.api_url.clone();
        u.append("/api/dashboard?contextId=");
        let e = url_encode(context_id);
        u.append(e.as_str());
        u
    }

    /// The URL that accepts log entries.
    pub fn logs_url(&self) -> (u: String)
        ensures
            u@ == self.config.api_url@ + "/api/logs"@,
    {
        let mut u = self.config.api_url.clone();
        u.append("/api/logs");
        u
    }
}

/// Sort an HTTP exchange: an error status becomes an API error carrying
/// status and body, success hands the body on.
pub fn classify_api_response(success: bool, status: u16, body: String) -> (r: Result<String, OhError>)
    ensures
        success ==> (r matches Ok(b) && b == body),
        !success ==> r == Err::<String, OhError>(OhError::ApiError(status, body)),
{
    if success {
        Ok(body)
    } else {
        Err(OhError::ApiError(status, body))
    }
}

fn member_string(v: &serde_json::Value, key: &str) -> (r: Option<String>)
    ensures
        match r {
            Some(s) => (obj_member(json_of(*v), key@) matches Some(JsonData::Str(t)) && s@ == t),
            None => !(obj_member(json_of(*v), key@) matches Some(JsonData::Str(_))),
        },
{
    match json_get(v, key) {
        None => None,
        Some(f) => json_as_string(f),
    }
}

fn opt_string_field(v: &serde_json::Value, key: &str) -> (r: Result<Option<String>, ()>)
    ensures
        r matches Ok(o) ==> opt_string_member_matches(obj_member(json_of(*v), key@), o),
        r is Err ==> !opt_string_member_ok(obj_member(json_of(*v), key@)),
{
    match json_get(v, key) {
        None => Ok(None),
        Some(f) => {
            if json_is_null(f) {
                Ok(None)
            } else {
                match json_as_string(f) {
                    Some(s) => Ok(Some(s)),
                    None => Err(()),
                }
            }
        },
    }
}

/// A context document denotes `c`: string id and name, optional string
/// description.
pub open spec fn context_matches(c: OhContext, d: JsonData) -> bool {
    (obj_member(d, "id"@) matches Some(JsonData::Str(s)) && c.id@ == s) && (obj_member(d, "name"@)
        matches Some(JsonData::Str(s2)) && c.name@ == s2) && opt_string_member_matches(
        obj_member(d, "description"@),
        c.description,
    )
}

/// A context document is well-shaped.
pub open spec fn doc_is_context(d: JsonData) -> bool {
    (obj_member(d, "id"@) matches Some(JsonData::Str(_))) && (obj_member(d, "name"@)
        matches Some(JsonData::Str(_))) && opt_string_member_ok(obj_member(d, "description"@))
}

/// Every element of a context listing is well-shaped.
pub open spec fn all_contexts_ok(items: Seq<JsonData>) -> bool {
    forall|i: int| 0 <= i < items.len() ==> doc_is_context(items[i])
}

/// An endeavor document denotes `e`: string id and title, optional string
/// description and node type.
pub open spec fn endeavor_matches(e: OhEndeavor, d: JsonData) -> bool {
    (obj_member(d, "id"@) matches Some(JsonData::Str(s)) && e.id@ == s) && (obj_member(d, "title"@)
        matches Some(JsonData::Str(s2)) && e.title@ == s2) && opt_string_member_matches(
        obj_member(d, "description"@),
        e.description,
    ) && opt_string_member_matches(obj_member(d, "node_type"@), e.node_type)
}

/// An endeavor document is well-shaped.
pub open spec fn doc_is_endeavor(d: JsonData) -> bool {
    (obj_member(d, "id"@) matches Some(JsonData::Str(_))) && (obj_member(d, "title"@)
        matches Some(JsonData::Str(_))) && opt_string_member_ok(obj_member(d, "description"@))
        && opt_string_member_ok(obj_member(d, "node_type"@))
}

/// Every element of an endeavor listing is well-shaped.
pub open spec fn all_endeavors_ok(items: Seq<JsonData>) -> bool {
    forall|i: int| 0 <= i < items.len() ==> doc_is_endeavor(items[i])
}

/// The elements a listing document carries: the array under the wrapper
/// member where there is one, else the document itself as a bare array.
pub open spec fn listing_payload(d: JsonData, wrapper: Seq<char>) -> Option<Seq<JsonData>> {
    match obj_member(d, wrapper) {
        Some(JsonData::Arr(items)) => Some(items),
        _ => match d {
            JsonData::Arr(items) => Some(items),
            _ => None,
        },
    }
}

fn parse_context(v: &serde_json::Value) -> (r: Result<OhContext, OhError>)
    ensures
        r matches Ok(c) ==> context_matches(c, json_of(*v)),
        r matches Err(e) ==> e is ParseError && !doc_is_context(json_of(*v)),
{
    let id = match member_string(v, "id") {
        Some(s) => s,
        None => {
            return Err(OhError::ParseError(String::from_str("context entry lacks a string id")));
        },
    };
    let name = match member_string(v, "name") {
        Some(s) => s,
        None => {
            return Err(OhError::ParseError(String::from_str("context entry lacks a string name")));
        },
    };
    let description = match opt_string_field(v, "description") {
        Ok(o) => o,
        Err(()) => {
            return Err(
                OhError::ParseError(String::from_str("context description is not a string")),
            );
        },
    };
    Ok(OhContext { id, name, description })
}

fn parse_endeavor(v: &serde_json::Value) -> (r: Result<OhEndeavor, OhError>)
    ensures
        r matches Ok(e) ==> endeavor_matches(e, json_of(*v)),
        r matches Err(e) ==> e is ParseError && !doc_is_endeavor(json_of(*v)),
{
    let id = match member_string(v, "id") {
        Some(s) => s,
        None => {
            return Err(OhError::ParseError(String::from_str("endeavor entry lacks a string id")));
        },
    };
    let title = match member_string(v, "title") {
        Some(s) => s,
        None => {
            return Err(
                OhError::ParseError(String::from_str("endeavor entry lacks a string title")),
            );
        },
    };
    let description = match opt_string_field(v, "description") {
        Ok(o) => o,
        Err(()) => {
            return Err(
                OhError::ParseError(String::from_str("endeavor description is not a string")),
            );
        },
    };
    let node_type = match opt_string_field(v, "node_type") {
        Ok(o) => o,
        Err(()) => {
            return Err(
                OhError::ParseError(String::from_str("endeavor node type is not a string")),
            );
        },
    };
    Ok(OhEndeavor { id, title, description, node_type })
}

proof fn lemma_bad_context(items: Seq<JsonData>, i: int)
    requires
        0 <= i < items.len(),
        !doc_is_context(items[i]),
    ensures
        !all_contexts_ok(items),
{
    if all_contexts_ok(items) {
        assert(doc_is_context(items[i]));
    }
}

proof fn lemma_bad_endeavor(items: Seq<JsonData>, i: int)
    requires
        0 <= i < items.len(),
        !doc_is_endeavor(items[i]),
    ensures
        !all_endeavors_ok(items),
{
    if all_endeavors_ok(items) {
        assert(doc_is_endeavor(items[i]));
    }
}

/// Read a context listing: either an object wrapping the list under
/// `contexts`, or the bare array. Success comes exactly when the body
/// carries such a listing of well-shaped entries, and yields them in order.
pub fn parse_contexts_body(body: &str) -> (r: Result<Vec<OhContext>, OhError>)
    ensures
        r matches Ok(cs) ==> (json_doc(body@) matches Some(d) && listing_payload(d, "contexts"@)
            matches Some(items) && cs@.len() == items.len() && forall|i: int|
            0 <= i < items.len() ==> context_matches(cs@[i], items[i])),
        r matches Err(e) ==> e is ParseError && !(json_doc(body@) matches Some(d)
            && listing_payload(d, "contexts"@) matches Some(items) && all_contexts_ok(items)),
{
    let v = match parse_json(body) {
        Err(m) => {
            return Err(OhError::ParseError(m));
        },
        Ok(v) => v,
    };
    let wrapped: Option<&Vec<serde_json::Value>> = match json_get(&v, "contexts") {
        Some(inner) => json_as_array(inner),
        None => None,
    };
    let arr = match wrapped {
        Some(a) => a,
        None => match json_as_array(&v) {
            Some(a) => a,
            None => {
                return Err(
                    OhError::ParseError(
                        String::from_str("context listing has an unexpected shape"),
                    ),
                );
            },
        },
    };
    let ghost items = listing_payload(json_of(v), "contexts"@)->Some_0;
    proof {
        assert(listing_payload(json_of(v), "contexts"@) == Some(items));
    }
    let mut out: Vec<OhContext> = Vec::new();
    let mut i: usize = 0;
    while i < arr.len()
        invariant
            i <= arr.len(),
            json_doc(body@) == Some(json_of(v)),
            listing_payload(json_of(v), "contexts"@) == Some(items),
            items.len() == arr@.len(),
            forall|k: int| 0 <= k < arr@.len() ==> items[k] == json_of(arr@[k]),
            out@.len() == i,
            forall|k: int| 0 <= k < i ==> context_matches(out@[k], items[k]),
        decreases arr.len() - i,
    {
        match parse_context(&arr[i]) {
            Ok(c) => out.push(c),
            Err(e) => {
                proof {
                    lemma_bad_context(items, i as int);
                }
                return Err(e);
            },
        }
        i += 1;
    }
    Ok(out)
}

/// Read an endeavor listing: either an object wrapping the list under
/// `nodes`, or the bare array. Success comes exactly when the body carries
/// such a listing of well-shaped entries, and yields them in order.
pub fn parse_endeavors_body(body: &str) -> (r: Result<Vec<OhEndeavor>, OhError>)
    ensures
        r matches Ok(es) ==> (json_doc(body@) matches Some(d) && listing_payload(d, "nodes"@)
            matches Some(items) && es@.len() == items.len() && forall|i: int|
            0 <= i < items.len() ==> endeavor_matches(es@[i], items[i])),
        r matches Err(e) ==> e is ParseError && !(json_doc(body@) matches Some(d)
            && listing_payload(d, "nodes"@) matches Some(items) && all_endeavors_ok(items)),
{
    let v = match parse_json(body) {
        Err(m) => {
            return Err(OhError::ParseError(m));
        },
        Ok(v) => v,
    };
    let wrapped: Option<&Vec<serde_json::Value>> = match json_get(&v, "nodes") {
        Some(inner) => json_as_array(inner),
        None => None,
    };
    let arr = match wrapped {
        Some(a) => a,
        None => match json_as_array(&v) {
            Some(a) => a,
            None => {
                return Err(
                    OhError::ParseError(
                        String::from_str("endeavor listing has an unexpected shape"),
                    ),
                );
            },
        },
    };
    let ghost items = listing_payload(json_of(v), "nodes"@)->Some_0;
    proof {
        assert(listing_payload(json_of(v), "nodes"@) == Some(items));
    }
    let mut out: Vec<OhEndeavor> = Vec::new();
    let mut i: usize = 0;
    while i < arr.len()
        invariant
            i <= arr.len(),
            json_doc(body@) == Some(json_of(v)),
            listing_payload(json_of(v), "nodes"@) == Some(items),
            items.len() == arr@.len(),
            forall|k: int| 0 <= k < arr@.len() ==> items[k] == json_of(arr@[k]),
            out@.len() == i,
            forall|k: int| 0 <= k < i ==> endeavor_matches(out@[k], items[k]),
        decreases arr.len() - i,
    {
        match parse_endeavor(&arr[i]) {
            Ok(e) => out.push(e),
            Err(e) => {
                proof {
                    lemma_bad_endeavor(items, i as int);
                }
                return Err(e);
            },
        }
        i += 1;
    }
    Ok(out)
}

/// The answer to a log posting denotes `id`: the entry's id, or `unknown`
/// when the service named none.
pub open spec fn log_id_matches(id: String, d: JsonData) -> bool {
    match obj_member(d, "log"@) {
        None => id@ == "unknown"@,
        Some(JsonData::Null) => id@ == "unknown"@,
        Some(e) => (obj_member(e, "id"@) matches Some(JsonData::Str(s)) && id@ == s),
    }
}

/// The document is an answer to a log posting: an object whose `log`
/// member, when present and not null, carries a string id.
pub open spec fn doc_is_log_response(d: JsonData) -> bool {
    d is Obj && match obj_member(d, "log"@) {
        None => true,
        Some(JsonData::Null) => true,
        Some(e) => (obj_member(e, "id"@) matches Some(JsonData::Str(_))),
    }
}

/// Read the answer to a log posting: the new entry's id, or `unknown` when
/// the service returned none. Success comes exactly when the body is such
/// an answer.
pub fn parse_log_response_body(body: &str) -> (r: Result<String, OhError>)
    ensures
        r matches Ok(id) ==> (json_doc(body@) matches Some(d) && d is Obj && log_id_matches(
            id,
            d,
        )),
        r matches Err(e) ==> e is ParseError && !(json_doc(body@) matches Some(d)
            && doc_is_log_response(d)),
{
    let v = match parse_json(body) {
        Err(m) => {
            return Err(OhError::ParseError(m));
        },
        Ok(v) => v,
    };
    if !json_is_object(&v) {
        return Err(OhError::ParseError(String::from_str("log response is not a JSON object")));
    }
    match json_get(&v, "log") {
        None => Ok(String::from_str("unknown")),
        Some(entry) => {
            if json_is_null(entry) {
                return Ok(String::from_str("unknown"));
            }
            match member_string(entry, "id") {
                Some(id) => Ok(id),
                None => Err(
                    OhError::ParseError(String::from_str("log response entry lacks a string id")),
                ),
            }
        },
    }
}

/// A fully configured integration: a client plus the endeavor that receives
/// the log entries.
#[derive(Debug)]
pub struct OhIntegration {
    pub client: OhClient,
    pub endeavor_id: String,
}

impl OhIntegration {
    /// Make an integration from explicit values; it exists exactly when
    /// both the client configuration and the target endeavor are present.
    pub fn new(config: Option<OhConfig>, endeavor_id: Option<String>) -> (r: Option<OhIntegration>)
        ensures
            r is Some <==> (config is Some && endeavor_id is Some),
            config matches Some(c) ==> endeavor_id matches Some(eid) ==> (r matches Some(x)
                && x.client.config == c && x.endeavor_id == eid),
    {
        match (config, endeavor_id) {
            (Some(c), Some(eid)) => Some(
                OhIntegration { client: OhClient { config: c }, endeavor_id: eid },
            ),
            _ => None,
        }
    }

    /// The framed content for one piece of feedback.
    pub fn feedback_content(&self, feedback: &str) -> (c: String)
        ensures
            c@ == feedback_content_spec(feedback@),
    {
        let mut c = String::from_str("## Superego Feedback\n\n");
        c.append(feedback);
        c
    }

    /// The body posted to log one piece of feedback, dated today.
    pub fn feedback_request_body(&self, feedback: &str) -> (b: String)
        ensures
            exists|d: Seq<char>|
                b@ == log_request_body_spec(
                    self.endeavor_id@,
                    feedback_content_spec(feedback@),
                    d,
                ),
    {
        let content = self.feedback_content(feedback);
        let date = today_utc();
        let b = log_request_body(self.endeavor_id.as_str(), content.as_str(), date.as_str());
        proof {
            assert(b@ == log_request_body_spec(
                self.endeavor_id@,
                feedback_content_spec(feedback@),
                date@,
            ));
        }
        b
    }
}

/// The endeavor id named by one configuration line, if any: the line must
/// start `oh_endeavor_id:` once trimmed, and its value is taken trimmed and
/// unquoted; an empty value names none.
pub open spec fn endeavor_id_of_line(raw: Seq<char>) -> Option<Seq<char>> {
    let l = trim_spec(raw);
    if matches_at(l, "oh_endeavor_id:"@, 0) {
        let v = trim_char_spec(
            trim_char_spec(trim_spec(l.subrange("oh_endeavor_id:"@.len() as int, l.len() as int)), '"'),
            '\'',
        );
        if v.len() > 0 {
            Some(v)
        } else {
            None
        }
    } else {
        None
    }
}

/// The endeavor id named by the file from `pos` on: the first line that
/// names one decides.
pub open spec fn endeavor_id_from(s: Seq<char>, pos: int) -> Option<Seq<char>>
    decreases s.len() - pos,
    via endeavor_id_from_decreases
{
    if pos < 0 || pos >= s.len() {
        None
    } else {
        match find_from(s, "\n"@, pos) {
            None => endeavor_id_of_line(strip_cr(s.subrange(pos, s.len() as int))),
            Some(i) => match endeavor_id_of_line(strip_cr(s.subrange(pos, i))) {
                Some(v) => Some(v),
                None => endeavor_id_from(s, i + 1),
            },
        }
    }
}

#[via_fn]
proof fn endeavor_id_from_decreases(s: Seq<char>, pos: int) {
    reveal_strlit("\n");
    if 0 <= pos < s.len() {
        if let Some(i) = find_from(s, "\n"@, pos) {
            lemma_find_from_some(s, "\n"@, pos, i);
        }
    }
}

fn line_endeavor_id(raw: &str) -> (r: Option<String>)
    ensures
        match r {
            Some(v) => endeavor_id_of_line(raw@) == Some(v@),
            None => endeavor_id_of_line(raw@) is None,
        },
{
    proof {
        reveal_strlit("oh_endeavor_id:");
    }
    let l = trim_str(raw);
    if match_at(l, "oh_endeavor_id:", 0) {
        let ln = l.unicode_len();
        let rest = l.substring_char(15, ln);
        let v = trim_char_str(trim_char_str(trim_str(rest), '"'), '\'');
        if v.unicode_len() > 0 {
            Some(String::from_str(v))
        } else {
            None
        }
    } else {
        None
    }
}

/// Find the target endeavor id in configuration text.
pub fn parse_config_for_endeavor_id(content: &str) -> (r: Option<String>)
    ensures
        match r {
            Some(v) => endeavor_id_from(content@, 0) == Some(v@),
            None => endeavor_id_from(content@, 0) is None,
        },
{
    let n = content.unicode_len();
    let mut pos: usize = 0;
    while pos < n
        invariant
            pos <= n,
            n == content@.len(),
            endeavor_id_from(content@, 0) == endeavor_id_from(content@, pos as int),
        decreases n - pos,
    {
        let (line_end, next_pos): (usize, usize) = match find_pat(content, "\n", pos) {
            Some(nl) => {
                proof {
                    reveal_strlit("\n");
                    lemma_find_from_some(content@, "\n"@, pos as int, nl as int);
                }
                (nl, nl + 1)
            },
            None => (n, n),
        };
        let line = content.substring_char(pos, line_end);
        let ln = line.unicode_len();
        let line = if ln > 0 && line.get_char(ln - 1) == '\r' {
            let stripped = line.substring_char(0, ln - 1);
            proof {
                assert(stripped@ =~= strip_cr(line@));
            }
            stripped
        } else {
            line
        };
        match line_endeavor_id(line) {
            Some(v) => {
                return Some(v);
            },
            None => {},
        }
        pos = next_pos;
    }
    None
}

} // verus!
