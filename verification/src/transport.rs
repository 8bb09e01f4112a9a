//! The transport's decisions: where a request goes, what a reply means, and
//! how a failure reads.
//!
//! Sending and receiving is left to the caller. What is decided here takes
//! plain values: a status, a header, a body.

use crate::dates::{number_value, read_number, NUMBER_LIMIT};
use crate::errors::{api_error_view, error_fields, find_char, first_char};
use crate::state::AppError;
use crate::json::{json_member, json_parsed, member_of, member_u64, member_u64_of, parse_json};
use crate::models::Paginated;
use crate::text::{chars_of, digits, joined, render_uint, trim_text, trimmed};
use vstd::prelude::*;

verus! {

/// The address that every endpoint lies under.
pub fn base_url() -> (r: &'static str)
    ensures
        r@ == "https://api.todoist.com/api/v1"@,
{
    "https://api.todoist.com/api/v1"
}

/// The value of the authorization header for the credential `token`.
pub fn bearer(token: &str) -> (r: String)
    ensures
        r@ == "Bearer "@ + token@,
{
    joined("Bearer ", token)
}

/// The address of `endpoint`.
pub open spec fn endpoint_text(endpoint: Seq<char>) -> Seq<char> {
    "https://api.todoist.com/api/v1"@ + seq!['/'] + endpoint
}

/// The address of `endpoint`.
pub fn endpoint_url(endpoint: &str) -> (r: String)
    ensures
        r@ == endpoint_text(endpoint@),
{
    let mut out = base_url().to_owned();
    out.push('/');
    out.append(endpoint);
    out
}

/// The address of the page of `endpoint` that starts at `cursor`: the
/// cursor is one more parameter of the query, or the first one.
pub open spec fn page_text(endpoint: Seq<char>, cursor: Option<Seq<char>>) -> Seq<char> {
    let url = endpoint_text(endpoint);
    match cursor {
        None => url,
        Some(c) => url + seq![
            if first_char(url, '?') < url.len() {
                '&'
            } else {
                '?'
            },
        ] + "cursor="@ + c,
    }
}

/// The address of one page of a paged endpoint.
pub fn page_url(endpoint: &str, cursor: Option<&str>) -> (r: String)
    ensures
        r@ == page_text(
            endpoint@,
            match cursor {
                Some(c) => Some(c@),
                None => None,
            },
        ),
{
    let mut url = endpoint_url(endpoint);
    match cursor {
        None => url,
        Some(c) => {
            let chars = chars_of(url.as_str());
            let sep = if find_char(&chars, '?') < chars.len() {
                '&'
            } else {
                '?'
            };
            url.push(sep);
            url.append("cursor=");
            url.append(c);
            url
        },
    }
}

/// The cursor of the page that follows: that of the page, unless it is
/// empty.
pub open spec fn following(next_cursor: Option<String>) -> Option<Seq<char>> {
    match next_cursor {
        Some(c) => if c@.len() > 0 {
            Some(c@)
        } else {
            None
        },
        None => None,
    }
}

impl<T> Paginated<T> {
    /// Puts the results of the page at the end of `all` and returns the
    /// cursor of the page that follows, if there is one.
    pub fn absorb(self, all: &mut Vec<T>) -> (next: Option<String>)
        ensures
            final(all)@ == old(all)@ + self.results@,
            next.deep_view() == following(self.next_cursor),
    {
        let mut results = self.results;
        all.append(&mut results);
        match self.next_cursor {
            Some(c) => if c.as_str().is_empty() {
                None
            } else {
                Some(c)
            },
            None => None,
        }
    }
}

/// The endpoint of the comments of the task `task_id`.
pub fn comments_endpoint(task_id: &str) -> (r: String)
    ensures
        r@ == "comments?task_id="@ + task_id@,
{
    joined("comments?task_id=", task_id)
}

/// The endpoint of the completed tasks, of one project and since a time
/// where these are given.
pub open spec fn completed_text(project: Option<Seq<char>>, since: Option<Seq<char>>) -> Seq<char> {
    "tasks/completed?annotate_items=1"@ + (match project {
        Some(p) => "&project_id="@ + p,
        None => Seq::empty(),
    }) + (match since {
        Some(s) => "&since="@ + s,
        None => Seq::empty(),
    })
}

/// The endpoint of the completed tasks.
pub fn completed_endpoint(project_id: Option<&str>, since: Option<&str>) -> (r: String)
    ensures
        r@ == completed_text(
            match project_id {
                Some(p) => Some(p@),
                None => None,
            },
            match since {
                Some(s) => Some(s@),
                None => None,
            },
        ),
{
    let mut out = "tasks/completed?annotate_items=1".to_owned();
    match project_id {
        Some(p) => {
            out.append("&project_id=");
            out.append(p);
        },
        None => {},
    }
    match since {
        Some(s) => {
            out.append("&since=");
            out.append(s);
        },
        None => {},
    }
    assert(out@ =~= completed_text(
        match project_id {
            Some(p) => Some(p@),
            None => None,
        },
        match since {
            Some(s) => Some(s@),
            None => None,
        },
    ));
    out
}

/// Why a call to the service failed.
pub enum TransportError {
    /// The service could not be reached.
    Network(String),
    /// The service turned the call away for the rate limit, and may have
    /// suggested how many seconds to wait.
    RateLimited { retry_after_secs: Option<u64> },
    /// The service answered with a status that is no success.
    Status { status: u16, body: String },
    /// The reply could not be read.
    Parse(String),
}

/// What a [`TransportError`] holds.
pub enum TransportErrorView {
    Network(Seq<char>),
    RateLimited { retry_after_secs: Option<u64> },
    Status { status: u16, body: Seq<char> },
    Parse(Seq<char>),
}

impl DeepView for TransportError {
    type V = TransportErrorView;

    open spec fn deep_view(&self) -> TransportErrorView {
        match self {
            TransportError::Network(m) => TransportErrorView::Network(m@),
            TransportError::RateLimited { retry_after_secs } => TransportErrorView::RateLimited {
                retry_after_secs: *retry_after_secs,
            },
            TransportError::Status { status, body } => TransportErrorView::Status {
                status: *status,
                body: body@,
            },
            TransportError::Parse(m) => TransportErrorView::Parse(m@),
        }
    }
}

/// The seconds that a `Retry-After` header names: a whole number, with
/// white space around it at most.
pub open spec fn header_secs(header: Option<Seq<char>>) -> Option<u64> {
    match header {
        Some(h) => match number_value(trimmed(h), false) {
            Some(v) => if 0 <= v <= NUMBER_LIMIT {
                Some(v as u64)
            } else {
                None
            },
            None => None,
        },
        None => None,
    }
}

/// The seconds that the body of a rate-limit reply names, in the member
/// `retry_after` of its member `error_extra`.
pub open spec fn body_secs(body: Seq<char>) -> Option<u64> {
    match json_parsed(body) {
        Some(v) => match json_member(v, "error_extra"@) {
            Some(extra) => member_u64(extra, "retry_after"@),
            None => None,
        },
        None => None,
    }
}

/// What a reply with the status `status` means: a status from 200 to 299 is
/// a success; 429 is the rate limit, with the interval of the header or
/// else that of the body; any other status is an error that carries the
/// status and the body.
pub open spec fn outcome(status: u16, from_header: Option<u64>, from_body: Option<u64>, body: Seq<char>) -> Result<
    (),
    TransportErrorView,
> {
    if 200 <= status <= 299 {
        Ok(())
    } else if status == 429 {
        Err(
            TransportErrorView::RateLimited {
                retry_after_secs: match from_header {
                    Some(s) => Some(s),
                    None => from_body,
                },
            },
        )
    } else {
        Err(TransportErrorView::Status { status, body })
    }
}

/// The view of a result of [`reply_outcome`].
pub open spec fn result_view(r: Result<(), TransportError>) -> Result<(), TransportErrorView> {
    match r {
        Ok(_) => Ok(()),
        Err(e) => Err(e.deep_view()),
    }
}

/// What a reply means, given the intervals that its header and its body
/// name.
pub fn reply_outcome(status: u16, from_header: Option<u64>, from_body: Option<u64>, body: &str) -> (r:
    Result<(), TransportError>)
    ensures
        result_view(r) == outcome(status, from_header, from_body, body@),
{
    if 200 <= status && status <= 299 {
        Ok(())
    } else if status == 429 {
        Err(
            TransportError::RateLimited {
                retry_after_secs: match from_header {
                    Some(s) => Some(s),
                    None => from_body,
                },
            },
        )
    } else {
        Err(TransportError::Status { status, body: body.to_owned() })
    }
}

/// The seconds that a `Retry-After` header names.
pub fn read_header_secs(header: Option<&str>) -> (r: Option<u64>)
    ensures
        r == header_secs(
            match header {
                Some(h) => Some(h@),
                None => None,
            },
        ),
{
    match header {
        Some(h) => {
            let t = trim_text(h);
            let chars = chars_of(t.as_str());
            match read_number(&chars, false) {
                Some(v) => {
                    proof {
                        crate::dates::lemma_digits_value_nonneg(chars@);
                        crate::dates::lemma_digits_value_nonneg(chars@.drop_first());
                    }
                    if v >= 0 {
                        Some(v as u64)
                    } else {
                        None
                    }
                },
                None => {
                    proof {
                        crate::dates::lemma_digits_value_nonneg(chars@);
                        crate::dates::lemma_digits_value_nonneg(chars@.drop_first());
                    }
                    None
                },
            }
        },
        None => None,
    }
}

/// The seconds that the body of a rate-limit reply names.
pub fn read_body_secs(body: &str) -> (r: Option<u64>)
    ensures
        r == body_secs(body@),
{
    match parse_json(body) {
        Some(v) => match member_of(&v, "error_extra") {
            Some(extra) => member_u64_of(extra, "retry_after"),
            None => None,
        },
        None => None,
    }
}

/// What the reply with the status `status`, the `Retry-After` header
/// `retry_after` and the body `body` means.
pub fn classify_reply(status: u16, retry_after: Option<&str>, body: &str) -> (r: Result<
    (),
    TransportError,
>)
    ensures
        result_view(r) == outcome(
            status,
            header_secs(
                match retry_after {
                    Some(h) => Some(h@),
                    None => None,
                },
            ),
            body_secs(body@),
            body@,
        ),
{
    let from_header = read_header_secs(retry_after);
    let from_body = read_body_secs(body);
    reply_outcome(status, from_header, from_body, body)
}

/// How a failure reads.
pub open spec fn failure_text(e: TransportErrorView) -> Seq<char> {
    match e {
        TransportErrorView::Network(m) => "failed to reach Todoist API: "@ + m,
        TransportErrorView::RateLimited { retry_after_secs } => "rate limited by Todoist API"@,
        TransportErrorView::Status { status, body } => "Todoist API error ("@ + digits(
            status as nat,
            10,
        ) + "): "@ + body,
        TransportErrorView::Parse(m) => "failed to parse response: "@ + m,
    }
}

impl TransportError {
    /// The failure in words. An error status is followed by the body of the
    /// reply, which may hold the service's own account of the error.
    pub fn describe(&self) -> (r: String)
        ensures
            r@ == failure_text(self.deep_view()),
    {
        match self {
            TransportError::Network(m) => joined("failed to reach Todoist API: ", m.as_str()),
            TransportError::RateLimited { retry_after_secs } => "rate limited by Todoist API".to_owned(),
            TransportError::Status { status, body } => {
                let mut out = "Todoist API error (".to_owned();
                let n = render_uint(*status as u64, 10, 0);
                out.append(n.as_str());
                out.append("): ");
                out.append(body.as_str());
                assert(out@ =~= failure_text(self.deep_view()));
                out
            },
            TransportError::Parse(m) => joined("failed to parse response: ", m.as_str()),
        }
    }

    /// The error that is shown when `context` failed with this failure.
    pub fn to_app_error(&self, context: &str) -> (r: AppError)
        ensures
            r.deep_view() == api_error_view(
                context@,
                failure_text(self.deep_view()),
                error_fields(failure_text(self.deep_view())),
            ),
    {
        let raw = self.describe();
        AppError::from_api(raw.as_str(), context)
    }

    /// Whether the failure is the rate limit, which is waited out.
    pub fn is_rate_limit(&self) -> (r: bool)
        ensures
            r == (*self is RateLimited),
    {
        match self {
            TransportError::RateLimited { retry_after_secs } => true,
            _ => false,
        }
    }
}

} // verus!
