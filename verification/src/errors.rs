//! Errors made ready for the user: what failed, the service's message, and
//! a hint where the service's error tag is a known one.

use crate::app::CommandKind;
use crate::json::{json_parsed, member_text, member_text_of, parse_json};
use crate::state::AppError;
use crate::sync::SyncCommandError;
use crate::text::joined;
use vstd::prelude::*;

verus! {

/// What an [`AppError`] holds.
pub struct AppErrorView {
    pub title: Seq<char>,
    pub message: Seq<char>,
    pub suggestion: Option<Seq<char>>,
    pub recoverable: bool,
}

impl DeepView for AppError {
    type V = AppErrorView;

    open spec fn deep_view(&self) -> AppErrorView {
        AppErrorView {
            title: self.title@,
            message: self.message@,
            suggestion: self.suggestion.deep_view(),
            recoverable: self.recoverable,
        }
    }
}

/// The hint that goes with an error tag of the service.
pub open spec fn hint_text(tag: Seq<char>) -> Option<Seq<char>> {
    if tag == "INVALID_DATE_FORMAT"@ || tag == "BAD_REQUEST"@ {
        Some("Try natural language like \"tomorrow\", \"next monday\", or \"Feb 28\""@)
    } else if tag == "NOT_FOUND"@ {
        Some("The item may have been deleted. Try refreshing."@)
    } else if tag == "FORBIDDEN"@ {
        Some("You don't have permission for this action."@)
    } else if tag == "UNAUTHORIZED"@ {
        Some("Your API token may have expired. Check your config."@)
    } else {
        None
    }
}

/// The hint that goes with an error tag of the service.
pub fn hint_for(tag: &str) -> (r: Option<String>)
    ensures
        r.deep_view() == hint_text(tag@),
{
    if tag.eq("INVALID_DATE_FORMAT") || tag.eq("BAD_REQUEST") {
        Some("Try natural language like \"tomorrow\", \"next monday\", or \"Feb 28\"".to_owned())
    } else if tag.eq("NOT_FOUND") {
        Some("The item may have been deleted. Try refreshing.".to_owned())
    } else if tag.eq("FORBIDDEN") {
        Some("You don't have permission for this action.".to_owned())
    } else if tag.eq("UNAUTHORIZED") {
        Some("Your API token may have expired. Check your config.".to_owned())
    } else {
        None
    }
}

/// What the user was doing when a command of the kind `kind` failed; a
/// command of which nothing is known is just a command.
pub open spec fn action_text(kind: Option<CommandKind>) -> Seq<char> {
    match kind {
        Some(CommandKind::TaskAdd) => "Create task"@,
        Some(CommandKind::TaskUpdate) => "Update task"@,
        Some(CommandKind::TaskComplete) => "Complete task"@,
        Some(CommandKind::TaskReopen) => "Reopen task"@,
        Some(CommandKind::CommentAdd) => "Add comment"@,
        Some(CommandKind::ProjectUpdate) => "Update project"@,
        None => "Command"@,
    }
}

/// What the user was doing when a command of the kind `kind` failed.
pub fn action_name(kind: Option<CommandKind>) -> (r: &'static str)
    ensures
        r@ == action_text(kind),
{
    match kind {
        Some(CommandKind::TaskAdd) => "Create task",
        Some(CommandKind::TaskUpdate) => "Update task",
        Some(CommandKind::TaskComplete) => "Complete task",
        Some(CommandKind::TaskReopen) => "Reopen task",
        Some(CommandKind::CommentAdd) => "Add comment",
        Some(CommandKind::ProjectUpdate) => "Update project",
        None => "Command",
    }
}

/// The title of the error that says that `context` failed.
pub open spec fn failure_title(context: Seq<char>) -> Seq<char> {
    context + " failed"@
}

/// The hint for an optional error tag.
pub open spec fn hint_of(tag: Option<String>) -> Option<Seq<char>> {
    match tag {
        Some(t) => hint_text(t@),
        None => None,
    }
}

/// The error shown when the service refuses a command: the action as title,
/// the service's message, and the hint for its tag. The program can go on.
pub open spec fn rejection_view(kind: Option<CommandKind>, e: SyncCommandError) -> AppErrorView {
    AppErrorView {
        title: failure_title(action_text(kind)),
        message: e.error@,
        suggestion: hint_of(e.error_tag),
        recoverable: true,
    }
}

/// The error shown when the service refuses a command of kind `kind`.
pub fn rejection_error(kind: Option<CommandKind>, e: &SyncCommandError) -> (r: AppError)
    ensures
        r.deep_view() == rejection_view(kind, *e),
{
    let suggestion = match &e.error_tag {
        Some(t) => hint_for(t.as_str()),
        None => None,
    };
    AppError {
        title: joined(action_name(kind), " failed"),
        message: e.error.clone(),
        suggestion,
        recoverable: true,
    }
}

/// Index of the first character `c` of `s`, or the length of `s`.
pub open spec fn first_char(s: Seq<char>, c: char) -> int
    decreases s.len(),
{
    if s.len() == 0 || s[0] == c {
        0
    } else {
        1 + first_char(s.drop_first(), c)
    }
}

/// What `first_char` finds.
pub proof fn lemma_first_char(s: Seq<char>, c: char)
    ensures
        0 <= first_char(s, c) <= s.len(),
        first_char(s, c) < s.len() ==> s[first_char(s, c)] == c,
        forall|j: int| 0 <= j < first_char(s, c) ==> s[j] != c,
    decreases s.len(),
{
    if s.len() > 0 && s[0] != c {
        let rest = s.drop_first();
        lemma_first_char(rest, c);
        assert forall|j: int| 0 <= j < first_char(s, c) implies s[j] != c by {
            if j > 0 {
                assert(s[j] == rest[j - 1]);
            }
        }
    }
}

/// Index of the first character `c` of `s`, or the length.
pub fn find_char(s: &Vec<char>, c: char) -> (i: usize)
    ensures
        i == first_char(s@, c),
{
    let mut i: usize = 0;
    proof {
        lemma_first_char(s@, c);
    }
    while i < s.len() && s[i] != c
        invariant
            i <= s.len(),
            forall|j: int| 0 <= j < i ==> s@[j] != c,
        decreases s.len() - i,
    {
        i += 1;
    }
    i
}

/// What the service says of an error, as far as it can be read: the texts of
/// the members `error` and `error_tag`.
pub struct ErrorFields {
    pub error: Option<String>,
    pub error_tag: Option<String>,
}

/// The error members of the JSON object that starts at the first brace of
/// `raw`; `None` where there is no brace, or no JSON value behind it.
pub open spec fn error_fields(raw: Seq<char>) -> Option<(Option<Seq<char>>, Option<Seq<char>>)> {
    let i = first_char(raw, '{');
    if i >= raw.len() {
        None
    } else {
        match json_parsed(raw.subrange(i, raw.len() as int)) {
            None => None,
            Some(v) => Some((member_text(v, "error"@), member_text(v, "error_tag"@))),
        }
    }
}

/// The fields of an [`ErrorFields`].
pub open spec fn fields_view(f: Option<ErrorFields>) -> Option<(Option<Seq<char>>, Option<Seq<char>>)> {
    match f {
        Some(e) => Some((e.error.deep_view(), e.error_tag.deep_view())),
        None => None,
    }
}

/// Reads the error members out of the message `raw`.
pub fn read_error_fields(raw: &str) -> (r: Option<ErrorFields>)
    ensures
        fields_view(r) == error_fields(raw@),
{
    let chars = crate::text::chars_of(raw);
    let i = find_char(&chars, '{');
    if i >= chars.len() {
        return None;
    }
    let body = crate::text::text_between(&chars, i, chars.len());
    match parse_json(body.as_str()) {
        None => None,
        Some(v) => Some(
            ErrorFields {
                error: member_text_of(&v, "error"),
                error_tag: member_text_of(&v, "error_tag"),
            },
        ),
    }
}

/// The error shown when `context` failed with the message `raw`, of which
/// `fields` could be read. Where the message holds a JSON object, the
/// message shown is its `error`, or `Unknown error`, and the hint is that of
/// its `error_tag`. Otherwise the message is shown as it is.
pub open spec fn api_error_view(
    context: Seq<char>,
    raw: Seq<char>,
    fields: Option<(Option<Seq<char>>, Option<Seq<char>>)>,
) -> AppErrorView {
    match fields {
        Some((error, tag)) => AppErrorView {
            title: failure_title(context),
            message: match error {
                Some(m) => m,
                None => "Unknown error"@,
            },
            suggestion: match tag {
                Some(t) => hint_text(t),
                None => hint_text(Seq::empty()),
            },
            recoverable: true,
        },
        None => AppErrorView {
            title: failure_title(context),
            message: raw,
            suggestion: None,
            recoverable: true,
        },
    }
}

/// The error shown when `context` failed with the message `raw`, of which
/// `fields` could be read.
pub fn error_from_fields(context: &str, raw: &str, fields: Option<ErrorFields>) -> (r: AppError)
    ensures
        r.deep_view() == api_error_view(context@, raw@, fields_view(fields)),
{
    let title = joined(context, " failed");
    match fields {
        Some(f) => {
            let message = match f.error {
                Some(m) => m,
                None => "Unknown error".to_owned(),
            };
            let suggestion = match &f.error_tag {
                Some(t) => hint_for(t.as_str()),
                None => {
                    proof {
                        reveal_strlit("");
                    }
                    assert(""@ =~= Seq::<char>::empty());
                    hint_for("")
                },
            };
            AppError { title, message, suggestion, recoverable: true }
        },
        None => AppError { title, message: raw.to_owned(), suggestion: None, recoverable: true },
    }
}

/// Title, message and hint of the error shown when `context` failed with
/// the message `raw`.
pub fn parse_api_error(raw: &str, context: &str) -> (r: (String, String, Option<String>))
    ensures
        r.0@ == api_error_view(context@, raw@, error_fields(raw@)).title,
        r.1@ == api_error_view(context@, raw@, error_fields(raw@)).message,
        r.2.deep_view() == api_error_view(context@, raw@, error_fields(raw@)).suggestion,
{
    let e = error_from_fields(context, raw, read_error_fields(raw));
    (e.title, e.message, e.suggestion)
}

impl AppError {
    /// The error shown when `context` failed with the message `raw`.
    pub fn from_api(raw: &str, context: &str) -> (r: Self)
        ensures
            r.deep_view() == api_error_view(context@, raw@, error_fields(raw@)),
    {
        error_from_fields(context, raw, read_error_fields(raw))
    }
}

} // verus!
