//! Errors with a machine-readable code, the exit status that goes with it, and the
//! envelope printed for them.

use vstd::prelude::*;
use crate::json;
use crate::json::JsonView;
use crate::text::{opt_text, owned};

verus! {

/// The classes of failure, each with its exit status and its stable name.
#[derive(Clone, Copy, Debug, PartialEq, Eq, Structural)]
pub enum ErrorCode {
    Error,
    Network,
    AuthRequired,
    NotFound,
    RateLimited,
    InvalidInput,
    NoAccount,
}

impl ErrorCode {
    /// The process exit status for the code.
    pub open spec fn exit_status(self) -> int {
        match self {
            ErrorCode::Error => 1,
            ErrorCode::Network => 2,
            ErrorCode::AuthRequired => 3,
            ErrorCode::NotFound => 4,
            ErrorCode::RateLimited => 5,
            ErrorCode::InvalidInput => 6,
            ErrorCode::NoAccount => 7,
        }
    }

    /// The name of the code in error envelopes.
    pub open spec fn label(self) -> Seq<char> {
        match self {
            ErrorCode::Error => "error"@,
            ErrorCode::Network => "network"@,
            ErrorCode::AuthRequired => "auth_required"@,
            ErrorCode::NotFound => "not_found"@,
            ErrorCode::RateLimited => "rate_limited"@,
            ErrorCode::InvalidInput => "invalid_input"@,
            ErrorCode::NoAccount => "no_account"@,
        }
    }

    /// The process exit status for the code.
    pub fn exit_code(self) -> (res: i32)
        ensures
            res == self.exit_status(),
    {
        match self {
            ErrorCode::Error => 1,
            ErrorCode::Network => 2,
            ErrorCode::AuthRequired => 3,
            ErrorCode::NotFound => 4,
            ErrorCode::RateLimited => 5,
            ErrorCode::InvalidInput => 6,
            ErrorCode::NoAccount => 7,
        }
    }

    /// The name of the code in error envelopes.
    pub fn as_str(self) -> (res: &'static str)
        ensures
            res@ == self.label(),
    {
        match self {
            ErrorCode::Error => "error",
            ErrorCode::Network => "network",
            ErrorCode::AuthRequired => "auth_required",
            ErrorCode::NotFound => "not_found",
            ErrorCode::RateLimited => "rate_limited",
            ErrorCode::InvalidInput => "invalid_input",
            ErrorCode::NoAccount => "no_account",
        }
    }
}

/// Different codes have different exit statuses and different names, so both the exit
/// status and the envelope identify the class of failure.
pub proof fn lemma_codes_are_distinct(a: ErrorCode, b: ErrorCode)
    requires
        a != b,
    ensures
        a.exit_status() != b.exit_status(),
        a.label() != b.label(),
{
    reveal_strlit("error");
    reveal_strlit("network");
    reveal_strlit("auth_required");
    reveal_strlit("not_found");
    reveal_strlit("rate_limited");
    reveal_strlit("invalid_input");
    reveal_strlit("no_account");
    if a.label() == b.label() {
        assert(a.label().len() == b.label().len());
        assert(a.label()[0] == b.label()[0]);
        assert(a.label()[1] == b.label()[1]);
        assert(a.label()[2] == b.label()[2]);
    }
}

/// A failure: its code, a message for people, and optionally what went wrong in detail
/// and how to fix it.
#[derive(Clone, Debug)]
pub struct Error {
    pub code: ErrorCode,
    pub message: String,
    pub detail: Option<String>,
    pub fix: Option<String>,
}

/// What an error says, as text.
pub struct ErrorView {
    pub code: ErrorCode,
    pub message: Seq<char>,
    pub detail: Option<Seq<char>>,
    pub fix: Option<Seq<char>>,
}

impl ErrorView {
    /// An error with the code and message, and no detail or remediation.
    pub open spec fn plain(code: ErrorCode, message: Seq<char>) -> ErrorView {
        ErrorView { code, message, detail: None, fix: None }
    }

    /// The same error with its detail set.
    pub open spec fn with_detail(self, detail: Seq<char>) -> ErrorView {
        ErrorView { detail: Some(detail), ..self }
    }

    /// The same error with its remediation set.
    pub open spec fn with_fix(self, fix: Seq<char>) -> ErrorView {
        ErrorView { fix: Some(fix), ..self }
    }
}

impl View for Error {
    type V = ErrorView;

    open spec fn view(&self) -> ErrorView {
        ErrorView {
            code: self.code,
            message: self.message@,
            detail: opt_text(self.detail),
            fix: opt_text(self.fix),
        }
    }
}

impl Error {
    /// An error with the code and message, and no detail or remediation.
    pub fn new(code: ErrorCode, message: String) -> (res: Error)
        ensures
            res@ == ErrorView::plain(code, message@),
    {
        Error { code, message, detail: None, fix: None }
    }

    /// An `invalid_input` error.
    pub fn invalid(message: String) -> (res: Error)
        ensures
            res@ == ErrorView::plain(ErrorCode::InvalidInput, message@),
    {
        Error::new(ErrorCode::InvalidInput, message)
    }

    /// An unclassified error.
    pub fn other(message: String) -> (res: Error)
        ensures
            res@ == ErrorView::plain(ErrorCode::Error, message@),
    {
        Error::new(ErrorCode::Error, message)
    }

    /// The same error with its detail set.
    pub fn detail(self, detail: String) -> (res: Error)
        ensures
            res@ == self@.with_detail(detail@),
    {
        Error { detail: Some(detail), ..self }
    }

    /// The same error with its remediation set.
    pub fn fix(self, fix: String) -> (res: Error)
        ensures
            res@ == self@.with_fix(fix@),
    {
        Error { fix: Some(fix), ..self }
    }

    /// The process exit status for the error.
    pub fn exit_code(&self) -> (res: i32)
        ensures
            res == self.code.exit_status(),
    {
        self.code.exit_code()
    }

    /// The members of the error envelope: `error` (the message), `code`, and `detail`
    /// and `remediation` where the error has them.
    pub open spec fn envelope(e: ErrorView) -> Map<Seq<char>, JsonView> {
        let base = json::no_members().insert("error"@, JsonView::Str(e.message)).insert(
            "code"@,
            JsonView::Str(e.code.label()),
        );
        let with_detail = match e.detail {
            Some(d) => base.insert("detail"@, JsonView::Str(d)),
            None => base,
        };
        match e.fix {
            Some(f) => with_detail.insert("remediation"@, JsonView::Str(f)),
            None => with_detail,
        }
    }

    /// What the envelope says: the message under `error`, the code's name under `code`,
    /// the detail under `detail` and the fix under `remediation` exactly when the error has
    /// them, and nothing else.
    pub proof fn lemma_envelope_members(e: ErrorView)
        ensures
            Error::envelope(e).contains_key("error"@),
            Error::envelope(e)["error"@] == JsonView::Str(e.message),
            Error::envelope(e).contains_key("code"@),
            Error::envelope(e)["code"@] == JsonView::Str(e.code.label()),
            Error::envelope(e).contains_key("detail"@) <==> e.detail is Some,
            e.detail matches Some(d) ==> Error::envelope(e)["detail"@] == JsonView::Str(d),
            Error::envelope(e).contains_key("remediation"@) <==> e.fix is Some,
            e.fix matches Some(f) ==> Error::envelope(e)["remediation"@] == JsonView::Str(f),
            forall|k: Seq<char>|
                Error::envelope(e).contains_key(k) ==> k == "error"@ || k == "code"@ || k
                    == "detail"@ || k == "remediation"@,
    {
        reveal_strlit("error");
        reveal_strlit("code");
        reveal_strlit("detail");
        reveal_strlit("remediation");
        assert("error"@.len() != "code"@.len());
        assert("error"@.len() != "detail"@.len());
        assert("error"@.len() != "remediation"@.len());
        assert("code"@.len() != "detail"@.len());
        assert("code"@.len() != "remediation"@.len());
        assert("detail"@.len() != "remediation"@.len());
    }

    /// The error envelope printed on stderr.
    pub fn to_json(&self) -> (res: serde_json::Value)
        ensures
            json::json_view(res) == JsonView::Object(Error::envelope(self@)),
    {
        let mut m = json::new_map();
        json::insert(&mut m, owned("error"), json::string(self.message.clone()));
        json::insert(&mut m, owned("code"), json::string(owned(self.code.as_str())));
        match &self.detail {
            Some(d) => json::insert(&mut m, owned("detail"), json::string(d.clone())),
            None => {},
        }
        match &self.fix {
            Some(f) => json::insert(&mut m, owned("remediation"), json::string(f.clone())),
            None => {},
        }
        json::object(m)
    }
}

} // verus!
