//! The error taxonomy of the service and its mapping to HTTP.

use vstd::prelude::*;

verus! {

/// A field of a user request.
#[derive(Clone, Copy, Debug, PartialEq, Eq, Structural)]
pub enum Field {
    Name,
    Email,
}

/// The rule that a field broke.
#[derive(Clone, Copy, Debug, PartialEq, Eq, Structural)]
pub enum Rule {
    /// The field is empty or holds white space only.
    EmptyField,
    /// The field does not follow the grammar asked of it.
    InvalidFormat,
}

/// One field-level validation failure.
#[derive(Clone, Copy, Debug, PartialEq, Eq, Structural)]
pub struct FieldFailure {
    pub field: Field,
    pub rule: Rule,
}

/// Why a credential was refused.
#[derive(Clone, Copy, Debug, PartialEq, Eq, Structural)]
pub enum AuthFailure {
    /// No bearer credential came with the request.
    MissingHeader,
    /// The credential is malformed, wrongly signed or expired.
    InvalidToken,
    /// The login pair is not the expected one.
    InvalidCredentials,
}

/// What a store reports when a statement fails.
#[derive(Debug, PartialEq, Eq)]
pub enum StoreFailure {
    /// The uniqueness rule on an address or a slug refused the write.
    UniqueViolation,
    /// Any other failure, an identifier already in use among them, with
    /// the store's own words.
    Other(String),
}

/// The mathematical value of a [`StoreFailure`].
pub enum StoreFailureView {
    UniqueViolation,
    Other(Seq<char>),
}

impl View for StoreFailure {
    type V = StoreFailureView;

    open spec fn view(&self) -> StoreFailureView {
        match self {
            StoreFailure::UniqueViolation => StoreFailureView::UniqueViolation,
            StoreFailure::Other(detail) => StoreFailureView::Other(detail@),
        }
    }
}

/// The errors that the service hands to its callers.
#[derive(Debug, PartialEq, Eq)]
pub enum AppError {
    /// The request is malformed; the failures are listed field by field.
    ValidationFailed(Vec<FieldFailure>),
    /// A uniqueness rule would be broken.
    Conflict,
    /// No record answers to the identifier or slug; the text names it.
    NotFound(String),
    /// The credential is missing, invalid or expired.
    Unauthorized(AuthFailure),
    /// The request cannot be understood; the text says why.
    BadRequest(String),
    /// The store failed; the text is for the server's log only.
    StoreError(String),
    /// The server failed outside the store; the text is a fixed phrase that
    /// may be shown.
    Internal(String),
}

/// The mathematical value of an [`AppError`].
pub enum AppErrorView {
    ValidationFailed(Seq<FieldFailure>),
    Conflict,
    NotFound(Seq<char>),
    Unauthorized(AuthFailure),
    BadRequest(Seq<char>),
    StoreError(Seq<char>),
    Internal(Seq<char>),
}

impl View for AppError {
    type V = AppErrorView;

    open spec fn view(&self) -> AppErrorView {
        match self {
            AppError::ValidationFailed(failures) => AppErrorView::ValidationFailed(failures@),
            AppError::Conflict => AppErrorView::Conflict,
            AppError::NotFound(what) => AppErrorView::NotFound(what@),
            AppError::Unauthorized(why) => AppErrorView::Unauthorized(*why),
            AppError::BadRequest(why) => AppErrorView::BadRequest(why@),
            AppError::StoreError(detail) => AppErrorView::StoreError(detail@),
            AppError::Internal(what) => AppErrorView::Internal(what@),
        }
    }
}

/// The HTTP status that answers an error.
pub open spec fn status_of(e: AppErrorView) -> u16 {
    match e {
        AppErrorView::ValidationFailed(_) => 400,
        AppErrorView::Conflict => 400,
        AppErrorView::NotFound(_) => 404,
        AppErrorView::Unauthorized(_) => 401,
        AppErrorView::BadRequest(_) => 400,
        AppErrorView::StoreError(_) => 500,
        AppErrorView::Internal(_) => 500,
    }
}

/// The words for one failure: the field, then what is wrong with it.
pub open spec fn failure_text(f: FieldFailure) -> Seq<char> {
    let field = match f.field {
        Field::Name => "name"@,
        Field::Email => "email"@,
    };
    let rule = match f.rule {
        Rule::EmptyField => " must not be empty"@,
        Rule::InvalidFormat => " has an invalid format"@,
    };
    field + rule
}

/// The failures' words in order, separated by `"; "`.
pub open spec fn failures_text(failures: Seq<FieldFailure>) -> Seq<char>
    decreases failures.len(),
{
    if failures.len() == 0 {
        Seq::empty()
    } else if failures.len() == 1 {
        failure_text(failures[0])
    } else {
        failures_text(failures.drop_last()) + "; "@ + failure_text(failures.last())
    }
}

/// The words for a refused credential.
pub open spec fn auth_text(why: AuthFailure) -> Seq<char> {
    match why {
        AuthFailure::MissingHeader => "Missing authorization header"@,
        AuthFailure::InvalidToken => "Invalid token"@,
        AuthFailure::InvalidCredentials => "Invalid credentials"@,
    }
}

/// The message that may leave the server for an error. A store failure's
/// detail is no part of it.
pub open spec fn public_text(e: AppErrorView) -> Seq<char> {
    match e {
        AppErrorView::ValidationFailed(failures) => "Validation failed: "@ + failures_text(
            failures,
        ),
        AppErrorView::Conflict => "Email already exists"@,
        AppErrorView::NotFound(what) => what,
        AppErrorView::Unauthorized(why) => auth_text(why),
        AppErrorView::BadRequest(why) => why,
        AppErrorView::StoreError(_) => "Internal server error"@,
        AppErrorView::Internal(what) => what,
    }
}

/// The message stored in `NotFound` for a user identifier.
pub open spec fn missing_user_text(id: Seq<char>) -> Seq<char> {
    "User with id '"@ + id + "' not found"@
}

impl FieldFailure {
    /// The words for this failure.
    pub fn text(&self) -> (r: String)
        ensures
            r@ == failure_text(*self),
    {
        let mut out = match self.field {
            Field::Name => String::from_str("name"),
            Field::Email => String::from_str("email"),
        };
        match self.rule {
            Rule::EmptyField => out.append(" must not be empty"),
            Rule::InvalidFormat => out.append(" has an invalid format"),
        }
        out
    }
}

impl AuthFailure {
    /// The words for this refusal.
    pub fn text(&self) -> (r: String)
        ensures
            r@ == auth_text(*self),
    {
        match self {
            AuthFailure::MissingHeader => String::from_str("Missing authorization header"),
            AuthFailure::InvalidToken => String::from_str("Invalid token"),
            AuthFailure::InvalidCredentials => String::from_str("Invalid credentials"),
        }
    }
}

impl AppError {
    /// The error for a user identifier that no row answers to.
    pub fn missing_user(id: &str) -> (r: AppError)
        ensures
            r@ == AppErrorView::NotFound(missing_user_text(id@)),
    {
        let mut text = String::from_str("User with id '");
        text.append(id);
        text.append("' not found");
        AppError::NotFound(text)
    }

    /// The error for a failed statement: a uniqueness violation is a
    /// conflict, anything else a store error that keeps the store's words.
    pub fn from_store(failure: StoreFailure) -> (r: AppError)
        ensures
            r@ == match failure@ {
                StoreFailureView::UniqueViolation => AppErrorView::Conflict,
                StoreFailureView::Other(detail) => AppErrorView::StoreError(detail),
            },
    {
        match failure {
            StoreFailure::UniqueViolation => AppError::Conflict,
            StoreFailure::Other(detail) => AppError::StoreError(detail),
        }
    }

    /// The HTTP status that answers this error: exactly one per kind.
    pub fn status_code(&self) -> (r: u16)
        ensures
            r == status_of(self@),
    {
        match self {
            AppError::ValidationFailed(_) => 400,
            AppError::Conflict => 400,
            AppError::NotFound(_) => 404,
            AppError::Unauthorized(_) => 401,
            AppError::BadRequest(_) => 400,
            AppError::StoreError(_) => 500,
            AppError::Internal(_) => 500,
        }
    }

    /// The message for the response body. For a store error it is a fixed
    /// text, whatever the store said.
    pub fn public_message(&self) -> (r: String)
        ensures
            r@ == public_text(self@),
    {
        match self {
            AppError::ValidationFailed(failures) => {
                let mut out = String::from_str("Validation failed: ");
                let n = failures.len();
                let mut i: usize = 0;
                let ghost head = out@;
                proof {
                    assert(head + failures_text(failures@.subrange(0, 0)) == head);
                }
                while i < n
                    invariant
                        i <= n,
                        n == failures@.len(),
                        head == "Validation failed: "@,
                        out@ == head + failures_text(failures@.subrange(0, i as int)),
                    decreases n - i,
                {
                    let ghost done = failures@.subrange(0, i as int);
                    let ghost next = failures@.subrange(0, i + 1);
                    proof {
                        assert(next.drop_last() == done);
                        assert(next.last() == failures@[i as int]);
                    }
                    if i > 0 {
                        out.append("; ");
                    }
                    let words = failures[i].text();
                    out.append(words.as_str());
                    proof {
                        if i == 0 {
                            assert(failures_text(done) == Seq::<char>::empty());
                            assert(next[0] == failures@[0]);
                            assert(head + Seq::<char>::empty() + words@ == head + failures_text(
                                next,
                            ));
                        } else {
                            assert(head + failures_text(done) + "; "@ + words@ == head + (
                            failures_text(done) + "; "@ + words@));
                        }
                    }
                    i += 1;
                }
                proof {
                    assert(failures@.subrange(0, n as int) == failures@);
                }
                out
            },
            AppError::Conflict => String::from_str("Email already exists"),
            AppError::NotFound(what) => what.clone(),
            AppError::Unauthorized(why) => why.text(),
            AppError::BadRequest(why) => why.clone(),
            AppError::StoreError(_) => String::from_str("Internal server error"),
            AppError::Internal(what) => what.clone(),
        }
    }

    /// What the server's log records for this error and nobody else sees: the
    /// store's own words, where the store failed.
    pub fn log_detail(&self) -> (r: Option<String>)
        ensures
            match self@ {
                AppErrorView::StoreError(detail) => r matches Some(text) && text@ == detail,
                _ => r is None,
            },
    {
        match self {
            AppError::StoreError(detail) => Some(detail.clone()),
            _ => None,
        }
    }
}

/// What is written to the server's log for a store failure.
pub open spec fn failure_detail(e: StoreFailureView) -> Seq<char> {
    match e {
        StoreFailureView::UniqueViolation => "unique constraint violated"@,
        StoreFailureView::Other(detail) => detail,
    }
}

/// The store error for a failure that is no conflict to the caller.
pub fn store_error(failure: StoreFailure) -> (r: AppError)
    ensures
        r@ == AppErrorView::StoreError(failure_detail(failure@)),
{
    match failure {
        StoreFailure::UniqueViolation => AppError::StoreError(
            String::from_str("unique constraint violated"),
        ),
        StoreFailure::Other(detail) => AppError::StoreError(detail),
    }
}

} // verus!
