//! Shape checks on user requests. They read the request and nothing else.

use vstd::prelude::*;
use crate::errors::{AppError, AppErrorView, Field, FieldFailure, Rule};
use crate::models::{CreateUserRequest, UpdateUserRequest};
use crate::text::{all_spaces, is_blank};

verus! {

/// Whether the `validator` crate's e-mail check accepts a text.
pub uninterp spec fn html5_email(text: Seq<char>) -> bool;

/// Asks `validator::ValidateEmail::validate_email` whether a text is an
/// e-mail address in the sense of the HTML5 specification. The answer depends
/// on the text alone; the contract names it and says no more.
#[verifier::external_body]
pub(crate) fn grammar_accepts(email: &str) -> (r: bool)
    ensures
        r == html5_email(email@),
{
    validator::ValidateEmail::validate_email(&email)
}

/// The index of the last `@` in `s`, or -1 if there is none.
pub open spec fn last_at(s: Seq<char>) -> int
    decreases s.len(),
{
    if s.len() == 0 {
        -1
    } else if s.last() == '@' {
        s.len() - 1
    } else {
        last_at(s.drop_last())
    }
}

/// What follows the last `@` of `s`; all of `s` if it holds none.
pub open spec fn domain_of(s: Seq<char>) -> Seq<char> {
    s.subrange(last_at(s) + 1, s.len() as int)
}

/// An address is usable when the grammar accepts it, it holds an `@`, and
/// its domain holds a dot.
pub open spec fn usable_email(s: Seq<char>, grammar_ok: bool) -> bool {
    grammar_ok && s.contains('@') && domain_of(s).contains('.')
}

/// The rule for e-mail addresses, with the grammar's answer filled in.
pub open spec fn valid_email(s: Seq<char>) -> bool {
    usable_email(s, html5_email(s))
}

/// `last_at` finds an `@` exactly when there is one, and none stands after it.
pub proof fn lemma_last_at(s: Seq<char>)
    ensures
        -1 <= last_at(s) < s.len(),
        last_at(s) >= 0 <==> s.contains('@'),
        last_at(s) >= 0 ==> s[last_at(s)] == '@',
        forall|i: int| last_at(s) < i < s.len() ==> s[i] != '@',
    decreases s.len(),
{
    if s.len() == 0 {
    } else if s.last() == '@' {
        assert(s[s.len() - 1] == '@');
    } else {
        let t = s.drop_last();
        lemma_last_at(t);
        if t.contains('@') {
            let k = choose|k: int| 0 <= k < t.len() && t[k] == '@';
            assert(s[k] == '@');
        }
        if s.contains('@') {
            let k = choose|k: int| 0 <= k < s.len() && s[k] == '@';
            assert(t[k] == '@');
        }
        assert forall|i: int| last_at(s) < i < s.len() implies s[i] != '@' by {
            if i < t.len() {
                assert(t[i] == s[i]);
            }
        }
    }
}

/// Applies the e-mail rule to an address, given the grammar's answer for it.
pub fn email_verdict(email: &str, grammar_ok: bool) -> (r: bool)
    ensures
        r == usable_email(email@, grammar_ok),
{
    let n = email.unicode_len();
    let mut i: usize = n;
    let mut dot = false;
    proof {
        lemma_last_at(email@);
    }
    while i > 0
        invariant
            i <= n,
            n == email@.len(),
            forall|j: int| i <= j < n ==> email@[j] != '@',
            dot == email@.subrange(i as int, n as int).contains('.'),
        decreases i,
    {
        let c = email.get_char(i - 1);
        if c == '@' {
            proof {
                lemma_last_at(email@);
                assert(email@[i - 1] == '@');
                assert(last_at(email@) == i - 1) by {
                    if last_at(email@) < i - 1 {
                        assert(email@[i - 1] != '@');
                    }
                }
            }
            return grammar_ok && dot;
        }
        proof {
            let shorter = email@.subrange(i as int, n as int);
            let longer = email@.subrange(i - 1, n as int);
            assert(longer[0] == c);
            if shorter.contains('.') {
                let k = choose|k: int| 0 <= k < shorter.len() && shorter[k] == '.';
                assert(longer[k + 1] == '.');
            }
            if longer.contains('.') && c != '.' {
                let k = choose|k: int| 0 <= k < longer.len() && longer[k] == '.';
                assert(shorter[k - 1] == '.');
            }
        }
        if c == '.' {
            dot = true;
        }
        i -= 1;
    }
    proof {
        lemma_last_at(email@);
        assert(!email@.contains('@'));
    }
    false
}

/// Applies the e-mail rule to an address.
pub fn check_email(email: &str) -> (r: bool)
    ensures
        r == valid_email(email@),
{
    email_verdict(email, grammar_accepts(email))
}

/// The failure of a name, if it is blank.
pub open spec fn name_failures(name: Seq<char>) -> Seq<FieldFailure> {
    if all_spaces(name) {
        seq![FieldFailure { field: Field::Name, rule: Rule::EmptyField }]
    } else {
        Seq::empty()
    }
}

/// The failure of an address, if it is not usable.
pub open spec fn email_failures(email: Seq<char>, grammar_ok: bool) -> Seq<FieldFailure> {
    if usable_email(email, grammar_ok) {
        Seq::empty()
    } else {
        seq![FieldFailure { field: Field::Email, rule: Rule::InvalidFormat }]
    }
}

/// The failures of a create-request: the name's, then the address's.
pub open spec fn create_failures(
    name: Seq<char>,
    email: Seq<char>,
    grammar_ok: bool,
) -> Seq<FieldFailure> {
    name_failures(name) + email_failures(email, grammar_ok)
}

/// The failures of an update-request: a field that is absent cannot fail.
pub open spec fn update_failures(
    name: Option<Seq<char>>,
    email: Option<Seq<char>>,
    grammar_ok: bool,
) -> Seq<FieldFailure> {
    let of_name = match name {
        Some(text) => name_failures(text),
        None => Seq::empty(),
    };
    let of_email = match email {
        Some(text) => email_failures(text, grammar_ok),
        None => Seq::empty(),
    };
    of_name + of_email
}

/// The grammar's answer for an optional address; for none, `true`.
pub open spec fn grammar_answer(email: Option<Seq<char>>) -> bool {
    match email {
        Some(text) => html5_email(text),
        None => true,
    }
}

fn push_name_failures(name: &str, failures: &mut Vec<FieldFailure>)
    ensures
        final(failures)@ == old(failures)@ + name_failures(name@),
{
    if is_blank(name) {
        failures.push(FieldFailure { field: Field::Name, rule: Rule::EmptyField });
        assert(final(failures)@ =~= old(failures)@ + name_failures(name@));
    } else {
        assert(final(failures)@ =~= old(failures)@ + name_failures(name@));
    }
}

fn push_email_failures(email: &str, grammar_ok: bool, failures: &mut Vec<FieldFailure>)
    ensures
        final(failures)@ == old(failures)@ + email_failures(email@, grammar_ok),
{
    if !email_verdict(email, grammar_ok) {
        failures.push(FieldFailure { field: Field::Email, rule: Rule::InvalidFormat });
        assert(final(failures)@ =~= old(failures)@ + email_failures(email@, grammar_ok));
    } else {
        assert(final(failures)@ =~= old(failures)@ + email_failures(email@, grammar_ok));
    }
}

/// Checks a create-request, given the grammar's answer for its address.
/// The list is empty exactly when the request is valid.
pub fn validate_create_with(request: &CreateUserRequest, grammar_ok: bool) -> (r: Vec<
    FieldFailure,
>)
    ensures
        r@ == create_failures(request.name@, request.email@, grammar_ok),
{
    let mut failures: Vec<FieldFailure> = Vec::new();
    push_name_failures(request.name.as_str(), &mut failures);
    push_email_failures(request.email.as_str(), grammar_ok, &mut failures);
    assert(failures@ =~= create_failures(request.name@, request.email@, grammar_ok));
    failures
}

/// Checks a create-request: the name must not be blank and the address must
/// be usable.
pub fn validate_create(request: &CreateUserRequest) -> (r: Vec<FieldFailure>)
    ensures
        r@ == create_failures(request.name@, request.email@, html5_email(request.email@)),
{
    let grammar_ok = grammar_accepts(request.email.as_str());
    validate_create_with(request, grammar_ok)
}

/// Checks an update-request, given the grammar's answer for its address
/// (ignored where the request holds none).
pub fn validate_update_with(request: &UpdateUserRequest, grammar_ok: bool) -> (r: Vec<
    FieldFailure,
>)
    ensures
        r@ == update_failures(
            crate::text::opt_text(request.name),
            crate::text::opt_text(request.email),
            grammar_ok,
        ),
{
    let mut failures: Vec<FieldFailure> = Vec::new();
    match &request.name {
        Some(name) => push_name_failures(name.as_str(), &mut failures),
        None => {},
    }
    match &request.email {
        Some(email) => push_email_failures(email.as_str(), grammar_ok, &mut failures),
        None => {},
    }
    assert(failures@ =~= update_failures(
        crate::text::opt_text(request.name),
        crate::text::opt_text(request.email),
        grammar_ok,
    ));
    failures
}

/// Checks an update-request: each field that is present obeys the rule of
/// the create-request.
pub fn validate_update(request: &UpdateUserRequest) -> (r: Vec<FieldFailure>)
    ensures
        r@ == update_failures(
            crate::text::opt_text(request.name),
            crate::text::opt_text(request.email),
            grammar_answer(crate::text::opt_text(request.email)),
        ),
{
    let grammar_ok = match &request.email {
        Some(email) => grammar_accepts(email.as_str()),
        None => true,
    };
    validate_update_with(request, grammar_ok)
}

/// Judges a request by its failures: an empty list is accepted, any other
/// becomes the validation error that carries it.
pub fn verdict(failures: Vec<FieldFailure>) -> (r: Result<(), AppError>)
    ensures
        failures@.len() == 0 ==> r is Ok,
        failures@.len() > 0 ==> (r matches Err(e) && e@ == AppErrorView::ValidationFailed(
            failures@,
        )),
{
    if failures.len() == 0 {
        Ok(())
    } else {
        Err(AppError::ValidationFailed(failures))
    }
}

} // verus!
