//! The login handshake: what is sent, how the answer is read, and how often
//! it is tried.
//!
//! The portal wants the password as the MD5 digest of its bytes, written in
//! lower-case hexadecimal. Every attempt stands for itself, with a token and
//! a challenge of its own; after `MAX_ATTEMPTS` failed attempts the client
//! gives up.

use md5::{Digest, Md5};
use vstd::prelude::*;
use crate::form::{form_view, put, FormField};
use crate::text::{chars_of, contains, first_field_of, first_field_text, occurs_in};

verus! {

/// What a page shows after a login that worked.
pub const WELCOME: &'static str = "欢迎您";

/// What stands in front of the message of a login that was refused.
pub const ERROR_OPEN: &'static str = "<strong>发生错误！</strong>";

/// What ends the message of a login that was refused.
pub const ERROR_CLOSE: &'static str = "!";

/// The number of attempts after which the client gives up.
pub const MAX_ATTEMPTS: usize = 3;

/// How the portal answered a login.
pub enum LoginResult {
    Success,
    /// The portal refused the login and gave this message.
    Failure(String),
}

/// The answer to a login shows neither the welcome nor a message of refusal:
/// the portal no longer speaks the protocol this client knows.
#[derive(Debug, Clone, Copy, PartialEq, Eq, Structural)]
pub struct ProtocolDrift;

/// How one attempt to log in ended.
#[derive(Debug, Clone, Copy, PartialEq, Eq, Structural)]
pub enum AttemptOutcome {
    /// The portal let the user in.
    Authenticated,
    /// The portal refused the credentials or the reading of the challenge.
    Refused,
    /// The challenge could not be read.
    CaptchaFailed,
    /// The portal could not be reached.
    TransportFailed,
    /// A page or an answer of the portal was not what the protocol expects.
    PageChanged,
}

/// What to do after an attempt.
#[derive(Debug, Clone, Copy, PartialEq, Eq, Structural)]
pub enum Decision {
    /// The session is authenticated.
    Proceed,
    /// Make another attempt.
    Retry,
    /// Too many attempts have failed.
    GiveUp,
    /// The portal has changed: stop at once.
    Abort,
}

/// How a series of attempts ended.
#[derive(Debug, Clone, Copy, PartialEq, Eq, Structural)]
pub enum LoginEnd {
    Authenticated,
    GaveUp,
    Aborted,
    /// The series held no outcome for the attempt that was due.
    Interrupted,
}

/// The attempts that were made, and how they ended.
#[derive(Debug, Clone, Copy, PartialEq, Eq, Structural)]
pub struct LoginReport {
    pub attempts: usize,
    pub end: LoginEnd,
}

/// The MD5 digest of the UTF-8 bytes of a text, in lower-case hexadecimal.
pub uninterp spec fn md5_hex(text: Seq<char>) -> Seq<char>;

/// The body of the login form.
pub open spec fn login_form_spec(
    username: Seq<char>,
    hashed_password: Seq<char>,
    captcha: Seq<char>,
    token: Seq<char>,
) -> Seq<(Seq<char>, Seq<char>)> {
    seq![
        ("j_username"@, username),
        ("j_password"@, hashed_password),
        ("j_captcha"@, captcha),
        ("tokenValue"@, token),
    ]
}

/// An attempt that neither succeeded nor showed that the portal has changed.
pub open spec fn is_failure(outcome: AttemptOutcome) -> bool {
    outcome is Refused || outcome is CaptchaFailed || outcome is TransportFailed
}

/// What to do after the attempt number `made`, counted from one.
pub open spec fn decision_of(made: int, outcome: AttemptOutcome) -> Decision {
    match outcome {
        AttemptOutcome::Authenticated => Decision::Proceed,
        AttemptOutcome::PageChanged => Decision::Abort,
        _ => if made < MAX_ATTEMPTS {
            Decision::Retry
        } else {
            Decision::GiveUp
        },
    }
}

/// The attempts made and the end reached when the outcomes of the attempts
/// are `outcomes` and `made` attempts lie behind.
pub open spec fn run_from(outcomes: Seq<AttemptOutcome>, made: int) -> (int, LoginEnd)
    decreases outcomes.len() - made,
{
    if made < 0 || made >= outcomes.len() {
        (made, LoginEnd::Interrupted)
    } else {
        match decision_of(made + 1, outcomes[made]) {
            Decision::Proceed => (made + 1, LoginEnd::Authenticated),
            Decision::Abort => (made + 1, LoginEnd::Aborted),
            Decision::GiveUp => (made + 1, LoginEnd::GaveUp),
            Decision::Retry => run_from(outcomes, made + 1),
        }
    }
}

/// The smaller of two numbers.
pub open spec fn least(a: int, b: int) -> int {
    if a <= b {
        a
    } else {
        b
    }
}

/// After `made` failures, with nothing but failures to come, the attempts
/// end at `MAX_ATTEMPTS` or when the outcomes run out.
proof fn lemma_failures_from(outcomes: Seq<AttemptOutcome>, made: int)
    requires
        0 <= made <= outcomes.len(),
        made < MAX_ATTEMPTS,
        forall|k: int| 0 <= k < outcomes.len() ==> is_failure(#[trigger] outcomes[k]),
    ensures
        run_from(outcomes, made).0 == least(outcomes.len() as int, MAX_ATTEMPTS as int),
        run_from(outcomes, made).1 == if outcomes.len() >= MAX_ATTEMPTS {
            LoginEnd::GaveUp
        } else {
            LoginEnd::Interrupted
        },
    decreases outcomes.len() - made,
{
    if made < outcomes.len() {
        assert(is_failure(outcomes[made]));
        if made + 1 < MAX_ATTEMPTS {
            lemma_failures_from(outcomes, made + 1);
        }
    }
}

/// Given nothing but failures, `n` of them, the client makes `n` attempts or
/// `MAX_ATTEMPTS`, whichever is less, and is never authenticated; with
/// `MAX_ATTEMPTS` failures or more it gives up.
pub proof fn lemma_attempts_are_bounded(outcomes: Seq<AttemptOutcome>)
    requires
        forall|k: int| 0 <= k < outcomes.len() ==> is_failure(#[trigger] outcomes[k]),
    ensures
        run_from(outcomes, 0).0 == least(outcomes.len() as int, MAX_ATTEMPTS as int),
        run_from(outcomes, 0).1 != LoginEnd::Authenticated,
        outcomes.len() >= MAX_ATTEMPTS ==> run_from(outcomes, 0).1 == LoginEnd::GaveUp,
{
    lemma_failures_from(outcomes, 0);
}

/// Whatever the outcomes, no more than `MAX_ATTEMPTS` attempts are made.
pub proof fn lemma_never_more_than_max(outcomes: Seq<AttemptOutcome>, made: int)
    requires
        0 <= made < MAX_ATTEMPTS,
    ensures
        run_from(outcomes, made).0 <= MAX_ATTEMPTS,
    decreases outcomes.len() - made,
{
    if made < outcomes.len() && made + 1 < MAX_ATTEMPTS {
        lemma_never_more_than_max(outcomes, made + 1);
    }
}

/// Calls `Md5::digest` of the `md-5` crate on the UTF-8 bytes of `text` and
/// formats the sixteen bytes it returns with `{:x}`. The contract gives the
/// result its name and claims nothing else of it.
#[verifier::external_body]
fn md5_lower_hex(text: &str) -> (hex: String)
    ensures
        hex@ == md5_hex(text@),
{
    format!("{:x}", Md5::digest(text.as_bytes()))
}

/// The password as the portal wants it.
pub fn hash_password(password: &str) -> (hashed: String)
    ensures
        hashed@ == md5_hex(password@),
{
    md5_lower_hex(password)
}

/// Builds the body of the login form from a password that has been hashed.
pub fn login_form_hashed(username: &str, hashed_password: &str, captcha: &str, token: &str) -> (form:
    Vec<FormField>)
    ensures
        form_view(form@) == login_form_spec(username@, hashed_password@, captcha@, token@),
{
    let mut form: Vec<FormField> = Vec::new();
    assert(form_view(form@) =~= Seq::empty());
    put(&mut form, "j_username", username);
    put(&mut form, "j_password", hashed_password);
    put(&mut form, "j_captcha", captcha);
    put(&mut form, "tokenValue", token);
    assert(form_view(form@) =~= login_form_spec(username@, hashed_password@, captcha@, token@));
    form
}

/// Builds the body of the login form.
pub fn login_form(username: &str, password: &str, captcha: &str, token: &str) -> (form: Vec<
    FormField,
>)
    ensures
        form_view(form@) == login_form_spec(username@, md5_hex(password@), captcha@, token@),
{
    let hashed = hash_password(password);
    login_form_hashed(username, hashed.as_str(), captcha, token)
}

/// Reads the answer to a login: the welcome means success; without it, the
/// message of refusal is taken; without either, the protocol has drifted.
pub fn classify_login_response(body: &str) -> (r: Result<LoginResult, ProtocolDrift>)
    ensures
        match r {
            Ok(LoginResult::Success) => occurs_in(body@, WELCOME@),
            Ok(LoginResult::Failure(message)) => {
                &&& !occurs_in(body@, WELCOME@)
                &&& first_field_text(body@, ERROR_OPEN@, ERROR_CLOSE@, 0) == Some(message@)
            },
            Err(_) => {
                &&& !occurs_in(body@, WELCOME@)
                &&& first_field_text(body@, ERROR_OPEN@, ERROR_CLOSE@, 0) is None
            },
        },
{
    let page = chars_of(body);
    let welcome = chars_of(WELCOME);
    if contains(&page, &welcome) {
        return Ok(LoginResult::Success);
    }
    match first_field_of(body, ERROR_OPEN, ERROR_CLOSE) {
        Some(message) => Ok(LoginResult::Failure(message)),
        None => Err(ProtocolDrift),
    }
}

/// How an attempt ended, given the answer to its login.
pub fn outcome_of_answer(answer: &Result<LoginResult, ProtocolDrift>) -> (outcome: AttemptOutcome)
    ensures
        outcome == match answer {
            Ok(LoginResult::Success) => AttemptOutcome::Authenticated,
            Ok(LoginResult::Failure(_)) => AttemptOutcome::Refused,
            Err(_) => AttemptOutcome::PageChanged,
        },
{
    match answer {
        Ok(LoginResult::Success) => AttemptOutcome::Authenticated,
        Ok(LoginResult::Failure(_)) => AttemptOutcome::Refused,
        Err(_) => AttemptOutcome::PageChanged,
    }
}

/// Decides what to do after the attempt number `made`, counted from one.
pub fn decide(made: usize, outcome: AttemptOutcome) -> (decision: Decision)
    ensures
        decision == decision_of(made as int, outcome),
{
    match outcome {
        AttemptOutcome::Authenticated => Decision::Proceed,
        AttemptOutcome::PageChanged => Decision::Abort,
        _ => if made < MAX_ATTEMPTS {
            Decision::Retry
        } else {
            Decision::GiveUp
        },
    }
}

/// Plays a series of attempts whose outcomes are given, one outcome for each
/// attempt, and reports how many were made and how the series ended.
pub fn replay(outcomes: &Vec<AttemptOutcome>) -> (report: LoginReport)
    ensures
        report.attempts == run_from(outcomes@, 0).0,
        report.end == run_from(outcomes@, 0).1,
{
    let mut made: usize = 0;
    while made < outcomes.len()
        invariant
            made <= outcomes.len(),
            run_from(outcomes@, 0) == run_from(outcomes@, made as int),
        decreases outcomes.len() - made,
    {
        let decision = decide(made + 1, outcomes[made]);
        match decision {
            Decision::Proceed => {
                return LoginReport { attempts: made + 1, end: LoginEnd::Authenticated };
            },
            Decision::Abort => {
                return LoginReport { attempts: made + 1, end: LoginEnd::Aborted };
            },
            Decision::GiveUp => {
                return LoginReport { attempts: made + 1, end: LoginEnd::GaveUp };
            },
            Decision::Retry => {
                made += 1;
            },
        }
    }
    LoginReport { attempts: made, end: LoginEnd::Interrupted }
}

} // verus!
