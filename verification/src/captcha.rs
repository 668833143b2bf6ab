//! The challenge that guards the login: how its image is handed to the
//! recognition service, and how the answer of the service is read.

use base64::engine::general_purpose::STANDARD;
use base64::Engine;
use vstd::prelude::*;
use vstd::string::*;
use crate::form::{form_view, put, FormField};
use crate::json::{Json, Reply};

verus! {

/// What stands in front of the encoded image.
pub const DATA_URI_PREFIX: &'static str = "data:image/png;base64,";

/// The kind of challenge, as the service numbers it.
pub const CHALLENGE_KIND: &'static str = "0";

/// The member of the answer that says whether the image was read.
pub const CODE_KEY: &'static str = "code";

/// The member of the answer that holds the text that was read.
pub const CAPTCHA_KEY: &'static str = "captcha";

/// The code of an answer that holds a reading.
pub const CODE_OK: i128 = 200;

/// The longest image that can be encoded: its encoding must have a length
/// that a `usize` holds.
pub const MAX_IMAGE_LEN: usize = (usize::MAX - 4) / 4 * 3;

/// Why the challenge could not be solved.
#[derive(Debug, Clone, Copy, PartialEq, Eq, Structural)]
pub enum CaptchaServiceError {
    /// The service gave no answer, or none that is a JSON document.
    NoAnswer,
    /// The answer of the service is not a reading with the code 200.
    UnexpectedAnswer,
}

/// The standard base64 encoding of `bytes`, with padding.
pub uninterp spec fn base64_standard(bytes: Seq<u8>) -> Seq<char>;

/// The body of the request to the recognition service.
pub open spec fn recognition_form_spec(data_uri: Seq<char>) -> Seq<(Seq<char>, Seq<char>)> {
    seq![("base64img"@, data_uri), ("type"@, CHALLENGE_KIND@)]
}

/// The text that the service read, where its answer is an object whose
/// `code` is the integer 200 and whose `captcha` is a text.
pub open spec fn reading_of(body: Json) -> Option<Seq<char>> {
    match body.member(CODE_KEY@) {
        Some(code) => if code.integer() == Some(CODE_OK as int) {
            body.member_text(CAPTCHA_KEY@)
        } else {
            None
        },
        None => None,
    }
}

/// What a reply of the service amounts to: the text it read, or why there is
/// none.
pub open spec fn solution_of(reply: Reply) -> Result<Seq<char>, CaptchaServiceError> {
    match reply {
        Reply::Failed => Err(CaptchaServiceError::NoAnswer),
        Reply::Answer(body) => match reading_of(body) {
            Some(text) => Ok(text),
            None => Err(CaptchaServiceError::UnexpectedAnswer),
        },
    }
}

/// Calls `Engine::encode` of the `base64` crate on its engine `STANDARD`.
/// The call panics where the length of the encoding overflows a `usize`,
/// which `requires` rules out. The contract gives the result its name and
/// claims nothing else of it.
#[verifier::external_body]
fn encode_standard(bytes: &[u8]) -> (encoded: String)
    requires
        bytes@.len() <= MAX_IMAGE_LEN,
    ensures
        encoded@ == base64_standard(bytes@),
{
    STANDARD.encode(bytes)
}

/// The data URI of an image whose encoding is `encoded`.
pub fn data_uri_of(encoded: &str) -> (uri: String)
    ensures
        uri@ == DATA_URI_PREFIX@ + encoded@,
{
    let mut uri = String::from_str(DATA_URI_PREFIX);
    uri.append(encoded);
    uri
}

/// The data URI of the image of a challenge. The image must be short enough
/// for its encoding to have a length that a `usize` holds.
pub fn captcha_data_uri(image: &[u8]) -> (uri: String)
    requires
        image@.len() <= MAX_IMAGE_LEN,
    ensures
        uri@ == DATA_URI_PREFIX@ + base64_standard(image@),
{
    let encoded = encode_standard(image);
    data_uri_of(encoded.as_str())
}

/// Builds the body of the request to the recognition service.
pub fn recognition_form(data_uri: &str) -> (form: Vec<FormField>)
    ensures
        form_view(form@) == recognition_form_spec(data_uri@),
{
    let mut form: Vec<FormField> = Vec::new();
    assert(form_view(form@) =~= Seq::empty());
    put(&mut form, "base64img", data_uri);
    put(&mut form, "type", CHALLENGE_KIND);
    assert(form_view(form@) =~= recognition_form_spec(data_uri@));
    form
}

/// Reads the answer of the recognition service.
pub fn read_recognition(body: &Json) -> (r: Option<String>)
    ensures
        match r {
            Some(text) => reading_of(*body) == Some(text@),
            None => reading_of(*body) is None,
        },
{
    let code_ok = match body.get(CODE_KEY) {
        Some(code) => match code.as_integer() {
            Some(n) => n == CODE_OK,
            None => false,
        },
        None => false,
    };
    if !code_ok {
        return None;
    }
    match body.get_text(CAPTCHA_KEY) {
        Some(text) => Some(text.clone()),
        None => None,
    }
}

/// Reads what came back from the recognition service: the text of the
/// challenge, or why there is none.
pub fn solve(reply: &Reply) -> (r: Result<String, CaptchaServiceError>)
    ensures
        match r {
            Ok(text) => solution_of(*reply) == Ok::<Seq<char>, CaptchaServiceError>(text@),
            Err(e) => solution_of(*reply) == Err::<Seq<char>, CaptchaServiceError>(e),
        },
{
    match reply {
        Reply::Failed => Err(CaptchaServiceError::NoAnswer),
        Reply::Answer(body) => match read_recognition(body) {
            Some(text) => Ok(text),
            None => Err(CaptchaServiceError::UnexpectedAnswer),
        },
    }
}

} // verus!
