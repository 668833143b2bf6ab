//! Structural scanning of portal pages: the hidden anti-forgery token and the
//! names of the form inputs, in document order.
//!
//! The scanner knows nothing of what a field means. It looks for fixed
//! markers and takes what stands between them.

use vstd::prelude::*;
use crate::text::{
    closes_at, field_at, first_field, is_first_field, lemma_first_field_of_parts,
    lemma_some_field_is_first, occurs_at, all_fields_of, field_texts, first_field_of, first_field_text, string_views};

verus! {

/// The opening of the hidden token input, up to and including the quote that
/// opens its value.
pub const TOKEN_OPEN: &'static str =
    "<input type=\"hidden\" id=\"tokenValue\" name=\"tokenValue\" value=\"";

/// What ends the token's value on the login page.
pub const LOGIN_TOKEN_CLOSE: &'static str = "\">";

/// What ends the token's value on an evaluation page.
pub const FORM_TOKEN_CLOSE: &'static str = "\"/>";

/// What opens the name of an input.
pub const NAME_OPEN: &'static str = " name=\"";

/// What ends the name of an input.
pub const NAME_CLOSE: &'static str = "\"";

/// Why a page could not be used.
#[derive(Debug, Clone, Copy, PartialEq, Eq, Structural)]
pub enum MalformedPage {
    /// The hidden token input was not found.
    TokenMissing,
    /// The page has fewer named inputs than the answer slots need.
    TooFewFields,
}

/// What an evaluation page yields: its token and the names of its inputs.
pub struct PageForm {
    pub token: String,
    pub field_names: Vec<String>,
}

/// The token that the login page carries, if it carries one.
pub open spec fn login_token_of(page: Seq<char>) -> Option<Seq<char>> {
    first_field_text(page, TOKEN_OPEN@, LOGIN_TOKEN_CLOSE@, 0)
}

/// The token that an evaluation page carries, if it carries one.
pub open spec fn form_token_of(page: Seq<char>) -> Option<Seq<char>> {
    first_field_text(page, TOKEN_OPEN@, FORM_TOKEN_CLOSE@, 0)
}

/// The names of the inputs of a page, in document order, duplicates kept.
pub open spec fn field_names_of(page: Seq<char>) -> Seq<Seq<char>> {
    field_texts(page, NAME_OPEN@, NAME_CLOSE@, 0)
}

/// The value of a token input: free of quotes and of line feeds.
pub open spec fn is_token_value(token: Seq<char>) -> bool {
    forall|k: int| 0 <= k < token.len() ==> token[k] != '"' && token[k] != '\n'
}

/// A login page that is `before`, the hidden token input with the value
/// `token`, and `after`, with no such input opening earlier, carries exactly
/// `token`.
pub proof fn lemma_login_token_is_read(before: Seq<char>, token: Seq<char>, after: Seq<char>)
    requires
        is_token_value(token),
        forall|a: int|
            0 <= a < before.len() ==> !occurs_at(
                before + TOKEN_OPEN@ + token + LOGIN_TOKEN_CLOSE@ + after,
                TOKEN_OPEN@,
                a,
            ),
    ensures
        login_token_of(before + TOKEN_OPEN@ + token + LOGIN_TOKEN_CLOSE@ + after) == Some(token),
{
    reveal_strlit("\">");
    lemma_first_field_of_parts(before, TOKEN_OPEN@, token, LOGIN_TOKEN_CLOSE@, after);
}

/// An evaluation page that is `before`, the hidden token input with the
/// value `token`, and `after`, with no such input opening earlier, carries
/// exactly `token`.
pub proof fn lemma_form_token_is_read(before: Seq<char>, token: Seq<char>, after: Seq<char>)
    requires
        is_token_value(token),
        forall|a: int|
            0 <= a < before.len() ==> !occurs_at(
                before + TOKEN_OPEN@ + token + FORM_TOKEN_CLOSE@ + after,
                TOKEN_OPEN@,
                a,
            ),
    ensures
        form_token_of(before + TOKEN_OPEN@ + token + FORM_TOKEN_CLOSE@ + after) == Some(token),
{
    reveal_strlit("\"/>");
    lemma_first_field_of_parts(before, TOKEN_OPEN@, token, FORM_TOKEN_CLOSE@, after);
}

/// The hidden token input is itself a named input: a page that holds it has
/// at least one input name.
pub proof fn lemma_token_input_is_named(page: Seq<char>, i: int)
    requires
        occurs_at(page, TOKEN_OPEN@, i),
    ensures
        field_names_of(page).len() > 0,
{
    reveal_strlit("<input type=\"hidden\" id=\"tokenValue\" name=\"tokenValue\" value=\"");
    reveal_strlit(" name=\"");
    reveal_strlit("\"");
    let marker = TOKEN_OPEN@;
    assert(marker.len() == 62);
    assert forall|k: int| 0 <= k < 62 implies page[i + k] == marker[k] by {
        assert(page.subrange(i, i + 62)[k] == marker[k]);
    }
    let a = i + 36;
    let start = a + 7;
    let end = start + 10;
    assert(page.subrange(a, a + 7) =~= NAME_OPEN@) by {
        assert forall|k: int| 0 <= k < 7 implies page.subrange(a, a + 7)[k] == NAME_OPEN@[k] by {
            assert(page[i + (36 + k)] == marker[36 + k]);
        }
    }
    assert(page.subrange(end, end + 1) =~= NAME_CLOSE@) by {
        assert(page[i + 53] == marker[53]);
    }
    assert forall|k: int| start <= k < end implies page[k] != '\n' && !occurs_at(
        page,
        NAME_CLOSE@,
        k,
    ) by {
        assert(page[i + (k - i)] == marker[k - i]);
        if occurs_at(page, NAME_CLOSE@, k) {
            assert(page.subrange(k, k + 1)[0] == NAME_CLOSE@[0]);
        }
    }
    assert(closes_at(page, NAME_CLOSE@, start, end));
    assert(field_at(page, NAME_OPEN@, NAME_CLOSE@, a, end));
    lemma_some_field_is_first(page, NAME_OPEN@, NAME_CLOSE@, 0, a, end);
}

/// A page that carries a token has at least one input name.
pub proof fn lemma_page_with_token_has_names(page: Seq<char>)
    requires
        form_token_of(page) is Some || login_token_of(page) is Some,
    ensures
        field_names_of(page).len() > 0,
{
    if form_token_of(page) is Some {
        let (i, j) = choose|i: int, j: int| is_first_field(page, TOKEN_OPEN@, FORM_TOKEN_CLOSE@, 0, i, j);
        assert(first_field(page, TOKEN_OPEN@, FORM_TOKEN_CLOSE@, 0) is Some);
        assert(field_at(page, TOKEN_OPEN@, FORM_TOKEN_CLOSE@, i, j));
        lemma_token_input_is_named(page, i);
    } else {
        let (i, j) = choose|i: int, j: int| is_first_field(page, TOKEN_OPEN@, LOGIN_TOKEN_CLOSE@, 0, i, j);
        assert(first_field(page, TOKEN_OPEN@, LOGIN_TOKEN_CLOSE@, 0) is Some);
        assert(field_at(page, TOKEN_OPEN@, LOGIN_TOKEN_CLOSE@, i, j));
        lemma_token_input_is_named(page, i);
    }
}

/// Reads the hidden token of the login page.
pub fn login_token(page: &str) -> (r: Result<String, MalformedPage>)
    ensures
        match r {
            Ok(token) => login_token_of(page@) == Some(token@),
            Err(e) => e == MalformedPage::TokenMissing && login_token_of(page@) == None::<
                Seq<char>,
            >,
        },
{
    match first_field_of(page, TOKEN_OPEN, LOGIN_TOKEN_CLOSE) {
        Some(token) => Ok(token),
        None => Err(MalformedPage::TokenMissing),
    }
}

/// Reads the hidden token of an evaluation page.
pub fn form_token(page: &str) -> (r: Result<String, MalformedPage>)
    ensures
        match r {
            Ok(token) => form_token_of(page@) == Some(token@),
            Err(e) => e == MalformedPage::TokenMissing && form_token_of(page@) == None::<
                Seq<char>,
            >,
        },
{
    match first_field_of(page, TOKEN_OPEN, FORM_TOKEN_CLOSE) {
        Some(token) => Ok(token),
        None => Err(MalformedPage::TokenMissing),
    }
}

/// Reads the names of the inputs of a page, in document order.
pub fn field_names(page: &str) -> (names: Vec<String>)
    ensures
        string_views(names@) == field_names_of(page@),
{
    proof {
        reveal_strlit(" name=\"");
    }
    all_fields_of(page, NAME_OPEN, NAME_CLOSE)
}

/// Reads the token and the input names of an evaluation page. The page is
/// refused where it holds no token; a page that holds one has input names,
/// the token input being the first of them at the latest.
pub fn extract(page: &str) -> (r: Result<PageForm, MalformedPage>)
    ensures
        match r {
            Ok(form) => {
                &&& form_token_of(page@) == Some(form.token@)
                &&& string_views(form.field_names@) == field_names_of(page@)
                &&& form.field_names@.len() > 0
            },
            Err(e) => e == MalformedPage::TokenMissing && form_token_of(page@) == None::<
                Seq<char>,
            >,
        },
{
    match form_token(page) {
        Err(e) => Err(e),
        Ok(token) => {
            let names = field_names(page);
            proof {
                lemma_page_with_token_has_names(page@);
            }
            Ok(PageForm { token, field_names: names })
        },
    }
}

} // verus!
