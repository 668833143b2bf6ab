use teaching_eval::page::{extract, field_names, form_token, login_token, MalformedPage};
use teaching_eval::text::{
    all_fields_of, chars_of, contains, find_close, find_field, find_fields, find_from,
    first_field_of, matches_at, slice_of,
};

fn chars(s: &str) -> Vec<char> {
    s.chars().collect()
}

fn evaluation_page(token: &str, inputs: usize) -> String {
    let mut page = String::from("<html>\n<body>\n<form>\n");
    page.push_str(&format!(
        "<input type=\"hidden\" id=\"tokenValue\" name=\"tokenValue\" value=\"{}\"/>\n",
        token
    ));
    for k in 0..inputs {
        page.push_str(&format!("<input type=\"radio\" name=\"q{}\" value=\"x\"/>\n", k));
    }
    page.push_str("</form>\n</body>\n</html>\n");
    page
}

#[test]
fn chars_of_keeps_every_scalar_value() {
    assert_eq!(chars_of("a欢b"), vec!['a', '欢', 'b']);
    assert_eq!(chars_of(""), Vec::<char>::new());
}

#[test]
fn matches_at_tells_where_a_needle_stands() {
    let hay = chars("abcabc");
    let needle = chars("bc");
    assert!(matches_at(&hay, &needle, 1));
    assert!(matches_at(&hay, &needle, 4));
    assert!(!matches_at(&hay, &needle, 0));
    assert!(!matches_at(&hay, &needle, 5));
    assert!(!matches_at(&hay, &needle, 7));
    assert!(matches_at(&hay, &chars(""), 6));
}

#[test]
fn find_from_returns_the_leftmost_position() {
    let hay = chars("abcabc");
    let needle = chars("bc");
    assert_eq!(find_from(&hay, &needle, 0), Some(1));
    assert_eq!(find_from(&hay, &needle, 2), Some(4));
    assert_eq!(find_from(&hay, &needle, 5), None);
    assert_eq!(find_from(&hay, &chars("abcabcd"), 0), None);
}

#[test]
fn contains_finds_text_that_is_not_ascii() {
    assert!(contains(&chars("<p>欢迎您, 同学</p>"), &chars("欢迎您")));
    assert!(!contains(&chars("<p>欢迎</p>"), &chars("欢迎您")));
}

#[test]
fn find_close_stops_at_a_line_feed() {
    let hay = chars("ab\"cd\ne\"");
    let close = chars("\"");
    assert_eq!(find_close(&hay, &close, 0), Some(2));
    assert_eq!(find_close(&hay, &close, 3), None);
    assert_eq!(find_close(&hay, &close, 6), Some(7));
    assert_eq!(find_close(&hay, &close, 9), None);
}

#[test]
fn find_field_skips_an_opening_that_never_closes_on_its_line() {
    let hay = chars("x=[one\nx=[two]");
    assert_eq!(find_field(&hay, &chars("x=["), &chars("]"), 0), Some((7, 13)));
    assert_eq!(find_field(&hay, &chars("x=["), &chars("]"), 8), None);
}

#[test]
fn find_fields_lists_fields_from_left_to_right() {
    let hay = chars(" name=\"a\" name=\"b\"");
    assert_eq!(find_fields(&hay, &chars(" name=\""), &chars("\"")), vec![(0, 8), (9, 17)]);
}

#[test]
fn slice_of_counts_characters_not_bytes() {
    assert_eq!(slice_of("a欢迎b", 1, 3), "欢迎");
    assert_eq!(slice_of("abc", 1, 1), "");
}

#[test]
fn first_field_takes_the_shortest_content() {
    assert_eq!(first_field_of("k=\"a\" k=\"b\"", "k=\"", "\""), Some(String::from("a")));
    assert_eq!(first_field_of("k=\"\"", "k=\"", "\""), Some(String::new()));
    assert_eq!(first_field_of("k='a'", "k=\"", "\""), None);
}

#[test]
fn all_fields_keep_duplicates() {
    assert_eq!(
        all_fields_of("<i name=\"m\"><i name=\"m\"><i name=\"n\">", " name=\"", "\""),
        vec![String::from("m"), String::from("m"), String::from("n")]
    );
}

#[test]
fn login_token_is_read_from_the_login_page() {
    let page = "<form><input type=\"hidden\" id=\"tokenValue\" name=\"tokenValue\" value=\"f3a9\"></form>";
    assert_eq!(login_token(page), Ok(String::from("f3a9")));
}

#[test]
fn login_token_missing_is_an_error() {
    assert_eq!(login_token("<form></form>"), Err(MalformedPage::TokenMissing));
    let self_closed = "<input type=\"hidden\" id=\"tokenValue\" name=\"tokenValue\" value=\"f3a9\"/>";
    assert_eq!(login_token(self_closed), Err(MalformedPage::TokenMissing));
}

#[test]
fn form_token_is_read_exactly() {
    let page = evaluation_page("0c5e-77ab", 3);
    assert_eq!(form_token(&page), Ok(String::from("0c5e-77ab")));
}

#[test]
fn form_token_may_be_empty() {
    let page = evaluation_page("", 3);
    assert_eq!(form_token(&page), Ok(String::new()));
}

#[test]
fn form_token_is_not_read_across_lines() {
    let page = "<input type=\"hidden\" id=\"tokenValue\" name=\"tokenValue\" value=\"ab\ncd\"/>";
    assert_eq!(form_token(page), Err(MalformedPage::TokenMissing));
}

#[test]
fn first_of_two_tokens_wins() {
    let mut page = evaluation_page("first", 1);
    page.push_str(&evaluation_page("second", 1));
    assert_eq!(form_token(&page), Ok(String::from("first")));
}

#[test]
fn field_names_come_in_document_order() {
    let page = evaluation_page("t", 3);
    assert_eq!(
        field_names(&page),
        vec![
            String::from("tokenValue"),
            String::from("q0"),
            String::from("q1"),
            String::from("q2")
        ]
    );
}

#[test]
fn field_names_of_a_page_without_inputs_are_empty() {
    assert_eq!(field_names("<html></html>"), Vec::<String>::new());
}

#[test]
fn extract_returns_token_and_names() {
    let page = evaluation_page("tok", 2);
    match extract(&page) {
        Ok(form) => {
            assert_eq!(form.token, "tok");
            assert_eq!(form.field_names.len(), 3);
            assert_eq!(form.field_names[1], "q0");
        }
        Err(e) => panic!("unexpected error {:?}", e),
    }
}

#[test]
fn extract_without_token_fails() {
    let page = "<input name=\"q0\">";
    assert!(matches!(extract(page), Err(MalformedPage::TokenMissing)));
    assert!(matches!(extract(""), Err(MalformedPage::TokenMissing)));
}

#[test]
fn a_page_with_only_the_token_has_one_name() {
    match extract(&evaluation_page("tok", 0)) {
        Ok(form) => assert_eq!(form.field_names, vec![String::from("tokenValue")]),
        Err(e) => panic!("unexpected error {:?}", e),
    }
}
