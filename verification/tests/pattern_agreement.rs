use regex::Regex;
use teaching_eval::login::{classify_login_response, LoginResult};
use teaching_eval::page::{field_names, form_token, login_token};
use teaching_eval::text::{all_fields_of, first_field_of};

fn pages() -> Vec<String> {
    let token_input = "<input type=\"hidden\" id=\"tokenValue\" name=\"tokenValue\" value=\"";
    let mut pages = vec![
        String::new(),
        String::from("\n"),
        String::from("<html></html>"),
        String::from(" name=\""),
        String::from(" name=\"\""),
        String::from(" name=\"a\" name=\"b\""),
        String::from(" name=\"a\n\" name=\"b\""),
        String::from(" name=\" name=\"b\""),
        String::from("<input name=\"课程\" value=\"1\"/>\r\n<input name=\"x y\">"),
        String::from("name=\"a\"  name=\"b\"\n name='c' name=\"d"),
        format!("{}abc\">", token_input),
        format!("{}abc\"/>", token_input),
        format!("{}\">", token_input),
        format!("{}a\"b\">{}c\"/>", token_input, token_input),
        format!("{}a\nb\">\n{}second\">", token_input, token_input),
        format!("{}a\nb\"/>\n{}second\"/>", token_input, token_input),
        format!("{}abc\" class=\"x\">", token_input),
        format!("<p>{}</p><form>{}7f3e\"/><input type=\"text\" name=\"q1\"></form>", "x", token_input),
        format!("{}t\"/>{}", token_input, " <input name=\"q\"/>".repeat(60)),
        String::from("<strong>发生错误！</strong>验证码错误!"),
        String::from("<strong>发生错误！</strong>!"),
        String::from("<strong>发生错误！</strong>one\ntwo!"),
        String::from("<strong>发生错误！</strong>one\n<strong>发生错误！</strong>two!three!"),
        String::from("<strong>发生错误!</strong>ascii mark!"),
        String::from("欢迎您"),
        String::from("欢迎 您"),
        String::from("<div>张三,欢迎您!</div><strong>发生错误！</strong>x!"),
    ];
    let longer = pages.join("\n");
    pages.push(longer);
    pages
}

fn first_capture(pattern: &str, text: &str) -> Option<String> {
    let re = Regex::new(pattern).unwrap_or_else(|e| panic!("pattern: {}", e));
    re.captures(text).and_then(|c| c.get(1)).map(|m| String::from(m.as_str()))
}

fn all_captures(pattern: &str, text: &str) -> Vec<String> {
    let re = Regex::new(pattern).unwrap_or_else(|e| panic!("pattern: {}", e));
    re.captures_iter(text).map(|c| String::from(&c[1])).collect()
}

#[test]
fn login_token_agrees_with_the_pattern() {
    let pattern = r#"<input type="hidden" id="tokenValue" name="tokenValue" value="(.*?)">"#;
    for page in pages() {
        assert_eq!(login_token(&page).ok(), first_capture(pattern, &page), "page {:?}", page);
    }
}

#[test]
fn form_token_agrees_with_the_pattern() {
    let pattern = r#"<input type="hidden" id="tokenValue" name="tokenValue" value="(.*?)"/>"#;
    for page in pages() {
        assert_eq!(form_token(&page).ok(), first_capture(pattern, &page), "page {:?}", page);
    }
}

#[test]
fn field_names_agree_with_the_pattern() {
    let pattern = r#" name="(.*?)""#;
    for page in pages() {
        assert_eq!(field_names(&page), all_captures(pattern, &page), "page {:?}", page);
    }
}

#[test]
fn login_answer_agrees_with_the_patterns() {
    let welcome = Regex::new("欢迎您").unwrap_or_else(|e| panic!("pattern: {}", e));
    let message = r#"<strong>发生错误！</strong>(.*?)!"#;
    for page in pages() {
        let got = classify_login_response(&page);
        if welcome.is_match(&page) {
            assert!(matches!(got, Ok(LoginResult::Success)), "page {:?}", page);
        } else {
            match (got, first_capture(message, &page)) {
                (Ok(LoginResult::Failure(m)), Some(want)) => assert_eq!(m, want),
                (Err(_), None) => {}
                _ => panic!("disagreement on page {:?}", page),
            }
        }
    }
}

#[test]
fn delimited_fields_agree_with_lazy_patterns() {
    let cases = [("[", "]"), ("<<", ">>"), ("a", "a"), ("ab", "b"), ("x", "xy")];
    let texts = ["", "[]", "[a][b]", "[a\n][b]", "[[a]]", "<<a>><<b>", "<<<a>>>", "aaaa", "abab", "abb", "xxyxy", "x\nxxy", "aXa\naYa"];
    for (open, close) in cases {
        let pattern = format!("{}(.*?){}", regex::escape(open), regex::escape(close));
        for text in texts {
            assert_eq!(first_field_of(text, open, close), first_capture(&pattern, text), "{:?} in {:?}", pattern, text);
            assert_eq!(all_fields_of(text, open, close), all_captures(&pattern, text), "{:?} in {:?}", pattern, text);
        }
    }
}
