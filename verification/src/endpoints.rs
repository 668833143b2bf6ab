//! The addresses that the client talks to.

use vstd::prelude::*;
use vstd::string::*;

verus! {

/// The image of the challenge that guards the login.
pub const CAPTCHA_URL: &'static str = "http://zhjw.scu.edu.cn/img/captcha.jpg";

/// The login page, which carries the hidden token.
pub const LOGIN_PAGE_URL: &'static str = "http://zhjw.scu.edu.cn/login";

/// Where the login form is sent.
pub const LOGIN_SUBMIT_URL: &'static str = "http://zhjw.scu.edu.cn/j_spring_security_check";

/// The service that reads the challenge image.
pub const RECOGNITION_URL: &'static str = "https://duomi.chenyipeng.com/captcha";

/// Where the list of evaluations is asked for.
pub const CATALOG_URL: &'static str =
    "http://zhjw.scu.edu.cn/student/teachingAssessment/evaluation/queryAll";

/// The address of an evaluation page, up to the identifier of the course
/// session.
pub const EVALUATION_PAGE_URL: &'static str =
    "http://zhjw.scu.edu.cn/student/teachingEvaluation/newEvaluation/evaluation/";

/// The address of the save endpoint, up to the token.
pub const SAVE_URL: &'static str =
    "http://zhjw.scu.edu.cn/student/teachingAssessment/baseInformation/questionsAdd/doSave?tokenValue=";

/// The address of the evaluation page of a course session.
pub fn evaluation_page_url(course_session_id: &str) -> (url: String)
    ensures
        url@ == EVALUATION_PAGE_URL@ + course_session_id@,
{
    let mut url = String::from_str(EVALUATION_PAGE_URL);
    url.append(course_session_id);
    url
}

/// The address of the save endpoint for a request that carries `token`.
pub fn save_url(token: &str) -> (url: String)
    ensures
        url@ == SAVE_URL@ + token@,
{
    let mut url = String::from_str(SAVE_URL);
    url.append(token);
    url
}

} // verus!
