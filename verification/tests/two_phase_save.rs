use teaching_eval::answers::{answers, resolve_slots, slot_position, Slot, MIN_FIELDS};
use teaching_eval::catalog::EvaluationRecord;
use teaching_eval::endpoints::{evaluation_page_url, save_url};
use teaching_eval::form::{field, put, FormField};
use teaching_eval::json::{Json, Reply};
use teaching_eval::page::MalformedPage;
use teaching_eval::submission::{
    advance, build_save_form, classify_final, next_request, outcome_of, prepare, put_slot, start,
    trial_token, Draft, Phase, RejectReason, SubmissionOutcome, SubmissionState,
};

fn names(count: usize) -> Vec<String> {
    (0..count).map(|k| format!("n{}", k)).collect()
}

fn sample_record() -> EvaluationRecord {
    EvaluationRecord {
        course_session_id: String::from("KT42"),
        course_name: String::from("Algebra"),
        form_definition_id: String::from("WJ7"),
    }
}

fn sample_draft() -> Draft {
    Draft {
        record: sample_record(),
        page_token: String::from("page-token"),
        slots: resolve_slots(&names(46)).unwrap_or_else(|_| panic!("46 names are enough")),
    }
}

fn answer(key: &str, value: Json) -> Reply {
    Reply::Answer(Json::Object(vec![(String::from(key), value)]))
}

fn pairs(form: &[FormField]) -> Vec<(String, String)> {
    form.iter().map(|f| (f.name.clone(), f.value.clone())).collect()
}

fn evaluation_page(token: &str, inputs: usize) -> String {
    let mut page = format!(
        "<input type=\"hidden\" id=\"tokenValue\" name=\"tokenValue\" value=\"{}\"/>\n",
        token
    );
    for k in 1..inputs {
        page.push_str(&format!("<input name=\"n{}\"/>\n", k));
    }
    page
}

#[test]
fn slot_positions_follow_the_template() {
    assert_eq!(slot_position(Slot::Score), 10);
    assert_eq!(slot_position(Slot::Conformity), 11);
    assert_eq!(slot_position(Slot::FirstAgreement), 16);
    assert_eq!(slot_position(Slot::SecondAgreement), 21);
    assert_eq!(slot_position(Slot::Feedback), 26);
    assert_eq!(slot_position(Slot::Strengths), 30);
    assert_eq!(slot_position(Slot::Requirement), 41);
    assert_eq!(slot_position(Slot::Comment), 45);
    assert_eq!(MIN_FIELDS, 46);
}

#[test]
fn answers_are_the_best_marks() {
    assert_eq!(answers(Slot::Score), vec!["100"]);
    assert_eq!(answers(Slot::Conformity), vec!["A_完全符合"]);
    assert_eq!(answers(Slot::FirstAgreement), vec!["A_完全同意"]);
    assert_eq!(answers(Slot::SecondAgreement), vec!["A_完全同意"]);
    assert_eq!(answers(Slot::Requirement), vec!["A_必须是"]);
    let strengths = answers(Slot::Strengths);
    assert_eq!(strengths.len(), 10);
    assert_eq!(strengths[0], "A_任课老师讲课生动");
    assert_eq!(strengths[9], "J_任课老师就实验操作或实践活动的规范性及安全性做了细致要求");
    assert_eq!(answers(Slot::Comment).len(), 1);
}

#[test]
fn slots_resolve_by_position() {
    let slots = resolve_slots(&names(50)).unwrap_or_else(|_| panic!("50 names are enough"));
    assert_eq!(slots.score, "n10");
    assert_eq!(slots.conformity, "n11");
    assert_eq!(slots.first_agreement, "n16");
    assert_eq!(slots.second_agreement, "n21");
    assert_eq!(slots.feedback, "n26");
    assert_eq!(slots.strengths, "n30");
    assert_eq!(slots.requirement, "n41");
    assert_eq!(slots.comment, "n45");
    assert_eq!(slots.name(Slot::Strengths), "n30");
}

#[test]
fn resolving_twice_gives_the_same_names() {
    let first = resolve_slots(&names(46)).unwrap_or_else(|_| panic!("enough"));
    let second = resolve_slots(&names(46)).unwrap_or_else(|_| panic!("enough"));
    assert_eq!(first.score, second.score);
    assert_eq!(first.comment, second.comment);
    assert_eq!(first.strengths, second.strengths);
}

#[test]
fn too_few_fields_is_a_hard_error() {
    assert!(matches!(resolve_slots(&names(45)), Err(MalformedPage::TooFewFields)));
    assert!(matches!(resolve_slots(&names(0)), Err(MalformedPage::TooFewFields)));
    assert!(resolve_slots(&names(46)).is_ok());
}

#[test]
fn urls_end_in_what_they_are_given() {
    assert_eq!(
        save_url("abc123"),
        "http://zhjw.scu.edu.cn/student/teachingAssessment/baseInformation/questionsAdd/doSave?tokenValue=abc123"
    );
    assert_eq!(
        evaluation_page_url("KT42"),
        "http://zhjw.scu.edu.cn/student/teachingEvaluation/newEvaluation/evaluation/KT42"
    );
}

#[test]
fn field_and_put_keep_name_and_value() {
    let f = field("a", "b");
    assert_eq!((f.name.as_str(), f.value.as_str()), ("a", "b"));
    let mut form = vec![f];
    put(&mut form, "c", "");
    assert_eq!(pairs(&form), vec![(String::from("a"), String::from("b")), (String::from("c"), String::new())]);
}

#[test]
fn put_slot_repeats_the_name_for_each_answer() {
    let draft = sample_draft();
    let mut form = Vec::new();
    put_slot(&mut form, &draft.slots, Slot::Strengths);
    assert_eq!(form.len(), 10);
    assert!(form.iter().all(|f| f.name == "n30"));
    assert_eq!(form[1].value, "B_课堂上开展了有效的研讨互动教学");
}

#[test]
fn trial_form_has_every_field_in_order() {
    let draft = sample_draft();
    let form = build_save_form(Phase::Trial, &draft.record, "tok", &draft.slots);
    let got: Vec<(&str, &str)> = form.iter().map(|f| (f.name.as_str(), f.value.as_str())).collect();
    let want = vec![
        ("tjcs", "0"),
        ("wjbm", "WJ7"),
        ("ktid", "KT42"),
        ("tokenValue", "tok"),
        ("n10", "100"),
        ("n11", "A_完全符合"),
        ("n16", "A_完全同意"),
        ("n21", "A_完全同意"),
        ("n26", "A_老师通过综合教务发布了问卷调查并及时改进教学"),
        ("n30", "A_任课老师讲课生动"),
        ("n30", "B_课堂上开展了有效的研讨互动教学"),
        ("n30", "C_课程进度安排合理，详略得当"),
        ("n30", "D_课程内容具有前沿性和时代性"),
        ("n30", "E_任课老师肯花时间课外跟学生交流"),
        ("n30", "F_任课老师鼓励学生独立思考，注重培养学生创新精神"),
        ("n30", "G_提供了丰富且有效的教学资料"),
        ("n30", "H_课程考核方式合理"),
        ("n30", "I_课程具有挑战性"),
        ("n30", "J_任课老师就实验操作或实践活动的规范性及安全性做了细致要求"),
        ("n41", "A_必须是"),
        (
            "n45",
            "这门课程的教学效果很好,老师热爱教学,教学方式生动有趣,课程内容丰富且贴合时代特点。",
        ),
        ("compare", ""),
    ];
    assert_eq!(got, want);
}

#[test]
fn final_form_differs_in_phase_and_token_only() {
    let draft = sample_draft();
    let trial = pairs(&build_save_form(Phase::Trial, &draft.record, "old", &draft.slots));
    let last = pairs(&build_save_form(Phase::Final, &draft.record, "new", &draft.slots));
    assert_eq!(trial.len(), last.len());
    assert_eq!(last[0], (String::from("tjcs"), String::from("1")));
    assert_eq!(last[3], (String::from("tokenValue"), String::from("new")));
    for k in 0..trial.len() {
        if k != 0 && k != 3 {
            assert_eq!(trial[k], last[k]);
        }
    }
}

#[test]
fn prepare_reads_the_page() {
    let page = evaluation_page("page-token", 46);
    match prepare(&sample_record(), &page) {
        Ok(draft) => {
            assert_eq!(draft.page_token, "page-token");
            assert_eq!(draft.record.course_session_id, "KT42");
            assert_eq!(draft.slots.score, "n10");
            assert_eq!(draft.slots.comment, "n45");
        }
        Err(e) => panic!("unexpected error {:?}", e),
    }
}

#[test]
fn prepare_refuses_a_page_with_too_few_fields() {
    let page = evaluation_page("page-token", 45);
    assert!(matches!(prepare(&sample_record(), &page), Err(MalformedPage::TooFewFields)));
}

#[test]
fn prepare_refuses_a_page_without_token() {
    assert!(matches!(prepare(&sample_record(), "<html/>"), Err(MalformedPage::TokenMissing)));
}

#[test]
fn pending_submission_asks_for_the_trial_save() {
    let draft = sample_draft();
    let state = start();
    let request = next_request(&state, &draft).unwrap_or_else(|| panic!("a trial save is due"));
    assert!(request.url.ends_with("doSave?tokenValue=page-token"));
    assert_eq!(request.form[0].value, "0");
    assert_eq!(request.form[3].value, "page-token");
}

#[test]
fn second_phase_embeds_the_fresh_token() {
    let draft = sample_draft();
    let state = advance(start(), &answer("token", Json::Text(String::from("abc123"))));
    assert!(matches!(&state, SubmissionState::TrialSubmitted(t) if t == "abc123"));
    let request = next_request(&state, &draft).unwrap_or_else(|| panic!("a final save is due"));
    assert!(request.url.ends_with("doSave?tokenValue=abc123"));
    assert!(!request.url.contains("page-token"));
    assert_eq!(request.form[0].value, "1");
    assert_eq!(request.form[3].name, "tokenValue");
    assert_eq!(request.form[3].value, "abc123");
    assert!(request.form.iter().all(|f| f.value != "page-token"));
}

#[test]
fn result_ok_is_success() {
    let body = Json::Object(vec![(String::from("result"), Json::Text(String::from("ok")))]);
    assert_eq!(classify_final(&body), SubmissionOutcome::Success);
}

#[test]
fn any_other_result_is_rejected() {
    let rejected = SubmissionOutcome::Rejected(RejectReason::NotAccepted);
    let other = Json::Object(vec![(String::from("result"), Json::Text(String::from("error")))]);
    assert_eq!(classify_final(&other), rejected);
    let upper = Json::Object(vec![(String::from("result"), Json::Text(String::from("OK")))]);
    assert_eq!(classify_final(&upper), rejected);
    let number = Json::Object(vec![(String::from("result"), Json::Integer(1))]);
    assert_eq!(classify_final(&number), rejected);
    assert_eq!(classify_final(&Json::Object(vec![])), rejected);
    assert_eq!(classify_final(&Json::Null), rejected);
}

#[test]
fn trial_token_must_be_a_text() {
    let good = Json::Object(vec![(String::from("token"), Json::Text(String::from("t")))]);
    assert_eq!(trial_token(&good), Some(String::from("t")));
    let number = Json::Object(vec![(String::from("token"), Json::Integer(5))]);
    assert_eq!(trial_token(&number), None);
    assert_eq!(trial_token(&Json::Object(vec![])), None);
}

#[test]
fn failed_trial_ends_without_a_final_save() {
    let draft = sample_draft();
    let state = advance(start(), &Reply::Failed);
    assert_eq!(outcome_of(&state), Some(SubmissionOutcome::Rejected(RejectReason::TrialFailed)));
    assert!(next_request(&state, &draft).is_none());
    let later = advance(state, &answer("result", Json::Text(String::from("ok"))));
    assert_eq!(outcome_of(&later), Some(SubmissionOutcome::Rejected(RejectReason::TrialFailed)));
}

#[test]
fn trial_answer_without_token_is_rejected() {
    let state = advance(start(), &answer("result", Json::Text(String::from("ok"))));
    assert_eq!(outcome_of(&state), Some(SubmissionOutcome::Rejected(RejectReason::TokenMissing)));
}

#[test]
fn full_submission_succeeds() {
    let state = advance(start(), &answer("token", Json::Text(String::from("t2"))));
    assert_eq!(outcome_of(&state), None);
    let state = advance(state, &answer("result", Json::Text(String::from("ok"))));
    assert_eq!(outcome_of(&state), Some(SubmissionOutcome::Success));
}

#[test]
fn failed_final_save_is_rejected() {
    let state = advance(start(), &answer("token", Json::Text(String::from("t2"))));
    let state = advance(state, &Reply::Failed);
    assert_eq!(outcome_of(&state), Some(SubmissionOutcome::Rejected(RejectReason::FinalFailed)));
}

#[test]
fn refused_final_save_is_rejected() {
    let state = advance(start(), &answer("token", Json::Text(String::from("t2"))));
    let state = advance(state, &answer("result", Json::Text(String::from("no"))));
    assert_eq!(outcome_of(&state), Some(SubmissionOutcome::Rejected(RejectReason::NotAccepted)));
}
