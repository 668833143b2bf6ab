//! The answers that every evaluation is given, and where on the page each
//! question stands.
//!
//! A question is found by its position among the named inputs of the page,
//! not by its name: the table below is an agreement with the portal's
//! current template, kept in this one place.

use vstd::prelude::*;
use crate::page::MalformedPage;
use crate::text::string_views;

verus! {

/// The questions of the evaluation form.
#[derive(Debug, Clone, Copy, PartialEq, Eq, Structural)]
pub enum Slot {
    /// The overall score.
    Score,
    /// Single choice: how well the course matched its description.
    Conformity,
    /// Single choice: first statement to agree with.
    FirstAgreement,
    /// Single choice: second statement to agree with.
    SecondAgreement,
    /// Single choice: how the teacher took feedback.
    Feedback,
    /// Multiple choice: what was good about the course.
    Strengths,
    /// The question with a mandatory answer.
    Requirement,
    /// The free comment.
    Comment,
}

/// The number of named inputs that a page must have for every question to
/// be found.
pub const MIN_FIELDS: usize = 46;

pub const SCORE: &'static str = "100";

pub const CONFORMITY: &'static str = "A_完全符合";

pub const AGREEMENT: &'static str = "A_完全同意";

pub const FEEDBACK: &'static str = "A_老师通过综合教务发布了问卷调查并及时改进教学";

pub const STRENGTH_A: &'static str = "A_任课老师讲课生动";

pub const STRENGTH_B: &'static str = "B_课堂上开展了有效的研讨互动教学";

pub const STRENGTH_C: &'static str = "C_课程进度安排合理，详略得当";

pub const STRENGTH_D: &'static str = "D_课程内容具有前沿性和时代性";

pub const STRENGTH_E: &'static str = "E_任课老师肯花时间课外跟学生交流";

pub const STRENGTH_F: &'static str = "F_任课老师鼓励学生独立思考，注重培养学生创新精神";

pub const STRENGTH_G: &'static str = "G_提供了丰富且有效的教学资料";

pub const STRENGTH_H: &'static str = "H_课程考核方式合理";

pub const STRENGTH_I: &'static str = "I_课程具有挑战性";

pub const STRENGTH_J: &'static str = "J_任课老师就实验操作或实践活动的规范性及安全性做了细致要求";

pub const REQUIREMENT: &'static str = "A_必须是";

pub const COMMENT: &'static str =
    "这门课程的教学效果很好,老师热爱教学,教学方式生动有趣,课程内容丰富且贴合时代特点。";

/// The position of a question among the named inputs of the page, counted
/// from zero.
pub open spec fn slot_index(slot: Slot) -> int {
    match slot {
        Slot::Score => 10,
        Slot::Conformity => 11,
        Slot::FirstAgreement => 16,
        Slot::SecondAgreement => 21,
        Slot::Feedback => 26,
        Slot::Strengths => 30,
        Slot::Requirement => 41,
        Slot::Comment => 45,
    }
}

/// The values sent for a question, in order.
pub open spec fn answers_of(slot: Slot) -> Seq<Seq<char>> {
    match slot {
        Slot::Score => seq![SCORE@],
        Slot::Conformity => seq![CONFORMITY@],
        Slot::FirstAgreement => seq![AGREEMENT@],
        Slot::SecondAgreement => seq![AGREEMENT@],
        Slot::Feedback => seq![FEEDBACK@],
        Slot::Strengths => seq![
            STRENGTH_A@,
            STRENGTH_B@,
            STRENGTH_C@,
            STRENGTH_D@,
            STRENGTH_E@,
            STRENGTH_F@,
            STRENGTH_G@,
            STRENGTH_H@,
            STRENGTH_I@,
            STRENGTH_J@,
        ],
        Slot::Requirement => seq![REQUIREMENT@],
        Slot::Comment => seq![COMMENT@],
    }
}

/// The input names under which the answers are sent, one for each question.
pub struct SlotNames {
    pub score: String,
    pub conformity: String,
    pub first_agreement: String,
    pub second_agreement: String,
    pub feedback: String,
    pub strengths: String,
    pub requirement: String,
    pub comment: String,
}

impl SlotNames {
    /// The input name of a question.
    pub open spec fn name_of(self, slot: Slot) -> Seq<char> {
        match slot {
            Slot::Score => self.score@,
            Slot::Conformity => self.conformity@,
            Slot::FirstAgreement => self.first_agreement@,
            Slot::SecondAgreement => self.second_agreement@,
            Slot::Feedback => self.feedback@,
            Slot::Strengths => self.strengths@,
            Slot::Requirement => self.requirement@,
            Slot::Comment => self.comment@,
        }
    }

    /// Every question has the name that stands at its position in `names`.
    pub open spec fn resolves(self, names: Seq<Seq<char>>) -> bool {
        forall|slot: Slot| #[trigger] self.name_of(slot) == names[slot_index(slot)]
    }

    /// Reads the input name of a question.
    pub fn name(&self, slot: Slot) -> (name: &String)
        ensures
            name@ == self.name_of(slot),
    {
        match slot {
            Slot::Score => &self.score,
            Slot::Conformity => &self.conformity,
            Slot::FirstAgreement => &self.first_agreement,
            Slot::SecondAgreement => &self.second_agreement,
            Slot::Feedback => &self.feedback,
            Slot::Strengths => &self.strengths,
            Slot::Requirement => &self.requirement,
            Slot::Comment => &self.comment,
        }
    }
}

/// Two lists of input names that agree give every question the same name.
pub proof fn lemma_resolution_is_determined(
    first: SlotNames,
    second: SlotNames,
    names: Seq<Seq<char>>,
    again: Seq<Seq<char>>,
)
    requires
        names.len() >= MIN_FIELDS,
        names == again,
        first.resolves(names),
        second.resolves(again),
    ensures
        forall|slot: Slot| first.name_of(slot) == second.name_of(slot),
{
    assert forall|slot: Slot| first.name_of(slot) == second.name_of(slot) by {
        assert(first.name_of(slot) == names[slot_index(slot)]);
        assert(second.name_of(slot) == again[slot_index(slot)]);
    }
}

/// The position of a question among the named inputs of the page.
pub fn slot_position(slot: Slot) -> (i: usize)
    ensures
        i == slot_index(slot),
        i < MIN_FIELDS,
{
    match slot {
        Slot::Score => 10,
        Slot::Conformity => 11,
        Slot::FirstAgreement => 16,
        Slot::SecondAgreement => 21,
        Slot::Feedback => 26,
        Slot::Strengths => 30,
        Slot::Requirement => 41,
        Slot::Comment => 45,
    }
}

/// The values sent for a question, in order.
pub fn answers(slot: Slot) -> (values: Vec<&'static str>)
    ensures
        values@.len() == answers_of(slot).len(),
        forall|k: int| 0 <= k < values@.len() ==> (#[trigger] values@[k])@ == answers_of(slot)[k],
{
    let mut values: Vec<&'static str> = Vec::new();
    match slot {
        Slot::Score => {
            values.push(SCORE);
        },
        Slot::Conformity => {
            values.push(CONFORMITY);
        },
        Slot::FirstAgreement => {
            values.push(AGREEMENT);
        },
        Slot::SecondAgreement => {
            values.push(AGREEMENT);
        },
        Slot::Feedback => {
            values.push(FEEDBACK);
        },
        Slot::Strengths => {
            values.push(STRENGTH_A);
            values.push(STRENGTH_B);
            values.push(STRENGTH_C);
            values.push(STRENGTH_D);
            values.push(STRENGTH_E);
            values.push(STRENGTH_F);
            values.push(STRENGTH_G);
            values.push(STRENGTH_H);
            values.push(STRENGTH_I);
            values.push(STRENGTH_J);
        },
        Slot::Requirement => {
            values.push(REQUIREMENT);
        },
        Slot::Comment => {
            values.push(COMMENT);
        },
    }
    values
}

/// Finds the input name of every question in the names of a page. A page
/// with fewer than `MIN_FIELDS` named inputs is refused.
pub fn resolve_slots(names: &Vec<String>) -> (r: Result<SlotNames, MalformedPage>)
    ensures
        match r {
            Ok(slots) => names@.len() >= MIN_FIELDS && slots.resolves(string_views(names@)),
            Err(e) => names@.len() < MIN_FIELDS && e == MalformedPage::TooFewFields,
        },
{
    if names.len() < MIN_FIELDS {
        return Err(MalformedPage::TooFewFields);
    }
    let slots = SlotNames {
        score: names[slot_position(Slot::Score)].clone(),
        conformity: names[slot_position(Slot::Conformity)].clone(),
        first_agreement: names[slot_position(Slot::FirstAgreement)].clone(),
        second_agreement: names[slot_position(Slot::SecondAgreement)].clone(),
        feedback: names[slot_position(Slot::Feedback)].clone(),
        strengths: names[slot_position(Slot::Strengths)].clone(),
        requirement: names[slot_position(Slot::Requirement)].clone(),
        comment: names[slot_position(Slot::Comment)].clone(),
    };
    Ok(slots)
}

} // verus!
