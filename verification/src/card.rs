use vstd::prelude::*;

verus! {

/// Identifier of a flashcard.
pub type CardID = u32;

/// Identifier of a topic.
pub type TopicID = u32;

/// Identifier of an incremental-reading text.
pub type IncID = u32;

/// How well a card was recalled, from worst to best.
#[derive(Clone, Copy, Debug, PartialEq, Eq, Structural)]
pub enum RecallGrade {
    NoRecall,
    Failed,
    Decent,
    Easy,
}

/// The life stage of a card.
#[derive(Clone, Copy, Debug, PartialEq, Eq, Structural)]
pub enum CardType {
    Pending,
    Unfinished,
    Finished,
}

/// Position of the cursor in a text field.
#[derive(Clone, Copy, Debug, PartialEq, Eq, Structural)]
pub struct CursorPos {
    pub row: usize,
    pub column: usize,
}

/// The digit key that rates a review with `grade`: `'1'` for the worst
/// grade up to `'4'` for the best.
pub open spec fn spec_grade_digit(grade: RecallGrade) -> char {
    match grade {
        RecallGrade::NoRecall => '1',
        RecallGrade::Failed => '2',
        RecallGrade::Decent => '3',
        RecallGrade::Easy => '4',
    }
}

/// Whether `c` is one of the four digit keys that rate a review.
pub open spec fn is_grade_digit(c: char) -> bool {
    '1' <= c && c <= '4'
}

/// The grade that the digit key `c` stands for.
pub open spec fn spec_grade_of_digit(c: char) -> RecallGrade
    recommends
        is_grade_digit(c),
{
    if c == '1' {
        RecallGrade::NoRecall
    } else if c == '2' {
        RecallGrade::Failed
    } else if c == '3' {
        RecallGrade::Decent
    } else {
        RecallGrade::Easy
    }
}

/// The digit key that rates a review with `grade`.
pub fn grade_digit(grade: RecallGrade) -> (c: char)
    ensures
        c == spec_grade_digit(grade),
        is_grade_digit(c),
{
    match grade {
        RecallGrade::NoRecall => '1',
        RecallGrade::Failed => '2',
        RecallGrade::Decent => '3',
        RecallGrade::Easy => '4',
    }
}

/// The grade that the digit key `c` stands for; only the four rating
/// digits name a grade.
pub fn grade_of_digit(c: char) -> (grade: RecallGrade)
    requires
        is_grade_digit(c),
    ensures
        grade == spec_grade_of_digit(c),
{
    if c == '1' {
        RecallGrade::NoRecall
    } else if c == '2' {
        RecallGrade::Failed
    } else if c == '3' {
        RecallGrade::Decent
    } else {
        RecallGrade::Easy
    }
}

/// Rating digits and grades correspond one to one: the digit of a grade
/// names that grade again, and the grade of a rating digit has that digit.
pub proof fn grade_digit_round_trip(grade: RecallGrade, c: char)
    ensures
        is_grade_digit(spec_grade_digit(grade)),
        spec_grade_of_digit(spec_grade_digit(grade)) == grade,
        is_grade_digit(c) ==> spec_grade_digit(spec_grade_of_digit(c)) == c,
{
}

} // verus!
