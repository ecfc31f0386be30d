use speki::card::{CursorPos, RecallGrade};
use speki::dependencies::{dependency_list, CardInList};
use speki::find_card::{
    filter_query, CardMatch, CardPurpose, FindCardReply, FindCardWidget, Link, PopUpStatus,
};
use speki::keys::MyKey;
use speki::review::dispatch::{card_to_check, plan, ChildPurpose, Command};
use speki::review::event::{review_event, Action, CardReview, ReviewMode};
use speki::review::nav::ReviewSelection;
use speki::statelist::StatefulList;

fn s(text: &str) -> String {
    text.to_string()
}

fn matches() -> Vec<CardMatch> {
    vec![
        CardMatch { question: s("proton"), id: 11 },
        CardMatch { question: s("neutron"), id: 12 },
        CardMatch { question: s("electron"), id: 13 },
    ]
}

#[test]
fn plan_reading_actions() {
    let cursor = CursorPos { row: 1, column: 7 };
    assert_eq!(
        plan(Action::IncNext(s("text"), 4, cursor), false),
        vec![Command::IncNext(4), Command::UpdateIncText(s("text"), 4, cursor)]
    );
    assert_eq!(
        plan(Action::IncDone(s("text"), 4, cursor), true),
        vec![Command::IncDone(4), Command::UpdateIncText(s("text"), 4, cursor)]
    );
}

#[test]
fn plan_review_activates_pending_card_first() {
    assert_eq!(
        plan(Action::Review(s("q"), s("a"), 8, '2'), true),
        vec![
            Command::ActivateCard(8),
            Command::NewReview(8, RecallGrade::Failed),
            Command::UpdateQuestion(8, s("q")),
            Command::UpdateAnswer(8, s("a")),
        ]
    );
    assert_eq!(
        plan(Action::Review(s("q"), s("a"), 8, '4'), false),
        vec![
            Command::NewReview(8, RecallGrade::Easy),
            Command::UpdateQuestion(8, s("q")),
            Command::UpdateAnswer(8, s("a")),
        ]
    );
}

#[test]
fn plan_skips_and_completion() {
    assert_eq!(
        plan(Action::SkipUnf(s("q"), s("a"), 8), false),
        vec![
            Command::RandomMode,
            Command::UpdateQuestion(8, s("q")),
            Command::UpdateAnswer(8, s("a")),
            Command::DoubleSkipDuration(8),
        ]
    );
    assert_eq!(
        plan(Action::SkipRev(s("q"), s("a"), 8), false),
        vec![
            Command::RandomMode,
            Command::UpdateQuestion(8, s("q")),
            Command::UpdateAnswer(8, s("a")),
        ]
    );
    assert_eq!(
        plan(Action::CompleteUnf(s("q"), s("a"), 8), false),
        vec![
            Command::CompleteCard(8),
            Command::RandomMode,
            Command::UpdateQuestion(8, s("q")),
            Command::UpdateAnswer(8, s("a")),
        ]
    );
}

#[test]
fn plan_dialogs_and_simple_actions() {
    assert_eq!(
        plan(Action::NewDependency(8), false),
        vec![Command::FindCard(s("Add new dependency"), CardPurpose::NewDependency(8))]
    );
    assert_eq!(
        plan(Action::NewDependent(8), false),
        vec![Command::FindCard(s("Add new dependent"), CardPurpose::NewDependent(8))]
    );
    assert_eq!(
        plan(Action::AddDependent(8), false),
        vec![Command::AddChild(ChildPurpose::Dependency(8))]
    );
    assert_eq!(
        plan(Action::AddDependency(8), false),
        vec![Command::AddChild(ChildPurpose::Dependent(8))]
    );
    assert_eq!(
        plan(Action::AddChild(3), false),
        vec![Command::AddChild(ChildPurpose::Source(3))]
    );
    assert_eq!(plan(Action::PlayBackAudio(8), false), vec![Command::PlayBackAudio(8)]);
    assert_eq!(plan(Action::Quit, false), vec![Command::Quit]);
    assert_eq!(plan(Action::Refresh, true), vec![Command::Refresh]);
    assert_eq!(plan(Action::Nothing, true), vec![]);
}

#[test]
fn only_reviews_need_the_card_type() {
    assert_eq!(card_to_check(&Action::Review(s("q"), s("a"), 8, '1')), Some(8));
    assert_eq!(card_to_check(&Action::SkipRev(s("q"), s("a"), 8)), None);
    assert_eq!(card_to_check(&Action::Quit), None);
}

#[test]
fn rater_enter_then_plan_records_selected_grade() {
    let mut mode = ReviewMode::Review(CardReview {
        id: 21,
        question: s("q"),
        answer: s("a"),
        reveal: true,
        selection: ReviewSelection::CardRater,
        rater: Some(RecallGrade::Decent),
    });
    let step = review_event(&mut mode, MyKey::Enter);
    let cmds = plan(step.action, false);
    assert_eq!(cmds[0], Command::NewReview(21, RecallGrade::Decent));
}

#[test]
fn alt_y_then_search_links_existing_dependency() {
    let mut mode = ReviewMode::Review(CardReview {
        id: 21,
        question: s("alpha particles"),
        answer: s("two protons, two neutrons"),
        reveal: false,
        selection: ReviewSelection::Question,
        rater: None,
    });
    let step = review_event(&mut mode, MyKey::Alt('y'));
    let cmds = plan(step.action, false);
    let (prompt, purpose) = match &cmds[0] {
        Command::FindCard(p, purpose) => (p.clone(), *purpose),
        other => panic!("unexpected {:?}", other),
    };
    let mut widget = FindCardWidget::new(prompt, purpose, matches());
    widget.keyhandler(MyKey::Down);
    widget.keyhandler(MyKey::Down);
    assert_eq!(
        widget.keyhandler(MyKey::Enter),
        FindCardReply::Link(Link { dependent: 21, dependency: 12 })
    );
    assert_eq!(widget.status, PopUpStatus::Finished);
}

#[test]
fn new_dependent_links_chosen_card_as_dependent() {
    let mut widget = FindCardWidget::new(s("Add new dependent"), CardPurpose::NewDependent(21), matches());
    widget.keyhandler(MyKey::Down);
    assert_eq!(
        widget.keyhandler(MyKey::Enter),
        FindCardReply::Link(Link { dependent: 11, dependency: 21 })
    );
}

#[test]
fn enter_without_highlight_keeps_search_open() {
    let mut widget = FindCardWidget::new(s("p"), CardPurpose::NewDependency(1), matches());
    assert_eq!(widget.keyhandler(MyKey::Enter), FindCardReply::Nothing);
    assert_eq!(widget.status, PopUpStatus::OnGoing);
}

#[test]
fn escape_closes_search() {
    let mut widget = FindCardWidget::new(s("p"), CardPurpose::NewCloze(1), matches());
    assert_eq!(widget.keyhandler(MyKey::Esc), FindCardReply::Nothing);
    assert_eq!(widget.status, PopUpStatus::Finished);
}

#[test]
fn other_keys_edit_the_search() {
    let mut widget = FindCardWidget::new(s("p"), CardPurpose::NewDependency(1), matches());
    assert_eq!(widget.keyhandler(MyKey::Char('n')), FindCardReply::EditSearch(MyKey::Char('n')));
    assert_eq!(widget.keyhandler(MyKey::Backspace), FindCardReply::EditSearch(MyKey::Backspace));
    assert_eq!(widget.list.selected, None);
    assert_eq!(widget.status, PopUpStatus::OnGoing);
}

#[test]
fn new_search_is_empty_and_open() {
    let widget = FindCardWidget::new(s("Add new dependency"), CardPurpose::NewDependency(3), matches());
    assert_eq!(widget.prompt, "Add new dependency");
    assert_eq!(widget.searchterm, "");
    assert_eq!(widget.list.items, matches());
    assert_eq!(widget.list.selected, None);
    assert_eq!(widget.status, PopUpStatus::OnGoing);
    assert_eq!(widget.purpose, CardPurpose::NewDependency(3));
}

#[test]
fn filter_query_drops_last_character() {
    assert_eq!(filter_query(s("neut")), "neu");
    assert_eq!(filter_query(s("x")), "");
    assert_eq!(filter_query(s("")), "");
    assert_eq!(filter_query(s("né")), "n");
}

#[test]
fn reset_filter_keeps_highlight() {
    let mut list = StatefulList::with_items(matches());
    list.selected = Some(2);
    list.reset_filter(vec![CardMatch { question: s("neutron"), id: 12 }]);
    assert_eq!(list.selected, Some(2));
    assert_eq!(list.items, vec![CardMatch { question: s("neutron"), id: 12 }]);
}

#[test]
fn choose_card_gives_highlighted_id() {
    let mut list = StatefulList::with_items(matches());
    list.selected = Some(1);
    assert_eq!(list.choose_card(), 12);
    list.selected = Some(2);
    assert_eq!(list.choose_card(), 13);
}

#[test]
fn highlight_wraps_around() {
    let mut list = StatefulList::with_items(matches());
    list.previous();
    assert_eq!(list.selected, Some(0));
    list.previous();
    assert_eq!(list.selected, Some(2));
    list.next();
    assert_eq!(list.selected, Some(0));
    list.next();
    list.next();
    assert_eq!(list.selected, Some(2));
    list.next();
    list.previous();
    assert_eq!(list.selected, Some(2));
}

#[test]
fn empty_list_keeps_highlight() {
    let mut list: StatefulList<CardMatch> = StatefulList::new();
    list.next();
    assert_eq!(list.selected, None);
    list.previous();
    assert_eq!(list.selected, None);
}

#[test]
fn dependency_list_in_order() {
    let list = dependency_list(&vec![4, 9], &vec![s("what is a proton?"), s("what is a neutron?")]);
    assert_eq!(list.selected, None);
    assert_eq!(
        list.items,
        vec![
            CardInList { question: s("what is a proton?"), id: 4 },
            CardInList { question: s("what is a neutron?"), id: 9 },
        ]
    );
}

#[test]
fn alt_t_then_search_links_existing_dependent() {
    let mut mode = ReviewMode::Review(CardReview {
        id: 30,
        question: s("q"),
        answer: s("a"),
        reveal: true,
        selection: ReviewSelection::Answer,
        rater: None,
    });
    let step = review_event(&mut mode, MyKey::Alt('t'));
    let cmds = plan(step.action, true);
    assert_eq!(cmds.len(), 1);
    let purpose = match &cmds[0] {
        Command::FindCard(_, purpose) => *purpose,
        other => panic!("unexpected {:?}", other),
    };
    assert_eq!(purpose, CardPurpose::NewDependent(30));
    let mut widget = FindCardWidget::new(s("Add new dependent"), purpose, matches());
    widget.keyhandler(MyKey::Up);
    widget.keyhandler(MyKey::Up);
    assert_eq!(
        widget.keyhandler(MyKey::Enter),
        FindCardReply::Link(Link { dependent: 13, dependency: 30 })
    );
}

#[test]
fn digit_then_plan_gives_grade_of_digit() {
    let mut mode = ReviewMode::Pending(CardReview {
        id: 2,
        question: s("q"),
        answer: s("a"),
        reveal: true,
        selection: ReviewSelection::CardRater,
        rater: Some(RecallGrade::Easy),
    });
    let step = review_event(&mut mode, MyKey::Char('1'));
    let cmds = plan(step.action, true);
    assert_eq!(cmds[0], Command::ActivateCard(2));
    assert_eq!(cmds[1], Command::NewReview(2, RecallGrade::NoRecall));
}

#[test]
fn alt_i_suspends_only_cards() {
    let mut mode = ReviewMode::Done;
    assert_eq!(review_event(&mut mode, MyKey::Alt('i')).suspend, None);
    let mut mode = ReviewMode::Review(CardReview {
        id: 77,
        question: s("q"),
        answer: s("a"),
        reveal: false,
        selection: ReviewSelection::RevealButton,
        rater: None,
    });
    let step = review_event(&mut mode, MyKey::Alt('i'));
    assert_eq!(step.suspend, Some(77));
    assert_eq!(
        plan(step.action, false),
        vec![
            Command::RandomMode,
            Command::UpdateQuestion(77, s("q")),
            Command::UpdateAnswer(77, s("a")),
        ]
    );
}

#[test]
fn search_keys_keep_prompt_purpose_and_items() {
    let mut widget = FindCardWidget::new(s("Add new dependency"), CardPurpose::NewDependency(5), matches());
    for key in [MyKey::Down, MyKey::Char('x'), MyKey::Up, MyKey::Esc] {
        widget.keyhandler(key);
        assert_eq!(widget.prompt, "Add new dependency");
        assert_eq!(widget.purpose, CardPurpose::NewDependency(5));
        assert_eq!(widget.list.items, matches());
    }
}
