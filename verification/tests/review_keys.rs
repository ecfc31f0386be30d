use speki::card::{grade_digit, grade_of_digit, CursorPos, RecallGrade};
use speki::keys::{Direction, MyKey};
use speki::review::event::{
    mode_done, mode_inc, mode_review, mode_unfinished, review_event, Action, CardReview, IncMode,
    KeyTarget, ReviewMode, ReviewStep, UnfCard,
};
use speki::review::nav::{
    inc_nav, rev_nav, unf_nav, IncSelection, ReviewSelection, UnfSelection,
};

fn unf(selection: UnfSelection) -> UnfCard {
    UnfCard {
        id: 5,
        question: "what is a proton?".to_string(),
        answer: "a particle".to_string(),
        selection,
    }
}

fn rev(selection: ReviewSelection, reveal: bool, rater: Option<RecallGrade>) -> CardReview {
    CardReview {
        id: 9,
        question: "q".to_string(),
        answer: "a".to_string(),
        reveal,
        selection,
        rater,
    }
}

fn inc(selection: IncSelection) -> IncMode {
    IncMode {
        id: 3,
        source: "some long text".to_string(),
        cursor: CursorPos { row: 2, column: 4 },
        selection,
    }
}

fn only(action: Action) -> ReviewStep {
    ReviewStep { action, suspend: None, target: KeyTarget::Nothing }
}

fn pass(target: KeyTarget) -> ReviewStep {
    ReviewStep { action: Action::Nothing, suspend: None, target }
}

#[test]
fn unfinished_panes_form_a_grid() {
    assert_eq!(unf_nav(UnfSelection::Question, Direction::Right), UnfSelection::Dependents);
    assert_eq!(unf_nav(UnfSelection::Question, Direction::Down), UnfSelection::Answer);
    assert_eq!(unf_nav(UnfSelection::Answer, Direction::Right), UnfSelection::Dependencies);
    assert_eq!(unf_nav(UnfSelection::Answer, Direction::Up), UnfSelection::Question);
    assert_eq!(unf_nav(UnfSelection::Dependencies, Direction::Left), UnfSelection::Answer);
    assert_eq!(unf_nav(UnfSelection::Dependencies, Direction::Up), UnfSelection::Dependents);
    assert_eq!(unf_nav(UnfSelection::Dependents, Direction::Left), UnfSelection::Question);
    assert_eq!(unf_nav(UnfSelection::Dependents, Direction::Down), UnfSelection::Dependencies);
    assert_eq!(unf_nav(UnfSelection::Question, Direction::Up), UnfSelection::Question);
    assert_eq!(unf_nav(UnfSelection::Question, Direction::Left), UnfSelection::Question);
    assert_eq!(unf_nav(UnfSelection::Dependencies, Direction::Down), UnfSelection::Dependencies);
    assert_eq!(unf_nav(UnfSelection::Dependents, Direction::Right), UnfSelection::Dependents);
}

#[test]
fn unfinished_moves_are_undone_by_opposite_moves() {
    for sel in [UnfSelection::Question, UnfSelection::Answer, UnfSelection::Dependencies, UnfSelection::Dependents] {
        for (dir, back) in [(Direction::Up, Direction::Down), (Direction::Down, Direction::Up), (Direction::Left, Direction::Right), (Direction::Right, Direction::Left)] {
            let next = unf_nav(sel, dir);
            if next != sel {
                assert_eq!(unf_nav(next, back), sel);
            }
        }
    }
}

#[test]
fn review_focus_depends_on_reveal() {
    assert_eq!(rev_nav(ReviewSelection::Question, false, Direction::Down), ReviewSelection::RevealButton);
    assert_eq!(rev_nav(ReviewSelection::Question, true, Direction::Down), ReviewSelection::Answer);
    assert_eq!(rev_nav(ReviewSelection::Dependencies, false, Direction::Left), ReviewSelection::RevealButton);
    assert_eq!(rev_nav(ReviewSelection::Dependencies, true, Direction::Left), ReviewSelection::Answer);
    assert_eq!(rev_nav(ReviewSelection::Answer, true, Direction::Down), ReviewSelection::CardRater);
    assert_eq!(rev_nav(ReviewSelection::Answer, false, Direction::Down), ReviewSelection::Answer);
    assert_eq!(rev_nav(ReviewSelection::RevealButton, false, Direction::Right), ReviewSelection::Dependencies);
    assert_eq!(rev_nav(ReviewSelection::RevealButton, false, Direction::Up), ReviewSelection::Question);
    assert_eq!(rev_nav(ReviewSelection::CardRater, true, Direction::Right), ReviewSelection::Dependencies);
    assert_eq!(rev_nav(ReviewSelection::CardRater, true, Direction::Up), ReviewSelection::Answer);
    assert_eq!(rev_nav(ReviewSelection::Question, true, Direction::Right), ReviewSelection::Dependents);
    assert_eq!(rev_nav(ReviewSelection::Dependents, true, Direction::Down), ReviewSelection::Dependencies);
    assert_eq!(rev_nav(ReviewSelection::Dependencies, true, Direction::Up), ReviewSelection::Dependents);
    assert_eq!(rev_nav(ReviewSelection::CardRater, true, Direction::Down), ReviewSelection::CardRater);
}

#[test]
fn review_move_right_from_rater_is_not_undone() {
    let there = rev_nav(ReviewSelection::CardRater, true, Direction::Right);
    assert_eq!(there, ReviewSelection::Dependencies);
    assert_eq!(rev_nav(there, true, Direction::Left), ReviewSelection::Answer);
}

#[test]
fn hidden_answer_is_never_focused() {
    for sel in [ReviewSelection::Question, ReviewSelection::Dependencies, ReviewSelection::Dependents, ReviewSelection::RevealButton] {
        for dir in [Direction::Up, Direction::Down, Direction::Left, Direction::Right] {
            let next = rev_nav(sel, false, dir);
            assert!(next != ReviewSelection::Answer && next != ReviewSelection::CardRater);
        }
    }
    for sel in [ReviewSelection::Question, ReviewSelection::Answer, ReviewSelection::Dependencies, ReviewSelection::Dependents, ReviewSelection::CardRater] {
        for dir in [Direction::Up, Direction::Down, Direction::Left, Direction::Right] {
            assert!(rev_nav(sel, true, dir) != ReviewSelection::RevealButton);
        }
    }
}

#[test]
fn reading_panes() {
    assert_eq!(inc_nav(IncSelection::Source, Direction::Right), IncSelection::Extracts);
    assert_eq!(inc_nav(IncSelection::Extracts, Direction::Left), IncSelection::Source);
    assert_eq!(inc_nav(IncSelection::Extracts, Direction::Down), IncSelection::Clozes);
    assert_eq!(inc_nav(IncSelection::Clozes, Direction::Up), IncSelection::Extracts);
    assert_eq!(inc_nav(IncSelection::Clozes, Direction::Left), IncSelection::Source);
    assert_eq!(inc_nav(IncSelection::Source, Direction::Right), IncSelection::Extracts);
    assert_eq!(inc_nav(IncSelection::Source, Direction::Down), IncSelection::Source);
}

#[test]
fn done_keys() {
    assert_eq!(mode_done(MyKey::Alt('q')), only(Action::Quit));
    assert_eq!(mode_done(MyKey::Alt('r')), only(Action::Refresh));
    assert_eq!(mode_done(MyKey::Char('q')), only(Action::Nothing));
    assert_eq!(mode_done(MyKey::Enter), only(Action::Nothing));
}

#[test]
fn unfinished_alt_commands() {
    let q = "what is a proton?".to_string();
    let a = "a particle".to_string();
    let mut card = unf(UnfSelection::Question);
    assert_eq!(
        mode_unfinished(&mut card, MyKey::Alt('s')),
        only(Action::SkipUnf(q.clone(), a.clone(), 5))
    );
    assert_eq!(
        mode_unfinished(&mut card, MyKey::Alt('f')),
        only(Action::CompleteUnf(q.clone(), a.clone(), 5))
    );
    assert_eq!(mode_unfinished(&mut card, MyKey::Alt('t')), only(Action::NewDependent(5)));
    assert_eq!(mode_unfinished(&mut card, MyKey::Alt('y')), only(Action::NewDependency(5)));
    assert_eq!(mode_unfinished(&mut card, MyKey::Alt('T')), only(Action::AddDependent(5)));
    assert_eq!(mode_unfinished(&mut card, MyKey::Alt('Y')), only(Action::AddDependency(5)));
    assert_eq!(mode_unfinished(&mut card, MyKey::Alt('q')), only(Action::Quit));
    assert_eq!(
        mode_unfinished(&mut card, MyKey::Alt('i')),
        ReviewStep {
            action: Action::SkipRev(q.clone(), a.clone(), 5),
            suspend: Some(5),
            target: KeyTarget::Nothing,
        }
    );
    assert_eq!(card, unf(UnfSelection::Question));
}

#[test]
fn unfinished_keys_go_to_the_focused_field() {
    let mut card = unf(UnfSelection::Question);
    assert_eq!(
        mode_unfinished(&mut card, MyKey::Char('x')),
        pass(KeyTarget::Question(MyKey::Char('x')))
    );
    assert_eq!(
        mode_unfinished(&mut card, MyKey::Alt('z')),
        pass(KeyTarget::Question(MyKey::Alt('z')))
    );
    assert_eq!(mode_unfinished(&mut card, MyKey::Nav(Direction::Down)), only(Action::Nothing));
    assert_eq!(card.selection, UnfSelection::Answer);
    assert_eq!(
        mode_unfinished(&mut card, MyKey::Backspace),
        pass(KeyTarget::Answer(MyKey::Backspace))
    );
    mode_unfinished(&mut card, MyKey::Nav(Direction::Right));
    assert_eq!(card.selection, UnfSelection::Dependencies);
    assert_eq!(mode_unfinished(&mut card, MyKey::Char('x')), only(Action::Nothing));
}

#[test]
fn reveal_button_shows_answer() {
    for key in [MyKey::Char(' '), MyKey::Enter] {
        let mut card = rev(ReviewSelection::RevealButton, false, None);
        assert_eq!(mode_review(&mut card, key), only(Action::PlayBackAudio(9)));
        assert!(card.reveal);
        assert_eq!(card.selection, ReviewSelection::CardRater);
    }
    let mut card = rev(ReviewSelection::RevealButton, false, None);
    assert_eq!(mode_review(&mut card, MyKey::Char('x')), only(Action::Nothing));
    assert!(!card.reveal);
    assert_eq!(card.selection, ReviewSelection::RevealButton);
}

#[test]
fn rater_digits_rate_the_card() {
    for c in ['1', '2', '3', '4'] {
        let mut card = rev(ReviewSelection::CardRater, true, None);
        assert_eq!(
            mode_review(&mut card, MyKey::Char(c)),
            only(Action::Review("q".to_string(), "a".to_string(), 9, c))
        );
    }
    for c in ['0', '5', '9', 'a'] {
        let mut card = rev(ReviewSelection::CardRater, true, None);
        assert_eq!(
            mode_review(&mut card, MyKey::Char(c)),
            pass(KeyTarget::CardRater(MyKey::Char(c)))
        );
    }
}

#[test]
fn rater_confirm_gives_selected_grade_or_skips() {
    let mut card = rev(ReviewSelection::CardRater, true, Some(RecallGrade::Decent));
    assert_eq!(
        mode_review(&mut card, MyKey::Enter),
        only(Action::Review("q".to_string(), "a".to_string(), 9, '3'))
    );
    let mut card = rev(ReviewSelection::CardRater, true, Some(RecallGrade::NoRecall));
    assert_eq!(
        mode_review(&mut card, MyKey::Char(' ')),
        only(Action::Review("q".to_string(), "a".to_string(), 9, '1'))
    );
    let mut card = rev(ReviewSelection::CardRater, true, None);
    assert_eq!(
        mode_review(&mut card, MyKey::Enter),
        only(Action::SkipRev("q".to_string(), "a".to_string(), 9))
    );
    assert_eq!(
        mode_review(&mut card, MyKey::Left),
        pass(KeyTarget::CardRater(MyKey::Left))
    );
}

#[test]
fn review_alt_commands() {
    let mut card = rev(ReviewSelection::Dependents, true, None);
    assert_eq!(
        mode_review(&mut card, MyKey::Alt('s')),
        only(Action::SkipRev("q".to_string(), "a".to_string(), 9))
    );
    assert_eq!(mode_review(&mut card, MyKey::Alt('t')), only(Action::NewDependent(9)));
    assert_eq!(mode_review(&mut card, MyKey::Alt('y')), only(Action::NewDependency(9)));
    assert_eq!(mode_review(&mut card, MyKey::Alt('T')), only(Action::AddDependent(9)));
    assert_eq!(mode_review(&mut card, MyKey::Alt('Y')), only(Action::AddDependency(9)));
    assert_eq!(
        mode_review(&mut card, MyKey::Alt('i')),
        ReviewStep {
            action: Action::SkipRev("q".to_string(), "a".to_string(), 9),
            suspend: Some(9),
            target: KeyTarget::Nothing,
        }
    );
    // a review card has no finish command
    assert_eq!(mode_review(&mut card, MyKey::Alt('f')), only(Action::Nothing));
    assert_eq!(mode_review(&mut card, MyKey::Char('x')), only(Action::Nothing));
    let mut card = rev(ReviewSelection::Answer, true, None);
    assert_eq!(
        mode_review(&mut card, MyKey::Alt('f')),
        pass(KeyTarget::Answer(MyKey::Alt('f')))
    );
}

#[test]
fn reading_keys() {
    let mut text = inc(IncSelection::Source);
    let cursor = CursorPos { row: 2, column: 4 };
    assert_eq!(
        mode_inc(&mut text, MyKey::Alt('d')),
        only(Action::IncDone("some long text".to_string(), 3, cursor))
    );
    assert_eq!(
        mode_inc(&mut text, MyKey::Alt('s')),
        only(Action::IncNext("some long text".to_string(), 3, cursor))
    );
    assert_eq!(mode_inc(&mut text, MyKey::Alt('a')), only(Action::AddChild(3)));
    assert_eq!(mode_inc(&mut text, MyKey::Char('k')), pass(KeyTarget::Source(MyKey::Char('k'))));
    assert_eq!(mode_inc(&mut text, MyKey::Alt('q')), only(Action::Quit));
    assert_eq!(mode_inc(&mut text, MyKey::Nav(Direction::Right)), only(Action::Nothing));
    assert_eq!(text.selection, IncSelection::Extracts);
    assert_eq!(mode_inc(&mut text, MyKey::Alt('a')), only(Action::Nothing));
    assert_eq!(mode_inc(&mut text, MyKey::Char('k')), only(Action::Nothing));
}

#[test]
fn alt_q_quits_in_every_mode() {
    let modes = vec![
        ReviewMode::Done,
        ReviewMode::Unfinished(unf(UnfSelection::Answer)),
        ReviewMode::Pending(rev(ReviewSelection::CardRater, true, None)),
        ReviewMode::Review(rev(ReviewSelection::RevealButton, false, None)),
        ReviewMode::IncRead(inc(IncSelection::Clozes)),
    ];
    for mode in modes {
        let mut after = match &mode {
            ReviewMode::Done => ReviewMode::Done,
            ReviewMode::Unfinished(u) => ReviewMode::Unfinished(unf(u.selection)),
            ReviewMode::Pending(r) => ReviewMode::Pending(rev(r.selection, r.reveal, r.rater)),
            ReviewMode::Review(r) => ReviewMode::Review(rev(r.selection, r.reveal, r.rater)),
            ReviewMode::IncRead(i) => ReviewMode::IncRead(inc(i.selection)),
        };
        assert_eq!(review_event(&mut after, MyKey::Alt('q')), only(Action::Quit));
        assert_eq!(after, mode);
    }
}

#[test]
fn review_event_dispatches_on_the_mode() {
    let mut mode = ReviewMode::Done;
    assert_eq!(review_event(&mut mode, MyKey::Alt('r')), only(Action::Refresh));
    let mut mode = ReviewMode::Pending(rev(ReviewSelection::Question, false, None));
    assert_eq!(review_event(&mut mode, MyKey::Nav(Direction::Down)), only(Action::Nothing));
    assert_eq!(mode, ReviewMode::Pending(rev(ReviewSelection::RevealButton, false, None)));
    assert_eq!(review_event(&mut mode, MyKey::Enter), only(Action::PlayBackAudio(9)));
    assert_eq!(mode, ReviewMode::Pending(rev(ReviewSelection::CardRater, true, None)));
    let mut mode = ReviewMode::IncRead(inc(IncSelection::Source));
    assert_eq!(review_event(&mut mode, MyKey::Alt('a')), only(Action::AddChild(3)));
}

#[test]
fn grade_digits_round_trip() {
    assert_eq!(grade_digit(RecallGrade::NoRecall), '1');
    assert_eq!(grade_digit(RecallGrade::Failed), '2');
    assert_eq!(grade_digit(RecallGrade::Decent), '3');
    assert_eq!(grade_digit(RecallGrade::Easy), '4');
    for g in [RecallGrade::NoRecall, RecallGrade::Failed, RecallGrade::Decent, RecallGrade::Easy] {
        assert_eq!(grade_of_digit(grade_digit(g)), g);
    }
    assert_eq!(grade_of_digit('1'), RecallGrade::NoRecall);
    assert_eq!(grade_of_digit('4'), RecallGrade::Easy);
}
