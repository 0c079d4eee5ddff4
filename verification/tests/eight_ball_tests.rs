use tempusbot::eight_ball::{eight_ball_answer, should_answer};

#[test]
fn answers_only_questions_to_the_bot() {
    assert!(should_answer(true, "@bot is this true", 1, 2));
    assert!(!should_answer(false, "@bot is this true", 1, 2));
    assert!(!should_answer(true, "@bot is it true", 1, 2));
    assert!(!should_answer(true, "@bot is this true", 2, 2));
}

#[test]
fn answer_comes_from_the_list() {
    let answers = vec!["Yes.".to_string(), "No.".to_string(), "Maybe.".to_string()];
    for _ in 0..50 {
        let a = eight_ball_answer(&answers).unwrap();
        assert!(answers.contains(&a));
    }
    assert_eq!(eight_ball_answer(&vec![]), None);
}
