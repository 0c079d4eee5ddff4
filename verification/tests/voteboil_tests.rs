use tempusbot::commands::voteboil::{
    card_words, fate_title, fate_title_from_upper, random_stew_path, refusal_message,
    repeat_vote_message, stew_path, verdict_message, BoilSession, PressOutcome, Verdict,
    VoteTally, BOIL_IMMUNE_ID,
};
use tempusbot::commands::Answer;

#[test]
fn tally_counts_each_member_once() {
    let mut t = VoteTally::new(1);
    assert_eq!(t.yes_count(), 1);
    assert_eq!(t.no_count(), 0);
    assert!(t.has_voted(1));
    assert!(!t.cast(1, Answer::No));
    assert!(t.cast(2, Answer::No));
    assert!(!t.cast(2, Answer::Yes));
    assert!(t.cast(3, Answer::No));
    assert_eq!(t.yes_voters(), vec![1]);
    assert_eq!(t.no_voters(), vec![2, 3]);
    assert!(!t.boils());
    assert!(t.cast(4, Answer::Yes));
    assert!(t.boils());
}

#[test]
fn immune_member_is_not_put_to_vote() {
    assert!(BoilSession::open(BOIL_IMMUNE_ID, 5, 100).is_none());
    assert_eq!(refusal_message(), ">:(");
}

#[test]
fn vote_session() {
    let mut s = BoilSession::open(42, 5, 100).unwrap();
    assert_eq!(s.target(), 42);
    assert_eq!(s.interaction(), 100);
    assert_eq!(s.yes_voters(), vec![5]);
    assert_eq!(s.verdict(), Verdict::Boiled);
    assert_eq!(s.press(6, "100.no"), PressOutcome::Counted(Answer::No));
    assert_eq!(s.verdict(), Verdict::Boiled);
    assert_eq!(s.press(7, "100.no"), PressOutcome::Counted(Answer::No));
    assert_eq!(s.verdict(), Verdict::Spared);
    assert_eq!(s.press(6, "100.yes"), PressOutcome::AlreadyVoted);
    assert_eq!(s.press(5, "100.no"), PressOutcome::AlreadyVoted);
    assert_eq!(s.press(8, "101.yes"), PressOutcome::NotOurs);
    assert_eq!(s.press(8, "100.yes"), PressOutcome::Counted(Answer::Yes));
    assert_eq!(s.yes_voters(), vec![5, 8]);
    assert_eq!(s.no_voters(), vec![6, 7]);
    assert_eq!(s.verdict(), Verdict::Boiled);
    assert_eq!(repeat_vote_message(), "erm");
}

#[test]
fn voters_counted_exactly_once_whatever_they_press() {
    let mut s = BoilSession::open(42, 1, 9).unwrap();
    let presses = [
        (2, "9.yes"),
        (2, "9.no"),
        (3, "9.no"),
        (1, "9.no"),
        (4, "8.yes"),
        (3, "9.yes"),
        (5, "9.no"),
    ];
    for (v, id) in presses {
        s.press(v, id);
    }
    assert_eq!(s.yes_voters(), vec![1, 2]);
    assert_eq!(s.no_voters(), vec![3, 5]);
}

#[test]
fn card_texts() {
    assert_eq!(fate_title("bob"), "DECIDE BOB'S FATE");
    assert_eq!(fate_title("straße"), "DECIDE STRASSE'S FATE");
    assert_eq!(fate_title_from_upper("X"), "DECIDE X'S FATE");
    let (a, b, c, d) = card_words();
    assert_eq!(a, "YES VOTES");
    assert_eq!(b, "NO VOTES");
    assert_eq!(c, "YES!!!");
    assert_eq!(d, "no");
}

#[test]
fn verdict_announcements() {
    assert_eq!(verdict_message(Verdict::Boiled, 42), "<@42> HAS BEEN BOILED");
    assert_eq!(verdict_message(Verdict::Spared, 42), "<@42> has been spared...");
}

#[test]
fn stew_pictures() {
    assert_eq!(stew_path(3), "stews/3.jpg");
    let allowed: Vec<String> = (1..8).map(|n| format!("stews/{n}.jpg")).collect();
    for _ in 0..50 {
        let p = random_stew_path();
        assert!(allowed.contains(&p));
    }
}
