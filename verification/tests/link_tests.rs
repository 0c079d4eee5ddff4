use tempusbot::commands::tempus::link::{
    already_linked_message, button_labels, declined_message, found_description, found_title,
    invalid_id_message, link_start, link_step, linked_message, stats_address, LinkAction,
    LinkEvent, LinkStep, TempusPlayerInfo,
};
use tempusbot::commands::{answer_of_button, button_id_string, Answer};

#[test]
fn stats_address_of_player() {
    assert_eq!(
        stats_address(1234),
        "https://tempus2.xyz/api/v0/players/id/1234/stats"
    );
}

#[test]
fn button_ids() {
    assert_eq!(button_id_string(987654321, Answer::Yes), "987654321.yes");
    assert_eq!(button_id_string(987654321, Answer::No), "987654321.no");
    assert_eq!(answer_of_button(5, "5.yes"), Some(Answer::Yes));
    assert_eq!(answer_of_button(5, "5.no"), Some(Answer::No));
    assert_eq!(answer_of_button(5, "6.yes"), None);
    assert_eq!(answer_of_button(5, "55.yes"), None);
    assert_eq!(answer_of_button(5, "5.maybe"), None);
}

#[test]
fn button_ids_never_collide() {
    let mut seen = std::collections::HashSet::new();
    for i in [0u64, 1, 5, 10, 50, 55, 100, u64::MAX] {
        for a in [Answer::Yes, Answer::No] {
            assert!(seen.insert(button_id_string(i, a)));
        }
    }
}

#[test]
fn link_texts() {
    assert_eq!(already_linked_message(1234), "Tempus ID (1234) already linked!");
    assert_eq!(invalid_id_message(), "Not a valid tempus id!");
    assert_eq!(found_title("jumper"), "Found player: jumper");
    assert_eq!(
        found_description(42, "1337.5"),
        "Overall rank: 42, Overall points: 1337.5"
    );
    assert_eq!(linked_message(), "Successfully linked your tempus id!");
    assert_eq!(declined_message(), "gg...");
    let (yes, no) = button_labels();
    assert_eq!(yes, "dat me");
    assert_eq!(no, "dat not me...");
}

#[test]
fn player_info_holds_name_and_id() {
    let p = TempusPlayerInfo { name: "jumper".to_string(), id: 7 };
    let q = p.clone();
    assert_eq!(q.name, "jumper");
    assert_eq!(q.id, 7);
}

#[test]
fn link_confirmed() {
    let i = 77;
    let s = link_start();
    let (s, a) = link_step(i, s, &LinkEvent::Existing(None));
    assert_eq!((s, a), (LinkStep::AwaitStatus, LinkAction::FetchStats));
    let (s, a) = link_step(i, s, &LinkEvent::Status(200));
    assert_eq!((s, a), (LinkStep::AwaitPlayer, LinkAction::ReadPlayer));
    let (s, a) = link_step(i, s, &LinkEvent::PlayerRead);
    assert_eq!((s, a), (LinkStep::AwaitChoice, LinkAction::ShowPlayer));
    let (s, a) = link_step(i, s, &LinkEvent::Pressed("77.yes".to_string()));
    assert_eq!((s, a), (LinkStep::AwaitChoice, LinkAction::SaveLink));
    let (s, a) = link_step(i, s, &LinkEvent::Pressed("78.yes".to_string()));
    assert_eq!((s, a), (LinkStep::AwaitChoice, LinkAction::Wait));
    let (s, a) = link_step(i, s, &LinkEvent::Pressed("77.no".to_string()));
    assert_eq!((s, a), (LinkStep::AwaitChoice, LinkAction::Decline));
    let (s, a) = link_step(i, s, &LinkEvent::TimedOut);
    assert_eq!((s, a), (LinkStep::Done, LinkAction::Finish));
    assert_eq!(
        link_step(i, s, &LinkEvent::Pressed("77.yes".to_string())),
        (LinkStep::Done, LinkAction::Wait)
    );
}

#[test]
fn link_already_present() {
    assert_eq!(
        link_step(1, LinkStep::AwaitExisting, &LinkEvent::Existing(Some(9))),
        (LinkStep::Done, LinkAction::ReplyAlreadyLinked(9))
    );
}

#[test]
fn link_refused_by_tempus() {
    assert_eq!(
        link_step(1, LinkStep::AwaitStatus, &LinkEvent::Status(429)),
        (LinkStep::Done, LinkAction::ShutdownRatelimited)
    );
    assert_eq!(
        link_step(1, LinkStep::AwaitStatus, &LinkEvent::Status(404)),
        (LinkStep::Done, LinkAction::ReplyInvalidId)
    );
}

#[test]
fn yes_before_card_saves_nothing() {
    assert_eq!(
        link_step(1, LinkStep::AwaitExisting, &LinkEvent::Pressed("1.yes".to_string())),
        (LinkStep::AwaitExisting, LinkAction::Wait)
    );
    assert_eq!(
        link_step(1, LinkStep::AwaitPlayer, &LinkEvent::Pressed("1.yes".to_string())),
        (LinkStep::AwaitPlayer, LinkAction::Wait)
    );
}
