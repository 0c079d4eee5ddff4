use tempusbot::commands::tempus::ranks::{
    board_for_command, class_field, overall_field, player_rank_address, rank_page_address,
    rank_page_reply, rank_start, rank_step, ranks_title, RankAction, RankEvent, RankStep,
};
use tempusbot::commands::tempus::times::Classes;

#[test]
fn boards_of_commands() {
    assert_eq!(board_for_command("rank"), Some(Classes::Overall));
    assert_eq!(board_for_command("srank"), Some(Classes::Soldier));
    assert_eq!(board_for_command("drank"), Some(Classes::Demoman));
    assert_eq!(board_for_command("stime"), None);
}

#[test]
fn ranking_addresses() {
    assert_eq!(
        rank_page_address(Classes::Overall, 1),
        "https://tempus2.xyz/api/v0/ranks/overall?start=1"
    );
    assert_eq!(
        rank_page_address(Classes::Soldier, 50),
        "https://tempus2.xyz/api/v0/ranks/class/3?start=50"
    );
    assert_eq!(
        rank_page_address(Classes::Demoman, -3),
        "https://tempus2.xyz/api/v0/ranks/class/4?start=-3"
    );
    assert_eq!(
        player_rank_address(9001),
        "https://tempus2.xyz/api/v0/players/id/9001/rank"
    );
}

#[test]
fn ranking_page_answer() {
    let points = format!("{}", 1234.5f64);
    assert_eq!(
        rank_page_reply(Classes::Soldier, "jumper", 3, 5000, &points),
        "(Soldier) jumper is ranked 3/5000 with 1234.5 points!"
    );
}

#[test]
fn player_ranks_card() {
    assert_eq!(ranks_title("jumper"), "jumper's ranks!");
    assert_eq!(
        overall_field("jumper", 10, 900, "77"),
        "jumper is ranked 10/900, with 77 points!"
    );
    assert_eq!(
        class_field("jumper", 4, 300, &Some("Elite".to_string())),
        "jumper is ranked 4/300, title: Elite"
    );
    assert_eq!(
        class_field("jumper", 0, 300, &None),
        "jumper is ranked 0/300, title: unranked"
    );
}

#[test]
fn ranking_page_steps() {
    let (s, a) = rank_start("srank", Some(20)).unwrap();
    assert_eq!(s, RankStep::AwaitPageStatus(Classes::Soldier));
    assert_eq!(a, RankAction::FetchPage(Classes::Soldier, 20));
    let (s2, a2) = rank_step(s, RankEvent::Status(200));
    assert_eq!((s2, a2), (RankStep::AwaitPage(Classes::Soldier), RankAction::ReadBody));
    assert_eq!(
        rank_step(s2, RankEvent::BodyRead),
        (RankStep::Done, RankAction::ReplyPage(Classes::Soldier))
    );
    assert_eq!(
        rank_step(s, RankEvent::Status(429)),
        (RankStep::Done, RankAction::ShutdownRatelimited)
    );
    assert_eq!(rank_start("stime", Some(1)), None);
}

#[test]
fn own_ranks_steps() {
    let (s, a) = rank_start("drank", None).unwrap();
    assert_eq!((s, a), (RankStep::AwaitTempusId, RankAction::LookupTempusId));
    assert_eq!(
        rank_step(s, RankEvent::TempusId(None)),
        (RankStep::Done, RankAction::ReplyNotLinked)
    );
    let (s, a) = rank_step(s, RankEvent::TempusId(Some(5)));
    assert_eq!((s, a), (RankStep::AwaitPlayerStatus, RankAction::FetchPlayerRanks(5)));
    assert_eq!(
        rank_step(s, RankEvent::Status(429)),
        (RankStep::Done, RankAction::ShutdownRatelimited)
    );
    let (s, a) = rank_step(s, RankEvent::Status(200));
    assert_eq!((s, a), (RankStep::AwaitPlayerRanks, RankAction::ReadBody));
    assert_eq!(
        rank_step(s, RankEvent::BodyRead),
        (RankStep::Done, RankAction::ReplyPlayerRanks)
    );
}

#[test]
fn unexpected_events_wait() {
    assert_eq!(
        rank_step(RankStep::Done, RankEvent::BodyRead),
        (RankStep::Done, RankAction::Wait)
    );
    assert_eq!(
        rank_step(RankStep::AwaitTempusId, RankEvent::Status(200)),
        (RankStep::AwaitTempusId, RankAction::Wait)
    );
}
