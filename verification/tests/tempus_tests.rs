use tempusbot::commands::tempus::times::{
    completions_for, record_address, run_time_text, time_reply, time_start, time_step, Classes,
    RunRecord, TimeAction, TimeEvent, TimeStep,
};
use tempusbot::commands::tempus::{
    placement_for, ratelimit_message, tempus_id_from_lookup, GroupLimits, NotLinked,
    TempusPlacement, OWNER_ID,
};

#[test]
fn ratelimit_message_pings_author_and_owner() {
    assert_eq!(
        ratelimit_message(42),
        "<@42> ratelimited!!!! <@253290704384557057>"
    );
    assert_eq!(OWNER_ID, 253290704384557057);
}

#[test]
fn tempus_id_lookup() {
    assert_eq!(tempus_id_from_lookup(Some(1234)), Ok(1234));
    assert_eq!(tempus_id_from_lookup(None), Err(NotLinked));
    assert_eq!(NotLinked.message(), "Tempus ID not linked!");
}

#[test]
fn placement_texts() {
    assert_eq!(TempusPlacement::Record.text(), "WR");
    assert_eq!(TempusPlacement::TopTime(7).text(), "TopTime(7)");
    assert_eq!(TempusPlacement::G1.text(), "Group 1");
    assert_eq!(TempusPlacement::G2.text(), "Group 2");
    assert_eq!(TempusPlacement::G3.text(), "Group 3");
    assert_eq!(TempusPlacement::G4.text(), "Group 4");
    assert_eq!(TempusPlacement::G5.text(), "Group 5");
}

fn limits(g1: i64, g2: i64, g3: i64, g4: i64) -> GroupLimits {
    GroupLimits { g1, g2, g3, g4 }
}

#[test]
fn placement_of_ranks() {
    let l = limits(30, 80, 205, 539);
    assert_eq!(placement_for(1, &l), TempusPlacement::Record);
    assert_eq!(placement_for(2, &l), TempusPlacement::TopTime(2));
    assert_eq!(placement_for(10, &l), TempusPlacement::TopTime(10));
    assert_eq!(placement_for(11, &l), TempusPlacement::G1);
    assert_eq!(placement_for(30, &l), TempusPlacement::G1);
    assert_eq!(placement_for(31, &l), TempusPlacement::G2);
    assert_eq!(placement_for(80, &l), TempusPlacement::G2);
    assert_eq!(placement_for(205, &l), TempusPlacement::G3);
    assert_eq!(placement_for(539, &l), TempusPlacement::G4);
    assert_eq!(placement_for(540, &l), TempusPlacement::G5);
    assert_eq!(placement_for(0, &l), TempusPlacement::G1);
}

fn tier(p: TempusPlacement) -> u8 {
    match p {
        TempusPlacement::Record => 0,
        TempusPlacement::TopTime(_) => 1,
        TempusPlacement::G1 => 2,
        TempusPlacement::G2 => 3,
        TempusPlacement::G3 => 4,
        TempusPlacement::G4 => 5,
        TempusPlacement::G5 => 6,
    }
}

#[test]
fn better_rank_never_places_worse() {
    let l = limits(12, 20, 40, 90);
    let mut last = 0;
    for rank in 1..200 {
        let t = tier(placement_for(rank, &l));
        assert!(t >= last);
        last = t;
    }
}

#[test]
fn small_map_limits_skip_groups() {
    let l = limits(10, 10, 10, 10);
    assert_eq!(placement_for(11, &l), TempusPlacement::G5);
}

#[test]
fn class_texts_and_numbers() {
    assert_eq!(Classes::Soldier.text(), "Soldier");
    assert_eq!(Classes::Demoman.text(), "Demoman");
    assert_eq!(Classes::Overall.text(), "Overall");
    assert_eq!(Classes::Soldier.number(), 3);
    assert_eq!(Classes::Demoman.number(), 4);
}

#[test]
fn record_address_of_map() {
    assert_eq!(
        record_address("jump_beef", 1234, Classes::Demoman),
        "https://tempus2.xyz/api/v0/maps/name/jump_beef/zones/typeindex/map/1/records/player/1234/4"
    );
    assert_eq!(
        record_address("jump_soar", 5, Classes::Soldier),
        "https://tempus2.xyz/api/v0/maps/name/jump_soar/zones/typeindex/map/1/records/player/5/3"
    );
}

#[test]
fn completions_follow_the_class() {
    assert_eq!(completions_for(Classes::Soldier, 100, 50), 100);
    assert_eq!(completions_for(Classes::Demoman, 100, 50), 50);
}

#[test]
fn run_time_as_clock() {
    assert_eq!(run_time_text(3661, 534_000_000), "01:01:01.534");
    assert_eq!(run_time_text(0, 0), "00:00:00.000");
    assert_eq!(run_time_text(59, 5_999_999), "00:00:59.005");
    assert_eq!(run_time_text(360_000, 0), "100:00:00.000");
    assert_eq!(run_time_text(u64::MAX, 534_000_000), "-00:00:01.-534");
}

#[test]
fn time_reply_with_record() {
    let record = Some(RunRecord {
        name: "rocketman".to_string(),
        rank: 12,
        secs: 83,
        nanos: 250_000_000,
    });
    assert_eq!(
        time_reply(Classes::Soldier, "jump_beef", 340, 120, &record),
        "rocketman is ranked 12/340 on jump_beef, 00:01:23.250"
    );
    assert_eq!(
        time_reply(Classes::Demoman, "jump_beef", 340, 120, &record),
        "rocketman is ranked 12/120 on jump_beef, 00:01:23.250"
    );
}

#[test]
fn time_reply_without_record() {
    assert_eq!(
        time_reply(Classes::Demoman, "jump_beef", 340, 120, &None),
        "No Demoman completion on jump_beef :("
    );
}

#[test]
fn time_command_steps() {
    let s = time_start();
    assert_eq!(s, TimeStep::AwaitTempusId);
    assert_eq!(
        time_step(s, TimeEvent::TempusId(None)),
        (TimeStep::Done, TimeAction::ReplyNotLinked)
    );
    let (s, a) = time_step(s, TimeEvent::TempusId(Some(77)));
    assert_eq!((s, a), (TimeStep::AwaitRecord, TimeAction::FetchRecord(77)));
    assert_eq!(
        time_step(s, TimeEvent::RecordRead),
        (TimeStep::Done, TimeAction::ReplyRecord)
    );
    assert_eq!(
        time_step(TimeStep::Done, TimeEvent::RecordRead),
        (TimeStep::Done, TimeAction::Wait)
    );
}
