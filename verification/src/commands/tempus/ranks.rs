//! The `rank`, `srank` and `drank` commands: a page of a Tempus ranking, or
//! the user's own ranks.

use crate::commands::tempus::times::{class_text, Classes};
use crate::commands::tempus::TOO_MANY_REQUESTS;
use crate::text::{same_text, signed_decimal, signed_decimal_string};
use vstd::prelude::*;

verus! {

/// The ranking that a command name asks for: `rank` the overall one,
/// `srank` the soldier one, `drank` the demoman one; no other name is a
/// ranking command.
pub open spec fn board_of_command(name: Seq<char>) -> Option<Classes> {
    if name == "rank"@ {
        Some(Classes::Overall)
    } else if name == "srank"@ {
        Some(Classes::Soldier)
    } else if name == "drank"@ {
        Some(Classes::Demoman)
    } else {
        None
    }
}

/// The ranking that a command name asks for.
pub fn board_for_command(name: &str) -> (r: Option<Classes>)
    ensures
        r == board_of_command(name@),
{
    if same_text(name, "rank") {
        Some(Classes::Overall)
    } else if same_text(name, "srank") {
        Some(Classes::Soldier)
    } else if same_text(name, "drank") {
        Some(Classes::Demoman)
    } else {
        None
    }
}

/// The part of the ranking address that names a ranking.
pub open spec fn board_path(class: Classes) -> Seq<char> {
    match class {
        Classes::Overall => "overall"@,
        Classes::Soldier => "class/3"@,
        Classes::Demoman => "class/4"@,
    }
}

/// The address of the page of a ranking that starts at a rank.
pub open spec fn rank_page_url(class: Classes, start: i64) -> Seq<char> {
    "https://tempus2.xyz/api/v0/ranks/"@ + board_path(class) + "?start="@ + signed_decimal(start as int)
}

/// The address of the page of a ranking that starts at a rank.
pub fn rank_page_address(class: Classes, start: i64) -> (s: String)
    ensures
        s@ == rank_page_url(class, start),
{
    let mut s = String::from_str("https://tempus2.xyz/api/v0/ranks/");
    match class {
        Classes::Overall => s.append("overall"),
        Classes::Soldier => s.append("class/3"),
        Classes::Demoman => s.append("class/4"),
    }
    s.append("?start=");
    s.append(signed_decimal_string(start).as_str());
    s
}

/// The address of a player's ranks.
pub open spec fn player_rank_url(tempus_id: i64) -> Seq<char> {
    "https://tempus2.xyz/api/v0/players/id/"@ + signed_decimal(tempus_id as int) + "/rank"@
}

/// The address of a player's ranks.
pub fn player_rank_address(tempus_id: i64) -> (s: String)
    ensures
        s@ == player_rank_url(tempus_id),
{
    let mut s = String::from_str("https://tempus2.xyz/api/v0/players/id/");
    s.append(signed_decimal_string(tempus_id).as_str());
    s.append("/rank");
    s
}

/// The answer that shows the first player of a ranking page:
/// `(<class>) <name> is ranked <rank>/<count> with <points> points!`.
pub open spec fn rank_page_text(
    class: Classes,
    name: Seq<char>,
    rank: i64,
    count: i64,
    points: Seq<char>,
) -> Seq<char> {
    "("@ + class_text(class) + ") "@ + name + " is ranked "@ + signed_decimal(rank as int) + "/"@
        + signed_decimal(count as int) + " with "@ + points + " points!"@
}

/// The answer that shows the first player of a ranking page; `points` is
/// the player's points as written out.
pub fn rank_page_reply(class: Classes, name: &str, rank: i64, count: i64, points: &str) -> (s:
    String)
    ensures
        s@ == rank_page_text(class, name@, rank, count, points@),
{
    let mut s = String::from_str("(");
    s.append(class.text().as_str());
    s.append(") ");
    s.append(name);
    s.append(" is ranked ");
    s.append(signed_decimal_string(rank).as_str());
    s.append("/");
    s.append(signed_decimal_string(count).as_str());
    s.append(" with ");
    s.append(points);
    s.append(" points!");
    s
}

/// The title of the card with a player's ranks.
pub open spec fn ranks_title_text(name: Seq<char>) -> Seq<char> {
    name + "'s ranks!"@
}

/// The title of the card with a player's ranks.
pub fn ranks_title(name: &str) -> (s: String)
    ensures
        s@ == ranks_title_text(name@),
{
    let mut s = String::from_str(name);
    s.append("'s ranks!");
    s
}

/// The overall line of the card: `<name> is ranked <rank>/<total>, with <points> points!`.
pub open spec fn overall_field_text(name: Seq<char>, rank: i64, total: i64, points: Seq<char>) -> Seq<
    char,
> {
    name + " is ranked "@ + signed_decimal(rank as int) + "/"@ + signed_decimal(total as int)
        + ", with "@ + points + " points!"@
}

/// The overall line of the card.
pub fn overall_field(name: &str, rank: i64, total: i64, points: &str) -> (s: String)
    ensures
        s@ == overall_field_text(name@, rank, total, points@),
{
    let mut s = String::from_str(name);
    s.append(" is ranked ");
    s.append(signed_decimal_string(rank).as_str());
    s.append("/");
    s.append(signed_decimal_string(total).as_str());
    s.append(", with ");
    s.append(points);
    s.append(" points!");
    s
}

/// The title shown for a class: the player's title there, or `unranked`.
pub open spec fn title_or_unranked(title: Option<Seq<char>>) -> Seq<char> {
    match title {
        Some(t) => t,
        None => "unranked"@,
    }
}

/// A class line of the card: `<name> is ranked <rank>/<total>, title: <title>`.
pub open spec fn class_field_text(name: Seq<char>, rank: i64, total: i64, title: Option<Seq<char>>) -> Seq<
    char,
> {
    name + " is ranked "@ + signed_decimal(rank as int) + "/"@ + signed_decimal(total as int)
        + ", title: "@ + title_or_unranked(title)
}

/// A class line of the card.
pub fn class_field(name: &str, rank: i64, total: i64, title: &Option<String>) -> (s: String)
    ensures
        s@ == class_field_text(
            name@,
            rank,
            total,
            match title {
                Some(t) => Some(t@),
                None => None,
            },
        ),
{
    let mut s = String::from_str(name);
    s.append(" is ranked ");
    s.append(signed_decimal_string(rank).as_str());
    s.append("/");
    s.append(signed_decimal_string(total).as_str());
    s.append(", title: ");
    match title {
        Some(t) => s.append(t.as_str()),
        None => s.append("unranked"),
    }
    s
}

/// Where a ranking command stands.
#[derive(Debug, Clone, Copy, PartialEq, Eq, Structural)]
pub enum RankStep {
    /// Waiting for the user's linked Tempus id.
    AwaitTempusId,
    /// Waiting for the status of the request for a page of a ranking.
    AwaitPageStatus(Classes),
    /// Waiting for the page of a ranking to be read.
    AwaitPage(Classes),
    /// Waiting for the status of the request for the user's ranks.
    AwaitPlayerStatus,
    /// Waiting for the user's ranks to be read.
    AwaitPlayerRanks,
    /// Nothing left to do.
    Done,
}

/// What the outside world tells a ranking command.
#[derive(Debug, Clone, Copy, PartialEq, Eq, Structural)]
pub enum RankEvent {
    /// The linked Tempus id, if the user has one.
    TempusId(Option<i64>),
    /// The HTTP status of the answer from Tempus.
    Status(u16),
    /// The answer from Tempus has been read.
    BodyRead,
}

/// What a ranking command asks of the outside world.
#[derive(Debug, Clone, Copy, PartialEq, Eq, Structural)]
pub enum RankAction {
    /// Fetch the page of the class's ranking at this start, at `rank_page_address`.
    FetchPage(Classes, i64),
    /// Look up the user's linked Tempus id.
    LookupTempusId,
    /// Answer that the user has no linked Tempus id.
    ReplyNotLinked,
    /// Fetch the ranks of this Tempus id at `player_rank_address`.
    FetchPlayerRanks(i64),
    /// Ping the user and the owner with `ratelimit_message` and shut the bot down.
    ShutdownRatelimited,
    /// Read the answer from Tempus.
    ReadBody,
    /// Answer with the first player of the page, by `rank_page_reply`.
    ReplyPage(Classes),
    /// Answer with the card of the user's ranks.
    ReplyPlayerRanks,
    /// Nothing: the event does not concern this step.
    Wait,
}

/// How a ranking command starts: with a start rank, a ranking page of the
/// command's ranking (no start for a name that is not a ranking command);
/// without one, the user's own ranks.
pub open spec fn rank_begin(command: Seq<char>, start: Option<i64>) -> Option<(RankStep, RankAction)> {
    match start {
        Some(i) => match board_of_command(command) {
            Some(c) => Some((RankStep::AwaitPageStatus(c), RankAction::FetchPage(c, i))),
            None => None,
        },
        None => Some((RankStep::AwaitTempusId, RankAction::LookupTempusId)),
    }
}

/// How a ranking command starts.
pub fn rank_start(command: &str, start: Option<i64>) -> (r: Option<(RankStep, RankAction)>)
    ensures
        r == rank_begin(command@, start),
{
    match start {
        Some(i) => match board_for_command(command) {
            Some(c) => Some((RankStep::AwaitPageStatus(c), RankAction::FetchPage(c, i))),
            None => None,
        },
        None => Some((RankStep::AwaitTempusId, RankAction::LookupTempusId)),
    }
}

/// The three ranking commands name the overall, the soldier and the demoman
/// ranking, and no other command name is a ranking command.
pub proof fn law_ranking_commands(name: Seq<char>)
    ensures
        board_of_command("rank"@) == Some(Classes::Overall),
        board_of_command("srank"@) == Some(Classes::Soldier),
        board_of_command("drank"@) == Some(Classes::Demoman),
        board_of_command(name) is Some ==> name == "rank"@ || name == "srank"@ || name == "drank"@,
{
    reveal_strlit("rank");
    reveal_strlit("srank");
    reveal_strlit("drank");
    assert("rank"@.len() != "srank"@.len());
    assert("rank"@.len() != "drank"@.len());
    assert("srank"@[0] != "drank"@[0]);
}

/// A ranking command with a start fetches the page of the ranking that its
/// name asks for, at that very start; without a start it looks up the
/// user's own Tempus id whatever its name.
pub proof fn law_page_fetched_from_named_ranking(command: Seq<char>, start: i64)
    ensures
        board_of_command(command) matches Some(c) ==> rank_begin(command, Some(start)) == Some(
            (RankStep::AwaitPageStatus(c), RankAction::FetchPage(c, start)),
        ),
        board_of_command(command) is None ==> rank_begin(command, Some(start)) is None,
        rank_begin(command, None) == Some((RankStep::AwaitTempusId, RankAction::LookupTempusId)),
        rank_begin(command, Some(start)) matches Some((s, RankAction::FetchPage(c, j))) ==> Some(c)
            == board_of_command(command) && j == start && s == RankStep::AwaitPageStatus(c),
{
}

/// The page of a ranking, once Tempus answers without refusing, is read and
/// then answered with that same ranking named; a refusal shuts down.
pub proof fn law_page_reply_names_ranking(c: Classes, code: u16)
    ensures
        rank_next(RankStep::AwaitPage(c), RankEvent::BodyRead) == (RankStep::Done, RankAction::ReplyPage(c)),
        code != TOO_MANY_REQUESTS ==> rank_next(RankStep::AwaitPageStatus(c), RankEvent::Status(code))
            == (RankStep::AwaitPage(c), RankAction::ReadBody),
        code == TOO_MANY_REQUESTS ==> rank_next(RankStep::AwaitPageStatus(c), RankEvent::Status(code))
            == (RankStep::Done, RankAction::ShutdownRatelimited),
{
}

/// Whole runs of a ranking command with a start: the answer names the
/// ranking that the command's name asks for.
pub proof fn law_page_run_names_ranking(command: Seq<char>, start: i64, code: u16)
    requires
        board_of_command(command) is Some,
        code != TOO_MANY_REQUESTS,
    ensures
        ({
            let (s0, a0) = rank_begin(command, Some(start))->Some_0;
            let (s1, a1) = rank_next(s0, RankEvent::Status(code));
            let (s2, a2) = rank_next(s1, RankEvent::BodyRead);
            &&& a0 == RankAction::FetchPage(board_of_command(command)->Some_0, start)
            &&& a1 == RankAction::ReadBody
            &&& s2 == RankStep::Done
            &&& a2 == RankAction::ReplyPage(board_of_command(command)->Some_0)
        }),
{
}

/// Where each ranking is found: `overall`, `class/3` (soldier) and
/// `class/4` (demoman).
pub proof fn law_board_paths()
    ensures
        board_path(Classes::Overall) == "overall"@,
        board_path(Classes::Soldier) == "class/3"@,
        board_path(Classes::Demoman) == "class/4"@,
{
}

/// The answer with a ranking page opens with the name of the ranking in
/// brackets.
pub proof fn law_page_reply_opens_with_ranking(
    c: Classes,
    name: Seq<char>,
    rank: i64,
    count: i64,
    points: Seq<char>,
)
    ensures
        rank_page_text(c, name, rank, count, points).subrange(0, class_text(c).len() as int + 3) == "("@
            + class_text(c) + ") "@,
{
    reveal_strlit("(");
    reveal_strlit(") ");
    let t = rank_page_text(c, name, rank, count, points);
    let head = "("@ + class_text(c) + ") "@;
    let rest = name + " is ranked "@ + signed_decimal(rank as int) + "/"@ + signed_decimal(count as int)
        + " with "@ + points + " points!"@;
    assert(t =~= head + rest);
    assert(head.len() == class_text(c).len() + 3);
    assert(t.subrange(0, class_text(c).len() as int + 3) =~= head);
}

/// A user's own ranks: a user with a linked id gets the ranks of that very
/// id fetched, a refusal shuts down, any other answer is read and then
/// answered with the card.
pub proof fn law_own_ranks_of_linked_id(t: i64, code: u16)
    ensures
        rank_next(RankStep::AwaitTempusId, RankEvent::TempusId(Some(t))) == (
            RankStep::AwaitPlayerStatus,
            RankAction::FetchPlayerRanks(t),
        ),
        code != TOO_MANY_REQUESTS ==> rank_next(RankStep::AwaitPlayerStatus, RankEvent::Status(code))
            == (RankStep::AwaitPlayerRanks, RankAction::ReadBody),
        rank_next(RankStep::AwaitPlayerRanks, RankEvent::BodyRead) == (
            RankStep::Done,
            RankAction::ReplyPlayerRanks,
        ),
{
}

/// The next step of a ranking command and what it asks for.
pub open spec fn rank_next(step: RankStep, event: RankEvent) -> (RankStep, RankAction) {
    match (step, event) {
        (RankStep::AwaitTempusId, RankEvent::TempusId(None)) => (RankStep::Done, RankAction::ReplyNotLinked),
        (RankStep::AwaitTempusId, RankEvent::TempusId(Some(t))) => (
            RankStep::AwaitPlayerStatus,
            RankAction::FetchPlayerRanks(t),
        ),
        (RankStep::AwaitPageStatus(c), RankEvent::Status(code)) => if code == TOO_MANY_REQUESTS {
            (RankStep::Done, RankAction::ShutdownRatelimited)
        } else {
            (RankStep::AwaitPage(c), RankAction::ReadBody)
        },
        (RankStep::AwaitPlayerStatus, RankEvent::Status(code)) => if code == TOO_MANY_REQUESTS {
            (RankStep::Done, RankAction::ShutdownRatelimited)
        } else {
            (RankStep::AwaitPlayerRanks, RankAction::ReadBody)
        },
        (RankStep::AwaitPage(c), RankEvent::BodyRead) => (RankStep::Done, RankAction::ReplyPage(c)),
        (RankStep::AwaitPlayerRanks, RankEvent::BodyRead) => (RankStep::Done, RankAction::ReplyPlayerRanks),
        _ => (step, RankAction::Wait),
    }
}

/// Takes a ranking command one step on.
pub fn rank_step(step: RankStep, event: RankEvent) -> (r: (RankStep, RankAction))
    ensures
        r == rank_next(step, event),
{
    match (step, event) {
        (RankStep::AwaitTempusId, RankEvent::TempusId(None)) => (RankStep::Done, RankAction::ReplyNotLinked),
        (RankStep::AwaitTempusId, RankEvent::TempusId(Some(t))) => (
            RankStep::AwaitPlayerStatus,
            RankAction::FetchPlayerRanks(t),
        ),
        (RankStep::AwaitPageStatus(c), RankEvent::Status(code)) => if code == TOO_MANY_REQUESTS {
            (RankStep::Done, RankAction::ShutdownRatelimited)
        } else {
            (RankStep::AwaitPage(c), RankAction::ReadBody)
        },
        (RankStep::AwaitPlayerStatus, RankEvent::Status(code)) => if code == TOO_MANY_REQUESTS {
            (RankStep::Done, RankAction::ShutdownRatelimited)
        } else {
            (RankStep::AwaitPlayerRanks, RankAction::ReadBody)
        },
        (RankStep::AwaitPage(c), RankEvent::BodyRead) => (RankStep::Done, RankAction::ReplyPage(c)),
        (RankStep::AwaitPlayerRanks, RankEvent::BodyRead) => (RankStep::Done, RankAction::ReplyPlayerRanks),
        _ => (step, RankAction::Wait),
    }
}

} // verus!
