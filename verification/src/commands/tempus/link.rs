//! The `link` command: ties a Tempus id to the Discord account of the user
//! once they confirm that the player Tempus shows is them.

use crate::commands::tempus::{NOT_FOUND, TOO_MANY_REQUESTS};
use crate::commands::{answer_of, answer_of_button, button_id, law_button_answer_round_trip, Answer};
use crate::text::{signed_decimal, signed_decimal_string};
use vstd::prelude::*;

verus! {

/// A Tempus player as Tempus describes them.
#[derive(Debug, Clone)]
pub struct TempusPlayerInfo {
    pub name: String,
    pub id: i64,
}

/// The address of a player's statistics.
pub open spec fn stats_url(tempus_id: i64) -> Seq<char> {
    "https://tempus2.xyz/api/v0/players/id/"@ + signed_decimal(tempus_id as int) + "/stats"@
}

/// The address of a player's statistics.
pub fn stats_address(tempus_id: i64) -> (s: String)
    ensures
        s@ == stats_url(tempus_id),
{
    let mut s = String::from_str("https://tempus2.xyz/api/v0/players/id/");
    s.append(signed_decimal_string(tempus_id).as_str());
    s.append("/stats");
    s
}

/// The answer when the user has already linked a Tempus id.
pub open spec fn already_linked_text(tempus_id: i64) -> Seq<char> {
    "Tempus ID ("@ + signed_decimal(tempus_id as int) + ") already linked!"@
}

/// The answer when the user has already linked a Tempus id.
pub fn already_linked_message(tempus_id: i64) -> (s: String)
    ensures
        s@ == already_linked_text(tempus_id),
{
    let mut s = String::from_str("Tempus ID (");
    s.append(signed_decimal_string(tempus_id).as_str());
    s.append(") already linked!");
    s
}

/// The answer when Tempus knows no player with the id.
pub fn invalid_id_message() -> (s: String)
    ensures
        s@ == "Not a valid tempus id!"@,
{
    String::from_str("Not a valid tempus id!")
}

/// The title of the card that shows the player found.
pub open spec fn found_title_text(name: Seq<char>) -> Seq<char> {
    "Found player: "@ + name
}

/// The title of the card that shows the player found.
pub fn found_title(name: &str) -> (s: String)
    ensures
        s@ == found_title_text(name@),
{
    let mut s = String::from_str("Found player: ");
    s.append(name);
    s
}

/// The description of the card: `Overall rank: <rank>, Overall points: <points>`.
pub open spec fn found_description_text(rank: i64, points: Seq<char>) -> Seq<char> {
    "Overall rank: "@ + signed_decimal(rank as int) + ", Overall points: "@ + points
}

/// The description of the card; `points` is the player's points as written out.
pub fn found_description(rank: i64, points: &str) -> (s: String)
    ensures
        s@ == found_description_text(rank, points@),
{
    let mut s = String::from_str("Overall rank: ");
    s.append(signed_decimal_string(rank).as_str());
    s.append(", Overall points: ");
    s.append(points);
    s
}

/// The answer once the link is saved.
pub fn linked_message() -> (s: String)
    ensures
        s@ == "Successfully linked your tempus id!"@,
{
    String::from_str("Successfully linked your tempus id!")
}

/// The answer when the user says the player is not them.
pub fn declined_message() -> (s: String)
    ensures
        s@ == "gg..."@,
{
    String::from_str("gg...")
}

/// The labels of the confirming and the refusing button.
pub fn button_labels() -> (r: (String, String))
    ensures
        r.0@ == "dat me"@,
        r.1@ == "dat not me..."@,
{
    (String::from_str("dat me"), String::from_str("dat not me..."))
}

/// Where a `link` command stands.
#[derive(Debug, Clone, Copy, PartialEq, Eq, Structural)]
pub enum LinkStep {
    /// Waiting for the Tempus id already linked to the user, if any.
    AwaitExisting,
    /// Waiting for the status of the request for the player's statistics.
    AwaitStatus,
    /// Waiting for the player's statistics to be read.
    AwaitPlayer,
    /// The card is shown; waiting for the user to press a button.
    AwaitChoice,
    /// Nothing left to do.
    Done,
}

/// What the outside world tells a `link` command.
#[derive(Debug, Clone, PartialEq, Eq)]
pub enum LinkEvent {
    /// The Tempus id already linked to the user, if any.
    Existing(Option<i64>),
    /// The HTTP status of the answer from Tempus.
    Status(u16),
    /// The player's statistics have been read.
    PlayerRead,
    /// A button was pressed; its id.
    Pressed(String),
    /// No button was pressed in time.
    TimedOut,
}

/// What a `link` command asks of the outside world.
#[derive(Debug, Clone, Copy, PartialEq, Eq, Structural)]
pub enum LinkAction {
    /// Answer with `already_linked_message` of this id.
    ReplyAlreadyLinked(i64),
    /// Fetch the statistics at `stats_address`.
    FetchStats,
    /// Ping the user and the owner with `ratelimit_message` and shut the bot down.
    ShutdownRatelimited,
    /// Answer with `invalid_id_message`.
    ReplyInvalidId,
    /// Read the statistics.
    ReadPlayer,
    /// Show the card with the player and the two buttons.
    ShowPlayer,
    /// Save the link, acknowledge the press, answer `linked_message`, delete the card.
    SaveLink,
    /// Acknowledge the press, answer `declined_message`, delete the card.
    Decline,
    /// End the command.
    Finish,
    /// Nothing: the event does not concern this step.
    Wait,
}

/// The next step of a `link` command within interaction `interaction` and
/// what it asks for.
pub open spec fn link_next(interaction: u64, step: LinkStep, event: LinkEvent) -> (LinkStep, LinkAction) {
    match (step, event) {
        (LinkStep::AwaitExisting, LinkEvent::Existing(Some(t))) => (
            LinkStep::Done,
            LinkAction::ReplyAlreadyLinked(t),
        ),
        (LinkStep::AwaitExisting, LinkEvent::Existing(None)) => (LinkStep::AwaitStatus, LinkAction::FetchStats),
        (LinkStep::AwaitStatus, LinkEvent::Status(code)) => if code == TOO_MANY_REQUESTS {
            (LinkStep::Done, LinkAction::ShutdownRatelimited)
        } else if code == NOT_FOUND {
            (LinkStep::Done, LinkAction::ReplyInvalidId)
        } else {
            (LinkStep::AwaitPlayer, LinkAction::ReadPlayer)
        },
        (LinkStep::AwaitPlayer, LinkEvent::PlayerRead) => (LinkStep::AwaitChoice, LinkAction::ShowPlayer),
        (LinkStep::AwaitChoice, LinkEvent::Pressed(id)) => match answer_of(interaction, id@) {
            Some(Answer::Yes) => (LinkStep::AwaitChoice, LinkAction::SaveLink),
            Some(Answer::No) => (LinkStep::AwaitChoice, LinkAction::Decline),
            None => (LinkStep::AwaitChoice, LinkAction::Wait),
        },
        (LinkStep::AwaitChoice, LinkEvent::TimedOut) => (LinkStep::Done, LinkAction::Finish),
        _ => (step, LinkAction::Wait),
    }
}

/// A `link` command starts by looking up the Tempus id already linked.
pub fn link_start() -> (step: LinkStep)
    ensures
        step == LinkStep::AwaitExisting,
{
    LinkStep::AwaitExisting
}

/// Takes a `link` command within interaction `interaction` one step on.
pub fn link_step(interaction: u64, step: LinkStep, event: &LinkEvent) -> (r: (LinkStep, LinkAction))
    ensures
        r == link_next(interaction, step, *event),
{
    match (step, event) {
        (LinkStep::AwaitExisting, LinkEvent::Existing(Some(t))) => (
            LinkStep::Done,
            LinkAction::ReplyAlreadyLinked(*t),
        ),
        (LinkStep::AwaitExisting, LinkEvent::Existing(None)) => (LinkStep::AwaitStatus, LinkAction::FetchStats),
        (LinkStep::AwaitStatus, LinkEvent::Status(code)) => if *code == TOO_MANY_REQUESTS {
            (LinkStep::Done, LinkAction::ShutdownRatelimited)
        } else if *code == NOT_FOUND {
            (LinkStep::Done, LinkAction::ReplyInvalidId)
        } else {
            (LinkStep::AwaitPlayer, LinkAction::ReadPlayer)
        },
        (LinkStep::AwaitPlayer, LinkEvent::PlayerRead) => (LinkStep::AwaitChoice, LinkAction::ShowPlayer),
        (LinkStep::AwaitChoice, LinkEvent::Pressed(id)) => match answer_of_button(interaction, id.as_str()) {
            Some(Answer::Yes) => (LinkStep::AwaitChoice, LinkAction::SaveLink),
            Some(Answer::No) => (LinkStep::AwaitChoice, LinkAction::Decline),
            None => (LinkStep::AwaitChoice, LinkAction::Wait),
        },
        (LinkStep::AwaitChoice, LinkEvent::TimedOut) => (LinkStep::Done, LinkAction::Finish),
        _ => (step, LinkAction::Wait),
    }
}

/// The step reached and the actions asked for by a series of events,
/// from a given step.
pub open spec fn link_run(interaction: u64, step: LinkStep, events: Seq<LinkEvent>) -> (LinkStep, Seq<LinkAction>)
    decreases events.len(),
{
    if events.len() == 0 {
        (step, Seq::empty())
    } else {
        let (next, action) = link_next(interaction, step, events[0]);
        let (last, rest) = link_run(interaction, next, events.drop_first());
        (last, seq![action] + rest)
    }
}

/// A link is saved only in answer to the confirming button of the command's
/// own interaction, and only after the card with the player was shown: in
/// any series of events from the start of the command, each `SaveLink`
/// follows a `ShowPlayer` and answers a press of that button.
pub proof fn law_link_saved_only_when_confirmed(interaction: u64, events: Seq<LinkEvent>, k: int)
    requires
        0 <= k < link_run(interaction, LinkStep::AwaitExisting, events).1.len(),
        link_run(interaction, LinkStep::AwaitExisting, events).1[k] == LinkAction::SaveLink,
    ensures
        exists|j: int| 0 <= j < k && link_run(interaction, LinkStep::AwaitExisting, events).1[j] == LinkAction::ShowPlayer,
        events[k] matches LinkEvent::Pressed(id) && answer_of(interaction, id@) == Some(Answer::Yes),
{
    lemma_save_needs_show(interaction, LinkStep::AwaitExisting, events, k);
}

proof fn lemma_save_needs_show(interaction: u64, step: LinkStep, events: Seq<LinkEvent>, k: int)
    requires
        step != LinkStep::AwaitChoice,
        0 <= k < link_run(interaction, step, events).1.len(),
        link_run(interaction, step, events).1[k] == LinkAction::SaveLink,
    ensures
        exists|j: int| 0 <= j < k && link_run(interaction, step, events).1[j] == LinkAction::ShowPlayer,
        events[k] matches LinkEvent::Pressed(id) && answer_of(interaction, id@) == Some(Answer::Yes),
    decreases events.len(),
{
    lemma_run_len(interaction, step, events);
    let (next, action) = link_next(interaction, step, events[0]);
    let rest = events.drop_first();
    let acts = link_run(interaction, step, events).1;
    assert(acts == seq![action] + link_run(interaction, next, rest).1);
    assert(acts[0] == action);
    if next == LinkStep::AwaitChoice {
        assert(action == LinkAction::ShowPlayer);
        assert(k > 0);
        lemma_save_answers_yes(interaction, next, rest, k - 1);
        assert(acts[k] == link_run(interaction, next, rest).1[k - 1]);
    } else {
        assert(action != LinkAction::SaveLink);
        assert(k > 0);
        assert(acts[k] == link_run(interaction, next, rest).1[k - 1]);
        lemma_save_needs_show(interaction, next, rest, k - 1);
        let j = choose|j: int| 0 <= j < k - 1 && link_run(interaction, next, rest).1[j] == LinkAction::ShowPlayer;
        assert(acts[j + 1] == link_run(interaction, next, rest).1[j]);
    }
}

proof fn lemma_save_answers_yes(interaction: u64, step: LinkStep, events: Seq<LinkEvent>, k: int)
    requires
        0 <= k < link_run(interaction, step, events).1.len(),
        link_run(interaction, step, events).1[k] == LinkAction::SaveLink,
    ensures
        events[k] matches LinkEvent::Pressed(id) && answer_of(interaction, id@) == Some(Answer::Yes),
    decreases events.len(),
{
    lemma_run_len(interaction, step, events);
    let (next, action) = link_next(interaction, step, events[0]);
    let rest = events.drop_first();
    let acts = link_run(interaction, step, events).1;
    assert(acts == seq![action] + link_run(interaction, next, rest).1);
    if k > 0 {
        assert(acts[k] == link_run(interaction, next, rest).1[k - 1]);
        lemma_save_answers_yes(interaction, next, rest, k - 1);
        assert(rest[k - 1] == events[k]);
    } else {
        assert(acts[0] == action);
    }
}

proof fn lemma_run_len(interaction: u64, step: LinkStep, events: Seq<LinkEvent>)
    ensures
        link_run(interaction, step, events).1.len() == events.len(),
    decreases events.len(),
{
    if events.len() > 0 {
        let (next, action) = link_next(interaction, step, events[0]);
        lemma_run_len(interaction, next, events.drop_first());
    }
}

/// A finished command stays finished and asks for nothing more.
pub proof fn law_link_done_is_final(interaction: u64, event: LinkEvent)
    ensures
        link_next(interaction, LinkStep::Done, event) == (LinkStep::Done, LinkAction::Wait),
{
}


/// How a link command answers each thing that happens in its turn: an id
/// already linked is named back and nothing is fetched; without one the
/// statistics are fetched; a refusal shuts down, an unknown player is
/// reported, any other answer is read and the player shown; the confirming
/// button saves, the refusing one declines, other buttons change nothing;
/// the end of the wait ends the command.
pub proof fn law_link_answers(interaction: u64, t: i64, code: u16, id: String)
    ensures
        link_next(interaction, LinkStep::AwaitExisting, LinkEvent::Existing(Some(t))) == (
            LinkStep::Done,
            LinkAction::ReplyAlreadyLinked(t),
        ),
        link_next(interaction, LinkStep::AwaitExisting, LinkEvent::Existing(None)) == (
            LinkStep::AwaitStatus,
            LinkAction::FetchStats,
        ),
        link_next(interaction, LinkStep::AwaitStatus, LinkEvent::Status(NOT_FOUND)) == (
            LinkStep::Done,
            LinkAction::ReplyInvalidId,
        ),
        code != TOO_MANY_REQUESTS && code != NOT_FOUND ==> link_next(
            interaction,
            LinkStep::AwaitStatus,
            LinkEvent::Status(code),
        ) == (LinkStep::AwaitPlayer, LinkAction::ReadPlayer),
        link_next(interaction, LinkStep::AwaitPlayer, LinkEvent::PlayerRead) == (
            LinkStep::AwaitChoice,
            LinkAction::ShowPlayer,
        ),
        id@ == button_id(interaction, Answer::Yes) ==> link_next(
            interaction,
            LinkStep::AwaitChoice,
            LinkEvent::Pressed(id),
        ) == (LinkStep::AwaitChoice, LinkAction::SaveLink),
        id@ == button_id(interaction, Answer::No) ==> link_next(
            interaction,
            LinkStep::AwaitChoice,
            LinkEvent::Pressed(id),
        ) == (LinkStep::AwaitChoice, LinkAction::Decline),
        id@ != button_id(interaction, Answer::Yes) && id@ != button_id(interaction, Answer::No)
            ==> link_next(interaction, LinkStep::AwaitChoice, LinkEvent::Pressed(id)) == (
            LinkStep::AwaitChoice,
            LinkAction::Wait,
        ),
        link_next(interaction, LinkStep::AwaitChoice, LinkEvent::TimedOut) == (LinkStep::Done, LinkAction::Finish),
{
    law_button_answer_round_trip(interaction, Answer::Yes, id@);
    law_button_answer_round_trip(interaction, Answer::No, id@);
}

} // verus!
