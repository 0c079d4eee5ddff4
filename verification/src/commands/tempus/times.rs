//! The `stime` and `dtime` commands: a user's rank and time on a map, as
//! soldier or as demoman.

use crate::foreign::{clock_text, hhmmssxxx};
use crate::text::{decimal_string, signed_decimal, signed_decimal_string};
use vstd::prelude::*;

verus! {

/// The player classes that Tempus ranks, and the overall ranking.
#[derive(Debug, Clone, Copy, PartialEq, Eq, Structural)]
pub enum Classes {
    Soldier,
    Demoman,
    Overall,
}

/// How a class is shown: its name.
pub open spec fn class_text(c: Classes) -> Seq<char> {
    match c {
        Classes::Soldier => "Soldier"@,
        Classes::Demoman => "Demoman"@,
        Classes::Overall => "Overall"@,
    }
}

/// The number by which Tempus knows a class: 3 for soldier, 4 for demoman.
pub open spec fn class_number(c: Classes) -> nat {
    match c {
        Classes::Soldier => 3,
        _ => 4,
    }
}

impl Classes {
    /// How the class is shown: its name.
    pub fn text(&self) -> (s: String)
        ensures
            s@ == class_text(*self),
    {
        match self {
            Classes::Soldier => String::from_str("Soldier"),
            Classes::Demoman => String::from_str("Demoman"),
            Classes::Overall => String::from_str("Overall"),
        }
    }

    /// The number by which Tempus knows a class (soldier or demoman).
    pub fn number(&self) -> (n: u64)
        requires
            *self != Classes::Overall,
        ensures
            n == class_number(*self),
    {
        match self {
            Classes::Soldier => 3,
            _ => 4,
        }
    }
}

/// The address of a player's record on the main course of a map, as one class.
pub open spec fn record_url(map: Seq<char>, tempus_id: i64, class: Classes) -> Seq<char> {
    "https://tempus2.xyz/api/v0/maps/name/"@ + map + "/zones/typeindex/map/1/records/player/"@
        + signed_decimal(tempus_id as int) + "/"@ + crate::text::decimal(class_number(class))
}

/// The address of a player's record on the main course of a map, as one class.
pub fn record_address(map: &str, tempus_id: i64, class: Classes) -> (s: String)
    requires
        class != Classes::Overall,
    ensures
        s@ == record_url(map@, tempus_id, class),
{
    let mut s = String::from_str("https://tempus2.xyz/api/v0/maps/name/");
    s.append(map);
    s.append("/zones/typeindex/map/1/records/player/");
    s.append(signed_decimal_string(tempus_id).as_str());
    s.append("/");
    s.append(decimal_string(class.number()).as_str());
    s
}

/// How many players have completed the map as the class that was asked for:
/// the soldier count for soldier, the demoman count otherwise.
pub fn completions_for(class: Classes, soldier: i64, demoman: i64) -> (n: i64)
    ensures
        n == (if class == Classes::Soldier { soldier } else { demoman }),
{
    if class == Classes::Soldier {
        soldier
    } else {
        demoman
    }
}

/// A player's record on a map: name, rank, and the time as whole seconds
/// and the nanoseconds past them.
pub struct RunRecord {
    pub name: String,
    pub rank: i64,
    pub secs: u64,
    pub nanos: u32,
}

/// The answer that shows a record: `<name> is ranked <rank>/<completions> on <map>, <time>`.
pub open spec fn record_text(
    name: Seq<char>,
    rank: i64,
    completions: i64,
    map: Seq<char>,
    clock: Seq<char>,
) -> Seq<char> {
    name + " is ranked "@ + signed_decimal(rank as int) + "/"@ + signed_decimal(completions as int)
        + " on "@ + map + ", "@ + clock
}

/// The answer when the player has no time on the map as the class.
pub open spec fn no_completion_text(class: Classes, map: Seq<char>) -> Seq<char> {
    "No "@ + class_text(class) + " completion on "@ + map + " :("@
}

/// Whether the time of a record can be written as a clock: its nanoseconds
/// are below one second and its seconds are not exactly 2^63.
pub open spec fn clock_writable(secs: u64, nanos: u32) -> bool {
    nanos < 1_000_000_000 && secs != 0x8000_0000_0000_0000u64
}

/// Whether the time of a record can be written as a clock.
pub fn can_write_clock(secs: u64, nanos: u32) -> (r: bool)
    ensures
        r == clock_writable(secs, nanos),
{
    nanos < 1_000_000_000 && secs != 0x8000_0000_0000_0000u64
}

/// The time of a record as `HH:MM:SS.xxx`.
pub fn run_time_text(secs: u64, nanos: u32) -> (s: String)
    requires
        clock_writable(secs, nanos),
    ensures
        s@ == clock_text(secs, nanos),
{
    hhmmssxxx(secs, nanos)
}

/// The answer to `stime`/`dtime`: the record where there is one, else that
/// the player has no completion of the map as the class.
pub fn time_reply(
    class: Classes,
    map: &str,
    soldier_completions: i64,
    demoman_completions: i64,
    record: &Option<RunRecord>,
) -> (s: String)
    requires
        record matches Some(r) ==> clock_writable(r.secs, r.nanos),
    ensures
        record matches Some(r) ==> s@ == record_text(
            r.name@,
            r.rank,
            if class == Classes::Soldier { soldier_completions } else { demoman_completions },
            map@,
            clock_text(r.secs, r.nanos),
        ),
        record is None ==> s@ == no_completion_text(class, map@),
{
    match record {
        Some(r) => {
            let completions = completions_for(class, soldier_completions, demoman_completions);
            let mut s = r.name.clone();
            s.append(" is ranked ");
            s.append(signed_decimal_string(r.rank).as_str());
            s.append("/");
            s.append(signed_decimal_string(completions).as_str());
            s.append(" on ");
            s.append(map);
            s.append(", ");
            s.append(run_time_text(r.secs, r.nanos).as_str());
            s
        },
        None => {
            let mut s = String::from_str("No ");
            s.append(class.text().as_str());
            s.append(" completion on ");
            s.append(map);
            s.append(" :(");
            s
        },
    }
}

/// Where a `stime`/`dtime` command stands.
#[derive(Debug, Clone, Copy, PartialEq, Eq, Structural)]
pub enum TimeStep {
    /// Waiting for the user's linked Tempus id.
    AwaitTempusId,
    /// Waiting for the record that Tempus holds.
    AwaitRecord,
    /// Nothing left to do.
    Done,
}

/// What the outside world tells a `stime`/`dtime` command.
#[derive(Debug, Clone, Copy, PartialEq, Eq, Structural)]
pub enum TimeEvent {
    /// The linked Tempus id, if the user has one.
    TempusId(Option<i64>),
    /// The record of the player on the map has been read.
    RecordRead,
}

/// What a `stime`/`dtime` command asks of the outside world.
#[derive(Debug, Clone, Copy, PartialEq, Eq, Structural)]
pub enum TimeAction {
    /// Answer that the user has no linked Tempus id.
    ReplyNotLinked,
    /// Fetch the record of this Tempus id at `record_address`.
    FetchRecord(i64),
    /// Answer with `time_reply`.
    ReplyRecord,
    /// Nothing: the event does not concern this step.
    Wait,
}

/// The next step of a `stime`/`dtime` command and what it asks for.
pub open spec fn time_next(step: TimeStep, event: TimeEvent) -> (TimeStep, TimeAction) {
    match (step, event) {
        (TimeStep::AwaitTempusId, TimeEvent::TempusId(None)) => (TimeStep::Done, TimeAction::ReplyNotLinked),
        (TimeStep::AwaitTempusId, TimeEvent::TempusId(Some(t))) => (
            TimeStep::AwaitRecord,
            TimeAction::FetchRecord(t),
        ),
        (TimeStep::AwaitRecord, TimeEvent::RecordRead) => (TimeStep::Done, TimeAction::ReplyRecord),
        _ => (step, TimeAction::Wait),
    }
}

/// A `stime`/`dtime` command starts by looking up the user's Tempus id.
pub fn time_start() -> (step: TimeStep)
    ensures
        step == TimeStep::AwaitTempusId,
{
    TimeStep::AwaitTempusId
}

/// Takes a `stime`/`dtime` command one step on.
pub fn time_step(step: TimeStep, event: TimeEvent) -> (r: (TimeStep, TimeAction))
    ensures
        r == time_next(step, event),
{
    match (step, event) {
        (TimeStep::AwaitTempusId, TimeEvent::TempusId(None)) => (TimeStep::Done, TimeAction::ReplyNotLinked),
        (TimeStep::AwaitTempusId, TimeEvent::TempusId(Some(t))) => (
            TimeStep::AwaitRecord,
            TimeAction::FetchRecord(t),
        ),
        (TimeStep::AwaitRecord, TimeEvent::RecordRead) => (TimeStep::Done, TimeAction::ReplyRecord),
        _ => (step, TimeAction::Wait),
    }
}


/// Each class is shown by its own name, and no two classes share a name.
pub proof fn law_class_names(a: Classes, b: Classes)
    ensures
        class_text(Classes::Soldier) == "Soldier"@,
        class_text(Classes::Demoman) == "Demoman"@,
        class_text(Classes::Overall) == "Overall"@,
        class_text(a) == class_text(b) ==> a == b,
{
    reveal_strlit("Soldier");
    reveal_strlit("Demoman");
    reveal_strlit("Overall");
    if a != b {
        assert(class_text(a)[0] != class_text(b)[0]);
    }
}

/// The answer without a completion names the class that was asked for,
/// right after `No `, and the map: two such answers on one map are equal
/// only for the same class.
pub proof fn law_no_completion_names_class(c: Classes, d: Classes, map: Seq<char>)
    ensures
        no_completion_text(c, map).subrange(0, 3) == "No "@,
        no_completion_text(c, map).subrange(3, 3 + class_text(c).len() as int) == class_text(c),
        no_completion_text(c, map) == no_completion_text(d, map) ==> c == d,
{
    reveal_strlit("No ");
    reveal_strlit("Soldier");
    reveal_strlit("Demoman");
    reveal_strlit("Overall");
    let t = no_completion_text(c, map);
    let rest = " completion on "@ + map + " :("@;
    assert(t =~= "No "@ + (class_text(c) + rest));
    assert(t.subrange(0, 3) =~= "No "@);
    assert(t.subrange(3, 3 + class_text(c).len() as int) =~= class_text(c));
    if no_completion_text(c, map) == no_completion_text(d, map) && c != d {
        assert(t[3] == class_text(c)[0]);
        assert(no_completion_text(d, map) =~= "No "@ + (class_text(d) + rest));
        assert(no_completion_text(d, map)[3] == class_text(d)[0]);
    }
}

/// A user with a linked id gets the record of that very id fetched; once
/// it is read, it is answered.
pub proof fn law_time_fetches_linked_id(t: i64)
    ensures
        time_next(TimeStep::AwaitTempusId, TimeEvent::TempusId(Some(t))) == (
            TimeStep::AwaitRecord,
            TimeAction::FetchRecord(t),
        ),
        time_next(TimeStep::AwaitRecord, TimeEvent::RecordRead) == (TimeStep::Done, TimeAction::ReplyRecord),
{
}


/// Tempus numbers the soldier class 3 and the demoman class 4.
pub proof fn law_class_numbers()
    ensures
        class_number(Classes::Soldier) == 3,
        class_number(Classes::Demoman) == 4,
{
}

} // verus!
