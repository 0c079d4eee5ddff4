//! What the Tempus commands share: the owner to ping when Tempus
//! rate-limits the bot, the answer when a user has no linked Tempus id, and
//! the placement of a rank on a map.

pub mod link;
pub mod ranks;
pub mod times;

use crate::text::{mention, mention_string, signed_decimal, signed_decimal_string};
use vstd::prelude::*;

verus! {

/// Discord id of the bot's owner, pinged when Tempus rate-limits the bot.
pub const OWNER_ID: u64 = 253290704384557057;

/// The HTTP status with which Tempus answers requests that come too often.
pub const TOO_MANY_REQUESTS: u16 = 429;

/// The HTTP status with which Tempus answers a request for an unknown player.
pub const NOT_FOUND: u16 = 404;

/// The message sent when Tempus rate-limits the bot: it pings the user who
/// ran the command and the owner.
pub open spec fn ratelimit_text(author_id: nat) -> Seq<char> {
    mention(author_id) + " ratelimited!!!! "@ + mention(OWNER_ID as nat)
}

/// The message sent when Tempus rate-limits the bot.
pub fn ratelimit_message(author_id: u64) -> (s: String)
    ensures
        s@ == ratelimit_text(author_id as nat),
{
    let mut s = mention_string(author_id);
    s.append(" ratelimited!!!! ");
    s.append(mention_string(OWNER_ID).as_str());
    s
}

/// The answer to a user who has not linked a Tempus id to their account.
pub open spec fn not_linked_text() -> Seq<char> {
    "Tempus ID not linked!"@
}

/// A user has not linked a Tempus id to their Discord account.
#[derive(Debug, Clone, Copy, PartialEq, Eq, Structural)]
pub struct NotLinked;

impl NotLinked {
    /// The text of the error, as the user reads it.
    pub fn message(&self) -> (s: String)
        ensures
            s@ == not_linked_text(),
    {
        String::from_str("Tempus ID not linked!")
    }
}

/// The Tempus id linked to a Discord user, from the row that the link table
/// holds for them: the id where there is one, `NotLinked` where there is none.
pub fn tempus_id_from_lookup(row: Option<i64>) -> (r: Result<i64, NotLinked>)
    ensures
        row matches Some(t) ==> r == Ok::<i64, NotLinked>(t),
        row is None ==> r == Err::<i64, NotLinked>(NotLinked),
{
    match row {
        Some(t) => Ok(t),
        None => Err(NotLinked),
    }
}

/// Where a time ranks on a map: the world record, one of the nine times
/// behind it, or one of five groups.
#[derive(Debug, Clone, Copy, PartialEq, Eq, Structural)]
pub enum TempusPlacement {
    Record,
    TopTime(i64),
    G1,
    G2,
    G3,
    G4,
    G5,
}

/// How a placement is shown.
pub open spec fn placement_text(p: TempusPlacement) -> Seq<char> {
    match p {
        TempusPlacement::Record => "WR"@,
        TempusPlacement::TopTime(r) => "TopTime("@ + signed_decimal(r as int) + ")"@,
        TempusPlacement::G1 => "Group 1"@,
        TempusPlacement::G2 => "Group 2"@,
        TempusPlacement::G3 => "Group 3"@,
        TempusPlacement::G4 => "Group 4"@,
        TempusPlacement::G5 => "Group 5"@,
    }
}

impl TempusPlacement {
    /// How the placement is shown.
    pub fn text(&self) -> (s: String)
        ensures
            s@ == placement_text(*self),
    {
        match self {
            TempusPlacement::Record => String::from_str("WR"),
            TempusPlacement::TopTime(r) => {
                let mut s = String::from_str("TopTime(");
                s.append(signed_decimal_string(*r).as_str());
                s.append(")");
                s
            },
            TempusPlacement::G1 => String::from_str("Group 1"),
            TempusPlacement::G2 => String::from_str("Group 2"),
            TempusPlacement::G3 => String::from_str("Group 3"),
            TempusPlacement::G4 => String::from_str("Group 4"),
            TempusPlacement::G5 => String::from_str("Group 5"),
        }
    }
}

/// The worst rank that each group admits on a map: a rank belongs to the
/// first group whose limit it does not exceed, and to group 5 past all four.
#[derive(Debug, Clone, Copy, PartialEq, Eq, Structural)]
pub struct GroupLimits {
    pub g1: i64,
    pub g2: i64,
    pub g3: i64,
    pub g4: i64,
}

/// The placement of `rank` on a map whose groups end at `limits`.
pub open spec fn placement(rank: i64, limits: GroupLimits) -> TempusPlacement {
    if rank == 1 {
        TempusPlacement::Record
    } else if 2 <= rank <= 10 {
        TempusPlacement::TopTime(rank)
    } else if rank <= limits.g1 {
        TempusPlacement::G1
    } else if rank <= limits.g2 {
        TempusPlacement::G2
    } else if rank <= limits.g3 {
        TempusPlacement::G3
    } else if rank <= limits.g4 {
        TempusPlacement::G4
    } else {
        TempusPlacement::G5
    }
}

/// The placement of `rank` on a map whose groups end at `limits`.
pub fn placement_for(rank: i64, limits: &GroupLimits) -> (p: TempusPlacement)
    ensures
        p == placement(rank, *limits),
{
    if rank == 1 {
        TempusPlacement::Record
    } else if 2 <= rank && rank <= 10 {
        TempusPlacement::TopTime(rank)
    } else if rank <= limits.g1 {
        TempusPlacement::G1
    } else if rank <= limits.g2 {
        TempusPlacement::G2
    } else if rank <= limits.g3 {
        TempusPlacement::G3
    } else if rank <= limits.g4 {
        TempusPlacement::G4
    } else {
        TempusPlacement::G5
    }
}

/// The order of placements, best first.
pub open spec fn tier(p: TempusPlacement) -> int {
    match p {
        TempusPlacement::Record => 0,
        TempusPlacement::TopTime(_) => 1,
        TempusPlacement::G1 => 2,
        TempusPlacement::G2 => 3,
        TempusPlacement::G3 => 4,
        TempusPlacement::G4 => 5,
        TempusPlacement::G5 => 6,
    }
}

/// Whether each group ends no earlier than the one before it.
pub open spec fn limits_ordered(limits: GroupLimits) -> bool {
    limits.g1 <= limits.g2 <= limits.g3 <= limits.g4
}

/// A better (smaller, positive) rank never gets a worse placement, where
/// the groups follow one another.
pub proof fn law_placement_monotone(a: i64, b: i64, limits: GroupLimits)
    requires
        1 <= a <= b,
        limits_ordered(limits),
    ensures
        tier(placement(a, limits)) <= tier(placement(b, limits)),
{
}

/// Rank 1 is the world record, ranks 2 to 10 are top times that keep their
/// rank, and no other rank is either.
pub proof fn law_placement_top(rank: i64, limits: GroupLimits)
    ensures
        (placement(rank, limits) == TempusPlacement::Record) <==> rank == 1,
        (placement(rank, limits) is TopTime) <==> 2 <= rank <= 10,
        placement(rank, limits) matches TempusPlacement::TopTime(r) ==> r == rank,
{
}

/// When Tempus answers that the bot asks too often, every Tempus command
/// that waits for an answer ends there and shuts the bot down.
pub proof fn law_ratelimit_shuts_down(interaction: u64, board: times::Classes)
    ensures
        link::link_next(interaction, link::LinkStep::AwaitStatus, link::LinkEvent::Status(TOO_MANY_REQUESTS))
            == (link::LinkStep::Done, link::LinkAction::ShutdownRatelimited),
        ranks::rank_next(ranks::RankStep::AwaitPageStatus(board), ranks::RankEvent::Status(TOO_MANY_REQUESTS))
            == (ranks::RankStep::Done, ranks::RankAction::ShutdownRatelimited),
        ranks::rank_next(ranks::RankStep::AwaitPlayerStatus, ranks::RankEvent::Status(TOO_MANY_REQUESTS))
            == (ranks::RankStep::Done, ranks::RankAction::ShutdownRatelimited),
{
}

/// A user with no linked Tempus id who asks for their own ranks or times is
/// told so, and nothing is fetched from Tempus.
pub proof fn law_unlinked_user_told()
    ensures
        ranks::rank_next(ranks::RankStep::AwaitTempusId, ranks::RankEvent::TempusId(None))
            == (ranks::RankStep::Done, ranks::RankAction::ReplyNotLinked),
        times::time_next(times::TimeStep::AwaitTempusId, times::TimeEvent::TempusId(None))
            == (times::TimeStep::Done, times::TimeAction::ReplyNotLinked),
{
}


/// Past the top ten, each group is exactly its band of ranks: group 1 up to
/// its limit, each later group past all earlier limits and up to its own,
/// group 5 past all four.
pub proof fn law_placement_bands(rank: i64, limits: GroupLimits)
    requires
        rank > 10,
    ensures
        placement(rank, limits) == TempusPlacement::G1 <==> rank <= limits.g1,
        placement(rank, limits) == TempusPlacement::G2 <==> limits.g1 < rank <= limits.g2,
        placement(rank, limits) == TempusPlacement::G3 <==> (limits.g1 < rank && limits.g2 < rank
            <= limits.g3),
        placement(rank, limits) == TempusPlacement::G4 <==> (limits.g1 < rank && limits.g2 < rank
            && limits.g3 < rank <= limits.g4),
        placement(rank, limits) == TempusPlacement::G5 <==> (limits.g1 < rank && limits.g2 < rank
            && limits.g3 < rank && limits.g4 < rank),
{
}

/// The rate-limit message pings the user who ran the command first and the
/// owner last.
pub proof fn law_ratelimit_pings_author_then_owner(author_id: nat)
    ensures
        ratelimit_text(author_id).subrange(0, mention(author_id).len() as int) == mention(author_id),
        ratelimit_text(author_id).subrange(
            ratelimit_text(author_id).len() - mention(OWNER_ID as nat).len(),
            ratelimit_text(author_id).len() as int,
        ) == mention(OWNER_ID as nat),
{
    let t = ratelimit_text(author_id);
    let a = mention(author_id);
    let o = mention(OWNER_ID as nat);
    assert(t =~= a + (" ratelimited!!!! "@ + o));
    assert(t.subrange(0, a.len() as int) =~= a);
    assert(t =~= (a + " ratelimited!!!! "@) + o);
    assert(t.subrange(t.len() - o.len(), t.len() as int) =~= o);
}


/// How each placement is shown: `WR`, `TopTime(<rank>)`, `Group 1` to
/// `Group 5`; no two placements are shown alike.
pub proof fn law_placement_texts(p: TempusPlacement, q: TempusPlacement, r: i64)
    ensures
        placement_text(TempusPlacement::Record) == seq!['W', 'R'],
        placement_text(TempusPlacement::TopTime(r)) == seq!['T', 'o', 'p', 'T', 'i', 'm', 'e', '(']
            + signed_decimal(r as int) + seq![')'],
        placement_text(TempusPlacement::G1) == "Group "@ + seq!['1'],
        placement_text(TempusPlacement::G2) == "Group "@ + seq!['2'],
        placement_text(TempusPlacement::G3) == "Group "@ + seq!['3'],
        placement_text(TempusPlacement::G4) == "Group "@ + seq!['4'],
        placement_text(TempusPlacement::G5) == "Group "@ + seq!['5'],
        placement_text(p) == placement_text(q) ==> p == q,
{
    reveal_strlit("WR");
    reveal_strlit("TopTime(");
    reveal_strlit(")");
    reveal_strlit("Group ");
    reveal_strlit("Group 1");
    reveal_strlit("Group 2");
    reveal_strlit("Group 3");
    reveal_strlit("Group 4");
    reveal_strlit("Group 5");
    assert("WR"@ =~= seq!['W', 'R']);
    assert("TopTime("@ =~= seq!['T', 'o', 'p', 'T', 'i', 'm', 'e', '(']);
    assert(")"@ =~= seq![')']);
    assert("Group 1"@ =~= "Group "@ + seq!['1']);
    assert("Group 2"@ =~= "Group "@ + seq!['2']);
    assert("Group 3"@ =~= "Group "@ + seq!['3']);
    assert("Group 4"@ =~= "Group "@ + seq!['4']);
    assert("Group 5"@ =~= "Group "@ + seq!['5']);
    if placement_text(p) == placement_text(q) && p != q {
        lemma_placement_text_parts(p);
        lemma_placement_text_parts(q);
        if p is TopTime && q is TopTime {
            let a = p->TopTime_0;
            let b = q->TopTime_0;
            let tp = placement_text(p);
            let dp = signed_decimal(a as int);
            let dq = signed_decimal(b as int);
            assert(tp.len() == 9 + dp.len());
            assert(dp =~= tp.subrange(8, tp.len() - 1));
            assert(dq =~= placement_text(q).subrange(8, placement_text(q).len() - 1));
            crate::text::lemma_signed_decimal_injective(a as int, b as int);
        }
    }
}

/// The first character of a placement's text, and the last one of a group's.
proof fn lemma_placement_text_parts(p: TempusPlacement)
    ensures
        p is Record ==> placement_text(p)[0] == 'W',
        p is TopTime ==> placement_text(p)[0] == 'T' && placement_text(p).len() >= 8,
        !(p is Record) && !(p is TopTime) ==> placement_text(p)[0] == 'G' && placement_text(p).len() == 7,
        p is G1 ==> placement_text(p)[6] == '1',
        p is G2 ==> placement_text(p)[6] == '2',
        p is G3 ==> placement_text(p)[6] == '3',
        p is G4 ==> placement_text(p)[6] == '4',
        p is G5 ==> placement_text(p)[6] == '5',
{
    reveal_strlit("WR");
    reveal_strlit("TopTime(");
    reveal_strlit(")");
    reveal_strlit("Group 1");
    reveal_strlit("Group 2");
    reveal_strlit("Group 3");
    reveal_strlit("Group 4");
    reveal_strlit("Group 5");
}

} // verus!
