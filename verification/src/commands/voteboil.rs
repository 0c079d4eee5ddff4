//! The `voteboil` command: the members of a server vote on whether a member
//! is boiled. Each member votes once; the one who starts the vote votes yes;
//! a tie boils.

use crate::commands::{answer_of, answer_of_button, button_id, Answer};
use crate::foreign::{random_in_range, to_uppercase, uppercase_of};
use crate::text::{decimal, decimal_string, mention, mention_string};
use vstd::prelude::*;

verus! {

/// The Discord id of the one member who cannot be put to the vote.
pub const BOIL_IMMUNE_ID: u64 = 1439122209170784386;

/// Whether a member is the one who cannot be put to the vote.
pub fn is_boil_immune(target: u64) -> (r: bool)
    ensures
        r == (target == BOIL_IMMUNE_ID),
{
    target == BOIL_IMMUNE_ID
}

/// Whether `v` occurs in `s`.
fn list_contains(s: &Vec<u64>, v: u64) -> (r: bool)
    ensures
        r == s@.contains(v),
{
    let n = s.len();
    for i in 0..n
        invariant
            n == s@.len(),
            forall|k: int| 0 <= k < i ==> s@[k] != v,
    {
        if s[i] == v {
            return true;
        }
    }
    false
}

/// Who voted yes and who voted no.
pub struct VoteTally {
    yes: Vec<u64>,
    no: Vec<u64>,
}

impl VoteTally {
    /// The members who voted yes, in the order of their votes.
    pub closed spec fn yes_votes(&self) -> Seq<u64> {
        self.yes@
    }

    /// The members who voted no, in the order of their votes.
    pub closed spec fn no_votes(&self) -> Seq<u64> {
        self.no@
    }

    /// Whether a member has voted.
    pub open spec fn voted(&self, voter: u64) -> bool {
        self.yes_votes().contains(voter) || self.no_votes().contains(voter)
    }

    /// Every member is counted at most once: no one appears twice on a side
    /// or on both sides.
    pub open spec fn wf(&self) -> bool {
        &&& self.yes_votes().no_duplicates()
        &&& self.no_votes().no_duplicates()
        &&& forall|v: u64| !(self.yes_votes().contains(v) && self.no_votes().contains(v))
    }

    /// Whether the vote, as it stands, boils: at least as many yes as no.
    pub open spec fn boils_spec(&self) -> bool {
        self.yes_votes().len() >= self.no_votes().len()
    }

    /// A vote opened by `author`, who votes yes.
    pub fn new(author: u64) -> (t: VoteTally)
        ensures
            t.wf(),
            t.yes_votes() == seq![author],
            t.no_votes() == Seq::<u64>::empty(),
    {
        let mut yes: Vec<u64> = Vec::new();
        yes.push(author);
        let t = VoteTally { yes, no: Vec::new() };
        assert(t.yes_votes() =~= seq![author]);
        t
    }

    /// Whether a member has voted.
    pub fn has_voted(&self, voter: u64) -> (r: bool)
        ensures
            r == self.voted(voter),
    {
        list_contains(&self.yes, voter) || list_contains(&self.no, voter)
    }

    /// Counts a member's vote unless they have voted already; tells whether
    /// the vote was counted. A repeated vote changes nothing.
    pub fn cast(&mut self, voter: u64, answer: Answer) -> (counted: bool)
        requires
            old(self).wf(),
        ensures
            final(self).wf(),
            counted == !old(self).voted(voter),
            !counted ==> final(self).yes_votes() == old(self).yes_votes() && final(self).no_votes()
                == old(self).no_votes(),
            counted && answer == Answer::Yes ==> final(self).yes_votes() == old(self).yes_votes().push(
                voter,
            ) && final(self).no_votes() == old(self).no_votes(),
            counted && answer == Answer::No ==> final(self).no_votes() == old(self).no_votes().push(
                voter,
            ) && final(self).yes_votes() == old(self).yes_votes(),
    {
        if self.has_voted(voter) {
            return false;
        }
        let ghost old_yes = self.yes@;
        let ghost old_no = self.no@;
        match answer {
            Answer::Yes => {
                self.yes.push(voter);
                assert forall|i: int, j: int|
                    0 <= i < self.yes@.len() && 0 <= j < self.yes@.len() && i != j implies self.yes@[i]
                    != self.yes@[j] by {
                    if i < old_yes.len() && j < old_yes.len() {
                    } else if i == old_yes.len() {
                        assert(old_yes.contains(old_yes[j]));
                    } else {
                        assert(old_yes.contains(old_yes[i]));
                    }
                }
                assert forall|v: u64| !(self.yes@.contains(v) && self.no@.contains(v)) by {
                    if self.yes@.contains(v) {
                        let k = choose|k: int| 0 <= k < self.yes@.len() && self.yes@[k] == v;
                        if k < old_yes.len() {
                            assert(old_yes.contains(v));
                        }
                    }
                }
            },
            Answer::No => {
                self.no.push(voter);
                assert forall|i: int, j: int|
                    0 <= i < self.no@.len() && 0 <= j < self.no@.len() && i != j implies self.no@[i]
                    != self.no@[j] by {
                    if i < old_no.len() && j < old_no.len() {
                    } else if i == old_no.len() {
                        assert(old_no.contains(old_no[j]));
                    } else {
                        assert(old_no.contains(old_no[i]));
                    }
                }
                assert forall|v: u64| !(self.yes@.contains(v) && self.no@.contains(v)) by {
                    if self.no@.contains(v) {
                        let k = choose|k: int| 0 <= k < self.no@.len() && self.no@[k] == v;
                        if k < old_no.len() {
                            assert(old_no.contains(v));
                        }
                    }
                }
            },
        }
        true
    }

    /// How many members voted yes.
    pub fn yes_count(&self) -> (n: usize)
        ensures
            n == self.yes_votes().len(),
    {
        self.yes.len()
    }

    /// How many members voted no.
    pub fn no_count(&self) -> (n: usize)
        ensures
            n == self.no_votes().len(),
    {
        self.no.len()
    }

    /// The members who voted yes, in the order of their votes.
    pub fn yes_voters(&self) -> (v: Vec<u64>)
        ensures
            v@ == self.yes_votes(),
    {
        self.yes.clone()
    }

    /// The members who voted no, in the order of their votes.
    pub fn no_voters(&self) -> (v: Vec<u64>)
        ensures
            v@ == self.no_votes(),
    {
        self.no.clone()
    }

    /// Whether the vote, as it stands, boils: at least as many yes as no.
    pub fn boils(&self) -> (r: bool)
        ensures
            r == self.boils_spec(),
    {
        self.yes.len() >= self.no.len()
    }
}

/// The votes after a member presses the button with id `id` within the
/// interaction: nothing changes when the button is not one of the
/// interaction's two or the member has voted; otherwise the member joins the
/// side of the button.
pub open spec fn ballots_next(
    ballots: (Seq<u64>, Seq<u64>),
    interaction: u64,
    voter: u64,
    id: Seq<char>,
) -> (Seq<u64>, Seq<u64>) {
    match answer_of(interaction, id) {
        None => ballots,
        Some(a) => if ballots.0.contains(voter) || ballots.1.contains(voter) {
            ballots
        } else if a == Answer::Yes {
            (ballots.0.push(voter), ballots.1)
        } else {
            (ballots.0, ballots.1.push(voter))
        },
    }
}

/// The votes after a series of presses, each a member and a button id.
pub open spec fn ballots_after(
    ballots: (Seq<u64>, Seq<u64>),
    interaction: u64,
    presses: Seq<(u64, Seq<char>)>,
) -> (Seq<u64>, Seq<u64>)
    decreases presses.len(),
{
    if presses.len() == 0 {
        ballots
    } else {
        ballots_after(
            ballots_next(ballots, interaction, presses[0].0, presses[0].1),
            interaction,
            presses.drop_first(),
        )
    }
}

/// No member twice on a side, nor on both sides.
pub open spec fn ballots_wf(ballots: (Seq<u64>, Seq<u64>)) -> bool {
    &&& ballots.0.no_duplicates()
    &&& ballots.1.no_duplicates()
    &&& forall|v: u64| !(ballots.0.contains(v) && ballots.1.contains(v))
}

/// Whether one of `presses` is a member pressing one of the interaction's
/// two buttons.
pub open spec fn pressed_a_vote(interaction: u64, presses: Seq<(u64, Seq<char>)>, v: u64) -> bool {
    exists|k: int| 0 <= k < presses.len() && #[trigger] presses[k].0 == v && answer_of(interaction, presses[k].1) is Some
}

/// Whatever members press, in whatever order: no member is counted twice or
/// on both sides, votes once counted stay, and the members counted are
/// exactly those counted before and those who pressed a button of the vote.
pub proof fn law_votes_counted_once(
    ballots: (Seq<u64>, Seq<u64>),
    interaction: u64,
    presses: Seq<(u64, Seq<char>)>,
)
    requires
        ballots_wf(ballots),
    ensures
        ballots_wf(ballots_after(ballots, interaction, presses)),
        ballots.0.is_prefix_of(ballots_after(ballots, interaction, presses).0),
        ballots.1.is_prefix_of(ballots_after(ballots, interaction, presses).1),
        forall|v: u64|
            (#[trigger] ballots_after(ballots, interaction, presses).0.contains(v)
                || ballots_after(ballots, interaction, presses).1.contains(v)) <==> (ballots.0.contains(v)
                || ballots.1.contains(v) || pressed_a_vote(interaction, presses, v)),
    decreases presses.len(),
{
    if presses.len() == 0 {
        assert(ballots.0.is_prefix_of(ballots.0));
        assert(ballots.1.is_prefix_of(ballots.1));
    } else {
        let v0 = presses[0].0;
        let next = ballots_next(ballots, interaction, v0, presses[0].1);
        let rest = presses.drop_first();
        lemma_ballots_next(ballots, interaction, v0, presses[0].1);
        law_votes_counted_once(next, interaction, rest);
        let fin = ballots_after(ballots, interaction, presses);
        assert(fin == ballots_after(next, interaction, rest));
        assert(ballots.0.is_prefix_of(fin.0)) by {
            assert(ballots.0.is_prefix_of(next.0));
        }
        assert(ballots.1.is_prefix_of(fin.1)) by {
            assert(ballots.1.is_prefix_of(next.1));
        }
        assert forall|v: u64|
            (#[trigger] fin.0.contains(v) || fin.1.contains(v)) <==> (ballots.0.contains(v)
                || ballots.1.contains(v) || pressed_a_vote(interaction, presses, v)) by {
            if pressed_a_vote(interaction, rest, v) {
                let k = choose|k: int| 0 <= k < rest.len() && #[trigger] rest[k].0 == v && answer_of(interaction, rest[k].1) is Some;
                assert(presses[k + 1] == rest[k]);
            }
            if pressed_a_vote(interaction, presses, v) {
                let k = choose|k: int| 0 <= k < presses.len() && #[trigger] presses[k].0 == v && answer_of(interaction, presses[k].1) is Some;
                if k > 0 {
                    assert(rest[k - 1] == presses[k]);
                }
            }
        }
    }
}

/// One press keeps the votes well formed, keeps every counted vote, and
/// adds exactly the member who pressed, where the press counts.
proof fn lemma_ballots_next(ballots: (Seq<u64>, Seq<u64>), interaction: u64, voter: u64, id: Seq<char>)
    requires
        ballots_wf(ballots),
    ensures
        ballots_wf(ballots_next(ballots, interaction, voter, id)),
        ballots.0.is_prefix_of(ballots_next(ballots, interaction, voter, id).0),
        ballots.1.is_prefix_of(ballots_next(ballots, interaction, voter, id).1),
        forall|v: u64|
            (#[trigger] ballots_next(ballots, interaction, voter, id).0.contains(v)
                || ballots_next(ballots, interaction, voter, id).1.contains(v)) <==> (ballots.0.contains(v)
                || ballots.1.contains(v) || (v == voter && answer_of(interaction, id) is Some)),
{
    let next = ballots_next(ballots, interaction, voter, id);
    assert(ballots.0.is_prefix_of(ballots.0));
    assert(ballots.1.is_prefix_of(ballots.1));
    if answer_of(interaction, id) is Some && !(ballots.0.contains(voter) || ballots.1.contains(voter)) {
        if answer_of(interaction, id) == Some(Answer::Yes) {
            lemma_push_keeps_unique(ballots.0, voter);
            assert(ballots.0.is_prefix_of(next.0));
            assert forall|v: u64| !(next.0.contains(v) && next.1.contains(v)) by {
                lemma_push_contains(ballots.0, voter, v);
            }
            assert forall|v: u64| #[trigger] next.0.contains(v) || next.1.contains(v) <==> (ballots.0.contains(v)
                || ballots.1.contains(v) || v == voter) by {
                lemma_push_contains(ballots.0, voter, v);
            }
        } else {
            lemma_push_keeps_unique(ballots.1, voter);
            assert(ballots.1.is_prefix_of(next.1));
            assert forall|v: u64| !(next.0.contains(v) && next.1.contains(v)) by {
                lemma_push_contains(ballots.1, voter, v);
            }
            assert forall|v: u64| #[trigger] next.0.contains(v) || next.1.contains(v) <==> (ballots.0.contains(v)
                || ballots.1.contains(v) || v == voter) by {
                lemma_push_contains(ballots.1, voter, v);
            }
        }
    }
}

proof fn lemma_push_contains(s: Seq<u64>, x: u64, v: u64)
    ensures
        s.push(x).contains(v) <==> (s.contains(v) || v == x),
{
    if s.contains(v) {
        let k = choose|k: int| 0 <= k < s.len() && s[k] == v;
        assert(s.push(x)[k] == v);
    }
    if v == x {
        assert(s.push(x)[s.len() as int] == v);
    }
    if s.push(x).contains(v) {
        let k = choose|k: int| 0 <= k < s.len() + 1 && s.push(x)[k] == v;
        if k < s.len() {
            assert(s[k] == v);
        }
    }
}

proof fn lemma_push_keeps_unique(s: Seq<u64>, x: u64)
    requires
        s.no_duplicates(),
        !s.contains(x),
    ensures
        s.push(x).no_duplicates(),
{
    let t = s.push(x);
    assert forall|i: int, j: int| 0 <= i < t.len() && 0 <= j < t.len() && i != j implies t[i] != t[j] by {
        if i < s.len() && j < s.len() {
        } else if i == s.len() {
            assert(s.contains(s[j]));
        } else {
            assert(s.contains(s[i]));
        }
    }
}

/// What pressing a button of a vote came to.
#[derive(Debug, Clone, Copy, PartialEq, Eq, Structural)]
pub enum PressOutcome {
    /// The button is not one of this vote's two.
    NotOurs,
    /// The member has voted already: they are told `erm`, nothing changes.
    AlreadyVoted,
    /// The vote was counted on the given side.
    Counted(Answer),
}

/// How a vote ended.
#[derive(Debug, Clone, Copy, PartialEq, Eq, Structural)]
pub enum Verdict {
    Boiled,
    Spared,
}

/// A vote on whether to boil a member.
pub struct BoilSession {
    target: u64,
    interaction: u64,
    tally: VoteTally,
}

impl BoilSession {
    /// The member put to the vote.
    pub closed spec fn target_spec(&self) -> u64 {
        self.target
    }

    /// The id of the interaction, which the vote's buttons carry.
    pub closed spec fn interaction_spec(&self) -> u64 {
        self.interaction
    }

    /// The votes: yes side and no side.
    pub closed spec fn ballots(&self) -> (Seq<u64>, Seq<u64>) {
        (self.tally.yes_votes(), self.tally.no_votes())
    }

    /// The votes are well formed.
    pub closed spec fn wf(&self) -> bool {
        self.tally.wf()
    }

    /// Opens the vote on `target`, started by `author` within an
    /// interaction; none is opened on the immune member.
    pub fn open(target: u64, author: u64, interaction: u64) -> (r: Option<BoilSession>)
        ensures
            r is None <==> target == BOIL_IMMUNE_ID,
            r matches Some(s) ==> s.wf() && s.target_spec() == target && s.interaction_spec()
                == interaction && s.ballots() == (seq![author], Seq::<u64>::empty()),
    {
        if is_boil_immune(target) {
            None
        } else {
            Some(BoilSession { target, interaction, tally: VoteTally::new(author) })
        }
    }

    /// A member presses the button with id `id`.
    pub fn press(&mut self, voter: u64, id: &str) -> (r: PressOutcome)
        requires
            old(self).wf(),
        ensures
            final(self).wf(),
            final(self).target_spec() == old(self).target_spec(),
            final(self).interaction_spec() == old(self).interaction_spec(),
            final(self).ballots() == ballots_next(old(self).ballots(), old(self).interaction_spec(), voter, id@),
            r == (match answer_of(old(self).interaction_spec(), id@) {
                None => PressOutcome::NotOurs,
                Some(a) => if old(self).ballots().0.contains(voter) || old(self).ballots().1.contains(
                    voter,
                ) {
                    PressOutcome::AlreadyVoted
                } else {
                    PressOutcome::Counted(a)
                },
            }),
    {
        match answer_of_button(self.interaction, id) {
            None => PressOutcome::NotOurs,
            Some(a) => {
                if self.tally.cast(voter, a) {
                    PressOutcome::Counted(a)
                } else {
                    PressOutcome::AlreadyVoted
                }
            },
        }
    }

    /// How the vote ends as it stands: boiled when at least as many voted
    /// yes as no.
    pub fn verdict(&self) -> (v: Verdict)
        ensures
            v == (if self.ballots().0.len() >= self.ballots().1.len() {
                Verdict::Boiled
            } else {
                Verdict::Spared
            }),
    {
        if self.tally.boils() {
            Verdict::Boiled
        } else {
            Verdict::Spared
        }
    }

    /// The member put to the vote.
    pub fn target(&self) -> (t: u64)
        ensures
            t == self.target_spec(),
    {
        self.target
    }

    /// The id of the interaction.
    pub fn interaction(&self) -> (i: u64)
        ensures
            i == self.interaction_spec(),
    {
        self.interaction
    }

    /// The members who voted yes, in the order of their votes.
    pub fn yes_voters(&self) -> (v: Vec<u64>)
        ensures
            v@ == self.ballots().0,
    {
        self.tally.yes_voters()
    }

    /// The members who voted no, in the order of their votes.
    pub fn no_voters(&self) -> (v: Vec<u64>)
        ensures
            v@ == self.ballots().1,
    {
        self.tally.no_voters()
    }
}

/// The answer when the immune member is put to the vote.
pub fn refusal_message() -> (s: String)
    ensures
        s@ == ">:("@,
{
    String::from_str(">:(")
}

/// The answer, seen only by them, to a member who votes again.
pub fn repeat_vote_message() -> (s: String)
    ensures
        s@ == "erm"@,
{
    String::from_str("erm")
}

/// The title of the vote's card, from the member's name already upper-cased.
pub open spec fn fate_title_text(upper_name: Seq<char>) -> Seq<char> {
    "DECIDE "@ + upper_name + "'S FATE"@
}

/// The title of the vote's card, from the member's name already upper-cased.
pub fn fate_title_from_upper(upper_name: &str) -> (s: String)
    ensures
        s@ == fate_title_text(upper_name@),
{
    let mut s = String::from_str("DECIDE ");
    s.append(upper_name);
    s.append("'S FATE");
    s
}

/// The title of the vote's card: the member's name in upper case.
pub fn fate_title(name: &str) -> (s: String)
    ensures
        s@ == fate_title_text(uppercase_of(name@)),
{
    let upper = to_uppercase(name);
    fate_title_from_upper(upper.as_str())
}

/// The headings of the two columns of voters and the labels of the two
/// buttons: `YES VOTES`, `NO VOTES`, `YES!!!`, `no`.
pub fn card_words() -> (r: (String, String, String, String))
    ensures
        r.0@ == "YES VOTES"@,
        r.1@ == "NO VOTES"@,
        r.2@ == "YES!!!"@,
        r.3@ == "no"@,
{
    (
        String::from_str("YES VOTES"),
        String::from_str("NO VOTES"),
        String::from_str("YES!!!"),
        String::from_str("no"),
    )
}

/// The announcement of how the vote ended, pinging the member.
pub open spec fn verdict_text(v: Verdict, target: u64) -> Seq<char> {
    match v {
        Verdict::Boiled => mention(target as nat) + " HAS BEEN BOILED"@,
        Verdict::Spared => mention(target as nat) + " has been spared..."@,
    }
}

/// The announcement of how the vote ended, pinging the member.
pub fn verdict_message(v: Verdict, target: u64) -> (s: String)
    ensures
        s@ == verdict_text(v, target),
{
    let mut s = mention_string(target);
    match v {
        Verdict::Boiled => s.append(" HAS BEEN BOILED"),
        Verdict::Spared => s.append(" has been spared..."),
    }
    s
}

/// The picture of stew number `n`.
pub open spec fn stew_path_text(n: nat) -> Seq<char> {
    "stews/"@ + decimal(n) + ".jpg"@
}

/// The picture of stew number `n`.
pub fn stew_path(n: u32) -> (s: String)
    ensures
        s@ == stew_path_text(n as nat),
{
    let mut s = String::from_str("stews/");
    s.append(decimal_string(n as u64).as_str());
    s.append(".jpg");
    s
}

/// The picture of a stew picked at random among stews 1 to 7.
pub fn random_stew_path() -> (s: String)
    ensures
        exists|n: nat| 1 <= n < 8 && s@ == stew_path_text(n),
{
    let n = random_in_range(1, 8);
    stew_path(n)
}


/// The announcement pings the member put to the vote first, and a boiled
/// member is announced otherwise than a spared one.
pub proof fn law_verdict_pings_target(v: Verdict, w: Verdict, target: u64)
    ensures
        verdict_text(v, target).subrange(0, mention(target as nat).len() as int) == mention(target as nat),
        verdict_text(v, target) == verdict_text(w, target) ==> v == w,
{
    reveal_strlit(" HAS BEEN BOILED");
    reveal_strlit(" has been spared...");
    let m = mention(target as nat);
    assert(verdict_text(v, target).subrange(0, m.len() as int) =~= m);
    if v != w && verdict_text(v, target) == verdict_text(w, target) {
        let b = verdict_text(Verdict::Boiled, target);
        let s = verdict_text(Verdict::Spared, target);
        assert(b[m.len() as int + 2] == " HAS BEEN BOILED"@[2]);
        assert(s[m.len() as int + 2] == " has been spared..."@[2]);
    }
}

/// The ballots with which a vote opens, the author alone on the yes side,
/// are well formed, so `law_votes_counted_once` holds of every run of
/// presses from the opening.
pub proof fn law_open_vote_well_formed(author: u64)
    ensures
        ballots_wf((seq![author], Seq::<u64>::empty())),
        (seq![author], Seq::<u64>::empty()).0.contains(author),
{
    assert(seq![author][0] == author);
}


/// A counted press puts the member on the side of the button pressed, and
/// only there; pressing a button of another vote, or voting again, changes
/// nothing.
pub proof fn law_press_joins_pressed_side(
    ballots: (Seq<u64>, Seq<u64>),
    interaction: u64,
    voter: u64,
    a: Answer,
    id: Seq<char>,
)
    ensures
        !(ballots.0.contains(voter) || ballots.1.contains(voter)) ==> ballots_next(
            ballots,
            interaction,
            voter,
            button_id(interaction, a),
        ) == (if a == Answer::Yes {
            (ballots.0.push(voter), ballots.1)
        } else {
            (ballots.0, ballots.1.push(voter))
        }),
        (ballots.0.contains(voter) || ballots.1.contains(voter)) ==> ballots_next(
            ballots,
            interaction,
            voter,
            id,
        ) == ballots,
        answer_of(interaction, id) is None ==> ballots_next(ballots, interaction, voter, id) == ballots,
{
    crate::commands::law_button_answer_round_trip(interaction, a, id);
}

} // verus!
