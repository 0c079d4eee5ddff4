//! The magic eight ball: a message that mentions the bot and asks
//! "is this true" gets a random answer from a list.

use crate::foreign::choose_one;
use crate::text::{contains_text, has_substring};
use vstd::prelude::*;

verus! {

/// Whether a message gets an answer: it mentions the bot, holds the words
/// `is this true`, and was not written by the bot itself.
pub open spec fn asks_eight_ball(mentions_me: bool, content: Seq<char>, author: u64, me: u64) -> bool {
    mentions_me && has_substring(content, "is this true"@) && author != me
}

/// Whether a message gets an answer from the eight ball.
pub fn should_answer(mentions_me: bool, content: &str, author: u64, me: u64) -> (r: bool)
    ensures
        r == asks_eight_ball(mentions_me, content@, author, me),
{
    mentions_me && contains_text(content, "is this true") && author != me
}

/// An answer picked at random from `answers`; none when the list is empty.
pub fn eight_ball_answer(answers: &Vec<String>) -> (r: Option<String>)
    ensures
        r is None <==> answers@.len() == 0,
        r matches Some(s) ==> exists|i: int| 0 <= i < answers@.len() && answers@[i]@ == s@,
{
    choose_one(answers)
}


/// The eight ball answers exactly the messages that mention the bot, hold
/// the whole phrase `is this true`, and were not written by the bot: a
/// message without the phrase is never answered.
pub proof fn law_answers_only_the_question(mentions_me: bool, content: Seq<char>, author: u64, me: u64)
    ensures
        asks_eight_ball(mentions_me, content, author, me) ==> has_substring(content, "is this true"@),
        asks_eight_ball(mentions_me, content, author, me) <==> (mentions_me && author != me
            && has_substring(content, "is this true"@)),
        !mentions_me ==> !asks_eight_ball(mentions_me, content, author, me),
        author == me ==> !asks_eight_ball(mentions_me, content, author, me),
{
}

} // verus!
