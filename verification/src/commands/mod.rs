//! The bot's commands, and the yes/no buttons that two of them show.

pub mod tempus;
pub mod voteboil;

use crate::text::{decimal, decimal_string, is_digit, lemma_decimal_injective, lemma_decimal_reads_back, same_text};
use vstd::prelude::*;

verus! {

/// The two answers that a pair of buttons offers.
#[derive(Debug, Clone, Copy, PartialEq, Eq, Structural)]
pub enum Answer {
    Yes,
    No,
}

/// The word that names an answer in a button's id.
pub open spec fn answer_word(a: Answer) -> Seq<char> {
    match a {
        Answer::Yes => "yes"@,
        Answer::No => "no"@,
    }
}

/// The id of the button for an answer within the interaction with the given
/// id: `<interaction>.<answer>`.
pub open spec fn button_id(interaction: u64, a: Answer) -> Seq<char> {
    decimal(interaction as nat) + "."@ + answer_word(a)
}

/// The answer that a button id stands for within an interaction, if it is
/// one of the interaction's two buttons.
pub open spec fn answer_of(interaction: u64, id: Seq<char>) -> Option<Answer> {
    if id == button_id(interaction, Answer::Yes) {
        Some(Answer::Yes)
    } else if id == button_id(interaction, Answer::No) {
        Some(Answer::No)
    } else {
        None
    }
}

/// The id of the button for an answer within an interaction.
pub fn button_id_string(interaction: u64, a: Answer) -> (s: String)
    ensures
        s@ == button_id(interaction, a),
{
    let mut s = decimal_string(interaction);
    s.append(".");
    match a {
        Answer::Yes => s.append("yes"),
        Answer::No => s.append("no"),
    }
    s
}

/// The answer that a button id stands for within an interaction.
pub fn answer_of_button(interaction: u64, id: &str) -> (r: Option<Answer>)
    ensures
        r == answer_of(interaction, id@),
{
    let yes = button_id_string(interaction, Answer::Yes);
    if same_text(id, yes.as_str()) {
        return Some(Answer::Yes);
    }
    let no = button_id_string(interaction, Answer::No);
    if same_text(id, no.as_str()) {
        Some(Answer::No)
    } else {
        None
    }
}

/// Each button id belongs to one interaction and one answer: two buttons
/// of the same or of different interactions have the same id only if they
/// are the same button.
pub proof fn law_button_ids_distinct(i: u64, a: Answer, j: u64, b: Answer)
    requires
        button_id(i, a) == button_id(j, b),
    ensures
        i == j,
        a == b,
{
    let di = decimal(i as nat);
    let dj = decimal(j as nat);
    lemma_decimal_reads_back(i as nat);
    lemma_decimal_reads_back(j as nat);
    reveal_strlit(".");
    reveal_strlit("yes");
    reveal_strlit("no");
    let x = button_id(i, a);
    assert(x == di + "."@ + answer_word(a));
    assert(x[di.len() as int] == '.');
    assert(button_id(j, b)[dj.len() as int] == '.');
    if di.len() < dj.len() {
        assert(x[di.len() as int] == dj[di.len() as int]);
        assert(is_digit(dj[di.len() as int]));
    } else if dj.len() < di.len() {
        assert(x[dj.len() as int] == di[dj.len() as int]);
        assert(is_digit(di[dj.len() as int]));
    }
    assert(di.len() == dj.len());
    assert(di =~= x.subrange(0, di.len() as int));
    assert(dj =~= x.subrange(0, dj.len() as int));
    lemma_decimal_injective(i as nat, j as nat);
    assert(answer_word(a) =~= x.subrange(di.len() as int + 1, x.len() as int));
    assert(answer_word(b) =~= x.subrange(dj.len() as int + 1, x.len() as int));
    if a != b {
        assert(answer_word(a).len() != answer_word(b).len());
    }
}


/// Reading a button's id gives back its answer, and an id read as an answer
/// is that answer's button of the interaction.
pub proof fn law_button_answer_round_trip(interaction: u64, a: Answer, id: Seq<char>)
    ensures
        answer_of(interaction, button_id(interaction, a)) == Some(a),
        answer_of(interaction, id) matches Some(b) ==> id == button_id(interaction, b),
{
    if a == Answer::No && button_id(interaction, Answer::No) == button_id(interaction, Answer::Yes) {
        law_button_ids_distinct(interaction, Answer::No, interaction, Answer::Yes);
    }
}


/// A button id is the interaction's decimal id, a dot, and `yes` or `no`.
pub proof fn law_button_id_form(interaction: u64)
    ensures
        button_id(interaction, Answer::Yes) == decimal(interaction as nat) + seq!['.', 'y', 'e', 's'],
        button_id(interaction, Answer::No) == decimal(interaction as nat) + seq!['.', 'n', 'o'],
{
    reveal_strlit(".");
    reveal_strlit("yes");
    reveal_strlit("no");
    assert(button_id(interaction, Answer::Yes) =~= decimal(interaction as nat) + seq!['.', 'y', 'e', 's']);
    assert(button_id(interaction, Answer::No) =~= decimal(interaction as nat) + seq!['.', 'n', 'o']);
}

} // verus!
