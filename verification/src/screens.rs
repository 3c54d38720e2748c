//! The two end screens: what they say and how their replay button reacts.

use vstd::prelude::*;
use crate::decimal::{all_digits, decimal_string, digits_value, spec_decimal};
use crate::state::VictoryOrDefeat;
use crate::display::TextColor;

verus! {

/// What the pointer is doing to a button in this frame.
#[derive(Clone, Copy, Debug, PartialEq, Eq, Structural)]
pub enum Interaction {
    Pressed,
    Hovered,
    /// Neither pressed nor hovered.
    Idle,
}

/// The colour of the replay button's text.
#[derive(Clone, Copy, Debug, PartialEq, Eq, Structural)]
pub enum ButtonTextColor {
    Red,
    Brown,
}

/// What the replay button does in answer to an interaction.
#[derive(Clone, Copy, Debug, PartialEq, Eq, Structural)]
pub enum ButtonReaction {
    /// Switch to the given screen.
    SetState(VictoryOrDefeat),
    /// Paint the button's text in the given colour.
    SetTextColor(ButtonTextColor),
}

/// The replay button's answer: a press goes back to the board, hovering
/// reddens the text, and otherwise the text turns brown again.
pub open spec fn spec_button_reaction(interaction: Interaction) -> ButtonReaction {
    match interaction {
        Interaction::Pressed => ButtonReaction::SetState(VictoryOrDefeat::NONE),
        Interaction::Hovered => ButtonReaction::SetTextColor(ButtonTextColor::Red),
        Interaction::Idle => ButtonReaction::SetTextColor(ButtonTextColor::Brown),
    }
}

/// How the replay button of either end screen answers an interaction.
pub fn button_reaction(interaction: Interaction) -> (reaction: ButtonReaction)
    ensures
        reaction == spec_button_reaction(interaction),
        interaction == Interaction::Pressed ==> reaction == ButtonReaction::SetState(VictoryOrDefeat::NONE),
        interaction == Interaction::Hovered ==> reaction == ButtonReaction::SetTextColor(ButtonTextColor::Red),
        interaction == Interaction::Idle ==> reaction == ButtonReaction::SetTextColor(ButtonTextColor::Brown),
        reaction is SetState <==> interaction == Interaction::Pressed,
{
    match interaction {
        Interaction::Pressed => ButtonReaction::SetState(VictoryOrDefeat::NONE),
        Interaction::Hovered => ButtonReaction::SetTextColor(ButtonTextColor::Red),
        Interaction::Idle => ButtonReaction::SetTextColor(ButtonTextColor::Brown),
    }
}

/// The text of the score shown beside the board.
pub fn score_text(score: u32) -> (text: String)
    ensures
        text@ == spec_decimal(score as nat),
        all_digits(text@),
        digits_value(text@) == score,
        score > 0 ==> text@[0] != '0',
{
    decimal_string(score)
}

/// The score shown beside the board when a game starts.
pub struct InitialScoreView {
    /// The label above the score.
    pub label: String,
    /// The score itself.
    pub score: String,
    /// The colour both are drawn in.
    pub text_color: TextColor,
}

/// The score beside the board when a game starts: the label `SCORE` on a
/// line of its own, then `0`, both in brown.
pub fn initial_score_view() -> (v: InitialScoreView)
    ensures
        v.label@ == seq!['S', 'C', 'O', 'R', 'E', '\n'],
        v.score@ == spec_decimal(0),
        v.score@ == seq!['0'],
        v.text_color == TextColor::Brown,
{
    proof {
        reveal_strlit("SCORE\n");
    }
    let label = String::from_str("SCORE\n");
    let score = score_text(0);
    assert(spec_decimal(0) =~= seq!['0']);
    InitialScoreView { label, score, text_color: TextColor::Brown }
}

/// The heading of the loser's screen, before the score.
pub open spec fn defeat_heading() -> Seq<char> {
    seq!['Y', 'O', 'U', ' ', ' ', 'L', 'O', 'S', 'T', '\n', 'S', 'C', 'O', 'R', 'E', ':', ' ']
}

/// The heading of the winner's screen, before the score.
pub open spec fn victory_heading() -> Seq<char> {
    seq!['W', 'I', 'N', 'N', 'E', 'R', '\n', 'S', 'C', 'O', 'R', 'E', ':', ' ']
}

/// The message of the loser's screen: its heading, then the score.
pub fn defeat_text(score: u32) -> (text: String)
    ensures
        text@ == defeat_heading() + spec_decimal(score as nat),
        text@.take(defeat_heading().len() as int) == defeat_heading(),
        all_digits(text@.skip(defeat_heading().len() as int)),
        digits_value(text@.skip(defeat_heading().len() as int)) == score,
{
    proof {
        reveal_strlit("YOU  LOST\nSCORE: ");
    }
    let mut text = String::from_str("YOU  LOST\nSCORE: ");
    let number = decimal_string(score);
    text.append(number.as_str());
    assert(defeat_heading() =~= "YOU  LOST\nSCORE: "@);
    assert(text@.take(defeat_heading().len() as int) =~= defeat_heading());
    assert(text@.skip(defeat_heading().len() as int) =~= number@);
    text
}

/// The message of the winner's screen: its heading, then the score.
pub fn victory_text(score: u32) -> (text: String)
    ensures
        text@ == victory_heading() + spec_decimal(score as nat),
        text@.take(victory_heading().len() as int) == victory_heading(),
        all_digits(text@.skip(victory_heading().len() as int)),
        digits_value(text@.skip(victory_heading().len() as int)) == score,
{
    proof {
        reveal_strlit("WINNER\nSCORE: ");
    }
    let mut text = String::from_str("WINNER\nSCORE: ");
    let number = decimal_string(score);
    text.append(number.as_str());
    assert(victory_heading() =~= "WINNER\nSCORE: "@);
    assert(text@.take(victory_heading().len() as int) =~= victory_heading());
    assert(text@.skip(victory_heading().len() as int) =~= number@);
    text
}

} // verus!
