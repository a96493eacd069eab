//! Prompt construction.
//!
//! The prompt is rendered from a [`CommentaryContext`] and from nothing else.
//! There is no move in the context type, so there is nothing here to leak;
//! and no rendered prompt holds a digit, which would read as a square.

use vstd::prelude::*;

use super::{CommentaryContext, CommentaryEvent, GameStatusSummary, Tone};

verus! {

/// The system prompt. Static, because a system prompt that varies with game
/// state is a system prompt that can leak game state.
pub const SYSTEM_PROMPT: &'static str = "You are the voice of a draughts engine that has already chosen its move. You do not play, suggest, evaluate, or describe moves. Reply with one short sentence of banter and nothing else. Never mention squares, coordinates, numbers, or specific pieces.";

pub open spec fn event_phrase(event: CommentaryEvent) -> Seq<char> {
    match event {
        CommentaryEvent::GameStart => "the game has just started"@,
        CommentaryEvent::HumanMove => "the opponent has just moved"@,
        CommentaryEvent::CpuMove => "you have just moved"@,
        CommentaryEvent::Capture => "a piece was captured"@,
        CommentaryEvent::MultiCapture => "several pieces were captured in one turn"@,
        CommentaryEvent::Promotion => "a piece was crowned"@,
        CommentaryEvent::Win => "you won"@,
        CommentaryEvent::Loss => "you lost"@,
        CommentaryEvent::Draw => "the game was drawn"@,
        CommentaryEvent::IdleTaunt => "the opponent has been thinking for a while"@,
    }
}

pub open spec fn tone_word(tone: Tone) -> Seq<char> {
    match tone {
        Tone::Neutral => "neutral"@,
        Tone::Playful => "playful"@,
        Tone::Sarcastic => "sarcastic"@,
        Tone::Competitive => "competitive"@,
    }
}

/// Material is given as a coarse band rather than a number: the exact figure
/// is a search-adjacent fact, and a band is all a taunt can use anyway.
pub open spec fn standing_phrase(material_difference: i32) -> Seq<char> {
    if material_difference >= 3 {
        "you are well ahead"@
    } else if material_difference >= 1 {
        "you are slightly ahead"@
    } else if material_difference == 0 {
        "material is level"@
    } else if material_difference >= -2 {
        "you are slightly behind"@
    } else {
        "you are well behind"@
    }
}

pub open spec fn phase_phrase(ply: u32) -> Seq<char> {
    if ply <= 15 {
        "the opening"@
    } else if ply <= 45 {
        "the middlegame"@
    } else {
        "the endgame"@
    }
}

pub open spec fn status_phrase(status: GameStatusSummary) -> Seq<char> {
    match status {
        GameStatusSummary::Ongoing => "the game is still going"@,
        GameStatusSummary::HumanWon => "the opponent has won"@,
        GameStatusSummary::CpuWon => "you have won"@,
        GameStatusSummary::Drawn => "the game ended level"@,
    }
}

/// The user turn of the prompt for `context`.
pub open spec fn rendered(context: CommentaryContext) -> Seq<char> {
    "Situation: "@ + event_phrase(context.event) + ". It is "@ + phase_phrase(context.ply)
        + " and "@ + standing_phrase(context.material_difference) + "; "@ + status_phrase(
        context.game_status,
    ) + ". Tone: "@ + tone_word(context.tone) + ". One sentence."@
}

/// Render the user turn of the prompt.
pub fn render(context: &CommentaryContext) -> (prompt: String)
    ensures
        prompt@ == rendered(*context),
{
    let event = match context.event {
        CommentaryEvent::GameStart => "the game has just started",
        CommentaryEvent::HumanMove => "the opponent has just moved",
        CommentaryEvent::CpuMove => "you have just moved",
        CommentaryEvent::Capture => "a piece was captured",
        CommentaryEvent::MultiCapture => "several pieces were captured in one turn",
        CommentaryEvent::Promotion => "a piece was crowned",
        CommentaryEvent::Win => "you won",
        CommentaryEvent::Loss => "you lost",
        CommentaryEvent::Draw => "the game was drawn",
        CommentaryEvent::IdleTaunt => "the opponent has been thinking for a while",
    };
    let tone = match context.tone {
        Tone::Neutral => "neutral",
        Tone::Playful => "playful",
        Tone::Sarcastic => "sarcastic",
        Tone::Competitive => "competitive",
    };
    let d = context.material_difference;
    let standing = if d >= 3 {
        "you are well ahead"
    } else if d >= 1 {
        "you are slightly ahead"
    } else if d == 0 {
        "material is level"
    } else if d >= -2 {
        "you are slightly behind"
    } else {
        "you are well behind"
    };
    let phase = if context.ply <= 15 {
        "the opening"
    } else if context.ply <= 45 {
        "the middlegame"
    } else {
        "the endgame"
    };
    let status = match context.game_status {
        GameStatusSummary::Ongoing => "the game is still going",
        GameStatusSummary::HumanWon => "the opponent has won",
        GameStatusSummary::CpuWon => "you have won",
        GameStatusSummary::Drawn => "the game ended level",
    };
    let mut prompt = "Situation: ".to_owned();
    prompt.append(event);
    prompt.append(". It is ");
    prompt.append(phase);
    prompt.append(" and ");
    prompt.append(standing);
    prompt.append("; ");
    prompt.append(status);
    prompt.append(". Tone: ");
    prompt.append(tone);
    prompt.append(". One sentence.");
    prompt
}

/// No character of `text` is an ASCII digit.
pub open spec fn digit_free(text: Seq<char>) -> bool {
    forall|j: int| 0 <= j < text.len() ==> !('0' <= #[trigger] text[j] <= '9')
}

proof fn lemma_digit_free_concat(a: Seq<char>, b: Seq<char>)
    requires
        digit_free(a),
        digit_free(b),
    ensures
        digit_free(a + b),
{
    assert forall|j: int| 0 <= j < (a + b).len() implies !('0' <= #[trigger] (a + b)[j] <= '9') by {
        if j < a.len() {
            assert((a + b)[j] == a[j]);
        } else {
            assert((a + b)[j] == b[j - a.len()]);
        }
    }
}

/// No rendered prompt holds a digit, for any context the system can be
/// given: a digit in a prompt reads as a square index.
pub proof fn law_no_rendered_prompt_holds_a_digit(context: CommentaryContext)
    ensures
        digit_free(rendered(context)),
{
    reveal_strlit("Situation: ");
    reveal_strlit(". It is ");
    reveal_strlit(" and ");
    reveal_strlit("; ");
    reveal_strlit(". Tone: ");
    reveal_strlit(". One sentence.");
    reveal_strlit("the game has just started");
    reveal_strlit("the opponent has just moved");
    reveal_strlit("you have just moved");
    reveal_strlit("a piece was captured");
    reveal_strlit("several pieces were captured in one turn");
    reveal_strlit("a piece was crowned");
    reveal_strlit("you won");
    reveal_strlit("you lost");
    reveal_strlit("the game was drawn");
    reveal_strlit("the opponent has been thinking for a while");
    reveal_strlit("neutral");
    reveal_strlit("playful");
    reveal_strlit("sarcastic");
    reveal_strlit("competitive");
    reveal_strlit("you are well ahead");
    reveal_strlit("you are slightly ahead");
    reveal_strlit("material is level");
    reveal_strlit("you are slightly behind");
    reveal_strlit("you are well behind");
    reveal_strlit("the opening");
    reveal_strlit("the middlegame");
    reveal_strlit("the endgame");
    reveal_strlit("the game is still going");
    reveal_strlit("the opponent has won");
    reveal_strlit("you have won");
    reveal_strlit("the game ended level");
    let text0 = "Situation: "@;
    lemma_digit_free_concat(text0, event_phrase(context.event));
    let text1 = text0 + event_phrase(context.event);
    lemma_digit_free_concat(text1, ". It is "@);
    let text2 = text1 + ". It is "@;
    lemma_digit_free_concat(text2, phase_phrase(context.ply));
    let text3 = text2 + phase_phrase(context.ply);
    lemma_digit_free_concat(text3, " and "@);
    let text4 = text3 + " and "@;
    lemma_digit_free_concat(text4, standing_phrase(context.material_difference));
    let text5 = text4 + standing_phrase(context.material_difference);
    lemma_digit_free_concat(text5, "; "@);
    let text6 = text5 + "; "@;
    lemma_digit_free_concat(text6, status_phrase(context.game_status));
    let text7 = text6 + status_phrase(context.game_status);
    lemma_digit_free_concat(text7, ". Tone: "@);
    let text8 = text7 + ". Tone: "@;
    lemma_digit_free_concat(text8, tone_word(context.tone));
    let text9 = text8 + tone_word(context.tone);
    lemma_digit_free_concat(text9, ". One sentence."@);
    let text10 = text9 + ". One sentence."@;
    assert(text10 == rendered(context));
}

/// A prompt opens by saying how the game stands for the engine: a win event
/// opens "Situation: you won.", a loss event "Situation: you lost.", so the
/// prompts of a win and of a loss never coincide, whatever else the two
/// contexts hold.
pub proof fn law_a_win_and_a_loss_are_told_apart(won: CommentaryContext, lost: CommentaryContext)
    requires
        won.event == CommentaryEvent::Win,
        lost.event == CommentaryEvent::Loss,
    ensures
        rendered(won).len() > 19,
        rendered(won).take(19) == "Situation: you won."@,
        rendered(lost).len() > 20,
        rendered(lost).take(20) == "Situation: you lost."@,
        rendered(won) != rendered(lost),
{
    reveal_strlit("Situation: ");
    reveal_strlit("you won");
    reveal_strlit("you lost");
    reveal_strlit(". It is ");
    reveal_strlit("Situation: you won.");
    reveal_strlit("Situation: you lost.");
    let w = rendered(won);
    let l = rendered(lost);
    let w_head = "Situation: "@ + "you won"@ + ". It is "@;
    let l_head = "Situation: "@ + "you lost"@ + ". It is "@;
    let w_tail = phase_phrase(won.ply) + " and "@ + standing_phrase(won.material_difference) + "; "@
        + status_phrase(won.game_status) + ". Tone: "@ + tone_word(won.tone) + ". One sentence."@;
    let l_tail = phase_phrase(lost.ply) + " and "@ + standing_phrase(lost.material_difference)
        + "; "@ + status_phrase(lost.game_status) + ". Tone: "@ + tone_word(lost.tone)
        + ". One sentence."@;
    assert(w =~= w_head + w_tail);
    assert(l =~= l_head + l_tail);
    assert(w.take(19) =~= "Situation: you won."@);
    assert(l.take(20) =~= "Situation: you lost."@);
    assert(w.take(19)[15] == 'w');
    assert(l.take(20)[15] == 'l');
}

} // verus!
