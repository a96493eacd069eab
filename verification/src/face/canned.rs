//! The canned fallback: infallible by construction.
//!
//! Every `(CommentaryEvent, Tone)` pair has lines, and every line is a plain
//! sentence: nothing here names a square, a move or a piece, the same
//! constraint the generated path is held to.

use vstd::prelude::*;

use super::breaker::CircuitState;
use super::text::{char_is_whitespace, is_whitespace};
use super::{Commentary, CommentaryContext, CommentaryEvent, FallbackReason, Tone};

verus! {

/// Line `which` (0 or 1) of the pair's table entry.
pub open spec fn canned_line(event: CommentaryEvent, tone: Tone, which: int) -> Seq<char> {
    match (event, tone) {
        (CommentaryEvent::GameStart, Tone::Neutral) => if which == 0 {
            "Board's set. Let's begin."@
        } else {
            "New game. Good luck."@
        },
        (CommentaryEvent::GameStart, Tone::Playful) => if which == 0 {
            "Twelve each. Try to keep them."@
        } else {
            "Here we go again."@
        },
        (CommentaryEvent::GameStart, Tone::Sarcastic) => if which == 0 {
            "This should be brief."@
        } else {
            "I've cleared my afternoon."@
        },
        (CommentaryEvent::GameStart, Tone::Competitive) => if which == 0 {
            "Let's see what you've got."@
        } else {
            "Begin."@
        },
        (CommentaryEvent::HumanMove, Tone::Neutral) => if which == 0 {
            "Noted."@
        } else {
            "Your move is in."@
        },
        (CommentaryEvent::HumanMove, Tone::Playful) => if which == 0 {
            "Bold."@
        } else {
            "Interesting choice."@
        },
        (CommentaryEvent::HumanMove, Tone::Sarcastic) => if which == 0 {
            "Sure. Why not."@
        } else {
            "That's certainly a move."@
        },
        (CommentaryEvent::HumanMove, Tone::Competitive) => if which == 0 {
            "Seen it."@
        } else {
            "Not enough."@
        },
        (CommentaryEvent::CpuMove, Tone::Neutral) => if which == 0 {
            "Done."@
        } else {
            "My turn taken."@
        },
        (CommentaryEvent::CpuMove, Tone::Playful) => if which == 0 {
            "There."@
        } else {
            "Your problem now."@
        },
        (CommentaryEvent::CpuMove, Tone::Sarcastic) => if which == 0 {
            "I thought about it for ages."@
        } else {
            "Barely had to think."@
        },
        (CommentaryEvent::CpuMove, Tone::Competitive) => if which == 0 {
            "Pressure's on."@
        } else {
            "Your move."@
        },
        (CommentaryEvent::Capture, Tone::Neutral) => if which == 0 {
            "A piece comes off."@
        } else {
            "Trade made."@
        },
        (CommentaryEvent::Capture, Tone::Playful) => if which == 0 {
            "Snack."@
        } else {
            "One fewer to worry about."@
        },
        (CommentaryEvent::Capture, Tone::Sarcastic) => if which == 0 {
            "You won't be needing that."@
        } else {
            "Oops."@
        },
        (CommentaryEvent::Capture, Tone::Competitive) => if which == 0 {
            "That's material."@
        } else {
            "Advantage taken."@
        },
        (CommentaryEvent::MultiCapture, Tone::Neutral) => if which == 0 {
            "Several pieces at once."@
        } else {
            "A chain."@
        },
        (CommentaryEvent::MultiCapture, Tone::Playful) => if which == 0 {
            "Buffet."@
        } else {
            "Couldn't stop myself."@
        },
        (CommentaryEvent::MultiCapture, Tone::Sarcastic) => if which == 0 {
            "I'll take the whole row, thanks."@
        } else {
            "Generous."@
        },
        (CommentaryEvent::MultiCapture, Tone::Competitive) => if which == 0 {
            "That's the game shifting."@
        } else {
            "Decisive."@
        },
        (CommentaryEvent::Promotion, Tone::Neutral) => if which == 0 {
            "A king is crowned."@
        } else {
            "Promotion."@
        },
        (CommentaryEvent::Promotion, Tone::Playful) => if which == 0 {
            "Someone got a hat."@
        } else {
            "Upgraded."@
        },
        (CommentaryEvent::Promotion, Tone::Sarcastic) => if which == 0 {
            "About time."@
        } else {
            "Congratulations, I suppose."@
        },
        (CommentaryEvent::Promotion, Tone::Competitive) => if which == 0 {
            "That changes the back rank."@
        } else {
            "Kings matter now."@
        },
        (CommentaryEvent::Win, Tone::Neutral) => if which == 0 {
            "That's the game."@
        } else {
            "Result recorded."@
        },
        (CommentaryEvent::Win, Tone::Playful) => if which == 0 {
            "Good game. Really."@
        } else {
            "Rematch?"@
        },
        (CommentaryEvent::Win, Tone::Sarcastic) => if which == 0 {
            "Shocking outcome."@
        } else {
            "Nobody saw that coming."@
        },
        (CommentaryEvent::Win, Tone::Competitive) => if which == 0 {
            "Game."@
        } else {
            "Closed out."@
        },
        (CommentaryEvent::Loss, Tone::Neutral) => if which == 0 {
            "Well played."@
        } else {
            "You had it."@
        },
        (CommentaryEvent::Loss, Tone::Playful) => if which == 0 {
            "Fine, fine. You win."@
        } else {
            "I'll allow it."@
        },
        (CommentaryEvent::Loss, Tone::Sarcastic) => if which == 0 {
            "Enjoy it while it lasts."@
        } else {
            "Beginner's luck."@
        },
        (CommentaryEvent::Loss, Tone::Competitive) => if which == 0 {
            "Good. Again."@
        } else {
            "Noted. Rematch."@
        },
        (CommentaryEvent::Draw, Tone::Neutral) => if which == 0 {
            "A draw."@
        } else {
            "Even at the end."@
        },
        (CommentaryEvent::Draw, Tone::Playful) => if which == 0 {
            "Nobody wins, nobody cries."@
        } else {
            "Share the point."@
        },
        (CommentaryEvent::Draw, Tone::Sarcastic) => if which == 0 {
            "Thrilling."@
        } else {
            "We'll call it even."@
        },
        (CommentaryEvent::Draw, Tone::Competitive) => if which == 0 {
            "Not settled."@
        } else {
            "Next one decides it."@
        },
        (CommentaryEvent::IdleTaunt, Tone::Neutral) => if which == 0 {
            "Still your move."@
        } else {
            "Waiting."@
        },
        (CommentaryEvent::IdleTaunt, Tone::Playful) => if which == 0 {
            "Take your time. Really."@
        } else {
            "Still here."@
        },
        (CommentaryEvent::IdleTaunt, Tone::Sarcastic) => if which == 0 {
            "I've aged."@
        } else {
            "Should I come back later?"@
        },
        (CommentaryEvent::IdleTaunt, Tone::Competitive) => if which == 0 {
            "Clock's running."@
        } else {
            "Move."@
        },
    }
}

/// The line table, indexed by `(event, tone)`. Deliberately unglamorous and
/// deliberately complete: an uncovered pair would render a blank pane.
pub fn lines_for(event: CommentaryEvent, tone: Tone) -> (lines: &'static [&'static str])
    ensures
        lines@.len() == 2,
        forall|i: int| 0 <= i < 2 ==> (#[trigger] lines@[i])@ == canned_line(event, tone, i),
{
    match (event, tone) {
        (CommentaryEvent::GameStart, Tone::Neutral) => &["Board's set. Let's begin.", "New game. Good luck."],
        (CommentaryEvent::GameStart, Tone::Playful) => &["Twelve each. Try to keep them.", "Here we go again."],
        (CommentaryEvent::GameStart, Tone::Sarcastic) => &["This should be brief.", "I've cleared my afternoon."],
        (CommentaryEvent::GameStart, Tone::Competitive) => &["Let's see what you've got.", "Begin."],
        (CommentaryEvent::HumanMove, Tone::Neutral) => &["Noted.", "Your move is in."],
        (CommentaryEvent::HumanMove, Tone::Playful) => &["Bold.", "Interesting choice."],
        (CommentaryEvent::HumanMove, Tone::Sarcastic) => &["Sure. Why not.", "That's certainly a move."],
        (CommentaryEvent::HumanMove, Tone::Competitive) => &["Seen it.", "Not enough."],
        (CommentaryEvent::CpuMove, Tone::Neutral) => &["Done.", "My turn taken."],
        (CommentaryEvent::CpuMove, Tone::Playful) => &["There.", "Your problem now."],
        (CommentaryEvent::CpuMove, Tone::Sarcastic) => &["I thought about it for ages.", "Barely had to think."],
        (CommentaryEvent::CpuMove, Tone::Competitive) => &["Pressure's on.", "Your move."],
        (CommentaryEvent::Capture, Tone::Neutral) => &["A piece comes off.", "Trade made."],
        (CommentaryEvent::Capture, Tone::Playful) => &["Snack.", "One fewer to worry about."],
        (CommentaryEvent::Capture, Tone::Sarcastic) => &["You won't be needing that.", "Oops."],
        (CommentaryEvent::Capture, Tone::Competitive) => &["That's material.", "Advantage taken."],
        (CommentaryEvent::MultiCapture, Tone::Neutral) => &["Several pieces at once.", "A chain."],
        (CommentaryEvent::MultiCapture, Tone::Playful) => &["Buffet.", "Couldn't stop myself."],
        (CommentaryEvent::MultiCapture, Tone::Sarcastic) => &["I'll take the whole row, thanks.", "Generous."],
        (CommentaryEvent::MultiCapture, Tone::Competitive) => &["That's the game shifting.", "Decisive."],
        (CommentaryEvent::Promotion, Tone::Neutral) => &["A king is crowned.", "Promotion."],
        (CommentaryEvent::Promotion, Tone::Playful) => &["Someone got a hat.", "Upgraded."],
        (CommentaryEvent::Promotion, Tone::Sarcastic) => &["About time.", "Congratulations, I suppose."],
        (CommentaryEvent::Promotion, Tone::Competitive) => &["That changes the back rank.", "Kings matter now."],
        (CommentaryEvent::Win, Tone::Neutral) => &["That's the game.", "Result recorded."],
        (CommentaryEvent::Win, Tone::Playful) => &["Good game. Really.", "Rematch?"],
        (CommentaryEvent::Win, Tone::Sarcastic) => &["Shocking outcome.", "Nobody saw that coming."],
        (CommentaryEvent::Win, Tone::Competitive) => &["Game.", "Closed out."],
        (CommentaryEvent::Loss, Tone::Neutral) => &["Well played.", "You had it."],
        (CommentaryEvent::Loss, Tone::Playful) => &["Fine, fine. You win.", "I'll allow it."],
        (CommentaryEvent::Loss, Tone::Sarcastic) => &["Enjoy it while it lasts.", "Beginner's luck."],
        (CommentaryEvent::Loss, Tone::Competitive) => &["Good. Again.", "Noted. Rematch."],
        (CommentaryEvent::Draw, Tone::Neutral) => &["A draw.", "Even at the end."],
        (CommentaryEvent::Draw, Tone::Playful) => &["Nobody wins, nobody cries.", "Share the point."],
        (CommentaryEvent::Draw, Tone::Sarcastic) => &["Thrilling.", "We'll call it even."],
        (CommentaryEvent::Draw, Tone::Competitive) => &["Not settled.", "Next one decides it."],
        (CommentaryEvent::IdleTaunt, Tone::Neutral) => &["Still your move.", "Waiting."],
        (CommentaryEvent::IdleTaunt, Tone::Playful) => &["Take your time. Really.", "Still here."],
        (CommentaryEvent::IdleTaunt, Tone::Sarcastic) => &["I've aged.", "Should I come back later?"],
        (CommentaryEvent::IdleTaunt, Tone::Competitive) => &["Clock's running.", "Move."],
    }
}

/// Whether position `i` of `text` begins a whitespace-separated word.
pub open spec fn starts_word(text: Seq<char>, i: int) -> bool {
    !char_is_whitespace(text[i]) && (i == 0 || char_is_whitespace(text[i - 1]))
}

/// The number of whitespace-separated words in `text`.
pub open spec fn word_count(text: Seq<char>) -> nat
    decreases text.len(),
{
    if text.len() == 0 {
        0
    } else {
        word_count(text.drop_last()) + if starts_word(text, text.len() - 1) {
            1nat
        } else {
            0nat
        }
    }
}

proof fn lemma_word_count_bounded(text: Seq<char>)
    ensures
        word_count(text) <= text.len(),
    decreases text.len(),
{
    if text.len() > 0 {
        lemma_word_count_bounded(text.drop_last());
    }
}

/// The number of whitespace-separated words in `text`.
pub fn count_words(text: &str) -> (count: usize)
    ensures
        count == word_count(text@),
{
    let n = text.unicode_len();
    let mut count: usize = 0;
    let mut i: usize = 0;
    let mut previous_was_space = true;
    while i < n
        invariant
            n == text@.len(),
            i <= n,
            count == word_count(text@.take(i as int)),
            i > 0 ==> previous_was_space == char_is_whitespace(text@[i - 1]),
            i == 0 ==> previous_was_space,
        decreases n - i,
    {
        let ch = text.get_char(i);
        let space = is_whitespace(ch);
        proof {
            lemma_word_count_bounded(text@.take(i as int));
            assert(text@.take(i + 1).drop_last() =~= text@.take(i as int));
        }
        if !space && previous_was_space {
            count = count + 1;
        }
        previous_was_space = space;
        i = i + 1;
    }
    assert(text@.take(n as int) =~= text@);
    count
}

/// The canned line for `context`, reported as a fallback for `reason` with the
/// circuit in `circuit_state`.
pub open spec fn is_canned_for(
    commentary: Commentary,
    context: CommentaryContext,
    reason: FallbackReason,
    circuit_state: CircuitState,
) -> bool {
    &&& commentary.text@ == canned_line(context.event, context.tone, (context.ply % 2) as int)
    &&& commentary.token_count == word_count(commentary.text@)
    &&& commentary.provider@ == "canned"@
    &&& commentary.fallback_used
    &&& commentary.fallback_reason == Some(reason)
    &&& commentary.circuit_state == circuit_state
    &&& commentary.latency_ms == 0
}

/// Lines are chosen by ply, so that a game does not repeat the same line twice
/// in a row without needing randomness here.
pub struct CannedFaceAdapter;

impl CannedFaceAdapter {
    pub fn new() -> CannedFaceAdapter {
        CannedFaceAdapter
    }

    /// Produce a line. Cannot fail.
    pub fn canned(
        &self,
        context: &CommentaryContext,
        reason: FallbackReason,
        circuit_state: CircuitState,
    ) -> (commentary: Commentary)
        ensures
            is_canned_for(commentary, *context, reason, circuit_state),
    {
        let lines = lines_for(context.event, context.tone);
        let line = lines[(context.ply % 2) as usize];
        let text = line.to_owned();
        let words = count_words(line);
        proof {
            lemma_word_count_bounded(line@);
            reveal_strlit("canned");
        }
        assert(line@.len() < 400) by {
            law_every_canned_line_is_a_short_plain_sentence(context.event, context.tone, (context.ply % 2) as int);
        }
        Commentary {
            token_count: words as u32,
            text,
            provider: "canned",
            fallback_used: true,
            fallback_reason: Some(reason),
            circuit_state,
            latency_ms: 0,
        }
    }
}

impl Default for CannedFaceAdapter {
    fn default() -> (adapter: CannedFaceAdapter) {
        CannedFaceAdapter::new()
    }
}


/// Every `(event, tone)` pair has two lines, and every line is a short,
/// non-empty sentence with no digit in it: a number would read as a square.
pub proof fn law_every_canned_line_is_a_short_plain_sentence(
    event: CommentaryEvent,
    tone: Tone,
    which: int,
)
    requires
        0 <= which < 2,
    ensures
        0 < canned_line(event, tone, which).len() < 400,
        forall|j: int|
            0 <= j < canned_line(event, tone, which).len() ==> !('0' <= #[trigger] canned_line(
                event,
                tone,
                which,
            )[j] <= '9'),
{
        reveal_strlit("Board's set. Let's begin.");
        reveal_strlit("New game. Good luck.");
        reveal_strlit("Twelve each. Try to keep them.");
        reveal_strlit("Here we go again.");
        reveal_strlit("This should be brief.");
        reveal_strlit("I've cleared my afternoon.");
        reveal_strlit("Let's see what you've got.");
        reveal_strlit("Begin.");
        reveal_strlit("Noted.");
        reveal_strlit("Your move is in.");
        reveal_strlit("Bold.");
        reveal_strlit("Interesting choice.");
        reveal_strlit("Sure. Why not.");
        reveal_strlit("That's certainly a move.");
        reveal_strlit("Seen it.");
        reveal_strlit("Not enough.");
        reveal_strlit("Done.");
        reveal_strlit("My turn taken.");
        reveal_strlit("There.");
        reveal_strlit("Your problem now.");
        reveal_strlit("I thought about it for ages.");
        reveal_strlit("Barely had to think.");
        reveal_strlit("Pressure's on.");
        reveal_strlit("Your move.");
        reveal_strlit("A piece comes off.");
        reveal_strlit("Trade made.");
        reveal_strlit("Snack.");
        reveal_strlit("One fewer to worry about.");
        reveal_strlit("You won't be needing that.");
        reveal_strlit("Oops.");
        reveal_strlit("That's material.");
        reveal_strlit("Advantage taken.");
        reveal_strlit("Several pieces at once.");
        reveal_strlit("A chain.");
        reveal_strlit("Buffet.");
        reveal_strlit("Couldn't stop myself.");
        reveal_strlit("I'll take the whole row, thanks.");
        reveal_strlit("Generous.");
        reveal_strlit("That's the game shifting.");
        reveal_strlit("Decisive.");
        reveal_strlit("A king is crowned.");
        reveal_strlit("Promotion.");
        reveal_strlit("Someone got a hat.");
        reveal_strlit("Upgraded.");
        reveal_strlit("About time.");
        reveal_strlit("Congratulations, I suppose.");
        reveal_strlit("That changes the back rank.");
        reveal_strlit("Kings matter now.");
        reveal_strlit("That's the game.");
        reveal_strlit("Result recorded.");
        reveal_strlit("Good game. Really.");
        reveal_strlit("Rematch?");
        reveal_strlit("Shocking outcome.");
        reveal_strlit("Nobody saw that coming.");
        reveal_strlit("Game.");
        reveal_strlit("Closed out.");
        reveal_strlit("Well played.");
        reveal_strlit("You had it.");
        reveal_strlit("Fine, fine. You win.");
        reveal_strlit("I'll allow it.");
        reveal_strlit("Enjoy it while it lasts.");
        reveal_strlit("Beginner's luck.");
        reveal_strlit("Good. Again.");
        reveal_strlit("Noted. Rematch.");
        reveal_strlit("A draw.");
        reveal_strlit("Even at the end.");
        reveal_strlit("Nobody wins, nobody cries.");
        reveal_strlit("Share the point.");
        reveal_strlit("Thrilling.");
        reveal_strlit("We'll call it even.");
        reveal_strlit("Not settled.");
        reveal_strlit("Next one decides it.");
        reveal_strlit("Still your move.");
        reveal_strlit("Waiting.");
        reveal_strlit("Take your time. Really.");
        reveal_strlit("Still here.");
        reveal_strlit("I've aged.");
        reveal_strlit("Should I come back later?");
        reveal_strlit("Clock's running.");
        reveal_strlit("Move.");
}

/// A number that tells the table's lines apart: a line's length, its first
/// character and its last character but one.
spec fn line_key(line: Seq<char>) -> int {
    line.len() * 0x1_0000_0000_0000 + (line[0] as int) * 0x100_0000 + (line[line.len() - 2] as int)
}

/// The table position whose line has the given key.
spec fn position_of_key(key: int) -> (CommentaryEvent, Tone, int) {
    if key == 7036875525062766 {
        (CommentaryEvent::GameStart, Tone::Neutral, 0)
    } else if key == 5629500842836075 {
        (CommentaryEvent::GameStart, Tone::Neutral, 1)
    } else if key == 8444250710605933 {
        (CommentaryEvent::GameStart, Tone::Playful, 0)
    } else if key == 4785075812040814 {
        (CommentaryEvent::GameStart, Tone::Playful, 1)
    } else if key == 5910975920210022 {
        (CommentaryEvent::GameStart, Tone::Sarcastic, 0)
    } else if key == 7318350619213934 {
        (CommentaryEvent::GameStart, Tone::Sarcastic, 1)
    } else if key == 7318350669545588 {
        (CommentaryEvent::GameStart, Tone::Competitive, 0)
    } else if key == 1688850967560302 {
        (CommentaryEvent::GameStart, Tone::Competitive, 1)
    } else if key == 1688851168886884 {
        (CommentaryEvent::HumanMove, Tone::Neutral, 0)
    } else if key == 4503601120542830 {
        (CommentaryEvent::HumanMove, Tone::Neutral, 1)
    } else if key == 1407375990849636 {
        (CommentaryEvent::HumanMove, Tone::Playful, 0)
    } else if key == 5348025782239333 {
        (CommentaryEvent::HumanMove, Tone::Playful, 1)
    } else if key == 3940651066458228 {
        (CommentaryEvent::HumanMove, Tone::Sarcastic, 0)
    } else if key == 6755400850341989 {
        (CommentaryEvent::HumanMove, Tone::Sarcastic, 1)
    } else if key == 2251801206194292 {
        (CommentaryEvent::HumanMove, Tone::Competitive, 0)
    } else if key == 3096226052440168 {
        (CommentaryEvent::HumanMove, Tone::Competitive, 1)
    } else if key == 1407376024404069 {
        (CommentaryEvent::CpuMove, Tone::Neutral, 0)
    } else if key == 3940650965794926 {
        (CommentaryEvent::CpuMove, Tone::Neutral, 1)
    } else if key == 1688851269550181 {
        (CommentaryEvent::CpuMove, Tone::Playful, 0)
    } else if key == 4785076097253495 {
        (CommentaryEvent::CpuMove, Tone::Playful, 1)
    } else if key == 7881300572635251 {
        (CommentaryEvent::CpuMove, Tone::Sarcastic, 0)
    } else if key == 5629500641509483 {
        (CommentaryEvent::CpuMove, Tone::Sarcastic, 1)
    } else if key == 3940651016126574 {
        (CommentaryEvent::CpuMove, Tone::Competitive, 0)
    } else if key == 2814751260278885 {
        (CommentaryEvent::CpuMove, Tone::Competitive, 1)
    } else if key == 5066550671310950 {
        (CommentaryEvent::Capture, Tone::Neutral, 0)
    } else if key == 3096226153103461 {
        (CommentaryEvent::Capture, Tone::Neutral, 1)
    } else if key == 1688851252772971 {
        (CommentaryEvent::Capture, Tone::Playful, 0)
    } else if key == 7036875743166580 {
        (CommentaryEvent::Capture, Tone::Playful, 1)
    } else if key == 7318350887649396 {
        (CommentaryEvent::Capture, Tone::Sarcastic, 0)
    } else if key == 1407376208953459 {
        (CommentaryEvent::Capture, Tone::Sarcastic, 1)
    } else if key == 4503601036656748 {
        (CommentaryEvent::Capture, Tone::Competitive, 0)
    } else if key == 4503600717889646 {
        (CommentaryEvent::Capture, Tone::Competitive, 1)
    } else if key == 6473925856854117 {
        (CommentaryEvent::MultiCapture, Tone::Neutral, 0)
    } else if key == 2251800904204398 {
        (CommentaryEvent::MultiCapture, Tone::Neutral, 1)
    } else if key == 1970325944270964 {
        (CommentaryEvent::MultiCapture, Tone::Playful, 0)
    } else if key == 5910975634997350 {
        (CommentaryEvent::MultiCapture, Tone::Playful, 1)
    } else if key == 9007200479477875 {
        (CommentaryEvent::MultiCapture, Tone::Sarcastic, 0)
    } else if key == 2533275981578355 {
        (CommentaryEvent::MultiCapture, Tone::Sarcastic, 1)
    } else if key == 7036875827052647 {
        (CommentaryEvent::MultiCapture, Tone::Competitive, 0)
    } else if key == 2533275931246693 {
        (CommentaryEvent::MultiCapture, Tone::Competitive, 1)
    } else if key == 5066550671310948 {
        (CommentaryEvent::Promotion, Tone::Neutral, 0)
    } else if key == 2814751109283950 {
        (CommentaryEvent::Promotion, Tone::Neutral, 1)
    } else if key == 5066550973300852 {
        (CommentaryEvent::Promotion, Tone::Playful, 0)
    } else if key == 2533276216459364 {
        (CommentaryEvent::Promotion, Tone::Playful, 1)
    } else if key == 3096225834336357 {
        (CommentaryEvent::Promotion, Tone::Sarcastic, 0)
    } else if key == 7599825495261285 {
        (CommentaryEvent::Promotion, Tone::Sarcastic, 1)
    } else if key == 7599825780473963 {
        (CommentaryEvent::Promotion, Tone::Competitive, 0)
    } else if key == 4785075862372471 {
        (CommentaryEvent::Promotion, Tone::Competitive, 1)
    } else if key == 4503601036656741 {
        (CommentaryEvent::Win, Tone::Neutral, 0)
    } else if key == 4503601003102308 {
        (CommentaryEvent::Win, Tone::Neutral, 1)
    } else if key == 5066550771974265 {
        (CommentaryEvent::Win, Tone::Playful, 0)
    } else if key == 2251801189417064 {
        (CommentaryEvent::Win, Tone::Playful, 1)
    } else if key == 4785075996590181 {
        (CommentaryEvent::Win, Tone::Sarcastic, 0)
    } else if key == 6473925772968039 {
        (CommentaryEvent::Win, Tone::Sarcastic, 1)
    } else if key == 1407376074735717 {
        (CommentaryEvent::Win, Tone::Competitive, 0)
    } else if key == 3096225867890804 {
        (CommentaryEvent::Win, Tone::Competitive, 1)
    } else if key == 3377701180145764 {
        (CommentaryEvent::Loss, Tone::Neutral, 0)
    } else if key == 3096226236989556 {
        (CommentaryEvent::Loss, Tone::Neutral, 1)
    } else if key == 5629500708618350 {
        (CommentaryEvent::Loss, Tone::Playful, 0)
    } else if key == 3940650898686068 {
        (CommentaryEvent::Loss, Tone::Playful, 1)
    } else if key == 6755400598683763 {
        (CommentaryEvent::Loss, Tone::Sarcastic, 0)
    } else if key == 4503600734666859 {
        (CommentaryEvent::Loss, Tone::Sarcastic, 1)
    } else if key == 3377700911710318 {
        (CommentaryEvent::Loss, Tone::Competitive, 0)
    } else if key == 4222125959282792 {
        (CommentaryEvent::Loss, Tone::Competitive, 1)
    } else if key == 1970325927493751 {
        (CommentaryEvent::Draw, Tone::Neutral, 0)
    } else if key == 4503600784998500 {
        (CommentaryEvent::Draw, Tone::Neutral, 1)
    } else if key == 7318350703100019 {
        (CommentaryEvent::Draw, Tone::Playful, 0)
    } else if key == 4503601019879540 {
        (CommentaryEvent::Draw, Tone::Playful, 1)
    } else if key == 2814751176392807 {
        (CommentaryEvent::Draw, Tone::Sarcastic, 0)
    } else if key == 5348026017120366 {
        (CommentaryEvent::Draw, Tone::Sarcastic, 1)
    } else if key == 3377701029150820 {
        (CommentaryEvent::Draw, Tone::Competitive, 0)
    } else if key == 5629500842836084 {
        (CommentaryEvent::Draw, Tone::Competitive, 1)
    } else if key == 4503601019879525 {
        (CommentaryEvent::IdleTaunt, Tone::Neutral, 0)
    } else if key == 2251801273303143 {
        (CommentaryEvent::IdleTaunt, Tone::Neutral, 1)
    } else if key == 6473925873631353 {
        (CommentaryEvent::IdleTaunt, Tone::Playful, 0)
    } else if key == 3096226136326245 {
        (CommentaryEvent::IdleTaunt, Tone::Playful, 1)
    } else if key == 2814750991843428 {
        (CommentaryEvent::IdleTaunt, Tone::Sarcastic, 0)
    } else if key == 7036875810275442 {
        (CommentaryEvent::IdleTaunt, Tone::Sarcastic, 1)
    } else if key == 4503600751444071 {
        (CommentaryEvent::IdleTaunt, Tone::Competitive, 0)
    } else if key == 1407376175399013 {
        (CommentaryEvent::IdleTaunt, Tone::Competitive, 1)
    } else {
        (CommentaryEvent::GameStart, Tone::Neutral, 2)
    }
}

proof fn lemma_the_key_finds_the_line(event: CommentaryEvent, tone: Tone, which: int)
    requires
        0 <= which < 2,
    ensures
        position_of_key(line_key(canned_line(event, tone, which))) == (event, tone, which),
{
        reveal_strlit("Board's set. Let's begin.");
        reveal_strlit("New game. Good luck.");
        reveal_strlit("Twelve each. Try to keep them.");
        reveal_strlit("Here we go again.");
        reveal_strlit("This should be brief.");
        reveal_strlit("I've cleared my afternoon.");
        reveal_strlit("Let's see what you've got.");
        reveal_strlit("Begin.");
        reveal_strlit("Noted.");
        reveal_strlit("Your move is in.");
        reveal_strlit("Bold.");
        reveal_strlit("Interesting choice.");
        reveal_strlit("Sure. Why not.");
        reveal_strlit("That's certainly a move.");
        reveal_strlit("Seen it.");
        reveal_strlit("Not enough.");
        reveal_strlit("Done.");
        reveal_strlit("My turn taken.");
        reveal_strlit("There.");
        reveal_strlit("Your problem now.");
        reveal_strlit("I thought about it for ages.");
        reveal_strlit("Barely had to think.");
        reveal_strlit("Pressure's on.");
        reveal_strlit("Your move.");
        reveal_strlit("A piece comes off.");
        reveal_strlit("Trade made.");
        reveal_strlit("Snack.");
        reveal_strlit("One fewer to worry about.");
        reveal_strlit("You won't be needing that.");
        reveal_strlit("Oops.");
        reveal_strlit("That's material.");
        reveal_strlit("Advantage taken.");
        reveal_strlit("Several pieces at once.");
        reveal_strlit("A chain.");
        reveal_strlit("Buffet.");
        reveal_strlit("Couldn't stop myself.");
        reveal_strlit("I'll take the whole row, thanks.");
        reveal_strlit("Generous.");
        reveal_strlit("That's the game shifting.");
        reveal_strlit("Decisive.");
        reveal_strlit("A king is crowned.");
        reveal_strlit("Promotion.");
        reveal_strlit("Someone got a hat.");
        reveal_strlit("Upgraded.");
        reveal_strlit("About time.");
        reveal_strlit("Congratulations, I suppose.");
        reveal_strlit("That changes the back rank.");
        reveal_strlit("Kings matter now.");
        reveal_strlit("That's the game.");
        reveal_strlit("Result recorded.");
        reveal_strlit("Good game. Really.");
        reveal_strlit("Rematch?");
        reveal_strlit("Shocking outcome.");
        reveal_strlit("Nobody saw that coming.");
        reveal_strlit("Game.");
        reveal_strlit("Closed out.");
        reveal_strlit("Well played.");
        reveal_strlit("You had it.");
        reveal_strlit("Fine, fine. You win.");
        reveal_strlit("I'll allow it.");
        reveal_strlit("Enjoy it while it lasts.");
        reveal_strlit("Beginner's luck.");
        reveal_strlit("Good. Again.");
        reveal_strlit("Noted. Rematch.");
        reveal_strlit("A draw.");
        reveal_strlit("Even at the end.");
        reveal_strlit("Nobody wins, nobody cries.");
        reveal_strlit("Share the point.");
        reveal_strlit("Thrilling.");
        reveal_strlit("We'll call it even.");
        reveal_strlit("Not settled.");
        reveal_strlit("Next one decides it.");
        reveal_strlit("Still your move.");
        reveal_strlit("Waiting.");
        reveal_strlit("Take your time. Really.");
        reveal_strlit("Still here.");
        reveal_strlit("I've aged.");
        reveal_strlit("Should I come back later?");
        reveal_strlit("Clock's running.");
        reveal_strlit("Move.");
}

/// Each line of the table belongs to one situation: two positions of the
/// table, `(event, tone, which)`, hold the same line only when they are the
/// same position. In particular a line that greets the engine's win is never
/// a line for its loss, or for any other event or tone.
pub proof fn law_every_canned_line_belongs_to_one_situation(
    event: CommentaryEvent,
    tone: Tone,
    which: int,
    other_event: CommentaryEvent,
    other_tone: Tone,
    other_which: int,
)
    requires
        0 <= which < 2,
        0 <= other_which < 2,
        canned_line(event, tone, which) == canned_line(other_event, other_tone, other_which),
    ensures
        event == other_event,
        tone == other_tone,
        which == other_which,
{
    lemma_the_key_finds_the_line(event, tone, which);
    lemma_the_key_finds_the_line(other_event, other_tone, other_which);
}

} // verus!
