//! Output sanitization.
//!
//! Model output is untrusted input that happens to originate inside the
//! process. It is stripped of terminal escapes and control characters,
//! collapsed to one line, truncated and HTML-escaped before it can reach a
//! template.

use vstd::prelude::*;

use super::text::{char_is_whitespace, is_whitespace, push_char};

verus! {

/// Hard ceiling on a rendered line, in characters. Well above any sane
/// `max_tokens`, and low enough that a runaway generation cannot fill a pane.
pub const MAX_COMMENTARY_CHARS: usize = 400;

/// Whether the character is in the general category of control codes, the
/// test `char::is_control` makes: C0 (up to U+001F) or C1 (U+007F to
/// U+009F).
fn is_control(ch: char) -> (control: bool)
    ensures
        control == char_is_control(ch),
{
    ch <= '\u{1F}' || ('\u{7F}' <= ch && ch <= '\u{9F}')
}

/// The control codes, C0 and C1.
pub open spec fn char_is_control(ch: char) -> bool {
    ch <= '\u{1F}' || ('\u{7F}' <= ch <= '\u{9F}')
}

/// The bidirectional and zero-width formatting characters, which can reorder
/// or hide rendered text.
pub open spec fn is_bidi_format(ch: char) -> bool {
    ||| ch == '\u{061C}'
    ||| '\u{200B}' <= ch <= '\u{200F}'
    ||| '\u{202A}' <= ch <= '\u{202E}'
    ||| '\u{2066}' <= ch <= '\u{2069}'
}

fn bidi_format(ch: char) -> (format: bool)
    ensures
        format == is_bidi_format(ch),
{
    ch == '\u{061C}' || ('\u{200B}' <= ch && ch <= '\u{200F}') || ('\u{202A}' <= ch && ch
        <= '\u{202E}') || ('\u{2066}' <= ch && ch <= '\u{2069}')
}

/// Where the escape-stripping scan stands.
#[derive(Clone, Copy, PartialEq, Eq, Debug, Structural)]
pub enum AnsiScan {
    Text,
    /// Just after an ESC.
    AfterEscape,
    /// Inside a CSI sequence, which runs until a character in U+0040..=U+007E.
    InSequence,
}

/// One character of the scan: the next state, and the character kept, if any.
/// An ESC not followed by `[` is dropped alone.
pub open spec fn ansi_step(scan: AnsiScan, ch: char) -> (AnsiScan, Option<char>) {
    match scan {
        AnsiScan::InSequence => if '\u{40}' <= ch <= '\u{7E}' {
            (AnsiScan::Text, None)
        } else {
            (AnsiScan::InSequence, None)
        },
        AnsiScan::AfterEscape if ch == '[' => (AnsiScan::InSequence, None),
        _ => if ch == '\u{1B}' {
            (AnsiScan::AfterEscape, None)
        } else {
            (AnsiScan::Text, Some(ch))
        },
    }
}

pub open spec fn ansi_run(input: Seq<char>) -> (AnsiScan, Seq<char>)
    decreases input.len(),
{
    if input.len() == 0 {
        (AnsiScan::Text, Seq::empty())
    } else {
        let (scan, kept) = ansi_run(input.drop_last());
        let (next, emitted) = ansi_step(scan, input.last());
        (
            next,
            match emitted {
                Some(ch) => kept.push(ch),
                None => kept,
            },
        )
    }
}

/// `input` without its terminal escape sequences.
pub open spec fn ansi_stripped(input: Seq<char>) -> Seq<char> {
    ansi_run(input).1
}

fn strip_ansi(input: &str) -> (out: String)
    ensures
        out@ == ansi_stripped(input@),
{
    let mut out = String::new();
    let mut scan = AnsiScan::Text;
    for ch in it: input.chars()
        invariant
            it.seq() == input@,
            (scan, out@) == ansi_run(input@.take(it.index())),
    {
        proof {
            assert(input@.take(it.index() + 1).drop_last() =~= input@.take(it.index()));
        }
        let (next, keep) = match scan {
            AnsiScan::InSequence => {
                if '\u{40}' <= ch && ch <= '\u{7E}' {
                    (AnsiScan::Text, false)
                } else {
                    (AnsiScan::InSequence, false)
                }
            },
            AnsiScan::AfterEscape if ch == '[' => (AnsiScan::InSequence, false),
            _ => {
                if ch == '\u{1B}' {
                    (AnsiScan::AfterEscape, false)
                } else {
                    (AnsiScan::Text, true)
                }
            },
        };
        if keep {
            push_char(&mut out, ch);
        }
        scan = next;
    }
    proof {
        assert(input@.take(input@.len() as int) =~= input@);
    }
    out
}

/// Whitespace collapsed to single spaces (none leading), control and
/// formatting characters dropped; and whether the last character kept was a
/// collapsed space.
pub open spec fn collapse_run(input: Seq<char>) -> (Seq<char>, bool)
    decreases input.len(),
{
    if input.len() == 0 {
        (Seq::empty(), false)
    } else {
        let (kept, last_was_space) = collapse_run(input.drop_last());
        let ch = input.last();
        if char_is_whitespace(ch) {
            if kept.len() > 0 && !last_was_space {
                (kept.push(' '), true)
            } else {
                (kept, last_was_space)
            }
        } else if char_is_control(ch) || is_bidi_format(ch) {
            (kept, last_was_space)
        } else {
            (kept.push(ch), false)
        }
    }
}

pub open spec fn collapsed(input: Seq<char>) -> Seq<char> {
    collapse_run(input).0
}

/// A collapsed line with its trailing space, if any, removed. (A collapsed
/// line never starts with a space and never holds two in a row.)
pub open spec fn trimmed(line: Seq<char>) -> Seq<char> {
    if line.len() > 0 && line.last() == ' ' {
        line.drop_last()
    } else {
        line
    }
}

/// At most `max_chars` characters, cut on a character boundary.
pub open spec fn truncated(line: Seq<char>, max_chars: nat) -> Seq<char> {
    if line.len() > max_chars {
        line.take(max_chars as int)
    } else {
        line
    }
}

pub open spec fn escaped_char(ch: char) -> Seq<char> {
    if ch == '&' {
        "&amp;"@
    } else if ch == '<' {
        "&lt;"@
    } else if ch == '>' {
        "&gt;"@
    } else if ch == '"' {
        "&quot;"@
    } else if ch == '\'' {
        "&#x27;"@
    } else {
        seq![ch]
    }
}

pub open spec fn html_escaped(input: Seq<char>) -> Seq<char>
    decreases input.len(),
{
    if input.len() == 0 {
        Seq::empty()
    } else {
        html_escaped(input.drop_last()) + escaped_char(input.last())
    }
}

/// The line that survives sanitization, before escaping.
pub open spec fn surviving_line(raw: Seq<char>) -> Seq<char> {
    truncated(trimmed(collapsed(ansi_stripped(raw))), MAX_COMMENTARY_CHARS as nat)
}

pub open spec fn sanitized(raw: Seq<char>) -> Option<Seq<char>> {
    if surviving_line(raw).len() == 0 {
        None
    } else {
        Some(html_escaped(surviving_line(raw)))
    }
}

/// Strip, collapse, truncate and escape.
///
/// Returns `None` when nothing usable survives: a model producing nothing
/// usable is failing quietly, and the breaker needs to hear about it.
pub fn sanitize(raw: &str) -> (clean: Option<String>)
    ensures
        clean is None <==> sanitized(raw@) is None,
        clean matches Some(text) ==> sanitized(raw@) == Some(text@),
{
    let stripped = strip_ansi(raw);
    let mut cleaned = String::new();
    let mut last_was_space = false;
    for ch in it: stripped.as_str().chars()
        invariant
            it.seq() == stripped@,
            (cleaned@, last_was_space) == collapse_run(stripped@.take(it.index())),
    {
        proof {
            assert(stripped@.take(it.index() + 1).drop_last() =~= stripped@.take(it.index()));
        }
        if is_whitespace(ch) {
            if !cleaned.as_str().is_empty() && !last_was_space {
                push_char(&mut cleaned, ' ');
                last_was_space = true;
            }
        } else if is_control(ch) || bidi_format(ch) {
        } else {
            push_char(&mut cleaned, ch);
            last_was_space = false;
        }
    }
    proof {
        assert(stripped@.take(stripped@.len() as int) =~= stripped@);
    }
    let line = trim_trailing_space(cleaned.as_str());
    let cut = truncate_on_char_boundary(line, MAX_COMMENTARY_CHARS);
    if cut.unicode_len() == 0 {
        return None;
    }
    Some(escape_html(cut))
}

fn trim_trailing_space(line: &str) -> (out: &str)
    ensures
        out@ == trimmed(line@),
{
    let n = line.unicode_len();
    if n > 0 && line.get_char(n - 1) == ' ' {
        line.substring_char(0, n - 1)
    } else {
        line
    }
}

fn truncate_on_char_boundary(input: &str, max_chars: usize) -> (out: &str)
    ensures
        out@ == truncated(input@, max_chars as nat),
{
    let n = input.unicode_len();
    if n > max_chars {
        input.substring_char(0, max_chars)
    } else {
        input
    }
}

/// Escaped here rather than in the template, so that a template that forgets
/// to escape cannot reintroduce the hole.
fn escape_html(input: &str) -> (out: String)
    ensures
        out@ == html_escaped(input@),
{
    let mut out = String::new();
    for ch in it: input.chars()
        invariant
            it.seq() == input@,
            out@ == html_escaped(input@.take(it.index())),
    {
        proof {
            assert(input@.take(it.index() + 1).drop_last() =~= input@.take(it.index()));
        }
        if ch == '&' {
            out.append("&amp;");
        } else if ch == '<' {
            out.append("&lt;");
        } else if ch == '>' {
            out.append("&gt;");
        } else if ch == '"' {
            out.append("&quot;");
        } else if ch == '\'' {
            out.append("&#x27;");
        } else {
            push_char(&mut out, ch);
            assert(out@ =~= html_escaped(input@.take(it.index())) + seq![ch]);
        }
    }
    proof {
        assert(input@.take(input@.len() as int) =~= input@);
    }
    out
}

/// A character that may appear in a sanitized line: a collapsed space, or a
/// visible character that is neither whitespace, nor a control code, nor a
/// formatting character.
pub open spec fn renderable(ch: char) -> bool {
    ch == ' ' || (!char_is_whitespace(ch) && !char_is_control(ch) && !is_bidi_format(ch))
}

pub open spec fn all_renderable(line: Seq<char>) -> bool {
    forall|j: int| 0 <= j < line.len() ==> renderable(#[trigger] line[j])
}

proof fn lemma_collapsed_is_renderable(input: Seq<char>)
    ensures
        all_renderable(collapsed(input)),
    decreases input.len(),
{
    if input.len() > 0 {
        lemma_collapsed_is_renderable(input.drop_last());
    }
}

/// What survives sanitization is at most [`MAX_COMMENTARY_CHARS`]
/// characters, on one line, with no control code (so no terminal escape),
/// no bidirectional or zero-width formatting character, and no whitespace
/// but single spaces.
pub proof fn law_a_surviving_line_is_short_and_renderable(raw: Seq<char>)
    ensures
        surviving_line(raw).len() <= MAX_COMMENTARY_CHARS,
        all_renderable(surviving_line(raw)),
{
    let line = collapsed(ansi_stripped(raw));
    lemma_collapsed_is_renderable(ansi_stripped(raw));
    let t = trimmed(line);
    assert(all_renderable(t)) by {
        if line.len() > 0 && line.last() == ' ' {
            assert forall|j: int| 0 <= j < t.len() implies renderable(#[trigger] t[j]) by {
                assert(t[j] == line[j]);
            }
        }
    }
    let cut = truncated(t, MAX_COMMENTARY_CHARS as nat);
    assert forall|j: int| 0 <= j < cut.len() implies renderable(#[trigger] cut[j]) by {
        assert(cut[j] == t[j]);
    }
}

/// No character that could open or close markup, or end an attribute value.
pub open spec fn markup_free(text: Seq<char>) -> bool {
    forall|j: int|
        0 <= j < text.len() ==> {
            let ch = #[trigger] text[j];
            ch != '<' && ch != '>' && ch != '"' && ch != '\''
        }
}

proof fn lemma_escaped_is_markup_free(input: Seq<char>)
    ensures
        markup_free(html_escaped(input)),
    decreases input.len(),
{
    if input.len() > 0 {
        lemma_escaped_is_markup_free(input.drop_last());
        reveal_strlit("&amp;");
        reveal_strlit("&lt;");
        reveal_strlit("&gt;");
        reveal_strlit("&quot;");
        reveal_strlit("&#x27;");
        let head = html_escaped(input.drop_last());
        let tail = escaped_char(input.last());
        assert(markup_free(tail));
        assert forall|j: int| 0 <= j < (head + tail).len() implies {
            let ch = #[trigger] (head + tail)[j];
            ch != '<' && ch != '>' && ch != '"' && ch != '\''
        } by {
            if j < head.len() {
                assert((head + tail)[j] == head[j]);
            } else {
                assert((head + tail)[j] == tail[j - head.len()]);
            }
        }
    }
}

/// Model output cannot reach a template as markup: a sanitized line holds no
/// `<`, `>`, `"` or `'`, whatever the model produced.
pub proof fn law_sanitized_output_holds_no_markup(raw: Seq<char>)
    ensures
        sanitized(raw) matches Some(text) ==> markup_free(text),
{
    lemma_escaped_is_markup_free(surviving_line(raw));
}

/// A character sanitization has no reason to touch: above the space, not a
/// control code (C0, DEL or C1), not Unicode white space (U+0085, U+00A0,
/// U+1680, U+2000..=U+200A, U+2028, U+2029, U+202F, U+205F, U+3000), not one
/// of the bidirectional or zero-width formatting characters (U+061C,
/// U+200B..=U+200F, U+202A..=U+202E, U+2066..=U+2069), and not one HTML
/// escaping rewrites. Typographic punctuation such as U+2010..=U+2027 (dashes,
/// curly quotes, the ellipsis) is of this kind, apart from the two separators.
pub open spec fn passes_through(ch: char) -> bool {
    &&& '\u{20}' < ch
    &&& !('\u{7F}' <= ch <= '\u{A0}')
    &&& ch != '\u{1680}'
    &&& !('\u{2000}' <= ch <= '\u{200F}')
    &&& ch != '\u{2028}' && ch != '\u{2029}'
    &&& !('\u{202A}' <= ch <= '\u{202F}')
    &&& ch != '\u{205F}' && ch != '\u{3000}' && ch != '\u{061C}'
    &&& !('\u{2066}' <= ch <= '\u{2069}')
    &&& ch != '&' && ch != '<' && ch != '>' && ch != '"' && ch != '\''
}

proof fn lemma_ansi_keeps_plain_text(input: Seq<char>)
    requires
        forall|i: int| 0 <= i < input.len() ==> passes_through(#[trigger] input[i]),
    ensures
        ansi_run(input) == (AnsiScan::Text, input),
    decreases input.len(),
{
    if input.len() > 0 {
        lemma_ansi_keeps_plain_text(input.drop_last());
        assert(passes_through(input[input.len() - 1]));
        assert(input.drop_last().push(input.last()) =~= input);
    }
}

proof fn lemma_collapse_keeps_plain_text(input: Seq<char>)
    requires
        forall|i: int| 0 <= i < input.len() ==> passes_through(#[trigger] input[i]),
    ensures
        collapse_run(input) == (input, false),
    decreases input.len(),
{
    if input.len() > 0 {
        lemma_collapse_keeps_plain_text(input.drop_last());
        assert(passes_through(input[input.len() - 1]));
        assert(input.drop_last().push(input.last()) =~= input);
    }
}

proof fn lemma_escaping_keeps_plain_text(input: Seq<char>)
    requires
        forall|i: int| 0 <= i < input.len() ==> passes_through(#[trigger] input[i]),
    ensures
        html_escaped(input) == input,
    decreases input.len(),
{
    if input.len() > 0 {
        lemma_escaping_keeps_plain_text(input.drop_last());
        assert(passes_through(input[input.len() - 1]));
        assert(input.drop_last() + seq![input.last()] =~= input);
    }
}

/// Sanitization keeps what it has no reason to touch and drops exactly the
/// formatting and control characters. A collapsed line gains every character
/// of the first kind as it comes, whatever came before it, and gains nothing
/// from a bidirectional or zero-width formatting character or a control code
/// that is not white space; and a line of
/// up to the ceiling made only of such characters comes out of `sanitize`
/// exactly as it went in.
pub proof fn law_sanitization_keeps_plain_text(raw: Seq<char>, before: Seq<char>, ch: char)
    ensures
        passes_through(ch) ==> collapsed(before.push(ch)) == collapsed(before).push(ch),
        (ch == '\u{061C}' || '\u{200B}' <= ch <= '\u{200F}' || '\u{202A}' <= ch <= '\u{202E}'
            || '\u{2066}' <= ch <= '\u{2069}' || ch < '\u{9}' || '\u{E}' <= ch < '\u{20}' || '\u{7F}'
            <= ch < '\u{85}' || '\u{86}' <= ch <= '\u{9F}') ==> collapsed(before.push(ch))
            == collapsed(before),
        (0 < raw.len() <= MAX_COMMENTARY_CHARS && forall|i: int|
            0 <= i < raw.len() ==> passes_through(#[trigger] raw[i])) ==> sanitized(raw) == Some(
            raw,
        ),
{
    assert(before.push(ch).drop_last() =~= before);
    if 0 < raw.len() <= MAX_COMMENTARY_CHARS && forall|i: int|
        0 <= i < raw.len() ==> passes_through(#[trigger] raw[i]) {
        lemma_ansi_keeps_plain_text(raw);
        lemma_collapse_keeps_plain_text(raw);
        lemma_escaping_keeps_plain_text(raw);
        assert(passes_through(raw[raw.len() - 1]));
        assert(surviving_line(raw) == raw);
    }
}

} // verus!
