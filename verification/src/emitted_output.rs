//! Output that tools emit beside their result, kept short.
use crate::items::{ToolOutputBody, ToolOutputContent};
use crate::text;
use crate::text::{byte_len, fit, join, push_char};
use std::sync::Arc;
use vstd::prelude::*;
use vstd::string::*;
use vstd::utf8::*;

verus! {

/// Bytes that emitted output may take.
pub const MAX_EMITTED_OUTPUT_BYTES: usize = 1_000;

/// What marks output that was cut.
pub const TRUNCATION_MARKER: &'static str = "\n[emitted output truncated]\n";

/// What stands for output that is no text.
pub const NON_TEXT_MARKER: &'static str = "[non-text emitted output omitted]";

/// The text that stands for one part of an output.
pub open spec fn part_text(part: ToolOutputContent) -> Seq<char> {
    match part {
        ToolOutputContent::InputText { text } => text@,
        _ => NON_TEXT_MARKER@,
    }
}

/// The text that stands for the parts of an output.
pub open spec fn parts_text(parts: Seq<ToolOutputContent>) -> Seq<char>
    decreases parts.len(),
{
    if parts.len() == 0 {
        Seq::empty()
    } else {
        parts_text(parts.drop_last()) + part_text(parts.last())
    }
}

/// The text that stands for an output.
pub open spec fn body_text(output: ToolOutputBody) -> Seq<char> {
    match output {
        ToolOutputBody::Text(text) => text@,
        ToolOutputBody::Content(parts) => parts_text(parts@),
    }
}

/// The text that stands for several outputs: one per line, where there is
/// anything before it.
pub open spec fn outputs_text(outputs: Seq<ToolOutputBody>) -> Seq<char>
    decreases outputs.len(),
{
    if outputs.len() == 0 {
        Seq::empty()
    } else {
        let before = outputs_text(outputs.drop_last());
        if before.len() == 0 {
            body_text(outputs.last())
        } else {
            before.push('\n') + body_text(outputs.last())
        }
    }
}

/// A text that takes no more bytes than emitted output may: a longer one is
/// cut at a character and marked.
pub open spec fn bounded(text: Seq<char>) -> Seq<char> {
    if text::utf8_len(text) <= MAX_EMITTED_OUTPUT_BYTES {
        text
    } else {
        text::fitting(
            text,
            (MAX_EMITTED_OUTPUT_BYTES - text::utf8_len(TRUNCATION_MARKER@)) as nat,
        ) + TRUNCATION_MARKER@
    }
}

/// The marker takes as many bytes as it has characters.
proof fn lemma_marker_len()
    ensures
        text::utf8_len(TRUNCATION_MARKER@) == 28,
{
    reveal_strlit("\n[emitted output truncated]\n");
    assert(is_ascii_chars(TRUNCATION_MARKER@));
    is_ascii_chars_encode_utf8(TRUNCATION_MARKER@);
}

/// Appends the text that stands for an output.
fn append_output_text(target: &mut String, output: &ToolOutputBody)
    ensures
        final(target)@ == old(target)@ + body_text(*output),
{
    match output {
        ToolOutputBody::Text(text) => {
            target.append(text.as_str());
        },
        ToolOutputBody::Content(parts) => {
            let mut i: usize = 0;
            proof {
                assert(target@ =~= old(target)@ + parts_text(parts@.take(0)));
            }
            while i < parts.len()
                invariant
                    i <= parts@.len(),
                    target@ == old(target)@ + parts_text(parts@.take(i as int)),
                decreases parts@.len() - i,
            {
                proof {
                    assert(parts@.take(i as int + 1).drop_last() =~= parts@.take(i as int));
                }
                let ghost before = target@;
                match &parts[i] {
                    ToolOutputContent::InputText { text } => {
                        target.append(text.as_str());
                    },
                    _ => {
                        target.append(NON_TEXT_MARKER);
                    },
                }
                proof {
                    assert(target@ =~= before + part_text(parts@[i as int]));
                    assert(target@ =~= old(target)@ + parts_text(parts@.take(i as int + 1)));
                }
                i = i + 1;
            }
            proof {
                assert(parts@.take(parts@.len() as int) =~= parts@);
            }
        },
    }
}

/// Cuts a text to what emitted output may take.
fn truncate(text: String) -> (r: String)
    ensures
        r@ == bounded(text@),
{
    if byte_len(text.as_str()) <= MAX_EMITTED_OUTPUT_BYTES {
        return text;
    }
    proof {
        lemma_marker_len();
    }
    let limit: usize = MAX_EMITTED_OUTPUT_BYTES - byte_len(TRUNCATION_MARKER);
    let kept = fit(text.as_str(), limit);
    join(kept.as_str(), TRUNCATION_MARKER)
}

/// Returns the text that stands for an output, cut to what emitted output may
/// take.
pub fn bounded_text(output: &ToolOutputBody) -> (r: String)
    ensures
        r@ == bounded(body_text(*output)),
{
    let mut text = String::new();
    append_output_text(&mut text, output);
    proof {
        assert(text@ =~= body_text(*output));
    }
    truncate(text)
}

/// Puts emitted outputs together, if they hold anything.
pub fn bounded_emitted_output(outputs: &Vec<ToolOutputBody>) -> (r: Option<ToolOutputBody>)
    ensures
        match r {
            Some(output) => {
                &&& outputs_text(outputs@).len() > 0
                &&& output matches ToolOutputBody::Text(text) && text@ == bounded(
                    outputs_text(outputs@),
                )
            },
            None => outputs_text(outputs@).len() == 0,
        },
{
    let mut text = String::new();
    let mut i: usize = 0;
    while i < outputs.len()
        invariant
            i <= outputs@.len(),
            text@ == outputs_text(outputs@.take(i as int)),
        decreases outputs@.len() - i,
    {
        proof {
            assert(outputs@.take(i as int + 1).drop_last() =~= outputs@.take(i as int));
        }
        if !text.as_str().is_empty() {
            push_char(&mut text, '\n');
        }
        append_output_text(&mut text, &outputs[i]);
        proof {
            assert(text@ =~= outputs_text(outputs@.take(i as int + 1)));
        }
        i = i + 1;
    }
    proof {
        assert(outputs@.take(outputs@.len() as int) =~= outputs@);
    }
    if text.as_str().is_empty() {
        None
    } else {
        Some(ToolOutputBody::Text(truncate(text)))
    }
}

/// An output as parts: a text is one part.
pub open spec fn as_parts(output: ToolOutputBody) -> Seq<ToolOutputContent> {
    match output {
        ToolOutputBody::Text(text) => seq![ToolOutputContent::InputText { text }],
        ToolOutputBody::Content(items) => items@,
    }
}

/// Adds the parts of an output to others.
pub fn append_to_content(content: &mut Vec<ToolOutputContent>, output: ToolOutputBody)
    requires
        output is Content ==> old(content)@.len() + output->Content_0@.len() <= usize::MAX,
    ensures
        final(content)@ == old(content)@ + as_parts(output),
{
    match output {
        ToolOutputBody::Text(text) => {
            content.push(ToolOutputContent::InputText { text });
            proof {
                assert(content@ =~= old(content)@ + as_parts(output));
            }
        },
        ToolOutputBody::Content(items) => {
            let mut i: usize = 0;
            while i < items.len()
                invariant
                    i <= items@.len(),
                    content@ == old(content)@ + items@.take(i as int),
                decreases items@.len() - i,
            {
                content.push(items[i].clone());
                proof {
                    assert(content@ =~= old(content)@ + items@.take(i as int + 1));
                }
                i = i + 1;
            }
            proof {
                assert(items@.take(items@.len() as int) =~= items@);
            }
        },
    }
}

/// Adds emitted output behind an output, which then consists of parts.
pub fn append_bounded_output(output: &mut ToolOutputBody, emitted: ToolOutputBody)
    requires
        as_parts(*old(output)).len() + as_parts(emitted).len() <= usize::MAX,
    ensures
        *final(output) matches ToolOutputBody::Content(parts) && parts@ == as_parts(*old(output))
            + as_parts(emitted),
{
    let mut content: Vec<ToolOutputContent> = Vec::new();
    append_to_content(&mut content, output.clone());
    append_to_content(&mut content, emitted);
    *output = ToolOutputBody::Content(Arc::new(content));
}

/// Emitted output never takes more bytes than it may, and starts as what was
/// emitted does.
pub proof fn law_emitted_output_is_bounded(text: Seq<char>)
    ensures
        text::utf8_len(bounded(text)) <= MAX_EMITTED_OUTPUT_BYTES,
        text::utf8_len(text) <= MAX_EMITTED_OUTPUT_BYTES ==> bounded(text) == text,
{
    lemma_marker_len();
    let limit = (MAX_EMITTED_OUTPUT_BYTES - 28) as nat;
    lemma_fitting_fits(text, limit);
    text::lemma_utf8_len_join(text::fitting(text, limit), TRUNCATION_MARKER@);
}

/// A cut text takes no more bytes than asked for.
proof fn lemma_fitting_fits(text: Seq<char>, limit: nat)
    ensures
        text::utf8_len(text::fitting(text, limit)) <= limit,
    decreases text.len(),
{
    if text::utf8_len(text) > limit && text.len() > 0 {
        lemma_fitting_fits(text.drop_last(), limit);
    } else if text.len() == 0 {
        reveal_with_fuel(encode_utf8, 1);
    }
}

/// Outputs are read in order, one below the other: text as it is, and anything
/// else as the mark that stands for it.
pub proof fn law_outputs_are_read_in_order(
    outputs: Seq<ToolOutputBody>,
    output: ToolOutputBody,
    parts: Seq<ToolOutputContent>,
    part: ToolOutputContent,
)
    ensures
        outputs_text(Seq::empty()) == Seq::<char>::empty(),
        outputs_text(outputs.push(output)) == if outputs_text(outputs).len() == 0 {
            body_text(output)
        } else {
            outputs_text(outputs) + seq!['\n'] + body_text(output)
        },
        parts_text(Seq::empty()) == Seq::<char>::empty(),
        parts_text(parts.push(part)) == parts_text(parts) + match part {
            ToolOutputContent::InputText { text } => text@,
            _ => "[non-text emitted output omitted]"@,
        },
        output matches ToolOutputBody::Text(text) ==> body_text(output) == text@,
        output matches ToolOutputBody::Content(held) ==> body_text(output) == parts_text(held@),
{
    assert(outputs.push(output).drop_last() =~= outputs);
    assert(parts.push(part).drop_last() =~= parts);
    let before = outputs_text(outputs);
    assert(before.push('\n') + body_text(output) =~= before + seq!['\n'] + body_text(output));
}

/// An output that is too large keeps its start, as long as there is room for the
/// mark that says so, and the mark; nothing of the start is changed.
pub proof fn law_cut_outputs_keep_their_start(text: Seq<char>)
    requires
        text::utf8_len(text) > MAX_EMITTED_OUTPUT_BYTES,
    ensures
        exists|n: int|
            {
                &&& 0 <= n < text.len()
                &&& bounded(text) == #[trigger] text.take(n)
                    + "\n[emitted output truncated]\n"@
                &&& text::utf8_len(text.take(n + 1)) > MAX_EMITTED_OUTPUT_BYTES - 28
            },
{
    lemma_marker_len();
    let limit = (MAX_EMITTED_OUTPUT_BYTES - 28) as nat;
    let n = lemma_fitting_is_a_start(text, limit);
    assert(bounded(text) == text.take(n) + TRUNCATION_MARKER@);
}

/// What fits is the longest start that does.
proof fn lemma_fitting_is_a_start(text: Seq<char>, limit: nat) -> (n: int)
    requires
        text::utf8_len(text) > limit,
    ensures
        0 <= n < text.len(),
        text::fitting(text, limit) == text.take(n),
        text::utf8_len(text.take(n + 1)) > limit,
    decreases text.len(),
{
    let shorter = text.drop_last();
    if text.len() == 0 {
        reveal_with_fuel(encode_utf8, 1);
        0
    } else if text::utf8_len(shorter) <= limit {
        assert(text.take(text.len() as int) =~= text);
        assert(shorter =~= text.take(text.len() - 1));
        assert(text::fitting(shorter, limit) == shorter);
        text.len() - 1
    } else {
        let n: int = lemma_fitting_is_a_start(shorter, limit);
        assert(shorter.take(n) =~= text.take(n));
        assert(shorter.take(n + 1) =~= text.take(n + 1));
        n
    }
}

} // verus!
