//! What the provider's service returns.
use crate::items;
use crate::items::{output_text, ResponseItem};
use crate::pricing::Usage;
use crate::text;
use crate::text::byte_len;
use crate::tool_calls::CodeCall;
use std::sync::Arc;
use vstd::prelude::*;

verus! {

/// A completed generation.
pub struct GenerationOutput {
    /// Identity of the response.
    pub id: String,
    /// The provider's name of the response's state.
    pub status: String,
    /// Whether the model ended its logical turn.
    pub end_turn: Option<bool>,
    /// The model's final message.
    pub final_message: Option<String>,
    /// Completed output items.
    pub output_items: Vec<Arc<ResponseItem>>,
    /// Tool calls among the output items.
    pub code_calls: Vec<CodeCall>,
    /// Token usage.
    pub usage: Option<Usage>,
    /// Time until the first event.
    pub time_to_first_event_ns: u64,
    /// Time until the first output.
    pub time_to_first_output_ns: Option<u64>,
}

impl GenerationOutput {
    /// The text that a generation delivers: its final message, or the text of
    /// its messages without one.
    pub open spec fn delivered(self) -> Seq<char> {
        match self.final_message {
            Some(message) => message@,
            None => items::items_text(self.output_items@),
        }
    }

    /// Returns the text that a generation delivers.
    pub fn delivered_text(&self) -> (r: String)
        ensures
            r@ == self.delivered(),
    {
        match &self.final_message {
            Some(message) => message.clone(),
            None => output_text(&self.output_items),
        }
    }
}

/// A number of things, or the largest number where there are more.
pub open spec fn capped_size(count: nat) -> usize {
    if count <= usize::MAX {
        count as usize
    } else {
        usize::MAX
    }
}

/// The summaries of the reasoning among items.
pub open spec fn summaries(items: Seq<Arc<ResponseItem>>) -> nat
    decreases items.len(),
{
    if items.len() == 0 {
        0
    } else {
        summaries(items.drop_last()) + match *items.last() {
            ResponseItem::Reasoning { summary, .. } => summary@.len(),
            _ => 0,
        }
    }
}

/// How many items could be written as JSON.
pub open spec fn written_count(lengths: Seq<Option<usize>>) -> nat
    decreases lengths.len(),
{
    if lengths.len() == 0 {
        0
    } else {
        written_count(lengths.drop_last()) + if lengths.last() is Some {
            1nat
        } else {
            0
        }
    }
}

/// The bytes of the items that could be written as JSON, with a separator
/// between each two.
pub open spec fn written_bytes(lengths: Seq<Option<usize>>) -> nat
    decreases lengths.len(),
{
    if lengths.len() == 0 {
        0
    } else {
        let before = written_bytes(lengths.drop_last());
        match lengths.last() {
            Some(length) => before + length as nat + if written_count(lengths.drop_last()) > 0 {
                1nat
            } else {
                0
            },
            None => before,
        }
    }
}

/// What a trace states of a generation.
#[derive(Clone, Copy, Debug, PartialEq, Eq, Structural)]
pub struct GenerationTrace {
    /// Output items.
    pub item_count: usize,
    /// Tool calls.
    pub tool_call_count: usize,
    /// Bytes of the items as a JSON list, if content is traced.
    pub output_bytes: usize,
    /// Reasoning summaries.
    pub summary_count: usize,
    /// Bytes of the final message.
    pub message_bytes: Option<usize>,
}

impl GenerationOutput {
    /// Summarizes a generation for a trace. `lengths` holds the length of each
    /// item as JSON, where it could be written, and nothing when content is not
    /// traced.
    pub fn trace(&self, content: bool, lengths: &Vec<Option<usize>>) -> (r: GenerationTrace)
        requires
            content ==> lengths@.len() == self.output_items@.len(),
        ensures
            r.item_count == self.output_items@.len(),
            r.tool_call_count == self.code_calls@.len(),
            r.output_bytes == if content {
                capped_size(2 + written_bytes(lengths@))
            } else {
                0
            },
            r.summary_count == capped_size(summaries(self.output_items@)),
            match self.final_message {
                Some(message) => r.message_bytes is Some && r.message_bytes->0 == text::utf8_len(
                    message@,
                ),
                None => r.message_bytes is None,
            },
    {
        let mut output_bytes: usize = if content {
            2
        } else {
            0
        };
        if content {
            let mut written = false;
            let mut i: usize = 0;
            while i < lengths.len()
                invariant
                    i <= lengths@.len(),
                    output_bytes == capped_size(2 + written_bytes(lengths@.take(i as int))),
                    written == (written_count(lengths@.take(i as int)) > 0),
                decreases lengths@.len() - i,
            {
                proof {
                    assert(lengths@.take(i as int + 1).drop_last() =~= lengths@.take(i as int));
                }
                if let Some(length) = lengths[i] {
                    let separator: usize = if written {
                        1
                    } else {
                        0
                    };
                    output_bytes = output_bytes.saturating_add(separator).saturating_add(length);
                    written = true;
                }
                i = i + 1;
            }
            proof {
                assert(lengths@.take(lengths@.len() as int) =~= lengths@);
            }
        }
        let mut summary_count: usize = 0;
        let mut i: usize = 0;
        while i < self.output_items.len()
            invariant
                i <= self.output_items@.len(),
                summary_count == capped_size(summaries(self.output_items@.take(i as int))),
            decreases self.output_items@.len() - i,
        {
            proof {
                assert(self.output_items@.take(i as int + 1).drop_last()
                    =~= self.output_items@.take(i as int));
            }
            if let ResponseItem::Reasoning { summary, .. } = &*self.output_items[i] {
                summary_count = summary_count.saturating_add(summary.len());
            }
            i = i + 1;
        }
        proof {
            assert(self.output_items@.take(self.output_items@.len() as int)
                =~= self.output_items@);
        }
        let message_bytes = match &self.final_message {
            Some(message) => Some(byte_len(message.as_str())),
            None => None,
        };
        GenerationTrace {
            item_count: self.output_items.len(),
            tool_call_count: self.code_calls.len(),
            output_bytes,
            summary_count,
            message_bytes,
        }
    }
}

/// A completed compaction.
pub struct CompactionOutput {
    /// Identity of the response.
    pub id: String,
    /// The provider's name of the response's state.
    pub status: String,
    /// The item that stands for the compacted conversation.
    pub item: Arc<ResponseItem>,
    /// Token usage.
    pub usage: Option<Usage>,
    /// Time until the first event.
    pub time_to_first_event_ns: u64,
    /// Time until the first output.
    pub time_to_first_output_ns: Option<u64>,
}

/// A completed warmup.
pub struct WarmupOutput {
    /// Identity of the response.
    pub id: String,
    /// Token usage.
    pub usage: Option<Usage>,
}

/// What the provider's service returned for a request.
pub enum ResponsesOutput {
    /// A generation.
    Generation(GenerationOutput),
    /// A compaction.
    Compaction(CompactionOutput),
    /// A warmup.
    Warmup(WarmupOutput),
}

/// A successful exchange with the provider's service.
pub struct ResponsesServiceResponse {
    /// What was returned.
    pub output: ResponsesOutput,
    /// Number of the attempt that succeeded.
    pub attempt: u32,
    /// Number of the connection that served the attempt.
    pub connection_generation: u32,
    /// Whether the provider counts earlier reasoning as context.
    pub server_reasoning_included: bool,
}

/// A generation delivers its final message, word for word; without one it
/// delivers the text of its messages.
pub proof fn law_the_final_message_is_delivered(output: GenerationOutput)
    ensures
        output.final_message matches Some(message) ==> output.delivered() == message@,
        output.final_message is None ==> output.delivered() == items::items_text(
            output.output_items@,
        ),
{
}

/// A trace counts every reasoning summary and every written item: one more item
/// adds its summaries, and one more written item adds its bytes and a separator
/// unless it is the first.
pub proof fn law_traces_count_every_item(
    items: Seq<Arc<ResponseItem>>,
    item: Arc<ResponseItem>,
    lengths: Seq<Option<usize>>,
    length: usize,
)
    ensures
        summaries(Seq::<Arc<ResponseItem>>::empty()) == 0,
        *item matches ResponseItem::Reasoning { summary, .. } ==> summaries(items.push(item))
            == summaries(items) + summary@.len(),
        !(*item is Reasoning) ==> summaries(items.push(item)) == summaries(items),
        written_bytes(Seq::<Option<usize>>::empty()) == 0,
        written_bytes(lengths.push(None)) == written_bytes(lengths),
        (forall|i: int| 0 <= i < lengths.len() ==> (#[trigger] lengths[i]) is None)
            ==> written_bytes(lengths.push(Some(length))) == length,
        (exists|i: int| 0 <= i < lengths.len() && (#[trigger] lengths[i]) is Some)
            ==> written_bytes(lengths.push(Some(length))) == written_bytes(lengths) + 1 + length,
{
    assert(items.push(item).drop_last() =~= items);
    assert(lengths.push(None).drop_last() =~= lengths);
    assert(lengths.push(Some(length)).drop_last() =~= lengths);
    lemma_written_count(lengths);
}

/// Something was written exactly when some item could be.
proof fn lemma_written_count(lengths: Seq<Option<usize>>)
    ensures
        written_count(lengths) > 0 <==> exists|i: int|
            0 <= i < lengths.len() && (#[trigger] lengths[i]) is Some,
        written_count(lengths) == 0 ==> written_bytes(lengths) == 0,
    decreases lengths.len(),
{
    if lengths.len() > 0 {
        let shorter = lengths.drop_last();
        lemma_written_count(shorter);
        if written_count(shorter) > 0 {
            let i = choose|i: int| 0 <= i < shorter.len() && (#[trigger] shorter[i]) is Some;
            assert(lengths[i] is Some);
        }
        if lengths.last() is Some {
            assert(lengths[lengths.len() - 1] is Some);
        }
        if exists|i: int| 0 <= i < lengths.len() && (#[trigger] lengths[i]) is Some {
            let i = choose|i: int| 0 <= i < lengths.len() && (#[trigger] lengths[i]) is Some;
            if i < shorter.len() {
                assert(shorter[i] is Some);
            }
        }
    }
}

/// A count that a trace states is exact unless it is larger than any number
/// that the trace can hold.
pub proof fn law_traced_counts_are_exact_or_largest(count: nat)
    ensures
        count <= usize::MAX ==> capped_size(count) == count,
        count > usize::MAX ==> capped_size(count) == usize::MAX,
{
}

} // verus!
