//! One streamed provider operation: its events, its end and its failure.
use crate::error::ErrorLink;
use crate::items::ResponseItem;
use crate::pricing::Usage;
use crate::session_id::SessionId;
use crate::text::join;
use std::sync::Arc;
use vstd::prelude::*;
use vstd::string::*;

verus! {

/// Whether one cause reports an exceeded context window.
pub open spec fn link_exceeds_window(link: ErrorLink) -> bool {
    link matches ErrorLink::Service(service) && service.error is Some
        && service.error->0 is ContextWindowExceeded
}

/// Whether some cause in a chain reports an exceeded context window.
pub open spec fn chain_exceeds_window(chain: Seq<ErrorLink>) -> bool {
    exists|i: int| 0 <= i < chain.len() && link_exceeds_window(#[trigger] chain[i])
}

/// Returns whether some cause in a chain reports an exceeded context window.
pub fn error_chain_has_context_window(chain: &Vec<ErrorLink>) -> (r: bool)
    ensures
        r == chain_exceeds_window(chain@),
{
    let mut i: usize = 0;
    while i < chain.len()
        invariant
            i <= chain@.len(),
            forall|j: int| 0 <= j < i ==> !link_exceeds_window(#[trigger] chain@[j]),
        decreases chain@.len() - i,
    {
        let exceeds = match &chain[i] {
            ErrorLink::Service(service) => match &service.error {
                Some(error) => error.is_context_window_exceeded(),
                None => false,
            },
            _ => false,
        };
        if exceeds {
            assert(link_exceeds_window(chain@[i as int]));
            return true;
        }
        i = i + 1;
    }
    false
}

/// What failed.
#[derive(Debug)]
pub enum ResponseErrorKind {
    /// The provider rejected the request for its size. The first link is the
    /// failure, the others are its causes.
    ContextWindowExceeded(Arc<Vec<ErrorLink>>),
    /// The service failed. The first link is the failure, the others are its
    /// causes.
    Service(Arc<Vec<ErrorLink>>),
    /// The exchange with the service went against its rules.
    Protocol(String),
}

/// Cloneable typed failure returned by a response stream and its completed
/// future.
#[derive(Debug)]
pub struct ResponseError {
    kind: ResponseErrorKind,
}

impl View for ResponseError {
    type V = ResponseErrorKind;

    closed spec fn view(&self) -> ResponseErrorKind {
        self.kind
    }
}

impl Clone for ResponseError {
    fn clone(&self) -> (r: Self)
        ensures
            r == *self,
    {
        let kind = match &self.kind {
            ResponseErrorKind::ContextWindowExceeded(chain) => {
                ResponseErrorKind::ContextWindowExceeded(chain.clone())
            },
            ResponseErrorKind::Service(chain) => ResponseErrorKind::Service(chain.clone()),
            ResponseErrorKind::Protocol(detail) => ResponseErrorKind::Protocol(detail.clone()),
        };
        ResponseError { kind }
    }
}

impl ResponseErrorKind {
    /// The message of a failure.
    pub open spec fn text(self) -> Seq<char> {
        match self {
            ResponseErrorKind::ContextWindowExceeded(_) =>
                "Responses input exceeded the model context window"@,
            ResponseErrorKind::Service(chain) => if chain@.len() > 0 {
                chain@[0].text()
            } else {
                Seq::empty()
            },
            ResponseErrorKind::Protocol(detail) => "invalid Responses state: "@ + detail@,
        }
    }
}

impl ResponseError {
    /// Whether this is a breach of the exchange's rules with a description.
    pub open spec fn breach(self, detail: Seq<char>) -> bool {
        self@ matches ResponseErrorKind::Protocol(own) && own@ == detail
    }

    /// Wraps a service failure, given with its causes, and keeps all of them.
    pub fn service(chain: Vec<ErrorLink>) -> (r: Self)
        ensures
            if chain_exceeds_window(chain@) {
                r@ matches ResponseErrorKind::ContextWindowExceeded(kept) && kept@ == chain@
            } else {
                r@ matches ResponseErrorKind::Service(kept) && kept@ == chain@
            },
    {
        if error_chain_has_context_window(&chain) {
            ResponseError { kind: ResponseErrorKind::ContextWindowExceeded(Arc::new(chain)) }
        } else {
            ResponseError { kind: ResponseErrorKind::Service(Arc::new(chain)) }
        }
    }

    /// Reports a breach of the exchange's rules.
    pub fn protocol(detail: &str) -> (r: Self)
        ensures
            r.breach(detail@),
    {
        ResponseError { kind: ResponseErrorKind::Protocol(detail.to_owned()) }
    }

    /// Returns whether the provider rejected the request for context-window
    /// exhaustion.
    pub fn is_context_window_exceeded(&self) -> (r: bool)
        ensures
            r == (self@ is ContextWindowExceeded),
    {
        match &self.kind {
            ResponseErrorKind::ContextWindowExceeded(_) => true,
            _ => false,
        }
    }

    /// Returns the failure that this one wraps and its causes.
    pub fn source(&self) -> (r: Option<&Vec<ErrorLink>>)
        ensures
            match self@ {
                ResponseErrorKind::ContextWindowExceeded(chain) => r is Some && r->0@ == chain@,
                ResponseErrorKind::Service(chain) => r is Some && r->0@ == chain@,
                ResponseErrorKind::Protocol(_) => r is None,
            },
    {
        match &self.kind {
            ResponseErrorKind::ContextWindowExceeded(chain) => Some(&**chain),
            ResponseErrorKind::Service(chain) => Some(&**chain),
            ResponseErrorKind::Protocol(_) => None,
        }
    }

    /// Describes the failure.
    pub fn message(&self) -> (r: String)
        ensures
            r@ == self@.text(),
    {
        match &self.kind {
            ResponseErrorKind::ContextWindowExceeded(_) =>
                "Responses input exceeded the model context window".to_owned(),
            ResponseErrorKind::Service(chain) => if chain.len() > 0 {
                chain[0].message()
            } else {
                String::new()
            },
            ResponseErrorKind::Protocol(detail) => join(
                "invalid Responses state: ",
                detail.as_str(),
            ),
        }
    }
}

/// Opaque completed session boundary.
pub struct ResponseCheckpoint {
    /// The session.
    pub session_id: SessionId,
    /// The conversation at the boundary.
    pub history: Vec<Arc<ResponseItem>>,
}

/// A completed and atomically committed provider operation.
pub struct CompletedResponse {
    /// Completed output items in provider order.
    pub(crate) output: Vec<Arc<ResponseItem>>,
    /// Concatenated text of the model.
    pub(crate) output_text: String,
    /// Token usage of the operation.
    pub(crate) usage: Option<Usage>,
    /// Whether the model ended its logical turn.
    pub(crate) end_turn: Option<bool>,
    /// The boundary that the operation committed.
    pub(crate) checkpoint: ResponseCheckpoint,
}

/// What a completed operation states.
pub struct CompletedView {
    /// Completed output items in provider order.
    pub output: Seq<Arc<ResponseItem>>,
    /// Concatenated text of the model.
    pub output_text: Seq<char>,
    /// Token usage of the operation.
    pub usage: Option<Usage>,
    /// Whether the model ended its logical turn.
    pub end_turn: Option<bool>,
    /// The session.
    pub session_id: SessionId,
    /// The conversation at the boundary.
    pub history: Seq<Arc<ResponseItem>>,
}

impl View for CompletedResponse {
    type V = CompletedView;

    closed spec fn view(&self) -> CompletedView {
        CompletedView {
            output: self.output@,
            output_text: self.output_text@,
            usage: self.usage,
            end_turn: self.end_turn,
            session_id: self.checkpoint.session_id,
            history: self.checkpoint.history@,
        }
    }
}

impl CompletedResponse {
    /// Puts a completed operation together.
    pub(crate) fn assemble(
        output: Vec<Arc<ResponseItem>>,
        output_text: String,
        usage: Option<Usage>,
        end_turn: Option<bool>,
        checkpoint: ResponseCheckpoint,
    ) -> (r: Self)
        ensures
            r@ == (CompletedView {
                output: output@,
                output_text: output_text@,
                usage,
                end_turn,
                session_id: checkpoint.session_id,
                history: checkpoint.history@,
            }),
    {
        CompletedResponse { output, output_text, usage, end_turn, checkpoint }
    }

    /// Returns every completed output item in provider order.
    pub fn output(&self) -> (r: &Vec<Arc<ResponseItem>>)
        ensures
            r@ == self@.output,
    {
        &self.output
    }

    /// Returns concatenated assistant output text.
    pub fn output_text(&self) -> (r: &str)
        ensures
            r@ == self@.output_text,
    {
        self.output_text.as_str()
    }

    /// Selects the output items that ask for a tool.
    pub fn tool_calls(&self) -> (r: Vec<Arc<ResponseItem>>)
        ensures
            r@ == crate::items::tool_calls_of(self@.output),
    {
        crate::items::tool_calls(&self.output)
    }

    /// Returns token usage for this operation.
    pub fn usage(&self) -> (r: Option<Usage>)
        ensures
            r == self@.usage,
    {
        self.usage
    }

    /// Returns whether the model affirmatively ended its logical turn.
    pub fn end_turn(&self) -> (r: Option<bool>)
        ensures
            r == self@.end_turn,
    {
        self.end_turn
    }

    /// Returns the completed client-owned checkpoint.
    pub fn checkpoint(&self) -> (r: &ResponseCheckpoint)
        ensures
            r.session_id == self@.session_id,
            r.history@ == self@.history,
    {
        &self.checkpoint
    }
}

/// A completed and installed remote compaction.
pub struct CompletedCompaction {
    /// Token usage of the operation.
    pub(crate) usage: Option<Usage>,
    /// The boundary that the operation committed.
    pub(crate) checkpoint: ResponseCheckpoint,
}

impl CompletedCompaction {
    /// Token usage of the operation.
    pub closed spec fn reported(&self) -> Option<Usage> {
        self.usage
    }

    /// The boundary that the operation committed.
    pub closed spec fn boundary(&self) -> ResponseCheckpoint {
        self.checkpoint
    }

    /// Puts a completed compaction together.
    pub(crate) fn assemble(usage: Option<Usage>, checkpoint: ResponseCheckpoint) -> (r: Self)
        ensures
            r.reported() == usage,
            r.boundary() == checkpoint,
    {
        CompletedCompaction { usage, checkpoint }
    }

    /// Returns token usage reported by the compaction operation.
    pub fn usage(&self) -> (r: Option<Usage>)
        ensures
            r == self.reported(),
    {
        self.usage
    }

    /// Returns the completed client-owned checkpoint.
    pub fn checkpoint(&self) -> (r: &ResponseCheckpoint)
        ensures
            *r == self.boundary(),
    {
        &self.checkpoint
    }
}

/// One event of a response stream.
#[derive(Debug)]
pub enum ResponseEvent {
    /// More text of the model.
    OutputTextDelta(String),
    /// The operation completed.
    Completed {
        /// Token usage of the operation.
        usage: Option<Usage>,
        /// Whether the model ended its logical turn.
        end_turn: Option<bool>,
    },
    /// Any other event, as JSON.
    Other(String),
}

/// What a stream yields.
pub enum StreamItem {
    /// An event.
    Event(ResponseEvent),
    /// The operation's failure.
    Failed(ResponseError),
}

/// What a stream does when no event is ready.
pub enum StreamStep {
    /// Poll the operation. When it is ready, look for events again.
    PollOperation,
    /// Yield an item.
    Yield(StreamItem),
    /// End.
    End,
}

/// Progress of one provider operation as a stream and as a future.
///
/// The operation itself runs outside. Events come first; the end of the
/// operation is looked at when none is ready.
pub struct Response {
    result: Option<Result<CompletedResponse, ResponseError>>,
    run_finished: bool,
    completed_event_seen: bool,
    stream_error_emitted: bool,
}

/// Where a stream stands.
pub struct StreamView {
    /// The operation's end, once it is known.
    pub result: Option<Result<CompletedResponse, ResponseError>>,
    /// Whether the operation ended.
    pub run_finished: bool,
    /// Whether a completion event was yielded.
    pub completed_event_seen: bool,
    /// Whether the failure was yielded.
    pub stream_error_emitted: bool,
}

impl View for Response {
    type V = StreamView;

    closed spec fn view(&self) -> StreamView {
        StreamView {
            result: self.result,
            run_finished: self.run_finished,
            completed_event_seen: self.completed_event_seen,
            stream_error_emitted: self.stream_error_emitted,
        }
    }
}

impl StreamView {
    /// A stream on which nothing happened yet.
    pub open spec fn fresh() -> StreamView {
        StreamView {
            result: None,
            run_finished: false,
            completed_event_seen: false,
            stream_error_emitted: false,
        }
    }

    /// What a stream does when no event is ready.
    pub open spec fn step(self) -> (StreamView, StreamStep) {
        if !self.run_finished {
            (self, StreamStep::PollOperation)
        } else {
            match self.result {
                Some(Ok(completed)) => if self.completed_event_seen {
                    (self, StreamStep::End)
                } else {
                    (
                        StreamView { completed_event_seen: true, ..self },
                        StreamStep::Yield(
                            StreamItem::Event(
                                ResponseEvent::Completed {
                                    usage: completed@.usage,
                                    end_turn: completed@.end_turn,
                                },
                            ),
                        ),
                    )
                },
                Some(Err(error)) => if self.stream_error_emitted {
                    (self, StreamStep::End)
                } else {
                    (
                        StreamView { stream_error_emitted: true, ..self },
                        StreamStep::Yield(StreamItem::Failed(error)),
                    )
                },
                None => (self, StreamStep::End),
            }
        }
    }
}

impl Response {
    /// Starts a stream on which nothing happened yet.
    pub fn new() -> (r: Self)
        ensures
            r@ == StreamView::fresh(),
    {
        Response {
            result: None,
            run_finished: false,
            completed_event_seen: false,
            stream_error_emitted: false,
        }
    }

    /// Yields an event that is ready.
    pub fn take_event(&mut self, event: ResponseEvent) -> (r: StreamItem)
        ensures
            r == StreamItem::Event(event),
            final(self)@ == (StreamView {
                completed_event_seen: old(self)@.completed_event_seen || event is Completed,
                ..old(self)@
            }),
    {
        let completed = match &event {
            ResponseEvent::Completed { .. } => true,
            _ => false,
        };
        if completed {
            self.completed_event_seen = true;
        }
        StreamItem::Event(event)
    }

    /// Says what to do when no event is ready.
    pub fn poll_next(&mut self) -> (r: StreamStep)
        ensures
            (final(self)@, r) == old(self)@.step(),
    {
        if !self.run_finished {
            return StreamStep::PollOperation;
        }
        match &self.result {
            Some(Ok(completed)) => {
                if self.completed_event_seen {
                    return StreamStep::End;
                }
                let event = ResponseEvent::Completed {
                    usage: completed.usage(),
                    end_turn: completed.end_turn(),
                };
                self.completed_event_seen = true;
                StreamStep::Yield(StreamItem::Event(event))
            },
            Some(Err(error)) => {
                if self.stream_error_emitted {
                    return StreamStep::End;
                }
                let error = error.clone();
                self.stream_error_emitted = true;
                StreamStep::Yield(StreamItem::Failed(error))
            },
            None => StreamStep::End,
        }
    }

    /// Notes the operation's end.
    pub fn finish(&mut self, result: Result<CompletedResponse, ResponseError>)
        ensures
            final(self)@ == (StreamView {
                result: Some(result),
                run_finished: true,
                ..old(self)@
            }),
    {
        self.result = Some(result);
        self.run_finished = true;
    }

    /// Returns the operation's end, once the stream ended.
    pub fn into_result(self) -> (r: Result<CompletedResponse, ResponseError>)
        ensures
            match self@.result {
                Some(result) => r == result,
                None => r is Err && r->Err_0.breach(
                    "response stream ended without a terminal service result"@,
                ),
            },
    {
        match self.result {
            Some(result) => result,
            None => Err(
                ResponseError::protocol("response stream ended without a terminal service result"),
            ),
        }
    }
}

/// A stream yields its completion once and its failure once. After the end of
/// a successful operation a completion event is yielded unless one came before,
/// and after a failed one the failure; then the stream ends, and stays ended.
pub proof fn law_stream_ends_after_one_terminal_item(stream: StreamView)
    requires
        stream.run_finished,
        stream.result is Some,
    ensures
        match stream.result->0 {
            Ok(_) => stream.step().1 is Yield <==> !stream.completed_event_seen,
            Err(_) => stream.step().1 is Yield <==> !stream.stream_error_emitted,
        },
        stream.step().0.step().1 is End,
        stream.step().0.step().0 == stream.step().0,
{
}

/// The stream and the future share one operation: what the future returns is
/// the end that the stream reported, and streaming does not change it.
pub proof fn law_streaming_keeps_the_result(stream: StreamView)
    ensures
        stream.step().0.result == stream.result,
        stream.step().0.run_finished == stream.run_finished,
{
}

/// A chain of causes reports an exceeded context window exactly when one of its
/// links, however deep, is a service failure for that reason.
pub proof fn law_the_window_is_exceeded_anywhere_in_a_chain(
    before: Seq<ErrorLink>,
    link: ErrorLink,
    after: Seq<ErrorLink>,
)
    ensures
        chain_exceeds_window(before + seq![link] + after) <==> chain_exceeds_window(before)
            || chain_exceeds_window(after) || match link {
            ErrorLink::Service(service) => match service.error {
                Some(error) => error is ContextWindowExceeded,
                None => false,
            },
            _ => false,
        },
        !chain_exceeds_window(Seq::<ErrorLink>::empty()),
{
    let whole = before + seq![link] + after;
    let n: int = before.len() as int;
    assert(whole[n] == link);
    if chain_exceeds_window(before) {
        let i = choose|i: int| 0 <= i < before.len() && link_exceeds_window(#[trigger] before[i]);
        assert(whole[i] == before[i]);
    }
    if chain_exceeds_window(after) {
        let i = choose|i: int| 0 <= i < after.len() && link_exceeds_window(#[trigger] after[i]);
        assert(whole[n + 1 + i] == after[i]);
    }
    if chain_exceeds_window(whole) {
        let i = choose|i: int| 0 <= i < whole.len() && link_exceeds_window(#[trigger] whole[i]);
        if i < n {
            assert(link_exceeds_window(before[i]));
        } else if i > n {
            assert(link_exceeds_window(after[i - n - 1]));
        }
    }
}

/// A stream tells the end of its operation once: nothing before the operation
/// has ended; then the completion with the provider's usage and wish to end the
/// turn, unless it was seen already, or the failure; then nothing any more.
pub proof fn law_streams_tell_their_end_once(stream: StreamView)
    ensures
        ({
            let (after, step) = stream.step();
            &&& after.result == stream.result
            &&& after.run_finished == stream.run_finished
            &&& !stream.run_finished ==> step is PollOperation && after == stream
            &&& stream.run_finished ==> !(step is PollOperation) && after.step() == (
                after,
                StreamStep::End,
            )
            &&& stream.run_finished && stream.result is None ==> step is End && after == stream
            &&& stream.run_finished ==> match stream.result {
                Some(Ok(completed)) => {
                    &&& stream.completed_event_seen ==> step is End
                    &&& !stream.completed_event_seen ==> (step matches StreamStep::Yield(
                        StreamItem::Event(ResponseEvent::Completed { usage, end_turn }),
                    ) && usage == completed@.usage && end_turn == completed@.end_turn)
                    &&& after.completed_event_seen
                    &&& after.stream_error_emitted == stream.stream_error_emitted
                },
                Some(Err(error)) => {
                    &&& stream.stream_error_emitted ==> step is End
                    &&& !stream.stream_error_emitted ==> (step matches StreamStep::Yield(
                        StreamItem::Failed(told),
                    ) && told == error)
                    &&& after.stream_error_emitted
                    &&& after.completed_event_seen == stream.completed_event_seen
                },
                None => true,
            }
        }),
        StreamView::fresh().step().1 is PollOperation,
        StreamView::fresh().result is None,
        !StreamView::fresh().completed_event_seen,
        !StreamView::fresh().stream_error_emitted,
{
}

/// A failure is told in the words of its first cause; a breach of the
/// protocol names itself.
pub proof fn law_failures_speak_for_their_cause(error: ResponseError, detail: Seq<char>)
    ensures
        error@ matches ResponseErrorKind::Service(chain) ==> chain@.len() > 0 ==> error@.text()
            == chain@[0].text(),
        error@ matches ResponseErrorKind::Service(chain) ==> chain@.len() == 0
            ==> error@.text().len() == 0,
        error.breach(detail) <==> error@ is Protocol && error@->Protocol_0@ == detail,
        error.breach(detail) ==> error@.text() == "invalid Responses state: "@ + detail,
        error@ is ContextWindowExceeded ==> error@.text()
            == "Responses input exceeded the model context window"@,
{
}

} // verus!
