//! Tool calls of a run: a batch is prepared, its calls finish in any order, and
//! their outputs enter the conversation in the model's order.
use crate::code_mode::{NestedToolCall, TerminalToolSelection};
use crate::conversation;
use crate::conversation::ModelCheckpoint;
use crate::error::NanocodexError;
use crate::items::{append_items, clone_text, ResponseItem, ToolOutputBody};
use crate::run::calls;
use crate::run::events::{RunEvent, RunStats};
use crate::run::{ActiveToolCall, ModelRun, RunView};
use crate::tool_calls;
use crate::tool_calls::{
    aborted_text, answer, event_arguments, event_context, qualified_tool_name, shell_abort_format,
    CallIndex, CodeCall, CompletedToolCall, ToolCallArguments, ToolStatus,
};
use std::sync::Arc;
use vstd::prelude::*;
use vstd::string::*;

verus! {

/// What is known of a call when the turn is interrupted.
pub struct InterruptedCall {
    /// Time since the call was prepared.
    pub duration_ns: u64,
    /// Time since the tool was started, if it was.
    pub work_duration_ns: Option<u64>,
    /// Seconds since the call was prepared, with one decimal.
    pub seconds: String,
    /// The same, but no less than a tenth.
    pub at_least_a_tenth: String,
}

/// The event that reports the outcome of a call.
pub open spec fn result_event(completed: CompletedToolCall) -> RunEvent {
    RunEvent::ToolResult {
        call_id: completed.call_id,
        tool: completed.tool,
        status: ToolStatus::of(completed.success),
        duration_ns: completed.duration_ns,
        started_after_ns: None,
        result: completed.output,
        metadata: completed.metadata,
    }
}

/// Whether an unanswered call is what a call of the model was prepared as.
pub open spec fn awaits(active: ActiveToolCall, call: CodeCall) -> bool {
    &&& active.call_id == call.call_id
    &&& active.name@ == call.qualified()
    &&& active.kind == call.kind
    &&& active.shell_abort_format == call.aborts_like_shell()
    &&& active.nested_tool_calls == 0
    &&& active.completion is None
    &&& active.failure is None
}

/// Whether an event announces a call of the model.
pub open spec fn announces(event: RunEvent, call: CodeCall, call_index: u32) -> bool {
    event matches RunEvent::ToolCall { call_id, tool, arguments, model_call_index } && call_id
        == call.call_id && tool@ == call.qualified() && tool_calls::shows_arguments(
        call,
        arguments,
    ) && model_call_index == call_index
}

/// Whether a run is what preparing a batch of calls leaves: each call is
/// announced and awaited, in the model's order.
pub open spec fn batch_prepared(
    before: RunView,
    after: RunView,
    call_index: u32,
    calls: Seq<CodeCall>,
) -> bool {
    let n = before.active.len() as int;
    let m = before.events.len() as int;
    &&& after.indices == before.indices + Seq::new(
        calls.len(),
        |i: int| CallIndex { call_id: calls[i].call_id, index: call_index },
    )
    &&& after.active.len() == n + calls.len()
    &&& after.active.take(n) == before.active
    &&& forall|i: int|
        n <= i < after.active.len() ==> awaits(#[trigger] after.active[i], calls[i - n])
    &&& after.events.len() == m + calls.len()
    &&& after.events.take(m) == before.events
    &&& forall|i: int|
        m <= i < after.events.len() ==> announces(
            #[trigger] after.events[i],
            calls[i - m],
            call_index,
        )
    &&& after == (RunView {
        tool_batch_open: true,
        batch_failed: false,
        batch_terminal: TerminalToolSelection::Unselected,
        indices: after.indices,
        active: after.active,
        events: after.events,
        stats: RunStats {
            tool_calls: (before.stats.tool_calls + calls.len()) as u32,
            ..before.stats
        },
        ..before
    })
}

/// Whether an event reports that a call was interrupted.
pub open spec fn reports_interruption(
    event: RunEvent,
    call: ActiveToolCall,
    known: InterruptedCall,
) -> bool {
    event matches RunEvent::ToolResult {
        call_id,
        tool,
        status,
        duration_ns,
        started_after_ns,
        result,
        metadata,
    } && call_id == call.call_id && tool == call.name && status == ToolStatus::Cancelled
        && duration_ns == known.duration_ns && started_after_ns is None && states_interruption(
        result,
        call,
        known,
    ) && metadata is None
}

/// Whether an output tells the model that a call was interrupted.
pub open spec fn states_interruption(
    output: ToolOutputBody,
    call: ActiveToolCall,
    known: InterruptedCall,
) -> bool {
    output matches ToolOutputBody::Text(text) && text@ == tool_calls::abort_text(
        call.shell_abort_format,
        known.seconds@,
        known.at_least_a_tenth@,
    )
}

/// Whether an item answers a call that was interrupted.
pub open spec fn answers_interruption(
    item: ResponseItem,
    call: ActiveToolCall,
    known: InterruptedCall,
) -> bool {
    exists|output: ToolOutputBody|
        #[trigger] states_interruption(output, call, known) && tool_calls::answers(
            item,
            call.kind,
            call.call_id,
            output,
            Seq::empty(),
        )
}

/// Whether items and events are what an interruption owes to calls: finished
/// calls give their own items, and each unfinished one is answered and
/// reported, all in the model's order.
pub open spec fn interrupts(
    active: Seq<ActiveToolCall>,
    known: Seq<InterruptedCall>,
    items: Seq<Arc<ResponseItem>>,
    events: Seq<RunEvent>,
) -> bool
    decreases active.len(),
{
    if active.len() == 0 {
        items.len() == 0 && events.len() == 0
    } else {
        let call = active.last();
        match call.completion {
            Some(completed) => {
                let own = completed.response_items@;
                &&& items.len() >= own.len()
                &&& items.skip(items.len() - own.len()) == own
                &&& interrupts(
                    active.drop_last(),
                    known.drop_last(),
                    items.take(items.len() - own.len()),
                    events,
                )
            },
            None => {
                &&& items.len() > 0
                &&& events.len() > 0
                &&& answers_interruption(*items.last(), call, known.last())
                &&& reports_interruption(events.last(), call, known.last())
                &&& interrupts(
                    active.drop_last(),
                    known.drop_last(),
                    items.drop_last(),
                    events.drop_last(),
                )
            },
        }
    }
}

/// The time that interrupted calls worked: finished ones by their own account,
/// others since they were started.
pub open spec fn interrupted_work(
    active: Seq<ActiveToolCall>,
    known: Seq<InterruptedCall>,
) -> nat
    decreases active.len(),
{
    if active.len() == 0 {
        0
    } else {
        interrupted_work(active.drop_last(), known.drop_last()) + match active.last().completion {
            Some(completed) => completed.work_duration_ns as nat,
            None => match known.last().work_duration_ns {
                Some(work) => work as nat,
                None => 0,
            },
        }
    }
}

/// The calls that running code made, added up.
pub open spec fn nested_calls(active: Seq<ActiveToolCall>) -> nat
    decreases active.len(),
{
    if active.len() == 0 {
        0
    } else {
        nested_calls(active.drop_last()) + active.last().nested_tool_calls as nat
    }
}

/// The number of items that interrupted calls give, added up.
pub open spec fn interrupted_items(active: Seq<ActiveToolCall>) -> nat
    decreases active.len(),
{
    if active.len() == 0 {
        0
    } else {
        interrupted_items(active.drop_last()) + match active.last().completion {
            Some(completed) => completed.response_items@.len(),
            None => 1,
        }
    }
}

impl RunView {
    /// The run after the outcome of a call was recorded.
    pub open spec fn recorded(self, position: int, completed: CompletedToolCall) -> RunView {
        RunView {
            active: self.active.update(
                position,
                ActiveToolCall { completion: Some(completed), ..self.active[position] },
            ),
            ..self
        }.emitting(result_event(completed))
    }

    /// The run after the first of its calls was answered.
    pub open spec fn settled(self) -> RunView {
        let call = self.active[0];
        let completed = call.completion->0;
        RunView {
            active: self.active.skip(1),
            batch_failed: self.batch_failed || !completed.success,
            batch_terminal: self.batch_terminal.joined(completed.terminal),
            ..self
        }.with_conversation(
            self.conversation().with_items(completed.response_items@),
        ).with_stats(
            RunStats {
                tool_work_duration_ns: (self.stats.tool_work_duration_ns
                    + completed.work_duration_ns) as u64,
                tool_calls: (self.stats.tool_calls + call.nested_tool_calls) as u32,
                ..self.stats
            },
        )
    }

    /// The run after a call failed to give an outcome.
    pub open spec fn call_failed(self, position: int, error: NanocodexError) -> RunView {
        RunView {
            active: self.active.update(
                position,
                ActiveToolCall { failure: Some(error), ..self.active[position] },
            ),
            ..self
        }
    }

    /// The run after a call ended, with an outcome or without one.
    pub open spec fn call_ended(
        self,
        position: int,
        result: Result<CompletedToolCall, NanocodexError>,
        work_duration_ns: u64,
    ) -> RunView {
        match result {
            Ok(completed) => self.recorded(
                position,
                CompletedToolCall { work_duration_ns, ..completed },
            ),
            Err(error) => self.call_failed(position, error),
        }
    }

    /// The run after the failure of its first call was handed out.
    pub open spec fn first_failure_taken(self) -> RunView {
        RunView {
            active: self.active.update(0, ActiveToolCall { failure: None, ..self.active[0] }),
            ..self
        }
    }

    /// Whether the first of the unanswered calls has its outcome.
    pub open spec fn first_finished(self) -> bool {
        self.active.len() > 0 && self.active[0].completion is Some
    }

    /// Whether the outcome of the first call can be accounted for.
    pub open spec fn settling_fits(self) -> bool {
        let call = self.active[0];
        let completed = call.completion->0;
        &&& self.stats.tool_work_duration_ns + completed.work_duration_ns <= u64::MAX
        &&& self.stats.tool_calls + call.nested_tool_calls <= u32::MAX
        &&& self.conversation().history.len() + completed.response_items@.len() <= usize::MAX
    }

    /// The run after every finished call at the front was answered.
    pub open spec fn answered_in_order(self) -> RunView
        decreases self.active.len(),
    {
        if self.first_finished() {
            self.settled().answered_in_order()
        } else {
            self
        }
    }

    /// Whether answering the finished calls at the front can be accounted for.
    pub open spec fn answering_fits(self) -> bool
        decreases self.active.len(),
    {
        self.first_finished() ==> self.settling_fits() && self.settled().answering_fits()
    }

    /// Which call of a batch that was answered ends the turn. A call that failed
    /// leaves the decision to the model.
    pub open spec fn batch_selection(self) -> TerminalToolSelection {
        if self.batch_failed {
            TerminalToolSelection::Unselected
        } else {
            self.batch_terminal
        }
    }

    /// The run after it was taken out which call of a batch ends the turn.
    pub open spec fn selection_taken(self) -> RunView {
        RunView { batch_terminal: TerminalToolSelection::Unselected, ..self }
    }

    /// The run after the time of a batch was taken.
    pub open spec fn batch_closed(self, wall_ns: u64) -> RunView {
        if self.tool_batch_open {
            RunView { tool_batch_open: false, ..self }.with_stats(
                RunStats {
                    tool_wall_duration_ns: (self.stats.tool_wall_duration_ns + wall_ns) as u64,
                    ..self.stats
                },
            )
        } else {
            self
        }
    }

    /// Whether the time of a batch can be added.
    pub open spec fn batch_fits(self, wall_ns: u64) -> bool {
        self.tool_batch_open ==> self.stats.tool_wall_duration_ns + wall_ns <= u64::MAX
    }

    /// The run after its calls were interrupted, before the conversation
    /// learns of it.
    pub open spec fn calls_interrupted(
        self,
        known: Seq<InterruptedCall>,
        events: Seq<RunEvent>,
    ) -> RunView {
        RunView { active: Seq::empty(), events: self.events + events, ..self }.with_stats(
            RunStats {
                tool_work_duration_ns: (self.stats.tool_work_duration_ns + interrupted_work(
                    self.active,
                    known,
                )) as u64,
                tool_calls: (self.stats.tool_calls + nested_calls(self.active)) as u32,
                ..self.stats
            },
        )
    }

    /// Whether an interruption of the run's calls can be accounted for.
    pub open spec fn interruption_fits(self, known: Seq<InterruptedCall>, wall_ns: u64) -> bool {
        &&& known.len() == self.active.len()
        &&& self.stats.tool_work_duration_ns + interrupted_work(self.active, known) <= u64::MAX
        &&& self.stats.tool_calls + nested_calls(self.active) <= u32::MAX
        &&& self.batch_fits(wall_ns)
        &&& interrupted_items(self.active) < usize::MAX
        &&& self.session is Some ==> self.conversation().history.len() + interrupted_items(
            self.active,
        ) + 1 <= usize::MAX
    }

    /// The run after an interrupted turn was committed: the conversation holds
    /// the answers and the notice, and gives up its continuation.
    pub open spec fn interrupted(
        self,
        known: Seq<InterruptedCall>,
        wall_ns: u64,
        items: Seq<Arc<ResponseItem>>,
        events: Seq<RunEvent>,
        notice: Arc<ResponseItem>,
    ) -> RunView {
        let closed = self.calls_interrupted(known, events).batch_closed(wall_ns);
        closed.with_conversation(
            closed.conversation().with_items(items).with_items(seq![notice]).replayed(),
        )
    }
}

/// Answering finished calls leaves the phase, the conversation's existence, and
/// the account of the batch's time alone.
pub proof fn lemma_answering_keeps_the_batch(run: RunView)
    requires
        run.session is Some,
    ensures
        run.answered_in_order().session is Some,
        run.answered_in_order().phase == run.phase,
        run.answered_in_order().tool_batch_open == run.tool_batch_open,
        run.answered_in_order().stats.tool_wall_duration_ns == run.stats.tool_wall_duration_ns,
    decreases run.active.len(),
{
    if run.first_finished() {
        lemma_answering_keeps_the_batch(run.settled());
    }
}

/// Partial sums never exceed the whole.
proof fn lemma_interrupted_prefix(
    active: Seq<ActiveToolCall>,
    known: Seq<InterruptedCall>,
    upto: int,
)
    requires
        0 <= upto <= active.len(),
        known.len() == active.len(),
    ensures
        interrupted_work(active.take(upto), known.take(upto)) <= interrupted_work(active, known),
        nested_calls(active.take(upto)) <= nested_calls(active),
        interrupted_items(active.take(upto)) <= interrupted_items(active),
    decreases active.len(),
{
    if upto == active.len() {
        assert(active.take(upto) =~= active);
        assert(known.take(upto) =~= known);
    } else {
        lemma_interrupted_prefix(active.drop_last(), known.drop_last(), upto);
        assert(active.drop_last().take(upto) =~= active.take(upto));
        assert(known.drop_last().take(upto) =~= known.take(upto));
    }
}

impl ModelRun {
    /// Returns the number of calls that were not answered yet.
    pub fn unanswered(&self) -> (r: usize)
        ensures
            r == self@.active.len(),
    {
        self.active_tool_calls.len()
    }

    /// Returns the calls that were not answered yet.
    pub fn active_tool_calls(&self) -> (r: &Vec<ActiveToolCall>)
        ensures
            r@ == self@.active,
    {
        &self.active_tool_calls
    }

    /// Starts a batch of tool calls, and to take its time.
    pub fn begin_tool_batch(&mut self)
        ensures
            final(self)@ == (RunView {
                tool_batch_open: true,
                batch_failed: false,
                batch_terminal: TerminalToolSelection::Unselected,
                ..old(self)@
            }),
    {
        self.tool_batch_open = true;
        self.batch_failed = false;
        self.batch_terminal = TerminalToolSelection::Unselected;
    }

    /// Prepares and reports a tool call of the model.
    pub fn prepare_model_tool_call(&mut self, call_index: u32, call: &CodeCall)
        requires
            old(self)@.stats.tool_calls < u32::MAX,
        ensures
            final(self)@.indices == old(self)@.indices.push(
                CallIndex { call_id: call.call_id, index: call_index },
            ),
            final(self)@.active.len() == old(self)@.active.len() + 1,
            final(self)@.active.drop_last() == old(self)@.active,
            awaits(final(self)@.active.last(), *call),
            final(self)@.events.len() == old(self)@.events.len() + 1,
            final(self)@.events.drop_last() == old(self)@.events,
            announces(final(self)@.events.last(), *call, call_index),
            final(self)@ == (RunView {
                indices: final(self)@.indices,
                active: final(self)@.active,
                events: final(self)@.events,
                stats: RunStats {
                    tool_calls: (old(self)@.stats.tool_calls + 1) as u32,
                    ..old(self)@.stats
                },
                ..old(self)@
            }),
    {
        self.tool_call_indices.push(CallIndex { call_id: call.call_id.clone(), index: call_index });
        let name = qualified_tool_name(call);
        self.events.push(
            RunEvent::ToolCall {
                call_id: call.call_id.clone(),
                tool: name.clone(),
                arguments: event_arguments(call),
                model_call_index: call_index,
            },
        );
        self.stats.tool_calls = self.stats.tool_calls + 1;
        self.active_tool_calls.push(
            ActiveToolCall {
                call_id: call.call_id.clone(),
                name,
                kind: call.kind,
                shell_abort_format: shell_abort_format(call),
                nested_tool_calls: 0,
                completion: None,
                failure: None,
            },
        );
        proof {
            assert(self@.active.drop_last() =~= old(self)@.active);
            assert(self@.events.drop_last() =~= old(self)@.events);
        }
    }

    /// Prepares and reports the tool calls of one response, and starts to take
    /// their time.
    pub fn prepare_tool_batch(&mut self, call_index: u32, calls: &Vec<CodeCall>)
        requires
            old(self)@.stats.tool_calls + calls@.len() <= u32::MAX,
        ensures
            batch_prepared(old(self)@, final(self)@, call_index, calls@),
    {
        let ghost before = self@;
        self.begin_tool_batch();
        proof {
            assert(self@.active.take(before.active.len() as int) =~= before.active);
            assert(self@.events.take(before.events.len() as int) =~= before.events);
            assert(self@.indices =~= before.indices + Seq::new(
                0,
                |j: int| CallIndex { call_id: calls@.take(0)[j].call_id, index: call_index },
            ));
        }
        let mut i: usize = 0;
        while i < calls.len()
            invariant
                i <= calls@.len(),
                before.stats.tool_calls + calls@.len() <= u32::MAX,
                batch_prepared(before, self@, call_index, calls@.take(i as int)),
            decreases calls@.len() - i,
        {
            let ghost middle = self@;
            self.prepare_model_tool_call(call_index, &calls[i]);
            proof {
                let n = before.active.len() as int;
                let m = before.events.len() as int;
                let upto = calls@.take(i as int + 1);
                assert(upto.drop_last() =~= calls@.take(i as int));
                assert(self@.active.take(n) =~= middle.active.take(n));
                assert(self@.events.take(m) =~= middle.events.take(m));
                assert(self@.indices =~= before.indices + Seq::new(
                    upto.len(),
                    |j: int| CallIndex { call_id: upto[j].call_id, index: call_index },
                ));
                assert forall|j: int| n <= j < self@.active.len() implies awaits(
                    #[trigger] self@.active[j],
                    upto[j - n],
                ) by {
                    if j < middle.active.len() {
                        assert(self@.active.drop_last()[j] == middle.active[j]);
                        assert(upto[j - n] == calls@.take(i as int)[j - n]);
                    }
                }
                assert forall|j: int| m <= j < self@.events.len() implies announces(
                    #[trigger] self@.events[j],
                    upto[j - m],
                    call_index,
                ) by {
                    if j < middle.events.len() {
                        assert(self@.events.drop_last()[j] == middle.events[j]);
                        assert(upto[j - m] == calls@.take(i as int)[j - m]);
                    }
                }
            }
            i = i + 1;
        }
        proof {
            assert(calls@.take(i as int) =~= calls@);
        }
    }

    /// Reports a tool call that the code of an unanswered call made.
    pub fn nested_call_started(
        &mut self,
        position: usize,
        nested_call_id: &str,
        tool: String,
        arguments: ToolCallArguments,
        fallback_call_index: u32,
    )
        requires
            position < old(self)@.active.len(),
            old(self)@.active[position as int].nested_tool_calls < u32::MAX,
        ensures
            ({
                let running = old(self)@.active[position as int];
                &&& final(self)@.events.len() == old(self)@.events.len() + 1
                &&& final(self)@ == (RunView {
                    active: old(self)@.active.update(
                        position as int,
                        ActiveToolCall {
                            nested_tool_calls: (running.nested_tool_calls + 1) as u32,
                            ..running
                        },
                    ),
                    ..old(self)@
                }).emitting(final(self)@.events.last())
                &&& final(self)@.events.last() matches RunEvent::ToolCall {
                    call_id,
                    tool: name,
                    arguments: shown,
                    model_call_index,
                } && call_id@ == tool_calls::nested_call_id(nested_call_id@, running.call_id@)
                    && name == tool && shown == arguments && model_call_index
                    == tool_calls::nested_call_index(
                    nested_call_id@,
                    running.call_id@,
                    old(self)@.indices,
                    fallback_call_index,
                )
            }),
    {
        let context = event_context(
            nested_call_id,
            self.active_tool_calls[position].call_id.as_str(),
            &self.tool_call_indices,
            fallback_call_index,
        );
        self.events.push(
            RunEvent::ToolCall {
                call_id: context.call_id,
                tool,
                arguments,
                model_call_index: context.call_index,
            },
        );
        let count: u32 = self.active_tool_calls[position].nested_tool_calls + 1;
        self.active_tool_calls[position].nested_tool_calls = count;
    }

    /// Reports the end of a tool call that the code of an unanswered call made.
    pub fn nested_call_completed(&mut self, position: usize, nested: NestedToolCall)
        requires
            position < old(self)@.active.len(),
        ensures
            ({
                let running = old(self)@.active[position as int];
                &&& final(self)@.events.len() == old(self)@.events.len() + 1
                &&& final(self)@ == old(self)@.emitting(final(self)@.events.last())
                &&& final(self)@.events.last() matches RunEvent::ToolResult {
                    call_id,
                    tool,
                    status,
                    duration_ns,
                    started_after_ns,
                    result,
                    metadata,
                } && call_id@ == tool_calls::nested_call_id(nested.call_id@, running.call_id@)
                    && tool == nested.name && status == ToolStatus::of(nested.success)
                    && duration_ns == nested.duration_ns && started_after_ns == Some(
                    nested.started_after_ns,
                ) && result == nested.output && metadata == nested.metadata
            }),
    {
        let context = event_context(
            nested.call_id.as_str(),
            self.active_tool_calls[position].call_id.as_str(),
            &self.tool_call_indices,
            0,
        );
        self.events.push(
            RunEvent::ToolResult {
                call_id: context.call_id,
                tool: nested.name,
                status: ToolStatus::of_success(nested.success),
                duration_ns: nested.duration_ns,
                started_after_ns: Some(nested.started_after_ns),
                result: nested.output,
                metadata: nested.metadata,
            },
        );
    }

    /// Makes the outcome of a call whose tool panicked.
    pub fn panicked_tool_call(&self, position: usize, duration_ns: u64) -> (r: CompletedToolCall)
        requires
            position < self@.active.len(),
        ensures
            ({
                let call = self@.active[position as int];
                &&& r.call_id == call.call_id
                &&& r.tool == call.name
                &&& !r.success
                &&& r.duration_ns == duration_ns
                &&& r.work_duration_ns == 0
                &&& (r.output matches ToolOutputBody::Text(text) && text@ == "aborted"@)
                &&& r.metadata is None
                &&& r.terminal is Unselected
                &&& r.response_items@.len() == 1
                &&& tool_calls::answers(
                    *r.response_items@[0],
                    call.kind,
                    call.call_id,
                    r.output,
                    Seq::empty(),
                )
            }),
    {
        let call = &self.active_tool_calls[position];
        let output = ToolOutputBody::Text("aborted".to_owned());
        let mut response_items: Vec<Arc<ResponseItem>> = Vec::new();
        response_items.push(answer(call.kind, call.call_id.clone(), output.clone(), Vec::new()));
        CompletedToolCall {
            call_id: call.call_id.clone(),
            tool: call.name.clone(),
            success: false,
            duration_ns,
            work_duration_ns: 0,
            output,
            metadata: None,
            response_items,
            terminal: TerminalToolSelection::Unselected,
        }
    }

    /// Records and reports the outcome of an unanswered call. `work_duration_ns`
    /// is the time since its tool was started.
    pub fn record_completion(
        &mut self,
        position: usize,
        completed: CompletedToolCall,
        work_duration_ns: u64,
    )
        requires
            position < old(self)@.active.len(),
        ensures
            final(self)@ == old(self)@.recorded(
                position as int,
                CompletedToolCall { work_duration_ns, ..completed },
            ),
    {
        self.events.push(
            RunEvent::ToolResult {
                call_id: completed.call_id.clone(),
                tool: completed.tool.clone(),
                status: ToolStatus::of_success(completed.success),
                duration_ns: completed.duration_ns,
                started_after_ns: None,
                result: completed.output.clone(),
                metadata: clone_text(&completed.metadata),
            },
        );
        let timed = CompletedToolCall { work_duration_ns, ..completed };
        self.active_tool_calls[position].completion = Some(timed);
    }

    /// Takes the outcome of the first unanswered call into the conversation.
    pub fn settle_next_tool_call(&mut self) -> (r: Option<NanocodexError>)
        requires
            old(self)@.session is Some,
            old(self)@.first_finished() ==> old(self)@.settling_fits(),
        ensures
            if old(self)@.active.len() == 0 {
                &&& r is Some
                &&& calls::misplaced(r->0, "completed tool call was not active"@)
                &&& final(self)@ == old(self)@
            } else if old(self)@.active[0].completion is None {
                &&& r is Some
                &&& calls::misplaced(r->0, "completed tool call did not retain its output"@)
                &&& final(self)@ == old(self)@
            } else {
                &&& r is None
                &&& final(self)@ == old(self)@.settled()
            },
    {
        if self.active_tool_calls.len() == 0 {
            return Some(
                NanocodexError::InvalidAttemptState {
                    detail: "completed tool call was not active",
                },
            );
        }
        if self.active_tool_calls[0].completion.is_none() {
            return Some(
                NanocodexError::InvalidAttemptState {
                    detail: "completed tool call did not retain its output",
                },
            );
        }
        let call = self.active_tool_calls.remove(0);
        proof {
            assert(self.active_tool_calls@ =~= old(self)@.active.skip(1));
        }
        let completed = call.completion.unwrap();
        self.stats.tool_work_duration_ns =
        self.stats.tool_work_duration_ns + completed.work_duration_ns;
        self.stats.tool_calls = self.stats.tool_calls + call.nested_tool_calls;
        if !completed.success {
            self.batch_failed = true;
        }
        let mut before = TerminalToolSelection::Unselected;
        std::mem::swap(&mut before, &mut self.batch_terminal);
        self.batch_terminal = before.join(completed.terminal);
        let mut session = self.session.take().unwrap();
        session.conversation.append(&completed.response_items);
        self.session = Some(session);
        None
    }

    /// Notes that an unanswered call failed to give an outcome. The turn gives
    /// up once the calls before it were answered.
    pub fn fail_tool_call(&mut self, position: usize, error: NanocodexError)
        requires
            position < old(self)@.active.len(),
        ensures
            final(self)@ == old(self)@.call_failed(position as int, error),
    {
        self.active_tool_calls[position].failure = Some(error);
    }

    /// Takes the outcomes of the finished calls at the front into the
    /// conversation, and returns how many there were.
    pub fn answer_finished_calls(&mut self) -> (r: usize)
        requires
            old(self)@.session is Some,
            old(self)@.answering_fits(),
        ensures
            final(self)@ == old(self)@.answered_in_order(),
            r == old(self)@.active.len() - final(self)@.active.len(),
    {
        let waiting: usize = self.active_tool_calls.len();
        while self.active_tool_calls.len() > 0 && self.active_tool_calls[0].completion.is_some()
            invariant
                self@.session is Some,
                self@.answering_fits(),
                self@.answered_in_order() == old(self)@.answered_in_order(),
                self@.active.len() <= waiting,
                waiting == old(self)@.active.len(),
            decreases self@.active.len(),
        {
            let _ = self.settle_next_tool_call();
        }
        waiting - self.active_tool_calls.len()
    }

    /// Hands out what kept the first of the unanswered calls from an outcome,
    /// if anything did.
    pub fn take_first_failure(&mut self) -> (r: Option<NanocodexError>)
        ensures
            if old(self)@.active.len() > 0 && old(self)@.active[0].failure is Some {
                &&& r == old(self)@.active[0].failure
                &&& final(self)@ == old(self)@.first_failure_taken()
            } else {
                &&& r is None
                &&& final(self)@ == old(self)@
            },
    {
        if self.active_tool_calls.len() == 0 || self.active_tool_calls[0].failure.is_none() {
            return None;
        }
        let mut call = self.active_tool_calls.remove(0);
        let failure = call.failure.take();
        self.active_tool_calls.insert(0, call);
        proof {
            assert(self@.active =~= old(self)@.first_failure_taken().active);
        }
        failure
    }

    /// Returns which call of a batch that was answered ends the turn. A call
    /// that failed leaves the decision to the model.
    pub fn take_batch_selection(&mut self) -> (r: TerminalToolSelection)
        ensures
            r == old(self)@.batch_selection(),
            final(self)@ == old(self)@.selection_taken(),
    {
        let mut selection = TerminalToolSelection::Unselected;
        std::mem::swap(&mut selection, &mut self.batch_terminal);
        if self.batch_failed {
            TerminalToolSelection::Unselected
        } else {
            selection
        }
    }

    /// Takes the time of a batch of tool calls, if one is open.
    pub fn finish_active_tool_batch_wall(&mut self, wall_ns: u64)
        requires
            old(self)@.batch_fits(wall_ns),
        ensures
            final(self)@ == old(self)@.batch_closed(wall_ns),
    {
        if self.tool_batch_open {
            self.tool_batch_open = false;
            self.stats.tool_wall_duration_ns = self.stats.tool_wall_duration_ns + wall_ns;
        }
    }

    /// Takes every unanswered call out of the run, and returns the items that
    /// the conversation owes to them.
    fn interrupt_calls(&mut self, known: &Vec<InterruptedCall>) -> (r: Vec<Arc<ResponseItem>>)
        requires
            known@.len() == old(self)@.active.len(),
            old(self)@.stats.tool_work_duration_ns + interrupted_work(
                old(self)@.active,
                known@,
            ) <= u64::MAX,
            old(self)@.stats.tool_calls + nested_calls(old(self)@.active) <= u32::MAX,
            interrupted_items(old(self)@.active) <= usize::MAX,
        ensures
            r@.len() == interrupted_items(old(self)@.active),
            final(self)@.events.len() >= old(self)@.events.len(),
            ({
                let events = final(self)@.events.skip(old(self)@.events.len() as int);
                &&& interrupts(old(self)@.active, known@, r@, events)
                &&& final(self)@ == old(self)@.calls_interrupted(known@, events)
            }),
    {
        let mut calls: Vec<ActiveToolCall> = Vec::new();
        std::mem::swap(&mut calls, &mut self.active_tool_calls);
        let mut items: Vec<Arc<ResponseItem>> = Vec::new();
        let mut reports: Vec<RunEvent> = Vec::new();
        let mut work: u64 = self.stats.tool_work_duration_ns;
        let mut count: u32 = self.stats.tool_calls;
        let mut i: usize = 0;
        while i < calls.len()
            invariant
                i <= calls@.len(),
                known@.len() == calls@.len(),
                work == old(self)@.stats.tool_work_duration_ns + interrupted_work(
                    calls@.take(i as int),
                    known@.take(i as int),
                ),
                count == old(self)@.stats.tool_calls + nested_calls(calls@.take(i as int)),
                items@.len() == interrupted_items(calls@.take(i as int)),
                old(self)@.stats.tool_work_duration_ns + interrupted_work(calls@, known@)
                    <= u64::MAX,
                old(self)@.stats.tool_calls + nested_calls(calls@) <= u32::MAX,
                interrupted_items(calls@) <= usize::MAX,
                interrupts(calls@.take(i as int), known@.take(i as int), items@, reports@),
            decreases calls@.len() - i,
        {
            let ghost upto = calls@.take(i as int + 1);
            let ghost known_upto = known@.take(i as int + 1);
            let ghost items_before = items@;
            let ghost reports_before = reports@;
            proof {
                assert(upto.drop_last() =~= calls@.take(i as int));
                assert(known_upto.drop_last() =~= known@.take(i as int));
                assert(upto.last() == calls@[i as int]);
                assert(known_upto.last() == known@[i as int]);
                lemma_interrupted_prefix(calls@, known@, i as int + 1);
            }
            count = count + calls[i].nested_tool_calls;
            match &calls[i].completion {
                Some(completed) => {
                    work = work + completed.work_duration_ns;
                    append_items(&mut items, &completed.response_items);
                    proof {
                        let own = completed.response_items@;
                        assert(items@.skip(items@.len() - own.len()) =~= own);
                        assert(items@.take(items@.len() - own.len()) =~= items_before);
                    }
                },
                None => {
                    if let Some(spent) = known[i].work_duration_ns {
                        work = work + spent;
                    }
                    let output = ToolOutputBody::Text(
                        aborted_text(
                            calls[i].shell_abort_format,
                            known[i].seconds.as_str(),
                            known[i].at_least_a_tenth.as_str(),
                        ),
                    );
                    reports.push(
                        RunEvent::ToolResult {
                            call_id: calls[i].call_id.clone(),
                            tool: calls[i].name.clone(),
                            status: ToolStatus::Cancelled,
                            duration_ns: known[i].duration_ns,
                            started_after_ns: None,
                            result: output.clone(),
                            metadata: None,
                        },
                    );
                    let item = answer(
                        calls[i].kind,
                        calls[i].call_id.clone(),
                        output.clone(),
                        Vec::new(),
                    );
                    items.push(item);
                    proof {
                        assert(states_interruption(output, calls@[i as int], known@[i as int]));
                        assert(items@.drop_last() =~= items_before);
                        assert(reports@.drop_last() =~= reports_before);
                    }
                },
            }
            i = i + 1;
        }
        proof {
            assert(calls@.take(i as int) =~= calls@);
            assert(known@.take(i as int) =~= known@);
        }
        let ghost all_reports = reports@;
        self.stats.tool_work_duration_ns = work;
        self.stats.tool_calls = count;
        self.events.append(&mut reports);
        proof {
            assert(self@.events.skip(old(self)@.events.len() as int) =~= all_reports);
        }
        items
    }

    /// Commits an interrupted turn: every call is answered, the notice of the
    /// interruption follows, and the conversation gives up its continuation.
    /// `known` holds what is known of each unanswered call.
    pub fn commit_interrupted_checkpoint(
        &mut self,
        known: &Vec<InterruptedCall>,
        wall_ns: u64,
        notice: Arc<ResponseItem>,
    ) -> (r: Result<ModelCheckpoint, NanocodexError>)
        requires
            old(self)@.interruption_fits(known@, wall_ns),
        ensures
            final(self)@.events.len() >= old(self)@.events.len(),
            ({
                let events = final(self)@.events.skip(old(self)@.events.len() as int);
                match r {
                    Ok(checkpoint) => {
                        &&& old(self)@.session is Some
                        &&& exists|items: Seq<Arc<ResponseItem>>|
                            #[trigger] interrupts(old(self)@.active, known@, items, events)
                                && final(self)@ == old(self)@.interrupted(
                                known@,
                                wall_ns,
                                items,
                                events,
                                notice,
                            )
                        &&& checkpoint@ == final(self)@.session->0.checkpoint(
                            false,
                            final(self)@.global_instructions,
                        )
                    },
                    Err(error) => {
                        &&& old(self)@.session is None
                        &&& calls::misplaced(
                            error,
                            "interrupted turn did not have a model session"@,
                        )
                        &&& exists|items: Seq<Arc<ResponseItem>>|
                            #[trigger] interrupts(old(self)@.active, known@, items, events)
                        &&& final(self)@ == old(self)@.calls_interrupted(
                            known@,
                            events,
                        ).batch_closed(wall_ns)
                    },
                }
            }),
    {
        let items = self.interrupt_calls(known);
        self.finish_active_tool_batch_wall(wall_ns);
        match self.session.take() {
            None => Err(
                NanocodexError::InvalidAttemptState {
                    detail: "interrupted turn did not have a model session",
                },
            ),
            Some(session) => {
                let mut session = session;
                session.conversation.append(&items);
                session.conversation.append_one(notice);
                session.conversation.commit_interrupted();
                let checkpoint = session.checkpoint(false, &self.global_instructions);
                self.session = Some(session);
                Ok(checkpoint)
            },
        }
    }
}

/// The order in which two calls finish does not reach the conversation: the
/// unanswered calls are the same either way, and they are answered from the
/// first one on.
pub proof fn law_completion_order_does_not_matter(
    run: RunView,
    first: int,
    one: CompletedToolCall,
    second: int,
    other: CompletedToolCall,
)
    requires
        0 <= first < run.active.len(),
        0 <= second < run.active.len(),
        first != second,
    ensures
        run.recorded(first, one).recorded(second, other).active == run.recorded(
            second,
            other,
        ).recorded(first, one).active,
        run.recorded(first, one).recorded(second, other).session == run.session,
        run.recorded(first, one).recorded(second, other).settled().active == run.recorded(
            second,
            other,
        ).recorded(first, one).settled().active,
{
    assert(run.recorded(first, one).recorded(second, other).active =~= run.recorded(
        second,
        other,
    ).recorded(first, one).active);
}

/// An interruption answers every call exactly once: the items are as many as
/// the calls owe, and each unfinished call has an answer among them.
pub proof fn law_interruption_answers_every_call(
    active: Seq<ActiveToolCall>,
    known: Seq<InterruptedCall>,
    items: Seq<Arc<ResponseItem>>,
    events: Seq<RunEvent>,
    position: int,
)
    requires
        known.len() == active.len(),
        interrupts(active, known, items, events),
        0 <= position < active.len(),
    ensures
        items.len() == interrupted_items(active),
        match active[position].completion {
            None => exists|k: int|
                0 <= k < items.len() && answers_interruption(
                    *(#[trigger] items[k]),
                    active[position],
                    known[position],
                ),
            Some(completed) => exists|k: int|
                0 <= k && k + completed.response_items@.len() <= items.len()
                    && #[trigger] items.subrange(k, k + completed.response_items@.len())
                    == completed.response_items@,
        },
    decreases active.len(),
{
    let shorter = active.drop_last();
    let known_shorter = known.drop_last();
    let last = active.last();
    let rest = match last.completion {
        Some(completed) => items.take(items.len() - completed.response_items@.len()),
        None => items.drop_last(),
    };
    let rest_events = match last.completion {
        Some(_) => events,
        None => events.drop_last(),
    };
    lemma_interruption_count(shorter, known_shorter, rest, rest_events);
    if position < active.len() - 1 {
        law_interruption_answers_every_call(shorter, known_shorter, rest, rest_events, position);
        match active[position].completion {
            None => {
                let k = choose|k: int|
                    0 <= k < rest.len() && answers_interruption(
                        *(#[trigger] rest[k]),
                        active[position],
                        known[position],
                    );
                assert(items[k] == rest[k]);
            },
            Some(completed) => {
                let own = completed.response_items@;
                let k = choose|k: int|
                    0 <= k && k + own.len() <= rest.len() && #[trigger] rest.subrange(
                        k,
                        k + own.len(),
                    ) == own;
                assert(items.subrange(k, k + own.len()) =~= rest.subrange(k, k + own.len()));
            },
        }
    } else {
        match last.completion {
            None => {
                assert(items[items.len() - 1] == items.last());
            },
            Some(completed) => {
                let own = completed.response_items@;
                let k = items.len() - own.len();
                assert(items.subrange(k, k + own.len()) =~= items.skip(k));
            },
        }
    }
}

/// An interruption gives as many items as its calls owe.
proof fn lemma_interruption_count(
    active: Seq<ActiveToolCall>,
    known: Seq<InterruptedCall>,
    items: Seq<Arc<ResponseItem>>,
    events: Seq<RunEvent>,
)
    requires
        interrupts(active, known, items, events),
    ensures
        items.len() == interrupted_items(active),
    decreases active.len(),
{
    if active.len() > 0 {
        match active.last().completion {
            Some(completed) => lemma_interruption_count(
                active.drop_last(),
                known.drop_last(),
                items.take(items.len() - completed.response_items@.len()),
                events,
            ),
            None => lemma_interruption_count(
                active.drop_last(),
                known.drop_last(),
                items.drop_last(),
                events.drop_last(),
            ),
        }
    }
}

/// The items of finished calls, in the model's order.
pub open spec fn outputs_of(active: Seq<ActiveToolCall>) -> Seq<Arc<ResponseItem>>
    decreases active.len(),
{
    if active.len() == 0 {
        Seq::empty()
    } else {
        active[0].completion->0.response_items@ + outputs_of(active.skip(1))
    }
}

/// Once every call of a batch has its outcome, all of them are answered, and
/// the conversation holds their outputs in the model's order.
pub proof fn law_finished_batch_is_answered_in_order(run: RunView)
    requires
        run.session is Some,
        forall|i: int| 0 <= i < run.active.len() ==> (#[trigger] run.active[i]).completion is Some,
    ensures
        run.answered_in_order().active.len() == 0,
        run.answered_in_order().session is Some,
        run.answered_in_order().conversation() == run.conversation().with_items(
            outputs_of(run.active),
        ),
    decreases run.active.len(),
{
    if run.active.len() > 0 {
        assert(run.first_finished());
        assert forall|i: int| 0 <= i < run.settled().active.len() implies (
        #[trigger] run.settled().active[i]).completion is Some by {
            assert(run.settled().active[i] == run.active[i + 1]);
        }
        law_finished_batch_is_answered_in_order(run.settled());
        assert(run.settled().active == run.active.skip(1));
        conversation::law_batches_join(
            run.conversation(),
            run.active[0].completion->0.response_items@,
            outputs_of(run.active.skip(1)),
        );
    } else {
        assert(run.conversation().with_items(outputs_of(run.active)) =~= run.conversation());
    }
}

/// No call is answered before those that the model made before it: while the
/// first one runs, the conversation stays as it is.
pub proof fn law_later_outcomes_wait_for_the_first(
    run: RunView,
    position: int,
    completed: CompletedToolCall,
)
    requires
        0 < position < run.active.len(),
        run.active[0].completion is None,
    ensures
        run.recorded(position, completed).answered_in_order() == run.recorded(position, completed),
        run.recorded(position, completed).answered_in_order().session == run.session,
{
    assert(run.recorded(position, completed).active[0] == run.active[0]);
}

} // verus!
