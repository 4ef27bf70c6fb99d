//! What holds of a turn as a whole: what each step leaves of the conversation,
//! of the counters, and of the reports, stated on what they hold.
use crate::code_mode::TerminalToolSelection;
use crate::config::{ResponsesTransport, Thinking};
use crate::conversation;
use crate::conversation::{ContextBaseline, RequestProfile};
use crate::error::NanocodexError;
use crate::items::{ContentItem, ItemKind, MessageRole, ResponseItem, ToolOutputBody};
use crate::pricing;
use crate::prompt::Prompt;
use crate::run::calls;
use crate::run::calls::{
    CompactionPhase, CompactionRequest, ModelRequest, WarmupExecution,
};
use crate::run::drive;
use crate::run::drive::{CompactionPoint, TurnAction, TurnPhase};
use crate::run::events::{
    RunCompletion, RunEvent, RunStats, TerminalStatus, TransportCounts, WarmupSource,
};
use crate::run::tools;
use crate::run::tools::InterruptedCall;
use crate::run::turn;
use crate::run::turn::{
    CompactionReply, CompletedModelTurn, ContextUpdate, DriveStep, ModelCompactOutcome,
    ModelTaskOutcome, ModelTurnOutcome, TurnCompletion, TurnEnding,
};
use crate::run::{ActiveToolCall, ModelSessionView, RunView};
use crate::service::{
    CompactionOutput, GenerationOutput, ResponsesOutput, ResponsesServiceResponse,
};
use crate::text;
use crate::tool_calls;
use crate::tool_calls::{CodeCall, CodeCallKind, CompletedToolCall, ToolStatus};
use crate::usage;
use crate::usage::ServicePricing;
use std::sync::Arc;
use vstd::prelude::*;
use vstd::string::*;

verus! {

/// Every output item of a response becomes part of the conversation, in order
/// and behind what it held, whatever the turn does next; the next request
/// continues from that response. Where the turn goes on, the provider knows all
/// of it.
pub proof fn law_responses_enter_the_conversation(
    before: RunView,
    output: GenerationOutput,
    steers_waiting: bool,
)
    requires
        before.session is Some,
    ensures
        ({
            let after = before.responded(output, steers_waiting);
            let more = output.code_calls@.len() > 0 || output.end_turn == Some(false)
                || steers_waiting;
            &&& after.session is Some
            &&& after.conversation().history == before.conversation().with_items(
                output.output_items@,
            ).history
            &&& conversation::grown(
                before.conversation().history,
                after.conversation().history,
                output.output_items@,
            )
            &&& after.conversation().previous_response_id == Some(output.id)
            &&& after.conversation().canonical_context == before.conversation().canonical_context
            &&& after.conversation().delta_start == if more {
                after.conversation().history.len()
            } else {
                before.conversation().delta_start
            }
            &&& after.can_drain_steers
            &&& after.stats == before.stats
            &&& after.events == before.events
            &&& after.active == before.active
            &&& after.thinking == before.thinking
            &&& after.fast_mode == before.fast_mode
            &&& after.session->0.workspace == before.session->0.workspace
            &&& after.session->0.profile == before.session->0.profile
        }),
{
    conversation::law_added_items_stand_behind_the_others(
        conversation::ConversationView {
            previous_response_id: Some(output.id),
            ..before.conversation()
        },
        output.output_items@,
    );
}

/// What follows a response: its calls are run; without any, the model goes on
/// where it asked to, or where steering waits; otherwise its message completes
/// the turn, and a turn without one fails.
pub proof fn law_the_model_decides_what_follows(
    step: DriveStep,
    before: RunView,
    output: GenerationOutput,
    steers_waiting: bool,
)
    requires
        turn::follows(step, before, output, steers_waiting),
    ensures
        step is RunTools <==> output.code_calls@.len() > 0,
        step matches DriveStep::RunTools { calls, history } ==> calls == output.code_calls && (
        history is Some <==> exists|i: int|
            0 <= i < calls@.len() && (#[trigger] calls@[i]).name@ == "exec"@) && (history is Some
            ==> conversation::grown(
            before.conversation().history,
            history->0@,
            output.output_items@,
        )),
        step is Continue <==> output.code_calls@.len() == 0 && (output.end_turn == Some(false)
            || steers_waiting),
        step matches DriveStep::Continue { compaction_holds_steers } ==> (compaction_holds_steers
            <==> output.end_turn == Some(false)),
        step is Completed <==> output.code_calls@.len() == 0 && output.end_turn != Some(false)
            && !steers_waiting && output.final_message is Some,
        step matches DriveStep::Completed(said) ==> if text::blank(output.final_message->0@) {
            said@ == "The model completed without emitting assistant text."@
        } else {
            said@ == output.final_message->0@
        },
        step is Failed ==> step->Failed_0 is MalformedResponse,
{
    conversation::law_added_items_stand_behind_the_others(
        conversation::ConversationView {
            previous_response_id: Some(output.id),
            ..before.conversation()
        },
        output.output_items@,
    );
}

/// The action after a response is the one that the response asks for, and it is
/// taken on a conversation that holds the response.
pub proof fn law_responses_are_acted_upon(
    before: RunView,
    output: GenerationOutput,
    steers_waiting: bool,
    call_index: u32,
    after: RunView,
    action: TurnAction,
)
    requires
        before.session is Some,
        drive::proceeds(before, output, steers_waiting, call_index, after, action),
    ensures
        after.session is Some,
        conversation::grown(
            before.conversation().history,
            after.conversation().history,
            output.output_items@,
        ),
        after.conversation().previous_response_id == Some(output.id),
        action matches TurnAction::RunTools { call_index: number, calls, history } ==> {
            &&& number == call_index
            &&& calls == output.code_calls
            &&& history is Some ==> history->0@ == after.conversation().history
            &&& after.phase == TurnPhase::RunningTools(call_index)
            &&& after.active.len() == before.active.len() + calls@.len()
            &&& forall|i: int|
                0 <= i < calls@.len() ==> (#[trigger] after.active[before.active.len()
                    + i]).call_id == calls@[i].call_id
        },
        action is SizeContext <==> output.code_calls@.len() == 0 && (output.end_turn == Some(false)
            || steers_waiting),
        action is SizeContext ==> after.phase == TurnPhase::Sizing(
            CompactionPoint {
                phase: CompactionPhase::MidTurn,
                after_model_call_index: call_index,
                holds_steers: output.end_turn == Some(false),
            },
        ),
        action is End <==> output.code_calls@.len() == 0 && output.end_turn != Some(false)
            && !steers_waiting,
        action matches TurnAction::End(outcome) ==> {
            &&& after.phase == TurnPhase::Ending
            &&& outcome is Completed <==> output.final_message is Some
            &&& outcome matches ModelTaskOutcome::Completed(completion) ==> completion.said()
                == Some(
                if text::blank(output.final_message->0@) {
                    "The model completed without emitting assistant text."@
                } else {
                    output.final_message->0@
                },
            )
            &&& !(outcome is Cancelled)
        },
{
    law_responses_enter_the_conversation(before, output, steers_waiting);
    conversation::law_added_items_stand_behind_the_others(
        conversation::ConversationView {
            previous_response_id: Some(output.id),
            ..before.conversation()
        },
        output.output_items@,
    );
    let responded = before.responded(output, steers_waiting);
    assert(after.session == responded.session);
}

/// A follow-on turn states the environment as far as it changed, and then the
/// user's message: in full, the developer's rules come first. Nothing that the
/// conversation held is touched.
pub proof fn law_follow_on_turns_state_what_changed(
    before: RunView,
    update: ContextUpdate,
    canonical_context: Arc<ResponseItem>,
    developer_context: Arc<ResponseItem>,
    context_baseline: ContextBaseline,
    message: Arc<ResponseItem>,
)
    requires
        before.session is Some,
    ensures
        ({
            let after = before.told_with(
                update,
                canonical_context,
                developer_context,
                context_baseline,
                message,
            );
            &&& conversation::grown(
                before.conversation().history,
                after.conversation().history,
                match update {
                    ContextUpdate::Unchanged => seq![message],
                    ContextUpdate::Partial(item) => seq![item, message],
                    ContextUpdate::Full(item) => seq![developer_context, item, message],
                },
            )
            &&& after.conversation().canonical_context == match update {
                ContextUpdate::Full(item) => item,
                _ => canonical_context,
            }
            &&& after.conversation().previous_response_id
                == before.conversation().previous_response_id
            &&& after.conversation().delta_start == before.conversation().delta_start
            &&& after.session->0.context_baseline == context_baseline
            &&& after.session->0.context_snapshot == Some(canonical_context)
            &&& !after.session->0.reinject_context
            &&& after.session->0.workspace == before.session->0.workspace
            &&& after.session->0.profile == before.session->0.profile
            &&& after.stats == before.stats
            &&& after.events == before.events
        }),
{
    let held = before.conversation();
    let told = before.told(update, canonical_context, developer_context);
    let items = match update {
        ContextUpdate::Unchanged => seq![],
        ContextUpdate::Partial(item) => seq![item],
        ContextUpdate::Full(item) => seq![developer_context, item],
    };
    assert(told.history =~= held.with_items(items).history);
    assert(told.item_count == held.with_items(items).item_count);
    conversation::law_batches_join(held, items, seq![message]);
    conversation::law_added_items_stand_behind_the_others(held, items + seq![message]);
    assert(items + seq![message] =~= match update {
        ContextUpdate::Unchanged => seq![message],
        ContextUpdate::Partial(item) => seq![item, message],
        ContextUpdate::Full(item) => seq![developer_context, item, message],
    });
}

/// A conversation that was compacted has its environment stated in full again,
/// and its whole history stays to be sent; without a compaction the turn only
/// owes what is new.
pub proof fn law_compacted_conversations_are_told_again(before: RunView, compacted: bool)
    requires
        before.session is Some,
    ensures
        ({
            let after = before.following_on(compacted);
            &&& after.conversation().history == before.conversation().history
            &&& after.conversation().previous_response_id
                == before.conversation().previous_response_id
            &&& compacted ==> after.session->0.reinject_context && after.conversation()
                == before.conversation()
            &&& !compacted ==> after.session->0.reinject_context
                == before.session->0.reinject_context
            &&& !after.session->0.preserve_inherited_delta
            &&& after.session->0.context_baseline == before.session->0.context_baseline
            &&& after.session->0.workspace == before.session->0.workspace
            &&& after.stats == before.stats
            &&& after.events == before.events
        }),
{
}

/// A turn starts under its own settings and with counters at zero, and says so;
/// the conversation and what the run still has to do stay.
pub proof fn law_turns_start_from_nothing(
    before: RunView,
    task: Prompt,
    workspace: Option<String>,
    thinking: Thinking,
    fast_mode: bool,
)
    requires
        task.instruction.bytes() <= usize::MAX,
    ensures
        ({
            let after = before.begun(task, workspace, thinking, fast_mode);
            &&& after.thinking == thinking
            &&& after.fast_mode == fast_mode
            &&& after.stats.model_calls == 0 && after.stats.compactions == 0 && after.stats.steers
                == 0 && after.stats.tool_calls == 0
            &&& after.stats.model_duration_ns == 0 && after.stats.warmup_duration_ns == 0
                && after.stats.tool_work_duration_ns == 0 && after.stats.tool_wall_duration_ns == 0
            &&& after.stats.usage.input_tokens == 0 && after.stats.usage.output_tokens == 0
                && after.stats.usage.total_tokens == 0 && after.stats.usage.reported
            &&& after.stats.warmup_usage.total_tokens == 0 && after.stats.warmup_usage.reported
            &&& after.stats.transport.response_attempts == 0
            &&& after.stats.last_response_id is None
            &&& after.session == before.session
            &&& after.config == before.config
            &&& after.force_compaction == before.force_compaction
            &&& after.global_instructions == before.global_instructions
            &&& after.events.len() == before.events.len() + 1
            &&& after.events.take(before.events.len() as int) == before.events
            &&& after.events.last() matches RunEvent::RunStarted {
                reasoning_mode,
                effort,
                transport,
                endpoint,
                workspace: stated,
                instruction_bytes,
            } && reasoning_mode == before.config.reasoning_mode && effort == thinking && transport
                == before.config.responses_transport && stated == workspace && instruction_bytes
                == task.instruction.bytes() && (transport == ResponsesTransport::WebSocket
                ==> endpoint == before.config.websocket_url) && (transport
                == ResponsesTransport::Https ==> endpoint == before.config.api_base_url)
        }),
{
    let after = before.begun(task, workspace, thinking, fast_mode);
    assert(after.events.take(before.events.len() as int) =~= before.events);
}

/// Every generation and every compaction is asked for under the settings that
/// the turn was started with, about the conversation as it stands; a repaired
/// history continues from no response.
pub proof fn law_requests_carry_the_turns_settings(
    idle: RunView,
    task: Prompt,
    workspace: Option<String>,
    thinking: Thinking,
    fast_mode: bool,
    run: RunView,
    generation: ModelRequest,
    prompt_history: Seq<Arc<ResponseItem>>,
    repaired: bool,
    compaction: CompactionRequest,
    after_model_call_index: u32,
    trimmed: Seq<Arc<ResponseItem>>,
)
    requires
        run.thinking == idle.begun(task, workspace, thinking, fast_mode).thinking,
        run.fast_mode == idle.begun(task, workspace, thinking, fast_mode).fast_mode,
        drive::requests_generation(generation, run, prompt_history, repaired),
        drive::requests_compaction(compaction, run, after_model_call_index, trimmed),
    ensures
        generation.thinking == thinking && generation.fast_mode == fast_mode,
        generation.call_index == run.stats.model_calls + 1,
        generation.prompt_history@ == prompt_history,
        generation.shared_history@ == run.conversation().history,
        generation.delta_start == run.conversation().delta_start,
        repaired ==> generation.previous_response_id is None,
        !repaired ==> generation.previous_response_id == run.conversation().previous_response_id,
        compaction.thinking == thinking && compaction.fast_mode == fast_mode,
        compaction.history@ == trimmed,
        compaction.after_model_call_index == after_model_call_index,
        compaction.incremental_start == run.conversation().delta_start,
        compaction.previous_response_id == run.conversation().previous_response_id,
{
}

/// No step of a turn changes the settings that it was started with.
pub proof fn law_settings_hold_for_the_whole_turn(
    run: RunView,
    output: GenerationOutput,
    steers_waiting: bool,
    call_index: u32,
    repaired: Option<Seq<Arc<ResponseItem>>>,
    reply: ResponsesServiceResponse,
    duration_ns: u64,
    tokens: u64,
    limit: u64,
    phase: CompactionPhase,
    installed: Seq<Arc<ResponseItem>>,
    execution: Option<WarmupExecution>,
    response_id: Option<String>,
    update: ContextUpdate,
    context: Arc<ResponseItem>,
    baseline: ContextBaseline,
    position: int,
    completed: CompletedToolCall,
    logical_turn: u64,
    wall_ns: u64,
)
    ensures
        keeps_settings(run, run.responded(output, steers_waiting)),
        keeps_settings(run, run.generated(call_index, repaired, reply, duration_ns)),
        keeps_settings(run, run.compacting(call_index, tokens, limit)),
        keeps_settings(run, run.compaction_answered(call_index, reply, duration_ns)),
        keeps_settings(run, run.installing(phase, installed, steers_waiting)),
        keeps_settings(run, run.warmup_answered(execution, duration_ns)),
        keeps_settings(run, run.warmed_up(response_id, steers_waiting)),
        keeps_settings(run, run.following_on(steers_waiting)),
        keeps_settings(run, run.told_with(update, context, context, baseline, context)),
        keeps_settings(run, run.recorded(position, completed)),
        keeps_settings(run, run.settled()),
        keeps_settings(run, run.taken_up(logical_turn)),
        keeps_settings(run, run.turned_away(logical_turn)),
        keeps_settings(run, run.batch_closed(wall_ns)),
        keeps_settings(run, run.selection_taken()),
        keeps_settings(run, run.at(TurnPhase::Preparing)),
{
}

/// Whether a step kept the settings of the turn and of the agent.
pub open spec fn keeps_settings(before: RunView, after: RunView) -> bool {
    &&& after.thinking == before.thinking
    &&& after.fast_mode == before.fast_mode
    &&& after.config == before.config
    &&& after.global_instructions == before.global_instructions
}

/// A turn in fast mode is priced at the priority rates and any other one at the
/// standard rates, over the tokens of its generations, compactions, and warmup
/// together; without rates, or where a usage record is missing, there is no
/// estimate.
pub proof fn law_turns_are_priced_by_their_mode(run: RunView, rates: ServicePricing)
    ensures
        ({
            let main = run.stats.usage;
            let warm = run.stats.warmup_usage;
            let usage = run.turn_usage(Some(rates));
            &&& usage.input_tokens == pricing::capped_sum(main.input_tokens, warm.input_tokens)
            &&& usage.cached_input_tokens == pricing::capped_sum(
                main.cached_input_tokens,
                warm.cached_input_tokens,
            )
            &&& usage.cache_write_input_tokens == pricing::capped_sum(
                main.cache_write_input_tokens,
                warm.cache_write_input_tokens,
            )
            &&& usage.output_tokens == pricing::capped_sum(main.output_tokens, warm.output_tokens)
            &&& usage.reasoning_output_tokens == pricing::capped_sum(
                main.reasoning_output_tokens,
                warm.reasoning_output_tokens,
            )
            &&& usage.total_tokens == pricing::capped_sum(main.total_tokens, warm.total_tokens)
            &&& usage.estimated_cost is Some <==> main.reported && warm.reported
            &&& main.reported && warm.reported ==> usage.estimated_cost == Some(
                pricing::cost_of(
                    if run.fast_mode {
                        rates.priority@
                    } else {
                        rates.standard@
                    },
                    usage.input_tokens,
                    usage.cached_input_tokens,
                    usage.cache_write_input_tokens,
                    usage.output_tokens,
                ),
            )
            &&& run.turn_usage(None).estimated_cost is None
            &&& run.turn_usage(None).total_tokens == usage.total_tokens
        }),
{
}

/// A turn of one reported operation costs what that operation is estimated at
/// on its own, in the same mode.
pub proof fn law_a_turn_of_one_operation_costs_what_it_does(
    idle: RunView,
    task: Prompt,
    workspace: Option<String>,
    thinking: Thinking,
    fast_mode: bool,
    call_index: u32,
    reply: ResponsesServiceResponse,
    duration_ns: u64,
    spent: pricing::Usage,
    rates: ServicePricing,
)
    requires
        reply.output matches ResponsesOutput::Generation(output) && output.usage == Some(spent),
    ensures
        ({
            let run = idle.begun(task, workspace, thinking, fast_mode).generated(
                call_index,
                None,
                reply,
                duration_ns,
            );
            run.turn_usage(Some(rates)).estimated_cost == Some(
                pricing::cost_of(
                    rates.rates_of(usage::ServiceTier::selected(fast_mode)),
                    spent.input_tokens,
                    spent.cached(),
                    spent.cache_write(),
                    spent.output_tokens,
                ),
            )
        }),
        rates.rates_of(usage::ServiceTier::selected(true)) == rates.priority@,
        rates.rates_of(usage::ServiceTier::selected(false)) == rates.standard@,
{
}

/// An answered generation adds its time and its tokens to those of the turn,
/// names the response, and touches the history only where it had to be
/// repaired.
pub proof fn law_generations_are_accounted_for(
    before: RunView,
    call_index: u32,
    repaired: Option<Seq<Arc<ResponseItem>>>,
    reply: ResponsesServiceResponse,
    duration_ns: u64,
)
    requires
        before.session is Some,
        reply.output is Generation,
        before.stats.model_duration_ns + duration_ns <= u64::MAX,
        reply.output->Generation_0.code_calls@.len() <= usize::MAX,
    ensures
        ({
            let output = reply.output->Generation_0;
            let after = before.generated(call_index, repaired, reply, duration_ns);
            &&& after.stats.model_duration_ns == before.stats.model_duration_ns + duration_ns
            &&& after.stats.usage == before.stats.usage.plus(output.usage)
            &&& after.stats.warmup_usage == before.stats.warmup_usage
            &&& after.stats.last_response_id == Some(output.id)
            &&& after.stats.model_calls == before.stats.model_calls
            &&& after.stats.tool_calls == before.stats.tool_calls
            &&& repaired is None ==> after.conversation().history == before.conversation().history
                && after.conversation().previous_response_id
                == before.conversation().previous_response_id && after.conversation().delta_start
                == before.conversation().delta_start
            &&& repaired matches Some(history) ==> conversation::grown(
                Seq::empty(),
                after.conversation().history,
                history,
            ) && after.conversation().previous_response_id is None
                && after.conversation().delta_start == 0
            &&& after.conversation().server_reasoning_included == (
            before.conversation().server_reasoning_included || reply.server_reasoning_included)
            &&& after.events.len() == before.events.len() + 1
            &&& after.events.take(before.events.len() as int) == before.events
            &&& after.events.last() matches RunEvent::ModelCallCompleted {
                call_index: number,
                response_id,
                attempt,
                connection_generation,
                duration_ns: took,
                tool_calls,
                usage,
                ..
            } && number == call_index && response_id == output.id && attempt == reply.attempt
                && connection_generation == reply.connection_generation && took == duration_ns
                && tool_calls == output.code_calls@.len() && usage == output.usage
        }),
{
    let after = before.generated(call_index, repaired, reply, duration_ns);
    assert(after.events.take(before.events.len() as int) =~= before.events);
    if let Some(history) = repaired {
        conversation::law_replaced_history_is_sent_in_full(
            before.conversation().hearing(reply.server_reasoning_included),
            history,
        );
    }
}

/// A compaction is counted when it is asked for, and its time and tokens when
/// it was answered; the conversation stays until what it left is installed.
pub proof fn law_compactions_are_accounted_for(
    before: RunView,
    after_model_call_index: u32,
    tokens: u64,
    limit: u64,
    reply: ResponsesServiceResponse,
    duration_ns: u64,
)
    requires
        reply.output is Compaction,
        before.stats.compactions < u32::MAX,
        before.stats.model_duration_ns + duration_ns <= u64::MAX,
    ensures
        ({
            let output = reply.output->Compaction_0;
            let asked = before.compacting(after_model_call_index, tokens, limit);
            let after = asked.compaction_answered(after_model_call_index, reply, duration_ns);
            let left = calls::context_of(reply);
            &&& asked.stats.compactions == before.stats.compactions + 1
            &&& asked.stats.usage == before.stats.usage
            &&& after.stats.compactions == before.stats.compactions + 1
            &&& after.stats.model_duration_ns == before.stats.model_duration_ns + duration_ns
            &&& after.stats.usage == before.stats.usage.plus(output.usage)
            &&& after.stats.last_response_id == Some(output.id)
            &&& after.stats.model_calls == before.stats.model_calls
            &&& after.session == before.session
            &&& after.force_compaction == before.force_compaction
            &&& after.events.len() == before.events.len() + 2
            &&& after.events.take(before.events.len() as int) == before.events
            &&& (after.events[before.events.len() as int] matches RunEvent::CompactionStarted {
                after_model_call_index: number,
                active_context_tokens,
                auto_compact_token_limit,
                previous_response_id,
            } && number == after_model_call_index && active_context_tokens == tokens
                && auto_compact_token_limit == limit && previous_response_id
                == before.conversation().previous_response_id)
            &&& (after.events.last() matches RunEvent::CompactionCompleted {
                after_model_call_index: number,
                response_id,
                duration_ns: took,
                usage,
                attempt,
                ..
            } && number == after_model_call_index && response_id == output.id && took
                == duration_ns && usage == output.usage && attempt == reply.attempt)
            &&& left.item == output.item && left.usage == output.usage
                && left.server_reasoning_included == reply.server_reasoning_included
        }),
{
    let asked = before.compacting(after_model_call_index, tokens, limit);
    let after = asked.compaction_answered(after_model_call_index, reply, duration_ns);
    assert(after.events.take(before.events.len() as int) =~= before.events);
}

/// What a compaction left takes the place of the whole history, nothing of it
/// is known to the provider, and the provider's wish is fulfilled. Within a turn
/// the environment that was captured is the canonical one again.
pub proof fn law_installed_compactions_replace_the_history(
    before: RunView,
    phase: CompactionPhase,
    installed: Seq<Arc<ResponseItem>>,
    server_reasoning_included: bool,
)
    requires
        before.session is Some,
        before.can_install(phase),
    ensures
        ({
            let after = before.installing(phase, installed, server_reasoning_included);
            &&& conversation::grown(Seq::empty(), after.conversation().history, installed)
            &&& after.conversation().previous_response_id is None
            &&& after.conversation().delta_start == 0
            &&& !after.force_compaction
            &&& after.conversation().canonical_context == match phase {
                CompactionPhase::PreTurn => before.conversation().canonical_context,
                CompactionPhase::MidTurn => before.session->0.context_snapshot->0,
            }
            &&& phase == CompactionPhase::MidTurn ==> before.session->0.context_snapshot is Some
            &&& after.stats == before.stats
            &&& after.events == before.events
            &&& after.session->0.workspace == before.session->0.workspace
            &&& after.session->0.context_baseline == before.session->0.context_baseline
        }),
{
    conversation::law_replaced_history_is_sent_in_full(
        before.conversation().hearing(server_reasoning_included),
        installed,
    );
}

/// A conversation is compacted exactly when the model has a limit and the
/// context has grown to it or the provider asked: a larger context never needs
/// less, and a model without a limit never any. What is left can be installed
/// before a turn, and within one where the environment was captured.
pub proof fn law_full_contexts_are_compacted(
    run: RunView,
    tokens: u64,
    more: u64,
    limit: u64,
)
    requires
        tokens <= more,
    ensures
        run.can_install(CompactionPhase::PreTurn),
        run.can_install(CompactionPhase::MidTurn) <==> run.session->0.context_snapshot is Some,
        run.must_compact(tokens, Some(limit)) ==> run.must_compact(more, Some(limit)),
        tokens >= limit ==> run.must_compact(tokens, Some(limit)),
        run.force_compaction ==> run.must_compact(tokens, Some(limit)),
        tokens < limit && !run.force_compaction ==> !run.must_compact(tokens, Some(limit)),
        !run.must_compact(tokens, None),
{
}

/// A requested compaction that was completed leaves the history that it
/// installed, with the environment to be stated in full again; one that failed
/// or was cancelled leaves the history alone. Either way no response is
/// continued from, and the outcome is at the boundary that is left.
pub proof fn law_requested_compactions_keep_or_replace(
    before: RunView,
    reply: CompactionReply,
    installed: Seq<Arc<ResponseItem>>,
    outcome: ModelCompactOutcome,
)
    requires
        before.session is Some,
        turn::ends_compact(outcome, reply, before.compact_ended(reply, installed)),
    ensures
        ({
            let after = before.compact_ended(reply, installed);
            &&& after.conversation().previous_response_id is None
            &&& after.conversation().delta_start == 0
            &&& after.stats == before.stats
            &&& after.events == before.events
            &&& after.session->0.workspace == before.session->0.workspace
            &&& reply is Completed ==> {
                &&& conversation::grown(Seq::empty(), after.conversation().history, installed)
                &&& after.session->0.reinject_context
                &&& !after.force_compaction
            }
            &&& !(reply is Completed) ==> {
                &&& after.conversation().history == before.conversation().history
                &&& after.session->0.reinject_context == before.session->0.reinject_context
                &&& after.force_compaction == before.force_compaction
            }
            &&& outcome is Completed <==> reply is Completed
            &&& outcome is Cancelled <==> reply is Cancelled
            &&& outcome matches ModelCompactOutcome::Failed { error, .. } ==> reply
                == CompactionReply::Failed(error)
            &&& outcome matches ModelCompactOutcome::Completed(left) ==> left@.conversation
                == after.conversation() && left@.workspace == before.session->0.workspace
            &&& outcome matches ModelCompactOutcome::Completed(left)
                ==> !left@.preserve_inherited_delta && left@.global_instructions
                == before.global_instructions
            &&& outcome matches ModelCompactOutcome::Cancelled(left)
                ==> !left@.preserve_inherited_delta && left@.workspace
                == before.session->0.workspace
            &&& outcome matches ModelCompactOutcome::Failed { checkpoint, .. }
                ==> !checkpoint@.preserve_inherited_delta && checkpoint@.workspace
                == before.session->0.workspace
            &&& outcome matches ModelCompactOutcome::Cancelled(left) ==> left@.conversation
                == after.conversation()
            &&& outcome matches ModelCompactOutcome::Failed { checkpoint, .. }
                ==> checkpoint@.conversation == after.conversation()
        }),
{
    if let CompactionReply::Completed(compacted) = reply {
        conversation::law_replaced_history_is_sent_in_full(
            before.conversation().hearing(compacted.server_reasoning_included),
            installed,
        );
    }
}

/// The conversation of a first turn holds the given items in order; its
/// canonical context is their first message of the user, and it runs under the
/// turn's settings.
pub proof fn law_first_turns_hold_their_items(
    before: RunView,
    workspace: String,
    profile: RequestProfile,
    logical_turn: u64,
    history: Seq<Arc<ResponseItem>>,
    snapshot: Arc<ResponseItem>,
    baseline: ContextBaseline,
    seed: String,
)
    requires
        conversation::first_user_message(history) is Some,
    ensures
        ({
            let after = before.opened(
                workspace,
                profile,
                logical_turn,
                history,
                snapshot,
                baseline,
                seed,
            );
            let session = after.session->0;
            &&& after.session is Some
            &&& after.has_tools
            &&& conversation::grown(Seq::empty(), session.conversation.history, history)
            &&& history.contains(session.conversation.canonical_context)
            &&& session.conversation.canonical_context.from_user()
            &&& session.conversation.previous_response_id is None
            &&& session.conversation.delta_start == 0
            &&& session.conversation.continuation_policy is Some
            &&& session.conversation.continuation_policy->0.thinking == before.thinking
            &&& session.conversation.continuation_policy->0.fast_mode == before.fast_mode
            &&& session.workspace == workspace
            &&& session.profile == profile
            &&& session.logical_turn == logical_turn
            &&& session.context_baseline == baseline
            &&& session.context_snapshot == Some(snapshot)
            &&& !session.preserve_inherited_delta
            &&& !session.reinject_context
            &&& after.events == before.events
            &&& after.stats == before.stats
        }),
{
    let first = conversation::first_user_message(history)->0;
    conversation::law_first_user_message_is_the_first(history);
    conversation::law_conversations_start_with_their_items(first, history, seed);
    conversation::law_settings_are_remembered(
        conversation::ConversationView::started(first, history, seed),
        before.policy(),
    );
}

/// A task belongs to a conversation when it names its workspace or none. One
/// that belongs goes on with everything that the conversation holds, and with
/// its continuation where the settings did not change; a refused one changes
/// nothing but the number of the turn.
pub proof fn law_tasks_go_on_in_their_workspace(before: RunView, logical_turn: u64, asked: Seq<char>)
    requires
        before.session is Some,
    ensures
        before.belongs(None),
        before.belongs(Some(asked)) <==> asked == before.session->0.workspace@,
        ({
            let after = before.taken_up(logical_turn);
            let refused = before.turned_away(logical_turn);
            let same = before.conversation().continuation_policy matches Some(policy)
                && policy.thinking == before.thinking && policy.fast_mode == before.fast_mode;
            &&& after.session->0.logical_turn == logical_turn
            &&& after.conversation().history == before.conversation().history
            &&& same ==> after.conversation() == before.conversation()
            &&& !same && before.conversation().continuation_policy is Some
                ==> after.conversation().previous_response_id is None
                && after.conversation().delta_start == 0
            &&& after.conversation().continuation_policy is Some
            &&& after.conversation().continuation_policy->0.thinking == before.thinking
            &&& after.conversation().continuation_policy->0.fast_mode == before.fast_mode
            &&& after.session->0.workspace == before.session->0.workspace
            &&& refused.conversation() == before.conversation()
            &&& refused.session->0.workspace == before.session->0.workspace
            &&& after.events == before.events
            &&& refused.events == before.events
        }),
{
}

/// A turn that ended with a message keeps its continuation; one that a tool
/// ended sends everything again. Neither loses an item.
pub proof fn law_completed_turns_keep_the_history(before: RunView, completion: TurnCompletion)
    requires
        before.session is Some,
    ensures
        ({
            let after = before.concluded(completion);
            &&& after.conversation().history == before.conversation().history
            &&& completion.said() is Some ==> after == before
            &&& completion.said() is None ==> after.conversation().previous_response_id is None
                && after.conversation().delta_start == 0
            &&& after.session->0.workspace == before.session->0.workspace
            &&& after.events == before.events
            &&& after.stats == before.stats
        }),
{
}

/// A boundary holds the whole conversation that it was taken from, with the
/// prefix, cache key, workspace, and baseline that go with it.
pub proof fn law_boundaries_hold_the_conversation(
    run: RunView,
    preserve_inherited_delta: bool,
    instructions: Option<String>,
)
    requires
        run.session is Some,
    ensures
        ({
            let boundary = run.session->0.checkpoint(preserve_inherited_delta, instructions);
            &&& boundary.conversation == run.conversation()
            &&& boundary.workspace == run.session->0.workspace
            &&& boundary.request_prefix == run.session->0.profile.prefix
            &&& boundary.prompt_cache_key == run.session->0.profile.prompt_cache_key
            &&& boundary.context_baseline == run.session->0.context_baseline
            &&& boundary.preserve_inherited_delta == preserve_inherited_delta
            &&& boundary.global_instructions == instructions
        }),
{
}

/// A completed turn hands out what completed it, its price, and the boundary at
/// the end of the conversation.
pub proof fn law_completed_turns_are_handed_out(
    before: RunView,
    after: RunView,
    turn: CompletedModelTurn,
    completion: TurnCompletion,
    rates: Option<ServicePricing>,
)
    requires
        turn::ends_completed(before, after, Ok(turn), completion, rates),
    ensures
        turn.completion == completion,
        turn.usage@ == before.turn_usage(rates),
        turn.checkpoint@.conversation == after.conversation(),
        turn.checkpoint@.conversation.history == before.conversation().history,
        turn.checkpoint@.workspace == before.session->0.workspace,
        !turn.checkpoint@.preserve_inherited_delta,
        turn.checkpoint@.global_instructions == before.global_instructions,
        completion.said() is Some ==> turn.checkpoint@.conversation.previous_response_id is Some,
        after.events == before.events,
{
    law_completed_turns_keep_the_history(before, completion);
}

/// A cancelled turn is left with everything that it held, the answers to its
/// calls, and the notice, in that order; a failed one likewise where calls were
/// open, and as it is otherwise. No response is continued from.
pub proof fn law_early_ends_leave_a_boundary(
    before: RunView,
    after: RunView,
    outcome: ModelTaskOutcome,
    result: Result<ModelTurnOutcome, NanocodexError>,
    known: Seq<InterruptedCall>,
    wall_ns: u64,
    notice: Arc<ResponseItem>,
    rates: Option<ServicePricing>,
)
    requires
        before.session is Some,
        drive::leaves(before, after, outcome, result, known, wall_ns, notice, rates),
        !(outcome is Completed),
    ensures
        result is Ok,
        outcome is Cancelled <==> result->Ok_0 is Cancelled,
        outcome matches ModelTaskOutcome::Failed(cause) ==> (result->Ok_0
            matches ModelTurnOutcome::Failed { error, .. } && error == cause),
        after.session is Some,
        after.conversation().previous_response_id is None,
        after.conversation().delta_start == 0,
        result->Ok_0 matches ModelTurnOutcome::Cancelled(left) ==> left@.conversation
            == after.conversation(),
        result->Ok_0 matches ModelTurnOutcome::Failed { checkpoint, .. } ==> checkpoint@.conversation
            == after.conversation(),
        outcome is Cancelled || before.active.len() > 0 ==> exists|
            items: Seq<Arc<ResponseItem>>,
            events: Seq<RunEvent>,
        |
            {
                &&& #[trigger] tools::interrupts(before.active, known, items, events)
                &&& conversation::grown(
                    before.conversation().history,
                    after.conversation().history,
                    items + seq![notice],
                )
                &&& after.active.len() == 0
                &&& after.events == before.events + events
            },
        !(outcome is Cancelled) && before.active.len() == 0 ==> after.conversation().history
            == before.conversation().history && after.events == before.events,
        outcome matches ModelTaskOutcome::Failed(error) ==> after.force_compaction == (
        before.force_compaction || turn::overflowed(error)),
{
    let noted = match outcome {
        ModelTaskOutcome::Failed(error) => before.noting(error),
        _ => before,
    };
    if outcome is Cancelled || before.active.len() > 0 {
        assert(turn::cut_short(noted, after, known, wall_ns, notice));
        let (items, events) = choose|items: Seq<Arc<ResponseItem>>, events: Seq<RunEvent>|
            #[trigger] tools::interrupts(noted.active, known, items, events) && after
                == noted.interrupted(known, wall_ns, items, events, notice);
        assert(noted.active == before.active);
        assert(noted.conversation() == before.conversation());
        conversation::law_batches_join(before.conversation(), items, seq![notice]);
        conversation::law_added_items_stand_behind_the_others(
            before.conversation(),
            items + seq![notice],
        );
        assert(after.conversation().history == before.conversation().with_items(
            items + seq![notice],
        ).history);
        assert(tools::interrupts(before.active, known, items, events));
    }
}

/// The outcome of a call is recorded for that call alone, and reported with its
/// own identity, status, and output; nothing enters the conversation yet.
pub proof fn law_outcomes_are_recorded_where_they_belong(
    before: RunView,
    position: int,
    result: Result<CompletedToolCall, NanocodexError>,
    work_duration_ns: u64,
    other: int,
)
    requires
        0 <= position < before.active.len(),
        0 <= other < before.active.len(),
        other != position,
    ensures
        ({
            let after = before.call_ended(position, result, work_duration_ns);
            &&& after.active.len() == before.active.len()
            &&& after.active[other] == before.active[other]
            &&& after.active[position].call_id == before.active[position].call_id
            &&& after.active[position].nested_tool_calls
                == before.active[position].nested_tool_calls
            &&& after.session == before.session
            &&& after.stats == before.stats
            &&& result matches Ok(completed) ==> {
                &&& after.active[position].completion is Some
                &&& after.active[position].completion->0.response_items
                    == completed.response_items
                &&& after.active[position].completion->0.success == completed.success
                &&& after.active[position].completion->0.terminal == completed.terminal
                &&& after.active[position].completion->0.work_duration_ns == work_duration_ns
                &&& after.events.len() == before.events.len() + 1
                &&& after.events.take(before.events.len() as int) == before.events
                &&& after.events.last() matches RunEvent::ToolResult {
                    call_id,
                    tool,
                    status,
                    duration_ns,
                    result: shown,
                    metadata,
                    ..
                } && call_id == completed.call_id && tool == completed.tool && duration_ns
                    == completed.duration_ns && shown == completed.output && metadata
                    == completed.metadata && (status == ToolStatus::Completed
                    <==> completed.success) && (status == ToolStatus::Failed
                    <==> !completed.success)
            }
            &&& result matches Err(error) ==> after.active[position].failure == Some(error)
                && after.active[position].completion == before.active[position].completion
                && after.events == before.events
        }),
{
    let after = before.call_ended(position, result, work_duration_ns);
    assert(after.events.len() == before.events.len() + 1 ==> after.events.take(
        before.events.len() as int,
    ) =~= before.events);
}

/// Answering a call adds its items to the conversation in order, its time and
/// the calls of its code to the counters, and takes it off the list; the calls
/// behind it stay in their order. A failure marks the whole batch.
pub proof fn law_answered_calls_enter_the_conversation(before: RunView)
    requires
        before.session is Some,
        before.first_finished(),
        before.settling_fits(),
    ensures
        ({
            let call = before.active[0];
            let completed = call.completion->0;
            let after = before.settled();
            &&& conversation::grown(
                before.conversation().history,
                after.conversation().history,
                completed.response_items@,
            )
            &&& after.conversation().previous_response_id
                == before.conversation().previous_response_id
            &&& after.conversation().delta_start == before.conversation().delta_start
            &&& after.active == before.active.drop_first()
            &&& after.stats.tool_work_duration_ns == before.stats.tool_work_duration_ns
                + completed.work_duration_ns
            &&& after.stats.tool_calls == before.stats.tool_calls + call.nested_tool_calls
            &&& after.stats.tool_wall_duration_ns == before.stats.tool_wall_duration_ns
            &&& after.stats.usage == before.stats.usage
            &&& after.batch_failed == (before.batch_failed || !completed.success)
            &&& completed.terminal is Unselected ==> after.batch_terminal == before.batch_terminal
            &&& before.batch_terminal is Unselected ==> after.batch_terminal == completed.terminal
            &&& after.events == before.events
        }),
{
    conversation::law_added_items_stand_behind_the_others(
        before.conversation(),
        before.active[0].completion->0.response_items@,
    );
    assert(before.settled().active =~= before.active.drop_first());
}

/// Every call of a batch is announced and awaited in the model's order, under
/// its own identity and its qualified name; calls that were open before stay in
/// front.
pub proof fn law_batches_await_every_call(
    before: RunView,
    after: RunView,
    call_index: u32,
    calls: Seq<CodeCall>,
    at: int,
)
    requires
        tools::batch_prepared(before, after, call_index, calls),
        0 <= at < calls.len(),
        before.stats.tool_calls + calls.len() <= u32::MAX,
    ensures
        after.active.len() == before.active.len() + calls.len(),
        after.active.take(before.active.len() as int) == before.active,
        ({
            let call = calls[at];
            let awaited = after.active[before.active.len() + at];
            &&& awaited.call_id == call.call_id
            &&& awaited.kind == call.kind
            &&& awaited.name@ == match call.namespace {
                Some(namespace) => namespace@ + call.name@,
                None => call.name@,
            }
            &&& awaited.completion is None && awaited.failure is None
            &&& awaited.nested_tool_calls == 0
            &&& awaited.shell_abort_format <==> call.namespace is None && (call.name@
                == "shell_command"@ || call.name@ == "unified_exec"@)
            &&& after.events[before.events.len() + at] matches RunEvent::ToolCall {
                call_id,
                tool,
                model_call_index,
                ..
            } && call_id == call.call_id && tool@ == awaited.name@ && model_call_index
                == call_index
        }),
        after.events.len() == before.events.len() + calls.len(),
        after.stats.tool_calls == before.stats.tool_calls + calls.len(),
        after.session == before.session,
        after.tool_batch_open,
        !after.batch_failed,
        after.batch_terminal is Unselected,
{
    let awaited = after.active[before.active.len() + at];
    assert(tools::awaits(awaited, calls[at]));
    let event = after.events[before.events.len() + at];
    assert(tools::announces(event, calls[at], call_index));
}

/// After a batch the turn ends exactly where one terminal tool succeeded and no
/// call failed; two of them, or one that left too much behind, make the turn
/// fail; otherwise it goes on.
pub proof fn law_batches_end_the_turn_by_one_tool(
    before: RunView,
    call_index: u32,
    after: RunView,
    action: TurnAction,
)
    requires
        drive::concludes(before, call_index, after, action),
    ensures
        before.batch_failed || before.batch_terminal is Unselected <==> action is SizeContext,
        action is SizeContext ==> after.phase == TurnPhase::Sizing(
            CompactionPoint {
                phase: CompactionPhase::MidTurn,
                after_model_call_index: call_index,
                holds_steers: true,
            },
        ),
        !before.batch_failed ==> match before.batch_terminal {
            TerminalToolSelection::Unselected => action is SizeContext,
            TerminalToolSelection::Selected(receipt) => action matches TurnAction::End(
                ModelTaskOutcome::Completed(TurnCompletion::TerminalTool { receipt: by }),
            ) && by == receipt,
            TerminalToolSelection::Ambiguous => action matches TurnAction::End(
                ModelTaskOutcome::Failed(NanocodexError::AmbiguousTerminalTools),
            ),
            TerminalToolSelection::Invalid(fault) => action matches TurnAction::End(
                ModelTaskOutcome::Failed(NanocodexError::TerminalToolReceipt(error)),
            ) && error == fault,
        },
        action is End ==> after.phase == TurnPhase::Ending,
        after.session == before.session,
        after.batch_terminal is Unselected,
        after.stats == before.stats,
        after.events == before.events,
{
}

/// The time of a batch is added once, when it ends.
pub proof fn law_batches_are_timed_once(before: RunView, wall_ns: u64, later: u64)
    requires
        before.batch_fits(wall_ns),
    ensures
        before.batch_closed(wall_ns).stats.tool_wall_duration_ns == if before.tool_batch_open {
            before.stats.tool_wall_duration_ns + wall_ns
        } else {
            before.stats.tool_wall_duration_ns as int
        },
        !before.batch_closed(wall_ns).tool_batch_open,
        before.batch_closed(wall_ns).batch_closed(later) == before.batch_closed(wall_ns),
        before.batch_closed(wall_ns).session == before.session,
        before.batch_closed(wall_ns).active == before.active,
{
}

/// A warmup counts apart from the turn's own requests, and what it left is what
/// the first generation continues from: its response, or none.
pub proof fn law_warmups_give_a_head_start(
    before: RunView,
    execution: Option<WarmupExecution>,
    duration_ns: u64,
)
    requires
        before.session is Some,
        before.stats.warmup_duration_ns + duration_ns <= u64::MAX,
    ensures
        ({
            let answered = before.warmup_answered(execution, duration_ns);
            let after = answered.warmed_up(
                calls::warm_response(execution),
                calls::warm_reasoning(execution),
            );
            &&& after.stats.warmup_duration_ns == before.stats.warmup_duration_ns + duration_ns
            &&& after.stats.usage == before.stats.usage
            &&& after.stats.model_calls == before.stats.model_calls
            &&& after.stats.model_duration_ns == before.stats.model_duration_ns
            &&& after.conversation().history == before.conversation().history
            &&& after.conversation().server_reasoning_included == (
            before.conversation().server_reasoning_included || (execution is Some
                && execution->0.server_reasoning_included))
            &&& match execution {
                Some(warm) => {
                    &&& after.conversation().previous_response_id == Some(warm.response_id)
                    &&& after.conversation().delta_start == before.conversation().delta_start
                    &&& after.stats.warmup_usage == before.stats.warmup_usage.plus(warm.usage)
                    &&& after.stats.last_response_id == Some(warm.response_id)
                },
                None => {
                    &&& after.conversation().previous_response_id is None
                    &&& after.conversation().delta_start == 0
                    &&& after.stats.warmup_usage == before.stats.warmup_usage
                    &&& after.stats.last_response_id is None
                },
            }
            &&& after.events.len() == before.events.len() + 1
            &&& after.events.take(before.events.len() as int) == before.events
            &&& after.events.last() matches RunEvent::WarmupCompleted {
                response_id,
                source,
                duration_ns: took,
                ..
            } && took == duration_ns && (source == WarmupSource::Response <==> execution is Some)
                && (response_id is Some <==> execution is Some) && (execution matches Some(warm)
                ==> response_id == Some(warm.response_id))
        }),
{
    let answered = before.warmup_answered(execution, duration_ns);
    assert(answered.events.take(before.events.len() as int) =~= before.events);
}

/// The end of a turn is reported with the turn's own effort, time, counters, and
/// price. A failure to persist makes any turn a failed one; otherwise the end
/// says how the turn ended, and an early end says why before it.
pub proof fn law_ends_are_reported_as_they_were(
    before: RunView,
    after: RunView,
    ended: Result<ModelTurnOutcome, NanocodexError>,
    ending: TurnEnding,
    failure: Option<NanocodexError>,
    took_ns: u64,
    rates: Option<ServicePricing>,
)
    requires
        ending.describes(ended),
        turn::reports(before, after, ending, failure, took_ns, rates),
    ensures
        after.session == before.session,
        after.events.take(before.events.len() as int) == before.events,
        after.events.last() matches RunEvent::RunEnded {
            status,
            elapsed_ns,
            effort,
            stats,
            usage,
            completion,
        } && elapsed_ns == took_ns && effort == before.thinking && stats == before.stats && usage@
            == before.turn_usage(rates) && status == (if failure is Some {
            TerminalStatus::Failed
        } else {
            match ended {
                Ok(ModelTurnOutcome::Completed(_)) => TerminalStatus::Completed,
                Ok(ModelTurnOutcome::Cancelled(_)) => TerminalStatus::Cancelled,
                _ => TerminalStatus::Failed,
            }
        }) && (completion is Some <==> failure is None && ended is Ok && ended->Ok_0 is Completed),
        after.events.len() == before.events.len() + if failure is None && ended is Ok
            && ended->Ok_0 is Completed {
            1int
        } else {
            2
        },
        failure is Some ==> (after.events[before.events.len() as int] matches RunEvent::RunError {
            message,
        } && message@ == failure->0.text()),
        failure is None && ended is Err ==> (after.events[before.events.len() as int]
            matches RunEvent::RunError { message } && message@ == ended->Err_0.text()),
{
    assert(after.events.take(before.events.len() as int) =~= before.events);
}

/// The run is asked for the next generation only with a boundary that holds the
/// conversation as it stands, and that still owes what the turn has sent.
pub proof fn law_generations_are_prepared_at_a_boundary(
    before: RunView,
    after: RunView,
    action: TurnAction,
)
    requires
        before.session is Some,
        drive::prepares(before, after, action),
    ensures
        after.phase == TurnPhase::Preparing,
        after.session == before.session,
        after.events == before.events,
        action matches TurnAction::Prepare(boundary) && boundary@.conversation
            == before.conversation() && boundary@.preserve_inherited_delta && boundary@.workspace
            == before.session->0.workspace && boundary@.global_instructions
            == before.global_instructions,
{
}

/// A turn that gives up keeps everything and ends with the error that it was
/// given.
pub proof fn law_giving_up_keeps_everything(
    before: RunView,
    after: RunView,
    action: TurnAction,
    error: NanocodexError,
)
    requires
        drive::gives_up(before, after, action, error),
    ensures
        action matches TurnAction::End(ModelTaskOutcome::Failed(cause)) && cause == error,
        after.phase == TurnPhase::Ending,
        after.session == before.session,
        after.active == before.active,
        after.events == before.events,
        after.stats == before.stats,
{
}

/// Whether a step changed nothing of a run but its conversation's items,
/// continuation, and context.
pub open spec fn beside_the_conversation(before: RunView, after: RunView) -> bool {
    &&& after.session is Some
    &&& after == (RunView { session: after.session, ..before })
    &&& after.session->0 == (ModelSessionView {
        conversation: after.conversation(),
        ..before.session->0
    })
    &&& after.conversation().item_seed == before.conversation().item_seed
    &&& after.conversation().continuation_policy == before.conversation().continuation_policy
}

/// Taking in a response changes the conversation and lets steering in; what
/// runs, what was counted, what was reported, and what the model was told of its
/// environment stay.
pub proof fn law_responses_change_nothing_else(
    before: RunView,
    output: GenerationOutput,
    steers_waiting: bool,
)
    requires
        before.session is Some,
    ensures
        ({
            let after = before.responded(output, steers_waiting);
            &&& beside_the_conversation(
                before,
                RunView { can_drain_steers: before.can_drain_steers, ..after },
            )
            &&& after.conversation().server_reasoning_included
                == before.conversation().server_reasoning_included
        }),
{
}

/// Stating what changed touches the conversation and what is known of the
/// environment, and nothing else of the run.
pub proof fn law_telling_changes_nothing_else(
    before: RunView,
    update: ContextUpdate,
    canonical_context: Arc<ResponseItem>,
    developer_context: Arc<ResponseItem>,
    context_baseline: ContextBaseline,
    message: Arc<ResponseItem>,
)
    requires
        before.session is Some,
    ensures
        ({
            let after = before.told_with(
                update,
                canonical_context,
                developer_context,
                context_baseline,
                message,
            );
            &&& after == (RunView { session: after.session, ..before })
            &&& after.session->0 == (ModelSessionView {
                conversation: after.conversation(),
                context_baseline,
                context_snapshot: Some(canonical_context),
                reinject_context: false,
                ..before.session->0
            })
            &&& after.conversation().item_seed == before.conversation().item_seed
            &&& after.conversation().continuation_policy
                == before.conversation().continuation_policy
            &&& after.conversation().server_reasoning_included
                == before.conversation().server_reasoning_included
        }),
{
}

/// At the start of a follow-on turn the provider knows everything, unless the
/// conversation was compacted or branched off inside a turn; then what was owed
/// stays owed. Nothing else of the run changes.
pub proof fn law_follow_on_turns_owe_what_is_new(before: RunView, compacted: bool)
    requires
        before.session is Some,
    ensures
        ({
            let after = before.following_on(compacted);
            let inherited = before.session->0.preserve_inherited_delta;
            &&& compacted || inherited ==> after.conversation() == before.conversation()
            &&& !compacted && !inherited ==> after.conversation() == (
            conversation::ConversationView {
                delta_start: before.conversation().history.len(),
                ..before.conversation()
            })
            &&& after == (RunView { session: after.session, ..before })
            &&& after.session->0 == (ModelSessionView {
                conversation: after.conversation(),
                preserve_inherited_delta: false,
                reinject_context: before.session->0.reinject_context || compacted,
                ..before.session->0
            })
        }),
{
}

/// An exchange with the provider changes counters, reports, and what is known of
/// the conversation's continuation, and nothing else of the run.
pub proof fn law_exchanges_change_nothing_else(
    before: RunView,
    call_index: u32,
    repaired: Option<Seq<Arc<ResponseItem>>>,
    reply: ResponsesServiceResponse,
    duration_ns: u64,
    tokens: u64,
    limit: u64,
    execution: Option<WarmupExecution>,
    phase: CompactionPhase,
    installed: Seq<Arc<ResponseItem>>,
    server_reasoning_included: bool,
    response_id: Option<String>,
)
    requires
        before.session is Some,
    ensures
        ({
            let generated = before.generated(call_index, repaired, reply, duration_ns);
            &&& beside_the_conversation(
                before,
                RunView { stats: before.stats, events: before.events, ..generated },
            )
            &&& generated.stats == (RunStats {
                model_duration_ns: generated.stats.model_duration_ns,
                usage: generated.stats.usage,
                last_response_id: generated.stats.last_response_id,
                ..before.stats
            })
        }),
        ({
            let asked = before.compacting(call_index, tokens, limit);
            let answered = before.compaction_answered(call_index, reply, duration_ns);
            &&& asked == (RunView { stats: asked.stats, events: asked.events, ..before })
            &&& asked.stats == (RunStats { compactions: asked.stats.compactions, ..before.stats })
            &&& answered == (RunView { stats: answered.stats, events: answered.events, ..before })
            &&& answered.stats == (RunStats {
                model_duration_ns: answered.stats.model_duration_ns,
                usage: answered.stats.usage,
                last_response_id: answered.stats.last_response_id,
                ..before.stats
            })
        }),
        ({
            let left = before.installing(phase, installed, server_reasoning_included);
            &&& beside_the_conversation(
                before,
                RunView { force_compaction: before.force_compaction, ..left },
            )
            &&& left.conversation().server_reasoning_included == (
            before.conversation().server_reasoning_included || server_reasoning_included)
        }),
        ({
            let warm = before.warmup_answered(execution, duration_ns);
            let taken = before.warmed_up(response_id, server_reasoning_included);
            &&& warm == (RunView { stats: warm.stats, events: warm.events, ..before })
            &&& warm.stats == (RunStats {
                warmup_duration_ns: warm.stats.warmup_duration_ns,
                warmup_usage: warm.stats.warmup_usage,
                last_response_id: warm.stats.last_response_id,
                ..before.stats
            })
            &&& beside_the_conversation(before, RunView { stats: before.stats, ..taken })
            &&& taken.stats == (RunStats {
                last_response_id: taken.stats.last_response_id,
                ..before.stats
            })
            &&& taken.conversation().server_reasoning_included == (
            before.conversation().server_reasoning_included || server_reasoning_included)
        }),
{
}

/// The report of an exchange states all that is known of it: the response, its
/// state, the attempt and connection that served it, its times, its tool calls,
/// and the tokens that it took.
pub proof fn law_reports_state_the_exchange(
    number: u32,
    generation: GenerationOutput,
    compaction: CompactionOutput,
    warmup: WarmupExecution,
    served_by: u32,
    connected_by: u32,
    took_ns: u64,
)
    requires
        generation.code_calls@.len() <= usize::MAX,
    ensures
        calls::generation_event(number, generation, served_by, connected_by, took_ns)
            matches RunEvent::ModelCallCompleted {
            call_index,
            response_id,
            attempt,
            connection_generation,
            status,
            duration_ns,
            time_to_first_event_ns,
            time_to_first_output_ns,
            tool_calls,
            usage,
        } && call_index == number && response_id == generation.id && attempt == served_by
            && connection_generation == connected_by && status == generation.status && duration_ns
            == took_ns && time_to_first_event_ns == generation.time_to_first_event_ns
            && time_to_first_output_ns == generation.time_to_first_output_ns && tool_calls
            == generation.code_calls@.len() && usage == generation.usage,
        calls::compaction_event(number, compaction, served_by, connected_by, took_ns)
            matches RunEvent::CompactionCompleted {
            after_model_call_index,
            response_id,
            attempt,
            connection_generation,
            status,
            duration_ns,
            time_to_first_event_ns,
            time_to_first_output_ns,
            usage,
        } && after_model_call_index == number && response_id == compaction.id && attempt
            == served_by && connection_generation == connected_by && status == compaction.status
            && duration_ns == took_ns && time_to_first_event_ns
            == compaction.time_to_first_event_ns && time_to_first_output_ns
            == compaction.time_to_first_output_ns && usage == compaction.usage,
        calls::warmup_event(Some(warmup), took_ns) matches RunEvent::WarmupCompleted {
            response_id,
            source,
            attempt,
            connection_generation,
            duration_ns,
            usage,
        } && response_id == Some(warmup.response_id) && source == WarmupSource::Response && attempt
            == Some(warmup.attempt) && connection_generation == Some(warmup.connection_generation)
            && duration_ns == took_ns && usage == warmup.usage,
        calls::warmup_event(None, took_ns) matches RunEvent::WarmupCompleted {
            response_id,
            source,
            attempt,
            connection_generation,
            duration_ns,
            usage,
        } && response_id is None && source == WarmupSource::SharedPrefix && attempt is None
            && connection_generation is None && duration_ns == took_ns && usage is None,
{
}

/// A failed exchange is timed, and reported with its number, its time, and the
/// reason; it takes no tokens and names no response.
pub proof fn law_failed_exchanges_are_timed_and_reported(
    stats: RunStats,
    event: RunEvent,
    number: u32,
    took_ns: u64,
    reason: Seq<char>,
)
    requires
        stats.model_duration_ns + took_ns <= u64::MAX,
    ensures
        stats.failed(took_ns).model_duration_ns == stats.model_duration_ns + took_ns,
        stats.failed(took_ns) == (RunStats {
            model_duration_ns: stats.failed(took_ns).model_duration_ns,
            ..stats
        }),
        calls::reports_failed_call(event, number, took_ns, reason) ==> (event
            matches RunEvent::ModelCallFailed { call_index, duration_ns, error } && call_index
            == number && duration_ns == took_ns && error@ == reason),
        calls::reports_failed_compaction(event, number, took_ns, reason) ==> (event
            matches RunEvent::CompactionFailed { after_model_call_index, duration_ns, error }
            && after_model_call_index == number && duration_ns == took_ns && error@ == reason),
        calls::reports_failed_warmup(event, took_ns, reason) ==> (event
            matches RunEvent::WarmupFailed { duration_ns, error } && duration_ns == took_ns && error@
            == reason),
{
}

/// The time of a failed warmup counts like that of an answered one, and nothing
/// else changes.
pub proof fn law_failed_warmups_are_timed(before: RunView, duration_ns: u64)
    requires
        before.stats.warmup_duration_ns + duration_ns <= u64::MAX,
    ensures
        ({
            let after = before.warmup_took(duration_ns);
            &&& after.stats.warmup_duration_ns == before.stats.warmup_duration_ns + duration_ns
            &&& after.stats == (RunStats {
                warmup_duration_ns: after.stats.warmup_duration_ns,
                ..before.stats
            })
            &&& after == (RunView { stats: after.stats, ..before })
        }),
{
}

/// Every counter of a turn starts at zero, and so does every count of the
/// transport.
pub proof fn law_every_counter_starts_at_zero()
    ensures
        ({
            let stats = RunStats::zero();
            &&& stats.model_calls == 0 && stats.compactions == 0 && stats.steers == 0
                && stats.tool_calls == 0
            &&& stats.model_duration_ns == 0 && stats.warmup_duration_ns == 0
            &&& stats.tool_work_duration_ns == 0 && stats.tool_wall_duration_ns == 0
            &&& stats.last_response_id is None
            &&& stats.usage == stats.warmup_usage
            &&& stats.usage.input_tokens == 0 && stats.usage.cached_input_tokens == 0
                && stats.usage.cache_write_input_tokens == 0
            &&& stats.usage.output_tokens == 0 && stats.usage.reasoning_output_tokens == 0
                && stats.usage.total_tokens == 0
            &&& stats.usage.reported
            &&& stats.transport.connection_attempts == 0 && stats.transport.websocket_reconnects
                == 0
            &&& stats.transport.response_attempts == 0 && stats.transport.response_retries == 0
            &&& stats.transport.billing_uncertain_response_attempts == 0
            &&& stats.transport.connection_duration_ns == 0
                && stats.transport.retry_backoff_duration_ns == 0
        }),
{
}

/// What the transport counted enters the counters of the turn and nothing else.
pub proof fn law_transport_counts_enter_the_counters(before: RunView, counted: TransportCounts)
    ensures
        before.with_transport(counted).stats.transport == counted,
        before.with_transport(counted).stats == (RunStats { transport: counted, ..before.stats }),
        before.with_transport(counted) == (RunView {
            stats: before.with_transport(counted).stats,
            ..before
        }),
{
}

/// A requested compaction starts under its own settings with counters at zero;
/// what the run holds stays.
pub proof fn law_requested_compactions_start_from_nothing(
    before: RunView,
    thinking: Thinking,
    fast_mode: bool,
)
    ensures
        ({
            let after = before.asked_to_compact(thinking, fast_mode);
            &&& after.thinking == thinking
            &&& after.fast_mode == fast_mode
            &&& after.stats == RunStats::zero()
            &&& after == (RunView {
                thinking,
                fast_mode,
                stats: after.stats,
                ..before
            })
        }),
{
}

/// What interrupted calls worked is added up: a finished call by its own
/// account, another one since its tool was started, if it was; and so are the
/// calls that running code made.
pub proof fn law_interrupted_work_adds_up(
    active: Seq<ActiveToolCall>,
    known: Seq<InterruptedCall>,
    call: ActiveToolCall,
    told: InterruptedCall,
)
    requires
        active.len() == known.len(),
    ensures
        tools::interrupted_work(Seq::empty(), Seq::empty()) == 0,
        tools::nested_calls(Seq::empty()) == 0,
        call.completion matches Some(completed) ==> tools::interrupted_work(
            active.push(call),
            known.push(told),
        ) == tools::interrupted_work(active, known) + completed.work_duration_ns,
        call.completion is None && told.work_duration_ns is Some ==> tools::interrupted_work(
            active.push(call),
            known.push(told),
        ) == tools::interrupted_work(active, known) + told.work_duration_ns->0,
        call.completion is None && told.work_duration_ns is None ==> tools::interrupted_work(
            active.push(call),
            known.push(told),
        ) == tools::interrupted_work(active, known),
        tools::nested_calls(active.push(call)) == tools::nested_calls(active)
            + call.nested_tool_calls,
        call.completion matches Some(completed) ==> tools::interrupted_items(active.push(call))
            == tools::interrupted_items(active) + completed.response_items@.len(),
        call.completion is None ==> tools::interrupted_items(active.push(call))
            == tools::interrupted_items(active) + 1,
{
    assert(active.push(call).drop_last() =~= active);
    assert(known.push(told).drop_last() =~= known);
}

/// An interruption leaves no call open, counts what the calls worked and the
/// time of the batch, reports each one, and changes nothing else of the run but
/// its conversation.
pub proof fn law_interruptions_are_accounted_for(
    before: RunView,
    known: Seq<InterruptedCall>,
    wall_ns: u64,
    items: Seq<Arc<ResponseItem>>,
    events: Seq<RunEvent>,
    notice: Arc<ResponseItem>,
)
    requires
        before.session is Some,
        before.interruption_fits(known, wall_ns),
    ensures
        ({
            let after = before.interrupted(known, wall_ns, items, events, notice);
            &&& after.active.len() == 0
            &&& !after.tool_batch_open
            &&& after.events == before.events + events
            &&& after.stats.tool_work_duration_ns == before.stats.tool_work_duration_ns
                + tools::interrupted_work(before.active, known)
            &&& after.stats.tool_calls == before.stats.tool_calls + tools::nested_calls(
                before.active,
            )
            &&& after.stats.tool_wall_duration_ns == if before.tool_batch_open {
                before.stats.tool_wall_duration_ns + wall_ns
            } else {
                before.stats.tool_wall_duration_ns as int
            }
            &&& after.stats == (RunStats {
                tool_work_duration_ns: after.stats.tool_work_duration_ns,
                tool_calls: after.stats.tool_calls,
                tool_wall_duration_ns: after.stats.tool_wall_duration_ns,
                ..before.stats
            })
            &&& beside_the_conversation(
                before,
                RunView {
                    active: before.active,
                    tool_batch_open: before.tool_batch_open,
                    events: before.events,
                    stats: before.stats,
                    ..after
                },
            )
        }),
{
}

/// An interrupted call is reported as cancelled under its own identity and name,
/// and answered with the same words: that it was aborted, and after which time.
pub proof fn law_interrupted_calls_are_told_so(
    event: RunEvent,
    item: ResponseItem,
    call: ActiveToolCall,
    known: InterruptedCall,
)
    requires
        tools::reports_interruption(event, call, known),
        tools::answers_interruption(item, call, known),
    ensures
        event matches RunEvent::ToolResult {
            call_id,
            tool,
            status,
            duration_ns,
            started_after_ns,
            result,
            metadata,
        } && call_id == call.call_id && tool == call.name && status == ToolStatus::Cancelled
            && duration_ns == known.duration_ns && started_after_ns is None && metadata is None && (
        result matches ToolOutputBody::Text(words) && words@ == if call.shell_abort_format {
            "Wall time: "@ + known.seconds@ + " seconds\naborted by user"@
        } else {
            "aborted by user after "@ + known.at_least_a_tenth@ + "s"@
        }),
        item matches ResponseItem::FunctionCallOutput { call_id, output, .. } ==> call_id
            == call.call_id && output is Text && output->Text_0@ == if call.shell_abort_format {
            "Wall time: "@ + known.seconds@ + " seconds\naborted by user"@
        } else {
            "aborted by user after "@ + known.at_least_a_tenth@ + "s"@
        },
        item matches ResponseItem::CustomToolCallOutput { call_id, output, .. } ==> call_id
            == call.call_id && output is Text && output->Text_0@ == if call.shell_abort_format {
            "Wall time: "@ + known.seconds@ + " seconds\naborted by user"@
        } else {
            "aborted by user after "@ + known.at_least_a_tenth@ + "s"@
        },
        item matches ResponseItem::ToolSearchOutput { call_id, tools, .. } ==> call_id
            == call.call_id && tools@.len() == 0,
        call.kind == CodeCallKind::Function <==> item is FunctionCallOutput,
        call.kind == CodeCallKind::Custom <==> item is CustomToolCallOutput,
        call.kind == CodeCallKind::ToolSearch <==> item is ToolSearchOutput,
{
    let output = choose|output: ToolOutputBody|
        #[trigger] tools::states_interruption(output, call, known) && tool_calls::answers(
            item,
            call.kind,
            call.call_id,
            output,
            Seq::empty(),
        );
    assert(tools::states_interruption(output, call, known));
}

/// A turn without a conversation leaves no boundary: a cancelled one, or a
/// failed one with open calls, is told to lack it; a failed one without open
/// calls hands its error back.
pub proof fn law_turns_without_a_conversation_leave_no_boundary(
    before: RunView,
    after: RunView,
    outcome: ModelTaskOutcome,
    result: Result<ModelTurnOutcome, NanocodexError>,
    known: Seq<InterruptedCall>,
    wall_ns: u64,
    notice: Arc<ResponseItem>,
    rates: Option<ServicePricing>,
)
    requires
        before.session is None,
        drive::leaves(before, after, outcome, result, known, wall_ns, notice, rates),
    ensures
        result is Err,
        outcome is Completed ==> after == before && (result->Err_0
            matches NanocodexError::InvalidAttemptState { detail } && detail@
            == "completed turn did not have a model session"@),
        outcome matches ModelTaskOutcome::Failed(error) ==> before.active.len() == 0
            ==> result->Err_0 == error,
        outcome is Cancelled || (outcome is Failed && before.active.len() > 0) ==> (result->Err_0
            matches NanocodexError::InvalidAttemptState { detail } && detail@
            == "interrupted turn did not have a model session"@),
        !(outcome is Completed) ==> after.active.len() == 0,
        outcome is Cancelled || (outcome is Failed && before.active.len() > 0) ==> exists|
            items: Seq<Arc<ResponseItem>>,
        |
            #[trigger] tools::interrupts(
                before.active,
                known,
                items,
                after.events.skip(before.events.len() as int),
            ),
        after.session is None,
{
    if outcome is Cancelled || (outcome is Failed && before.active.len() > 0) {
        let noted = match outcome {
            ModelTaskOutcome::Failed(error) => before.noting(error),
            _ => before,
        };
        assert(turn::orphaned(noted, after, known, wall_ns));
        assert(noted.active == before.active);
        assert(noted.events == before.events);
    }
}

/// A completed turn is handed out exactly where there is a conversation to go on
/// from: one that ended with a message needs the response that it came in.
pub proof fn law_completed_turns_need_a_response(
    before: RunView,
    after: RunView,
    result: Result<CompletedModelTurn, NanocodexError>,
    completion: TurnCompletion,
    rates: Option<ServicePricing>,
)
    requires
        turn::ends_completed(before, after, result, completion, rates),
    ensures
        result is Ok <==> before.session is Some && (completion is Message
            ==> before.conversation().previous_response_id is Some),
        result is Err ==> after == before,
        result is Err && before.session is Some ==> (result->Err_0
            matches NanocodexError::MalformedResponse { detail } && detail@
            == "completed turn did not have a response ID"@),
{
}

/// The failure of a call is handed out once, and leaves everything else of the
/// run as it is.
pub proof fn law_failures_of_calls_are_handed_out_once(before: RunView)
    requires
        before.active.len() > 0,
    ensures
        ({
            let after = before.first_failure_taken();
            &&& after.active.len() == before.active.len()
            &&& after.active[0].failure is None
            &&& after.active[0] == (ActiveToolCall { failure: None, ..before.active[0] })
            &&& after.active.skip(1) == before.active.skip(1)
            &&& after == (RunView { active: after.active, ..before })
            &&& after.first_failure_taken() == after
        }),
{
    let after = before.first_failure_taken();
    assert(after.active.skip(1) =~= before.active.skip(1));
    assert(after.first_failure_taken().active =~= after.active);
}

/// A turn can be cancelled while it waits for the provider, the tools, or the
/// next message, and neither before its conversation is there nor once its
/// outcome is known.
pub proof fn law_turns_are_cancelled_while_they_wait(phase: TurnPhase)
    ensures
        phase is Warming || phase is Sizing || phase is Compacting || phase is Steering
            || phase is Preparing || phase is Generating || phase is RunningTools
            ==> phase.cancellable(),
        phase is Idle || phase is Opening || phase is Telling || phase is Keeping || phase is Ending
            || phase is Reporting || phase is SizingRequested || phase is CompactingRequested
            ==> !phase.cancellable(),
        phase matches TurnPhase::Sizing(point) ==> (phase.before_message() <==> point.phase
            == CompactionPhase::PreTurn),
        phase matches TurnPhase::Compacting(point) ==> (phase.before_message() <==> point.phase
            == CompactionPhase::PreTurn),
        phase.before_message() ==> phase.cancellable(),
{
}

/// The end of a completed turn names what completed it: the model's message, or
/// the tool and the call that did. A turn that ended early names the reason.
pub proof fn law_endings_name_their_cause(
    ending: TurnEnding,
    ended: Result<ModelTurnOutcome, NanocodexError>,
)
    requires
        ending.describes(ended),
    ensures
        ended matches Ok(ModelTurnOutcome::Completed(turn)) ==> {
            &&& ending.status == TerminalStatus::Completed
            &&& ending.reason is None
            &&& turn.completion is Message ==> ending.completion == Some(RunCompletion::Message)
            &&& turn.completion matches TurnCompletion::TerminalTool { receipt } ==> (
            ending.completion matches Some(RunCompletion::TerminalTool { call_id, tool_name })
                && call_id == receipt@.call_id && tool_name == receipt@.tool)
        },
        ended matches Ok(ModelTurnOutcome::Cancelled(_)) ==> {
            &&& ending.status == TerminalStatus::Cancelled
            &&& ending.completion is None
            &&& ending.reason matches Some(reason) && reason@ == "the turn was cancelled"@
        },
        ended matches Ok(ModelTurnOutcome::Failed { error, .. }) ==> {
            &&& ending.status == TerminalStatus::Failed
            &&& ending.completion is None
            &&& ending.reason matches Some(reason) && reason@ == error.text()
        },
        ended matches Err(error) ==> {
            &&& ending.status == TerminalStatus::Failed
            &&& ending.completion is None
            &&& ending.reason matches Some(reason) && reason@ == error.text()
        },
{
}

/// A turn that goes on after the size of the context was settled states its
/// message before it, or takes steering in where that may come next, or prepares
/// the next generation; the conversation is the one that was left.
pub proof fn law_turns_resume_where_they_were(
    before: RunView,
    after: RunView,
    action: TurnAction,
    point: CompactionPoint,
    compacted: bool,
)
    requires
        before.session is Some,
        drive::resumes(before, after, action, point, compacted),
    ensures
        point.phase == CompactionPhase::PreTurn ==> action is Tell && after.phase
            == TurnPhase::Telling && after.conversation().history
            == before.conversation().history && (compacted ==> after.session->0.reinject_context),
        point.phase == CompactionPhase::MidTurn ==> {
            let lets_in = if point.holds_steers {
                !compacted
            } else {
                before.can_drain_steers
            };
            &&& after.session == before.session
            &&& action is PollSteer <==> lets_in
            &&& action is Prepare <==> !lets_in
            &&& after.phase == if lets_in {
                TurnPhase::Steering
            } else {
                TurnPhase::Preparing
            }
            &&& after.can_drain_steers == lets_in
        },
        after.stats == before.stats,
        after.events == before.events,
        after.active == before.active,
{
}

/// A turn may be compacted before its message, counting what was generated so
/// far, or after one of its generations; only there steering can be held back.
pub proof fn law_compaction_points_say_where_they_are(generations: u32, holds_steers: bool)
    ensures
        drive::before_turn(generations).phase == CompactionPhase::PreTurn,
        drive::before_turn(generations).after_model_call_index == generations,
        !drive::before_turn(generations).holds_steers,
        drive::within_turn(generations, holds_steers).phase == CompactionPhase::MidTurn,
        drive::within_turn(generations, holds_steers).after_model_call_index == generations,
        drive::within_turn(generations, holds_steers).holds_steers == holds_steers,
{
}

/// A task that names another workspace is refused with both names.
pub proof fn law_refused_tasks_name_both_workspaces(
    error: NanocodexError,
    session: ModelSessionView,
    asked: Seq<char>,
)
    requires
        turn::refuses_workspace(error, session, asked),
    ensures
        error matches NanocodexError::WorkspaceChanged { current, requested } && current
            == session.workspace && requested@ == asked,
{
}

/// The user's message enters the conversation as the user wrote it, under the
/// identity that comes next.
pub proof fn law_messages_are_kept_as_written(
    item: ResponseItem,
    content: Seq<ContentItem>,
    held: conversation::ConversationView,
)
    requires
        turn::is_kept_user_item(item, content, held),
    ensures
        item matches ResponseItem::Message { role, content: parts, .. } && role == MessageRole::User
            && parts@ == content,
        item.identity() == Some(
            conversation::numbered(ItemKind::Message, held.item_seed, held.item_count),
        ),
{
}

/// Each call of a batch is announced with its arguments as they are shown, and
/// remembered under the generation that made it; nothing but the batch changes.
pub proof fn law_batches_are_remembered(
    before: RunView,
    after: RunView,
    call_index: u32,
    calls: Seq<CodeCall>,
    at: int,
)
    requires
        tools::batch_prepared(before, after, call_index, calls),
        0 <= at < calls.len(),
    ensures
        after.indices.len() == before.indices.len() + calls.len(),
        after.indices.take(before.indices.len() as int) == before.indices,
        after.indices[before.indices.len() + at].call_id == calls[at].call_id,
        after.indices[before.indices.len() + at].index == call_index,
        after.events[before.events.len() + at] matches RunEvent::ToolCall { arguments, .. }
            && tool_calls::shows_arguments(calls[at], arguments),
        after == (RunView {
            tool_batch_open: true,
            batch_failed: false,
            batch_terminal: after.batch_terminal,
            indices: after.indices,
            active: after.active,
            events: after.events,
            stats: after.stats,
            ..before
        }),
        after.stats == (RunStats { tool_calls: after.stats.tool_calls, ..before.stats }),
{
    assert(after.indices.take(before.indices.len() as int) =~= before.indices);
    let event = after.events[before.events.len() + at];
    assert(tools::announces(event, calls[at], call_index));
}

/// Recording and answering calls, and closing a batch, touch the calls, the
/// counters, the reports, and the items of the conversation, and nothing else.
pub proof fn law_calls_change_nothing_else(
    before: RunView,
    position: int,
    result: Result<CompletedToolCall, NanocodexError>,
    work_duration_ns: u64,
    wall_ns: u64,
)
    requires
        before.session is Some,
    ensures
        ({
            let ended = before.call_ended(position, result, work_duration_ns);
            let settled = before.settled();
            let closed = before.batch_closed(wall_ns);
            let taken = before.selection_taken();
            &&& ended == (RunView { active: ended.active, events: ended.events, ..before })
            &&& beside_the_conversation(
                before,
                RunView {
                    active: before.active,
                    batch_failed: before.batch_failed,
                    batch_terminal: before.batch_terminal,
                    stats: before.stats,
                    ..settled
                },
            )
            &&& settled.stats == (RunStats {
                tool_work_duration_ns: settled.stats.tool_work_duration_ns,
                tool_calls: settled.stats.tool_calls,
                ..before.stats
            })
            &&& closed == (RunView { tool_batch_open: false, stats: closed.stats, ..before })
            &&& closed.stats == (RunStats {
                tool_wall_duration_ns: closed.stats.tool_wall_duration_ns,
                ..before.stats
            })
            &&& taken.batch_terminal is Unselected
            &&& taken == (RunView { batch_terminal: taken.batch_terminal, ..before })
        }),
{
}

/// A turn that was started, taken up, or opened changes what it is for, and
/// nothing else of the run.
pub proof fn law_starts_change_nothing_else(
    before: RunView,
    task: Prompt,
    workspace: Option<String>,
    thinking: Thinking,
    fast_mode: bool,
    logical_turn: u64,
    completion: TurnCompletion,
    error: NanocodexError,
    wall_ns: u64,
)
    requires
        before.session is Some,
    ensures
        ({
            let begun = before.begun(task, workspace, thinking, fast_mode);
            let up = before.taken_up(logical_turn);
            let away = before.turned_away(logical_turn);
            let concluded = before.concluded(completion);
            let failed = before.noting(error).failed_quietly(wall_ns);
            &&& begun == (RunView {
                thinking,
                fast_mode,
                stats: begun.stats,
                can_drain_steers: false,
                events: begun.events,
                ..before
            })
            &&& up == (RunView { session: up.session, ..before })
            &&& up.session->0 == (ModelSessionView {
                logical_turn,
                conversation: up.conversation(),
                ..before.session->0
            })
            &&& up.conversation().canonical_context == before.conversation().canonical_context
            &&& up.conversation().item_seed == before.conversation().item_seed
            &&& up.conversation().item_count == before.conversation().item_count
            &&& away == (RunView { session: away.session, ..before })
            &&& away.session->0 == (ModelSessionView { logical_turn, ..before.session->0 })
            &&& concluded == (RunView { session: concluded.session, ..before })
            &&& concluded.session->0 == (ModelSessionView {
                conversation: concluded.conversation(),
                preserve_inherited_delta: concluded.session->0.preserve_inherited_delta,
                ..before.session->0
            })
            &&& completion.said() is None ==> !concluded.session->0.preserve_inherited_delta
            &&& failed == (RunView {
                session: failed.session,
                force_compaction: failed.force_compaction,
                tool_batch_open: failed.tool_batch_open,
                stats: failed.stats,
                ..before
            })
            &&& failed.session->0 == (ModelSessionView {
                conversation: failed.conversation(),
                preserve_inherited_delta: false,
                ..before.session->0
            })
            &&& failed.stats == (RunStats {
                tool_wall_duration_ns: failed.stats.tool_wall_duration_ns,
                ..before.stats
            })
        }),
{
}

/// A message that completes a turn is what the turn says; a tool that completes
/// it says nothing.
pub proof fn law_tools_end_turns_silently(completion: TurnCompletion)
    ensures
        completion matches TurnCompletion::Message { final_message } ==> completion.said()
            == Some(final_message@),
        completion is TerminalTool ==> completion.said() is None,
{
}

/// A reply of the wrong kind ends the turn with an error that says so, and
/// changes nothing else.
pub proof fn law_misplaced_replies_end_the_turn(
    before: RunView,
    after: RunView,
    action: TurnAction,
    expected: Seq<char>,
)
    requires
        drive::gives_up_on_reply(before, after, action, expected),
    ensures
        action matches TurnAction::End(
            ModelTaskOutcome::Failed(NanocodexError::InvalidAttemptState { detail }),
        ) && detail@ == expected,
        after.phase == TurnPhase::Ending,
        after == (RunView { phase: after.phase, ..before }),
{
}

} // verus!
