//! What holds of every state an agent can reach.
//!
//! The operations of the engine are given by the `step_` functions of the
//! agent module. This module states the invariant of the states they reach
//! from a fresh agent and proves that each operation keeps it, together with
//! what each returned action then guarantees.

use crate::agent::{
    answered, busy, needs_approval, pending_of, refusal, request_of, response_calls, step_approve,
    step_approve_always, step_backend_failed, step_backend_replied, step_batch, step_chat,
    step_clear, step_execute, step_reject, step_request, step_tool_finished, with_user_input,
    ActionView, AgentStatusView, AgentView, PendingToolCallView,
};
use crate::conversation::{
    all_resolved, answered_after, answers, awaiting_results, calls_of, cleared, last_assistant,
    lemma_last_assistant, lemma_not_awaiting_all_resolved, lemma_push_assistant_only_last_open,
    lemma_push_keeps_resolved, lemma_push_other_keeps_last, lemma_push_other_keeps_only_last_open,
    only_last_open, resolved_at,
};
use crate::message::{
    assistant_message, system_message, tool_message, user_message, ChatCompletionResponseView,
    MessageView, Role, ToolCallView,
};
use vstd::prelude::*;

verus! {

/// The ids that the tool messages after the most recent assistant message
/// answer, in the order of the messages.
pub open spec fn trailing_answers(h: Seq<MessageView>) -> Seq<Option<Seq<char>>>
    decreases h.len(),
{
    if h.len() == 0 {
        Seq::empty()
    } else if h.last().role == Role::Assistant {
        Seq::empty()
    } else if h.last().role == Role::Tool {
        trailing_answers(h.drop_last()).push(h.last().tool_call_id)
    } else {
        trailing_answers(h.drop_last())
    }
}

/// The ids of a list of calls, in order.
pub open spec fn call_ids(calls: Seq<ToolCallView>) -> Seq<Option<Seq<char>>> {
    Seq::new(calls.len(), |i: int| Some(calls[i].id))
}

/// Whether `a` is the beginning of `b`.
pub open spec fn is_prefix(a: Seq<MessageView>, b: Seq<MessageView>) -> bool {
    a.len() <= b.len() && b.take(a.len() as int) == a
}

/// Whether the batch is in step with the history: its calls are those of
/// the most recent assistant message, and the tool messages added since
/// answer the calls before the cursor, one each and in the order of the
/// calls.
pub open spec fn batch_in_step(s: AgentView) -> bool {
    &&& s.next <= s.batch.len()
    &&& last_assistant(s.history) matches Some(p) && calls_of(s.history[p]) == s.batch
    &&& trailing_answers(s.history) == call_ids(s.batch.take(s.next as int))
}

/// Whether `call` is the call under the cursor of a batch that is in step.
pub open spec fn is_current(s: AgentView, call: PendingToolCallView) -> bool {
    batch_in_step(s) && s.next < s.batch.len() && call == pending_of(s.batch[s.next as int])
}

/// The invariant of the states an agent reaches.
///
/// Every assistant message but the most recent one is resolved. At most one
/// thing is outstanding. While a request is outstanding every assistant
/// message is resolved. The call that runs or waits for approval is the one
/// under the cursor of a batch that is in step with the history. The status
/// shows the pending call exactly while there is one.
pub open spec fn well_formed(s: AgentView) -> bool {
    &&& only_last_open(s.history)
    &&& !(s.requesting && s.running is Some)
    &&& !(s.requesting && s.pending_tool_call is Some)
    &&& !(s.running is Some && s.pending_tool_call is Some)
    &&& s.requesting ==> all_resolved(s.history)
    &&& s.running matches Some(call) ==> is_current(s, call)
    &&& s.pending_tool_call matches Some(call) ==> is_current(s, call)
    &&& s.pending_tool_call == match s.status {
        AgentStatusView::WaitingForApproval(call) => Some(call),
        _ => None,
    }
}

/// What an action guarantees in the state it leaves behind.
///
/// A request is the projection of a history in which every assistant
/// message is resolved. A tool is run only for the call under the cursor,
/// and only when nothing refuses it: its arguments parse, the shell policy
/// lets it through and the tool is registered. Approval is awaited only for
/// a call that the policy gates.
pub open spec fn action_sound(s: AgentView, action: ActionView) -> bool {
    match action {
        ActionView::CallBackend(request) => {
            &&& request == request_of(s)
            &&& s.requesting
            &&& all_resolved(s.history)
        },
        ActionView::RunTool(call) => {
            &&& s.running == Some(call)
            &&& refusal(s, call.tool_name, call.arguments) is None
        },
        ActionView::AwaitApproval => {
            &&& s.pending_tool_call matches Some(call)
            &&& needs_approval(s, call.tool_name)
            &&& s.status == AgentStatusView::WaitingForApproval(call)
        },
        _ => true,
    }
}

/// Whether an operation that took `before` to `after` kept the invariant,
/// only added to the history, and returned an action that is sound.
pub open spec fn step_ok(before: AgentView, after: AgentView, action: ActionView) -> bool {
    &&& well_formed(after)
    &&& is_prefix(before.history, after.history)
    &&& action_sound(after, action)
}

/// Every history begins with itself, and still begins a history that one
/// more message is appended to.
pub proof fn lemma_prefix_self(a: Seq<MessageView>)
    ensures
        is_prefix(a, a),
        forall|m: MessageView| is_prefix(a, #[trigger] a.push(m)),
{
    assert(a.take(a.len() as int) =~= a);
    assert forall|m: MessageView| is_prefix(a, #[trigger] a.push(m)) by {
        assert(a.push(m).take(a.len() as int) =~= a);
    }
}

/// The beginning of a beginning is a beginning.
pub proof fn lemma_prefix_trans(a: Seq<MessageView>, b: Seq<MessageView>, c: Seq<MessageView>)
    requires
        is_prefix(a, b),
        is_prefix(b, c),
    ensures
        is_prefix(a, c),
{
    assert(c.take(a.len() as int) =~= c.take(b.len() as int).take(a.len() as int));
}

/// Appending a message that is no assistant message keeps every assistant
/// message resolved.
pub proof fn lemma_push_other_keeps_all_resolved(h: Seq<MessageView>, m: MessageView)
    requires
        all_resolved(h),
        m.role != Role::Assistant,
    ensures
        all_resolved(h.push(m)),
{
    let g = h.push(m);
    assert forall|i: int| 0 <= i < g.len() && (#[trigger] g[i]).role == Role::Assistant implies resolved_at(
        g,
        i,
    ) by {
        assert(g[i] == h[i]);
        lemma_push_keeps_resolved(h, m, i);
    }
}

/// What appending one message does to the answers that trail the most recent
/// assistant message.
pub proof fn lemma_trailing_push(h: Seq<MessageView>, m: MessageView)
    ensures
        trailing_answers(h.push(m)) == if m.role == Role::Assistant {
            Seq::empty()
        } else if m.role == Role::Tool {
            trailing_answers(h).push(m.tool_call_id)
        } else {
            trailing_answers(h)
        },
{
    assert(h.push(m).drop_last() =~= h);
}

/// Whether a tool message after position `p` carries the id `id`.
pub open spec fn has_answer(h: Seq<MessageView>, p: int, id: Option<Seq<char>>) -> bool {
    exists|j: int| p < j < h.len() && (#[trigger] h[j]).role == Role::Tool && h[j].tool_call_id == id
}

/// Each of the trailing answers is carried by a tool message after the most
/// recent assistant message.
pub proof fn lemma_trailing_answered(h: Seq<MessageView>)
    requires
        last_assistant(h) is Some,
    ensures
        forall|k: int|
            0 <= k < trailing_answers(h).len() ==> has_answer(
                h,
                last_assistant(h)->0,
                #[trigger] trailing_answers(h)[k],
            ),
    decreases h.len(),
{
    let p = last_assistant(h)->0;
    if h.len() > 0 && h.last().role != Role::Assistant {
        let rest = h.drop_last();
        lemma_trailing_answered(rest);
        lemma_last_assistant(rest);
        assert forall|k: int| 0 <= k < trailing_answers(h).len() implies has_answer(
            h,
            p,
            #[trigger] trailing_answers(h)[k],
        ) by {
            if k < trailing_answers(rest).len() {
                let id = trailing_answers(rest)[k];
                assert(has_answer(rest, p, id));
                let j = choose|j: int|
                    p < j < rest.len() && (#[trigger] rest[j]).role == Role::Tool
                        && rest[j].tool_call_id == id;
                assert(h[j] == rest[j]);
            } else {
                assert(h[h.len() - 1].role == Role::Tool);
            }
        }
    }
}

/// Once the cursor is past the last call of a batch that is in step, the
/// most recent assistant message is resolved.
pub proof fn lemma_finished_batch_resolved(s: AgentView)
    requires
        batch_in_step(s),
        s.next >= s.batch.len(),
    ensures
        !awaiting_results(s.history),
{
    let h = s.history;
    let p = last_assistant(h)->0;
    lemma_trailing_answered(h);
    assert(s.batch.take(s.next as int) =~= s.batch);
    assert forall|k: int| 0 <= k < calls_of(h[p]).len() implies answered_after(
        h,
        p,
        #[trigger] calls_of(h[p])[k].id,
    ) by {
        let id = Some(s.batch[k].id);
        assert(trailing_answers(h)[k] == id);
        assert(has_answer(h, p, id));
        let j = choose|j: int|
            p < j < h.len() && (#[trigger] h[j]).role == Role::Tool && h[j].tool_call_id == id;
        assert(answers(h[j], s.batch[k].id));
    }
}

/// Answering the call under the cursor keeps the batch in step.
pub proof fn lemma_answered_in_step(s: AgentView, content: Seq<char>)
    requires
        batch_in_step(s),
        s.next < s.batch.len(),
        only_last_open(s.history),
    ensures
        batch_in_step(answered(s, s.batch[s.next as int].id, content)),
        only_last_open(answered(s, s.batch[s.next as int].id, content).history),
        is_prefix(s.history, answered(s, s.batch[s.next as int].id, content).history),
{
    let id = s.batch[s.next as int].id;
    let m = tool_message(id, content);
    let t = answered(s, id, content);
    lemma_trailing_push(s.history, m);
    lemma_push_other_keeps_last(s.history, m);
    lemma_push_other_keeps_only_last_open(s.history, m);
    lemma_last_assistant(s.history);
    lemma_prefix_self(s.history);
    assert(call_ids(s.batch.take(s.next as int)).push(Some(id)) =~= call_ids(
        s.batch.take(s.next as int + 1),
    ));
}

/// Whether, when the action is a request, the tool messages after the most
/// recent assistant message answer all calls of the batch, one each, in the
/// order of the calls.
pub open spec fn all_answered_in_order(s: AgentView, action: ActionView) -> bool {
    action is CallBackend ==> trailing_answers(s.history) == call_ids(s.batch)
}

/// Starting a round keeps the invariant, and the request it sends comes
/// from a history in which every assistant message is resolved.
pub proof fn lemma_request(s: AgentView)
    requires
        only_last_open(s.history),
        !busy(s),
        !(s.status is WaitingForApproval),
    ensures
        step_ok(s, step_request(s).0, step_request(s).1),
        step_request(s).0.history == s.history,
{
    lemma_prefix_self(s.history);
    if !awaiting_results(s.history) {
        lemma_not_awaiting_all_resolved(s.history);
    }
}

/// Working on a batch that is in step keeps the invariant, and ends with a
/// request, a tool to run or a call that waits for approval.
pub proof fn lemma_batch(s: AgentView)
    requires
        only_last_open(s.history),
        batch_in_step(s),
        !busy(s),
        !(s.status is WaitingForApproval),
    ensures
        step_ok(s, step_batch(s).0, step_batch(s).1),
        step_batch(s).1 is CallBackend || step_batch(s).1 is RunTool || step_batch(s).1
            is AwaitApproval,
        all_answered_in_order(step_batch(s).0, step_batch(s).1),
    decreases s.batch.len() - s.next,
{
    if s.next >= s.batch.len() {
        lemma_finished_batch_resolved(s);
        lemma_request(s);
        assert(s.batch.take(s.next as int) =~= s.batch);
    } else {
        let call = s.batch[s.next as int];
        if s.gate_each && needs_approval(s, call.function.name) {
            lemma_prefix_self(s.history);
        } else {
            lemma_execute(s, pending_of(call));
        }
    }
}

/// Taking up the call under the cursor of a batch that is in step keeps the
/// invariant.
pub proof fn lemma_execute(s: AgentView, call: PendingToolCallView)
    requires
        only_last_open(s.history),
        is_current(s, call),
        !busy(s),
        !(s.status is WaitingForApproval),
    ensures
        step_ok(s, step_execute(s, call).0, step_execute(s, call).1),
        step_execute(s, call).1 is CallBackend || step_execute(s, call).1 is RunTool
            || step_execute(s, call).1 is AwaitApproval,
        all_answered_in_order(step_execute(s, call).0, step_execute(s, call).1),
    decreases s.batch.len() - s.next, 0nat,
{
    match refusal(s, call.tool_name, call.arguments) {
        Some(content) => {
            let t = answered(s, call.id, content);
            lemma_answered_in_step(s, content);
            lemma_batch(t);
            lemma_prefix_trans(s.history, t.history, step_batch(t).0.history);
        },
        None => {
            lemma_prefix_self(s.history);
        },
    }
}

/// Appending a system or user message keeps the invariant.
pub proof fn lemma_bystander(s: AgentView, m: MessageView)
    requires
        well_formed(s),
        m.role == Role::System || m.role == Role::User,
    ensures
        well_formed(AgentView { history: s.history.push(m), ..s }),
        is_prefix(s.history, s.history.push(m)),
{
    let t = AgentView { history: s.history.push(m), ..s };
    lemma_push_other_keeps_only_last_open(s.history, m);
    lemma_push_other_keeps_last(s.history, m);
    lemma_trailing_push(s.history, m);
    lemma_last_assistant(s.history);
    lemma_prefix_self(s.history);
    if s.requesting {
        lemma_push_other_keeps_all_resolved(s.history, m);
    }
    if s.running is Some || s.pending_tool_call is Some {
        assert(batch_in_step(t));
    }
}

/// Taking in a user's input keeps the invariant.
pub proof fn lemma_chat(s: AgentView, input: Seq<char>, memories: Seq<(Seq<char>, Seq<char>)>)
    requires
        well_formed(s),
    ensures
        step_ok(s, step_chat(s, input, memories).0, step_chat(s, input, memories).1),
{
    let taken = AgentView { history: with_user_input(s.history, input, memories), ..s };
    if memories.len() > 0 {
        let context = system_message(crate::agent::memory_context(memories));
        let mid = AgentView { history: s.history.push(context), ..s };
        lemma_bystander(s, context);
        lemma_bystander(mid, user_message(input));
        lemma_prefix_trans(s.history, mid.history, taken.history);
    } else {
        lemma_bystander(s, user_message(input));
    }
    if !busy(s) {
        lemma_request(taken);
    }
}

/// Taking in the backend's response keeps the invariant.
pub proof fn lemma_backend_replied(s: AgentView, response: ChatCompletionResponseView)
    requires
        well_formed(s),
    ensures
        step_ok(s, step_backend_replied(s, response).0, step_backend_replied(s, response).1),
{
    let calls = response_calls(response);
    let m = assistant_message(response);
    let h = s.history.push(m);
    lemma_prefix_self(s.history);
    if s.requesting && !(response.content is None && calls.len() == 0) {
        lemma_push_assistant_only_last_open(s.history, m);
        if calls.len() > 0 {
            let started = AgentView {
                history: h,
                requesting: false,
                batch: calls,
                next: 0,
                gate_each: false,
                ..s
            };
            lemma_trailing_push(s.history, m);
            assert(call_ids(calls.take(0)) =~= Seq::empty());
            assert(batch_in_step(started));
            if !needs_approval(s, calls[0].function.name) {
                lemma_batch(started);
                lemma_prefix_trans(s.history, h, step_batch(started).0.history);
            }
        }
    }
}

/// Taking in the failure of the backend request keeps the invariant.
pub proof fn lemma_backend_failed(s: AgentView, message: Seq<char>)
    requires
        well_formed(s),
    ensures
        step_ok(s, step_backend_failed(s, message).0, step_backend_failed(s, message).1),
{
    lemma_prefix_self(s.history);
}

/// Taking in the outcome of a tool run keeps the invariant.
pub proof fn lemma_tool_finished(s: AgentView, outcome: Result<Seq<char>, Seq<char>>)
    requires
        well_formed(s),
    ensures
        step_ok(s, step_tool_finished(s, outcome).0, step_tool_finished(s, outcome).1),
{
    lemma_prefix_self(s.history);
    if let Some(call) = s.running {
        let cleared = AgentView { running: None, ..s };
        let content = crate::agent::outcome_content(outcome);
        lemma_answered_in_step(cleared, content);
        let t = answered(cleared, call.id, content);
        lemma_batch(t);
        lemma_prefix_trans(s.history, t.history, step_batch(t).0.history);
    }
}

/// Approving the pending call keeps the invariant.
pub proof fn lemma_approve(s: AgentView)
    requires
        well_formed(s),
    ensures
        step_ok(s, step_approve(s).0, step_approve(s).1),
{
    lemma_prefix_self(s.history);
    if let Some(call) = s.pending_tool_call {
        let cleared = AgentView {
            pending_tool_call: None,
            status: AgentStatusView::Thinking,
            gate_each: true,
            ..s
        };
        lemma_execute(cleared, call);
    }
}

/// Putting a tool on the allow-list and approving the pending call keeps
/// the invariant.
pub proof fn lemma_approve_always(s: AgentView, name: Seq<char>)
    requires
        well_formed(s),
    ensures
        step_ok(s, step_approve_always(s, name).0, step_approve_always(s, name).1),
{
    lemma_approve(AgentView { allowed_tools: crate::agent::allowing(s.allowed_tools, name), ..s });
}

/// Rejecting the pending call keeps the invariant.
pub proof fn lemma_reject(s: AgentView, reason: Seq<char>)
    requires
        well_formed(s),
    ensures
        step_ok(s, step_reject(s, reason).0, step_reject(s, reason).1),
{
    lemma_prefix_self(s.history);
    if let Some(call) = s.pending_tool_call {
        let cleared = AgentView {
            pending_tool_call: None,
            status: AgentStatusView::Thinking,
            gate_each: true,
            ..s
        };
        let content = crate::json::rejection_json(reason);
        lemma_answered_in_step(cleared, content);
        let t = answered(cleared, call.id, content);
        lemma_batch(t);
        lemma_prefix_trans(s.history, t.history, step_batch(t).0.history);
    }
}

/// The invariant speaks of the conversation and the turn alone: switching
/// the model, pausing, resuming and changing the queue of tasks keep it.
pub proof fn lemma_other_changes_keep_invariant(s: AgentView, t: AgentView)
    requires
        well_formed(s),
        t == (AgentView { provider: t.provider, paused: t.paused, tasks: t.tasks, ..s }),
    ensures
        well_formed(t),
{
    if s.running is Some || s.pending_tool_call is Some {
        assert(batch_in_step(t));
    }
}

/// A fresh agent meets the invariant.
pub proof fn lemma_fresh_agent(
    config: crate::config::ConfigView,
    provider: crate::providers::ProviderKindView,
)
    ensures
        well_formed(crate::agent::fresh_agent(config, provider)),
{
}

/// Clearing the conversation leaves a state that meets the invariant,
/// whatever the state before.
pub proof fn lemma_clear(s: AgentView)
    ensures
        well_formed(step_clear(s)),
{
    let h = cleared(s.history);
    lemma_last_assistant(h);
}

/// No request reaches a backend with an unresolved tool call: whenever an
/// operation on a reachable state returns a request, every assistant
/// message among the messages of the request has, for each of its tool
/// calls, a later tool message in the request that answers it.
pub proof fn lemma_sent_requests_are_resolved(s: AgentView, action: ActionView)
    requires
        action_sound(s, action),
        action is CallBackend,
    ensures
        all_resolved(action->CallBackend_0.messages),
{
    crate::conversation::lemma_view_resolved(s.history);
}

/// In every reachable state with a call running or pending, the tool
/// messages after the most recent assistant message answer the calls of its
/// batch before the cursor, one each, in the order of the calls.
pub proof fn lemma_answers_in_call_order(s: AgentView, k: int)
    requires
        well_formed(s),
        s.running is Some || s.pending_tool_call is Some,
        0 <= k < s.next,
    ensures
        s.next < s.batch.len(),
        trailing_answers(s.history).len() == s.next,
        trailing_answers(s.history)[k] == Some(s.batch[k].id),
{
}

/// Tool calls are answered in the order of the batch: when the outcome of
/// a tool run or a rejection leads to the next request, the tool messages
/// after the most recent assistant message carry the ids of all calls of
/// the batch, one message per call, in the order of the calls.
pub proof fn lemma_batch_answered_in_order(
    s: AgentView,
    outcome: Result<Seq<char>, Seq<char>>,
    reason: Seq<char>,
)
    requires
        well_formed(s),
    ensures
        all_answered_in_order(step_tool_finished(s, outcome).0, step_tool_finished(s, outcome).1),
        all_answered_in_order(step_reject(s, reason).0, step_reject(s, reason).1),
        all_answered_in_order(step_approve(s).0, step_approve(s).1),
{
    if let Some(call) = s.running {
        let cleared = AgentView { running: None, ..s };
        let content = crate::agent::outcome_content(outcome);
        lemma_answered_in_step(cleared, content);
        lemma_batch(answered(cleared, call.id, content));
    }
    if let Some(call) = s.pending_tool_call {
        let cleared = AgentView {
            pending_tool_call: None,
            status: AgentStatusView::Thinking,
            gate_each: true,
            ..s
        };
        let content = crate::json::rejection_json(reason);
        lemma_answered_in_step(cleared, content);
        lemma_batch(answered(cleared, call.id, content));
        lemma_execute(cleared, call);
    }
}

/// With approval required and the first tool of a response not on the
/// allow-list, the response is recorded, its first call becomes the pending
/// call, the status shows it, and nothing is run.
pub proof fn lemma_gated_response(s: AgentView, response: ChatCompletionResponseView)
    requires
        s.requesting,
        response_calls(response).len() > 0,
        s.config.tools.require_approval,
        !s.allowed_tools.contains(response_calls(response)[0].function.name),
    ensures
        step_backend_replied(s, response).1 == ActionView::AwaitApproval,
        step_backend_replied(s, response).0.status == AgentStatusView::WaitingForApproval(
            pending_of(response_calls(response)[0]),
        ),
        step_backend_replied(s, response).0.history == s.history.push(assistant_message(response)),
        step_backend_replied(s, response).0.running == s.running,
{
}

/// Rejecting the pending call appends the rejection with the user's reason
/// as the answer to that call, moves the cursor past it, and never hands
/// that call to the caller: a tool that runs next is a later call of the
/// batch.
pub proof fn lemma_rejected_call_is_answered(s: AgentView, reason: Seq<char>)
    requires
        well_formed(s),
        s.pending_tool_call is Some,
    ensures
        is_prefix(
            s.history.push(
                tool_message(s.pending_tool_call->0.id, crate::json::rejection_json(reason)),
            ),
            step_reject(s, reason).0.history,
        ),
        step_reject(s, reason).0.next > s.next,
        step_reject(s, reason).1 is RunTool ==> step_reject(s, reason).1->RunTool_0 == pending_of(
            s.batch[step_reject(s, reason).0.next as int],
        ),
{
    let call = s.pending_tool_call->0;
    let cleared = AgentView {
        pending_tool_call: None,
        status: AgentStatusView::Thinking,
        gate_each: true,
        ..s
    };
    let content = crate::json::rejection_json(reason);
    lemma_answered_in_step(cleared, content);
    let t = answered(cleared, call.id, content);
    lemma_batch(t);
    lemma_batch_moves_on(t);
}

/// Working on a batch never moves the cursor back, never shortens the
/// history, never changes the batch, the policy or the tools, and hands the
/// caller only a call that nothing refuses.
pub proof fn lemma_batch_moves_on(s: AgentView)
    ensures
        step_batch(s).0.next >= s.next,
        step_batch(s).0.batch == s.batch,
        step_batch(s).0.config == s.config,
        step_batch(s).0.tools == s.tools,
        is_prefix(s.history, step_batch(s).0.history),
        step_batch(s).1 matches ActionView::RunTool(call) ==> refusal(
            s,
            call.tool_name,
            call.arguments,
        ) is None,
    decreases s.batch.len() - s.next,
{
    lemma_prefix_self(s.history);
    if s.next < s.batch.len() {
        let call = s.batch[s.next as int];
        if !(s.gate_each && needs_approval(s, call.function.name)) {
            match refusal(s, call.function.name, call.function.arguments) {
                Some(content) => {
                    let t = answered(s, call.id, content);
                    lemma_batch_moves_on(t);
                    lemma_prefix_trans(s.history, t.history, step_batch(t).0.history);
                },
                None => {},
            }
        }
    }
}

/// A shell call that the policy refuses is never handed to the caller: the
/// refusal is recorded as the answer to the call, as a JSON object whose
/// `error` member is the policy's message, and the engine goes on.
pub proof fn lemma_refused_shell_call_never_runs(s: AgentView, call: PendingToolCallView)
    requires
        call.tool_name == "shell"@,
        crate::json::json_syntax_error_of(call.arguments) is None,
        crate::config::shell_denial(
            s.config.tools,
            crate::json::json_string_member_of(call.arguments, "command"@),
        ) is Some,
    ensures
        step_execute(s, call).1 != ActionView::RunTool(call),
        is_prefix(
            s.history.push(
                tool_message(
                    call.id,
                    crate::json::error_json(
                        crate::config::shell_denial(
                            s.config.tools,
                            crate::json::json_string_member_of(call.arguments, "command"@),
                        )->0,
                    ),
                ),
            ),
            step_execute(s, call).0.history,
        ),
{
    let content = refusal(s, call.tool_name, call.arguments)->0;
    let t = answered(s, call.id, content);
    lemma_prefix_self(t.history);
    if s.next < s.batch.len() {
        lemma_batch_moves_on(t);
    }
}

} // verus!
