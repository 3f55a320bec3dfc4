//! The conversation history and the projection of it that a backend accepts.
//!
//! A history is an append-ordered sequence of messages. An assistant message
//! that carries tool calls is resolved once every call has a later tool
//! message with the same id. While the most recent assistant message is not
//! resolved, the turn is still in progress and nothing may be sent to the
//! backend.

use crate::message::{clone_messages, Message, MessageView, Role, ToolCallView};
use vstd::prelude::*;

verus! {

/// The tool calls a message carries: none when the field is absent.
pub open spec fn calls_of(m: MessageView) -> Seq<ToolCallView> {
    match m.tool_calls {
        Some(calls) => calls,
        None => Seq::empty(),
    }
}

/// Whether `m` is a tool message answering the call `id`.
pub open spec fn answers(m: MessageView, id: Seq<char>) -> bool {
    m.role == Role::Tool && m.tool_call_id == Some(id)
}

/// Whether some message after position `i` answers the call `id`.
pub open spec fn answered_after(h: Seq<MessageView>, i: int, id: Seq<char>) -> bool {
    exists|j: int| i < j < h.len() && answers(#[trigger] h[j], id)
}

/// Whether every call carried by the message at position `i` is answered later.
pub open spec fn resolved_at(h: Seq<MessageView>, i: int) -> bool {
    forall|k: int|
        0 <= k < calls_of(h[i]).len() ==> answered_after(h, i, #[trigger] calls_of(h[i])[k].id)
}

/// Position of the most recent assistant message, if there is one.
pub open spec fn last_assistant(h: Seq<MessageView>) -> Option<int>
    decreases h.len(),
{
    if h.len() == 0 {
        None
    } else if h.last().role == Role::Assistant {
        Some(h.len() - 1)
    } else {
        last_assistant(h.drop_last())
    }
}

/// Whether the most recent assistant message still has an unanswered call.
pub open spec fn awaiting_results(h: Seq<MessageView>) -> bool {
    match last_assistant(h) {
        Some(i) => !resolved_at(h, i),
        None => false,
    }
}

/// Whether every assistant message of the history is resolved.
pub open spec fn all_resolved(h: Seq<MessageView>) -> bool {
    forall|i: int| 0 <= i < h.len() && (#[trigger] h[i]).role == Role::Assistant ==> resolved_at(h, i)
}

/// Whether every assistant message but the most recent one is resolved.
pub open spec fn only_last_open(h: Seq<MessageView>) -> bool {
    forall|i: int|
        0 <= i < h.len() && (#[trigger] h[i]).role == Role::Assistant && last_assistant(h) != Some(i)
            ==> resolved_at(h, i)
}

/// Whether a message carries text that is not empty.
pub open spec fn has_text(m: MessageView) -> bool {
    m.content matches Some(text) && text.len() > 0
}

/// Whether the projection keeps a message: an assistant message is kept only
/// with text or with at least one tool call, every other message always.
pub open spec fn is_kept(m: MessageView) -> bool {
    m.role == Role::Assistant ==> has_text(m) || calls_of(m).len() > 0
}

/// A message as the backend receives it: a tool message without content gets
/// the empty text, every other message is unchanged.
pub open spec fn normalized(m: MessageView) -> MessageView {
    if m.role == Role::Tool && m.content is None {
        MessageView { content: Some(Seq::empty()), ..m }
    } else {
        m
    }
}

/// The backend-safe projection of a history: the kept messages, in order,
/// each normalized.
pub open spec fn request_view(h: Seq<MessageView>) -> Seq<MessageView>
    decreases h.len(),
{
    if h.len() == 0 {
        Seq::empty()
    } else if is_kept(h.last()) {
        request_view(h.drop_last()).push(normalized(h.last()))
    } else {
        request_view(h.drop_last())
    }
}

/// A history cut back to its initial system message: the first message when
/// it is a system message, nothing otherwise.
pub open spec fn cleared(h: Seq<MessageView>) -> Seq<MessageView> {
    if h.len() > 0 && h[0].role == Role::System {
        seq![h[0]]
    } else {
        Seq::empty()
    }
}

/// The most recent assistant message is the last one in the sequence that
/// has the assistant role.
pub proof fn lemma_last_assistant(h: Seq<MessageView>)
    ensures
        match last_assistant(h) {
            Some(i) => 0 <= i < h.len() && h[i].role == Role::Assistant && forall|j: int|
                i < j < h.len() ==> (#[trigger] h[j]).role != Role::Assistant,
            None => forall|j: int| 0 <= j < h.len() ==> (#[trigger] h[j]).role != Role::Assistant,
        },
    decreases h.len(),
{
    if h.len() > 0 && h.last().role != Role::Assistant {
        let rest = h.drop_last();
        lemma_last_assistant(rest);
        assert(forall|j: int| 0 <= j < rest.len() ==> rest[j] == h[j]);
        match last_assistant(rest) {
            Some(i) => {
                assert forall|j: int| i < j < h.len() implies (#[trigger] h[j]).role
                    != Role::Assistant by {
                    if j < rest.len() {
                        assert(rest[j].role != Role::Assistant);
                    }
                }
            },
            None => {
                assert forall|j: int| 0 <= j < h.len() implies (#[trigger] h[j]).role
                    != Role::Assistant by {
                    if j < rest.len() {
                        assert(rest[j].role != Role::Assistant);
                    }
                }
            },
        }
    }
}

/// A position holding an assistant message with no assistant message after
/// it is the most recent one.
pub proof fn lemma_last_assistant_is(h: Seq<MessageView>, i: int)
    requires
        0 <= i < h.len(),
        h[i].role == Role::Assistant,
        forall|j: int| i < j < h.len() ==> (#[trigger] h[j]).role != Role::Assistant,
    ensures
        last_assistant(h) == Some(i),
{
    lemma_last_assistant(h);
}

/// Appending a message keeps every answer that was already there.
pub proof fn lemma_push_keeps_resolved(h: Seq<MessageView>, m: MessageView, i: int)
    requires
        0 <= i < h.len(),
        resolved_at(h, i),
    ensures
        resolved_at(h.push(m), i),
{
    let g = h.push(m);
    assert forall|k: int| 0 <= k < calls_of(g[i]).len() implies answered_after(
        g,
        i,
        #[trigger] calls_of(g[i])[k].id,
    ) by {
        let id = calls_of(h[i])[k].id;
        assert(answered_after(h, i, id));
        let j = choose|j: int| i < j < h.len() && answers(#[trigger] h[j], id);
        assert(answers(g[j], id));
    }
}

/// Appending a message that is no assistant message leaves the most recent
/// assistant message where it was.
pub proof fn lemma_push_other_keeps_last(h: Seq<MessageView>, m: MessageView)
    requires
        m.role != Role::Assistant,
    ensures
        last_assistant(h.push(m)) == last_assistant(h),
{
    assert(h.push(m).drop_last() =~= h);
}

/// Appending a message that is no assistant message keeps the histories in
/// which only the most recent assistant message may be unresolved.
pub proof fn lemma_push_other_keeps_only_last_open(h: Seq<MessageView>, m: MessageView)
    requires
        only_last_open(h),
        m.role != Role::Assistant,
    ensures
        only_last_open(h.push(m)),
{
    let g = h.push(m);
    lemma_push_other_keeps_last(h, m);
    assert forall|i: int|
        0 <= i < g.len() && (#[trigger] g[i]).role == Role::Assistant && last_assistant(g) != Some(
            i,
        ) implies resolved_at(g, i) by {
        assert(g[i] == h[i]);
        lemma_push_keeps_resolved(h, m, i);
    }
}

/// Appending an assistant message to a history whose assistant messages are
/// all resolved leaves only the new message possibly unresolved.
pub proof fn lemma_push_assistant_only_last_open(h: Seq<MessageView>, m: MessageView)
    requires
        all_resolved(h),
        m.role == Role::Assistant,
    ensures
        only_last_open(h.push(m)),
        last_assistant(h.push(m)) == Some(h.len() as int),
{
    let g = h.push(m);
    assert forall|i: int|
        0 <= i < g.len() && (#[trigger] g[i]).role == Role::Assistant && last_assistant(g) != Some(
            i,
        ) implies resolved_at(g, i) by {
        assert(g[i] == h[i]);
        lemma_push_keeps_resolved(h, m, i);
    }
}

/// Where only the most recent assistant message may be unresolved and it is
/// resolved too, every assistant message is.
pub proof fn lemma_not_awaiting_all_resolved(h: Seq<MessageView>)
    requires
        only_last_open(h),
        !awaiting_results(h),
    ensures
        all_resolved(h),
{
}

/// Whether `m` is the normalized form of a kept message of `h`.
pub open spec fn sent_from(h: Seq<MessageView>, m: MessageView) -> bool {
    exists|i: int| 0 <= i < h.len() && is_kept(#[trigger] h[i]) && m == normalized(h[i])
}

/// Every message that reaches the backend is the normalized form of a kept
/// message of the history, so no assistant message without text and without
/// tool calls is sent, and every tool message that is sent has content.
pub proof fn lemma_request_view_members(h: Seq<MessageView>)
    ensures
        request_view(h).len() <= h.len(),
        forall|k: int| 0 <= k < request_view(h).len() ==> sent_from(h, #[trigger] request_view(h)[k]),
    decreases h.len(),
{
    if h.len() > 0 {
        let rest = h.drop_last();
        lemma_request_view_members(rest);
        assert forall|k: int| 0 <= k < request_view(h).len() implies sent_from(
            h,
            #[trigger] request_view(h)[k],
        ) by {
            if k < request_view(rest).len() {
                assert(sent_from(rest, request_view(rest)[k]));
                let i = choose|i: int|
                    0 <= i < rest.len() && is_kept(#[trigger] rest[i]) && request_view(rest)[k]
                        == normalized(rest[i]);
                assert(h[i] == rest[i]);
            } else {
                assert(is_kept(h[h.len() - 1]));
            }
        }
    }
}

/// How many of the first `i` messages the projection keeps: the position
/// that message `i` takes in the projection when it is kept.
pub open spec fn sent_before(h: Seq<MessageView>, i: int) -> nat {
    request_view(h.take(i)).len()
}

/// The projection of the first `i` messages is the beginning of the
/// projection of the whole history.
pub proof fn lemma_view_of_prefix(h: Seq<MessageView>, i: int)
    requires
        0 <= i <= h.len(),
    ensures
        sent_before(h, i) <= request_view(h).len(),
        request_view(h).take(sent_before(h, i) as int) == request_view(h.take(i)),
    decreases h.len(),
{
    if i == h.len() {
        assert(h.take(i) =~= h);
        assert(request_view(h).take(request_view(h).len() as int) =~= request_view(h));
    } else {
        let rest = h.drop_last();
        assert(h.take(i) =~= rest.take(i));
        lemma_view_of_prefix(rest, i);
        let n = sent_before(h, i) as int;
        assert(request_view(h).take(n) =~= request_view(rest).take(n));
    }
}

/// A kept message stands in the projection, normalized, at the position
/// that the kept messages before it leave free.
pub proof fn lemma_view_at(h: Seq<MessageView>, i: int)
    requires
        0 <= i < h.len(),
        is_kept(h[i]),
    ensures
        sent_before(h, i) < request_view(h).len(),
        request_view(h)[sent_before(h, i) as int] == normalized(h[i]),
        sent_before(h, i + 1) == sent_before(h, i) + 1,
{
    let t = h.take(i + 1);
    assert(t.drop_last() =~= h.take(i));
    assert(t.last() == h[i]);
    lemma_view_of_prefix(h, i + 1);
    let n = sent_before(h, i) as int;
    assert(request_view(t)[n] == normalized(h[i]));
    assert(request_view(h).take(n + 1)[n] == request_view(h)[n]);
}

/// Every message of the projection comes from a kept message of the history.
pub proof fn lemma_view_onto(h: Seq<MessageView>, v: int)
    requires
        0 <= v < request_view(h).len(),
    ensures
        exists|i: int| 0 <= i < h.len() && is_kept(#[trigger] h[i]) && sent_before(h, i) == v,
    decreases h.len(),
{
    let rest = h.drop_last();
    if is_kept(h.last()) && v == request_view(rest).len() {
        let i = h.len() - 1;
        assert(h.take(i) =~= rest);
        assert(is_kept(h[i]) && sent_before(h, i) == v);
    } else {
        lemma_view_onto(rest, v);
        let i = choose|i: int|
            0 <= i < rest.len() && is_kept(#[trigger] rest[i]) && sent_before(rest, i) == v;
        assert(h.take(i) =~= rest.take(i));
        assert(h[i] == rest[i]);
        assert(is_kept(h[i]) && sent_before(h, i) == v);
    }
}

/// Where every assistant message of a history is resolved, every assistant
/// message of its projection is resolved within the projection: what the
/// backend receives holds no tool call without a later answer.
pub proof fn lemma_view_resolved(h: Seq<MessageView>)
    requires
        all_resolved(h),
    ensures
        all_resolved(request_view(h)),
{
    let view = request_view(h);
    assert forall|v: int| 0 <= v < view.len() && (#[trigger] view[v]).role
        == Role::Assistant implies resolved_at(view, v) by {
        lemma_view_onto(h, v);
        let i = choose|i: int|
            0 <= i < h.len() && is_kept(#[trigger] h[i]) && sent_before(h, i) == v;
        lemma_view_at(h, i);
        assert(view[v] == h[i]);
        assert(resolved_at(h, i));
        assert forall|k: int| 0 <= k < calls_of(view[v]).len() implies answered_after(
            view,
            v,
            #[trigger] calls_of(view[v])[k].id,
        ) by {
            let id = calls_of(h[i])[k].id;
            assert(answered_after(h, i, id));
            let j = choose|j: int| i < j < h.len() && answers(#[trigger] h[j], id);
            lemma_view_at(h, j);
            let w = sent_before(h, j) as int;
            assert(h.take(j).take(i + 1) =~= h.take(i + 1));
            lemma_view_of_prefix(h.take(j), i + 1);
            assert(answers(view[w], id));
        }
    }
}

/// The conversation of one agent: its messages in the order they were added.
#[derive(Debug, PartialEq, Eq)]
pub struct AgentState {
    pub history: Vec<Message>,
}

impl DeepView for AgentState {
    type V = Seq<MessageView>;

    open spec fn deep_view(&self) -> Seq<MessageView> {
        self.history.deep_view()
    }
}

impl View for AgentState {
    type V = Seq<MessageView>;

    open spec fn view(&self) -> Seq<MessageView> {
        self.history.deep_view()
    }
}

impl Clone for AgentState {
    fn clone(&self) -> (res: Self)
        ensures
            res@ == self@,
    {
        AgentState { history: clone_messages(&self.history) }
    }
}

/// The model of a vector with one more element is the model with one more
/// element.
pub proof fn lemma_push_view(before: Vec<Message>, after: Vec<Message>, m: Message)
    requires
        after@ == before@.push(m),
    ensures
        after.deep_view() == before.deep_view().push(m@),
{
    assert(after.deep_view() =~= before.deep_view().push(m@));
}

/// Whether some message of `history` after position `from` answers the call `id`.
pub fn is_answered(history: &Vec<Message>, from: usize, id: &String) -> (res: bool)
    ensures
        res == answered_after(history.deep_view(), from as int, id@),
{
    let ghost h = history.deep_view();
    if from >= history.len() {
        return false;
    }
    let mut j: usize = from + 1;
    while j < history.len()
        invariant
            from < j <= history.len(),
            h == history.deep_view(),
            forall|x: int| from < x < j ==> !answers(#[trigger] h[x], id@),
        decreases history.len() - j,
    {
        let m = &history[j];
        assert(h[j as int] == m@);
        if m.role == Role::Tool {
            match &m.tool_call_id {
                Some(answer) => {
                    if *answer == *id {
                        assert(answers(h[j as int], id@));
                        return true;
                    }
                },
                None => {},
            }
        }
        j += 1;
    }
    false
}

/// Whether every call of the message at position `i` is answered later.
pub fn is_resolved(history: &Vec<Message>, i: usize) -> (res: bool)
    requires
        i < history.len(),
    ensures
        res == resolved_at(history.deep_view(), i as int),
{
    let ghost h = history.deep_view();
    assert(h[i as int] == history[i as int]@);
    match &history[i].tool_calls {
        None => true,
        Some(calls) => {
            assert(calls_of(h[i as int]) == calls.deep_view());
            let mut k: usize = 0;
            while k < calls.len()
                invariant
                    k <= calls.len(),
                    i < history.len(),
                    h == history.deep_view(),
                    calls_of(h[i as int]) == calls.deep_view(),
                    forall|x: int|
                        0 <= x < k ==> answered_after(h, i as int, #[trigger] calls_of(h[i as int])[x].id),
                decreases calls.len() - k,
            {
                assert(calls.deep_view()[k as int] == calls[k as int]@);
                if !is_answered(history, i, &calls[k].id) {
                    assert(!answered_after(h, i as int, calls_of(h[i as int])[k as int].id));
                    return false;
                }
                k += 1;
            }
            true
        },
    }
}

/// Position of the most recent assistant message of `history`.
pub fn find_last_assistant(history: &Vec<Message>) -> (res: Option<usize>)
    ensures
        match res {
            Some(i) => i < history.len() && last_assistant(history.deep_view()) == Some(i as int),
            None => last_assistant(history.deep_view()) is None,
        },
{
    let ghost h = history.deep_view();
    let mut i: usize = history.len();
    while i > 0
        invariant
            i <= history.len(),
            h == history.deep_view(),
            forall|j: int| i <= j < h.len() ==> (#[trigger] h[j]).role != Role::Assistant,
        decreases i,
    {
        i -= 1;
        assert(h[i as int] == history[i as int]@);
        if history[i].role == Role::Assistant {
            proof {
                lemma_last_assistant_is(h, i as int);
            }
            return Some(i);
        }
    }
    proof {
        lemma_last_assistant(h);
    }
    None
}

/// Whether the projection keeps `m`.
pub fn keeps(m: &Message) -> (res: bool)
    ensures
        res == is_kept(m@),
{
    if m.role != Role::Assistant {
        return true;
    }
    let with_text = match &m.content {
        Some(text) => text.as_str().unicode_len() > 0,
        None => false,
    };
    let with_calls = match &m.tool_calls {
        Some(calls) => calls.len() > 0,
        None => false,
    };
    with_text || with_calls
}

/// The message as the backend receives it.
pub fn normalize(m: &Message) -> (res: Message)
    ensures
        res@ == normalized(m@),
{
    let mut out = m.clone();
    if out.role == Role::Tool && out.content.is_none() {
        out.content = Some(String::new());
    }
    out
}

impl AgentState {
    /// A conversation without messages.
    pub fn new() -> (res: Self)
        ensures
            res@ == Seq::<MessageView>::empty(),
    {
        let res = AgentState { history: Vec::new() };
        assert(res@ =~= Seq::<MessageView>::empty());
        res
    }

    /// Appends a message.
    pub fn push(&mut self, m: Message)
        ensures
            final(self)@ == old(self)@.push(m@),
    {
        let ghost before = self.history;
        self.history.push(m);
        proof {
            lemma_push_view(before, self.history, m);
        }
    }

    /// Cuts the conversation back to its initial system message.
    pub fn clear(&mut self)
        ensures
            final(self)@ == cleared(old(self)@),
    {
        let ghost h = self@;
        if self.history.len() > 0 && self.history[0].role == Role::System {
            assert(h[0] == self.history[0]@);
            self.history.truncate(1);
            assert(self@ =~= cleared(h));
        } else {
            if self.history.len() > 0 {
                assert(h[0] == self.history[0]@);
            }
            self.history.clear();
            assert(self@ =~= cleared(h));
        }
    }

    /// The messages to send to the backend, and whether the turn must wait
    /// instead: the flag is set exactly when the most recent assistant
    /// message has a call that no later tool message answers. The history is
    /// not changed.
    pub fn build_request_view(&self) -> (res: (Vec<Message>, bool))
        ensures
            res.0.deep_view() == request_view(self@),
            res.1 == awaiting_results(self@),
    {
        let ghost h = self@;
        let early_return = match find_last_assistant(&self.history) {
            Some(i) => !is_resolved(&self.history, i),
            None => false,
        };
        let mut out: Vec<Message> = Vec::new();
        let mut i: usize = 0;
        assert(h.take(0) =~= Seq::<MessageView>::empty());
        assert(out.deep_view() =~= Seq::<MessageView>::empty());
        while i < self.history.len()
            invariant
                i <= self.history.len(),
                h == self.history.deep_view(),
                out.deep_view() == request_view(h.take(i as int)),
            decreases self.history.len() - i,
        {
            let m = &self.history[i];
            let ghost prefix = h.take(i as int + 1);
            assert(prefix.drop_last() =~= h.take(i as int));
            assert(prefix.last() == m@);
            if keeps(m) {
                let n = normalize(m);
                let ghost before = out;
                out.push(n);
                proof {
                    lemma_push_view(before, out, n);
                }
            }
            i += 1;
        }
        assert(h.take(i as int) =~= h);
        (out, early_return)
    }
}

} // verus!
