//! Decision logic of a chat turn in which the model may call tools.
//!
//! A turn streams choices from the model. Their text is shown as it arrives, their
//! tool-call fragments are accumulated, and every choice that finishes with
//! `ToolCalls` records a call made of everything accumulated so far. A choice that
//! finishes with `Stop` ends the whole exchange. When the stream ends without such a
//! stop, the recorded calls are run and their results added to the conversation,
//! and the model is asked again.
use vstd::prelude::*;

use crate::text::same_text;

verus! {

/// The system prompt of a conversation in which tools may be used.
pub const TOOL_SYSTEM_PROMPT: &'static str = "You are a helpful AI assistant. If necessary, you can use any provided tools to answer the question.";

/// The system prompt of a conversation without tools.
pub const PLAIN_SYSTEM_PROMPT: &'static str = "You are a helpful assistant.";

/// The name of the web-search tool offered to the model.
pub const WEB_SEARCH_TOOL: &'static str = "web_search";

/// The argument of the web-search tool that holds the query.
pub const WEB_SEARCH_QUERY_ARGUMENT: &'static str = "query";

/// Why the model finished a streamed choice.
#[derive(Debug, Clone, Copy, PartialEq, Eq, Structural)]
pub enum FinishReason {
    Stop,
    Length,
    ToolCalls,
    ContentFilter,
    FunctionCall,
}

/// A fragment of a tool call, as streamed by the model.
pub struct ToolCallDelta {
    pub id: Option<String>,
    pub name: Option<String>,
    pub arguments: Option<String>,
}

/// The first choice of a streamed chunk.
pub struct ChoiceDelta {
    pub content: Option<String>,
    pub tool_calls: Option<Vec<ToolCallDelta>>,
    pub finish_reason: Option<FinishReason>,
}

/// A complete tool call requested by the model.
#[derive(Debug)]
pub struct ToolCall {
    pub id: String,
    pub name: String,
    pub arguments: String,
}

/// The text of a tool call.
pub struct ToolCallView {
    pub id: Seq<char>,
    pub name: Seq<char>,
    pub arguments: Seq<char>,
}

impl View for ToolCall {
    type V = ToolCallView;

    open spec fn view(&self) -> ToolCallView {
        ToolCallView { id: self.id@, name: self.name@, arguments: self.arguments@ }
    }
}

/// The text of an optional fragment; an absent fragment contributes nothing.
pub open spec fn fragment_text(o: Option<String>) -> Seq<char> {
    match o {
        Some(s) => s@,
        None => Seq::empty(),
    }
}

/// The id fragments of the given deltas, joined in order.
pub open spec fn joined_ids(ds: Seq<ToolCallDelta>) -> Seq<char>
    decreases ds.len(),
{
    if ds.len() == 0 {
        Seq::empty()
    } else {
        joined_ids(ds.drop_last()) + fragment_text(ds.last().id)
    }
}

/// The name fragments of the given deltas, joined in order.
pub open spec fn joined_names(ds: Seq<ToolCallDelta>) -> Seq<char>
    decreases ds.len(),
{
    if ds.len() == 0 {
        Seq::empty()
    } else {
        joined_names(ds.drop_last()) + fragment_text(ds.last().name)
    }
}

/// The argument fragments of the given deltas, joined in order.
pub open spec fn joined_arguments(ds: Seq<ToolCallDelta>) -> Seq<char>
    decreases ds.len(),
{
    if ds.len() == 0 {
        Seq::empty()
    } else {
        joined_arguments(ds.drop_last()) + fragment_text(ds.last().arguments)
    }
}

/// Joining fragments is plain concatenation of their text: nothing joined from no
/// fragments, and a further fragment appends its text, unchanged, to what was
/// joined before it, while an absent fragment appends nothing.
pub proof fn lemma_joining_appends_fragment_text(ds: Seq<ToolCallDelta>, d: ToolCallDelta)
    ensures
        joined_ids(Seq::empty()) == Seq::<char>::empty(),
        joined_names(Seq::empty()) == Seq::<char>::empty(),
        joined_arguments(Seq::empty()) == Seq::<char>::empty(),
        d.id matches Some(s) ==> joined_ids(ds.push(d)) == joined_ids(ds) + s@,
        d.name matches Some(s) ==> joined_names(ds.push(d)) == joined_names(ds) + s@,
        d.arguments matches Some(s) ==> joined_arguments(ds.push(d)) == joined_arguments(ds) + s@,
        d.id is None ==> joined_ids(ds.push(d)) == joined_ids(ds),
        d.name is None ==> joined_names(ds.push(d)) == joined_names(ds),
        d.arguments is None ==> joined_arguments(ds.push(d)) == joined_arguments(ds),
{
    assert(ds.push(d).drop_last() =~= ds);
    assert(joined_ids(ds) + Seq::<char>::empty() =~= joined_ids(ds));
    assert(joined_names(ds) + Seq::<char>::empty() =~= joined_names(ds));
    assert(joined_arguments(ds) + Seq::<char>::empty() =~= joined_arguments(ds));
}

/// Joining the fragments of two runs one after the other gives the joined first
/// run followed by the joined second run.
pub proof fn lemma_joining_concatenated_runs(a: Seq<ToolCallDelta>, b: Seq<ToolCallDelta>)
    ensures
        joined_ids(a + b) == joined_ids(a) + joined_ids(b),
        joined_names(a + b) == joined_names(a) + joined_names(b),
        joined_arguments(a + b) == joined_arguments(a) + joined_arguments(b),
    decreases b.len(),
{
    if b.len() == 0 {
        assert(a + b =~= a);
        assert(joined_ids(a) + Seq::<char>::empty() =~= joined_ids(a));
        assert(joined_names(a) + Seq::<char>::empty() =~= joined_names(a));
        assert(joined_arguments(a) + Seq::<char>::empty() =~= joined_arguments(a));
    } else {
        lemma_joining_concatenated_runs(a, b.drop_last());
        assert((a + b).drop_last() =~= a + b.drop_last());
        assert((a + b).last() == b.last());
        assert(joined_ids(a + b) =~= joined_ids(a) + joined_ids(b));
        assert(joined_names(a + b) =~= joined_names(a) + joined_names(b));
        assert(joined_arguments(a + b) =~= joined_arguments(a) + joined_arguments(b));
    }
}

/// The tool-call fragments of a choice.
pub open spec fn choice_deltas(c: ChoiceDelta) -> Seq<ToolCallDelta> {
    match c.tool_calls {
        Some(v) => v@,
        None => Seq::empty(),
    }
}

/// What a turn has accumulated: the joined id, name and argument fragments seen so
/// far, and the calls recorded so far.
pub struct TurnView {
    pub id: Seq<char>,
    pub name: Seq<char>,
    pub arguments: Seq<char>,
    pub calls: Seq<ToolCallView>,
}

/// How a turn changes when a chunk arrives; a chunk without a choice changes
/// nothing.
pub open spec fn turn_step(t: TurnView, choice: Option<ChoiceDelta>) -> TurnView {
    match choice {
        None => t,
        Some(c) => {
            let id = t.id + joined_ids(choice_deltas(c));
            let name = t.name + joined_names(choice_deltas(c));
            let arguments = t.arguments + joined_arguments(choice_deltas(c));
            let calls = if c.finish_reason == Some(FinishReason::ToolCalls) {
                t.calls.push(ToolCallView { id, name, arguments })
            } else {
                t.calls
            };
            TurnView { id, name, arguments, calls }
        },
    }
}

/// What one chunk does to a turn: a chunk without a choice changes nothing; a
/// choice without tool-call fragments leaves the accumulated text as it was, and
/// one with fragments appends their joined text; a choice that finishes with
/// `ToolCalls` records one call made of everything accumulated after it, and any
/// other choice records none.
pub proof fn lemma_turn_step_effects(t: TurnView, c: ChoiceDelta)
    ensures
        turn_step(t, None) == t,
        c.tool_calls is None ==> {
            &&& turn_step(t, Some(c)).id == t.id
            &&& turn_step(t, Some(c)).name == t.name
            &&& turn_step(t, Some(c)).arguments == t.arguments
        },
        c.tool_calls matches Some(v) ==> {
            &&& turn_step(t, Some(c)).id == t.id + joined_ids(v@)
            &&& turn_step(t, Some(c)).name == t.name + joined_names(v@)
            &&& turn_step(t, Some(c)).arguments == t.arguments + joined_arguments(v@)
        },
        c.finish_reason == Some(FinishReason::ToolCalls) ==> turn_step(t, Some(c)).calls == t.calls.push(
            ToolCallView {
                id: turn_step(t, Some(c)).id,
                name: turn_step(t, Some(c)).name,
                arguments: turn_step(t, Some(c)).arguments,
            },
        ),
        c.finish_reason != Some(FinishReason::ToolCalls) ==> turn_step(t, Some(c)).calls == t.calls,
{
    if c.tool_calls is None {
        assert(t.id + Seq::<char>::empty() =~= t.id);
        assert(t.name + Seq::<char>::empty() =~= t.name);
        assert(t.arguments + Seq::<char>::empty() =~= t.arguments);
    }
}

/// The turn after a sequence of chunks, starting from `t`.
pub open spec fn turn_after(t: TurnView, chunks: Seq<Option<ChoiceDelta>>) -> TurnView
    decreases chunks.len(),
{
    if chunks.len() == 0 {
        t
    } else {
        turn_step(turn_after(t, chunks.drop_last()), chunks.last())
    }
}

/// True when a chunk ends the whole exchange.
pub open spec fn ends_exchange(choice: Option<ChoiceDelta>) -> bool {
    choice matches Some(c) && c.finish_reason == Some(FinishReason::Stop)
}

/// Whether a chunk ends the exchange depends on how its choice finished alone:
/// exactly the chunks whose choice finishes with `Stop` end it, whatever text or
/// tool-call fragments they carry, and a chunk without a choice never does.
pub proof fn lemma_only_a_stop_ends_the_exchange(c: ChoiceDelta, other: ChoiceDelta)
    ensures
        !ends_exchange(None),
        ends_exchange(Some(c)) <==> c.finish_reason == Some(FinishReason::Stop),
        c.finish_reason == other.finish_reason ==> ends_exchange(Some(c)) == ends_exchange(Some(other)),
{
}

/// True when a chunk records a tool call.
pub open spec fn records_call(choice: Option<ChoiceDelta>) -> bool {
    choice matches Some(c) && c.finish_reason == Some(FinishReason::ToolCalls)
}

/// The number of chunks that record a tool call.
pub open spec fn recording_chunks(chunks: Seq<Option<ChoiceDelta>>) -> nat
    decreases chunks.len(),
{
    if chunks.len() == 0 {
        0
    } else {
        recording_chunks(chunks.drop_last()) + if records_call(chunks.last()) {
            1nat
        } else {
            0nat
        }
    }
}

/// The empty turn.
pub open spec fn empty_turn() -> TurnView {
    TurnView { id: Seq::empty(), name: Seq::empty(), arguments: Seq::empty(), calls: Seq::empty() }
}

/// What the app does with a chunk.
pub struct ChunkOutcome {
    /// Text to show to the user, if the chunk carried any.
    pub text: Option<String>,
    /// True when the chunk finished with `Stop`, which ends the exchange.
    pub end_exchange: bool,
}

/// How a turn ended once its stream was exhausted.
pub enum TurnOutcome {
    /// The model requested no tool: the exchange is complete.
    Finished,
    /// The model requested these tools, in this order.
    RunTools(Vec<ToolCall>),
}

/// The state of one turn of the exchange.
pub struct ToolTurn {
    id: String,
    name: String,
    arguments: String,
    calls: Vec<ToolCall>,
}

impl View for ToolTurn {
    type V = TurnView;

    closed spec fn view(&self) -> TurnView {
        TurnView {
            id: self.id@,
            name: self.name@,
            arguments: self.arguments@,
            calls: self.calls@.map_values(|c: ToolCall| c@),
        }
    }
}

impl ToolTurn {
    /// Starts a turn with nothing accumulated.
    pub fn new() -> (t: ToolTurn)
        ensures
            t@ == empty_turn(),
    {
        let t = ToolTurn { id: String::new(), name: String::new(), arguments: String::new(), calls: Vec::new() };
        assert(t@.calls =~= Seq::<ToolCallView>::empty());
        t
    }

    /// Takes in the first choice of a streamed chunk (`None` when the chunk had no
    /// choice): returns its text for display and whether it ends the exchange, and
    /// accumulates its tool-call fragments.
    pub fn on_chunk(&mut self, choice: Option<ChoiceDelta>) -> (r: ChunkOutcome)
        ensures
            final(self)@ == turn_step(old(self)@, choice),
            r.end_exchange == ends_exchange(choice),
            r.end_exchange <==> (choice matches Some(c) && c.finish_reason == Some(FinishReason::Stop)),
            r.text == (match choice {
                Some(c) => c.content,
                None => None,
            }),
    {
        match choice {
            None => ChunkOutcome { text: None, end_exchange: false },
            Some(c) => {
                let ghost ds = choice_deltas(c);
                let ghost before = self@;
                let ChoiceDelta { content, tool_calls, finish_reason } = c;
                match tool_calls {
                    None => {
                        assert(self.id@ =~= before.id + joined_ids(ds));
                        assert(self.name@ =~= before.name + joined_names(ds));
                        assert(self.arguments@ =~= before.arguments + joined_arguments(ds));
                    },
                    Some(v) => {
                        self.absorb(&v);
                    },
                }
                let stop = match finish_reason {
                    Some(FinishReason::ToolCalls) => {
                        let call = ToolCall {
                            id: self.id.clone(),
                            name: self.name.clone(),
                            arguments: self.arguments.clone(),
                        };
                        let ghost calls_before = self.calls@;
                        self.calls.push(call);
                        proof {
                            assert(self.calls@.map_values(|c: ToolCall| c@) =~= calls_before.map_values(
                                |c: ToolCall| c@,
                            ).push(call@));
                        }
                        false
                    },
                    Some(FinishReason::Stop) => true,
                    _ => false,
                };
                ChunkOutcome { text: content, end_exchange: stop }
            },
        }
    }

    /// Adds the fragments of `ds`, in order, to the accumulated id, name and
    /// arguments.
    fn absorb(&mut self, ds: &Vec<ToolCallDelta>)
        ensures
            final(self).id@ == old(self).id@ + joined_ids(ds@),
            final(self).name@ == old(self).name@ + joined_names(ds@),
            final(self).arguments@ == old(self).arguments@ + joined_arguments(ds@),
            final(self).calls == old(self).calls,
    {
        let mut i: usize = 0;
        while i < ds.len()
            invariant
                i <= ds@.len(),
                self.id@ == old(self).id@ + joined_ids(ds@.take(i as int)),
                self.name@ == old(self).name@ + joined_names(ds@.take(i as int)),
                self.arguments@ == old(self).arguments@ + joined_arguments(ds@.take(i as int)),
                self.calls == old(self).calls,
            decreases ds@.len() - i,
        {
            proof {
                assert(ds@.take(i + 1).drop_last() =~= ds@.take(i as int));
                assert(ds@.take(i + 1).last() == ds@[i as int]);
            }
            let d = &ds[i];
            match &d.id {
                Some(s) => self.id.append(s.as_str()),
                None => {},
            }
            match &d.name {
                Some(s) => self.name.append(s.as_str()),
                None => {},
            }
            match &d.arguments {
                Some(s) => self.arguments.append(s.as_str()),
                None => {},
            }
            proof {
                assert(self.id@ =~= old(self).id@ + joined_ids(ds@.take(i + 1)));
                assert(self.name@ =~= old(self).name@ + joined_names(ds@.take(i + 1)));
                assert(self.arguments@ =~= old(self).arguments@ + joined_arguments(ds@.take(i + 1)));
            }
            i = i + 1;
        }
        proof {
            assert(ds@.take(ds@.len() as int) =~= ds@);
        }
    }

    /// Ends the turn once its stream is exhausted: it is finished when no call was
    /// recorded, and otherwise the recorded calls are to be run, in order.
    pub fn finish(self) -> (r: TurnOutcome)
        ensures
            match r {
                TurnOutcome::Finished => self@.calls.len() == 0,
                TurnOutcome::RunTools(v) => {
                    &&& self@.calls.len() > 0
                    &&& v@.map_values(|c: ToolCall| c@) == self@.calls
                },
            },
    {
        if self.calls.len() == 0 {
            TurnOutcome::Finished
        } else {
            TurnOutcome::RunTools(self.calls)
        }
    }
}

/// Every chunk that finishes with `ToolCalls` records exactly one call, and no
/// other chunk records one: after a stream, a turn that started empty holds as many
/// calls as the stream had such chunks.
pub proof fn lemma_recorded_calls_match_tool_call_finishes(chunks: Seq<Option<ChoiceDelta>>)
    ensures
        turn_after(empty_turn(), chunks).calls.len() == recording_chunks(chunks),
    decreases chunks.len(),
{
    if chunks.len() > 0 {
        lemma_recorded_calls_match_tool_call_finishes(chunks.drop_last());
    }
}

/// The accumulated fragments are never cleared within a turn: what was accumulated
/// before a chunk is a prefix of what is accumulated after it, and earlier calls
/// stay recorded unchanged.
pub proof fn lemma_turn_step_only_extends(t: TurnView, choice: Option<ChoiceDelta>)
    ensures
        t.id.is_prefix_of(turn_step(t, choice).id),
        t.name.is_prefix_of(turn_step(t, choice).name),
        t.arguments.is_prefix_of(turn_step(t, choice).arguments),
        t.calls.is_prefix_of(turn_step(t, choice).calls),
{
    let u = turn_step(t, choice);
    assert(u.id.subrange(0, t.id.len() as int) =~= t.id);
    assert(u.name.subrange(0, t.name.len() as int) =~= t.name);
    assert(u.arguments.subrange(0, t.arguments.len() as int) =~= t.arguments);
    assert(u.calls.subrange(0, t.calls.len() as int) =~= t.calls);
}

/// True when the id, name and arguments of `c` begin those accumulated in `t`.
pub open spec fn recorded_call_within(c: ToolCallView, t: TurnView) -> bool {
    &&& c.id.is_prefix_of(t.id)
    &&& c.name.is_prefix_of(t.name)
    &&& c.arguments.is_prefix_of(t.arguments)
}

/// Every call recorded in a turn has an id, a name and arguments that begin the
/// turn's current accumulated id, name and arguments.
pub proof fn lemma_recorded_calls_are_prefixes(chunks: Seq<Option<ChoiceDelta>>)
    ensures
        forall|k: int|
            0 <= k < turn_after(empty_turn(), chunks).calls.len() ==> recorded_call_within(
                #[trigger] turn_after(empty_turn(), chunks).calls[k],
                turn_after(empty_turn(), chunks),
            ),
    decreases chunks.len(),
{
    if chunks.len() > 0 {
        let prev = turn_after(empty_turn(), chunks.drop_last());
        let t = turn_after(empty_turn(), chunks);
        lemma_recorded_calls_are_prefixes(chunks.drop_last());
        lemma_turn_step_only_extends(prev, chunks.last());
        assert forall|k: int| 0 <= k < t.calls.len() implies recorded_call_within(
            #[trigger] t.calls[k],
            t,
        ) by {
            if k < prev.calls.len() {
                assert(t.calls[k] == prev.calls[k]);
                assert(prev.calls[k].id.is_prefix_of(prev.id));
                assert(t.calls[k].id.is_prefix_of(t.id));
                assert(t.calls[k].name.is_prefix_of(t.name));
                assert(t.calls[k].arguments.is_prefix_of(t.arguments));
            } else {
                assert(t.calls[k].id =~= t.id);
            }
        }
    }
}

/// The string value stored under `key` in the JSON object `json`: `None` when
/// `json` is not valid JSON, is not an object, has no member `key`, or when that
/// member is not a string.
pub uninterp spec fn json_string_member(json: Seq<char>, key: Seq<char>) -> Option<Seq<char>>;

/// Parses `json` with `serde_json::from_str::<serde_json::Value>` and reads the
/// string member `key` with `Value::get` and `Value::as_str`.
///
/// Claims only that the result is the named value [`json_string_member`] of the
/// two arguments; serde_json's grammar is not restated here.
#[verifier::external_body]
fn read_json_string_member(json: &str, key: &str) -> (r: Option<String>)
    ensures
        match json_string_member(json@, key@) {
            Some(v) => r matches Some(s) && s@ == v,
            None => r is None,
        },
{
    serde_json::from_str::<serde_json::Value>(json).ok().and_then(
        |v| v.get(key).and_then(|m| m.as_str()).map(|m| m.to_string()),
    )
}

/// What to do for a tool call requested by the model.
#[derive(Debug)]
pub enum ToolPlan {
    /// Run a web search for this query.
    WebSearch { query: String },
    /// The web-search call carried no string `query` in JSON arguments; the
    /// exchange cannot go on.
    MalformedArguments,
    /// The model asked for a tool that does not exist; this error text is its
    /// result.
    Unknown { error: String },
}

/// Decides how a requested tool call is answered, once it is known whether the
/// call names the web-search tool and what query its arguments hold.
pub open spec fn tool_plan_for(name: Seq<char>, query: Option<Seq<char>>, r: ToolPlan) -> bool {
    if name == WEB_SEARCH_TOOL@ {
        match query {
            Some(q) => r matches ToolPlan::WebSearch { query } && query@ == q,
            None => r is MalformedArguments,
        }
    } else {
        r matches ToolPlan::Unknown { error } && error@ == "Unknown function: "@ + name
    }
}

/// A call of the web-search tool whose arguments hold a string query is answered by
/// a search for exactly that query; one whose arguments hold none cannot be
/// answered; a call of any other tool is answered by an error that names it.
pub proof fn lemma_tool_plan_answers(name: Seq<char>, query: Option<Seq<char>>, r: ToolPlan)
    requires
        tool_plan_for(name, query, r),
    ensures
        name == WEB_SEARCH_TOOL@ ==> (query matches Some(q) ==> (r matches ToolPlan::WebSearch {
            query: s,
        } && s@ == q)),
        name == WEB_SEARCH_TOOL@ && query is None ==> r is MalformedArguments,
        name != WEB_SEARCH_TOOL@ ==> (r matches ToolPlan::Unknown { error } && error@
            == "Unknown function: "@ + name),
{
}

/// The web-search tool is named `web_search`, and its query is the argument `query`.
pub proof fn lemma_web_search_tool_names()
    ensures
        WEB_SEARCH_TOOL@ == "web_search"@,
        WEB_SEARCH_QUERY_ARGUMENT@ == "query"@,
{
    reveal_strlit("web_search");
    reveal_strlit("query");
}

/// Decides how a requested tool call is answered: a call of the web-search tool
/// runs a search for the `query` of its JSON arguments; a call of any other tool is
/// answered with an error naming it.
pub fn plan_tool_call(call: &ToolCall) -> (r: ToolPlan)
    ensures
        tool_plan_for(
            call.name@,
            json_string_member(call.arguments@, WEB_SEARCH_QUERY_ARGUMENT@),
            r,
        ),
        call.name@ == WEB_SEARCH_TOOL@ ==> match json_string_member(call.arguments@, WEB_SEARCH_QUERY_ARGUMENT@) {
            Some(q) => r matches ToolPlan::WebSearch { query } && query@ == q,
            None => r is MalformedArguments,
        },
        call.name@ != WEB_SEARCH_TOOL@ ==> (r matches ToolPlan::Unknown { error } && error@
            == "Unknown function: "@ + call.name@),
{
    if same_text(call.name.as_str(), WEB_SEARCH_TOOL) {
        match read_json_string_member(call.arguments.as_str(), WEB_SEARCH_QUERY_ARGUMENT) {
            Some(query) => ToolPlan::WebSearch { query },
            None => ToolPlan::MalformedArguments,
        }
    } else {
        let mut error = String::from_str("Unknown function: ");
        error.append(call.name.as_str());
        ToolPlan::Unknown { error }
    }
}

/// A message of a conversation with the model.
pub enum ChatMessage {
    System(String),
    User(String),
    /// The model's request to run these tools.
    AssistantToolCalls(Vec<ToolCall>),
    /// The result of the tool call with this id.
    Tool { tool_call_id: String, content: String },
}

/// The messages exchanged with the model, oldest first.
pub struct Conversation {
    messages: Vec<ChatMessage>,
}

impl View for Conversation {
    type V = Seq<ChatMessage>;

    closed spec fn view(&self) -> Seq<ChatMessage> {
        self.messages@
    }
}

impl Conversation {
    /// Starts a conversation with a system prompt and the user's message.
    pub fn new(system_prompt: &str, user_message: String) -> (c: Conversation)
        ensures
            c@.len() == 2,
            c@[0] matches ChatMessage::System(s) && s@ == system_prompt@,
            c@[1] == ChatMessage::User(user_message),
    {
        let mut messages: Vec<ChatMessage> = Vec::new();
        messages.push(ChatMessage::System(String::from_str(system_prompt)));
        messages.push(ChatMessage::User(user_message));
        Conversation { messages }
    }

    /// Returns the messages, oldest first.
    pub fn messages(&self) -> (m: &Vec<ChatMessage>)
        ensures
            m@ == self@,
    {
        &self.messages
    }

    /// Records a round of tool calls: the model's request, then one result per
    /// call, in the order of the calls, each tagged with its call's id.
    pub fn record_tool_round(&mut self, calls: Vec<ToolCall>, results: Vec<String>)
        requires
            calls@.len() == results@.len(),
        ensures
            final(self)@.len() == old(self)@.len() + 1 + calls@.len(),
            final(self)@.take(old(self)@.len() as int) == old(self)@,
            final(self)@[old(self)@.len() as int] == ChatMessage::AssistantToolCalls(calls),
            forall|k: int|
                0 <= k < calls@.len() ==> #[trigger] final(self)@[old(self)@.len() + 1 + k]
                    == (ChatMessage::Tool { tool_call_id: calls@[k].id, content: results@[k] }),
    {
        let mut ids: Vec<String> = Vec::new();
        let mut i: usize = 0;
        while i < calls.len()
            invariant
                i <= calls@.len(),
                ids@.len() == i,
                forall|k: int| 0 <= k < i ==> #[trigger] ids@[k] == calls@[k].id,
            decreases calls@.len() - i,
        {
            ids.push(calls[i].id.clone());
            i = i + 1;
        }
        let ghost before = self.messages@;
        let ghost requested = calls;
        self.messages.push(ChatMessage::AssistantToolCalls(calls));
        let mut j: usize = 0;
        while j < ids.len()
            invariant
                j <= ids@.len(),
                ids@.len() == requested@.len(),
                results@.len() == requested@.len(),
                forall|k: int| 0 <= k < ids@.len() ==> #[trigger] ids@[k] == requested@[k].id,
                self.messages@.len() == before.len() + 1 + j,
                self.messages@.take(before.len() as int) == before,
                self.messages@[before.len() as int] == ChatMessage::AssistantToolCalls(requested),
                forall|k: int| 0 <= k < j ==> #[trigger] self.messages@[before.len() + 1 + k]
                    == (ChatMessage::Tool { tool_call_id: requested@[k].id, content: results@[k] }),
            decreases ids@.len() - j,
        {
            let tool_call_id = ids[j].clone();
            let content = results[j].clone();
            let ghost prev = self.messages@;
            self.messages.push(ChatMessage::Tool { tool_call_id, content });
            proof {
                assert(self.messages@.take(before.len() as int) =~= prev.take(before.len() as int));
            }
            j = j + 1;
        }
    }
}

} // verus!
