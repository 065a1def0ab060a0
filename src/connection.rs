use vstd::prelude::*;

use crate::content::{Content, ContentChunk, chunk_render, chunk_seq, kind_label};
use crate::json::{JsonValue, json_text, json_text_of, parse_json, parsed_json};
use crate::message::{Message, ResultErrorType, Role, SdkMessage, sdk_message_decodes, sdk_message_encodes};
use crate::tool_ids::ToolIdMap;

verus! {

use vstd::string::StringExecFns;

broadcast use vstd::std_specs::vec::group_vec_axioms, vstd::string::group_string_axioms;

/// How a turn ended, as its waiter learns it.
#[derive(Clone, Copy, Debug, PartialEq, Eq, Structural)]
pub enum TurnOutcome {
    Completed,
    Failed(ResultErrorType),
}

/// What the host does for one chunk of an incoming message.
#[derive(Debug)]
pub enum ChunkAction {
    /// Stream this text fragment to the host.
    StreamText(String),
    /// Register a new tool call; its host id is then handed to `record_tool_call`.
    PushToolCall { tool_use_id: String, name: String, input: JsonValue },
    /// Mark host tool call `call_id` finished, showing `markdown`.
    FinishToolCall { call_id: u64, markdown: String },
    /// Nothing to show.
    Drop,
}

/// What the host does for one incoming envelope.
#[derive(Debug)]
pub enum MessagePlan {
    /// Handle these chunks in order, one `plan_chunk` each.
    Chunks(Vec<ContentChunk>),
    /// A turn ended; the outcome goes to the waiter, where one was waiting.
    EndTurn(Option<TurnOutcome>),
    /// Informational only.
    Nothing,
}

/// One piece of a user's message as the host sends it.
#[derive(Debug)]
pub enum UserMessageChunk {
    Text { text: String },
    Path { path: String },
}

/// A request of the host to the agent.
#[derive(Debug)]
pub enum AgentRequest {
    Initialize,
    Authenticate,
    SendUserMessage { chunks: Vec<UserMessageChunk> },
    CancelSendMessage,
}

/// What answers a request.
#[derive(Debug)]
pub enum RequestPlan {
    /// Answer at once: the connection counts as authenticated.
    Initialized { is_authenticated: bool },
    /// Fail: this bridge has no such step.
    Unsupported,
    /// Send `message` to the agent and wait for the turn's outcome. `orphaned`
    /// says that a turn was still waiting and will now never hear its outcome.
    SendTurn { message: SdkMessage, orphaned: bool },
    /// Answer at once with an empty acknowledgement. A cancel request is
    /// answered so too: it neither reaches the agent nor ends the waiting turn.
    Acknowledge,
}

/// One line read from the agent, classified.
#[derive(Debug)]
pub enum LineOutcome {
    /// The agent closed its output: the pump stops.
    Closed,
    /// A well-formed envelope, for the message handler.
    Deliver(SdkMessage),
    /// A line that is no envelope: it is skipped and the pump goes on.
    Skip,
}

/// The text of one piece of a user's message: text as it is, a path as `@path`.
pub open spec fn user_chunk_text(c: UserMessageChunk) -> Seq<char> {
    match c {
        UserMessageChunk::Text { text } => text@,
        UserMessageChunk::Path { path } => "@"@ + path@,
    }
}

/// The pieces of a user's message joined into one text.
pub open spec fn user_body(s: Seq<UserMessageChunk>) -> Seq<char>
    decreases s.len(),
{
    if s.len() == 0 {
        Seq::empty()
    } else {
        user_body(s.drop_last()) + user_chunk_text(s.last())
    }
}

/// How a `result` envelope ends a turn.
pub open spec fn outcome_of(is_error: bool, subtype: ResultErrorType) -> TurnOutcome {
    if is_error {
        TurnOutcome::Failed(subtype)
    } else {
        TurnOutcome::Completed
    }
}

/// The text streamed in place of a chunk kind that the host cannot show.
pub open spec fn unsupported_text(c: ContentChunk) -> Seq<char> {
    "Unsupported content: "@ + kind_label(c)
}

/// `m` is the user envelope that carries `body`.
pub open spec fn is_user_turn(m: SdkMessage, body: Seq<char>) -> bool {
    &&& m is User
    &&& m->User_session_id is None
    &&& m->User_message.role == Role::User
    &&& m->User_message.content is UntaggedText
    &&& m->User_message.content->UntaggedText_0@ == body
    &&& m->User_message.id is None
    &&& m->User_message.model is None
    &&& m->User_message.stop_reason is None
    &&& m->User_message.stop_sequence is None
    &&& m->User_message.usage is None
}

/// The pieces of a user's message joined into one text.
pub fn user_message_body(chunks: &Vec<UserMessageChunk>) -> (r: String)
    ensures
        r@ == user_body(chunks@),
{
    let mut out = String::new();
    let mut i: usize = 0;
    while i < chunks.len()
        invariant
            0 <= i <= chunks.len(),
            out@ == user_body(chunks@.subrange(0, i as int)),
        decreases chunks.len() - i,
    {
        let ghost before = out@;
        match &chunks[i] {
            UserMessageChunk::Text { text } => out.append(text.as_str()),
            UserMessageChunk::Path { path } => {
                out.append("@");
                out.append(path.as_str());
            },
        }
        proof {
            let next = chunks@.subrange(0, i + 1);
            assert(next.drop_last() =~= chunks@.subrange(0, i as int));
            assert(out@ =~= user_body(next));
        }
        i = i + 1;
    }
    proof {
        assert(chunks@.subrange(0, chunks.len() as int) =~= chunks@);
    }
    out
}

/// The text that a failed turn reports: `Error: ` and the outcome's wire name.
pub fn failure_text(subtype: ResultErrorType) -> (r: String)
    ensures
        r@ == "Error: "@ + crate::message::result_type_name(subtype),
{
    let mut out = String::new();
    out.append("Error: ");
    out.append(subtype.name());
    out
}

/// The state that one connection shares between the request side and the
/// message handler: the tool id table and whether a turn waits for its end.
pub struct ConnectionState {
    tool_ids: ToolIdMap,
    turn_pending: bool,
}

impl ConnectionState {
    pub closed spec fn wf(&self) -> bool {
        self.tool_ids.wf()
    }

    /// The tool id table as a map.
    pub closed spec fn tool_map(&self) -> Map<Seq<char>, u64> {
        self.tool_ids@
    }

    /// Whether a turn waits for its end.
    pub closed spec fn pending(&self) -> bool {
        self.turn_pending
    }

    /// A connection with no tool calls and no turn.
    pub fn new() -> (r: ConnectionState)
        ensures
            r.wf(),
            r.tool_map() == Map::<Seq<char>, u64>::empty(),
            !r.pending(),
    {
        ConnectionState { tool_ids: ToolIdMap::new(), turn_pending: false }
    }

    /// Whether a turn waits for its end.
    pub fn turn_pending(&self) -> (r: bool)
        ensures
            r == self.pending(),
    {
        self.turn_pending
    }

    /// Whether tool use `tool_use_id` has a host tool call that is not finished.
    pub fn has_tool_call(&self, tool_use_id: &str) -> (r: bool)
        requires
            self.wf(),
        ensures
            r == self.tool_map().contains_key(tool_use_id@),
    {
        self.tool_ids.contains(tool_use_id)
    }

    /// Records that tool use `tool_use_id` is shown as host tool call `call_id`.
    pub fn record_tool_call(&mut self, tool_use_id: String, call_id: u64)
        requires
            old(self).wf(),
        ensures
            final(self).wf(),
            final(self).tool_map() == old(self).tool_map().insert(tool_use_id@, call_id),
            final(self).pending() == old(self).pending(),
    {
        self.tool_ids.insert(tool_use_id, call_id);
    }

    /// Starts a turn, in place of any turn that still waits; says whether one did.
    pub fn begin_turn(&mut self) -> (orphaned: bool)
        requires
            old(self).wf(),
        ensures
            final(self).wf(),
            final(self).pending(),
            orphaned == old(self).pending(),
            final(self).tool_map() == old(self).tool_map(),
    {
        let orphaned = self.turn_pending;
        self.turn_pending = true;
        orphaned
    }

    /// Ends the waiting turn with the outcome of a `result` envelope; `None`,
    /// and nothing changed, where no turn waits.
    pub fn finish_turn(&mut self, is_error: bool, subtype: ResultErrorType) -> (r: Option<TurnOutcome>)
        requires
            old(self).wf(),
        ensures
            final(self).wf(),
            !final(self).pending(),
            final(self).tool_map() == old(self).tool_map(),
            r == (if old(self).pending() {
                Some(outcome_of(is_error, subtype))
            } else {
                None
            }),
    {
        if self.turn_pending {
            self.turn_pending = false;
            if is_error {
                Some(TurnOutcome::Failed(subtype))
            } else {
                Some(TurnOutcome::Completed)
            }
        } else {
            None
        }
    }

    /// Decides what one incoming envelope does.
    pub fn plan_message(&mut self, m: SdkMessage) -> (r: MessagePlan)
        requires
            old(self).wf(),
        ensures
            final(self).wf(),
            final(self).tool_map() == old(self).tool_map(),
            m is Assistant ==> r is Chunks && r->Chunks_0@ == chunk_seq(m->Assistant_message.content)
                && final(self).pending() == old(self).pending(),
            m is User ==> r is Chunks && r->Chunks_0@ == chunk_seq(m->User_message.content) && final(self).pending() == old(self).pending(),
            m is Result ==> !final(self).pending() && r == MessagePlan::EndTurn(
                if old(self).pending() {
                    Some(outcome_of(m->is_error, m->subtype))
                } else {
                    None
                },
            ),
            m is System ==> r is Nothing && final(self).pending() == old(self).pending(),
    {
        match m {
            SdkMessage::Assistant { message, .. } => MessagePlan::Chunks(message.content.chunks()),
            SdkMessage::User { message, .. } => MessagePlan::Chunks(message.content.chunks()),
            SdkMessage::Result { is_error, subtype, .. } => MessagePlan::EndTurn(self.finish_turn(is_error, subtype)),
            SdkMessage::System { .. } => MessagePlan::Nothing,
        }
    }

    /// Decides what one chunk of an incoming message does. A tool result takes
    /// its tool use out of the table.
    pub fn plan_chunk(&mut self, c: ContentChunk) -> (r: ChunkAction)
        requires
            old(self).wf(),
        ensures
            final(self).wf(),
            final(self).pending() == old(self).pending(),
            !(c is ToolResult) ==> final(self).tool_map() == old(self).tool_map(),
            c is Text ==> r is StreamText && r->StreamText_0@ == c->text@,
            c is UntaggedText ==> r is StreamText && r->StreamText_0@ == c->UntaggedText_0@,
            c is ToolUse ==> r is PushToolCall && r->tool_use_id@ == c->id@ && r->name@ == c->name@
                && r->input == c->input,
            c is ToolResult ==> {
                let key = c->tool_use_id@;
                &&& final(self).tool_map() == old(self).tool_map().remove(key)
                &&& if old(self).tool_map().contains_key(key) {
                    &&& r is FinishToolCall
                    &&& r->call_id == old(self).tool_map()[key]
                    &&& r->markdown@ == chunk_render(c)
                } else {
                    r is Drop
                }
            },
            (c is Image || c is Document || c is Thinking || c is RedactedThinking || c is WebSearchToolResult)
                ==> r is StreamText && r->StreamText_0@ == unsupported_text(c),
    {
        match c {
            ContentChunk::Text { text } => ChunkAction::StreamText(text),
            ContentChunk::UntaggedText(text) => ChunkAction::StreamText(text),
            ContentChunk::ToolUse { id, name, input } => ChunkAction::PushToolCall { tool_use_id: id, name, input },
            ContentChunk::ToolResult { content, tool_use_id } => {
                match self.tool_ids.remove(tool_use_id.as_str()) {
                    Some(call_id) => ChunkAction::FinishToolCall { call_id, markdown: content.to_text() },
                    None => ChunkAction::Drop,
                }
            },
            _ => {
                let mut text = String::new();
                text.append("Unsupported content: ");
                text.append(c.kind_label());
                ChunkAction::StreamText(text)
            },
        }
    }

    /// Decides how a request is answered. Sending a user message starts a
    /// turn in place of any turn that still waits.
    pub fn plan_request(&mut self, req: AgentRequest) -> (r: RequestPlan)
        requires
            old(self).wf(),
        ensures
            final(self).wf(),
            final(self).tool_map() == old(self).tool_map(),
            (req is SendUserMessage) ==> final(self).pending() && (r is SendTurn) && r->orphaned == old(self).pending() && is_user_turn(r->message, user_body(req->chunks@)),
            !(req is SendUserMessage) ==> final(self).pending() == old(self).pending(),
            (req is Initialize) ==> (r == (RequestPlan::Initialized { is_authenticated: true })),
            (req is Authenticate) ==> (r is Unsupported),
            (req is CancelSendMessage) ==> (r is Acknowledge),
    {
        match req {
            AgentRequest::Initialize => RequestPlan::Initialized { is_authenticated: true },
            AgentRequest::Authenticate => RequestPlan::Unsupported,
            AgentRequest::SendUserMessage { chunks } => {
                let orphaned = self.begin_turn();
                let body = user_message_body(&chunks);
                let message = SdkMessage::User {
                    message: Message {
                        role: Role::User,
                        content: Content::UntaggedText(body),
                        id: None,
                        model: None,
                        stop_reason: None,
                        stop_sequence: None,
                        usage: None,
                    },
                    session_id: None,
                };
                RequestPlan::SendTurn { message, orphaned }
            },
            AgentRequest::CancelSendMessage => RequestPlan::Acknowledge,
        }
    }
}

/// Classifies one read from the agent's output, given what the line parsed as.
/// Nothing read means the agent closed its output; every other line, well
/// formed or not, lets the pump go on.
pub fn classify_line(bytes_read: usize, parsed: Option<JsonValue>) -> (r: LineOutcome)
    ensures
        line_classified(bytes_read, parsed, r),
{
    if bytes_read == 0 {
        return LineOutcome::Closed;
    }
    match parsed {
        Some(j) => match SdkMessage::decode(&j) {
            Some(m) => LineOutcome::Deliver(m),
            None => LineOutcome::Skip,
        },
        None => LineOutcome::Skip,
    }
}

/// `r` is how a read of `bytes_read` bytes is classified, where the line
/// parsed as `parsed`.
pub open spec fn line_classified(bytes_read: usize, parsed: Option<JsonValue>, r: LineOutcome) -> bool {
    &&& (r is Closed) == (bytes_read == 0)
    &&& bytes_read != 0 && parsed is None ==> r is Skip
    &&& bytes_read != 0 && parsed is Some ==> match r {
        LineOutcome::Deliver(m) => sdk_message_decodes(parsed->0, m),
        LineOutcome::Skip => forall|m: SdkMessage| !sdk_message_decodes(parsed->0, m),
        LineOutcome::Closed => false,
    }
}

/// Reads one line of the agent's output: `bytes_read` is what the read
/// returned, `line` the text, which serde_json parses. Only an empty read
/// closes the pump; a line that is no envelope is skipped.
pub fn read_line(bytes_read: usize, line: &str) -> (r: LineOutcome)
    ensures
        line_classified(bytes_read, parsed_json(line@), r),
{
    classify_line(bytes_read, parse_json(line))
}

/// `r` is the line that carries text `t`: `t` and a newline; none where
/// there is no text.
pub open spec fn line_of(t: Option<Seq<char>>, r: Option<String>) -> bool {
    match t {
        Some(t) => r is Some && r->0@ == t + "\n"@,
        None => r is None,
    }
}

/// The line that carries envelope `m` to the agent: the compact JSON text
/// serde_json writes for `m`'s JSON form, and a newline. `None` where
/// serde_json refuses the text of one of `m`'s numbers.
pub fn outgoing_line(m: &SdkMessage) -> (r: Option<String>)
    ensures
        exists|j: JsonValue| #[trigger] sdk_message_encodes(*m, j) && line_of(json_text_of(j), r),
{
    let j = m.encode();
    match json_text(&j) {
        Some(mut line) => {
            line.append("\n");
            Some(line)
        },
        None => None,
    }
}

/// A tool use and then its result, same id: once the tool use's host call is
/// recorded the table holds the id, and once the result is handled it no
/// longer does; the result finishes the recorded call.
pub proof fn lemma_tool_use_then_result(
    s0: ConnectionState,
    s1: ConnectionState,
    s2: ConnectionState,
    id: Seq<char>,
    call: u64,
)
    requires
        s1.tool_map() == s0.tool_map().insert(id, call),
        s2.tool_map() == s1.tool_map().remove(id),
    ensures
        s1.tool_map().contains_key(id),
        s1.tool_map()[id] == call,
        !s2.tool_map().contains_key(id),
{
}

/// A tool result whose id was never recorded leaves the table as it was.
pub proof fn lemma_unknown_tool_result(s0: ConnectionState, s1: ConnectionState, id: Seq<char>)
    requires
        !s0.tool_map().contains_key(id),
        s1.tool_map() == s0.tool_map().remove(id),
    ensures
        s1.tool_map() == s0.tool_map(),
{
    assert(s1.tool_map() =~= s0.tool_map());
}

/// A turn that waits is ended by exactly one `result` envelope: the first
/// gives the waiter its outcome, and a second, with no turn waiting, gives
/// nothing to nobody.
pub proof fn lemma_one_result_per_turn(
    s0: ConnectionState,
    s1: ConnectionState,
    s2: ConnectionState,
    r1: Option<TurnOutcome>,
    r2: Option<TurnOutcome>,
    e1: bool,
    t1: ResultErrorType,
    e2: bool,
    t2: ResultErrorType,
)
    requires
        s0.pending(),
        !s1.pending(),
        r1 == (if s0.pending() {
            Some(outcome_of(e1, t1))
        } else {
            None
        }),
        r2 == (if s1.pending() {
            Some(outcome_of(e2, t2))
        } else {
            None
        }),
        !s2.pending(),
    ensures
        r1 == Some(outcome_of(e1, t1)),
        r2 is None,
        !s2.pending(),
{
}

} // verus!
