//! The agent orchestration loop: the transcript of turns, the state machine
//! that drives one round after another, the tool-call protocol, the
//! truncation ceiling on tool output, and the iteration budget with its
//! deterministic exhaustion message.
//!
//! The loop itself blocks on network collaborators, so the decisions live
//! here as verified steps on [`LoopState`]: the caller sends the transcript,
//! hands the chat answer to [`LoopState::on_chat_message`], executes the
//! requested tools one by one in order, records each result with
//! [`LoopState::record_tool_result`], and advances to the next round.
use vstd::prelude::*;

verus! {

use crate::error::OllamaError;
use crate::ollama_local::ArgValue;
use crate::ollama_local::ChatMessage;
use crate::ollama_local::ToolCall;
use crate::ollama_local::spec_lookup;
use crate::text::dec_digits;
use crate::text::decimal_string;
use crate::text::is_blank;
use crate::text::spec_trimmed;
use crate::text::spec_truncate;
use crate::text::str_eq;
use crate::text::truncate_utf8;
use vstd::string::StrSliceExecFns;
use vstd::string::StringExecFns;
use vstd::string::StringSliceAdditionalSpecFns;
use vstd::utf8::decode_utf8;
use vstd::utf8::encode_utf8;

/// Who produced a transcript turn.
#[derive(Debug, Clone, Copy, PartialEq, Eq, Structural)]
pub enum Role {
    User,
    Assistant,
    Tool,
}

/// One entry of the transcript. Tool calls appear only on assistant turns; a
/// tool name only on tool turns.
#[derive(Debug)]
pub struct Turn {
    pub role: Role,
    pub content: String,
    pub tool_calls: Option<Vec<ToolCall>>,
    pub tool_name: Option<String>,
}

/// The shape each turn must have for its role.
pub open spec fn wf_turn(t: Turn) -> bool {
    match t.role {
        Role::User => t.tool_calls is None && t.tool_name is None,
        Role::Assistant => t.tool_name is None,
        Role::Tool => t.tool_calls is None && t.tool_name is Some,
    }
}

/// The tool turn at `i` answers, in order, one of the calls of the nearest
/// assistant turn before it.
pub open spec fn tool_turn_answers(ts: Seq<Turn>, i: int) -> bool {
    exists|j: int|
        {
            &&& 0 <= j < i
            &&& (#[trigger] ts[j]).role is Assistant
            &&& forall|k: int| j < k <= i ==> (#[trigger] ts[k]).role is Tool
            &&& (ts[j].tool_calls matches Some(calls) && i - j <= calls@.len()
                && (ts[i].tool_name matches Some(n) && n@ == calls@[i - j - 1].function.name@))
        }
}

/// The transcript invariant: it starts with exactly one user turn, every turn
/// is well shaped, and every tool turn follows the assistant turn whose calls
/// it answers, in the order those calls were listed.
pub open spec fn wf_transcript(ts: Seq<Turn>) -> bool {
    &&& ts.len() > 0
    &&& ts[0].role is User
    &&& forall|i: int| 1 <= i < ts.len() ==> !((#[trigger] ts[i]).role is User)
    &&& forall|i: int| 0 <= i < ts.len() ==> wf_turn(#[trigger] ts[i])
    &&& forall|i: int|
        0 <= i < ts.len() && (#[trigger] ts[i]).role is Tool ==> tool_turn_answers(ts, i)
}

/// How many turns at the end of the transcript are tool turns.
pub open spec fn trailing_tools(ts: Seq<Turn>) -> int
    decreases ts.len(),
{
    if ts.len() == 0 {
        0
    } else if ts.last().role is Tool {
        1 + trailing_tools(ts.drop_last())
    } else {
        0
    }
}

proof fn lemma_trailing_tools(ts: Seq<Turn>)
    ensures
        0 <= trailing_tools(ts) <= ts.len(),
        forall|k: int|
            ts.len() - trailing_tools(ts) <= k < ts.len() ==> (#[trigger] ts[k]).role is Tool,
        trailing_tools(ts) < ts.len() ==> !(ts[ts.len() - 1 - trailing_tools(ts)].role is Tool),
    decreases ts.len(),
{
    if ts.len() > 0 && ts.last().role is Tool {
        lemma_trailing_tools(ts.drop_last());
        assert forall|k: int|
            ts.len() - trailing_tools(ts) <= k < ts.len() implies (#[trigger] ts[k]).role
            is Tool by {
            if k < ts.len() - 1 {
                assert(ts.drop_last()[k] == ts[k]);
                assert(ts.drop_last()[k].role is Tool);
            }
        }
        if trailing_tools(ts) < ts.len() {
            let j = ts.len() - 1 - trailing_tools(ts);
            assert(ts.drop_last()[j] == ts[j]);
        }
    }
}

/// True when a tool turn named `name` may be appended: the round in progress
/// still owes a result for call number `trailing_tools(ts)`, and that call
/// bears this name.
pub open spec fn can_append_tool(ts: Seq<Turn>, name: Seq<char>) -> bool {
    let m = trailing_tools(ts);
    let j = ts.len() - 1 - m;
    &&& 0 <= j < ts.len()
    &&& ts[j].role is Assistant
    &&& (ts[j].tool_calls matches Some(calls) && m < calls@.len() && calls@[m].function.name@
        == name)
}

proof fn lemma_wf_push_non_tool(ts: Seq<Turn>, t: Turn)
    requires
        wf_transcript(ts),
        wf_turn(t),
        t.role is Assistant,
    ensures
        wf_transcript(ts.push(t)),
{
    let ts2 = ts.push(t);
    assert forall|i: int| 0 <= i < ts2.len() && (#[trigger] ts2[i]).role is Tool implies
        tool_turn_answers(ts2, i) by {
        assert(i < ts.len());
        assert(tool_turn_answers(ts, i));
        let j = choose|j: int|
            {
                &&& 0 <= j < i
                &&& (#[trigger] ts[j]).role is Assistant
                &&& forall|k: int| j < k <= i ==> (#[trigger] ts[k]).role is Tool
                &&& (ts[j].tool_calls matches Some(calls) && i - j <= calls@.len()
                    && (ts[i].tool_name matches Some(n) && n@ == calls@[i - j - 1].function.name@))
            };
        assert(ts2[j] == ts[j]);
        assert(forall|k: int| j < k <= i ==> (#[trigger] ts2[k]).role is Tool);
    }
}

proof fn lemma_wf_push_tool(ts: Seq<Turn>, t: Turn)
    requires
        wf_transcript(ts),
        wf_turn(t),
        t.role is Tool,
        t.tool_name matches Some(n) && can_append_tool(ts, n@),
    ensures
        wf_transcript(ts.push(t)),
{
    let ts2 = ts.push(t);
    let m = trailing_tools(ts);
    let j = ts.len() - 1 - m;
    lemma_trailing_tools(ts);
    assert forall|i: int| 0 <= i < ts2.len() && (#[trigger] ts2[i]).role is Tool implies
        tool_turn_answers(ts2, i) by {
        if i < ts.len() {
            assert(tool_turn_answers(ts, i));
            let j0 = choose|j0: int|
                {
                    &&& 0 <= j0 < i
                    &&& (#[trigger] ts[j0]).role is Assistant
                    &&& forall|k: int| j0 < k <= i ==> (#[trigger] ts[k]).role is Tool
                    &&& (ts[j0].tool_calls matches Some(calls) && i - j0 <= calls@.len()
                        && (ts[i].tool_name matches Some(n) && n@
                        == calls@[i - j0 - 1].function.name@))
                };
            assert(ts2[j0] == ts[j0]);
            assert(forall|k: int| j0 < k <= i ==> (#[trigger] ts2[k]).role is Tool);
        } else {
            assert(i == ts.len());
            assert(ts2[j].role is Assistant);
            assert(forall|k: int| j < k < i ==> (#[trigger] ts2[k]).role is Tool);
            assert(ts2[i].role is Tool);
            assert(i - j - 1 == m);
            assert({
                &&& 0 <= j < i
                &&& ts2[j].role is Assistant
                &&& forall|k: int| j < k <= i ==> (#[trigger] ts2[k]).role is Tool
                &&& (ts2[j].tool_calls matches Some(calls) && i - j <= calls@.len()
                    && (ts2[i].tool_name matches Some(n) && n@ == calls@[i - j - 1].function.name@))
            });
        }
    }
}

/// The phrase describing one tool by name in the exhaustion message.
pub open spec fn action_phrase(name: Seq<char>) -> Seq<char> {
    if name == "web_search"@ {
        "searching the web"@
    } else if name == "web_fetch"@ {
        "fetching a webpage"@
    } else {
        "using "@ + name
    }
}

fn action_phrase_exec(name: &str) -> (r: String)
    ensures
        r@ == action_phrase(name@),
{
    if str_eq(name, "web_search") {
        String::from_str("searching the web")
    } else if str_eq(name, "web_fetch") {
        String::from_str("fetching a webpage")
    } else {
        let mut r = String::from_str("using ");
        r.append(name);
        r
    }
}

/// The last action described by the transcript, found by scanning in
/// reverse: the first turn that is a tool turn or an assistant turn with a
/// non-empty call list decides; an empty scan means plain reasoning.
pub open spec fn spec_last_action(ts: Seq<Turn>) -> Seq<char>
    decreases ts.len(),
{
    if ts.len() == 0 {
        "reasoning"@
    } else if ts.last().role is Tool {
        "processing tool response"@
    } else {
        match ts.last().tool_calls {
            Some(calls) => {
                if calls@.len() > 0 {
                    action_phrase(calls@[0].function.name@)
                } else {
                    spec_last_action(ts.drop_last())
                }
            },
            None => spec_last_action(ts.drop_last()),
        }
    }
}

/// The exhaustion result: the iteration limit and the last action, in a
/// fixed sentence.
pub open spec fn spec_exhaustion_message(max: nat, ts: Seq<Turn>) -> Seq<char> {
    "Reached maximum iterations ("@ + dec_digits(max) + ") while "@ + spec_last_action(ts)
        + ". Try a more specific query or use --max-iterations to increase the limit."@
}

/// The exhaustion message names the exact iteration limit: the limit's
/// decimal digits stand, in order, right after the opening phrase.
pub proof fn lemma_exhaustion_message_names_limit(max: nat, ts: Seq<Turn>)
    ensures
        exists|i: int|
            0 <= i && i + dec_digits(max).len() <= spec_exhaustion_message(max, ts).len() && (
            #[trigger] spec_exhaustion_message(max, ts).subrange(
                i,
                i + dec_digits(max).len() as int,
            )) == dec_digits(max),
{
    let msg = spec_exhaustion_message(max, ts);
    let p = "Reached maximum iterations ("@;
    let i = p.len() as int;
    assert(msg.subrange(i, i + dec_digits(max).len() as int) =~= dec_digits(max));
}

/// The loop's mutable state: the 0-based round counter, the configured
/// ceiling, and the transcript replayed to the chat collaborator on every
/// round.
#[derive(Debug)]
pub struct LoopState {
    pub iteration: usize,
    pub max_iterations: usize,
    pub transcript: Vec<Turn>,
}

/// What the loop does after one chat answer: return the final content, or
/// execute this many tool calls (those of the assistant turn just appended)
/// before the next round.
#[derive(Debug)]
pub enum RoundAction {
    Finish(String),
    RunTools(usize),
}

/// The final 8000-byte ceiling applied to tool output before it enters the
/// transcript.
pub const TOOL_RESULT_CEILING: usize = 8000;

/// Tool output as it enters the transcript: unchanged when it fits the
/// ceiling, else cut at a character boundary with the truncation marker
/// appended.
pub open spec fn spec_capped(content: Seq<char>) -> Seq<char> {
    if encode_utf8(content).len() <= TOOL_RESULT_CEILING {
        content
    } else {
        decode_utf8(spec_truncate(encode_utf8(content), TOOL_RESULT_CEILING as int))
            + "...[truncated]"@
    }
}

/// Applies the transcript ceiling to one tool result.
pub fn cap_tool_result(raw: String) -> (r: String)
    ensures
        r@ == spec_capped(raw@),
{
    if raw.as_str().as_bytes().len() <= TOOL_RESULT_CEILING {
        raw
    } else {
        let t = truncate_utf8(raw.as_str(), TOOL_RESULT_CEILING);
        proof {
            vstd::utf8::encode_utf8_decode_utf8(t@);
        }
        let mut r = t.to_owned();
        r.append("...[truncated]");
        r
    }
}

impl LoopState {
    pub open spec fn wf(&self) -> bool {
        &&& wf_transcript(self.transcript@)
        &&& self.iteration <= self.max_iterations
    }

    /// Starts a run: a transcript holding the single user turn, and round
    /// zero.
    pub fn new(user_query: String, max_iterations: usize) -> (s: LoopState)
        ensures
            s.wf(),
            s.iteration == 0,
            s.max_iterations == max_iterations,
            s.transcript@.len() == 1,
            s.transcript@[0] == (Turn {
                role: Role::User,
                content: user_query,
                tool_calls: None,
                tool_name: None,
            }),
    {
        let turn = Turn { role: Role::User, content: user_query, tool_calls: None, tool_name: None };
        let mut transcript: Vec<Turn> = Vec::new();
        transcript.push(turn);
        LoopState { iteration: 0, max_iterations, transcript }
    }

    /// True while the iteration budget allows another round.
    pub fn keep_going(&self) -> (r: bool)
        ensures
            r == (self.iteration < self.max_iterations),
    {
        self.iteration < self.max_iterations
    }

    /// Records the chat collaborator's answer as an assistant turn and
    /// decides the round: with no tool calls the answer's content is the
    /// final result; otherwise its calls are to be executed in order.
    pub fn on_chat_message(&mut self, msg: ChatMessage) -> (r: RoundAction)
        requires
            old(self).wf(),
        ensures
            final(self).wf(),
            final(self).iteration == old(self).iteration,
            final(self).max_iterations == old(self).max_iterations,
            final(self).transcript@ == old(self).transcript@.push(
                Turn {
                    role: Role::Assistant,
                    content: msg.content,
                    tool_calls: msg.tool_calls,
                    tool_name: None,
                },
            ),
            match r {
                RoundAction::Finish(c) => msg.tool_calls is None && c == msg.content,
                RoundAction::RunTools(n) => msg.tool_calls matches Some(calls) && n == calls@.len(),
            },
    {
        let action = match &msg.tool_calls {
            None => RoundAction::Finish(msg.content.clone()),
            Some(calls) => RoundAction::RunTools(calls.len()),
        };
        let turn = Turn {
            role: Role::Assistant,
            content: msg.content,
            tool_calls: msg.tool_calls,
            tool_name: None,
        };
        proof {
            lemma_wf_push_non_tool(self.transcript@, turn);
        }
        self.transcript.push(turn);
        action
    }

    /// Call number `k` of the assistant turn at position `a`: what the round
    /// in progress executes next.
    pub fn call_at(&self, a: usize, k: usize) -> (r: &ToolCall)
        requires
            a < self.transcript@.len(),
            self.transcript@[a as int].tool_calls matches Some(calls) && k < calls@.len(),
        ensures
            self.transcript@[a as int].tool_calls matches Some(calls) && *r == calls@[k as int],
    {
        let turn = &self.transcript[a];
        match &turn.tool_calls {
            Some(calls) => &calls[k],
            None => vstd::pervasive::unreached(),
        }
    }

    /// Appends one tool turn answering the next pending call, its content
    /// capped by the transcript ceiling.
    pub fn record_tool_result(&mut self, tool_name: String, raw: String)
        requires
            old(self).wf(),
            can_append_tool(old(self).transcript@, tool_name@),
        ensures
            final(self).wf(),
            final(self).iteration == old(self).iteration,
            final(self).max_iterations == old(self).max_iterations,
            final(self).transcript@.len() == old(self).transcript@.len() + 1,
            final(self).transcript@.drop_last() == old(self).transcript@,
            final(self).transcript@.last().role is Tool,
            final(self).transcript@.last().tool_calls is None,
            final(self).transcript@.last().tool_name == Some(tool_name),
            final(self).transcript@.last().content@ == spec_capped(raw@),
    {
        let content = cap_tool_result(raw);
        let turn = Turn { role: Role::Tool, content, tool_calls: None, tool_name: Some(tool_name) };
        proof {
            lemma_wf_push_tool(self.transcript@, turn);
        }
        self.transcript.push(turn);
        proof {
            assert(self.transcript@.drop_last() =~= old(self).transcript@);
        }
    }

    /// The human-readable description of the last action, scanning the
    /// transcript in reverse: a tool turn means a tool response was being
    /// processed; an assistant turn with calls names its first call; with
    /// nothing found the model was reasoning.
    pub fn last_action(&self) -> (r: String)
        ensures
            r@ == spec_last_action(self.transcript@),
    {
        let n = self.transcript.len();
        proof {
            assert(self.transcript@.take(n as int) =~= self.transcript@);
        }
        let mut i: usize = n;
        while i > 0
            invariant
                i <= n,
                n == self.transcript@.len(),
                spec_last_action(self.transcript@) == spec_last_action(
                    self.transcript@.take(i as int),
                ),
            decreases i,
        {
            let t = &self.transcript[i - 1];
            proof {
                assert(self.transcript@.take(i as int).last() == self.transcript@[i - 1]);
                assert(self.transcript@.take(i as int).drop_last() =~= self.transcript@.take(
                    i - 1,
                ));
            }
            if t.role == Role::Tool {
                return String::from_str("processing tool response");
            }
            match &t.tool_calls {
                Some(calls) => {
                    if calls.len() > 0 {
                        return action_phrase_exec(calls[0].function.name.as_str());
                    }
                },
                None => {},
            }
            i = i - 1;
        }
        String::from_str("reasoning")
    }

    /// The fixed-format result returned when the iteration budget runs out:
    /// it names the exact limit and the last action. A distinguishable,
    /// successful outcome, not an error.
    pub fn exhaustion_message(&self) -> (r: String)
        ensures
            r@ == spec_exhaustion_message(self.max_iterations as nat, self.transcript@),
    {
        let mut r = String::from_str("Reached maximum iterations (");
        let n = decimal_string(self.max_iterations as u64);
        r.append(n.as_str());
        r.append(") while ");
        let act = self.last_action();
        r.append(act.as_str());
        r.append(". Try a more specific query or use --max-iterations to increase the limit.");
        r
    }

    /// Moves to the next round.
    pub fn advance(&mut self)
        requires
            old(self).iteration < old(self).max_iterations,
        ensures
            final(self).iteration == old(self).iteration + 1,
            final(self).max_iterations == old(self).max_iterations,
            final(self).transcript == old(self).transcript,
            old(self).wf() ==> final(self).wf(),
    {
        self.iteration = self.iteration + 1;
    }
}

/// The tool turn at `j + 1 + k` names the same tool as call `k` of the
/// assistant turn at `j`.
pub open spec fn tool_block_entry(ts: Seq<Turn>, j: int, k: int, calls: Seq<ToolCall>) -> bool {
    let t = ts[j + 1 + k];
    &&& t.role is Tool
    &&& (t.tool_name matches Some(n) && n@ == calls[k].function.name@)
}

/// The assistant turn at `j` is followed by one tool turn per call, in the
/// order the calls were listed.
pub open spec fn round_answered(ts: Seq<Turn>, j: int) -> bool {
    ts[j].tool_calls matches Some(calls) ==> {
        &&& j + calls@.len() < ts.len()
        &&& forall|k: int| 0 <= k < calls@.len() ==> #[trigger] tool_block_entry(ts, j, k, calls@)
    }
}

/// Every assistant turn before position `b` has its full block of answering
/// tool turns.
pub open spec fn rounds_complete_before(ts: Seq<Turn>, b: int) -> bool {
    forall|j: int| 0 <= j < b && (#[trigger] ts[j]).role is Assistant ==> round_answered(ts, j)
}

/// In every round, the number of tool turns appended equals the number of
/// tool calls in the preceding assistant turn, with matching names in the
/// same order.
pub open spec fn rounds_complete(ts: Seq<Turn>) -> bool {
    rounds_complete_before(ts, ts.len() as int)
}

/// In a well-formed transcript, an answered round's block of tool turns is
/// exact: the turn after the block, if any, is not a tool turn, so the
/// number of tool turns following the assistant turn equals the number of
/// its calls.
pub proof fn lemma_round_block_is_exact(ts: Seq<Turn>, j: int)
    requires
        wf_transcript(ts),
        0 <= j < ts.len(),
        ts[j].role is Assistant,
        round_answered(ts, j),
        ts[j].tool_calls is Some,
    ensures
        j + 1 + ts[j].tool_calls->0@.len() < ts.len() ==> !(ts[j + 1
            + ts[j].tool_calls->0@.len()].role is Tool),
{
    let calls = ts[j].tool_calls->0@;
    let i = j + 1 + calls.len();
    if i < ts.len() && ts[i].role is Tool {
        assert(tool_turn_answers(ts, i));
        let j0 = choose|j0: int|
            {
                &&& 0 <= j0 < i
                &&& (#[trigger] ts[j0]).role is Assistant
                &&& forall|k: int| j0 < k <= i ==> (#[trigger] ts[k]).role is Tool
                &&& (ts[j0].tool_calls matches Some(cs) && i - j0 <= cs@.len()
                    && (ts[i].tool_name matches Some(n) && n@ == cs@[i - j0 - 1].function.name@))
            };
        if j0 < j {
            assert(ts[j].role is Tool);
            assert(false);
        } else if j0 > j {
            assert(tool_block_entry(ts, j, j0 - j - 1, calls));
            assert(ts[j0].role is Tool);
            assert(false);
        } else {
            assert(i - j > calls.len());
            assert(false);
        }
    }
}

proof fn lemma_round_answered_push(ts: Seq<Turn>, t: Turn, j: int)
    requires
        0 <= j < ts.len(),
        round_answered(ts, j),
    ensures
        round_answered(ts.push(t), j),
{
    let ts2 = ts.push(t);
    if ts[j].tool_calls is Some {
        let calls = ts[j].tool_calls->0;
        assert forall|k: int| 0 <= k < calls@.len() implies #[trigger] tool_block_entry(
            ts2,
            j,
            k,
            calls@,
        ) by {
            assert(tool_block_entry(ts, j, k, calls@));
            assert(ts2[j + 1 + k] == ts[j + 1 + k]);
        }
    }
}

proof fn lemma_rounds_complete_before_push(ts: Seq<Turn>, t: Turn, b: int)
    requires
        b <= ts.len(),
        rounds_complete_before(ts, b),
    ensures
        rounds_complete_before(ts.push(t), b),
{
    let ts2 = ts.push(t);
    assert forall|j: int| 0 <= j < b && (#[trigger] ts2[j]).role is Assistant implies
        round_answered(ts2, j) by {
        assert(ts2[j] == ts[j]);
        lemma_round_answered_push(ts, t, j);
    }
}

proof fn lemma_trailing_tools_push(ts: Seq<Turn>, t: Turn)
    ensures
        t.role is Tool ==> trailing_tools(ts.push(t)) == trailing_tools(ts) + 1,
        !(t.role is Tool) ==> trailing_tools(ts.push(t)) == 0,
{
    assert(ts.push(t).drop_last() =~= ts);
    assert(ts.push(t).last() == t);
}

/// True when the model-issued arguments of `call` are malformed for its
/// (registered) tool: a missing or non-string required field, or one that is
/// empty or whitespace-only. Such a call aborts the whole run.
pub open spec fn spec_call_invalid(call: ToolCall) -> bool {
    let name = call.function.name@;
    let args = call.function.arguments.entries@;
    ||| (name == "web_search"@ && (match spec_text_arg(args, "query"@) {
        Some(q) => spec_trimmed(q@).len() == 0,
        None => true,
    }))
    ||| (name == "web_fetch"@ && (match spec_text_arg(args, "url"@) {
        Some(u) => spec_trimmed(u@).len() == 0,
        None => true,
    }))
}

/// True when no call of this chat answer would abort the run.
pub open spec fn spec_round_ok(msg: ChatMessage) -> bool {
    msg.tool_calls matches Some(calls) ==> forall|k: int|
        0 <= k < calls@.len() ==> !spec_call_invalid(#[trigger] calls@[k])
}

/// The string value stored under `key` in the argument map, when there is
/// one.
pub open spec fn spec_text_arg(
    args: Seq<(String, ArgValue)>,
    key: Seq<char>,
) -> Option<String> {
    match spec_lookup(args, key) {
        Some(v) => match v {
            ArgValue::Text(s) => Some(s),
            _ => None,
        },
        None => None,
    }
}

/// The unsigned integer value stored under `key`, when there is one.
pub open spec fn spec_uint_arg(args: Seq<(String, ArgValue)>, key: Seq<char>) -> Option<u64> {
    match spec_lookup(args, key) {
        Some(v) => match v {
            ArgValue::Uint(n) => Some(n),
            _ => None,
        },
        None => None,
    }
}

pub open spec fn spec_is_known_tool(name: Seq<char>) -> bool {
    name == "web_search"@ || name == "web_fetch"@
}

/// What the Tool Executor decides for one model-issued call: dispatch a
/// search or a fetch, answer an unrecognized name conversationally, or
/// reject malformed arguments (which aborts the whole run).
#[derive(Debug)]
pub enum ToolDecision {
    Search { query: String, max_results: Option<u64> },
    Fetch { url: String },
    Unknown { message: String },
    Invalid { error: OllamaError },
}

/// Validates a model-issued tool call and decides what to do with it. A
/// search needs a non-blank string `query` (an integer `max_results` is
/// optional and any other shape is ignored); a fetch needs a non-blank
/// string `url`; a name outside the registry is answered with an unknown-tool
/// message rather than failing the run.
pub fn interpret_tool_call(call: &ToolCall) -> (r: ToolDecision)
    ensures
        r is Invalid <==> spec_call_invalid(*call),
        ({
            let name = call.function.name@;
            let args = call.function.arguments.entries@;
            match r {
                ToolDecision::Search { query, max_results } => {
                    &&& name == "web_search"@
                    &&& spec_text_arg(args, "query"@) == Some(query)
                    &&& spec_trimmed(query@).len() > 0
                    &&& max_results == spec_uint_arg(args, "max_results"@)
                },
                ToolDecision::Fetch { url } => {
                    &&& name == "web_fetch"@
                    &&& spec_text_arg(args, "url"@) == Some(url)
                    &&& spec_trimmed(url@).len() > 0
                },
                ToolDecision::Unknown { message } => {
                    &&& !spec_is_known_tool(name)
                    &&& message@ == "Error: Unknown tool '"@ + name + "'"@
                },
                ToolDecision::Invalid { error } => error matches OllamaError::InvalidResponse(m)
                    && {
                    ||| (name == "web_search"@ && spec_text_arg(args, "query"@) is None && m@
                        == "Missing 'query' field in web_search"@)
                    ||| (name == "web_search"@ && (spec_text_arg(args, "query"@) matches Some(q)
                        && spec_trimmed(q@).len() == 0) && m@ == "Query cannot be empty"@)
                    ||| (name == "web_fetch"@ && spec_text_arg(args, "url"@) is None && m@
                        == "Missing 'url' field in web_fetch"@)
                    ||| (name == "web_fetch"@ && (spec_text_arg(args, "url"@) matches Some(u)
                        && spec_trimmed(u@).len() == 0) && m@ == "URL cannot be empty"@)
                },
            }
        }),
{
    let name = call.function.name.as_str();
    if str_eq(name, "web_search") {
        match call.function.arguments.get("query") {
            Some(v) => match v {
                ArgValue::Text(q) => {
                    if is_blank(q.as_str()) {
                        ToolDecision::Invalid {
                            error: OllamaError::InvalidResponse(
                                String::from_str("Query cannot be empty"),
                            ),
                        }
                    } else {
                        let query = q.clone();
                        let max_results = match call.function.arguments.get("max_results") {
                            Some(w) => match w {
                                ArgValue::Uint(n) => Some(*n),
                                _ => None,
                            },
                            None => None,
                        };
                        proof {
                            reveal_strlit("web_search");
                            reveal_strlit("web_fetch");
                            assert("web_search"@.len() != "web_fetch"@.len());
                        }
                        ToolDecision::Search { query, max_results }
                    }
                },
                _ => ToolDecision::Invalid {
                    error: OllamaError::InvalidResponse(
                        String::from_str("Missing 'query' field in web_search"),
                    ),
                },
            },
            None => ToolDecision::Invalid {
                error: OllamaError::InvalidResponse(
                    String::from_str("Missing 'query' field in web_search"),
                ),
            },
        }
    } else if str_eq(name, "web_fetch") {
        match call.function.arguments.get("url") {
            Some(v) => match v {
                ArgValue::Text(u) => {
                    if is_blank(u.as_str()) {
                        ToolDecision::Invalid {
                            error: OllamaError::InvalidResponse(
                                String::from_str("URL cannot be empty"),
                            ),
                        }
                    } else {
                        proof {
                            reveal_strlit("web_search");
                            reveal_strlit("web_fetch");
                            assert("web_search"@.len() != "web_fetch"@.len());
                        }
                        ToolDecision::Fetch { url: u.clone() }
                    }
                },
                _ => ToolDecision::Invalid {
                    error: OllamaError::InvalidResponse(
                        String::from_str("Missing 'url' field in web_fetch"),
                    ),
                },
            },
            None => ToolDecision::Invalid {
                error: OllamaError::InvalidResponse(
                    String::from_str("Missing 'url' field in web_fetch"),
                ),
            },
        }
    } else {
        let mut message = String::from_str("Error: Unknown tool '");
        message.append(name);
        message.append("'");
        ToolDecision::Unknown { message }
    }
}

/// A content preview cut to `budget` bytes at a character boundary.
pub open spec fn spec_preview(content: Seq<char>, budget: int) -> Seq<char> {
    decode_utf8(spec_truncate(encode_utf8(content), budget))
}

/// How many bytes of a search result's content survive into its block.
pub const SEARCH_PREVIEW_BYTES: usize = 500;

/// How many bytes of a fetched page's content survive into its rendering.
pub const FETCH_PREVIEW_BYTES: usize = 2000;

/// One search result as a fixed block: 1-based index, title, URL and a
/// 500-byte content preview.
pub open spec fn spec_search_block(r: crate::client::SearchResult, num: nat) -> Seq<char> {
    "Result "@ + dec_digits(num) + ":\nTitle: "@ + r.title@ + "\nURL: "@ + r.url@ + "\nContent: "@
        + spec_preview(r.content@, SEARCH_PREVIEW_BYTES as int) + "\n\n"@
}

/// All search results rendered as blocks separated by blank lines.
pub open spec fn spec_search_text(results: Seq<crate::client::SearchResult>) -> Seq<char>
    decreases results.len(),
{
    if results.len() == 0 {
        Seq::empty()
    } else {
        spec_search_text(results.drop_last()) + spec_search_block(
            results.last(),
            results.len() as nat,
        )
    }
}

/// Renders a search response for the model: one block per result, in order.
pub fn render_search_results(results: &Vec<crate::client::SearchResult>) -> (r: String)
    ensures
        r@ == spec_search_text(results@),
{
    let mut out = String::new();
    let mut i: usize = 0;
    while i < results.len()
        invariant
            i <= results@.len(),
            out@ == spec_search_text(results@.take(i as int)),
        decreases results@.len() - i,
    {
        let res = &results[i];
        out.append("Result ");
        let n = decimal_string((i + 1) as u64);
        out.append(n.as_str());
        out.append(":\nTitle: ");
        out.append(res.title.as_str());
        out.append("\nURL: ");
        out.append(res.url.as_str());
        out.append("\nContent: ");
        let preview = truncate_utf8(res.content.as_str(), SEARCH_PREVIEW_BYTES);
        proof {
            vstd::utf8::encode_utf8_decode_utf8(preview@);
        }
        out.append(preview);
        out.append("\n\n");
        proof {
            assert(results@.take(i + 1).drop_last() =~= results@.take(i as int));
            assert(results@.take(i + 1).last() == results@[i as int]);
        }
        i = i + 1;
    }
    proof {
        assert(results@.take(results@.len() as int) =~= results@);
    }
    out
}

/// A fetched page rendered for the model: title, a 2000-byte content
/// preview, and the number of discovered links (not the links themselves).
pub open spec fn spec_fetch_text(title: Seq<char>, content: Seq<char>, link_count: nat) -> Seq<
    char,
> {
    "Title: "@ + title + "\n\nContent:\n"@ + spec_preview(content, FETCH_PREVIEW_BYTES as int)
        + "\n\nLinks found: "@ + dec_digits(link_count)
}

/// The research agent's configuration: which model to ask, the iteration
/// budget, and the two presentation modes (showing reasoning steps excludes
/// the status indicator).
#[derive(Debug)]
pub struct Agent {
    pub model: String,
    pub max_iterations: usize,
    pub show_thinking: bool,
    pub enable_reasoning: bool,
}

impl Agent {
    pub fn new(
        model: String,
        show_thinking: bool,
        enable_reasoning: bool,
        max_iterations: usize,
    ) -> (a: Agent)
        ensures
            a.model == model,
            a.show_thinking == show_thinking,
            a.enable_reasoning == enable_reasoning,
            a.max_iterations == max_iterations,
    {
        Agent { model, max_iterations, show_thinking, enable_reasoning }
    }

    /// Opens a run on `user_query`: a fresh loop state under this agent's
    /// iteration budget.
    pub fn start(&self, user_query: String) -> (s: LoopState)
        ensures
            s.wf(),
            s.iteration == 0,
            s.max_iterations == self.max_iterations,
            s.transcript@.len() == 1,
            s.transcript@[0] == (Turn {
                role: Role::User,
                content: user_query,
                tool_calls: None,
                tool_name: None,
            }),
    {
        LoopState::new(user_query, self.max_iterations)
    }
}

/// How a run ends: the model's final answer, or the fixed exhaustion message
/// once the iteration budget is spent. The two are distinguishable by the
/// variant, and exhaustion is not an error.
#[derive(Debug)]
pub enum RunOutcome {
    Answer(String),
    Exhausted(String),
}

impl LoopState {
    /// Runs the whole loop against scripted collaborator answers:
    /// `script[i]` is the chat answer of round `i`, and `tool_texts[i][k]`
    /// the rendered result for its call number `k`. Exercises exactly the
    /// per-round steps a live driver performs, without the network between
    /// them: each round appends the assistant turn, then one tool turn per
    /// call in order (an unregistered name answered in place); malformed
    /// call arguments abort the run; a chat answer without tool calls is the
    /// final answer; and a spent budget yields the exhaustion message.
    ///
    /// In particular, when the collaborator proposes (well-formed) tool
    /// calls on every round, no round finishes early: the loop runs exactly
    /// `max_iterations` rounds and ends in the exhaustion message, which
    /// names that exact number.
    pub fn run_replay(
        &mut self,
        script: Vec<ChatMessage>,
        tool_texts: Vec<Vec<String>>,
    ) -> (r: Result<RunOutcome, OllamaError>)
        requires
            old(self).wf(),
            old(self).iteration == 0,
            old(self).transcript@.len() == 1,
            script@.len() >= old(self).max_iterations,
            tool_texts@.len() == script@.len(),
            forall|i: int|
                0 <= i < script@.len() ==> ((#[trigger] script@[i]).tool_calls matches Some(c)
                    ==> tool_texts@[i]@.len() == c@.len()),
        ensures
            final(self).wf(),
            final(self).max_iterations == old(self).max_iterations,
            r is Ok ==> rounds_complete(final(self).transcript@),
            (forall|i: int|
                0 <= i < old(self).max_iterations ==> ((#[trigger] script@[i]).tool_calls is Some
                    && spec_round_ok(script@[i]))) ==> (r matches Ok(o) && o is Exhausted),
            match r {
                Ok(RunOutcome::Answer(c)) => exists|i: int|
                    {
                        &&& 0 <= i < old(self).max_iterations
                        &&& (#[trigger] script@[i]).tool_calls is None
                        &&& c == script@[i].content
                        &&& forall|j: int|
                            0 <= j < i ==> ((#[trigger] script@[j]).tool_calls is Some
                                && spec_round_ok(script@[j]))
                    },
                Ok(RunOutcome::Exhausted(m)) => {
                    &&& forall|i: int|
                        0 <= i < old(self).max_iterations ==> ((#[trigger] script@[i]).tool_calls
                            is Some && spec_round_ok(script@[i]))
                    &&& final(self).iteration == old(self).max_iterations
                    &&& m@ == spec_exhaustion_message(
                        old(self).max_iterations as nat,
                        final(self).transcript@,
                    )
                },
                Err(e) => {
                    &&& e is InvalidResponse
                    &&& exists|i: int|
                        {
                            &&& 0 <= i < old(self).max_iterations
                            &&& forall|j: int|
                                0 <= j < i ==> ((#[trigger] script@[j]).tool_calls is Some
                                    && spec_round_ok(script@[j]))
                            &&& ((#[trigger] script@[i]).tool_calls matches Some(calls)
                                && exists|k: int|
                                0 <= k < calls@.len() && spec_call_invalid(#[trigger] calls@[k]))
                        }
                },
            },
    {
        let ghost script0 = script@;
        let ghost texts0 = tool_texts@;
        let max = self.max_iterations;
        let mut script_rest = script;
        let mut texts_rest = tool_texts;
        proof {
            assert(script0.skip(0) =~= script0);
            assert(texts0.skip(0) =~= texts0);
        }
        while self.iteration < max
            invariant
                self.wf(),
                self.max_iterations == max,
                max == old(self).max_iterations,
                self.iteration <= max,
                script0 == script@,
                texts0 == tool_texts@,
                script_rest@ == script0.skip(self.iteration as int),
                texts_rest@ == texts0.skip(self.iteration as int),
                script0.len() >= max,
                texts0.len() == script0.len(),
                forall|i: int|
                    0 <= i < script0.len() ==> ((#[trigger] script0[i]).tool_calls matches Some(c)
                        ==> texts0[i]@.len() == c@.len()),
                forall|j: int|
                    0 <= j < self.iteration ==> ((#[trigger] script0[j]).tool_calls is Some
                        && spec_round_ok(script0[j])),
                rounds_complete(self.transcript@),
            decreases max - self.iteration,
        {
            let ghost it = self.iteration as int;
            let msg = script_rest.remove(0);
            let texts_round = texts_rest.remove(0);
            proof {
                assert(script0.skip(it)[0] == script0[it]);
                assert(texts0.skip(it)[0] == texts0[it]);
                assert(script0.skip(it).remove(0) =~= script0.skip(it + 1));
                assert(texts0.skip(it).remove(0) =~= texts0.skip(it + 1));
            }
            let a = self.transcript.len();
            let ghost ts_before = self.transcript@;
            let ghost msg_ghost = msg;
            let action = self.on_chat_message(msg);
            proof {
                lemma_rounds_complete_before_push(ts_before, self.transcript@.last(), a as int);
                lemma_trailing_tools_push(ts_before, self.transcript@.last());
            }
            match action {
                RoundAction::Finish(c) => {
                    proof {
                        assert(rounds_complete(self.transcript@));
                    }
                    return Ok(RunOutcome::Answer(c));
                },
                RoundAction::RunTools(n) => {
                    let ghost calls = msg_ghost.tool_calls->0@;
                    let ghost base = self.transcript@;
                    let mut texts_round = texts_round;
                    let mut k: usize = 0;
                    while k < n
                        invariant
                            self.wf(),
                            self.max_iterations == max,
                            max == old(self).max_iterations,
                            self.iteration == it,
                            it < max,
                            script0 == script@,
                            texts0 == tool_texts@,
                            script_rest@ == script0.skip(it + 1),
                            texts_rest@ == texts0.skip(it + 1),
                            script0.len() >= max,
                            texts0.len() == script0.len(),
                            forall|i: int|
                                0 <= i < script0.len() ==> ((#[trigger] script0[i]).tool_calls
                                    matches Some(c) ==> texts0[i]@.len() == c@.len()),
                            forall|j: int|
                                0 <= j < it ==> ((#[trigger] script0[j]).tool_calls is Some
                                    && spec_round_ok(script0[j])),
                            (script0[it].tool_calls matches Some(cv0) && cv0@ == calls),
                            k <= n,
                            n == calls.len(),
                            a + 1 == base.len(),
                            base[a as int].role is Assistant,
                            (base[a as int].tool_calls matches Some(cv) && cv@ == calls),
                            self.transcript@.len() == base.len() + k,
                            self.transcript@.take(base.len() as int) == base,
                            self.transcript@[a as int] == base[a as int],
                            trailing_tools(self.transcript@) == k,
                            forall|k2: int|
                                0 <= k2 < k ==> #[trigger] tool_block_entry(
                                    self.transcript@,
                                    a as int,
                                    k2,
                                    calls,
                                ),
                            forall|k2: int|
                                0 <= k2 < k ==> !spec_call_invalid(#[trigger] calls[k2]),
                            rounds_complete_before(self.transcript@, a as int),
                            texts_round@.len() == n - k,
                        decreases n - k,
                    {
                        let name = {
                            let call = self.call_at(a, k);
                            call.function.name.clone()
                        };
                        let decision = {
                            let call = self.call_at(a, k);
                            interpret_tool_call(call)
                        };
                        let supplied = texts_round.remove(0);
                        let text: String = match decision {
                            ToolDecision::Invalid { error } => {
                                return Err(error);
                            },
                            ToolDecision::Unknown { message } => message,
                            ToolDecision::Search { .. } => supplied,
                            ToolDecision::Fetch { .. } => supplied,
                        };
                        let ghost ts_mid = self.transcript@;
                        self.record_tool_result(name, text);
                        proof {
                            assert(self.transcript@.drop_last() == ts_mid);
                            lemma_trailing_tools_push(ts_mid, self.transcript@.last());
                            assert(self.transcript@ =~= ts_mid.push(self.transcript@.last()));
                            lemma_rounds_complete_before_push(
                                ts_mid,
                                self.transcript@.last(),
                                a as int,
                            );
                            assert(self.transcript@.take(base.len() as int) =~= ts_mid.take(
                                base.len() as int,
                            ));
                            assert forall|k2: int| 0 <= k2 < k + 1 implies #[trigger] tool_block_entry(
                                self.transcript@,
                                a as int,
                                k2,
                                calls,
                            ) by {
                                if k2 < k {
                                    assert(tool_block_entry(ts_mid, a as int, k2, calls));
                                    assert(self.transcript@[a + 1 + k2] == ts_mid[a + 1 + k2]);
                                } else {
                                    assert(self.transcript@[a + 1 + k2]
                                        == self.transcript@.last());
                                }
                            }
                        }
                        k = k + 1;
                    }
                    proof {
                        assert(round_answered(self.transcript@, a as int));
                        assert forall|j: int|
                            0 <= j < self.transcript@.len() && (#[trigger] self.transcript@[j]).role
                                is Assistant implies round_answered(self.transcript@, j) by {
                            if j > a {
                                assert(tool_block_entry(
                                    self.transcript@,
                                    a as int,
                                    j - a - 1,
                                    calls,
                                ));
                                assert(false);
                            } else if j < a {
                                assert(rounds_complete_before(self.transcript@, a as int));
                            }
                        }
                        assert(rounds_complete(self.transcript@));
                    }
                    self.advance();
                },
            }
        }
        let m = self.exhaustion_message();
        Ok(RunOutcome::Exhausted(m))
    }
}

/// Renders a fetch response for the model.
pub fn render_fetch_result(response: &crate::client::FetchResponse) -> (r: String)
    ensures
        r@ == spec_fetch_text(response.title@, response.content@, response.links@.len()),
{
    let mut out = String::from_str("Title: ");
    out.append(response.title.as_str());
    out.append("\n\nContent:\n");
    let preview = truncate_utf8(response.content.as_str(), FETCH_PREVIEW_BYTES);
    proof {
        vstd::utf8::encode_utf8_decode_utf8(preview@);
    }
    out.append(preview);
    out.append("\n\nLinks found: ");
    let n = decimal_string(response.links.len() as u64);
    out.append(n.as_str());
    out
}

} // verus!
