//! The reasoning agent: what it is asked after a failed submission, how its reply
//! is cleaned of markdown fences, and how its verdict is read.

use vstd::prelude::*;
use crate::text::{
    decimal, ends_with, has_prefix, has_suffix, is_blank, is_trimmed, is_white_space,
    decimal_value, is_digit, lemma_decimal_reads_back,
    lemma_trimmed_is_trimmed, lemma_trimmed_padded, push_decimal, same_text, starts_with, trim, trimmed,
};

verus! {

/// The chat-completions endpoint of the model provider.
pub const MODEL_ENDPOINT: &'static str = "https://openrouter.ai/api/v1/chat/completions";

/// The model that is asked.
pub const MODEL_NAME: &'static str = "meta/Llama 4 marvick:free";

/// The referer that the provider's analytics expect.
pub const HTTP_REFERER: &'static str = "[https://superteam.earn](https://superteam.earn)";

/// The instructions that frame every request: a strict JSON schema for the verdict.
pub const SYSTEM_PROMPT: &'static str = "You are an autonomous Solana validator-level core system infrastructure agent. Analyze the provided transaction failure log string and output a strict raw JSON schema mapping the recovery strategy. Your response must be exclusively valid JSON matching the exact schema keys without markdown code block wrappers (do not use ```json). Schema keys required: - \"action\": string (\"RETRY\", \"ABORT\", or \"HOLD\") - \"refresh_blockhash\": boolean (true if blockhash expired, false otherwise) - \"modified_tip\": integer (the updated lamport tip amount to use. If retrying due to a severe network congestion fault, increase the current tip parameter by 20-50% to secure space) - \"reasoning\": string (concise root cause summary)";

/// System-level action instructions parsed from the agent's reasoning.
pub struct RecoveryStrategy {
    /// The verdict, "RETRY", "ABORT" or "HOLD" by the schema; any value other
    /// than "RETRY" ends the recovery.
    pub action: String,
    /// Whether a fresh network blockhash must be fetched before retrying.
    pub refresh_blockhash: bool,
    /// The tip, in lamports, to use for a retry.
    pub modified_tip: u64,
    /// The root cause the agent names.
    pub reasoning: String,
}

/// The action word that asks for a resubmission.
pub open spec fn retry_word() -> Seq<char> {
    seq!['R', 'E', 'T', 'R', 'Y']
}

impl RecoveryStrategy {
    /// Whether the agent asks for the bundle to be submitted again.
    pub open spec fn asks_retry(&self) -> bool {
        self.action@ == retry_word()
    }

    /// Whether the agent asks for the bundle to be submitted again: the action is
    /// exactly "RETRY".
    pub fn is_retry(&self) -> (r: bool)
        ensures
            r == self.asks_retry(),
    {
        let word = "RETRY";
        proof {
            reveal_strlit("RETRY");
            assert(word@ =~= retry_word());
        }
        same_text(self.action.as_str(), word)
    }
}

/// The opening fence of a JSON code block: three backquotes and "json".
pub open spec fn json_fence() -> Seq<char> {
    seq!['`', '`', '`', 'j', 's', 'o', 'n']
}

/// A bare code fence: three backquotes.
pub open spec fn bare_fence() -> Seq<char> {
    seq!['`', '`', '`']
}

/// The body inside a fence, given what follows the opening fence: trimmed, then
/// without a closing fence if it ends with one, then trimmed again.
pub open spec fn unfenced(rest: Seq<char>) -> Seq<char> {
    let u = trimmed(rest);
    if has_suffix(u, bare_fence()) {
        trimmed(u.subrange(0, u.len() - bare_fence().len()))
    } else {
        u
    }
}

/// The reply with whitespace and leaked markdown fences removed, as the agent
/// reads it: a reply that opens with "```json", or else with a bare "```", loses
/// that opening fence and, if it has one, its closing fence, with the whitespace
/// around the body removed; any other reply is only trimmed.
pub open spec fn sanitized_reply(raw: Seq<char>) -> Seq<char> {
    let t = trimmed(raw);
    if has_prefix(t, json_fence()) {
        unfenced(t.subrange(json_fence().len() as int, t.len() as int))
    } else if has_prefix(t, bare_fence()) {
        unfenced(t.subrange(bare_fence().len() as int, t.len() as int))
    } else {
        t
    }
}

proof fn lemma_unfenced_is_trimmed(rest: Seq<char>)
    ensures
        is_trimmed(unfenced(rest)),
{
    let u = trimmed(rest);
    lemma_trimmed_is_trimmed(rest);
    if has_suffix(u, bare_fence()) {
        lemma_trimmed_is_trimmed(u.subrange(0, u.len() - bare_fence().len()));
    }
}

/// The cleaned reply never begins or ends with whitespace.
pub proof fn lemma_sanitized_reply_is_trimmed(raw: Seq<char>)
    ensures
        is_trimmed(sanitized_reply(raw)),
{
    let t = trimmed(raw);
    lemma_trimmed_is_trimmed(raw);
    if has_prefix(t, json_fence()) {
        lemma_unfenced_is_trimmed(t.subrange(json_fence().len() as int, t.len() as int));
    } else if has_prefix(t, bare_fence()) {
        lemma_unfenced_is_trimmed(t.subrange(bare_fence().len() as int, t.len() as int));
    }
}

/// What follows an opening fence: optional whitespace, the body, optional
/// whitespace and a closing fence, unfences to the whole body when the body is
/// trimmed, whatever lines or fences it holds.
pub proof fn lemma_unfenced_body(pre: Seq<char>, body: Seq<char>, post: Seq<char>)
    requires
        is_blank(pre),
        is_blank(post),
        is_trimmed(body),
    ensures
        unfenced(pre + body + post + bare_fence()) == body,
{
    let rest = pre + body + post + bare_fence();
    let empty = Seq::<char>::empty();
    if body.len() > 0 {
        let x = body + post + bare_fence();
        assert(rest =~= pre + x + empty);
        assert(x[0] == body[0]);
        assert(x.last() == '`');
        lemma_trimmed_padded(pre, x, empty);
        assert(x.subrange(x.len() - 3, x.len() as int) =~= bare_fence());
        assert(x.subrange(0, x.len() - 3) =~= empty + body + post);
        lemma_trimmed_padded(empty, body, post);
        assert(trimmed(rest) == x);
        assert(has_suffix(x, bare_fence()));
        assert(unfenced(rest) == trimmed(x.subrange(0, x.len() - 3)));
    } else {
        assert(rest =~= (pre + post) + bare_fence() + empty);
        assert forall|k: int| 0 <= k < (pre + post).len() implies is_white_space(
            #[trigger] (pre + post)[k],
        ) by {
            if k < pre.len() {
                assert((pre + post)[k] == pre[k]);
            } else {
                assert((pre + post)[k] == post[k - pre.len()]);
            }
        }
        lemma_trimmed_padded(pre + post, bare_fence(), empty);
        assert(bare_fence().subrange(0, 0) =~= empty + empty + empty);
        lemma_trimmed_padded(empty, empty, empty);
        assert(body =~= empty);
        assert(trimmed(rest) == bare_fence());
        assert(bare_fence().subrange(0, 3) =~= bare_fence());
        assert(has_suffix(bare_fence(), bare_fence()));
        assert(bare_fence().subrange(0, 0) =~= empty + empty + empty);
    }
}

/// A reply that holds a body in a JSON code fence, with any whitespace around the
/// fences and around the body, cleans to the whole body: every line of it.
pub proof fn lemma_json_fenced_reply(
    lead: Seq<char>,
    pre: Seq<char>,
    body: Seq<char>,
    post: Seq<char>,
    trail: Seq<char>,
)
    requires
        is_blank(lead),
        is_blank(pre),
        is_blank(post),
        is_blank(trail),
        is_trimmed(body),
    ensures
        sanitized_reply(lead + json_fence() + pre + body + post + bare_fence() + trail) == body,
{
    let t = json_fence() + pre + body + post + bare_fence();
    let raw = lead + json_fence() + pre + body + post + bare_fence() + trail;
    assert(raw =~= lead + t + trail);
    assert(t[0] == '`');
    assert(t.last() == '`');
    lemma_trimmed_padded(lead, t, trail);
    assert(t.subrange(0, 7) =~= json_fence());
    assert(t.subrange(7, t.len() as int) =~= pre + body + post + bare_fence());
    lemma_unfenced_body(pre, body, post);
}

/// A reply that holds a body in a bare code fence cleans to the whole body in the
/// same way, unless the fence and the body together open with "```json", which is
/// read as a JSON fence.
pub proof fn lemma_bare_fenced_reply(
    lead: Seq<char>,
    pre: Seq<char>,
    body: Seq<char>,
    post: Seq<char>,
    trail: Seq<char>,
)
    requires
        is_blank(lead),
        is_blank(pre),
        is_blank(post),
        is_blank(trail),
        is_trimmed(body),
        !(pre.len() == 0 && has_prefix(body, seq!['j', 's', 'o', 'n'])),
    ensures
        sanitized_reply(lead + bare_fence() + pre + body + post + bare_fence() + trail) == body,
{
    let t = bare_fence() + pre + body + post + bare_fence();
    let raw = lead + bare_fence() + pre + body + post + bare_fence() + trail;
    assert(raw =~= lead + t + trail);
    assert(t[0] == '`');
    assert(t.last() == '`');
    lemma_trimmed_padded(lead, t, trail);
    if has_prefix(t, json_fence()) {
        assert(t[3] == 'j');
        if pre.len() > 0 {
            assert(t[3] == pre[0]);
        } else if body.len() >= 4 {
            assert forall|k: int| 0 <= k < 4 implies body.subrange(0, 4)[k] == seq!['j', 's', 'o', 'n'][k] by {
                assert(t[3 + k] == body[k]);
                assert(t.subrange(0, 7)[3 + k] == json_fence()[3 + k]);
            }
            assert(body.subrange(0, 4) =~= seq!['j', 's', 'o', 'n']);
        } else {
            let l = body.len() as int;
            assert(t.subrange(0, 7)[3 + l] == json_fence()[3 + l]);
            if post.len() > 0 {
                assert(t[3 + l] == post[0]);
            } else {
                assert(t[3 + l] == '`');
            }
        }
        assert(false);
    }
    assert(t.subrange(0, 3) =~= bare_fence());
    assert(t.subrange(3, t.len() as int) =~= pre + body + post + bare_fence());
    lemma_unfenced_body(pre, body, post);
}

/// A reply that does not open with a code fence is only trimmed: whatever it
/// holds between its outer whitespace is kept as it is.
pub proof fn lemma_unfenced_reply(lead: Seq<char>, x: Seq<char>, trail: Seq<char>)
    requires
        is_blank(lead),
        is_blank(trail),
        is_trimmed(x),
        !has_prefix(x, bare_fence()),
    ensures
        sanitized_reply(lead + x + trail) == x,
{
    lemma_trimmed_padded(lead, x, trail);
    if has_prefix(x, json_fence()) {
        assert(x.subrange(0, 3) =~= json_fence().subrange(0, 7).subrange(0, 3));
        assert(x.subrange(0, 3) =~= bare_fence());
    }
}

/// A reply that opens a JSON code fence and never closes it cleans to the body
/// after the opening fence, all of it, as long as the body does not itself end
/// with a fence.
pub proof fn lemma_json_fence_left_open(
    lead: Seq<char>,
    pre: Seq<char>,
    body: Seq<char>,
    trail: Seq<char>,
)
    requires
        is_blank(lead),
        is_blank(pre),
        is_blank(trail),
        is_trimmed(body),
        !has_suffix(body, bare_fence()),
    ensures
        sanitized_reply(lead + json_fence() + pre + body + trail) == body,
{
    let empty = Seq::<char>::empty();
    let raw = lead + json_fence() + pre + body + trail;
    let t = trimmed(raw);
    if body.len() > 0 {
        let x = json_fence() + pre + body;
        assert(raw =~= lead + x + trail);
        assert(x[0] == '`');
        assert(x.last() == body.last());
        lemma_trimmed_padded(lead, x, trail);
        assert(t.subrange(0, 7) =~= json_fence());
        assert(t.subrange(7, t.len() as int) =~= pre + body + empty);
        lemma_trimmed_padded(pre, body, empty);
    } else {
        let x = json_fence();
        assert(raw =~= lead + x + (pre + trail));
        assert forall|k: int| 0 <= k < (pre + trail).len() implies is_white_space(
            #[trigger] (pre + trail)[k],
        ) by {
            if k < pre.len() {
                assert((pre + trail)[k] == pre[k]);
            } else {
                assert((pre + trail)[k] == trail[k - pre.len()]);
            }
        }
        assert(x[0] == '`');
        assert(x.last() == 'n');
        lemma_trimmed_padded(lead, x, pre + trail);
        assert(t.subrange(0, 7) =~= json_fence());
        assert(t.subrange(7, t.len() as int) =~= empty + empty + empty);
        lemma_trimmed_padded(empty, empty, empty);
        assert(body =~= empty);
    }
}

fn strip_fence_body(rest: &str) -> (body: &str)
    ensures
        body@ == unfenced(rest@),
{
    let fence = ['`', '`', '`'];
    assert(fence@ =~= bare_fence());
    let u = trim(rest);
    if ends_with(u, &fence) {
        let n = u.unicode_len();
        trim(u.substring_char(0, n - 3))
    } else {
        u
    }
}

/// Removes surrounding whitespace and leaked markdown code fences from the
/// model's reply.
pub fn sanitize_reply(raw: &str) -> (clean: &str)
    ensures
        clean@ == sanitized_reply(raw@),
{
    let json_open = ['`', '`', '`', 'j', 's', 'o', 'n'];
    let fence = ['`', '`', '`'];
    assert(json_open@ =~= json_fence());
    assert(fence@ =~= bare_fence());
    let t = trim(raw);
    if starts_with(t, &json_open) {
        let n = t.unicode_len();
        strip_fence_body(t.substring_char(7, n))
    } else if starts_with(t, &fence) {
        let n = t.unicode_len();
        strip_fence_body(t.substring_char(3, n))
    } else {
        t
    }
}

/// Why the agent's reply could not be read.
pub enum AgentReplyError {
    /// The reply held no textual message content in its first choice.
    MissingContent,
}

impl AgentReplyError {
    /// The error's text.
    pub fn message(&self) -> (m: String)
        ensures
            m@ == "Failed to locate target message content within OpenRouter payload metadata"@,
    {
        String::from_str("Failed to locate target message content within OpenRouter payload metadata")
    }
}

/// The cleaned reply, or the error when the provider's payload held no message text.
pub fn reply_text(content: Option<String>) -> (r: Result<String, AgentReplyError>)
    ensures
        content is None <==> r is Err,
        content matches Some(c) ==> r matches Ok(t) && t@ == sanitized_reply(c@),
{
    match content {
        None => Err(AgentReplyError::MissingContent),
        Some(c) => {
            let clean = sanitize_reply(c.as_str());
            Ok(clean.to_owned())
        },
    }
}

/// The question put to the agent about a failure.
pub open spec fn failure_prompt_text(raw_log: Seq<char>, current_tip: nat) -> Seq<char> {
    "CRITICAL FAULT ENCOUNTERED:\nLog Data: \""@ + raw_log + "\"\nCurrent Active Tip: "@
        + decimal(current_tip) + " lamports\n\nGenerate JSON Strategy:"@
}

/// The prompt opens with the fault header and the log in quotes, then
/// "Current Active Tip: ", and closes with " lamports" and the request for a JSON
/// strategy; what stands between those two pieces is a run of decimal digits that
/// reads back as the tip.
pub proof fn lemma_failure_prompt_carries_tip(raw_log: Seq<char>, current_tip: nat)
    ensures
        ({
            let p = failure_prompt_text(raw_log, current_tip);
            let head = "CRITICAL FAULT ENCOUNTERED:\nLog Data: \""@ + raw_log
                + "\"\nCurrent Active Tip: "@;
            let tail = " lamports\n\nGenerate JSON Strategy:"@;
            let field = p.subrange(head.len() as int, p.len() - tail.len());
            &&& p.len() > head.len() + tail.len()
            &&& p.subrange(0, head.len() as int) == head
            &&& p.subrange(p.len() - tail.len(), p.len() as int) == tail
            &&& forall|k: int| 0 <= k < field.len() ==> is_digit(#[trigger] field[k])
            &&& decimal_value(field) == current_tip
        }),
{
    let p = failure_prompt_text(raw_log, current_tip);
    let head = "CRITICAL FAULT ENCOUNTERED:\nLog Data: \""@ + raw_log + "\"\nCurrent Active Tip: "@;
    let tail = " lamports\n\nGenerate JSON Strategy:"@;
    lemma_decimal_reads_back(current_tip);
    assert(p =~= head + decimal(current_tip) + tail);
    assert(p.subrange(0, head.len() as int) =~= head);
    assert(p.subrange(p.len() - tail.len(), p.len() as int) =~= tail);
    assert(p.subrange(head.len() as int, p.len() - tail.len()) =~= decimal(current_tip));
}

/// Two prompts about the same log with different tips differ.
pub proof fn lemma_failure_prompt_tells_tips_apart(raw_log: Seq<char>, a: nat, b: nat)
    ensures
        a != b ==> failure_prompt_text(raw_log, a) != failure_prompt_text(raw_log, b),
{
    lemma_failure_prompt_carries_tip(raw_log, a);
    lemma_failure_prompt_carries_tip(raw_log, b);
}

/// The autonomous agent: the credentials and the endpoint it reasons through.
pub struct AIAgent {
    pub api_key: String,
    pub model_endpoint: String,
}

impl AIAgent {
    /// An agent that authenticates with `api_key` at the provider's chat endpoint.
    pub fn new(api_key: String) -> (agent: AIAgent)
        ensures
            agent.api_key@ == api_key@,
            agent.model_endpoint@ == MODEL_ENDPOINT@,
    {
        AIAgent { api_key, model_endpoint: MODEL_ENDPOINT.to_owned() }
    }

    /// The value of the `Authorization` header: "Bearer " and the key.
    pub fn authorization_header(&self) -> (h: String)
        ensures
            h@ == "Bearer "@ + self.api_key@,
    {
        let mut h = String::from_str("Bearer ");
        h.append(self.api_key.as_str());
        h
    }

    /// The user message that describes a failure and the tip in force.
    pub fn failure_prompt(raw_log: &str, current_tip: u64) -> (p: String)
        ensures
            p@ == failure_prompt_text(raw_log@, current_tip as nat),
    {
        let mut p = String::from_str("CRITICAL FAULT ENCOUNTERED:\nLog Data: \"");
        p.append(raw_log);
        p.append("\"\nCurrent Active Tip: ");
        push_decimal(&mut p, current_tip);
        p.append(" lamports\n\nGenerate JSON Strategy:");
        p
    }
}

} // verus!
