use vstd::prelude::*;
use vstd::string::StringExecFns;

use crate::agent::Message;
use crate::validator::texts;

verus! {

/// How many replies a task request reads before it gives up on decoding.
pub const MAX_DECODE_ATTEMPTS: u32 = 3;

/// Why a task request failed.
#[derive(Debug, Clone, Copy, PartialEq, Eq, Structural)]
pub enum TaskError {
    /// The model service could not be reached or refused the call.
    Transport,
    /// Every reply allowed was read and none had the expected shape.
    DecodeExhausted,
}

/// One round trip to the model, as the protocol sees it.
#[derive(Debug, Clone)]
pub enum ReplyOutcome<T> {
    TransportFailed,
    Malformed,
    Decoded(T),
}

/// What the protocol does after a round trip.
#[derive(Debug, Clone)]
pub enum RequestStep<T> {
    /// Ask again with the same prompt.
    Retry,
    Done(T),
    Failed(TaskError),
}

/// The protocol's decision after the round trip numbered `attempt` (from 0).
pub open spec fn step_spec<T>(attempt: nat, outcome: ReplyOutcome<T>) -> RequestStep<T> {
    match outcome {
        ReplyOutcome::TransportFailed => RequestStep::Failed(TaskError::Transport),
        ReplyOutcome::Malformed => if attempt + 1 < MAX_DECODE_ATTEMPTS {
            RequestStep::Retry
        } else {
            RequestStep::Failed(TaskError::DecodeExhausted)
        },
        ReplyOutcome::Decoded(v) => RequestStep::Done(v),
    }
}

/// What a request ends with when the model's replies come in the order of
/// `replies`, starting at round trip `attempt`; `None` while it still waits.
pub open spec fn request_result<T>(replies: Seq<ReplyOutcome<T>>, attempt: nat) -> Option<
    Result<T, TaskError>,
>
    decreases replies.len(),
{
    if replies.len() == 0 {
        None
    } else {
        match step_spec(attempt, replies[0]) {
            RequestStep::Retry => request_result(replies.drop_first(), attempt + 1),
            RequestStep::Done(v) => Some(Ok(v)),
            RequestStep::Failed(e) => Some(Err(e)),
        }
    }
}

/// Decides what follows round trip number `attempt`: a decoded value ends the
/// request, a transport failure fails it at once, and a malformed reply is
/// retried until `MAX_DECODE_ATTEMPTS` replies have been read.
pub fn next_request_step<T>(attempt: u32, outcome: ReplyOutcome<T>) -> (r: RequestStep<T>)
    requires
        attempt < MAX_DECODE_ATTEMPTS,
    ensures
        r == step_spec(attempt as nat, outcome),
{
    match outcome {
        ReplyOutcome::TransportFailed => RequestStep::Failed(TaskError::Transport),
        ReplyOutcome::Malformed => {
            if attempt + 1 < MAX_DECODE_ATTEMPTS {
                RequestStep::Retry
            } else {
                RequestStep::Failed(TaskError::DecodeExhausted)
            }
        },
        ReplyOutcome::Decoded(v) => RequestStep::Done(v),
    }
}

/// The text sent to the model for one task: the agent's role, the signature
/// of the function whose output is wanted, and the input to it.
pub open spec fn task_prompt(context: Seq<char>, role: Seq<char>, signature: Seq<char>) -> Seq<
    char,
> {
    "ROLE: "@ + role + "\nFUNCTION: "@ + signature + "\nINPUT: "@ + context
        + "\nPrint only what the function returns for this input, with no commentary."@
}

/// Builds the prompt of a task request.
pub fn build_task_prompt(context: &str, role: &str, signature: &str) -> (r: String)
    ensures
        r@ == task_prompt(context@, role@, signature@),
{
    let mut prompt = String::from_str("ROLE: ");
    prompt.append(role);
    prompt.append("\nFUNCTION: ");
    prompt.append(signature);
    prompt.append("\nINPUT: ");
    prompt.append(context);
    prompt.append("\nPrint only what the function returns for this input, with no commentary.");
    prompt
}

/// The conversation sent for a task: the agent's memory, then the prompt as
/// a user message.
pub fn build_conversation(memory: &Vec<Message>, prompt: String) -> (r: Vec<Message>)
    ensures
        r@.len() == memory@.len() + 1,
        forall|i: int| 0 <= i < memory@.len() ==> r@[i] == memory@[i],
        r@.last().role@ == "user"@,
        r@.last().content == prompt,
{
    let mut out: Vec<Message> = Vec::new();
    let mut i: usize = 0;
    while i < memory.len()
        invariant
            i <= memory.len(),
            out@.len() == i,
            forall|k: int| 0 <= k < i ==> out@[k] == memory@[k],
        decreases memory.len() - i,
    {
        out.push(memory[i].duplicate());
        i = i + 1;
    }
    out.push(Message::new("user", prompt));
    out
}

/// The strings of a JSON array of strings, or `None` where the text is not one.
pub uninterp spec fn json_string_list(text: Seq<char>) -> Option<Seq<Seq<char>>>;

/// Relies on serde_json::from_str into `Vec<String>`: it succeeds exactly when
/// the text is a JSON array of strings, and then yields those strings in order.
#[verifier::external_body]
fn parse_string_list(text: &str) -> (r: Option<Vec<String>>)
    ensures
        r is Some <==> json_string_list(text@) is Some,
        r is Some ==> texts(r->0@) == json_string_list(text@)->0,
{
    serde_json::from_str::<Vec<String>>(text).ok()
}

/// Decodes a reply that should list URLs as a JSON array of strings.
pub fn decode_site_urls(reply: &str) -> (r: ReplyOutcome<Vec<String>>)
    ensures
        json_string_list(reply@) is None ==> r is Malformed,
        json_string_list(reply@) is Some ==> r is Decoded && texts(r->Decoded_0@)
            == json_string_list(reply@)->0,
{
    match parse_string_list(reply) {
        Some(urls) => ReplyOutcome::Decoded(urls),
        None => ReplyOutcome::Malformed,
    }
}

/// A malformed reply followed by a well-formed one, within the allowed
/// attempts, gives the well-formed reply's value as if it had come first.
pub proof fn lemma_retry_is_transparent<T>(replies: Seq<ReplyOutcome<T>>, k: nat, v: T)
    requires
        k < MAX_DECODE_ATTEMPTS,
        k < replies.len(),
        forall|i: int| 0 <= i < k ==> replies[i] is Malformed,
        replies[k as int] == ReplyOutcome::Decoded(v),
    ensures
        request_result(replies, 0) == Some(Ok::<T, TaskError>(v)),
{
    lemma_malformed_prefix(replies, k, 0);
}

/// Malformed replies for every allowed attempt end the request with
/// `DecodeExhausted`, while a transport failure ends it with `Transport`:
/// the two errors are told apart.
pub proof fn lemma_exhaustion_is_fatal<T>(replies: Seq<ReplyOutcome<T>>)
    requires
        replies.len() >= MAX_DECODE_ATTEMPTS,
        forall|i: int| 0 <= i < MAX_DECODE_ATTEMPTS ==> replies[i] is Malformed,
    ensures
        request_result(replies, 0) == Some(Err::<T, TaskError>(TaskError::DecodeExhausted)),
        request_result(seq![ReplyOutcome::<T>::TransportFailed], 0) == Some(
            Err::<T, TaskError>(TaskError::Transport),
        ),
        TaskError::DecodeExhausted != TaskError::Transport,
{
    let k: nat = (MAX_DECODE_ATTEMPTS - 1) as nat;
    lemma_malformed_prefix(replies, k, 0);
    let rest = replies.subrange(k as int, replies.len() as int);
    assert(rest[0] == replies[k as int]);
}

proof fn lemma_malformed_prefix<T>(replies: Seq<ReplyOutcome<T>>, k: nat, attempt: nat)
    requires
        attempt + k < MAX_DECODE_ATTEMPTS,
        k < replies.len(),
        forall|i: int| 0 <= i < k ==> replies[i] is Malformed,
    ensures
        request_result(replies, attempt) == request_result(
            replies.subrange(k as int, replies.len() as int),
            attempt + k,
        ),
    decreases k,
{
    if k == 0 {
        assert(replies.subrange(0, replies.len() as int) =~= replies);
    } else {
        assert(replies[0] is Malformed);
        assert(attempt + 1 < MAX_DECODE_ATTEMPTS);
        let rest = replies.drop_first();
        assert forall|i: int| 0 <= i < k - 1 implies #[trigger] rest[i] is Malformed by {
            assert(rest[i] == replies[i + 1]);
        }
        lemma_malformed_prefix(rest, (k - 1) as nat, attempt + 1);
        assert(rest.subrange((k - 1) as int, rest.len() as int) =~= replies.subrange(
            k as int,
            replies.len() as int,
        ));
    }
}

} // verus!
