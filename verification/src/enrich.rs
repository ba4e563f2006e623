//! The context that Mimir adds to a turn before the model sees it.
use crate::bridge;
use crate::bridge::{request_text, BridgeOutcome, OutcomeView, BRIDGE_TIMEOUT_SECS};
use crate::exchange;
use crate::exchange::read;
use crate::json::{object, Json, JsonView};
use crate::logging;
use crate::logging::{Level, Line, LineView};
use crate::response;
use crate::response::str_or;
use crate::text;
use crate::text::{
    byte_len_text, decimal_text, excerpt_of, from_utf8_lossy, long_decimal_text, same_text,
};
use vstd::prelude::*;

verus! {

/// What `format_mimir_enrich_response` writes.
pub open spec fn enrichment_text(answer: JsonView) -> Seq<char> {
    let status = response::text_or(answer.text_at("status"@), "unknown"@);
    let context = response::text_or(answer.text_at("context"@), ""@);
    let routed_to = response::text_or(answer.text_at("routed_to"@), ""@);
    if let Some(error) = answer.text_at("error"@) {
        "[Mimir enrich_task error: "@ + error + "]"@
    } else if status == "ok"@ {
        if routed_to.len() > 0 {
            let elapsed = match answer.u64_at("elapsed_ms"@) {
                Some(n) => n,
                None => 0,
            };
            "[Mimir: enriched via "@ + routed_to + " in "@ + text::decimal(elapsed as nat)
                + "ms]\n\n"@ + context
        } else {
            context
        }
    } else if status == "no_results"@ {
        "[Mimir: no project context found for this "@ + "task. "@ + response::text_or(
            answer.text_at("suggestion"@),
            ""@,
        ) + "]"@
    } else {
        "[Mimir: status="@ + status + "] "@ + context
    }
}

/// Formats the answer to `enrich_task` for the context of a turn.
pub fn format_mimir_enrich_response(answer: &Json) -> (output: String)
    ensures
        output@ == enrichment_text(answer@),
{
    if let Some(error) = answer.text_at("error") {
        let mut output = "[Mimir enrich_task error: ".to_owned();
        output.append(error);
        output.append("]");
        return output;
    }
    let status = str_or(answer.text_at("status"), "unknown");
    let context = str_or(answer.text_at("context"), "");
    let routed_to = str_or(answer.text_at("routed_to"), "");
    let elapsed: u64 = match answer.u64_at("elapsed_ms") {
        Some(n) => n,
        None => 0,
    };
    if same_text(status, "ok") {
        let mut output = String::new();
        if !routed_to.is_empty() {
            output.append("[Mimir: enriched via ");
            output.append(routed_to);
            output.append(" in ");
            output.append(decimal_text(elapsed).as_str());
            output.append("ms]\n\n");
        }
        output.append(context);
        output
    } else if same_text(status, "no_results") {
        let mut output = "[Mimir: no project context found for this ".to_owned();
        output.append("task. ");
        output.append(str_or(answer.text_at("suggestion"), ""));
        output.append("]");
        output
    } else {
        let mut output = "[Mimir: status=".to_owned();
        output.append(status);
        output.append("] ");
        output.append(context);
        output
    }
}

/// The request for the context of a task.
pub open spec fn enrichment_request(task: Seq<char>) -> JsonView {
    bridge::request_of(
        "enrich_task"@,
        Some(JsonView::Object(Map::empty().insert("task"@, JsonView::Text(task)))),
    )
}

/// The text of the request for the context of a task. There is no task for which it cannot
/// be written.
pub fn enrich_request_text(task: &str) -> (request: Option<String>)
    ensures
        request matches Some(request) && request@ == exchange::compact(enrichment_request(task@)),
{
    let fields = vec![("task".to_owned(), Json::Text(task.to_owned()))];
    proof {
        reveal_with_fuel(crate::json::object_of, 2);
        let pairs = crate::json::pairs(fields@);
        assert(pairs.drop_last() == Seq::<(Seq<char>, JsonView)>::empty());
        assert(pairs.last() == ("task"@, JsonView::Text(task@)));
        lemma_request_settled(task@);
    }
    match request_text("enrich_task", Some(object(fields))) {
        Ok(request) => Some(request),
        Err(_) => None,
    }
}

/// The context that comes of what was read in the output of the bridge.
pub open spec fn context_of_answer(answer: Result<JsonView, Seq<char>>) -> Option<Seq<char>> {
    match answer {
        Ok(value) => Some(enrichment_text(value)),
        Err(_) => None,
    }
}

/// The context that comes of a run of the bridge: none unless it succeeded and wrote JSON.
pub open spec fn context_of_outcome(outcome: OutcomeView) -> Option<Seq<char>> {
    match outcome {
        OutcomeView::Exited { success, stdout, .. } => if success {
            context_of_answer(exchange::parsed(text::lossy_text(stdout)))
        } else {
            None
        },
        _ => None,
    }
}

/// The text of an optional string that is owned.
pub open spec fn owned_text(text: Option<String>) -> Option<Seq<char>> {
    match text {
        Some(text) => Some(text@),
        None => None,
    }
}

/// How many bytes of a task are logged when Mimir is asked for its context.
pub const CALLING_EXCERPT: usize = 100;

/// What is logged when Mimir is asked for the context of a task.
pub open spec fn calling_text(task: Seq<char>) -> Seq<char> {
    "Auto-enrich: calling Mimir enrich_task for task: "@ + text::excerpt(
        task,
        CALLING_EXCERPT as nat,
    )
}

/// The line to log when Mimir is asked for the context of a task.
pub fn calling_line(task: &str) -> (line: Line)
    ensures
        line@ == logging::info(calling_text(task@)),
{
    let mut output = "Auto-enrich: calling Mimir enrich_task for task: ".to_owned();
    output.append(excerpt_of(task, CALLING_EXCERPT));
    Line { level: Level::Info, text: output }
}

/// What is logged of what was read in the output of the bridge: the size in bytes of the
/// context and the time that it took, or why nothing was read.
pub open spec fn line_of_answer(answer: Result<JsonView, Seq<char>>, elapsed_ms: nat) -> LineView {
    match answer {
        Ok(value) => logging::info(
            "Auto-enrich: got context ("@ + text::decimal(text::byte_len(enrichment_text(value)))
                + " chars, "@ + text::decimal(elapsed_ms) + "ms)"@,
        ),
        Err(message) => logging::warn(
            "Auto-enrich: failed to parse Mimir response: "@ + message,
        ),
    }
}

/// What is logged of a run of the bridge.
pub open spec fn line_of_outcome(outcome: OutcomeView, elapsed_ms: nat) -> LineView {
    match outcome {
        OutcomeView::Exited { success, stdout, .. } => if success {
            line_of_answer(exchange::parsed(text::lossy_text(stdout)), elapsed_ms)
        } else {
            logging::warn(
                "Auto-enrich: Mimir bridge failed after "@ + text::decimal(elapsed_ms)
                    + "ms (non-fatal)"@,
            )
        },
        OutcomeView::Failed(message) => logging::warn(
            "Auto-enrich: Mimir bridge error: "@ + message,
        ),
        OutcomeView::TimedOut => logging::warn(
            "Auto-enrich: Mimir bridge timed out after "@ + text::decimal(
                BRIDGE_TIMEOUT_SECS as nat,
            ) + "s"@,
        ),
    }
}

/// What comes of a run of the bridge: the context of a turn, and what is logged.
#[derive(Debug)]
pub struct Enrichment {
    pub context: Option<String>,
    pub line: Line,
}

/// The context of a turn, once it is known what was read in the output of the bridge.
pub fn enrich_from_answer(answer: Result<Json, String>, elapsed_ms: u128) -> (enrichment:
    Enrichment)
    ensures
        owned_text(enrichment.context) == context_of_answer(crate::tool::answer_view(answer)),
        enrichment.line@ == line_of_answer(crate::tool::answer_view(answer), elapsed_ms as nat),
{
    match answer {
        Ok(value) => {
            let context = format_mimir_enrich_response(&value);
            let mut output = "Auto-enrich: got context (".to_owned();
            output.append(byte_len_text(context.as_str()).as_str());
            output.append(" chars, ");
            output.append(long_decimal_text(elapsed_ms).as_str());
            output.append("ms)");
            Enrichment { context: Some(context), line: Line { level: Level::Info, text: output } }
        },
        Err(message) => {
            let mut output = "Auto-enrich: failed to parse Mimir response: ".to_owned();
            output.append(message.as_str());
            Enrichment { context: None, line: Line { level: Level::Warn, text: output } }
        },
    }
}

/// The context of a turn, from a run of the bridge that took `elapsed_ms` milliseconds.
pub fn enrich_from_outcome(outcome: &BridgeOutcome, elapsed_ms: u128) -> (enrichment: Enrichment)
    ensures
        owned_text(enrichment.context) == context_of_outcome(outcome@),
        enrichment.line@ == line_of_outcome(outcome@, elapsed_ms as nat),
{
    match outcome {
        BridgeOutcome::Exited { success, stdout, .. } => if *success {
            let stdout = from_utf8_lossy(stdout);
            enrich_from_answer(read(stdout.as_str()), elapsed_ms)
        } else {
            let mut output = "Auto-enrich: Mimir bridge failed after ".to_owned();
            output.append(long_decimal_text(elapsed_ms).as_str());
            output.append("ms (non-fatal)");
            Enrichment { context: None, line: Line { level: Level::Warn, text: output } }
        },
        BridgeOutcome::Failed(message) => {
            let mut output = "Auto-enrich: Mimir bridge error: ".to_owned();
            output.append(message.as_str());
            Enrichment { context: None, line: Line { level: Level::Warn, text: output } }
        },
        BridgeOutcome::TimedOut => {
            let mut output = "Auto-enrich: Mimir bridge timed out after ".to_owned();
            output.append(decimal_text(BRIDGE_TIMEOUT_SECS).as_str());
            output.append("s");
            Enrichment { context: None, line: Line { level: Level::Warn, text: output } }
        },
    }
}

proof fn lemma_request_settled(task: Seq<char>)
    ensures
        exchange::settled(enrichment_request(task)) == enrichment_request(task),
{
    reveal_with_fuel(exchange::settled, 3);
    let request = enrichment_request(task);
    let params = JsonView::Object(Map::empty().insert("task"@, JsonView::Text(task)));
    assert(exchange::settled(params)->Object_0 =~= params->Object_0);
    assert(exchange::settled(request)->Object_0 =~= request->Object_0);
}

/// A turn gets a context from a run of the bridge that succeeds and writes JSON, whatever
/// the JSON says, and from no other.
pub proof fn law_context_of_every_answer(outcome: OutcomeView)
    ensures
        context_of_outcome(outcome) is Some <==> {
            &&& outcome matches OutcomeView::Exited { success, stdout, .. }
            &&& success
            &&& exchange::parsed(text::lossy_text(stdout)) is Ok
        },
{
}

/// A warning is logged of a run where the turn gets no context from it, and nowhere else.
pub proof fn law_warned_without_context(outcome: OutcomeView, elapsed_ms: nat)
    ensures
        line_of_outcome(outcome, elapsed_ms).level == Level::Warn <==> context_of_outcome(
            outcome,
        ) is None,
{
}

/// The request for the context of a task asks for the whole task, whatever its length, and for
/// nothing else.
pub proof fn law_whole_task_is_asked_for(task: Seq<char>)
    ensures
        enrichment_request(task) is Object,
        enrichment_request(task).text_at("action"@) == Some("enrich_task"@),
        enrichment_request(task).get("params"@) matches Some(params) && {
            &&& params is Object
            &&& params.text_at("task"@) == Some(task)
            &&& forall|key: Seq<char>| (#[trigger] params.get(key)) is Some ==> key == "task"@
        },
        forall|key: Seq<char>|
            (#[trigger] enrichment_request(task).get(key)) is Some ==> key == "action"@ || key
                == "params"@,
{
    bridge::law_request_fields(
        "enrich_task"@,
        Some(JsonView::Object(Map::empty().insert("task"@, JsonView::Text(task)))),
    );
}

/// Two tasks are asked for in the same way only where they are the same task.
pub proof fn law_tasks_are_told_apart(task: Seq<char>, other: Seq<char>)
    ensures
        enrichment_request(task) == enrichment_request(other) <==> task == other,
{
    law_whole_task_is_asked_for(task);
    law_whole_task_is_asked_for(other);
}

/// The context of an answer comes through whole: it ends what a turn gets of an answer that is
/// neither an error nor `no_results`, and it is all of that where the answer is `ok` and has no
/// route.
pub proof fn law_context_comes_through(answer: JsonView, context: Seq<char>)
    requires
        answer.text_at("error"@) is None,
        answer.text_at("context"@) == Some(context),
        answer.text_at("status"@) != Some("no_results"@),
    ensures
        context.is_suffix_of(enrichment_text(answer)),
        answer.text_at("status"@) == Some("ok"@) && (answer.text_at("routed_to"@) is None
            || answer.text_at("routed_to"@)->0.len() == 0) ==> enrichment_text(answer) == context,
{
    reveal_strlit("");
    reveal_strlit("ok");
    reveal_strlit("unknown");
    reveal_strlit("no_results");
    assert("unknown"@.len() != "ok"@.len() && "unknown"@.len() != "no_results"@.len());
    let text = enrichment_text(answer);
    assert(context =~= text.subrange(text.len() - context.len(), text.len() as int));
}

/// What a turn gets of an answer, by the kind of the answer: an error is named before anything
/// else; a route is named with its time; a suggestion follows on an answer without results; any
/// other status is named before the context.
pub proof fn law_answers_by_kind(answer: JsonView)
    ensures
        ({
            let context = match answer.text_at("context"@) {
                Some(context) => context,
                None => Seq::empty(),
            };
            let elapsed = match answer.u64_at("elapsed_ms"@) {
                Some(n) => text::decimal(n as nat),
                None => text::decimal(0),
            };
            let status = answer.text_at("status"@);
            match answer.text_at("error"@) {
                Some(error) => enrichment_text(answer) == "[Mimir enrich_task error: "@ + error
                    + seq![']'],
                None => {
                    &&& status == Some("ok"@) ==> (answer.text_at("routed_to"@) matches Some(route)
                        ==> (route.len() > 0 ==> enrichment_text(answer)
                        == "[Mimir: enriched via "@ + route + " in "@ + elapsed + "ms]\n\n"@
                        + context))
                    &&& status == Some("ok"@) && (answer.text_at("routed_to"@) is None
                        || answer.text_at("routed_to"@)->0.len() == 0) ==> enrichment_text(answer)
                        == context
                    &&& status == Some("no_results"@) ==> enrichment_text(answer)
                        == "[Mimir: no project context found for this "@ + "task. "@ + (
                    match answer.text_at("suggestion"@) {
                        Some(suggestion) => suggestion,
                        None => Seq::empty(),
                    }) + seq![']']
                    &&& status matches Some(other) ==> (other != "ok"@ && other != "no_results"@
                        ==> enrichment_text(answer) == "[Mimir: status="@ + other + "] "@ + context)
                    &&& status is None ==> enrichment_text(answer) == "[Mimir: status=unknown] "@
                        + context
                },
            }
        }),
{
    reveal_strlit("");
    reveal_strlit("]");
    assert("]"@ =~= seq![']']);
    reveal_strlit("ok");
    reveal_strlit("unknown");
    reveal_strlit("no_results");
    assert("unknown"@.len() != "ok"@.len() && "unknown"@.len() != "no_results"@.len());
    assert("ok"@.len() != "no_results"@.len());
    reveal_strlit("[Mimir: status=");
    reveal_strlit("] ");
    reveal_strlit("[Mimir: status=unknown] ");
    assert("[Mimir: status="@ + "unknown"@ + "] "@ =~= "[Mimir: status=unknown] "@);
}

/// The context that a turn gets is that of the JSON that was read in the output of the bridge.
pub proof fn law_context_of_what_was_read(
    outcome: OutcomeView,
    stdout: &str,
    answer: Result<Json, String>,
)
    requires
        outcome matches OutcomeView::Exited { stdout: bytes, .. } && stdout@ == text::lossy_text(
            bytes,
        ),
        call_ensures(read, (stdout,), answer),
    ensures
        outcome matches OutcomeView::Exited { success, .. } ==> context_of_outcome(outcome) == (
        if success {
            match answer {
                Ok(value) => Some(enrichment_text(value@)),
                Err(_) => None,
            }
        } else {
            None
        }),
{
}

/// What is logged when Mimir is asked is the task, or as much of its start as fits in a hundred
/// bytes.
pub proof fn law_start_of_the_task_is_logged(task: Seq<char>)
    ensures
        text::byte_len(task) <= 100 ==> calling_text(task)
            == "Auto-enrich: calling Mimir enrich_task for task: "@ + task,
        exists|n: int|
            0 <= n <= task.len() && text::byte_len(task.take(n)) <= 100 && (n < task.len()
                ==> text::byte_len(task.take(n + 1)) > 100) && calling_text(task)
                == "Auto-enrich: calling Mimir enrich_task for task: "@ + #[trigger] task.take(n),
{
    text::law_excerpt(task, 100);
    let kept = text::excerpt(task, 100);
    let n = kept.len() as int;
    assert(task.take(n) =~= kept);
}

/// What is logged of a run says how it went: how much context came and how long it took, what
/// kept it from being read, that it failed and when, why it could not be waited for, or that it
/// took two minutes.
pub proof fn law_runs_are_logged(outcome: OutcomeView, elapsed_ms: nat)
    ensures
        match outcome {
            OutcomeView::Exited { success: true, stdout, .. } => match exchange::parsed(
                text::lossy_text(stdout),
            ) {
                Ok(value) => line_of_outcome(outcome, elapsed_ms) == (LineView {
                    level: Level::Info,
                    text: "Auto-enrich: got context ("@ + text::decimal(
                        text::byte_len(context_of_outcome(outcome)->0),
                    ) + " chars, "@ + text::decimal(elapsed_ms) + "ms)"@,
                }),
                Err(message) => line_of_outcome(outcome, elapsed_ms) == (LineView {
                    level: Level::Warn,
                    text: "Auto-enrich: failed to parse Mimir response: "@ + message,
                }),
            },
            OutcomeView::Exited { success: false, .. } => line_of_outcome(outcome, elapsed_ms)
                == (LineView {
                level: Level::Warn,
                text: "Auto-enrich: Mimir bridge failed after "@ + text::decimal(elapsed_ms)
                    + "ms (non-fatal)"@,
            }),
            OutcomeView::Failed(message) => line_of_outcome(outcome, elapsed_ms) == (LineView {
                level: Level::Warn,
                text: "Auto-enrich: Mimir bridge error: "@ + message,
            }),
            OutcomeView::TimedOut => line_of_outcome(outcome, elapsed_ms) == (LineView {
                level: Level::Warn,
                text: "Auto-enrich: Mimir bridge timed out after "@ + text::decimal(120) + seq!['s'],
            }),
        },
{
    reveal_strlit("s");
    assert("s"@ =~= seq!['s']);
}

/// An optional text stands for what it holds, and for nothing where it holds nothing.
pub proof fn law_owned_text(text: String)
    ensures
        owned_text(Some(text)) == Some(text@),
        owned_text(None) is None,
{
}

} // verus!
