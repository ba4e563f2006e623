//! The answers of the Mimir bridge, formatted for an agent to read.
use crate::exchange;
use crate::exchange::{display_text, places_text, pretty_text};
use crate::json::{Json, JsonView};
use crate::text;
use crate::text::{decimal_text, join, same_text};
use vstd::prelude::*;

verus! {

/// The text, or `default` where there is none.
pub open spec fn text_or(text: Option<Seq<char>>, default: Seq<char>) -> Seq<char> {
    match text {
        Some(text) => text,
        None => default,
    }
}

/// The text, or `default` where there is none.
pub(crate) fn str_or<'a>(text: Option<&'a str>, default: &'a str) -> (chosen: &'a str)
    ensures
        chosen@ == text_or(crate::json::opt_text(text), default@),
{
    match text {
        Some(text) => text,
        None => default,
    }
}

/// One line where the text is there, none where it is not.
pub open spec fn line_of(label: Seq<char>, text: Option<Seq<char>>) -> Seq<Seq<char>> {
    match text {
        Some(text) => seq![label + text],
        None => seq![],
    }
}

/// `yes` or `no`, in the words given, for a truth value that is there.
pub open spec fn word_for(truth: Option<bool>, yes: Seq<char>, no: Seq<char>) -> Option<Seq<char>> {
    match truth {
        Some(true) => Some(yes),
        Some(false) => Some(no),
        None => None,
    }
}

/// The decimal numeral of a number that is there.
pub open spec fn numeral_for(number: Option<u64>) -> Option<Seq<char>> {
    match number {
        Some(n) => Some(text::decimal(n as nat)),
        None => None,
    }
}

/// The texts among some values, in order.
pub open spec fn texts_among(items: Seq<JsonView>) -> Seq<Seq<char>>
    decreases items.len(),
{
    if items.len() == 0 {
        Seq::empty()
    } else {
        match items.last().as_str() {
            Some(text) => texts_among(items.drop_last()).push(text),
            None => texts_among(items.drop_last()),
        }
    }
}

/// What `format_enrich_task` writes.
pub open spec fn enrich_task_text(response: JsonView) -> Seq<char> {
    let status = text_or(response.text_at("status"@), "unknown"@);
    let context = text_or(response.text_at("context"@), ""@);
    let routed_to = text_or(response.text_at("routed_to"@), ""@);
    if status == "ok"@ {
        if routed_to.len() > 0 {
            let elapsed = match response.u64_at("elapsed_ms"@) {
                Some(n) => n,
                None => 0,
            };
            let cached = if response.bool_at("cache_hit"@) == Some(true) {
                ", cache hit"@
            } else {
                Seq::empty()
            };
            "[Mimir: routed to "@ + routed_to + " ("@ + text::decimal(elapsed as nat) + "ms)"@
                + cached + "]\n\n"@ + context
        } else {
            context
        }
    } else if status == "no_results"@ {
        "No project context found for this "@ + "task.\n"@ + text_or(
            response.text_at("suggestion"@),
            ""@,
        )
    } else {
        context
    }
}

/// Formats the answer to `enrich_task`.
pub fn format_enrich_task(response: &Json) -> (output: String)
    ensures
        output@ == enrich_task_text(response@),
{
    let status = str_or(response.text_at("status"), "unknown");
    let context = str_or(response.text_at("context"), "");
    let routed_to = str_or(response.text_at("routed_to"), "");
    let elapsed: u64 = match response.u64_at("elapsed_ms") {
        Some(n) => n,
        None => 0,
    };
    let cache_hit = match response.bool_at("cache_hit") {
        Some(hit) => hit,
        None => false,
    };
    if same_text(status, "ok") {
        let mut output = String::new();
        if !routed_to.is_empty() {
            output.append("[Mimir: routed to ");
            output.append(routed_to);
            output.append(" (");
            output.append(decimal_text(elapsed).as_str());
            output.append("ms)");
            if cache_hit {
                output.append(", cache hit");
            }
            output.append("]\n\n");
        }
        output.append(context);
        output
    } else if same_text(status, "no_results") {
        let mut output = "No project context found for this ".to_owned();
        output.append("task.\n");
        output.append(str_or(response.text_at("suggestion"), ""));
        output
    } else {
        context.to_owned()
    }
}

/// To how many decimal places the score of a search result is given.
pub const SCORE_PLACES: u8 = 3;

/// The score of a search result, to three decimal places; zero where it has none.
pub open spec fn score_text(result: JsonView) -> Seq<char> {
    match result.get("score"@) {
        Some(score) => text_or(
            exchange::to_places(exchange::settled(score), SCORE_PLACES as nat),
            "0.000"@,
        ),
        None => "0.000"@,
    }
}

/// One search result, the `rank`-th.
pub open spec fn search_result_text(rank: nat, result: JsonView) -> Seq<char> {
    "["@ + text::decimal(rank) + "] "@ + text_or(result.text_at("source"@), "unknown"@)
        + " (score: "@ + score_text(result) + ")\n"@ + text_or(result.text_at("text"@), ""@)
        + "\n\n"@
}

/// Some search results, ranked from one.
pub open spec fn search_results_text(results: Seq<JsonView>) -> Seq<char>
    decreases results.len(),
{
    if results.len() == 0 {
        Seq::empty()
    } else {
        search_results_text(results.drop_last()) + search_result_text(
            results.len(),
            results.last(),
        )
    }
}

/// What `format_search` writes.
pub open spec fn search_text(response: JsonView) -> Seq<char> {
    match response.array_at("results"@) {
        Some(results) => if results.len() > 0 {
            search_results_text(results)
        } else {
            "No search results found."@
        },
        None => "No search results found."@,
    }
}

fn format_score(result: &Json) -> (score: String)
    ensures
        score@ == score_text(result@),
{
    match result.get("score") {
        Some(score) => match places_text(score, SCORE_PLACES) {
            Some(score) => score,
            None => "0.000".to_owned(),
        },
        None => "0.000".to_owned(),
    }
}

fn format_search_result(rank: u64, result: &Json) -> (output: String)
    ensures
        output@ == search_result_text(rank as nat, result@),
{
    let mut output = "[".to_owned();
    output.append(decimal_text(rank).as_str());
    output.append("] ");
    output.append(str_or(result.text_at("source"), "unknown"));
    output.append(" (score: ");
    output.append(format_score(result).as_str());
    output.append(")\n");
    output.append(str_or(result.text_at("text"), ""));
    output.append("\n\n");
    output
}

/// Formats the answer to `search`.
pub fn format_search(response: &Json) -> (output: String)
    ensures
        output@ == search_text(response@),
{
    let results = match response.array_at("results") {
        Some(results) => results,
        None => return "No search results found.".to_owned(),
    };
    if results.len() == 0 {
        return "No search results found.".to_owned();
    }
    let ghost all = crate::json::values(results@);
    let mut output = String::new();
    let mut i: usize = 0;
    while i < results.len()
        invariant
            i <= results@.len(),
            all == crate::json::values(results@),
            output@ == search_results_text(all.take(i as int)),
        decreases results@.len() - i,
    {
        output.append(format_search_result(i as u64 + 1, &results[i]).as_str());
        proof {
            assert(all.take(i + 1).drop_last() == all.take(i as int));
            assert(all.take(i + 1).last() == results@[i as int]@);
        }
        i += 1;
    }
    assert(all.take(all.len() as int) == all);
    output
}

/// Formats the answer to `query`.
pub fn format_query(response: &Json) -> (output: String)
    ensures
        output@ == text_or(response@.text_at("answer"@), "No answer returned."@),
{
    str_or(response.text_at("answer"), "No answer returned.").to_owned()
}

/// Formats the answer of an agent to `rag_workflow` or `knowledge_agent`.
pub fn format_agent_response(response: &Json) -> (output: String)
    ensures
        output@ == text_or(response@.text_at("answer"@), "No response returned."@),
{
    str_or(response.text_at("answer"), "No response returned.").to_owned()
}

/// What `format_simple` writes.
pub open spec fn simple_text(response: JsonView, label: Seq<char>) -> Seq<char> {
    text_or(response.text_at("message"@), label + " completed."@)
}

/// Formats an answer that is its message, or else says that `label` is completed.
pub fn format_simple(response: &Json, label: &str) -> (output: String)
    ensures
        output@ == simple_text(response@, label@),
{
    match response.text_at("message") {
        Some(message) => message.to_owned(),
        None => {
            let mut output = label.to_owned();
            output.append(" completed.");
            output
        },
    }
}

/// The names of the code directories, where some are given.
pub open spec fn code_dirs_text(stats: JsonView) -> Option<Seq<char>> {
    match stats.array_at("code_dirs"@) {
        Some(dirs) => if texts_among(dirs).len() > 0 {
            Some(text::joined(texts_among(dirs), ", "@))
        } else {
            None
        },
        None => None,
    }
}

/// The number of documents: its decimal numeral, or the JSON of whatever else it is.
pub open spec fn document_count_text(stats: JsonView) -> Option<Seq<char>> {
    match stats.get("document_count"@) {
        Some(count) => match count.as_u64() {
            Some(n) => Some(text::decimal(n as nat)),
            None => Some(exchange::compact(exchange::settled(count))),
        },
        None => None,
    }
}

/// The lines that `format_stats` writes.
pub open spec fn stats_lines(stats: JsonView) -> Seq<Seq<char>> {
    line_of("Project: "@, stats.text_at("project_root"@)) + line_of(
        "Index: "@,
        word_for(stats.bool_at("has_index"@), "yes"@, "no"@),
    ) + line_of("Documents: "@, document_count_text(stats)) + line_of(
        "Source files: "@,
        numeral_for(stats.u64_at("source_files"@)),
    ) + line_of("Code dirs: "@, code_dirs_text(stats))
}

/// What `format_stats` writes.
pub open spec fn stats_text(response: JsonView) -> Seq<char> {
    match response.get("stats"@) {
        Some(stats) => text::joined(stats_lines(stats), "\n"@),
        None => "No stats available."@,
    }
}

/// Adds a line to some lines.
fn add_line(lines: &mut Vec<String>, label: &str, content: &str)
    ensures
        text::texts(final(lines)@) == text::texts(old(lines)@) + line_of(label@, Some(content@)),
{
    let mut line = label.to_owned();
    line.append(content);
    lines.push(line);
}

/// The texts among some values.
fn collect_texts(items: &Vec<Json>) -> (found: Vec<String>)
    ensures
        text::texts(found@) == texts_among(crate::json::values(items@)),
{
    let ghost all = crate::json::values(items@);
    let mut found: Vec<String> = Vec::new();
    let mut i: usize = 0;
    assert(text::texts(found@) == texts_among(all.take(0)));
    while i < items.len()
        invariant
            i <= items@.len(),
            all == crate::json::values(items@),
            text::texts(found@) == texts_among(all.take(i as int)),
        decreases items@.len() - i,
    {
        let ghost before = found@;
        proof {
            assert(all.take(i + 1).drop_last() == all.take(i as int));
            assert(all.take(i + 1).last() == items@[i as int]@);
        }
        match items[i].as_str() {
            Some(item) => {
                found.push(item.to_owned());
                assert(text::texts(found@) == text::texts(before).push(item@));
            },
            None => {},
        }
        i += 1;
    }
    assert(all.take(all.len() as int) == all);
    found
}

/// Formats the answer to `stats`.
pub fn format_stats(response: &Json) -> (output: String)
    ensures
        output@ == stats_text(response@),
{
    let stats = match response.get("stats") {
        Some(stats) => stats,
        None => return "No stats available.".to_owned(),
    };
    let mut lines: Vec<String> = Vec::new();
    if let Some(root) = stats.text_at("project_root") {
        add_line(&mut lines, "Project: ", root);
    }
    assert(text::texts(lines@) == line_of("Project: "@, stats@.text_at("project_root"@)));
    if let Some(has_index) = stats.bool_at("has_index") {
        add_line(
            &mut lines,
            "Index: ",
            if has_index {
                "yes"
            } else {
                "no"
            },
        );
    }
    if let Some(count) = stats.get("document_count") {
        add_line(&mut lines, "Documents: ", display_text(count).as_str());
    }
    if let Some(count) = stats.u64_at("source_files") {
        add_line(&mut lines, "Source files: ", decimal_text(count).as_str());
    }
    if let Some(dirs) = stats.array_at("code_dirs") {
        let names = collect_texts(dirs);
        assert(text::texts(names@).len() == names@.len());
        if names.len() > 0 {
            add_line(&mut lines, "Code dirs: ", join(&names, ", ").as_str());
        }
    }
    assert(text::texts(lines@) == stats_lines(stats@));
    join(&lines, "\n")
}

/// The lines that `format_health` writes.
pub open spec fn health_lines(health: JsonView) -> Seq<Seq<char>> {
    line_of("Router: "@, word_for(health.bool_at("enabled"@), "enabled"@, "disabled"@)) + line_of(
        "Index: "@,
        word_for(health.bool_at("has_index"@), "ready"@, "missing"@),
    ) + line_of("Top-K: "@, numeral_for(health.u64_at("top_k"@))) + line_of(
        "Neural classifier: "@,
        word_for(health.bool_at("neural_classifier_enabled"@), "on"@, "off"@),
    )
}

/// What `format_health` writes.
pub open spec fn health_text(response: JsonView) -> Seq<char> {
    match response.get("health"@) {
        Some(health) => text::joined(health_lines(health), "\n"@),
        None => "No health data."@,
    }
}

/// Formats the answer to `task_health`.
pub fn format_health(response: &Json) -> (output: String)
    ensures
        output@ == health_text(response@),
{
    let health = match response.get("health") {
        Some(health) => health,
        None => return "No health data.".to_owned(),
    };
    let mut lines: Vec<String> = Vec::new();
    if let Some(enabled) = health.bool_at("enabled") {
        add_line(
            &mut lines,
            "Router: ",
            if enabled {
                "enabled"
            } else {
                "disabled"
            },
        );
    }
    assert(text::texts(lines@) == line_of(
        "Router: "@,
        word_for(health@.bool_at("enabled"@), "enabled"@, "disabled"@),
    ));
    if let Some(has_index) = health.bool_at("has_index") {
        add_line(
            &mut lines,
            "Index: ",
            if has_index {
                "ready"
            } else {
                "missing"
            },
        );
    }
    if let Some(top_k) = health.u64_at("top_k") {
        add_line(&mut lines, "Top-K: ", decimal_text(top_k).as_str());
    }
    if let Some(classifier) = health.bool_at("neural_classifier_enabled") {
        add_line(
            &mut lines,
            "Neural classifier: ",
            if classifier {
                "on"
            } else {
                "off"
            },
        );
    }
    assert(text::texts(lines@) == health_lines(health@));
    join(&lines, "\n")
}

/// What `format_sdk_docs` writes.
pub open spec fn sdk_docs_text(response: JsonView) -> Seq<char> {
    "## "@ + text_or(response.text_at("library"@), "?"@) + " / "@ + text_or(
        response.text_at("topic"@),
        "general"@,
    ) + "\n\n"@ + text_or(response.text_at("docs"@), "No docs."@)
}

/// Formats the answer to `sdk_cache_get`.
pub fn format_sdk_docs(response: &Json) -> (output: String)
    ensures
        output@ == sdk_docs_text(response@),
{
    let mut output = "## ".to_owned();
    output.append(str_or(response.text_at("library"), "?"));
    output.append(" / ");
    output.append(str_or(response.text_at("topic"), "general"));
    output.append("\n\n");
    output.append(str_or(response.text_at("docs"), "No docs."));
    output
}

/// The topics of a cached SDK in brackets, or nothing where they are all empty.
pub open spec fn topics_text(entry: JsonView) -> Seq<char> {
    let names = match entry.array_at("topics"@) {
        Some(topics) => text::joined(texts_among(topics), ", "@),
        None => Seq::empty(),
    };
    if names.len() > 0 {
        "["@ + names + "]"@
    } else {
        Seq::empty()
    }
}

/// The line for one cached SDK.
pub open spec fn sdk_line(entry: JsonView) -> Seq<char> {
    let state = if entry.bool_at("fresh"@) == Some(true) {
        "fresh"@
    } else {
        "stale"@
    };
    "  - "@ + text_or(entry.text_at("library"@), "?"@) + " ("@ + state + ") "@ + topics_text(entry)
}

/// What `format_sdk_list` writes.
pub open spec fn sdk_list_text(response: JsonView) -> Seq<char> {
    match response.array_at("cached"@) {
        Some(cached) => if cached.len() > 0 {
            text::joined(
                seq!["Cached SDKs:"@] + Seq::new(cached.len(), |i: int| sdk_line(cached[i])),
                "\n"@,
            )
        } else {
            "No cached SDKs."@
        },
        None => "No cached SDKs."@,
    }
}

fn format_sdk_line(entry: &Json) -> (line: String)
    ensures
        line@ == sdk_line(entry@),
{
    let names = match entry.array_at("topics") {
        Some(topics) => join(&collect_texts(topics), ", "),
        None => String::new(),
    };
    let fresh = match entry.bool_at("fresh") {
        Some(fresh) => fresh,
        None => false,
    };
    let mut line = "  - ".to_owned();
    line.append(str_or(entry.text_at("library"), "?"));
    line.append(" (");
    line.append(
        if fresh {
            "fresh"
        } else {
            "stale"
        },
    );
    line.append(") ");
    if !names.as_str().is_empty() {
        line.append("[");
        line.append(names.as_str());
        line.append("]");
    }
    line
}

/// Formats the answer to `sdk_cache_list`.
pub fn format_sdk_list(response: &Json) -> (output: String)
    ensures
        output@ == sdk_list_text(response@),
{
    let cached = match response.array_at("cached") {
        Some(cached) => cached,
        None => return "No cached SDKs.".to_owned(),
    };
    if cached.len() == 0 {
        return "No cached SDKs.".to_owned();
    }
    let ghost all = crate::json::values(cached@);
    let mut lines: Vec<String> = Vec::new();
    lines.push("Cached SDKs:".to_owned());
    let mut i: usize = 0;
    while i < cached.len()
        invariant
            i <= cached@.len(),
            all == crate::json::values(cached@),
            lines@.len() == i + 1,
            lines@[0]@ == "Cached SDKs:"@,
            forall|k: int| 0 < k <= i ==> (#[trigger] lines@[k])@ == sdk_line(all[k - 1]),
        decreases cached@.len() - i,
    {
        lines.push(format_sdk_line(&cached[i]));
        i += 1;
    }
    assert(text::texts(lines@) == seq!["Cached SDKs:"@] + Seq::new(
        all.len(),
        |i: int| sdk_line(all[i]),
    ));
    join(&lines, "\n")
}

/// What `format_cache_stats` writes.
pub open spec fn cache_stats_text(response: JsonView) -> Seq<char> {
    match response.get("cache_stats"@) {
        Some(stats) => exchange::pretty_lines(stats),
        None => "No cache stats."@,
    }
}

/// Formats the answer to `cache_stats`.
pub fn format_cache_stats(response: &Json) -> (output: String)
    ensures
        output@ == cache_stats_text(response@),
{
    match response.get("cache_stats") {
        Some(stats) => match pretty_text(stats) {
            Some(output) => output,
            None => "Cache stats unavailable.".to_owned(),
        },
        None => "No cache stats.".to_owned(),
    }
}

/// What is written of an answer that holds an error.
pub open spec fn error_text(response: JsonView, error: Seq<char>) -> Seq<char> {
    if response.text_at("status"@) == Some("no_index"@) {
        "No knowledge base index found. Run `mimir(action=\"reindex\")` to build it.\n\n"@ + error
    } else {
        "Error: "@ + error
    }
}

/// What is written of an answer to an action without a format of its own: its context, its
/// answer or its message, or else the whole of it.
pub open spec fn generic_text(response: JsonView) -> Seq<char> {
    let context = text_or(response.text_at("context"@), ""@);
    if context.len() > 0 {
        context
    } else if let Some(answer) = response.text_at("answer"@) {
        answer
    } else if let Some(message) = response.text_at("message"@) {
        message
    } else {
        exchange::pretty_lines(response)
    }
}

/// What is written of an answer to `action` that holds no error.
pub open spec fn answer_text(action: Seq<char>, response: JsonView) -> Seq<char> {
    if action == "enrich_task"@ {
        enrich_task_text(response)
    } else if action == "search"@ {
        search_text(response)
    } else if action == "query"@ {
        text_or(response.text_at("answer"@), "No answer returned."@)
    } else if action == "rag_workflow"@ || action == "knowledge_agent"@ {
        text_or(response.text_at("answer"@), "No response returned."@)
    } else if action == "reindex"@ {
        simple_text(response, "Reindex"@)
    } else if action == "remove_file"@ {
        simple_text(response, "Remove file"@)
    } else if action == "stats"@ {
        stats_text(response)
    } else if action == "task_health"@ {
        health_text(response)
    } else if action == "sdk_cache_get"@ {
        sdk_docs_text(response)
    } else if action == "sdk_cache_list"@ {
        sdk_list_text(response)
    } else if action == "cache_stats"@ {
        cache_stats_text(response)
    } else if action == "cache_clear"@ || action == "cache_cleanup"@ {
        simple_text(response, action)
    } else {
        generic_text(response)
    }
}

/// What `format_mimir_response` writes: an error before anything else.
pub open spec fn response_text(action: Seq<char>, response: JsonView) -> Seq<char> {
    match response.text_at("error"@) {
        Some(error) => error_text(response, error),
        None => answer_text(action, response),
    }
}

fn format_generic(response: &Json) -> (output: String)
    ensures
        output@ == generic_text(response@),
{
    proof {
        reveal_strlit("");
    }
    if let Some(context) = response.text_at("context") {
        if !context.is_empty() {
            return context.to_owned();
        }
    }
    if let Some(answer) = response.text_at("answer") {
        return answer.to_owned();
    }
    if let Some(message) = response.text_at("message") {
        return message.to_owned();
    }
    match pretty_text(response) {
        Some(output) => output,
        None => display_text(response),
    }
}

/// Formats the answer of the bridge to `action`.
pub fn format_mimir_response(action: &str, response: &Json) -> (output: String)
    ensures
        output@ == response_text(action@, response@),
{
    if let Some(error) = response.text_at("error") {
        let no_index = match response.text_at("status") {
            Some(status) => same_text(status, "no_index"),
            None => false,
        };
        let mut output = if no_index {
            "No knowledge base index found. Run `mimir(action=\"reindex\")` to build it.\n\n".to_owned()
        } else {
            "Error: ".to_owned()
        };
        output.append(error);
        return output;
    }
    if same_text(action, "enrich_task") {
        format_enrich_task(response)
    } else if same_text(action, "search") {
        format_search(response)
    } else if same_text(action, "query") {
        format_query(response)
    } else if same_text(action, "rag_workflow") || same_text(action, "knowledge_agent") {
        format_agent_response(response)
    } else if same_text(action, "reindex") {
        format_simple(response, "Reindex")
    } else if same_text(action, "remove_file") {
        format_simple(response, "Remove file")
    } else if same_text(action, "stats") {
        format_stats(response)
    } else if same_text(action, "task_health") {
        format_health(response)
    } else if same_text(action, "sdk_cache_get") {
        format_sdk_docs(response)
    } else if same_text(action, "sdk_cache_list") {
        format_sdk_list(response)
    } else if same_text(action, "cache_stats") {
        format_cache_stats(response)
    } else if same_text(action, "cache_clear") || same_text(action, "cache_cleanup") {
        format_simple(response, action)
    } else {
        format_generic(response)
    }
}

/// An error comes before anything else: what is written of it does not depend on the action.
pub proof fn law_error_comes_first(action: Seq<char>, other: Seq<char>, response: JsonView)
    requires
        response.text_at("error"@) is Some,
    ensures
        response_text(action, response) == response_text(other, response),
        response_text(action, response) == error_text(response, response.text_at("error"@)->0),
{
}

/// What is written of some search results begins with what is written of the first of them:
/// they come in the order in which the bridge gave them, and keep their ranks.
pub proof fn law_search_results_in_order(results: Seq<JsonView>, first: int)
    requires
        0 <= first <= results.len(),
    ensures
        search_results_text(results.take(first)).is_prefix_of(search_results_text(results)),
    decreases results.len() - first,
{
    if first < results.len() {
        law_search_results_in_order(results, first + 1);
        let longer = results.take(first + 1);
        assert(longer.drop_last() == results.take(first));
        let shorter_text = search_results_text(results.take(first));
        let longer_text = search_results_text(longer);
        let text = search_results_text(results);
        assert(longer_text == shorter_text + search_result_text(longer.len(), longer.last()));
        assert(shorter_text == text.subrange(0, shorter_text.len() as int));
    } else {
        assert(results.take(first) == results);
        let text = search_results_text(results);
        assert(text == text.subrange(0, text.len() as int));
    }
}

/// Every search result is written, with its rank, its source, its score and its text.
pub proof fn law_every_search_result_is_written(results: Seq<JsonView>, i: int)
    requires
        0 <= i < results.len(),
    ensures
        (search_results_text(results.take(i)) + search_result_text(
            (i + 1) as nat,
            results[i],
        )).is_prefix_of(search_results_text(results)),
{
    law_search_results_in_order(results, i + 1);
    assert(results.take(i + 1).drop_last() == results.take(i));
    assert(results.take(i + 1).last() == results[i]);
}

/// The context of an answer to `enrich_task` comes through whole: it ends what is written of an
/// answer that is not `no_results`, and it is all of that but for a routed answer that is `ok`.
pub proof fn law_context_comes_through(response: JsonView, context: Seq<char>)
    requires
        response.text_at("context"@) == Some(context) || response.text_at("context"@) is None
            && context.len() == 0,
        response.text_at("status"@) != Some("no_results"@),
    ensures
        context.is_suffix_of(enrich_task_text(response)),
        response.text_at("status"@) != Some("ok"@) || response.text_at("routed_to"@) is None
            || response.text_at("routed_to"@)->0.len() == 0 ==> enrich_task_text(response)
            == context,
{
    reveal_strlit("");
    reveal_strlit("ok");
    reveal_strlit("unknown");
    reveal_strlit("no_results");
    assert("unknown"@.len() != "ok"@.len() && "unknown"@.len() != "no_results"@.len());
    let text = enrich_task_text(response);
    assert(context == text.subrange(text.len() - context.len(), text.len() as int));
}

/// What stands before the context of an answer that is `ok` names the route, the time, which is
/// zero where none is given, and the cache where it was hit.
pub proof fn law_route_is_named(response: JsonView, route: Seq<char>)
    requires
        response.text_at("status"@) == Some("ok"@),
        response.text_at("routed_to"@) == Some(route),
        route.len() > 0,
    ensures
        enrich_task_text(response) == "[Mimir: routed to "@ + route + " ("@ + (
        match response.u64_at("elapsed_ms"@) {
            Some(n) => text::decimal(n as nat),
            None => text::decimal(0),
        }) + (if response.bool_at("cache_hit"@) == Some(true) {
            "ms), cache hit]\n\n"@
        } else {
            "ms)]\n\n"@
        }) + (match response.text_at("context"@) {
            Some(context) => context,
            None => Seq::empty(),
        }),
{
    reveal_strlit("");
    reveal_strlit("ms)");
    reveal_strlit(", cache hit");
    reveal_strlit("]\n\n");
    reveal_strlit("ms), cache hit]\n\n");
    reveal_strlit("ms)]\n\n");
    assert("ms)"@ + ", cache hit"@ + "]\n\n"@ =~= "ms), cache hit]\n\n"@);
    assert("ms)"@ + Seq::<char>::empty() + "]\n\n"@ =~= "ms)]\n\n"@);
}

/// An answer to `enrich_task` without results says so, and adds its suggestion.
pub proof fn law_no_results_are_reported(response: JsonView)
    requires
        response.text_at("status"@) == Some("no_results"@),
    ensures
        enrich_task_text(response) == "No project context found for this "@ + "task."@ + "\n"@ + (
        match response.text_at("suggestion"@) {
            Some(suggestion) => suggestion,
            None => Seq::empty(),
        }),
{
    reveal_strlit("");
    reveal_strlit("ok");
    reveal_strlit("no_results");
    reveal_strlit("task.\n");
    reveal_strlit("task.");
    reveal_strlit("\n");
    assert("task."@ + "\n"@ =~= "task.\n"@);
    assert("ok"@.len() != "no_results"@.len());
}

/// An answer that was not in the cache is written as one that does not speak of the cache; one
/// that was is written with `, cache hit` more where it is `ok` and has a route, and the same
/// where not.
pub proof fn law_cache_hit(fields: Map<Seq<char>, JsonView>)
    ensures
        ({
            let silent = JsonView::Object(fields.remove("cache_hit"@));
            let missed = JsonView::Object(fields.insert("cache_hit"@, JsonView::Bool(false)));
            let hit = JsonView::Object(fields.insert("cache_hit"@, JsonView::Bool(true)));
            let routed = silent.text_at("status"@) == Some("ok"@) && (silent.text_at(
                "routed_to"@,
            ) matches Some(route) && route.len() > 0);
            let note = ", cache hit"@;
            &&& enrich_task_text(missed) == enrich_task_text(silent)
            &&& !routed ==> enrich_task_text(hit) == enrich_task_text(silent)
            &&& routed ==> exists|at: int|
                0 <= at <= enrich_task_text(silent).len() && enrich_task_text(hit)
                    == #[trigger] enrich_task_text(silent).take(at) + note + enrich_task_text(
                    silent,
                ).skip(at)
        }),
{
    reveal_strlit("");
    reveal_strlit("status");
    reveal_strlit("context");
    reveal_strlit("routed_to");
    reveal_strlit("elapsed_ms");
    reveal_strlit("cache_hit");
    reveal_strlit("suggestion");
    reveal_strlit("ok");
    reveal_strlit("unknown");
    assert("unknown"@.len() != "ok"@.len());
    assert("cache_hit"@.len() != "status"@.len() && "cache_hit"@.len() != "context"@.len());
    assert("cache_hit"@.len() != "elapsed_ms"@.len() && "cache_hit"@.len() != "suggestion"@.len());
    assert("cache_hit"@[0] != "routed_to"@[0]);
    let silent = JsonView::Object(fields.remove("cache_hit"@));
    let hit = JsonView::Object(fields.insert("cache_hit"@, JsonView::Bool(true)));
    if silent.text_at("status"@) == Some("ok"@) && (silent.text_at("routed_to"@) matches Some(route)
        && route.len() > 0) {
        let elapsed = match silent.u64_at("elapsed_ms"@) {
            Some(n) => n,
            None => 0,
        };
        let head = "[Mimir: routed to "@ + silent.text_at("routed_to"@)->0 + " ("@ + text::decimal(
            elapsed as nat,
        ) + "ms)"@;
        let at = head.len() as int;
        let text = enrich_task_text(silent);
        assert(text.take(at) =~= head);
        assert(enrich_task_text(hit) =~= text.take(at) + ", cache hit"@ + text.skip(at));
    }
}

/// A search result is written with its rank and its source, and its text comes through whole.
pub proof fn law_search_result_comes_through(rank: nat, result: JsonView)
    ensures
        result.text_at("text"@) matches Some(given) ==> (")\n"@ + given + "\n\n"@).is_suffix_of(
            search_result_text(rank, result),
        ),
        result.text_at("text"@) is None ==> ")\n\n\n"@.is_suffix_of(
            search_result_text(rank, result),
        ),
        result.text_at("source"@) matches Some(source) ==> ("["@ + text::decimal(rank) + "] "@
            + source + " (score: "@).is_prefix_of(search_result_text(rank, result)),
        result.text_at("source"@) is None ==> ("["@ + text::decimal(rank)
            + "] unknown (score: "@).is_prefix_of(search_result_text(rank, result)),
{
    let text = search_result_text(rank, result);
    reveal_strlit("");
    reveal_strlit("\n\n");
    reveal_strlit(")\n");
    reveal_strlit(")\n\n\n");
    reveal_strlit("] ");
    reveal_strlit("unknown");
    reveal_strlit(" (score: ");
    reveal_strlit("] unknown (score: ");
    assert("] "@ + "unknown"@ + " (score: "@ =~= "] unknown (score: "@);
    assert(")\n"@ + ""@ + "\n\n"@ =~= ")\n\n\n"@);
    let tail = ")\n"@ + text_or(result.text_at("text"@), ""@) + "\n\n"@;
    assert(tail =~= text.subrange(text.len() - tail.len(), text.len() as int));
    let head = "["@ + text::decimal(rank) + "] "@ + text_or(result.text_at("source"@), "unknown"@)
        + " (score: "@;
    assert(head =~= text.subrange(0, head.len() as int));
    if result.text_at("source"@) is None {
        assert(head =~= "["@ + text::decimal(rank) + "] unknown (score: "@);
    }
}

/// Between its source and its text a search result has its score to three places, or zero where
/// it has none: what is written is nothing but those and the marks between them.
pub proof fn law_search_result_has_its_score(rank: nat, result: JsonView, score: Seq<char>)
    requires
        match result.get("score"@) {
            Some(value) => match exchange::to_places(exchange::settled(value), 3) {
                Some(places) => score == places,
                None => score == "0.000"@,
            },
            None => score == "0.000"@,
        },
    ensures
        search_result_text(rank, result) == seq!['['] + text::decimal(rank) + "] "@ + (
        match result.text_at("source"@) {
            Some(source) => source,
            None => "unknown"@,
        }) + " (score: "@ + score + ")\n"@ + (match result.text_at("text"@) {
            Some(given) => given,
            None => Seq::empty(),
        }) + "\n\n"@,
{
    reveal_strlit("");
    reveal_strlit("[");
    assert("["@ =~= seq!['[']);
}

/// One more search result is written behind the others, with the next rank, and nothing else
/// is written. An answer without results says so.
pub proof fn law_search_result_more(response: JsonView, results: Seq<JsonView>, result: JsonView)
    ensures
        search_results_text(results.push(result)) == search_results_text(results)
            + search_result_text(results.len() + 1, result),
        search_results_text(Seq::empty()).len() == 0,
        response.array_at("results"@) == Some(results.push(result)) ==> search_text(response)
            == search_results_text(results) + search_result_text(results.len() + 1, result),
        response.array_at("results"@) is None || response.array_at("results"@)->0.len() == 0
            ==> search_text(response) == "No search results found."@,
{
    assert(results.push(result).drop_last() =~= results);
}

/// The message of an answer comes through whole; without one it is said that what was asked for
/// is completed.
pub proof fn law_message_comes_through(response: JsonView, label: Seq<char>)
    ensures
        response.text_at("message"@) matches Some(message) ==> simple_text(response, label)
            == message,
        response.text_at("message"@) is None ==> simple_text(response, label) == label
            + " completed."@,
{
}

/// The texts among some values are those of the two halves of it, wherever it is cut; a text
/// counts, and nothing else does.
pub proof fn law_texts_among_halves(items: Seq<JsonView>, more: Seq<JsonView>, item: JsonView)
    ensures
        texts_among(items + more) == texts_among(items) + texts_among(more),
        item matches JsonView::Text(text) ==> texts_among(seq![item]) == seq![text],
        !(item is Text) ==> texts_among(seq![item]).len() == 0,
        texts_among(Seq::empty()).len() == 0,
    decreases more.len(),
{
    reveal_with_fuel(texts_among, 2);
    assert(seq![item].drop_last() =~= Seq::<JsonView>::empty());
    if more.len() == 0 {
        assert(items + more =~= items);
    } else {
        assert((items + more).drop_last() =~= items + more.drop_last());
        law_texts_among_halves(items, more.drop_last(), item);
    }
}

/// Each of the statistics has its line where it is given, and none where it is not, in one order:
/// the project, the index, the documents, the source files, the code directories.
pub proof fn law_statistics_have_lines(stats: JsonView)
    ensures
        stats_lines(stats) == (match stats.text_at("project_root"@) {
            Some(root) => seq!["Project: "@ + root],
            None => seq![],
        }) + (match stats.bool_at("has_index"@) {
            Some(has) => if has {
                seq!["Index: yes"@]
            } else {
                seq!["Index: no"@]
            },
            None => seq![],
        }) + (match stats.get("document_count"@) {
            Some(count) => match count.as_u64() {
                Some(n) => seq!["Documents: "@ + text::decimal(n as nat)],
                None => seq!["Documents: "@ + exchange::compact(exchange::settled(count))],
            },
            None => seq![],
        }) + (match stats.u64_at("source_files"@) {
            Some(n) => seq!["Source files: "@ + text::decimal(n as nat)],
            None => seq![],
        }) + (match stats.array_at("code_dirs"@) {
            Some(dirs) => if texts_among(dirs).len() > 0 {
                seq!["Code dirs: "@ + text::joined(texts_among(dirs), ", "@)]
            } else {
                seq![]
            },
            None => seq![],
        }),
{
    reveal_strlit("Index: ");
    reveal_strlit("yes");
    reveal_strlit("no");
    reveal_strlit("Index: yes");
    reveal_strlit("Index: no");
    assert("Index: "@ + "yes"@ =~= "Index: yes"@);
    assert("Index: "@ + "no"@ =~= "Index: no"@);
}

/// Each fact of the health has its line where it is given, and none where it is not, in one
/// order: the router, the index, the number of results, the classifier.
pub proof fn law_health_has_lines(health: JsonView)
    ensures
        health_lines(health) == (match health.bool_at("enabled"@) {
            Some(on) => if on {
                seq!["Router: enabled"@]
            } else {
                seq!["Router: disabled"@]
            },
            None => seq![],
        }) + (match health.bool_at("has_index"@) {
            Some(has) => if has {
                seq!["Index: ready"@]
            } else {
                seq!["Index: missing"@]
            },
            None => seq![],
        }) + (match health.u64_at("top_k"@) {
            Some(n) => seq!["Top-K: "@ + text::decimal(n as nat)],
            None => seq![],
        }) + (match health.bool_at("neural_classifier_enabled"@) {
            Some(on) => if on {
                seq!["Neural classifier: on"@]
            } else {
                seq!["Neural classifier: off"@]
            },
            None => seq![],
        }),
{
    reveal_strlit("Router: ");
    reveal_strlit("enabled");
    reveal_strlit("disabled");
    reveal_strlit("Router: enabled");
    reveal_strlit("Router: disabled");
    reveal_strlit("Index: ");
    reveal_strlit("ready");
    reveal_strlit("missing");
    reveal_strlit("Index: ready");
    reveal_strlit("Index: missing");
    reveal_strlit("Neural classifier: ");
    reveal_strlit("on");
    reveal_strlit("off");
    reveal_strlit("Neural classifier: on");
    reveal_strlit("Neural classifier: off");
    assert("Router: "@ + "enabled"@ =~= "Router: enabled"@);
    assert("Router: "@ + "disabled"@ =~= "Router: disabled"@);
    assert("Index: "@ + "ready"@ =~= "Index: ready"@);
    assert("Index: "@ + "missing"@ =~= "Index: missing"@);
    assert("Neural classifier: "@ + "on"@ =~= "Neural classifier: on"@);
    assert("Neural classifier: "@ + "off"@ =~= "Neural classifier: off"@);
}

/// Statistics, health and the statistics of the cache are written of the field that holds them,
/// line by line or as JSON; without the field it is said that there are none.
pub proof fn law_reports_by_field(response: JsonView)
    ensures
        response.get("stats"@) matches Some(stats) ==> stats_text(response) == text::joined(
            stats_lines(stats),
            seq!['\n'],
        ),
        response.get("stats"@) is None ==> stats_text(response) == "No stats available."@,
        response.get("health"@) matches Some(health) ==> health_text(response) == text::joined(
            health_lines(health),
            seq!['\n'],
        ),
        response.get("health"@) is None ==> health_text(response) == "No health data."@,
        response.get("cache_stats"@) matches Some(stats) ==> cache_stats_text(response)
            == exchange::pretty_lines(stats),
        response.get("cache_stats"@) is None ==> cache_stats_text(response) == "No cache stats."@,
{
    reveal_strlit("\n");
    assert("\n"@ =~= seq!['\n']);
}

/// The docs of a library come through whole, under a heading with the library and the topic.
pub proof fn law_docs_come_through(response: JsonView)
    ensures
        response.text_at("docs"@) matches Some(docs) ==> docs.is_suffix_of(sdk_docs_text(response)),
        sdk_docs_text(response) == "## "@ + (match response.text_at("library"@) {
            Some(library) => library,
            None => seq!['?'],
        }) + " / "@ + (match response.text_at("topic"@) {
            Some(topic) => topic,
            None => "general"@,
        }) + "\n\n"@ + (match response.text_at("docs"@) {
            Some(docs) => docs,
            None => "No docs."@,
        }),
{
    reveal_strlit("?");
    assert("?"@ =~= seq!['?']);
    if let Some(docs) = response.text_at("docs"@) {
        let text = sdk_docs_text(response);
        assert(docs =~= text.subrange(text.len() - docs.len(), text.len() as int));
    }
}

/// A cached library has a line with its name, whether it is fresh, which it is only where that
/// is said, and its topics in brackets where they are not all empty.
pub proof fn law_cached_library_has_its_line(entry: JsonView)
    ensures
        sdk_line(entry) == "  - "@ + (match entry.text_at("library"@) {
            Some(library) => library,
            None => seq!['?'],
        }) + (if entry.bool_at("fresh"@) == Some(true) {
            " (fresh) "@
        } else {
            " (stale) "@
        }) + (match entry.array_at("topics"@) {
            Some(topics) => if text::joined(texts_among(topics), ", "@).len() > 0 {
                seq!['['] + text::joined(texts_among(topics), ", "@) + seq![']']
            } else {
                seq![]
            },
            None => seq![],
        }),
{
    reveal_strlit("?");
    reveal_strlit("[");
    reveal_strlit("]");
    reveal_strlit(" (");
    reveal_strlit(") ");
    reveal_strlit("fresh");
    reveal_strlit("stale");
    reveal_strlit(" (fresh) ");
    reveal_strlit(" (stale) ");
    assert("?"@ =~= seq!['?']);
    assert("["@ =~= seq!['['] && "]"@ =~= seq![']']);
    assert(" ("@ + "fresh"@ + ") "@ =~= " (fresh) "@);
    assert(" ("@ + "stale"@ + ") "@ =~= " (stale) "@);
}

/// The list of cached libraries has a line for each of them, in order, below its heading. One
/// more library is one more line.
pub proof fn law_cached_library_more(response: JsonView, cached: Seq<JsonView>, entry: JsonView)
    requires
        response.array_at("cached"@) == Some(cached.push(entry)),
    ensures
        cached.len() == 0 ==> sdk_list_text(response) == "Cached SDKs:\n"@ + sdk_line(entry),
        forall|other: JsonView|
            cached.len() > 0 && other.array_at("cached"@) == Some(cached) ==> sdk_list_text(
                response,
            ) == #[trigger] sdk_list_text(other) + seq!['\n'] + sdk_line(entry),
{
    reveal_strlit("\n");
    reveal_strlit("Cached SDKs:");
    reveal_strlit("Cached SDKs:\n");
    assert("\n"@ =~= seq!['\n']);
    assert("Cached SDKs:"@ + "\n"@ =~= "Cached SDKs:\n"@);
    let all = cached.push(entry);
    let lines = seq!["Cached SDKs:"@] + Seq::new(all.len(), |i: int| sdk_line(all[i]));
    let before = seq!["Cached SDKs:"@] + Seq::new(cached.len(), |i: int| sdk_line(cached[i]));
    assert(lines.drop_last() =~= before);
    assert(lines.last() == sdk_line(entry));
    if cached.len() == 0 {
        assert(before =~= seq!["Cached SDKs:"@]);
        assert(text::joined(before, "\n"@) == "Cached SDKs:"@);
    }
}

/// Where no library is cached, that is said.
pub proof fn law_no_cached_libraries(response: JsonView)
    ensures
        response.array_at("cached"@) is None || response.array_at("cached"@)->0.len() == 0
            ==> sdk_list_text(response) == "No cached SDKs."@,
{
}

/// The text of an error comes through whole, with a word on how to build the index where that is
/// what is missing.
pub proof fn law_error_comes_through(action: Seq<char>, response: JsonView, error: Seq<char>)
    requires
        response.text_at("error"@) == Some(error),
    ensures
        response.text_at("status"@) == Some("no_index"@) ==> response_text(action, response)
            == "No knowledge base index found. Run `mimir(action=\"reindex\")` to build it.\n\n"@
            + error,
        response.text_at("status"@) != Some("no_index"@) ==> response_text(action, response)
            == "Error: "@ + error,
{
}

/// An action without a format of its own gives the first of the context, the answer and the
/// message that is there, whole; an empty context does not count. Without any of them it gives
/// the whole answer.
pub proof fn law_generic_answer(response: JsonView)
    ensures
        response.text_at("context"@) matches Some(context) ==> (context.len() > 0 ==> generic_text(
            response,
        ) == context),
        response.text_at("context"@) is None || response.text_at("context"@)->0.len() == 0 ==> {
            &&& response.text_at("answer"@) matches Some(answer) ==> generic_text(response)
                == answer
            &&& response.text_at("answer"@) is None ==> (match response.text_at("message"@) {
                Some(message) => generic_text(response) == message,
                None => generic_text(response) == exchange::pretty_lines(response),
            })
        },
{
    reveal_strlit("");
}

} // verus!
