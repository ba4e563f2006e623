use mimir_bridge::bridge::{request_text, BridgeOutcome};
use mimir_bridge::exchange::{compact_text, read};
use mimir_bridge::json::{object, Json, Number};
use mimir_bridge::logging::{Event, Level};
use mimir_bridge::response::{
    format_agent_response, format_cache_stats, format_enrich_task, format_health,
    format_mimir_response, format_query, format_sdk_docs, format_sdk_list, format_search,
    format_simple, format_stats,
};
use mimir_bridge::tool::{
    prepare, report, report_answer, report_exit, start_event, MimirInput, MimirTool, Preparation,
    ToolOutput,
};

fn text(text: &str) -> Json {
    Json::Text(text.to_string())
}

fn number(n: u64) -> Json {
    Json::Number(Number::PosInt(n))
}

fn float(text: &str) -> Json {
    Json::Number(Number::Float(text.to_string()))
}

fn fields(pairs: Vec<(&str, Json)>) -> Json {
    object(pairs.into_iter().map(|(key, value)| (key.to_string(), value)).collect())
}

fn json(text: &str) -> Json {
    read(text).unwrap()
}

fn exited(success: bool, stdout: &[u8], stderr: &[u8]) -> BridgeOutcome {
    BridgeOutcome::Exited {
        success,
        status: "exit status: 3".to_string(),
        stdout: stdout.to_vec(),
        stderr: stderr.to_vec(),
    }
}

fn title(output: &ToolOutput) -> &str {
    output.title.as_ref().unwrap()
}

#[test]
fn test_tool_name() {
    let tool = MimirTool::new();
    assert_eq!(tool.name(), "mimir");
}

#[test]
fn test_tool_description() {
    let tool = MimirTool::new();
    assert!(tool.description().contains("knowledge base"));
}

#[test]
fn test_parameters_schema() {
    let tool = MimirTool::new();
    let schema = tool.parameters_schema(fields(vec![("type", text("string"))]));
    assert_eq!(schema.text_at("type"), Some("object"));
    let properties = schema.get("properties").unwrap();
    assert!(matches!(properties.get("action"), Some(Json::Object(_))));
    assert!(matches!(properties.get("params"), Some(Json::Object(_))));

    let actions = properties.get("action").unwrap().array_at("enum").unwrap();
    assert!(actions.iter().any(|a| a.as_str() == Some("enrich_task")));
    assert!(actions.iter().any(|a| a.as_str() == Some("search")));
    assert!(actions.iter().any(|a| a.as_str() == Some("sdk_cache_get")));
    assert_eq!(actions.len(), 14);
}

#[test]
fn test_format_enrich_task_ok() {
    let response = fields(vec![
        ("status", text("ok")),
        ("context", text("Auth module uses JWT tokens.")),
        ("routed_to", text("vector")),
        ("elapsed_ms", number(150)),
        ("cache_hit", Json::Bool(false)),
    ]);
    let formatted = format_enrich_task(&response);
    assert!(formatted.contains("Auth module uses JWT tokens"));
    assert!(formatted.contains("vector"));
}

#[test]
fn test_format_search() {
    let response = fields(vec![
        ("status", text("ok")),
        (
            "results",
            Json::Array(vec![
                fields(vec![
                    ("source", text("auth.rs")),
                    ("score", float("0.95")),
                    ("text", text("fn login()")),
                ]),
                fields(vec![
                    ("source", text("middleware.rs")),
                    ("score", float("0.80")),
                    ("text", text("fn verify()")),
                ]),
            ]),
        ),
    ]);
    let formatted = format_search(&response);
    assert!(formatted.contains("auth.rs"));
    assert!(formatted.contains("middleware.rs"));
    assert!(formatted.contains("0.950"));
    assert_eq!(
        formatted,
        "[1] auth.rs (score: 0.950)\nfn login()\n\n[2] middleware.rs (score: 0.800)\nfn verify()\n\n"
    );
}

#[test]
fn test_format_search_empty() {
    let response = fields(vec![("status", text("ok")), ("results", Json::Array(vec![]))]);
    let formatted = format_search(&response);
    assert!(formatted.contains("No search results"));
}

#[test]
fn test_format_error() {
    let response = fields(vec![
        ("error", text("No index found")),
        ("status", text("no_index")),
    ]);
    let formatted = format_mimir_response("search", &response);
    assert!(formatted.contains("No knowledge base index found"));
    assert!(formatted.contains("reindex"));
}

#[test]
fn test_format_stats() {
    let response = fields(vec![
        ("status", text("ok")),
        (
            "stats",
            fields(vec![
                ("project_root", text("/home/user/project")),
                ("has_index", Json::Bool(true)),
                ("document_count", number(42)),
                ("source_files", number(150)),
                ("code_dirs", Json::Array(vec![text("src"), text("tests")])),
            ]),
        ),
    ]);
    let formatted = format_stats(&response);
    assert!(formatted.contains("42"));
    assert!(formatted.contains("150"));
    assert!(formatted.contains("src, tests"));
    assert_eq!(
        formatted,
        "Project: /home/user/project\nIndex: yes\nDocuments: 42\nSource files: 150\nCode dirs: src, tests"
    );
}

#[test]
fn schema_in_full() {
    let schema = MimirTool::new().parameters_schema(Json::Null);
    let expected = [
        r#"{"properties":{"action":{"description":"Action to perform.","enum":["#,
        r#""enrich_task","search","query","rag_workflow","knowledge_agent","reindex","#,
        r#""remove_file","stats","task_health","sdk_cache_get","sdk_cache_list","#,
        r#""cache_stats","cache_clear","cache_cleanup"],"type":"string"},"intent":null,"#,
        r#""params":{"description":"Action-specific parameters.","properties":{"#,
        r#""file_path":{"description":"File path for remove_file.","type":"string"},"#,
        r#""force":{"description":"Force reindex (default: false).","type":"boolean"},"#,
        r#""library":{"description":"Library name for sdk_cache_get.","type":"string"},"#,
        r#""query":{"description":"Search/query text.","type":"string"},"#,
        r#""question":{"description":"Question for query/knowledge_agent.","type":"string"},"#,
        r#""response_shape":{"description":"JSON schema for rag_workflow structured output.","type":"string"},"#,
        r#""task":{"description":"Task description for enrich_task.","type":"string"},"#,
        r#""top_k":{"description":"Number of results (default: 5).","type":"integer"},"#,
        r#""topic":{"description":"Topic for sdk_cache_get (default: general).","type":"string"}},"#,
        r#""type":"object"}},"required":["action"],"type":"object"}"#,
    ]
    .concat();
    assert_eq!(compact_text(&schema).unwrap(), expected);
}

#[test]
fn no_action_is_offered_twice() {
    let schema = MimirTool::new().parameters_schema(text("intent"));
    let properties = schema.get("properties").unwrap();
    assert_eq!(properties.text_at("intent"), Some("intent"));
    let actions = properties.get("action").unwrap().array_at("enum").unwrap();
    for (i, action) in actions.iter().enumerate() {
        assert!(actions[..i].iter().all(|other| other.as_str() != action.as_str()));
    }
    let required = schema.array_at("required").unwrap();
    assert_eq!(required.len(), 1);
    assert_eq!(required[0].as_str(), Some("action"));
}

#[test]
fn enrich_task_in_full() {
    let hit = json(r#"{"status":"ok","context":"C","routed_to":"vector","elapsed_ms":150,"cache_hit":true}"#);
    assert_eq!(format_enrich_task(&hit), "[Mimir: routed to vector (150ms), cache hit]\n\nC");
    let miss = json(r#"{"status":"ok","context":"C","routed_to":"graph","elapsed_ms":-1}"#);
    assert_eq!(format_enrich_task(&miss), "[Mimir: routed to graph (0ms)]\n\nC");
    let bare = json(r#"{"status":"ok","context":"C","routed_to":""}"#);
    assert_eq!(format_enrich_task(&bare), "C");
    let none = json(r#"{"status":"no_results","suggestion":"Index more."}"#);
    assert_eq!(
        format_enrich_task(&none),
        format!("No project context found for this {}.\nIndex more.", "task")
    );
    assert_eq!(format_enrich_task(&json(r#"{"context":"C"}"#)), "C");
    assert_eq!(format_enrich_task(&json(r#"[]"#)), "");
}

#[test]
fn search_defaults() {
    let response = json(r#"{"results":[{},{"score":2,"source":7},{"score":"high","text":"t"},5]}"#);
    assert_eq!(
        format_search(&response),
        "[1] unknown (score: 0.000)\n\n\n[2] unknown (score: 2.000)\n\n\n[3] unknown (score: 0.000)\nt\n\n[4] unknown (score: 0.000)\n\n\n"
    );
    assert_eq!(format_search(&json(r#"{"results":{}}"#)), "No search results found.");
    assert_eq!(format_search(&Json::Null), "No search results found.");
}

#[test]
fn search_results_keep_their_order() {
    let two = json(r#"{"results":[{"source":"a"},{"source":"b"}]}"#);
    let three = json(r#"{"results":[{"source":"a"},{"source":"b"},{"source":"c"}]}"#);
    assert!(format_search(&three).starts_with(&format_search(&two)));
    let many = (0..12).map(|_| "{}").collect::<Vec<_>>().join(",");
    let all = format_search(&json(&format!("{{\"results\":[{}]}}", many)));
    assert!(all.contains("[10] ") && all.contains("[12] ") && !all.contains("[13] "));
}

#[test]
fn score_rounds_to_three_places() {
    let response = json(r#"{"results":[{"score":0.12345},{"score":-1.5},{"score":1e3}]}"#);
    let formatted = format_search(&response);
    assert!(formatted.contains("(score: 0.123)"));
    assert!(formatted.contains("(score: -1.500)"));
    assert!(formatted.contains("(score: 1000.000)"));
}

#[test]
fn answers_and_messages() {
    assert_eq!(format_query(&json(r#"{"answer":"A"}"#)), "A");
    assert_eq!(format_query(&json("{}")), "No answer returned.");
    assert_eq!(format_agent_response(&json(r#"{"answer":"A"}"#)), "A");
    assert_eq!(format_agent_response(&json("{}")), "No response returned.");
    assert_eq!(format_simple(&json(r#"{"message":"M"}"#), "Reindex"), "M");
    assert_eq!(format_simple(&json("{}"), "Reindex"), "Reindex completed.");
}

#[test]
fn stats_edges() {
    assert_eq!(format_stats(&json("{}")), "No stats available.");
    assert_eq!(format_stats(&json(r#"{"stats":null}"#)), "");
    let odd = json(r#"{"stats":{"has_index":false,"document_count":{"a":[1,2.5]},"source_files":1.5,"code_dirs":[1]}}"#);
    assert_eq!(format_stats(&odd), "Index: no\nDocuments: {\"a\":[1,2.5]}");
    let mixed = json(r#"{"stats":{"document_count":"many","code_dirs":["a",1,"b"]}}"#);
    assert_eq!(format_stats(&mixed), "Documents: \"many\"\nCode dirs: a, b");
}

#[test]
fn health_in_full() {
    let on = json(r#"{"health":{"enabled":true,"has_index":true,"top_k":5,"neural_classifier_enabled":true}}"#);
    assert_eq!(format_health(&on), "Router: enabled\nIndex: ready\nTop-K: 5\nNeural classifier: on");
    let off = json(r#"{"health":{"enabled":false,"has_index":false,"neural_classifier_enabled":false}}"#);
    assert_eq!(format_health(&off), "Router: disabled\nIndex: missing\nNeural classifier: off");
    assert_eq!(format_health(&json("{}")), "No health data.");
}

#[test]
fn sdk_docs_and_list() {
    let docs = json(r#"{"library":"tokio","topic":"time","docs":"D"}"#);
    assert_eq!(format_sdk_docs(&docs), "## tokio / time\n\nD");
    assert_eq!(format_sdk_docs(&json("{}")), "## ? / general\n\nNo docs.");
    let list = json(
        r#"{"cached":[{"library":"tokio","fresh":true,"topics":["a",1,"b"]},{"library":"serde"},{"topics":[""]}]}"#,
    );
    assert_eq!(
        format_sdk_list(&list),
        "Cached SDKs:\n  - tokio (fresh) [a, b]\n  - serde (stale) \n  - ? (stale) "
    );
    assert_eq!(format_sdk_list(&json(r#"{"cached":[]}"#)), "No cached SDKs.");
    assert_eq!(format_sdk_list(&json("{}")), "No cached SDKs.");
}

#[test]
fn cache_stats_are_pretty() {
    let stats = json(r#"{"cache_stats":{"hits":3,"rate":0.5}}"#);
    assert_eq!(format_cache_stats(&stats), "{\n  \"hits\": 3,\n  \"rate\": 0.5\n}");
    assert_eq!(format_cache_stats(&json("{}")), "No cache stats.");
}

#[test]
fn every_action_has_its_format() {
    let empty = json("{}");
    let cases = vec![
        ("enrich_task", ""),
        ("search", "No search results found."),
        ("query", "No answer returned."),
        ("rag_workflow", "No response returned."),
        ("knowledge_agent", "No response returned."),
        ("reindex", "Reindex completed."),
        ("remove_file", "Remove file completed."),
        ("stats", "No stats available."),
        ("task_health", "No health data."),
        ("sdk_cache_get", "## ? / general\n\nNo docs."),
        ("sdk_cache_list", "No cached SDKs."),
        ("cache_stats", "No cache stats."),
        ("cache_clear", "cache_clear completed."),
        ("cache_cleanup", "cache_cleanup completed."),
        ("dance", "{}"),
    ];
    for (action, expected) in cases {
        assert_eq!(format_mimir_response(action, &empty), expected);
    }
}

#[test]
fn other_actions_are_generic() {
    let all = json(r#"{"context":"C","answer":"A","message":"M"}"#);
    assert_eq!(format_mimir_response("dance", &all), "C");
    let two = json(r#"{"context":"","answer":"","message":"M"}"#);
    assert_eq!(format_mimir_response("dance", &two), "");
    assert_eq!(format_mimir_response("dance", &json(r#"{"message":"M"}"#)), "M");
    assert_eq!(
        format_mimir_response("dance", &json(r#"{"b":1,"a":[true,null]}"#)),
        "{\n  \"a\": [\n    true,\n    null\n  ],\n  \"b\": 1\n}"
    );
}

#[test]
fn error_comes_first() {
    let error = json(r#"{"error":"boom","answer":"A"}"#);
    for action in ["query", "search", "stats", "dance"] {
        assert_eq!(format_mimir_response(action, &error), "Error: boom");
    }
    let no_index = json(r#"{"error":"E","status":"no_index"}"#);
    assert_eq!(
        format_mimir_response("query", &no_index),
        "No knowledge base index found. Run `mimir(action=\"reindex\")` to build it.\n\nE"
    );
    assert_eq!(format_mimir_response("query", &json(r#"{"error":7,"answer":"A"}"#)), "A");
}

#[test]
fn request_is_compact() {
    let params = json(r#"{"query":"x","top_k":5,"rate":0.25}"#);
    assert_eq!(
        request_text("search", Some(params)).unwrap(),
        r#"{"action":"search","params":{"query":"x","rate":0.25,"top_k":5}}"#
    );
    assert_eq!(request_text("a\"b", None).unwrap(), r#"{"action":"a\"b","params":{}}"#);
}

#[test]
fn prepare_without_a_bridge() {
    let input = MimirInput { action: "search".to_string(), params: None };
    match prepare(input, false) {
        Ok(Preparation::Reply(reply)) => {
            assert!(reply.output.starts_with("Mimir not configured in this workspace.\n\nTo set up Mimir:\n1. Clone"));
            assert!(reply.output.ends_with("sets up the knowledge base."));
            assert_eq!(title(&reply), "Mimir: Not configured");
            assert!(reply.metadata.is_none());
        }
        _ => panic!(),
    }
}

#[test]
fn prepare_with_a_bridge() {
    let input = MimirInput { action: "stats".to_string(), params: None };
    match prepare(input, true) {
        Ok(Preparation::Launch { action, request }) => {
            assert_eq!(action, "stats");
            assert_eq!(request, r#"{"action":"stats","params":{}}"#);
        }
        _ => panic!(),
    }
}

#[test]
fn report_of_an_answer() {
    let output = report("query", &exited(true, br#"{"answer":"A"}"#, b"noise"), 12).output;
    assert_eq!(output.output, "A");
    assert_eq!(title(&output), "mimir:query");
    assert_eq!(output.metadata.unwrap().text_at("answer"), Some("A"));
}

#[test]
fn report_of_a_failure_that_wrote_an_answer() {
    let output = report("query", &exited(false, br#"{"error":"E"}"#, b"trace"), 12).output;
    assert_eq!(output.output, "Error: E");
    assert!(output.metadata.is_some());
}

#[test]
fn report_of_a_silent_failure() {
    let output = report("query", &exited(false, b" \n\t", b"Traceback\n"), 12).output;
    assert_eq!(output.output, "Mimir bridge error: Traceback\n");
    assert_eq!(title(&output), "mimir:query");
    assert!(output.metadata.is_none());
    let output = report("query", &exited(false, b"", b"  \n"), 12).output;
    assert_eq!(output.output, "Mimir bridge error: Bridge exited with code exit status: 3");
}

#[test]
fn report_of_no_json() {
    let output = report("query", &exited(true, b"oops", b"warn"), 12).output;
    assert_eq!(
        output.output,
        "Failed to parse Mimir response: expected value at line 1 column 1\n\nRaw output:\noops\n\nStderr:\nwarn"
    );
    assert_eq!(title(&output), "mimir:query");
    assert!(output.metadata.is_none());
    let empty = report("query", &exited(true, b"", b""), 12).output;
    assert!(empty.output.starts_with("Failed to parse Mimir response: EOF while parsing a value"));
}

#[test]
fn report_replaces_bytes_that_are_no_text() {
    let output = report("query", &exited(false, b"", b"bad \xff byte \xc3\xa9"), 12).output;
    assert_eq!(output.output, "Mimir bridge error: bad \u{fffd} byte \u{e9}");
}

#[test]
fn report_of_a_run_that_failed_or_took_too_long() {
    let failed = report("query", &BridgeOutcome::Failed("gone".to_string()), 12).output;
    assert_eq!(failed.output, "Failed to run Mimir bridge: gone");
    assert_eq!(title(&failed), "mimir:query");
    let late = report("query", &BridgeOutcome::TimedOut, 12).output;
    assert_eq!(
        late.output,
        "Mimir bridge timed out after 120s. Try a simpler query or check if the index is built."
    );
    assert_eq!(title(&late), "mimir:query (timeout)");
}

#[test]
fn report_from_what_was_read() {
    let output = report_answer("stats", Err("bad".to_string()), "out", "err", 12).output;
    assert_eq!(
        output.output,
        "Failed to parse Mimir response: bad\n\nRaw output:\nout\n\nStderr:\nerr"
    );
    let output = report_exit("stats", false, "code", "\u{3000}\u{2003}\u{85}", "\u{a0}", 12).output;
    assert_eq!(output.output, "Mimir bridge error: Bridge exited with code code");
    let output = report_exit("stats", false, "code", "\u{200b}", "", 12).output;
    assert!(output.output.starts_with("Failed to parse Mimir response: "));
}

fn logged(event: Event) -> (Level, Vec<(String, String)>) {
    assert_eq!(event.name, "MIMIR_TOOL");
    (event.level, event.fields)
}

fn entries(pairs: &[(&str, &str)]) -> Vec<(String, String)> {
    pairs.iter().map(|(name, value)| (name.to_string(), value.to_string())).collect()
}

#[test]
fn event_before_a_run() {
    assert_eq!(
        logged(start_event("query", "s1", "c2", "/b/mimir_bridge.py")),
        (
            Level::Info,
            entries(&[
                ("phase", "start"),
                ("action", "query"),
                ("session_id", "s1"),
                ("tool_call_id", "c2"),
                ("bridge", "/b/mimir_bridge.py"),
            ])
        )
    );
}

#[test]
fn event_of_an_answer() {
    let done = report("query", &exited(true, "{\"answer\":\"caf\u{e9}\",\"status\":\"ok\"}".as_bytes(), b""), 34);
    assert_eq!(
        logged(done.event.unwrap()),
        (
            Level::Info,
            entries(&[
                ("phase", "done"),
                ("action", "query"),
                ("status", "ok"),
                ("elapsed_ms", "34"),
                ("output_bytes", "5"),
            ])
        )
    );
    let error = report("query", &exited(false, br#"{"error":"E"}"#, b""), u128::MAX);
    assert_eq!(
        logged(error.event.unwrap()),
        (
            Level::Info,
            entries(&[
                ("phase", "done"),
                ("action", "query"),
                ("status", "unknown"),
                ("elapsed_ms", "340282366920938463463374607431768211455"),
                ("output_bytes", "8"),
            ])
        )
    );
    assert!(report("query", &exited(true, b"oops", b""), 34).event.is_none());
}

#[test]
fn events_of_failures() {
    let silent = report("query", &exited(false, b" ", b""), 34);
    assert_eq!(
        logged(silent.event.unwrap()),
        (
            Level::Warn,
            entries(&[
                ("phase", "error"),
                ("action", "query"),
                ("error", "Bridge exited with code exit status: 3"),
                ("elapsed_ms", "34"),
            ])
        )
    );
    let failed = report("query", &BridgeOutcome::Failed("gone".to_string()), 34);
    assert_eq!(
        logged(failed.event.unwrap()),
        (
            Level::Warn,
            entries(&[
                ("phase", "spawn_error"),
                ("action", "query"),
                ("error", "gone"),
                ("elapsed_ms", "34"),
            ])
        )
    );
    let late = report("query", &BridgeOutcome::TimedOut, 120001);
    assert_eq!(
        logged(late.event.unwrap()),
        (
            Level::Warn,
            entries(&[
                ("phase", "timeout"),
                ("action", "query"),
                ("timeout_secs", "120"),
                ("elapsed_ms", "120001"),
            ])
        )
    );
}

#[test]
fn silent_failure_hands_no_answer_back() {
    for blank in ["", " \n", "\u{3000}"] {
        assert!(read(blank).is_err());
        let report = report_exit("query", false, "code", blank, "", 1);
        assert!(report.output.metadata.is_none());
    }
}
